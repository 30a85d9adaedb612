//! Sums over finite tables of unsigned amounts.

use vstd::prelude::*;

verus! {

/// The sum of all amounts in a finite table; 0 for an infinite one.
pub open spec fn tally<K>(table: Map<K, u128>) -> nat
    decreases table.dom().len(),
{
    if table.dom().finite() && table.dom().len() > 0 {
        let key = table.dom().choose();
        table[key] as nat + tally(table.remove(key))
    } else {
        0
    }
}

/// Any one entry can be taken out of the sum first.
pub proof fn lemma_tally_remove<K>(table: Map<K, u128>, key: K)
    requires
        table.dom().finite(),
        table.contains_key(key),
    ensures
        tally(table) == table[key] as nat + tally(table.remove(key)),
    decreases table.dom().len(),
{
    let first = table.dom().choose();
    if first != key {
        lemma_tally_remove(table.remove(first), key);
        lemma_tally_remove(table.remove(key), first);
        assert(table.remove(first).remove(key) =~= table.remove(key).remove(first));
    }
}

/// Writing an entry replaces whatever the key contributed before.
pub proof fn lemma_tally_insert<K>(table: Map<K, u128>, key: K, amount: u128)
    requires
        table.dom().finite(),
    ensures
        tally(table.insert(key, amount)) == amount as nat + tally(table.remove(key)),
        tally(table) == tally(table.remove(key)) + (if table.contains_key(key) {
            table[key] as nat
        } else {
            0
        }),
{
    lemma_tally_remove(table.insert(key, amount), key);
    assert(table.insert(key, amount).remove(key) =~= table.remove(key));
    if table.contains_key(key) {
        lemma_tally_remove(table, key);
    } else {
        assert(table.remove(key) =~= table);
    }
}

} // verus!
