//! The tables of the Soroban host in which the exchange keeps its pools and
//! positions.
//!
//! A `soroban_sdk::Map` lives in the host: Verus sees a handle and nothing of
//! its entries. This module gives the entries of each of the two tables a
//! name and states, for the three calls that the engine makes on a table
//! (`Map::new`, `Map::get`, `Map::set`), what the call does to them. Nothing
//! here is proved; the rest of the crate is proved from it.
//!
//! An address is filed as the triple of its fields, a pool as the triple of
//! its two reserves and its issued units. The host meters every call and
//! aborts the invocation when its budget is spent; the contracts below speak
//! of the calls that return.

use vstd::prelude::*;
use crate::address::Address;

verus! {

/// `soroban_sdk::Env`, the handle of the host. It is only passed on.
#[verifier::external_type_specification]
#[verifier::external_body]
pub struct ExEnv(soroban_sdk::Env);

/// `soroban_sdk::Map`, an ordered table kept by the host.
#[verifier::external_type_specification]
#[verifier::external_body]
#[verifier::reject_recursive_types(K)]
#[verifier::reject_recursive_types(V)]
pub struct ExHostMap<K, V>(soroban_sdk::Map<K, V>);

/// How an address is filed in a host table.
pub type AddressKey = (bool, u128, u128);

/// The host table of pools: from a pair of assets to the two reserves and
/// the units issued.
pub type PoolTable = soroban_sdk::Map<(AddressKey, AddressKey), (u128, u128, u128)>;

/// The host table of positions: from a pair of assets and a provider to the
/// provider's units.
pub type PositionTable = soroban_sdk::Map<(AddressKey, AddressKey, AddressKey), u128>;

/// The entries of a table of pools.
pub uninterp spec fn pool_entries(table: PoolTable) -> Map<(Address, Address), (u128, u128, u128)>;

/// Whether every entry of a table of pools has the types that `PoolTable`
/// declares. The host does not guarantee it of a table that came from
/// elsewhere, and `Map::get` panics on an entry that has another type.
pub uninterp spec fn pool_table_typed(table: PoolTable) -> bool;

/// The entries of a table of positions.
pub uninterp spec fn position_entries(table: PositionTable) -> Map<
    (Address, Address, Address),
    u128,
>;

/// Whether every entry of a table of positions has the types that
/// `PositionTable` declares.
pub uninterp spec fn position_table_typed(table: PositionTable) -> bool;

/// `Map::new`: an empty table of pools.
#[verifier::external_body]
pub(crate) fn pool_table_new(env: &soroban_sdk::Env) -> (table: PoolTable)
    ensures
        pool_table_typed(table),
        (pool_entries(table) == Map::<(Address, Address), (u128, u128, u128)>::empty()),
{
    soroban_sdk::Map::new(env)
}

/// `Map::get` on a table of pools: the entry filed under the pair, or `None`
/// where the table has none.
#[verifier::external_body]
pub(crate) fn pool_table_get(table: &PoolTable, token_a: Address, token_b: Address) -> (found:
    Option<(u128, u128, u128)>)
    requires
        pool_table_typed(*table),
    ensures
        (found == if pool_entries(*table).contains_key((token_a, token_b)) {
            Some(pool_entries(*table)[(token_a, token_b)])
        } else {
            None
        }),
{
    table.get(
        ((token_a.contract, token_a.hi, token_a.lo), (token_b.contract, token_b.hi, token_b.lo)),
    )
}

/// `Map::set` on a table of pools: the entry of the pair is written, added
/// or replaced, and every other entry stays.
#[verifier::external_body]
pub(crate) fn pool_table_set(
    table: &mut PoolTable,
    token_a: Address,
    token_b: Address,
    entry: (u128, u128, u128),
)
    requires
        pool_table_typed(*old(table)),
    ensures
        pool_table_typed(*final(table)),
        (pool_entries(*final(table)) == pool_entries(*old(table)).insert((token_a, token_b), entry)),
{
    table.set(
        ((token_a.contract, token_a.hi, token_a.lo), (token_b.contract, token_b.hi, token_b.lo)),
        entry,
    )
}

/// `Map::new`: an empty table of positions.
#[verifier::external_body]
pub(crate) fn position_table_new(env: &soroban_sdk::Env) -> (table: PositionTable)
    ensures
        position_table_typed(table),
        (position_entries(table) == Map::<(Address, Address, Address), u128>::empty()),
{
    soroban_sdk::Map::new(env)
}

/// `Map::get` on a table of positions: the units filed under the pair and
/// the provider, or `None` where the table has no such entry.
#[verifier::external_body]
pub(crate) fn position_table_get(
    table: &PositionTable,
    token_a: Address,
    token_b: Address,
    provider: Address,
) -> (found: Option<u128>)
    requires
        position_table_typed(*table),
    ensures
        (found == if position_entries(*table).contains_key((token_a, token_b, provider)) {
            Some(position_entries(*table)[(token_a, token_b, provider)])
        } else {
            None
        }),
{
    table.get(
        (
            (token_a.contract, token_a.hi, token_a.lo),
            (token_b.contract, token_b.hi, token_b.lo),
            (provider.contract, provider.hi, provider.lo),
        ),
    )
}

/// `Map::set` on a table of positions: the entry of the pair and the
/// provider is written, added or replaced, and every other entry stays.
#[verifier::external_body]
pub(crate) fn position_table_set(
    table: &mut PositionTable,
    token_a: Address,
    token_b: Address,
    provider: Address,
    units: u128,
)
    requires
        position_table_typed(*old(table)),
    ensures
        position_table_typed(*final(table)),
        (position_entries(*final(table)) == position_entries(*old(table)).insert(
            (token_a, token_b, provider),
            units,
        )),
{
    table.set(
        (
            (token_a.contract, token_a.hi, token_a.lo),
            (token_b.contract, token_b.hi, token_b.lo),
            (provider.contract, provider.hi, provider.lo),
        ),
        units,
    )
}

} // verus!
