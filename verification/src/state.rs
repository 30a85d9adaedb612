//! The state of the exchange as it is held and persisted: two host tables
//! and the governance settings.

use vstd::prelude::*;
use crate::address::Address;
use crate::host::{
    pool_entries, pool_table_get, pool_table_set, pool_table_typed, position_entries,
    position_table_get, position_table_typed, PoolTable, PositionTable,
};
use crate::model::{DexModel, Pool};

verus! {

/// The whole state of the exchange. It is loaded, changed and stored as one
/// record.
pub struct DEXState {
    /// The pool of each pair.
    pub pools: PoolTable,
    /// The units of each provider in each pair.
    pub user_liquidity: PositionTable,
    /// The administrator.
    pub admin: Address,
    /// The governance fee in basis points, at most 10000.
    pub fee_percentage: u32,
    /// Whether liquidity and swap operations are suspended.
    pub paused: bool,
}

impl View for DEXState {
    type V = DexModel;

    open spec fn view(&self) -> DexModel {
        let filed = pool_entries(self.pools);
        DexModel {
            pools: Map::new(
                |pair: (Address, Address)| filed.contains_key(pair),
                |pair: (Address, Address)|
                    Pool {
                        token_a: pair.0,
                        token_b: pair.1,
                        amount_a: filed[pair].0,
                        amount_b: filed[pair].1,
                        total_liquidity: filed[pair].2,
                    },
            ),
            positions: position_entries(self.user_liquidity),
            admin: self.admin,
            fee_bps: self.fee_percentage,
            paused: self.paused,
        }
    }
}

impl DEXState {
    /// Validity: both tables hold entries of their declared types, and the
    /// state they stand for is valid.
    pub open spec fn wf(&self) -> bool {
        &&& pool_table_typed(self.pools)
        &&& position_table_typed(self.user_liquidity)
        &&& self@.wf()
    }

    /// The pool of a pair, if one exists.
    pub fn pool(&self, token_a: Address, token_b: Address) -> (found: Option<Pool>)
        requires
            self.wf(),
        ensures
            found == self@.pool(token_a, token_b),
    {
        match pool_table_get(&self.pools, token_a, token_b) {
            Some(entry) => Some(
                Pool {
                    token_a,
                    token_b,
                    amount_a: entry.0,
                    amount_b: entry.1,
                    total_liquidity: entry.2,
                },
            ),
            None => None,
        }
    }

    /// The pool of a pair, or an empty pool for a pair that has none yet.
    /// The state is not changed: the empty pool is filed by the first
    /// deposit.
    pub fn get_or_create(&self, token_a: Address, token_b: Address) -> (pool: Pool)
        requires
            self.wf(),
        ensures
            pool == self@.pool_or_new(token_a, token_b),
    {
        match self.pool(token_a, token_b) {
            Some(pool) => pool,
            None => Pool { token_a, token_b, amount_a: 0, amount_b: 0, total_liquidity: 0 },
        }
    }

    /// The units that `provider` holds in the pair; 0 where nothing is
    /// recorded.
    pub fn position(&self, token_a: Address, token_b: Address, provider: Address) -> (units: u128)
        requires
            self.wf(),
        ensures
            units == self@.units(token_a, token_b, provider),
    {
        match position_table_get(&self.user_liquidity, token_a, token_b, provider) {
            Some(units) => units,
            None => 0,
        }
    }

    /// Files `pool` under its pair, in place of the pool that was there. The
    /// units issued must be those of the pool it replaces (0 for a new pair),
    /// since no position changes with it.
    pub fn upsert(&mut self, pool: Pool)
        requires
            old(self).wf(),
            pool.total_liquidity == old(self)@.issued(pool.token_a, pool.token_b),
        ensures
            final(self).wf(),
            final(self)@ == old(self)@.with_pool(pool),
    {
        pool_table_set(
            &mut self.pools,
            pool.token_a,
            pool.token_b,
            (pool.amount_a, pool.amount_b, pool.total_liquidity),
        );
        proof {
            old(self)@.lemma_with_pool_wf(pool);
            assert(self@ =~= old(self)@.with_pool(pool));
        }
    }
}

} // verus!
