//! The exchange as a mathematical object: what its state is, which states are
//! valid, and what each operation makes of a state.
//!
//! The executable operations are specified against the functions of this
//! module. A pair is the ordered tuple of assets as the caller gave it: the
//! pools of `(a, b)` and of `(b, a)` are distinct and share nothing.

use vstd::prelude::*;
use crate::address::Address;
use crate::error::DEXError;
use crate::pricing::{fee_share, lemma_fee_within_amount, lemma_quote_below_reserve, quote_out};
use crate::tally::{lemma_tally_insert, lemma_tally_remove, tally};

verus! {

/// The reserves of one pair and the liquidity units issued against them.
///
/// Units are the sum of the two amounts deposited, and a withdrawal names the
/// two amounts it takes. So the units issued say nothing of the reserves: a
/// pool can have units outstanding while a reserve is 0.
#[derive(Clone, Copy, Debug, PartialEq, Eq, Structural)]
pub struct Pool {
    /// The first asset of the pair.
    pub token_a: Address,
    /// The second asset of the pair.
    pub token_b: Address,
    /// The reserve of the first asset.
    pub amount_a: u128,
    /// The reserve of the second asset.
    pub amount_b: u128,
    /// The liquidity units issued to all providers of the pair.
    pub total_liquidity: u128,
}

/// The keys of the positions that belong to the pair `(token_a, token_b)`.
pub open spec fn pair_keys(token_a: Address, token_b: Address) -> Set<(Address, Address, Address)> {
    Set::new(|key: (Address, Address, Address)| key.0 == token_a && key.1 == token_b)
}

/// The state of the exchange.
#[verifier::ext_equal]
pub struct DexModel {
    /// The pool of each pair that has ever received a deposit.
    pub pools: Map<(Address, Address), Pool>,
    /// The units recorded for `(token_a, token_b, provider)`. A missing entry
    /// and an entry of 0 mean the same.
    pub positions: Map<(Address, Address, Address), u128>,
    /// The administrator.
    pub admin: Address,
    /// The governance fee in basis points.
    pub fee_bps: u32,
    /// Whether liquidity and swap operations are suspended.
    pub paused: bool,
}

impl DexModel {
    /// The state right after initialization: no pool, no position, not paused.
    pub open spec fn initial(admin: Address, fee_bps: u32) -> DexModel {
        DexModel { pools: Map::empty(), positions: Map::empty(), admin, fee_bps, paused: false }
    }

    /// The pool of a pair, if one exists.
    pub open spec fn pool(self, token_a: Address, token_b: Address) -> Option<Pool> {
        if self.pools.contains_key((token_a, token_b)) {
            Some(self.pools[(token_a, token_b)])
        } else {
            None
        }
    }

    /// The pool of a pair, or an empty pool for a pair that has none yet.
    pub open spec fn pool_or_new(self, token_a: Address, token_b: Address) -> Pool {
        match self.pool(token_a, token_b) {
            Some(pool) => pool,
            None => Pool { token_a, token_b, amount_a: 0, amount_b: 0, total_liquidity: 0 },
        }
    }

    /// The units that `provider` holds in the pair.
    pub open spec fn units(self, token_a: Address, token_b: Address, provider: Address) -> u128 {
        if self.positions.contains_key((token_a, token_b, provider)) {
            self.positions[(token_a, token_b, provider)]
        } else {
            0
        }
    }

    /// The units that the pool of the pair has issued.
    pub open spec fn issued(self, token_a: Address, token_b: Address) -> nat {
        self.pool_or_new(token_a, token_b).total_liquidity as nat
    }

    /// The units that all providers of the pair hold together.
    pub open spec fn held(self, token_a: Address, token_b: Address) -> nat {
        tally(self.positions.restrict(pair_keys(token_a, token_b)))
    }

    /// Validity: the tables are finite, each pool is filed under its own
    /// pair, the fee is at most 10000 basis points, and for every pair the
    /// units held by its providers add up to the units its pool has issued.
    pub open spec fn wf(self) -> bool {
        &&& self.pools.dom().finite()
        &&& self.positions.dom().finite()
        &&& self.fee_bps <= 10000
        &&& forall|pair: (Address, Address)| #[trigger]
            self.pools.contains_key(pair) ==> self.pools[pair].token_a == pair.0
                && self.pools[pair].token_b == pair.1
        &&& forall|token_a: Address, token_b: Address| #[trigger]
            self.held(token_a, token_b) == self.issued(token_a, token_b)
    }

    /// The state with the pool of a pair replaced.
    pub open spec fn with_pool(self, pool: Pool) -> DexModel {
        DexModel { pools: self.pools.insert((pool.token_a, pool.token_b), pool), ..self }
    }

    /// The state with the units of one provider in one pair replaced.
    pub open spec fn with_units(
        self,
        token_a: Address,
        token_b: Address,
        provider: Address,
        units: u128,
    ) -> DexModel {
        DexModel { positions: self.positions.insert((token_a, token_b, provider), units), ..self }
    }

    /// A deposit of `amount_a` and `amount_b` by `user`. It issues
    /// `amount_a + amount_b` units to the user, whatever the reserves are.
    pub open spec fn add_liquidity(
        self,
        user: Address,
        token_a: Address,
        token_b: Address,
        amount_a: u128,
        amount_b: u128,
    ) -> Result<DexModel, DEXError> {
        let pool = self.pool_or_new(token_a, token_b);
        let held = self.units(token_a, token_b, user);
        let units = amount_a + amount_b;
        if self.paused {
            Err(DEXError::Paused)
        } else if amount_a == 0 || amount_b == 0 {
            Err(DEXError::InvalidAmount)
        } else if pool.amount_a + amount_a > u128::MAX || pool.amount_b + amount_b > u128::MAX
            || pool.total_liquidity + units > u128::MAX || held + units > u128::MAX {
            Err(DEXError::Overflow)
        } else {
            Ok(
                self.with_pool(
                    Pool {
                        token_a,
                        token_b,
                        amount_a: (pool.amount_a + amount_a) as u128,
                        amount_b: (pool.amount_b + amount_b) as u128,
                        total_liquidity: (pool.total_liquidity + units) as u128,
                    },
                ).with_units(token_a, token_b, user, (held + units) as u128),
            )
        }
    }

    /// A withdrawal of `amount_a` and `amount_b` by `user`. It is paid for
    /// with `amount_a + amount_b` of the user's units.
    pub open spec fn remove_liquidity(
        self,
        user: Address,
        token_a: Address,
        token_b: Address,
        amount_a: u128,
        amount_b: u128,
    ) -> Result<DexModel, DEXError> {
        let held = self.units(token_a, token_b, user);
        let units = amount_a + amount_b;
        if self.paused {
            Err(DEXError::Paused)
        } else if amount_a == 0 || amount_b == 0 {
            Err(DEXError::InvalidAmount)
        } else {
            match self.pool(token_a, token_b) {
                None => Err(DEXError::PoolNotFound),
                Some(pool) => if pool.amount_a < amount_a || pool.amount_b < amount_b || held
                    < units {
                    Err(DEXError::InsufficientLiquidity)
                } else {
                    Ok(
                        self.with_pool(
                            Pool {
                                token_a,
                                token_b,
                                amount_a: (pool.amount_a - amount_a) as u128,
                                amount_b: (pool.amount_b - amount_b) as u128,
                                total_liquidity: (pool.total_liquidity - units) as u128,
                            },
                        ).with_units(token_a, token_b, user, (held - units) as u128),
                    )
                },
            }
        }
    }

    /// What of `amount_in` reaches the reserve: the input less the governance
    /// fee.
    pub open spec fn kept_of(self, amount_in: u128) -> int {
        amount_in - fee_share(amount_in as int, self.fee_bps as int)
    }

    /// A swap of `amount_in` of `token_in` against the pool of
    /// `(token_in, token_out)`: the new state and the amount paid out.
    ///
    /// The payout follows the curve on the whole input; the governance fee
    /// is withheld from what is added to the reserve.
    pub open spec fn swap(self, token_in: Address, token_out: Address, amount_in: u128) -> Result<
        (DexModel, u128),
        DEXError,
    > {
        if self.paused {
            Err(DEXError::Paused)
        } else if amount_in == 0 {
            Err(DEXError::InvalidAmount)
        } else {
            match self.pool(token_in, token_out) {
                None => Err(DEXError::PoolNotFound),
                Some(pool) => {
                    let out = quote_out(
                        amount_in as int,
                        pool.amount_a as int,
                        pool.amount_b as int,
                    );
                    if pool.amount_a == 0 || pool.amount_b == 0 || out == 0 {
                        Err(DEXError::InsufficientLiquidity)
                    } else if pool.amount_a + self.kept_of(amount_in) > u128::MAX {
                        Err(DEXError::Overflow)
                    } else {
                        Ok(
                            (
                                self.with_pool(
                                    Pool {
                                        token_a: token_in,
                                        token_b: token_out,
                                        amount_a: (pool.amount_a + self.kept_of(amount_in)) as u128,
                                        amount_b: (pool.amount_b - out) as u128,
                                        total_liquidity: pool.total_liquidity,
                                    },
                                ),
                                out as u128,
                            ),
                        )
                    }
                },
            }
        }
    }

    /// A change of the governance fee by `caller`.
    pub open spec fn update_fee(self, caller: Address, fee_bps: u32) -> Result<DexModel, DEXError> {
        if caller != self.admin {
            Err(DEXError::Unauthorized)
        } else if fee_bps > 10000 {
            Err(DEXError::FeeTooHigh)
        } else {
            Ok(DexModel { fee_bps, ..self })
        }
    }

    /// A change of the pause flag by `caller`.
    pub open spec fn set_paused(self, caller: Address, paused: bool) -> Result<DexModel, DEXError> {
        if caller != self.admin {
            Err(DEXError::Unauthorized)
        } else {
            Ok(DexModel { paused, ..self })
        }
    }

    /// The amount that `caller` may withdraw of an asset of which the
    /// exchange holds `balance` in custody: all of it.
    pub open spec fn withdraw_fees(self, caller: Address, balance: u128) -> Result<u128, DEXError> {
        if caller != self.admin {
            Err(DEXError::Unauthorized)
        } else if balance == 0 {
            Err(DEXError::InvalidAmount)
        } else {
            Ok(balance)
        }
    }

    /// No provider holds more units of a pair than its pool has issued.
    pub proof fn lemma_units_within_issued(
        self,
        token_a: Address,
        token_b: Address,
        provider: Address,
    )
        requires
            self.wf(),
        ensures
            self.units(token_a, token_b, provider) <= self.issued(token_a, token_b),
    {
        let slice = self.positions.restrict(pair_keys(token_a, token_b));
        let key = (token_a, token_b, provider);
        assert(slice.dom().subset_of(self.positions.dom()));
        assert(self.held(token_a, token_b) == self.issued(token_a, token_b));
        if self.positions.contains_key(key) {
            assert(pair_keys(token_a, token_b).contains(key));
            lemma_tally_remove(slice, key);
        }
    }

    /// Replacing a pool by one with the same units issued keeps a valid state
    /// valid.
    pub proof fn lemma_with_pool_wf(self, pool: Pool)
        requires
            self.wf(),
            pool.total_liquidity == self.issued(pool.token_a, pool.token_b),
        ensures
            self.with_pool(pool).wf(),
    {
        let next = self.with_pool(pool);
        assert forall|token_a: Address, token_b: Address| #[trigger]
            next.held(token_a, token_b) == next.issued(token_a, token_b) by {
            assert(self.held(token_a, token_b) == self.issued(token_a, token_b));
        }
    }

    /// Changing the units of one provider and the units issued by the pool of
    /// the same pair by the same amount keeps a valid state valid.
    pub proof fn lemma_rebalance_wf(self, pool: Pool, provider: Address, units: u128)
        requires
            self.wf(),
            pool.total_liquidity - self.issued(pool.token_a, pool.token_b) == units - self.units(
                pool.token_a,
                pool.token_b,
                provider,
            ),
        ensures
            self.with_pool(pool).with_units(pool.token_a, pool.token_b, provider, units).wf(),
    {
        let next = self.with_pool(pool).with_units(pool.token_a, pool.token_b, provider, units);
        let key = (pool.token_a, pool.token_b, provider);
        assert forall|token_a: Address, token_b: Address| #[trigger]
            next.held(token_a, token_b) == next.issued(token_a, token_b) by {
            let before = self.positions.restrict(pair_keys(token_a, token_b));
            let after = next.positions.restrict(pair_keys(token_a, token_b));
            assert(self.held(token_a, token_b) == self.issued(token_a, token_b));
            if token_a == pool.token_a && token_b == pool.token_b {
                assert(before.dom().subset_of(self.positions.dom()));
                assert(pair_keys(token_a, token_b).contains(key));
                assert(after =~= before.insert(key, units));
                lemma_tally_insert(before, key, units);
            } else {
                assert(after =~= before);
            }
        }
    }

    /// A change of the fee or of the pause flag keeps a valid state valid.
    pub proof fn lemma_governance_wf(self, caller: Address, fee_bps: u32, paused: bool)
        requires
            self.wf(),
        ensures
            self.update_fee(caller, fee_bps) matches Ok(next) ==> next.wf(),
            self.set_paused(caller, paused) matches Ok(next) ==> next.wf(),
    {
        if let Ok(next) = self.update_fee(caller, fee_bps) {
            assert forall|token_a: Address, token_b: Address| #[trigger]
                next.held(token_a, token_b) == next.issued(token_a, token_b) by {
                assert(self.held(token_a, token_b) == self.issued(token_a, token_b));
            }
        }
        if let Ok(next) = self.set_paused(caller, paused) {
            assert forall|token_a: Address, token_b: Address| #[trigger]
                next.held(token_a, token_b) == next.issued(token_a, token_b) by {
                assert(self.held(token_a, token_b) == self.issued(token_a, token_b));
            }
        }
    }

    /// A deposit keeps a valid state valid.
    pub proof fn lemma_add_liquidity_wf(
        self,
        user: Address,
        token_a: Address,
        token_b: Address,
        amount_a: u128,
        amount_b: u128,
    )
        requires
            self.wf(),
        ensures
            self.add_liquidity(user, token_a, token_b, amount_a, amount_b) matches Ok(next)
                ==> next.wf(),
    {
        if let Ok(next) = self.add_liquidity(user, token_a, token_b, amount_a, amount_b) {
            let pool = self.pool_or_new(token_a, token_b);
            let grown = Pool {
                token_a,
                token_b,
                amount_a: (pool.amount_a + amount_a) as u128,
                amount_b: (pool.amount_b + amount_b) as u128,
                total_liquidity: (pool.total_liquidity + amount_a + amount_b) as u128,
            };
            let held = self.units(token_a, token_b, user);
            self.lemma_rebalance_wf(grown, user, (held + amount_a + amount_b) as u128);
        }
    }

    /// A withdrawal keeps a valid state valid.
    pub proof fn lemma_remove_liquidity_wf(
        self,
        user: Address,
        token_a: Address,
        token_b: Address,
        amount_a: u128,
        amount_b: u128,
    )
        requires
            self.wf(),
        ensures
            self.remove_liquidity(user, token_a, token_b, amount_a, amount_b) matches Ok(next)
                ==> next.wf(),
    {
        if let Ok(next) = self.remove_liquidity(user, token_a, token_b, amount_a, amount_b) {
            let pool = self.pools[(token_a, token_b)];
            let held = self.units(token_a, token_b, user);
            self.lemma_units_within_issued(token_a, token_b, user);
            let shrunk = Pool {
                token_a,
                token_b,
                amount_a: (pool.amount_a - amount_a) as u128,
                amount_b: (pool.amount_b - amount_b) as u128,
                total_liquidity: (pool.total_liquidity - (amount_a + amount_b)) as u128,
            };
            self.lemma_rebalance_wf(shrunk, user, (held - (amount_a + amount_b)) as u128);
        }
    }

    /// A swap keeps a valid state valid, pays out less than the reserve it
    /// draws on, and adds no more than the input to the other reserve.
    pub proof fn lemma_swap_wf(self, token_in: Address, token_out: Address, amount_in: u128)
        requires
            self.wf(),
        ensures
            self.swap(token_in, token_out, amount_in) matches Ok((next, out)) ==> {
                &&& next.wf()
                &&& 0 < out < self.pools[(token_in, token_out)].amount_b
                &&& out == quote_out(
                    amount_in as int,
                    self.pools[(token_in, token_out)].amount_a as int,
                    self.pools[(token_in, token_out)].amount_b as int,
                )
                &&& 0 <= self.kept_of(amount_in) <= amount_in
            },
    {
        if let Ok((next, out)) = self.swap(token_in, token_out, amount_in) {
            let pool = self.pools[(token_in, token_out)];
            lemma_quote_below_reserve(
                amount_in as int,
                pool.amount_a as int,
                pool.amount_b as int,
            );
            lemma_fee_within_amount(amount_in as int, self.fee_bps as int);
            let traded = Pool {
                token_a: token_in,
                token_b: token_out,
                amount_a: (pool.amount_a + self.kept_of(amount_in)) as u128,
                amount_b: (pool.amount_b - out) as u128,
                total_liquidity: pool.total_liquidity,
            };
            self.lemma_with_pool_wf(traded);
        }
    }
}

} // verus!
