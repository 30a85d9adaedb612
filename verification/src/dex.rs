//! The operations of the exchange.
//!
//! Each operation checks, changes the state, and returns what is left to do
//! outside: the asset transfers, in the order in which they are to be made,
//! and the event to publish. The caller has authenticated the principal that
//! it names, stores the state, and only then carries out the transfers.

use vstd::prelude::*;
use crate::address::Address;
use crate::error::DEXError;
use crate::host::{pool_table_new, pool_table_set, position_table_new, position_table_set};
use crate::model::{DexModel, Pool};
use crate::pricing::{fee, quote, quote_out};
use crate::state::DEXState;

verus! {

/// One end of a transfer.
#[derive(Clone, Copy, Debug, PartialEq, Eq, Structural)]
pub enum Party {
    /// The exchange itself, which holds the reserves in custody.
    Custody,
    /// A principal outside the exchange.
    Principal(Address),
}

/// An instruction to the asset ledger: move `amount` of `token` from `from`
/// to `to`.
#[derive(Clone, Copy, Debug, PartialEq, Eq, Structural)]
pub struct Transfer {
    pub token: Address,
    pub from: Party,
    pub to: Party,
    pub amount: u128,
}

/// What the exchange reports of a completed operation.
#[derive(Clone, Copy, Debug, PartialEq, Eq, Structural)]
pub enum DEXEvent {
    /// A deposit into the pair: the two assets and the two amounts.
    LiquidityAdded(Address, Address, u128, u128),
    /// A withdrawal from the pair: the two assets and the two amounts.
    LiquidityRemoved(Address, Address, u128, u128),
    /// A swap: the asset paid in, the asset paid out, and the two amounts.
    TokensSwapped(Address, Address, u128, u128),
    /// A withdrawal of the custody balance of an asset.
    FeesWithdrawn(Address, u128),
    /// A new governance fee, in basis points.
    FeeUpdated(u32),
    /// Liquidity and swap operations were suspended.
    Paused,
    /// Liquidity and swap operations were resumed.
    Unpaused,
}

/// What remains to be done after a deposit, a withdrawal or a swap: two
/// transfers, `first` before `second`, and an event.
#[derive(Clone, Copy, Debug, PartialEq, Eq, Structural)]
pub struct Settlement {
    pub first: Transfer,
    pub second: Transfer,
    pub event: DEXEvent,
}

/// The transfer of `amount` of `token` from a principal into custody.
pub open spec fn inbound(token: Address, payer: Address, amount: u128) -> Transfer {
    Transfer { token, from: Party::Principal(payer), to: Party::Custody, amount }
}

/// The transfer of `amount` of `token` out of custody to a principal.
pub open spec fn outbound(token: Address, payee: Address, amount: u128) -> Transfer {
    Transfer { token, from: Party::Custody, to: Party::Principal(payee), amount }
}

impl Transfer {
    /// The transfer of `amount` of `token` from `payer` into custody.
    pub fn into_custody(token: Address, payer: Address, amount: u128) -> (transfer: Transfer)
        ensures
            transfer == inbound(token, payer, amount),
    {
        Transfer { token, from: Party::Principal(payer), to: Party::Custody, amount }
    }

    /// The transfer of `amount` of `token` out of custody to `payee`.
    pub fn out_of_custody(token: Address, payee: Address, amount: u128) -> (transfer: Transfer)
        ensures
            transfer == outbound(token, payee, amount),
    {
        Transfer { token, from: Party::Custody, to: Party::Principal(payee), amount }
    }
}

/// What remains to be done after a deposit: the user pays both amounts in.
pub open spec fn deposit_settlement(
    user: Address,
    token_a: Address,
    token_b: Address,
    amount_a: u128,
    amount_b: u128,
) -> Settlement {
    Settlement {
        first: inbound(token_a, user, amount_a),
        second: inbound(token_b, user, amount_b),
        event: DEXEvent::LiquidityAdded(token_a, token_b, amount_a, amount_b),
    }
}

/// What remains to be done after a withdrawal: the user is paid both amounts.
pub open spec fn withdrawal_settlement(
    user: Address,
    token_a: Address,
    token_b: Address,
    amount_a: u128,
    amount_b: u128,
) -> Settlement {
    Settlement {
        first: outbound(token_a, user, amount_a),
        second: outbound(token_b, user, amount_b),
        event: DEXEvent::LiquidityRemoved(token_a, token_b, amount_a, amount_b),
    }
}

/// What remains to be done after a swap: the user pays the whole input in
/// and is paid the quoted amount.
pub open spec fn swap_settlement(
    user: Address,
    token_in: Address,
    token_out: Address,
    amount_in: u128,
    amount_out: u128,
) -> Settlement {
    Settlement {
        first: inbound(token_in, user, amount_in),
        second: outbound(token_out, user, amount_out),
        event: DEXEvent::TokensSwapped(token_in, token_out, amount_in, amount_out),
    }
}

/// The exchange engine. Its operations are associated functions that take
/// the state they work on.
pub struct DEX;

impl DEX {
    /// The state of a new exchange with the given administrator and
    /// governance fee: no pool, no position, not paused. A fee above 10000
    /// basis points is refused with `FeeTooHigh`.
    pub fn initialize(env: &soroban_sdk::Env, admin: Address, fee_percentage: u32) -> (r: Result<
        DEXState,
        DEXError,
    >)
        ensures
            match r {
                Ok(state) => fee_percentage <= 10000 && state.wf() && state@ == DexModel::initial(
                    admin,
                    fee_percentage,
                ),
                Err(e) => fee_percentage > 10000 && e == DEXError::FeeTooHigh,
            },
    {
        if fee_percentage > 10000 {
            return Err(DEXError::FeeTooHigh);
        }
        let state = DEXState {
            pools: pool_table_new(env),
            user_liquidity: position_table_new(env),
            admin,
            fee_percentage,
            paused: false,
        };
        proof {
            assert(state@ =~= DexModel::initial(admin, fee_percentage));
            assert forall|token_a: Address, token_b: Address| #[trigger]
                state@.held(token_a, token_b) == state@.issued(token_a, token_b) by {
                assert(state@.positions.restrict(crate::model::pair_keys(token_a, token_b))
                    =~= Map::empty());
            }
        }
        Ok(state)
    }

    /// The quote for swapping `amount_in` against the given reserves:
    /// `floor(amount_in * 997 * reserve_out / (reserve_in * 1000 + amount_in * 997))`,
    /// or `InvalidAmount` where an argument is 0.
    pub fn get_amount_out(amount_in: u128, reserve_in: u128, reserve_out: u128) -> (r: Result<
        u128,
        DEXError,
    >)
        ensures
            match r {
                Ok(out) => amount_in > 0 && reserve_in > 0 && reserve_out > 0 && out == quote_out(
                    amount_in as int,
                    reserve_in as int,
                    reserve_out as int,
                ),
                Err(e) => e == DEXError::InvalidAmount && (amount_in == 0 || reserve_in == 0
                    || reserve_out == 0),
            },
    {
        quote(amount_in, reserve_in, reserve_out)
    }

    /// Deposits `amount_a` of `token_a` and `amount_b` of `token_b` for
    /// `user`, who receives `amount_a + amount_b` liquidity units. The pool
    /// of the pair is created by its first deposit.
    ///
    /// Refused with `Paused` while the exchange is paused, else with
    /// `InvalidAmount` where an amount is 0, else with `Overflow` where a
    /// reserve, the issued units or the user's units would pass `u128::MAX`.
    pub fn add_liquidity(
        state: &mut DEXState,
        user: Address,
        token_a: Address,
        token_b: Address,
        amount_a: u128,
        amount_b: u128,
    ) -> (r: Result<Settlement, DEXError>)
        requires
            old(state).wf(),
        ensures
            final(state).wf(),
            match old(state)@.add_liquidity(user, token_a, token_b, amount_a, amount_b) {
                Ok(next) => final(state)@ == next && r == Ok::<Settlement, DEXError>(
                    deposit_settlement(user, token_a, token_b, amount_a, amount_b),
                ),
                Err(e) => *final(state) == *old(state) && r == Err::<Settlement, DEXError>(e),
            },
    {
        if state.paused {
            return Err(DEXError::Paused);
        }
        if amount_a == 0 || amount_b == 0 {
            return Err(DEXError::InvalidAmount);
        }
        let pool = state.get_or_create(token_a, token_b);
        let held = state.position(token_a, token_b, user);
        let units = match amount_a.checked_add(amount_b) {
            Some(units) => units,
            None => return Err(DEXError::Overflow),
        };
        let reserve_a = match pool.amount_a.checked_add(amount_a) {
            Some(reserve) => reserve,
            None => return Err(DEXError::Overflow),
        };
        let reserve_b = match pool.amount_b.checked_add(amount_b) {
            Some(reserve) => reserve,
            None => return Err(DEXError::Overflow),
        };
        let issued = match pool.total_liquidity.checked_add(units) {
            Some(issued) => issued,
            None => return Err(DEXError::Overflow),
        };
        let position = match held.checked_add(units) {
            Some(position) => position,
            None => return Err(DEXError::Overflow),
        };
        position_table_set(&mut state.user_liquidity, token_a, token_b, user, position);
        pool_table_set(&mut state.pools, token_a, token_b, (reserve_a, reserve_b, issued));
        proof {
            let next = old(state)@.add_liquidity(user, token_a, token_b, amount_a, amount_b)->Ok_0;
            old(state)@.lemma_add_liquidity_wf(user, token_a, token_b, amount_a, amount_b);
            assert(state@ =~= next);
        }
        Ok(
            Settlement {
                first: Transfer::into_custody(token_a, user, amount_a),
                second: Transfer::into_custody(token_b, user, amount_b),
                event: DEXEvent::LiquidityAdded(token_a, token_b, amount_a, amount_b),
            },
        )
    }

    /// Withdraws `amount_a` of `token_a` and `amount_b` of `token_b` for
    /// `user`, at the price of `amount_a + amount_b` of the user's units.
    ///
    /// Refused with `Paused` while the exchange is paused, else with
    /// `InvalidAmount` where an amount is 0, else with `PoolNotFound` where
    /// the pair has no pool, else with `InsufficientLiquidity` where a
    /// reserve is smaller than the amount asked of it or the user holds
    /// fewer than `amount_a + amount_b` units.
    pub fn remove_liquidity(
        state: &mut DEXState,
        user: Address,
        token_a: Address,
        token_b: Address,
        amount_a: u128,
        amount_b: u128,
    ) -> (r: Result<Settlement, DEXError>)
        requires
            old(state).wf(),
        ensures
            final(state).wf(),
            match old(state)@.remove_liquidity(user, token_a, token_b, amount_a, amount_b) {
                Ok(next) => final(state)@ == next && r == Ok::<Settlement, DEXError>(
                    withdrawal_settlement(user, token_a, token_b, amount_a, amount_b),
                ),
                Err(e) => *final(state) == *old(state) && r == Err::<Settlement, DEXError>(e),
            },
    {
        if state.paused {
            return Err(DEXError::Paused);
        }
        if amount_a == 0 || amount_b == 0 {
            return Err(DEXError::InvalidAmount);
        }
        let pool = match state.pool(token_a, token_b) {
            Some(pool) => pool,
            None => return Err(DEXError::PoolNotFound),
        };
        if pool.amount_a < amount_a || pool.amount_b < amount_b {
            return Err(DEXError::InsufficientLiquidity);
        }
        let held = state.position(token_a, token_b, user);
        // A sum beyond u128::MAX is beyond any position.
        let units = match amount_a.checked_add(amount_b) {
            Some(units) => units,
            None => return Err(DEXError::InsufficientLiquidity),
        };
        if held < units {
            return Err(DEXError::InsufficientLiquidity);
        }
        proof {
            state@.lemma_units_within_issued(token_a, token_b, user);
        }
        position_table_set(&mut state.user_liquidity, token_a, token_b, user, held - units);
        pool_table_set(
            &mut state.pools,
            token_a,
            token_b,
            (pool.amount_a - amount_a, pool.amount_b - amount_b, pool.total_liquidity - units),
        );
        proof {
            let next = old(state)@.remove_liquidity(
                user,
                token_a,
                token_b,
                amount_a,
                amount_b,
            )->Ok_0;
            old(state)@.lemma_remove_liquidity_wf(user, token_a, token_b, amount_a, amount_b);
            assert(state@ =~= next);
        }
        Ok(
            Settlement {
                first: Transfer::out_of_custody(token_a, user, amount_a),
                second: Transfer::out_of_custody(token_b, user, amount_b),
                event: DEXEvent::LiquidityRemoved(token_a, token_b, amount_a, amount_b),
            },
        )
    }

    /// Swaps `amount_in` of `token_in` for `token_out` against the pool of
    /// `(token_in, token_out)` and returns the amount paid out.
    ///
    /// The payout is the quote of `get_amount_out` on the whole input. The
    /// reserve of `token_in` grows by the input less the governance fee,
    /// `floor(amount_in * fee / 10000)`; the reserve of `token_out` shrinks
    /// by the payout.
    ///
    /// Refused with `Paused` while the exchange is paused, else with
    /// `InvalidAmount` where the input is 0, else with `PoolNotFound` where
    /// the pair has no pool, else with `InsufficientLiquidity` where a
    /// reserve is 0 or the quote is 0, else with `Overflow` where the reserve
    /// of `token_in` would pass `u128::MAX`.
    pub fn swap_tokens(
        state: &mut DEXState,
        user: Address,
        token_in: Address,
        token_out: Address,
        amount_in: u128,
    ) -> (r: Result<(u128, Settlement), DEXError>)
        requires
            old(state).wf(),
        ensures
            final(state).wf(),
            match old(state)@.swap(token_in, token_out, amount_in) {
                Ok((next, out)) => final(state)@ == next && r == Ok::<(u128, Settlement), DEXError>(
                    (out, swap_settlement(user, token_in, token_out, amount_in, out)),
                ),
                Err(e) => *final(state) == *old(state) && r == Err::<(u128, Settlement), DEXError>(
                    e,
                ),
            },
    {
        if state.paused {
            return Err(DEXError::Paused);
        }
        if amount_in == 0 {
            return Err(DEXError::InvalidAmount);
        }
        let pool = match state.pool(token_in, token_out) {
            Some(pool) => pool,
            None => return Err(DEXError::PoolNotFound),
        };
        if pool.amount_a == 0 || pool.amount_b == 0 {
            return Err(DEXError::InsufficientLiquidity);
        }
        let amount_out = match quote(amount_in, pool.amount_a, pool.amount_b) {
            Ok(amount_out) => amount_out,
            Err(e) => return Err(e),
        };
        if amount_out == 0 {
            return Err(DEXError::InsufficientLiquidity);
        }
        let kept = amount_in - fee(amount_in, state.fee_percentage);
        let reserve_in = match pool.amount_a.checked_add(kept) {
            Some(reserve) => reserve,
            None => return Err(DEXError::Overflow),
        };
        proof {
            state@.lemma_swap_wf(token_in, token_out, amount_in);
        }
        state.upsert(
            Pool {
                token_a: token_in,
                token_b: token_out,
                amount_a: reserve_in,
                amount_b: pool.amount_b - amount_out,
                total_liquidity: pool.total_liquidity,
            },
        );
        Ok(
            (
                amount_out,
                Settlement {
                    first: Transfer::into_custody(token_in, user, amount_in),
                    second: Transfer::out_of_custody(token_out, user, amount_out),
                    event: DEXEvent::TokensSwapped(token_in, token_out, amount_in, amount_out),
                },
            ),
        )
    }

    /// Hands the whole custody balance of `token` to the administrator.
    /// `custody_balance` is what the asset ledger reports as held by the
    /// exchange; it is not told apart from the reserves of a pool.
    ///
    /// Refused with `Unauthorized` where `caller` is not the administrator,
    /// else with `InvalidAmount` where the balance is 0. The pause flag does
    /// not matter.
    pub fn withdraw_fees(state: &DEXState, caller: Address, token: Address, custody_balance: u128) -> (r:
        Result<(Transfer, DEXEvent), DEXError>)
        ensures
            match state@.withdraw_fees(caller, custody_balance) {
                Ok(amount) => r == Ok::<(Transfer, DEXEvent), DEXError>(
                    (outbound(token, state.admin, amount), DEXEvent::FeesWithdrawn(token, amount)),
                ),
                Err(e) => r == Err::<(Transfer, DEXEvent), DEXError>(e),
            },
    {
        match Self::only_admin(state, caller) {
            Ok(_) => {},
            Err(e) => return Err(e),
        }
        if custody_balance == 0 {
            return Err(DEXError::InvalidAmount);
        }
        Ok(
            (
                Transfer::out_of_custody(token, state.admin, custody_balance),
                DEXEvent::FeesWithdrawn(token, custody_balance),
            ),
        )
    }

    /// Sets the governance fee to `new_fee` basis points.
    ///
    /// Refused with `Unauthorized` where `caller` is not the administrator,
    /// else with `FeeTooHigh` where `new_fee` exceeds 10000. The pause flag
    /// does not matter.
    pub fn update_fee_percentage(state: &mut DEXState, caller: Address, new_fee: u32) -> (r: Result<
        DEXEvent,
        DEXError,
    >)
        requires
            old(state).wf(),
        ensures
            final(state).wf(),
            match old(state)@.update_fee(caller, new_fee) {
                Ok(next) => final(state)@ == next && r == Ok::<DEXEvent, DEXError>(
                    DEXEvent::FeeUpdated(new_fee),
                ),
                Err(e) => *final(state) == *old(state) && r == Err::<DEXEvent, DEXError>(e),
            },
    {
        match Self::only_admin(state, caller) {
            Ok(_) => {},
            Err(e) => return Err(e),
        }
        if new_fee > 10000 {
            return Err(DEXError::FeeTooHigh);
        }
        state.fee_percentage = new_fee;
        proof {
            old(state)@.lemma_governance_wf(caller, new_fee, false);
            assert(state@ =~= old(state)@.update_fee(caller, new_fee)->Ok_0);
        }
        Ok(DEXEvent::FeeUpdated(new_fee))
    }

    /// Suspends liquidity and swap operations.
    ///
    /// Refused with `Unauthorized`, and the flag left as it was, where
    /// `caller` is not the administrator.
    pub fn pause(state: &mut DEXState, caller: Address) -> (r: Result<DEXEvent, DEXError>)
        requires
            old(state).wf(),
        ensures
            final(state).wf(),
            match old(state)@.set_paused(caller, true) {
                Ok(next) => final(state)@ == next && r == Ok::<DEXEvent, DEXError>(DEXEvent::Paused),
                Err(e) => *final(state) == *old(state) && r == Err::<DEXEvent, DEXError>(e),
            },
    {
        match Self::only_admin(state, caller) {
            Ok(_) => {},
            Err(e) => return Err(e),
        }
        state.paused = true;
        proof {
            old(state)@.lemma_governance_wf(caller, 0, true);
            assert(state@ =~= old(state)@.set_paused(caller, true)->Ok_0);
        }
        Ok(DEXEvent::Paused)
    }

    /// Resumes liquidity and swap operations.
    ///
    /// Refused with `Unauthorized`, and the flag left as it was, where
    /// `caller` is not the administrator.
    pub fn unpause(state: &mut DEXState, caller: Address) -> (r: Result<DEXEvent, DEXError>)
        requires
            old(state).wf(),
        ensures
            final(state).wf(),
            match old(state)@.set_paused(caller, false) {
                Ok(next) => final(state)@ == next && r == Ok::<DEXEvent, DEXError>(
                    DEXEvent::Unpaused,
                ),
                Err(e) => *final(state) == *old(state) && r == Err::<DEXEvent, DEXError>(e),
            },
    {
        match Self::only_admin(state, caller) {
            Ok(_) => {},
            Err(e) => return Err(e),
        }
        state.paused = false;
        proof {
            old(state)@.lemma_governance_wf(caller, 0, false);
            assert(state@ =~= old(state)@.set_paused(caller, false)->Ok_0);
        }
        Ok(DEXEvent::Unpaused)
    }

    /// Whether `caller` is the administrator.
    fn only_admin(state: &DEXState, caller: Address) -> (r: Result<(), DEXError>)
        ensures
            r == (if caller == state.admin {
                Ok::<(), DEXError>(())
            } else {
                Err(DEXError::Unauthorized)
            }),
    {
        if caller == state.admin {
            Ok(())
        } else {
            Err(DEXError::Unauthorized)
        }
    }
}

} // verus!
