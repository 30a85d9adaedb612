//! What holds of the exchange across operations.

use vstd::prelude::*;
use crate::address::Address;
use crate::error::DEXError;
use crate::model::DexModel;

verus! {

/// A deposit followed by the withdrawal of the same amounts by the same
/// provider succeeds and puts the pool and the provider's units back to what
/// they were before the deposit. On a pair without pool, or with an empty
/// one, that is a pool of `(0, 0, 0)` and a position of 0.
pub proof fn law_deposit_then_withdraw(
    before: DexModel,
    user: Address,
    token_a: Address,
    token_b: Address,
    amount_a: u128,
    amount_b: u128,
)
    requires
        before.wf(),
        before.add_liquidity(user, token_a, token_b, amount_a, amount_b) is Ok,
    ensures
        ({
            let funded = before.add_liquidity(user, token_a, token_b, amount_a, amount_b)->Ok_0;
            &&& funded.remove_liquidity(user, token_a, token_b, amount_a, amount_b) matches Ok(
                after,
            )
            &&& after.pool(token_a, token_b) == Some(before.pool_or_new(token_a, token_b))
            &&& after.units(token_a, token_b, user) == before.units(token_a, token_b, user)
            &&& after.admin == before.admin
            &&& after.fee_bps == before.fee_bps
            &&& after.paused == before.paused
        }),
{
}

/// A swap against a pool of which one reserve is 0 fails with
/// `InsufficientLiquidity`.
pub proof fn law_swap_needs_reserves(
    state: DexModel,
    token_in: Address,
    token_out: Address,
    amount_in: u128,
)
    requires
        !state.paused,
        amount_in > 0,
        state.pool(token_in, token_out) matches Some(pool) && (pool.amount_a == 0 || pool.amount_b
            == 0),
    ensures
        state.swap(token_in, token_out, amount_in) == Err::<(DexModel, u128), DEXError>(
            DEXError::InsufficientLiquidity,
        ),
{
}

/// While the exchange is paused, as it is once the administrator has paused
/// it, every deposit, withdrawal and swap fails with `Paused`; the
/// administrator can still change the fee, withdraw fees and lift the pause.
pub proof fn law_pause_gates_trading(
    state: DexModel,
    admin: Address,
    user: Address,
    token_a: Address,
    token_b: Address,
    amount_a: u128,
    amount_b: u128,
    fee_bps: u32,
    balance: u128,
)
    requires
        state.set_paused(admin, true) is Ok,
        fee_bps <= 10000,
        balance > 0,
    ensures
        ({
            let paused = state.set_paused(admin, true)->Ok_0;
            &&& paused.paused
            &&& paused.add_liquidity(user, token_a, token_b, amount_a, amount_b) == Err::<
                DexModel,
                DEXError,
            >(DEXError::Paused)
            &&& paused.remove_liquidity(user, token_a, token_b, amount_a, amount_b) == Err::<
                DexModel,
                DEXError,
            >(DEXError::Paused)
            &&& paused.swap(token_a, token_b, amount_a) == Err::<(DexModel, u128), DEXError>(
                DEXError::Paused,
            )
            &&& paused.update_fee(admin, fee_bps) matches Ok(next) && next.fee_bps == fee_bps
                && next.paused
            &&& paused.withdraw_fees(admin, balance) == Ok::<u128, DEXError>(balance)
            &&& paused.set_paused(admin, false) matches Ok(next) && !next.paused
        }),
{
}

/// A principal other than the administrator cannot pause, resume or change
/// the fee: the attempt fails with `Unauthorized`, whatever the fee.
pub proof fn law_governance_is_admin_only(
    state: DexModel,
    caller: Address,
    paused: bool,
    fee_bps: u32,
    balance: u128,
)
    requires
        caller != state.admin,
    ensures
        state.set_paused(caller, paused) == Err::<DexModel, DEXError>(DEXError::Unauthorized),
        state.update_fee(caller, fee_bps) == Err::<DexModel, DEXError>(DEXError::Unauthorized),
        state.withdraw_fees(caller, balance) == Err::<u128, DEXError>(DEXError::Unauthorized),
{
}

/// A withdrawal that asks for more units than the provider holds fails with
/// `InsufficientLiquidity`, however large the reserves are.
pub proof fn law_withdrawal_within_position(
    state: DexModel,
    user: Address,
    token_a: Address,
    token_b: Address,
    amount_a: u128,
    amount_b: u128,
)
    requires
        !state.paused,
        amount_a > 0,
        amount_b > 0,
        state.pool(token_a, token_b) is Some,
        state.units(token_a, token_b, user) < amount_a + amount_b,
    ensures
        state.remove_liquidity(user, token_a, token_b, amount_a, amount_b) == Err::<
            DexModel,
            DEXError,
        >(DEXError::InsufficientLiquidity),
{
}

/// A fee of 10000 basis points is accepted and one of 10001 is not; more
/// generally the administrator's new fee is accepted exactly when it is at
/// most 10000.
pub proof fn law_fee_bound(state: DexModel, fee_bps: u32)
    ensures
        state.update_fee(state.admin, fee_bps) is Ok <==> fee_bps <= 10000,
        fee_bps > 10000 ==> state.update_fee(state.admin, fee_bps) == Err::<DexModel, DEXError>(
            DEXError::FeeTooHigh,
        ),
{
}

} // verus!
