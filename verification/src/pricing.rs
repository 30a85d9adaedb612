//! The two fee mechanisms of a swap: the constant-product curve with its
//! built-in 0.3% fee, and the share of the input that governance withholds.

use vstd::prelude::*;
use crate::error::DEXError;
use crate::wide::{limb, mul_div, Wide};

verus! {

/// What a swap of `amount_in` pays out against the given reserves: the
/// constant-product quote after 0.3% of the input is set aside, rounded down.
pub open spec fn quote_out(amount_in: int, reserve_in: int, reserve_out: int) -> int {
    (amount_in * 997 * reserve_out) / (reserve_in * 1000 + amount_in * 997)
}

/// The part of `amount` that a fee of `fee_bps` basis points withholds,
/// rounded down.
pub open spec fn fee_share(amount: int, fee_bps: int) -> int {
    (amount * fee_bps) / 10000
}

/// A quote never reaches the reserve it is paid from.
pub proof fn lemma_quote_below_reserve(amount_in: int, reserve_in: int, reserve_out: int)
    requires
        0 < amount_in,
        0 < reserve_in,
        0 < reserve_out,
    ensures
        0 <= quote_out(amount_in, reserve_in, reserve_out) < reserve_out,
{
    let x = amount_in * 997;
    let n = x * reserve_out;
    let d = reserve_in * 1000 + x;
    assert(0 <= n) by (nonlinear_arith)
        requires
            n == (amount_in * 997) * reserve_out,
            0 < amount_in,
            0 < reserve_out,
    ;
    vstd::arithmetic::div_mod::lemma_fundamental_div_mod(n, d);
    vstd::arithmetic::div_mod::lemma_mod_pos_bound(n, d);
    vstd::arithmetic::div_mod::lemma_div_pos_is_pos(n, d);
    let q = n / d;
    assert(q < reserve_out) by (nonlinear_arith)
        requires
            n == d * q + n % d,
            0 <= n % d,
            n == x * reserve_out,
            0 < x < d,
            0 < reserve_out,
            0 <= q,
    ;
}

/// The curve favours the pool: with the whole input added to one reserve
/// and the quote taken from the other, the product of the reserves does not
/// shrink.
pub proof fn lemma_quote_keeps_product(amount_in: int, reserve_in: int, reserve_out: int)
    requires
        0 < amount_in,
        0 < reserve_in,
        0 < reserve_out,
    ensures
        (reserve_in + amount_in) * (reserve_out - quote_out(amount_in, reserve_in, reserve_out))
            >= reserve_in * reserve_out,
{
    let n = amount_in * 997 * reserve_out;
    let d = reserve_in * 1000 + amount_in * 997;
    let out = n / d;
    lemma_quote_below_reserve(amount_in, reserve_in, reserve_out);
    vstd::arithmetic::div_mod::lemma_fundamental_div_mod(n, d);
    vstd::arithmetic::div_mod::lemma_mod_pos_bound(n, d);
    assert(out * d <= n) by (nonlinear_arith)
        requires
            n == d * out + n % d,
            0 <= n % d,
    ;
    assert((reserve_in + amount_in) * 997 * out <= out * d) by (nonlinear_arith)
        requires
            d == reserve_in * 1000 + amount_in * 997,
            0 <= out,
            0 < reserve_in,
    ;
    assert((reserve_in + amount_in) * out <= amount_in * reserve_out) by (nonlinear_arith)
        requires
            (reserve_in + amount_in) * 997 * out <= out * d,
            out * d <= n,
            n == amount_in * 997 * reserve_out,
    ;
    assert((reserve_in + amount_in) * (reserve_out - out) >= reserve_in * reserve_out)
        by (nonlinear_arith)
        requires
            (reserve_in + amount_in) * out <= amount_in * reserve_out,
    ;
}

/// A fee of at most 10000 basis points never exceeds the amount it is taken
/// from.
pub proof fn lemma_fee_within_amount(amount: int, fee_bps: int)
    requires
        0 <= amount,
        0 <= fee_bps <= 10000,
    ensures
        0 <= fee_share(amount, fee_bps) <= amount,
{
    let n = amount * fee_bps;
    assert(0 <= n <= amount * 10000) by (nonlinear_arith)
        requires
            n == amount * fee_bps,
            0 <= amount,
            0 <= fee_bps <= 10000,
    ;
    vstd::arithmetic::div_mod::lemma_div_pos_is_pos(n, 10000);
}

/// The quote for swapping `amount_in` into a pool that holds `reserve_in` of
/// the asset paid in and `reserve_out` of the asset paid out.
///
/// The product of input and reserve is carried at full width, so the quote is
/// exact for every input and no operand is too large.
pub fn quote(amount_in: u128, reserve_in: u128, reserve_out: u128) -> (r: Result<u128, DEXError>)
    ensures
        match r {
            Ok(out) => amount_in > 0 && reserve_in > 0 && reserve_out > 0 && out == quote_out(
                amount_in as int,
                reserve_in as int,
                reserve_out as int,
            ),
            Err(e) => e == DEXError::InvalidAmount && (amount_in == 0 || reserve_in == 0
                || reserve_out == 0),
        },
{
    if amount_in == 0 || reserve_in == 0 || reserve_out == 0 {
        return Err(DEXError::InvalidAmount);
    }
    let input = Wide::times(amount_in, 997);
    let base = Wide::times(reserve_in, 1000);
    assert(input.value() < limb() * 1000 && 0 < base.value() < limb() * 1000) by (nonlinear_arith)
        requires
            input.value() == amount_in * 997,
            base.value() == reserve_in * 1000,
            0 < amount_in < limb(),
            0 < reserve_in < limb(),
    ;
    let divisor = base.plus(input);
    let (out, _) = mul_div(input, reserve_out, divisor);
    Ok(out)
}

/// The share of `amount` that a fee of `fee_bps` basis points withholds.
pub fn fee(amount: u128, fee_bps: u32) -> (share: u128)
    requires
        fee_bps <= 10000,
    ensures
        share == fee_share(amount as int, fee_bps as int),
        share <= amount,
{
    let rate = Wide::from_u128(fee_bps as u128);
    let (share, _) = mul_div(rate, amount, Wide::from_u128(10000));
    assert(fee_bps * amount == amount * fee_bps) by (nonlinear_arith);
    share
}

} // verus!
