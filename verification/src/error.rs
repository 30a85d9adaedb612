//! The typed failures of the exchange engine.

use vstd::prelude::*;

verus! {

/// Why an operation of the exchange was refused. A refused operation leaves
/// the state as it was and hands out no transfer.
#[derive(Clone, Copy, Debug, PartialEq, Eq, Structural)]
pub enum DEXError {
    /// An amount or a reserve operand is zero where a positive one is needed.
    InvalidAmount,
    /// The reserves or the caller's position are smaller than what was asked
    /// for, or a swap would pay out nothing.
    InsufficientLiquidity,
    /// No pool exists for the pair.
    PoolNotFound,
    /// Liquidity and swap operations are suspended.
    Paused,
    /// The fee exceeds 10000 basis points.
    FeeTooHigh,
    /// The caller is not the administrator.
    Unauthorized,
    /// A reserve, a position or the issued units would exceed `u128::MAX`.
    Overflow,
}

} // verus!
