//! Identities of principals and assets.

use vstd::prelude::*;

verus! {

/// The identity of an account or of a contract: which of the two it is, and
/// its 256-bit key in two big-endian halves.
///
/// Both a principal (a liquidity provider, a trader, the administrator) and an
/// asset (the contract of a token) are named by an `Address`. Two addresses
/// are the same principal exactly when all three fields agree.
#[derive(Clone, Copy, Debug, PartialEq, Eq, Structural)]
pub struct Address {
    /// `true` for a contract, `false` for an account.
    pub contract: bool,
    /// The upper 128 bits of the key.
    pub hi: u128,
    /// The lower 128 bits of the key.
    pub lo: u128,
}

impl Address {
    /// The address of the account with the given key.
    pub fn account(hi: u128, lo: u128) -> (address: Address)
        ensures
            address == (Address { contract: false, hi, lo }),
    {
        Address { contract: false, hi, lo }
    }

    /// The address of the contract with the given key.
    pub fn contract(hi: u128, lo: u128) -> (address: Address)
        ensures
            address == (Address { contract: true, hi, lo }),
    {
        Address { contract: true, hi, lo }
    }
}

} // verus!
