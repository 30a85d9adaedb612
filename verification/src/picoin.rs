//! The companion coin: a token with a transfer fee whose supply the
//! administrator can correct towards a target price.
//!
//! As with the exchange, each operation changes the coin's own record and
//! returns the instructions for the asset ledger and the event to publish.

use vstd::prelude::*;
use crate::address::Address;
use crate::dex::Party;
use crate::pricing::{fee, fee_share};

verus! {

/// The supply minted at initialization, in the smallest unit: 10^23.
pub const TOTAL_SUPPLY: u128 = 100_000_000_000_000_000_000_000;

/// The price that supply corrections aim at, in 18 decimals.
pub const TARGET_PRICE: u128 = 314_159_000_000_000_000_000_000;

/// The number of decimals of the coin.
pub const DECIMALS: u32 = 18;

/// The highest transfer fee that can be set, in basis points.
pub const MAX_TRANSACTION_FEE: u32 = 1000;

/// One unit of price: 10^18.
pub const PRICE_UNIT: u128 = 1_000_000_000_000_000_000;

/// Why an operation of the coin was refused.
#[derive(Clone, Copy, Debug, PartialEq, Eq, Structural)]
pub enum PiCoinError {
    /// The caller is not the administrator.
    Unauthorized,
    /// Transfers are suspended.
    Paused,
    /// The transfer fee exceeds 1000 basis points.
    FeeTooHigh,
    /// The collected fees would exceed `u128::MAX`.
    Overflow,
}

/// The coin's own record.
#[derive(Clone, Copy, Debug, PartialEq, Eq, Structural)]
pub struct PiCoinState {
    /// The fees collected and not yet withdrawn.
    pub total_fees: u128,
    /// The transfer fee in basis points, at most 1000.
    pub transaction_fee: u32,
    /// The price oracle.
    pub price_feed: Address,
    /// Whether transfers are suspended.
    pub paused: bool,
    /// The administrator.
    pub admin: Address,
}

/// What the coin reports of a completed operation.
#[derive(Clone, Copy, Debug, PartialEq, Eq, Structural)]
pub enum PiCoinEvent {
    PriceFeedUpdated(Address),
    TransactionFeeUpdated(u32),
    FeesCollected(u128),
    SupplyAdjusted(u128),
    Paused,
    Unpaused,
}

/// An instruction to the asset ledger of the coin.
#[derive(Clone, Copy, Debug, PartialEq, Eq, Structural)]
pub enum CoinAction {
    /// Create `amount` coins for `recipient`.
    Mint { recipient: Address, amount: u128 },
    /// Destroy `amount` coins of `holder`.
    Burn { holder: Address, amount: u128 },
    /// Move `amount` coins.
    Transfer { from: Party, to: Party, amount: u128 },
}

/// The supply correction for a price: how many coins to mint below the
/// target, or to burn above it.
pub open spec fn correction_amount(current_price: u128) -> int {
    if current_price < TARGET_PRICE {
        (TARGET_PRICE - current_price) / (PRICE_UNIT as int) * 1000
    } else {
        (current_price - TARGET_PRICE) / (PRICE_UNIT as int) * 1000
    }
}

impl PiCoinState {
    /// Validity: the transfer fee is within its bound.
    pub open spec fn wf(self) -> bool {
        self.transaction_fee <= MAX_TRANSACTION_FEE
    }

    /// The record with the pause flag replaced.
    pub open spec fn with_paused(self, paused: bool) -> PiCoinState {
        PiCoinState { paused, ..self }
    }

    /// The record with the transfer fee replaced.
    pub open spec fn with_transaction_fee(self, transaction_fee: u32) -> PiCoinState {
        PiCoinState { transaction_fee, ..self }
    }

    /// The record with the price oracle replaced.
    pub open spec fn with_price_feed(self, price_feed: Address) -> PiCoinState {
        PiCoinState { price_feed, ..self }
    }

    /// The record with the collected fees replaced.
    pub open spec fn with_total_fees(self, total_fees: u128) -> PiCoinState {
        PiCoinState { total_fees, ..self }
    }
}

/// The coin. Its operations are associated functions that take the record
/// they work on.
pub struct PiCoin;

impl PiCoin {
    /// The record of a new coin and the minting of its whole supply to the
    /// administrator. The transfer fee starts at 1%.
    pub fn initialize(admin: Address, price_feed: Address) -> (r: (PiCoinState, CoinAction))
        ensures
            r.0 == (PiCoinState {
                total_fees: 0,
                transaction_fee: 100,
                price_feed,
                paused: false,
                admin,
            }),
            r.0.wf(),
            r.1 == (CoinAction::Mint { recipient: admin, amount: TOTAL_SUPPLY }),
    {
        (
            PiCoinState { total_fees: 0, transaction_fee: 100, price_feed, paused: false, admin },
            CoinAction::Mint { recipient: admin, amount: TOTAL_SUPPLY },
        )
    }

    /// The name of the coin.
    pub fn name() -> (name: &'static str)
        ensures
            name@ == "PiCoin"@,
    {
        "PiCoin"
    }

    /// The ticker symbol of the coin.
    pub fn symbol() -> (symbol: &'static str)
        ensures
            symbol@ == "Pi"@,
    {
        "Pi"
    }

    /// The number of decimals of the coin.
    pub fn decimals() -> (decimals: u32)
        ensures
            decimals == DECIMALS,
    {
        DECIMALS
    }

    /// Whether `caller` is the administrator.
    fn only_admin(state: &PiCoinState, caller: Address) -> (r: Result<(), PiCoinError>)
        ensures
            r == (if caller == state.admin {
                Ok::<(), PiCoinError>(())
            } else {
                Err(PiCoinError::Unauthorized)
            }),
    {
        if caller == state.admin {
            Ok(())
        } else {
            Err(PiCoinError::Unauthorized)
        }
    }

    /// Replaces the price oracle. Only the administrator may.
    pub fn set_price_feed(state: &mut PiCoinState, caller: Address, new_price_feed: Address) -> (r:
        Result<PiCoinEvent, PiCoinError>)
        ensures
            caller == old(state).admin ==> r == Ok::<PiCoinEvent, PiCoinError>(
                PiCoinEvent::PriceFeedUpdated(new_price_feed),
            ) && *final(state) == old(state).with_price_feed(new_price_feed),
            caller != old(state).admin ==> r == Err::<PiCoinEvent, PiCoinError>(
                PiCoinError::Unauthorized,
            ) && *final(state) == *old(state),
    {
        match Self::only_admin(state, caller) {
            Ok(_) => {},
            Err(e) => return Err(e),
        }
        state.price_feed = new_price_feed;
        Ok(PiCoinEvent::PriceFeedUpdated(new_price_feed))
    }

    /// The current price. No oracle is consulted: it is the target price.
    pub fn get_current_price() -> (price: u128)
        ensures
            price == TARGET_PRICE,
    {
        TARGET_PRICE
    }

    /// The correction that a price calls for: below the target, mint to the
    /// administrator; above it, burn from the administrator; at the target,
    /// nothing. The amount is 1000 coins per whole unit of price difference.
    pub fn supply_correction(admin: Address, current_price: u128) -> (r: Option<
        (CoinAction, PiCoinEvent),
    >)
        ensures
            current_price == TARGET_PRICE ==> r.is_none(),
            current_price < TARGET_PRICE ==> r == Some(
                (
                    CoinAction::Mint {
                        recipient: admin,
                        amount: correction_amount(current_price) as u128,
                    },
                    PiCoinEvent::SupplyAdjusted(correction_amount(current_price) as u128),
                ),
            ),
            current_price > TARGET_PRICE ==> r == Some(
                (
                    CoinAction::Burn {
                        holder: admin,
                        amount: correction_amount(current_price) as u128,
                    },
                    PiCoinEvent::SupplyAdjusted(correction_amount(current_price) as u128),
                ),
            ),
            0 <= correction_amount(current_price) <= u128::MAX,
    {
        if current_price < TARGET_PRICE {
            let amount = (TARGET_PRICE - current_price) / PRICE_UNIT * 1000;
            Some(
                (CoinAction::Mint { recipient: admin, amount }, PiCoinEvent::SupplyAdjusted(amount)),
            )
        } else if current_price > TARGET_PRICE {
            let amount = (current_price - TARGET_PRICE) / PRICE_UNIT * 1000;
            Some((CoinAction::Burn { holder: admin, amount }, PiCoinEvent::SupplyAdjusted(amount)))
        } else {
            None
        }
    }

    /// Corrects the supply towards the target price, on the current price.
    /// Only the administrator may.
    pub fn adjust_supply(state: &PiCoinState, caller: Address) -> (r: Result<
        Option<(CoinAction, PiCoinEvent)>,
        PiCoinError,
    >)
        ensures
            caller == state.admin ==> r == Ok::<Option<(CoinAction, PiCoinEvent)>, PiCoinError>(
                None,
            ),
            caller != state.admin ==> r == Err::<Option<(CoinAction, PiCoinEvent)>, PiCoinError>(
                PiCoinError::Unauthorized,
            ),
    {
        match Self::only_admin(state, caller) {
            Ok(_) => {},
            Err(e) => return Err(e),
        }
        Ok(Self::supply_correction(caller, Self::get_current_price()))
    }

    /// Mints `amount` coins to `to`. Only the administrator may.
    pub fn mint(state: &PiCoinState, caller: Address, to: Address, amount: u128) -> (r: Result<
        CoinAction,
        PiCoinError,
    >)
        ensures
            caller == state.admin ==> r == Ok::<CoinAction, PiCoinError>(
                CoinAction::Mint { recipient: to, amount },
            ),
            caller != state.admin ==> r == Err::<CoinAction, PiCoinError>(
                PiCoinError::Unauthorized,
            ),
    {
        match Self::only_admin(state, caller) {
            Ok(_) => {},
            Err(e) => return Err(e),
        }
        Ok(CoinAction::Mint { recipient: to, amount })
    }

    /// Burns `amount` coins of the administrator. Only the administrator may.
    pub fn burn(state: &PiCoinState, caller: Address, amount: u128) -> (r: Result<
        CoinAction,
        PiCoinError,
    >)
        ensures
            caller == state.admin ==> r == Ok::<CoinAction, PiCoinError>(
                CoinAction::Burn { holder: caller, amount },
            ),
            caller != state.admin ==> r == Err::<CoinAction, PiCoinError>(
                PiCoinError::Unauthorized,
            ),
    {
        match Self::only_admin(state, caller) {
            Ok(_) => {},
            Err(e) => return Err(e),
        }
        Ok(CoinAction::Burn { holder: caller, amount })
    }

    /// Suspends transfers. Only the administrator may.
    pub fn pause(state: &mut PiCoinState, caller: Address) -> (r: Result<PiCoinEvent, PiCoinError>)
        ensures
            caller == old(state).admin ==> r == Ok::<PiCoinEvent, PiCoinError>(PiCoinEvent::Paused)
                && *final(state) == old(state).with_paused(true),
            caller != old(state).admin ==> r == Err::<PiCoinEvent, PiCoinError>(
                PiCoinError::Unauthorized,
            ) && *final(state) == *old(state),
    {
        match Self::only_admin(state, caller) {
            Ok(_) => {},
            Err(e) => return Err(e),
        }
        state.paused = true;
        Ok(PiCoinEvent::Paused)
    }

    /// Resumes transfers. Only the administrator may.
    pub fn unpause(state: &mut PiCoinState, caller: Address) -> (r: Result<
        PiCoinEvent,
        PiCoinError,
    >)
        ensures
            caller == old(state).admin ==> r == Ok::<PiCoinEvent, PiCoinError>(
                PiCoinEvent::Unpaused,
            ) && *final(state) == old(state).with_paused(false),
            caller != old(state).admin ==> r == Err::<PiCoinEvent, PiCoinError>(
                PiCoinError::Unauthorized,
            ) && *final(state) == *old(state),
    {
        match Self::only_admin(state, caller) {
            Ok(_) => {},
            Err(e) => return Err(e),
        }
        state.paused = false;
        Ok(PiCoinEvent::Unpaused)
    }

    /// Moves `amount` coins from `from` to `to`, less the transfer fee
    /// `floor(amount * transaction_fee / 10000)`, which goes into custody and
    /// is added to the collected fees. Returns the transfer to the recipient,
    /// the transfer of the fee, and the event.
    ///
    /// Refused with `Paused` while transfers are suspended, else with
    /// `Overflow` where the collected fees would pass `u128::MAX`.
    pub fn transfer(state: &mut PiCoinState, from: Address, to: Address, amount: u128) -> (r:
        Result<(CoinAction, CoinAction, PiCoinEvent), PiCoinError>)
        requires
            old(state).wf(),
        ensures
            final(state).wf(),
            old(state).paused ==> r == Err::<(CoinAction, CoinAction, PiCoinEvent), PiCoinError>(
                PiCoinError::Paused,
            ) && *final(state) == *old(state),
            !old(state).paused && old(state).total_fees + fee_share(
                amount as int,
                old(state).transaction_fee as int,
            ) > u128::MAX ==> r == Err::<(CoinAction, CoinAction, PiCoinEvent), PiCoinError>(
                PiCoinError::Overflow,
            ) && *final(state) == *old(state),
            !old(state).paused && old(state).total_fees + fee_share(
                amount as int,
                old(state).transaction_fee as int,
            ) <= u128::MAX ==> ({
                let share = fee_share(amount as int, old(state).transaction_fee as int);
                &&& 0 <= share <= amount
                &&& r == Ok::<(CoinAction, CoinAction, PiCoinEvent), PiCoinError>(
                    (
                        CoinAction::Transfer {
                            from: Party::Principal(from),
                            to: Party::Principal(to),
                            amount: (amount - share) as u128,
                        },
                        CoinAction::Transfer {
                            from: Party::Principal(from),
                            to: Party::Custody,
                            amount: share as u128,
                        },
                        PiCoinEvent::FeesCollected(share as u128),
                    ),
                )
                &&& *final(state) == old(state).with_total_fees(
                    (old(state).total_fees + share) as u128,
                )
            }),
    {
        if state.paused {
            return Err(PiCoinError::Paused);
        }
        let share = fee(amount, state.transaction_fee);
        let collected = match state.total_fees.checked_add(share) {
            Some(collected) => collected,
            None => return Err(PiCoinError::Overflow),
        };
        state.total_fees = collected;
        Ok(
            (
                CoinAction::Transfer {
                    from: Party::Principal(from),
                    to: Party::Principal(to),
                    amount: amount - share,
                },
                CoinAction::Transfer {
                    from: Party::Principal(from),
                    to: Party::Custody,
                    amount: share,
                },
                PiCoinEvent::FeesCollected(share),
            ),
        )
    }

    /// Hands the collected fees to the administrator and resets them to 0.
    /// Only the administrator may.
    pub fn withdraw_fees(state: &mut PiCoinState, caller: Address) -> (r: Result<
        CoinAction,
        PiCoinError,
    >)
        ensures
            caller == old(state).admin ==> r == Ok::<CoinAction, PiCoinError>(
                CoinAction::Transfer {
                    from: Party::Custody,
                    to: Party::Principal(caller),
                    amount: old(state).total_fees,
                },
            ) && *final(state) == old(state).with_total_fees(0),
            caller != old(state).admin ==> r == Err::<CoinAction, PiCoinError>(
                PiCoinError::Unauthorized,
            ) && *final(state) == *old(state),
    {
        match Self::only_admin(state, caller) {
            Ok(_) => {},
            Err(e) => return Err(e),
        }
        let amount = state.total_fees;
        state.total_fees = 0;
        Ok(CoinAction::Transfer { from: Party::Custody, to: Party::Principal(caller), amount })
    }

    /// Sets the transfer fee to `new_fee` basis points.
    ///
    /// Refused with `Unauthorized` where `caller` is not the administrator,
    /// else with `FeeTooHigh` where `new_fee` exceeds 1000.
    pub fn update_transaction_fee(state: &mut PiCoinState, caller: Address, new_fee: u32) -> (r:
        Result<PiCoinEvent, PiCoinError>)
        ensures
            caller != old(state).admin ==> r == Err::<PiCoinEvent, PiCoinError>(
                PiCoinError::Unauthorized,
            ) && *final(state) == *old(state),
            caller == old(state).admin && new_fee > MAX_TRANSACTION_FEE ==> r == Err::<
                PiCoinEvent,
                PiCoinError,
            >(PiCoinError::FeeTooHigh) && *final(state) == *old(state),
            caller == old(state).admin && new_fee <= MAX_TRANSACTION_FEE ==> r == Ok::<
                PiCoinEvent,
                PiCoinError,
            >(PiCoinEvent::TransactionFeeUpdated(new_fee)) && *final(state) == old(
                state,
            ).with_transaction_fee(new_fee) && final(state).wf(),
    {
        match Self::only_admin(state, caller) {
            Ok(_) => {},
            Err(e) => return Err(e),
        }
        if new_fee > MAX_TRANSACTION_FEE {
            return Err(PiCoinError::FeeTooHigh);
        }
        state.transaction_fee = new_fee;
        Ok(PiCoinEvent::TransactionFeeUpdated(new_fee))
    }
}

} // verus!
