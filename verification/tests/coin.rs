use dex_pi_coin::picoin::{DECIMALS, MAX_TRANSACTION_FEE, TARGET_PRICE, TOTAL_SUPPLY};
use dex_pi_coin::{Address, CoinAction, Party, PiCoin, PiCoinError, PiCoinEvent, PiCoinState};

fn issuer() -> Address {
    Address::account(0, 1)
}

fn oracle() -> Address {
    Address::contract(8, 80)
}

fn payer() -> Address {
    Address::account(0, 2)
}

fn payee() -> Address {
    Address::account(0, 3)
}

fn minted() -> PiCoinState {
    PiCoin::initialize(issuer(), oracle()).0
}

#[test]
fn the_coin_starts_with_its_whole_supply_minted_to_the_administrator() {
    let (state, action) = PiCoin::initialize(issuer(), oracle());
    assert_eq!(
        state,
        PiCoinState {
            total_fees: 0,
            transaction_fee: 100,
            price_feed: oracle(),
            paused: false,
            admin: issuer()
        }
    );
    assert_eq!(
        action,
        CoinAction::Mint { recipient: issuer(), amount: 100_000_000_000_000_000_000_000 }
    );
    assert_eq!(TOTAL_SUPPLY, 100_000_000_000_000_000_000_000);
}

#[test]
fn the_coin_has_its_name_symbol_and_decimals() {
    assert_eq!(PiCoin::name(), "PiCoin");
    assert_eq!(PiCoin::symbol(), "Pi");
    assert_eq!(PiCoin::decimals(), 18);
    assert_eq!(DECIMALS, 18);
}

#[test]
fn the_current_price_is_the_target_price() {
    assert_eq!(PiCoin::get_current_price(), 314_159_000_000_000_000_000_000);
    assert_eq!(TARGET_PRICE, 314_159_000_000_000_000_000_000);
}

#[test]
fn a_transfer_withholds_the_fee_and_collects_it() {
    let mut state = minted();
    let done = PiCoin::transfer(&mut state, payer(), payee(), 10_000);
    assert_eq!(
        done,
        Ok((
            CoinAction::Transfer {
                from: Party::Principal(payer()),
                to: Party::Principal(payee()),
                amount: 9_900
            },
            CoinAction::Transfer {
                from: Party::Principal(payer()),
                to: Party::Custody,
                amount: 100
            },
            PiCoinEvent::FeesCollected(100)
        ))
    );
    assert_eq!(state.total_fees, 100);
    PiCoin::transfer(&mut state, payer(), payee(), 999).unwrap();
    assert_eq!(state.total_fees, 109);
    let small = PiCoin::transfer(&mut state, payer(), payee(), 99).unwrap();
    assert_eq!(small.2, PiCoinEvent::FeesCollected(0));
    assert_eq!(state.total_fees, 109);
}

#[test]
fn a_transfer_while_paused_is_refused() {
    let mut state = minted();
    PiCoin::pause(&mut state, issuer()).unwrap();
    assert_eq!(PiCoin::transfer(&mut state, payer(), payee(), 10_000), Err(PiCoinError::Paused));
    assert_eq!(state.total_fees, 0);
    PiCoin::unpause(&mut state, issuer()).unwrap();
    PiCoin::transfer(&mut state, payer(), payee(), 10_000).unwrap();
    assert_eq!(state.total_fees, 100);
}

#[test]
fn collected_fees_do_not_wrap() {
    let mut state = minted();
    state.total_fees = u128::MAX - 99;
    assert_eq!(
        PiCoin::transfer(&mut state, payer(), payee(), 10_000),
        Err(PiCoinError::Overflow)
    );
    assert_eq!(state.total_fees, u128::MAX - 99);
    PiCoin::transfer(&mut state, payer(), payee(), 9_900).unwrap();
    assert_eq!(state.total_fees, u128::MAX);
}

#[test]
fn a_transfer_of_the_largest_amount_is_exact() {
    let mut state = minted();
    PiCoin::update_transaction_fee(&mut state, issuer(), 1000).unwrap();
    let (to_payee, to_custody, event) =
        PiCoin::transfer(&mut state, payer(), payee(), u128::MAX).unwrap();
    let share: u128 = 34_028_236_692_093_846_346_337_460_743_176_821_145;
    assert_eq!(
        to_payee,
        CoinAction::Transfer {
            from: Party::Principal(payer()),
            to: Party::Principal(payee()),
            amount: u128::MAX - share
        }
    );
    assert_eq!(
        to_custody,
        CoinAction::Transfer {
            from: Party::Principal(payer()),
            to: Party::Custody,
            amount: share
        }
    );
    assert_eq!(event, PiCoinEvent::FeesCollected(share));
}

#[test]
fn coin_pause_and_unpause_are_for_the_administrator_only() {
    let mut state = minted();
    assert_eq!(PiCoin::pause(&mut state, payer()), Err(PiCoinError::Unauthorized));
    assert!(!state.paused);
    assert_eq!(PiCoin::pause(&mut state, issuer()), Ok(PiCoinEvent::Paused));
    assert!(state.paused);
    assert_eq!(PiCoin::unpause(&mut state, payer()), Err(PiCoinError::Unauthorized));
    assert!(state.paused);
    assert_eq!(PiCoin::unpause(&mut state, issuer()), Ok(PiCoinEvent::Unpaused));
    assert!(!state.paused);
}

#[test]
fn the_transfer_fee_is_capped_at_ten_percent() {
    let mut state = minted();
    assert_eq!(MAX_TRANSACTION_FEE, 1000);
    assert_eq!(
        PiCoin::update_transaction_fee(&mut state, issuer(), 1001),
        Err(PiCoinError::FeeTooHigh)
    );
    assert_eq!(state.transaction_fee, 100);
    assert_eq!(
        PiCoin::update_transaction_fee(&mut state, issuer(), 1000),
        Ok(PiCoinEvent::TransactionFeeUpdated(1000))
    );
    assert_eq!(state.transaction_fee, 1000);
    assert_eq!(
        PiCoin::update_transaction_fee(&mut state, payer(), 5),
        Err(PiCoinError::Unauthorized)
    );
    assert_eq!(
        PiCoin::update_transaction_fee(&mut state, payer(), 5000),
        Err(PiCoinError::Unauthorized)
    );
    assert_eq!(state.transaction_fee, 1000);
}

#[test]
fn the_price_feed_is_set_by_the_administrator_only() {
    let mut state = minted();
    let next = Address::contract(8, 81);
    assert_eq!(PiCoin::set_price_feed(&mut state, payer(), next), Err(PiCoinError::Unauthorized));
    assert_eq!(state.price_feed, oracle());
    assert_eq!(
        PiCoin::set_price_feed(&mut state, issuer(), next),
        Ok(PiCoinEvent::PriceFeedUpdated(next))
    );
    assert_eq!(state.price_feed, next);
}

#[test]
fn mint_and_burn_are_for_the_administrator_only() {
    let state = minted();
    assert_eq!(
        PiCoin::mint(&state, issuer(), payee(), 5),
        Ok(CoinAction::Mint { recipient: payee(), amount: 5 })
    );
    assert_eq!(PiCoin::mint(&state, payer(), payee(), 5), Err(PiCoinError::Unauthorized));
    assert_eq!(
        PiCoin::burn(&state, issuer(), 6),
        Ok(CoinAction::Burn { holder: issuer(), amount: 6 })
    );
    assert_eq!(PiCoin::burn(&state, payer(), 6), Err(PiCoinError::Unauthorized));
}

#[test]
fn withdrawing_the_collected_fees_resets_them() {
    let mut state = minted();
    PiCoin::transfer(&mut state, payer(), payee(), 10_000).unwrap();
    assert_eq!(PiCoin::withdraw_fees(&mut state, payer()), Err(PiCoinError::Unauthorized));
    assert_eq!(state.total_fees, 100);
    assert_eq!(
        PiCoin::withdraw_fees(&mut state, issuer()),
        Ok(CoinAction::Transfer {
            from: Party::Custody,
            to: Party::Principal(issuer()),
            amount: 100
        })
    );
    assert_eq!(state.total_fees, 0);
    assert_eq!(
        PiCoin::withdraw_fees(&mut state, issuer()),
        Ok(CoinAction::Transfer {
            from: Party::Custody,
            to: Party::Principal(issuer()),
            amount: 0
        })
    );
}

#[test]
fn the_supply_is_corrected_towards_the_target_price() {
    let unit: u128 = 1_000_000_000_000_000_000;
    assert_eq!(PiCoin::supply_correction(issuer(), TARGET_PRICE), None);
    assert_eq!(
        PiCoin::supply_correction(issuer(), TARGET_PRICE - 5 * unit - 7),
        Some((
            CoinAction::Mint { recipient: issuer(), amount: 5000 },
            PiCoinEvent::SupplyAdjusted(5000)
        ))
    );
    assert_eq!(
        PiCoin::supply_correction(issuer(), TARGET_PRICE + 2 * unit),
        Some((
            CoinAction::Burn { holder: issuer(), amount: 2000 },
            PiCoinEvent::SupplyAdjusted(2000)
        ))
    );
    assert_eq!(
        PiCoin::supply_correction(issuer(), TARGET_PRICE - 1),
        Some((CoinAction::Mint { recipient: issuer(), amount: 0 }, PiCoinEvent::SupplyAdjusted(0)))
    );
    assert_eq!(
        PiCoin::supply_correction(issuer(), 0),
        Some((
            CoinAction::Mint { recipient: issuer(), amount: 314_159_000 },
            PiCoinEvent::SupplyAdjusted(314_159_000)
        ))
    );
    assert_eq!(
        PiCoin::supply_correction(issuer(), u128::MAX),
        Some((
            CoinAction::Burn { holder: issuer(), amount: 340_282_366_920_938_149_304_000 },
            PiCoinEvent::SupplyAdjusted(340_282_366_920_938_149_304_000)
        ))
    );
}

#[test]
fn adjusting_the_supply_at_the_target_price_does_nothing() {
    let state = minted();
    assert_eq!(PiCoin::adjust_supply(&state, issuer()), Ok(None));
    assert_eq!(PiCoin::adjust_supply(&state, payer()), Err(PiCoinError::Unauthorized));
}
