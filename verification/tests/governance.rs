use dex_pi_coin::{Address, DEXError, DEXEvent, DEXState, Party, Transfer, DEX};
use soroban_sdk::Env;

fn root() -> Address {
    Address::account(0, 1)
}

fn stranger() -> Address {
    Address::account(0, 2)
}

fn coin() -> Address {
    Address::contract(4, 40)
}

fn other_coin() -> Address {
    Address::contract(4, 41)
}

fn running(env: &Env) -> DEXState {
    let mut state = DEX::initialize(env, root(), 30).unwrap();
    DEX::add_liquidity(&mut state, stranger(), coin(), other_coin(), 1000, 1000).unwrap();
    state
}

#[test]
fn initialize_accepts_a_fee_of_ten_thousand_and_refuses_more() {
    let env = Env::default();
    let state = DEX::initialize(&env, root(), 10000).unwrap();
    assert_eq!(state.fee_percentage, 10000);
    assert_eq!(state.admin, root());
    assert!(!state.paused);
    assert_eq!(DEX::initialize(&env, root(), 10001).err(), Some(DEXError::FeeTooHigh));
    assert_eq!(DEX::initialize(&env, root(), u32::MAX).err(), Some(DEXError::FeeTooHigh));
    assert_eq!(DEX::initialize(&env, root(), 0).unwrap().fee_percentage, 0);
}

#[test]
fn update_fee_accepts_ten_thousand_and_refuses_more() {
    let env = Env::default();
    let mut state = running(&env);
    assert_eq!(
        DEX::update_fee_percentage(&mut state, root(), 10001),
        Err(DEXError::FeeTooHigh)
    );
    assert_eq!(state.fee_percentage, 30);
    assert_eq!(
        DEX::update_fee_percentage(&mut state, root(), 10000),
        Ok(DEXEvent::FeeUpdated(10000))
    );
    assert_eq!(state.fee_percentage, 10000);
}

#[test]
fn update_fee_is_for_the_administrator_only() {
    let env = Env::default();
    let mut state = running(&env);
    assert_eq!(
        DEX::update_fee_percentage(&mut state, stranger(), 50),
        Err(DEXError::Unauthorized)
    );
    // Who calls is judged before what is asked.
    assert_eq!(
        DEX::update_fee_percentage(&mut state, stranger(), 10001),
        Err(DEXError::Unauthorized)
    );
    assert_eq!(state.fee_percentage, 30);
}

#[test]
fn a_new_fee_applies_to_the_next_swap() {
    let env = Env::default();
    let mut state = running(&env);
    DEX::update_fee_percentage(&mut state, root(), 5000).unwrap();
    let (out, _) = DEX::swap_tokens(&mut state, stranger(), coin(), other_coin(), 100).unwrap();
    assert_eq!(out, 90);
    let pool = state.pool(coin(), other_coin()).unwrap();
    assert_eq!((pool.amount_a, pool.amount_b), (1050, 910));
}

#[test]
fn pause_by_a_stranger_is_refused_and_changes_nothing() {
    let env = Env::default();
    let mut state = running(&env);
    assert_eq!(DEX::pause(&mut state, stranger()), Err(DEXError::Unauthorized));
    assert!(!state.paused);
    DEX::pause(&mut state, root()).unwrap();
    assert_eq!(DEX::unpause(&mut state, stranger()), Err(DEXError::Unauthorized));
    assert!(state.paused);
}

#[test]
fn pause_suspends_liquidity_and_swaps() {
    let env = Env::default();
    let mut state = running(&env);
    assert_eq!(DEX::pause(&mut state, root()), Ok(DEXEvent::Paused));
    assert!(state.paused);
    assert_eq!(
        DEX::add_liquidity(&mut state, stranger(), coin(), other_coin(), 1, 1),
        Err(DEXError::Paused)
    );
    assert_eq!(
        DEX::remove_liquidity(&mut state, stranger(), coin(), other_coin(), 1, 1),
        Err(DEXError::Paused)
    );
    assert_eq!(
        DEX::swap_tokens(&mut state, stranger(), coin(), other_coin(), 100),
        Err(DEXError::Paused)
    );
    // The pause is judged before the arguments.
    assert_eq!(
        DEX::add_liquidity(&mut state, stranger(), coin(), other_coin(), 0, 0),
        Err(DEXError::Paused)
    );
    assert_eq!(
        DEX::swap_tokens(&mut state, stranger(), other_coin(), coin(), 0),
        Err(DEXError::Paused)
    );
    let pool = state.pool(coin(), other_coin()).unwrap();
    assert_eq!((pool.amount_a, pool.amount_b, pool.total_liquidity), (1000, 1000, 2000));
    assert_eq!(state.position(coin(), other_coin(), stranger()), 2000);
}

#[test]
fn the_administrator_still_governs_while_paused() {
    let env = Env::default();
    let mut state = running(&env);
    DEX::pause(&mut state, root()).unwrap();
    assert_eq!(
        DEX::update_fee_percentage(&mut state, root(), 77),
        Ok(DEXEvent::FeeUpdated(77))
    );
    assert_eq!(state.fee_percentage, 77);
    assert_eq!(
        DEX::withdraw_fees(&state, root(), coin(), 12),
        Ok((
            Transfer {
                token: coin(),
                from: Party::Custody,
                to: Party::Principal(root()),
                amount: 12
            },
            DEXEvent::FeesWithdrawn(coin(), 12)
        ))
    );
    assert_eq!(DEX::pause(&mut state, root()), Ok(DEXEvent::Paused));
    assert!(state.paused);
    assert_eq!(DEX::unpause(&mut state, root()), Ok(DEXEvent::Unpaused));
    assert!(!state.paused);
    DEX::add_liquidity(&mut state, stranger(), coin(), other_coin(), 1, 1).unwrap();
    assert_eq!(state.position(coin(), other_coin(), stranger()), 2002);
}

#[test]
fn withdraw_fees_hands_out_the_whole_custody_balance() {
    let env = Env::default();
    let state = running(&env);
    assert_eq!(
        DEX::withdraw_fees(&state, root(), coin(), u128::MAX),
        Ok((
            Transfer {
                token: coin(),
                from: Party::Custody,
                to: Party::Principal(root()),
                amount: u128::MAX
            },
            DEXEvent::FeesWithdrawn(coin(), u128::MAX)
        ))
    );
    assert_eq!(DEX::withdraw_fees(&state, root(), coin(), 0), Err(DEXError::InvalidAmount));
    assert_eq!(DEX::withdraw_fees(&state, stranger(), coin(), 5), Err(DEXError::Unauthorized));
    assert_eq!(DEX::withdraw_fees(&state, stranger(), coin(), 0), Err(DEXError::Unauthorized));
}
