use dex_pi_coin::{Address, DEXError, DEXEvent, DEXState, Party, Pool, Settlement, Transfer, DEX};
use soroban_sdk::Env;

fn owner() -> Address {
    Address::account(0, 1)
}

fn trader() -> Address {
    Address::account(3, 4)
}

fn maker() -> Address {
    Address::account(3, 5)
}

fn token_x() -> Address {
    Address::contract(2, 20)
}

fn token_y() -> Address {
    Address::contract(2, 21)
}

fn funded(env: &Env, fee_bps: u32, reserve_x: u128, reserve_y: u128) -> DEXState {
    let mut state = DEX::initialize(env, owner(), fee_bps).unwrap();
    DEX::add_liquidity(&mut state, maker(), token_x(), token_y(), reserve_x, reserve_y).unwrap();
    state
}

fn reserves(state: &DEXState) -> (u128, u128, u128) {
    let pool = state.pool(token_x(), token_y()).unwrap();
    (pool.amount_a, pool.amount_b, pool.total_liquidity)
}

#[test]
fn a_swap_pays_the_quote_and_keeps_the_units() {
    let env = Env::default();
    let mut state = funded(&env, 0, 1000, 1000);
    let done = DEX::swap_tokens(&mut state, trader(), token_x(), token_y(), 100);
    assert_eq!(
        done,
        Ok((
            90,
            Settlement {
                first: Transfer {
                    token: token_x(),
                    from: Party::Principal(trader()),
                    to: Party::Custody,
                    amount: 100,
                },
                second: Transfer {
                    token: token_y(),
                    from: Party::Custody,
                    to: Party::Principal(trader()),
                    amount: 90,
                },
                event: DEXEvent::TokensSwapped(token_x(), token_y(), 100, 90),
            }
        ))
    );
    assert_eq!(reserves(&state), (1100, 910, 2000));
    assert_eq!(state.position(token_x(), token_y(), maker()), 2000);
    assert_eq!(state.position(token_x(), token_y(), trader()), 0);
}

#[test]
fn the_governance_fee_is_withheld_from_the_reserve_not_from_the_quote() {
    let env = Env::default();
    let mut state = funded(&env, 1000, 1000, 1000);
    let (out, settlement) =
        DEX::swap_tokens(&mut state, trader(), token_x(), token_y(), 100).unwrap();
    assert_eq!(out, 90);
    assert_eq!(settlement.first.amount, 100);
    assert_eq!(reserves(&state), (1090, 910, 2000));
}

#[test]
fn the_governance_fee_is_in_basis_points() {
    let env = Env::default();
    let mut state = funded(&env, 30, 1_000_000, 1_000_000);
    let (out, _) = DEX::swap_tokens(&mut state, trader(), token_x(), token_y(), 10_000).unwrap();
    assert_eq!(out, 9871);
    // floor(10000 * 30 / 10000) = 30 is withheld.
    assert_eq!(reserves(&state), (1_009_970, 990_129, 2_000_000));
}

#[test]
fn a_fee_of_all_the_input_leaves_the_reserve_in_unchanged() {
    let env = Env::default();
    let mut state = funded(&env, 10000, 1000, 1000);
    let (out, _) = DEX::swap_tokens(&mut state, trader(), token_x(), token_y(), 100).unwrap();
    assert_eq!(out, 90);
    assert_eq!(reserves(&state), (1000, 910, 2000));
}

#[test]
fn a_swap_uses_the_pool_of_the_ordered_pair() {
    let env = Env::default();
    let mut state = funded(&env, 0, 1000, 1000);
    assert_eq!(
        DEX::swap_tokens(&mut state, trader(), token_y(), token_x(), 100),
        Err(DEXError::PoolNotFound)
    );
    assert_eq!(reserves(&state), (1000, 1000, 2000));
}

#[test]
fn a_swap_of_zero_is_invalid() {
    let env = Env::default();
    let mut state = funded(&env, 0, 1000, 1000);
    assert_eq!(
        DEX::swap_tokens(&mut state, trader(), token_x(), token_y(), 0),
        Err(DEXError::InvalidAmount)
    );
    let mut empty = DEX::initialize(&env, owner(), 0).unwrap();
    assert_eq!(
        DEX::swap_tokens(&mut empty, trader(), token_x(), token_y(), 0),
        Err(DEXError::InvalidAmount)
    );
}

#[test]
fn a_swap_without_pool_is_not_found() {
    let env = Env::default();
    let mut state = DEX::initialize(&env, owner(), 0).unwrap();
    assert_eq!(
        DEX::swap_tokens(&mut state, trader(), token_x(), token_y(), 100),
        Err(DEXError::PoolNotFound)
    );
}

#[test]
fn a_swap_against_an_empty_reserve_is_insufficient() {
    let env = Env::default();
    // Both reserves empty.
    let mut state = funded(&env, 0, 100, 200);
    DEX::remove_liquidity(&mut state, maker(), token_x(), token_y(), 100, 200).unwrap();
    assert_eq!(
        DEX::swap_tokens(&mut state, trader(), token_x(), token_y(), 10),
        Err(DEXError::InsufficientLiquidity)
    );
    // Only the reserve paid into is empty.
    let mut state = funded(&env, 0, 1, 5);
    DEX::remove_liquidity(&mut state, maker(), token_x(), token_y(), 1, 1).unwrap();
    assert_eq!(reserves(&state), (0, 4, 4));
    assert_eq!(
        DEX::swap_tokens(&mut state, trader(), token_x(), token_y(), 10),
        Err(DEXError::InsufficientLiquidity)
    );
    // Only the reserve paid from is empty.
    let mut state = funded(&env, 0, 5, 1);
    DEX::remove_liquidity(&mut state, maker(), token_x(), token_y(), 1, 1).unwrap();
    assert_eq!(reserves(&state), (4, 0, 4));
    assert_eq!(
        DEX::swap_tokens(&mut state, trader(), token_x(), token_y(), 10),
        Err(DEXError::InsufficientLiquidity)
    );
    assert_eq!(reserves(&state), (4, 0, 4));
}

#[test]
fn a_swap_that_would_pay_nothing_is_insufficient() {
    let env = Env::default();
    let mut state = funded(&env, 0, 1000, 1000);
    assert_eq!(
        DEX::swap_tokens(&mut state, trader(), token_x(), token_y(), 1),
        Err(DEXError::InsufficientLiquidity)
    );
    assert_eq!(reserves(&state), (1000, 1000, 2000));
}

#[test]
fn a_swap_that_overfills_the_reserve_overflows() {
    let env = Env::default();
    let mut state = funded(&env, 0, u128::MAX - 10, 10);
    assert_eq!(
        DEX::swap_tokens(&mut state, trader(), token_x(), token_y(), u128::MAX),
        Err(DEXError::Overflow)
    );
    assert_eq!(reserves(&state), (u128::MAX - 10, 10, u128::MAX));
    // With the whole input withheld as fee the reserve does not grow.
    let mut state = funded(&env, 10000, u128::MAX - 10, 10);
    let (out, _) =
        DEX::swap_tokens(&mut state, trader(), token_x(), token_y(), u128::MAX).unwrap();
    assert_eq!(out, 4);
    assert_eq!(reserves(&state), (u128::MAX - 10, 6, u128::MAX));
}

#[test]
fn swaps_can_leave_fewer_reserves_than_units() {
    let env = Env::default();
    let mut state = funded(&env, 0, 10, 1000);
    let (out, _) = DEX::swap_tokens(&mut state, trader(), token_x(), token_y(), 10).unwrap();
    assert_eq!(out, 499);
    assert_eq!(reserves(&state), (20, 501, 1010));
    // The maker holds 1010 units, yet the reserves cover no more than 20
    // and 501.
    assert_eq!(
        DEX::remove_liquidity(&mut state, maker(), token_x(), token_y(), 21, 1),
        Err(DEXError::InsufficientLiquidity)
    );
    DEX::remove_liquidity(&mut state, maker(), token_x(), token_y(), 20, 501).unwrap();
    assert_eq!(
        state.pool(token_x(), token_y()),
        Some(Pool {
            token_a: token_x(),
            token_b: token_y(),
            amount_a: 0,
            amount_b: 0,
            total_liquidity: 489
        })
    );
}
