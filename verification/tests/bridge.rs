//! The reward-token bridge in both funding models, the owner's token
//! sweep, and the two withdrawals.
use bet_a0::{BetA0CoreContract, CoreError, TokenTransfer};

const OWNER: u128 = 1;
const ADMIN: u128 = 9;
const PLAYER: u128 = 7;
const POOL: u128 = 4;

fn fresh_engine() -> BetA0CoreContract {
    BetA0CoreContract::new(OWNER, 10, 30, 2, 3, POOL, 5, 100, 4, 98, 1, 96, ADMIN)
}

#[test]
fn pool_bridge_sends_the_full_entitlement_when_funded() {
    let c = fresh_engine();
    let t = c.reward_token_to_player(PLAYER, 1000, 50, 100).unwrap();
    assert_eq!(t, TokenTransfer { to: PLAYER, amount: 10 });
}

#[test]
fn pool_bridge_fills_partially_from_an_underfunded_pool() {
    let c = fresh_engine();
    let t = c.reward_token_to_player(PLAYER, 1000, 3, 100).unwrap();
    assert_eq!(t.amount, 3);
}

#[test]
fn pool_bridge_with_empty_pool_is_a_successful_no_op() {
    let c = fresh_engine();
    let t = c.reward_token_to_player(PLAYER, 1000, 0, 100).unwrap();
    assert_eq!(t.amount, 0);
}

#[test]
fn pool_bridge_never_sends_more_than_entitlement_or_pool() {
    let c = fresh_engine();
    for pool_balance in [0u128, 1, 9, 10, 11, 1000] {
        let t = c.reward_token_to_player(PLAYER, 1000, pool_balance, 1000).unwrap();
        assert!(t.amount <= 10);
        assert!(t.amount <= pool_balance);
    }
}

#[test]
fn pool_bridge_hard_fails_on_insufficient_allowance() {
    let c = fresh_engine();
    let r = c.reward_token_to_player(PLAYER, 1000, 50, 9);
    assert_eq!(r, Err(CoreError::InsufficientAllowanceError));
}

#[test]
fn pool_bridge_while_paused_is_refused() {
    let mut c = fresh_engine();
    c.change_state(OWNER).unwrap();
    let r = c.reward_token_to_player(PLAYER, 1000, 50, 100);
    assert_eq!(r, Err(CoreError::PausedError));
}

#[test]
fn contract_bridge_sends_the_entitlement_when_funded() {
    let c = fresh_engine();
    let t = c.reward_token(PLAYER, 1000, 50).unwrap();
    assert_eq!(t, TokenTransfer { to: PLAYER, amount: 10 });
}

#[test]
fn contract_bridge_fills_partially_and_never_fails_when_unfunded() {
    let c = fresh_engine();
    assert_eq!(c.reward_token(PLAYER, 1000, 7).unwrap().amount, 7);
    assert_eq!(c.reward_token(PLAYER, 1000, 0).unwrap().amount, 0);
}

#[test]
fn contract_bridge_while_paused_is_refused() {
    let mut c = fresh_engine();
    c.change_state(OWNER).unwrap();
    let r = c.reward_token(PLAYER, 1000, 50);
    assert_eq!(r, Err(CoreError::PausedError));
}

#[test]
fn token_sweep_passes_the_requested_amount_through() {
    let c = fresh_engine();
    let t = c.tranfer_token_to_pool(OWNER, POOL, 123, 1).unwrap();
    assert_eq!(t, TokenTransfer { to: POOL, amount: 123 });
}

#[test]
fn token_sweep_with_empty_token_balance_is_refused() {
    let c = fresh_engine();
    let r = c.tranfer_token_to_pool(OWNER, POOL, 123, 0);
    assert_eq!(r, Err(CoreError::InsufficientContractBalanceError));
}

#[test]
fn token_sweep_by_non_owner_is_refused() {
    let c = fresh_engine();
    let r = c.tranfer_token_to_pool(ADMIN, POOL, 123, 1000);
    assert_eq!(r, Err(CoreError::NotOwnerError));
}

#[test]
fn withdraw_fee_within_the_balance_is_approved() {
    let c = fresh_engine();
    assert_eq!(c.withdraw_fee(OWNER, 500, 1000), Ok(()));
    assert_eq!(c.withdraw_fee(OWNER, 1000, 1000), Ok(()));
}

#[test]
fn withdraw_fee_beyond_the_balance_is_refused() {
    let c = fresh_engine();
    let r = c.withdraw_fee(OWNER, 1001, 1000);
    assert_eq!(r, Err(CoreError::InsufficientContractBalanceError));
}

#[test]
fn withdraw_fee_by_non_owner_is_refused() {
    let c = fresh_engine();
    assert_eq!(c.withdraw_fee(PLAYER, 1, 1000), Err(CoreError::NotOwnerError));
}

#[test]
fn withdraw_token_within_the_token_balance_is_approved() {
    let c = fresh_engine();
    assert_eq!(c.withdraw_token(OWNER, 500, 1000), Ok(()));
}

#[test]
fn withdraw_token_beyond_the_token_balance_is_refused() {
    let c = fresh_engine();
    let r = c.withdraw_token(OWNER, 1001, 1000);
    assert_eq!(r, Err(CoreError::InsufficientContractBalanceError));
}

#[test]
fn withdrawals_while_paused_are_refused() {
    let mut c = fresh_engine();
    c.change_state(OWNER).unwrap();
    assert_eq!(c.withdraw_fee(OWNER, 1, 1000), Err(CoreError::PausedError));
    assert_eq!(c.withdraw_token(OWNER, 1, 1000), Err(CoreError::PausedError));
    assert_eq!(c.tranfer_token_to_pool(OWNER, POOL, 1, 1000), Err(CoreError::PausedError));
}
