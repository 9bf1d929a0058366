//! Settlement: the strict win rule, the payout and loss-split arithmetic,
//! single consumption of a wager, and every way `finalize` can refuse.
use bet_a0::{BetA0CoreContract, CoreError, SettleReceipt};

const OWNER: u128 = 1;
const ADMIN: u128 = 9;
const PLAYER: u128 = 7;

fn fresh_engine() -> BetA0CoreContract {
    BetA0CoreContract::new(OWNER, 10, 30, 2, 3, 4, 5, 100, 4, 98, 1, 96, ADMIN)
}

#[test]
fn win_amount_is_the_floored_rated_payout() {
    let mut c = fresh_engine();
    // over_rates[4] == 10368; stake 1000 -> floor(10368 * 1000 / 10000) == 1036
    c.play(PLAYER, 4, 1, 1000, 100_000).unwrap();
    let st = c.finalize(ADMIN, PLAYER, 5, 1_000_000, 50, 100).unwrap();
    assert_eq!(st.player_payout, 1036);
    assert_eq!(st.reward_pool_amount, 0);
    assert_eq!(st.general_pool_amount, 0);
    match st.receipt {
        SettleReceipt::Win(ev) => {
            assert_eq!(ev.player, PLAYER);
            assert_eq!(ev.is_over, 1);
            assert_eq!(ev.random_number, 5);
            assert_eq!(ev.bet_number, 4);
            assert_eq!(ev.bet_amount, 1000);
            assert_eq!(ev.win_amount, 1036);
        },
        SettleReceipt::Lose(_) => panic!("expected a win receipt"),
    }
}

#[test]
fn under_win_uses_the_under_table() {
    let mut c = fresh_engine();
    // under_rates[95] == 10368: random below the target wins for Under.
    c.play(PLAYER, 95, 0, 1000, 100_000).unwrap();
    let st = c.finalize(ADMIN, PLAYER, 94, 1_000_000, 50, 100).unwrap();
    assert_eq!(st.player_payout, 1036);
}

#[test]
fn tie_loses_for_over() {
    let mut c = fresh_engine();
    c.play(PLAYER, 50, 1, 1000, 100_000).unwrap();
    let st = c.finalize(ADMIN, PLAYER, 50, 1_000_000, 50, 100).unwrap();
    assert!(matches!(st.receipt, SettleReceipt::Lose(_)));
    assert_eq!(st.player_payout, 0);
}

#[test]
fn tie_loses_for_under() {
    let mut c = fresh_engine();
    c.play(PLAYER, 50, 0, 1000, 100_000).unwrap();
    let st = c.finalize(ADMIN, PLAYER, 50, 1_000_000, 50, 100).unwrap();
    assert!(matches!(st.receipt, SettleReceipt::Lose(_)));
    assert_eq!(st.player_payout, 0);
}

#[test]
fn loss_split_routes_the_revenue_share_and_conserves_the_stake() {
    let mut c = fresh_engine();
    // revenue_ratio 30: floor(1000 * 30 / 100) == 300 to the reward pool,
    // the remaining 700 to the general pool.
    c.play(PLAYER, 50, 1, 1000, 100_000).unwrap();
    let st = c.finalize(ADMIN, PLAYER, 10, 1_000_000, 50, 100).unwrap();
    assert_eq!(st.reward_pool_amount, 300);
    assert_eq!(st.general_pool_amount, 700);
    assert_eq!(st.reward_pool_amount + st.general_pool_amount, 1000);
    match st.receipt {
        SettleReceipt::Lose(ev) => {
            assert_eq!(ev.player, PLAYER);
            assert_eq!(ev.random_number, 10);
            assert_eq!(ev.bet_number, 50);
            assert_eq!(ev.bet_amount, 1000);
        },
        SettleReceipt::Win(_) => panic!("expected a lose receipt"),
    }
}

#[test]
fn settlement_consumes_the_wager() {
    let mut c = fresh_engine();
    c.play(PLAYER, 50, 1, 1000, 100_000).unwrap();
    c.finalize(ADMIN, PLAYER, 10, 1_000_000, 50, 100).unwrap();
    assert!(!c.is_bet_available(PLAYER));
    assert_eq!(c.get_bet(PLAYER), None);
}

#[test]
fn repeated_finalize_fails_with_bet_not_found() {
    let mut c = fresh_engine();
    c.play(PLAYER, 50, 1, 1000, 100_000).unwrap();
    c.finalize(ADMIN, PLAYER, 10, 1_000_000, 50, 100).unwrap();
    let again = c.finalize(ADMIN, PLAYER, 10, 1_000_000, 50, 100);
    assert_eq!(again, Err(CoreError::BetNotFoundError));
}

#[test]
fn finalize_without_a_bet_fails_and_mutates_nothing() {
    let mut c = fresh_engine();
    c.play(PLAYER + 1, 50, 1, 1000, 100_000).unwrap();
    let r = c.finalize(ADMIN, PLAYER, 10, 1_000_000, 50, 100);
    assert_eq!(r, Err(CoreError::BetNotFoundError));
    // The other player's wager and the configuration are untouched.
    assert!(c.is_bet_available(PLAYER + 1));
    assert_eq!(c.get_revenue_ratio(), 30);
    assert_eq!(c.get_admin_account(), ADMIN);
}

#[test]
fn finalize_by_non_admin_is_refused() {
    let mut c = fresh_engine();
    c.play(PLAYER, 50, 1, 1000, 100_000).unwrap();
    let r = c.finalize(OWNER, PLAYER, 10, 1_000_000, 50, 100);
    assert_eq!(r, Err(CoreError::NotOwnerError));
    assert!(c.is_bet_available(PLAYER));
}

#[test]
fn finalize_while_paused_is_refused() {
    let mut c = fresh_engine();
    c.play(PLAYER, 50, 1, 1000, 100_000).unwrap();
    c.change_state(OWNER).unwrap();
    let r = c.finalize(ADMIN, PLAYER, 10, 1_000_000, 50, 100);
    assert_eq!(r, Err(CoreError::PausedError));
}

#[test]
fn stored_invalid_side_is_rejected_at_settlement() {
    let mut c = fresh_engine();
    c.play(PLAYER, 50, 2, 1000, 100_000).unwrap();
    let r = c.finalize(ADMIN, PLAYER, 10, 1_000_000, 50, 100);
    assert_eq!(r, Err(CoreError::InvalidSideError));
}

#[test]
fn range_reconfiguration_between_stake_and_settlement_is_caught() {
    let mut c = fresh_engine();
    c.play(PLAYER, 50, 1, 1000, 100_000).unwrap();
    c.set_min_number_over_roll(OWNER, 60).unwrap();
    let r = c.finalize(ADMIN, PLAYER, 70, 1_000_000, 50, 100);
    assert_eq!(r, Err(CoreError::RangeViolation));
    assert!(c.is_bet_available(PLAYER));
}

#[test]
fn win_beyond_the_contract_balance_is_refused() {
    let mut c = fresh_engine();
    // Payout 1036 returns the 1000 stake plus 36 of house value; a
    // balance of 35 cannot cover the excess.
    c.play(PLAYER, 4, 1, 1000, 100_000).unwrap();
    let r = c.finalize(ADMIN, PLAYER, 5, 35, 50, 100);
    assert_eq!(r, Err(CoreError::InsufficientContractBalanceError));
    assert!(c.is_bet_available(PLAYER));
}

#[test]
fn win_with_exactly_enough_balance_succeeds() {
    let mut c = fresh_engine();
    c.play(PLAYER, 4, 1, 1000, 100_000).unwrap();
    let st = c.finalize(ADMIN, PLAYER, 5, 36, 50, 100).unwrap();
    assert_eq!(st.player_payout, 1036);
}

#[test]
fn settlement_with_insufficient_allowance_is_refused_whole() {
    let mut c = fresh_engine();
    // Entitlement 1000 / 100 == 10; an allowance of 9 fails the bridge
    // and the wager stays open.
    c.play(PLAYER, 50, 1, 1000, 100_000).unwrap();
    let r = c.finalize(ADMIN, PLAYER, 10, 1_000_000, 50, 9);
    assert_eq!(r, Err(CoreError::InsufficientAllowanceError));
    assert!(c.is_bet_available(PLAYER));
}

#[test]
fn settlement_credits_the_reward_token_entitlement() {
    let mut c = fresh_engine();
    c.play(PLAYER, 50, 1, 1000, 100_000).unwrap();
    let st = c.finalize(ADMIN, PLAYER, 10, 1_000_000, 50, 100).unwrap();
    assert_eq!(st.reward_token_amount, 10);
}

#[test]
fn settlement_reward_token_fill_is_capped_by_the_pool() {
    let mut c = fresh_engine();
    c.play(PLAYER, 50, 1, 1000, 100_000).unwrap();
    let st = c.finalize(ADMIN, PLAYER, 10, 1_000_000, 3, 100).unwrap();
    assert_eq!(st.reward_token_amount, 3);
}

#[test]
fn settlement_with_empty_pool_still_succeeds() {
    let mut c = fresh_engine();
    c.play(PLAYER, 50, 1, 1000, 100_000).unwrap();
    let st = c.finalize(ADMIN, PLAYER, 10, 1_000_000, 0, 100).unwrap();
    assert_eq!(st.reward_token_amount, 0);
    assert!(!c.is_bet_available(PLAYER));
}

#[test]
fn settled_player_can_play_again() {
    let mut c = fresh_engine();
    c.play(PLAYER, 50, 1, 1000, 100_000).unwrap();
    c.finalize(ADMIN, PLAYER, 10, 1_000_000, 50, 100).unwrap();
    assert!(c.play(PLAYER, 60, 0, 500, 100_000).is_ok());
}
