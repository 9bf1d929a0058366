//! Configuration: one-time initialization, the reference odds tables,
//! owner-gated setters and their accessors, and the pause toggle.
use bet_a0::{BetA0CoreContract, CoreError};

const OWNER: u128 = 1;
const ADMIN: u128 = 9;
const PLAYER: u128 = 7;

fn fresh_engine() -> BetA0CoreContract {
    BetA0CoreContract::new(OWNER, 10, 30, 2, 3, 4, 5, 100, 4, 98, 1, 96, ADMIN)
}

#[test]
fn new_engine_mirrors_its_constructor_arguments() {
    let c = fresh_engine();
    assert_eq!(c.get_max_bet_ratio(), 10);
    assert_eq!(c.get_revenue_ratio(), 30);
    assert_eq!(c.get_reward_pool(), 2);
    assert_eq!(c.get_general_pool(), 3);
    assert_eq!(c.get_bet_pool(), 4);
    assert_eq!(c.bet_token_address(), 5);
    assert_eq!(c.get_token_ratio(), 100);
    assert_eq!(c.get_min_number_over_roll(), 4);
    assert_eq!(c.get_max_number_over_roll(), 98);
    assert_eq!(c.get_min_number_under_roll(), 1);
    assert_eq!(c.get_max_number_under_roll(), 96);
    assert_eq!(c.get_admin_account(), ADMIN);
    assert!(!c.is_bet_available(PLAYER));
}

#[test]
fn initialize_a_second_time_fails_and_changes_nothing() {
    let mut c = fresh_engine();
    let r = c.initialize(OWNER, 99, 500, 20, 30, 40, 50, 999, 10, 20, 30, 40, 60);
    assert_eq!(r, Err(CoreError::AlreadyInitializedError));
    // Prior configuration untouched.
    assert_eq!(c.get_max_bet_ratio(), 10);
    assert_eq!(c.get_revenue_ratio(), 30);
    assert_eq!(c.bet_token_address(), 5);
    assert_eq!(c.get_admin_account(), ADMIN);
}

#[test]
fn initialize_by_non_owner_is_refused() {
    let mut c = fresh_engine();
    let r = c.initialize(ADMIN, 99, 500, 20, 30, 40, 50, 999, 10, 20, 30, 40, 60);
    assert_eq!(r, Err(CoreError::NotOwnerError));
}

#[test]
fn initialize_rejects_a_revenue_ratio_outside_its_range() {
    // An engine built bare, before any initialization.
    let mut c = BetA0CoreContract::default();
    c.owner = Some(OWNER);
    assert_eq!(
        c.initialize(OWNER, 10, 0, 2, 3, 4, 5, 100, 4, 98, 1, 96, ADMIN),
        Err(CoreError::RangeViolation)
    );
    assert_eq!(
        c.initialize(OWNER, 10, 1001, 2, 3, 4, 5, 100, 4, 98, 1, 96, ADMIN),
        Err(CoreError::RangeViolation)
    );
    assert!(c.initialize(OWNER, 10, 1000, 2, 3, 4, 5, 100, 4, 98, 1, 96, ADMIN).is_ok());
}

#[test]
fn default_tables_hold_the_reference_curve() {
    let c = fresh_engine();
    let over = c.get_over_rates();
    let under = c.get_under_rates();
    assert_eq!(over.len(), 100);
    assert_eq!(under.len(), 100);
    assert_eq!(over[0], 0);
    assert_eq!(over[4], 10368);
    assert_eq!(over[50], 20102);
    assert_eq!(over[98], 985000);
    assert_eq!(over[99], 0);
    assert_eq!(under[1], 985000);
    assert_eq!(under[95], 10368);
    assert_eq!(under[96], 0);
    assert_eq!(under[99], 0);
}

#[test]
fn under_table_is_the_mirror_of_the_over_table() {
    let c = fresh_engine();
    let over = c.get_over_rates();
    let under = c.get_under_rates();
    assert_eq!(over.len(), under.len());
    for i in 0..over.len() {
        assert_eq!(under[i], over[over.len() - 1 - i]);
    }
}

#[test]
fn set_rates_replaces_both_tables() {
    let mut c = fresh_engine();
    assert_eq!(c.set_rates(OWNER, vec![0, 11000, 0], vec![0, 12000, 0]), Ok(()));
    assert_eq!(c.get_over_rates(), vec![0, 11000, 0]);
    assert_eq!(c.get_under_rates(), vec![0, 12000, 0]);
}

#[test]
fn set_rates_rejects_mismatched_lengths_without_mutating() {
    let mut c = fresh_engine();
    let r = c.set_rates(OWNER, vec![0, 11000, 0], vec![0, 12000]);
    assert_eq!(r, Err(CoreError::RangeViolation));
    // Both tables still hold the reference curve.
    assert_eq!(c.get_over_rates().len(), 100);
    assert_eq!(c.get_under_rates().len(), 100);
    assert_eq!(c.get_over_rates()[4], 10368);
    assert_eq!(c.get_under_rates()[1], 985000);
}

#[test]
fn set_rates_by_non_owner_is_refused() {
    let mut c = fresh_engine();
    let r = c.set_rates(PLAYER, vec![1], vec![2]);
    assert_eq!(r, Err(CoreError::NotOwnerError));
    assert_eq!(c.get_over_rates().len(), 100);
}

#[test]
fn setters_update_their_fields_for_the_owner() {
    let mut c = fresh_engine();
    c.set_min_number_over_roll(OWNER, 11).unwrap();
    c.set_max_number_over_roll(OWNER, 88).unwrap();
    c.set_min_number_under_roll(OWNER, 12).unwrap();
    c.set_max_number_under_roll(OWNER, 87).unwrap();
    c.set_bet_token_address(OWNER, 55).unwrap();
    c.set_token_ratio(OWNER, 200).unwrap();
    c.set_max_bet_ratio(OWNER, 20).unwrap();
    c.set_revenue_ratio(OWNER, 40).unwrap();
    c.set_reward_pool(OWNER, 21).unwrap();
    c.set_general_pool(OWNER, 31).unwrap();
    c.set_bet_pool(OWNER, 41).unwrap();
    c.set_admin_account(OWNER, 91).unwrap();
    assert_eq!(c.get_min_number_over_roll(), 11);
    assert_eq!(c.get_max_number_over_roll(), 88);
    assert_eq!(c.get_min_number_under_roll(), 12);
    assert_eq!(c.get_max_number_under_roll(), 87);
    assert_eq!(c.bet_token_address(), 55);
    assert_eq!(c.get_token_ratio(), 200);
    assert_eq!(c.get_max_bet_ratio(), 20);
    assert_eq!(c.get_revenue_ratio(), 40);
    assert_eq!(c.get_reward_pool(), 21);
    assert_eq!(c.get_general_pool(), 31);
    assert_eq!(c.get_bet_pool(), 41);
    assert_eq!(c.get_admin_account(), 91);
}

#[test]
fn setters_refuse_a_non_owner_and_change_nothing() {
    let mut c = fresh_engine();
    assert_eq!(c.set_token_ratio(PLAYER, 200), Err(CoreError::NotOwnerError));
    assert_eq!(c.set_admin_account(PLAYER, PLAYER), Err(CoreError::NotOwnerError));
    assert_eq!(c.set_max_bet_ratio(PLAYER, 1), Err(CoreError::NotOwnerError));
    assert_eq!(c.get_token_ratio(), 100);
    assert_eq!(c.get_admin_account(), ADMIN);
    assert_eq!(c.get_max_bet_ratio(), 10);
}

#[test]
fn change_state_toggles_the_pause_flag() {
    let mut c = fresh_engine();
    c.change_state(OWNER).unwrap();
    assert_eq!(c.play(PLAYER, 50, 1, 1000, 100_000), Err(CoreError::PausedError));
    c.change_state(OWNER).unwrap();
    assert!(c.play(PLAYER, 50, 1, 1000, 100_000).is_ok());
}

#[test]
fn change_state_by_non_owner_is_refused() {
    let mut c = fresh_engine();
    assert_eq!(c.change_state(PLAYER), Err(CoreError::NotOwnerError));
    // Still unpaused.
    let mut c2 = c;
    assert!(c2.play(PLAYER, 50, 1, 1000, 100_000).is_ok());
}

#[test]
fn new_admin_settles_after_reconfiguration() {
    let mut c = fresh_engine();
    c.play(PLAYER, 50, 1, 1000, 100_000).unwrap();
    c.set_admin_account(OWNER, 91).unwrap();
    assert_eq!(
        c.finalize(ADMIN, PLAYER, 10, 1_000_000, 50, 100),
        Err(CoreError::NotOwnerError)
    );
    assert!(c.finalize(91, PLAYER, 10, 1_000_000, 50, 100).is_ok());
}
