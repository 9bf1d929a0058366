//! The engine's concrete state: the owner-mutable configuration aggregate,
//! the wager ledger, and the contract value that views into the abstract
//! model of `crate::model`.
use crate::model::StateModel;
use crate::types::{AccountId, BetInformation, ZERO_ADDRESS};
use std::collections::HashMap;
use vstd::prelude::*;

verus! {

/// The owner-mutable configuration and the wager ledger.
pub struct Manager {
    /// Payout multipliers for Over wagers, scaled by 10,000 and indexed by
    /// bet number.
    pub over_rates: Vec<u32>,
    /// Payout multipliers for Under wagers; the numeric mirror of
    /// `over_rates`.
    pub under_rates: Vec<u32>,
    /// Divisor bounding a single stake as a share of the contract balance.
    pub max_bet_ratio: u32,
    /// The auxiliary token contract; `ZERO_ADDRESS` until `initialize`.
    pub bet_token_address: AccountId,
    /// Divisor converting a wagered amount into a reward-token credit.
    pub token_ratio: u32,
    /// At most one open wager per player.
    pub bets: HashMap<AccountId, BetInformation>,
    /// The only identity allowed to settle wagers.
    pub admin_account: AccountId,
    /// Share of a lost stake routed to the reward pool, out of 100.
    pub revenue_ratio: u32,
    pub reward_pool: AccountId,
    pub general_pool: AccountId,
    pub bet_pool: AccountId,
    pub min_over_number: u32,
    pub max_over_number: u32,
    pub min_under_number: u32,
    pub max_under_number: u32,
}

/// One deployed wagering engine: ownership, the pause flag, and the
/// manager aggregate.
pub struct BetA0CoreContract {
    pub owner: Option<AccountId>,
    pub paused: bool,
    pub manager: Manager,
}

impl View for BetA0CoreContract {
    type V = StateModel;

    open spec fn view(&self) -> StateModel {
        StateModel {
            owner: self.owner,
            paused: self.paused,
            over_rates: self.manager.over_rates@,
            under_rates: self.manager.under_rates@,
            max_bet_ratio: self.manager.max_bet_ratio,
            bet_token_address: self.manager.bet_token_address,
            token_ratio: self.manager.token_ratio,
            bets: self.manager.bets@,
            admin_account: self.manager.admin_account,
            revenue_ratio: self.manager.revenue_ratio,
            reward_pool: self.manager.reward_pool,
            general_pool: self.manager.general_pool,
            bet_pool: self.manager.bet_pool,
            min_over_number: self.manager.min_over_number,
            max_over_number: self.manager.max_over_number,
            min_under_number: self.manager.min_under_number,
            max_under_number: self.manager.max_under_number,
        }
    }
}

/// The model of a freshly constructed, not yet initialized engine.
pub open spec fn spec_default_state() -> StateModel {
    StateModel {
        owner: None,
        paused: false,
        over_rates: Seq::empty(),
        under_rates: Seq::empty(),
        max_bet_ratio: 0,
        bet_token_address: ZERO_ADDRESS,
        token_ratio: 0,
        bets: Map::empty(),
        admin_account: ZERO_ADDRESS,
        revenue_ratio: 0,
        reward_pool: ZERO_ADDRESS,
        general_pool: ZERO_ADDRESS,
        bet_pool: ZERO_ADDRESS,
        min_over_number: 0,
        max_over_number: 0,
        min_under_number: 0,
        max_under_number: 0,
    }
}

impl Default for Manager {
    /// An empty ledger, empty odds tables, and every identity unset.
    fn default() -> (r: Manager)
        ensures
            r.over_rates@ == Seq::<u32>::empty(),
            r.under_rates@ == Seq::<u32>::empty(),
            r.max_bet_ratio == 0,
            r.bet_token_address == ZERO_ADDRESS,
            r.token_ratio == 0,
            r.bets@ == Map::<AccountId, BetInformation>::empty(),
            r.admin_account == ZERO_ADDRESS,
            r.revenue_ratio == 0,
            r.reward_pool == ZERO_ADDRESS,
            r.general_pool == ZERO_ADDRESS,
            r.bet_pool == ZERO_ADDRESS,
            r.min_over_number == 0,
            r.max_over_number == 0,
            r.min_under_number == 0,
            r.max_under_number == 0,
    {
        let over_rates: Vec<u32> = Vec::new();
        let under_rates: Vec<u32> = Vec::new();
        let bets: HashMap<AccountId, BetInformation> = HashMap::new();
        proof {
            assert(over_rates@ =~= Seq::<u32>::empty());
            assert(under_rates@ =~= Seq::<u32>::empty());
        }
        Manager {
            over_rates,
            under_rates,
            max_bet_ratio: 0,
            bet_token_address: ZERO_ADDRESS,
            token_ratio: 0,
            bets,
            admin_account: ZERO_ADDRESS,
            revenue_ratio: 0,
            reward_pool: ZERO_ADDRESS,
            general_pool: ZERO_ADDRESS,
            bet_pool: ZERO_ADDRESS,
            min_over_number: 0,
            max_over_number: 0,
            min_under_number: 0,
            max_under_number: 0,
        }
    }
}

impl Default for BetA0CoreContract {
    /// An unowned, unpaused engine over a default manager.
    fn default() -> (r: BetA0CoreContract)
        ensures
            r@ == spec_default_state(),
    {
        let r = BetA0CoreContract { owner: None, paused: false, manager: Manager::default() };
        proof {
            assert(r@ =~= spec_default_state());
        }
        r
    }
}

} // verus!
