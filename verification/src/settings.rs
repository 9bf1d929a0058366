//! Owner-gated configuration setters and the read-only accessors that
//! mirror every configuration field.
use crate::model::{spec_max_bet, StateModel};
use crate::state::BetA0CoreContract;
use crate::types::{AccountId, Balance, BetInformation, CoreError};
use vstd::prelude::*;

verus! {

impl BetA0CoreContract {
    /// Set the lower bound of the Over bet-number range, owner only.
    pub fn set_min_number_over_roll(&mut self, caller: AccountId, min_over_number: u32) -> (r:
        Result<(), CoreError>)
        ensures
            old(self)@.owner == Some(caller) ==> r == Ok::<(), CoreError>(()) && final(self)@
                == (StateModel { min_over_number, ..old(self)@ }),
            old(self)@.owner != Some(caller) ==> r == Err::<(), CoreError>(CoreError::NotOwnerError)
                && final(self)@ == old(self)@,
    {
        let owner_ok: bool = match self.owner {
            Some(o) => o == caller,
            None => false,
        };
        if !owner_ok {
            return Err(CoreError::NotOwnerError);
        }
        self.manager.min_over_number = min_over_number;
        proof {
            assert(self@ =~= (StateModel { min_over_number, ..old(self)@ }));
        }
        Ok(())
    }

    /// Set the upper bound of the Over bet-number range, owner only.
    pub fn set_max_number_over_roll(&mut self, caller: AccountId, max_over_number: u32) -> (r:
        Result<(), CoreError>)
        ensures
            old(self)@.owner == Some(caller) ==> r == Ok::<(), CoreError>(()) && final(self)@
                == (StateModel { max_over_number, ..old(self)@ }),
            old(self)@.owner != Some(caller) ==> r == Err::<(), CoreError>(CoreError::NotOwnerError)
                && final(self)@ == old(self)@,
    {
        let owner_ok: bool = match self.owner {
            Some(o) => o == caller,
            None => false,
        };
        if !owner_ok {
            return Err(CoreError::NotOwnerError);
        }
        self.manager.max_over_number = max_over_number;
        proof {
            assert(self@ =~= (StateModel { max_over_number, ..old(self)@ }));
        }
        Ok(())
    }

    /// Set the lower bound of the Under bet-number range, owner only.
    pub fn set_min_number_under_roll(&mut self, caller: AccountId, min_under_number: u32) -> (r:
        Result<(), CoreError>)
        ensures
            old(self)@.owner == Some(caller) ==> r == Ok::<(), CoreError>(()) && final(self)@
                == (StateModel { min_under_number, ..old(self)@ }),
            old(self)@.owner != Some(caller) ==> r == Err::<(), CoreError>(CoreError::NotOwnerError)
                && final(self)@ == old(self)@,
    {
        let owner_ok: bool = match self.owner {
            Some(o) => o == caller,
            None => false,
        };
        if !owner_ok {
            return Err(CoreError::NotOwnerError);
        }
        self.manager.min_under_number = min_under_number;
        proof {
            assert(self@ =~= (StateModel { min_under_number, ..old(self)@ }));
        }
        Ok(())
    }

    /// Set the upper bound of the Under bet-number range, owner only.
    pub fn set_max_number_under_roll(&mut self, caller: AccountId, max_under_number: u32) -> (r:
        Result<(), CoreError>)
        ensures
            old(self)@.owner == Some(caller) ==> r == Ok::<(), CoreError>(()) && final(self)@
                == (StateModel { max_under_number, ..old(self)@ }),
            old(self)@.owner != Some(caller) ==> r == Err::<(), CoreError>(CoreError::NotOwnerError)
                && final(self)@ == old(self)@,
    {
        let owner_ok: bool = match self.owner {
            Some(o) => o == caller,
            None => false,
        };
        if !owner_ok {
            return Err(CoreError::NotOwnerError);
        }
        self.manager.max_under_number = max_under_number;
        proof {
            assert(self@ =~= (StateModel { max_under_number, ..old(self)@ }));
        }
        Ok(())
    }

    /// Replace both odds tables, owner only; the two replacements must
    /// have the same length, and on a refusal neither table changes.
    pub fn set_rates(&mut self, caller: AccountId, over_rates: Vec<u32>, under_rates: Vec<u32>) -> (
        r: Result<(), CoreError>)
        ensures
            old(self)@.owner != Some(caller) ==> r == Err::<(), CoreError>(CoreError::NotOwnerError)
                && final(self)@ == old(self)@,
            old(self)@.owner == Some(caller) && over_rates@.len() != under_rates@.len() ==> r
                == Err::<(), CoreError>(CoreError::RangeViolation) && final(self)@ == old(self)@,
            old(self)@.owner == Some(caller) && over_rates@.len() == under_rates@.len() ==> r
                == Ok::<(), CoreError>(()) && final(self)@ == (StateModel {
                over_rates: over_rates@,
                under_rates: under_rates@,
                ..old(self)@
            }),
    {
        let owner_ok: bool = match self.owner {
            Some(o) => o == caller,
            None => false,
        };
        if !owner_ok {
            return Err(CoreError::NotOwnerError);
        }
        if over_rates.len() != under_rates.len() {
            return Err(CoreError::RangeViolation);
        }
        let ghost target = StateModel { over_rates: over_rates@, under_rates: under_rates@, ..old(self)@ };
        self.manager.over_rates = over_rates;
        self.manager.under_rates = under_rates;
        proof {
            assert(self@ =~= target);
        }
        Ok(())
    }

    /// Point the engine at a new auxiliary token contract, owner only.
    pub fn set_bet_token_address(&mut self, caller: AccountId, bet_token_address: AccountId) -> (r:
        Result<(), CoreError>)
        ensures
            old(self)@.owner == Some(caller) ==> r == Ok::<(), CoreError>(()) && final(self)@
                == (StateModel { bet_token_address, ..old(self)@ }),
            old(self)@.owner != Some(caller) ==> r == Err::<(), CoreError>(CoreError::NotOwnerError)
                && final(self)@ == old(self)@,
    {
        let owner_ok: bool = match self.owner {
            Some(o) => o == caller,
            None => false,
        };
        if !owner_ok {
            return Err(CoreError::NotOwnerError);
        }
        self.manager.bet_token_address = bet_token_address;
        proof {
            assert(self@ =~= (StateModel { bet_token_address, ..old(self)@ }));
        }
        Ok(())
    }

    /// Set the wager-to-reward-token divisor, owner only.
    pub fn set_token_ratio(&mut self, caller: AccountId, token_ratio: u32) -> (r: Result<
        (),
        CoreError,
    >)
        ensures
            old(self)@.owner == Some(caller) ==> r == Ok::<(), CoreError>(()) && final(self)@
                == (StateModel { token_ratio, ..old(self)@ }),
            old(self)@.owner != Some(caller) ==> r == Err::<(), CoreError>(CoreError::NotOwnerError)
                && final(self)@ == old(self)@,
    {
        let owner_ok: bool = match self.owner {
            Some(o) => o == caller,
            None => false,
        };
        if !owner_ok {
            return Err(CoreError::NotOwnerError);
        }
        self.manager.token_ratio = token_ratio;
        proof {
            assert(self@ =~= (StateModel { token_ratio, ..old(self)@ }));
        }
        Ok(())
    }

    /// Set the stake-bounding divisor, owner only.
    pub fn set_max_bet_ratio(&mut self, caller: AccountId, max_bet_ratio: u32) -> (r: Result<
        (),
        CoreError,
    >)
        ensures
            old(self)@.owner == Some(caller) ==> r == Ok::<(), CoreError>(()) && final(self)@
                == (StateModel { max_bet_ratio, ..old(self)@ }),
            old(self)@.owner != Some(caller) ==> r == Err::<(), CoreError>(CoreError::NotOwnerError)
                && final(self)@ == old(self)@,
    {
        let owner_ok: bool = match self.owner {
            Some(o) => o == caller,
            None => false,
        };
        if !owner_ok {
            return Err(CoreError::NotOwnerError);
        }
        self.manager.max_bet_ratio = max_bet_ratio;
        proof {
            assert(self@ =~= (StateModel { max_bet_ratio, ..old(self)@ }));
        }
        Ok(())
    }

    /// Set the lost-stake share routed to the reward pool, owner only.
    pub fn set_revenue_ratio(&mut self, caller: AccountId, revenue_ratio: u32) -> (r: Result<
        (),
        CoreError,
    >)
        ensures
            old(self)@.owner == Some(caller) ==> r == Ok::<(), CoreError>(()) && final(self)@
                == (StateModel { revenue_ratio, ..old(self)@ }),
            old(self)@.owner != Some(caller) ==> r == Err::<(), CoreError>(CoreError::NotOwnerError)
                && final(self)@ == old(self)@,
    {
        let owner_ok: bool = match self.owner {
            Some(o) => o == caller,
            None => false,
        };
        if !owner_ok {
            return Err(CoreError::NotOwnerError);
        }
        self.manager.revenue_ratio = revenue_ratio;
        proof {
            assert(self@ =~= (StateModel { revenue_ratio, ..old(self)@ }));
        }
        Ok(())
    }

    /// Set the reward-pool identity, owner only.
    pub fn set_reward_pool(&mut self, caller: AccountId, reward_pool: AccountId) -> (r: Result<
        (),
        CoreError,
    >)
        ensures
            old(self)@.owner == Some(caller) ==> r == Ok::<(), CoreError>(()) && final(self)@
                == (StateModel { reward_pool, ..old(self)@ }),
            old(self)@.owner != Some(caller) ==> r == Err::<(), CoreError>(CoreError::NotOwnerError)
                && final(self)@ == old(self)@,
    {
        let owner_ok: bool = match self.owner {
            Some(o) => o == caller,
            None => false,
        };
        if !owner_ok {
            return Err(CoreError::NotOwnerError);
        }
        self.manager.reward_pool = reward_pool;
        proof {
            assert(self@ =~= (StateModel { reward_pool, ..old(self)@ }));
        }
        Ok(())
    }

    /// Set the general-pool identity, owner only.
    pub fn set_general_pool(&mut self, caller: AccountId, general_pool: AccountId) -> (r: Result<
        (),
        CoreError,
    >)
        ensures
            old(self)@.owner == Some(caller) ==> r == Ok::<(), CoreError>(()) && final(self)@
                == (StateModel { general_pool, ..old(self)@ }),
            old(self)@.owner != Some(caller) ==> r == Err::<(), CoreError>(CoreError::NotOwnerError)
                && final(self)@ == old(self)@,
    {
        let owner_ok: bool = match self.owner {
            Some(o) => o == caller,
            None => false,
        };
        if !owner_ok {
            return Err(CoreError::NotOwnerError);
        }
        self.manager.general_pool = general_pool;
        proof {
            assert(self@ =~= (StateModel { general_pool, ..old(self)@ }));
        }
        Ok(())
    }

    /// Set the bet-pool identity, owner only.
    pub fn set_bet_pool(&mut self, caller: AccountId, bet_pool: AccountId) -> (r: Result<
        (),
        CoreError,
    >)
        ensures
            old(self)@.owner == Some(caller) ==> r == Ok::<(), CoreError>(()) && final(self)@
                == (StateModel { bet_pool, ..old(self)@ }),
            old(self)@.owner != Some(caller) ==> r == Err::<(), CoreError>(CoreError::NotOwnerError)
                && final(self)@ == old(self)@,
    {
        let owner_ok: bool = match self.owner {
            Some(o) => o == caller,
            None => false,
        };
        if !owner_ok {
            return Err(CoreError::NotOwnerError);
        }
        self.manager.bet_pool = bet_pool;
        proof {
            assert(self@ =~= (StateModel { bet_pool, ..old(self)@ }));
        }
        Ok(())
    }

    /// Set the settlement admin, owner only.
    pub fn set_admin_account(&mut self, caller: AccountId, admin_account: AccountId) -> (r: Result<
        (),
        CoreError,
    >)
        ensures
            old(self)@.owner == Some(caller) ==> r == Ok::<(), CoreError>(()) && final(self)@
                == (StateModel { admin_account, ..old(self)@ }),
            old(self)@.owner != Some(caller) ==> r == Err::<(), CoreError>(CoreError::NotOwnerError)
                && final(self)@ == old(self)@,
    {
        let owner_ok: bool = match self.owner {
            Some(o) => o == caller,
            None => false,
        };
        if !owner_ok {
            return Err(CoreError::NotOwnerError);
        }
        self.manager.admin_account = admin_account;
        proof {
            assert(self@ =~= (StateModel { admin_account, ..old(self)@ }));
        }
        Ok(())
    }

    /// The lower bound of the Over bet-number range.
    pub fn get_min_number_over_roll(&self) -> (r: u32)
        ensures
            r == self@.min_over_number,
    {
        self.manager.min_over_number
    }

    /// The upper bound of the Over bet-number range.
    pub fn get_max_number_over_roll(&self) -> (r: u32)
        ensures
            r == self@.max_over_number,
    {
        self.manager.max_over_number
    }

    /// The lower bound of the Under bet-number range.
    pub fn get_min_number_under_roll(&self) -> (r: u32)
        ensures
            r == self@.min_under_number,
    {
        self.manager.min_under_number
    }

    /// The upper bound of the Under bet-number range.
    pub fn get_max_number_under_roll(&self) -> (r: u32)
        ensures
            r == self@.max_under_number,
    {
        self.manager.max_under_number
    }

    /// The wager-to-reward-token divisor.
    pub fn get_token_ratio(&self) -> (r: u32)
        ensures
            r == self@.token_ratio,
    {
        self.manager.token_ratio
    }

    /// The lost-stake share routed to the reward pool.
    pub fn get_revenue_ratio(&self) -> (r: u32)
        ensures
            r == self@.revenue_ratio,
    {
        self.manager.revenue_ratio
    }

    /// The reward-pool identity.
    pub fn get_reward_pool(&self) -> (r: AccountId)
        ensures
            r == self@.reward_pool,
    {
        self.manager.reward_pool
    }

    /// The general-pool identity.
    pub fn get_general_pool(&self) -> (r: AccountId)
        ensures
            r == self@.general_pool,
    {
        self.manager.general_pool
    }

    /// The bet-pool identity.
    pub fn get_bet_pool(&self) -> (r: AccountId)
        ensures
            r == self@.bet_pool,
    {
        self.manager.bet_pool
    }

    /// The auxiliary token contract's identity.
    pub fn bet_token_address(&self) -> (r: AccountId)
        ensures
            r == self@.bet_token_address,
    {
        self.manager.bet_token_address
    }

    /// The settlement admin's identity.
    pub fn get_admin_account(&self) -> (r: AccountId)
        ensures
            r == self@.admin_account,
    {
        self.manager.admin_account
    }

    /// A copy of the Over odds table.
    pub fn get_over_rates(&self) -> (r: Vec<u32>)
        ensures
            r@ == self@.over_rates,
    {
        let r = self.manager.over_rates.clone();
        proof {
            assert forall|i: int| 0 <= i < r@.len() implies r@[i]
                == self.manager.over_rates@[i] by {
                assert(vstd::pervasive::cloned::<u32>(self.manager.over_rates@[i], r@[i]));
            }
            assert(r@ =~= self.manager.over_rates@);
        }
        r
    }

    /// A copy of the Under odds table.
    pub fn get_under_rates(&self) -> (r: Vec<u32>)
        ensures
            r@ == self@.under_rates,
    {
        let r = self.manager.under_rates.clone();
        proof {
            assert forall|i: int| 0 <= i < r@.len() implies r@[i]
                == self.manager.under_rates@[i] by {
                assert(vstd::pervasive::cloned::<u32>(self.manager.under_rates@[i], r@[i]));
            }
            assert(r@ =~= self.manager.under_rates@);
        }
        r
    }

    /// The stake-bounding divisor.
    pub fn get_max_bet_ratio(&self) -> (r: u32)
        ensures
            r == self@.max_bet_ratio,
    {
        self.manager.max_bet_ratio
    }

    /// The largest admissible stake given the engine's native balance.
    pub fn get_max_bet(&self, contract_balance: Balance) -> (r: Balance)
        requires
            self@.max_bet_ratio > 0,
        ensures
            r == spec_max_bet(contract_balance, self@.max_bet_ratio),
    {
        contract_balance / (self.manager.max_bet_ratio as Balance)
    }

    /// Whether `player` has an open wager.
    pub fn is_bet_available(&self, player: AccountId) -> (r: bool)
        ensures
            r == self@.bets.contains_key(player),
    {
        self.manager.bets.contains_key(&player)
    }

    /// The player's open wager, if any.
    pub fn get_bet(&self, player: AccountId) -> (r: Option<BetInformation>)
        ensures
            r == if self@.bets.contains_key(player) {
                Some(self@.bets[player])
            } else {
                None::<BetInformation>
            },
    {
        match self.manager.bets.get(&player) {
            Some(b) => Some(*b),
            None => None,
        }
    }
}

} // verus!
