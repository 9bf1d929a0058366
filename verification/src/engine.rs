//! The executable entry points of the engine. Each one takes the host
//! facts it needs as plain arguments, computes exactly the transition of
//! `crate::model`, and hands back the fund movements for the host to
//! perform.
use crate::model::{
    finalize_in_domain, spec_change_state, spec_finalize, spec_initialize, spec_play,
    spec_reward_token, spec_reward_token_to_player, spec_tranfer_token_to_pool, spec_withdraw_fee,
    spec_withdraw_token, StateModel,
};
use crate::state::{spec_default_state, BetA0CoreContract};
use crate::types::{
    AccountId, Balance, BetInformation, CoreError, LoseEvent, PlayEvent, SettleReceipt, Settlement,
    TokenTransfer, WinEvent, ZERO_ADDRESS,
};
use vstd::prelude::*;

verus! {

impl BetA0CoreContract {
    /// Admit a wager: `caller` stakes the attached `bet_amount` on
    /// `bet_number` for the given side. `contract_balance` is the engine's
    /// native balance at call time, which bounds the stake.
    pub fn play(
        &mut self,
        caller: AccountId,
        bet_number: u32,
        is_over: u8,
        bet_amount: Balance,
        contract_balance: Balance,
    ) -> (r: Result<PlayEvent, CoreError>)
        requires
            old(self)@.paused || old(self)@.max_bet_ratio > 0,
        ensures
            final(self)@ == spec_play(
                old(self)@,
                caller,
                bet_number,
                is_over,
                bet_amount,
                contract_balance,
            ).0,
            r == spec_play(old(self)@, caller, bet_number, is_over, bet_amount, contract_balance).1,
            r is Err ==> final(self)@ == old(self)@,
    {
        if self.paused {
            return Err(CoreError::PausedError);
        }
        let max_bet: Balance = contract_balance / (self.manager.max_bet_ratio as Balance);
        if !(1 <= bet_amount && bet_amount <= max_bet) {
            return Err(CoreError::RangeViolation);
        }
        if is_over == 1 {
            if !(self.manager.min_over_number <= bet_number
                && bet_number <= self.manager.max_over_number) {
                return Err(CoreError::RangeViolation);
            }
        } else if is_over == 0 {
            if !(self.manager.min_under_number <= bet_number
                && bet_number <= self.manager.max_under_number) {
                return Err(CoreError::RangeViolation);
            }
        }
        if self.manager.bets.contains_key(&caller) {
            return Err(CoreError::BetAlreadyOpenError);
        }
        let new_bet = BetInformation { is_over, bet_number, bet_amount };
        self.manager.bets.insert(caller, new_bet);
        proof {
            assert(self@ =~= spec_play(
                old(self)@,
                caller,
                bet_number,
                is_over,
                bet_amount,
                contract_balance,
            ).0);
        }
        Ok(PlayEvent { player: caller, is_over, bet_number, bet_amount })
    }

    /// Settle `player`'s open wager against the oracle's `random_number`.
    /// Only the configured admin may call this. The host facts — the
    /// engine's native balance, the bet pool's token balance, and the
    /// pool's allowance to the engine — enter as arguments; the returned
    /// settlement carries every fund movement for the host to perform.
    ///
    /// A refused reward bridge (allowance below the entitlement) is
    /// reported as a typed error with nothing changed, so the settlement
    /// as a whole stays all-or-nothing.
    pub fn finalize(
        &mut self,
        caller: AccountId,
        player: AccountId,
        random_number: u32,
        contract_balance: Balance,
        pool_balance: Balance,
        pool_allowance: Balance,
    ) -> (r: Result<Settlement, CoreError>)
        requires
            finalize_in_domain(old(self)@, caller, player, random_number, contract_balance),
        ensures
            final(self)@ == spec_finalize(
                old(self)@,
                caller,
                player,
                random_number,
                contract_balance,
                pool_balance,
                pool_allowance,
            ).0,
            r == spec_finalize(
                old(self)@,
                caller,
                player,
                random_number,
                contract_balance,
                pool_balance,
                pool_allowance,
            ).1,
            r is Err ==> final(self)@ == old(self)@,
            r is Ok ==> final(self)@.bets == old(self)@.bets.remove(player),
    {
        if self.paused {
            return Err(CoreError::PausedError);
        }
        if caller != self.manager.admin_account {
            return Err(CoreError::NotOwnerError);
        }
        let bet: BetInformation = match self.manager.bets.get(&player) {
            Some(b) => *b,
            None => {
                return Err(CoreError::BetNotFoundError);
            },
        };
        if !(bet.is_over == 1 || bet.is_over == 0) {
            return Err(CoreError::InvalidSideError);
        }
        let in_range: bool = if bet.is_over == 1 {
            self.manager.min_over_number <= bet.bet_number
                && bet.bet_number <= self.manager.max_over_number
        } else {
            self.manager.min_under_number <= bet.bet_number
                && bet.bet_number <= self.manager.max_under_number
        };
        if !in_range {
            return Err(CoreError::RangeViolation);
        }
        let won: bool = (bet.is_over == 1 && random_number > bet.bet_number) || (bet.is_over == 0
            && random_number < bet.bet_number);
        if won {
            let rate: u32 = if bet.is_over == 1 {
                self.manager.over_rates[bet.bet_number as usize]
            } else {
                self.manager.under_rates[bet.bet_number as usize]
            };
            let win_amount: Balance = (rate as Balance) * bet.bet_amount / 10000;
            if win_amount >= bet.bet_amount && win_amount - bet.bet_amount > contract_balance {
                return Err(CoreError::InsufficientContractBalanceError);
            }
            let entitlement: Balance = bet.bet_amount / (self.manager.token_ratio as Balance);
            if pool_allowance < entitlement {
                return Err(CoreError::InsufficientAllowanceError);
            }
            let fill: Balance = if pool_balance >= entitlement {
                entitlement
            } else {
                pool_balance
            };
            let _consumed = self.manager.bets.remove(&player);
            proof {
                assert(self@ =~= spec_finalize(
                    old(self)@,
                    caller,
                    player,
                    random_number,
                    contract_balance,
                    pool_balance,
                    pool_allowance,
                ).0);
            }
            Ok(
                Settlement {
                    receipt: SettleReceipt::Win(
                        WinEvent {
                            player,
                            is_over: bet.is_over,
                            random_number,
                            bet_number: bet.bet_number,
                            bet_amount: bet.bet_amount,
                            win_amount,
                        },
                    ),
                    player_payout: win_amount,
                    reward_pool_amount: 0,
                    general_pool_amount: 0,
                    reward_token_amount: fill,
                },
            )
        } else {
            let lose_amount: Balance = bet.bet_amount * (self.manager.revenue_ratio as Balance)
                / 100;
            let general_amount: Balance = bet.bet_amount - lose_amount;
            let entitlement: Balance = bet.bet_amount / (self.manager.token_ratio as Balance);
            if pool_allowance < entitlement {
                return Err(CoreError::InsufficientAllowanceError);
            }
            let fill: Balance = if pool_balance >= entitlement {
                entitlement
            } else {
                pool_balance
            };
            let _consumed = self.manager.bets.remove(&player);
            proof {
                assert(self@ =~= spec_finalize(
                    old(self)@,
                    caller,
                    player,
                    random_number,
                    contract_balance,
                    pool_balance,
                    pool_allowance,
                ).0);
            }
            Ok(
                Settlement {
                    receipt: SettleReceipt::Lose(
                        LoseEvent {
                            player,
                            is_over: bet.is_over,
                            random_number,
                            bet_number: bet.bet_number,
                            bet_amount: bet.bet_amount,
                        },
                    ),
                    player_payout: 0,
                    reward_pool_amount: lose_amount,
                    general_pool_amount: general_amount,
                    reward_token_amount: fill,
                },
            )
        }
    }

    /// Build a fresh engine owned by `caller` and seed its configuration.
    pub fn new(
        caller: AccountId,
        max_bet_ratio: u32,
        revenue_ratio: u32,
        reward_pool: AccountId,
        general_pool: AccountId,
        bet_pool: AccountId,
        bet_token_address: AccountId,
        token_ratio: u32,
        min_over_number: u32,
        max_over_number: u32,
        min_under_number: u32,
        max_under_number: u32,
        admin_account: AccountId,
    ) -> (r: BetA0CoreContract)
        requires
            1 <= revenue_ratio <= 1000,
        ensures
            r@ == spec_initialize(
                (StateModel { owner: Some(caller), ..spec_default_state() }),
                caller,
                max_bet_ratio,
                revenue_ratio,
                reward_pool,
                general_pool,
                bet_pool,
                bet_token_address,
                token_ratio,
                min_over_number,
                max_over_number,
                min_under_number,
                max_under_number,
                admin_account,
            ).0,
            r@.owner == Some(caller),
            !r@.paused,
    {
        let mut instance = BetA0CoreContract::default();
        instance.owner = Some(caller);
        let seeded = instance.initialize(
            caller,
            max_bet_ratio,
            revenue_ratio,
            reward_pool,
            general_pool,
            bet_pool,
            bet_token_address,
            token_ratio,
            min_over_number,
            max_over_number,
            min_under_number,
            max_under_number,
            admin_account,
        );
        proof {
            assert(seeded is Ok);
        }
        instance
    }

    /// Seed the whole configuration, exactly once, owner only.
    pub fn initialize(
        &mut self,
        caller: AccountId,
        max_bet_ratio: u32,
        revenue_ratio: u32,
        reward_pool: AccountId,
        general_pool: AccountId,
        bet_pool: AccountId,
        bet_token_address: AccountId,
        token_ratio: u32,
        min_over_number: u32,
        max_over_number: u32,
        min_under_number: u32,
        max_under_number: u32,
        admin_account: AccountId,
    ) -> (r: Result<(), CoreError>)
        ensures
            final(self)@ == spec_initialize(
                old(self)@,
                caller,
                max_bet_ratio,
                revenue_ratio,
                reward_pool,
                general_pool,
                bet_pool,
                bet_token_address,
                token_ratio,
                min_over_number,
                max_over_number,
                min_under_number,
                max_under_number,
                admin_account,
            ).0,
            r == spec_initialize(
                old(self)@,
                caller,
                max_bet_ratio,
                revenue_ratio,
                reward_pool,
                general_pool,
                bet_pool,
                bet_token_address,
                token_ratio,
                min_over_number,
                max_over_number,
                min_under_number,
                max_under_number,
                admin_account,
            ).1,
            r is Err ==> final(self)@ == old(self)@,
    {
        let owner_ok: bool = match self.owner {
            Some(o) => o == caller,
            None => false,
        };
        if !owner_ok {
            return Err(CoreError::NotOwnerError);
        }
        if self.manager.bet_token_address != ZERO_ADDRESS {
            return Err(CoreError::AlreadyInitializedError);
        }
        if !(1 <= revenue_ratio && revenue_ratio <= 1000) {
            return Err(CoreError::RangeViolation);
        }
        self.manager.over_rates = crate::rates::default_over_rates();
        self.manager.under_rates = crate::rates::default_under_rates();
        self.manager.max_bet_ratio = max_bet_ratio;
        self.manager.reward_pool = reward_pool;
        self.manager.general_pool = general_pool;
        self.manager.bet_pool = bet_pool;
        self.manager.revenue_ratio = revenue_ratio;
        self.manager.bet_token_address = bet_token_address;
        self.manager.token_ratio = token_ratio;
        self.manager.min_over_number = min_over_number;
        self.manager.max_over_number = max_over_number;
        self.manager.min_under_number = min_under_number;
        self.manager.max_under_number = max_under_number;
        self.manager.admin_account = admin_account;
        proof {
            assert(self@ =~= spec_initialize(
                old(self)@,
                caller,
                max_bet_ratio,
                revenue_ratio,
                reward_pool,
                general_pool,
                bet_pool,
                bet_token_address,
                token_ratio,
                min_over_number,
                max_over_number,
                min_under_number,
                max_under_number,
                admin_account,
            ).0);
        }
        Ok(())
    }

    /// Toggle the pause flag, owner only.
    pub fn change_state(&mut self, caller: AccountId) -> (r: Result<(), CoreError>)
        ensures
            final(self)@ == spec_change_state(old(self)@, caller).0,
            r == spec_change_state(old(self)@, caller).1,
            r is Err ==> final(self)@ == old(self)@,
    {
        let owner_ok: bool = match self.owner {
            Some(o) => o == caller,
            None => false,
        };
        if !owner_ok {
            return Err(CoreError::NotOwnerError);
        }
        self.paused = !self.paused;
        proof {
            assert(self@ =~= spec_change_state(old(self)@, caller).0);
        }
        Ok(())
    }

    /// The pool-sourced reward bridge: how much of the player's
    /// reward-token entitlement for a settled wager of `bet_amount` is
    /// pulled from the bet pool, given the pool's balance and its
    /// allowance to the engine. An allowance below the entitlement is a
    /// hard failure; an underfunded pool only shrinks the fill, down to a
    /// successful transfer of nothing.
    pub fn reward_token_to_player(
        &self,
        player: AccountId,
        bet_amount: Balance,
        pool_balance: Balance,
        pool_allowance: Balance,
    ) -> (r: Result<TokenTransfer, CoreError>)
        requires
            self@.paused || self@.token_ratio > 0,
        ensures
            r == spec_reward_token_to_player(self@, player, bet_amount, pool_balance, pool_allowance),
    {
        if self.paused {
            return Err(CoreError::PausedError);
        }
        let entitlement: Balance = bet_amount / (self.manager.token_ratio as Balance);
        if pool_allowance < entitlement {
            return Err(CoreError::InsufficientAllowanceError);
        }
        let amount: Balance = if pool_balance >= entitlement {
            entitlement
        } else {
            pool_balance
        };
        Ok(TokenTransfer { to: player, amount })
    }

    /// The contract-sourced reward bridge: the same partial-fill policy as
    /// the pool-sourced one, funded from the engine's own token balance,
    /// with no allowance involved.
    pub fn reward_token(
        &self,
        player: AccountId,
        bet_amount: Balance,
        contract_token_balance: Balance,
    ) -> (r: Result<TokenTransfer, CoreError>)
        requires
            self@.paused || self@.token_ratio > 0,
        ensures
            r == spec_reward_token(self@, player, bet_amount, contract_token_balance),
    {
        if self.paused {
            return Err(CoreError::PausedError);
        }
        let entitlement: Balance = bet_amount / (self.manager.token_ratio as Balance);
        let amount: Balance = if contract_token_balance >= entitlement {
            entitlement
        } else {
            contract_token_balance
        };
        Ok(TokenTransfer { to: player, amount })
    }

    /// Approve a sweep of `amount` of the auxiliary token into a pool,
    /// owner only.
    pub fn tranfer_token_to_pool(
        &self,
        caller: AccountId,
        pool: AccountId,
        amount: Balance,
        contract_token_balance: Balance,
    ) -> (r: Result<TokenTransfer, CoreError>)
        ensures
            r == spec_tranfer_token_to_pool(self@, caller, pool, amount, contract_token_balance),
    {
        let owner_ok: bool = match self.owner {
            Some(o) => o == caller,
            None => false,
        };
        if !owner_ok {
            return Err(CoreError::NotOwnerError);
        }
        if self.paused {
            return Err(CoreError::PausedError);
        }
        if contract_token_balance == 0 {
            return Err(CoreError::InsufficientContractBalanceError);
        }
        Ok(TokenTransfer { to: pool, amount })
    }

    /// Approve a withdrawal of `value` native units to the caller, owner
    /// only.
    pub fn withdraw_fee(&self, caller: AccountId, value: Balance, contract_balance: Balance) -> (r:
        Result<(), CoreError>)
        ensures
            r == spec_withdraw_fee(self@, caller, value, contract_balance),
    {
        let owner_ok: bool = match self.owner {
            Some(o) => o == caller,
            None => false,
        };
        if !owner_ok {
            return Err(CoreError::NotOwnerError);
        }
        if self.paused {
            return Err(CoreError::PausedError);
        }
        if value > contract_balance {
            return Err(CoreError::InsufficientContractBalanceError);
        }
        Ok(())
    }

    /// Approve a withdrawal of `value` of the auxiliary token to the
    /// caller, owner only.
    pub fn withdraw_token(
        &self,
        caller: AccountId,
        value: Balance,
        contract_token_balance: Balance,
    ) -> (r: Result<(), CoreError>)
        ensures
            r == spec_withdraw_token(self@, caller, value, contract_token_balance),
    {
        let owner_ok: bool = match self.owner {
            Some(o) => o == caller,
            None => false,
        };
        if !owner_ok {
            return Err(CoreError::NotOwnerError);
        }
        if self.paused {
            return Err(CoreError::PausedError);
        }
        if value > contract_token_balance {
            return Err(CoreError::InsufficientContractBalanceError);
        }
        Ok(())
    }
}

} // verus!
