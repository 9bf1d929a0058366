//! Laws the engine obeys, stated over the transition functions of
//! `crate::model` and proved once and for all.
use crate::model::{
    finalize_in_domain, is_win, number_in_range, rate_for, side_valid, spec_finalize,
    spec_initialize, spec_lose_amount, spec_max_bet, spec_play, spec_reward_token,
    spec_reward_token_to_player, spec_token_entitlement, spec_win_amount, StateModel,
};
use crate::types::{AccountId, Balance, CoreError, PlayEvent, Settlement, ZERO_ADDRESS};
use vstd::prelude::*;

verus! {

/// The win rule is strict on both sides: a random outcome equal to the
/// wager's target number is a loss, whatever the side.
pub proof fn law_tie_always_loses(is_over: u8, number: u32)
    ensures
        !is_win(is_over, number, number),
{
}

/// A tied settlement goes down the losing path: settling an open, valid
/// wager against a random number equal to its target yields a `Lose`
/// receipt, never a `Win`.
pub proof fn law_tie_settles_as_loss(
    s: StateModel,
    caller: AccountId,
    player: AccountId,
    contract_balance: Balance,
    pool_balance: Balance,
    pool_allowance: Balance,
)
    requires
        !s.paused,
        caller == s.admin_account,
        s.bets.contains_key(player),
        side_valid(s.bets[player].is_over),
        number_in_range(s, s.bets[player].is_over, s.bets[player].bet_number),
        pool_allowance >= spec_token_entitlement(s.bets[player].bet_amount, s.token_ratio),
    ensures
        spec_finalize(
            s,
            caller,
            player,
            s.bets[player].bet_number,
            contract_balance,
            pool_balance,
            pool_allowance,
        ).1 matches Ok(st) && st.receipt is Lose,
{
}

/// At most one wager may be open per player: while one is, a further
/// `play` by the same caller that passes its stake and range checks is
/// refused with `BetAlreadyOpenError` and changes nothing.
pub proof fn law_one_open_bet_per_player(
    s: StateModel,
    caller: AccountId,
    bet_number: u32,
    is_over: u8,
    bet_amount: Balance,
    contract_balance: Balance,
)
    requires
        !s.paused,
        s.bets.contains_key(caller),
        1 <= bet_amount <= spec_max_bet(contract_balance, s.max_bet_ratio),
        side_valid(is_over) ==> number_in_range(s, is_over, bet_number),
    ensures
        spec_play(s, caller, bet_number, is_over, bet_amount, contract_balance) == (
            s,
            Err::<PlayEvent, CoreError>(CoreError::BetAlreadyOpenError),
        ),
{
}

/// Until settled, an admitted wager blocks the next one: after a
/// successful `play`, a second `play` by the same caller that passes its
/// stake and range checks is refused with `BetAlreadyOpenError`.
pub proof fn law_play_after_play_fails(
    s: StateModel,
    caller: AccountId,
    bet_number: u32,
    is_over: u8,
    bet_amount: Balance,
    contract_balance: Balance,
    second_number: u32,
    second_over: u8,
    second_amount: Balance,
    second_balance: Balance,
)
    requires
        spec_play(s, caller, bet_number, is_over, bet_amount, contract_balance).1 is Ok,
        1 <= second_amount <= spec_max_bet(second_balance, s.max_bet_ratio),
        side_valid(second_over) ==> number_in_range(s, second_over, second_number),
    ensures
        ({
            let opened = spec_play(s, caller, bet_number, is_over, bet_amount, contract_balance).0;
            spec_play(opened, caller, second_number, second_over, second_amount, second_balance)
                == (opened, Err::<PlayEvent, CoreError>(CoreError::BetAlreadyOpenError))
        }),
{
}

/// Settling a player with no open wager is refused with
/// `BetNotFoundError` and mutates no state.
pub proof fn law_finalize_without_bet(
    s: StateModel,
    caller: AccountId,
    player: AccountId,
    random_number: u32,
    contract_balance: Balance,
    pool_balance: Balance,
    pool_allowance: Balance,
)
    requires
        !s.paused,
        caller == s.admin_account,
        !s.bets.contains_key(player),
    ensures
        spec_finalize(
            s,
            caller,
            player,
            random_number,
            contract_balance,
            pool_balance,
            pool_allowance,
        ) == (s, Err::<Settlement, CoreError>(CoreError::BetNotFoundError)),
{
}

/// Settlement consumes the wager exactly once: after a successful
/// `finalize`, repeating the call for the same player is refused with
/// `BetNotFoundError` and mutates no state, whatever outcome or host
/// facts the repeat sees.
pub proof fn law_finalize_is_consumed_once(
    s: StateModel,
    caller: AccountId,
    player: AccountId,
    random_number: u32,
    contract_balance: Balance,
    pool_balance: Balance,
    pool_allowance: Balance,
    second_random: u32,
    second_balance: Balance,
    second_pool_balance: Balance,
    second_allowance: Balance,
)
    requires
        spec_finalize(
            s,
            caller,
            player,
            random_number,
            contract_balance,
            pool_balance,
            pool_allowance,
        ).1 is Ok,
    ensures
        ({
            let settled = spec_finalize(
                s,
                caller,
                player,
                random_number,
                contract_balance,
                pool_balance,
                pool_allowance,
            ).0;
            spec_finalize(
                settled,
                caller,
                player,
                second_random,
                second_balance,
                second_pool_balance,
                second_allowance,
            ) == (settled, Err::<Settlement, CoreError>(CoreError::BetNotFoundError))
        }),
{
}

/// A winning settlement pays exactly the odds-table payout: the stake
/// times the side's rate for the target number, scaled down by 10,000 and
/// rounded towards zero, paid to the player in full, with nothing routed
/// to either pool.
pub proof fn law_win_pays_rated_amount(
    s: StateModel,
    caller: AccountId,
    player: AccountId,
    random_number: u32,
    contract_balance: Balance,
    pool_balance: Balance,
    pool_allowance: Balance,
)
    requires
        finalize_in_domain(s, caller, player, random_number, contract_balance),
        s.bets.contains_key(player),
        spec_finalize(
            s,
            caller,
            player,
            random_number,
            contract_balance,
            pool_balance,
            pool_allowance,
        ).1 matches Ok(st) && st.receipt is Win,
    ensures
        spec_finalize(
            s,
            caller,
            player,
            random_number,
            contract_balance,
            pool_balance,
            pool_allowance,
        ).1 matches Ok(st) && ({
            let b = s.bets[player];
            &&& st.player_payout == spec_win_amount(rate_for(s, b.is_over, b.bet_number), b.bet_amount)
            &&& st.receipt matches crate::types::SettleReceipt::Win(ev) && ev.win_amount
                == st.player_payout
            &&& st.reward_pool_amount == 0
            &&& st.general_pool_amount == 0
        }),
{
}

/// A losing settlement conserves the stake: the reward pool receives the
/// configured revenue share of it, the general pool the rest, and the two
/// parts always add back to the original amount.
pub proof fn law_loss_split_conserves_stake(
    s: StateModel,
    caller: AccountId,
    player: AccountId,
    random_number: u32,
    contract_balance: Balance,
    pool_balance: Balance,
    pool_allowance: Balance,
)
    requires
        finalize_in_domain(s, caller, player, random_number, contract_balance),
        s.bets.contains_key(player),
        spec_finalize(
            s,
            caller,
            player,
            random_number,
            contract_balance,
            pool_balance,
            pool_allowance,
        ).1 matches Ok(st) && st.receipt is Lose,
    ensures
        spec_finalize(
            s,
            caller,
            player,
            random_number,
            contract_balance,
            pool_balance,
            pool_allowance,
        ).1 matches Ok(st) && ({
            let b = s.bets[player];
            &&& st.reward_pool_amount == spec_lose_amount(b.bet_amount, s.revenue_ratio)
            &&& st.reward_pool_amount + st.general_pool_amount == b.bet_amount
            &&& st.player_payout == 0
        }),
{
}

/// The stake bound is exact: with every other admission check passing, a
/// stake of precisely `max_bet` is admitted and any stake above it is
/// refused as out of range.
pub proof fn law_max_bet_boundary(
    s: StateModel,
    caller: AccountId,
    bet_number: u32,
    is_over: u8,
    contract_balance: Balance,
)
    requires
        !s.paused,
        s.max_bet_ratio > 0,
        spec_max_bet(contract_balance, s.max_bet_ratio) >= 1,
        side_valid(is_over) ==> number_in_range(s, is_over, bet_number),
        !s.bets.contains_key(caller),
    ensures
        spec_play(
            s,
            caller,
            bet_number,
            is_over,
            spec_max_bet(contract_balance, s.max_bet_ratio) as Balance,
            contract_balance,
        ).1 is Ok,
        forall|amount: Balance|
            amount > spec_max_bet(contract_balance, s.max_bet_ratio) ==> #[trigger] spec_play(
                s,
                caller,
                bet_number,
                is_over,
                amount,
                contract_balance,
            ).1 == Err::<PlayEvent, CoreError>(CoreError::RangeViolation),
{
}

/// The pool-sourced reward bridge never overpays: what it sends is at most
/// the entitlement and at most the pool's balance, and an empty pool
/// yields a successful transfer of nothing rather than a failure.
pub proof fn law_bridge_never_overpays(
    s: StateModel,
    player: AccountId,
    bet_amount: Balance,
    pool_balance: Balance,
    pool_allowance: Balance,
)
    requires
        s.token_ratio > 0,
        spec_reward_token_to_player(s, player, bet_amount, pool_balance, pool_allowance) is Ok,
    ensures
        spec_reward_token_to_player(s, player, bet_amount, pool_balance, pool_allowance) matches Ok(
            t,
        ) && ({
            &&& t.amount <= spec_token_entitlement(bet_amount, s.token_ratio)
            &&& t.amount <= pool_balance
            &&& (pool_balance == 0 ==> t.amount == 0)
            &&& t.to == player
        }),
{
}

/// The contract-sourced reward bridge obeys the same bounds and, while the
/// engine is not paused, never fails at all, however little the contract
/// holds.
pub proof fn law_contract_bridge_never_overpays(
    s: StateModel,
    player: AccountId,
    bet_amount: Balance,
    contract_token_balance: Balance,
)
    requires
        !s.paused,
        s.token_ratio > 0,
    ensures
        spec_reward_token(s, player, bet_amount, contract_token_balance) matches Ok(t) && ({
            &&& t.amount <= spec_token_entitlement(bet_amount, s.token_ratio)
            &&& t.amount <= contract_token_balance
            &&& (contract_token_balance == 0 ==> t.amount == 0)
            &&& t.to == player
        }),
{
}

/// Settlement inherits the bridge's bounds: a successful `finalize` never
/// credits more reward token than the lesser of the entitlement and the
/// bet pool's balance.
pub proof fn law_settlement_bridge_bounded(
    s: StateModel,
    caller: AccountId,
    player: AccountId,
    random_number: u32,
    contract_balance: Balance,
    pool_balance: Balance,
    pool_allowance: Balance,
)
    requires
        s.token_ratio > 0,
        s.bets.contains_key(player),
        spec_finalize(
            s,
            caller,
            player,
            random_number,
            contract_balance,
            pool_balance,
            pool_allowance,
        ).1 is Ok,
    ensures
        spec_finalize(
            s,
            caller,
            player,
            random_number,
            contract_balance,
            pool_balance,
            pool_allowance,
        ).1 matches Ok(st) && ({
            &&& st.reward_token_amount <= spec_token_entitlement(
                s.bets[player].bet_amount,
                s.token_ratio,
            )
            &&& st.reward_token_amount <= pool_balance
            &&& (pool_balance == 0 ==> st.reward_token_amount == 0)
        }),
{
}

/// Configuration may be seeded exactly once: while the token address is
/// already set, `initialize` is refused with `AlreadyInitializedError` and
/// every prior configuration field stands untouched.
pub proof fn law_initialize_only_once(
    s: StateModel,
    caller: AccountId,
    max_bet_ratio: u32,
    revenue_ratio: u32,
    reward_pool: AccountId,
    general_pool: AccountId,
    bet_pool: AccountId,
    bet_token_address: AccountId,
    token_ratio: u32,
    min_over_number: u32,
    max_over_number: u32,
    min_under_number: u32,
    max_under_number: u32,
    admin_account: AccountId,
)
    requires
        s.owner == Some(caller),
        s.bet_token_address != ZERO_ADDRESS,
    ensures
        spec_initialize(
            s,
            caller,
            max_bet_ratio,
            revenue_ratio,
            reward_pool,
            general_pool,
            bet_pool,
            bet_token_address,
            token_ratio,
            min_over_number,
            max_over_number,
            min_under_number,
            max_under_number,
            admin_account,
        ) == (s, Err::<(), CoreError>(CoreError::AlreadyInitializedError)),
{
}

} // verus!
