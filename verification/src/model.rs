//! The mathematical model of the engine: an abstract state, the pure
//! functions of the settlement arithmetic, and one transition function per
//! state-mutating entry point. Every executable entry point's contract says
//! that it computes exactly the corresponding transition.
use crate::types::{
    AccountId, Balance, BetInformation, CoreError, LoseEvent, PlayEvent, SettleReceipt, Settlement,
    TokenTransfer, WinEvent, ZERO_ADDRESS,
};
use vstd::prelude::*;

verus! {

/// The abstract state of one deployed engine: ownership, the pause flag,
/// the configuration, and the wager ledger as a mathematical map.
#[verifier::ext_equal]
pub struct StateModel {
    pub owner: Option<AccountId>,
    pub paused: bool,
    pub over_rates: Seq<u32>,
    pub under_rates: Seq<u32>,
    pub max_bet_ratio: u32,
    pub bet_token_address: AccountId,
    pub token_ratio: u32,
    pub bets: Map<AccountId, BetInformation>,
    pub admin_account: AccountId,
    pub revenue_ratio: u32,
    pub reward_pool: AccountId,
    pub general_pool: AccountId,
    pub bet_pool: AccountId,
    pub min_over_number: u32,
    pub max_over_number: u32,
    pub min_under_number: u32,
    pub max_under_number: u32,
}

/// A side encoding is valid when it names Over (1) or Under (0).
pub open spec fn side_valid(is_over: u8) -> bool {
    is_over == 1 || is_over == 0
}

/// The configured bet-number range of the given side admits `number`.
pub open spec fn number_in_range(s: StateModel, is_over: u8, number: u32) -> bool {
    if is_over == 1 {
        s.min_over_number <= number <= s.max_over_number
    } else {
        s.min_under_number <= number <= s.max_under_number
    }
}

/// The full win rule: Over wins strictly above the target, Under strictly
/// below it; equality loses on either side.
pub open spec fn is_win(is_over: u8, random_number: u32, bet_number: u32) -> bool {
    ||| is_over == 1 && random_number > bet_number
    ||| is_over == 0 && random_number < bet_number
}

/// The largest stake a single wager may attach, as a share of the
/// contract's native balance.
pub open spec fn spec_max_bet(contract_balance: Balance, max_bet_ratio: u32) -> int
    recommends
        max_bet_ratio > 0,
{
    contract_balance as int / max_bet_ratio as int
}

/// A winner's payout: the stake times a fixed-point multiplier scaled by
/// 10,000, rounded down.
pub open spec fn spec_win_amount(rate: u32, bet_amount: Balance) -> int {
    rate * bet_amount / 10000
}

/// The share of a lost stake routed to the reward pool; the remainder goes
/// to the general pool.
pub open spec fn spec_lose_amount(bet_amount: Balance, revenue_ratio: u32) -> int {
    bet_amount * revenue_ratio / 100
}

/// The reward-token amount a settled wager entitles the player to.
pub open spec fn spec_token_entitlement(bet_amount: Balance, token_ratio: u32) -> int
    recommends
        token_ratio > 0,
{
    bet_amount as int / token_ratio as int
}

/// What the reward-token bridge actually sends: the entitlement when the
/// funding source covers it, otherwise everything the source has (possibly
/// nothing). Never more than either bound.
pub open spec fn spec_bridge_fill(entitlement: int, available: int) -> int {
    if available >= entitlement {
        entitlement
    } else {
        available
    }
}

/// The side-appropriate odds-table entry for a bet number.
pub open spec fn rate_for(s: StateModel, is_over: u8, bet_number: u32) -> u32
    recommends
        rate_in_table(s, is_over, bet_number),
{
    if is_over == 1 {
        s.over_rates[bet_number as int]
    } else {
        s.under_rates[bet_number as int]
    }
}

/// The side-appropriate odds table is long enough to hold the bet number.
pub open spec fn rate_in_table(s: StateModel, is_over: u8, bet_number: u32) -> bool {
    if is_over == 1 {
        bet_number < s.over_rates.len()
    } else {
        bet_number < s.under_rates.len()
    }
}

/// The transition of `play`: admit a wager or report why not.
///
/// Checks run in this order: the pause flag; the stake against
/// `[1, max_bet]`; the bet number against its side's range (a wager whose
/// side is neither Over nor Under skips the range check and is admitted
/// as it stands — settlement is the place that rejects it); and finally
/// the one-open-bet rule. Admission inserts the wager under the caller and
/// yields the stake receipt; every failure leaves the state exactly as it
/// was.
pub open spec fn spec_play(
    s: StateModel,
    caller: AccountId,
    bet_number: u32,
    is_over: u8,
    bet_amount: Balance,
    contract_balance: Balance,
) -> (StateModel, Result<PlayEvent, CoreError>) {
    if s.paused {
        (s, Err(CoreError::PausedError))
    } else if !(1 <= bet_amount && bet_amount <= spec_max_bet(contract_balance, s.max_bet_ratio)) {
        (s, Err(CoreError::RangeViolation))
    } else if side_valid(is_over) && !number_in_range(s, is_over, bet_number) {
        (s, Err(CoreError::RangeViolation))
    } else if s.bets.contains_key(caller) {
        (s, Err(CoreError::BetAlreadyOpenError))
    } else {
        (
            StateModel { bets: s.bets.insert(caller, BetInformation { is_over, bet_number, bet_amount }), ..s },
            Ok(PlayEvent { player: caller, is_over, bet_number, bet_amount }),
        )
    }
}

/// The ledger after a settled wager is consumed: the player's entry is
/// gone, everything else stands.
pub open spec fn after_settle(s: StateModel, player: AccountId) -> StateModel {
    StateModel { bets: s.bets.remove(player), ..s }
}

/// The settlement arithmetic stays inside the machine's integers.
///
/// Settlement multiplies a rate by the stake, splits a lost stake, indexes
/// the odds table, and divides by the token ratio. Each of those steps is
/// reached only on some inputs; this predicate demands exactly that the
/// steps `finalize` would reach are defined: the odds table holds the bet
/// number and the payout product fits when the wager wins, the revenue
/// product fits and the reward share does not exceed the stake when it
/// loses, and the token ratio is nonzero whenever the reward bridge runs.
pub open spec fn finalize_in_domain(
    s: StateModel,
    caller: AccountId,
    player: AccountId,
    random_number: u32,
    contract_balance: Balance,
) -> bool {
    ||| s.paused
    ||| caller != s.admin_account
    ||| !s.bets.contains_key(player)
    ||| ({
        let b = s.bets[player];
        &&& side_valid(b.is_over)
        &&& number_in_range(s, b.is_over, b.bet_number)
    } ==> ({
        let b = s.bets[player];
        if is_win(b.is_over, random_number, b.bet_number) {
            &&& rate_in_table(s, b.is_over, b.bet_number)
            &&& rate_for(s, b.is_over, b.bet_number) * b.bet_amount <= u128::MAX
            &&& ({
                let win_amount = spec_win_amount(rate_for(s, b.is_over, b.bet_number), b.bet_amount);
                win_amount >= b.bet_amount && win_amount - b.bet_amount > contract_balance
            } || s.token_ratio > 0)
        } else {
            &&& b.bet_amount * s.revenue_ratio <= u128::MAX
            &&& spec_lose_amount(b.bet_amount, s.revenue_ratio) <= b.bet_amount
            &&& s.token_ratio > 0
        }
    }))
}

/// The transition of `finalize`: settle the player's open wager against
/// the oracle's random number, or report why not.
///
/// Checks run in this order: the pause flag; the caller against the
/// configured admin; the existence of an open wager; the stored side; the
/// stored number against the side's current range (a defence against range
/// reconfiguration between stake and settlement); on a win, the contract
/// balance against the payout's excess over the returned stake; and the
/// bet pool's allowance against the reward-token entitlement. Every
/// failure, the bridge's included, leaves the state exactly as it was; on
/// success the wager is consumed and the returned settlement carries every
/// fund movement the outcome demands.
pub open spec fn spec_finalize(
    s: StateModel,
    caller: AccountId,
    player: AccountId,
    random_number: u32,
    contract_balance: Balance,
    pool_balance: Balance,
    pool_allowance: Balance,
) -> (StateModel, Result<Settlement, CoreError>) {
    if s.paused {
        (s, Err(CoreError::PausedError))
    } else if caller != s.admin_account {
        (s, Err(CoreError::NotOwnerError))
    } else if !s.bets.contains_key(player) {
        (s, Err(CoreError::BetNotFoundError))
    } else {
        let b = s.bets[player];
        let entitlement = spec_token_entitlement(b.bet_amount, s.token_ratio);
        if !side_valid(b.is_over) {
            (s, Err(CoreError::InvalidSideError))
        } else if !number_in_range(s, b.is_over, b.bet_number) {
            (s, Err(CoreError::RangeViolation))
        } else if is_win(b.is_over, random_number, b.bet_number) {
            let win_amount = spec_win_amount(rate_for(s, b.is_over, b.bet_number), b.bet_amount);
            if win_amount >= b.bet_amount && win_amount - b.bet_amount > contract_balance {
                (s, Err(CoreError::InsufficientContractBalanceError))
            } else if pool_allowance < entitlement {
                (s, Err(CoreError::InsufficientAllowanceError))
            } else {
                (
                    after_settle(s, player),
                    Ok(
                        Settlement {
                            receipt: SettleReceipt::Win(
                                WinEvent {
                                    player,
                                    is_over: b.is_over,
                                    random_number,
                                    bet_number: b.bet_number,
                                    bet_amount: b.bet_amount,
                                    win_amount: win_amount as Balance,
                                },
                            ),
                            player_payout: win_amount as Balance,
                            reward_pool_amount: 0,
                            general_pool_amount: 0,
                            reward_token_amount: spec_bridge_fill(entitlement, pool_balance as int) as Balance,
                        },
                    ),
                )
            }
        } else {
            let lose_amount = spec_lose_amount(b.bet_amount, s.revenue_ratio);
            if pool_allowance < entitlement {
                (s, Err(CoreError::InsufficientAllowanceError))
            } else {
                (
                    after_settle(s, player),
                    Ok(
                        Settlement {
                            receipt: SettleReceipt::Lose(
                                LoseEvent {
                                    player,
                                    is_over: b.is_over,
                                    random_number,
                                    bet_number: b.bet_number,
                                    bet_amount: b.bet_amount,
                                },
                            ),
                            player_payout: 0,
                            reward_pool_amount: lose_amount as Balance,
                            general_pool_amount: (b.bet_amount - lose_amount) as Balance,
                            reward_token_amount: spec_bridge_fill(entitlement, pool_balance as int) as Balance,
                        },
                    ),
                )
            }
        }
    }
}

/// What the pool-sourced reward bridge answers: a pull-transfer from the
/// bet pool to the player of the entitlement, partially filled from
/// whatever the pool holds, behind a hard allowance check.
pub open spec fn spec_reward_token_to_player(
    s: StateModel,
    player: AccountId,
    bet_amount: Balance,
    pool_balance: Balance,
    pool_allowance: Balance,
) -> Result<TokenTransfer, CoreError> {
    if s.paused {
        Err(CoreError::PausedError)
    } else {
        let entitlement = spec_token_entitlement(bet_amount, s.token_ratio);
        if pool_allowance < entitlement {
            Err(CoreError::InsufficientAllowanceError)
        } else {
            Ok(
                TokenTransfer {
                    to: player,
                    amount: spec_bridge_fill(entitlement, pool_balance as int) as Balance,
                },
            )
        }
    }
}

/// What the contract-sourced reward bridge answers: a transfer from the
/// contract's own token balance to the player, partially filled, with no
/// allowance involved.
pub open spec fn spec_reward_token(
    s: StateModel,
    player: AccountId,
    bet_amount: Balance,
    contract_token_balance: Balance,
) -> Result<TokenTransfer, CoreError> {
    if s.paused {
        Err(CoreError::PausedError)
    } else {
        let entitlement = spec_token_entitlement(bet_amount, s.token_ratio);
        Ok(
            TokenTransfer {
                to: player,
                amount: spec_bridge_fill(entitlement, contract_token_balance as int) as Balance,
            },
        )
    }
}

/// The transition of `initialize`: seed the whole configuration exactly
/// once.
///
/// Only the owner may call it; it refuses to run a second time, guarded by
/// the token address still holding its unset sentinel; and the revenue
/// ratio must lie in `[1, 1000]`. On success the two reference odds tables
/// are installed and every configuration field takes its argument; the
/// ledger, owner and pause flag are untouched. On failure nothing changes.
pub open spec fn spec_initialize(
    s: StateModel,
    caller: AccountId,
    max_bet_ratio: u32,
    revenue_ratio: u32,
    reward_pool: AccountId,
    general_pool: AccountId,
    bet_pool: AccountId,
    bet_token_address: AccountId,
    token_ratio: u32,
    min_over_number: u32,
    max_over_number: u32,
    min_under_number: u32,
    max_under_number: u32,
    admin_account: AccountId,
) -> (StateModel, Result<(), CoreError>) {
    if s.owner != Some(caller) {
        (s, Err(CoreError::NotOwnerError))
    } else if s.bet_token_address != ZERO_ADDRESS {
        (s, Err(CoreError::AlreadyInitializedError))
    } else if !(1 <= revenue_ratio && revenue_ratio <= 1000) {
        (s, Err(CoreError::RangeViolation))
    } else {
        (
            StateModel {
                owner: s.owner,
                paused: s.paused,
                over_rates: crate::rates::default_over_rates_seq(),
                under_rates: crate::rates::default_under_rates_seq(),
                max_bet_ratio,
                bet_token_address,
                token_ratio,
                bets: s.bets,
                admin_account,
                revenue_ratio,
                reward_pool,
                general_pool,
                bet_pool,
                min_over_number,
                max_over_number,
                min_under_number,
                max_under_number,
            },
            Ok(()),
        )
    }
}

/// What an owner's sweep of token balance into a pool answers: the
/// requested transfer, refused while paused or while the contract's token
/// balance is empty. The requested amount itself is not checked against
/// the balance; the token collaborator settles that when the transfer
/// runs.
pub open spec fn spec_tranfer_token_to_pool(
    s: StateModel,
    caller: AccountId,
    pool: AccountId,
    amount: Balance,
    contract_token_balance: Balance,
) -> Result<TokenTransfer, CoreError> {
    if s.owner != Some(caller) {
        Err(CoreError::NotOwnerError)
    } else if s.paused {
        Err(CoreError::PausedError)
    } else if contract_token_balance == 0 {
        Err(CoreError::InsufficientContractBalanceError)
    } else {
        Ok(TokenTransfer { to: pool, amount })
    }
}

/// What an owner's withdrawal of native value answers: approval to send
/// `value` to the caller, refused while paused or beyond the contract's
/// balance.
pub open spec fn spec_withdraw_fee(
    s: StateModel,
    caller: AccountId,
    value: Balance,
    contract_balance: Balance,
) -> Result<(), CoreError> {
    if s.owner != Some(caller) {
        Err(CoreError::NotOwnerError)
    } else if s.paused {
        Err(CoreError::PausedError)
    } else if value > contract_balance {
        Err(CoreError::InsufficientContractBalanceError)
    } else {
        Ok(())
    }
}

/// What an owner's withdrawal of the auxiliary token answers: approval to
/// send `value` of it to the caller, refused while paused or beyond the
/// contract's token balance.
pub open spec fn spec_withdraw_token(
    s: StateModel,
    caller: AccountId,
    value: Balance,
    contract_token_balance: Balance,
) -> Result<(), CoreError> {
    if s.owner != Some(caller) {
        Err(CoreError::NotOwnerError)
    } else if s.paused {
        Err(CoreError::PausedError)
    } else if value > contract_token_balance {
        Err(CoreError::InsufficientContractBalanceError)
    } else {
        Ok(())
    }
}

/// The transition of `change_state`: the owner toggles the pause flag;
/// anyone else is refused.
pub open spec fn spec_change_state(s: StateModel, caller: AccountId) -> (
    StateModel,
    Result<(), CoreError>,
) {
    if s.owner == Some(caller) {
        (StateModel { paused: !s.paused, ..s }, Ok(()))
    } else {
        (s, Err(CoreError::NotOwnerError))
    }
}

} // verus!
