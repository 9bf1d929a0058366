//! Plain data carried across the engine's boundary: identities, amounts,
//! the per-player wager record, the error taxonomy, and the receipts and
//! fund-movement descriptions that settlement produces.
use vstd::prelude::*;

verus! {

/// An account identity. On the host ledger an account is an opaque
/// 32-byte address; the engine only compares identities and keys its
/// ledger by them, so a plain integer stands for one here.
pub type AccountId = u128;

/// A quantity of native value or of the auxiliary reward token.
pub type Balance = u128;

/// The sentinel identity meaning "unset"; `initialize` may run only while
/// the configured token address still holds this value.
pub const ZERO_ADDRESS: AccountId = 0;

/// A player's open wager: chosen side, target number, and staked amount.
///
/// `is_over` encodes the side: 1 for Over, 0 for Under; any other value is
/// an invalid side that settlement rejects.
#[derive(Clone, Copy, Debug, PartialEq, Eq, Structural)]
pub struct BetInformation {
    pub is_over: u8,
    pub bet_number: u32,
    pub bet_amount: Balance,
}

/// Everything a state-mutating entry point can fail with.
#[derive(Clone, Copy, Debug, PartialEq, Eq, Structural)]
pub enum CoreError {
    /// The contract is paused.
    PausedError,
    /// The caller lacks authority: not the owner for owner-gated calls,
    /// not the configured admin for `finalize`.
    NotOwnerError,
    /// `initialize` was called while the token address was already set.
    AlreadyInitializedError,
    /// An input failed a bounds check: a stake outside `(0, max_bet]`, a
    /// bet number outside its side's range, a revenue ratio outside
    /// `[1, 1000]`, or rate tables of unequal length.
    RangeViolation,
    /// `play` while the caller already has an unsettled wager.
    BetAlreadyOpenError,
    /// `finalize` for a player with no open wager.
    BetNotFoundError,
    /// The contract cannot fund the requested payout or withdrawal.
    InsufficientContractBalanceError,
    /// The bet pool's allowance to the contract does not cover the
    /// reward-token entitlement.
    InsufficientAllowanceError,
    /// The stored wager's side is neither Over nor Under.
    InvalidSideError,
}

/// Stake receipt emitted when a wager is admitted.
#[derive(Clone, Copy, Debug, PartialEq, Eq, Structural)]
pub struct PlayEvent {
    pub player: AccountId,
    pub is_over: u8,
    pub bet_number: u32,
    pub bet_amount: Balance,
}

/// Outcome receipt for a settled winning wager.
#[derive(Clone, Copy, Debug, PartialEq, Eq, Structural)]
pub struct WinEvent {
    pub player: AccountId,
    pub is_over: u8,
    pub random_number: u32,
    pub bet_number: u32,
    pub bet_amount: Balance,
    pub win_amount: Balance,
}

/// Outcome receipt for a settled losing wager.
#[derive(Clone, Copy, Debug, PartialEq, Eq, Structural)]
pub struct LoseEvent {
    pub player: AccountId,
    pub is_over: u8,
    pub random_number: u32,
    pub bet_number: u32,
    pub bet_amount: Balance,
}

/// The receipt a settlement emits: one of the two outcome events.
#[derive(Clone, Copy, Debug, PartialEq, Eq, Structural)]
pub enum SettleReceipt {
    Win(WinEvent),
    Lose(LoseEvent),
}

/// One auxiliary-token movement for the host to perform.
#[derive(Clone, Copy, Debug, PartialEq, Eq, Structural)]
pub struct TokenTransfer {
    pub to: AccountId,
    pub amount: Balance,
}

/// Everything a successful `finalize` asks the host to do, plus the
/// receipt to log.
///
/// On a win `player_payout` is the full payout owed to the player from the
/// contract's native balance and both pool amounts are zero; on a loss the
/// stake is split between the reward pool and the general pool and the
/// payout is zero. `reward_token_amount` is the auxiliary-token credit
/// pulled from the bet pool to the player in either case.
#[derive(Clone, Copy, Debug, PartialEq, Eq, Structural)]
pub struct Settlement {
    pub receipt: SettleReceipt,
    pub player_payout: Balance,
    pub reward_pool_amount: Balance,
    pub general_pool_amount: Balance,
    pub reward_token_amount: Balance,
}

} // verus!
