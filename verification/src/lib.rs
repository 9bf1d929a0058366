//! An on-chain wagering engine: players stake native value on an
//! over/under outcome, an admin settles each wager with an oracle-supplied
//! random number, and the engine computes payouts from a fixed odds table,
//! routes lost stakes between a reward pool and a general pool, and credits
//! a companion reward token proportional to the wagered amount.
//!
//! The engine is a deterministic state machine. Host facts that only the
//! chain knows (the caller, the attached value, the contract's native
//! balance, token balances and allowances) enter as explicit arguments,
//! and the movements of funds a call demands come back as explicit values
//! for the host to perform; the host's all-or-nothing transaction
//! semantics are mirrored by every entry point leaving the state untouched
//! whenever it returns an error.
pub mod engine;
pub mod laws;
pub mod model;
pub mod rates;
pub mod settings;
pub mod state;
pub mod types;

pub use state::{BetA0CoreContract, Manager};
pub use types::{
    AccountId, Balance, BetInformation, CoreError, LoseEvent, PlayEvent, SettleReceipt, Settlement,
    TokenTransfer, WinEvent, ZERO_ADDRESS,
};
