//! Settlement core of a binary-outcome prediction market.
//!
//! Parties stake funds on one of two outcomes of a time-bounded event. Once
//! the administrator has fixed the outcome, each winner withdraws a share of
//! the whole pool in proportion to their stake. The crate holds the record
//! types, the checked arithmetic, the escrow accounting, the six
//! instructions as transitions on the records they touch, and an in-memory
//! ledger that keys the records and keeps every escrow balance equal to the
//! stakes taken in less the funds paid out.

pub mod arith;
pub mod error;
pub mod escrow;
pub mod history;
pub mod identity;
pub mod instructions;
pub mod ledger;
pub mod market;
pub mod records;
pub mod stakes;

pub use crate::arith::{proportional_share, safe_add, safe_sub};
pub use crate::error::ErrorCode;
pub use crate::escrow::{compute_payout, Escrow, Wallet};
pub use crate::identity::{require_identity, Identity};
pub use crate::instructions::{
    claim_winnings, create_event, emergency_withdraw, initialize, place_bet, resolve_event,
    ClaimWinnings, CreateEvent, EmergencyWithdraw, Initialize, PlaceBet, ResolveEvent,
};
pub use crate::ledger::EventEntry;
pub use crate::market::Market;
pub use crate::records::{Bet, Event, ProgramState, MAX_NAME_LEN};
