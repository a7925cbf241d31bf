use vstd::prelude::*;

verus! {

/// Why an operation was refused. Every error is final for the operation that
/// raised it: nothing the operation would have changed is changed.
#[derive(Clone, Copy, Debug, PartialEq, Eq, Structural)]
pub enum ErrorCode {
    /// The caller is not the identity that the operation demands.
    Unauthorized,
    /// The event already has its outcome.
    EventAlreadyResolved,
    /// The event has no outcome yet.
    EventNotResolved,
    /// The event id is beyond the last one issued.
    EventDoesNotExist,
    /// The bet was paid out before.
    AlreadyClaimed,
    /// The bet is on the side that lost.
    LosingBet,
    /// The betting deadline has been reached.
    BettingClosed,
    /// The stake is zero.
    InvalidAmount,
    /// The deadline is not in the future.
    InvalidEndTime,
    /// The event's name is longer than the limit.
    NameTooLong,
    /// An id counter or a running total cannot grow any further.
    CounterOverflow,
    /// An amount does not fit the integer width.
    ArithmeticOverflow,
    /// A subtraction would go below zero.
    ArithmeticUnderflow,
    /// The escrow holds less than the amount to be paid.
    InsufficientEscrowBalance,
    /// The escrow is empty.
    NoBalanceToWithdraw,
    /// The funding source holds less than the stake.
    InsufficientFunds,
    /// No record is stored under the key.
    NotFound,
    /// A record is already stored under the key.
    AlreadyExists,
    /// The market's singleton record was created before.
    AlreadyInitialized,
}

impl ErrorCode {
    /// The text that goes with each kind of error.
    pub open spec fn text(self) -> Seq<char> {
        match self {
            ErrorCode::Unauthorized => "Only admin can perform this action"@,
            ErrorCode::EventAlreadyResolved => "Event has already been resolved"@,
            ErrorCode::EventNotResolved => "Event has not been resolved yet"@,
            ErrorCode::EventDoesNotExist => "Event does not exist"@,
            ErrorCode::AlreadyClaimed => "Winnings have already been claimed"@,
            ErrorCode::LosingBet => "This bet is on the losing outcome"@,
            ErrorCode::BettingClosed => "Betting period has ended"@,
            ErrorCode::InvalidAmount => "Bet amount must be greater than zero"@,
            ErrorCode::InvalidEndTime => "End time must be in the future"@,
            ErrorCode::NameTooLong => "Event name is too long"@,
            ErrorCode::CounterOverflow => "Counter overflow"@,
            ErrorCode::ArithmeticOverflow => "Arithmetic overflow"@,
            ErrorCode::ArithmeticUnderflow => "Arithmetic underflow"@,
            ErrorCode::InsufficientEscrowBalance => "Escrow balance is insufficient"@,
            ErrorCode::NoBalanceToWithdraw => "No balance to withdraw"@,
            ErrorCode::InsufficientFunds => "Insufficient funds"@,
            ErrorCode::NotFound => "Record not found"@,
            ErrorCode::AlreadyExists => "Record already exists"@,
            ErrorCode::AlreadyInitialized => "Market is already initialized"@,
        }
    }

    /// The human-readable message of this error.
    pub fn message(&self) -> (msg: &'static str)
        ensures
            msg@ == self.text(),
    {
        match self {
            ErrorCode::Unauthorized => "Only admin can perform this action",
            ErrorCode::EventAlreadyResolved => "Event has already been resolved",
            ErrorCode::EventNotResolved => "Event has not been resolved yet",
            ErrorCode::EventDoesNotExist => "Event does not exist",
            ErrorCode::AlreadyClaimed => "Winnings have already been claimed",
            ErrorCode::LosingBet => "This bet is on the losing outcome",
            ErrorCode::BettingClosed => "Betting period has ended",
            ErrorCode::InvalidAmount => "Bet amount must be greater than zero",
            ErrorCode::InvalidEndTime => "End time must be in the future",
            ErrorCode::NameTooLong => "Event name is too long",
            ErrorCode::CounterOverflow => "Counter overflow",
            ErrorCode::ArithmeticOverflow => "Arithmetic overflow",
            ErrorCode::ArithmeticUnderflow => "Arithmetic underflow",
            ErrorCode::InsufficientEscrowBalance => "Escrow balance is insufficient",
            ErrorCode::NoBalanceToWithdraw => "No balance to withdraw",
            ErrorCode::InsufficientFunds => "Insufficient funds",
            ErrorCode::NotFound => "Record not found",
            ErrorCode::AlreadyExists => "Record already exists",
            ErrorCode::AlreadyInitialized => "Market is already initialized",
        }
    }
}

} // verus!
