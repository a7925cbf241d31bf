use crate::arith::{proportional_share, safe_add, safe_sub, share};
use crate::error::ErrorCode;
use crate::identity::Identity;
use crate::records::{Bet, Event};
use vstd::prelude::*;

verus! {

/// A party's own funds, outside any escrow: where stakes come from and where
/// payouts go.
#[derive(Clone, Copy, Debug, PartialEq, Eq)]
pub struct Wallet {
    pub owner: Identity,
    pub balance: u64,
}

/// The funds held for one event.
#[derive(Clone, Copy, Debug, PartialEq, Eq)]
pub struct Escrow {
    pub event_id: u64,
    pub balance: u64,
}

/// What a bet on the winning side is paid: its stake's share of the whole
/// pool, in proportion to the pool of the side that won.
pub open spec fn payout(bet: Bet, event: Event) -> nat {
    share(bet.amount as nat, event.total_pool(), event.side_amount(event.outcome))
}

/// Why `amount` cannot move from `source` into `escrow`, if it cannot.
pub open spec fn deposit_error(escrow: Escrow, source: Wallet, amount: u64) -> Option<ErrorCode> {
    if source.balance < amount {
        Some(ErrorCode::InsufficientFunds)
    } else if escrow.balance + amount > u64::MAX {
        Some(ErrorCode::ArithmeticOverflow)
    } else {
        None
    }
}

/// Why `amount` cannot move from `escrow` to `destination`, if it cannot.
pub open spec fn withdraw_error(escrow: Escrow, amount: u64, destination: Wallet) -> Option<
    ErrorCode,
> {
    if escrow.balance < amount {
        Some(ErrorCode::InsufficientEscrowBalance)
    } else if destination.balance + amount > u64::MAX {
        Some(ErrorCode::ArithmeticOverflow)
    } else {
        None
    }
}

impl Escrow {
    /// An empty escrow for the event.
    pub fn new(event_id: u64) -> (escrow: Escrow)
        ensures
            escrow == (Escrow { event_id, balance: 0 }),
    {
        Escrow { event_id, balance: 0 }
    }

    /// Moves `amount` from `source` into this escrow. Either both balances
    /// change by `amount` or neither changes: no funds appear or vanish.
    pub fn deposit(&mut self, source: &mut Wallet, amount: u64) -> (res: Result<(), ErrorCode>)
        ensures
            match res {
                Ok(()) => {
                    &&& deposit_error(*old(self), *old(source), amount) is None
                    &&& *final(self) == (Escrow {
                        balance: (old(self).balance + amount) as u64,
                        ..*old(self)
                    })
                    &&& *final(source) == (Wallet {
                        balance: (old(source).balance - amount) as u64,
                        ..*old(source)
                    })
                },
                Err(e) => {
                    &&& deposit_error(*old(self), *old(source), amount) == Some(e)
                    &&& *final(self) == *old(self)
                    &&& *final(source) == *old(source)
                },
            },
    {
        let remaining = match safe_sub(source.balance, amount) {
            Ok(remaining) => remaining,
            Err(_) => {
                return Err(ErrorCode::InsufficientFunds);
            },
        };
        let held = safe_add(self.balance, amount)?;
        source.balance = remaining;
        self.balance = held;
        Ok(())
    }

    /// Moves `amount` from this escrow to `destination`. Either both balances
    /// change by `amount` or neither changes.
    pub fn withdraw(&mut self, amount: u64, destination: &mut Wallet) -> (res: Result<
        (),
        ErrorCode,
    >)
        ensures
            match res {
                Ok(()) => {
                    &&& withdraw_error(*old(self), amount, *old(destination)) is None
                    &&& *final(self) == (Escrow {
                        balance: (old(self).balance - amount) as u64,
                        ..*old(self)
                    })
                    &&& *final(destination) == (Wallet {
                        balance: (old(destination).balance + amount) as u64,
                        ..*old(destination)
                    })
                },
                Err(e) => {
                    &&& withdraw_error(*old(self), amount, *old(destination)) == Some(e)
                    &&& *final(self) == *old(self)
                    &&& *final(destination) == *old(destination)
                },
            },
    {
        let remaining = match safe_sub(self.balance, amount) {
            Ok(remaining) => remaining,
            Err(_) => {
                return Err(ErrorCode::InsufficientEscrowBalance);
            },
        };
        let credited = safe_add(destination.balance, amount)?;
        self.balance = remaining;
        destination.balance = credited;
        Ok(())
    }
}

/// The payout of a bet on the side that the event names as its outcome, or
/// `ArithmeticOverflow` when the pool or the payout does not fit in 64 bits.
pub fn compute_payout(bet: &Bet, event: &Event) -> (res: Result<u64, ErrorCode>)
    ensures
        res == if event.total_pool() <= u64::MAX && payout(*bet, *event) <= u64::MAX {
            Ok::<u64, ErrorCode>(payout(*bet, *event) as u64)
        } else {
            Err::<u64, ErrorCode>(ErrorCode::ArithmeticOverflow)
        },
{
    let total_pool = safe_add(event.total_yes_amount, event.total_no_amount)?;
    let winning_pool = if event.outcome {
        event.total_yes_amount
    } else {
        event.total_no_amount
    };
    proportional_share(bet.amount, total_pool, winning_pool)
}

} // verus!
