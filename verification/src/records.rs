use crate::identity::Identity;
use vstd::prelude::*;

verus! {

/// The largest number of bytes that an event's name may hold.
pub const MAX_NAME_LEN: usize = 200;

/// The number of bytes that a name takes when stored.
pub open spec fn name_len(name: Seq<char>) -> nat {
    vstd::utf8::encode_utf8(name).len()
}

/// The market's singleton record: who administers it, and the last event id
/// and bet id that were issued.
#[derive(Clone, Copy, Debug, PartialEq, Eq)]
pub struct ProgramState {
    pub admin: Identity,
    pub event_counter: u64,
    pub bet_counter: u64,
}

impl ProgramState {
    /// The record of a market that has issued no id yet.
    pub open spec fn fresh(admin: Identity) -> ProgramState {
        ProgramState { admin, event_counter: 0, bet_counter: 0 }
    }

    /// This record after one more event id was issued.
    pub open spec fn with_event_issued(self) -> ProgramState {
        ProgramState { event_counter: (self.event_counter + 1) as u64, ..self }
    }

    /// This record after one more bet id was issued.
    pub open spec fn with_bet_issued(self) -> ProgramState {
        ProgramState { bet_counter: (self.bet_counter + 1) as u64, ..self }
    }
}

/// One market: a question with two outcomes and a betting deadline.
///
/// `outcome` means something only once `resolved` is set; `true` stands for
/// the yes side, `false` for the no side.
#[derive(Clone, Debug, PartialEq, Eq)]
pub struct Event {
    pub event_id: u64,
    pub name: String,
    pub end_time: i64,
    pub resolved: bool,
    pub outcome: bool,
    pub total_yes_bets: u64,
    pub total_no_bets: u64,
    pub total_yes_amount: u64,
    pub total_no_amount: u64,
    pub creator: Identity,
}

impl Event {
    /// The event as it is right after its creation: open, with nothing staked.
    pub open spec fn opened(event_id: u64, name: String, end_time: i64, creator: Identity) -> Event {
        Event {
            event_id,
            name,
            end_time,
            resolved: false,
            outcome: false,
            total_yes_bets: 0,
            total_no_bets: 0,
            total_yes_amount: 0,
            total_no_amount: 0,
            creator,
        }
    }

    /// Everything staked on this event, both sides together.
    pub open spec fn total_pool(self) -> nat {
        (self.total_yes_amount + self.total_no_amount) as nat
    }

    /// The amount staked on one side.
    pub open spec fn side_amount(self, outcome: bool) -> nat {
        if outcome {
            self.total_yes_amount as nat
        } else {
            self.total_no_amount as nat
        }
    }

    /// The number of bets on one side.
    pub open spec fn side_bets(self, outcome: bool) -> nat {
        if outcome {
            self.total_yes_bets as nat
        } else {
            self.total_no_bets as nat
        }
    }

    /// Whether the side's count and amount can take one more bet of `amount`
    /// without leaving 64 bits.
    pub open spec fn has_room_for(self, outcome: bool, amount: u64) -> bool {
        &&& self.side_bets(outcome) + 1 <= u64::MAX
        &&& self.side_amount(outcome) + amount <= u64::MAX
    }

    /// This event after a bet of `amount` on `outcome` was counted in.
    pub open spec fn with_bet(self, outcome: bool, amount: u64) -> Event {
        if outcome {
            Event {
                total_yes_bets: (self.total_yes_bets + 1) as u64,
                total_yes_amount: (self.total_yes_amount + amount) as u64,
                ..self
            }
        } else {
            Event {
                total_no_bets: (self.total_no_bets + 1) as u64,
                total_no_amount: (self.total_no_amount + amount) as u64,
                ..self
            }
        }
    }

    /// This event after its outcome was fixed.
    pub open spec fn resolved_as(self, outcome: bool) -> Event {
        Event { resolved: true, outcome, ..self }
    }

    /// A copy of this event.
    pub fn duplicate(&self) -> (copy: Event)
        ensures
            copy == *self,
    {
        Event {
            event_id: self.event_id,
            name: self.name.clone(),
            end_time: self.end_time,
            resolved: self.resolved,
            outcome: self.outcome,
            total_yes_bets: self.total_yes_bets,
            total_no_bets: self.total_no_bets,
            total_yes_amount: self.total_yes_amount,
            total_no_amount: self.total_no_amount,
            creator: self.creator,
        }
    }
}

/// One party's stake on one side of an event.
#[derive(Clone, Copy, Debug, PartialEq, Eq)]
pub struct Bet {
    pub bet_id: u64,
    pub event_id: u64,
    pub bettor: Identity,
    pub outcome: bool,
    pub amount: u64,
    pub claimed: bool,
}

impl Bet {
    /// The bet as it is right after its placement: not yet paid out.
    pub open spec fn placed(
        bet_id: u64,
        event_id: u64,
        bettor: Identity,
        outcome: bool,
        amount: u64,
    ) -> Bet {
        Bet { bet_id, event_id, bettor, outcome, amount, claimed: false }
    }

    /// This bet after it was paid out.
    pub open spec fn paid(self) -> Bet {
        Bet { claimed: true, ..self }
    }
}

} // verus!
