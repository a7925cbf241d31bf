use crate::error::ErrorCode;
use crate::escrow::{payout, Escrow, Wallet};
use crate::identity::Identity;
use crate::instructions::{
    claim_winnings_error, create_event_error, emergency_withdraw_error, place_bet_error,
    resolve_event_error, ClaimWinnings, CreateEvent, EmergencyWithdraw, Initialize, PlaceBet,
    ResolveEvent,
};
use crate::records::{name_len, Bet, Event, ProgramState, MAX_NAME_LEN};
use crate::stakes::{paid_out, placed, staked};
use vstd::prelude::*;

verus! {

/// What the ledger keeps for one event: its record, its escrow, and how much
/// has left the escrow so far, by claims and by emergency withdrawals.
#[derive(Clone, Debug, PartialEq, Eq)]
pub struct EventEntry {
    pub event: Event,
    pub escrow: Escrow,
    pub claimed: u128,
    pub withdrawn: u128,
}

impl EventEntry {
    /// The entry of an event that was just created: nothing staked, nothing
    /// held, nothing paid.
    pub open spec fn opened(event: Event) -> EventEntry {
        EventEntry {
            event,
            escrow: Escrow { event_id: event.event_id, balance: 0 },
            claimed: 0,
            withdrawn: 0,
        }
    }

    /// Conservation: what the escrow holds is what was staked on both sides
    /// less what was paid to winners and what was withdrawn.
    pub open spec fn conserved(self) -> bool {
        self.escrow.balance == self.event.total_pool() - self.claimed - self.withdrawn
    }
}

/// The ledger as a mathematical value: the singleton record if the market
/// was set up, the events in the order of their ids, and the bets in the
/// order of theirs.
pub struct MarketView {
    pub program_state: Option<ProgramState>,
    pub entries: Seq<EventEntry>,
    pub bets: Seq<Bet>,
}

impl MarketView {
    /// The ledger before the market is set up.
    pub open spec fn empty() -> MarketView {
        MarketView { program_state: None, entries: Seq::empty(), bets: Seq::empty() }
    }

    /// The last event id issued; zero before the market is set up.
    pub open spec fn event_counter(self) -> nat {
        match self.program_state {
            Some(state) => state.event_counter as nat,
            None => 0,
        }
    }

    /// The last bet id issued; zero before the market is set up.
    pub open spec fn bet_counter(self) -> nat {
        match self.program_state {
            Some(state) => state.bet_counter as nat,
            None => 0,
        }
    }

    /// Whether an event is stored under the id.
    pub open spec fn has_event(self, event_id: u64) -> bool {
        1 <= event_id <= self.entries.len()
    }

    /// Whether a bet is stored under the id.
    pub open spec fn has_bet(self, bet_id: u64) -> bool {
        1 <= bet_id <= self.bets.len()
    }

    /// The entry of the event stored under the id.
    pub open spec fn entry(self, event_id: u64) -> EventEntry
        recommends
            self.has_event(event_id),
    {
        self.entries[event_id - 1]
    }

    /// The bet stored under the id.
    pub open spec fn bet(self, bet_id: u64) -> Bet
        recommends
            self.has_bet(bet_id),
    {
        self.bets[bet_id - 1]
    }

    /// What must hold of the entry at position `i`: it is keyed by its
    /// position, its name is within the limit, its totals are the stakes and
    /// the numbers of the bets placed on each side, its claimed amount is the
    /// sum of the payouts of its claimed bets, and its escrow is conserved.
    pub open spec fn entry_ok(self, i: int) -> bool {
        let entry = self.entries[i];
        let event = entry.event;
        &&& event.event_id == i + 1
        &&& entry.escrow.event_id == i + 1
        &&& name_len(event.name@) <= MAX_NAME_LEN
        &&& event.total_yes_amount == staked(self.bets, event.event_id, true)
        &&& event.total_no_amount == staked(self.bets, event.event_id, false)
        &&& event.total_yes_bets == placed(self.bets, event.event_id, true)
        &&& event.total_no_bets == placed(self.bets, event.event_id, false)
        &&& entry.claimed == paid_out(self.bets, event)
        &&& entry.conserved()
    }

    /// What must hold of the bet at position `j`: it is keyed by its
    /// position, it belongs to an event of the ledger, its stake is
    /// positive, and it is paid only after resolution.
    pub open spec fn bet_ok(self, j: int) -> bool {
        let bet = self.bets[j];
        &&& bet.bet_id == j + 1
        &&& self.has_event(bet.event_id)
        &&& bet.amount > 0
        &&& bet.claimed ==> self.entry(bet.event_id).event.resolved
    }

    /// The ledger's invariant. Before the market is set up it holds nothing.
    /// Afterwards the counters are the numbers of events and bets, so that
    /// every id from 1 to the counter is taken exactly once, and every entry
    /// and every bet is in order.
    pub open spec fn valid(self) -> bool {
        &&& self.entries.len() == self.event_counter()
        &&& self.bets.len() == self.bet_counter()
        &&& forall|i: int| 0 <= i < self.entries.len() ==> #[trigger] self.entry_ok(i)
        &&& forall|j: int| 0 <= j < self.bets.len() ==> #[trigger] self.bet_ok(j)
    }

    /// The records that `create_event` is given by a ledger in this state.
    pub open spec fn create_event_ctx(self, state: ProgramState, caller: Identity) -> CreateEvent {
        CreateEvent { program_state: state, event: None, admin: caller }
    }

    /// The records that `place_bet` is given by a ledger in this state.
    pub open spec fn place_bet_ctx(self, state: ProgramState, bettor: Wallet, event_id: u64) -> PlaceBet {
        PlaceBet {
            program_state: state,
            event: self.entry(event_id).event,
            bet: None,
            event_escrow: self.entry(event_id).escrow,
            bettor,
        }
    }

    /// The records that `resolve_event` is given by a ledger in this state.
    pub open spec fn resolve_event_ctx(self, state: ProgramState, caller: Identity, event_id: u64) -> ResolveEvent {
        ResolveEvent { program_state: state, event: self.entry(event_id).event, admin: caller }
    }

    /// The records that `claim_winnings` is given by a ledger in this state.
    pub open spec fn claim_winnings_ctx(self, bettor: Wallet, event_id: u64, bet_id: u64) -> ClaimWinnings {
        ClaimWinnings {
            event: self.entry(event_id).event,
            bet: self.bet(bet_id),
            event_escrow: self.entry(event_id).escrow,
            bettor,
        }
    }

    /// The records that `emergency_withdraw` is given by a ledger in this
    /// state.
    pub open spec fn emergency_withdraw_ctx(self, state: ProgramState, admin: Wallet, event_id: u64) -> EmergencyWithdraw {
        EmergencyWithdraw {
            program_state: state,
            event_escrow: self.entry(event_id).escrow,
            admin,
        }
    }

    /// Why setting the market up fails, if it does.
    pub open spec fn initialize_error(self) -> Option<ErrorCode> {
        if self.program_state is Some {
            Some(ErrorCode::AlreadyInitialized)
        } else {
            None
        }
    }

    /// Why creating an event fails, if it does: the singleton record is
    /// missing, or the instruction refuses.
    pub open spec fn create_event_error(
        self,
        caller: Identity,
        name: Seq<char>,
        end_time: i64,
        now: i64,
    ) -> Option<ErrorCode> {
        match self.program_state {
            None => Some(ErrorCode::NotFound),
            Some(state) => create_event_error(
                self.create_event_ctx(state, caller),
                name,
                end_time,
                now,
            ),
        }
    }

    /// Why placing a bet fails, if it does: the singleton record is missing,
    /// the event id was never issued, no event has the id, or the
    /// instruction refuses.
    pub open spec fn place_bet_error(
        self,
        bettor: Wallet,
        event_id: u64,
        outcome: bool,
        amount: u64,
        now: i64,
    ) -> Option<ErrorCode> {
        match self.program_state {
            None => Some(ErrorCode::NotFound),
            Some(state) => if event_id > state.event_counter {
                Some(ErrorCode::EventDoesNotExist)
            } else if !self.has_event(event_id) {
                Some(ErrorCode::NotFound)
            } else {
                place_bet_error(
                    self.place_bet_ctx(state, bettor, event_id),
                    event_id,
                    outcome,
                    amount,
                    now,
                )
            },
        }
    }

    /// Why resolving an event fails, if it does: the singleton record is
    /// missing, the caller is not the administrator, no event has the id, or
    /// the instruction refuses.
    pub open spec fn resolve_event_error(self, caller: Identity, event_id: u64) -> Option<
        ErrorCode,
    > {
        match self.program_state {
            None => Some(ErrorCode::NotFound),
            Some(state) => if caller != state.admin {
                Some(ErrorCode::Unauthorized)
            } else if !self.has_event(event_id) {
                Some(ErrorCode::NotFound)
            } else {
                resolve_event_error(self.resolve_event_ctx(state, caller, event_id), event_id)
            },
        }
    }

    /// Why claiming fails, if it does: no event or no bet has the id, or the
    /// instruction refuses.
    pub open spec fn claim_winnings_error(self, bettor: Wallet, event_id: u64, bet_id: u64) -> Option<
        ErrorCode,
    > {
        if !self.has_event(event_id) || !self.has_bet(bet_id) {
            Some(ErrorCode::NotFound)
        } else {
            claim_winnings_error(
                self.claim_winnings_ctx(bettor, event_id, bet_id),
                event_id,
                bet_id,
            )
        }
    }

    /// Why an emergency withdrawal fails, if it does: the singleton record is
    /// missing, the caller is not the administrator, no event has the id, or
    /// the instruction refuses.
    pub open spec fn emergency_withdraw_error(self, admin: Wallet, event_id: u64) -> Option<
        ErrorCode,
    > {
        match self.program_state {
            None => Some(ErrorCode::NotFound),
            Some(state) => if admin.owner != state.admin {
                Some(ErrorCode::Unauthorized)
            } else if !self.has_event(event_id) {
                Some(ErrorCode::NotFound)
            } else {
                emergency_withdraw_error(
                    self.emergency_withdraw_ctx(state, admin, event_id),
                    event_id,
                )
            },
        }
    }

    /// The ledger after the market was set up.
    pub open spec fn after_initialize(self, admin: Identity) -> MarketView {
        MarketView { program_state: Some(ProgramState::fresh(admin)), ..self }
    }

    /// The ledger after an event was created: one more id issued, one more
    /// entry, keyed by that id.
    pub open spec fn after_create_event(self, caller: Identity, name: String, end_time: i64) -> MarketView {
        let state = self.program_state->Some_0.with_event_issued();
        MarketView {
            program_state: Some(state),
            entries: self.entries.push(
                EventEntry::opened(Event::opened(state.event_counter, name, end_time, caller)),
            ),
            ..self
        }
    }

    /// The ledger after a bet was placed: one more id issued, one more bet,
    /// and the stake counted into the event's totals and held in its escrow.
    pub open spec fn after_place_bet(self, bettor: Identity, event_id: u64, outcome: bool, amount: u64) -> MarketView {
        let state = self.program_state->Some_0.with_bet_issued();
        let entry = self.entry(event_id);
        MarketView {
            program_state: Some(state),
            entries: self.entries.update(
                event_id - 1,
                EventEntry {
                    event: entry.event.with_bet(outcome, amount),
                    escrow: Escrow {
                        balance: (entry.escrow.balance + amount) as u64,
                        ..entry.escrow
                    },
                    ..entry
                },
            ),
            bets: self.bets.push(Bet::placed(state.bet_counter, event_id, bettor, outcome, amount)),
        }
    }

    /// The ledger after an event was resolved.
    pub open spec fn after_resolve_event(self, event_id: u64, outcome: bool) -> MarketView {
        let entry = self.entry(event_id);
        MarketView {
            entries: self.entries.update(
                event_id - 1,
                EventEntry { event: entry.event.resolved_as(outcome), ..entry },
            ),
            ..self
        }
    }

    /// What a successful claim of the bet pays.
    pub open spec fn claim_amount(self, event_id: u64, bet_id: u64) -> nat {
        payout(self.bet(bet_id), self.entry(event_id).event)
    }

    /// The ledger after a bet was paid: the payout has left the escrow and is
    /// counted as claimed, and the bet is marked.
    pub open spec fn after_claim_winnings(self, event_id: u64, bet_id: u64) -> MarketView {
        let entry = self.entry(event_id);
        let amount = self.claim_amount(event_id, bet_id);
        MarketView {
            entries: self.entries.update(
                event_id - 1,
                EventEntry {
                    escrow: Escrow {
                        balance: (entry.escrow.balance - amount) as u64,
                        ..entry.escrow
                    },
                    claimed: (entry.claimed + amount) as u128,
                    ..entry
                },
            ),
            bets: self.bets.update(bet_id - 1, self.bet(bet_id).paid()),
            ..self
        }
    }

    /// The ledger after an emergency withdrawal: the escrow is empty, and
    /// what it held is counted as withdrawn.
    pub open spec fn after_emergency_withdraw(self, event_id: u64) -> MarketView {
        let entry = self.entry(event_id);
        MarketView {
            entries: self.entries.update(
                event_id - 1,
                EventEntry {
                    escrow: Escrow { balance: 0, ..entry.escrow },
                    withdrawn: (entry.withdrawn + entry.escrow.balance) as u128,
                    ..entry
                },
            ),
            ..self
        }
    }
}

} // verus!
