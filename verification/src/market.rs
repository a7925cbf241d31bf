use crate::error::ErrorCode;
use crate::escrow::{Escrow, Wallet};
use crate::history::{
    lemma_claim_winnings_keeps_valid, lemma_create_event_keeps_valid,
    lemma_emergency_withdraw_keeps_valid, lemma_place_bet_keeps_valid,
    lemma_resolve_event_keeps_valid,
};
use crate::identity::Identity;
use crate::instructions::{
    claim_winnings, create_event, emergency_withdraw, initialize, place_bet, resolve_event,
    ClaimWinnings, CreateEvent, EmergencyWithdraw, Initialize, PlaceBet, ResolveEvent,
};
use crate::ledger::{EventEntry, MarketView};
use crate::records::{Bet, Event, ProgramState};
use vstd::prelude::*;

verus! {

/// An in-memory ledger for one market: the singleton record, the events
/// with their escrows, and the bets, each kept under its id. Every operation
/// either applies all of its changes or none of them.
#[derive(Debug)]
pub struct Market {
    program_state: Option<ProgramState>,
    entries: Vec<EventEntry>,
    bets: Vec<Bet>,
}

impl View for Market {
    type V = MarketView;

    closed spec fn view(&self) -> MarketView {
        MarketView { program_state: self.program_state, entries: self.entries@, bets: self.bets@ }
    }
}

impl Market {
    /// Whether the ledger is in order: see `MarketView::valid`.
    pub open spec fn wf(&self) -> bool {
        self@.valid()
    }

    /// A ledger that holds nothing: the market is not set up yet.
    pub fn new() -> (market: Market)
        ensures
            market.wf(),
            market@ == MarketView::empty(),
    {
        Market { program_state: None, entries: Vec::new(), bets: Vec::new() }
    }

    /// The singleton record, or `None` before the market is set up.
    pub fn program_state(&self) -> (state: Option<ProgramState>)
        ensures
            state == self@.program_state,
    {
        self.program_state
    }

    /// The event stored under the id, or `NotFound`.
    pub fn event(&self, event_id: u64) -> (res: Result<Event, ErrorCode>)
        ensures
            res == if self@.has_event(event_id) {
                Ok::<Event, ErrorCode>(self@.entry(event_id).event)
            } else {
                Err::<Event, ErrorCode>(ErrorCode::NotFound)
            },
    {
        match self.position(event_id) {
            Some(index) => Ok(self.entries[index].event.duplicate()),
            None => Err(ErrorCode::NotFound),
        }
    }

    /// The bet stored under the id, or `NotFound`.
    pub fn bet(&self, bet_id: u64) -> (res: Result<Bet, ErrorCode>)
        ensures
            res == if self@.has_bet(bet_id) {
                Ok::<Bet, ErrorCode>(self@.bet(bet_id))
            } else {
                Err::<Bet, ErrorCode>(ErrorCode::NotFound)
            },
    {
        match self.bet_position(bet_id) {
            Some(index) => Ok(self.bets[index]),
            None => Err(ErrorCode::NotFound),
        }
    }

    /// What the escrow of the event holds, or `NotFound`.
    pub fn escrow_balance(&self, event_id: u64) -> (res: Result<u64, ErrorCode>)
        ensures
            res == if self@.has_event(event_id) {
                Ok::<u64, ErrorCode>(self@.entry(event_id).escrow.balance)
            } else {
                Err::<u64, ErrorCode>(ErrorCode::NotFound)
            },
    {
        match self.position(event_id) {
            Some(index) => Ok(self.entries[index].escrow.balance),
            None => Err(ErrorCode::NotFound),
        }
    }

    /// The sum of all payouts made from the event's escrow, or `NotFound`.
    pub fn claimed_total(&self, event_id: u64) -> (res: Result<u128, ErrorCode>)
        ensures
            res == if self@.has_event(event_id) {
                Ok::<u128, ErrorCode>(self@.entry(event_id).claimed)
            } else {
                Err::<u128, ErrorCode>(ErrorCode::NotFound)
            },
    {
        match self.position(event_id) {
            Some(index) => Ok(self.entries[index].claimed),
            None => Err(ErrorCode::NotFound),
        }
    }

    /// The sum of all emergency withdrawals from the event's escrow, or
    /// `NotFound`.
    pub fn withdrawn_total(&self, event_id: u64) -> (res: Result<u128, ErrorCode>)
        ensures
            res == if self@.has_event(event_id) {
                Ok::<u128, ErrorCode>(self@.entry(event_id).withdrawn)
            } else {
                Err::<u128, ErrorCode>(ErrorCode::NotFound)
            },
    {
        match self.position(event_id) {
            Some(index) => Ok(self.entries[index].withdrawn),
            None => Err(ErrorCode::NotFound),
        }
    }

    /// Where the entry of the event stands, if the event exists.
    fn position(&self, event_id: u64) -> (index: Option<usize>)
        ensures
            match index {
                Some(i) => self@.has_event(event_id) && i == event_id - 1,
                None => !self@.has_event(event_id),
            },
    {
        let count = self.entries.len();
        if event_id == 0 || event_id > count as u64 {
            None
        } else {
            Some((event_id - 1) as usize)
        }
    }

    /// Where the bet stands, if the bet exists.
    fn bet_position(&self, bet_id: u64) -> (index: Option<usize>)
        ensures
            match index {
                Some(j) => self@.has_bet(bet_id) && j == bet_id - 1,
                None => !self@.has_bet(bet_id),
            },
    {
        let count = self.bets.len();
        if bet_id == 0 || bet_id > count as u64 {
            None
        } else {
            Some((bet_id - 1) as usize)
        }
    }

    /// Sets the market up with `admin` as its administrator. Fails with
    /// `AlreadyInitialized` when that was done before.
    pub fn initialize(&mut self, admin: Identity) -> (res: Result<(), ErrorCode>)
        requires
            old(self).wf(),
        ensures
            final(self).wf(),
            match res {
                Ok(()) => {
                    &&& old(self)@.initialize_error() is None
                    &&& final(self)@ == old(self)@.after_initialize(admin)
                },
                Err(e) => {
                    &&& old(self)@.initialize_error() == Some(e)
                    &&& final(self)@ == old(self)@
                },
            },
    {
        let mut ctx = Initialize { program_state: self.program_state };
        initialize(&mut ctx, admin)?;
        self.program_state = ctx.program_state;
        Ok(())
    }

    /// Creates an event and returns its id, the next one after the last
    /// issued. On failure the ledger is unchanged.
    pub fn create_event(&mut self, caller: Identity, name: String, end_time: i64, now: i64) -> (res:
        Result<u64, ErrorCode>)
        requires
            old(self).wf(),
        ensures
            final(self).wf(),
            match res {
                Ok(event_id) => {
                    &&& old(self)@.create_event_error(caller, name@, end_time, now) is None
                    &&& event_id == old(self)@.event_counter() + 1
                    &&& final(self)@ == old(self)@.after_create_event(caller, name, end_time)
                },
                Err(e) => {
                    &&& old(self)@.create_event_error(caller, name@, end_time, now) == Some(e)
                    &&& final(self)@ == old(self)@
                },
            },
    {
        let state = match self.program_state {
            Some(state) => state,
            None => {
                return Err(ErrorCode::NotFound);
            },
        };
        let mut ctx = CreateEvent { program_state: state, event: None, admin: caller };
        let event_id = create_event(&mut ctx, name, end_time, now)?;
        proof {
            lemma_create_event_keeps_valid(self@, caller, name, end_time, now);
        }
        if let Some(event) = ctx.event {
            self.program_state = Some(ctx.program_state);
            self.entries.push(
                EventEntry { event, escrow: Escrow::new(event_id), claimed: 0, withdrawn: 0 },
            );
        }
        Ok(event_id)
    }

    /// Places a bet for the owner of `bettor`, takes the stake from those
    /// funds into the event's escrow, and returns the bet's id, the next one
    /// after the last issued. On failure the ledger and the funds are
    /// unchanged.
    pub fn place_bet(
        &mut self,
        bettor: &mut Wallet,
        event_id: u64,
        outcome: bool,
        amount: u64,
        now: i64,
    ) -> (res: Result<u64, ErrorCode>)
        requires
            old(self).wf(),
        ensures
            final(self).wf(),
            final(bettor).owner == old(bettor).owner,
            match res {
                Ok(bet_id) => {
                    &&& old(self)@.place_bet_error(*old(bettor), event_id, outcome, amount, now) is None
                    &&& bet_id == old(self)@.bet_counter() + 1
                    &&& final(self)@ == old(self)@.after_place_bet(
                        old(bettor).owner,
                        event_id,
                        outcome,
                        amount,
                    )
                    &&& final(bettor).balance == old(bettor).balance - amount
                },
                Err(e) => {
                    &&& old(self)@.place_bet_error(*old(bettor), event_id, outcome, amount, now)
                        == Some(e)
                    &&& final(self)@ == old(self)@
                    &&& *final(bettor) == *old(bettor)
                },
            },
    {
        let state = match self.program_state {
            Some(state) => state,
            None => {
                return Err(ErrorCode::NotFound);
            },
        };
        if event_id > state.event_counter {
            return Err(ErrorCode::EventDoesNotExist);
        }
        let index = match self.position(event_id) {
            Some(index) => index,
            None => {
                return Err(ErrorCode::NotFound);
            },
        };
        let mut ctx = PlaceBet {
            program_state: state,
            event: self.entries[index].event.duplicate(),
            bet: None,
            event_escrow: self.entries[index].escrow,
            bettor: *bettor,
        };
        place_bet(&mut ctx, event_id, outcome, amount, now)?;
        proof {
            lemma_place_bet_keeps_valid(self@, *bettor, event_id, outcome, amount, now);
        }
        let ghost before = self@;
        if let Some(bet) = ctx.bet {
            let entry = EventEntry {
                event: ctx.event,
                escrow: ctx.event_escrow,
                claimed: self.entries[index].claimed,
                withdrawn: self.entries[index].withdrawn,
            };
            self.program_state = Some(ctx.program_state);
            self.entries.set(index, entry);
            self.bets.push(bet);
            *bettor = ctx.bettor;
        }
        assert(self@.entries =~= before.after_place_bet(
            old(bettor).owner,
            event_id,
            outcome,
            amount,
        ).entries);
        Ok(ctx.program_state.bet_counter)
    }

    /// Fixes the outcome of an event. On failure the ledger is unchanged.
    pub fn resolve_event(&mut self, caller: Identity, event_id: u64, outcome: bool) -> (res: Result<
        (),
        ErrorCode,
    >)
        requires
            old(self).wf(),
        ensures
            final(self).wf(),
            match res {
                Ok(()) => {
                    &&& old(self)@.resolve_event_error(caller, event_id) is None
                    &&& final(self)@ == old(self)@.after_resolve_event(event_id, outcome)
                },
                Err(e) => {
                    &&& old(self)@.resolve_event_error(caller, event_id) == Some(e)
                    &&& final(self)@ == old(self)@
                },
            },
    {
        let state = match self.program_state {
            Some(state) => state,
            None => {
                return Err(ErrorCode::NotFound);
            },
        };
        if !caller.matches(&state.admin) {
            return Err(ErrorCode::Unauthorized);
        }
        let index = match self.position(event_id) {
            Some(index) => index,
            None => {
                return Err(ErrorCode::NotFound);
            },
        };
        let mut ctx = ResolveEvent {
            program_state: state,
            event: self.entries[index].event.duplicate(),
            admin: caller,
        };
        resolve_event(&mut ctx, event_id, outcome)?;
        proof {
            lemma_resolve_event_keeps_valid(self@, caller, event_id, outcome);
        }
        let ghost before = self@;
        let entry = EventEntry {
            event: ctx.event,
            escrow: self.entries[index].escrow,
            claimed: self.entries[index].claimed,
            withdrawn: self.entries[index].withdrawn,
        };
        self.entries.set(index, entry);
        assert(self@.entries =~= before.after_resolve_event(event_id, outcome).entries);
        Ok(())
    }

    /// Pays the bet to the owner of `bettor` and returns the amount paid.
    /// On failure the ledger and the funds are unchanged.
    pub fn claim_winnings(&mut self, bettor: &mut Wallet, event_id: u64, bet_id: u64) -> (res:
        Result<u64, ErrorCode>)
        requires
            old(self).wf(),
        ensures
            final(self).wf(),
            final(bettor).owner == old(bettor).owner,
            match res {
                Ok(paid) => {
                    &&& old(self)@.claim_winnings_error(*old(bettor), event_id, bet_id) is None
                    &&& paid == old(self)@.claim_amount(event_id, bet_id)
                    &&& final(self)@ == old(self)@.after_claim_winnings(event_id, bet_id)
                    &&& final(bettor).balance == old(bettor).balance + paid
                },
                Err(e) => {
                    &&& old(self)@.claim_winnings_error(*old(bettor), event_id, bet_id) == Some(e)
                    &&& final(self)@ == old(self)@
                    &&& *final(bettor) == *old(bettor)
                },
            },
    {
        let index = match self.position(event_id) {
            Some(index) => index,
            None => {
                return Err(ErrorCode::NotFound);
            },
        };
        let bet_index = match self.bet_position(bet_id) {
            Some(bet_index) => bet_index,
            None => {
                return Err(ErrorCode::NotFound);
            },
        };
        let held = self.entries[index].escrow.balance;
        let mut ctx = ClaimWinnings {
            event: self.entries[index].event.duplicate(),
            bet: self.bets[bet_index],
            event_escrow: self.entries[index].escrow,
            bettor: *bettor,
        };
        claim_winnings(&mut ctx, event_id, bet_id)?;
        proof {
            lemma_claim_winnings_keeps_valid(self@, *bettor, event_id, bet_id);
            assert(self@.entry_ok(index as int));
        }
        let ghost before = self@;
        let paid = held - ctx.event_escrow.balance;
        let entry = EventEntry {
            event: ctx.event,
            escrow: ctx.event_escrow,
            claimed: self.entries[index].claimed + paid as u128,
            withdrawn: self.entries[index].withdrawn,
        };
        self.entries.set(index, entry);
        self.bets.set(bet_index, ctx.bet);
        *bettor = ctx.bettor;
        assert(self@.entries =~= before.after_claim_winnings(event_id, bet_id).entries);
        assert(self@.bets =~= before.after_claim_winnings(event_id, bet_id).bets);
        Ok(paid)
    }

    /// Hands the whole escrow of the event to the administrator, who owns
    /// `admin`, and returns the amount handed over. On failure the ledger
    /// and the funds are unchanged.
    pub fn emergency_withdraw(&mut self, admin: &mut Wallet, event_id: u64) -> (res: Result<
        u64,
        ErrorCode,
    >)
        requires
            old(self).wf(),
        ensures
            final(self).wf(),
            final(admin).owner == old(admin).owner,
            match res {
                Ok(taken) => {
                    &&& old(self)@.emergency_withdraw_error(*old(admin), event_id) is None
                    &&& taken == old(self)@.entry(event_id).escrow.balance
                    &&& final(self)@ == old(self)@.after_emergency_withdraw(event_id)
                    &&& final(admin).balance == old(admin).balance + taken
                },
                Err(e) => {
                    &&& old(self)@.emergency_withdraw_error(*old(admin), event_id) == Some(e)
                    &&& final(self)@ == old(self)@
                    &&& *final(admin) == *old(admin)
                },
            },
    {
        let state = match self.program_state {
            Some(state) => state,
            None => {
                return Err(ErrorCode::NotFound);
            },
        };
        if !admin.owner.matches(&state.admin) {
            return Err(ErrorCode::Unauthorized);
        }
        let index = match self.position(event_id) {
            Some(index) => index,
            None => {
                return Err(ErrorCode::NotFound);
            },
        };
        let taken = self.entries[index].escrow.balance;
        let mut ctx = EmergencyWithdraw {
            program_state: state,
            event_escrow: self.entries[index].escrow,
            admin: *admin,
        };
        emergency_withdraw(&mut ctx, event_id)?;
        proof {
            lemma_emergency_withdraw_keeps_valid(self@, *admin, event_id);
            assert(self@.entry_ok(index as int));
        }
        let ghost before = self@;
        let entry = EventEntry {
            event: self.entries[index].event.duplicate(),
            escrow: ctx.event_escrow,
            claimed: self.entries[index].claimed,
            withdrawn: self.entries[index].withdrawn + taken as u128,
        };
        self.entries.set(index, entry);
        *admin = ctx.admin;
        assert(self@.entries =~= before.after_emergency_withdraw(event_id).entries);
        Ok(taken)
    }
}

} // verus!
