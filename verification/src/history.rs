use crate::error::ErrorCode;
use crate::escrow::Wallet;
use crate::identity::Identity;
use crate::arith::lemma_share_within_pool;
use crate::ledger::MarketView;
use crate::stakes::{
    lemma_nothing_paid, lemma_nothing_staked, lemma_stake_is_part, lemma_sums_after_push,
    lemma_sums_after_update, paid_out, staked,
};
use vstd::prelude::*;

verus! {

/// One call of the market, with everything the caller supplies.
pub enum Operation {
    Initialize { admin: Identity },
    CreateEvent { caller: Identity, name: String, end_time: i64 },
    PlaceBet { bettor: Wallet, event_id: u64, outcome: bool, amount: u64 },
    ResolveEvent { caller: Identity, event_id: u64, outcome: bool },
    ClaimWinnings { bettor: Wallet, event_id: u64, bet_id: u64 },
    EmergencyWithdraw { admin: Wallet, event_id: u64 },
}

/// A call together with the time at which the ledger executes it.
pub struct Call {
    pub operation: Operation,
    pub now: i64,
}

impl MarketView {
    /// Why the call is refused in this state, if it is.
    pub open spec fn refusal(self, call: Call) -> Option<ErrorCode> {
        match call.operation {
            Operation::Initialize { admin } => self.initialize_error(),
            Operation::CreateEvent { caller, name, end_time } => self.create_event_error(
                caller,
                name@,
                end_time,
                call.now,
            ),
            Operation::PlaceBet { bettor, event_id, outcome, amount } => self.place_bet_error(
                bettor,
                event_id,
                outcome,
                amount,
                call.now,
            ),
            Operation::ResolveEvent { caller, event_id, outcome } => self.resolve_event_error(
                caller,
                event_id,
            ),
            Operation::ClaimWinnings { bettor, event_id, bet_id } => self.claim_winnings_error(
                bettor,
                event_id,
                bet_id,
            ),
            Operation::EmergencyWithdraw { admin, event_id } => self.emergency_withdraw_error(
                admin,
                event_id,
            ),
        }
    }

    /// The ledger after the call: changed as the operation says when the
    /// call is accepted, and untouched when it is refused.
    pub open spec fn step(self, call: Call) -> MarketView {
        if self.refusal(call) is Some {
            self
        } else {
            match call.operation {
                Operation::Initialize { admin } => self.after_initialize(admin),
                Operation::CreateEvent { caller, name, end_time } => self.after_create_event(
                    caller,
                    name,
                    end_time,
                ),
                Operation::PlaceBet { bettor, event_id, outcome, amount } => self.after_place_bet(
                    bettor.owner,
                    event_id,
                    outcome,
                    amount,
                ),
                Operation::ResolveEvent { caller, event_id, outcome } => self.after_resolve_event(
                    event_id,
                    outcome,
                ),
                Operation::ClaimWinnings { bettor, event_id, bet_id } => self.after_claim_winnings(
                    event_id,
                    bet_id,
                ),
                Operation::EmergencyWithdraw { admin, event_id } => self.after_emergency_withdraw(
                    event_id,
                ),
            }
        }
    }

    /// The ledger after a whole sequence of calls, executed in order.
    pub open spec fn run(self, calls: Seq<Call>) -> MarketView
        decreases calls.len(),
    {
        if calls.len() == 0 {
            self
        } else {
            self.run(calls.drop_last()).step(calls.last())
        }
    }
}

/// Setting the market up keeps the ledger's invariant.
pub proof fn lemma_initialize_keeps_valid(m: MarketView, admin: Identity)
    requires
        m.valid(),
        m.initialize_error() is None,
    ensures
        m.after_initialize(admin).valid(),
{
}

/// Creating an event keeps the ledger's invariant.
pub proof fn lemma_create_event_keeps_valid(
    m: MarketView,
    caller: Identity,
    name: String,
    end_time: i64,
    now: i64,
)
    requires
        m.valid(),
        m.create_event_error(caller, name@, end_time, now) is None,
    ensures
        m.after_create_event(caller, name, end_time).valid(),
{
    let after = m.after_create_event(caller, name, end_time);
    assert forall|j: int| 0 <= j < after.bets.len() implies #[trigger] after.bet_ok(j) by {
        assert(m.bet_ok(j));
    }
    assert forall|i: int| 0 <= i < after.entries.len() implies #[trigger] after.entry_ok(i) by {
        if i < m.entries.len() {
            assert(m.entry_ok(i));
        } else {
            let event = after.entries[i].event;
            assert forall|j: int| 0 <= j < m.bets.len() implies m.bets[j].event_id
                != event.event_id by {
                assert(m.bet_ok(j));
            }
            lemma_nothing_staked(m.bets, event.event_id, true);
            lemma_nothing_staked(m.bets, event.event_id, false);
            lemma_nothing_paid(m.bets, event);
        }
    }
}

/// Placing a bet keeps the ledger's invariant.
pub proof fn lemma_place_bet_keeps_valid(
    m: MarketView,
    bettor: Wallet,
    event_id: u64,
    outcome: bool,
    amount: u64,
    now: i64,
)
    requires
        m.valid(),
        m.place_bet_error(bettor, event_id, outcome, amount, now) is None,
    ensures
        m.after_place_bet(bettor.owner, event_id, outcome, amount).valid(),
{
    let after = m.after_place_bet(bettor.owner, event_id, outcome, amount);
    let bet = after.bets.last();
    assert(m.entry_ok(event_id - 1));
    assert forall|j: int| 0 <= j < after.bets.len() implies #[trigger] after.bet_ok(j) by {
        if j < m.bets.len() {
            assert(m.bet_ok(j));
        }
    }
    assert forall|i: int| 0 <= i < after.entries.len() implies #[trigger] after.entry_ok(i) by {
        assert(m.entry_ok(i));
        let before = m.entries[i].event;
        let event = after.entries[i].event;
        lemma_sums_after_push(m.bets, bet, event, true);
        lemma_sums_after_push(m.bets, bet, event, false);
        if i == event_id - 1 {
            assert forall|j: int| 0 <= j < m.bets.len() implies !(m.bets[j].event_id
                == before.event_id && m.bets[j].claimed) by {
                assert(m.bet_ok(j));
            }
            lemma_nothing_paid(m.bets, before);
            lemma_nothing_paid(m.bets, event);
        }
    }
}

/// Resolving an event keeps the ledger's invariant.
pub proof fn lemma_resolve_event_keeps_valid(
    m: MarketView,
    caller: Identity,
    event_id: u64,
    outcome: bool,
)
    requires
        m.valid(),
        m.resolve_event_error(caller, event_id) is None,
    ensures
        m.after_resolve_event(event_id, outcome).valid(),
{
    let after = m.after_resolve_event(event_id, outcome);
    assert forall|j: int| 0 <= j < after.bets.len() implies #[trigger] after.bet_ok(j) by {
        assert(m.bet_ok(j));
    }
    assert forall|i: int| 0 <= i < after.entries.len() implies #[trigger] after.entry_ok(i) by {
        assert(m.entry_ok(i));
        if i == event_id - 1 {
            let before = m.entries[i].event;
            assert forall|j: int| 0 <= j < m.bets.len() implies !(m.bets[j].event_id
                == before.event_id && m.bets[j].claimed) by {
                assert(m.bet_ok(j));
            }
            lemma_nothing_paid(m.bets, before);
            lemma_nothing_paid(m.bets, after.entries[i].event);
        }
    }
}

/// Paying a bet keeps the ledger's invariant.
pub proof fn lemma_claim_winnings_keeps_valid(
    m: MarketView,
    bettor: Wallet,
    event_id: u64,
    bet_id: u64,
)
    requires
        m.valid(),
        m.claim_winnings_error(bettor, event_id, bet_id) is None,
    ensures
        m.after_claim_winnings(event_id, bet_id).valid(),
{
    let after = m.after_claim_winnings(event_id, bet_id);
    assert(m.entry_ok(event_id - 1));
    assert(m.bet_ok(bet_id - 1));
    assert forall|j: int| 0 <= j < after.bets.len() implies #[trigger] after.bet_ok(j) by {
        assert(m.bet_ok(j));
    }
    assert forall|i: int| 0 <= i < after.entries.len() implies #[trigger] after.entry_ok(i) by {
        assert(m.entry_ok(i));
        let event = m.entries[i].event;
        lemma_sums_after_update(m.bets, bet_id - 1, m.bet(bet_id).paid(), event, true);
        lemma_sums_after_update(m.bets, bet_id - 1, m.bet(bet_id).paid(), event, false);
    }
}

/// An emergency withdrawal keeps the ledger's invariant.
pub proof fn lemma_emergency_withdraw_keeps_valid(m: MarketView, admin: Wallet, event_id: u64)
    requires
        m.valid(),
        m.emergency_withdraw_error(admin, event_id) is None,
    ensures
        m.after_emergency_withdraw(event_id).valid(),
{
    let after = m.after_emergency_withdraw(event_id);
    assert(m.entry_ok(event_id - 1));
    assert forall|i: int| 0 <= i < after.entries.len() implies #[trigger] after.entry_ok(i) by {
        assert(m.entry_ok(i));
    }
    assert forall|j: int| 0 <= j < after.bets.len() implies #[trigger] after.bet_ok(j) by {
        assert(m.bet_ok(j));
    }
}

/// Whatever the call, and whether it is accepted or refused, it keeps the
/// ledger's invariant.
pub proof fn lemma_step_keeps_valid(m: MarketView, call: Call)
    requires
        m.valid(),
    ensures
        m.step(call).valid(),
{
    if m.refusal(call) is None {
        match call.operation {
            Operation::Initialize { admin } => lemma_initialize_keeps_valid(m, admin),
            Operation::CreateEvent { caller, name, end_time } => lemma_create_event_keeps_valid(
                m,
                caller,
                name,
                end_time,
                call.now,
            ),
            Operation::PlaceBet { bettor, event_id, outcome, amount } => lemma_place_bet_keeps_valid(
                m,
                bettor,
                event_id,
                outcome,
                amount,
                call.now,
            ),
            Operation::ResolveEvent { caller, event_id, outcome } => lemma_resolve_event_keeps_valid(
                m,
                caller,
                event_id,
                outcome,
            ),
            Operation::ClaimWinnings { bettor, event_id, bet_id } => lemma_claim_winnings_keeps_valid(
                m,
                bettor,
                event_id,
                bet_id,
            ),
            Operation::EmergencyWithdraw { admin, event_id } => lemma_emergency_withdraw_keeps_valid(
                m,
                admin,
                event_id,
            ),
        }
    }
}

/// Every sequence of calls keeps the ledger's invariant.
pub proof fn lemma_run_keeps_valid(m: MarketView, calls: Seq<Call>)
    requires
        m.valid(),
    ensures
        m.run(calls).valid(),
    decreases calls.len(),
{
    if calls.len() > 0 {
        lemma_run_keeps_valid(m, calls.drop_last());
        lemma_step_keeps_valid(m.run(calls.drop_last()), calls.last());
    }
}

/// Conservation in any ledger that is in order: the escrow of an event
/// holds exactly the stakes of all bets placed on the event, less the
/// payouts of those of them that were claimed, less what was taken by
/// emergency withdrawals; and the event's two totals are those stakes, side
/// by side.
pub proof fn lemma_escrow_is_conserved(m: MarketView, event_id: u64)
    requires
        m.valid(),
        m.has_event(event_id),
    ensures
        ({
            let entry = m.entry(event_id);
            &&& entry.event.total_yes_amount == staked(m.bets, event_id, true)
            &&& entry.event.total_no_amount == staked(m.bets, event_id, false)
            &&& entry.claimed == paid_out(m.bets, entry.event)
            &&& entry.escrow.balance == entry.event.total_yes_amount
                + entry.event.total_no_amount - entry.claimed - entry.withdrawn
            &&& entry.escrow.balance == staked(m.bets, event_id, true) + staked(
                m.bets,
                event_id,
                false,
            ) - paid_out(m.bets, entry.event) - entry.withdrawn
        }),
{
    assert(m.entry_ok(event_id - 1));
}

/// Conservation. After any sequence of calls on a market that started
/// empty, whichever of them were accepted and whichever refused, the escrow
/// of every event holds exactly what was staked on the event's two sides,
/// less what was paid to winners, less what was taken by emergency
/// withdrawals.
pub proof fn lemma_conservation(calls: Seq<Call>, event_id: u64)
    requires
        MarketView::empty().run(calls).has_event(event_id),
    ensures
        ({
            let m = MarketView::empty().run(calls);
            let entry = m.entry(event_id);
            &&& m.valid()
            &&& entry.escrow.balance == entry.event.total_yes_amount
                + entry.event.total_no_amount - entry.claimed - entry.withdrawn
            &&& entry.escrow.balance == staked(m.bets, event_id, true) + staked(
                m.bets,
                event_id,
                false,
            ) - paid_out(m.bets, entry.event) - entry.withdrawn
        }),
{
    lemma_run_keeps_valid(MarketView::empty(), calls);
    lemma_escrow_is_conserved(MarketView::empty().run(calls), event_id);
}

/// In a ledger that is in order, a bet on the winning side of its event is
/// never worth more than the event's whole pool: its stake is part of the
/// winning side's total.
pub proof fn lemma_payout_within_pool(m: MarketView, event_id: u64, bet_id: u64)
    requires
        m.valid(),
        m.has_event(event_id),
        m.has_bet(bet_id),
        m.bet(bet_id).event_id == event_id,
        m.bet(bet_id).outcome == m.entry(event_id).event.outcome,
    ensures
        m.entry(event_id).event.side_amount(m.entry(event_id).event.outcome) > 0,
        m.claim_amount(event_id, bet_id) <= m.entry(event_id).event.total_pool(),
{
    let event = m.entry(event_id).event;
    let bet = m.bet(bet_id);
    assert(m.entry_ok(event_id - 1));
    assert(m.bet_ok(bet_id - 1));
    lemma_stake_is_part(m.bets, bet_id - 1);
    lemma_share_within_pool(
        bet.amount as nat,
        event.total_pool(),
        event.side_amount(event.outcome),
    );
}

/// One call never takes a record away, never lowers a counter, and never
/// changes who administers the market.
pub proof fn lemma_step_grows(m: MarketView, call: Call)
    requires
        m.valid(),
    ensures
        m.step(call).event_counter() >= m.event_counter(),
        m.step(call).bet_counter() >= m.bet_counter(),
        m.step(call).entries.len() >= m.entries.len(),
        m.step(call).bets.len() >= m.bets.len(),
        m.program_state is Some ==> m.step(call).program_state is Some && m.step(
            call,
        ).program_state->Some_0.admin == m.program_state->Some_0.admin,
{
}

/// Monotonic counters. Over any sequence of calls the ledger stays in
/// order, neither counter ever goes down, no record is taken away, and the
/// administrator stays who it was.
pub proof fn lemma_counters_monotonic(m: MarketView, calls: Seq<Call>)
    requires
        m.valid(),
    ensures
        m.run(calls).valid(),
        m.run(calls).event_counter() >= m.event_counter(),
        m.run(calls).bet_counter() >= m.bet_counter(),
        m.run(calls).entries.len() >= m.entries.len(),
        m.run(calls).bets.len() >= m.bets.len(),
        m.program_state is Some ==> m.run(calls).program_state is Some && m.run(
            calls,
        ).program_state->Some_0.admin == m.program_state->Some_0.admin,
    decreases calls.len(),
{
    if calls.len() > 0 {
        lemma_counters_monotonic(m, calls.drop_last());
        lemma_step_grows(m.run(calls.drop_last()), calls.last());
        lemma_step_keeps_valid(m.run(calls.drop_last()), calls.last());
    }
}

/// In a ledger that is in order, every id from 1 to the counter names
/// exactly one record, which carries that id: two different ids never name
/// the same event or the same bet.
pub proof fn lemma_ids_are_unique(m: MarketView, id: u64, other: u64)
    requires
        m.valid(),
        id != other,
    ensures
        m.has_event(id) <==> 1 <= id <= m.event_counter(),
        m.has_bet(id) <==> 1 <= id <= m.bet_counter(),
        m.has_event(id) ==> m.entry(id).event.event_id == id,
        m.has_bet(id) ==> m.bet(id).bet_id == id,
        m.has_event(id) && m.has_event(other) ==> m.entry(id).event.event_id != m.entry(
            other,
        ).event.event_id,
        m.has_bet(id) && m.has_bet(other) ==> m.bet(id).bet_id != m.bet(other).bet_id,
{
    if m.has_event(id) {
        assert(m.entry_ok(id - 1));
    }
    if m.has_event(other) {
        assert(m.entry_ok(other - 1));
    }
    if m.has_bet(id) {
        assert(m.bet_ok(id - 1));
    }
    if m.has_bet(other) {
        assert(m.bet_ok(other - 1));
    }
}

/// The id that a successful `create_event` or `place_bet` issues is one that
/// no record carried before the call.
pub proof fn lemma_issued_id_is_new(m: MarketView, call: Call)
    requires
        m.valid(),
        m.refusal(call) is None,
    ensures
        call.operation is CreateEvent ==> {
            let issued = (m.event_counter() + 1) as u64;
            &&& !m.has_event(issued)
            &&& m.step(call).has_event(issued)
            &&& m.step(call).event_counter() == issued
            &&& m.step(call).entry(issued).event.event_id == issued
        },
        call.operation is PlaceBet ==> {
            let issued = (m.bet_counter() + 1) as u64;
            &&& !m.has_bet(issued)
            &&& m.step(call).has_bet(issued)
            &&& m.step(call).bet_counter() == issued
            &&& m.step(call).bet(issued).bet_id == issued
        },
{
}

/// One call leaves a resolved event exactly as it is.
pub proof fn lemma_step_keeps_resolved(m: MarketView, call: Call, event_id: u64)
    requires
        m.valid(),
        m.has_event(event_id),
        m.entry(event_id).event.resolved,
    ensures
        m.step(call).has_event(event_id),
        m.step(call).entry(event_id).event == m.entry(event_id).event,
{
    assert(m.entry_ok(event_id - 1));
}

/// Once an event is resolved, no sequence of calls changes its record: not
/// its outcome, not its totals.
pub proof fn lemma_run_keeps_resolved(m: MarketView, calls: Seq<Call>, event_id: u64)
    requires
        m.valid(),
        m.has_event(event_id),
        m.entry(event_id).event.resolved,
    ensures
        m.run(calls).has_event(event_id),
        m.run(calls).entry(event_id).event == m.entry(event_id).event,
    decreases calls.len(),
{
    if calls.len() > 0 {
        lemma_run_keeps_resolved(m, calls.drop_last(), event_id);
        lemma_run_keeps_valid(m, calls.drop_last());
        lemma_step_keeps_resolved(m.run(calls.drop_last()), calls.last(), event_id);
    }
}

/// One call changes nothing of an existing bet but its `claimed` mark, and
/// that only from unset to set.
pub proof fn lemma_step_keeps_bet(m: MarketView, call: Call, bet_id: u64)
    requires
        m.valid(),
        m.has_bet(bet_id),
    ensures
        m.step(call).has_bet(bet_id),
        m.step(call).bet(bet_id) == m.bet(bet_id) || (!m.bet(bet_id).claimed && m.step(call).bet(
            bet_id,
        ) == m.bet(bet_id).paid()),
{
    assert(m.bet_ok(bet_id - 1));
}

/// Over any sequence of calls a bet keeps its id, event, bettor, side and
/// amount, and once it is marked as claimed it stays so.
pub proof fn lemma_run_keeps_bet(m: MarketView, calls: Seq<Call>, bet_id: u64)
    requires
        m.valid(),
        m.has_bet(bet_id),
    ensures
        m.run(calls).has_bet(bet_id),
        m.run(calls).bet(bet_id) == m.bet(bet_id) || (!m.bet(bet_id).claimed && m.run(calls).bet(
            bet_id,
        ) == m.bet(bet_id).paid()),
    decreases calls.len(),
{
    if calls.len() > 0 {
        lemma_run_keeps_bet(m, calls.drop_last(), bet_id);
        lemma_run_keeps_valid(m, calls.drop_last());
        lemma_step_keeps_bet(m.run(calls.drop_last()), calls.last(), bet_id);
    }
}

/// A claim is paid once. After a successful claim of a bet, and after
/// whatever calls follow it, every further claim of that bet, by anyone, is
/// refused with `AlreadyClaimed`, and being refused it leaves the ledger, and
/// so the escrow balance, as it was.
pub proof fn lemma_claim_pays_once(
    m: MarketView,
    bettor: Wallet,
    event_id: u64,
    bet_id: u64,
    later: Seq<Call>,
    again: Call,
)
    requires
        m.valid(),
        m.claim_winnings_error(bettor, event_id, bet_id) is None,
        again.operation matches Operation::ClaimWinnings { event_id: e, bet_id: b, .. } && e
            == event_id && b == bet_id,
    ensures
        ({
            let paid = m.after_claim_winnings(event_id, bet_id);
            let state = paid.run(later);
            &&& paid.entry(event_id).escrow.balance == m.entry(event_id).escrow.balance
                - m.claim_amount(event_id, bet_id)
            &&& state.refusal(again) == Some(ErrorCode::AlreadyClaimed)
            &&& state.step(again) == state
        }),
{
    let paid = m.after_claim_winnings(event_id, bet_id);
    lemma_claim_winnings_keeps_valid(m, bettor, event_id, bet_id);
    lemma_run_keeps_valid(paid, later);
    lemma_run_keeps_resolved(paid, later, event_id);
    lemma_run_keeps_bet(paid, later, bet_id);
    let state = paid.run(later);
    assert(state.entry_ok(event_id - 1));
    assert(state.bet_ok(bet_id - 1));
}

/// No late bets. A bet on an existing event at or after the event's
/// deadline is always refused with `BettingClosed`, whether or not the event
/// is resolved, whoever places it and whatever the stake.
pub proof fn lemma_late_bet_refused(
    m: MarketView,
    bettor: Wallet,
    event_id: u64,
    outcome: bool,
    amount: u64,
    now: i64,
)
    requires
        m.valid(),
        m.has_event(event_id),
        now >= m.entry(event_id).event.end_time,
    ensures
        m.place_bet_error(bettor, event_id, outcome, amount, now) == Some(ErrorCode::BettingClosed),
{
    assert(m.entry_ok(event_id - 1));
}

/// Being refused, a late bet changes nothing: the ledger after the call is
/// the ledger before it, so no bet is recorded and every escrow holds what it
/// held.
pub proof fn lemma_late_bet_changes_nothing(
    m: MarketView,
    bettor: Wallet,
    event_id: u64,
    outcome: bool,
    amount: u64,
    now: i64,
)
    requires
        m.valid(),
        m.has_event(event_id),
        now >= m.entry(event_id).event.end_time,
    ensures
        m.step(Call { operation: Operation::PlaceBet { bettor, event_id, outcome, amount }, now })
            == m,
{
    lemma_late_bet_refused(m, bettor, event_id, outcome, amount, now);
}

/// Before the deadline, a bet on a resolved event is refused with
/// `EventAlreadyResolved`.
pub proof fn lemma_early_bet_on_resolved_event_refused(
    m: MarketView,
    bettor: Wallet,
    event_id: u64,
    outcome: bool,
    amount: u64,
    now: i64,
)
    requires
        m.valid(),
        m.has_event(event_id),
        m.entry(event_id).event.resolved,
        now < m.entry(event_id).event.end_time,
    ensures
        m.place_bet_error(bettor, event_id, outcome, amount, now) == Some(
            ErrorCode::EventAlreadyResolved,
        ),
{
    assert(m.entry_ok(event_id - 1));
}

/// A bet is accepted only strictly before the deadline of its event.
pub proof fn lemma_accepted_bet_is_early(
    m: MarketView,
    bettor: Wallet,
    event_id: u64,
    outcome: bool,
    amount: u64,
    now: i64,
)
    requires
        m.place_bet_error(bettor, event_id, outcome, amount, now) is None,
    ensures
        m.has_event(event_id),
        !m.entry(event_id).event.resolved,
        now < m.entry(event_id).event.end_time,
        amount > 0,
{
}

/// Resolution is one-way. After an event was resolved, and after whatever
/// calls follow, the event is still resolved with the outcome first given,
/// and every further attempt to resolve it is refused: with
/// `EventAlreadyResolved` when the administrator makes it, and with
/// `Unauthorized` when anyone else does.
pub proof fn lemma_resolution_is_final(
    m: MarketView,
    caller: Identity,
    event_id: u64,
    outcome: bool,
    later: Seq<Call>,
    again: Identity,
)
    requires
        m.valid(),
        m.resolve_event_error(caller, event_id) is None,
    ensures
        ({
            let state = m.after_resolve_event(event_id, outcome).run(later);
            &&& state.has_event(event_id)
            &&& state.entry(event_id).event == m.entry(event_id).event.resolved_as(outcome)
            &&& state.resolve_event_error(again, event_id) == Some(
                if again == caller {
                    ErrorCode::EventAlreadyResolved
                } else {
                    ErrorCode::Unauthorized
                },
            )
        }),
{
    let resolved = m.after_resolve_event(event_id, outcome);
    lemma_resolve_event_keeps_valid(m, caller, event_id, outcome);
    lemma_run_keeps_resolved(resolved, later, event_id);
    lemma_counters_monotonic(resolved, later);
    let state = resolved.run(later);
    assert(state.entry_ok(event_id - 1));
}

} // verus!
