use crate::escrow::payout;
use crate::records::{Bet, Event};
use vstd::prelude::*;

verus! {

/// The sum of a sequence of amounts.
pub open spec fn total(values: Seq<nat>) -> nat
    decreases values.len(),
{
    if values.len() == 0 {
        0
    } else {
        total(values.drop_last()) + values.last()
    }
}

/// What a bet adds to the amount staked on one side of an event: its stake
/// if it is a bet on that event and side, nothing otherwise.
pub open spec fn stake_of(bet: Bet, event_id: u64, outcome: bool) -> nat {
    if bet.event_id == event_id && bet.outcome == outcome {
        bet.amount as nat
    } else {
        0
    }
}

/// What a bet adds to the number of bets on one side of an event.
pub open spec fn count_of(bet: Bet, event_id: u64, outcome: bool) -> nat {
    if bet.event_id == event_id && bet.outcome == outcome {
        1
    } else {
        0
    }
}

/// What a bet has taken out of the escrow of an event: its payout if it is a
/// bet on that event and was claimed, nothing otherwise.
pub open spec fn paid_of(bet: Bet, event: Event) -> nat {
    if bet.event_id == event.event_id && bet.claimed {
        payout(bet, event)
    } else {
        0
    }
}

/// The stakes of all bets on one side of an event, added up.
pub open spec fn staked(bets: Seq<Bet>, event_id: u64, outcome: bool) -> nat {
    total(bets.map_values(|bet: Bet| stake_of(bet, event_id, outcome)))
}

/// The number of bets on one side of an event.
pub open spec fn placed(bets: Seq<Bet>, event_id: u64, outcome: bool) -> nat {
    total(bets.map_values(|bet: Bet| count_of(bet, event_id, outcome)))
}

/// The payouts of all claimed bets on an event, added up.
pub open spec fn paid_out(bets: Seq<Bet>, event: Event) -> nat {
    total(bets.map_values(|bet: Bet| paid_of(bet, event)))
}

/// Appending an amount adds it to the sum.
pub proof fn lemma_total_push(values: Seq<nat>, value: nat)
    ensures
        total(values.push(value)) == total(values) + value,
{
    assert(values.push(value).drop_last() =~= values);
}

/// Replacing one amount changes the sum by the difference.
pub proof fn lemma_total_update(values: Seq<nat>, at: int, value: nat)
    requires
        0 <= at < values.len(),
    ensures
        total(values.update(at, value)) == total(values) - values[at] + value,
    decreases values.len(),
{
    if at == values.len() - 1 {
        assert(values.update(at, value).drop_last() =~= values.drop_last());
    } else {
        lemma_total_update(values.drop_last(), at, value);
        assert(values.update(at, value).drop_last() =~= values.drop_last().update(at, value));
    }
}

/// A sum of zeros is zero.
pub proof fn lemma_total_zero(values: Seq<nat>)
    requires
        forall|i: int| 0 <= i < values.len() ==> values[i] == 0,
    ensures
        total(values) == 0,
    decreases values.len(),
{
    if values.len() > 0 {
        lemma_total_zero(values.drop_last());
    }
}

/// No amount is larger than the sum it is part of.
pub proof fn lemma_total_bounds_each(values: Seq<nat>, at: int)
    requires
        0 <= at < values.len(),
    ensures
        values[at] <= total(values),
    decreases values.len(),
{
    if at < values.len() - 1 {
        lemma_total_bounds_each(values.drop_last(), at);
    }
}

/// A new bet adds its stake and counts once on its own event and side, and
/// changes nothing elsewhere; not being claimed, it has been paid nothing.
pub proof fn lemma_sums_after_push(bets: Seq<Bet>, bet: Bet, event: Event, outcome: bool)
    ensures
        staked(bets.push(bet), event.event_id, outcome) == staked(bets, event.event_id, outcome)
            + stake_of(bet, event.event_id, outcome),
        placed(bets.push(bet), event.event_id, outcome) == placed(bets, event.event_id, outcome)
            + count_of(bet, event.event_id, outcome),
        paid_out(bets.push(bet), event) == paid_out(bets, event) + paid_of(bet, event),
{
    let event_id = event.event_id;
    let stake = |b: Bet| stake_of(b, event_id, outcome);
    let count = |b: Bet| count_of(b, event_id, outcome);
    let paid = |b: Bet| paid_of(b, event);
    assert(bets.push(bet).map_values(stake) =~= bets.map_values(stake).push(stake(bet)));
    assert(bets.push(bet).map_values(count) =~= bets.map_values(count).push(count(bet)));
    assert(bets.push(bet).map_values(paid) =~= bets.map_values(paid).push(paid(bet)));
    lemma_total_push(bets.map_values(stake), stake(bet));
    lemma_total_push(bets.map_values(count), count(bet));
    lemma_total_push(bets.map_values(paid), paid(bet));
}

/// Replacing a bet changes each sum by the difference of what the old and
/// the new bet add to it.
pub proof fn lemma_sums_after_update(
    bets: Seq<Bet>,
    at: int,
    bet: Bet,
    event: Event,
    outcome: bool,
)
    requires
        0 <= at < bets.len(),
    ensures
        staked(bets.update(at, bet), event.event_id, outcome) == staked(
            bets,
            event.event_id,
            outcome,
        ) - stake_of(bets[at], event.event_id, outcome) + stake_of(bet, event.event_id, outcome),
        placed(bets.update(at, bet), event.event_id, outcome) == placed(
            bets,
            event.event_id,
            outcome,
        ) - count_of(bets[at], event.event_id, outcome) + count_of(bet, event.event_id, outcome),
        paid_out(bets.update(at, bet), event) == paid_out(bets, event) - paid_of(bets[at], event)
            + paid_of(bet, event),
{
    let event_id = event.event_id;
    let stake = |b: Bet| stake_of(b, event_id, outcome);
    let count = |b: Bet| count_of(b, event_id, outcome);
    let paid = |b: Bet| paid_of(b, event);
    assert(bets.update(at, bet).map_values(stake) =~= bets.map_values(stake).update(
        at,
        stake(bet),
    ));
    assert(bets.update(at, bet).map_values(count) =~= bets.map_values(count).update(
        at,
        count(bet),
    ));
    assert(bets.update(at, bet).map_values(paid) =~= bets.map_values(paid).update(at, paid(bet)));
    lemma_total_update(bets.map_values(stake), at, stake(bet));
    lemma_total_update(bets.map_values(count), at, count(bet));
    lemma_total_update(bets.map_values(paid), at, paid(bet));
}

/// Where no bet is on the event, nothing is staked on it and no bet counts.
pub proof fn lemma_nothing_staked(bets: Seq<Bet>, event_id: u64, outcome: bool)
    requires
        forall|j: int| 0 <= j < bets.len() ==> bets[j].event_id != event_id,
    ensures
        staked(bets, event_id, outcome) == 0,
        placed(bets, event_id, outcome) == 0,
{
    lemma_total_zero(bets.map_values(|bet: Bet| stake_of(bet, event_id, outcome)));
    lemma_total_zero(bets.map_values(|bet: Bet| count_of(bet, event_id, outcome)));
}

/// Where no bet on the event is claimed, nothing has been paid out of it.
pub proof fn lemma_nothing_paid(bets: Seq<Bet>, event: Event)
    requires
        forall|j: int|
            0 <= j < bets.len() ==> !(bets[j].event_id == event.event_id && bets[j].claimed),
    ensures
        paid_out(bets, event) == 0,
{
    lemma_total_zero(bets.map_values(|bet: Bet| paid_of(bet, event)));
}

/// The stake of a bet is part of what is staked on its event and side.
pub proof fn lemma_stake_is_part(bets: Seq<Bet>, at: int)
    requires
        0 <= at < bets.len(),
    ensures
        bets[at].amount <= staked(bets, bets[at].event_id, bets[at].outcome),
{
    let event_id = bets[at].event_id;
    let outcome = bets[at].outcome;
    lemma_total_bounds_each(bets.map_values(|bet: Bet| stake_of(bet, event_id, outcome)), at);
}

} // verus!
