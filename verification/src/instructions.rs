use crate::error::ErrorCode;
use crate::escrow::{compute_payout, payout, Escrow, Wallet};
use crate::identity::{require_identity, Identity};
use crate::records::{name_len, Bet, Event, ProgramState, MAX_NAME_LEN};
use vstd::prelude::*;

verus! {

/// The records that `initialize` touches: the place of the singleton record,
/// empty until the market is set up.
#[derive(Clone, Copy, Debug, PartialEq, Eq)]
pub struct Initialize {
    pub program_state: Option<ProgramState>,
}

/// The records that `create_event` touches: the singleton record, the place
/// of the event to be created, and the caller.
#[derive(Clone, Debug, PartialEq, Eq)]
pub struct CreateEvent {
    pub program_state: ProgramState,
    pub event: Option<Event>,
    pub admin: Identity,
}

/// The records that `place_bet` touches: the singleton record, the event and
/// its escrow, the place of the bet to be created, and the caller's funds.
#[derive(Clone, Debug, PartialEq, Eq)]
pub struct PlaceBet {
    pub program_state: ProgramState,
    pub event: Event,
    pub bet: Option<Bet>,
    pub event_escrow: Escrow,
    pub bettor: Wallet,
}

/// The records that `resolve_event` touches: the singleton record, the
/// event, and the caller.
#[derive(Clone, Debug, PartialEq, Eq)]
pub struct ResolveEvent {
    pub program_state: ProgramState,
    pub event: Event,
    pub admin: Identity,
}

/// The records that `claim_winnings` touches: the event and its escrow, the
/// bet, and the caller's funds.
#[derive(Clone, Debug, PartialEq, Eq)]
pub struct ClaimWinnings {
    pub event: Event,
    pub bet: Bet,
    pub event_escrow: Escrow,
    pub bettor: Wallet,
}

/// The records that `emergency_withdraw` touches: the singleton record, the
/// event's escrow, and the caller's funds.
#[derive(Clone, Copy, Debug, PartialEq, Eq)]
pub struct EmergencyWithdraw {
    pub program_state: ProgramState,
    pub event_escrow: Escrow,
    pub admin: Wallet,
}

/// Why `create_event` refuses, if it does: the first of its conditions that
/// fails, in the order in which it tests them.
pub open spec fn create_event_error(
    ctx: CreateEvent,
    name: Seq<char>,
    end_time: i64,
    now: i64,
) -> Option<ErrorCode> {
    if ctx.admin != ctx.program_state.admin {
        Some(ErrorCode::Unauthorized)
    } else if end_time <= now {
        Some(ErrorCode::InvalidEndTime)
    } else if name_len(name) > MAX_NAME_LEN {
        Some(ErrorCode::NameTooLong)
    } else if ctx.program_state.event_counter == u64::MAX {
        Some(ErrorCode::CounterOverflow)
    } else if ctx.event is Some {
        Some(ErrorCode::AlreadyExists)
    } else {
        None
    }
}

/// Why `place_bet` refuses, if it does: the first of its conditions that
/// fails, in the order in which it tests them. The deadline is tested before
/// the resolution, so that a bet at or after the deadline is refused with
/// `BettingClosed` whether or not the event is resolved.
pub open spec fn place_bet_error(
    ctx: PlaceBet,
    event_id: u64,
    outcome: bool,
    amount: u64,
    now: i64,
) -> Option<ErrorCode> {
    if event_id > ctx.program_state.event_counter {
        Some(ErrorCode::EventDoesNotExist)
    } else if ctx.event.event_id != event_id || ctx.event_escrow.event_id != event_id {
        Some(ErrorCode::NotFound)
    } else if now >= ctx.event.end_time {
        Some(ErrorCode::BettingClosed)
    } else if ctx.event.resolved {
        Some(ErrorCode::EventAlreadyResolved)
    } else if amount == 0 {
        Some(ErrorCode::InvalidAmount)
    } else if ctx.program_state.bet_counter == u64::MAX {
        Some(ErrorCode::CounterOverflow)
    } else if ctx.bet is Some {
        Some(ErrorCode::AlreadyExists)
    } else if !ctx.event.has_room_for(outcome, amount) {
        Some(ErrorCode::CounterOverflow)
    } else if ctx.bettor.balance < amount {
        Some(ErrorCode::InsufficientFunds)
    } else if ctx.event_escrow.balance + amount > u64::MAX {
        Some(ErrorCode::ArithmeticOverflow)
    } else {
        None
    }
}

/// Why `resolve_event` refuses, if it does.
pub open spec fn resolve_event_error(ctx: ResolveEvent, event_id: u64) -> Option<ErrorCode> {
    if ctx.admin != ctx.program_state.admin {
        Some(ErrorCode::Unauthorized)
    } else if ctx.event.event_id != event_id {
        Some(ErrorCode::NotFound)
    } else if ctx.event.resolved {
        Some(ErrorCode::EventAlreadyResolved)
    } else {
        None
    }
}

/// Why `claim_winnings` refuses, if it does: the first of its conditions
/// that fails, in the order in which it tests them.
pub open spec fn claim_winnings_error(ctx: ClaimWinnings, event_id: u64, bet_id: u64) -> Option<
    ErrorCode,
> {
    if ctx.event.event_id != event_id || ctx.event_escrow.event_id != event_id || ctx.bet.bet_id
        != bet_id || ctx.bet.event_id != event_id {
        Some(ErrorCode::NotFound)
    } else if !ctx.event.resolved {
        Some(ErrorCode::EventNotResolved)
    } else if ctx.bet.claimed {
        Some(ErrorCode::AlreadyClaimed)
    } else if ctx.bettor.owner != ctx.bet.bettor {
        Some(ErrorCode::Unauthorized)
    } else if ctx.bet.outcome != ctx.event.outcome {
        Some(ErrorCode::LosingBet)
    } else if ctx.event.total_pool() > u64::MAX || payout(ctx.bet, ctx.event) > u64::MAX {
        Some(ErrorCode::ArithmeticOverflow)
    } else if ctx.event_escrow.balance < payout(ctx.bet, ctx.event) {
        Some(ErrorCode::InsufficientEscrowBalance)
    } else if ctx.bettor.balance + payout(ctx.bet, ctx.event) > u64::MAX {
        Some(ErrorCode::ArithmeticOverflow)
    } else {
        None
    }
}

/// Why `emergency_withdraw` refuses, if it does.
pub open spec fn emergency_withdraw_error(ctx: EmergencyWithdraw, event_id: u64) -> Option<
    ErrorCode,
> {
    if ctx.admin.owner != ctx.program_state.admin {
        Some(ErrorCode::Unauthorized)
    } else if ctx.event_escrow.event_id != event_id {
        Some(ErrorCode::NotFound)
    } else if ctx.event_escrow.balance == 0 {
        Some(ErrorCode::NoBalanceToWithdraw)
    } else if ctx.admin.balance + ctx.event_escrow.balance > u64::MAX {
        Some(ErrorCode::ArithmeticOverflow)
    } else {
        None
    }
}

/// Sets the market up: creates the singleton record with `admin` as its
/// administrator and both counters at zero. Fails with `AlreadyInitialized`
/// when the record is there already, and then leaves it as it is.
pub fn initialize(ctx: &mut Initialize, admin: Identity) -> (res: Result<(), ErrorCode>)
    ensures
        match res {
            Ok(()) => {
                &&& old(ctx).program_state is None
                &&& final(ctx).program_state == Some(ProgramState::fresh(admin))
            },
            Err(e) => {
                &&& e == ErrorCode::AlreadyInitialized
                &&& old(ctx).program_state is Some
                &&& *final(ctx) == *old(ctx)
            },
        },
{
    if ctx.program_state.is_some() {
        return Err(ErrorCode::AlreadyInitialized);
    }
    ctx.program_state = Some(ProgramState { admin, event_counter: 0, bet_counter: 0 });
    Ok(())
}

/// Creates an event, which only the administrator may do. On success the
/// next event id is issued and returned, and the new event stands in
/// `ctx.event`: open, with nothing staked. On failure nothing changes.
pub fn create_event(ctx: &mut CreateEvent, name: String, end_time: i64, now: i64) -> (res: Result<
    u64,
    ErrorCode,
>)
    ensures
        match res {
            Ok(event_id) => {
                &&& create_event_error(*old(ctx), name@, end_time, now) is None
                &&& event_id == old(ctx).program_state.event_counter + 1
                &&& final(ctx).program_state == old(ctx).program_state.with_event_issued()
                &&& final(ctx).event == Some(Event::opened(event_id, name, end_time, old(ctx).admin))
                &&& final(ctx).admin == old(ctx).admin
            },
            Err(e) => {
                &&& create_event_error(*old(ctx), name@, end_time, now) == Some(e)
                &&& *final(ctx) == *old(ctx)
            },
        },
{
    require_identity(&ctx.admin, &ctx.program_state.admin)?;
    if end_time <= now {
        return Err(ErrorCode::InvalidEndTime);
    }
    if name.as_str().as_bytes().len() > MAX_NAME_LEN {
        return Err(ErrorCode::NameTooLong);
    }
    let event_id = match ctx.program_state.event_counter.checked_add(1) {
        Some(event_id) => event_id,
        None => {
            return Err(ErrorCode::CounterOverflow);
        },
    };
    if ctx.event.is_some() {
        return Err(ErrorCode::AlreadyExists);
    }
    ctx.program_state.event_counter = event_id;
    ctx.event = Some(
        Event {
            event_id,
            name,
            end_time,
            resolved: false,
            outcome: false,
            total_yes_bets: 0,
            total_no_bets: 0,
            total_yes_amount: 0,
            total_no_amount: 0,
            creator: ctx.admin,
        },
    );
    Ok(event_id)
}

/// No late bets. Given the records of an event that exists, `place_bet` at
/// or after the event's deadline is refused with `BettingClosed`, whether or
/// not the event is resolved, whoever places the bet and whatever the stake.
pub proof fn lemma_late_bet_is_closed(
    ctx: PlaceBet,
    event_id: u64,
    outcome: bool,
    amount: u64,
    now: i64,
)
    requires
        event_id <= ctx.program_state.event_counter,
        ctx.event.event_id == event_id,
        ctx.event_escrow.event_id == event_id,
        now >= ctx.event.end_time,
    ensures
        place_bet_error(ctx, event_id, outcome, amount, now) == Some(ErrorCode::BettingClosed),
{
}

/// Places a bet of `amount` on `outcome`. On success the next bet id is
/// issued, the new bet stands in `ctx.bet`, the event's count and amount for
/// that side have grown, and `amount` has moved from the bettor's funds into
/// the escrow, all together. On failure nothing changes.
pub fn place_bet(ctx: &mut PlaceBet, event_id: u64, outcome: bool, amount: u64, now: i64) -> (res:
    Result<(), ErrorCode>)
    ensures
        match res {
            Ok(()) => {
                &&& place_bet_error(*old(ctx), event_id, outcome, amount, now) is None
                &&& final(ctx).program_state == old(ctx).program_state.with_bet_issued()
                &&& final(ctx).event == old(ctx).event.with_bet(outcome, amount)
                &&& final(ctx).bet == Some(
                    Bet::placed(
                        final(ctx).program_state.bet_counter,
                        event_id,
                        old(ctx).bettor.owner,
                        outcome,
                        amount,
                    ),
                )
                &&& final(ctx).event_escrow == (Escrow {
                    balance: (old(ctx).event_escrow.balance + amount) as u64,
                    ..old(ctx).event_escrow
                })
                &&& final(ctx).bettor == (Wallet {
                    balance: (old(ctx).bettor.balance - amount) as u64,
                    ..old(ctx).bettor
                })
            },
            Err(e) => {
                &&& place_bet_error(*old(ctx), event_id, outcome, amount, now) == Some(e)
                &&& *final(ctx) == *old(ctx)
            },
        },
{
    if event_id > ctx.program_state.event_counter {
        return Err(ErrorCode::EventDoesNotExist);
    }
    if ctx.event.event_id != event_id || ctx.event_escrow.event_id != event_id {
        return Err(ErrorCode::NotFound);
    }
    if now >= ctx.event.end_time {
        return Err(ErrorCode::BettingClosed);
    }
    if ctx.event.resolved {
        return Err(ErrorCode::EventAlreadyResolved);
    }
    if amount == 0 {
        return Err(ErrorCode::InvalidAmount);
    }
    let bet_id = match ctx.program_state.bet_counter.checked_add(1) {
        Some(bet_id) => bet_id,
        None => {
            return Err(ErrorCode::CounterOverflow);
        },
    };
    if ctx.bet.is_some() {
        return Err(ErrorCode::AlreadyExists);
    }
    let side_bets = if outcome {
        ctx.event.total_yes_bets
    } else {
        ctx.event.total_no_bets
    };
    let side_amount = if outcome {
        ctx.event.total_yes_amount
    } else {
        ctx.event.total_no_amount
    };
    let new_bets = match side_bets.checked_add(1) {
        Some(new_bets) => new_bets,
        None => {
            return Err(ErrorCode::CounterOverflow);
        },
    };
    let new_amount = match side_amount.checked_add(amount) {
        Some(new_amount) => new_amount,
        None => {
            return Err(ErrorCode::CounterOverflow);
        },
    };
    ctx.event_escrow.deposit(&mut ctx.bettor, amount)?;
    ctx.program_state.bet_counter = bet_id;
    ctx.bet = Some(
        Bet { bet_id, event_id, bettor: ctx.bettor.owner, outcome, amount, claimed: false },
    );
    if outcome {
        ctx.event.total_yes_bets = new_bets;
        ctx.event.total_yes_amount = new_amount;
    } else {
        ctx.event.total_no_bets = new_bets;
        ctx.event.total_no_amount = new_amount;
    }
    Ok(())
}

/// Fixes the outcome of an event, which only the administrator may do, and
/// only once. No funds move. On failure nothing changes.
pub fn resolve_event(ctx: &mut ResolveEvent, event_id: u64, outcome: bool) -> (res: Result<
    (),
    ErrorCode,
>)
    ensures
        match res {
            Ok(()) => {
                &&& resolve_event_error(*old(ctx), event_id) is None
                &&& final(ctx).event == old(ctx).event.resolved_as(outcome)
                &&& final(ctx).program_state == old(ctx).program_state
                &&& final(ctx).admin == old(ctx).admin
            },
            Err(e) => {
                &&& resolve_event_error(*old(ctx), event_id) == Some(e)
                &&& *final(ctx) == *old(ctx)
            },
        },
{
    require_identity(&ctx.admin, &ctx.program_state.admin)?;
    if ctx.event.event_id != event_id {
        return Err(ErrorCode::NotFound);
    }
    if ctx.event.resolved {
        return Err(ErrorCode::EventAlreadyResolved);
    }
    ctx.event.resolved = true;
    ctx.event.outcome = outcome;
    Ok(())
}

/// Pays a winning bet: moves the bet's share of the pool from the escrow to
/// the bettor and marks the bet as paid, together. On failure nothing
/// changes; a bet on the losing side is refused, not paid zero.
pub fn claim_winnings(ctx: &mut ClaimWinnings, event_id: u64, bet_id: u64) -> (res: Result<
    (),
    ErrorCode,
>)
    ensures
        match res {
            Ok(()) => {
                &&& claim_winnings_error(*old(ctx), event_id, bet_id) is None
                &&& final(ctx).event == old(ctx).event
                &&& final(ctx).bet == old(ctx).bet.paid()
                &&& final(ctx).event_escrow == (Escrow {
                    balance: (old(ctx).event_escrow.balance - payout(old(ctx).bet, old(ctx).event)) as u64,
                    ..old(ctx).event_escrow
                })
                &&& final(ctx).bettor == (Wallet {
                    balance: (old(ctx).bettor.balance + payout(old(ctx).bet, old(ctx).event)) as u64,
                    ..old(ctx).bettor
                })
            },
            Err(e) => {
                &&& claim_winnings_error(*old(ctx), event_id, bet_id) == Some(e)
                &&& *final(ctx) == *old(ctx)
            },
        },
{
    if ctx.event.event_id != event_id || ctx.event_escrow.event_id != event_id || ctx.bet.bet_id
        != bet_id || ctx.bet.event_id != event_id {
        return Err(ErrorCode::NotFound);
    }
    if !ctx.event.resolved {
        return Err(ErrorCode::EventNotResolved);
    }
    if ctx.bet.claimed {
        return Err(ErrorCode::AlreadyClaimed);
    }
    require_identity(&ctx.bettor.owner, &ctx.bet.bettor)?;
    if ctx.bet.outcome != ctx.event.outcome {
        return Err(ErrorCode::LosingBet);
    }
    let amount = compute_payout(&ctx.bet, &ctx.event)?;
    ctx.event_escrow.withdraw(amount, &mut ctx.bettor)?;
    ctx.bet.claimed = true;
    Ok(())
}

/// Hands the whole escrow of an event to the administrator, whatever state
/// the event is in. On failure nothing changes.
pub fn emergency_withdraw(ctx: &mut EmergencyWithdraw, event_id: u64) -> (res: Result<
    (),
    ErrorCode,
>)
    ensures
        match res {
            Ok(()) => {
                &&& emergency_withdraw_error(*old(ctx), event_id) is None
                &&& final(ctx).program_state == old(ctx).program_state
                &&& final(ctx).event_escrow == (Escrow { balance: 0, ..old(ctx).event_escrow })
                &&& final(ctx).admin == (Wallet {
                    balance: (old(ctx).admin.balance + old(ctx).event_escrow.balance) as u64,
                    ..old(ctx).admin
                })
            },
            Err(e) => {
                &&& emergency_withdraw_error(*old(ctx), event_id) == Some(e)
                &&& *final(ctx) == *old(ctx)
            },
        },
{
    require_identity(&ctx.admin.owner, &ctx.program_state.admin)?;
    if ctx.event_escrow.event_id != event_id {
        return Err(ErrorCode::NotFound);
    }
    let escrow_balance = ctx.event_escrow.balance;
    if escrow_balance == 0 {
        return Err(ErrorCode::NoBalanceToWithdraw);
    }
    ctx.event_escrow.withdraw(escrow_balance, &mut ctx.admin)?;
    Ok(())
}

} // verus!
