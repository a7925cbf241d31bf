use prediction_market::{
    claim_winnings, create_event, emergency_withdraw, initialize, place_bet, resolve_event, Bet,
    ClaimWinnings, CreateEvent, EmergencyWithdraw, ErrorCode, Escrow, Event, Identity, Initialize,
    PlaceBet, ProgramState, ResolveEvent, Wallet,
};

fn who(tag: u8) -> Identity {
    Identity::new([tag; 32])
}

fn state(events: u64, bets: u64) -> ProgramState {
    ProgramState { admin: who(1), event_counter: events, bet_counter: bets }
}

fn open_event(event_id: u64) -> Event {
    Event {
        event_id,
        name: String::from("X"),
        end_time: 100,
        resolved: false,
        outcome: false,
        total_yes_bets: 0,
        total_no_bets: 0,
        total_yes_amount: 0,
        total_no_amount: 0,
        creator: who(1),
    }
}

fn resolved_event(yes: u64, no: u64, outcome: bool) -> Event {
    Event {
        resolved: true,
        outcome,
        total_yes_bets: 1,
        total_no_bets: 1,
        total_yes_amount: yes,
        total_no_amount: no,
        ..open_event(1)
    }
}

fn place_ctx() -> PlaceBet {
    PlaceBet {
        program_state: state(1, 0),
        event: open_event(1),
        bet: None,
        event_escrow: Escrow { event_id: 1, balance: 0 },
        bettor: Wallet { owner: who(2), balance: 1000 },
    }
}

fn claim_ctx(outcome_of_bet: bool) -> ClaimWinnings {
    ClaimWinnings {
        event: resolved_event(300, 100, true),
        bet: Bet {
            bet_id: 1,
            event_id: 1,
            bettor: who(2),
            outcome: outcome_of_bet,
            amount: 30,
            claimed: false,
        },
        event_escrow: Escrow { event_id: 1, balance: 400 },
        bettor: Wallet { owner: who(2), balance: 5 },
    }
}

#[test]
fn initialize_creates_singleton() {
    let mut ctx = Initialize { program_state: None };
    assert_eq!(initialize(&mut ctx, who(1)), Ok(()));
    assert_eq!(ctx.program_state, Some(state(0, 0)));
}

#[test]
fn initialize_twice_is_refused() {
    let mut ctx = Initialize { program_state: Some(state(3, 4)) };
    assert_eq!(initialize(&mut ctx, who(9)), Err(ErrorCode::AlreadyInitialized));
    assert_eq!(ctx.program_state, Some(state(3, 4)));
}

#[test]
fn create_event_issues_next_id() {
    let mut ctx = CreateEvent { program_state: state(4, 2), event: None, admin: who(1) };
    assert_eq!(create_event(&mut ctx, String::from("Rain tomorrow"), 101, 100), Ok(5));
    assert_eq!(ctx.program_state, state(5, 2));
    assert_eq!(
        ctx.event,
        Some(Event { name: String::from("Rain tomorrow"), end_time: 101, ..open_event(5) })
    );
}

#[test]
fn create_event_refuses_stranger() {
    let mut ctx = CreateEvent { program_state: state(4, 2), event: None, admin: who(2) };
    let before = ctx.clone();
    assert_eq!(create_event(&mut ctx, String::from("X"), 101, 100), Err(ErrorCode::Unauthorized));
    assert_eq!(ctx, before);
}

#[test]
fn create_event_refuses_end_time_not_in_future() {
    let mut ctx = CreateEvent { program_state: state(4, 2), event: None, admin: who(1) };
    assert_eq!(create_event(&mut ctx, String::from("X"), 100, 100), Err(ErrorCode::InvalidEndTime));
    assert_eq!(create_event(&mut ctx, String::from("X"), 99, 100), Err(ErrorCode::InvalidEndTime));
    assert_eq!(ctx.program_state, state(4, 2));
    assert_eq!(ctx.event, None);
}

#[test]
fn create_event_name_limit_is_200_bytes() {
    let mut ctx = CreateEvent { program_state: state(0, 0), event: None, admin: who(1) };
    assert_eq!(create_event(&mut ctx, "a".repeat(201), 101, 100), Err(ErrorCode::NameTooLong));
    assert_eq!(ctx.event, None);
    // 67 three-byte characters are 201 bytes, though only 67 characters.
    assert_eq!(create_event(&mut ctx, "\u{20ac}".repeat(67), 101, 100), Err(ErrorCode::NameTooLong));
    assert_eq!(create_event(&mut ctx, "a".repeat(200), 101, 100), Ok(1));
}

#[test]
fn create_event_refuses_counter_overflow() {
    let mut ctx = CreateEvent { program_state: state(u64::MAX, 0), event: None, admin: who(1) };
    assert_eq!(create_event(&mut ctx, String::from("X"), 101, 100), Err(ErrorCode::CounterOverflow));
    assert_eq!(ctx.program_state, state(u64::MAX, 0));
}

#[test]
fn create_event_refuses_taken_slot() {
    let mut ctx =
        CreateEvent { program_state: state(0, 0), event: Some(open_event(1)), admin: who(1) };
    assert_eq!(create_event(&mut ctx, String::from("Y"), 101, 100), Err(ErrorCode::AlreadyExists));
    assert_eq!(ctx.program_state, state(0, 0));
    assert_eq!(ctx.event, Some(open_event(1)));
}

#[test]
fn create_event_tests_caller_before_time_before_name() {
    let mut ctx = CreateEvent { program_state: state(u64::MAX, 0), event: None, admin: who(2) };
    assert_eq!(create_event(&mut ctx, "a".repeat(300), 1, 100), Err(ErrorCode::Unauthorized));
    ctx.admin = who(1);
    assert_eq!(create_event(&mut ctx, "a".repeat(300), 1, 100), Err(ErrorCode::InvalidEndTime));
    assert_eq!(create_event(&mut ctx, "a".repeat(300), 101, 100), Err(ErrorCode::NameTooLong));
}

#[test]
fn place_bet_records_stake_and_moves_funds() {
    let mut ctx = place_ctx();
    assert_eq!(place_bet(&mut ctx, 1, true, 100, 50), Ok(()));
    assert_eq!(ctx.program_state, state(1, 1));
    assert_eq!(
        ctx.bet,
        Some(Bet { bet_id: 1, event_id: 1, bettor: who(2), outcome: true, amount: 100, claimed: false })
    );
    assert_eq!(ctx.event.total_yes_bets, 1);
    assert_eq!(ctx.event.total_yes_amount, 100);
    assert_eq!(ctx.event.total_no_bets, 0);
    assert_eq!(ctx.event.total_no_amount, 0);
    assert_eq!(ctx.event_escrow, Escrow { event_id: 1, balance: 100 });
    assert_eq!(ctx.bettor, Wallet { owner: who(2), balance: 900 });
}

#[test]
fn place_bet_on_no_side_counts_there() {
    let mut ctx = place_ctx();
    assert_eq!(place_bet(&mut ctx, 1, false, 50, 50), Ok(()));
    assert_eq!(ctx.event.total_no_bets, 1);
    assert_eq!(ctx.event.total_no_amount, 50);
    assert_eq!(ctx.event.total_yes_bets, 0);
    assert_eq!(ctx.event.total_yes_amount, 0);
}

#[test]
fn place_bet_refuses_unissued_event_id() {
    let mut ctx = place_ctx();
    let before = ctx.clone();
    assert_eq!(place_bet(&mut ctx, 2, true, 100, 50), Err(ErrorCode::EventDoesNotExist));
    assert_eq!(ctx, before);
}

#[test]
fn place_bet_refuses_record_of_another_event() {
    let mut ctx = place_ctx();
    ctx.program_state.event_counter = 5;
    assert_eq!(place_bet(&mut ctx, 2, true, 100, 50), Err(ErrorCode::NotFound));
    ctx.event.event_id = 2;
    assert_eq!(place_bet(&mut ctx, 2, true, 100, 50), Err(ErrorCode::NotFound));
    ctx.event_escrow.event_id = 2;
    assert_eq!(place_bet(&mut ctx, 2, true, 100, 50), Ok(()));
}

#[test]
fn place_bet_refuses_resolved_event() {
    let mut ctx = place_ctx();
    ctx.event.resolved = true;
    let before = ctx.clone();
    assert_eq!(place_bet(&mut ctx, 1, true, 100, 50), Err(ErrorCode::EventAlreadyResolved));
    assert_eq!(ctx, before);
}

#[test]
fn place_bet_refuses_at_and_after_deadline() {
    let mut ctx = place_ctx();
    let before = ctx.clone();
    assert_eq!(place_bet(&mut ctx, 1, true, 100, 100), Err(ErrorCode::BettingClosed));
    assert_eq!(place_bet(&mut ctx, 1, true, 100, 101), Err(ErrorCode::BettingClosed));
    assert_eq!(place_bet(&mut ctx, 1, true, 100, i64::MAX), Err(ErrorCode::BettingClosed));
    assert_eq!(ctx, before);
    assert_eq!(place_bet(&mut ctx, 1, true, 100, 99), Ok(()));
}

#[test]
fn place_bet_late_on_resolved_event_is_closed() {
    let mut ctx = place_ctx();
    ctx.event.resolved = true;
    let before = ctx.clone();
    assert_eq!(place_bet(&mut ctx, 1, true, 100, 100), Err(ErrorCode::BettingClosed));
    assert_eq!(place_bet(&mut ctx, 1, false, 100, 101), Err(ErrorCode::BettingClosed));
    assert_eq!(place_bet(&mut ctx, 1, true, 0, 100), Err(ErrorCode::BettingClosed));
    assert_eq!(ctx, before);
    assert_eq!(ctx.bet, None);
    // Before the deadline the resolution is what refuses the bet.
    assert_eq!(place_bet(&mut ctx, 1, true, 100, 99), Err(ErrorCode::EventAlreadyResolved));
    assert_eq!(ctx, before);
}

#[test]
fn place_bet_tests_existence_before_deadline_before_resolution_before_stake() {
    let mut ctx = place_ctx();
    ctx.event.resolved = true;
    assert_eq!(place_bet(&mut ctx, 2, true, 0, 100), Err(ErrorCode::EventDoesNotExist));
    assert_eq!(place_bet(&mut ctx, 1, true, 0, 100), Err(ErrorCode::BettingClosed));
    assert_eq!(place_bet(&mut ctx, 1, true, 0, 99), Err(ErrorCode::EventAlreadyResolved));
    ctx.event.resolved = false;
    assert_eq!(place_bet(&mut ctx, 1, true, 0, 99), Err(ErrorCode::InvalidAmount));
    assert_eq!(place_bet(&mut ctx, 1, true, 1, 99), Ok(()));
}

#[test]
fn place_bet_refuses_zero_stake() {
    let mut ctx = place_ctx();
    let before = ctx.clone();
    assert_eq!(place_bet(&mut ctx, 1, true, 0, 50), Err(ErrorCode::InvalidAmount));
    assert_eq!(ctx, before);
}

#[test]
fn place_bet_refuses_bet_counter_overflow() {
    let mut ctx = place_ctx();
    ctx.program_state.bet_counter = u64::MAX;
    let before = ctx.clone();
    assert_eq!(place_bet(&mut ctx, 1, true, 100, 50), Err(ErrorCode::CounterOverflow));
    assert_eq!(ctx, before);
}

#[test]
fn place_bet_refuses_total_overflow() {
    let mut ctx = place_ctx();
    ctx.event.total_yes_amount = u64::MAX - 5;
    let before = ctx.clone();
    assert_eq!(place_bet(&mut ctx, 1, true, 6, 50), Err(ErrorCode::CounterOverflow));
    assert_eq!(ctx, before);
    ctx.event.total_yes_amount = 0;
    ctx.event.total_no_bets = u64::MAX;
    assert_eq!(place_bet(&mut ctx, 1, false, 6, 50), Err(ErrorCode::CounterOverflow));
}

#[test]
fn place_bet_refuses_taken_slot() {
    let mut ctx = place_ctx();
    ctx.bet =
        Some(Bet { bet_id: 1, event_id: 1, bettor: who(3), outcome: false, amount: 1, claimed: false });
    let before = ctx.clone();
    assert_eq!(place_bet(&mut ctx, 1, true, 100, 50), Err(ErrorCode::AlreadyExists));
    assert_eq!(ctx, before);
}

#[test]
fn place_bet_refuses_stake_beyond_funds() {
    let mut ctx = place_ctx();
    let before = ctx.clone();
    assert_eq!(place_bet(&mut ctx, 1, true, 1001, 50), Err(ErrorCode::InsufficientFunds));
    assert_eq!(ctx, before);
}

#[test]
fn place_bet_refuses_escrow_overflow() {
    let mut ctx = place_ctx();
    ctx.event_escrow.balance = u64::MAX;
    let before = ctx.clone();
    assert_eq!(place_bet(&mut ctx, 1, true, 1, 50), Err(ErrorCode::ArithmeticOverflow));
    assert_eq!(ctx, before);
}

#[test]
fn resolve_event_sets_outcome() {
    let mut ctx = ResolveEvent { program_state: state(1, 0), event: open_event(1), admin: who(1) };
    assert_eq!(resolve_event(&mut ctx, 1, true), Ok(()));
    assert_eq!(ctx.event, Event { resolved: true, outcome: true, ..open_event(1) });
    assert_eq!(ctx.program_state, state(1, 0));
}

#[test]
fn resolve_event_refuses_stranger() {
    let mut ctx = ResolveEvent { program_state: state(1, 0), event: open_event(1), admin: who(2) };
    assert_eq!(resolve_event(&mut ctx, 1, true), Err(ErrorCode::Unauthorized));
    assert_eq!(ctx.event, open_event(1));
}

#[test]
fn resolve_event_refuses_record_of_another_event() {
    let mut ctx = ResolveEvent { program_state: state(2, 0), event: open_event(1), admin: who(1) };
    assert_eq!(resolve_event(&mut ctx, 2, true), Err(ErrorCode::NotFound));
    assert_eq!(ctx.event, open_event(1));
}

#[test]
fn resolve_event_twice_is_refused() {
    let mut ctx = ResolveEvent { program_state: state(1, 0), event: open_event(1), admin: who(1) };
    assert_eq!(resolve_event(&mut ctx, 1, false), Ok(()));
    assert_eq!(resolve_event(&mut ctx, 1, true), Err(ErrorCode::EventAlreadyResolved));
    assert!(ctx.event.resolved);
    assert!(!ctx.event.outcome);
}

#[test]
fn claim_pays_share_of_pool() {
    let mut ctx = claim_ctx(true);
    assert_eq!(claim_winnings(&mut ctx, 1, 1), Ok(()));
    assert_eq!(ctx.bettor.balance, 45);
    assert_eq!(ctx.event_escrow.balance, 360);
    assert!(ctx.bet.claimed);
    assert_eq!(ctx.event, resolved_event(300, 100, true));
}

#[test]
fn claim_on_losing_side_is_refused() {
    let mut ctx = claim_ctx(false);
    let before = ctx.clone();
    assert_eq!(claim_winnings(&mut ctx, 1, 1), Err(ErrorCode::LosingBet));
    assert_eq!(ctx, before);
}

#[test]
fn claim_before_resolution_is_refused() {
    let mut ctx = claim_ctx(true);
    ctx.event.resolved = false;
    let before = ctx.clone();
    assert_eq!(claim_winnings(&mut ctx, 1, 1), Err(ErrorCode::EventNotResolved));
    assert_eq!(ctx, before);
}

#[test]
fn claim_twice_is_refused() {
    let mut ctx = claim_ctx(true);
    assert_eq!(claim_winnings(&mut ctx, 1, 1), Ok(()));
    let after_first = ctx.clone();
    assert_eq!(claim_winnings(&mut ctx, 1, 1), Err(ErrorCode::AlreadyClaimed));
    assert_eq!(ctx, after_first);
}

#[test]
fn claim_by_stranger_is_refused() {
    let mut ctx = claim_ctx(true);
    ctx.bettor.owner = who(3);
    let before = ctx.clone();
    assert_eq!(claim_winnings(&mut ctx, 1, 1), Err(ErrorCode::Unauthorized));
    assert_eq!(ctx, before);
}

#[test]
fn claim_refuses_records_under_other_keys() {
    let mut ctx = claim_ctx(true);
    assert_eq!(claim_winnings(&mut ctx, 2, 1), Err(ErrorCode::NotFound));
    assert_eq!(claim_winnings(&mut ctx, 1, 2), Err(ErrorCode::NotFound));
    ctx.bet.event_id = 2;
    assert_eq!(claim_winnings(&mut ctx, 1, 1), Err(ErrorCode::NotFound));
    assert!(!ctx.bet.claimed);
    assert_eq!(ctx.event_escrow.balance, 400);
}

#[test]
fn claim_tests_resolution_before_claimed_before_caller_before_side() {
    let mut ctx = claim_ctx(false);
    ctx.event.resolved = false;
    ctx.bet.claimed = true;
    ctx.bettor.owner = who(3);
    assert_eq!(claim_winnings(&mut ctx, 1, 1), Err(ErrorCode::EventNotResolved));
    ctx.event.resolved = true;
    assert_eq!(claim_winnings(&mut ctx, 1, 1), Err(ErrorCode::AlreadyClaimed));
    ctx.bet.claimed = false;
    assert_eq!(claim_winnings(&mut ctx, 1, 1), Err(ErrorCode::Unauthorized));
    ctx.bettor.owner = who(2);
    assert_eq!(claim_winnings(&mut ctx, 1, 1), Err(ErrorCode::LosingBet));
}

#[test]
fn claim_refuses_payout_beyond_escrow() {
    let mut ctx = claim_ctx(true);
    ctx.event_escrow.balance = 39;
    let before = ctx.clone();
    assert_eq!(claim_winnings(&mut ctx, 1, 1), Err(ErrorCode::InsufficientEscrowBalance));
    assert_eq!(ctx, before);
}

#[test]
fn claim_refuses_overflow() {
    let mut ctx = claim_ctx(true);
    ctx.bettor.balance = u64::MAX - 39;
    let before = ctx.clone();
    assert_eq!(claim_winnings(&mut ctx, 1, 1), Err(ErrorCode::ArithmeticOverflow));
    assert_eq!(ctx, before);
    let mut wide = claim_ctx(true);
    wide.event.total_yes_amount = u64::MAX;
    assert_eq!(claim_winnings(&mut wide, 1, 1), Err(ErrorCode::ArithmeticOverflow));
}

#[test]
fn claim_returns_stake_when_winning_pool_is_empty() {
    let mut ctx = claim_ctx(true);
    ctx.event = resolved_event(0, 100, true);
    assert_eq!(claim_winnings(&mut ctx, 1, 1), Ok(()));
    assert_eq!(ctx.bettor.balance, 35);
    assert_eq!(ctx.event_escrow.balance, 370);
}

#[test]
fn emergency_withdraw_empties_escrow() {
    let mut ctx = EmergencyWithdraw {
        program_state: state(1, 2),
        event_escrow: Escrow { event_id: 1, balance: 150 },
        admin: Wallet { owner: who(1), balance: 7 },
    };
    assert_eq!(emergency_withdraw(&mut ctx, 1), Ok(()));
    assert_eq!(ctx.event_escrow, Escrow { event_id: 1, balance: 0 });
    assert_eq!(ctx.admin, Wallet { owner: who(1), balance: 157 });
    assert_eq!(ctx.program_state, state(1, 2));
}

#[test]
fn emergency_withdraw_refuses_stranger() {
    let mut ctx = EmergencyWithdraw {
        program_state: state(1, 2),
        event_escrow: Escrow { event_id: 1, balance: 150 },
        admin: Wallet { owner: who(2), balance: 7 },
    };
    let before = ctx;
    assert_eq!(emergency_withdraw(&mut ctx, 1), Err(ErrorCode::Unauthorized));
    assert_eq!(ctx, before);
}

#[test]
fn emergency_withdraw_refuses_empty_escrow() {
    let mut ctx = EmergencyWithdraw {
        program_state: state(1, 2),
        event_escrow: Escrow { event_id: 1, balance: 0 },
        admin: Wallet { owner: who(1), balance: 7 },
    };
    let before = ctx;
    assert_eq!(emergency_withdraw(&mut ctx, 1), Err(ErrorCode::NoBalanceToWithdraw));
    assert_eq!(ctx, before);
}

#[test]
fn emergency_withdraw_refuses_escrow_of_another_event() {
    let mut ctx = EmergencyWithdraw {
        program_state: state(2, 2),
        event_escrow: Escrow { event_id: 1, balance: 150 },
        admin: Wallet { owner: who(1), balance: 7 },
    };
    let before = ctx;
    assert_eq!(emergency_withdraw(&mut ctx, 2), Err(ErrorCode::NotFound));
    assert_eq!(ctx, before);
}

#[test]
fn emergency_withdraw_refuses_overflow() {
    let mut ctx = EmergencyWithdraw {
        program_state: state(1, 2),
        event_escrow: Escrow { event_id: 1, balance: 150 },
        admin: Wallet { owner: who(1), balance: u64::MAX - 149 },
    };
    let before = ctx;
    assert_eq!(emergency_withdraw(&mut ctx, 1), Err(ErrorCode::ArithmeticOverflow));
    assert_eq!(ctx, before);
}
