use lottery_program::{
    buy_tickets, conduct_draw, initialize_raffle, set_winner, BuyTickets, ConductDraw,
    InitializeRaffle, Pubkey, Raffle, RaffleStatus, SetWinner, TicketEntry,
};

fn key(byte: u8) -> Pubkey {
    Pubkey::new_from_array([byte; 32])
}

fn stage(status: RaffleStatus) -> u8 {
    match status {
        RaffleStatus::Active => 0,
        RaffleStatus::PoolComplete => 1,
        RaffleStatus::DrawComplete => 2,
        RaffleStatus::Cancelled => 3,
    }
}

/// Makes the `step`-th call of a fixed mix of purchases, draws and winner
/// declarations, by the authority and by strangers, with good and bad input.
fn call(raffle: Raffle, step: u64) -> Raffle {
    let caller = if step % 3 == 0 { key(2) } else { key(3) };
    match step % 4 {
        0 | 1 => {
            let numbers: [u8; 5] = if step % 5 == 0 { [1, 1, 2, 3, 4] } else { [4, 8, 15, 16, 23] };
            let mut ctx = BuyTickets {
                raffle_key: key(1),
                raffle,
                entry: TicketEntry::default(),
                buyer: key(40),
                buyer_lamports: if step % 7 == 0 { 10 } else { 10_000 },
            };
            let _ = buy_tickets(&mut ctx, numbers, (step % 6) as u8, step as i64);
            ctx.raffle
        },
        2 => {
            let mut ctx = ConductDraw { raffle_key: key(1), raffle, authority: caller };
            let _ = conduct_draw(&mut ctx, step * 31);
            ctx.raffle
        },
        _ => {
            let mut ctx = SetWinner { raffle_key: key(1), raffle, authority: caller };
            let _ = set_winner(&mut ctx, key(50));
            ctx.raffle
        },
    }
}

fn opened() -> Raffle {
    let mut ctx = InitializeRaffle { raffle_key: key(1), raffle: Raffle::default(), authority: key(2) };
    initialize_raffle(&mut ctx, 1000, 100, 0);
    ctx.raffle
}

#[test]
fn totals_never_fall_along_a_run_of_calls() {
    let mut raffle = opened();
    let mut step: u64 = 0;
    while step < 200 {
        let next = call(raffle, step);
        assert!(next.total_collected >= raffle.total_collected);
        assert!(next.total_tickets_sold >= raffle.total_tickets_sold);
        raffle = next;
        step += 1;
    }
    assert!(raffle.total_collected >= 1000);
}

#[test]
fn stage_moves_forward_one_at_a_time() {
    let mut raffle = opened();
    let mut seen: Vec<RaffleStatus> = vec![raffle.status];
    let mut step: u64 = 0;
    while step < 200 {
        let next = call(raffle, step);
        let moved = stage(next.status) - stage(raffle.status);
        assert!(moved == 0 || moved == 1);
        if moved == 1 {
            seen.push(next.status);
        }
        raffle = next;
        step += 1;
    }
    assert_eq!(seen, vec![RaffleStatus::Active, RaffleStatus::PoolComplete, RaffleStatus::DrawComplete]);
}

#[test]
fn terms_stay_as_they_were_opened() {
    let mut raffle = opened();
    let mut step: u64 = 0;
    while step < 200 {
        raffle = call(raffle, step);
        assert_eq!(raffle.authority, key(2));
        assert_eq!(raffle.target_amount, 1000);
        assert_eq!(raffle.ticket_price, 100);
        assert_eq!(raffle.created_at, 0);
        step += 1;
    }
}

#[test]
fn drawn_numbers_stay_and_are_valid() {
    let mut raffle = opened();
    let mut drawn: Option<[u8; 5]> = None;
    let mut step: u64 = 0;
    while step < 200 {
        raffle = call(raffle, step);
        if raffle.is_draw_complete {
            assert_eq!(raffle.status, RaffleStatus::DrawComplete);
            let numbers = raffle.winning_numbers;
            for place in 0..5usize {
                assert!(1 <= numbers[place] && numbers[place] <= 49);
                assert!(place == 0 || numbers[place - 1] < numbers[place]);
            }
            match drawn {
                None => drawn = Some(numbers),
                Some(first) => assert_eq!(numbers, first),
            }
        } else {
            assert_eq!(raffle.winning_numbers, [0; 5]);
            assert_eq!(raffle.winner, Pubkey::default());
        }
        step += 1;
    }
    assert!(drawn.is_some());
    assert_eq!(raffle.winner, key(50));
}

#[test]
fn blank_records_are_all_zero() {
    let raffle = Raffle::default();
    assert_eq!(raffle.authority.to_bytes(), [0; 32]);
    assert_eq!(raffle.winner.to_bytes(), [0; 32]);
    assert_eq!(raffle.status, RaffleStatus::Active);
    assert_eq!(raffle.winning_numbers, [0; 5]);
    assert_eq!(
        (raffle.target_amount, raffle.ticket_price, raffle.total_tickets_sold, raffle.total_collected),
        (0, 0, 0, 0)
    );
    assert_eq!(raffle.created_at, 0);
    assert!(!raffle.is_draw_complete);
    let entry = TicketEntry::default();
    assert_eq!(entry.raffle, Pubkey::default());
    assert_eq!(entry.buyer, Pubkey::default());
    assert_eq!(entry.numbers, [0; 5]);
    assert_eq!(entry.quantity, 0);
    assert_eq!(entry.timestamp, 0);
    assert_eq!(entry.ticket_hash, [0; 32]);
}
