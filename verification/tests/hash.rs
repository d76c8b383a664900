use anchor_lang::solana_program::keccak;
use lottery_program::{buy_tickets, generate_ticket_hash, BuyTickets, Pubkey, Raffle, TicketEntry};

fn preimage(numbers: [u8; 5], buyer: [u8; 32], timestamp: i64) -> Vec<u8> {
    let mut data: Vec<u8> = Vec::new();
    data.extend_from_slice(&numbers);
    data.extend_from_slice(&buyer);
    data.extend_from_slice(&timestamp.to_le_bytes());
    data
}

#[test]
fn ticket_hash_matches_known_digests() {
    let seven = Pubkey::new_from_array([7; 32]);
    assert_eq!(
        generate_ticket_hash(&[1, 2, 3, 4, 5], &seven, 1_700_000_000),
        [
            228, 197, 3, 124, 255, 3, 111, 75, 202, 34, 31, 231, 97, 20, 222, 235, 142, 31, 142,
            70, 229, 92, 111, 89, 53, 91, 162, 98, 115, 68, 112, 192,
        ]
    );
    assert_eq!(
        generate_ticket_hash(&[1, 2, 3, 4, 5], &Pubkey::default(), 0),
        [
            137, 81, 118, 60, 181, 188, 59, 116, 252, 211, 12, 120, 144, 189, 168, 224, 204, 93,
            7, 143, 130, 13, 35, 66, 235, 200, 162, 139, 221, 210, 171, 70,
        ]
    );
}

#[test]
fn ticket_hash_takes_a_negative_time_in_twos_complement() {
    let mut bytes: [u8; 32] = [0; 32];
    for place in 0..32usize {
        bytes[place] = place as u8;
    }
    assert_eq!(
        generate_ticket_hash(&[5, 10, 15, 20, 25], &Pubkey::new_from_array(bytes), -1),
        [
            215, 216, 228, 91, 172, 123, 56, 98, 152, 43, 39, 165, 222, 0, 144, 203, 27, 255, 184,
            128, 189, 128, 204, 9, 72, 174, 126, 7, 176, 237, 2, 121,
        ]
    );
}

#[test]
fn ticket_hash_is_the_digest_of_numbers_buyer_and_time() {
    let cases: [([u8; 5], [u8; 32], i64); 4] = [
        ([1, 2, 3, 4, 5], [7; 32], 1_700_000_000),
        ([49, 48, 47, 46, 45], [255; 32], i64::MAX),
        ([9, 8, 7, 6, 5], [0; 32], i64::MIN),
        ([10, 20, 30, 40, 49], [1; 32], -1_700_000_000),
    ];
    for (numbers, buyer, timestamp) in cases {
        let expected = keccak::hash(&preimage(numbers, buyer, timestamp)).to_bytes();
        let found = generate_ticket_hash(&numbers, &Pubkey::new_from_array(buyer), timestamp);
        assert_eq!(found, expected);
    }
}

#[test]
fn ticket_hash_repeats_for_equal_inputs() {
    let buyer = Pubkey::new_from_array([7; 32]);
    let once = generate_ticket_hash(&[1, 2, 3, 4, 5], &buyer, 1_700_000_000);
    let twice = generate_ticket_hash(&[1, 2, 3, 4, 5], &Pubkey::new_from_array([7; 32]), 1_700_000_000);
    assert_eq!(once, twice);
}

#[test]
fn ticket_hash_differs_when_any_input_differs() {
    let buyer = Pubkey::new_from_array([7; 32]);
    let base = generate_ticket_hash(&[1, 2, 3, 4, 5], &buyer, 1_700_000_000);
    assert_eq!(
        generate_ticket_hash(&[1, 2, 3, 4, 5], &buyer, 1_700_000_001),
        [
            243, 121, 57, 229, 70, 142, 22, 52, 184, 220, 236, 80, 162, 145, 30, 117, 212, 210,
            234, 246, 124, 21, 113, 10, 192, 161, 108, 180, 21, 46, 32, 187,
        ]
    );
    assert_ne!(generate_ticket_hash(&[1, 2, 3, 4, 5], &buyer, 1_700_000_001), base);
    assert_ne!(generate_ticket_hash(&[1, 2, 3, 4, 6], &buyer, 1_700_000_000), base);
    assert_ne!(generate_ticket_hash(&[5, 4, 3, 2, 1], &buyer, 1_700_000_000), base);
    assert_ne!(
        generate_ticket_hash(&[1, 2, 3, 4, 5], &Pubkey::new_from_array([8; 32]), 1_700_000_000),
        base
    );
    assert_ne!(base, [1, 2, 3, 4, 5, 7, 7, 7, 7, 7, 7, 7, 7, 7, 7, 7, 7, 7, 7, 7, 7, 7, 7, 7, 7, 7, 7, 7, 7, 7, 7, 7]);
}

#[test]
fn purchase_keeps_the_hash_of_what_was_bought() {
    let buyer = Pubkey::new_from_array([33; 32]);
    let mut ctx = BuyTickets {
        raffle_key: Pubkey::new_from_array([1; 32]),
        raffle: Raffle { target_amount: 1000, ticket_price: 10, ..Raffle::default() },
        entry: TicketEntry::default(),
        buyer,
        buyer_lamports: 50,
    };
    let event = buy_tickets(&mut ctx, [6, 12, 18, 24, 30], 5, 42).unwrap();
    let expected = keccak::hash(&preimage([6, 12, 18, 24, 30], [33; 32], 42)).to_bytes();
    assert_eq!(ctx.entry.ticket_hash, expected);
    assert_eq!(event.ticket_hash, expected);
    assert_eq!(ctx.entry.ticket_hash, generate_ticket_hash(&[6, 12, 18, 24, 30], &buyer, 42));
}
