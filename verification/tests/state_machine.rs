use raffle::errors::RaffleError;
use raffle::ops::buy_ticket;
use raffle::ops::claim_prize;
use raffle::ops::close_raffle;
use raffle::ops::draw_winner;
use raffle::ops::initialize_raffle;
use raffle::ops::weak_random;
use raffle::state::AccountId;

fn id(byte: u8) -> AccountId {
    AccountId::new(vec![byte; 32])
}

const END_TS: i64 = 1_000;

#[test]
fn initialize_starts_selling() {
    let raffle = initialize_raffle(id(1), 100, END_TS, 254);
    assert_eq!(raffle.creator.bytes, vec![1u8; 32]);
    assert_eq!(raffle.ticket_price, 100);
    assert_eq!(raffle.ticket_count, 0);
    assert_eq!(raffle.end_ts, END_TS);
    assert_eq!(raffle.winner, None);
    assert!(!raffle.prize_claimed);
    assert_eq!(raffle.bump, 254);
}

#[test]
fn tickets_are_numbered_without_gaps() {
    let mut raffle = initialize_raffle(id(1), 100, END_TS, 254);
    let n = 5u32;
    for k in 0..n {
        let ticket = buy_ticket(&mut raffle, id(10 + k as u8), id(2), 253, 500).unwrap();
        assert_eq!(ticket.ticket_number, k);
        assert_eq!(ticket.buyer.bytes, vec![10 + k as u8; 32]);
        assert_eq!(ticket.raffle.bytes, vec![2u8; 32]);
        assert_eq!(raffle.ticket_count, k + 1);
    }
    assert_eq!(raffle.ticket_count, n);
}

#[test]
fn buy_after_deadline_fails() {
    let mut raffle = initialize_raffle(id(1), 100, END_TS, 254);
    let r = buy_ticket(&mut raffle, id(10), id(2), 253, END_TS);
    assert_eq!(r.err(), Some(RaffleError::RaffleEnded));
    assert_eq!(raffle.ticket_count, 0);
}

#[test]
fn draw_before_deadline_fails_and_leaves_winner_unset() {
    let mut raffle = initialize_raffle(id(1), 100, END_TS, 254);
    buy_ticket(&mut raffle, id(10), id(2), 253, 500).unwrap();
    let creator = id(1);
    assert_eq!(
        draw_winner(&mut raffle, &creator, END_TS - 1, 42),
        Err(RaffleError::RaffleNotEnded)
    );
    assert_eq!(raffle.winner, None);
}

#[test]
fn draw_by_non_creator_fails() {
    let mut raffle = initialize_raffle(id(1), 100, END_TS, 254);
    buy_ticket(&mut raffle, id(10), id(2), 253, 500).unwrap();
    let outsider = id(9);
    assert_eq!(
        draw_winner(&mut raffle, &outsider, END_TS, 42),
        Err(RaffleError::NotCreator)
    );
    assert_eq!(raffle.winner, None);
}

#[test]
fn draw_with_no_tickets_fails() {
    let mut raffle = initialize_raffle(id(1), 100, END_TS, 254);
    let creator = id(1);
    assert_eq!(
        draw_winner(&mut raffle, &creator, END_TS, 42),
        Err(RaffleError::NoTicketsSold)
    );
}

#[test]
fn winner_indexes_a_sold_ticket() {
    let creator = id(1);
    for slot in [0u64, 1, 7, 123_456_789, u64::MAX] {
        let mut raffle = initialize_raffle(id(1), 100, END_TS, 254);
        buy_ticket(&mut raffle, id(10), id(2), 253, 500).unwrap();
        buy_ticket(&mut raffle, id(11), id(2), 252, 500).unwrap();
        buy_ticket(&mut raffle, id(12), id(2), 251, 500).unwrap();
        let w = draw_winner(&mut raffle, &creator, END_TS + 5, slot).unwrap();
        assert!(w < 3);
        assert_eq!(raffle.winner, Some(w));
    }
}

#[test]
fn weak_random_mixes_slot_and_timestamp() {
    // 3 * 5 = 15, far below the fixed bound.
    assert_eq!(weak_random(3, 5), 15);
    // The product wraps modulo 2^64 before the reduction:
    // (2^63) * 2 wraps to 0.
    assert_eq!(weak_random(1 << 63, 2), 0);
    // 2^32 = (2^32 - 1) + 1, so it reduces to 1 modulo u32::MAX.
    assert_eq!(weak_random(1 << 16, 1 << 16), 1);
}

#[test]
fn draw_is_deterministic_in_its_inputs() {
    let creator = id(1);
    let mut raffle = initialize_raffle(id(1), 100, END_TS, 254);
    buy_ticket(&mut raffle, id(10), id(2), 253, 500).unwrap();
    buy_ticket(&mut raffle, id(11), id(2), 252, 500).unwrap();
    // slot 7, timestamp 9: 7 * 9 = 63; 63 mod u32::MAX = 63; 63 mod 2 tickets = 1.
    let w = draw_winner(&mut raffle, &creator, 0x7FFF_FFFF_FFFF_FFFF, 0).unwrap();
    assert_eq!(w, 0);
    let mut again = initialize_raffle(id(1), 100, 9, 254);
    buy_ticket(&mut again, id(10), id(2), 253, 5).unwrap();
    buy_ticket(&mut again, id(11), id(2), 252, 5).unwrap();
    assert_eq!(draw_winner(&mut again, &creator, 9, 7), Ok(1));
}

#[test]
fn draw_handles_negative_timestamps() {
    let creator = id(1);
    let mut raffle = initialize_raffle(id(1), 100, -100, 254);
    buy_ticket(&mut raffle, id(10), id(2), 253, -200).unwrap();
    buy_ticket(&mut raffle, id(11), id(2), 252, -200).unwrap();
    // The timestamp mixes in as its two's complement bit pattern:
    // slot 1 at time -50 gives 2^64 - 50, which reduces to
    // 4294967246 modulo u32::MAX — an even number, so ticket 0 wins.
    assert_eq!(draw_winner(&mut raffle, &creator, -50, 1), Ok(0));
}

#[test]
fn draw_twice_fails_and_winner_is_unchanged() {
    let creator = id(1);
    let mut raffle = initialize_raffle(id(1), 100, END_TS, 254);
    buy_ticket(&mut raffle, id(10), id(2), 253, 500).unwrap();
    buy_ticket(&mut raffle, id(11), id(2), 252, 500).unwrap();
    let w = draw_winner(&mut raffle, &creator, END_TS, 42).unwrap();
    assert_eq!(
        draw_winner(&mut raffle, &creator, END_TS + 100, 777),
        Err(RaffleError::WinnerAlreadyDrawn)
    );
    assert_eq!(raffle.winner, Some(w));
}

#[test]
fn claim_before_draw_fails() {
    let mut raffle = initialize_raffle(id(1), 100, END_TS, 254);
    let buyer = id(10);
    let ticket = buy_ticket(&mut raffle, id(10), id(2), 253, 500).unwrap();
    assert_eq!(
        claim_prize(&mut raffle, &ticket, &buyer, 1_000, 100),
        Err(RaffleError::WinnerNotDrawn)
    );
    assert!(!raffle.prize_claimed);
}

#[test]
fn claim_with_losing_ticket_fails() {
    let creator = id(1);
    let mut raffle = initialize_raffle(id(1), 100, END_TS, 254);
    let tickets = [
        buy_ticket(&mut raffle, id(10), id(2), 253, 500).unwrap(),
        buy_ticket(&mut raffle, id(11), id(2), 252, 500).unwrap(),
    ];
    let w = draw_winner(&mut raffle, &creator, END_TS, 42).unwrap();
    let loser = &tickets[(1 - w) as usize];
    let owner = loser.buyer.duplicate();
    assert_eq!(
        claim_prize(&mut raffle, loser, &owner, 1_000, 100),
        Err(RaffleError::NotWinner)
    );
    assert!(!raffle.prize_claimed);
}

#[test]
fn claim_by_non_owner_fails() {
    let creator = id(1);
    let mut raffle = initialize_raffle(id(1), 100, END_TS, 254);
    let tickets = [
        buy_ticket(&mut raffle, id(10), id(2), 253, 500).unwrap(),
        buy_ticket(&mut raffle, id(11), id(2), 252, 500).unwrap(),
    ];
    let w = draw_winner(&mut raffle, &creator, END_TS, 42).unwrap();
    let winning = &tickets[w as usize];
    let stranger = id(99);
    assert_eq!(
        claim_prize(&mut raffle, winning, &stranger, 1_000, 100),
        Err(RaffleError::NotTicketOwner)
    );
    assert!(!raffle.prize_claimed);
}

#[test]
fn claim_pays_nine_tenths_of_available_funds() {
    let creator = id(1);
    let mut raffle = initialize_raffle(id(1), 100, END_TS, 254);
    let ticket = buy_ticket(&mut raffle, id(10), id(2), 253, 500).unwrap();
    draw_winner(&mut raffle, &creator, END_TS, 42).unwrap();
    let owner = id(10);
    // Balance 1000 above a retained minimum of 100: 900 available,
    // the prize is floor(900 * 9 / 10) = 810, and at least
    // 1000 - 810 = 190 >= 100 stays in escrow.
    let prize = claim_prize(&mut raffle, &ticket, &owner, 1_000, 100).unwrap();
    assert_eq!(prize, 810);
    assert!(1_000 - prize >= 100);
    assert!(raffle.prize_claimed);
}

#[test]
fn claim_rounds_down_and_saturates() {
    let creator = id(1);
    let mut raffle = initialize_raffle(id(1), 100, END_TS, 254);
    let ticket = buy_ticket(&mut raffle, id(10), id(2), 253, 500).unwrap();
    draw_winner(&mut raffle, &creator, END_TS, 42).unwrap();
    let owner = id(10);
    // 7 available: floor(63 / 10) = 6.
    assert_eq!(claim_prize(&mut raffle, &ticket, &owner, 107, 100), Ok(6));

    let mut second = initialize_raffle(id(1), 100, END_TS, 254);
    let ticket2 = buy_ticket(&mut second, id(10), id(2), 253, 500).unwrap();
    draw_winner(&mut second, &creator, END_TS, 42).unwrap();
    // Balance below the retained minimum: nothing available, prize 0.
    assert_eq!(claim_prize(&mut second, &ticket2, &owner, 50, 100), Ok(0));
}

#[test]
fn claim_twice_fails_with_prize_already_claimed() {
    let creator = id(1);
    let mut raffle = initialize_raffle(id(1), 100, END_TS, 254);
    let ticket = buy_ticket(&mut raffle, id(10), id(2), 253, 500).unwrap();
    draw_winner(&mut raffle, &creator, END_TS, 42).unwrap();
    let owner = id(10);
    claim_prize(&mut raffle, &ticket, &owner, 1_000, 100).unwrap();
    assert_eq!(
        claim_prize(&mut raffle, &ticket, &owner, 190, 100),
        Err(RaffleError::PrizeAlreadyClaimed)
    );
    assert!(raffle.prize_claimed);
}

#[test]
fn close_before_deadline_fails_regardless_of_caller() {
    let raffle = initialize_raffle(id(1), 100, END_TS, 254);
    let creator = id(1);
    let outsider = id(9);
    assert_eq!(
        close_raffle(&raffle, &creator, END_TS - 1, 1_000, 100),
        Err(RaffleError::RaffleNotEnded)
    );
    assert_eq!(
        close_raffle(&raffle, &outsider, END_TS - 1, 1_000, 100),
        Err(RaffleError::RaffleNotEnded)
    );
}

#[test]
fn close_by_non_creator_fails_after_deadline() {
    let raffle = initialize_raffle(id(1), 100, END_TS, 254);
    let outsider = id(9);
    assert_eq!(
        close_raffle(&raffle, &outsider, END_TS, 1_000, 100),
        Err(RaffleError::NotCreator)
    );
}

#[test]
fn close_sweeps_the_excess_over_the_retained_minimum() {
    let raffle = initialize_raffle(id(1), 100, END_TS, 254);
    let creator = id(1);
    assert_eq!(close_raffle(&raffle, &creator, END_TS, 1_000, 100), Ok(900));
    // Nothing above the retained minimum: nothing is swept.
    assert_eq!(close_raffle(&raffle, &creator, END_TS, 100, 100), Ok(0));
    assert_eq!(close_raffle(&raffle, &creator, END_TS, 40, 100), Ok(0));
}

#[test]
fn full_raffle_lifecycle() {
    // The creator opens a raffle at price 100 ending one tick from now.
    let now: i64 = 10;
    let creator = id(1);
    let mut raffle = initialize_raffle(id(1), 100, now + 1, 254);
    let raffle_id = id(2);
    let retained: u64 = 50;

    // Two buyers each buy one ticket; the host moves 100 per ticket into
    // escrow, so the escrow balance reaches the retained minimum plus 200.
    let t0 = buy_ticket(&mut raffle, id(10), raffle_id.duplicate(), 253, now)
        .unwrap();
    let t1 = buy_ticket(&mut raffle, id(11), raffle_id.duplicate(), 252, now)
        .unwrap();
    assert_eq!(t0.ticket_number, 0);
    assert_eq!(t1.ticket_number, 1);
    assert_eq!(raffle.ticket_count, 2);
    let escrow: u64 = retained + 200;

    // After the deadline the creator draws; the winner is ticket 0 or 1.
    let w = draw_winner(&mut raffle, &creator, now + 1, 42).unwrap();
    assert!(w == 0 || w == 1);

    // The matching owner claims and receives floor(200 * 9 / 10) = 180.
    let (ticket, owner) = if w == 0 { (&t0, id(10)) } else { (&t1, id(11)) };
    let prize = claim_prize(&mut raffle, ticket, &owner, escrow, retained).unwrap();
    assert_eq!(prize, 180);

    // The creator closes and sweeps what stands above the retained
    // minimum; the host then destroys the record.
    let left = escrow - prize;
    let swept = close_raffle(&raffle, &creator, now + 2, left, retained).unwrap();
    assert_eq!(swept, left - retained);
    assert_eq!(swept, 20);
    drop(raffle);
}
