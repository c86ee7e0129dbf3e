//! Laws of the raffle state machine and of the record codec, each stated
//! over the same spec functions the operations' contracts use and proved
//! once for all inputs.

use vstd::prelude::*;

use crate::codec::spec_parse_ok;
use crate::codec::spec_parsed;
use crate::codec::spec_record_tag;
use crate::codec::spec_serialize;
use crate::errors::RaffleError;
use crate::ops::buy_outcome;
use crate::ops::claim_outcome;
use crate::ops::close_outcome;
use crate::ops::draw_outcome;
use crate::ops::prize_amount;
use crate::state::RaffleView;
use crate::state::TicketView;
use crate::state::ID_LEN;

verus! {

/// A ticket ledger is correctly numbered when it holds exactly `count`
/// tickets and the ticket at each position carries that position as its
/// sequence number.
pub open spec fn tickets_numbered(tickets: Seq<TicketView>, count: u32) -> bool {
    &&& tickets.len() == count
    &&& forall|i: int| 0 <= i < tickets.len() ==> (#[trigger] tickets[i]).ticket_number == i
}

/// Law: a fresh raffle's empty ledger is correctly numbered.
pub proof fn lemma_numbering_initial(tickets: Seq<TicketView>)
    requires
        tickets.len() == 0,
    ensures
        tickets_numbered(tickets, 0),
{
}

/// Law: every purchase the sale window admits extends a correctly
/// numbered ledger into a correctly numbered ledger — the new ticket
/// takes the next free number, so numbering stays gapless however many
/// purchases follow one another.
pub proof fn lemma_buy_extends_numbering(
    r: RaffleView,
    now: i64,
    tickets: Seq<TicketView>,
    t: TicketView,
)
    requires
        tickets_numbered(tickets, r.ticket_count),
        r.ticket_count < u32::MAX,
        buy_outcome(r, now) == Ok::<u32, RaffleError>(t.ticket_number),
    ensures
        tickets_numbered(tickets.push(t), (r.ticket_count + 1) as u32),
{
}

/// Some position of the ledger holds a ticket bearing the number `k`.
pub open spec fn ledger_has_number(tickets: Seq<TicketView>, k: int) -> bool {
    exists|i: int| 0 <= i < tickets.len() && (#[trigger] tickets[i]).ticket_number == k
}

/// Law: a correctly numbered ledger of `count` tickets issued exactly the
/// numbers zero up to `count`, each once — no gaps and no duplicates.
pub proof fn lemma_numbering_complete(tickets: Seq<TicketView>, count: u32)
    requires
        tickets_numbered(tickets, count),
    ensures
        forall|k: int| 0 <= k < count ==> #[trigger] ledger_has_number(tickets, k),
        forall|i: int, j: int|
            0 <= i < tickets.len() && 0 <= j < tickets.len() && i != j
                ==> (#[trigger] tickets[i]).ticket_number != (#[trigger] tickets[j]).ticket_number,
{
    assert forall|k: int| 0 <= k < count implies #[trigger] ledger_has_number(tickets, k) by {
        assert(0 <= k < tickets.len() && tickets[k].ticket_number == k);
    }
}

/// Law: drawing before the deadline always fails with `RaffleNotEnded`,
/// whoever calls and whatever the randomness inputs; the operation's
/// contract then leaves the record — the winner included — unchanged.
pub proof fn lemma_draw_before_end(r: RaffleView, caller: Seq<u8>, now: i64, slot: u64)
    requires
        now < r.end_ts,
    ensures
        draw_outcome(r, caller, now, slot) == Err::<u32, RaffleError>(RaffleError::RaffleNotEnded),
{
}

/// Law: once a winner is drawn, no draw ever succeeds again, so the
/// winner can never change; a repeat draw by the creator after the
/// deadline fails with `WinnerAlreadyDrawn` exactly.
pub proof fn lemma_draw_at_most_once(drawn: RaffleView, caller: Seq<u8>, now: i64, slot: u64)
    requires
        drawn.wf(),
        drawn.winner is Some,
    ensures
        draw_outcome(drawn, caller, now, slot) is Err,
        now >= drawn.end_ts && caller == drawn.creator ==> draw_outcome(drawn, caller, now, slot)
            == Err::<u32, RaffleError>(RaffleError::WinnerAlreadyDrawn),
{
}

/// Law: a drawn winner always indexes a sold ticket: whenever a draw
/// succeeds, the winning number is below the ticket count.
pub proof fn lemma_winner_in_range(r: RaffleView, caller: Seq<u8>, now: i64, slot: u64)
    requires
        draw_outcome(r, caller, now, slot) is Ok,
    ensures
        draw_outcome(r, caller, now, slot)->Ok_0 < r.ticket_count,
{
}

/// Law: a ticket other than the winning one is never paid: its claim
/// fails with `NotWinner`, whoever presents it and whatever the escrow
/// holds.
pub proof fn lemma_claim_wrong_ticket(
    r: RaffleView,
    ticket: TicketView,
    claimant: Seq<u8>,
    escrow_balance: u64,
    retained_minimum: u64,
)
    requires
        r.winner is Some,
        ticket.ticket_number != r.winner->Some_0,
    ensures
        claim_outcome(r, ticket, claimant, escrow_balance, retained_minimum) == Err::<
            u64,
            RaffleError,
        >(RaffleError::NotWinner),
{
}

/// Law: the prize is paid at most once. After any successful claim, a
/// second claim — even by the legitimate winner with the same ticket,
/// whatever the escrow then holds — fails with `PrizeAlreadyClaimed`.
pub proof fn lemma_claim_at_most_once(
    r: RaffleView,
    ticket: TicketView,
    claimant: Seq<u8>,
    escrow_balance: u64,
    retained_minimum: u64,
    later_balance: u64,
    later_minimum: u64,
)
    requires
        claim_outcome(r, ticket, claimant, escrow_balance, retained_minimum) is Ok,
    ensures
        claim_outcome(
            (RaffleView { prize_claimed: true, ..r }),
            ticket,
            claimant,
            later_balance,
            later_minimum,
        ) == Err::<u64, RaffleError>(RaffleError::PrizeAlreadyClaimed),
{
}

/// Law: with escrow balance `balance` above the retained minimum
/// `retained`, the prize is exactly nine tenths of the excess, rounded
/// down; it never exceeds the excess, so paying it leaves the custodian
/// at least the retained minimum.
pub proof fn lemma_claim_payout(balance: u64, retained: u64)
    requires
        balance > retained,
    ensures
        prize_amount(balance, retained) == ((balance - retained) * 9) / 10,
        prize_amount(balance, retained) <= balance - retained,
        balance - prize_amount(balance, retained) >= retained,
{
    let avail = (balance - retained) as u64;
    assert((avail * 9) / 10 <= avail) by (nonlinear_arith);
}

/// Law: the stored form of a record parses back to that record, with the
/// claim flag reset to false — serializer and parser agree on the layout,
/// so rewriting a record never corrupts it, and a second migration of an
/// already corrected record is harmless.
pub proof fn lemma_serialize_parse_round_trip(v: RaffleView)
    requires
        v.creator.len() == ID_LEN,
    ensures
        spec_parse_ok(spec_serialize(v)),
        spec_parsed(spec_serialize(v)) == (RaffleView { prize_claimed: false, ..v }),
{
    vstd::bytes::lemma_auto_spec_u32_to_from_le_bytes();
    vstd::bytes::lemma_auto_spec_u64_to_from_le_bytes();
    let s = spec_serialize(v);
    assert(s.subrange(8, 40) =~= v.creator);
    assert(s.subrange(40, 48) =~= vstd::bytes::spec_u64_to_le_bytes(v.ticket_price));
    assert(s.subrange(48, 52) =~= vstd::bytes::spec_u32_to_le_bytes(v.ticket_count));
    assert(s.subrange(52, 60) =~= vstd::bytes::spec_u64_to_le_bytes(
        crate::codec::i64_bits_spec(v.end_ts),
    ));
    if let Some(w) = v.winner {
        assert(s[60] == 1);
        assert(s.subrange(61, 65) =~= vstd::bytes::spec_u32_to_le_bytes(w));
    } else {
        assert(s[60] == 0);
    }
    crate::codec::lemma_i64_bits_round_trip(v.end_ts, 0);
    assert(spec_parsed(s) == (RaffleView { prize_claimed: false, ..v }));
}

/// Law: migration preserves every stored field except the claim flag.
/// For any parsable legacy buffer whose winner presence tag is a valid
/// boolean byte, the rewritten record keeps the creator, price, count,
/// deadline and winner bytes of the old buffer bit for bit, keeps the
/// trailing nonce byte, resets the claim byte to zero, and carries the
/// record's type tag at its head.
pub proof fn lemma_migrate_preserves_fields(d: Seq<u8>)
    requires
        spec_parse_ok(d),
        d[60] == 0 || d[60] == 1,
    ensures
        ({
            let out = spec_serialize(spec_parsed(d));
            &&& out.subrange(0, 8) == spec_record_tag()
            &&& out.subrange(8, 40) == d.subrange(8, 40)
            &&& out.subrange(40, 48) == d.subrange(40, 48)
            &&& out.subrange(48, 52) == d.subrange(48, 52)
            &&& out.subrange(52, 60) == d.subrange(52, 60)
            &&& out[60] == d[60]
            &&& (d[60] == 1 ==> out.subrange(61, 65) == d.subrange(61, 65))
            &&& out[out.len() - 2] == 0
            &&& out.last() == d[d.len() - 1]
        }),
{
    vstd::bytes::lemma_auto_spec_u32_to_from_le_bytes();
    vstd::bytes::lemma_auto_spec_u64_to_from_le_bytes();
    let p = spec_parsed(d);
    let out = spec_serialize(p);
    crate::codec::lemma_i64_bits_round_trip(
        0,
        vstd::bytes::spec_u64_from_le_bytes(d.subrange(52, 60)),
    );
    assert(out.subrange(0, 8) =~= spec_record_tag());
    assert(out.subrange(8, 40) =~= p.creator);
    assert(out.subrange(40, 48) =~= vstd::bytes::spec_u64_to_le_bytes(p.ticket_price));
    assert(out.subrange(48, 52) =~= vstd::bytes::spec_u32_to_le_bytes(p.ticket_count));
    assert(out.subrange(52, 60) =~= vstd::bytes::spec_u64_to_le_bytes(
        crate::codec::i64_bits_spec(p.end_ts),
    ));
    if d[60] == 1 {
        assert(out[60] == 1);
        assert(out.subrange(61, 65) =~= vstd::bytes::spec_u32_to_le_bytes(p.winner->Some_0));
    } else {
        assert(out[60] == 0);
    }
}

/// Law: the sweep at close never takes the custodian below the retained
/// minimum: with a balance above it, exactly the excess is swept and the
/// minimum stays; with a balance at or below it, nothing is swept.
pub proof fn lemma_close_retains_minimum(
    r: RaffleView,
    caller: Seq<u8>,
    now: i64,
    escrow_balance: u64,
    retained_minimum: u64,
)
    requires
        close_outcome(r, caller, now, escrow_balance, retained_minimum) is Ok,
    ensures
        ({
            let swept = close_outcome(r, caller, now, escrow_balance, retained_minimum)->Ok_0;
            &&& swept <= escrow_balance
            &&& (escrow_balance > retained_minimum ==> escrow_balance - swept == retained_minimum)
            &&& (escrow_balance <= retained_minimum ==> swept == 0)
        }),
{
}

/// Law: closing before the deadline always fails with `RaffleNotEnded`,
/// regardless of the caller — the creator included.
pub proof fn lemma_close_before_end(
    r: RaffleView,
    caller: Seq<u8>,
    now: i64,
    escrow_balance: u64,
    retained_minimum: u64,
)
    requires
        now < r.end_ts,
    ensures
        close_outcome(r, caller, now, escrow_balance, retained_minimum) == Err::<u64, RaffleError>(
            RaffleError::RaffleNotEnded,
        ),
{
}

} // verus!
