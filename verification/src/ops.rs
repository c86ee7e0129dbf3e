//! The raffle state machine: one pure, verified function per operation.
//!
//! Each operation takes the raffle record and the host-supplied facts it
//! decides on (caller identity, current time, slot counter, escrow
//! balance, retained minimum) and returns either the operation's result
//! or the exact error owed to the caller. The host performs the fund
//! transfers and record writes that the results call for.

use vstd::prelude::*;

use crate::codec::i64_bits;
use crate::codec::i64_bits_spec;
use crate::errors::RaffleError;
use crate::state::AccountId;
use crate::state::Raffle;
use crate::state::RaffleView;
use crate::state::Ticket;
use crate::state::TicketView;

verus! {

/// The weak pseudo-random mix: the slot counter and the timestamp's bit
/// pattern are multiplied with wraparound, then reduced modulo the fixed
/// bound `u32::MAX`. This is manipulable by anyone who can influence the
/// timing of the call; it is kept only for behavioural compatibility and
/// must not be used where adversarial manipulation has material value.
pub open spec fn mix_spec(slot: u64, ts_bits: u64) -> u32 {
    (vstd::wrapping::u64_specs::wrapping_mul(slot, ts_bits) % 0xFFFF_FFFFu64) as u32
}

/// Computes the weak pseudo-random mix of the slot counter and a
/// timestamp bit pattern.
pub fn weak_random(slot: u64, ts_bits: u64) -> (r: u32)
    ensures
        r == mix_spec(slot, ts_bits),
{
    let m = slot.wrapping_mul(ts_bits);
    (m % 0xFFFF_FFFFu64) as u32
}

/// Funds available for payout: the escrow balance above the retained
/// minimum, by saturating subtraction (never below zero).
pub open spec fn available_funds(balance: u64, retained: u64) -> u64 {
    if balance > retained {
        (balance - retained) as u64
    } else {
        0u64
    }
}

/// The winner's share: nine tenths of the available funds, rounded down.
pub open spec fn prize_amount(balance: u64, retained: u64) -> u64 {
    ((available_funds(balance, retained) * 9) / 10) as u64
}

/// What `buy_ticket` returns: the new ticket's sequence number, or
/// `RaffleEnded` exactly when the deadline has passed.
pub open spec fn buy_outcome(r: RaffleView, now: i64) -> Result<u32, RaffleError> {
    if now >= r.end_ts {
        Err(RaffleError::RaffleEnded)
    } else {
        Ok(r.ticket_count)
    }
}

/// What `draw_winner` returns: the winning ticket number, or the exact
/// error owed. The deadline is checked first, then authorization, then
/// that tickets exist, then that no winner was drawn before.
pub open spec fn draw_outcome(r: RaffleView, caller: Seq<u8>, now: i64, slot: u64) -> Result<
    u32,
    RaffleError,
> {
    if now < r.end_ts {
        Err(RaffleError::RaffleNotEnded)
    } else if caller != r.creator {
        Err(RaffleError::NotCreator)
    } else if r.ticket_count == 0 {
        Err(RaffleError::NoTicketsSold)
    } else if r.winner is Some {
        Err(RaffleError::WinnerAlreadyDrawn)
    } else {
        Ok(mix_spec(slot, i64_bits_spec(now)) % r.ticket_count)
    }
}

/// What `claim_prize` returns: the prize paid, or the exact error owed.
/// A winner must exist, the ticket must be the winning one, the claimant
/// must own it, and the prize must not have been paid before.
pub open spec fn claim_outcome(
    r: RaffleView,
    ticket: TicketView,
    claimant: Seq<u8>,
    escrow_balance: u64,
    retained_minimum: u64,
) -> Result<u64, RaffleError> {
    if r.winner is None {
        Err(RaffleError::WinnerNotDrawn)
    } else if ticket.ticket_number != r.winner->Some_0 {
        Err(RaffleError::NotWinner)
    } else if ticket.buyer != claimant {
        Err(RaffleError::NotTicketOwner)
    } else if r.prize_claimed {
        Err(RaffleError::PrizeAlreadyClaimed)
    } else {
        Ok(prize_amount(escrow_balance, retained_minimum))
    }
}

/// What `close_raffle` returns: the amount swept to the creator, or the
/// exact error owed. Before the deadline the close is refused whoever
/// calls; after it, only the creator may close.
pub open spec fn close_outcome(
    r: RaffleView,
    caller: Seq<u8>,
    now: i64,
    escrow_balance: u64,
    retained_minimum: u64,
) -> Result<u64, RaffleError> {
    if now < r.end_ts {
        Err(RaffleError::RaffleNotEnded)
    } else if caller != r.creator {
        Err(RaffleError::NotCreator)
    } else {
        Ok(available_funds(escrow_balance, retained_minimum))
    }
}

/// Opens a raffle: a fresh record in the selling phase with no tickets,
/// no winner, and the prize unclaimed. The host allocates the record and
/// its paired escrow custodian (zero balance) at addresses derived from
/// the creator's identity, and fails if either already exists.
pub fn initialize_raffle(creator: AccountId, ticket_price: u64, end_ts: i64, bump: u8) -> (r:
    Raffle)
    ensures
        r@ == (RaffleView {
            creator: creator@,
            ticket_price,
            ticket_count: 0u32,
            end_ts,
            winner: None,
            prize_claimed: false,
            bump,
        }),
        creator@.len() == crate::state::ID_LEN ==> r@.wf(),
{
    Raffle {
        creator,
        ticket_price,
        ticket_count: 0,
        end_ts,
        winner: None,
        prize_claimed: false,
        bump,
    }
}

/// Sells one ticket. Before the deadline: the buyer owes `ticket_price`
/// to the escrow custodian (the host moves it and fails the whole
/// operation on insufficient funds), a ticket numbered with the current
/// count is created, and the count increments. At or after the deadline:
/// fails with `RaffleEnded` and changes nothing.
pub fn buy_ticket(
    raffle: &mut Raffle,
    buyer: AccountId,
    raffle_id: AccountId,
    ticket_bump: u8,
    now: i64,
) -> (r: Result<Ticket, RaffleError>)
    requires
        old(raffle)@.wf(),
        old(raffle).ticket_count < u32::MAX,
    ensures
        final(raffle)@.wf(),
        match r {
            Ok(t) => {
                &&& buy_outcome(old(raffle)@, now) == Ok::<u32, RaffleError>(t.ticket_number)
                &&& t@ == (TicketView {
                    buyer: buyer@,
                    ticket_number: old(raffle).ticket_count,
                    raffle: raffle_id@,
                    bump: ticket_bump,
                })
                &&& final(raffle)@ == (RaffleView {
                    ticket_count: (old(raffle).ticket_count + 1) as u32,
                    ..old(raffle)@
                })
            },
            Err(e) => {
                &&& buy_outcome(old(raffle)@, now) == Err::<u32, RaffleError>(e)
                &&& final(raffle)@ == old(raffle)@
            },
        },
{
    if now >= raffle.end_ts {
        return Err(RaffleError::RaffleEnded);
    }
    let ticket = Ticket {
        buyer,
        ticket_number: raffle.ticket_count,
        raffle: raffle_id,
        bump: ticket_bump,
    };
    raffle.ticket_count = raffle.ticket_count + 1;
    Ok(ticket)
}

/// Draws the winning ticket number once the deadline has passed. Only
/// the creator may draw, at most once, and only if tickets were sold.
/// The winner is the weak pseudo-random mix of the slot counter and the
/// current time, reduced modulo the ticket count, so it always indexes a
/// sold ticket. On any failure the record is unchanged.
pub fn draw_winner(raffle: &mut Raffle, caller: &AccountId, now: i64, slot: u64) -> (r: Result<
    u32,
    RaffleError,
>)
    requires
        old(raffle)@.wf(),
    ensures
        final(raffle)@.wf(),
        r == draw_outcome(old(raffle)@, caller@, now, slot),
        match r {
            Ok(w) => final(raffle)@ == (RaffleView { winner: Some(w), ..old(raffle)@ }),
            Err(_) => final(raffle)@ == old(raffle)@,
        },
{
    if now < raffle.end_ts {
        return Err(RaffleError::RaffleNotEnded);
    }
    if !caller.equals(&raffle.creator) {
        return Err(RaffleError::NotCreator);
    }
    if raffle.ticket_count == 0 {
        return Err(RaffleError::NoTicketsSold);
    }
    if raffle.winner.is_some() {
        return Err(RaffleError::WinnerAlreadyDrawn);
    }
    let mixed = weak_random(slot, i64_bits(now));
    let w = mixed % raffle.ticket_count;
    raffle.winner = Some(w);
    Ok(w)
}

/// Pays the prize: nine tenths (rounded down) of the escrow balance
/// above the retained minimum goes to the claimant, who must own the
/// winning ticket, and the claim is recorded so it can never pay twice.
/// The host transfers the returned amount out of the escrow custodian
/// under the raffle's derivation proof. On any failure the record is
/// unchanged.
pub fn claim_prize(
    raffle: &mut Raffle,
    ticket: &Ticket,
    claimant: &AccountId,
    escrow_balance: u64,
    retained_minimum: u64,
) -> (r: Result<u64, RaffleError>)
    requires
        old(raffle)@.wf(),
    ensures
        final(raffle)@.wf(),
        r == claim_outcome(old(raffle)@, ticket@, claimant@, escrow_balance, retained_minimum),
        match r {
            Ok(_) => final(raffle)@ == (RaffleView { prize_claimed: true, ..old(raffle)@ }),
            Err(_) => final(raffle)@ == old(raffle)@,
        },
{
    let winner = match raffle.winner {
        Some(w) => w,
        None => {
            return Err(RaffleError::WinnerNotDrawn);
        },
    };
    if ticket.ticket_number != winner {
        return Err(RaffleError::NotWinner);
    }
    if !ticket.buyer.equals(claimant) {
        return Err(RaffleError::NotTicketOwner);
    }
    if raffle.prize_claimed {
        return Err(RaffleError::PrizeAlreadyClaimed);
    }
    let available: u64 = if escrow_balance > retained_minimum {
        escrow_balance - retained_minimum
    } else {
        0
    };
    let wide: u128 = (available as u128) * 9;
    let prize_wide: u128 = wide / 10;
    proof {
        assert(prize_wide <= available) by (nonlinear_arith)
            requires
                wide == available as u128 * 9,
                prize_wide == wide / 10,
        ;
    }
    let prize: u64 = prize_wide as u64;
    raffle.prize_claimed = true;
    Ok(prize)
}

/// Sweeps the escrow balance above the retained minimum to the creator
/// once the deadline has passed, whether or not a winner was ever drawn
/// or the prize claimed. The host transfers the returned amount and then
/// destroys the raffle record, returning its storage deposit to the
/// creator; the record itself is read-only here.
pub fn close_raffle(
    raffle: &Raffle,
    caller: &AccountId,
    now: i64,
    escrow_balance: u64,
    retained_minimum: u64,
) -> (r: Result<u64, RaffleError>)
    ensures
        r == close_outcome(raffle@, caller@, now, escrow_balance, retained_minimum),
{
    if now < raffle.end_ts {
        return Err(RaffleError::RaffleNotEnded);
    }
    if !caller.equals(&raffle.creator) {
        return Err(RaffleError::NotCreator);
    }
    if escrow_balance > retained_minimum {
        Ok(escrow_balance - retained_minimum)
    } else {
        Ok(0)
    }
}

} // verus!
