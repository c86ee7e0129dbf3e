//! Error kinds surfaced by the raffle operations.

use vstd::prelude::*;

verus! {

/// Why a raffle operation was refused. Every failure is terminal to the
/// attempted operation and names a specific cause; nothing is retried.
#[derive(Clone, Copy, Debug, PartialEq, Eq, Structural)]
pub enum RaffleError {
    /// The sale window has closed; no more tickets can be bought.
    RaffleEnded,
    /// The sale window is still open; drawing and closing are not yet legal.
    RaffleNotEnded,
    /// Only the raffle's creator may perform this operation.
    NotCreator,
    /// No tickets were sold, so no winner can ever be drawn.
    NoTicketsSold,
    /// A winner has already been drawn and can never change.
    WinnerAlreadyDrawn,
    /// No winner has been drawn yet, so the prize cannot be claimed.
    WinnerNotDrawn,
    /// The presented ticket is not the winning ticket.
    NotWinner,
    /// The claimant does not own the presented ticket.
    NotTicketOwner,
    /// The prize was already paid out once and can never be paid again.
    PrizeAlreadyClaimed,
}

} // verus!
