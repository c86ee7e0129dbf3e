//! The raffle's persistent records: account identities, the raffle record,
//! and the per-purchase ticket record, together with their mathematical
//! views and well-formedness.

use vstd::prelude::*;

verus! {

/// Width in bytes of an account identity.
pub const ID_LEN: usize = 32;

/// An account identity: a fixed-width byte string naming a party or a
/// record in the host's store. The core only ever compares identities
/// and copies them; it never interprets their contents.
pub struct AccountId {
    pub bytes: Vec<u8>,
}

impl View for AccountId {
    type V = Seq<u8>;

    open spec fn view(&self) -> Seq<u8> {
        self.bytes@
    }
}

impl AccountId {
    /// A well-formed identity is exactly `ID_LEN` bytes wide.
    pub open spec fn wf(&self) -> bool {
        self@.len() == ID_LEN
    }

    pub fn new(bytes: Vec<u8>) -> (r: AccountId)
        ensures
            r@ == bytes@,
    {
        AccountId { bytes }
    }

    /// Byte-for-byte identity comparison.
    pub fn equals(&self, other: &AccountId) -> (r: bool)
        ensures
            r == (self@ == other@),
    {
        if self.bytes.len() != other.bytes.len() {
            return false;
        }
        let n = self.bytes.len();
        let mut i: usize = 0;
        while i < n
            invariant
                i <= n,
                n == self@.len(),
                n == other@.len(),
                forall|j: int| 0 <= j < i ==> self@[j] == other@[j],
            decreases n - i,
        {
            if self.bytes[i] != other.bytes[i] {
                return false;
            }
            i = i + 1;
        }
        proof {
            assert(self@ =~= other@);
        }
        true
    }

    /// A fresh identity holding the same bytes.
    pub fn duplicate(&self) -> (r: AccountId)
        ensures
            r@ == self@,
    {
        let mut bytes: Vec<u8> = Vec::new();
        bytes.extend_from_slice(self.bytes.as_slice());
        AccountId { bytes }
    }
}

/// The mathematical value of a raffle record.
pub struct RaffleView {
    pub creator: Seq<u8>,
    pub ticket_price: u64,
    pub ticket_count: u32,
    pub end_ts: i64,
    pub winner: Option<u32>,
    pub prize_claimed: bool,
    pub bump: u8,
}

impl RaffleView {
    /// Well-formedness: the creator identity has its fixed width, and a
    /// drawn winner always indexes a sold ticket.
    pub open spec fn wf(self) -> bool {
        &&& self.creator.len() == ID_LEN
        &&& (self.winner matches Some(w) ==> w < self.ticket_count)
    }
}

/// One raffle: the state machine tracking pricing, ticket count, deadline,
/// the drawn winner, and whether the prize was paid.
pub struct Raffle {
    /// Identity of the account empowered to draw and to sweep/close.
    pub creator: AccountId,
    /// Fee per ticket, in the smallest currency unit.
    pub ticket_price: u64,
    /// Tickets sold so far; also the next ticket's sequence number.
    pub ticket_count: u32,
    /// Absolute deadline: sales stop and drawing becomes legal at this time.
    pub end_ts: i64,
    /// Winning ticket index; unset until drawn, set exactly once.
    pub winner: Option<u32>,
    /// False until the winner successfully claims.
    pub prize_claimed: bool,
    /// Derivation nonce of the raffle's stored record.
    pub bump: u8,
}

impl View for Raffle {
    type V = RaffleView;

    open spec fn view(&self) -> RaffleView {
        RaffleView {
            creator: self.creator@,
            ticket_price: self.ticket_price,
            ticket_count: self.ticket_count,
            end_ts: self.end_ts,
            winner: self.winner,
            prize_claimed: self.prize_claimed,
            bump: self.bump,
        }
    }
}

/// The mathematical value of a ticket record.
pub struct TicketView {
    pub buyer: Seq<u8>,
    pub ticket_number: u32,
    pub raffle: Seq<u8>,
    pub bump: u8,
}

/// One sold ticket, immutable after creation.
pub struct Ticket {
    /// Identity of the purchaser.
    pub buyer: AccountId,
    /// Sequence number assigned at purchase time, starting at zero.
    pub ticket_number: u32,
    /// Identity of the owning raffle's record (lookup only).
    pub raffle: AccountId,
    /// Derivation nonce of the ticket's stored record.
    pub bump: u8,
}

impl View for Ticket {
    type V = TicketView;

    open spec fn view(&self) -> TicketView {
        TicketView {
            buyer: self.buyer@,
            ticket_number: self.ticket_number,
            raffle: self.raffle@,
            bump: self.bump,
        }
    }
}

} // verus!
