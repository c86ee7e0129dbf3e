//! Byte-level representation of persisted raffle records: the two's
//! complement view of signed timestamps, and (below) the legacy record
//! layout that the migration routine parses and rewrites.

use vstd::prelude::*;
use vstd::slice::slice_index_get;
use vstd::slice::slice_subrange;
use vstd::slice::slice_to_vec;

use crate::state::AccountId;
use crate::state::Raffle;
use crate::state::RaffleView;

verus! {

/// The two's complement bit pattern of a signed 64-bit value, as the
/// unsigned value holding the same bits.
pub open spec fn i64_bits_spec(x: i64) -> u64 {
    if x >= 0 {
        x as u64
    } else {
        (x + 0x1_0000_0000_0000_0000) as u64
    }
}

/// The signed 64-bit value whose two's complement bit pattern is `b`.
pub open spec fn i64_from_bits_spec(b: u64) -> i64 {
    if b < 0x8000_0000_0000_0000 {
        b as i64
    } else {
        (b - 0x1_0000_0000_0000_0000) as i64
    }
}

pub fn i64_bits(x: i64) -> (r: u64)
    ensures
        r == i64_bits_spec(x),
{
    if x >= 0 {
        x as u64
    } else {
        ((x as i128) + 0x1_0000_0000_0000_0000i128) as u64
    }
}

pub fn i64_from_bits(b: u64) -> (r: i64)
    ensures
        r == i64_from_bits_spec(b),
{
    if b < 0x8000_0000_0000_0000 {
        b as i64
    } else {
        ((b as i128) - 0x1_0000_0000_0000_0000i128) as i64
    }
}

/// Round trip: the bit pattern determines the signed value and back.
pub proof fn lemma_i64_bits_round_trip(x: i64, b: u64)
    ensures
        i64_from_bits_spec(i64_bits_spec(x)) == x,
        i64_bits_spec(i64_from_bits_spec(b)) == b,
{
}

/// The type tag written at the head of every rewritten raffle record.
pub open spec fn spec_record_tag() -> Seq<u8> {
    seq![143u8, 133u8, 63u8, 173u8, 138u8, 10u8, 142u8, 200u8]
}

/// A legacy buffer is parsable when every field the migration reads lies
/// within it: the fixed-width fields end at byte 61, and a present winner
/// adds four more bytes. The corrupted claim flag is never read.
pub open spec fn spec_parse_ok(d: Seq<u8>) -> bool {
    &&& d.len() >= 61
    &&& (d[60] != 0 ==> d.len() >= 65)
}

/// The winner field of a legacy buffer: a one-byte presence tag at byte
/// 60, followed by the value when the tag is non-zero.
pub open spec fn spec_parsed_winner(d: Seq<u8>) -> Option<u32> {
    if d[60] == 0 {
        None
    } else {
        Some(vstd::bytes::spec_u32_from_le_bytes(d.subrange(61, 65)))
    }
}

/// The record a parsable legacy buffer describes. The claim flag is not
/// taken from the buffer — its legacy encoding is the known corruption —
/// but force-reset to false; the trailing byte is the stored nonce.
pub open spec fn spec_parsed(d: Seq<u8>) -> RaffleView {
    RaffleView {
        creator: d.subrange(8, 40),
        ticket_price: vstd::bytes::spec_u64_from_le_bytes(d.subrange(40, 48)),
        ticket_count: vstd::bytes::spec_u32_from_le_bytes(d.subrange(48, 52)),
        end_ts: i64_from_bits_spec(vstd::bytes::spec_u64_from_le_bytes(d.subrange(52, 60))),
        winner: spec_parsed_winner(d),
        prize_claimed: false,
        bump: d[d.len() - 1],
    }
}

/// The winner field as stored: one absence byte, or a presence byte
/// followed by the little-endian value.
pub open spec fn spec_winner_bytes(w: Option<u32>) -> Seq<u8> {
    match w {
        None => seq![0u8],
        Some(v) => seq![1u8] + vstd::bytes::spec_u32_to_le_bytes(v),
    }
}

pub open spec fn spec_bool_byte(b: bool) -> u8 {
    if b {
        1u8
    } else {
        0u8
    }
}

/// The full stored form of a raffle record: the type tag, then each field
/// in order, little-endian, with the winner under its presence tag.
pub open spec fn spec_serialize(v: RaffleView) -> Seq<u8> {
    spec_record_tag() + v.creator + vstd::bytes::spec_u64_to_le_bytes(v.ticket_price)
        + vstd::bytes::spec_u32_to_le_bytes(v.ticket_count) + vstd::bytes::spec_u64_to_le_bytes(
        i64_bits_spec(v.end_ts),
    ) + spec_winner_bytes(v.winner) + seq![spec_bool_byte(v.prize_claimed)] + seq![v.bump]
}

/// Reads the fields of a previously persisted raffle record out of its
/// raw bytes, skipping the corrupted claim flag, which comes back as
/// false. Returns nothing — and reads nothing — when the buffer is too
/// short for the fields it would have to parse.
pub fn parse_legacy_raffle(data: &[u8]) -> (r: Option<Raffle>)
    ensures
        r is Some <==> spec_parse_ok(data@),
        (r matches Some(rec) ==> rec@ == spec_parsed(data@)),
{
    let n = data.len();
    if n < 61 {
        return None;
    }
    let winner_tag = *slice_index_get(data, 60);
    let winner: Option<u32> = if winner_tag == 0 {
        None
    } else {
        if n < 65 {
            return None;
        }
        Some(vstd::bytes::u32_from_le_bytes(slice_subrange(data, 61, 65)))
    };
    let creator_bytes = slice_to_vec(slice_subrange(data, 8, 40));
    let ticket_price = vstd::bytes::u64_from_le_bytes(slice_subrange(data, 40, 48));
    let ticket_count = vstd::bytes::u32_from_le_bytes(slice_subrange(data, 48, 52));
    let end_ts = i64_from_bits(vstd::bytes::u64_from_le_bytes(slice_subrange(data, 52, 60)));
    let bump = *slice_index_get(data, n - 1);
    Some(
        Raffle {
            creator: AccountId { bytes: creator_bytes },
            ticket_price,
            ticket_count,
            end_ts,
            winner,
            prize_claimed: false,
            bump,
        },
    )
}

/// Writes a raffle record into its full stored form: the type tag first,
/// then each field in order.
pub fn serialize_raffle(raffle: &Raffle) -> (out: Vec<u8>)
    ensures
        out@ == spec_serialize(raffle@),
{
    let mut out: Vec<u8> = Vec::new();
    out.push(143);
    out.push(133);
    out.push(63);
    out.push(173);
    out.push(138);
    out.push(10);
    out.push(142);
    out.push(200);
    proof {
        assert(out@ =~= spec_record_tag());
    }
    let mut creator_bytes = slice_to_vec(raffle.creator.bytes.as_slice());
    out.append(&mut creator_bytes);
    let mut price_bytes = vstd::bytes::u64_to_le_bytes(raffle.ticket_price);
    out.append(&mut price_bytes);
    let mut count_bytes = vstd::bytes::u32_to_le_bytes(raffle.ticket_count);
    out.append(&mut count_bytes);
    let mut ts_bytes = vstd::bytes::u64_to_le_bytes(i64_bits(raffle.end_ts));
    out.append(&mut ts_bytes);
    match raffle.winner {
        None => {
            out.push(0);
        },
        Some(w) => {
            out.push(1);
            let mut winner_bytes = vstd::bytes::u32_to_le_bytes(w);
            out.append(&mut winner_bytes);
            proof {
                assert(seq![1u8] + vstd::bytes::spec_u32_to_le_bytes(w) =~= spec_winner_bytes(
                    raffle.winner,
                ));
            }
        },
    }
    if raffle.prize_claimed {
        out.push(1);
    } else {
        out.push(0);
    }
    out.push(raffle.bump);
    proof {
        assert(out@ =~= spec_serialize(raffle@));
    }
    out
}

/// The one-shot repair of a legacy raffle record: re-parses the buffer
/// independently of the corrupted claim flag, rebuilds the record with
/// the flag reset to false, and returns the full bytes to write back in
/// its place (the host resizes the stored record to fit them exactly).
/// Returns nothing — and writes nothing — when the buffer is too short
/// to parse. Safe to run twice: the flag is always re-derived, never
/// toggled.
pub fn migrate_raffle(data: &[u8]) -> (r: Option<Vec<u8>>)
    ensures
        r is Some <==> spec_parse_ok(data@),
        (r matches Some(out) ==> out@ == spec_serialize(spec_parsed(data@))),
{
    match parse_legacy_raffle(data) {
        None => None,
        Some(rec) => Some(serialize_raffle(&rec)),
    }
}

} // verus!
