//! The draw result account the no-loss lottery program writes for each draw.
use vstd::prelude::*;
use vstd::bytes::{spec_u64_from_le_bytes, spec_u64_to_le_bytes, u64_from_le_bytes, u64_to_le_bytes};
use crate::utils::bytes::{append_bytes, copy_array};

verus! {

broadcast use vstd::array::group_array_axioms;

/// Length in bytes of a draw result account.
pub const DRAW_RESULT_LEN: usize = 96;

/// A draw's result, laid out as in the account: each field at its offset,
/// integers in little-endian order, with no padding.
#[derive(Clone, Copy, Debug, PartialEq, Eq)]
pub struct DrawResult {
    pub discriminator: [u8; 8],
    pub winner: [u8; 32],
    pub draw: u64,
    pub timestamp: i64,
    pub prize: u64,
    /// Draw result version. always 1
    pub version: u8,
    pub _reserved0: [u8; 7],
    pub lottery_num_tickets: u64,
    pub winning_ticket: u64,
    pub winner_num_tickets: u64,
}

/// The winner recorded in the bytes of a draw result account (bytes 8 to 40).
pub open spec fn recorded_winner(data: Seq<u8>) -> Seq<u8> {
    data.subrange(8, 40)
}

/// The draw number recorded in the bytes of a draw result account (bytes 40 to 48).
pub open spec fn recorded_draw(data: Seq<u8>) -> u64 {
    spec_u64_from_le_bytes(data.subrange(40, 48))
}

impl DrawResult {
    /// The account bytes that hold this result.
    pub open spec fn spec_to_bytes(self) -> Seq<u8> {
        self.discriminator@
            + self.winner@
            + spec_u64_to_le_bytes(self.draw)
            + spec_u64_to_le_bytes(self.timestamp as u64)
            + spec_u64_to_le_bytes(self.prize)
            + seq![self.version]
            + self._reserved0@
            + spec_u64_to_le_bytes(self.lottery_num_tickets)
            + spec_u64_to_le_bytes(self.winning_ticket)
            + spec_u64_to_le_bytes(self.winner_num_tickets)
    }

    /// Reads a draw result from the bytes of its account.
    pub fn from_bytes(data: &[u8]) -> (r: DrawResult)
        requires
            data@.len() == DRAW_RESULT_LEN,
        ensures
            r.spec_to_bytes() == data@,
            r.winner@ == recorded_winner(data@),
            r.draw == recorded_draw(data@),
            r.discriminator@ == data@.subrange(0, 8),
            r.winner@ == data@.subrange(8, 40),
            r.draw == spec_u64_from_le_bytes(data@.subrange(40, 48)),
            r.timestamp as u64 == spec_u64_from_le_bytes(data@.subrange(48, 56)),
            r.prize == spec_u64_from_le_bytes(data@.subrange(56, 64)),
            r.version == data@[64],
            r._reserved0@ == data@.subrange(65, 72),
            r.lottery_num_tickets == spec_u64_from_le_bytes(data@.subrange(72, 80)),
            r.winning_ticket == spec_u64_from_le_bytes(data@.subrange(80, 88)),
            r.winner_num_tickets == spec_u64_from_le_bytes(data@.subrange(88, 96)),
    {
        let timestamp_bits = u64_from_le_bytes(&data[48..56]);
        let r = DrawResult {
            discriminator: copy_array(data, 0),
            winner: copy_array(data, 8),
            draw: u64_from_le_bytes(&data[40..48]),
            timestamp: timestamp_bits as i64,
            prize: u64_from_le_bytes(&data[56..64]),
            version: data[64],
            _reserved0: copy_array(data, 65),
            lottery_num_tickets: u64_from_le_bytes(&data[72..80]),
            winning_ticket: u64_from_le_bytes(&data[80..88]),
            winner_num_tickets: u64_from_le_bytes(&data[88..96]),
        };
        proof {
            vstd::bytes::lemma_auto_spec_u64_to_from_le_bytes();
            assert((timestamp_bits as i64) as u64 == timestamp_bits) by (bit_vector);
            let d = data@;
            assert(spec_u64_to_le_bytes(r.draw) == d.subrange(40, 48));
            assert(spec_u64_to_le_bytes(r.timestamp as u64) == d.subrange(48, 56));
            assert(spec_u64_to_le_bytes(r.prize) == d.subrange(56, 64));
            assert(spec_u64_to_le_bytes(r.lottery_num_tickets) == d.subrange(72, 80));
            assert(spec_u64_to_le_bytes(r.winning_ticket) == d.subrange(80, 88));
            assert(spec_u64_to_le_bytes(r.winner_num_tickets) == d.subrange(88, 96));
            assert(r.spec_to_bytes() =~= d);
            assert((timestamp_bits as i64) as u64 == timestamp_bits) by (bit_vector);
        }
        r
    }

    /// Writes the result as the bytes of its account.
    pub fn to_bytes(&self) -> (r: Vec<u8>)
        ensures
            r@ == self.spec_to_bytes(),
            r@.len() == DRAW_RESULT_LEN,
            r@.subrange(0, 8) == self.discriminator@,
            r@.subrange(8, 40) == self.winner@,
            r@.subrange(40, 48) == spec_u64_to_le_bytes(self.draw),
            r@.subrange(48, 56) == spec_u64_to_le_bytes(self.timestamp as u64),
            r@.subrange(56, 64) == spec_u64_to_le_bytes(self.prize),
            r@[64] == self.version,
            r@.subrange(65, 72) == self._reserved0@,
            r@.subrange(72, 80) == spec_u64_to_le_bytes(self.lottery_num_tickets),
            r@.subrange(80, 88) == spec_u64_to_le_bytes(self.winning_ticket),
            r@.subrange(88, 96) == spec_u64_to_le_bytes(self.winner_num_tickets),
    {
        let mut out: Vec<u8> = Vec::new();
        append_bytes(&mut out, self.discriminator.as_slice());
        append_bytes(&mut out, self.winner.as_slice());
        let mut field = u64_to_le_bytes(self.draw);
        out.append(&mut field);
        let mut field = u64_to_le_bytes(self.timestamp as u64);
        out.append(&mut field);
        let mut field = u64_to_le_bytes(self.prize);
        out.append(&mut field);
        out.push(self.version);
        append_bytes(&mut out, self._reserved0.as_slice());
        let mut field = u64_to_le_bytes(self.lottery_num_tickets);
        out.append(&mut field);
        let mut field = u64_to_le_bytes(self.winning_ticket);
        out.append(&mut field);
        let mut field = u64_to_le_bytes(self.winner_num_tickets);
        out.append(&mut field);
        proof {
            vstd::bytes::lemma_auto_spec_u64_to_from_le_bytes();
        }
        assert(out@ =~= self.spec_to_bytes());
        proof {
            lemma_draw_result_layout(*self);
        }
        out
    }
}

/// Each field of a draw result sits at its offset in the account, in the
/// order the fields are declared and without padding: discriminator at 0,
/// winner at 8, draw at 40, timestamp at 48, prize at 56, version at 64,
/// reserved bytes at 65, ticket count at 72, winning ticket at 80 and the
/// winner's ticket count at 88, integers in little-endian order; the account
/// is 96 bytes long.
pub proof fn lemma_draw_result_layout(x: DrawResult)
    ensures
        x.spec_to_bytes().len() == 96,
        x.spec_to_bytes().subrange(0, 8) == x.discriminator@,
        x.spec_to_bytes().subrange(8, 40) == x.winner@,
        x.spec_to_bytes().subrange(40, 48) == spec_u64_to_le_bytes(x.draw),
        x.spec_to_bytes().subrange(48, 56) == spec_u64_to_le_bytes(x.timestamp as u64),
        x.spec_to_bytes().subrange(56, 64) == spec_u64_to_le_bytes(x.prize),
        x.spec_to_bytes()[64] == x.version,
        x.spec_to_bytes().subrange(65, 72) == x._reserved0@,
        x.spec_to_bytes().subrange(72, 80) == spec_u64_to_le_bytes(x.lottery_num_tickets),
        x.spec_to_bytes().subrange(80, 88) == spec_u64_to_le_bytes(x.winning_ticket),
        x.spec_to_bytes().subrange(88, 96) == spec_u64_to_le_bytes(x.winner_num_tickets),
{
    vstd::bytes::lemma_auto_spec_u64_to_from_le_bytes();
    let s = x.spec_to_bytes();
    assert(s.subrange(0, 8) =~= x.discriminator@);
    assert(s.subrange(8, 40) =~= x.winner@);
    assert(s.subrange(40, 48) =~= spec_u64_to_le_bytes(x.draw));
    assert(s.subrange(48, 56) =~= spec_u64_to_le_bytes(x.timestamp as u64));
    assert(s.subrange(56, 64) =~= spec_u64_to_le_bytes(x.prize));
    assert(s.subrange(65, 72) =~= x._reserved0@);
    assert(s.subrange(72, 80) =~= spec_u64_to_le_bytes(x.lottery_num_tickets));
    assert(s.subrange(80, 88) =~= spec_u64_to_le_bytes(x.winning_ticket));
    assert(s.subrange(88, 96) =~= spec_u64_to_le_bytes(x.winner_num_tickets));
}

/// Reading a draw result from account bytes reads every field at its offset:
/// the bytes are those the fields are written as.
pub proof fn lemma_draw_result_read_fields(x: DrawResult, data: Seq<u8>)
    requires
        x.spec_to_bytes() == data,
    ensures
        data.len() == 96,
        x.winner@ == data.subrange(8, 40),
        x.draw == spec_u64_from_le_bytes(data.subrange(40, 48)),
        x.timestamp as u64 == spec_u64_from_le_bytes(data.subrange(48, 56)),
        x.prize == spec_u64_from_le_bytes(data.subrange(56, 64)),
        x.version == data[64],
        x.lottery_num_tickets == spec_u64_from_le_bytes(data.subrange(72, 80)),
        x.winning_ticket == spec_u64_from_le_bytes(data.subrange(80, 88)),
        x.winner_num_tickets == spec_u64_from_le_bytes(data.subrange(88, 96)),
{
    vstd::bytes::lemma_auto_spec_u64_to_from_le_bytes();
    lemma_draw_result_layout(x);
}

/// Two draw results with the same account bytes are the same result: reading
/// back the bytes a result was written as gives that result.
pub proof fn lemma_draw_result_bytes_injective(a: DrawResult, b: DrawResult)
    requires
        a.spec_to_bytes() == b.spec_to_bytes(),
    ensures
        a == b,
{
    vstd::bytes::lemma_auto_spec_u64_to_from_le_bytes();
    let s = a.spec_to_bytes();
    let t = b.spec_to_bytes();
    assert(a.discriminator@ =~= s.subrange(0, 8));
    assert(b.discriminator@ =~= t.subrange(0, 8));
    assert(a.winner@ =~= s.subrange(8, 40));
    assert(b.winner@ =~= t.subrange(8, 40));
    assert(spec_u64_to_le_bytes(a.draw) =~= s.subrange(40, 48));
    assert(spec_u64_to_le_bytes(b.draw) =~= t.subrange(40, 48));
    assert(spec_u64_to_le_bytes(a.timestamp as u64) =~= s.subrange(48, 56));
    assert(spec_u64_to_le_bytes(b.timestamp as u64) =~= t.subrange(48, 56));
    assert(spec_u64_to_le_bytes(a.prize) =~= s.subrange(56, 64));
    assert(spec_u64_to_le_bytes(b.prize) =~= t.subrange(56, 64));
    assert(a.version == s[64]);
    assert(b.version == t[64]);
    assert(a._reserved0@ =~= s.subrange(65, 72));
    assert(b._reserved0@ =~= t.subrange(65, 72));
    assert(spec_u64_to_le_bytes(a.lottery_num_tickets) =~= s.subrange(72, 80));
    assert(spec_u64_to_le_bytes(b.lottery_num_tickets) =~= t.subrange(72, 80));
    assert(spec_u64_to_le_bytes(a.winning_ticket) =~= s.subrange(80, 88));
    assert(spec_u64_to_le_bytes(b.winning_ticket) =~= t.subrange(80, 88));
    assert(spec_u64_to_le_bytes(a.winner_num_tickets) =~= s.subrange(88, 96));
    assert(spec_u64_to_le_bytes(b.winner_num_tickets) =~= t.subrange(88, 96));
    let (ta, tb) = (a.timestamp, b.timestamp);
    assert(ta as u64 == tb as u64 ==> ta == tb) by (bit_vector);
    assert(a.discriminator =~= b.discriminator);
    assert(a.winner =~= b.winner);
    assert(a._reserved0 =~= b._reserved0);
}

} // verus!
