//! The account that lists the prize mints of a draw.
use vstd::prelude::*;
use vstd::bytes::{spec_u32_from_le_bytes, spec_u32_to_le_bytes, u32_from_le_bytes, u32_to_le_bytes};
use crate::utils::bytes::{append_bytes, copy_array};

verus! {

broadcast use vstd::array::group_array_axioms;

/// The mints of the prizes of a draw. On the wire: the number of mints as a
/// four-byte little-endian integer, then each mint's 32 bytes in order.
#[derive(Debug, PartialEq, Eq)]
pub struct PrizeMints {
    pub mints: Vec<[u8; 32]>,
}

/// The keys written one after the other.
pub open spec fn key_bytes(keys: Seq<[u8; 32]>) -> Seq<u8>
    decreases keys.len(),
{
    if keys.len() == 0 {
        Seq::empty()
    } else {
        key_bytes(keys.drop_last()) + keys.last()@
    }
}

/// Keys written one after the other take 32 bytes each, key `i` at `32 * i`.
pub proof fn lemma_key_bytes_layout(keys: Seq<[u8; 32]>)
    ensures
        key_bytes(keys).len() == 32 * keys.len(),
        forall|i: int| 0 <= i < keys.len() ==>
            #[trigger] key_bytes(keys).subrange(32 * i, 32 * i + 32) == keys[i]@,
    decreases keys.len(),
{
    if keys.len() > 0 {
        let init = keys.drop_last();
        lemma_key_bytes_layout(init);
        let b = key_bytes(keys);
        assert forall|i: int| 0 <= i < keys.len() implies
            #[trigger] b.subrange(32 * i, 32 * i + 32) == keys[i]@ by {
            if i < init.len() {
                assert(b.subrange(32 * i, 32 * i + 32) =~= key_bytes(init).subrange(32 * i, 32 * i + 32));
            } else {
                assert(b.subrange(32 * i, 32 * i + 32) =~= keys.last()@);
            }
        }
    }
}

/// Two lists of keys written as the same bytes are the same list.
pub proof fn lemma_key_bytes_injective(a: Seq<[u8; 32]>, b: Seq<[u8; 32]>)
    requires
        key_bytes(a) == key_bytes(b),
    ensures
        a == b,
{
    lemma_key_bytes_layout(a);
    lemma_key_bytes_layout(b);
    assert forall|i: int| 0 <= i < a.len() implies a[i] == b[i] by {
        assert(key_bytes(a).subrange(32 * i, 32 * i + 32) == a[i]@);
        assert(key_bytes(b).subrange(32 * i, 32 * i + 32) == b[i]@);
        assert(a[i] =~= b[i]);
    }
    assert(a =~= b);
}

impl PrizeMints {
    /// The encoding of the list, when its length fits the four-byte count.
    pub open spec fn spec_to_bytes(self) -> Option<Seq<u8>> {
        if self.mints@.len() <= u32::MAX {
            Some(spec_u32_to_le_bytes(self.mints@.len() as u32) + key_bytes(self.mints@))
        } else {
            None
        }
    }

    /// Whether `data` is the encoding of this list and holds nothing more.
    pub open spec fn decodes_from(self, data: Seq<u8>) -> bool {
        &&& data.len() >= 4
        &&& self.mints@.len() == spec_u32_from_le_bytes(data.subrange(0, 4))
        &&& key_bytes(self.mints@) == data.subrange(4, data.len() as int)
    }

    /// Whether some list is encoded by `data`, with no bytes left over.
    pub open spec fn is_encoding(data: Seq<u8>) -> bool {
        data.len() >= 4 && data.len() - 4 == 32 * spec_u32_from_le_bytes(data.subrange(0, 4))
    }

    /// Encodes the list; fails only if it has more mints than a four-byte
    /// count can say.
    pub fn to_bytes(&self) -> (r: Option<Vec<u8>>)
        ensures
            match r {
                Some(v) => self.spec_to_bytes() == Some(v@),
                None => self.spec_to_bytes() is None,
            },
    {
        let n = self.mints.len();
        if n > 0xffff_ffffusize {
            return None;
        }
        let mut out = u32_to_le_bytes(n as u32);
        let ghost head = out@;
        let mut i: usize = 0;
        while i < n
            invariant
                i <= n,
                n == self.mints@.len(),
                out@ == head + key_bytes(self.mints@.take(i as int)),
            decreases n - i,
        {
            append_bytes(&mut out, self.mints[i].as_slice());
            proof {
                let t = self.mints@.take(i + 1);
                assert(t.drop_last() =~= self.mints@.take(i as int));
                assert(t.last() == self.mints@[i as int]);
            }
            i = i + 1;
            assert(out@ =~= head + key_bytes(self.mints@.take(i as int)));
        }
        assert(self.mints@.take(n as int) =~= self.mints@);
        Some(out)
    }

    /// Decodes a list, refusing data that is too short for its count or
    /// longer than the count says.
    pub fn from_bytes(data: &[u8]) -> (r: Option<PrizeMints>)
        ensures
            r is Some <==> PrizeMints::is_encoding(data@),
            match r {
                Some(m) => m.decodes_from(data@),
                None => true,
            },
    {
        let len = data.len();
        if len < 4 {
            return None;
        }
        let count = u32_from_le_bytes(&data[0..4]);
        if (len - 4) / 32 != count as usize || (len - 4) % 32 != 0 {
            return None;
        }
        let n = count as usize;
        let mut mints: Vec<[u8; 32]> = Vec::new();
        let mut i: usize = 0;
        while i < n
            invariant
                i <= n,
                len == data@.len(),
                len == 4 + 32 * n,
                mints@.len() == i,
                key_bytes(mints@) == data@.subrange(4, 4 + 32 * i),
            decreases n - i,
        {
            let key: [u8; 32] = copy_array(data, 4 + 32 * i);
            let ghost before = mints@;
            mints.push(key);
            proof {
                assert(mints@.drop_last() =~= before);
                assert(data@.subrange(4, 4 + 32 * (i + 1)) =~= data@.subrange(4, 4 + 32 * i) + key@);
            }
            i = i + 1;
        }
        let r = PrizeMints { mints };
        assert(data@.subrange(4, data@.len() as int) =~= data@.subrange(4, 4 + 32 * n));
        Some(r)
    }
}

/// Decoding an encoded list gives the list back.
pub proof fn lemma_prize_mints_decode_encode(m: PrizeMints, other: PrizeMints)
    requires
        m.spec_to_bytes() is Some,
        other.decodes_from(m.spec_to_bytes().unwrap()),
    ensures
        PrizeMints::is_encoding(m.spec_to_bytes().unwrap()),
        other.mints@ == m.mints@,
{
    vstd::bytes::lemma_auto_spec_u32_to_from_le_bytes();
    let data = m.spec_to_bytes().unwrap();
    let head = spec_u32_to_le_bytes(m.mints@.len() as u32);
    lemma_key_bytes_layout(m.mints@);
    assert(data.subrange(0, 4) =~= head);
    assert(data.subrange(4, data.len() as int) =~= key_bytes(m.mints@));
    lemma_key_bytes_injective(other.mints@, m.mints@);
}

/// Data that decodes to a list is that list's encoding.
pub proof fn lemma_prize_mints_encode_decode(m: PrizeMints, data: Seq<u8>)
    requires
        m.decodes_from(data),
    ensures
        m.spec_to_bytes() == Some(data),
{
    vstd::bytes::lemma_auto_spec_u32_to_from_le_bytes();
    let head = data.subrange(0, 4);
    assert(spec_u32_to_le_bytes(spec_u32_from_le_bytes(head)) == head);
    assert(data =~= head + data.subrange(4, data.len() as int));
}

/// An encoded list is the count of mints as four little-endian bytes, then
/// mint `i`'s 32 bytes at offset `4 + 32 * i`, and nothing more.
pub proof fn lemma_prize_mints_layout(m: PrizeMints)
    requires
        m.spec_to_bytes() is Some,
    ensures
        ({
            let b = m.spec_to_bytes().unwrap();
            &&& b.len() == 4 + 32 * m.mints@.len()
            &&& b.subrange(0, 4) == spec_u32_to_le_bytes(m.mints@.len() as u32)
            &&& forall|i: int| 0 <= i < m.mints@.len() ==>
                #[trigger] b.subrange(4 + 32 * i, 4 + 32 * i + 32) == m.mints@[i]@
        }),
{
    vstd::bytes::lemma_auto_spec_u32_to_from_le_bytes();
    let b = m.spec_to_bytes().unwrap();
    let head = spec_u32_to_le_bytes(m.mints@.len() as u32);
    lemma_key_bytes_layout(m.mints@);
    assert(b.subrange(0, 4) =~= head);
    assert forall|i: int| 0 <= i < m.mints@.len() implies
        #[trigger] b.subrange(4 + 32 * i, 4 + 32 * i + 32) == m.mints@[i]@ by {
        assert(b.subrange(4 + 32 * i, 4 + 32 * i + 32) =~= key_bytes(m.mints@).subrange(32 * i, 32 * i + 32));
    }
}

/// A list decoded from data has as many mints as the count in its first four
/// little-endian bytes, and mint `i` is the 32 bytes at offset `4 + 32 * i`.
pub proof fn lemma_prize_mints_read_layout(m: PrizeMints, data: Seq<u8>)
    requires
        m.decodes_from(data),
    ensures
        m.mints@.len() == spec_u32_from_le_bytes(data.subrange(0, 4)),
        data.len() == 4 + 32 * m.mints@.len(),
        forall|i: int| 0 <= i < m.mints@.len() ==>
            #[trigger] m.mints@[i]@ == data.subrange(4 + 32 * i, 4 + 32 * i + 32),
{
    lemma_key_bytes_layout(m.mints@);
    assert forall|i: int| 0 <= i < m.mints@.len() implies
        #[trigger] m.mints@[i]@ == data.subrange(4 + 32 * i, 4 + 32 * i + 32) by {
        assert(data.subrange(4 + 32 * i, 4 + 32 * i + 32)
            =~= data.subrange(4, data.len() as int).subrange(32 * i, 32 * i + 32));
    }
}

} // verus!
