//! Byte-level building blocks: the length-prefixed binary payload wire
//! format, nul-byte scanning, and secure erasure of sensitive buffers.

use vstd::prelude::*;
use vstd::slice::slice_index_get;
use vstd::slice::slice_subrange;
use vstd::slice::slice_to_vec;

verus! {

/// Whether a byte string holds an embedded nul, which the nul-terminated
/// native text encoding cannot represent.
pub open spec fn spec_has_nul(s: Seq<u8>) -> bool {
    exists|i: int| 0 <= i < s.len() && s[i] == 0
}

/// Scans a byte string for an embedded nul.
pub fn contains_nul(s: &[u8]) -> (r: bool)
    ensures
        r == spec_has_nul(s@),
{
    let n: usize = s.len();
    let mut i: usize = 0;
    while i < n
        invariant
            n == s@.len(),
            0 <= i <= n,
            forall|j: int| 0 <= j < i ==> s@[j] != 0,
        decreases n - i,
    {
        if *slice_index_get(s, i) == 0 {
            return true;
        }
        i = i + 1;
    }
    false
}

/// Compares two byte strings for equality.
pub fn bytes_equal(a: &Vec<u8>, b: &Vec<u8>) -> (r: bool)
    ensures
        r <==> a@ == b@,
{
    let n: usize = a.len();
    if n != b.len() {
        return false;
    }
    let mut i: usize = 0;
    while i < n
        invariant
            n == a@.len(),
            n == b@.len(),
            0 <= i <= n,
            forall|j: int| 0 <= j < i ==> a@[j] == b@[j],
        decreases n - i,
    {
        if *slice_index_get(a.as_slice(), i) != *slice_index_get(b.as_slice(), i) {
            return false;
        }
        i = i + 1;
    }
    proof {
        assert(a@ =~= b@);
    }
    true
}

/// Overwrites every byte of a buffer with zero, so that releasing the buffer
/// cannot leak previously entered secret text.
pub fn zero_bytes(buf: &mut Vec<u8>)
    ensures
        final(buf)@.len() == old(buf)@.len(),
        forall|i: int| 0 <= i < final(buf)@.len() ==> final(buf)@[i] == 0,
{
    let n: usize = buf.len();
    let mut i: usize = 0;
    while i < n
        invariant
            n == buf@.len(),
            0 <= i <= n,
            forall|j: int| 0 <= j < i ==> buf@[j] == 0,
        decreases n - i,
    {
        buf.set(i, 0);
        i = i + 1;
    }
}

/// The largest data size the binary wire format can carry: the four length
/// bytes count the whole payload, five header bytes included.
pub open spec fn spec_max_binary_size() -> int {
    0xFFFFFFFA
}

/// The four big-endian bytes of a 32-bit value.
pub open spec fn spec_be32(n: u32) -> Seq<u8> {
    seq![(n >> 24) as u8, (n >> 16) as u8, (n >> 8) as u8, n as u8]
}

/// The 32-bit value read back from the first four bytes of a byte string.
pub open spec fn spec_be32_val(b: Seq<u8>) -> u32
    recommends
        b.len() >= 4,
{
    (((b[0] as u32) << 24) | ((b[1] as u32) << 16) | ((b[2] as u32) << 8) | (b[3] as u32)) as u32
}

/// The binary payload wire format: 4-byte big-endian total length (header
/// included), a 1-byte type tag, then the raw data.
pub open spec fn spec_binary_payload(data: Seq<u8>, data_type: u8) -> Seq<u8> {
    spec_be32((data.len() + 5) as u32) + seq![data_type] + data
}

/// The error reported when a binary payload would not fit the wire format's
/// four length bytes. Construction is refused; nothing is truncated.
#[derive(Clone, Copy, Debug, PartialEq, Eq, Structural)]
pub struct TooBigError {
    pub size: usize,
    pub max: usize,
}

/// An owned, fully formatted binary payload buffer.
#[derive(Clone, Debug)]
pub struct OwnedBinaryPayload {
    buf: Vec<u8>,
}

impl OwnedBinaryPayload {
    /// The formatted bytes this payload holds.
    pub closed spec fn bytes(&self) -> Seq<u8> {
        self.buf@
    }

    /// Formats a byte string and its type tag into a fresh wire-format
    /// buffer; data larger than the format's maximum is refused.
    pub fn new(data: &[u8], data_type: u8) -> (r: Result<OwnedBinaryPayload, TooBigError>)
        ensures
            r is Ok <==> data@.len() <= spec_max_binary_size(),
            r matches Ok(p) ==> p.bytes() == spec_binary_payload(data@, data_type),
            r matches Err(e) ==> e.size == data@.len() && e.max == spec_max_binary_size(),
    {
        let max: usize = (u32::MAX as usize) - 5;
        if data.len() > max {
            return Err(TooBigError { size: data.len(), max });
        }
        let total_len: usize = data.len() + 5;
        let n: u32 = total_len as u32;
        let mut buf: Vec<u8> = Vec::new();
        buf.push((n >> 24) as u8);
        buf.push((n >> 16) as u8);
        buf.push((n >> 8) as u8);
        buf.push(n as u8);
        buf.push(data_type);
        buf.extend_from_slice(data);
        proof {
            assert(buf@ =~= spec_binary_payload(data@, data_type));
        }
        Ok(OwnedBinaryPayload { buf })
    }

    /// Hands the formatted buffer out.
    pub fn into_inner(self) -> (r: Vec<u8>)
        ensures
            r@ == self.bytes(),
    {
        self.buf
    }
}

/// What a wire-format buffer decodes to: the raw data and the type tag, or
/// nothing when the buffer is shorter than a header or its length bytes do
/// not count the buffer exactly.
pub open spec fn spec_decode_binary_payload(b: Seq<u8>) -> Option<(Seq<u8>, u8)> {
    if b.len() >= 5 && spec_be32_val(b) == b.len() {
        Some((b.subrange(5, b.len() as int), b[4]))
    } else {
        None
    }
}

/// Decodes a wire-format buffer back into its data bytes and type tag.
pub fn decode_binary_payload(buf: &[u8]) -> (r: Option<(Vec<u8>, u8)>)
    ensures
        r is Some <==> spec_decode_binary_payload(buf@) is Some,
        r matches Some(p) ==> spec_decode_binary_payload(buf@) == Some((p.0@, p.1)),
{
    if buf.len() < 5 {
        return None;
    }
    let b0: u32 = *slice_index_get(buf, 0) as u32;
    let b1: u32 = *slice_index_get(buf, 1) as u32;
    let b2: u32 = *slice_index_get(buf, 2) as u32;
    let b3: u32 = *slice_index_get(buf, 3) as u32;
    let n: u32 = (b0 << 24) | (b1 << 16) | (b2 << 8) | b3;
    if (n as u64) != (buf.len() as u64) {
        return None;
    }
    let data: Vec<u8> = slice_to_vec(slice_subrange(buf, 5, buf.len()));
    let data_type: u8 = *slice_index_get(buf, 4);
    Some((data, data_type))
}

/// Round trip: formatting any data of an admissible size with any type tag
/// and decoding the result yields the data and the tag unchanged.
pub proof fn lemma_binary_payload_round_trip(data: Seq<u8>, data_type: u8)
    requires
        data.len() <= spec_max_binary_size(),
    ensures
        spec_decode_binary_payload(spec_binary_payload(data, data_type)) == Some((
            data,
            data_type,
        )),
{
    let n = (data.len() + 5) as u32;
    let p = spec_binary_payload(data, data_type);
    assert(p.len() == data.len() + 5);
    assert(p[0] == (n >> 24) as u8 && p[1] == (n >> 16) as u8 && p[2] == (n >> 8) as u8 && p[3]
        == n as u8 && p[4] == data_type);
    assert(forall|m: u32|
        (((((m >> 24) as u8) as u32) << 24) | ((((m >> 16) as u8) as u32) << 16) | ((((m
            >> 8) as u8) as u32) << 8) | ((m as u8) as u32)) as u32 == m) by (bit_vector);
    assert(spec_be32_val(p) == n);
    assert(p.subrange(5, p.len() as int) =~= data);
}

} // verus!
