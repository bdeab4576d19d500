//! Big-endian integer framing over byte sequences.
use byteorder::{BigEndian, ByteOrder, WriteBytesExt};
use vstd::prelude::*;

verus! {

/// The eight bytes of `n`, most significant first.
pub open spec fn be_u64_bytes(n: u64) -> Seq<u8> {
    seq![
        (n >> 56u64) as u8,
        (n >> 48u64) as u8,
        (n >> 40u64) as u8,
        (n >> 32u64) as u8,
        (n >> 24u64) as u8,
        (n >> 16u64) as u8,
        (n >> 8u64) as u8,
        n as u8,
    ]
}

/// The two bytes of `n`, most significant first.
pub open spec fn be_u16_bytes(n: u16) -> Seq<u8> {
    seq![(n >> 8u16) as u8, n as u8]
}

/// The integer that eight bytes spell, most significant first.
pub open spec fn be_u64_value(b: Seq<u8>) -> u64
    recommends
        b.len() == 8,
{
    (b[0] as u64) << 56u64 | (b[1] as u64) << 48u64 | (b[2] as u64) << 40u64 | (b[3] as u64)
        << 32u64 | (b[4] as u64) << 24u64 | (b[5] as u64) << 16u64 | (b[6] as u64) << 8u64 | (
    b[7] as u64)
}

/// The integer that two bytes spell, most significant first.
pub open spec fn be_u16_value(b: Seq<u8>) -> u16
    recommends
        b.len() == 2,
{
    (b[0] as u16) << 8u16 | (b[1] as u16)
}

/// Reading back the bytes of a 64-bit integer gives the integer.
pub proof fn lemma_be_u64_round_trip(n: u64)
    ensures
        be_u64_value(be_u64_bytes(n)) == n,
        be_u64_bytes(n).len() == 8,
{
    let b = be_u64_bytes(n);
    let (b0, b1, b2, b3, b4, b5, b6, b7) = (b[0], b[1], b[2], b[3], b[4], b[5], b[6], b[7]);
    assert(((b0 as u64) << 56u64 | (b1 as u64) << 48u64 | (b2 as u64) << 40u64 | (b3 as u64)
        << 32u64 | (b4 as u64) << 24u64 | (b5 as u64) << 16u64 | (b6 as u64) << 8u64 | (
    b7 as u64)) == n) by (bit_vector)
        requires
            b0 == (n >> 56u64) as u8,
            b1 == (n >> 48u64) as u8,
            b2 == (n >> 40u64) as u8,
            b3 == (n >> 32u64) as u8,
            b4 == (n >> 24u64) as u8,
            b5 == (n >> 16u64) as u8,
            b6 == (n >> 8u64) as u8,
            b7 == n as u8,
    ;
}

/// Reading back the bytes of a 16-bit integer gives the integer.
pub proof fn lemma_be_u16_round_trip(n: u16)
    ensures
        be_u16_value(be_u16_bytes(n)) == n,
        be_u16_bytes(n).len() == 2,
{
    let b = be_u16_bytes(n);
    let (b0, b1) = (b[0], b[1]);
    assert(((b0 as u16) << 8u16 | (b1 as u16)) == n) by (bit_vector)
        requires
            b0 == (n >> 8u16) as u8,
            b1 == n as u8,
    ;
}

/// Relies on byteorder's `BigEndian::read_u64`: the first eight bytes of the
/// slice, most significant first.
#[verifier::external_body]
pub(crate) fn read_be_u64(buf: &[u8]) -> (r: u64)
    requires
        buf@.len() >= 8,
    ensures
        r == be_u64_value(buf@.subrange(0, 8)),
{
    BigEndian::read_u64(buf)
}

/// Relies on byteorder's `BigEndian::read_u16`: the first two bytes of the
/// slice, most significant first.
#[verifier::external_body]
pub(crate) fn read_be_u16(buf: &[u8]) -> (r: u16)
    requires
        buf@.len() >= 2,
    ensures
        r == be_u16_value(buf@.subrange(0, 2)),
{
    BigEndian::read_u16(buf)
}

/// Relies on byteorder's `WriteBytesExt::write_u64::<BigEndian>` on a `Vec`,
/// which appends the eight bytes of `n`, most significant first (writing to a
/// `Vec` does not fail).
#[verifier::external_body]
pub(crate) fn push_be_u64(out: &mut Vec<u8>, n: u64)
    ensures
        final(out)@ == old(out)@ + be_u64_bytes(n),
{
    let _ = out.write_u64::<BigEndian>(n);
}

} // verus!
