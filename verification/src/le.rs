//! Little-endian integers: what a run of bytes stands for, and the bytes that
//! stand for an integer.

use vstd::prelude::*;

verus! {

/// The 16-bit number that two bytes stand for, least significant byte first.
pub open spec fn le_u16(b: Seq<u8>) -> u16
    recommends
        b.len() == 2,
{
    (b[0] + 0x100 * b[1]) as u16
}

/// The 32-bit number that four bytes stand for, least significant byte first.
pub open spec fn le_u32(b: Seq<u8>) -> u32
    recommends
        b.len() == 4,
{
    (b[0] + 0x100 * b[1] + 0x1_0000 * b[2] + 0x100_0000 * b[3]) as u32
}

/// The two bytes that stand for `v`, least significant byte first.
#[verifier::opaque]
pub open spec fn u16_le_bytes(v: u16) -> Seq<u8> {
    seq![(v % 0x100) as u8, (v / 0x100) as u8]
}

/// The four bytes that stand for `v`, least significant byte first.
#[verifier::opaque]
pub open spec fn u32_le_bytes(v: u32) -> Seq<u8> {
    seq![
        (v % 0x100) as u8,
        (v / 0x100 % 0x100) as u8,
        (v / 0x1_0000 % 0x100) as u8,
        (v / 0x100_0000) as u8,
    ]
}

/// Decodes two bytes as a little-endian `u16`.
pub fn slice_to_u16(array: &[u8]) -> (n: u16)
    requires
        array@.len() == 2,
    ensures
        n == le_u16(array@),
{
    let low: u16 = array[0] as u16;
    let high: u16 = array[1] as u16;
    low + 0x100 * high
}

/// Decodes four bytes as a little-endian `u32`.
pub fn slice_to_u32(array: &[u8]) -> (n: u32)
    requires
        array@.len() == 4,
    ensures
        n == le_u32(array@),
{
    let b0: u32 = array[0] as u32;
    let b1: u32 = array[1] as u32;
    let b2: u32 = array[2] as u32;
    let b3: u32 = array[3] as u32;
    b0 + 0x100 * b1 + 0x1_0000 * b2 + 0x100_0000 * b3
}

/// Decoding four bytes and encoding the result gives the four bytes back.
pub proof fn lemma_le_u32_bytes_round_trip(b: Seq<u8>)
    requires
        b.len() == 4,
    ensures
        u32_le_bytes(le_u32(b)) == b,
{
    reveal(u32_le_bytes);
    let v = le_u32(b) as int;
    assert(v / 0x100 == b[1] + 0x100 * b[2] + 0x1_0000 * b[3]);
    assert(v / 0x1_0000 == b[2] + 0x100 * b[3]);
    assert(v / 0x100_0000 == b[3]);
}

/// Encoding a `u32` gives four bytes, and decoding them gives the number back.
pub proof fn lemma_u32_le_bytes_round_trip(v: u32)
    ensures
        u32_le_bytes(v).len() == 4,
        le_u32(u32_le_bytes(v)) == v,
{
    reveal(u32_le_bytes);
}

/// Decoding two bytes and encoding the result gives the two bytes back.
pub proof fn lemma_le_u16_bytes_round_trip(b: Seq<u8>)
    requires
        b.len() == 2,
    ensures
        u16_le_bytes(le_u16(b)) == b,
{
    reveal(u16_le_bytes);
}

/// Encoding a `u16` gives two bytes, and decoding them gives the number back.
pub proof fn lemma_u16_le_bytes_round_trip(v: u16)
    ensures
        u16_le_bytes(v).len() == 2,
        le_u16(u16_le_bytes(v)) == v,
{
    reveal(u16_le_bytes);
}

/// Four bytes stand for `v` exactly when they are the bytes of `v`: decoding
/// and encoding are inverse to one another.
pub proof fn lemma_le_u32_one_to_one(b: Seq<u8>, v: u32)
    requires
        b.len() == 4,
    ensures
        le_u32(b) == v <==> b == u32_le_bytes(v),
{
    lemma_le_u32_bytes_round_trip(b);
    lemma_u32_le_bytes_round_trip(v);
}

/// Two bytes stand for `v` exactly when they are the bytes of `v`.
pub proof fn lemma_le_u16_one_to_one(b: Seq<u8>, v: u16)
    requires
        b.len() == 2,
    ensures
        le_u16(b) == v <==> b == u16_le_bytes(v),
{
    lemma_le_u16_bytes_round_trip(b);
    lemma_u16_le_bytes_round_trip(v);
}

} // verus!
