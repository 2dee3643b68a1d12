//! Big- and little-endian integer encodings as byte sequences.
use vstd::prelude::*;

verus! {

/// Big-endian encoding of a 16-bit value.
pub open spec fn be16(x: u16) -> Seq<u8> {
    seq![(x / 256) as u8, (x % 256) as u8]
}

/// Big-endian encoding of a 32-bit value.
pub open spec fn be32(x: u32) -> Seq<u8> {
    seq![(x / 0x100_0000) as u8, ((x / 0x1_0000) % 256) as u8, ((x / 256) % 256) as u8, (x % 256) as u8]
}

/// Little-endian encoding of a 32-bit value.
pub open spec fn le32(x: u32) -> Seq<u8> {
    seq![(x % 256) as u8, ((x / 256) % 256) as u8, ((x / 0x1_0000) % 256) as u8, (x / 0x100_0000) as u8]
}

/// The value of four bytes read most-significant first.
pub open spec fn be32_value(b0: u8, b1: u8, b2: u8, b3: u8) -> u32 {
    (b0 * 0x100_0000 + b1 * 0x1_0000 + b2 * 256 + b3) as u32
}

/// The value of two bytes read most-significant first.
pub open spec fn be16_value(b0: u8, b1: u8) -> u16 {
    (b0 * 256 + b1) as u16
}

/// The value of four bytes read least-significant first.
pub open spec fn le32_value(b0: u8, b1: u8, b2: u8, b3: u8) -> u32 {
    (b3 * 0x100_0000 + b2 * 0x1_0000 + b1 * 256 + b0) as u32
}

/// Append the big-endian encoding of `x` to `v`.
pub fn push_be16(v: &mut Vec<u8>, x: u16)
    ensures
        final(v)@ == old(v)@ + be16(x),
{
    let hi = (x >> 8u16) as u8;
    let lo = (x & 0xFF) as u8;
    assert(hi == x / 256 && lo == x % 256) by (bit_vector)
        requires hi == (x >> 8u16) as u8, lo == (x & 0xFF) as u8;
    v.push(hi);
    v.push(lo);
    assert(v@ =~= old(v)@ + be16(x));
}

/// Append the big-endian encoding of `x` to `v`.
pub fn push_be32(v: &mut Vec<u8>, x: u32)
    ensures
        final(v)@ == old(v)@ + be32(x),
{
    let b0 = (x >> 24u32) as u8;
    let b1 = ((x >> 16u32) & 0xFF) as u8;
    let b2 = ((x >> 8u32) & 0xFF) as u8;
    let b3 = (x & 0xFF) as u8;
    assert(b0 == x / 0x100_0000 && b1 == (x / 0x1_0000) % 256 && b2 == (x / 256) % 256 && b3 == x
        % 256) by (bit_vector)
        requires
            b0 == (x >> 24u32) as u8,
            b1 == ((x >> 16u32) & 0xFF) as u8,
            b2 == ((x >> 8u32) & 0xFF) as u8,
            b3 == (x & 0xFF) as u8,
    ;
    v.push(b0);
    v.push(b1);
    v.push(b2);
    v.push(b3);
    assert(v@ =~= old(v)@ + be32(x));
}

/// Append the little-endian encoding of `x` to `v`.
pub fn push_le32(v: &mut Vec<u8>, x: u32)
    ensures
        final(v)@ == old(v)@ + le32(x),
{
    let b0 = (x >> 24u32) as u8;
    let b1 = ((x >> 16u32) & 0xFF) as u8;
    let b2 = ((x >> 8u32) & 0xFF) as u8;
    let b3 = (x & 0xFF) as u8;
    assert(b0 == x / 0x100_0000 && b1 == (x / 0x1_0000) % 256 && b2 == (x / 256) % 256 && b3 == x
        % 256) by (bit_vector)
        requires
            b0 == (x >> 24u32) as u8,
            b1 == ((x >> 16u32) & 0xFF) as u8,
            b2 == ((x >> 8u32) & 0xFF) as u8,
            b3 == (x & 0xFF) as u8,
    ;
    v.push(b3);
    v.push(b2);
    v.push(b1);
    v.push(b0);
    assert(v@ =~= old(v)@ + le32(x));
}

/// The 32-bit value of four bytes read most-significant first.
pub fn read_be32(b0: u8, b1: u8, b2: u8, b3: u8) -> (x: u32)
    ensures
        x == be32_value(b0, b1, b2, b3),
{
    let x = ((b0 as u32) << 24u32) | ((b1 as u32) << 16u32) | ((b2 as u32) << 8u32) | (b3 as u32);
    assert(x == b0 * 0x100_0000 + b1 * 0x1_0000 + b2 * 256 + b3) by (bit_vector)
        requires
            x == ((b0 as u32) << 24u32) | ((b1 as u32) << 16u32) | ((b2 as u32) << 8u32) | (b3 as u32),
    ;
    x
}

/// The 16-bit value of two bytes read most-significant first.
pub fn read_be16(b0: u8, b1: u8) -> (x: u16)
    ensures
        x == be16_value(b0, b1),
{
    let x = ((b0 as u16) << 8u16) | (b1 as u16);
    assert(x == b0 * 256 + b1) by (bit_vector)
        requires x == ((b0 as u16) << 8u16) | (b1 as u16);
    x
}

/// The 32-bit value of four bytes read least-significant first.
pub fn read_le32(b0: u8, b1: u8, b2: u8, b3: u8) -> (x: u32)
    ensures
        x == le32_value(b0, b1, b2, b3),
{
    let x = ((b3 as u32) << 24u32) | ((b2 as u32) << 16u32) | ((b1 as u32) << 8u32) | (b0 as u32);
    assert(x == b3 * 0x100_0000 + b2 * 0x1_0000 + b1 * 256 + b0) by (bit_vector)
        requires
            x == ((b3 as u32) << 24u32) | ((b2 as u32) << 16u32) | ((b1 as u32) << 8u32) | (b0 as u32),
    ;
    x
}

} // verus!
