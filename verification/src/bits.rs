//! Big-endian words made of bytes, and the bit masks that the field types
//! use to tell whether a raw value fits into their width.

use vstd::prelude::*;

verus! {

/// The big-endian 16-bit word made of two bytes.
pub open spec fn be16(b0: u8, b1: u8) -> u16 {
    ((b0 as u16) << 8u16) | (b1 as u16)
}

/// The big-endian 24-bit word made of three bytes.
pub open spec fn be24(b0: u8, b1: u8, b2: u8) -> u32 {
    ((b0 as u32) << 16u32) | ((b1 as u32) << 8u32) | (b2 as u32)
}

/// The big-endian 32-bit word made of four bytes.
pub open spec fn be32(b0: u8, b1: u8, b2: u8, b3: u8) -> u32 {
    ((b0 as u32) << 24u32) | ((b1 as u32) << 16u32) | ((b2 as u32) << 8u32) | (b3 as u32)
}

/// The big-endian 48-bit word made of six bytes.
pub open spec fn be48(b0: u8, b1: u8, b2: u8, b3: u8, b4: u8, b5: u8) -> u64 {
    ((b0 as u64) << 40u64) | ((b1 as u64) << 32u64) | ((b2 as u64) << 24u64) | ((b3 as u64)
        << 16u64) | ((b4 as u64) << 8u64) | (b5 as u64)
}

/// The big-endian 48-bit word made of the six bytes of an array.
pub open spec fn be48_of(b: [u8; 6]) -> u64 {
    be48(b[0], b[1], b[2], b[3], b[4], b[5])
}

/// `len` bits of a `width`-bit word, starting `start` bits from its most
/// significant end.
pub open spec fn field(word: u64, width: u64, start: u64, len: u64) -> u64 {
    (word >> ((width - start - len) as u64)) & (((1u64 << len) - 1) as u64)
}

/// A byte fits into `n` bits exactly when the bits above them are clear.
pub proof fn lemma_u8_masks(b: u8)
    ensures
        (b & 0b1111_1110 == 0) <==> b < 2,
        (b & 0b1111_1100 == 0) <==> b < 4,
        (b & 0b1111_1000 == 0) <==> b < 8,
        (b & 0b1111_0000 == 0) <==> b < 16,
        (b & 0b1110_0000 == 0) <==> b < 32,
        (b & 0b1100_0000 == 0) <==> b < 64,
        (b & 0b1000_0000 == 0) <==> b < 128,
{
    assert(
        ((b & 0b1111_1110 == 0) <==> b < 2)
        && ((b & 0b1111_1100 == 0) <==> b < 4)
        && ((b & 0b1111_1000 == 0) <==> b < 8)
        && ((b & 0b1111_0000 == 0) <==> b < 16)
        && ((b & 0b1110_0000 == 0) <==> b < 32)
        && ((b & 0b1100_0000 == 0) <==> b < 64)
        && ((b & 0b1000_0000 == 0) <==> b < 128)
    ) by (bit_vector);
}

/// A 16-bit word fits into `n` bits exactly when the bits above them are
/// clear.
pub proof fn lemma_u16_masks(w: u16)
    ensures
        (w & 0b1110_0000_0000_0000 == 0) <==> w < 0x2000,
        (w & 0b1111_0000_0000_0000 == 0) <==> w < 0x1000,
        (w & 0b1100_0000_0000_0000 == 0) <==> w < 0x4000,
        (w & 0b1111_1100_0000_0000 == 0) <==> w < 0x400,
        (w & 0b1111_1110_0000_0000 == 0) <==> w < 0x200,
{
    assert(
        ((w & 0b1110_0000_0000_0000 == 0) <==> w < 0x2000)
        && ((w & 0b1111_0000_0000_0000 == 0) <==> w < 0x1000)
        && ((w & 0b1100_0000_0000_0000 == 0) <==> w < 0x4000)
        && ((w & 0b1111_1100_0000_0000 == 0) <==> w < 0x400)
        && ((w & 0b1111_1110_0000_0000 == 0) <==> w < 0x200)
    ) by (bit_vector);
}

/// A 32-bit word fits into `n` bits exactly when the bits above them are
/// clear.
pub proof fn lemma_u32_masks(w: u32)
    ensures
        (w & 0xfffe_0000 == 0) <==> w < 0x2_0000,
        (w & 0xfc00_0000 == 0) <==> w < 0x400_0000,
{
    assert(
        ((w & 0xfffe_0000 == 0) <==> w < 0x2_0000)
        && ((w & 0xfc00_0000 == 0) <==> w < 0x400_0000)
    ) by (bit_vector);
}

} // verus!
