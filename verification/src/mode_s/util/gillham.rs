//! Gillham code
//!
//! Depending on where a Gillham code is used, its data bits are jumbled
//! differently. So instead of shuffling bits twice, there is one function for
//! each arrangement, which moves every input bit to its place in the output.
//!
//! Bit positions below count from the least significant bit.

use vstd::prelude::*;

verus! {

/// Bit `i` of a 16-bit word, as 0 or 1.
pub open spec fn bit16(w: u16, i: u16) -> u16 {
    (w >> i) & 1u16
}

/// The 13-bit identity code rearranged into `A4 A2 A1 B4 B2 B1 C4 C2 C1 D4 D2 D1`.
///
/// ```plain
/// input bit:   12 11 10  9  8  7  6  5  4  3  2  1  0
/// input:       C1 A1 C2 A2 C4 A4 ID B1 D1 B2 D2 B4 D4
/// output bit:   3  9  4 10  5 11  -  6  0  7  1  8  2
/// ```
pub open spec fn spec_decode_gillham_id13(code: u16) -> u16 {
    (bit16(code, 12) << 3u16) | (bit16(code, 11) << 9u16) | (bit16(code, 10) << 4u16) | (bit16(
        code,
        9,
    ) << 10u16) | (bit16(code, 8) << 5u16) | (bit16(code, 7) << 11u16) | (bit16(code, 5) << 6u16)
        | (bit16(code, 4) << 0u16) | (bit16(code, 3) << 7u16) | (bit16(code, 2) << 1u16) | (bit16(
        code,
        1,
    ) << 8u16) | (bit16(code, 0) << 2u16)
}

/// The 13-bit altitude code rearranged into
/// `D2 D4 A1 A2 A4 B1 B2 B4 C1 C2 C4`.
///
/// ```plain
/// input bit:   12 11 10  9  8  7  6  5  4  3  2  1  0
/// input:       C1 A1 C2 A2 C4 A4  M B1  Q B2 D2 B4 D4
/// output bit:   2  8  1  7  0  6  -  5  -  4 10  3  9
/// ```
pub open spec fn spec_decode_gillham_ac13(code: u16) -> u16 {
    (bit16(code, 12) << 2u16) | (bit16(code, 11) << 8u16) | (bit16(code, 10) << 1u16) | (bit16(
        code,
        9,
    ) << 7u16) | (bit16(code, 8) << 0u16) | (bit16(code, 7) << 6u16) | (bit16(code, 5) << 5u16)
        | (bit16(code, 3) << 4u16) | (bit16(code, 2) << 10u16) | (bit16(code, 1) << 3u16) | (bit16(
        code,
        0,
    ) << 9u16)
}

/// The 12-bit altitude code of ADS-B airborne positions rearranged into
/// `D2 D4 A1 A2 A4 B1 B2 B4 C1 C2 C4`.
///
/// ```plain
/// input bit:   11 10  9  8  7  6  5  4  3  2  1  0
/// input:       C1 A1 C2 A2 C4 A4 B1  Q B2 D2 B4 D4
/// output bit:   2  8  1  7  0  6  5  -  4 10  3  9
/// ```
pub open spec fn spec_decode_gillham_ac12(code: u16) -> u16 {
    (bit16(code, 11) << 2u16) | (bit16(code, 10) << 8u16) | (bit16(code, 9) << 1u16) | (bit16(
        code,
        8,
    ) << 7u16) | (bit16(code, 7) << 0u16) | (bit16(code, 6) << 6u16) | (bit16(code, 5) << 5u16)
        | (bit16(code, 3) << 4u16) | (bit16(code, 2) << 10u16) | (bit16(code, 1) << 3u16) | (bit16(
        code,
        0,
    ) << 9u16)
}

/// Decodes a 13-bit identity code as used in DF5 and DF21.
///
/// The ID bit of the input (the IDENT flag) is ignored.
pub fn decode_gillham_id13(code: u16) -> (value: u16)
    ensures
        value == spec_decode_gillham_id13(code),
{
    (((code >> 12) & 1) << 3) | (((code >> 11) & 1) << 9) | (((code >> 10) & 1) << 4) | (((code
        >> 9) & 1) << 10) | (((code >> 8) & 1) << 5) | (((code >> 7) & 1) << 11) | (((code >> 5)
        & 1) << 6) | (((code >> 4) & 1) << 0) | (((code >> 3) & 1) << 7) | (((code >> 2) & 1)
        << 1) | (((code >> 1) & 1) << 8) | (((code >> 0) & 1) << 2)
}

/// Decodes a 13-bit altitude code as used in DF0, DF4, DF16 and DF20.
///
/// The M and Q bits of the input are ignored.
pub fn decode_gillham_ac13(code: u16) -> (value: u16)
    ensures
        value == spec_decode_gillham_ac13(code),
{
    (((code >> 12) & 1) << 2) | (((code >> 11) & 1) << 8) | (((code >> 10) & 1) << 1) | (((code
        >> 9) & 1) << 7) | (((code >> 8) & 1) << 0) | (((code >> 7) & 1) << 6) | (((code >> 5)
        & 1) << 5) | (((code >> 3) & 1) << 4) | (((code >> 2) & 1) << 10) | (((code >> 1) & 1)
        << 3) | (((code >> 0) & 1) << 9)
}

/// Decodes a 12-bit altitude code as used in ADS-B airborne position
/// messages.
///
/// The Q bit of the input is ignored.
pub fn decode_gillham_ac12(code: u16) -> (value: u16)
    ensures
        value == spec_decode_gillham_ac12(code),
{
    (((code >> 11) & 1) << 2) | (((code >> 10) & 1) << 8) | (((code >> 9) & 1) << 1) | (((code
        >> 8) & 1) << 7) | (((code >> 7) & 1) << 0) | (((code >> 6) & 1) << 6) | (((code >> 5)
        & 1) << 5) | (((code >> 3) & 1) << 4) | (((code >> 2) & 1) << 10) | (((code >> 1) & 1)
        << 3) | (((code >> 0) & 1) << 9)
}

/// The decoded identity code does not depend on the ID bit (the IDENT flag)
/// nor on bits above the 13 code bits, and fits into 12 bits.
pub proof fn law_id13_ignores_ident(code: u16)
    ensures
        spec_decode_gillham_id13(code) == spec_decode_gillham_id13(code ^ 0b0_0000_0100_0000),
        spec_decode_gillham_id13(code) == spec_decode_gillham_id13(code & 0b1_1111_1111_1111),
        spec_decode_gillham_id13(code) < 0x1000,
{
    assert(spec_decode_gillham_id13(code) == spec_decode_gillham_id13(code ^ 0b0_0000_0100_0000)
        && spec_decode_gillham_id13(code) == spec_decode_gillham_id13(code & 0b1_1111_1111_1111)
        && spec_decode_gillham_id13(code) < 0x1000) by (bit_vector);
}

/// The decoded 13-bit altitude code does not depend on the M and Q bits, and
/// fits into 11 bits.
pub proof fn law_ac13_ignores_m_and_q(code: u16)
    ensures
        spec_decode_gillham_ac13(code) == spec_decode_gillham_ac13(code ^ 0b0_0000_0100_0000),
        spec_decode_gillham_ac13(code) == spec_decode_gillham_ac13(code ^ 0b0_0000_0001_0000),
        spec_decode_gillham_ac13(code) < 0x800,
{
    assert(spec_decode_gillham_ac13(code) == spec_decode_gillham_ac13(code ^ 0b0_0000_0100_0000)
        && spec_decode_gillham_ac13(code) == spec_decode_gillham_ac13(code ^ 0b0_0000_0001_0000)
        && spec_decode_gillham_ac13(code) < 0x800) by (bit_vector);
}

/// The decoded 12-bit altitude code does not depend on the Q bit, and fits
/// into 11 bits.
pub proof fn law_ac12_ignores_q(code: u16)
    ensures
        spec_decode_gillham_ac12(code) == spec_decode_gillham_ac12(code ^ 0b0000_0001_0000),
        spec_decode_gillham_ac12(code) < 0x800,
{
    assert(spec_decode_gillham_ac12(code) == spec_decode_gillham_ac12(code ^ 0b0000_0001_0000)
        && spec_decode_gillham_ac12(code) < 0x800) by (bit_vector);
}

/// Every pulse of the identity code lands in its place of the squawk
/// `A4 A2 A1 B4 B2 B1 C4 C2 C1 D4 D2 D1` (output bits 11 down to 0), read
/// from the input order `C1 A1 C2 A2 C4 A4 ID B1 D1 B2 D2 B4 D4` (input bits
/// 12 down to 0). So the four octal digits of the squawk are the A, B, C and
/// D pulses, each digit's 4, 2 and 1 in that order.
pub proof fn law_id13_places_every_pulse(code: u16)
    ensures
        bit16(spec_decode_gillham_id13(code), 11) == bit16(code, 7),
        bit16(spec_decode_gillham_id13(code), 10) == bit16(code, 9),
        bit16(spec_decode_gillham_id13(code), 9) == bit16(code, 11),
        bit16(spec_decode_gillham_id13(code), 8) == bit16(code, 1),
        bit16(spec_decode_gillham_id13(code), 7) == bit16(code, 3),
        bit16(spec_decode_gillham_id13(code), 6) == bit16(code, 5),
        bit16(spec_decode_gillham_id13(code), 5) == bit16(code, 8),
        bit16(spec_decode_gillham_id13(code), 4) == bit16(code, 10),
        bit16(spec_decode_gillham_id13(code), 3) == bit16(code, 12),
        bit16(spec_decode_gillham_id13(code), 2) == bit16(code, 0),
        bit16(spec_decode_gillham_id13(code), 1) == bit16(code, 2),
        bit16(spec_decode_gillham_id13(code), 0) == bit16(code, 4),
{
    let v = spec_decode_gillham_id13(code);
    assert(((v >> 11u16) & 1u16) == ((code >> 7u16) & 1u16) && ((v >> 10u16) & 1u16) == ((code
        >> 9u16) & 1u16) && ((v >> 9u16) & 1u16) == ((code >> 11u16) & 1u16) && ((v >> 8u16)
        & 1u16) == ((code >> 1u16) & 1u16) && ((v >> 7u16) & 1u16) == ((code >> 3u16) & 1u16)
        && ((v >> 6u16) & 1u16) == ((code >> 5u16) & 1u16) && ((v >> 5u16) & 1u16) == ((code
        >> 8u16) & 1u16) && ((v >> 4u16) & 1u16) == ((code >> 10u16) & 1u16) && ((v >> 3u16)
        & 1u16) == ((code >> 12u16) & 1u16) && ((v >> 2u16) & 1u16) == ((code >> 0u16) & 1u16)
        && ((v >> 1u16) & 1u16) == ((code >> 2u16) & 1u16) && ((v >> 0u16) & 1u16) == ((code
        >> 4u16) & 1u16)) by (bit_vector)
        requires
            v == spec_decode_gillham_id13(code),
    ;
}

/// Two identity codes that differ in any of their 12 pulses (the ID bit and
/// the bits above the code aside) give two different squawks: no pulse is
/// lost.
pub proof fn law_id13_keeps_every_pulse(a: u16, b: u16)
    requires
        a & 0b1_1111_1011_1111 != b & 0b1_1111_1011_1111,
    ensures
        spec_decode_gillham_id13(a) != spec_decode_gillham_id13(b),
{
    assert(a & 0b1_1111_1011_1111 != b & 0b1_1111_1011_1111 ==> spec_decode_gillham_id13(a)
        != spec_decode_gillham_id13(b)) by (bit_vector);
}

/// Every pulse of the 13-bit altitude code lands in its place of
/// `D2 D4 A1 A2 A4 B1 B2 B4 C1 C2 C4` (output bits 10 down to 0), read from
/// the input order `C1 A1 C2 A2 C4 A4 M B1 Q B2 D2 B4 D4` (input bits 12
/// down to 0).
pub proof fn law_ac13_places_every_pulse(code: u16)
    ensures
        bit16(spec_decode_gillham_ac13(code), 10) == bit16(code, 2),
        bit16(spec_decode_gillham_ac13(code), 9) == bit16(code, 0),
        bit16(spec_decode_gillham_ac13(code), 8) == bit16(code, 11),
        bit16(spec_decode_gillham_ac13(code), 7) == bit16(code, 9),
        bit16(spec_decode_gillham_ac13(code), 6) == bit16(code, 7),
        bit16(spec_decode_gillham_ac13(code), 5) == bit16(code, 5),
        bit16(spec_decode_gillham_ac13(code), 4) == bit16(code, 3),
        bit16(spec_decode_gillham_ac13(code), 3) == bit16(code, 1),
        bit16(spec_decode_gillham_ac13(code), 2) == bit16(code, 12),
        bit16(spec_decode_gillham_ac13(code), 1) == bit16(code, 10),
        bit16(spec_decode_gillham_ac13(code), 0) == bit16(code, 8),
{
    let v = spec_decode_gillham_ac13(code);
    assert(((v >> 10u16) & 1u16) == ((code >> 2u16) & 1u16) && ((v >> 9u16) & 1u16) == ((code
        >> 0u16) & 1u16) && ((v >> 8u16) & 1u16) == ((code >> 11u16) & 1u16) && ((v >> 7u16)
        & 1u16) == ((code >> 9u16) & 1u16) && ((v >> 6u16) & 1u16) == ((code >> 7u16) & 1u16)
        && ((v >> 5u16) & 1u16) == ((code >> 5u16) & 1u16) && ((v >> 4u16) & 1u16) == ((code
        >> 3u16) & 1u16) && ((v >> 3u16) & 1u16) == ((code >> 1u16) & 1u16) && ((v >> 2u16)
        & 1u16) == ((code >> 12u16) & 1u16) && ((v >> 1u16) & 1u16) == ((code >> 10u16) & 1u16)
        && ((v >> 0u16) & 1u16) == ((code >> 8u16) & 1u16)) by (bit_vector)
        requires
            v == spec_decode_gillham_ac13(code),
    ;
}

/// Two 13-bit altitude codes that differ in any of their 11 pulses (the M
/// and Q bits and the bits above the code aside) decode differently.
pub proof fn law_ac13_keeps_every_pulse(a: u16, b: u16)
    requires
        a & 0b1_1111_1010_1111 != b & 0b1_1111_1010_1111,
    ensures
        spec_decode_gillham_ac13(a) != spec_decode_gillham_ac13(b),
{
    assert(a & 0b1_1111_1010_1111 != b & 0b1_1111_1010_1111 ==> spec_decode_gillham_ac13(a)
        != spec_decode_gillham_ac13(b)) by (bit_vector);
}

/// Every pulse of the 12-bit altitude code lands in its place of
/// `D2 D4 A1 A2 A4 B1 B2 B4 C1 C2 C4` (output bits 10 down to 0), read from
/// the input order `C1 A1 C2 A2 C4 A4 B1 Q B2 D2 B4 D4` (input bits 11 down
/// to 0).
pub proof fn law_ac12_places_every_pulse(code: u16)
    ensures
        bit16(spec_decode_gillham_ac12(code), 10) == bit16(code, 2),
        bit16(spec_decode_gillham_ac12(code), 9) == bit16(code, 0),
        bit16(spec_decode_gillham_ac12(code), 8) == bit16(code, 10),
        bit16(spec_decode_gillham_ac12(code), 7) == bit16(code, 8),
        bit16(spec_decode_gillham_ac12(code), 6) == bit16(code, 6),
        bit16(spec_decode_gillham_ac12(code), 5) == bit16(code, 5),
        bit16(spec_decode_gillham_ac12(code), 4) == bit16(code, 3),
        bit16(spec_decode_gillham_ac12(code), 3) == bit16(code, 1),
        bit16(spec_decode_gillham_ac12(code), 2) == bit16(code, 11),
        bit16(spec_decode_gillham_ac12(code), 1) == bit16(code, 9),
        bit16(spec_decode_gillham_ac12(code), 0) == bit16(code, 7),
{
    let v = spec_decode_gillham_ac12(code);
    assert(((v >> 10u16) & 1u16) == ((code >> 2u16) & 1u16) && ((v >> 9u16) & 1u16) == ((code
        >> 0u16) & 1u16) && ((v >> 8u16) & 1u16) == ((code >> 10u16) & 1u16) && ((v >> 7u16)
        & 1u16) == ((code >> 8u16) & 1u16) && ((v >> 6u16) & 1u16) == ((code >> 6u16) & 1u16)
        && ((v >> 5u16) & 1u16) == ((code >> 5u16) & 1u16) && ((v >> 4u16) & 1u16) == ((code
        >> 3u16) & 1u16) && ((v >> 3u16) & 1u16) == ((code >> 1u16) & 1u16) && ((v >> 2u16)
        & 1u16) == ((code >> 11u16) & 1u16) && ((v >> 1u16) & 1u16) == ((code >> 9u16) & 1u16)
        && ((v >> 0u16) & 1u16) == ((code >> 7u16) & 1u16)) by (bit_vector)
        requires
            v == spec_decode_gillham_ac12(code),
    ;
}

/// Two 12-bit altitude codes that differ in any of their 11 pulses (the Q
/// bit and the bits above the code aside) decode differently.
pub proof fn law_ac12_keeps_every_pulse(a: u16, b: u16)
    requires
        a & 0b1111_1110_1111 != b & 0b1111_1110_1111,
    ensures
        spec_decode_gillham_ac12(a) != spec_decode_gillham_ac12(b),
{
    assert(a & 0b1111_1110_1111 != b & 0b1111_1110_1111 ==> spec_decode_gillham_ac12(a)
        != spec_decode_gillham_ac12(b)) by (bit_vector);
}

} // verus!
