//! Mode A/C replies
//!
//! <http://www.aeroelectric.com/articles/Altitude_Encoding/modec.htm>

use vstd::prelude::*;

use crate::types::Squawk;

verus! {

#[derive(Clone, Copy, Debug)]
pub enum ModeAc {
    ModeA(ModeA),
    ModeC(ModeC),
}

#[derive(Clone, Copy, Debug, PartialEq, Eq)]
pub struct ModeA {
    pub squawk: Squawk,
    pub ident: bool,
}

/// The squawk of a Mode A word: the four 3-bit groups at bits 12, 8, 4 and
/// 0, each followed by an unused bit, packed together.
///
/// ```plain
/// bit:    f e d c b a 9 8 7 6 5 4 3 2 1 0
/// squawk: 0 a a a 0 b b b 0 c c c 0 d d d -> aaabbbcccddd
/// ident:  0 0 0 0 0 0 0 0 1 0 0 0 0 0 0 0
/// ```
pub open spec fn spec_mode_a_squawk(word: u16) -> u16 {
    ((word & 0x7000) >> 3u16) | ((word & 0x0700) >> 2u16) | ((word & 0x0070) >> 1u16) | (word
        & 0x0007)
}

impl ModeA {
    /// Decodes the big-endian word of two bytes.
    pub fn from_bytes(data: [u8; 2]) -> (r: Self)
        ensures
            r == (ModeA {
                squawk: Squawk { code: spec_mode_a_squawk(crate::bits::be16(data[0], data[1])) },
                ident: crate::bits::be16(data[0], data[1]) & 0x0080 != 0,
            }),
    {
        Self::from_u16(((data[0] as u16) << 8u16) | (data[1] as u16))
    }

    /// Decode squawk and ident flag from 16bit word.
    pub fn from_u16(word: u16) -> (r: Self)
        ensures
            r == (ModeA {
                squawk: Squawk { code: spec_mode_a_squawk(word) },
                ident: word & 0x0080 != 0,
            }),
    {
        let squawk = ((word & 0x7000) >> 3u16) | ((word & 0x0700) >> 2u16) | ((word & 0x0070)
            >> 1u16) | (word & 0x0007);
        let ident = word & 0x0080 != 0;
        ModeA { squawk: Squawk::from_u16_unchecked(squawk), ident }
    }
}

/// The packed squawk of a Mode A word is a code of four octal digits.
pub proof fn law_mode_a_squawk_fits(word: u16)
    ensures
        spec_mode_a_squawk(word) < 0o10000,
{
    assert(spec_mode_a_squawk(word) < 0o10000) by (bit_vector);
}

/// Each of the four octal digits of the squawk is one 3-bit group of the
/// word, in order: the first digit from bits 12 to 14, the second from 8 to
/// 10, the third from 4 to 6, the last from 0 to 2.
pub proof fn law_mode_a_digits(word: u16)
    ensures
        (spec_mode_a_squawk(word) >> 9u16) & 7 == (word >> 12u16) & 7,
        (spec_mode_a_squawk(word) >> 6u16) & 7 == (word >> 8u16) & 7,
        (spec_mode_a_squawk(word) >> 3u16) & 7 == (word >> 4u16) & 7,
        spec_mode_a_squawk(word) & 7 == word & 7,
{
    let q = spec_mode_a_squawk(word);
    assert((q >> 9u16) & 7 == (word >> 12u16) & 7 && (q >> 6u16) & 7 == (word >> 8u16) & 7 && (q
        >> 3u16) & 7 == (word >> 4u16) & 7 && q & 7 == word & 7) by (bit_vector)
        requires
            q == spec_mode_a_squawk(word),
    ;
}

#[derive(Clone, Copy, Debug)]
pub struct ModeC {}

} // verus!
