//! Compact position reporting: the encoded values as they stand in a frame.
//!
//! Turning them into degrees is floating point work, which is done outside
//! this library.

use vstd::prelude::*;

verus! {

#[derive(Clone, Copy, Debug, PartialEq, Eq, PartialOrd, Ord, Hash)]
pub enum CprFormat {
    Even,
    Odd,
}

impl CprFormat {
    /// A set bit is the odd format.
    pub open spec fn spec_from_bool(bit: bool) -> CprFormat {
        if bit {
            CprFormat::Odd
        } else {
            CprFormat::Even
        }
    }

    pub fn from_bool(bit: bool) -> (r: Self)
        ensures
            r == Self::spec_from_bool(bit),
    {
        if bit {
            CprFormat::Odd
        } else {
            CprFormat::Even
        }
    }

    /// The odd format is a set bit.
    pub open spec fn spec_as_bool(self) -> bool {
        self == CprFormat::Odd
    }

    pub fn as_bool(&self) -> (r: bool)
        ensures
            r == self.spec_as_bool(),
    {
        match self {
            CprFormat::Even => false,
            CprFormat::Odd => true,
        }
    }
}

/// The format read back from its bit is the format, and the bit read back
/// from its format is the bit.
pub proof fn law_cpr_format_bool_round_trip(format: CprFormat, bit: bool)
    ensures
        CprFormat::spec_from_bool(format.spec_as_bool()) == format,
        CprFormat::spec_from_bool(bit).spec_as_bool() == bit,
{
}

#[derive(Clone, Copy, Debug, PartialEq, Eq)]
pub struct Cpr {
    pub latitude: CprValue,
    pub longitude: CprValue,
}

/// 17 bit encoded latitude/longitude
#[derive(Clone, Copy, Debug, PartialEq, Eq)]
pub struct CprValue(pub u32);

impl CprValue {
    /// Wraps a word without checking that it fits into 17 bits.
    pub fn from_u32_unchecked(word: u32) -> (r: Self)
        ensures
            r == CprValue(word),
    {
        Self(word)
    }

    /// Wraps a word if it fits into 17 bits.
    pub fn from_u32(word: u32) -> (r: Option<Self>)
        ensures
            r == (if word < 0x2_0000 {
                Some(CprValue(word))
            } else {
                None
            }),
    {
        proof {
            crate::bits::lemma_u32_masks(word);
        }
        if word & 0xfffe0000 == 0 {
            Some(Self(word))
        } else {
            None
        }
    }

    /// The raw word.
    pub fn as_u32(&self) -> (r: u32)
        ensures
            r == self.0,
    {
        self.0
    }
}

} // verus!
