//! The aircraft database of tar1090.

use vstd::prelude::*;

use crate::{
    text::chars_of,
    types::IcaoAddress,
};

verus! {

/// Flags of an aircraft in the database.
///
/// Bits 1-4 are documented [here][1]. There are other bits that have
/// unknown meaning. readsb uses 16 bits[2].
///
/// [1]: https://github.com/wiedehopf/readsb/blob/75decb53c0e66f4c12cf24127578a3fe7d919219/README-json.md?plain=1#L112
/// [2]: https://github.com/wiedehopf/readsb/blob/75decb53c0e66f4c12cf24127578a3fe7d919219/track.h#L587
#[derive(Clone, Copy, Debug, Default, PartialEq, Eq)]
pub struct AircraftFlags {
    pub bits: u16,
}

pub const MILITARY: u16 = 0b0001;

pub const INTERESTING: u16 = 0b0010;

pub const PIA: u16 = 0b0100;

pub const LADD: u16 = 0b1000;

/// A text that is not a binary number of at most 16 bits.
#[derive(Clone, Debug)]
pub struct AircraftFlagsFromStrError {
    pub input: String,
}

/// The number that `u16::from_str_radix(s, 2)` reads: an optional `+`, then
/// at least one binary digit, with a value below 2^16.
pub open spec fn spec_parse_binary_u16(s: Seq<char>) -> Option<u16> {
    let digits = if s.len() > 0 && s[0] == '+' {
        s.drop_first()
    } else {
        s
    };
    if digits.len() > 0 && crate::types::spec_all_radix_digits(digits, 2)
        && crate::types::spec_radix_value(digits, 2) < 0x1_0000 {
        Some(crate::types::spec_radix_value(digits, 2) as u16)
    } else {
        None
    }
}

/// Flags written in binary read back as the same flags.
pub proof fn law_binary_flags_read_back(n: u16)
    ensures
        spec_parse_binary_u16(crate::text::spec_binary(n as nat)) == Some(n),
{
    crate::types::law_binary_reads_back(n as nat);
    let b = crate::text::spec_binary(n as nat);
    assert(b[0] != '+') by {
        assert(crate::types::spec_hex_digit(b[0]) is Some);
    }
}

/// The value of a text in a base grows with each digit taken from it.
proof fn lemma_radix_value_prefix(s: Seq<char>, k: int, radix: nat)
    requires
        0 <= k <= s.len(),
        radix >= 1,
    ensures
        crate::types::spec_radix_value(s.take(k), radix) <= crate::types::spec_radix_value(s, radix),
    decreases s.len() - k,
{
    if k < s.len() {
        lemma_radix_value_prefix(s, k + 1, radix);
        assert(s.take(k + 1).drop_last() =~= s.take(k));
        assert(crate::types::spec_radix_value(s.take(k), radix) <= crate::types::spec_radix_value(
            s.take(k),
            radix,
        ) * radix) by (nonlinear_arith)
            requires
                radix >= 1,
        ;
    } else {
        assert(s.take(k) =~= s);
    }
}

/// Reads a binary number of at most 16 bits, as `u16::from_str_radix(s, 2)`
/// does.
pub fn parse_binary_u16(s: &str) -> (r: Option<u16>)
    ensures
        r == spec_parse_binary_u16(s@),
{
    let chars = chars_of(s);
    let start: usize = if chars.len() > 0 && chars[0] == '+' {
        1
    } else {
        0
    };
    let ghost digits = chars@.subrange(start as int, chars@.len() as int);
    proof {
        if chars@.len() > 0 && chars@[0] == '+' {
            assert(digits =~= s@.drop_first());
        } else {
            assert(digits =~= s@);
        }
    }
    if chars.len() == start {
        return None;
    }
    let mut value: u32 = 0;
    let mut i: usize = start;
    while i < chars.len()
        invariant
            start <= i <= chars@.len(),
            chars@ == s@,
            digits == chars@.subrange(start as int, chars@.len() as int),
            digits == (if s@.len() > 0 && s@[0] == '+' {
                s@.drop_first()
            } else {
                s@
            }),
            digits.len() > 0,
            value == crate::types::spec_radix_value(digits.take(i - start), 2),
            value < 0x1_0000,
            forall|k: int|
                0 <= k < i - start ==> (crate::types::spec_hex_digit(#[trigger] digits[k]) matches Some(
                    d,
                ) && d < 2),
        decreases chars@.len() - i,
    {
        let c = chars[i];
        assert(c == digits[i - start]);
        let digit: u32 = if c == '0' {
            0
        } else if c == '1' {
            1
        } else {
            assert(!(crate::types::spec_hex_digit(digits[i - start]) matches Some(d) && d < 2));
            return None;
        };
        proof {
            assert(digits.take(i - start + 1).drop_last() =~= digits.take(i - start));
        }
        value = value * 2 + digit;
        if value > 0xffff {
            proof {
                lemma_radix_value_prefix(digits, i - start + 1, 2);
            }
            return None;
        }
        i += 1;
    }
    proof {
        assert(digits.take(i - start) =~= digits);
    }
    Some(value as u16)
}

impl AircraftFlags {
    /// The flags of the bits of a number, known or not.
    pub fn from_bits_retain(bits: u16) -> (r: Self)
        ensures
            r.bits == bits,
    {
        AircraftFlags { bits }
    }

    pub fn bits(&self) -> (r: u16)
        ensures
            r == self.bits,
    {
        self.bits
    }

    /// Whether all flags of `other` are set.
    pub fn contains(&self, other: AircraftFlags) -> (r: bool)
        ensures
            r == (self.bits & other.bits == other.bits),
    {
        self.bits & other.bits == other.bits
    }

    /// Reads the flags from a binary number; unknown bits are kept.
    ///
    /// The database's `dbFlags` are just a binary number string
    /// (<https://github.com/wiedehopf/readsb/blob/75decb53c0e66f4c12cf24127578a3fe7d919219/aircraft.c#L851>).
    /// At least one entry has flags of 0b10000, whose meaning nobody knows, so
    /// unknown bits are ignored.
    pub fn from_str(s: &str) -> (r: Result<Self, AircraftFlagsFromStrError>)
        ensures
            match r {
                Ok(flags) => spec_parse_binary_u16(s@) == Some(flags.bits),
                Err(e) => spec_parse_binary_u16(s@) is None && e.input@ == s@,
            },
    {
        match parse_binary_u16(s) {
            Some(bits) => Ok(AircraftFlags::from_bits_retain(bits)),
            None => Err(AircraftFlagsFromStrError { input: s.to_owned() }),
        }
    }
}

/// The tags that the flags of an aircraft give it: `military` for the
/// military flag.
pub fn aircraft_tags(flags: AircraftFlags) -> (r: Vec<&'static str>)
    ensures
        r@.len() == (if flags.bits & MILITARY == MILITARY {
            1int
        } else {
            0
        }),
        r@.len() == 1 ==> r@[0]@ == "military"@,
{
    let mut tags: Vec<&'static str> = Vec::new();
    if flags.contains(AircraftFlags::from_bits_retain(MILITARY)) {
        tags.push("military");
    }
    tags
}

/// Whether the database needs to be updated: when it never was, or when
/// the latest commit differs from the one it was updated to.
pub fn needs_update(current_commit: Option<&str>, latest_commit: &str) -> (r: bool)
    ensures
        r == match current_commit {
            Some(current) => current@ != latest_commit@,
            None => true,
        },
{
    match current_commit {
        Some(current) => {
            let latest = chars_of(latest_commit);
            !crate::text::chars_eq(current, latest.as_slice())
        },
        None => true,
    }
}

/// An aircraft of the database.
#[derive(Clone, Debug)]
pub struct Aircraft {
    pub icao_address: IcaoAddress,
    pub registration: String,
    pub icao_model_code: Option<String>,
    pub flags: AircraftFlags,
    pub model_name: Option<String>,
    pub registration_year: Option<u16>,
    pub operator: Option<String>,
}

} // verus!
