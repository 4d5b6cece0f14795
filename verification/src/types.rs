//! Identifiers shared by all sources: ICAO addresses, squawks and wake
//! turbulence categories.

use vstd::prelude::*;

verus! {

/// A 24-bit aircraft address.
///
/// Addresses that are not assigned by ICAO (e.g. anonymous or ground vehicle
/// addresses) carry the `non_icao` flag.
#[derive(Clone, Copy, Debug, PartialEq, Eq, PartialOrd, Ord, Hash)]
pub struct IcaoAddress {
    pub address: u32,
    pub non_icao: bool,
}

impl IcaoAddress {
    /// The value stored in the database: the address as a 32-bit signed
    /// integer, negated for an address that is not an ICAO address.
    pub open spec fn spec_to_database(self) -> i32 {
        if self.non_icao {
            -(self.address as i32) as i32
        } else {
            self.address as i32
        }
    }

    pub fn to_database(&self) -> (r: i32)
        requires
            self.non_icao ==> self.address as i32 != i32::MIN,
        ensures
            r == self.spec_to_database(),
    {
        let mut address = self.address as i32;
        if self.non_icao {
            address = -address;
        }
        address
    }

    /// The address of a value stored in the database: a negative value is
    /// not an ICAO address.
    pub open spec fn spec_from_database(value: i32) -> IcaoAddress {
        IcaoAddress {
            address: (if value < 0 {
                -value
            } else {
                value as int
            }) as u32,
            non_icao: value < 0,
        }
    }

    pub fn from_database(value: i32) -> (r: Self)
        requires
            value != i32::MIN,
        ensures
            r == Self::spec_from_database(value),
    {
        let non_icao = value < 0;
        let magnitude = if non_icao {
            -value
        } else {
            value
        };
        let address = magnitude as u32;
        Self { address, non_icao }
    }
}

/// An address stored in the database reads back as the same address, for
/// addresses below 2^31, except the address 0 when it is not an ICAO address
/// (it is stored as 0, which reads back as the ICAO address 0).
pub proof fn law_icao_address_database_round_trip(address: IcaoAddress)
    requires
        address.address < 0x8000_0000,
        !(address.non_icao && address.address == 0),
    ensures
        IcaoAddress::spec_from_database(address.spec_to_database()) == address,
{
}

impl IcaoAddress {
    /// The ICAO address made of three big-endian bytes.
    pub open spec fn spec_from_bytes(bytes: [u8; 3]) -> IcaoAddress {
        IcaoAddress {
            address: crate::bits::be24(bytes[0], bytes[1], bytes[2]),
            non_icao: false,
        }
    }

    /// Builds an ICAO address from three big-endian bytes.
    pub fn from_bytes(bytes: [u8; 3]) -> (r: Self)
        ensures
            r == Self::spec_from_bytes(bytes),
            r.address < 0x100_0000,
    {
        let b0 = bytes[0];
        let b1 = bytes[1];
        let b2 = bytes[2];
        assert(crate::bits::be24(b0, b1, b2) < 0x100_0000) by (bit_vector);
        IcaoAddress {
            address: ((b0 as u32) << 16u32) | ((b1 as u32) << 8u32) | (b2 as u32),
            non_icao: false,
        }
    }

    /// Wraps an address without checking that it fits into 24 bits.
    pub fn from_u32_unchecked(address: u32) -> (r: Self)
        ensures
            r == (IcaoAddress { address, non_icao: false }),
    {
        IcaoAddress { address, non_icao: false }
    }

    /// Wraps an address if it fits into 24 bits.
    pub fn from_u32(address: u32) -> (r: Option<Self>)
        ensures
            r == (if address < 0x100_0000 {
                Some(IcaoAddress { address, non_icao: false })
            } else {
                None
            }),
    {
        if address < 0x100_0000 {
            Some(IcaoAddress { address, non_icao: false })
        } else {
            None
        }
    }

    /// The same address, marked as not assigned by ICAO.
    pub fn with_non_icao_flag(self) -> (r: Self)
        ensures
            r == (IcaoAddress { address: self.address, non_icao: true }),
    {
        IcaoAddress { address: self.address, non_icao: true }
    }

    /// The 24-bit address.
    pub fn as_u32(&self) -> (r: u32)
        ensures
            r == self.address,
    {
        self.address
    }

    /// Whether the address is not assigned by ICAO.
    pub fn is_non_icao(&self) -> (r: bool)
        ensures
            r == self.non_icao,
    {
        self.non_icao
    }

    /// The address as three big-endian bytes.
    pub fn as_bytes(&self) -> (r: [u8; 3])
        requires
            self.address < 0x100_0000,
        ensures
            crate::bits::be24(r[0], r[1], r[2]) == self.address,
    {
        let a = self.address;
        let r = [(a >> 16u32) as u8, (a >> 8u32) as u8, a as u8];
        assert(a < 0x100_0000 ==> crate::bits::be24((a >> 16u32) as u8, (a >> 8u32) as u8, a as u8)
            == a) by (bit_vector);
        r
    }
}

/// A Mode A code (squawk): four octal digits, 3 bits each.
#[derive(Clone, Copy, Debug, PartialEq, Eq, PartialOrd, Ord, Hash)]
pub struct Squawk {
    pub code: u16,
}

impl Squawk {
    /// Wraps a code without checking that it has at most four octal digits.
    pub fn from_u16_unchecked(code: u16) -> (r: Self)
        ensures
            r == (Squawk { code }),
    {
        Squawk { code }
    }

    /// Wraps a code if it has at most four octal digits.
    pub fn from_u16(code: u16) -> (r: Option<Self>)
        ensures
            r == (if code < 0o10000 {
                Some(Squawk { code })
            } else {
                None
            }),
    {
        if code < 0o10000 {
            Some(Squawk { code })
        } else {
            None
        }
    }

    /// The raw code.
    pub fn as_u16(&self) -> (r: u16)
        ensures
            r == self.code,
    {
        self.code
    }

    /// The value stored in the database: the code as a 16-bit signed
    /// integer.
    pub fn to_database(&self) -> (r: i16)
        ensures
            r == self.code as i16,
    {
        self.code as i16
    }

    /// The squawk of a value stored in the database.
    pub fn from_database(value: i16) -> (r: Self)
        ensures
            r == (Squawk { code: value as u16 }),
    {
        Self::from_u16_unchecked(value as u16)
    }
}

/// A squawk stored in the database reads back as the same squawk.
pub proof fn law_squawk_database_round_trip(squawk: Squawk)
    ensures
        (Squawk { code: (squawk.code as i16) as u16 }) == squawk,
{
    let c = squawk.code;
    assert((c as i16) as u16 == c) by (bit_vector);
}

/// Wake turbulence category.
#[derive(Clone, Copy, Debug, PartialEq, Eq, PartialOrd, Ord, Hash)]
pub enum Wtc {
    Light,
    Medium,
    Heavy,
    Super,
}

/// The string could not be read as a wake turbulence category.
#[derive(Clone, Debug)]
pub struct WtcFromStrError {
    pub input: String,
}

impl Wtc {
    /// The letter of a category.
    pub open spec fn spec_char(self) -> char {
        match self {
            Wtc::Light => 'L',
            Wtc::Medium => 'M',
            Wtc::Heavy => 'H',
            Wtc::Super => 'J',
        }
    }

    /// The category of a letter, in either case.
    pub open spec fn spec_from_char(c: char) -> Option<Wtc> {
        if c == 'L' || c == 'l' {
            Some(Wtc::Light)
        } else if c == 'M' || c == 'm' {
            Some(Wtc::Medium)
        } else if c == 'H' || c == 'h' {
            Some(Wtc::Heavy)
        } else if c == 'J' || c == 'j' {
            Some(Wtc::Super)
        } else {
            None
        }
    }

    /// The letter of this category.
    /// The text for debugging: the letter in `Wtc(..)`.
    pub open spec fn spec_debug_text(self) -> Seq<char> {
        "Wtc("@.push(self.spec_char()) + ")"@
    }

    pub fn debug_text(&self) -> (r: String)
        ensures
            r@ == self.spec_debug_text(),
    {
        let mut v: Vec<char> = Vec::new();
        crate::text::push_str(&mut v, "Wtc(");
        v.push(self.as_char());
        crate::text::push_str(&mut v, ")");
        assert(v@ =~= self.spec_debug_text());
        crate::text::string_from_chars(&v)
    }

    pub fn as_char(&self) -> (c: char)
        ensures
            c == self.spec_char(),
    {
        match self {
            Wtc::Light => 'L',
            Wtc::Medium => 'M',
            Wtc::Heavy => 'H',
            Wtc::Super => 'J',
        }
    }

    /// The category of a letter, in either case.
    pub fn from_char(c: char) -> (r: Option<Self>)
        ensures
            r == Self::spec_from_char(c),
    {
        if c == 'L' || c == 'l' {
            Some(Wtc::Light)
        } else if c == 'M' || c == 'm' {
            Some(Wtc::Medium)
        } else if c == 'H' || c == 'h' {
            Some(Wtc::Heavy)
        } else if c == 'J' || c == 'j' {
            Some(Wtc::Super)
        } else {
            None
        }
    }

    /// The value stored in the database: the letter as an 8-bit signed
    /// integer.
    pub fn to_database(&self) -> (r: i8)
        ensures
            r == self.spec_char() as i8,
    {
        self.as_char() as u8 as i8
    }

    /// The category of a value stored in the database, which must be one of
    /// the letters.
    pub fn from_database(value: i8) -> (r: Self)
        requires
            Self::spec_from_char((value as u8) as char) is Some,
        ensures
            Self::spec_from_char((value as u8) as char) == Some(r),
    {
        match Self::from_char(value as u8 as char) {
            Some(wtc) => wtc,
            None => Wtc::Light,
        }
    }

    /// Reads a category from a string that holds exactly its letter.
    pub fn from_str(s: &str) -> (r: Result<Self, WtcFromStrError>)
        ensures
            match r {
                Ok(w) => s@.len() == 1 && Self::spec_from_char(s@[0]) == Some(w),
                Err(e) => e.input@ == s@ && (s@.len() != 1 || Self::spec_from_char(s@[0])
                    is None),
            },
    {
        let chars = crate::text::chars_of(s);
        if chars.len() != 1 {
            return Err(WtcFromStrError { input: s.to_owned() });
        }
        match Self::from_char(chars[0]) {
            Some(w) => Ok(w),
            None => Err(WtcFromStrError { input: s.to_owned() }),
        }
    }
}

/// Every category is read back from its own letter.
pub proof fn law_wtc_char_round_trip(w: Wtc)
    ensures
        Wtc::spec_from_char(w.spec_char()) == Some(w),
{
}

/// A category stored in the database reads back as the same category.
pub proof fn law_wtc_database_round_trip(w: Wtc)
    ensures
        Wtc::spec_from_char(((w.spec_char() as i8) as u8) as char) == Some(w),
{
    let c = w.spec_char();
    assert(c == 'L' || c == 'M' || c == 'H' || c == 'J');
    assert(((c as i8) as u8) as char == c) by {
        let n = c as u32;
        assert(n < 128);
    }
}

/// The value of a hexadecimal digit, in either case.
pub open spec fn spec_hex_digit(c: char) -> Option<nat> {
    if '0' <= c && c <= '9' {
        Some((c as nat - '0' as nat) as nat)
    } else if 'a' <= c && c <= 'f' {
        Some((c as nat - 'a' as nat + 10) as nat)
    } else if 'A' <= c && c <= 'F' {
        Some((c as nat - 'A' as nat + 10) as nat)
    } else {
        None
    }
}

/// Whether a character is a hexadecimal digit as written in lower case.
pub open spec fn spec_is_lower_hex_digit(c: char) -> bool {
    ('0' <= c && c <= '9') || ('a' <= c && c <= 'f')
}

/// The hexadecimal digits are `0` to `9` then `a` to `f` (or `A` to `F`),
/// valued in that order below 16: digit values grow with the digits, so the
/// sixteen digits take the values 0 to 15 one each; an upper-case letter has
/// the value of its lower-case one; no other character is a digit.
pub proof fn law_hex_digit_values(c: char, d: char)
    ensures
        spec_hex_digit(c) is Some <==> spec_is_lower_hex_digit(c) || ('A' <= c && c <= 'F'),
        spec_hex_digit(c) matches Some(v) ==> v < 16,
        spec_is_lower_hex_digit(c) && spec_is_lower_hex_digit(d) && c < d ==> spec_hex_digit(c)->0
            < spec_hex_digit(d)->0,
        'A' <= c && c <= 'F' && d as u32 == c as u32 + 32 ==> spec_hex_digit(c) == spec_hex_digit(d),
        spec_hex_digit('0') == Some(0nat),
{
}

/// Reading a number written in binary gives the number back: the text is
/// all binary digits, and their value in base 2 is the number.
pub proof fn law_binary_reads_back(n: nat)
    ensures
        crate::text::spec_binary(n).len() > 0,
        spec_all_radix_digits(crate::text::spec_binary(n), 2),
        spec_radix_value(crate::text::spec_binary(n), 2) == n,
    decreases n,
{
    let b = crate::text::spec_binary(n);
    let last = n % 2;
    assert(crate::text::spec_digit_char(last) as nat == 48 + last);
    if n < 2 {
        assert(b.drop_last() =~= Seq::<char>::empty());
        assert(spec_radix_value(b.drop_last(), 2) == 0);
        assert(b.last() == crate::text::spec_digit_char(last));
    } else {
        law_binary_reads_back(n / 2);
        let p = crate::text::spec_binary(n / 2);
        assert(b.drop_last() =~= p);
        assert(b.last() == crate::text::spec_digit_char(last));
        assert(n == (n / 2) * 2 + last);
        assert forall|i: int| 0 <= i < b.len() implies (spec_hex_digit(#[trigger] b[i]) matches Some(
            v,
        ) && v < 2) by {
            if i < p.len() {
                assert(b[i] == p[i]);
            }
        }
    }
}

/// The value of a sequence of digits in base `radix`, most significant
/// first; a character that is not such a digit counts as 0.
pub open spec fn spec_radix_value(s: Seq<char>, radix: nat) -> nat
    decreases s.len(),
{
    if s.len() == 0 {
        0
    } else {
        spec_radix_value(s.drop_last(), radix) * radix + match spec_hex_digit(s.last()) {
            Some(d) => d,
            None => 0,
        }
    }
}

/// Whether every character is a digit below `radix` (at most 16).
pub open spec fn spec_all_radix_digits(s: Seq<char>, radix: nat) -> bool {
    forall|i: int|
        0 <= i < s.len() ==> (spec_hex_digit(#[trigger] s[i]) matches Some(d) && d < radix)
}

/// Reads the digits of `chars` in base `radix` (at most 16): the value if
/// all are digits below `radix`.
fn radix_digits(chars: &Vec<char>, radix: u32) -> (r: Option<u32>)
    requires
        2 <= radix <= 16,
        chars@.len() <= 6,
    ensures
        r == (if spec_all_radix_digits(chars@, radix as nat) {
            Some(spec_radix_value(chars@, radix as nat) as u32)
        } else {
            None
        }),
{
    let mut value: u32 = 0;
    let mut i: usize = 0;
    while i < chars.len()
        invariant
            2 <= radix <= 16,
            chars@.len() <= 6,
            i <= chars@.len(),
            forall|k: int|
                0 <= k < i ==> (spec_hex_digit(#[trigger] chars@[k]) matches Some(d) && d < radix),
            value == spec_radix_value(chars@.take(i as int), radix as nat),
            value < pow16(i as nat),
        decreases chars.len() - i,
    {
        let c = chars[i];
        let digit: u32 = if '0' <= c && c <= '9' {
            c as u32 - '0' as u32
        } else if 'a' <= c && c <= 'f' {
            c as u32 - 'a' as u32 + 10
        } else if 'A' <= c && c <= 'F' {
            c as u32 - 'A' as u32 + 10
        } else {
            return None;
        };
        if digit >= radix {
            return None;
        }
        proof {
            assert(chars@.take(i as int + 1).drop_last() =~= chars@.take(i as int));
            reveal_with_fuel(pow16, 7);
            assert(pow16(i as nat + 1) <= 0x100_0000);
            assert(value * radix + digit < pow16(i as nat + 1)) by (nonlinear_arith)
                requires
                    value < pow16(i as nat),
                    radix <= 16,
                    digit < radix,
                    pow16(i as nat + 1) == pow16(i as nat) * 16,
            ;
        }
        value = value * radix + digit;
        i += 1;
    }
    proof {
        assert(chars@.take(i as int) =~= chars@);
    }
    Some(value)
}

/// 16 to the power of `n`.
pub open spec fn pow16(n: nat) -> nat
    decreases n,
{
    if n == 0 {
        1
    } else {
        16 * pow16((n - 1) as nat)
    }
}

/// The string could not be read as an ICAO address.
#[derive(Clone, Debug)]
pub struct IcaoAddressFromStrError {
    pub input: String,
}

/// The string could not be read as a squawk.
#[derive(Clone, Debug)]
pub struct SquawkFromStrError {
    pub input: String,
}

impl IcaoAddress {
    /// One to six hexadecimal digits, in either case.
    pub open spec fn spec_from_str(s: Seq<char>) -> Option<IcaoAddress> {
        if 1 <= s.len() <= 6 && spec_all_radix_digits(s, 16) {
            Some(IcaoAddress { address: spec_radix_value(s, 16) as u32, non_icao: false })
        } else {
            None
        }
    }

    /// Reads an address written in hexadecimal.
    pub fn from_str(s: &str) -> (r: Result<Self, IcaoAddressFromStrError>)
        ensures
            match r {
                Ok(a) => Self::spec_from_str(s@) == Some(a),
                Err(e) => Self::spec_from_str(s@) is None && e.input@ == s@,
            },
    {
        let chars = crate::text::chars_of(s);
        if chars.len() < 1 || chars.len() > 6 {
            return Err(IcaoAddressFromStrError { input: s.to_owned() });
        }
        match radix_digits(&chars, 16) {
            Some(address) => Ok(IcaoAddress { address, non_icao: false }),
            None => Err(IcaoAddressFromStrError { input: s.to_owned() }),
        }
    }
}

impl Squawk {
    /// Exactly four octal digits.
    pub open spec fn spec_from_str(s: Seq<char>) -> Option<Squawk> {
        if s.len() == 4 && spec_all_radix_digits(s, 8) {
            Some(Squawk { code: spec_radix_value(s, 8) as u16 })
        } else {
            None
        }
    }

    /// Reads a squawk written as four octal digits.
    pub fn from_str(s: &str) -> (r: Result<Self, SquawkFromStrError>)
        ensures
            match r {
                Ok(q) => Self::spec_from_str(s@) == Some(q),
                Err(e) => Self::spec_from_str(s@) is None && e.input@ == s@,
            },
    {
        let chars = crate::text::chars_of(s);
        if chars.len() != 4 {
            return Err(SquawkFromStrError { input: s.to_owned() });
        }
        match radix_digits(&chars, 8) {
            Some(code) => {
                proof {
                    lemma_radix_value_bound(chars@, 8);
                    reveal_with_fuel(pow8, 5);
                }
                Ok(Squawk { code: code as u16 })
            },
            None => Err(SquawkFromStrError { input: s.to_owned() }),
        }
    }
}

proof fn lemma_radix_value_bound(s: Seq<char>, radix: nat)
    requires
        radix == 8,
        spec_all_radix_digits(s, radix),
    ensures
        spec_radix_value(s, radix) < pow8(s.len()),
    decreases s.len(),
{
    if s.len() > 0 {
        let t = s.drop_last();
        assert(spec_all_radix_digits(t, radix)) by {
            assert forall|i: int| 0 <= i < t.len() implies (spec_hex_digit(#[trigger] t[i]) matches Some(d)
                && d < radix) by {
                assert(t[i] == s[i]);
            }
        }
        lemma_radix_value_bound(t, radix);
        let d = spec_hex_digit(s.last())->0;
        assert(spec_hex_digit(s[s.len() - 1]) matches Some(d) && d < radix);
        assert(spec_radix_value(t, radix) * 8 + d < pow8(s.len())) by (nonlinear_arith)
            requires
                spec_radix_value(t, radix) < pow8(t.len()),
                d < 8,
                pow8(s.len()) == pow8(t.len()) * 8,
        ;
    }
}

/// 8 to the power of `n`.
pub open spec fn pow8(n: nat) -> nat
    decreases n,
{
    if n == 0 {
        1
    } else {
        8 * pow8((n - 1) as nat)
    }
}

} // verus!
