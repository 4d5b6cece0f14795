//! Reading the output of `rtl_adsb -S`, a quick and dirty demodulator: a
//! line that holds a frame is a `*`, the frame in hexadecimal, and a `;`.

use vstd::prelude::*;
use vstd::string::StringSliceAdditionalSpecFns;

use crate::{
    rtlsdr::RawFrame,
    text::{
        spec_trim,
        trim,
    },
};

verus! {

#[derive(Debug)]
pub enum Error {
    InvalidLine(String),
}

/// The value of a hexadecimal digit given as a byte, in either case.
pub open spec fn spec_hex_value(b: u8) -> Option<u8> {
    if 0x30 <= b <= 0x39 {
        Some((b - 0x30) as u8)
    } else if 0x61 <= b <= 0x66 {
        Some((b - 0x61 + 10) as u8)
    } else if 0x41 <= b <= 0x46 {
        Some((b - 0x41 + 10) as u8)
    } else {
        None
    }
}

/// The bytes that hexadecimal text decodes to, two digits each, as
/// `hex::decode_to_slice` decodes them: the text must have an even length
/// and consist of hexadecimal digits.
pub open spec fn spec_hex_decode(s: Seq<u8>) -> Option<Seq<u8>> {
    if s.len() % 2 == 0 && forall|i: int| 0 <= i < s.len() ==> #[trigger] spec_hex_value(s[i]) is Some {
        Some(
            Seq::new(
                s.len() / 2,
                |i: int| (spec_hex_value(s[2 * i])->0 * 16 + spec_hex_value(s[2 * i + 1])->0) as u8,
            ),
        )
    } else {
        None
    }
}

/// The hexadecimal digits are `0` to `9` then `a` to `f` (or `A` to `F`),
/// valued in that order below 16: digit values grow with the digits, so the
/// sixteen digits take the values 0 to 15 one each; an upper-case letter has
/// the value of its lower-case one.
pub proof fn law_hex_values(b: u8, c: u8)
    ensures
        spec_hex_value(b) is Some <==> (0x30 <= b <= 0x39 || 0x61 <= b <= 0x66 || 0x41 <= b <= 0x46),
        spec_hex_value(b) matches Some(v) ==> v < 16,
        (0x30 <= b <= 0x39 || 0x61 <= b <= 0x66) && (0x30 <= c <= 0x39 || 0x61 <= c <= 0x66) && b
            < c ==> spec_hex_value(b)->0 < spec_hex_value(c)->0,
        0x41 <= b <= 0x46 && c == b + 32 ==> spec_hex_value(b) == spec_hex_value(c),
        spec_hex_value(0x30) == Some(0u8),
{
}

fn hex_value(b: u8) -> (r: Option<u8>)
    ensures
        r == spec_hex_value(b),
{
    if 0x30 <= b && b <= 0x39 {
        Some(b - 0x30)
    } else if 0x61 <= b && b <= 0x66 {
        Some(b - 0x61 + 10)
    } else if 0x41 <= b && b <= 0x46 {
        Some(b - 0x41 + 10)
    } else {
        None
    }
}

/// Decodes hexadecimal text.
pub fn hex_decode(s: &[u8]) -> (r: Option<Vec<u8>>)
    ensures
        match r {
            Some(v) => spec_hex_decode(s@) == Some(v@),
            None => spec_hex_decode(s@) is None,
        },
{
    if s.len() % 2 != 0 {
        return None;
    }
    let mut out: Vec<u8> = Vec::new();
    let mut i: usize = 0;
    while i < s.len() / 2
        invariant
            s@.len() % 2 == 0,
            i <= s@.len() / 2,
            out@.len() == i,
            forall|j: int| 0 <= j < 2 * i ==> #[trigger] spec_hex_value(s@[j]) is Some,
            forall|j: int|
                0 <= j < i ==> #[trigger] out@[j] == (spec_hex_value(s@[2 * j])->0 * 16 + spec_hex_value(
                    s@[2 * j + 1],
                )->0) as u8,
        decreases s@.len() / 2 - i,
    {
        let high = match hex_value(s[2 * i]) {
            Some(v) => v,
            None => return None,
        };
        let low = match hex_value(s[2 * i + 1]) {
            Some(v) => v,
            None => return None,
        };
        assert(high < 16 && low < 16);
        out.push(high * 16 + low);
        i += 1;
    }
    assert(out@ =~= spec_hex_decode(s@)->0);
    Some(out)
}

/// Whether slicing a text's bytes at `i` is allowed: at the end, or at a
/// byte that starts a character (not a continuation byte `10xxxxxx`).
pub open spec fn spec_starts_char(bytes: Seq<u8>, i: int) -> bool {
    i == bytes.len() || (0 <= i < bytes.len() && bytes[i] & 0xc0 != 0x80)
}

/// The number of bytes of a line without surrounding whitespace.
pub open spec fn spec_trimmed_length(line: &str) -> nat {
    vstd::utf8::encode_utf8(spec_trim(line@)).len()
}

/// The lines that can be read: where the line (without surrounding
/// whitespace) is as long as a frame line, the digits are taken from the
/// line as read, at its bytes 1 to 15 (short frames) or 1 to 29 (long
/// frames), and these must be character boundaries.
pub open spec fn spec_line_readable(line: &str) -> bool {
    &&& spec_trimmed_length(line) == 16 ==> spec_starts_char(line.spec_bytes(), 1) && spec_starts_char(
        line.spec_bytes(),
        15,
    )
    &&& spec_trimmed_length(line) == 30 ==> spec_starts_char(line.spec_bytes(), 1) && spec_starts_char(
        line.spec_bytes(),
        29,
    )
}

/// The frame digits of a line, at its bytes 1 to `end`, decoded.
fn frame_digits(line: &str, end: usize) -> (r: Option<Vec<u8>>)
    requires
        1 <= end,
        spec_starts_char(line.spec_bytes(), 1),
        spec_starts_char(line.spec_bytes(), end as int),
    ensures
        match r {
            Some(v) => spec_hex_decode(line.spec_bytes().subrange(1, end as int)) == Some(v@),
            None => spec_hex_decode(line.spec_bytes().subrange(1, end as int)) is None,
        },
{
    let bytes = line.as_bytes();
    let digits = vstd::slice::slice_subrange(bytes, 1, end);
    hex_decode(digits)
}

/// The number of bytes of a line without surrounding whitespace, and that
/// line.
fn trimmed_length(line: &str) -> (r: (usize, &str))
    ensures
        r.0 == spec_trimmed_length(line),
        r.1@ == spec_trim(line@),
{
    let trimmed = trim(line);
    (trimmed.as_bytes().len(), trimmed)
}

/// Reads a line of `rtl_adsb -S` output. A line of 16 bytes holds a short
/// frame, one of 30 bytes a long frame (whitespace around the line does not
/// count); other lines hold no frame. Digits that do not decode make the
/// line invalid.
#[verifier::spinoff_prover]
#[verifier::rlimit(40)]
pub fn parse_line(line: &str) -> (r: Result<Option<RawFrame>, Error>)
    requires
        spec_line_readable(line),
    ensures
        spec_trimmed_length(line) == 16 ==> match spec_hex_decode(
            line.spec_bytes().subrange(1, 15),
        ) {
            Some(d) => r matches Ok(Some(RawFrame::ModeSShort { data })) && data@ == d,
            None => r matches Err(Error::InvalidLine(l)) && l@ == spec_trim(line@),
        },
        spec_trimmed_length(line) == 30 ==> match spec_hex_decode(
            line.spec_bytes().subrange(1, 29),
        ) {
            Some(d) => r matches Ok(Some(RawFrame::ModeSLong { data })) && data@ == d,
            None => r matches Err(Error::InvalidLine(l)) && l@ == spec_trim(line@),
        },
        spec_trimmed_length(line) != 16 && spec_trimmed_length(line) != 30 ==> r matches Ok(None),
{
    let (length, trimmed) = trimmed_length(line);
    if length == 16 {
        match frame_digits(line, 15) {
            Some(v) => {
                assert(v@.len() == 7);
                let data = [v[0], v[1], v[2], v[3], v[4], v[5], v[6]];
                assert(data@ =~= v@);
                Ok(Some(RawFrame::ModeSShort { data }))
            },
            None => Err(Error::InvalidLine(trimmed.to_owned())),
        }
    } else if length == 30 {
        match frame_digits(line, 29) {
            Some(v) => {
                assert(v@.len() == 14);
                let data = [
                    v[0],
                    v[1],
                    v[2],
                    v[3],
                    v[4],
                    v[5],
                    v[6],
                    v[7],
                    v[8],
                    v[9],
                    v[10],
                    v[11],
                    v[12],
                    v[13],
                ];
                assert(data@ =~= v@);
                Ok(Some(RawFrame::ModeSLong { data }))
            },
            None => Err(Error::InvalidLine(trimmed.to_owned())),
        }
    } else {
        Ok(None)
    }
}

} // verus!
