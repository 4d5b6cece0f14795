//! Mode S demodulation from sample magnitudes
//!
//! <https://www.radartutorial.eu/13.ssr/sr24.en.html>
//! <https://www.idc-online.com/technical_references/pdfs/electronic_engineering/Mode_S_Reply_Encoding.pdf>
//!
//! A frame starts with a preamble of 16 samples (8 µs) with pulses at
//! samples 0, 2, 7 and 9. Each bit then takes 2 samples: a falling edge is a
//! 1, a rising edge a 0.

use vstd::prelude::*;

use crate::rtlsdr::{
    Cursor,
    Magnitude,
};

verus! {

/// Preamble: 8 µs / 16 samples
pub const PREAMBLE_SAMPLES: usize = 16;

#[derive(Clone, Copy, Debug)]
pub enum Frame {
    ModeAc { data: [u8; 2] },
    ModeSShort { data: [u8; 7] },
    ModeSLong { data: [u8; 14] },
}

impl Frame {
    /// The bytes of the frame.
    pub open spec fn spec_bytes(self) -> Seq<u8> {
        match self {
            Frame::ModeAc { data } => data@,
            Frame::ModeSShort { data } => data@,
            Frame::ModeSLong { data } => data@,
        }
    }

    /// The bytes of the frame.
    pub fn as_ref(&self) -> (r: &[u8])
        ensures
            r@ == self.spec_bytes(),
    {
        match self {
            Frame::ModeAc { data } => data.as_slice(),
            Frame::ModeSShort { data } => data.as_slice(),
            Frame::ModeSLong { data } => data.as_slice(),
        }
    }
}

/// Why no frame could be read at a preamble.
#[derive(Clone, Copy, Debug, PartialEq, Eq)]
pub enum DemodFail {
    NotEnoughSamples,
    Invalid,
}

/// How strictly the edges of a bit are checked against the samples around
/// them.
#[derive(Clone, Copy, Debug, PartialEq, Eq, PartialOrd, Ord)]
pub enum Quality {
    NoChecks,
    HalfBit,
    OneBit,
    TwoBits,
}

impl Default for Quality {
    fn default() -> (r: Self)
        ensures
            r == Quality::OneBit,
    {
        Quality::OneBit
    }
}

/// The sample before the latest high sample of the preamble up to `i`: the
/// preamble is high at samples 0, 2, 7 and 9.
pub open spec fn spec_latest_high(i: int) -> int {
    if i >= 9 {
        9
    } else if i >= 7 {
        7
    } else if i >= 2 {
        2
    } else {
        0
    }
}

/// The latest low sample of the preamble up to `i`, if there is one.
pub open spec fn spec_latest_low(i: int) -> int {
    if i == 2 {
        1
    } else if i == 7 {
        6
    } else if i == 9 {
        8
    } else {
        i
    }
}

/// The check of the preamble at sample `i`: the latest high sample is above
/// the latest low sample (sample 0 must be above zero).
pub open spec fn spec_preamble_check(s: Seq<u16>, i: int) -> bool {
    if i == 0 {
        s[0] > 0
    } else {
        s[spec_latest_high(i)] > s[spec_latest_low(i)]
    }
}

/// Whether the first 16 samples are a preamble: every check holds.
pub open spec fn spec_is_preamble(s: Seq<u16>) -> bool {
    forall|i: int| 0 <= i < 16 ==> #[trigger] spec_preamble_check(s, i)
}

/// Where the search for a preamble from position `p` ends: the start of the
/// first preamble, if 16 samples from some position on are one, and the
/// position after the search.
pub open spec fn spec_find_preamble(s: Seq<u16>, p: int) -> (Option<int>, int)
    decreases s.len() - p,
{
    if p < 0 || s.len() - p < 16 {
        (None, p)
    } else if spec_is_preamble(s.subrange(p, p + 16)) {
        (Some(p), p + 16)
    } else {
        spec_find_preamble(s, p + 1)
    }
}

/// A bit from the samples `a`, `b` (the second half of the previous bit) and
/// `c`, `d` (this bit): a falling edge is a 1. The quality decides when the
/// bit is doubtful (an error carrying the bit read).
pub open spec fn spec_read_bit(quality: Quality, a: u16, b: u16, c: u16, d: u16) -> Result<
    bool,
    bool,
> {
    let bit_p = a > b;
    let bit = c > d;
    match quality {
        Quality::NoChecks => Ok(bit),
        Quality::HalfBit => if bit && bit_p && b > c {
            Err(bit)
        } else if !bit && !bit_p && b < c {
            Err(bit)
        } else {
            Ok(bit)
        },
        Quality::OneBit => if bit && bit_p && c > b {
            Ok(true)
        } else if bit && !bit_p && d < b {
            Ok(true)
        } else if !bit && bit_p && d > b {
            Ok(false)
        } else if !bit && !bit_p && c < b {
            Ok(false)
        } else {
            Err(bit)
        },
        Quality::TwoBits => if bit && bit_p && c > b && d < a {
            Ok(true)
        } else if bit && !bit_p && c > a && d < b {
            Ok(true)
        } else if !bit && bit_p && c < a && d > b {
            Ok(false)
        } else if !bit && !bit_p && c < b && d > a {
            Ok(false)
        } else {
            Err(bit)
        },
    }
}

/// Reads `n` more bits into `byte` from position `p`, counting doubtful bits
/// in `errors`; more doubtful bits than `max_errors` make the frame invalid.
pub open spec fn spec_read_bits(
    quality: Quality,
    s: Seq<u16>,
    p: int,
    n: nat,
    byte: u8,
    errors: nat,
    max_errors: nat,
) -> Result<(u8, nat), DemodFail>
    decreases n,
{
    if n == 0 {
        Ok((byte, errors))
    } else {
        let shifted = byte << 1u8;
        match spec_read_bit(quality, s[p - 2], s[p - 1], s[p], s[p + 1]) {
            Ok(bit) => spec_read_bits(
                quality,
                s,
                p + 2,
                (n - 1) as nat,
                if bit {
                    shifted | 1u8
                } else {
                    shifted
                },
                errors,
                max_errors,
            ),
            Err(bit) => if errors + 1 <= max_errors {
                spec_read_bits(
                    quality,
                    s,
                    p + 2,
                    (n - 1) as nat,
                    if bit {
                        shifted | 1u8
                    } else {
                        shifted
                    },
                    errors + 1,
                    max_errors,
                )
            } else {
                Err(DemodFail::Invalid)
            },
        }
    }
}

/// Reads a byte (16 samples) from position `p`.
pub open spec fn spec_read_byte(
    quality: Quality,
    s: Seq<u16>,
    p: int,
    errors: nat,
    max_errors: nat,
) -> Result<(u8, nat), DemodFail> {
    if s.len() - p < 16 {
        Err(DemodFail::NotEnoughSamples)
    } else {
        spec_read_bits(quality, s, p, 8, 0, errors, max_errors)
    }
}

/// Reads `n` bytes from position `p`.
pub open spec fn spec_read_bytes(
    quality: Quality,
    s: Seq<u16>,
    p: int,
    n: nat,
    errors: nat,
    max_errors: nat,
) -> Result<(Seq<u8>, nat), DemodFail>
    decreases n,
{
    if n == 0 {
        Ok((Seq::empty(), errors))
    } else {
        match spec_read_byte(quality, s, p, errors, max_errors) {
            Err(e) => Err(e),
            Ok((b, e1)) => match spec_read_bytes(quality, s, p + 16, (n - 1) as nat, e1, max_errors) {
                Err(e) => Err(e),
                Ok((rest, e2)) => Ok((seq![b] + rest, e2)),
            },
        }
    }
}

/// Reads a frame after a preamble: a first byte with its top bit clear
/// starts a short frame (7 bytes), otherwise a long one (14 bytes).
pub open spec fn spec_read_frame(quality: Quality, s: Seq<u16>, p: int, max_errors: nat) -> Result<
    Frame,
    DemodFail,
> {
    match spec_read_byte(quality, s, p, 0, max_errors) {
        Err(e) => Err(e),
        Ok((first, e1)) => if first & 0x80 == 0 {
            match spec_read_bytes(quality, s, p + 16, 6, e1, max_errors) {
                Err(e) => Err(e),
                Ok((rest, _)) => {
                    let b = seq![first] + rest;
                    Ok(Frame::ModeSShort { data: [b[0], b[1], b[2], b[3], b[4], b[5], b[6]] })
                },
            }
        } else {
            match spec_read_bytes(quality, s, p + 16, 13, e1, max_errors) {
                Err(e) => Err(e),
                Ok((rest, _)) => {
                    let b = seq![first] + rest;
                    Ok(
                        Frame::ModeSLong {
                            data: [
                                b[0],
                                b[1],
                                b[2],
                                b[3],
                                b[4],
                                b[5],
                                b[6],
                                b[7],
                                b[8],
                                b[9],
                                b[10],
                                b[11],
                                b[12],
                                b[13],
                            ],
                        },
                    )
                },
            }
        },
    }
}

pub proof fn lemma_find_preamble(s: Seq<u16>, p: int)
    ensures
        spec_find_preamble(s, p).0 matches Some(q) ==> 0 <= p <= q && q + 16 <= s.len()
            && spec_find_preamble(s, p).1 == q + 16 && spec_is_preamble(s.subrange(q, q + 16)),
        spec_find_preamble(s, p).0 is None ==> (if 0 <= p && s.len() - p >= 16 {
            spec_find_preamble(s, p).1 == s.len() - 15
        } else {
            spec_find_preamble(s, p).1 == p
        }),
    decreases s.len() - p,
{
    if 0 <= p && s.len() - p >= 16 && !spec_is_preamble(s.subrange(p, p + 16)) {
        lemma_find_preamble(s, p + 1);
    }
}

/// Runs the demodulator from position `p`: finds a preamble and reads the
/// frame after it; at an invalid frame it searches on from the end of that
/// preamble. The result is the frame, if one was read, and the position
/// after it; without a frame, the start of a preamble whose frame lacks
/// samples (so that it is read again once more samples came), or where the
/// search ended.
pub open spec fn spec_next(quality: Quality, max_errors: nat, s: Seq<u16>, p: int) -> (
    Option<Frame>,
    int,
)
    decreases s.len() - p,
{
    let (found, p1) = spec_find_preamble(s, p);
    if found is None {
        (None, p1)
    } else {
        proof {
            lemma_find_preamble(s, p);
        }
        match spec_read_frame(quality, s, p1, max_errors) {
            Ok(frame) => (Some(frame), p1 + 16 * frame.spec_bytes().len()),
            Err(DemodFail::NotEnoughSamples) => (None, found->0),
            Err(DemodFail::Invalid) => spec_next(quality, max_errors, s, p1),
        }
    }
}

/// Demodulates Mode S frames from sample magnitudes.
#[derive(Debug)]
pub struct Demodulator {
    quality: Quality,
    num_errors: usize,
    max_errors: usize,
}

impl Default for Demodulator {
    /// A demodulator of the default quality that accepts up to 5 doubtful
    /// bits per frame.
    fn default() -> (r: Self)
        ensures
            r.spec_quality() == Quality::OneBit,
            r.spec_max_errors() == 5,
    {
        Self::new(Quality::OneBit, 5)
    }
}

impl Demodulator {
    pub closed spec fn spec_quality(&self) -> Quality {
        self.quality
    }

    pub closed spec fn spec_max_errors(&self) -> usize {
        self.max_errors
    }

    /// A demodulator that checks bits with the given quality and accepts up
    /// to `max_errors` doubtful bits per frame.
    pub fn new(quality: Quality, max_errors: usize) -> (r: Self)
        ensures
            r.spec_quality() == quality,
            r.spec_max_errors() == max_errors,
    {
        Self { quality, num_errors: 0, max_errors }
    }

    /// Reads the next frame from the cursor's position on. With a frame, the
    /// cursor moves past it; without one, it moves to the start of a
    /// preamble whose frame lacks samples, or to where the search ended
    /// (where fewer than 16 samples are left).
    pub fn next(&mut self, cursor: &mut Cursor) -> (r: Option<Frame>)
        requires
            old(cursor).position <= old(cursor).samples@.len(),
        ensures
            final(self).spec_quality() == old(self).spec_quality(),
            final(self).spec_max_errors() == old(self).spec_max_errors(),
            final(cursor).samples == old(cursor).samples,
            (r, final(cursor).position as int) == spec_next(
                old(self).spec_quality(),
                old(self).spec_max_errors() as nat,
                old(cursor).samples@,
                old(cursor).position as int,
            ),
    {
        let ghost s = cursor.samples@;
        let ghost out = spec_next(self.quality, self.max_errors as nat, s, cursor.position as int);
        loop
            invariant
                cursor.samples@ == s,
                cursor.samples == old(cursor).samples,
                cursor.position <= s.len(),
                self.quality == old(self).quality,
                self.max_errors == old(self).max_errors,
                spec_next(self.quality, self.max_errors as nat, s, cursor.position as int) == out,
                out == spec_next(
                    old(self).spec_quality(),
                    old(self).spec_max_errors() as nat,
                    old(cursor).samples@,
                    old(cursor).position as int,
                ),
            decreases s.len() - cursor.position,
        {
            let ghost p = cursor.position as int;
            proof {
                lemma_find_preamble(s, p);
            }
            if !find_preamble(cursor) {
                return None;
            }
            let mut frame_cursor = *cursor;
            match self.read_frame(&mut frame_cursor) {
                Ok(frame) => {
                    cursor.position = frame_cursor.position;
                    return Some(frame);
                },
                Err(DemodFail::NotEnoughSamples) => {
                    // the cursor goes back to the start of the preamble
                    cursor.position = cursor.position - 16;
                    return None;
                },
                Err(DemodFail::Invalid) => {},
            }
        }
    }

    /// Reads a frame after a preamble.
    fn read_frame(&mut self, cursor: &mut Cursor) -> (r: Result<Frame, DemodFail>)
        requires
            16 <= old(cursor).position <= old(cursor).samples@.len(),
        ensures
            final(self).quality == old(self).quality,
            final(self).max_errors == old(self).max_errors,
            final(cursor).samples == old(cursor).samples,
            r == spec_read_frame(
                old(self).quality,
                old(cursor).samples@,
                old(cursor).position as int,
                old(self).max_errors as nat,
            ),
            r matches Ok(frame) ==> final(cursor).position == old(cursor).position + 16
                * frame.spec_bytes().len(),
    {
        self.num_errors = 0;
        let first_byte = match self.read_byte(cursor) {
            Ok(b) => b,
            Err(e) => return Err(e),
        };
        if first_byte & 0x80 == 0 {
            let rest = match self.read_bytes(cursor, 6) {
                Ok(v) => v,
                Err(e) => return Err(e),
            };
            Ok(
                Frame::ModeSShort {
                    data: [first_byte, rest[0], rest[1], rest[2], rest[3], rest[4], rest[5]],
                },
            )
        } else {
            let rest = match self.read_bytes(cursor, 13) {
                Ok(v) => v,
                Err(e) => return Err(e),
            };
            Ok(
                Frame::ModeSLong {
                    data: [
                        first_byte,
                        rest[0],
                        rest[1],
                        rest[2],
                        rest[3],
                        rest[4],
                        rest[5],
                        rest[6],
                        rest[7],
                        rest[8],
                        rest[9],
                        rest[10],
                        rest[11],
                        rest[12],
                    ],
                },
            )
        }
    }

    /// Reads `n` bytes.
    fn read_bytes(&mut self, cursor: &mut Cursor, n: usize) -> (r: Result<Vec<u8>, DemodFail>)
        requires
            16 <= old(cursor).position <= old(cursor).samples@.len(),
            n <= 13,
            old(self).num_errors <= 8,
        ensures
            final(self).quality == old(self).quality,
            final(self).max_errors == old(self).max_errors,
            final(cursor).samples == old(cursor).samples,
            match spec_read_bytes(
                old(self).quality,
                old(cursor).samples@,
                old(cursor).position as int,
                n as nat,
                old(self).num_errors as nat,
                old(self).max_errors as nat,
            ) {
                Ok((bytes, errors)) => r matches Ok(v) && v@ == bytes && final(cursor).position
                    == old(cursor).position + 16 * n,
                Err(e) => r == Err::<Vec<u8>, DemodFail>(e),
            },
            r matches Ok(v) ==> v@.len() == n,
    {
        let ghost s = cursor.samples@;
        let ghost p0 = cursor.position as int;
        let ghost e0 = self.num_errors as nat;
        let mut v: Vec<u8> = Vec::new();
        let mut k: usize = 0;
        while k < n
            invariant
                cursor.samples@ == s,
                cursor.samples == old(cursor).samples,
                self.quality == old(self).quality,
                self.max_errors == old(self).max_errors,
                k <= n <= 13,
                p0 == old(cursor).position,
                e0 == old(self).num_errors,
                cursor.position == p0 + 16 * k,
                16 <= cursor.position <= s.len(),
                self.num_errors <= 8 + 8 * k,
                v@.len() == k,
                spec_read_bytes(self.quality, s, p0, n as nat, e0, self.max_errors as nat) == (
                match spec_read_bytes(
                    self.quality,
                    s,
                    cursor.position as int,
                    (n - k) as nat,
                    self.num_errors as nat,
                    self.max_errors as nat,
                ) {
                    Err(e) => Err(e),
                    Ok((rest, e2)) => Ok((v@ + rest, e2)),
                }),
            decreases n - k,
        {
            let b = match self.read_byte(cursor) {
                Ok(b) => b,
                Err(e) => {
                    return Err(e);
                },
            };
            proof {
                let ghost tail = spec_read_bytes(
                    self.quality,
                    s,
                    cursor.position as int,
                    (n - k - 1) as nat,
                    self.num_errors as nat,
                    self.max_errors as nat,
                );
                if let Ok((rest, e2)) = tail {
                    assert(v@ + (seq![b] + rest) =~= v@.push(b) + rest);
                }
            }
            v.push(b);
            k += 1;
        }
        assert(v@ + Seq::<u8>::empty() =~= v@);
        Ok(v)
    }

    /// Reads a byte: 8 bits of 2 samples each.
    fn read_byte(&mut self, cursor: &mut Cursor) -> (r: Result<u8, DemodFail>)
        requires
            16 <= old(cursor).position <= old(cursor).samples@.len(),
            old(self).num_errors <= 112,
        ensures
            final(self).quality == old(self).quality,
            final(self).max_errors == old(self).max_errors,
            final(cursor).samples == old(cursor).samples,
            match spec_read_byte(
                old(self).quality,
                old(cursor).samples@,
                old(cursor).position as int,
                old(self).num_errors as nat,
                old(self).max_errors as nat,
            ) {
                Ok((byte, errors)) => r == Ok::<u8, DemodFail>(byte) && final(self).num_errors
                    == errors && final(cursor).position == old(cursor).position + 16,
                Err(e) => r == Err::<u8, DemodFail>(e),
            },
            final(self).num_errors <= old(self).num_errors + 8,
    {
        let ghost s = cursor.samples@;
        let ghost p0 = cursor.position as int;
        if cursor.samples.len() - cursor.position < 16 {
            return Err(DemodFail::NotEnoughSamples);
        }
        let mut byte: u8 = 0;
        let mut k: usize = 0;
        while k < 8
            invariant
                cursor.samples@ == s,
                cursor.samples == old(cursor).samples,
                self.quality == old(self).quality,
                self.max_errors == old(self).max_errors,
                p0 + 16 <= s.len(),
                16 <= p0,
                k <= 8,
                p0 == old(cursor).position,
                old(self).num_errors <= 112,
                cursor.position == p0 + 2 * k,
                old(self).num_errors <= self.num_errors <= old(self).num_errors + k,
                spec_read_byte(
                    self.quality,
                    s,
                    p0,
                    old(self).num_errors as nat,
                    self.max_errors as nat,
                ) == spec_read_bits(
                    self.quality,
                    s,
                    cursor.position as int,
                    (8 - k) as nat,
                    byte,
                    self.num_errors as nat,
                    self.max_errors as nat,
                ),
            decreases 8 - k,
        {
            byte = byte << 1u8;
            let bit = match read_bit(self.quality, cursor) {
                Ok(bit) => bit,
                Err(bit) => {
                    self.num_errors = self.num_errors + 1;
                    if self.num_errors <= self.max_errors {
                        bit
                    } else {
                        return Err(DemodFail::Invalid);
                    }
                },
            };
            if bit {
                byte = byte | 1;
            }
            k += 1;
        }
        Ok(byte)
    }
}

/// Reads a bit at the cursor and moves past it.
fn read_bit(quality: Quality, cursor: &mut Cursor) -> (r: Result<bool, bool>)
    requires
        2 <= old(cursor).position,
        old(cursor).position + 2 <= old(cursor).samples@.len(),
    ensures
        final(cursor).samples == old(cursor).samples,
        final(cursor).position == old(cursor).position + 2,
        r == spec_read_bit(
            quality,
            old(cursor).samples@[old(cursor).position - 2],
            old(cursor).samples@[old(cursor).position - 1],
            old(cursor).samples@[old(cursor).position as int],
            old(cursor).samples@[old(cursor).position + 1],
        ),
{
    // these exist, since a preamble was read first
    let a = cursor.samples[cursor.position - 2];
    let b = cursor.samples[cursor.position - 1];
    let c = cursor.samples[cursor.position];
    let d = cursor.samples[cursor.position + 1];
    cursor.advance(2);
    let bit_p = a > b;
    let bit = c > d;
    match quality {
        Quality::NoChecks => Ok(bit),
        Quality::HalfBit => {
            if bit && bit_p && b > c {
                Err(bit)
            } else if !bit && !bit_p && b < c {
                Err(bit)
            } else {
                Ok(bit)
            }
        },
        Quality::OneBit => {
            if bit && bit_p && c > b {
                Ok(true)
            } else if bit && !bit_p && d < b {
                Ok(true)
            } else if !bit && bit_p && d > b {
                Ok(false)
            } else if !bit && !bit_p && c < b {
                Ok(false)
            } else {
                Err(bit)
            }
        },
        Quality::TwoBits => {
            if bit && bit_p && c > b && d < a {
                Ok(true)
            } else if bit && !bit_p && c > a && d < b {
                Ok(true)
            } else if !bit && bit_p && c < a && d > b {
                Ok(false)
            } else if !bit && !bit_p && c < b && d > a {
                Ok(false)
            } else {
                Err(bit)
            }
        },
    }
}

/// Whether the first 16 samples are a preamble.
fn is_preamble(samples: &[u16]) -> (r: bool)
    requires
        samples@.len() >= 16,
    ensures
        r == spec_is_preamble(samples@.take(16)),
{
    let ghost s16 = samples@.take(16);
    let mut low: u16 = 0;
    let mut high: u16 = 0xffff;
    let mut i: usize = 0;
    while i < PREAMBLE_SAMPLES
        invariant
            samples@.len() >= 16,
            s16 == samples@.take(16),
            i <= 16,
            i > 0 ==> high == samples@[spec_latest_high(i - 1)],
            i > 1 ==> low == samples@[spec_latest_low(i - 1)],
            i <= 1 ==> low == 0,
            forall|k: int| 0 <= k < i ==> #[trigger] spec_preamble_check(s16, k),
        decreases 16 - i,
    {
        if i == 0 || i == 2 || i == 7 || i == 9 {
            high = samples[i];
        } else {
            low = samples[i];
        }
        if high <= low {
            assert(!spec_preamble_check(s16, i as int));
            return false;
        }
        assert(spec_preamble_check(s16, i as int));
        i += 1;
    }
    true
}

/// Moves the cursor to the end of the next preamble and returns whether one
/// was found; without one, the cursor stops where fewer than 16 samples are
/// left.
fn find_preamble(cursor: &mut Cursor) -> (r: bool)
    requires
        old(cursor).position <= old(cursor).samples@.len(),
    ensures
        final(cursor).samples == old(cursor).samples,
        r == spec_find_preamble(old(cursor).samples@, old(cursor).position as int).0 is Some,
        final(cursor).position == spec_find_preamble(
            old(cursor).samples@,
            old(cursor).position as int,
        ).1,
{
    let ghost s = cursor.samples@;
    let n = cursor.samples.len();
    assert(n == s.len());
    loop
        invariant
            s.len() == n,
            cursor.samples@ == s,
            cursor.samples == old(cursor).samples,
            cursor.position <= s.len(),
            spec_find_preamble(s, cursor.position as int) == spec_find_preamble(
                old(cursor).samples@,
                old(cursor).position as int,
            ),
        decreases s.len() - cursor.position,
    {
        let remaining = cursor.remaining();
        if remaining.len() >= PREAMBLE_SAMPLES {
            assert(remaining@.take(16) =~= s.subrange(
                cursor.position as int,
                cursor.position + 16,
            ));
            if is_preamble(remaining) {
                cursor.advance(PREAMBLE_SAMPLES);
                return true;
            }
            cursor.advance(1);
        } else {
            return false;
        }
    }
}

/// Bit `k` of a byte, counting from the most significant bit (0) to the
/// least significant (7).
pub open spec fn spec_bit(b: u8, k: int) -> bool {
    (b >> ((7 - k) as u8)) & 1u8 == 1u8
}

/// The samples of bytes as a transmitter sends them, with `high` for a pulse
/// and `low` for none: first the preamble (pulses at samples 0, 2, 7 and 9
/// of 16), then two samples per bit, the most significant bit first: a pulse
/// in the first half is a 1, a pulse in the second half a 0.
pub open spec fn spec_modulate(data: Seq<u8>, high: u16, low: u16) -> Seq<u16> {
    Seq::new(
        (16 + 16 * data.len()) as nat,
        |j: int|
            if j < 16 {
                if j == 0 || j == 2 || j == 7 || j == 9 {
                    high
                } else {
                    low
                }
            } else {
                let k = j - 16;
                if (k % 2 == 0) == spec_bit(data[k / 16], (k % 16) / 2) {
                    high
                } else {
                    low
                }
            },
    )
}

/// The bits of a byte read so far: none before the first, then the top `k`
/// bits.
pub open spec fn spec_top_bits(x: u8, k: u8) -> u8 {
    if k == 0 {
        0
    } else {
        x >> (8 - k) as u8
    }
}

proof fn lemma_shift_in_bit(x: u8, k: u8)
    requires
        k < 8,
    ensures
        (if spec_bit(x, k as int) {
            (spec_top_bits(x, k) << 1u8) | 1u8
        } else {
            spec_top_bits(x, k) << 1u8
        }) == spec_top_bits(x, (k + 1) as u8),
        spec_top_bits(x, 8) == x,
{
    assert((if (x >> (7 - k) as u8) & 1u8 == 1u8 {
        ((if k == 0 {
            0u8
        } else {
            x >> (8 - k) as u8
        }) << 1u8) | 1u8
    } else {
        (if k == 0 {
            0u8
        } else {
            x >> (8 - k) as u8
        }) << 1u8
    }) == (if k + 1 == 0 {
        0u8
    } else {
        x >> (8 - (k + 1)) as u8
    })) by (bit_vector)
        requires
            k < 8,
    ;
    assert(x >> 0u8 == x) by (bit_vector);
}

proof fn lemma_read_modulated_bits(
    data: Seq<u8>,
    high: u16,
    low: u16,
    i: int,
    k: u8,
    errors: nat,
    max_errors: nat,
)
    requires
        high > low,
        0 <= i < data.len(),
        k <= 8,
    ensures
        spec_read_bits(
            Quality::NoChecks,
            spec_modulate(data, high, low),
            16 + 16 * i + 2 * k,
            (8 - k) as nat,
            spec_top_bits(data[i], k),
            errors,
            max_errors,
        ) == Ok::<(u8, nat), DemodFail>((data[i], errors)),
    decreases 8 - k,
{
    let s = spec_modulate(data, high, low);
    let x = data[i];
    if k == 8 {
        lemma_shift_in_bit(x, 0);
    } else {
        let p = 16 + 16 * i + 2 * k;
        let j0 = 16 * i + 2 * k;
        assert(j0 / 16 == i && (j0 % 16) / 2 == k && j0 % 2 == 0) by (nonlinear_arith)
            requires
                j0 == 16 * i + 2 * k,
                0 <= k < 8,
                i >= 0,
        ;
        assert((j0 + 1) / 16 == i && ((j0 + 1) % 16) / 2 == k && (j0 + 1) % 2 == 1) by (nonlinear_arith)
            requires
                j0 == 16 * i + 2 * k,
                0 <= k < 8,
                i >= 0,
        ;
        assert(p + 1 < 16 + 16 * data.len()) by (nonlinear_arith)
            requires
                p == 16 + 16 * i + 2 * k,
                0 <= k < 8,
                0 <= i < data.len(),
        ;
        assert(s[p] == (if spec_bit(x, k as int) {
            high
        } else {
            low
        }));
        assert(s[p + 1] == (if spec_bit(x, k as int) {
            low
        } else {
            high
        }));
        lemma_shift_in_bit(x, k);
        lemma_read_modulated_bits(data, high, low, i, (k + 1) as u8, errors, max_errors);
        assert(16 + 16 * i + 2 * (k + 1) == p + 2);
        assert(spec_read_bit(Quality::NoChecks, s[p - 2], s[p - 1], s[p], s[p + 1]) == Ok::<
            bool,
            bool,
        >(spec_bit(x, k as int)));
        assert(((8 - k) as nat - 1) as nat == (8 - (k + 1) as u8) as nat);
    }
}

proof fn lemma_read_modulated_bytes(
    data: Seq<u8>,
    high: u16,
    low: u16,
    i: int,
    n: nat,
    errors: nat,
    max_errors: nat,
)
    requires
        high > low,
        0 <= i,
        i + n <= data.len(),
    ensures
        spec_read_bytes(
            Quality::NoChecks,
            spec_modulate(data, high, low),
            16 + 16 * i,
            n,
            errors,
            max_errors,
        ) == Ok::<(Seq<u8>, nat), DemodFail>((data.subrange(i, i + n), errors)),
    decreases n,
{
    if n > 0 {
        let s = spec_modulate(data, high, low);
        lemma_read_modulated_bits(data, high, low, i, 0, errors, max_errors);
        assert(s.len() - (16 + 16 * i) >= 16) by (nonlinear_arith)
            requires
                s.len() == 16 + 16 * data.len(),
                i + n <= data.len(),
                n > 0,
        ;
        lemma_read_modulated_bytes(data, high, low, i + 1, (n - 1) as nat, errors, max_errors);
        assert(16 + 16 * i + 16 == 16 + 16 * (i + 1));
        assert(seq![data[i]] + data.subrange(i + 1, i + n) =~= data.subrange(i, i + n));
    } else {
        assert(data.subrange(i, i) =~= Seq::<u8>::empty());
    }
}

/// A frame sent as samples is demodulated back: from samples that are
/// `high` where the transmitter sends a pulse and `low` where it does not, a
/// demodulator that does not check the edges reads the preamble at the
/// first sample and then the frame, and moves past it. A long frame (14
/// bytes) has the top bit of its first byte set, a short one (7 bytes)
/// clear.
pub proof fn law_demodulates_modulated_frame(data: Seq<u8>, high: u16, low: u16, max_errors: nat)
    requires
        high > low,
        (data.len() == 14 && data[0] & 0x80 != 0) || (data.len() == 7 && data[0] & 0x80 == 0),
    ensures
        ({
            let (frame, position) = spec_next(
                Quality::NoChecks,
                max_errors,
                spec_modulate(data, high, low),
                0,
            );
            &&& (frame matches Some(f) && f.spec_bytes() == data)
            &&& (data.len() == 14 ==> (frame matches Some(Frame::ModeSLong { .. })))
            &&& (data.len() == 7 ==> (frame matches Some(Frame::ModeSShort { .. })))
            &&& position == 16 + 16 * data.len()
        }),
{
    let s = spec_modulate(data, high, low);
    let preamble = s.subrange(0, 16);
    assert forall|i: int| 0 <= i < 16 implies #[trigger] spec_preamble_check(preamble, i) by {
        assert(preamble[i] == s[i]);
        assert(preamble[spec_latest_high(i)] == s[spec_latest_high(i)]);
        assert(preamble[spec_latest_low(i)] == s[spec_latest_low(i)]);
    }
    assert(spec_find_preamble(s, 0) == (Some(0int), 16int));
    lemma_read_modulated_bits(data, high, low, 0, 0, 0, max_errors);
    let n = (data.len() - 1) as nat;
    lemma_read_modulated_bytes(data, high, low, 1, n, 0, max_errors);
    assert(seq![data[0]] + data.subrange(1, 1 + n as int) =~= data);
    let b = data;
    if data.len() == 14 {
        let f = Frame::ModeSLong {
            data: [b[0], b[1], b[2], b[3], b[4], b[5], b[6], b[7], b[8], b[9], b[10], b[11], b[12], b[13]],
        };
        assert(spec_read_frame(Quality::NoChecks, s, 16, max_errors) == Ok::<Frame, DemodFail>(f));
        assert(f.spec_bytes() =~= data);
    } else {
        let f = Frame::ModeSShort { data: [b[0], b[1], b[2], b[3], b[4], b[5], b[6]] };
        assert(spec_read_frame(Quality::NoChecks, s, 16, max_errors) == Ok::<Frame, DemodFail>(f));
        assert(f.spec_bytes() =~= data);
    }
}

} // verus!
