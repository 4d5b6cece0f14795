//! Samples of an RTL-SDR receiver and the demodulation of Mode S frames from
//! them. Reading samples from a device or an `rtl_tcp` server is done
//! outside this library.

pub mod command;
pub mod demodulator;

use vstd::prelude::*;

verus! {

/// Sample rate: 2 samples/µs
pub const SAMPLE_RATE: u32 = 2_000_000;

/// Mode S downlink frequency: 1090 MHz
pub const DOWNLINK_FREQUENCY: u32 = 1_090_000_000;

/// Mode S uplink frequency: 1030 MHz
pub const UPLINK_FREQUENCY: u32 = 1_030_000_000;

/// 16 bit IQ sample
///
/// 8 bits per component, mapped from [-128, 127] to [0, 255]
#[derive(Clone, Copy, Debug)]
pub struct IqSample {
    /// I: in-phase / real component
    pub i: u8,
    /// Q: quadrature / imaginary component
    pub q: u8,
}

/// The distance of a component from 127.
pub open spec fn spec_component(x: u8) -> int {
    if x >= 127 {
        x - 127
    } else {
        127 - x
    }
}

impl IqSample {
    /// The squared magnitude, each component taken as its distance from 127.
    pub open spec fn spec_magnitude(self) -> int {
        spec_component(self.i) * spec_component(self.i) + spec_component(self.q) * spec_component(
            self.q,
        )
    }

    pub fn magnitude(&self) -> (r: u16)
        ensures
            r == self.spec_magnitude(),
    {
        let i: u16 = if self.i >= 127 {
            (self.i - 127) as u16
        } else {
            (127 - self.i) as u16
        };
        let q: u16 = if self.q >= 127 {
            (self.q - 127) as u16
        } else {
            (127 - self.q) as u16
        };
        assert(i * i <= 16384 && q * q <= 16384) by (nonlinear_arith)
            requires
                i <= 128,
                q <= 128,
        ;
        i * i + q * q
    }
}

impl Default for IqSample {
    /// The sample of no signal: both components at 128.
    fn default() -> (r: Self)
        ensures
            r.i == 128 && r.q == 128,
    {
        Self { i: 128, q: 128 }
    }
}

/// An IQ sample as the `rtl_tcp` protocol carries it.
#[derive(Clone, Copy, Debug)]
pub struct Sample {
    pub real: u8,
    pub complex: u8,
}

pub type Magnitude = u16;

/// A position in a sequence of magnitudes.
#[derive(Clone, Copy, Debug)]
pub struct Cursor<'a> {
    pub samples: &'a [Magnitude],
    pub position: usize,
}

impl<'a> Cursor<'a> {
    pub fn advance(&mut self, amount: usize)
        requires
            old(self).position + amount <= usize::MAX,
        ensures
            final(self).position == old(self).position + amount,
            final(self).samples == old(self).samples,
    {
        self.position = self.position + amount;
    }

    pub fn advance_to_end(&mut self)
        ensures
            final(self).position == old(self).samples@.len(),
            final(self).samples == old(self).samples,
    {
        self.position = self.samples.len();
    }

    /// The magnitudes from the position on.
    pub fn remaining(&self) -> (r: &[Magnitude])
        requires
            self.position <= self.samples@.len(),
        ensures
            r@ == self.samples@.skip(self.position as int),
    {
        vstd::slice::slice_subrange(self.samples, self.position, self.samples.len())
    }
}

#[derive(Clone, Copy, Debug, PartialEq, Eq)]
pub enum Gain {
    /// Gain tenths of a dB
    Manual(i32),
    /// Auto gain control
    Auto,
}

/// How far a supported gain is from the gain asked for.
pub open spec fn spec_gain_distance(supported: i32, gain: i32) -> int {
    if supported >= gain {
        supported - gain
    } else {
        gain - supported
    }
}

/// The supported gain nearest to the gain asked for (the first of them,
/// where several are as near), since a tuner takes only the gains it lists.
/// Without supported gains there is none.
pub fn nearest_supported_gain(supported: &[i32], gain: i32) -> (r: Option<i32>)
    ensures
        r is None <==> supported@.len() == 0,
        r matches Some(v) ==> exists|k: int|
            0 <= k < supported@.len() && supported@[k] == v && (forall|j: int|
                0 <= j < supported@.len() ==> spec_gain_distance(supported@[j], gain)
                    >= spec_gain_distance(v, gain)) && (forall|j: int|
                0 <= j < k ==> spec_gain_distance(supported@[j], gain) > spec_gain_distance(
                    v,
                    gain,
                )),
{
    if supported.len() == 0 {
        return None;
    }
    let mut best: usize = 0;
    let mut best_distance: i64 = distance(supported[0], gain);
    let mut i: usize = 1;
    while i < supported.len()
        invariant
            0 < i <= supported@.len(),
            best < i,
            best_distance == spec_gain_distance(supported@[best as int], gain),
            forall|j: int| 0 <= j < i ==> spec_gain_distance(supported@[j], gain) >= best_distance,
            forall|j: int| 0 <= j < best ==> spec_gain_distance(supported@[j], gain) > best_distance,
        decreases supported@.len() - i,
    {
        let d = distance(supported[i], gain);
        if d < best_distance {
            best = i;
            best_distance = d;
        }
        i += 1;
    }
    Some(supported[best])
}

fn distance(supported: i32, gain: i32) -> (r: i64)
    ensures
        r == spec_gain_distance(supported, gain),
{
    if supported >= gain {
        supported as i64 - gain as i64
    } else {
        gain as i64 - supported as i64
    }
}

#[derive(Clone, Copy, Debug, PartialEq, Eq, PartialOrd, Ord, Hash)]
pub enum TunerGainMode {
    Manual,
    Auto,
}

#[derive(Clone, Copy, Debug, PartialEq, Eq, PartialOrd, Ord, Hash)]
pub enum DirectSamplingMode {
    I,
    Q,
}

/// The tuner of a device: 0 unknown, 1 E4000, 2 FC0012, 3 FC0013, 4 FC2580,
/// 5 R820T, 6 R828D.
#[derive(Clone, Copy, Debug, PartialEq, Eq, PartialOrd, Ord, Hash)]
pub struct TunerType(pub u32);

impl TunerType {
    /// Whether the tuner is an R820T or R828D.
    pub fn is_r82xx(&self) -> (r: bool)
        ensures
            r == (self.0 == 5 || self.0 == 6),
    {
        self.0 == 5 || self.0 == 6
    }

    /// The text for debugging: the name of a known tuner, else its number.
    pub open spec fn spec_debug_text(self) -> Seq<char> {
        if self.0 == 0 {
            "TunerType::UNKNOWN"@
        } else if self.0 == 1 {
            "TunerType::E4000"@
        } else if self.0 == 2 {
            "TunerType::FC0012"@
        } else if self.0 == 3 {
            "TunerType::FC0013"@
        } else if self.0 == 4 {
            "TunerType::FC2580"@
        } else if self.0 == 5 {
            "TunerType::R820T"@
        } else if self.0 == 6 {
            "TunerType::R828D"@
        } else {
            "TunerType("@ + crate::text::spec_decimal(self.0 as nat) + ")"@
        }
    }

    pub fn debug_text(&self) -> (r: String)
        ensures
            r@ == self.spec_debug_text(),
    {
        let mut v: Vec<char> = Vec::new();
        if self.0 == 0 {
            crate::text::push_str(&mut v, "TunerType::UNKNOWN");
        } else if self.0 == 1 {
            crate::text::push_str(&mut v, "TunerType::E4000");
        } else if self.0 == 2 {
            crate::text::push_str(&mut v, "TunerType::FC0012");
        } else if self.0 == 3 {
            crate::text::push_str(&mut v, "TunerType::FC0013");
        } else if self.0 == 4 {
            crate::text::push_str(&mut v, "TunerType::FC2580");
        } else if self.0 == 5 {
            crate::text::push_str(&mut v, "TunerType::R820T");
        } else if self.0 == 6 {
            crate::text::push_str(&mut v, "TunerType::R828D");
        } else {
            crate::text::push_str(&mut v, "TunerType(");
            crate::text::push_decimal(&mut v, self.0);
            crate::text::push_str(&mut v, ")");
        }
        assert(v@ =~= self.spec_debug_text());
        crate::text::string_from_chars(&v)
    }
}

/// The header that an `rtl_tcp` server sends first.
#[derive(Clone, Copy, Debug)]
pub struct DongleInfo {
    pub magic: [u8; 4],
    pub tuner_type: u32,
    pub tuner_gain_type: u32,
}

/// The length of the header that an `rtl_tcp` server sends first.
pub const HEADER_LENGTH: usize = 12;

pub const COMMAND_CENTER_FREQUENCY: u8 = 0x01;

pub const COMMAND_SAMPLE_RATE: u8 = 0x02;

pub const COMMAND_TUNER_GAIN_MODE: u8 = 0x03;

pub const COMMAND_TUNER_LEVEL_GAIN: u8 = 0x04;

pub const COMMAND_TUNER_FREQUENCY_CORRECTION: u8 = 0x05;

pub const COMMAND_IF_GAIN_LEVEL: u8 = 0x06;

pub const COMMAND_TEST_MODE: u8 = 0x07;

pub const COMMAND_AUTOMATIC_GAIN_CORRECTION: u8 = 0x08;

pub const COMMAND_DIRECT_SAMPLING: u8 = 0x09;

impl DongleInfo {
    /// The dongle information of a header: the magic in the first 4 bytes,
    /// then the tuner type and the tuner gain type, each 4 bytes big-endian.
    pub fn from_header(header: [u8; 12]) -> (r: Self)
        ensures
            r.magic == [header[0], header[1], header[2], header[3]],
            r.tuner_type == crate::bits::be32(header[4], header[5], header[6], header[7]),
            r.tuner_gain_type == crate::bits::be32(header[8], header[9], header[10], header[11]),
    {
        let tuner_type = ((header[4] as u32) << 24u32) | ((header[5] as u32) << 16u32) | ((
        header[6] as u32) << 8u32) | (header[7] as u32);
        let tuner_gain_type = ((header[8] as u32) << 24u32) | ((header[9] as u32) << 16u32) | ((
        header[10] as u32) << 8u32) | (header[11] as u32);
        DongleInfo { magic: [header[0], header[1], header[2], header[3]], tuner_type, tuner_gain_type }
    }
}

/// The 5 bytes of an `rtl_tcp` command: the command byte, then its argument,
/// big-endian.
pub fn command_bytes(command: u8, argument: u32) -> (r: [u8; 5])
    ensures
        r[0] == command,
        crate::bits::be32(r[1], r[2], r[3], r[4]) == argument,
{
    let r = [
        command,
        (argument >> 24u32) as u8,
        (argument >> 16u32) as u8,
        (argument >> 8u32) as u8,
        argument as u8,
    ];
    assert(crate::bits::be32(
        (argument >> 24u32) as u8,
        (argument >> 16u32) as u8,
        (argument >> 8u32) as u8,
        argument as u8,
    ) == argument) by (bit_vector);
    r
}

/// What a read of sample bytes leaves, when `read_offset` bytes (the byte of
/// an incomplete sample, or none) were in the buffer before the
/// `num_bytes_read` bytes that were read: the number of complete samples
/// (two bytes each), and whether the last byte is the first of an
/// incomplete sample, to be kept for the next read.
pub fn samples_after_read(read_offset: usize, num_bytes_read: usize) -> (r: (usize, bool))
    requires
        read_offset <= 1,
        read_offset + num_bytes_read <= usize::MAX,
    ensures
        r.0 == (read_offset + num_bytes_read) / 2,
        r.1 == ((read_offset + num_bytes_read) % 2 == 1),
{
    let num_bytes = read_offset + num_bytes_read;
    (num_bytes / 2, num_bytes % 2 == 1)
}

#[derive(Clone, Copy, Debug)]
pub enum RawFrame {
    ModeAc { data: [u8; 2] },
    ModeSShort { data: [u8; 7] },
    ModeSLong { data: [u8; 14] },
}

} // verus!
