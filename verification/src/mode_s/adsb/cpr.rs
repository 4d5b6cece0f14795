//! Compact Position Reporting
//!
//! Latitude and longitude information is reported using two alternating
//! messages (called even and odd). The position can be recovered using
//! two methods:
//!
//! - global: needs two messages, but might fail if the messages are from
//!   different "zones".
//! - local: needs one message and a recent reference position.
//!   - airborne: reference position needs to be within 180 NM of the actual
//!     position.
//!   - surface: reference position needs to be within 45 NM of the actual
//!     position.
//!
//! The arithmetic of both methods is done in floating point and stands
//! outside this library. What stands here is the bookkeeping of the
//! [`Decoder`]: which CPR values are kept, which one is the most recent, and
//! which decoding is to be attempted.
//!
//! <https://mode-s.org/1090mhz/content/ads-b/3-airborne-position.html>

use vstd::prelude::*;

use crate::mode_s::VerticalStatus;

verus! {

#[derive(Clone, Copy, Debug, PartialEq, Eq)]
pub struct Cpr {
    pub format: Format,
    pub position: PositionCode,
}

#[derive(Clone, Copy, Debug, PartialEq, Eq, PartialOrd, Ord, Hash)]
pub enum Format {
    Even,
    Odd,
}

impl Format {
    /// Returns the CPR format from the boolean value of the bit in the
    /// respective fields.
    pub fn from_bit(bit: bool) -> (r: Self)
        ensures
            r == (if bit { Format::Odd } else { Format::Even }),
    {
        if bit {
            Format::Odd
        } else {
            Format::Even
        }
    }

    /// The returned boolean corresponds to the value of the bit encoded in the
    /// frames: `false` for [`Format::Even`], `true` for [`Format::Odd`].
    pub fn is_even(&self) -> (r: bool)
        ensures
            r == (*self == Format::Odd),
    {
        match self {
            Format::Even => false,
            Format::Odd => true,
        }
    }

    /// The negation of [`is_even`][Self::is_even].
    pub fn is_odd(&self) -> (r: bool)
        ensures
            r == (*self == Format::Even),
    {
        !self.is_even()
    }

    /// The other format.
    pub open spec fn spec_other(self) -> Format {
        match self {
            Format::Even => Format::Odd,
            Format::Odd => Format::Even,
        }
    }

    /// If this is even, returns odd. If this is odd, returns even.
    pub fn other(&self) -> (r: Self)
        ensures
            r == self.spec_other(),
    {
        match self {
            Self::Even => Self::Odd,
            Self::Odd => Self::Even,
        }
    }
}

/// Negating a format gives the other format.
impl core::ops::Not for Format {
    type Output = Self;

    fn not(self) -> (r: Self)
        ensures
            r == self.spec_other(),
    {
        self.other()
    }
}

impl vstd::std_specs::ops::NotSpecImpl for Format {
    open spec fn obeys_not_spec() -> bool {
        true
    }

    open spec fn not_req(self) -> bool {
        true
    }

    open spec fn not_spec(self) -> Self {
        self.spec_other()
    }
}

/// Taking the other format twice gives back the format, a format is never
/// its own other, and negating a format gives its other.
pub proof fn law_format_other_involution(f: Format)
    ensures
        f.spec_other().spec_other() == f,
        f.spec_other() != f,
        vstd::std_specs::ops::NotSpec::not_spec(f) == f.spec_other(),
{
}

#[derive(Clone, Copy, Debug, PartialEq, Eq)]
pub struct PositionCode {
    pub latitude: CoodinateCode,
    pub longitude: CoodinateCode,
}

/// 17 bit encoded latitude/longitude
#[derive(Clone, Copy, Debug, PartialEq, Eq)]
pub struct CoodinateCode(pub u32);

impl CoodinateCode {
    /// Wraps a raw value without checking that it fits into 17 bits.
    pub fn from_u32_unchecked(word: u32) -> (r: Self)
        ensures
            r == CoodinateCode(word),
    {
        Self(word)
    }

    /// Wraps a raw value if it fits into 17 bits.
    pub fn from_u32(word: u32) -> (r: Option<Self>)
        ensures
            r == (if word < 0x2_0000 {
                Some(CoodinateCode(word))
            } else {
                None
            }),
    {
        proof {
            crate::bits::lemma_u32_masks(word);
        }
        if word & 0xfffe0000 == 0 {
            Some(Self(word))
        } else {
            None
        }
    }

    /// The raw value.
    pub fn as_u32(&self) -> (r: u32)
        ensures
            r == self.0,
    {
        self.0
    }
}

/// The two parameter sets of the CPR algorithm that the decoder chooses
/// between.
#[derive(Clone, Copy, Debug, PartialEq, Eq)]
pub enum AlgorithmKind {
    /// 17 bit coordinates, full zone size.
    Airborne,
    /// 19 bit coordinates, a quarter of the zone size.
    Surface,
}

/// The decoding that [`Decoder::push`] asks for.
///
/// First, if `global` is present, the even and odd position codes are to be
/// decoded globally with the given most recent format. If that is not
/// possible or fails, and a reference position is at hand, `local` is to be
/// decoded with it.
#[derive(Clone, Copy, Debug, PartialEq, Eq)]
pub struct DecodePlan {
    pub algorithm: AlgorithmKind,
    pub global: Option<GlobalDecode>,
    pub local: Cpr,
}

/// An even and an odd position code and which of the two is the most recent.
#[derive(Clone, Copy, Debug, PartialEq, Eq)]
pub struct GlobalDecode {
    pub even: PositionCode,
    pub odd: PositionCode,
    pub most_recent: Format,
}

#[derive(Clone, Copy, Debug, PartialEq, Eq)]
pub struct DecoderBin {
    pub vertical_status: VerticalStatus,
    pub position: PositionCode,
    pub time: i64,
}

/// CPR decoder
///
/// Keeps the most recent even and the most recent odd CPR value, each with
/// the vertical status and the time it was received at.
#[derive(Clone, Copy, Debug, PartialEq, Eq)]
pub struct Decoder {
    pub even: Option<DecoderBin>,
    pub odd: Option<DecoderBin>,
}

impl Decoder {
    /// A decoder that holds no CPR value.
    pub fn new() -> (r: Self)
        ensures
            r.even is None,
            r.odd is None,
    {
        Decoder { even: None, odd: None }
    }

    /// The bin of a format.
    pub open spec fn bin(self, format: Format) -> Option<DecoderBin> {
        match format {
            Format::Even => self.even,
            Format::Odd => self.odd,
        }
    }

    /// Whether a CPR received at `time` is newer than what the bin of its
    /// format holds (an empty bin holds nothing newer).
    pub open spec fn accepts(self, format: Format, time: i64) -> bool {
        match self.bin(format) {
            None => true,
            Some(bin) => time > bin.time,
        }
    }

    /// The algorithm for a vertical status.
    pub open spec fn spec_algorithm(vertical_status: VerticalStatus) -> AlgorithmKind {
        match vertical_status {
            VerticalStatus::Airborne => AlgorithmKind::Airborne,
            VerticalStatus::Ground => AlgorithmKind::Surface,
        }
    }

    /// The global decoding that a new CPR makes possible: the other bin must
    /// hold a value with the same vertical status. The new value is the most
    /// recent unless the other one is at least as new.
    pub open spec fn spec_global(self, cpr: Cpr, vertical_status: VerticalStatus, time: i64) -> Option<
        GlobalDecode,
    > {
        match self.bin(cpr.format.spec_other()) {
            None => None,
            Some(other) => if other.vertical_status == vertical_status {
                let most_recent = if time > other.time {
                    cpr.format
                } else {
                    cpr.format.spec_other()
                };
                Some(
                    match cpr.format {
                        Format::Even => GlobalDecode {
                            even: cpr.position,
                            odd: other.position,
                            most_recent,
                        },
                        Format::Odd => GlobalDecode {
                            even: other.position,
                            odd: cpr.position,
                            most_recent,
                        },
                    },
                )
            } else {
                None
            },
        }
    }

    /// The decoder and the decoding plan after pushing a CPR value: a value
    /// older than (or as old as) the one its bin holds changes nothing and
    /// plans nothing; otherwise it is stored in its bin.
    pub open spec fn spec_push(self, cpr: Cpr, vertical_status: VerticalStatus, time: i64) -> (
        Decoder,
        Option<DecodePlan>,
    ) {
        if self.accepts(cpr.format, time) {
            let bin = Some(DecoderBin { vertical_status, position: cpr.position, time });
            (
                match cpr.format {
                    Format::Even => Decoder { even: bin, odd: self.odd },
                    Format::Odd => Decoder { even: self.even, odd: bin },
                },
                Some(
                    DecodePlan {
                        algorithm: Self::spec_algorithm(vertical_status),
                        global: self.spec_global(cpr, vertical_status, time),
                        local: cpr,
                    },
                ),
            )
        } else {
            (self, None)
        }
    }

    /// Pushes a CPR value into the decoder.
    ///
    /// If the bin for its format already holds a value that is at least as
    /// new, nothing changes and `None` is returned. Otherwise the value is
    /// stored and the decoding to attempt is returned: globally together with
    /// the value of the other format (if that one has the same vertical
    /// status), or else locally with a reference position.
    pub fn push(&mut self, cpr: Cpr, vertical_status: VerticalStatus, time: i64) -> (r: Option<
        DecodePlan,
    >)
        ensures
            (*final(self), r) == old(self).spec_push(cpr, vertical_status, time),
    {
        let this_bin = match cpr.format {
            Format::Even => self.even,
            Format::Odd => self.odd,
        };
        let other_bin = match cpr.format {
            Format::Even => self.odd,
            Format::Odd => self.even,
        };
        if let Some(bin) = this_bin {
            if !(time > bin.time) {
                return None;
            }
        }
        let new_bin = DecoderBin { vertical_status, position: cpr.position, time };
        match cpr.format {
            Format::Even => self.even = Some(new_bin),
            Format::Odd => self.odd = Some(new_bin),
        }

        let algorithm = match vertical_status {
            VerticalStatus::Airborne => AlgorithmKind::Airborne,
            VerticalStatus::Ground => AlgorithmKind::Surface,
        };

        let global = match other_bin {
            None => None,
            Some(other) => {
                let same_status = match (other.vertical_status, vertical_status) {
                    (VerticalStatus::Airborne, VerticalStatus::Airborne) => true,
                    (VerticalStatus::Ground, VerticalStatus::Ground) => true,
                    _ => false,
                };
                if same_status {
                    let most_recent = if time > other.time {
                        cpr.format
                    } else {
                        cpr.format.other()
                    };
                    Some(
                        match cpr.format {
                            Format::Even => GlobalDecode {
                                even: cpr.position,
                                odd: other.position,
                                most_recent,
                            },
                            Format::Odd => GlobalDecode {
                                even: other.position,
                                odd: cpr.position,
                                most_recent,
                            },
                        },
                    )
                } else {
                    None
                }
            },
        };

        Some(DecodePlan { algorithm, global, local: cpr })
    }
}

/// A value that was pushed is kept until a newer value of the same format
/// arrives: pushing an older or equally old value of that format changes
/// nothing and plans nothing, and pushing a value of the other format leaves
/// it in place.
pub proof fn law_push_keeps_newest(
    d: Decoder,
    first: Cpr,
    first_status: VerticalStatus,
    first_time: i64,
    second: Cpr,
    second_status: VerticalStatus,
    second_time: i64,
)
    requires
        d.accepts(first.format, first_time),
    ensures
        ({
            let (d1, plan1) = d.spec_push(first, first_status, first_time);
            let (d2, plan2) = d1.spec_push(second, second_status, second_time);
            &&& plan1 is Some
            &&& d1.bin(first.format) == Some(
                DecoderBin { vertical_status: first_status, position: first.position, time: first_time },
            )
            &&& second.format == first.format && second_time <= first_time ==> d2 == d1 && plan2 is None
            &&& second.format != first.format ==> d2.bin(first.format) == d1.bin(first.format)
        }),
{
}

/// A pushed value is planned for global decoding exactly when the bin of the
/// other format holds a value of the same vertical status; the value itself
/// is always planned for local decoding.
pub proof fn law_global_needs_both_formats(
    d: Decoder,
    cpr: Cpr,
    vertical_status: VerticalStatus,
    time: i64,
)
    requires
        d.accepts(cpr.format, time),
    ensures
        d.spec_push(cpr, vertical_status, time).1 matches Some(plan) && plan.local == cpr && (
        plan.global is Some <==> (d.bin(cpr.format.spec_other()) matches Some(other)
            && other.vertical_status == vertical_status)),
{
}

} // verus!
