//! Mode S frame decoder
//!
//! - [ADS-B Reference][1] (page 39 ff) - this defines all the ADS-B messages
//!   and related Mode-S DFs
//! - [The 1090 Megaherrtz Riddle][2] - good overview
//! - [Annex 10 to the Convetion on International Civil Aviation][3] -
//!   specifications on Mode A/C/S in general
//!
//! Mode-S defines 2 frame lengths:
//! - short = 56 bits / 7 bytes
//! - long = 112 bits / 14 bytes
//!
//! [1]: http://www.anteni.net/adsb/Doc/1090-WP30-18-DRAFT_DO-260B-V42.pdf
//! [2]: https://mode-s.org/1090mhz/content/mode-s/1-basics.html
//! [3]: https://applications.icao.int/tools/ATMiKIT/story_content/external_files/story_content/external_files/Annex10_Volume%204_cons.pdf

pub mod adsb;
pub mod cpr;
pub mod debug_text;
pub mod tisb;
pub mod util;

use vstd::prelude::*;

use crate::{
    mode_s::util::{
        crc24_modes,
        decode_air_air_surveillance_common_fields,
        decode_surveillance_reply_body,
        gillham::{
            decode_gillham_ac13,
            decode_gillham_id13,
            spec_decode_gillham_ac13,
            spec_decode_gillham_id13,
        },
        spec_crc24_modes,
        spec_decode_air_air_surveillance_common_fields,
        spec_decode_surveillance_reply_body,
    },
    bits::{
        lemma_u16_masks,
        lemma_u8_masks,
    },
    types::{
        IcaoAddress,
        Squawk,
    },
};

verus! {

/// Length of a short mode-s frame
pub const LENGTH_SHORT: usize = 7;

/// Length of a long mode-s frame
pub const LENGTH_LONG: usize = 14;

#[derive(Debug)]
pub enum DecodeError {
    /// The buffer is empty, so it doesn't contain a DF.
    NoDf,
    /// The first 5 bits are not a known downlink format.
    InvalidDf { value: u8 },
    /// The buffer is shorter than the frame its downlink format announces.
    Truncated { expected_length: usize, buffer_length: usize },
    /// The CRC check failed.
    CrcCheckFailed(FrameWithChecksum),
}

/// Three bytes of a sequence, from `i` on.
pub open spec fn arr3(s: Seq<u8>, i: int) -> [u8; 3] {
    [s[i], s[i + 1], s[i + 2]]
}

/// Six bytes of a sequence, from `i` on.
pub open spec fn arr6(s: Seq<u8>, i: int) -> [u8; 6] {
    [s[i], s[i + 1], s[i + 2], s[i + 3], s[i + 4], s[i + 5]]
}

/// Seven bytes of a sequence, from `i` on.
pub open spec fn arr7(s: Seq<u8>, i: int) -> [u8; 7] {
    [s[i], s[i + 1], s[i + 2], s[i + 3], s[i + 4], s[i + 5], s[i + 6]]
}

/// Ten bytes of a sequence, from `i` on.
pub open spec fn arr10(s: Seq<u8>, i: int) -> [u8; 10] {
    [s[i], s[i + 1], s[i + 2], s[i + 3], s[i + 4], s[i + 5], s[i + 6], s[i + 7], s[i + 8], s[i + 9]]
}

/// Thirteen bytes of a sequence, from `i` on.
pub open spec fn arr13(s: Seq<u8>, i: int) -> [u8; 13] {
    [
        s[i],
        s[i + 1],
        s[i + 2],
        s[i + 3],
        s[i + 4],
        s[i + 5],
        s[i + 6],
        s[i + 7],
        s[i + 8],
        s[i + 9],
        s[i + 10],
        s[i + 11],
        s[i + 12],
    ]
}

fn take3(s: &[u8], i: usize) -> (r: [u8; 3])
    requires
        i + 3 <= s@.len(),
    ensures
        r == arr3(s@, i as int),
{
    [s[i], s[i + 1], s[i + 2]]
}

fn take6(s: &[u8], i: usize) -> (r: [u8; 6])
    requires
        i + 6 <= s@.len(),
    ensures
        r == arr6(s@, i as int),
{
    [s[i], s[i + 1], s[i + 2], s[i + 3], s[i + 4], s[i + 5]]
}

fn take7(s: &[u8], i: usize) -> (r: [u8; 7])
    requires
        i + 7 <= s@.len(),
    ensures
        r == arr7(s@, i as int),
{
    [s[i], s[i + 1], s[i + 2], s[i + 3], s[i + 4], s[i + 5], s[i + 6]]
}

fn take10(s: &[u8], i: usize) -> (r: [u8; 10])
    requires
        i + 10 <= s@.len(),
    ensures
        r == arr10(s@, i as int),
{
    [s[i], s[i + 1], s[i + 2], s[i + 3], s[i + 4], s[i + 5], s[i + 6], s[i + 7], s[i + 8], s[i + 9]]
}

fn take13(s: &[u8], i: usize) -> (r: [u8; 13])
    requires
        i + 13 <= s@.len(),
    ensures
        r == arr13(s@, i as int),
{
    [
        s[i],
        s[i + 1],
        s[i + 2],
        s[i + 3],
        s[i + 4],
        s[i + 5],
        s[i + 6],
        s[i + 7],
        s[i + 8],
        s[i + 9],
        s[i + 10],
        s[i + 11],
        s[i + 12],
    ]
}

#[derive(Clone, Copy, Debug, PartialEq, Eq)]
pub enum Frame {
    ShortAirAirSurveillance(ShortAirAirSurveillance),
    SurveillanceAltitudeReply(SurveillanceAltitudeReply),
    SurveillanceIdentityReply(SurveillanceIdentityReply),
    AllCallReply(AllCallReply),
    LongAirAirSurveillance(LongAirAirSurveillance),
    ExtendedSquitter(ExtendedSquitter),
    ExtendedSquitterNonTransponder(ExtendedSquitterNonTransponder),
    MilitaryExtendedSquitter(MilitaryExtendedSquitter),
    CommBAltitudeReply(CommBAltitudeReply),
    CommBIdentityReply(CommBIdentityReply),
    MilitaryUse(MilitaryUse),
    CommD(CommD),
}

/// Whether a buffer is longer than the frame it announces. The decoder
/// handles exactly one frame; surplus bytes after a frame are not accepted.
pub open spec fn spec_has_surplus_bytes(b: Seq<u8>) -> bool {
    b.len() > 0 && (DownlinkFormat::spec_from_u8(b[0] >> 3u8) matches Ok(df) && b.len()
        > df.spec_frame_length())
}

impl Frame {
    /// The frame of a buffer that holds exactly the bytes of a frame of
    /// downlink format `df` (the first byte included).
    pub open spec fn spec_decode_body(df: DownlinkFormat, b: Seq<u8>) -> Frame {
        let bits_6_to_8 = b[0] & 0b111u8;
        match df {
            DownlinkFormat::ShortAirAirSurveillance => Frame::ShortAirAirSurveillance(
                ShortAirAirSurveillance::spec_decode(arr6(b, 1), bits_6_to_8),
            ),
            DownlinkFormat::SurveillanceAltitudeReply => Frame::SurveillanceAltitudeReply(
                SurveillanceAltitudeReply::spec_decode(arr6(b, 1), bits_6_to_8),
            ),
            DownlinkFormat::SurveillanceIdentityReply => Frame::SurveillanceIdentityReply(
                SurveillanceIdentityReply::spec_decode(arr6(b, 1), bits_6_to_8),
            ),
            DownlinkFormat::AllCallReply => Frame::AllCallReply(
                AllCallReply::spec_decode(arr6(b, 1), bits_6_to_8),
            ),
            DownlinkFormat::LongAirAirSurveillance => Frame::LongAirAirSurveillance(
                LongAirAirSurveillance::spec_decode(arr13(b, 1), bits_6_to_8),
            ),
            DownlinkFormat::ExtendedSquitter => Frame::ExtendedSquitter(
                ExtendedSquitter::spec_decode(arr13(b, 1), bits_6_to_8),
            ),
            DownlinkFormat::ExtendedSquitterNonTransponder => Frame::ExtendedSquitterNonTransponder(
                ExtendedSquitterNonTransponder::spec_decode(arr13(b, 1), bits_6_to_8),
            ),
            DownlinkFormat::MilitaryExtendedSquitter => Frame::MilitaryExtendedSquitter(
                MilitaryExtendedSquitter::spec_decode(arr13(b, 1), bits_6_to_8),
            ),
            DownlinkFormat::CommBAltitudeReply => Frame::CommBAltitudeReply(
                CommBAltitudeReply::spec_decode(arr13(b, 1), bits_6_to_8),
            ),
            DownlinkFormat::CommBIdentityReply => Frame::CommBIdentityReply(
                CommBIdentityReply::spec_decode(arr13(b, 1), bits_6_to_8),
            ),
            DownlinkFormat::MilitaryUse => Frame::MilitaryUse(
                MilitaryUse { bits_6_to_8, data: arr13(b, 1) },
            ),
            DownlinkFormat::CommD => Frame::CommD(
                CommD { bits_3_to_8: b[0] & 0b0011_1111u8, data: arr13(b, 1) },
            ),
        }
    }

    /// The result of decoding a buffer: no DF in an empty buffer; the DF is
    /// the first 5 bits; the buffer must hold as many bytes as the DF's frame
    /// length.
    pub open spec fn spec_decode(b: Seq<u8>) -> Result<Frame, DecodeError> {
        if b.len() == 0 {
            Err(DecodeError::NoDf)
        } else {
            match DownlinkFormat::spec_from_u8(b[0] >> 3u8) {
                Err(e) => Err(e),
                Ok(df) => if b.len() < df.spec_frame_length() {
                    Err(
                        DecodeError::Truncated {
                            expected_length: df.spec_frame_length() as usize,
                            buffer_length: b.len() as usize,
                        },
                    )
                } else {
                    Ok(Self::spec_decode_body(df, b))
                },
            }
        }
    }

    /// Decodes a Mode-S frame.
    ///
    /// This doesn't verify the checksum.
    pub fn decode(buffer: &[u8]) -> (r: Result<Frame, DecodeError>)
        requires
            !spec_has_surplus_bytes(buffer@),
        ensures
            r == Self::spec_decode(buffer@),
    {
        let buffer_length = buffer.len();
        if buffer_length == 0 {
            return Err(DecodeError::NoDf);
        }
        let byte_0 = buffer[0];
        let bits_1_to_5 = byte_0 >> 3u8;
        let bits_6_to_8 = byte_0 & 0b00000111;
        assert(bits_6_to_8 < 8) by (bit_vector)
            requires
                bits_6_to_8 == byte_0 & 0b00000111u8,
        ;
        let df = match DownlinkFormat::from_u8(bits_1_to_5) {
            Ok(df) => df,
            Err(e) => return Err(e),
        };

        // check that the buffer contains enough data
        let expected_length = df.frame_length();
        if buffer_length < expected_length {
            return Err(DecodeError::Truncated { expected_length, buffer_length });
        }

        let frame = match df {
            DownlinkFormat::ShortAirAirSurveillance => Self::ShortAirAirSurveillance(
                ShortAirAirSurveillance::decode(take6(buffer, 1), bits_6_to_8),
            ),
            DownlinkFormat::SurveillanceAltitudeReply => Self::SurveillanceAltitudeReply(
                SurveillanceAltitudeReply::decode(take6(buffer, 1), bits_6_to_8),
            ),
            DownlinkFormat::SurveillanceIdentityReply => Self::SurveillanceIdentityReply(
                SurveillanceIdentityReply::decode(take6(buffer, 1), bits_6_to_8),
            ),
            DownlinkFormat::AllCallReply => Self::AllCallReply(
                AllCallReply::decode(take6(buffer, 1), bits_6_to_8),
            ),
            DownlinkFormat::LongAirAirSurveillance => Self::LongAirAirSurveillance(
                LongAirAirSurveillance::decode(take13(buffer, 1), bits_6_to_8),
            ),
            DownlinkFormat::ExtendedSquitter => {
                match ExtendedSquitter::decode(take13(buffer, 1), bits_6_to_8) {
                    Ok(f) => Self::ExtendedSquitter(f),
                    Err(e) => return Err(e),
                }
            },
            DownlinkFormat::ExtendedSquitterNonTransponder => {
                match ExtendedSquitterNonTransponder::decode(take13(buffer, 1), bits_6_to_8) {
                    Ok(f) => Self::ExtendedSquitterNonTransponder(f),
                    Err(e) => return Err(e),
                }
            },
            DownlinkFormat::MilitaryExtendedSquitter => {
                match MilitaryExtendedSquitter::decode(take13(buffer, 1), bits_6_to_8) {
                    Ok(f) => Self::MilitaryExtendedSquitter(f),
                    Err(e) => return Err(e),
                }
            },
            DownlinkFormat::CommBAltitudeReply => Self::CommBAltitudeReply(
                CommBAltitudeReply::decode(take13(buffer, 1), bits_6_to_8),
            ),
            DownlinkFormat::CommBIdentityReply => Self::CommBIdentityReply(
                CommBIdentityReply::decode(take13(buffer, 1), bits_6_to_8),
            ),
            DownlinkFormat::MilitaryUse => Self::MilitaryUse(
                MilitaryUse { bits_6_to_8, data: take13(buffer, 1) },
            ),
            DownlinkFormat::CommD => {
                // Format number 24 is identified using only the first two bits,
                // which must be 11 in binary, so bits 3 to 8 are passed on.
                let bits_3_to_8 = byte_0 & 0b00111111;
                Self::CommD(CommD { bits_3_to_8, data: take13(buffer, 1) })
            },
        };
        Ok(frame)
    }

    /// The checksum of the bytes of a frame, as three big-endian bytes.
    pub open spec fn spec_checksum(b: Seq<u8>) -> Checksum {
        let c = spec_crc24_modes(b);
        Checksum([(c >> 16u32) as u8, (c >> 8u32) as u8, c as u8])
    }

    /// Decodes a Mode-S frame and calculates its CRC checksum.
    pub fn decode_and_calculate_checksum(buffer: &[u8]) -> (r: Result<FrameWithChecksum, DecodeError>)
        requires
            !spec_has_surplus_bytes(buffer@),
        ensures
            r == (match Self::spec_decode(buffer@) {
                Ok(frame) => Ok(FrameWithChecksum { frame, checksum: Self::spec_checksum(buffer@) }),
                Err(e) => Err(e),
            }),
    {
        let frame = match Self::decode(buffer) {
            Ok(frame) => frame,
            Err(e) => return Err(e),
        };
        let c = crc24_modes(buffer);
        let checksum = Checksum([(c >> 16u32) as u8, (c >> 8u32) as u8, c as u8]);
        Ok(FrameWithChecksum { frame, checksum })
    }

    /// Decodes a Mode-S frame.
    ///
    /// This performs a CRC check if possible and returns an error if it fails.
    /// If you want to decode invalid Mode-S frames, or need the CRC checksum
    /// use [`decode_with_checksum`][Self::decode_and_calculate_checksum]
    pub fn decode_and_check_checksum(buffer: &[u8]) -> (r: Result<Self, DecodeError>)
        requires
            !spec_has_surplus_bytes(buffer@),
        ensures
            r == (match Self::spec_decode(buffer@) {
                Ok(frame) => {
                    let with_checksum = FrameWithChecksum {
                        frame,
                        checksum: Self::spec_checksum(buffer@),
                    };
                    if with_checksum.spec_check() == Some(false) {
                        Err(DecodeError::CrcCheckFailed(with_checksum))
                    } else {
                        Ok(frame)
                    }
                },
                Err(e) => Err(e),
            }),
    {
        let frame = match Self::decode_and_calculate_checksum(buffer) {
            Ok(frame) => frame,
            Err(e) => return Err(e),
        };
        let checked = match frame.check() {
            Some(ok) => ok,
            None => true,
        };
        if !checked {
            return Err(DecodeError::CrcCheckFailed(frame));
        }
        Ok(frame.frame)
    }

    pub open spec fn spec_downlink_format(self) -> DownlinkFormat {
        match self {
            Frame::ShortAirAirSurveillance(_) => DownlinkFormat::ShortAirAirSurveillance,
            Frame::SurveillanceAltitudeReply(_) => DownlinkFormat::SurveillanceAltitudeReply,
            Frame::SurveillanceIdentityReply(_) => DownlinkFormat::SurveillanceIdentityReply,
            Frame::AllCallReply(_) => DownlinkFormat::AllCallReply,
            Frame::LongAirAirSurveillance(_) => DownlinkFormat::LongAirAirSurveillance,
            Frame::ExtendedSquitter(_) => DownlinkFormat::ExtendedSquitter,
            Frame::ExtendedSquitterNonTransponder(_) => DownlinkFormat::ExtendedSquitterNonTransponder,
            Frame::MilitaryExtendedSquitter(_) => DownlinkFormat::MilitaryExtendedSquitter,
            Frame::CommBAltitudeReply(_) => DownlinkFormat::CommBAltitudeReply,
            Frame::CommBIdentityReply(_) => DownlinkFormat::CommBIdentityReply,
            Frame::MilitaryUse(_) => DownlinkFormat::MilitaryUse,
            Frame::CommD(_) => DownlinkFormat::CommD,
        }
    }

    pub fn downlink_format(&self) -> (r: DownlinkFormat)
        ensures
            r == self.spec_downlink_format(),
    {
        match self {
            Frame::ShortAirAirSurveillance(_) => DownlinkFormat::ShortAirAirSurveillance,
            Frame::SurveillanceAltitudeReply(_) => DownlinkFormat::SurveillanceAltitudeReply,
            Frame::SurveillanceIdentityReply(_) => DownlinkFormat::SurveillanceIdentityReply,
            Frame::AllCallReply(_) => DownlinkFormat::AllCallReply,
            Frame::LongAirAirSurveillance(_) => DownlinkFormat::LongAirAirSurveillance,
            Frame::ExtendedSquitter(_) => DownlinkFormat::ExtendedSquitter,
            Frame::ExtendedSquitterNonTransponder(_) => {
                DownlinkFormat::ExtendedSquitterNonTransponder
            },
            Frame::MilitaryExtendedSquitter(_) => DownlinkFormat::MilitaryExtendedSquitter,
            Frame::CommBAltitudeReply(_) => DownlinkFormat::CommBAltitudeReply,
            Frame::CommBIdentityReply(_) => DownlinkFormat::CommBIdentityReply,
            Frame::MilitaryUse(_) => DownlinkFormat::MilitaryUse,
            Frame::CommD(_) => DownlinkFormat::CommD,
        }
    }

    /// The length of the frame in bytes.
    pub fn length(&self) -> (r: usize)
        ensures
            r == self.spec_downlink_format().spec_frame_length(),
    {
        self.downlink_format().frame_length()
    }

    /// The address announced and the ADS-B message of the frames that carry
    /// one.
    pub open spec fn spec_adsb(self) -> Option<(IcaoAddress, adsb::Message)> {
        match self {
            Frame::ExtendedSquitter(es) => Some((es.address_announced, es.adsb_message)),
            Frame::ExtendedSquitterNonTransponder(
                ExtendedSquitterNonTransponder::AdsbWithIcaoAddress {
                    address_announced,
                    adsb_message,
                    ..
                },
            ) => Some((address_announced, adsb_message)),
            Frame::ExtendedSquitterNonTransponder(
                ExtendedSquitterNonTransponder::AdsbWithNonIcaoAddress {
                    address_announced,
                    adsb_message,
                    ..
                },
            ) => Some((address_announced, adsb_message)),
            Frame::ExtendedSquitterNonTransponder(
                ExtendedSquitterNonTransponder::AdsbRebroadcast {
                    address_announced,
                    adsb_message,
                    ..
                },
            ) => Some((address_announced, adsb_message)),
            Frame::MilitaryExtendedSquitter(
                MilitaryExtendedSquitter::Adsb { address_announced, adsb_message, .. },
            ) => Some((address_announced, adsb_message)),
            _ => None,
        }
    }

    /// Returns address announced and ADS-B message
    pub fn adsb(&self) -> (r: Option<(&IcaoAddress, &adsb::Message)>)
        ensures
            r is None <==> self.spec_adsb() is None,
            r matches Some((a, m)) ==> self.spec_adsb() == Some((*a, *m)),
    {
        match self {
            Frame::ExtendedSquitter(es) => Some((&es.address_announced, &es.adsb_message)),
            Frame::ExtendedSquitterNonTransponder(
                ExtendedSquitterNonTransponder::AdsbWithIcaoAddress {
                    address_announced,
                    adsb_message,
                    ..
                },
            ) => Some((address_announced, adsb_message)),
            Frame::ExtendedSquitterNonTransponder(
                ExtendedSquitterNonTransponder::AdsbWithNonIcaoAddress {
                    address_announced,
                    adsb_message,
                    ..
                },
            ) => Some((address_announced, adsb_message)),
            Frame::ExtendedSquitterNonTransponder(
                ExtendedSquitterNonTransponder::AdsbRebroadcast {
                    address_announced,
                    adsb_message,
                    ..
                },
            ) => Some((address_announced, adsb_message)),
            Frame::MilitaryExtendedSquitter(
                MilitaryExtendedSquitter::Adsb { address_announced, adsb_message, .. },
            ) => Some((address_announced, adsb_message)),
            _ => None,
        }
    }
}

/// A decoded frame has the downlink format of its first 5 bits and the
/// length of that format, and it is exactly as long as the buffer.
pub proof fn law_decoded_frame_format_and_length(b: Seq<u8>)
    requires
        !spec_has_surplus_bytes(b),
        Frame::spec_decode(b) is Ok,
    ensures
        DownlinkFormat::spec_from_u8(b[0] >> 3u8) == Ok::<DownlinkFormat, DecodeError>(
            Frame::spec_decode(b)->Ok_0.spec_downlink_format(),
        ),
        Frame::spec_decode(b)->Ok_0.spec_downlink_format().spec_frame_length() == b.len(),
{
    let df = DownlinkFormat::spec_from_u8(b[0] >> 3u8)->Ok_0;
    assert(Frame::spec_decode_body(df, b).spec_downlink_format() == df);
}

#[derive(Clone, Copy, Debug, PartialEq, Eq)]
pub struct FrameWithChecksum {
    pub frame: Frame,
    pub checksum: Checksum,
}

impl FrameWithChecksum {
    /// The frames that carry plain parity (extended squitters) can be
    /// checked: their checksum must be zero. Other frames overlay the parity
    /// with other data.
    pub open spec fn spec_check(self) -> Option<bool> {
        match self.frame {
            Frame::ExtendedSquitter(_) => Some(self.checksum.spec_check()),
            Frame::ExtendedSquitterNonTransponder(_) => Some(self.checksum.spec_check()),
            Frame::MilitaryExtendedSquitter(_) => Some(self.checksum.spec_check()),
            _ => None,
        }
    }

    /// Tries to check if the frame is not corrupted.
    ///
    /// This is only possible for some downlink types (e.g. ADS-B), because some
    /// overlay the parity with other data.
    pub fn check(&self) -> (r: Option<bool>)
        ensures
            r == self.spec_check(),
    {
        match &self.frame {
            Frame::ExtendedSquitter(_) => Some(self.checksum.check()),
            Frame::ExtendedSquitterNonTransponder(_) => Some(self.checksum.check()),
            Frame::MilitaryExtendedSquitter(_) => Some(self.checksum.check()),
            _ => None,
        }
    }
}

/// Downlink format
///
/// First 5 bits of a Mode S frame determine the kind of frame.
///
/// # Exception
///
/// [`CommD`][Self::CommD] is determined only by the first 2 bits, which must
/// both be 1.
#[derive(Clone, Copy, Debug, PartialEq, Eq, PartialOrd, Ord, Hash)]
pub enum DownlinkFormat {
    ShortAirAirSurveillance,
    SurveillanceAltitudeReply,
    SurveillanceIdentityReply,
    AllCallReply,
    LongAirAirSurveillance,
    ExtendedSquitter,
    ExtendedSquitterNonTransponder,
    MilitaryExtendedSquitter,
    CommBAltitudeReply,
    CommBIdentityReply,
    /// Referenced [here][1], but can't find any more information on it.
    ///
    /// [1]: https://www.idc-online.com/technical_references/pdfs/electronic_engineering/Mode_S_Reply_Encoding.pdf
    MilitaryUse,
    CommD,
}

impl DownlinkFormat {
    /// DF 0, 4, 5, 11, 16 to 22, and 24 to 31 (Comm-D); everything else is
    /// invalid.
    pub open spec fn spec_from_u8(byte: u8) -> Result<Self, DecodeError> {
        if byte == 0 {
            Ok(DownlinkFormat::ShortAirAirSurveillance)
        } else if byte == 4 {
            Ok(DownlinkFormat::SurveillanceAltitudeReply)
        } else if byte == 5 {
            Ok(DownlinkFormat::SurveillanceIdentityReply)
        } else if byte == 11 {
            Ok(DownlinkFormat::AllCallReply)
        } else if byte == 16 {
            Ok(DownlinkFormat::LongAirAirSurveillance)
        } else if byte == 17 {
            Ok(DownlinkFormat::ExtendedSquitter)
        } else if byte == 18 {
            Ok(DownlinkFormat::ExtendedSquitterNonTransponder)
        } else if byte == 19 {
            Ok(DownlinkFormat::MilitaryExtendedSquitter)
        } else if byte == 20 {
            Ok(DownlinkFormat::CommBAltitudeReply)
        } else if byte == 21 {
            Ok(DownlinkFormat::CommBIdentityReply)
        } else if byte == 22 {
            Ok(DownlinkFormat::MilitaryUse)
        } else if 24 <= byte <= 31 {
            Ok(DownlinkFormat::CommD)
        } else {
            Err(DecodeError::InvalidDf { value: byte })
        }
    }

    pub fn from_u8(byte: u8) -> (r: Result<Self, DecodeError>)
        ensures
            r == Self::spec_from_u8(byte),
    {
        if byte == 0 {
            Ok(Self::ShortAirAirSurveillance)
        } else if byte == 4 {
            Ok(Self::SurveillanceAltitudeReply)
        } else if byte == 5 {
            Ok(Self::SurveillanceIdentityReply)
        } else if byte == 11 {
            Ok(Self::AllCallReply)
        } else if byte == 16 {
            Ok(Self::LongAirAirSurveillance)
        } else if byte == 17 {
            Ok(Self::ExtendedSquitter)
        } else if byte == 18 {
            Ok(Self::ExtendedSquitterNonTransponder)
        } else if byte == 19 {
            Ok(Self::MilitaryExtendedSquitter)
        } else if byte == 20 {
            Ok(Self::CommBAltitudeReply)
        } else if byte == 21 {
            Ok(Self::CommBIdentityReply)
        } else if byte == 22 {
            Ok(Self::MilitaryUse)
        } else if 24 <= byte && byte <= 31 {
            Ok(Self::CommD)
        } else {
            Err(DecodeError::InvalidDf { value: byte })
        }
    }

    /// Surveillance, air-air short and all-call replies are short (7 bytes),
    /// all other formats are long (14 bytes).
    pub open spec fn spec_frame_length(self) -> nat {
        match self {
            DownlinkFormat::ShortAirAirSurveillance => 7,
            DownlinkFormat::SurveillanceAltitudeReply => 7,
            DownlinkFormat::SurveillanceIdentityReply => 7,
            DownlinkFormat::AllCallReply => 7,
            _ => 14,
        }
    }

    pub fn frame_length(&self) -> (r: usize)
        ensures
            r == self.spec_frame_length(),
    {
        match self {
            DownlinkFormat::ShortAirAirSurveillance => LENGTH_SHORT,
            DownlinkFormat::SurveillanceAltitudeReply => LENGTH_SHORT,
            DownlinkFormat::SurveillanceIdentityReply => LENGTH_SHORT,
            DownlinkFormat::AllCallReply => LENGTH_SHORT,
            DownlinkFormat::LongAirAirSurveillance => LENGTH_LONG,
            DownlinkFormat::ExtendedSquitter => LENGTH_LONG,
            DownlinkFormat::ExtendedSquitterNonTransponder => LENGTH_LONG,
            DownlinkFormat::MilitaryExtendedSquitter => LENGTH_LONG,
            DownlinkFormat::CommBAltitudeReply => LENGTH_LONG,
            DownlinkFormat::CommBIdentityReply => LENGTH_LONG,
            DownlinkFormat::MilitaryUse => LENGTH_LONG,
            DownlinkFormat::CommD => LENGTH_LONG,
        }
    }
}

/// 3 bit capability value
///
/// 0: level 1 transponder, on the ground or airborne; 4: level 2 or above, on
/// the ground; 5: level 2 or above, airborne; 6: level 2 or above, on the
/// ground or airborne; 7: DR not zero or FS 2, 3, 4 or 5, on the ground or
/// airborne.
#[derive(Clone, Copy, Debug, PartialEq, Eq, PartialOrd, Ord, Hash)]
pub struct Capability(pub u8);

impl Capability {
    /// Wraps a raw value without checking that it fits into 3 bits.
    pub fn from_u8_unchecked(byte: u8) -> (r: Self)
        ensures
            r == Self(byte),
    {
        Self(byte)
    }

    /// Wraps a raw value if it fits into 3 bits.
    pub fn from_u8(byte: u8) -> (r: Option<Self>)
        ensures
            r == (if byte < 8 { Some(Self(byte)) } else { None }),
    {
        proof {
            lemma_u8_masks(byte);
        }
        if byte & 0b11111000 == 0 {
            Some(Self(byte))
        } else {
            None
        }
    }

    /// The raw value.
    pub fn as_u8(&self) -> (r: u8)
        ensures
            r == self.0,
    {
        self.0
    }
}

/// 3-bit code format
///
/// Determines the type of non-transmitter extended squitter message:
/// 0: ADS-B with ICAO address, 1: ADS-B with non-ICAO address, 2 and 3: TIS-B
/// with ICAO address, 4: TIS-B and ADS-R management, 5: TIS-B with non-ICAO
/// address, 6: ADS-B rebroadcast, 7: reserved.
#[derive(Clone, Copy, Debug, PartialEq, Eq, PartialOrd, Ord, Hash)]
pub struct CodeFormat(pub u8);

impl CodeFormat {
    /// Wraps a raw value without checking that it fits into 3 bits.
    pub fn from_u8_unchecked(byte: u8) -> (r: Self)
        ensures
            r == Self(byte),
    {
        Self(byte)
    }

    /// Wraps a raw value if it fits into 3 bits.
    pub fn from_u8(byte: u8) -> (r: Option<Self>)
        ensures
            r == (if byte < 8 { Some(Self(byte)) } else { None }),
    {
        proof {
            lemma_u8_masks(byte);
        }
        if byte & 0b11111000 == 0 {
            Some(Self(byte))
        } else {
            None
        }
    }

    /// The raw value.
    pub fn as_u8(&self) -> (r: u8)
        ensures
            r == self.0,
    {
        self.0
    }
}

/// 3-bit flight status
///
/// <https://mode-s.org/1090mhz/content/mode-s/3-surveillance.html>
#[derive(Clone, Copy, Debug, PartialEq, Eq, PartialOrd, Ord, Hash)]
pub struct FlightStatus(pub u8);

impl FlightStatus {
    /// Wraps a raw value without checking that it fits into 3 bits.
    pub fn from_u8_unchecked(byte: u8) -> (r: Self)
        ensures
            r == Self(byte),
    {
        Self(byte)
    }

    /// Wraps a raw value if it fits into 3 bits.
    pub fn from_u8(byte: u8) -> (r: Option<Self>)
        ensures
            r == (if byte < 8 { Some(Self(byte)) } else { None }),
    {
        proof {
            lemma_u8_masks(byte);
        }
        if byte & 0b11111000 == 0 {
            Some(Self(byte))
        } else {
            None
        }
    }

    /// The raw value.
    pub fn as_u8(&self) -> (r: u8)
        ensures
            r == self.0,
    {
        self.0
    }
}

/// 5-bit downlink request
///
/// <https://mode-s.org/1090mhz/content/mode-s/3-surveillance.html>
#[derive(Clone, Copy, Debug, PartialEq, Eq, PartialOrd, Ord, Hash)]
pub struct DownlinkRequest(pub u8);

impl DownlinkRequest {
    /// Wraps a raw value without checking that it fits into 5 bits.
    pub fn from_u8_unchecked(byte: u8) -> (r: Self)
        ensures
            r == Self(byte),
    {
        Self(byte)
    }

    /// Wraps a raw value if it fits into 5 bits.
    pub fn from_u8(byte: u8) -> (r: Option<Self>)
        ensures
            r == (if byte < 32 { Some(Self(byte)) } else { None }),
    {
        proof {
            lemma_u8_masks(byte);
        }
        if byte & 0b11100000 == 0 {
            Some(Self(byte))
        } else {
            None
        }
    }

    /// The raw value.
    pub fn as_u8(&self) -> (r: u8)
        ensures
            r == self.0,
    {
        self.0
    }
}

/// IIS in utility message
#[derive(Clone, Copy, Debug, PartialEq, Eq, PartialOrd, Ord, Hash)]
pub struct InterrogatorIdentifierSubfield(pub u8);

impl InterrogatorIdentifierSubfield {
    /// Wraps a raw value without checking that it fits into 4 bits.
    pub fn from_u8_unchecked(byte: u8) -> (r: Self)
        ensures
            r == Self(byte),
    {
        Self(byte)
    }

    /// Wraps a raw value if it fits into 4 bits.
    pub fn from_u8(byte: u8) -> (r: Option<Self>)
        ensures
            r == (if byte < 16 { Some(Self(byte)) } else { None }),
    {
        proof {
            lemma_u8_masks(byte);
        }
        if byte & 0b11110000 == 0 {
            Some(Self(byte))
        } else {
            None
        }
    }

    /// The raw value.
    pub fn as_u8(&self) -> (r: u8)
        ensures
            r == self.0,
    {
        self.0
    }
}

/// 2-bit IDS in utility message
///
/// 0: no information, 1: IIS contains Comm-B, 2: Comm-C, 3: Comm-D
/// interrogator identifier code.
#[derive(Clone, Copy, Debug, PartialEq, Eq, PartialOrd, Ord, Hash)]
pub struct InterrogatorReservationType(pub u8);

/// The same type, under the spelling that older code uses.
pub type InterragatorReservationType = InterrogatorReservationType;

impl InterrogatorReservationType {
    /// Wraps a raw value without checking that it fits into 2 bits.
    pub fn from_u8_unchecked(byte: u8) -> (r: Self)
        ensures
            r == Self(byte),
    {
        Self(byte)
    }

    /// Wraps a raw value if it fits into 2 bits.
    pub fn from_u8(byte: u8) -> (r: Option<Self>)
        ensures
            r == (if byte < 4 { Some(Self(byte)) } else { None }),
    {
        proof {
            lemma_u8_masks(byte);
        }
        if byte & 0b11111100 == 0 {
            Some(Self(byte))
        } else {
            None
        }
    }

    /// The raw value.
    pub fn as_u8(&self) -> (r: u8)
        ensures
            r == self.0,
    {
        self.0
    }
}

/// 13-bit altitude / Mode C code
///
/// <https://mode-s.org/1090mhz/content/mode-s/3-surveillance.html>
/// <http://www.aeroelectric.com/articles/Altitude_Encoding/modec.htm>
#[derive(Clone, Copy, Debug, PartialEq, Eq, PartialOrd, Ord, Hash)]
pub struct AltitudeCode(pub u16);

impl AltitudeCode {
    /// Wraps a raw value without checking that it fits into 13 bits.
    pub fn from_u16_unchecked(word: u16) -> (r: Self)
        ensures
            r == Self(word),
    {
        Self(word)
    }

    /// Wraps a raw value if it fits into 13 bits.
    pub fn from_u16(word: u16) -> (r: Option<Self>)
        ensures
            r == (if word < 0x2000 { Some(Self(word)) } else { None }),
    {
        proof {
            lemma_u16_masks(word);
        }
        if word & 0b1110000000000000 == 0 {
            Some(Self(word))
        } else {
            None
        }
    }

    /// The raw value.
    pub fn as_u16(&self) -> (r: u16)
        ensures
            r == self.0,
    {
        self.0
    }
}

/// 13-bit identity / Mode A code
/// <https://mode-s.org/1090mhz/content/mode-s/3-surveillance.html>
/// <http://www.aeroelectric.com/articles/Altitude_Encoding/modec.htm>
#[derive(Clone, Copy, Debug, PartialEq, Eq, PartialOrd, Ord, Hash)]
pub struct IdentityCode(pub u16);

impl IdentityCode {
    /// Wraps a raw value without checking that it fits into 13 bits.
    pub fn from_u16_unchecked(word: u16) -> (r: Self)
        ensures
            r == Self(word),
    {
        Self(word)
    }

    /// Wraps a raw value if it fits into 13 bits.
    pub fn from_u16(word: u16) -> (r: Option<Self>)
        ensures
            r == (if word < 0x2000 { Some(Self(word)) } else { None }),
    {
        proof {
            lemma_u16_masks(word);
        }
        if word & 0b1110000000000000 == 0 {
            Some(Self(word))
        } else {
            None
        }
    }

    /// The raw value.
    pub fn as_u16(&self) -> (r: u16)
        ensures
            r == self.0,
    {
        self.0
    }
}

/// 3-bit sensitivity level (0: inoperative)
#[derive(Clone, Copy, Debug, PartialEq, Eq, PartialOrd, Ord, Hash)]
pub struct SensitivityLevel(pub u8);

impl SensitivityLevel {
    /// Wraps a raw value without checking that it fits into 3 bits.
    pub fn from_u8_unchecked(byte: u8) -> (r: Self)
        ensures
            r == Self(byte),
    {
        Self(byte)
    }

    /// Wraps a raw value if it fits into 3 bits.
    pub fn from_u8(byte: u8) -> (r: Option<Self>)
        ensures
            r == (if byte < 8 { Some(Self(byte)) } else { None }),
    {
        proof {
            lemma_u8_masks(byte);
        }
        if byte & 0b11111000 == 0 {
            Some(Self(byte))
        } else {
            None
        }
    }

    /// The raw value.
    pub fn as_u8(&self) -> (r: u8)
        ensures
            r == self.0,
    {
        self.0
    }
}

/// 4-bit reply information
///
/// 0: no operating ACAS, 2: ACAS with resolution capability inhibited, 3:
/// ACAS with vertical-only capability, 7: ACAS with vertical and horizontal
/// capability.
#[derive(Clone, Copy, Debug, PartialEq, Eq, PartialOrd, Ord, Hash)]
pub struct ReplyInformation(pub u8);

impl ReplyInformation {
    /// Wraps a raw value without checking that it fits into 4 bits.
    pub fn from_u8_unchecked(byte: u8) -> (r: Self)
        ensures
            r == Self(byte),
    {
        Self(byte)
    }

    /// Wraps a raw value if it fits into 4 bits.
    pub fn from_u8(byte: u8) -> (r: Option<Self>)
        ensures
            r == (if byte < 16 { Some(Self(byte)) } else { None }),
    {
        proof {
            lemma_u8_masks(byte);
        }
        if byte & 0b11110000 == 0 {
            Some(Self(byte))
        } else {
            None
        }
    }

    /// The raw value.
    pub fn as_u8(&self) -> (r: u8)
        ensures
            r == self.0,
    {
        self.0
    }
}


impl FlightStatus {
    /// Flight status 2, 3 and 4 carry the alert flag.
    pub open spec fn spec_alert(self) -> bool {
        self.0 == 0b010 || self.0 == 0b011 || self.0 == 0b100
    }

    pub fn alert(&self) -> (r: bool)
        ensures
            r == self.spec_alert(),
    {
        self.0 == 0b010 || self.0 == 0b011 || self.0 == 0b100
    }

    /// Flight status 4 and 5 carry the special position identification flag.
    pub open spec fn spec_spi(self) -> bool {
        self.0 == 0b100 || self.0 == 0b101
    }

    pub fn spi(&self) -> (r: bool)
        ensures
            r == self.spec_spi(),
    {
        self.0 == 0b100 || self.0 == 0b101
    }

    /// Flight status 1, 3, 4 and 5.
    pub open spec fn spec_ground(self) -> bool {
        self.0 == 0b001 || self.0 == 0b011 || self.0 == 0b100 || self.0 == 0b101
    }

    /// Flight status 1, 3, 4 and 5: the same set as [`ground`][Self::ground].
    pub fn airborne(&self) -> (r: bool)
        ensures
            r == self.spec_ground(),
    {
        self.0 == 0b001 || self.0 == 0b011 || self.0 == 0b100 || self.0 == 0b101
    }

    /// Flight status 1, 3, 4 and 5.
    pub fn ground(&self) -> (r: bool)
        ensures
            r == self.spec_ground(),
    {
        self.0 == 0b001 || self.0 == 0b011 || self.0 == 0b100 || self.0 == 0b101
    }
}

/// 6-bit utility message
///
/// <https://mode-s.org/1090mhz/content/mode-s/3-surveillance.html>
#[derive(Clone, Copy, Debug, PartialEq, Eq, PartialOrd, Ord, Hash)]
pub struct UtilityMessage {
    pub interrogator_identifier_subfield: InterrogatorIdentifierSubfield,
    pub interrogator_reservation_type: InterrogatorReservationType,
}

impl UtilityMessage {
    /// The identifier subfield is the byte without its last 2 bits, the
    /// reservation type its last 2 bits.
    pub open spec fn spec_from_u8_unchecked(byte: u8) -> UtilityMessage {
        UtilityMessage {
            interrogator_identifier_subfield: InterrogatorIdentifierSubfield(byte >> 2u8),
            interrogator_reservation_type: InterrogatorReservationType(byte & 0b11u8),
        }
    }

    /// Splits a byte if it fits into 6 bits.
    pub fn from_u8(byte: u8) -> (r: Option<Self>)
        ensures
            r == (if byte < 64 {
                Some(Self::spec_from_u8_unchecked(byte))
            } else {
                None
            }),
    {
        proof {
            lemma_u8_masks(byte);
        }
        if byte & 0b11000000 == 0 {
            Some(Self::from_u8_unchecked(byte))
        } else {
            None
        }
    }

    /// Splits a byte without checking that it fits into 6 bits.
    pub fn from_u8_unchecked(byte: u8) -> (r: Self)
        ensures
            r == Self::spec_from_u8_unchecked(byte),
    {
        Self {
            interrogator_identifier_subfield: InterrogatorIdentifierSubfield(byte >> 2u8),
            interrogator_reservation_type: InterrogatorReservationType(byte & 0b11u8),
        }
    }

    /// The identifier subfield, or-ed with the reservation type shifted
    /// left by 4 bits.
    pub fn as_u8(&self) -> (r: u8)
        ensures
            r == self.interrogator_identifier_subfield.0 | ((
            self.interrogator_reservation_type.0 << 4u8) as u8),
    {
        self.interrogator_identifier_subfield.as_u8() | (self.interrogator_reservation_type.as_u8()
            << 4u8)
    }
}

/// 13-bit altitude code: bit 6 (from the most significant of the 13) is the
/// M bit, set for metres; bit 8 is the Q bit, set for a 25 ft increment.
pub open spec fn spec_ac13_metres(c: u16) -> u16 {
    ((c & 0b1_1111_1000_0000) >> 1u16) | (c & 0b0_0000_0011_1111)
}

/// The 11-bit value of a 25 ft altitude code: the 13 bits without M and Q.
pub open spec fn spec_ac13_25ft(c: u16) -> u16 {
    ((c & 0b1_1111_1000_0000) >> 2u16) | ((c & 0b0_0000_0010_0000) >> 1u16) | (c
        & 0b0_0000_0000_1111)
}

impl AltitudeCode {
    /// No altitude for the codes 0 and 0x1fff. With the M bit set, the code
    /// without the M bit is the altitude in metres. With the Q bit set, the
    /// code without M and Q counts 25 ft from -1000 ft. Otherwise the code is
    /// a Gillham code that counts 100 ft from -1200 ft.
    pub open spec fn spec_decode(self) -> Option<Altitude> {
        let c = self.0;
        if c == 0 || c == 0b1_1111_1111_1111 {
            None
        } else if c & 0b0_0000_0100_0000 != 0 {
            Some(Altitude { altitude: spec_ac13_metres(c) as i32, unit: AltitudeUnit::Meter })
        } else if c & 0b0_0000_0001_0000 != 0 {
            Some(
                Altitude {
                    altitude: (25 * spec_ac13_25ft(c) - 1000) as i32,
                    unit: AltitudeUnit::Feet,
                },
            )
        } else {
            Some(
                Altitude {
                    altitude: (100 * spec_decode_gillham_ac13(c) - 1200) as i32,
                    unit: AltitudeUnit::Feet,
                },
            )
        }
    }

    pub fn decode(&self) -> (r: Option<Altitude>)
        ensures
            r == self.spec_decode(),
    {
        // note: 11 bits altitude with 25 feet resolution and -1000 feet offset gives a
        // max value of 50175, so we need a i32 for the decoded altitude
        let c = self.0;
        if c == 0 || c == 0b1_1111_1111_1111 {
            None
        } else {
            let m_bit = c & 0b0_0000_0100_0000 != 0;
            let q_bit = c & 0b0_0000_0001_0000 != 0;
            if m_bit {
                let v = ((c & 0b1_1111_1000_0000) >> 1u16) | (c & 0b0_0000_0011_1111);
                Some(Altitude { altitude: v as i32, unit: AltitudeUnit::Meter })
            } else if q_bit {
                let v = ((c & 0b1_1111_1000_0000) >> 2u16) | ((c & 0b0_0000_0010_0000) >> 1u16) | (c
                    & 0b0_0000_0000_1111);
                Some(Altitude { altitude: 25 * (v as i32) - 1000, unit: AltitudeUnit::Feet })
            } else {
                let v = decode_gillham_ac13(c);
                Some(Altitude { altitude: 100 * (v as i32) - 1200, unit: AltitudeUnit::Feet })
            }
        }
    }
}

/// With the Q bit set (and the M bit clear), the code counts in 25 foot
/// steps from -1000 ft, M and Q aside: the code with only the Q bit is
/// -1000 ft, and setting one more code bit adds 25 ft times that bit's
/// weight (1, 2, 4, 8 for bits 0 to 3, 16 for bit 5, then 32 to 1024 for
/// bits 7 to 12).
pub proof fn law_ac13_q_counts_25_ft(code: u16, k: u16)
    requires
        code < 0x2000,
        code & 0b0_0000_0001_0000 != 0,
        code & 0b0_0000_0100_0000 == 0,
        k < 13,
        k != 4,
        k != 6,
        code & (1u16 << k) == 0,
    ensures
        AltitudeCode(0b1_0000).spec_decode() == Some(
            Altitude { altitude: -1000i32, unit: AltitudeUnit::Feet },
        ),
        ({
            let w: int = if k < 4 {
                (1u16 << k) as int
            } else if k == 5 {
                16
            } else {
                (1u16 << (k - 2) as u16) as int
            };
            &&& AltitudeCode(code).spec_decode() matches Some(a)
            &&& AltitudeCode(code | (1u16 << k)).spec_decode() matches Some(b)
            &&& a.unit == AltitudeUnit::Feet && b.unit == AltitudeUnit::Feet
            &&& b.altitude == a.altitude + 25 * w
        }),
{
    let c2 = code | (1u16 << k);
    let w: u16 = if k < 4 {
        1u16 << k
    } else if k == 5 {
        16
    } else {
        1u16 << (k - 2) as u16
    };
    assert(c2 != 0 && c2 != 0b1_1111_1111_1111 && code != 0 && code != 0b1_1111_1111_1111 && c2
        & 0b0_0000_0001_0000 != 0 && c2 & 0b0_0000_0100_0000 == 0 && spec_ac13_25ft(c2)
        == spec_ac13_25ft(code) + w && spec_ac13_25ft(code) < 2048 && w <= 1024) by (bit_vector)
        requires
            code < 0x2000,
            code & 0b0_0000_0001_0000 != 0,
            code & 0b0_0000_0100_0000 == 0,
            k < 13,
            k != 4,
            k != 6,
            code & (1u16 << k) == 0,
            c2 == code | (1u16 << k),
            w == (if k < 4 {
                1u16 << k
            } else if k == 5 {
                16
            } else {
                1u16 << (k - 2) as u16
            }),
    ;
    let q: u16 = 0b1_0000;
    assert(q != 0 && q != 0b1_1111_1111_1111 && q & 0b0_0000_0100_0000 == 0 && q
        & 0b0_0000_0001_0000 != 0 && spec_ac13_25ft(q) == 0) by (bit_vector)
        requires
            q == 0b1_0000u16,
    ;
}

/// With the M bit set, the code without the M bit is the altitude in
/// metres: setting one more code bit adds that bit's weight (1 to 32 for
/// bits 0 to 5, then 64 to 4096 for bits 7 to 12).
pub proof fn law_ac13_metres_count(code: u16, k: u16)
    requires
        code < 0x1fff,
        code & 0b0_0000_0100_0000 != 0,
        k < 13,
        k != 6,
        code & (1u16 << k) == 0,
        code | (1u16 << k) != 0x1fff,
    ensures
        ({
            let w: int = if k < 6 {
                (1u16 << k) as int
            } else {
                (1u16 << (k - 1) as u16) as int
            };
            &&& AltitudeCode(code).spec_decode() matches Some(a)
            &&& AltitudeCode(code | (1u16 << k)).spec_decode() matches Some(b)
            &&& a.unit == AltitudeUnit::Meter && b.unit == AltitudeUnit::Meter
            &&& b.altitude == a.altitude + w
        }),
{
    let c2 = code | (1u16 << k);
    let w: u16 = if k < 6 {
        1u16 << k
    } else {
        1u16 << (k - 1) as u16
    };
    assert(c2 != 0 && code != 0 && c2 & 0b0_0000_0100_0000 != 0 && spec_ac13_metres(c2)
        == spec_ac13_metres(code) + w && spec_ac13_metres(code) < 4096 && w <= 2048)
        by (bit_vector)
        requires
            code < 0x1fff,
            code & 0b0_0000_0100_0000 != 0,
            k < 13,
            k != 6,
            code & (1u16 << k) == 0,
            c2 == code | (1u16 << k),
            w == (if k < 6 {
                1u16 << k
            } else {
                1u16 << (k - 1) as u16
            }),
    ;
}

#[derive(Clone, Copy, Debug, PartialEq, Eq)]
pub struct Altitude {
    pub altitude: i32,
    pub unit: AltitudeUnit,
}

#[derive(Clone, Copy, Debug, PartialEq, Eq, PartialOrd, Ord, Hash)]
pub enum AltitudeUnit {
    Feet,
    Meter,
}

impl AltitudeUnit {
    /// `"ft"` for feet, `"m"` for metres.
    pub open spec fn spec_unit_str(self) -> Seq<char> {
        match self {
            AltitudeUnit::Feet => seq!['f', 't'],
            AltitudeUnit::Meter => seq!['m'],
        }
    }

    pub fn unit_str(&self) -> (r: &'static str)
        ensures
            r@ == self.spec_unit_str(),
    {
        match self {
            AltitudeUnit::Feet => {
                let s = "ft";
                proof {
                    reveal_strlit("ft");
                }
                s
            },
            AltitudeUnit::Meter => {
                let s = "m";
                proof {
                    reveal_strlit("m");
                }
                s
            },
        }
    }
}

impl IdentityCode {
    /// The big-endian word of two bytes, if it fits into 13 bits.
    pub fn from_bytes(bytes: [u8; 2]) -> (r: Option<Self>)
        ensures
            r == (if crate::bits::be16(bytes[0], bytes[1]) < 0x2000 {
                Some(IdentityCode(crate::bits::be16(bytes[0], bytes[1])))
            } else {
                None
            }),
    {
        let word = ((bytes[0] as u16) << 8u16) | (bytes[1] as u16);
        Self::from_u16(word)
    }

    /// The IDENT flag: bit 6 (from the most significant of the 13).
    pub fn ident(&self) -> (r: bool)
        ensures
            r == (self.0 & 0b0_0000_0100_0000 != 0),
    {
        self.0 & 0b0000001000000 != 0
    }

    /// The squawk code of the Gillham-coded identity.
    pub fn squawk(&self) -> (r: Squawk)
        ensures
            r == (Squawk { code: spec_decode_gillham_id13(self.0) }),
    {
        Squawk::from_u16_unchecked(decode_gillham_id13(self.0))
    }
}

#[derive(Clone, Copy, Debug, PartialEq, Eq, PartialOrd, Ord, Hash)]
pub enum VerticalStatus {
    Airborne,
    Ground,
}

#[derive(Clone, Copy, Debug, PartialEq, Eq, PartialOrd, Ord, Hash)]
pub struct CrossLinkCapability(pub bool);

/// Regular parity of a frame.
///
/// This has no use other than that it causes the checksum of the frame to be 0
/// for non-corrupted frames.
#[derive(Clone, Copy, Debug, PartialEq, Eq)]
pub struct Parity(pub [u8; 3]);

/// Adress parity
///
/// This is a regular parity overlayed (XOR) with an ICAO address. Assuming the
/// frame was received uncorrupted, we can recover the address from this.
#[derive(Clone, Copy, Debug, PartialEq, Eq)]
pub struct AddressParity(pub [u8; 3]);

impl AddressParity {
    /// The address of the bytes of the parity xor-ed with those of the
    /// frame's checksum.
    pub fn recover_address(&self, frame_checksum: &Checksum) -> (r: IcaoAddress)
        ensures
            r == IcaoAddress::spec_from_bytes(
                [
                    self.0[0] ^ frame_checksum.0[0],
                    self.0[1] ^ frame_checksum.0[1],
                    self.0[2] ^ frame_checksum.0[2],
                ],
            ),
    {
        IcaoAddress::from_bytes(
            [
                self.0[0] ^ frame_checksum.0[0],
                self.0[1] ^ frame_checksum.0[1],
                self.0[2] ^ frame_checksum.0[2],
            ],
        )
    }
}

/// The checksum of a frame.
#[derive(Clone, Copy, Debug, PartialEq, Eq)]
pub struct Checksum(pub [u8; 3]);

impl Checksum {
    /// A checksum is valid when all its bytes are zero.
    pub open spec fn spec_check(self) -> bool {
        self.0[0] == 0 && self.0[1] == 0 && self.0[2] == 0
    }

    /// Checks the parity.
    ///
    /// For frames in which contain non-overlayed (i.e. no address/data parity),
    /// the expected checksum is 0. If it's not zero the frame might be
    /// corrupted.
    pub fn check(&self) -> (r: bool)
        ensures
            r == self.spec_check(),
    {
        self.0[0] == 0 && self.0[1] == 0 && self.0[2] == 0
    }
}

/// <https://mode-s.org/1090mhz/content/mode-s/4-acas.html>
#[derive(Clone, Copy, Debug, PartialEq, Eq)]
pub struct ShortAirAirSurveillance {
    pub vertical_status: VerticalStatus,
    pub cross_link_capability: CrossLinkCapability,
    pub sensitivity_level: SensitivityLevel,
    pub reply_information: ReplyInformation,
    pub altitude_code: AltitudeCode,
    pub address_parity: AddressParity,
}

impl ShortAirAirSurveillance {
    /// The common fields of the first 3 bytes, the cross-link capability of
    /// bit 7 of the first byte and the address parity of the last 3 bytes.
    pub open spec fn spec_decode(bytes: [u8; 6], bits_6_to_8: u8) -> Self {
        let (vertical_status, sensitivity_level, reply_information, altitude_code) =
            spec_decode_air_air_surveillance_common_fields(
            bits_6_to_8,
            [bytes[0], bytes[1], bytes[2]],
        );
        ShortAirAirSurveillance {
            vertical_status,
            cross_link_capability: CrossLinkCapability(bits_6_to_8 & 0b00000010 != 0),
            sensitivity_level,
            reply_information,
            altitude_code,
            address_parity: AddressParity([bytes[3], bytes[4], bytes[5]]),
        }
    }

    pub fn decode(bytes: [u8; 6], bits_6_to_8: u8) -> (r: Self)
        ensures
            r == Self::spec_decode(bytes, bits_6_to_8),
    {
        let (vertical_status, sensitivity_level, reply_information, altitude_code) =
            decode_air_air_surveillance_common_fields(bits_6_to_8, [bytes[0], bytes[1], bytes[2]]);
        Self {
            vertical_status,
            cross_link_capability: CrossLinkCapability(bits_6_to_8 & 0b00000010 != 0),
            sensitivity_level,
            reply_information,
            altitude_code,
            address_parity: AddressParity([bytes[3], bytes[4], bytes[5]]),
        }
    }
}

/// <https://mode-s.org/1090mhz/content/mode-s/4-acas.html>
#[derive(Clone, Copy, Debug, PartialEq, Eq)]
pub struct LongAirAirSurveillance {
    pub vertical_status: VerticalStatus,
    pub sensitivity_level: SensitivityLevel,
    pub reply_information: ReplyInformation,
    pub altitude_code: AltitudeCode,
    pub message: [u8; 7],
    pub address_parity: AddressParity,
}

impl LongAirAirSurveillance {
    /// The common fields of the first 3 bytes, the message of the next 7 and
    /// the address parity of the last 3.
    pub open spec fn spec_decode(bytes: [u8; 13], bits_6_to_8: u8) -> Self {
        let (vertical_status, sensitivity_level, reply_information, altitude_code) =
            spec_decode_air_air_surveillance_common_fields(
            bits_6_to_8,
            [bytes[0], bytes[1], bytes[2]],
        );
        LongAirAirSurveillance {
            vertical_status,
            sensitivity_level,
            reply_information,
            altitude_code,
            message: arr7(bytes@, 3),
            address_parity: AddressParity([bytes[10], bytes[11], bytes[12]]),
        }
    }

    pub fn decode(bytes: [u8; 13], bits_6_to_8: u8) -> (r: Self)
        ensures
            r == Self::spec_decode(bytes, bits_6_to_8),
    {
        let (vertical_status, sensitivity_level, reply_information, altitude_code) =
            decode_air_air_surveillance_common_fields(bits_6_to_8, [bytes[0], bytes[1], bytes[2]]);
        Self {
            vertical_status,
            sensitivity_level,
            reply_information,
            altitude_code,
            message: take7(bytes.as_slice(), 3),
            address_parity: AddressParity([bytes[10], bytes[11], bytes[12]]),
        }
    }
}

#[derive(Clone, Copy, Debug, PartialEq, Eq)]
pub struct SurveillanceAltitudeReply {
    pub flight_status: FlightStatus,
    pub downlink_request: DownlinkRequest,
    pub utility_message: UtilityMessage,
    pub altitude_code: AltitudeCode,
    pub address_parity: AddressParity,
}

impl SurveillanceAltitudeReply {
    /// The reply body of the first 3 bytes, its code as an altitude code, and
    /// the address parity of the last 3 bytes.
    pub open spec fn spec_decode(bytes: [u8; 6], bits_6_to_8: u8) -> Self {
        let (flight_status, downlink_request, utility_message, code) =
            spec_decode_surveillance_reply_body(bits_6_to_8, [bytes[0], bytes[1], bytes[2]]);
        SurveillanceAltitudeReply {
            flight_status,
            downlink_request,
            utility_message,
            altitude_code: AltitudeCode(code),
            address_parity: AddressParity([bytes[3], bytes[4], bytes[5]]),
        }
    }

    pub fn decode(bytes: [u8; 6], bits_6_to_8: u8) -> (r: Self)
        ensures
            r == Self::spec_decode(bytes, bits_6_to_8),
    {
        let (flight_status, downlink_request, utility_message, code) =
            decode_surveillance_reply_body(bits_6_to_8, [bytes[0], bytes[1], bytes[2]]);
        Self {
            flight_status,
            downlink_request,
            utility_message,
            altitude_code: AltitudeCode(code),
            address_parity: AddressParity([bytes[3], bytes[4], bytes[5]]),
        }
    }
}

#[derive(Clone, Copy, Debug, PartialEq, Eq)]
pub struct SurveillanceIdentityReply {
    pub flight_status: FlightStatus,
    pub downlink_request: DownlinkRequest,
    pub utility_message: UtilityMessage,
    pub identity_code: IdentityCode,
    pub address_parity: AddressParity,
}

impl SurveillanceIdentityReply {
    /// The reply body of the first 3 bytes, its code as an identity code, and
    /// the address parity of the last 3 bytes.
    pub open spec fn spec_decode(bytes: [u8; 6], bits_6_to_8: u8) -> Self {
        let (flight_status, downlink_request, utility_message, code) =
            spec_decode_surveillance_reply_body(bits_6_to_8, [bytes[0], bytes[1], bytes[2]]);
        SurveillanceIdentityReply {
            flight_status,
            downlink_request,
            utility_message,
            identity_code: IdentityCode(code),
            address_parity: AddressParity([bytes[3], bytes[4], bytes[5]]),
        }
    }

    pub fn decode(bytes: [u8; 6], bits_6_to_8: u8) -> (r: Self)
        ensures
            r == Self::spec_decode(bytes, bits_6_to_8),
    {
        let (flight_status, downlink_request, utility_message, code) =
            decode_surveillance_reply_body(bits_6_to_8, [bytes[0], bytes[1], bytes[2]]);
        Self {
            flight_status,
            downlink_request,
            utility_message,
            identity_code: IdentityCode(code),
            address_parity: AddressParity([bytes[3], bytes[4], bytes[5]]),
        }
    }
}

#[derive(Clone, Copy, Debug, PartialEq, Eq)]
pub struct AllCallReply {
    pub capability: Capability,
    pub address_announced: IcaoAddress,
    pub parity_interrogator: Parity,
}

impl AllCallReply {
    /// The capability of bits 6 to 8, the address of the first 3 bytes and the
    /// parity of the last 3.
    pub open spec fn spec_decode(bytes: [u8; 6], bits_6_to_8: u8) -> Self {
        AllCallReply {
            capability: Capability(bits_6_to_8),
            address_announced: IcaoAddress::spec_from_bytes([bytes[0], bytes[1], bytes[2]]),
            parity_interrogator: Parity([bytes[3], bytes[4], bytes[5]]),
        }
    }

    pub fn decode(bytes: [u8; 6], bits_6_to_8: u8) -> (r: Self)
        ensures
            r == Self::spec_decode(bytes, bits_6_to_8),
    {
        Self {
            capability: Capability::from_u8_unchecked(bits_6_to_8),
            address_announced: IcaoAddress::from_bytes([bytes[0], bytes[1], bytes[2]]),
            parity_interrogator: Parity([bytes[3], bytes[4], bytes[5]]),
        }
    }
}

#[derive(Clone, Copy, Debug, PartialEq, Eq)]
pub struct ExtendedSquitter {
    pub capabilities: Capability,
    pub address_announced: IcaoAddress,
    pub adsb_message: adsb::Message,
    pub parity_interrogator: Parity,
}

impl ExtendedSquitter {
    /// The capability of bits 6 to 8, the address of the first 3 bytes, the
    /// ADS-B message of the next 7 and the parity of the last 3.
    pub open spec fn spec_decode(bytes: [u8; 13], bits_6_to_8: u8) -> Self {
        ExtendedSquitter {
            capabilities: Capability(bits_6_to_8),
            address_announced: IcaoAddress::spec_from_bytes([bytes[0], bytes[1], bytes[2]]),
            adsb_message: adsb::Message::spec_decode(arr7(bytes@, 3)),
            parity_interrogator: Parity([bytes[10], bytes[11], bytes[12]]),
        }
    }

    /// Decodes the 13 bytes that follow the first byte; this always
    /// succeeds.
    pub fn decode(bytes: [u8; 13], bits_6_to_8: u8) -> (r: Result<Self, DecodeError>)
        ensures
            r == Ok::<Self, DecodeError>(Self::spec_decode(bytes, bits_6_to_8)),
    {
        let adsb_message = match adsb::Message::decode(take7(bytes.as_slice(), 3)) {
            Ok(m) => m,
            Err(e) => return Err(e),
        };
        Ok(
            Self {
                capabilities: Capability::from_u8_unchecked(bits_6_to_8),
                address_announced: IcaoAddress::from_bytes([bytes[0], bytes[1], bytes[2]]),
                adsb_message,
                parity_interrogator: Parity([bytes[10], bytes[11], bytes[12]]),
            },
        )
    }
}

#[derive(Clone, Copy, Debug, PartialEq, Eq)]
pub enum ExtendedSquitterNonTransponder {
    AdsbWithIcaoAddress {
        address_announced: IcaoAddress,
        adsb_message: adsb::Message,
        parity_interrogator: Parity,
    },
    AdsbWithNonIcaoAddress {
        address_announced: IcaoAddress,
        adsb_message: adsb::Message,
        parity_interrogator: Parity,
    },
    TisbWithIcaoAddress1 {
        address_announced: IcaoAddress,
        tisb_message: tisb::Message,
        parity_interrogator: Parity,
    },
    TisbWithIcaoAddress2 {
        address_announced: IcaoAddress,
        tisb_message: tisb::Message,
        parity_interrogator: Parity,
    },
    TisbAndAdsrManagement { data: [u8; 10], parity_interrogator: Parity },
    TisbWithNonIcaoAddress {
        address_announced: IcaoAddress,
        tisb_message: tisb::Message,
        parity_interrogator: Parity,
    },
    AdsbRebroadcast {
        address_announced: IcaoAddress,
        adsb_message: adsb::Message,
        parity_interrogator: Parity,
    },
    Reserved { data: [u8; 10], parity_interrogator: Parity },
}

impl ExtendedSquitterNonTransponder {
    /// The code format of each variant, in the order of their declaration
    /// (0 to 7).
    pub open spec fn spec_code_format(self) -> CodeFormat {
        match self {
            ExtendedSquitterNonTransponder::AdsbWithIcaoAddress { .. } => CodeFormat(0),
            ExtendedSquitterNonTransponder::AdsbWithNonIcaoAddress { .. } => CodeFormat(1),
            ExtendedSquitterNonTransponder::TisbWithIcaoAddress1 { .. } => CodeFormat(2),
            ExtendedSquitterNonTransponder::TisbWithIcaoAddress2 { .. } => CodeFormat(3),
            ExtendedSquitterNonTransponder::TisbAndAdsrManagement { .. } => CodeFormat(4),
            ExtendedSquitterNonTransponder::TisbWithNonIcaoAddress { .. } => CodeFormat(5),
            ExtendedSquitterNonTransponder::AdsbRebroadcast { .. } => CodeFormat(6),
            ExtendedSquitterNonTransponder::Reserved { .. } => CodeFormat(7),
        }
    }

    pub fn code_format(&self) -> (r: CodeFormat)
        ensures
            r == self.spec_code_format(),
    {
        match self {
            ExtendedSquitterNonTransponder::AdsbWithIcaoAddress { .. } => CodeFormat(0),
            ExtendedSquitterNonTransponder::AdsbWithNonIcaoAddress { .. } => CodeFormat(1),
            ExtendedSquitterNonTransponder::TisbWithIcaoAddress1 { .. } => CodeFormat(2),
            ExtendedSquitterNonTransponder::TisbWithIcaoAddress2 { .. } => CodeFormat(3),
            ExtendedSquitterNonTransponder::TisbAndAdsrManagement { .. } => CodeFormat(4),
            ExtendedSquitterNonTransponder::TisbWithNonIcaoAddress { .. } => CodeFormat(5),
            ExtendedSquitterNonTransponder::AdsbRebroadcast { .. } => CodeFormat(6),
            ExtendedSquitterNonTransponder::Reserved { .. } => CodeFormat(7),
        }
    }

    /// The variant of code format `bits_6_to_8`: an address in the first 3
    /// bytes (flagged as non-ICAO for code formats 1 and 5), a message in the
    /// next 7 (ADS-B for 0, 1 and 6, TIS-B for 2, 3 and 5), or 10 bytes of
    /// data (4 and 7); and the parity of the last 3 bytes.
    pub open spec fn spec_decode(bytes: [u8; 13], bits_6_to_8: u8) -> Self {
        let address = IcaoAddress::spec_from_bytes([bytes[0], bytes[1], bytes[2]]);
        let non_icao = IcaoAddress { address: address.address, non_icao: true };
        let adsb_message = adsb::Message::spec_decode(arr7(bytes@, 3));
        let tisb_message = tisb::Message { data: arr7(bytes@, 3) };
        let parity_interrogator = Parity([bytes[10], bytes[11], bytes[12]]);
        if bits_6_to_8 == 0 {
            ExtendedSquitterNonTransponder::AdsbWithIcaoAddress {
                address_announced: address,
                adsb_message,
                parity_interrogator,
            }
        } else if bits_6_to_8 == 1 {
            ExtendedSquitterNonTransponder::AdsbWithNonIcaoAddress {
                address_announced: non_icao,
                adsb_message,
                parity_interrogator,
            }
        } else if bits_6_to_8 == 2 {
            ExtendedSquitterNonTransponder::TisbWithIcaoAddress1 {
                address_announced: address,
                tisb_message,
                parity_interrogator,
            }
        } else if bits_6_to_8 == 3 {
            ExtendedSquitterNonTransponder::TisbWithIcaoAddress2 {
                address_announced: address,
                tisb_message,
                parity_interrogator,
            }
        } else if bits_6_to_8 == 4 {
            ExtendedSquitterNonTransponder::TisbAndAdsrManagement {
                data: arr10(bytes@, 0),
                parity_interrogator,
            }
        } else if bits_6_to_8 == 5 {
            ExtendedSquitterNonTransponder::TisbWithNonIcaoAddress {
                address_announced: non_icao,
                tisb_message,
                parity_interrogator,
            }
        } else if bits_6_to_8 == 6 {
            ExtendedSquitterNonTransponder::AdsbRebroadcast {
                address_announced: address,
                adsb_message,
                parity_interrogator,
            }
        } else {
            ExtendedSquitterNonTransponder::Reserved { data: arr10(bytes@, 0), parity_interrogator }
        }
    }

    /// Decodes the 13 bytes that follow the first byte; this always
    /// succeeds for a 3-bit code format.
    pub fn decode(bytes: [u8; 13], bits_6_to_8: u8) -> (r: Result<Self, DecodeError>)
        requires
            bits_6_to_8 < 8,
        ensures
            r == Ok::<Self, DecodeError>(Self::spec_decode(bytes, bits_6_to_8)),
    {
        let code_format = CodeFormat::from_u8_unchecked(bits_6_to_8);
        let address = IcaoAddress::from_bytes([bytes[0], bytes[1], bytes[2]]);
        let parity_interrogator = Parity([bytes[10], bytes[11], bytes[12]]);
        let message = take7(bytes.as_slice(), 3);
        let r = if code_format.0 == 0 {
            let adsb_message = match adsb::Message::decode(message) {
                Ok(m) => m,
                Err(e) => return Err(e),
            };
            ExtendedSquitterNonTransponder::AdsbWithIcaoAddress {
                address_announced: address,
                adsb_message,
                parity_interrogator,
            }
        } else if code_format.0 == 1 {
            let adsb_message = match adsb::Message::decode(message) {
                Ok(m) => m,
                Err(e) => return Err(e),
            };
            ExtendedSquitterNonTransponder::AdsbWithNonIcaoAddress {
                address_announced: address.with_non_icao_flag(),
                adsb_message,
                parity_interrogator,
            }
        } else if code_format.0 == 2 {
            // not always a valid ICAO address, see 2.2.3.2.1.5
            let tisb_message = match tisb::Message::decode(message) {
                Ok(m) => m,
                Err(e) => return Err(e),
            };
            ExtendedSquitterNonTransponder::TisbWithIcaoAddress1 {
                address_announced: address,
                tisb_message,
                parity_interrogator,
            }
        } else if code_format.0 == 3 {
            let tisb_message = match tisb::Message::decode(message) {
                Ok(m) => m,
                Err(e) => return Err(e),
            };
            ExtendedSquitterNonTransponder::TisbWithIcaoAddress2 {
                address_announced: address,
                tisb_message,
                parity_interrogator,
            }
        } else if code_format.0 == 4 {
            // format not specified in 1090 MOPS.
            ExtendedSquitterNonTransponder::TisbAndAdsrManagement {
                data: take10(bytes.as_slice(), 0),
                parity_interrogator,
            }
        } else if code_format.0 == 5 {
            let tisb_message = match tisb::Message::decode(message) {
                Ok(m) => m,
                Err(e) => return Err(e),
            };
            ExtendedSquitterNonTransponder::TisbWithNonIcaoAddress {
                address_announced: address.with_non_icao_flag(),
                tisb_message,
                parity_interrogator,
            }
        } else if code_format.0 == 6 {
            // almost the same message format as DF=17, but some bits are
            // modified (see 2.2.18)
            let adsb_message = match adsb::Message::decode(message) {
                Ok(m) => m,
                Err(e) => return Err(e),
            };
            ExtendedSquitterNonTransponder::AdsbRebroadcast {
                address_announced: address,
                adsb_message,
                parity_interrogator,
            }
        } else {
            ExtendedSquitterNonTransponder::Reserved { data: take10(bytes.as_slice(), 0), parity_interrogator }
        };
        Ok(r)
    }
}

#[derive(Clone, Copy, Debug, PartialEq, Eq)]
pub enum MilitaryExtendedSquitter {
    Adsb { address_announced: IcaoAddress, adsb_message: adsb::Message, parity_interrogator: Parity },
    /// Reserved for military applications
    Reserved {
        /// 2.2.3.2.1.4
        ///
        /// 1..=7
        application_field: u8,
        data: [u8; 13],
    },
}

impl MilitaryExtendedSquitter {
    /// With application field 0, an ADS-B frame like an extended squitter;
    /// with any other, the reserved data of all 13 bytes.
    pub open spec fn spec_decode(bytes: [u8; 13], bits_6_to_8: u8) -> Self {
        if bits_6_to_8 == 0 {
            MilitaryExtendedSquitter::Adsb {
                address_announced: IcaoAddress::spec_from_bytes([bytes[0], bytes[1], bytes[2]]),
                adsb_message: adsb::Message::spec_decode(arr7(bytes@, 3)),
                parity_interrogator: Parity([bytes[10], bytes[11], bytes[12]]),
            }
        } else {
            MilitaryExtendedSquitter::Reserved { application_field: bits_6_to_8, data: bytes }
        }
    }

    /// Decodes the 13 bytes that follow the first byte; this always
    /// succeeds.
    pub fn decode(bytes: [u8; 13], bits_6_to_8: u8) -> (r: Result<Self, DecodeError>)
        ensures
            r == Ok::<Self, DecodeError>(Self::spec_decode(bytes, bits_6_to_8)),
    {
        if bits_6_to_8 == 0 {
            let adsb_message = match adsb::Message::decode(take7(bytes.as_slice(), 3)) {
                Ok(m) => m,
                Err(e) => return Err(e),
            };
            Ok(
                Self::Adsb {
                    address_announced: IcaoAddress::from_bytes([bytes[0], bytes[1], bytes[2]]),
                    adsb_message,
                    parity_interrogator: Parity([bytes[10], bytes[11], bytes[12]]),
                },
            )
        } else {
            Ok(Self::Reserved { application_field: bits_6_to_8, data: bytes })
        }
    }
}

#[derive(Clone, Copy, Debug, PartialEq, Eq)]
pub struct CommBAltitudeReply {
    pub flight_status: FlightStatus,
    pub downlink_request: DownlinkRequest,
    pub utility_message: UtilityMessage,
    pub altitude_code: AltitudeCode,
    pub message: [u8; 7],
    pub data_parity: Parity,
}

impl CommBAltitudeReply {
    /// The reply body of the first 3 bytes with its code as an altitude code,
    /// the message of the next 7 and the parity of the last 3.
    pub open spec fn spec_decode(bytes: [u8; 13], bits_6_to_8: u8) -> Self {
        let (flight_status, downlink_request, utility_message, code) =
            spec_decode_surveillance_reply_body(bits_6_to_8, [bytes[0], bytes[1], bytes[2]]);
        CommBAltitudeReply {
            flight_status,
            downlink_request,
            utility_message,
            altitude_code: AltitudeCode(code),
            message: arr7(bytes@, 3),
            data_parity: Parity([bytes[10], bytes[11], bytes[12]]),
        }
    }

    pub fn decode(bytes: [u8; 13], bits_6_to_8: u8) -> (r: Self)
        ensures
            r == Self::spec_decode(bytes, bits_6_to_8),
    {
        let (flight_status, downlink_request, utility_message, code) =
            decode_surveillance_reply_body(bits_6_to_8, [bytes[0], bytes[1], bytes[2]]);
        Self {
            flight_status,
            downlink_request,
            utility_message,
            altitude_code: AltitudeCode(code),
            message: take7(bytes.as_slice(), 3),
            data_parity: Parity([bytes[10], bytes[11], bytes[12]]),
        }
    }
}

#[derive(Clone, Copy, Debug, PartialEq, Eq)]
pub struct CommBIdentityReply {
    pub flight_status: FlightStatus,
    pub downlink_request: DownlinkRequest,
    pub utility_message: UtilityMessage,
    pub identity_code: IdentityCode,
    pub message: [u8; 7],
    pub data_parity: Parity,
}

impl CommBIdentityReply {
    /// The reply body of the first 3 bytes with its code as an identity code,
    /// the message of the next 7 and the parity of the last 3.
    pub open spec fn spec_decode(bytes: [u8; 13], bits_6_to_8: u8) -> Self {
        let (flight_status, downlink_request, utility_message, code) =
            spec_decode_surveillance_reply_body(bits_6_to_8, [bytes[0], bytes[1], bytes[2]]);
        CommBIdentityReply {
            flight_status,
            downlink_request,
            utility_message,
            identity_code: IdentityCode(code),
            message: arr7(bytes@, 3),
            data_parity: Parity([bytes[10], bytes[11], bytes[12]]),
        }
    }

    pub fn decode(bytes: [u8; 13], bits_6_to_8: u8) -> (r: Self)
        ensures
            r == Self::spec_decode(bytes, bits_6_to_8),
    {
        let (flight_status, downlink_request, utility_message, code) =
            decode_surveillance_reply_body(bits_6_to_8, [bytes[0], bytes[1], bytes[2]]);
        Self {
            flight_status,
            downlink_request,
            utility_message,
            identity_code: IdentityCode(code),
            message: take7(bytes.as_slice(), 3),
            data_parity: Parity([bytes[10], bytes[11], bytes[12]]),
        }
    }
}

#[derive(Clone, Copy, Debug, PartialEq, Eq)]
pub struct CommD {
    pub bits_3_to_8: u8,
    pub data: [u8; 13],
}

#[derive(Clone, Copy, Debug, PartialEq, Eq)]
pub struct MilitaryUse {
    pub bits_6_to_8: u8,
    pub data: [u8; 13],
}

} // verus!
