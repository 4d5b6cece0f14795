//! Fields that several Mode S formats share, read with respect to their
//! alignment in a frame, and the Mode S checksum.

pub mod gillham;

use vstd::prelude::*;

use crate::mode_s::{
    AltitudeCode,
    DownlinkRequest,
    FlightStatus,
    ReplyInformation,
    SensitivityLevel,
    UtilityMessage,
    VerticalStatus,
    adsb::cpr::{
        CoodinateCode,
        Cpr,
        Format,
        PositionCode,
    },
};

verus! {

/// The 13-bit word of the last 5 bits of `b0` and all bits of `b1`.
pub open spec fn spec_frame_aligned_code(b0: u8, b1: u8) -> u16 {
    crate::bits::be16(b0, b1) & 0x1fff
}

/// The three fields that follow the flight status in surveillance replies,
/// and the 13-bit code after them: downlink request (5 bits), utility
/// message (6 bits), code (13 bits).
///
/// ```plain
/// bits_6_to_8  bytes [0]      [1]      [2]
/// .....fff     ddddduuu  uuuaaaaa aaaaaaaa
/// ```
pub open spec fn spec_decode_surveillance_reply_body(bits_6_to_8: u8, bytes: [u8; 3]) -> (
    FlightStatus,
    DownlinkRequest,
    UtilityMessage,
    u16,
) {
    let w = crate::bits::be24(bytes[0], bytes[1], bytes[2]);
    (
        FlightStatus(bits_6_to_8),
        DownlinkRequest((w >> 19u32) as u8),
        UtilityMessage::spec_from_u8_unchecked(((w >> 13u32) & 0x3f) as u8),
        (w & 0x1fff) as u16,
    )
}

/// Decode fields common in surveillance replies.
///
/// This decodes the data with respect to its alignment in a frame.
///
/// `bits_6_to_8` are the last 3 bits of the first byte.
/// `bytes` are the remaining bytes.
pub fn decode_surveillance_reply_body(bits_6_to_8: u8, bytes: [u8; 3]) -> (r: (
    FlightStatus,
    DownlinkRequest,
    UtilityMessage,
    u16,
))
    ensures
        r == spec_decode_surveillance_reply_body(bits_6_to_8, bytes),
{
    let b0 = bytes[0];
    let b1 = bytes[1];
    let b2 = bytes[2];
    let flight_status = FlightStatus(bits_6_to_8);
    let downlink_request = DownlinkRequest(b0 >> 3u8);
    let um = ((b0 & 0b111) << 3u8) | (b1 >> 5u8);
    let utility_message = UtilityMessage::from_u8_unchecked(um);
    let code = decode_frame_aligned_altitude_or_identity_code(&bytes[1..3]);
    assert(b0 >> 3u8 == (crate::bits::be24(b0, b1, b2) >> 19u32) as u8 && ((b0 & 0b111) << 3u8)
        | (b1 >> 5u8) == ((crate::bits::be24(b0, b1, b2) >> 13u32) & 0x3f) as u8
        && crate::bits::be16(b1, b2) & 0x1fff == (crate::bits::be24(b0, b1, b2) & 0x1fff) as u16)
        by (bit_vector);
    (flight_status, downlink_request, utility_message, code)
}

/// The fields common to air-air surveillance frames:
///
/// ```plain
/// bits_6_to_8  bytes [0]      [1]      [2]
/// .....vxx     sssxxrrr  rxxaaaaa aaaaaaaa
/// ```
///
/// `v`: vertical status, `s`: sensitivity level, `r`: reply information,
/// `a`: altitude code.
pub open spec fn spec_decode_air_air_surveillance_common_fields(bits_6_to_8: u8, bytes: [u8; 3]) -> (
    VerticalStatus,
    SensitivityLevel,
    ReplyInformation,
    AltitudeCode,
) {
    let w = crate::bits::be24(bytes[0], bytes[1], bytes[2]);
    (
        if bits_6_to_8 & 0b100 == 0 {
            VerticalStatus::Airborne
        } else {
            VerticalStatus::Ground
        },
        SensitivityLevel((w >> 21u32) as u8),
        ReplyInformation(((w >> 15u32) & 0xf) as u8),
        AltitudeCode((w & 0x1fff) as u16),
    )
}

/// Decode fields common in air air surveillance frames.
///
/// This decodes the data with respect to its alignment in a frame.
///
/// `bits_6_to_8` are the last 3 bits of the first byte.
/// `bytes` are the remaining bytes.
pub fn decode_air_air_surveillance_common_fields(bits_6_to_8: u8, bytes: [u8; 3]) -> (r: (
    VerticalStatus,
    SensitivityLevel,
    ReplyInformation,
    AltitudeCode,
))
    ensures
        r == spec_decode_air_air_surveillance_common_fields(bits_6_to_8, bytes),
{
    let b0 = bytes[0];
    let b1 = bytes[1];
    let b2 = bytes[2];
    let vertical_status = if bits_6_to_8 & 0b100 == 0 {
        VerticalStatus::Airborne
    } else {
        VerticalStatus::Ground
    };
    let sensitivity_level = SensitivityLevel(b0 >> 5u8);
    let reply_information = ReplyInformation(((b0 & 0b111) << 1u8) | (b1 >> 7u8));
    let altitude_code = AltitudeCode(decode_frame_aligned_altitude_or_identity_code(&bytes[1..3]));
    assert(b0 >> 5u8 == (crate::bits::be24(b0, b1, b2) >> 21u32) as u8 && ((b0 & 0b111) << 1u8)
        | (b1 >> 7u8) == ((crate::bits::be24(b0, b1, b2) >> 15u32) & 0xf) as u8
        && crate::bits::be16(b1, b2) & 0x1fff == (crate::bits::be24(b0, b1, b2) & 0x1fff) as u16)
        by (bit_vector);
    (vertical_status, sensitivity_level, reply_information, altitude_code)
}

/// Extracts the AC13 or ID13.
///
/// This extracts a 13 bit word starting at bit 3:
///
/// ```plain
/// byte         0        1
/// bit   01234567 01234567
/// value ...aaaaa aaaaaaaa
/// ```
///
/// This is useful for decoding surveillance replies and air air surveillance
/// frames.
pub fn decode_frame_aligned_altitude_or_identity_code(bytes: &[u8]) -> (r: u16)
    requires
        bytes@.len() >= 2,
    ensures
        r == spec_frame_aligned_code(bytes@[0], bytes@[1]),
        r < 0x2000,
{
    let b0 = bytes[0];
    let b1 = bytes[1];
    assert((((b0 & 0b00011111) as u16) << 8u16) | (b1 as u16) == crate::bits::be16(b0, b1)
        & 0x1fff && crate::bits::be16(b0, b1) & 0x1fff < 0x2000) by (bit_vector);
    (((b0 & 0b00011111) as u16) << 8u16) | (b1 as u16)
}

/// The big-endian 40-bit word made of five bytes.
pub open spec fn be40(b0: u8, b1: u8, b2: u8, b3: u8, b4: u8) -> u64 {
    ((b0 as u64) << 32u64) | ((b1 as u64) << 24u64) | ((b2 as u64) << 16u64) | ((b3 as u64)
        << 8u64) | (b4 as u64)
}

/// The CPR in five bytes: the format is bit 5, the latitude bits 6 to 22, the
/// longitude bits 23 to 39.
///
/// ```plain
/// byte         0        1        2        3        4
/// bit   01234567 01234567 01234567 01234567 01234567
/// value .....faa aaaaaaaa aaaaaaab bbbbbbbb bbbbbbbb
/// ```
pub open spec fn spec_decode_frame_aligned_cpr(b0: u8, b1: u8, b2: u8, b3: u8, b4: u8) -> Cpr {
    let w = be40(b0, b1, b2, b3, b4);
    Cpr {
        format: if (w >> 34u64) & 1 == 1 {
            Format::Odd
        } else {
            Format::Even
        },
        position: PositionCode {
            latitude: CoodinateCode(((w >> 17u64) & 0x1_ffff) as u32),
            longitude: CoodinateCode((w & 0x1_ffff) as u32),
        },
    }
}

/// Decode CPR from a frame.
///
/// This expects the CPR latitude and longitude to start at bit 6 in `bytes[0]`.
/// A total of 5 bytes are required.
pub fn decode_frame_aligned_cpr(bytes: &[u8]) -> (r: Cpr)
    requires
        bytes@.len() >= 5,
    ensures
        r == spec_decode_frame_aligned_cpr(bytes@[0], bytes@[1], bytes@[2], bytes@[3], bytes@[4]),
        r.position.latitude.0 < 0x2_0000,
        r.position.longitude.0 < 0x2_0000,
{
    let b0 = bytes[0];
    let b1 = bytes[1];
    let b2 = bytes[2];
    let b3 = bytes[3];
    let b4 = bytes[4];
    let format = Format::from_bit(b0 & 0b00000100 != 0);
    let latitude = (((b0 & 0b11) as u32) << 15u32) | ((b1 as u32) << 7u32) | ((b2 >> 1u8) as u32);
    let longitude = (((b2 & 0b1) as u32) << 16u32) | ((b3 as u32) << 8u32) | (b4 as u32);
    assert((b0 & 0b00000100 != 0) == ((be40(b0, b1, b2, b3, b4) >> 34u64) & 1 == 1) && (((b0
        & 0b11) as u32) << 15u32) | ((b1 as u32) << 7u32) | ((b2 >> 1u8) as u32) == ((be40(
        b0,
        b1,
        b2,
        b3,
        b4,
    ) >> 17u64) & 0x1_ffff) as u32 && (((b2 & 0b1) as u32) << 16u32) | ((b3 as u32) << 8u32)
        | (b4 as u32) == (be40(b0, b1, b2, b3, b4) & 0x1_ffff) as u32 && (((b0 & 0b11) as u32)
        << 15u32) | ((b1 as u32) << 7u32) | ((b2 >> 1u8) as u32) < 0x2_0000 && (((b2 & 0b1) as u32)
        << 16u32) | ((b3 as u32) << 8u32) | (b4 as u32) < 0x2_0000) by (bit_vector);
    Cpr {
        format,
        position: PositionCode {
            latitude: CoodinateCode::from_u32_unchecked(latitude),
            longitude: CoodinateCode::from_u32_unchecked(longitude),
        },
    }
}

/// The Mode S CRC-24 checksum of a byte sequence (generator polynomial
/// 0xfff409, no reflection, initial value and final XOR zero).
///
/// <https://www.ll.mit.edu/sites/default/files/publication/doc/2018-12/Gertz_1984_ATC-117_WW-15318.pdf>
pub uninterp spec fn spec_crc24_modes(bytes: Seq<u8>) -> u32;

/// Calls `crc::Crc::<u32>::checksum` with the Mode S CRC-24 parameters
/// (width 24, polynomial 0xfff409, init 0, no reflection, xorout 0).
///
/// Trusted: the result is the checksum of exactly the given bytes, named by
/// [`spec_crc24_modes`], and fits into 24 bits (for a 24-bit algorithm
/// without output reflection the crate shifts the 32-bit register right by 8
/// before the final XOR with 0).
#[verifier::external_body]
pub(crate) fn crc24_modes(bytes: &[u8]) -> (r: u32)
    ensures
        r == spec_crc24_modes(bytes@),
        r < 0x100_0000,
{
    crc::Crc::<u32>::new(
        &crc::Algorithm {
            width: 24,
            poly: 0xfff409,
            init: 0,
            refin: false,
            refout: false,
            xorout: 0x000000,
            check: 0x54268,
            residue: 0x000000,
        },
    ).checksum(bytes)
}

} // verus!
