//! ADS-B messages

pub mod cpr;

use vstd::prelude::*;
use vstd::string::StringSliceAdditionalSpecFns;

use crate::{
    mode_s::{
        DecodeError,
        adsb::cpr::Cpr,
        util::{
            decode_frame_aligned_altitude_or_identity_code,
            decode_frame_aligned_cpr,
            spec_decode_frame_aligned_cpr,
            spec_frame_aligned_code,
            gillham::{
                decode_gillham_ac12,
                decode_gillham_id13,
                spec_decode_gillham_ac12,
                spec_decode_gillham_id13,
            },
        },
    },
    bits::{
        be32,
        lemma_u16_masks,
        lemma_u32_masks,
        lemma_u8_masks,
    },
    types::Squawk,
};

verus! {

/// The six bytes of an ADS-B message that follow its first byte (type code
/// and sub type).
pub open spec fn spec_body(me: [u8; 7]) -> [u8; 6] {
    [me[1], me[2], me[3], me[4], me[5], me[6]]
}

/// Reference page 39
#[derive(Clone, Copy, Debug, PartialEq, Eq)]
pub enum Message {
    AircraftIdentification(AircraftIdentification),
    SurfacePosition(SurfacePosition),
    AirbornePosition(AirbornePosition),
    AirborneVelocity(AirborneVelocity),
    TestMessage([u8; 6]),
    SurfaceSystemMessage(SurfaceSystemMessage),
    TrajectoryChangeMessage { sub_type: u8, data: [u8; 6] },
    AircraftStatus(AircraftStatus),
    TargetStateAndStatusInformation(TargetStateAndStatusInformation),
    AircraftOperationalStatus(AircraftOperationalStatus),
    Reserved { type_code: u8, sub_type: u8, data: [u8; 6] },
}

impl Message {
    /// The message that the 7 bytes of an ADS-B message field (ME) encode.
    ///
    /// The type code is the first 5 bits, the sub type the following 3 bits.
    pub open spec fn spec_decode(me: [u8; 7]) -> Message {
        let type_code = me[0] >> 3u8;
        let sub_type = me[0] & 0b111u8;
        let body = spec_body(me);
        let reserved = Message::Reserved { type_code, sub_type, data: body };
        if 1 <= type_code <= 4 {
            Message::AircraftIdentification(
                AircraftIdentification::spec_decode(body, type_code, sub_type),
            )
        } else if 5 <= type_code <= 8 {
            Message::SurfacePosition(SurfacePosition::spec_decode(body, sub_type))
        } else if type_code == 0 || (9 <= type_code <= 18) || (20 <= type_code <= 22) {
            Message::AirbornePosition(AirbornePosition::spec_decode(body, type_code, sub_type))
        } else if type_code == 19 {
            if 1 <= sub_type <= 4 {
                Message::AirborneVelocity(AirborneVelocity::spec_decode(body, sub_type))
            } else {
                reserved
            }
        } else if type_code == 23 {
            if sub_type == 0 {
                Message::TestMessage(body)
            } else {
                reserved
            }
        } else if type_code == 24 {
            Message::SurfaceSystemMessage(SurfaceSystemMessage::spec_decode(body, sub_type))
        } else if type_code == 27 {
            Message::TrajectoryChangeMessage { sub_type, data: body }
        } else if type_code == 28 {
            Message::AircraftStatus(AircraftStatus::spec_decode(body, sub_type))
        } else if type_code == 29 {
            if sub_type >> 1u8 == 1 {
                Message::TargetStateAndStatusInformation(
                    TargetStateAndStatusInformation::spec_decode(body, sub_type & 1 != 0),
                )
            } else {
                reserved
            }
        } else if type_code == 31 {
            Message::AircraftOperationalStatus(AircraftOperationalStatus::spec_decode(body, sub_type))
        } else {
            reserved
        }
    }

    /// Decodes the 7 bytes of an ADS-B message field (ME).
    pub fn decode(buffer: [u8; 7]) -> (r: Result<Self, DecodeError>)
        ensures
            r == Ok::<Message, DecodeError>(Self::spec_decode(buffer)),
    {
        let byte_0 = buffer[0];
        let type_code = byte_0 >> 3u8;
        let bits_6_to_8 = byte_0 & 0b111u8;
        let body: [u8; 6] = [buffer[1], buffer[2], buffer[3], buffer[4], buffer[5], buffer[6]];
        let reserved = Self::Reserved { type_code, sub_type: bits_6_to_8, data: body };

        let message = if 1 <= type_code && type_code <= 4 {
            Self::AircraftIdentification(AircraftIdentification::decode(body, type_code, bits_6_to_8))
        } else if 5 <= type_code && type_code <= 8 {
            Self::SurfacePosition(SurfacePosition::decode(body, type_code, bits_6_to_8))
        } else if type_code == 0 || (9 <= type_code && type_code <= 18) || (20 <= type_code
            && type_code <= 22) {
            Self::AirbornePosition(AirbornePosition::decode(body, type_code, bits_6_to_8))
        } else if type_code == 19 {
            if 1 <= bits_6_to_8 && bits_6_to_8 <= 4 {
                Self::AirborneVelocity(AirborneVelocity::decode(body, bits_6_to_8))
            } else {
                reserved
            }
        } else if type_code == 23 {
            if bits_6_to_8 == 0 {
                Self::TestMessage(body)
            } else {
                reserved
            }
        } else if type_code == 24 {
            Self::SurfaceSystemMessage(SurfaceSystemMessage::decode(body, bits_6_to_8))
        } else if type_code == 27 {
            Self::TrajectoryChangeMessage { sub_type: bits_6_to_8, data: body }
        } else if type_code == 28 {
            Self::AircraftStatus(AircraftStatus::decode(body, bits_6_to_8))
        } else if type_code == 29 {
            // rare 2-bit sub type
            let sub_type = bits_6_to_8 >> 1u8;
            if sub_type == 1 {
                Self::TargetStateAndStatusInformation(
                    TargetStateAndStatusInformation::decode(body, bits_6_to_8 & 1 != 0),
                )
            } else {
                reserved
            }
        } else if type_code == 31 {
            Self::AircraftOperationalStatus(AircraftOperationalStatus::decode(body, bits_6_to_8))
        } else {
            reserved
        };
        Ok(message)
    }
}

#[derive(Clone, Copy, Debug, PartialEq, Eq)]
pub struct AircraftIdentification {
    pub wake_vortex_category: WakeVortexCategory,
    pub callsign: EncodedCallsign,
}

impl AircraftIdentification {
    pub open spec fn spec_decode(body: [u8; 6], type_code: u8, category: u8) -> Self {
        AircraftIdentification {
            wake_vortex_category: WakeVortexCategory::spec_from_type_code_and_category(
                type_code,
                category,
            ),
            callsign: EncodedCallsign(body),
        }
    }

    /// The emitter category comes from the type code and the 3 bits after it,
    /// the callsign is the 6 bytes that follow.
    pub fn decode(buffer: [u8; 6], type_code: u8, bits_6_to_8: u8) -> (r: Self)
        ensures
            r == Self::spec_decode(buffer, type_code, bits_6_to_8),
    {
        Self {
            wake_vortex_category: WakeVortexCategory::from_type_code_and_category_unchecked(
                type_code,
                bits_6_to_8,
            ),
            callsign: EncodedCallsign(buffer),
        }
    }
}

#[derive(Clone, Copy, Debug, PartialEq, Eq)]
pub struct SurfacePosition {
    pub movement: Movement,
    pub ground_track: Option<GroundTrack>,
    pub time: bool,
    pub cpr: Cpr,
}

impl SurfacePosition {
    /// ```plain
    /// byte       *0        0        1
    /// bit  01234567 01234567 01234567
    ///      .....aaa aaaabccc ccccd...
    /// ```
    ///
    /// `a`: movement, `b`: ground track status, `c`: ground track, `d`: time;
    /// the CPR follows.
    pub open spec fn spec_decode(body: [u8; 6], sub_type: u8) -> Self {
        SurfacePosition {
            movement: Movement((sub_type << 4u8) | (body[0] >> 4u8)),
            ground_track: if body[0] & 0b0000_1000 != 0 {
                Some(GroundTrack(((body[0] & 0b0000_0111) << 4u8) | (body[1] >> 4u8)))
            } else {
                None
            },
            time: body[1] & 0b0000_1000 != 0,
            cpr: spec_decode_frame_aligned_cpr(body[1], body[2], body[3], body[4], body[5]),
        }
    }

    pub fn decode(buffer: [u8; 6], _type_code: u8, bits_6_to_8: u8) -> (r: Self)
        ensures
            r == Self::spec_decode(buffer, bits_6_to_8),
    {
        let a = (bits_6_to_8 << 4u8) | (buffer[0] >> 4u8);
        let b = buffer[0] & 0b0000_1000 != 0;
        let c = ((buffer[0] & 0b0000_0111) << 4u8) | (buffer[1] >> 4u8);
        let d = buffer[1] & 0b0000_1000 != 0;

        let cpr = decode_frame_aligned_cpr(&buffer[1..6]);
        Self {
            movement: Movement(a),
            ground_track: if b {
                Some(GroundTrack(c))
            } else {
                None
            },
            time: d,
            cpr,
        }
    }
}

/// 2.2.3.2.3
#[derive(Clone, Copy, Debug, PartialEq, Eq)]
pub struct AirbornePosition {
    pub altitude_type: AltitudeType,
    pub surveillance_status: SurveillanceStatus,
    pub single_antenna_flag: bool,
    pub altitude_code: Option<AltitudeCode>,
    pub time: bool,
    pub cpr: Option<Cpr>,
}

/// Type codes of airborne positions: 0, 9 to 18 (barometric altitude) and 20
/// to 22 (GNSS altitude).
pub open spec fn is_airborne_position_type_code(type_code: u8) -> bool {
    type_code == 0 || (9 <= type_code <= 18) || (20 <= type_code <= 22)
}

impl AirbornePosition {
    /// ```plain
    ///      -1        0        1
    /// .....aab cccccccc cccc....
    /// ```
    ///
    /// `a`: surveillance status, `b`: single antenna flag, `c`: altitude code
    /// (absent when zero); the time flag is bit 4 of the third body byte; the
    /// CPR follows the altitude code, except for type code 0.
    pub open spec fn spec_decode(body: [u8; 6], type_code: u8, sub_type: u8) -> Self {
        let c = ((body[0] as u16) << 4u16) | ((body[1] >> 4u8) as u16);
        AirbornePosition {
            altitude_type: AltitudeType::spec_from_type_code(type_code),
            surveillance_status: SurveillanceStatus(sub_type >> 1u8),
            single_antenna_flag: sub_type & 1 == 1,
            altitude_code: if c != 0 {
                Some(AltitudeCode(c))
            } else {
                None
            },
            time: body[2] & 0b0000_1000 != 0,
            cpr: if type_code != 0 {
                Some(spec_decode_frame_aligned_cpr(body[1], body[2], body[3], body[4], body[5]))
            } else {
                None
            },
        }
    }

    pub fn decode(buffer: [u8; 6], type_code: u8, bits_6_to_8: u8) -> (r: Self)
        requires
            is_airborne_position_type_code(type_code),
        ensures
            r == Self::spec_decode(buffer, type_code, bits_6_to_8),
    {
        let a = bits_6_to_8 >> 1u8;
        let b = bits_6_to_8 & 0b1 == 1;
        let c = ((buffer[0] as u16) << 4u16) | ((buffer[1] >> 4u8) as u16);
        let d = buffer[2] & 0b00001000 != 0;

        Self {
            altitude_type: AltitudeType::from_type_code(type_code),
            surveillance_status: SurveillanceStatus(a),
            single_antenna_flag: b,
            altitude_code: if c != 0 {
                Some(AltitudeCode(c))
            } else {
                None
            },
            time: d,
            cpr: if type_code != 0 {
                Some(decode_frame_aligned_cpr(&buffer[1..6]))
            } else {
                None
            },
        }
    }

    /// The decoded altitude, of the kind the type code announces.
    pub open spec fn spec_altitude(self) -> Option<Altitude> {
        match self.altitude_code {
            Some(ac) => Some(Altitude::spec_from_type_and_value(self.altitude_type, ac.spec_decode())),
            None => None,
        }
    }

    pub fn altitude(&self) -> (r: Option<Altitude>)
        ensures
            r == self.spec_altitude(),
    {
        match self.altitude_code {
            Some(ac) => Some(self.altitude_type.altitude(ac.decode())),
            None => None,
        }
    }
}

/// 3-bit emergency/priority status.
///
/// 0: no emergency, 1: general emergency, 2: lifeguard/medical, 3: minimum
/// fuel, 4: no communications, 5: unlawful interference, 6: downed aircraft.
#[derive(Clone, Copy, Debug, PartialEq, Eq, PartialOrd, Ord, Hash, Default)]
pub struct EmergencyPriorityStatus(pub u8);

impl EmergencyPriorityStatus {
    /// Wraps a raw value without checking that it fits into 3 bits.
    pub fn from_u8_unchecked(byte: u8) -> (r: Self)
        ensures
            r == Self(byte),
    {
        Self(byte)
    }

    /// Wraps a raw value if it fits into 3 bits.
    pub fn from_u8(byte: u8) -> (r: Option<Self>)
        ensures
            r == (if byte < 8 { Some(Self(byte)) } else { None }),
    {
        proof {
            lemma_u8_masks(byte);
        }
        if byte & 0b11111000 == 0 {
            Some(Self(byte))
        } else {
            None
        }
    }

    /// The raw value.
    pub fn as_u8(&self) -> (r: u8)
        ensures
            r == self.0,
    {
        self.0
    }
}

/// 14-bit active resolution advisories.
#[derive(Clone, Copy, Debug, PartialEq, Eq, PartialOrd, Ord, Hash)]
pub struct ActiveResolutionAdvisories(pub u16);

impl ActiveResolutionAdvisories {
    /// Wraps a raw value without checking that it fits into 14 bits.
    pub fn from_u16_unchecked(word: u16) -> (r: Self)
        ensures
            r == Self(word),
    {
        Self(word)
    }

    /// Wraps a raw value if it fits into 14 bits.
    pub fn from_u16(word: u16) -> (r: Option<Self>)
        ensures
            r == (if word < 0x4000 { Some(Self(word)) } else { None }),
    {
        proof {
            lemma_u16_masks(word);
        }
        if word & 0b1100000000000000 == 0 {
            Some(Self(word))
        } else {
            None
        }
    }

    /// The raw value.
    pub fn as_u16(&self) -> (r: u16)
        ensures
            r == self.0,
    {
        self.0
    }
}

/// 4-bit record of resolution advisory complements received.
#[derive(Clone, Copy, Debug, PartialEq, Eq, PartialOrd, Ord, Hash)]
pub struct RacsRecord(pub u8);

impl RacsRecord {
    /// Wraps a raw value without checking that it fits into 4 bits.
    pub fn from_u8_unchecked(byte: u8) -> (r: Self)
        ensures
            r == Self(byte),
    {
        Self(byte)
    }

    /// Wraps a raw value if it fits into 4 bits.
    pub fn from_u8(byte: u8) -> (r: Option<Self>)
        ensures
            r == (if byte < 16 { Some(Self(byte)) } else { None }),
    {
        proof {
            lemma_u8_masks(byte);
        }
        if byte & 0b11110000 == 0 {
            Some(Self(byte))
        } else {
            None
        }
    }

    /// The raw value.
    pub fn as_u8(&self) -> (r: u8)
        ensures
            r == self.0,
    {
        self.0
    }
}

/// 2-bit threat type indicator.
#[derive(Clone, Copy, Debug, PartialEq, Eq, PartialOrd, Ord, Hash)]
pub struct ThreatTypeIndicator(pub u8);

impl ThreatTypeIndicator {
    /// Wraps a raw value without checking that it fits into 2 bits.
    pub fn from_u8_unchecked(byte: u8) -> (r: Self)
        ensures
            r == Self(byte),
    {
        Self(byte)
    }

    /// Wraps a raw value if it fits into 2 bits.
    pub fn from_u8(byte: u8) -> (r: Option<Self>)
        ensures
            r == (if byte < 4 { Some(Self(byte)) } else { None }),
    {
        proof {
            lemma_u8_masks(byte);
        }
        if byte & 0b11111100 == 0 {
            Some(Self(byte))
        } else {
            None
        }
    }

    /// The raw value.
    pub fn as_u8(&self) -> (r: u8)
        ensures
            r == self.0,
    {
        self.0
    }
}

/// 26-bit threat identity data.
#[derive(Clone, Copy, Debug, PartialEq, Eq, PartialOrd, Ord, Hash)]
pub struct ThreatIdentityData(pub u32);

impl ThreatIdentityData {
    /// Wraps a raw value without checking that it fits into 26 bits.
    pub fn from_u32_unchecked(word: u32) -> (r: Self)
        ensures
            r == Self(word),
    {
        Self(word)
    }

    /// Wraps a raw value if it fits into 26 bits.
    pub fn from_u32(word: u32) -> (r: Option<Self>)
        ensures
            r == (if word < 0x400_0000 { Some(Self(word)) } else { None }),
    {
        proof {
            lemma_u32_masks(word);
        }
        if word & 0xfc000000 == 0 {
            Some(Self(word))
        } else {
            None
        }
    }

    /// The raw value.
    pub fn as_u32(&self) -> (r: u32)
        ensures
            r == self.0,
    {
        self.0
    }
}

/// 2-bit system design assurance.
///
/// 0: none, 1: level D, 2: level C, 3: level B.
#[derive(Clone, Copy, Debug, PartialEq, Eq, PartialOrd, Ord, Hash)]
pub struct SystemDesignAssurance(pub u8);

impl SystemDesignAssurance {
    /// Wraps a raw value without checking that it fits into 2 bits.
    pub fn from_u8_unchecked(byte: u8) -> (r: Self)
        ensures
            r == Self(byte),
    {
        Self(byte)
    }

    /// Wraps a raw value if it fits into 2 bits.
    pub fn from_u8(byte: u8) -> (r: Option<Self>)
        ensures
            r == (if byte < 4 { Some(Self(byte)) } else { None }),
    {
        proof {
            lemma_u8_masks(byte);
        }
        if byte & 0b11111100 == 0 {
            Some(Self(byte))
        } else {
            None
        }
    }

    /// The raw value.
    pub fn as_u8(&self) -> (r: u8)
        ensures
            r == self.0,
    {
        self.0
    }
}

/// 3 bit ADS-B version
#[derive(Clone, Copy, Debug, PartialEq, Eq, PartialOrd, Ord, Hash, Default)]
pub struct MopsVersion(pub u8);

impl MopsVersion {
    /// Wraps a raw value without checking that it fits into 3 bits.
    pub fn from_u8_unchecked(byte: u8) -> (r: Self)
        ensures
            r == Self(byte),
    {
        Self(byte)
    }

    /// Wraps a raw value if it fits into 3 bits.
    pub fn from_u8(byte: u8) -> (r: Option<Self>)
        ensures
            r == (if byte < 8 { Some(Self(byte)) } else { None }),
    {
        proof {
            lemma_u8_masks(byte);
        }
        if byte & 0b11111000 == 0 {
            Some(Self(byte))
        } else {
            None
        }
    }

    /// The raw value.
    pub fn as_u8(&self) -> (r: u8)
        ensures
            r == self.0,
    {
        self.0
    }
}

/// Navigation Accuracy Category for Position
///
/// 0: unknown, 1: RNP-10, 2: RNP-4, 3: RNP-2, 4: RNP-1, 5: RNP-0.5,
/// 6: RNP-0.3, 7: RNP-0.1, 8: GPS (SA on), 9: GPS (SA off), 10: GPS (WAAS),
/// 11: GPS (LAAS).
#[derive(Clone, Copy, Debug, PartialEq, Eq, PartialOrd, Ord, Hash, Default)]
pub struct NacP(pub u8);

impl NacP {
    /// Wraps a raw value without checking that it fits into 4 bits.
    pub fn from_u8_unchecked(byte: u8) -> (r: Self)
        ensures
            r == Self(byte),
    {
        Self(byte)
    }

    /// Wraps a raw value if it fits into 4 bits.
    pub fn from_u8(byte: u8) -> (r: Option<Self>)
        ensures
            r == (if byte < 16 { Some(Self(byte)) } else { None }),
    {
        proof {
            lemma_u8_masks(byte);
        }
        if byte & 0b11110000 == 0 {
            Some(Self(byte))
        } else {
            None
        }
    }

    /// The raw value.
    pub fn as_u8(&self) -> (r: u8)
        ensures
            r == self.0,
    {
        self.0
    }
}

/// Navigation Accuracy Category for Velocity
#[derive(Clone, Copy, Debug, PartialEq, Eq, PartialOrd, Ord, Hash, Default)]
pub struct NacV(pub u8);

impl NacV {
    /// Wraps a raw value without checking that it fits into 3 bits.
    pub fn from_u8_unchecked(byte: u8) -> (r: Self)
        ensures
            r == Self(byte),
    {
        Self(byte)
    }

    /// Wraps a raw value if it fits into 3 bits.
    pub fn from_u8(byte: u8) -> (r: Option<Self>)
        ensures
            r == (if byte < 8 { Some(Self(byte)) } else { None }),
    {
        proof {
            lemma_u8_masks(byte);
        }
        if byte & 0b11111000 == 0 {
            Some(Self(byte))
        } else {
            None
        }
    }

    /// The raw value.
    pub fn as_u8(&self) -> (r: u8)
        ensures
            r == self.0,
    {
        self.0
    }
}

/// Geometric Vertical Accuracy
///
/// 2.2.3.2.7.2.8 page 130
#[derive(Clone, Copy, Debug, PartialEq, Eq, PartialOrd, Ord, Hash)]
pub struct Gva(pub u8);

impl Gva {
    /// Wraps a raw value without checking that it fits into 2 bits.
    pub fn from_u8_unchecked(byte: u8) -> (r: Self)
        ensures
            r == Self(byte),
    {
        Self(byte)
    }

    /// Wraps a raw value if it fits into 2 bits.
    pub fn from_u8(byte: u8) -> (r: Option<Self>)
        ensures
            r == (if byte < 4 { Some(Self(byte)) } else { None }),
    {
        proof {
            lemma_u8_masks(byte);
        }
        if byte & 0b11111100 == 0 {
            Some(Self(byte))
        } else {
            None
        }
    }

    /// The raw value.
    pub fn as_u8(&self) -> (r: u8)
        ensures
            r == self.0,
    {
        self.0
    }
}

/// Source Integrity Supplement
///
/// 2.2.3.2.7.2.9 page 131
#[derive(Clone, Copy, Debug, PartialEq, Eq, PartialOrd, Ord, Hash, Default)]
pub struct Sil(pub u8);

impl Sil {
    /// Wraps a raw value without checking that it fits into 2 bits.
    pub fn from_u8_unchecked(byte: u8) -> (r: Self)
        ensures
            r == Self(byte),
    {
        Self(byte)
    }

    /// Wraps a raw value if it fits into 2 bits.
    pub fn from_u8(byte: u8) -> (r: Option<Self>)
        ensures
            r == (if byte < 4 { Some(Self(byte)) } else { None }),
    {
        proof {
            lemma_u8_masks(byte);
        }
        if byte & 0b11111100 == 0 {
            Some(Self(byte))
        } else {
            None
        }
    }

    /// The raw value.
    pub fn as_u8(&self) -> (r: u8)
        ensures
            r == self.0,
    {
        self.0
    }
}

/// Aircraft/Vehicle Length and Width Code
///
/// 2.2.3.2.7.2.11 page 133
#[derive(Clone, Copy, Debug, PartialEq, Eq, PartialOrd, Ord, Hash, Default)]
pub struct LwCode(pub u8);

impl LwCode {
    /// Wraps a raw value without checking that it fits into 4 bits.
    pub fn from_u8_unchecked(byte: u8) -> (r: Self)
        ensures
            r == Self(byte),
    {
        Self(byte)
    }

    /// Wraps a raw value if it fits into 4 bits.
    pub fn from_u8(byte: u8) -> (r: Option<Self>)
        ensures
            r == (if byte < 16 { Some(Self(byte)) } else { None }),
    {
        proof {
            lemma_u8_masks(byte);
        }
        if byte & 0b11110000 == 0 {
            Some(Self(byte))
        } else {
            None
        }
    }

    /// The raw value.
    pub fn as_u8(&self) -> (r: u8)
        ensures
            r == self.0,
    {
        self.0
    }
}

/// 7-bit surface movement (ground speed) code.
#[derive(Clone, Copy, Debug, PartialEq, Eq, PartialOrd, Ord, Hash)]
pub struct Movement(pub u8);

impl Movement {
    /// Wraps a raw value without checking that it fits into 7 bits.
    pub fn from_u8_unchecked(byte: u8) -> (r: Self)
        ensures
            r == Self(byte),
    {
        Self(byte)
    }

    /// Wraps a raw value if it fits into 7 bits.
    pub fn from_u8(byte: u8) -> (r: Option<Self>)
        ensures
            r == (if byte < 128 { Some(Self(byte)) } else { None }),
    {
        proof {
            lemma_u8_masks(byte);
        }
        if byte & 0b10000000 == 0 {
            Some(Self(byte))
        } else {
            None
        }
    }

    /// The raw value.
    pub fn as_u8(&self) -> (r: u8)
        ensures
            r == self.0,
    {
        self.0
    }
}

/// 7-bit surface ground track, in 1/128 of a full circle.
#[derive(Clone, Copy, Debug, PartialEq, Eq, PartialOrd, Ord, Hash)]
pub struct GroundTrack(pub u8);

impl GroundTrack {
    /// Wraps a raw value without checking that it fits into 7 bits.
    pub fn from_u8_unchecked(byte: u8) -> (r: Self)
        ensures
            r == Self(byte),
    {
        Self(byte)
    }

    /// Wraps a raw value if it fits into 7 bits.
    pub fn from_u8(byte: u8) -> (r: Option<Self>)
        ensures
            r == (if byte < 128 { Some(Self(byte)) } else { None }),
    {
        proof {
            lemma_u8_masks(byte);
        }
        if byte & 0b10000000 == 0 {
            Some(Self(byte))
        } else {
            None
        }
    }

    /// The raw value.
    pub fn as_u8(&self) -> (r: u8)
        ensures
            r == self.0,
    {
        self.0
    }
}

/// 2-bit surveillance status.
///
/// 0: no condition, 1: permanent alert, 2: temporary alert, 3: SPI condition.
#[derive(Clone, Copy, Debug, PartialEq, Eq, PartialOrd, Ord, Hash)]
pub struct SurveillanceStatus(pub u8);

impl SurveillanceStatus {
    /// Wraps a raw value without checking that it fits into 2 bits.
    pub fn from_u8_unchecked(byte: u8) -> (r: Self)
        ensures
            r == Self(byte),
    {
        Self(byte)
    }

    /// Wraps a raw value if it fits into 2 bits.
    pub fn from_u8(byte: u8) -> (r: Option<Self>)
        ensures
            r == (if byte < 4 { Some(Self(byte)) } else { None }),
    {
        proof {
            lemma_u8_masks(byte);
        }
        if byte & 0b11111100 == 0 {
            Some(Self(byte))
        } else {
            None
        }
    }

    /// The raw value.
    pub fn as_u8(&self) -> (r: u8)
        ensures
            r == self.0,
    {
        self.0
    }
}

/// 12-bit altitude code
///
/// 2.2.3.2.3.4.3 page 58
#[derive(Clone, Copy, Debug, PartialEq, Eq, PartialOrd, Ord, Hash)]
pub struct AltitudeCode(pub u16);

impl AltitudeCode {
    /// Wraps a raw value without checking that it fits into 12 bits.
    pub fn from_u16_unchecked(word: u16) -> (r: Self)
        ensures
            r == Self(word),
    {
        Self(word)
    }

    /// Wraps a raw value if it fits into 12 bits and is not zero.
    pub fn from_u16(word: u16) -> (r: Option<Self>)
        ensures
            r == (if word < 0x1000 && word != 0 { Some(Self(word)) } else { None }),
    {
        proof {
            lemma_u16_masks(word);
        }
        if word & 0b1111000000000000 == 0 && word != 0 {
            Some(Self(word))
        } else {
            None
        }
    }

    /// The raw value.
    pub fn as_u16(&self) -> (r: u16)
        ensures
            r == self.0,
    {
        self.0
    }
}

/// A 10-bit velocity value.
///
/// This is used for east-west and north-south ground speed in [`GroundSpeed`]
/// and for the airspeed in [`Airspeed`]
#[derive(Clone, Copy, Debug, PartialEq, Eq, PartialOrd, Ord, Hash)]
pub struct Velocity(pub u16);

impl Velocity {
    /// Wraps a raw value without checking that it fits into 10 bits.
    pub fn from_u16_unchecked(word: u16) -> (r: Self)
        ensures
            r == Self(word),
    {
        Self(word)
    }

    /// Wraps a raw value if it fits into 10 bits and is not zero.
    pub fn from_u16(word: u16) -> (r: Option<Self>)
        ensures
            r == (if word < 0x400 && word != 0 { Some(Self(word)) } else { None }),
    {
        proof {
            lemma_u16_masks(word);
        }
        if word & 0b1111110000000000 == 0 && word != 0 {
            Some(Self(word))
        } else {
            None
        }
    }

    /// The raw value.
    pub fn as_u16(&self) -> (r: u16)
        ensures
            r == self.0,
    {
        self.0
    }
}

/// 10-bit magnetic heading, in 360/1024 of a degree clockwise from magnetic
/// north.
#[derive(Clone, Copy, Debug, PartialEq, Eq, PartialOrd, Ord, Hash)]
pub struct MagneticHeading(pub u16);

impl MagneticHeading {
    /// Wraps a raw value without checking that it fits into 10 bits.
    pub fn from_u16_unchecked(word: u16) -> (r: Self)
        ensures
            r == Self(word),
    {
        Self(word)
    }

    /// Wraps a raw value if it fits into 10 bits.
    pub fn from_u16(word: u16) -> (r: Option<Self>)
        ensures
            r == (if word < 0x400 { Some(Self(word)) } else { None }),
    {
        proof {
            lemma_u16_masks(word);
        }
        if word & 0b1111110000000000 == 0 {
            Some(Self(word))
        } else {
            None
        }
    }

    /// The raw value.
    pub fn as_u16(&self) -> (r: u16)
        ensures
            r == self.0,
    {
        self.0
    }
}

/// 9 bit vertical rate without sign
#[derive(Clone, Copy, Debug, PartialEq, Eq, PartialOrd, Ord, Hash)]
pub struct VerticalRateValue(pub u16);

impl VerticalRateValue {
    /// Wraps a raw value without checking that it fits into 9 bits.
    pub fn from_u16_unchecked(word: u16) -> (r: Self)
        ensures
            r == Self(word),
    {
        Self(word)
    }

    /// Wraps a raw value if it fits into 9 bits and is not zero.
    pub fn from_u16(word: u16) -> (r: Option<Self>)
        ensures
            r == (if word < 0x200 && word != 0 { Some(Self(word)) } else { None }),
    {
        proof {
            lemma_u16_masks(word);
        }
        if word & 0b1111111000000000 == 0 && word != 0 {
            Some(Self(word))
        } else {
            None
        }
    }

    /// The raw value.
    pub fn as_u16(&self) -> (r: u16)
        ensures
            r == self.0,
    {
        self.0
    }
}

/// 7-bit difference between GNSS and barometric altitude.
#[derive(Clone, Copy, Debug, PartialEq, Eq, PartialOrd, Ord, Hash)]
pub struct AltitudeDifferenceValue(pub u8);

impl AltitudeDifferenceValue {
    /// Wraps a raw value without checking that it fits into 7 bits.
    pub fn from_u8_unchecked(byte: u8) -> (r: Self)
        ensures
            r == Self(byte),
    {
        Self(byte)
    }

    /// Wraps a raw value if it fits into 7 bits and is not zero.
    pub fn from_u8(byte: u8) -> (r: Option<Self>)
        ensures
            r == (if byte < 128 && byte != 0 { Some(Self(byte)) } else { None }),
    {
        proof {
            lemma_u8_masks(byte);
        }
        if byte & 0b10000000 == 0 && byte != 0 {
            Some(Self(byte))
        } else {
            None
        }
    }

    /// The raw value.
    pub fn as_u8(&self) -> (r: u8)
        ensures
            r == self.0,
    {
        self.0
    }
}

/// 2-bit turn indicator (deprecated).
#[derive(Clone, Copy, Debug, PartialEq, Eq, PartialOrd, Ord, Hash)]
pub struct TurnIndicator(pub u8);

impl TurnIndicator {
    /// Wraps a raw value without checking that it fits into 3 bits.
    pub fn from_u8_unchecked(byte: u8) -> (r: Self)
        ensures
            r == Self(byte),
    {
        Self(byte)
    }

    /// Wraps a raw value if it fits into 3 bits and is not zero.
    pub fn from_u8(byte: u8) -> (r: Option<Self>)
        ensures
            r == (if byte < 8 && byte != 0 { Some(Self(byte)) } else { None }),
    {
        proof {
            lemma_u8_masks(byte);
        }
        if byte & 0b11111000 == 0 && byte != 0 {
            Some(Self(byte))
        } else {
            None
        }
    }

    /// The raw value.
    pub fn as_u8(&self) -> (r: u8)
        ensures
            r == self.0,
    {
        self.0
    }
}

#[derive(Clone, Copy, Debug, PartialEq, Eq)]
pub struct AirborneVelocity {
    pub supersonic: bool,
    pub intent_change_flag: bool,
    /// deprecated
    pub ifr_capability_flag: bool,
    pub nac_v: NacV,
    pub velocity_type: VelocityType,
    pub vertical_rate: VerticalRate,
    /// deprecated
    pub turn_indicator: TurnIndicator,
    pub altitude_difference: AltitudeDifference,
}

/// A velocity field: absent when zero.
pub open spec fn spec_velocity(v: u16) -> Option<Velocity> {
    if v != 0 {
        Some(Velocity(v))
    } else {
        None
    }
}

impl AirborneVelocity {
    /// ```plain
    /// byte               0        1        2        3        4        5
    /// bit         01234567 01234567 01234567 01234567 01234567 01234567
    /// field       abcccdee eeeeeeee fggggggg ggghijjj jjjjjjkk lmmmmmmm
    /// ```
    ///
    /// `a`: intent change, `b`: IFR capability, `c`: NACv, `d`: east-west
    /// direction or heading status, `f`: north-south direction or airspeed
    /// type, `g`: north-south velocity or airspeed, `h`: vertical rate
    /// source, `i`: vertical rate sign, `j`: vertical rate, `k`: turn
    /// indicator, `l`: altitude difference sign, `m`: altitude difference.
    ///
    /// The value `e` (east-west velocity or heading) is read as the second
    /// byte, with the two highest bits of the first byte moved to bits 9 and
    /// 10.
    pub open spec fn spec_decode(body: [u8; 6], sub_type: u8) -> Self {
        let d = body[0] & 0b0000_0100 != 0;
        let e = (((body[0] & 0b1100_0000) as u16) << 3u16) | (body[1] as u16);
        let f = body[2] & 0b1000_0000 != 0;
        let g = (((body[2] & 0b0111_1111) as u16) << 3u16) | ((body[3] >> 5u8) as u16);
        let j = (((body[3] & 0b0000_0111) as u16) << 6u16) | ((body[4] >> 2u8) as u16);
        let m = body[5] & 0b0111_1111;
        AirborneVelocity {
            supersonic: sub_type == 3 || sub_type == 4,
            intent_change_flag: body[0] & 0b1000_0000 != 0,
            ifr_capability_flag: body[0] & 0b0100_0000 != 0,
            nac_v: NacV((body[0] & 0b0011_1000) >> 3u8),
            velocity_type: if sub_type == 1 || sub_type == 2 {
                VelocityType::GroundSpeed(
                    GroundSpeed {
                        direction_east_west: if d {
                            DirectionEastWest::EastToWest
                        } else {
                            DirectionEastWest::WestToEast
                        },
                        velocity_east_west: spec_velocity(e),
                        direction_north_south: if f {
                            DirectionNorthSouth::NorthToSouth
                        } else {
                            DirectionNorthSouth::SouthToNorth
                        },
                        velocity_north_south: spec_velocity(g),
                    },
                )
            } else {
                VelocityType::Airspeed(
                    Airspeed {
                        magnetic_heading: if d {
                            Some(MagneticHeading(e))
                        } else {
                            None
                        },
                        airspeed_type: if f {
                            AirspeedType::True
                        } else {
                            AirspeedType::Indicated
                        },
                        airspeed_value: spec_velocity(g),
                    },
                )
            },
            vertical_rate: VerticalRate {
                source: if body[3] & 0b0001_0000 != 0 {
                    VerticalRateSource::Barometric
                } else {
                    VerticalRateSource::Gnss
                },
                sign: if body[3] & 0b0000_1000 != 0 {
                    VerticalRateSign::Down
                } else {
                    VerticalRateSign::Up
                },
                value: if j != 0 {
                    Some(VerticalRateValue(j))
                } else {
                    None
                },
            },
            turn_indicator: TurnIndicator(body[4] & 0b0000_0011),
            altitude_difference: AltitudeDifference {
                sign: if body[5] & 0b1000_0000 != 0 {
                    AltitudeDifferenceSign::GnssBelowBarometric
                } else {
                    AltitudeDifferenceSign::GnssAboveBarometric
                },
                value: if m != 0 {
                    Some(AltitudeDifferenceValue(m))
                } else {
                    None
                },
            },
        }
    }

    /// Sub types 1 and 2 carry ground speed, 3 and 4 airspeed (3 and 4 are
    /// supersonic).
    pub fn decode(buffer: [u8; 6], bits_6_to_8: u8) -> (r: Self)
        requires
            1 <= bits_6_to_8 <= 4,
        ensures
            r == Self::spec_decode(buffer, bits_6_to_8),
    {
        let sub_type = bits_6_to_8;
        let supersonic = sub_type == 3 || sub_type == 4;
        let bytes = buffer;

        let a = bytes[0] & 0b1000_0000 != 0;
        let b = bytes[0] & 0b0100_0000 != 0;
        let c = (bytes[0] & 0b0011_1000) >> 3u8;
        let d = bytes[0] & 0b0000_0100 != 0;
        let e = (((bytes[0] & 0b1100_0000) as u16) << 3u16) | (bytes[1] as u16);
        let f = bytes[2] & 0b1000_0000 != 0;
        let g = (((bytes[2] & 0b0111_1111) as u16) << 3u16) | ((bytes[3] >> 5u8) as u16);
        let h = bytes[3] & 0b0001_0000 != 0;
        let i = bytes[3] & 0b0000_1000 != 0;
        let j = (((bytes[3] & 0b0000_0111) as u16) << 6u16) | ((bytes[4] >> 2u8) as u16);
        let k = bytes[4] & 0b0000_0011;
        let l = bytes[5] & 0b1000_0000 != 0;
        let m = bytes[5] & 0b0111_1111;

        let velocity_type = if sub_type == 1 || sub_type == 2 {
            // ground speed
            VelocityType::GroundSpeed(
                GroundSpeed {
                    direction_east_west: if d {
                        DirectionEastWest::EastToWest
                    } else {
                        DirectionEastWest::WestToEast
                    },
                    velocity_east_west: if e != 0 {
                        Some(Velocity(e))
                    } else {
                        None
                    },
                    direction_north_south: if f {
                        DirectionNorthSouth::NorthToSouth
                    } else {
                        DirectionNorthSouth::SouthToNorth
                    },
                    velocity_north_south: if g != 0 {
                        Some(Velocity(g))
                    } else {
                        None
                    },
                },
            )
        } else {
            // airspeed
            VelocityType::Airspeed(
                Airspeed {
                    magnetic_heading: if d {
                        Some(MagneticHeading(e))
                    } else {
                        None
                    },
                    airspeed_type: if f {
                        AirspeedType::True
                    } else {
                        AirspeedType::Indicated
                    },
                    airspeed_value: if g != 0 {
                        Some(Velocity(g))
                    } else {
                        None
                    },
                },
            )
        };

        Self {
            supersonic,
            intent_change_flag: a,
            ifr_capability_flag: b,
            nac_v: NacV(c),
            velocity_type,
            vertical_rate: VerticalRate {
                source: if h {
                    VerticalRateSource::Barometric
                } else {
                    VerticalRateSource::Gnss
                },
                sign: if i {
                    VerticalRateSign::Down
                } else {
                    VerticalRateSign::Up
                },
                value: if j != 0 {
                    Some(VerticalRateValue(j))
                } else {
                    None
                },
            },
            turn_indicator: TurnIndicator(k),
            altitude_difference: AltitudeDifference {
                sign: if l {
                    AltitudeDifferenceSign::GnssBelowBarometric
                } else {
                    AltitudeDifferenceSign::GnssAboveBarometric
                },
                value: if m != 0 {
                    Some(AltitudeDifferenceValue(m))
                } else {
                    None
                },
            },
        }
    }
}

#[derive(Clone, Copy, Debug, PartialEq, Eq)]
pub enum AircraftStatus {
    EmergencyPriorityStatusAndModeACode(EmergencyPriorityStatusAndModeACode),
    TcasResolutionAdvisoryBroadcast(TcasResolutionAdvisoryBroadcast),
    Reserved { sub_type: u8, data: [u8; 6] },
}

impl AircraftStatus {
    /// Sub type 1: emergency/priority status and Mode A code, sub type 2:
    /// TCAS resolution advisory broadcast, others: reserved.
    pub open spec fn spec_decode(body: [u8; 6], sub_type: u8) -> Self {
        if sub_type == 1 {
            AircraftStatus::EmergencyPriorityStatusAndModeACode(
                EmergencyPriorityStatusAndModeACode::spec_decode(body),
            )
        } else if sub_type == 2 {
            AircraftStatus::TcasResolutionAdvisoryBroadcast(
                TcasResolutionAdvisoryBroadcast::spec_decode(body),
            )
        } else {
            AircraftStatus::Reserved { sub_type, data: body }
        }
    }

    pub fn decode(buffer: [u8; 6], bits_6_to_8: u8) -> (r: Self)
        ensures
            r == Self::spec_decode(buffer, bits_6_to_8),
    {
        let sub_type = bits_6_to_8;
        if sub_type == 1 {
            Self::EmergencyPriorityStatusAndModeACode(
                EmergencyPriorityStatusAndModeACode::decode(buffer),
            )
        } else if sub_type == 2 {
            Self::TcasResolutionAdvisoryBroadcast(TcasResolutionAdvisoryBroadcast::decode(buffer))
        } else {
            Self::Reserved { sub_type, data: buffer }
        }
    }
}

#[derive(Clone, Copy, Debug, PartialEq, Eq)]
pub struct EmergencyPriorityStatusAndModeACode {
    pub emergency_priority_status: EmergencyPriorityStatus,
    pub mode_a_code: Squawk,
    pub reserved: u32,
}

impl EmergencyPriorityStatusAndModeACode {
    /// ```plain
    /// byte         0        1
    /// bit   01234567 01234567
    /// field aaabbbbb bbbbbbbb
    /// ```
    ///
    /// `a`: emergency/priority status, `b`: Mode A code (Gillham coded);
    /// the remaining 4 bytes are read as one big-endian reserved word.
    pub open spec fn spec_decode(body: [u8; 6]) -> Self {
        EmergencyPriorityStatusAndModeACode {
            emergency_priority_status: EmergencyPriorityStatus(body[0] >> 5u8),
            mode_a_code: Squawk {
                code: spec_decode_gillham_id13(spec_frame_aligned_code(body[0], body[1])),
            },
            reserved: be32(body[2], body[3], body[4], body[5]),
        }
    }

    pub fn decode(buffer: [u8; 6]) -> (r: Self)
        ensures
            r == Self::spec_decode(buffer),
    {
        let code = decode_frame_aligned_altitude_or_identity_code(&buffer[0..2]);
        EmergencyPriorityStatusAndModeACode {
            emergency_priority_status: EmergencyPriorityStatus(buffer[0] >> 5u8),
            mode_a_code: Squawk::from_u16_unchecked(decode_gillham_id13(code)),
            reserved: ((buffer[2] as u32) << 24u32) | ((buffer[3] as u32) << 16u32) | ((
            buffer[4] as u32) << 8u32) | (buffer[5] as u32),
        }
    }

    /// The status message for a squawk: the emergency that the squawk
    /// announces (or none), and no reserved bits.
    pub fn from_squawk(squawk: Squawk) -> (r: Self)
        ensures
            r == (EmergencyPriorityStatusAndModeACode {
                emergency_priority_status: match EmergencyPriorityStatus::spec_from_squawk(squawk) {
                    Some(s) => s,
                    None => EmergencyPriorityStatus(0),
                },
                mode_a_code: squawk,
                reserved: 0,
            }),
    {
        Self {
            emergency_priority_status: match EmergencyPriorityStatus::from_squawk(squawk) {
                Some(s) => s,
                None => EmergencyPriorityStatus(0),
            },
            mode_a_code: squawk,
            reserved: 0,
        }
    }
}

impl EmergencyPriorityStatus {
    /// Whether the status is anything but "no emergency".
    pub fn is_emergency(&self) -> (r: bool)
        ensures
            r == (self.0 != 0),
    {
        self.0 != 0
    }

    /// The status that shall be set for a Mode A code: 7500 is unlawful
    /// interference, 7600 no communications, 7700 general emergency.
    ///
    /// See 2.2.3.2.7.8.1.1 (page 138)
    pub open spec fn spec_from_squawk(squawk: Squawk) -> Option<Self> {
        if squawk.code == 0o7500 {
            Some(EmergencyPriorityStatus(5))
        } else if squawk.code == 0o7600 {
            Some(EmergencyPriorityStatus(4))
        } else if squawk.code == 0o7700 {
            Some(EmergencyPriorityStatus(1))
        } else {
            None
        }
    }

    /// Returns the emergency priority status that shall be set for a given Mode
    /// A code (squawk).
    pub fn from_squawk(squawk: Squawk) -> (r: Option<Self>)
        ensures
            r == Self::spec_from_squawk(squawk),
    {
        if squawk.code == 0o7500 {
            Some(EmergencyPriorityStatus(5))
        } else if squawk.code == 0o7600 {
            Some(EmergencyPriorityStatus(4))
        } else if squawk.code == 0o7700 {
            Some(EmergencyPriorityStatus(1))
        } else {
            None
        }
    }
}

/// 2.2.3.2.7.8.2
#[derive(Clone, Copy, Debug, PartialEq, Eq)]
pub struct TcasResolutionAdvisoryBroadcast {
    pub active_resolution_advisories: ActiveResolutionAdvisories,
    pub racs_record: RacsRecord,
    pub ra_terminated: bool,
    pub multiple_thread_encounter: bool,
    pub threat_type_indicator: ThreatTypeIndicator,
    pub threat_identity_data: ThreatIdentityData,
}

impl TcasResolutionAdvisoryBroadcast {
    /// ```plain
    /// byte         0        1        2        3        4        5
    /// bit   01234567 01234567 01234567 01234567 01234567 01234567
    /// field aaaaaaaa aaaaaabb bbcdeeff ffffffff ffffffff ffffffff
    /// ```
    ///
    /// `b` is read as the second byte shifted left by two (within a byte)
    /// joined with the two highest bits of the third byte.
    pub open spec fn spec_decode(body: [u8; 6]) -> Self {
        TcasResolutionAdvisoryBroadcast {
            active_resolution_advisories: ActiveResolutionAdvisories(
                ((body[0] as u16) << 6u16) | ((body[1] >> 2u8) as u16),
            ),
            racs_record: RacsRecord((body[1] << 2u8) | (body[2] >> 6u8)),
            ra_terminated: body[2] & 0b0010_0000 != 0,
            multiple_thread_encounter: body[2] & 0b0001_0000 != 0,
            threat_type_indicator: ThreatTypeIndicator((body[2] & 0b0000_1100) >> 2u8),
            threat_identity_data: ThreatIdentityData(
                ((body[2] & 0b11) as u32) << 24u32 | ((body[3] as u32) << 16u32) | ((body[4] as u32)
                    << 8u32) | (body[5] as u32),
            ),
        }
    }

    pub fn decode(buffer: [u8; 6]) -> (r: Self)
        ensures
            r == Self::spec_decode(buffer),
    {
        let bytes = buffer;
        let a = ((bytes[0] as u16) << 6u16) | ((bytes[1] >> 2u8) as u16);
        let b = (bytes[1] << 2u8) | (bytes[2] >> 6u8);
        let c = bytes[2] & 0b00100000 != 0;
        let d = bytes[2] & 0b00010000 != 0;
        let e = (bytes[2] & 0b00001100) >> 2u8;
        let f = ((bytes[2] & 0b11) as u32) << 24u32 | ((bytes[3] as u32) << 16u32) | ((
        bytes[4] as u32) << 8u32) | (bytes[5] as u32);

        Self {
            active_resolution_advisories: ActiveResolutionAdvisories(a),
            racs_record: RacsRecord(b),
            ra_terminated: c,
            multiple_thread_encounter: d,
            threat_type_indicator: ThreatTypeIndicator(e),
            threat_identity_data: ThreatIdentityData(f),
        }
    }
}

#[derive(Clone, Copy, Debug, PartialEq, Eq)]
pub struct TargetStateAndStatusInformation {
    pub sil_supplement: SilSupplement,
    pub selected_altitude_type: SelectedAltitudeType,
    /// The remaining fields are not decoded.
    pub todo: (),
}

impl TargetStateAndStatusInformation {
    /// Page 106: the SIL supplement comes from the last sub type bit, the
    /// selected altitude type from bit 1 of the first body byte.
    pub open spec fn spec_decode(body: [u8; 6], bit_8: bool) -> Self {
        TargetStateAndStatusInformation {
            sil_supplement: SilSupplement::spec_from_bit(bit_8),
            selected_altitude_type: if body[0] & 0b0100_0000 == 0 {
                SelectedAltitudeType::Fms
            } else {
                SelectedAltitudeType::McpFcu
            },
            todo: (),
        }
    }

    pub fn decode(buffer: [u8; 6], bit_8: bool) -> (r: Self)
        ensures
            r == Self::spec_decode(buffer, bit_8),
    {
        let sil_supplement = SilSupplement::from_bit(bit_8);
        let selected_altitude_type = if buffer[0] & 0b1000000 == 0 {
            SelectedAltitudeType::Fms
        } else {
            SelectedAltitudeType::McpFcu
        };
        Self { sil_supplement, selected_altitude_type, todo: () }
    }
}

/// Probability of exceeding NIC radius of containment is based on
#[derive(Clone, Copy, Debug, PartialEq, Eq, PartialOrd, Ord, Hash)]
pub enum SilSupplement {
    PerHour,
    PerSample,
}

impl SilSupplement {
    pub open spec fn spec_from_bit(bit: bool) -> Self {
        if bit {
            SilSupplement::PerSample
        } else {
            SilSupplement::PerHour
        }
    }

    pub fn from_bit(bit: bool) -> (r: Self)
        ensures
            r == Self::spec_from_bit(bit),
    {
        if bit {
            Self::PerSample
        } else {
            Self::PerHour
        }
    }
}

#[derive(Clone, Copy, Debug, PartialEq, Eq, PartialOrd, Ord, Hash)]
pub enum SelectedAltitudeType {
    McpFcu,
    Fms,
}

/// Aircraft Operational Status ADS-B Message
///
/// 2.2.3.2.7.2 page 116
#[derive(Clone, Copy, Debug, PartialEq, Eq)]
pub enum AircraftOperationalStatus {
    /// Airborne participants (sub type 0)
    Airborne {
        capability_class: Option<AirborneCapabilityClass>,
        operational_mode: AirborneOperationalMode,
        mops_version: MopsVersion,
        nic_supp_a: bool,
        nac_p: NacP,
        gva: Gva,
        sil: Sil,
        nic_baro: bool,
        hrd: bool,
        sil_supplement: SilSupplement,
        reserved_56: bool,
    },
    /// Surface participants (sub type 1)
    Surface {
        capability_class: Option<SurfaceCapabilityClass>,
        /// Aircraft/Vehicle Length and Width Code
        lw: LwCode,
        operational_mode: SurfaceOperationalMode,
        mops_version: MopsVersion,
        nic_supp_a: bool,
        nac_p: NacP,
        reserved: u8,
        sil: Sil,
        track_heading: bool,
        hrd: bool,
        sil_supplement: SilSupplement,
        reserved_56: bool,
    },
    Reserved { sub_type: u8, data: [u8; 6] },
}

impl AircraftOperationalStatus {
    /// ```plain
    /// byte         0        1        2        3        4        5
    /// bit   01234567 01234567 01234567 01234567 01234567 01234567
    /// field aaaaaaaa aaaaaaaa bbbbbbbb bbbbbbbb cccdeeee ffgghijk
    /// ```
    ///
    /// `a`: capability class (surface: its upper 12 bits, the lowest 4 bits
    /// are the length/width code), `b`: operational mode, `c`: MOPS version,
    /// `d`: NIC supplement A, `e`: NACp, `f`: GVA (surface: reserved), `g`:
    /// SIL, `h`: NIC baro (surface: track/heading), `i`: HRD, `j`: SIL
    /// supplement, `k`: reserved.
    pub open spec fn spec_decode(body: [u8; 6], sub_type: u8) -> Self {
        let a = crate::bits::be16(body[0], body[1]);
        let b = crate::bits::be16(body[2], body[3]);
        let mops_version = MopsVersion(body[4] >> 5u8);
        let nic_supp_a = body[4] & 0b0001_0000 != 0;
        let nac_p = NacP(body[4] & 0b0000_1111);
        let f = body[5] >> 6u8;
        let sil = Sil((body[5] & 0b0011_0000) >> 4u8);
        let h = body[5] & 0b0000_1000 != 0;
        let hrd = body[5] & 0b0000_0100 != 0;
        let sil_supplement = SilSupplement::spec_from_bit(body[5] & 0b0000_0010 != 0);
        let reserved_56 = body[5] & 0b0000_0001 != 0;
        if sub_type == 0 {
            AircraftOperationalStatus::Airborne {
                capability_class: AirborneCapabilityClass::spec_from_u16(a, mops_version),
                operational_mode: AirborneOperationalMode::spec_from_u16(b),
                mops_version,
                nic_supp_a,
                nac_p,
                gva: Gva(f),
                sil,
                nic_baro: h,
                hrd,
                sil_supplement,
                reserved_56,
            }
        } else if sub_type == 1 {
            AircraftOperationalStatus::Surface {
                capability_class: SurfaceCapabilityClass::spec_from_u16(a >> 4u16, mops_version),
                lw: LwCode((a & 0b1111) as u8),
                operational_mode: SurfaceOperationalMode::spec_from_u16(b),
                mops_version,
                nic_supp_a,
                nac_p,
                reserved: f,
                sil,
                track_heading: h,
                hrd,
                sil_supplement,
                reserved_56,
            }
        } else {
            AircraftOperationalStatus::Reserved { sub_type, data: body }
        }
    }

    pub fn decode(buffer: [u8; 6], bits_6_to_8: u8) -> (r: Self)
        ensures
            r == Self::spec_decode(buffer, bits_6_to_8),
    {
        let sub_type = bits_6_to_8;
        if sub_type == 0 || sub_type == 1 {
            let a = ((buffer[0] as u16) << 8u16) | (buffer[1] as u16);
            let b = ((buffer[2] as u16) << 8u16) | (buffer[3] as u16);

            let byte_4 = buffer[4];
            let mops_version = MopsVersion(byte_4 >> 5u8);
            let nic_supp_a = byte_4 & 0b00010000 != 0;
            let nac_p = NacP(byte_4 & 0b00001111);

            let byte_5 = buffer[5];
            let f = byte_5 >> 6u8;
            let sil = Sil((byte_5 & 0b00110000) >> 4u8);
            let h = byte_5 & 0b00001000 != 0;
            let hrd = byte_5 & 0b00000100 != 0;
            let sil_supplement = SilSupplement::from_bit(byte_5 & 0b00000010 != 0);
            let reserved_56 = byte_5 & 0b00000001 != 0;

            if sub_type == 0 {
                Self::Airborne {
                    capability_class: AirborneCapabilityClass::from_u16(a, mops_version),
                    operational_mode: AirborneOperationalMode::from_u16(b),
                    mops_version,
                    nic_supp_a,
                    nac_p,
                    gva: Gva(f),
                    sil,
                    nic_baro: h,
                    hrd,
                    sil_supplement,
                    reserved_56,
                }
            } else {
                assert((a >> 4u16) >> 6u16 <= 0xff) by (bit_vector);
                Self::Surface {
                    capability_class: SurfaceCapabilityClass::from_u16(a >> 4u16, mops_version),
                    lw: LwCode((a & 0b0000_1111) as u8),
                    operational_mode: SurfaceOperationalMode::from_u16(b),
                    mops_version,
                    nic_supp_a,
                    nac_p,
                    reserved: f,
                    sil,
                    track_heading: h,
                    hrd,
                    sil_supplement,
                    reserved_56,
                }
            }
        } else {
            Self::Reserved { sub_type, data: buffer }
        }
    }
}

#[derive(Clone, Copy, Debug, PartialEq, Eq, PartialOrd, Ord, Hash)]
pub enum AirborneCapabilityClass {
    Version0 { zero_9_10: u8, not_tcas: bool, cdti: bool, reserved_13_24: u16 },
    Version2 {
        reserved_9_10: u8,
        tcas_operational: bool,
        x1090es_in: bool,
        reserved_13_14: u8,
        arv: bool,
        ts: bool,
        tc: u8,
        uat_in: bool,
        reserved_20_24: u8,
    },
}

impl AirborneCapabilityClass {
    /// Version 0 and version 2 capability classes of a 16-bit word; other
    /// versions have none.
    pub open spec fn spec_from_u16(word: u16, mops_version: MopsVersion) -> Option<Self> {
        if mops_version.0 == 0 {
            Some(
                AirborneCapabilityClass::Version0 {
                    zero_9_10: (word >> 14u16) as u8,
                    not_tcas: word & 0b0010_0000_0000_0000 != 0,
                    cdti: word & 0b0001_0000_0000_0000 != 0,
                    reserved_13_24: word & 0b0000_1111_1111_1111,
                },
            )
        } else if mops_version.0 == 2 {
            Some(
                AirborneCapabilityClass::Version2 {
                    reserved_9_10: (word >> 14u16) as u8,
                    tcas_operational: word & 0b0010_0000_0000_0000 != 0,
                    x1090es_in: word & 0b0001_0000_0000_0000 != 0,
                    reserved_13_14: ((word & 0b0000_1100_0000_0000) >> 10u16) as u8,
                    arv: word & 0b0000_0010_0000_0000 != 0,
                    ts: word & 0b0000_0001_0000_0000 != 0,
                    tc: ((word & 0b0000_0000_1100_0000) >> 6u16) as u8,
                    uat_in: word & 0b0000_0000_0010_0000 != 0,
                    reserved_20_24: (word & 0b0000_0000_0001_1111) as u8,
                },
            )
        } else {
            None
        }
    }

    pub fn from_u16(word: u16, mops_version: MopsVersion) -> (r: Option<Self>)
        ensures
            r == Self::spec_from_u16(word, mops_version),
    {
        if mops_version.0 == 0 {
            Some(
                Self::Version0 {
                    zero_9_10: (word >> 14u16) as u8,
                    not_tcas: word & 0b0010_0000_0000_0000 != 0,
                    cdti: word & 0b0001_0000_0000_0000 != 0,
                    reserved_13_24: word & 0b0000_1111_1111_1111,
                },
            )
        } else if mops_version.0 == 2 {
            Some(
                Self::Version2 {
                    reserved_9_10: (word >> 14u16) as u8,
                    tcas_operational: word & 0b0010_0000_0000_0000 != 0,
                    x1090es_in: word & 0b0001_0000_0000_0000 != 0,
                    reserved_13_14: ((word & 0b0000_1100_0000_0000) >> 10u16) as u8,
                    arv: word & 0b0000_0010_0000_0000 != 0,
                    ts: word & 0b0000_0001_0000_0000 != 0,
                    tc: ((word & 0b0000_0000_1100_0000) >> 6u16) as u8,
                    uat_in: word & 0b0000_0000_0010_0000 != 0,
                    reserved_20_24: (word & 0b0000_0000_0001_1111) as u8,
                },
            )
        } else {
            None
        }
    }
}

#[derive(Clone, Copy, Debug, PartialEq, Eq, PartialOrd, Ord, Hash)]
pub enum SurfaceCapabilityClass {
    Version2 {
        reserved_9_10: u8,
        /// position offset applied
        poa: bool,
        x1090es_in: bool,
        reserved_13_14: u8,
        /// Class B ground vehicle is transmitting with less than 70 watts
        b2_low: bool,
        uat_in: bool,
        nac_v: NacV,
        nic_supplement_c: bool,
    },
}

impl SurfaceCapabilityClass {
    /// The version 2 capability class of a 12-bit word; other versions have
    /// none.
    pub open spec fn spec_from_u16(word: u16, mops_version: MopsVersion) -> Option<Self> {
        if mops_version.0 == 2 {
            Some(
                SurfaceCapabilityClass::Version2 {
                    reserved_9_10: (word >> 6u16) as u8,
                    poa: word & 0b0010_0000_0000 != 0,
                    x1090es_in: word & 0b0001_0000_0000 != 0,
                    reserved_13_14: ((word & 0b0000_1100_0000) >> 10u16) as u8,
                    b2_low: word & 0b0000_0010_0000 != 0,
                    uat_in: word & 0b0000_0001_0000 != 0,
                    nac_v: NacV(((word & 0b0000_0000_1110) >> 1u16) as u8),
                    nic_supplement_c: word & 0b0000_0000_0001 != 0,
                },
            )
        } else {
            None
        }
    }

    pub fn from_u16(word: u16, mops_version: MopsVersion) -> (r: Option<Self>)
        requires
            mops_version.0 == 2 ==> word >> 6u16 <= 0xff,
        ensures
            r == Self::spec_from_u16(word, mops_version),
    {
        if mops_version.0 == 2 {
            Some(
                Self::Version2 {
                    reserved_9_10: (word >> 6u16) as u8,
                    poa: word & 0b0010_0000_0000 != 0,
                    x1090es_in: word & 0b0001_0000_0000 != 0,
                    reserved_13_14: ((word & 0b0000_1100_0000) >> 10u16) as u8,
                    b2_low: word & 0b0000_0010_0000 != 0,
                    uat_in: word & 0b0000_0001_0000 != 0,
                    nac_v: NacV(((word & 0b0000_0000_1110) >> 1u16) as u8),
                    nic_supplement_c: word & 0b0000_0000_0001 != 0,
                },
            )
        } else {
            None
        }
    }
}

/// Fields shared by airborne and surface operational modes.
struct OperationalModeCommon {
    zero_25_26: u8,
    tcas_ra_active: bool,
    ident_switch_active: bool,
    reserved_atc: bool,
    single_antenna_flag: bool,
    system_design_assurance: SystemDesignAssurance,
}

impl OperationalModeCommon {
    /// ```plain
    /// bit  01234567
    ///      00abcdee
    /// ```
    fn from_byte(byte: u8) -> (r: Self)
        ensures
            r.zero_25_26 == byte >> 6u8,
            r.tcas_ra_active == (byte & 0b0010_0000 != 0),
            r.ident_switch_active == (byte & 0b0001_0000 != 0),
            r.reserved_atc == (byte & 0b0000_1000 != 0),
            r.single_antenna_flag == (byte & 0b0000_0100 != 0),
            r.system_design_assurance == SystemDesignAssurance(byte & 0b11),
    {
        Self {
            zero_25_26: byte >> 6u8,
            tcas_ra_active: byte & 0b00100000 != 0,
            ident_switch_active: byte & 0b00010000 != 0,
            reserved_atc: byte & 0b00001000 != 0,
            single_antenna_flag: byte & 0b00000100 != 0,
            system_design_assurance: SystemDesignAssurance(byte & 0b11),
        }
    }
}

#[derive(Clone, Copy, Debug, PartialEq, Eq, PartialOrd, Ord, Hash)]
pub struct AirborneOperationalMode {
    pub zero_25_26: u8,
    pub tcas_ra_active: bool,
    pub ident_switch_active: bool,
    pub reserved_atc: bool,
    pub single_antenna_flag: bool,
    pub system_design_assurance: SystemDesignAssurance,
    pub reserved_33_40: u8,
}

impl AirborneOperationalMode {
    /// The high byte holds the common fields (`00abcdee`), the low byte is
    /// reserved.
    pub open spec fn spec_from_u16(word: u16) -> Self {
        let byte_0 = (word >> 8u16) as u8;
        AirborneOperationalMode {
            zero_25_26: byte_0 >> 6u8,
            tcas_ra_active: byte_0 & 0b0010_0000 != 0,
            ident_switch_active: byte_0 & 0b0001_0000 != 0,
            reserved_atc: byte_0 & 0b0000_1000 != 0,
            single_antenna_flag: byte_0 & 0b0000_0100 != 0,
            system_design_assurance: SystemDesignAssurance(byte_0 & 0b11),
            reserved_33_40: word as u8,
        }
    }

    pub fn from_u16(word: u16) -> (r: Self)
        ensures
            r == Self::spec_from_u16(word),
    {
        let byte_0 = (word >> 8u16) as u8;
        let byte_1 = word as u8;
        let common = OperationalModeCommon::from_byte(byte_0);
        Self {
            zero_25_26: common.zero_25_26,
            tcas_ra_active: common.tcas_ra_active,
            ident_switch_active: common.ident_switch_active,
            reserved_atc: common.reserved_atc,
            single_antenna_flag: common.single_antenna_flag,
            system_design_assurance: common.system_design_assurance,
            reserved_33_40: byte_1,
        }
    }
}

#[derive(Clone, Copy, Debug, PartialEq, Eq, PartialOrd, Ord, Hash)]
pub struct SurfaceOperationalMode {
    pub zero_25_26: u8,
    pub tcas_ra_active: bool,
    pub ident_switch_active: bool,
    pub reserved_atc: bool,
    pub single_antenna_flag: bool,
    pub system_design_assurance: SystemDesignAssurance,
    pub gps_antenna_offset: GpsAntennaOffset,
}

impl SurfaceOperationalMode {
    /// The high byte holds the common fields (`00abcdee`), the low byte is
    /// the GPS antenna offset.
    pub open spec fn spec_from_u16(word: u16) -> Self {
        let byte_0 = (word >> 8u16) as u8;
        SurfaceOperationalMode {
            zero_25_26: byte_0 >> 6u8,
            tcas_ra_active: byte_0 & 0b0010_0000 != 0,
            ident_switch_active: byte_0 & 0b0001_0000 != 0,
            reserved_atc: byte_0 & 0b0000_1000 != 0,
            single_antenna_flag: byte_0 & 0b0000_0100 != 0,
            system_design_assurance: SystemDesignAssurance(byte_0 & 0b11),
            gps_antenna_offset: GpsAntennaOffset(word as u8),
        }
    }

    pub fn from_u16(word: u16) -> (r: Self)
        ensures
            r == Self::spec_from_u16(word),
    {
        let byte_0 = (word >> 8u16) as u8;
        let byte_1 = word as u8;
        let common = OperationalModeCommon::from_byte(byte_0);
        Self {
            zero_25_26: common.zero_25_26,
            tcas_ra_active: common.tcas_ra_active,
            ident_switch_active: common.ident_switch_active,
            reserved_atc: common.reserved_atc,
            single_antenna_flag: common.single_antenna_flag,
            system_design_assurance: common.system_design_assurance,
            gps_antenna_offset: GpsAntennaOffset(byte_1),
        }
    }
}

/// 2.2.3.2.7.2.4.7 page 126
#[derive(Clone, Copy, Debug, Default, PartialEq, Eq, PartialOrd, Ord, Hash)]
pub struct GpsAntennaOffset(pub u8);

impl GpsAntennaOffset {
    /// Whether the offsets can be encoded: both even, longitudinal at most 62
    /// and lateral between -6 and 6.
    pub open spec fn spec_valid(lateral: i8, longitudinal: u8) -> bool {
        longitudinal % 2 == 0 && longitudinal <= 62 && lateral % 2 == 0 && -6 <= lateral <= 6
    }

    /// The encoded offset: bit 7 set for a lateral offset to the right, bits
    /// 5 and 6 half the lateral distance, bits 0 to 4 half the longitudinal
    /// distance.
    pub open spec fn spec_encode(lateral: i8, longitudinal: u8) -> u8 {
        let right: int = if lateral > 0 { 0x80 } else { 0 };
        let half_lateral: int = (if lateral < 0 { -lateral } else { lateral as int }) / 2;
        (right + half_lateral * 32 + longitudinal / 2) as u8
    }

    /// Create an [`GpsAntennaOffset`] from lateral and longitudinal offsets.
    ///
    /// # Arguments
    ///
    /// - `lateral`: Lateral distance of the GPS antenna from the longitudinal
    ///   axis (roll) of the aircraft in meters. Valid values are even between
    ///   -6 and 6 inclusive. Negative values are left of the aircraft.
    /// - `longitudinal`: Longitudinal distance of the GPS antenna from the nose
    ///   of the aircraft. Valid values are even between 0 and 62 inclusive.
    pub fn new(lateral: i8, longitudinal: u8) -> (r: Option<Self>)
        ensures
            r == (if Self::spec_valid(lateral, longitudinal) {
                Some(GpsAntennaOffset(Self::spec_encode(lateral, longitudinal)))
            } else {
                None
            }),
    {
        if longitudinal % 2 == 0 && longitudinal <= 62 && lateral % 2 == 0 && -6 <= lateral
            && lateral <= 6 {
            let right: u8 = if lateral > 0 { 0x80 } else { 0 };
            let abs_lateral: u8 = if lateral < 0 { (-lateral) as u8 } else { lateral as u8 };
            let half_lateral: u8 = abs_lateral / 2;
            let half_longitudinal: u8 = longitudinal / 2;
            assert(right | (half_lateral << 5u8) | half_longitudinal == right + half_lateral * 32
                + half_longitudinal) by (bit_vector)
                requires
                    right == 0 || right == 0x80,
                    half_lateral <= 3,
                    half_longitudinal <= 31,
            ;
            Some(Self(right | (half_lateral << 5u8) | half_longitudinal))
        } else {
            None
        }
    }
}

#[derive(Clone, Copy, Debug, PartialEq, Eq)]
pub enum SurfaceSystemMessage {
    Reserved { sub_type: u8, data: [u8; 6] },
    MultilaterationSystemStatus([u8; 6]),
}

impl SurfaceSystemMessage {
    /// Sub type 1 is a multilateration system status, others are reserved.
    pub open spec fn spec_decode(body: [u8; 6], sub_type: u8) -> Self {
        if sub_type == 1 {
            SurfaceSystemMessage::MultilaterationSystemStatus(body)
        } else {
            SurfaceSystemMessage::Reserved { sub_type, data: body }
        }
    }

    pub fn decode(buffer: [u8; 6], bits_6_to_8: u8) -> (r: Self)
        ensures
            r == Self::spec_decode(buffer, bits_6_to_8),
    {
        if bits_6_to_8 == 1 {
            Self::MultilaterationSystemStatus(buffer)
        } else {
            Self::Reserved { sub_type: bits_6_to_8, data: buffer }
        }
    }
}

/// <https://mode-s.org/1090mhz/content/ads-b/2-identification.html>
#[derive(Clone, Copy, Debug, PartialEq, Eq, PartialOrd, Ord, Hash)]
pub enum WakeVortexCategory {
    Reserved { type_code: u8, category: u8 },
    NoCategoryInformation { type_code: u8 },
    SurfaceEmergencyVehicle,
    SurfaceServiceVehicle,
    GroundObstruction { category: u8 },
    GliderSailplane,
    LighterThanAir,
    ParachutistSkydiver,
    UltralightHangGliderParaGlider,
    UnmannedAerialVehicle,
    SpaceTransatmospherricVehicle,
    Light,
    Medium1,
    Medium2,
    HighVortexAirrcraft,
    Heavy,
    HighPerformance,
    Rotorcraft,
}

impl WakeVortexCategory {
    /// The category table: category 0 carries no information; type code 2
    /// holds surface vehicles and obstructions, 3 non-powered and unmanned
    /// aircraft, 4 powered aircraft by weight; all other pairs are reserved.
    pub open spec fn spec_from_type_code_and_category(type_code: u8, category: u8) -> Self {
        if category == 0 {
            WakeVortexCategory::NoCategoryInformation { type_code }
        } else if type_code == 2 && category == 1 {
            WakeVortexCategory::SurfaceEmergencyVehicle
        } else if type_code == 2 && category == 3 {
            WakeVortexCategory::SurfaceServiceVehicle
        } else if type_code == 2 && 4 <= category <= 7 {
            WakeVortexCategory::GroundObstruction { category }
        } else if type_code == 3 && category == 1 {
            WakeVortexCategory::GliderSailplane
        } else if type_code == 3 && category == 2 {
            WakeVortexCategory::LighterThanAir
        } else if type_code == 3 && category == 3 {
            WakeVortexCategory::ParachutistSkydiver
        } else if type_code == 3 && category == 4 {
            WakeVortexCategory::UltralightHangGliderParaGlider
        } else if type_code == 3 && category == 6 {
            WakeVortexCategory::UnmannedAerialVehicle
        } else if type_code == 3 && category == 7 {
            WakeVortexCategory::SpaceTransatmospherricVehicle
        } else if type_code == 4 && category == 1 {
            WakeVortexCategory::Light
        } else if type_code == 4 && category == 2 {
            WakeVortexCategory::Medium1
        } else if type_code == 4 && category == 3 {
            WakeVortexCategory::Medium2
        } else if type_code == 4 && category == 4 {
            WakeVortexCategory::HighVortexAirrcraft
        } else if type_code == 4 && category == 5 {
            WakeVortexCategory::Heavy
        } else if type_code == 4 && category == 6 {
            WakeVortexCategory::HighPerformance
        } else if type_code == 4 && category == 7 {
            WakeVortexCategory::Rotorcraft
        } else {
            WakeVortexCategory::Reserved { type_code, category }
        }
    }

    pub fn from_type_code_and_category_unchecked(type_code: u8, category: u8) -> (r: Self)
        ensures
            r == Self::spec_from_type_code_and_category(type_code, category),
    {
        if category == 0 {
            Self::NoCategoryInformation { type_code }
        } else if type_code == 2 && category == 1 {
            Self::SurfaceEmergencyVehicle
        } else if type_code == 2 && category == 3 {
            Self::SurfaceServiceVehicle
        } else if type_code == 2 && 4 <= category && category <= 7 {
            Self::GroundObstruction { category }
        } else if type_code == 3 && category == 1 {
            Self::GliderSailplane
        } else if type_code == 3 && category == 2 {
            Self::LighterThanAir
        } else if type_code == 3 && category == 3 {
            Self::ParachutistSkydiver
        } else if type_code == 3 && category == 4 {
            Self::UltralightHangGliderParaGlider
        } else if type_code == 3 && category == 6 {
            Self::UnmannedAerialVehicle
        } else if type_code == 3 && category == 7 {
            Self::SpaceTransatmospherricVehicle
        } else if type_code == 4 && category == 1 {
            Self::Light
        } else if type_code == 4 && category == 2 {
            Self::Medium1
        } else if type_code == 4 && category == 3 {
            Self::Medium2
        } else if type_code == 4 && category == 4 {
            Self::HighVortexAirrcraft
        } else if type_code == 4 && category == 5 {
            Self::Heavy
        } else if type_code == 4 && category == 6 {
            Self::HighPerformance
        } else if type_code == 4 && category == 7 {
            Self::Rotorcraft
        } else {
            Self::Reserved { type_code, category }
        }
    }

    /// The category of a pair, when the type code fits into 5 bits and the
    /// low 3 bits of the category are clear.
    pub fn from_type_code_and_category(type_code: u8, category: u8) -> (r: Option<Self>)
        ensures
            r == (if type_code < 32 && category & 0b0000_0111 == 0 {
                Some(Self::spec_from_type_code_and_category(type_code, category))
            } else {
                None
            }),
    {
        proof {
            crate::bits::lemma_u8_masks(type_code);
        }
        if type_code & 0b11100000 == 0 && category & 0b00000111 == 0 {
            Some(Self::from_type_code_and_category_unchecked(type_code, category))
        } else {
            None
        }
    }
}

#[derive(Clone, Copy, Debug, PartialEq, Eq, PartialOrd, Ord, Hash)]
pub struct EncodedCallsign(pub [u8; 6]);

/// The character of a 6-bit callsign code in the character set MOPS
/// specifies: 1 to 26 are `A` to `Z`, 32 is a space, 48 to 57 are `0` to
/// `9`; every other code is invalid and gives `#`.
pub open spec fn spec_callsign_char(code: u8) -> u8 {
    if 1 <= code <= 26 {
        (code + 64) as u8
    } else if code == 32 {
        32
    } else if 48 <= code <= 57 {
        code
    } else {
        35
    }
}

/// The character of a 6-bit callsign code in the set readsb uses (called an
/// AIS charset there): codes below 32 are `@`, `A` to `Z`, `[`, `\`, `]`,
/// `^`, `_`; codes from 32 on stand for the ASCII character of that number.
pub open spec fn spec_callsign_char_permissive(code: u8) -> u8 {
    if code < 32 {
        (code + 64) as u8
    } else {
        code
    }
}

/// The callsign character set is ASCII with the top bits dropped: every
/// code that stands for a character gives an uppercase letter, a digit or a
/// space whose low six bits are the code again, and every uppercase letter,
/// digit and space is given by the code of its low six bits. So letters,
/// digits and spaces all decode, and to themselves.
pub proof fn law_callsign_chars_are_ascii(code: u8, c: char)
    ensures
        code < 64 && spec_callsign_char(code) != 35 ==> spec_valid_callsign_char(
            spec_callsign_char(code) as char,
        ) && spec_callsign_char(code) & 0b11_1111 == code,
        spec_valid_callsign_char(c) ==> spec_callsign_char((c as u8) & 0b11_1111) == c as u8
            && (c as u8) & 0b11_1111 < 64,
{
    let x = c as u8;
    let y = spec_callsign_char(code);
    assert((65 <= x <= 90 ==> x & 0b11_1111 == x - 64) && (48 <= x <= 57 ==> x & 0b11_1111 == x)
        && (x == 32 ==> x & 0b11_1111 == 32) && x & 0b11_1111 < 64) by (bit_vector);
    assert((65 <= y <= 90 ==> y & 0b11_1111 == y - 64) && (48 <= y <= 57 ==> y & 0b11_1111 == y)
        && (y == 32 ==> y & 0b11_1111 == 32)) by (bit_vector);
}

fn callsign_char(code: u8) -> (c: u8)
    ensures
        c == spec_callsign_char(code),
{
    if 1 <= code && code <= 26 {
        code + 64
    } else if code == 32 {
        32
    } else if 48 <= code && code <= 57 {
        code
    } else {
        35
    }
}

fn callsign_char_permissive(code: u8) -> (c: u8)
    requires
        code < 64,
    ensures
        c == spec_callsign_char_permissive(code),
{
    if code < 32 {
        code + 64
    } else {
        code
    }
}

impl EncodedCallsign {
    /// The eight 6-bit character codes, most significant first.
    ///
    /// ```plain
    /// byte 0        1        2        3        4        5
    /// bit  01234567 01234567 01234567 01234567 01234567 01234567
    /// char 00000011 11112222 22333333 44444455 55556666 66777777
    /// ```
    pub open spec fn spec_expand(self) -> [u8; 8] {
        let b = self.0;
        [
            b[0] >> 2u8,
            ((b[0] & 0b11) << 4u8) | (b[1] >> 4u8),
            ((b[1] & 0b1111) << 2u8) | (b[2] >> 6u8),
            b[2] & 0b11_1111,
            b[3] >> 2u8,
            ((b[3] & 0b11) << 4u8) | (b[4] >> 4u8),
            ((b[4] & 0b1111) << 2u8) | (b[5] >> 6u8),
            b[5] & 0b11_1111,
        ]
    }

    /// Expands the encoded callsign to 8bit per character.
    pub fn expand(&self) -> (r: [u8; 8])
        ensures
            r == self.spec_expand(),
            forall|i: int| 0 <= i < 8 ==> r[i] < 64,
    {
        let bytes = &self.0;
        let b0 = bytes[0];
        let b1 = bytes[1];
        let b2 = bytes[2];
        let b3 = bytes[3];
        let b4 = bytes[4];
        let b5 = bytes[5];
        let r = [
            b0 >> 2u8,
            ((b0 & 0b11) << 4u8) | (b1 >> 4u8),
            ((b1 & 0b1111) << 2u8) | (b2 >> 6u8),
            b2 & 0b111111,
            b3 >> 2u8,
            ((b3 & 0b11) << 4u8) | (b4 >> 4u8),
            ((b4 & 0b1111) << 2u8) | (b5 >> 6u8),
            b5 & 0b111111,
        ];
        assert(b0 >> 2u8 < 64 && ((b0 & 0b11) << 4u8) | (b1 >> 4u8) < 64 && ((b1 & 0b1111)
            << 2u8) | (b2 >> 6u8) < 64 && b2 & 0b111111 < 64 && b3 >> 2u8 < 64 && ((b3 & 0b11)
            << 4u8) | (b4 >> 4u8) < 64 && ((b4 & 0b1111) << 2u8) | (b5 >> 6u8) < 64 && b5
            & 0b111111 < 64) by (bit_vector);
        r
    }

    /// Different encoded callsigns expand to different character codes: the
    /// eight 6-bit codes together are the 48 bits of the encoding, each bit
    /// in its place, so none is lost.
    pub proof fn law_expand_keeps_every_bit(a: Self, b: Self)
        requires
            a != b,
        ensures
            a.spec_expand() != b.spec_expand(),
    {
        let x = a.0;
        let y = b.0;
        if a.spec_expand() == b.spec_expand() {
            let ea = a.spec_expand();
            let eb = b.spec_expand();
            assert(ea[0] == eb[0] && ea[1] == eb[1] && ea[2] == eb[2] && ea[3] == eb[3]);
            assert(ea[4] == eb[4] && ea[5] == eb[5] && ea[6] == eb[6] && ea[7] == eb[7]);
            let (x0, x1, x2, x3, x4, x5) = (x[0], x[1], x[2], x[3], x[4], x[5]);
            let (y0, y1, y2, y3, y4, y5) = (y[0], y[1], y[2], y[3], y[4], y[5]);
            assert(x0 == y0 && x1 == y1 && x2 == y2) by (bit_vector)
                requires
                    x0 >> 2u8 == y0 >> 2u8,
                    ((x0 & 0b11) << 4u8) | (x1 >> 4u8) == ((y0 & 0b11) << 4u8) | (y1 >> 4u8),
                    ((x1 & 0b1111) << 2u8) | (x2 >> 6u8) == ((y1 & 0b1111) << 2u8) | (y2 >> 6u8),
                    x2 & 0b11_1111 == y2 & 0b11_1111,
            ;
            assert(x3 == y3 && x4 == y4 && x5 == y5) by (bit_vector)
                requires
                    x3 >> 2u8 == y3 >> 2u8,
                    ((x3 & 0b11) << 4u8) | (x4 >> 4u8) == ((y3 & 0b11) << 4u8) | (y4 >> 4u8),
                    ((x4 & 0b1111) << 2u8) | (x5 >> 6u8) == ((y4 & 0b1111) << 2u8) | (y5 >> 6u8),
                    x5 & 0b11_1111 == y5 & 0b11_1111,
            ;
            assert(x =~= y);
        }
    }

    /// Whether all characters up to `n` are valid.
    pub open spec fn spec_valid_prefix(self, n: int) -> bool {
        forall|i: int| 0 <= i < n ==> spec_callsign_char(#[trigger] self.spec_expand()[i]) != 35
    }

    /// Decodes the callsign into a small string.
    ///
    /// Fails at the first character code that is not in the MOPS character
    /// set.
    pub fn decode(&self) -> (r: Result<Callsign, InvalidCallsign>)
        ensures
            match r {
                Ok(c) => self.spec_valid_prefix(8) && c@ == self.spec_expand()@.map_values(
                    |b: u8| spec_callsign_char(b),
                ),
                Err(e) => 0 <= e.position < 8 && self.spec_valid_prefix(e.position as int)
                    && e.expanded == self.spec_expand() && e.character
                    == self.spec_expand()[e.position as int] && spec_callsign_char(e.character)
                    == 35,
            },
    {
        let expanded = self.expand();
        let mut characters = [0u8; 8];
        let mut i: usize = 0;
        while i < 8
            invariant
                0 <= i <= 8,
                expanded == self.spec_expand(),
                forall|k: int| 0 <= k < 8 ==> expanded[k] < 64,
                self.spec_valid_prefix(i as int),
                forall|k: int| 0 <= k < i ==> characters[k] == spec_callsign_char(expanded[k]),
            decreases 8 - i,
        {
            let c = callsign_char(expanded[i]);
            if c == 35 {
                return Err(InvalidCallsign { expanded, position: i, character: expanded[i] });
            }
            characters[i] = c;
            i += 1;
        }
        assert(characters@ == self.spec_expand()@.map_values(|b: u8| spec_callsign_char(b)));
        proof {
            assert forall|k: int| 0 <= k < 8 implies characters[k] < 128 by {
                assert(expanded[k] < 64);
            }
        }
        Ok(Callsign { characters })
    }

    /// Decodes the callsign into a small string, reading every character code
    /// in the permissive character set.
    pub fn decode_permissive(&self) -> (r: Callsign)
        ensures
            r@ == self.spec_expand()@.map_values(|b: u8| spec_callsign_char_permissive(b)),
    {
        let mut expanded = self.expand();
        let ghost expanded_before = expanded;
        let mut i: usize = 0;
        while i < 8
            invariant
                0 <= i <= 8,
                expanded_before == self.spec_expand(),
                forall|k: int| 0 <= k < 8 ==> expanded_before[k] < 64,
                forall|k: int| 0 <= k < i ==> expanded[k] == spec_callsign_char_permissive(
                    expanded_before[k],
                ),
                forall|k: int| i <= k < 8 ==> expanded[k] == expanded_before[k],
            decreases 8 - i,
        {
            let resolved = callsign_char_permissive(expanded[i]);
            expanded[i] = resolved;
            i += 1;
        }
        assert(expanded@ == self.spec_expand()@.map_values(
            |b: u8| spec_callsign_char_permissive(b),
        ));
        proof {
            assert forall|k: int| 0 <= k < 8 implies expanded[k] < 128 by {
                assert(expanded_before[k] < 64);
            }
        }
        Callsign { characters: expanded }
    }
}

/// A character code was not valid.
#[derive(Clone, Copy, Debug)]
pub struct InvalidCallsign {
    pub expanded: [u8; 8],
    pub position: usize,
    pub character: u8,
}

/// A decoded callsign.
///
/// This is basically a small string (without heap allocation) of 8 ASCII
/// characters.
#[derive(Clone, Copy, PartialEq, Eq, PartialOrd, Ord, Hash, Debug)]
pub struct Callsign {
    characters: [u8; 8],
}

impl View for Callsign {
    type V = Seq<u8>;

    closed spec fn view(&self) -> Seq<u8> {
        self.characters@
    }
}

impl Callsign {
    #[verifier::type_invariant]
    spec fn only_ascii(self) -> bool {
        forall|i: int| 0 <= i < 8 ==> self.characters[i] < 128
    }

    /// The callsign as a string, one character per byte.
    pub fn as_str(&self) -> (s: &str)
        ensures
            s@ == self@.map_values(|b: u8| b as char),
    {
        proof {
            use_type_invariant(self);
        }
        crate::text::ascii_to_str(&self.characters)
    }

    /// The bytes of the callsign.
    pub fn as_bytes(&self) -> (r: [u8; 8])
        ensures
            r@ == self@,
    {
        self.characters
    }

    /// Two callsigns with the same bytes are the same callsign.
    pub proof fn lemma_view_injective(a: Callsign, b: Callsign)
        ensures
            a@ == b@ ==> a == b,
    {
        if a@ == b@ {
            assert(a.characters =~= b.characters) by {
                assert forall|i: int| 0 <= i < 8 implies a.characters[i] == b.characters[i] by {
                    assert(a.characters@[i] == b.characters@[i]);
                }
            }
        }
    }

    /// Whether two callsigns are the same, byte for byte.
    pub fn same_as(&self, other: &Callsign) -> (r: bool)
        ensures
            r == (*self == *other),
    {
        let a = self.characters;
        let b = other.characters;
        let mut i: usize = 0;
        while i < 8
            invariant
                0 <= i <= 8,
                a == self.characters,
                b == other.characters,
                forall|k: int| 0 <= k < i ==> a[k] == b[k],
            decreases 8 - i,
        {
            if a[i] != b[i] {
                return false;
            }
            i += 1;
        }
        assert(a =~= b);
        true
    }

    /// Reads a callsign of at most 8 characters, each an uppercase letter, a
    /// digit or a space; shorter callsigns are padded with zero bytes.
    pub fn from_str(s: &str) -> (r: Result<Self, CallsignFromStrError>)
        ensures
            s.spec_bytes().len() > 8 ==> r == Err::<Callsign, CallsignFromStrError>(
                CallsignFromStrError::InvalidLength(s.spec_bytes().len() as usize),
            ),
            s.spec_bytes().len() <= 8 ==> match r {
                Ok(c) => (forall|i: int| 0 <= i < s@.len() ==> spec_valid_callsign_char(
                    #[trigger] s@[i],
                )) && c@ == Seq::new(8, |i: int| if i < s@.len() { s@[i] as u8 } else { 0u8 }),
                Err(CallsignFromStrError::InvalidChar { position, character }) => 0 <= position
                    < s@.len() && s@[position as int] == character
                    && !spec_valid_callsign_char(character) && forall|i: int|
                    0 <= i < position ==> spec_valid_callsign_char(#[trigger] s@[i]),
                Err(CallsignFromStrError::InvalidLength(_)) => false,
            },
    {
        let n = s.as_bytes().len();
        if n > 8 {
            return Err(CallsignFromStrError::InvalidLength(n));
        }
        let chars = crate::text::chars_of(s);
        proof {
            crate::text::lemma_char_count_at_most_bytes(s);
        }
        let mut characters = [0u8; 8];
        let mut i: usize = 0;
        while i < chars.len()
            invariant
                chars@ == s@,
                chars.len() <= 8,
                s.spec_bytes().len() <= 8,
                0 <= i <= chars.len(),
                forall|k: int| 0 <= k < i ==> spec_valid_callsign_char(#[trigger] s@[k]),
                forall|k: int| 0 <= k < i ==> characters[k] == s@[k] as u8,
                forall|k: int| i <= k < 8 ==> characters[k] == 0,
            decreases chars.len() - i,
        {
            let c = chars[i];
            if !valid_callsign_char(c) {
                return Err(CallsignFromStrError::InvalidChar { position: i, character: c });
            }
            characters[i] = c as u8;
            i += 1;
        }
        assert(characters@ == Seq::new(8, |k: int| if k < s@.len() { s@[k] as u8 } else { 0u8 }));
        proof {
            assert forall|k: int| 0 <= k < 8 implies characters[k] < 128 by {
                if k < s@.len() {
                    assert(spec_valid_callsign_char(s@[k]));
                }
            }
        }
        Ok(Self { characters })
    }
}

#[derive(Clone, Debug)]
pub enum CallsignFromStrError {
    InvalidChar { position: usize, character: char },
    InvalidLength(usize),
}

/// Uppercase ASCII letters, ASCII digits and the space.
pub open spec fn spec_valid_callsign_char(c: char) -> bool {
    ('A' <= c <= 'Z') || ('0' <= c <= '9') || c == ' '
}

pub fn valid_callsign_char(c: char) -> (r: bool)
    ensures
        r == spec_valid_callsign_char(c),
{
    ('A' <= c && c <= 'Z') || ('0' <= c && c <= '9') || c == ' '
}

impl Movement {
    /// The speed in 1/8 kt of a movement code: none for 0, 0 for 1 (stopped),
    /// the quantized speed for 2 to 123, 1400 for 124 (175 kt or more), and
    /// none for the reserved codes above.
    pub open spec fn spec_decode_as_1_8th_kt(self) -> Option<u32> {
        match MovementQuantization::spec_from_encoded_value(self) {
            MovementQuantization::NotAvailable => None,
            MovementQuantization::Stopped => Some(0),
            MovementQuantization::Quantized { encoded_base, decoded_base, decoded_step } => Some(
                ((self.0 - encoded_base) * decoded_step + decoded_base) as u32,
            ),
            MovementQuantization::Exceeding175Kt => Some(1400),
            MovementQuantization::Reserved => None,
        }
    }

    /// Decode movement in 1/8th knots
    pub fn decode_as_1_8th_kt(&self) -> (r: Option<u32>)
        ensures
            r == self.spec_decode_as_1_8th_kt(),
    {
        let q = MovementQuantization::from_encoded_value(*self);
        match q {
            MovementQuantization::NotAvailable => None,
            MovementQuantization::Stopped => Some(0),
            MovementQuantization::Quantized { encoded_base, decoded_base, decoded_step } => {
                proof {
                    lemma_movement_speed(self.0);
                }
                Some(((self.0 - *encoded_base) as u32) * *decoded_step + *decoded_base)
            },
            MovementQuantization::Exceeding175Kt => Some(1400),
            MovementQuantization::Reserved => None,
        }
    }
}

#[derive(Clone, Copy, Debug, PartialEq, Eq)]
pub enum MovementQuantization {
    NotAvailable,
    Stopped,
    /// The speed in kt is `1/8 * ((encoded - encoded_base) * decoded_step +
    /// decoded_base)`
    Quantized {
        encoded_base: u8,
        /// in 1/8 kt
        decoded_base: u32,
        /// in 1/8 kt
        decoded_step: u32,
    },
    Exceeding175Kt,
    Reserved,
}

impl MovementQuantization {
    /// The quantization table of surface movement codes (2.2.3.2.4.2).
    pub open spec fn spec_from_encoded_value(encoded: Movement) -> Self {
        let e = encoded.0;
        if e == 0 {
            MovementQuantization::NotAvailable
        } else if e == 1 {
            MovementQuantization::Stopped
        } else if e <= 8 {
            MovementQuantization::Quantized { encoded_base: 2, decoded_base: 1, decoded_step: 1 }
        } else if e <= 12 {
            MovementQuantization::Quantized { encoded_base: 9, decoded_base: 8, decoded_step: 2 }
        } else if e <= 38 {
            MovementQuantization::Quantized { encoded_base: 13, decoded_base: 16, decoded_step: 4 }
        } else if e <= 93 {
            MovementQuantization::Quantized { encoded_base: 39, decoded_base: 120, decoded_step: 8 }
        } else if e <= 108 {
            MovementQuantization::Quantized {
                encoded_base: 94,
                decoded_base: 560,
                decoded_step: 16,
            }
        } else if e <= 123 {
            MovementQuantization::Quantized {
                encoded_base: 109,
                decoded_base: 800,
                decoded_step: 40,
            }
        } else if e == 124 {
            MovementQuantization::Exceeding175Kt
        } else {
            MovementQuantization::Reserved
        }
    }

    /// Returns the quantization of a surface position movement value.
    pub fn from_encoded_value(encoded: Movement) -> (r: &'static Self)
        ensures
            *r == Self::spec_from_encoded_value(encoded),
    {
        let e = encoded.0;
        if e == 0 {
            &Self::NotAvailable
        } else if e == 1 {
            &Self::Stopped
        } else if e <= 8 {
            &Self::Quantized { encoded_base: 2, decoded_base: 1, decoded_step: 1 }
        } else if e <= 12 {
            &Self::Quantized { encoded_base: 9, decoded_base: 8, decoded_step: 2 }
        } else if e <= 38 {
            &Self::Quantized { encoded_base: 13, decoded_base: 16, decoded_step: 4 }
        } else if e <= 93 {
            &Self::Quantized { encoded_base: 39, decoded_base: 120, decoded_step: 8 }
        } else if e <= 108 {
            &Self::Quantized { encoded_base: 94, decoded_base: 560, decoded_step: 16 }
        } else if e <= 123 {
            &Self::Quantized { encoded_base: 109, decoded_base: 800, decoded_step: 40 }
        } else if e == 124 {
            &Self::Exceeding175Kt
        } else {
            &Self::Reserved
        }
    }
}

/// The speed in 1/8 kt of the movement codes 1 to 124, range by range.
spec fn spec_movement_speed(e: u8) -> int {
    if e <= 1 {
        0
    } else if e <= 8 {
        (e - 2) + 1
    } else if e <= 12 {
        (e - 9) * 2 + 8
    } else if e <= 38 {
        (e - 13) * 4 + 16
    } else if e <= 93 {
        (e - 39) * 8 + 120
    } else if e <= 108 {
        (e - 94) * 16 + 560
    } else if e <= 123 {
        (e - 109) * 40 + 800
    } else {
        1400
    }
}

proof fn lemma_movement_speed(e: u8)
    ensures
        1 <= e <= 124 ==> Movement(e).spec_decode_as_1_8th_kt() == Some(
            spec_movement_speed(e) as u32,
        ),
        1 <= e <= 124 ==> 0 <= spec_movement_speed(e) <= 1400,
        MovementQuantization::spec_from_encoded_value(Movement(e)) matches
            MovementQuantization::Quantized { encoded_base, decoded_base, decoded_step }
            ==> encoded_base <= e && (e - encoded_base) * decoded_step + decoded_base
            == spec_movement_speed(e) && spec_movement_speed(e) <= 1400,
{
    let q = MovementQuantization::spec_from_encoded_value(Movement(e));
    if let MovementQuantization::Quantized { encoded_base: b, decoded_base: d, decoded_step: st } = q {
        if e <= 8 {
            assert((e - b) * st + d == (e - 2) + 1) by (nonlinear_arith)
                requires
                    b == 2 && d == 1 && st == 1,
            ;
        } else if e <= 12 {
            assert((e - b) * st + d == (e - 9) * 2 + 8) by (nonlinear_arith)
                requires
                    b == 9 && d == 8 && st == 2,
            ;
        } else if e <= 38 {
            assert((e - b) * st + d == (e - 13) * 4 + 16) by (nonlinear_arith)
                requires
                    b == 13 && d == 16 && st == 4,
            ;
        } else if e <= 93 {
            assert((e - b) * st + d == (e - 39) * 8 + 120) by (nonlinear_arith)
                requires
                    b == 39 && d == 120 && st == 8,
            ;
        } else if e <= 108 {
            assert((e - b) * st + d == (e - 94) * 16 + 560) by (nonlinear_arith)
                requires
                    b == 94 && d == 560 && st == 16,
            ;
        } else {
            assert((e - b) * st + d == (e - 109) * 40 + 800) by (nonlinear_arith)
                requires
                    b == 109 && d == 800 && st == 40,
            ;
        }
    }
}

proof fn lemma_movement_speed_monotonic(x: u8, y: u8)
    requires
        1 <= x <= y <= 124,
    ensures
        spec_movement_speed(x) <= spec_movement_speed(y),
    decreases y - x,
{
    if x < y {
        let z = (x + 1) as u8;
        assert(spec_movement_speed(x) <= spec_movement_speed(z));
        lemma_movement_speed_monotonic(z, y);
    }
}

proof fn lemma_movement_speed_steps(e0: u8, e1: u8, e2: u8)
    requires
        1 <= e0,
        e1 == e0 + 1,
        e2 == e1 + 1,
        e2 <= 124,
    ensures
        spec_movement_speed(e0) < spec_movement_speed(e1),
        spec_movement_speed(e1) - spec_movement_speed(e0) <= spec_movement_speed(e2)
            - spec_movement_speed(e1),
{
    let a = e0 as int;
    if a + 2 <= 8 {
    } else if a + 2 <= 12 {
    } else if a + 2 <= 38 {
    } else if a + 2 <= 93 {
    } else if a + 2 <= 108 {
    } else if a + 2 <= 123 {
    } else {
    }
}

/// The quantization of surface speeds coarsens as the speed grows: from
/// stopped (code 1) to 175 kt or more (code 124) every code is faster than
/// the one before, and each step is at least as large as the step before
/// it; stopped is 0 and the last code is 1400 (175 kt) in 1/8 kt.
pub proof fn law_movement_steps_grow(e0: u8, e1: u8, e2: u8)
    requires
        1 <= e0,
        e1 == e0 + 1,
        e2 == e1 + 1,
        e2 <= 124,
    ensures
        Movement(1).spec_decode_as_1_8th_kt() == Some(0u32),
        Movement(124).spec_decode_as_1_8th_kt() == Some(1400u32),
        Movement(e0).spec_decode_as_1_8th_kt() is Some,
        Movement(e1).spec_decode_as_1_8th_kt() is Some,
        Movement(e2).spec_decode_as_1_8th_kt() is Some,
        Movement(e0).spec_decode_as_1_8th_kt()->0 < Movement(e1).spec_decode_as_1_8th_kt()->0,
        Movement(e1).spec_decode_as_1_8th_kt()->0 - Movement(e0).spec_decode_as_1_8th_kt()->0
            <= Movement(e2).spec_decode_as_1_8th_kt()->0 - Movement(e1).spec_decode_as_1_8th_kt()->0,
{
    lemma_movement_speed(1);
    lemma_movement_speed(124);
    lemma_movement_speed(e0);
    lemma_movement_speed(e1);
    lemma_movement_speed(e2);
    lemma_movement_speed_steps(e0, e1, e2);
}

/// Movement codes decode to speeds that never decrease as the code grows,
/// from 0 (stopped) up to 1400 (175 kt or more).
pub proof fn law_movement_monotonic(a: Movement, b: Movement)
    requires
        1 <= a.0 <= b.0 <= 124,
    ensures
        a.spec_decode_as_1_8th_kt() is Some,
        b.spec_decode_as_1_8th_kt() is Some,
        a.spec_decode_as_1_8th_kt()->0 <= b.spec_decode_as_1_8th_kt()->0,
        b.spec_decode_as_1_8th_kt()->0 <= 1400,
{
    lemma_movement_speed(a.0);
    lemma_movement_speed(b.0);
    lemma_movement_speed_monotonic(a.0, b.0);
}

#[derive(Clone, Copy, Debug, PartialEq, Eq, PartialOrd, Ord, Hash)]
pub enum AltitudeType {
    Barometric,
    Gnss,
}

impl AltitudeType {
    /// Type codes 0 and 9 to 18 carry barometric altitude, 20 to 22 GNSS
    /// altitude.
    pub open spec fn spec_from_type_code(type_code: u8) -> Self {
        if type_code == 0 || (9 <= type_code <= 18) {
            AltitudeType::Barometric
        } else {
            AltitudeType::Gnss
        }
    }

    pub fn from_type_code(type_code: u8) -> (r: Self)
        requires
            is_airborne_position_type_code(type_code),
        ensures
            r == Self::spec_from_type_code(type_code),
    {
        if type_code == 0 || (9 <= type_code && type_code <= 18) {
            Self::Barometric
        } else {
            Self::Gnss
        }
    }

    pub fn altitude(&self, altitude: i32) -> (r: Altitude)
        ensures
            r == Altitude::spec_from_type_and_value(*self, altitude),
    {
        Altitude::from_type_and_value(*self, altitude)
    }
}

impl AltitudeCode {
    /// The altitude in feet.
    ///
    /// With the Q bit (bit 4) set, the other 11 bits are one number `n` in 25
    /// foot steps: `25 * n - 1000`. Otherwise the code is Gillham coded in
    /// 100 foot steps: `100 * g - 1200`.
    pub open spec fn spec_decode(self) -> i32 {
        if self.0 & 0b0000_0001_0000 != 0 {
            let n = ((self.0 >> 5u16) & 0b111_1111) as int * 16 + (self.0 & 0b1111) as int;
            (25 * n - 1000) as i32
        } else {
            (100 * spec_decode_gillham_ac12(self.0) as int - 1200) as i32
        }
    }

    /// Decodes the altitude into feet.
    pub fn decode(&self) -> (r: i32)
        ensures
            r == self.spec_decode(),
    {
        let code = self.0;
        let q_bit = code & 0b000000010000 != 0;
        if q_bit {
            let value = (((code & 0b1111_1110_0000) >> 1u16) | (code & 0b1111)) as i32;
            assert((((code & 0b1111_1110_0000) >> 1u16) | (code & 0b1111)) == ((code >> 5u16)
                & 0b111_1111) * 16 + (code & 0b1111)) by (bit_vector);
            value * 25 - 1000
        } else {
            let value = decode_gillham_ac12(code);
            proof {
                crate::mode_s::util::gillham::law_ac12_ignores_q(code);
            }
            (value as i32) * 100 - 1200
        }
    }
}

/// With the Q bit set, the code counts in 25 foot steps from -1000 ft, the
/// Q bit itself aside: the code with only the Q bit is -1000 ft, and setting
/// one more code bit adds 25 ft times that bit's weight (1, 2, 4, 8 for bits
/// 0 to 3, then 16 to 1024 for bits 5 to 11). So every code bit counts, each
/// in its place.
pub proof fn law_q_altitude_counts_25_ft(code: u16, k: u16)
    requires
        code < 0x1000,
        code & 0b1_0000 != 0,
        k < 12,
        k != 4,
        code & (1u16 << k) == 0,
    ensures
        AltitudeCode(0b1_0000).spec_decode() == -1000,
        AltitudeCode(code | (1u16 << k)).spec_decode() == AltitudeCode(code).spec_decode() + 25 * (
        if k < 4 {
            (1u16 << k) as int
        } else {
            (1u16 << (k - 1) as u16) as int
        }),
{
    let c2 = code | (1u16 << k);
    let w: u16 = if k < 4 {
        1u16 << k
    } else {
        1u16 << (k - 1) as u16
    };
    assert(c2 & 0b1_0000 != 0 && ((c2 >> 5u16) & 0b111_1111) * 16 + (c2 & 0b1111) == ((code
        >> 5u16) & 0b111_1111) * 16 + (code & 0b1111) + w && ((code >> 5u16) & 0b111_1111) * 16
        + (code & 0b1111) < 2048 && w <= 1024) by (bit_vector)
        requires
            code < 0x1000,
            code & 0b1_0000 != 0,
            k < 12,
            k != 4,
            code & (1u16 << k) == 0,
            c2 == code | (1u16 << k),
            w == (if k < 4 {
                1u16 << k
            } else {
                1u16 << (k - 1) as u16
            }),
    ;
    let q: u16 = 0b1_0000;
    assert(q & 0b0000_0001_0000 != 0 && (q >> 5u16) & 0b111_1111 == 0 && q & 0b1111 == 0)
        by (bit_vector)
        requires
            q == 0b1_0000u16,
    ;
    assert(AltitudeCode(q).spec_decode() == -1000);
}

/// Two different 12-bit codes with the Q bit set give two different
/// altitudes: no code bit is lost.
pub proof fn law_q_altitude_injective(a: u16, b: u16)
    requires
        a < 0x1000,
        b < 0x1000,
        a & 0b1_0000 != 0,
        b & 0b1_0000 != 0,
        a != b,
    ensures
        AltitudeCode(a).spec_decode() != AltitudeCode(b).spec_decode(),
{
    assert(((a >> 5u16) & 0b111_1111) * 16 + (a & 0b1111) != ((b >> 5u16) & 0b111_1111) * 16 + (b
        & 0b1111) && ((a >> 5u16) & 0b111_1111) * 16 + (a & 0b1111) < 2048 && ((b >> 5u16)
        & 0b111_1111) * 16 + (b & 0b1111) < 2048) by (bit_vector)
        requires
            a < 0x1000,
            b < 0x1000,
            a & 0b1_0000 != 0,
            b & 0b1_0000 != 0,
            a != b,
    ;
}

#[derive(Clone, Copy, Debug, PartialEq, Eq)]
pub enum Altitude {
    /// Barometric altitude in feet
    Barometric(i32),
    /// GNSS altitude in feet
    Gnss(i32),
}

impl Altitude {
    pub fn ty(&self) -> (r: AltitudeType)
        ensures
            r == (match self {
                Altitude::Barometric(_) => AltitudeType::Barometric,
                Altitude::Gnss(_) => AltitudeType::Gnss,
            }),
    {
        match self {
            Altitude::Barometric(_) => AltitudeType::Barometric,
            Altitude::Gnss(_) => AltitudeType::Gnss,
        }
    }

    pub fn barometric(&self) -> (r: Option<i32>)
        ensures
            r == (match self {
                Altitude::Barometric(a) => Some(*a),
                Altitude::Gnss(_) => None,
            }),
    {
        match self {
            Altitude::Barometric(altitude) => Some(*altitude),
            Altitude::Gnss(_) => None,
        }
    }

    pub fn gnss(&self) -> (r: Option<i32>)
        ensures
            r == (match self {
                Altitude::Barometric(_) => None,
                Altitude::Gnss(a) => Some(*a),
            }),
    {
        match self {
            Altitude::Barometric(_) => None,
            Altitude::Gnss(altitude) => Some(*altitude),
        }
    }

    pub fn any(&self) -> (r: i32)
        ensures
            r == (match self {
                Altitude::Barometric(a) => *a,
                Altitude::Gnss(a) => *a,
            }),
    {
        match self {
            Altitude::Barometric(altitude) => *altitude,
            Altitude::Gnss(altitude) => *altitude,
        }
    }

    pub open spec fn spec_from_type_and_value(altitude_type: AltitudeType, value: i32) -> Self {
        match altitude_type {
            AltitudeType::Barometric => Altitude::Barometric(value),
            AltitudeType::Gnss => Altitude::Gnss(value),
        }
    }

    /// Create [`Altitude`] from [`AltitudeType`] and altitude value in feet.
    pub fn from_type_and_value(altitude_type: AltitudeType, value: i32) -> (r: Self)
        ensures
            r == Self::spec_from_type_and_value(altitude_type, value),
    {
        match altitude_type {
            AltitudeType::Barometric => Altitude::Barometric(value),
            AltitudeType::Gnss => Altitude::Gnss(value),
        }
    }
}

/// An altitude built from a type and a value gives back that type and that
/// value.
pub proof fn law_altitude_type_and_value(altitude_type: AltitudeType, value: i32)
    ensures
        ({
            let a = Altitude::spec_from_type_and_value(altitude_type, value);
            &&& (a matches Altitude::Barometric(v) ==> v == value && altitude_type
                == AltitudeType::Barometric)
            &&& (a matches Altitude::Gnss(v) ==> v == value && altitude_type == AltitudeType::Gnss)
        }),
{
}

#[derive(Clone, Copy, Debug, PartialEq, Eq)]
pub enum VelocityType {
    GroundSpeed(GroundSpeed),
    Airspeed(Airspeed),
}

#[derive(Clone, Debug, Copy, PartialEq, Eq)]
pub struct GroundSpeed {
    pub direction_east_west: DirectionEastWest,
    pub velocity_east_west: Option<Velocity>,
    pub direction_north_south: DirectionNorthSouth,
    pub velocity_north_south: Option<Velocity>,
}

impl GroundSpeed {
    /// Returns ground speed as x and y components in knots.
    ///
    /// X values go from west to east, Y values go from south to north.
    pub fn components(&self, supersonic: bool) -> (r: Option<[i16; 2]>)
        requires
            self.velocity_east_west matches Some(v) ==> v.spec_knots_in_range(supersonic)
                && v.spec_as_knots(supersonic) <= i16::MAX,
            self.velocity_north_south matches Some(v) ==> v.spec_knots_in_range(supersonic)
                && v.spec_as_knots(supersonic) <= i16::MAX,
        ensures
            match (self.velocity_east_west, self.velocity_north_south) {
                (Some(ew), Some(ns)) => r == Some(
                    [
                        (if self.direction_east_west == DirectionEastWest::WestToEast {
                            ew.spec_as_knots(supersonic) as int
                        } else {
                            -(ew.spec_as_knots(supersonic) as int)
                        }) as i16,
                        (if self.direction_north_south == DirectionNorthSouth::SouthToNorth {
                            ns.spec_as_knots(supersonic) as int
                        } else {
                            -(ns.spec_as_knots(supersonic) as int)
                        }) as i16,
                    ],
                ),
                _ => r is None,
            },
    {
        let ew = match self.velocity_east_west {
            Some(v) => v,
            None => return None,
        };
        let ns = match self.velocity_north_south {
            Some(v) => v,
            None => return None,
        };
        let v_ew = ew.as_knots(supersonic) as i16;
        let v_ns = ns.as_knots(supersonic) as i16;
        let s_ew: i16 = match self.direction_east_west {
            DirectionEastWest::WestToEast => 1,
            DirectionEastWest::EastToWest => -1,
        };
        let s_ns: i16 = match self.direction_north_south {
            DirectionNorthSouth::SouthToNorth => 1,
            DirectionNorthSouth::NorthToSouth => -1,
        };
        Some([v_ew * s_ew, v_ns * s_ns])
    }
}

#[derive(Clone, Copy, Debug, PartialEq, Eq, PartialOrd, Ord, Hash)]
pub enum DirectionNorthSouth {
    SouthToNorth,
    NorthToSouth,
}

#[derive(Clone, Copy, Debug, PartialEq, Eq, PartialOrd, Ord, Hash)]
pub enum DirectionEastWest {
    WestToEast,
    EastToWest,
}

impl Velocity {
    /// Whether the speed can be computed without overflow: the code is not
    /// zero, and for supersonic speeds four times the knots fit into 16 bits.
    pub open spec fn spec_knots_in_range(self, supersonic: bool) -> bool {
        self.0 >= 1 && (supersonic ==> (self.0 - 1) * 4 <= u16::MAX)
    }

    /// The speed in knots: the code minus one, times four for supersonic
    /// speeds.
    pub open spec fn spec_as_knots(self, supersonic: bool) -> u16 {
        if supersonic {
            ((self.0 - 1) * 4) as u16
        } else {
            (self.0 - 1) as u16
        }
    }

    pub fn as_knots(&self, supersonic: bool) -> (r: u16)
        requires
            self.spec_knots_in_range(supersonic),
        ensures
            r == self.spec_as_knots(supersonic),
    {
        let v = self.0 - 1;
        if supersonic {
            v * 4
        } else {
            v
        }
    }
}

#[derive(Clone, Copy, Debug, PartialEq, Eq, PartialOrd, Ord, Hash)]
pub struct Airspeed {
    pub magnetic_heading: Option<MagneticHeading>,
    pub airspeed_type: AirspeedType,
    pub airspeed_value: Option<Velocity>,
}

#[derive(Clone, Copy, Debug, PartialEq, Eq, PartialOrd, Ord, Hash)]
pub enum AirspeedType {
    Indicated,
    True,
}

#[derive(Clone, Copy, Debug, PartialEq, Eq, PartialOrd, Ord, Hash)]
pub struct VerticalRate {
    pub source: VerticalRateSource,
    pub sign: VerticalRateSign,
    pub value: Option<VerticalRateValue>,
}

impl VerticalRate {
    /// Decode as ft/min with positive being up.
    pub fn as_ft_per_min(&self) -> (r: Option<i16>)
        requires
            self.value matches Some(v) ==> 1 <= v.0 && (v.0 - 1) * 64 <= i16::MAX,
        ensures
            match self.value {
                Some(v) => r == Some(
                    (if self.sign == VerticalRateSign::Down {
                        -(v.spec_as_ft_per_min() as int)
                    } else {
                        v.spec_as_ft_per_min() as int
                    }) as i16,
                ),
                None => r is None,
            },
    {
        let value = match self.value {
            Some(v) => v,
            None => return None,
        };
        let mut v = value.as_ft_per_min() as i16;
        match self.sign {
            VerticalRateSign::Down => {
                v = -v;
            },
            VerticalRateSign::Up => {},
        }
        Some(v)
    }
}

#[derive(Clone, Copy, Debug, PartialEq, Eq, PartialOrd, Ord, Hash)]
pub enum VerticalRateSource {
    Barometric,
    Gnss,
}

#[derive(Clone, Copy, Debug, PartialEq, Eq, PartialOrd, Ord, Hash)]
pub enum VerticalRateSign {
    Up,
    Down,
}

impl VerticalRateValue {
    /// The vertical rate in ft/min: 64 times the code minus one.
    pub open spec fn spec_as_ft_per_min(self) -> u16 {
        ((self.0 - 1) * 64) as u16
    }

    pub fn as_ft_per_min(&self) -> (r: u16)
        requires
            1 <= self.0,
            (self.0 - 1) * 64 <= u16::MAX,
        ensures
            r == self.spec_as_ft_per_min(),
    {
        (self.0 - 1) * 64
    }
}

/// The vertical rate counts in 64 ft/min steps from level flight: code 1
/// is 0 ft/min, and each next code is 64 ft/min more.
pub proof fn law_vertical_rate_steps(v: u16)
    requires
        1 <= v,
        v * 64 <= u16::MAX,
    ensures
        VerticalRateValue(1).spec_as_ft_per_min() == 0,
        VerticalRateValue((v + 1) as u16).spec_as_ft_per_min() == VerticalRateValue(
            v,
        ).spec_as_ft_per_min() + 64,
{
}

/// The speed counts in knots from 0: code 1 is 0 kt, and each next code is 1
/// kt more, or 4 kt more for supersonic speeds.
pub proof fn law_velocity_steps(v: u16, supersonic: bool)
    requires
        1 <= v,
        v * 4 <= u16::MAX,
    ensures
        Velocity(1).spec_as_knots(supersonic) == 0,
        Velocity((v + 1) as u16).spec_as_knots(supersonic) == Velocity(v).spec_as_knots(supersonic)
            + (if supersonic {
            4int
        } else {
            1int
        }),
{
}

#[derive(Clone, Copy, Debug, PartialEq, Eq, PartialOrd, Ord, Hash)]
pub enum AltitudeDifferenceSign {
    GnssAboveBarometric,
    GnssBelowBarometric,
}

impl AltitudeDifferenceValue {
    /// The difference in feet: 25 times the code minus one.
    pub open spec fn spec_as_ft(self) -> int {
        (self.0 - 1) * 25
    }

    /// The difference in feet: 25 times the code minus one.
    pub fn as_ft(&self) -> (r: u8)
        requires
            1 <= self.0,
            (self.0 - 1) * 25 <= u8::MAX,
        ensures
            r == self.spec_as_ft(),
    {
        (self.0 - 1) * 25
    }
}

/// The altitude difference counts in 25 ft steps from none: code 1 is 0 ft,
/// and each next code is 25 ft more.
pub proof fn law_altitude_difference_steps(v: u8)
    requires
        1 <= v < 127,
    ensures
        AltitudeDifferenceValue(1).spec_as_ft() == 0,
        AltitudeDifferenceValue((v + 1) as u8).spec_as_ft() == AltitudeDifferenceValue(
            v,
        ).spec_as_ft() + 25,
{
}

#[derive(Clone, Copy, Debug, PartialEq, Eq, PartialOrd, Ord, Hash)]
pub struct AltitudeDifference {
    pub sign: AltitudeDifferenceSign,
    pub value: Option<AltitudeDifferenceValue>,
}

} // verus!
