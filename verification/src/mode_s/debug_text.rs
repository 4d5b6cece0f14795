//! Texts of codes for debugging: the names of known codes.

use vstd::prelude::*;

use crate::{
    mode_s::{
        adsb::{
            Callsign,
            EmergencyPriorityStatus,
            EncodedCallsign,
            NacP,
            SurveillanceStatus,
        },
        AltitudeCode,
        Capability,
        CodeFormat,
        DownlinkRequest,
        FlightStatus,
        InterrogatorReservationType,
        ReplyInformation,
    },
    text::{
        push_binary,
        push_decimal,
        push_signed_decimal,
        push_str,
        spec_binary,
        spec_decimal,
        spec_signed_decimal,
        spec_zero_padded,
        string_from_chars,
    },
};

verus! {

impl Capability {
    /// The text for debugging: the name of the code. Other codes are shown in binary, with at least 3 digits.
    pub open spec fn spec_debug_text(self) -> Seq<char> {
        if self.0 == 0 {
            "Capability::LEVEL1_GROUND_AIRBORNE"@
        } else if self.0 == 4 {
            "Capability::LEVEL2_GROUND"@
        } else if self.0 == 5 {
            "Capability::LEVEL2_AIRBORNE"@
        } else if self.0 == 6 {
            "Capability::LEVEL2_GROUND_AIRBORNE"@
        } else if self.0 == 7 {
            "Capability::DR_NOT_ZERO_FS_EQUAL_2345_GROUND_AIRBORNE"@
        } else {
            "Capability(b"@ + spec_zero_padded(spec_binary(self.0 as nat), 3) + ")"@
        }
    }

    pub fn debug_text(&self) -> (r: String)
        ensures
            r@ == self.spec_debug_text(),
    {
        let mut v: Vec<char> = Vec::new();
        if self.0 == 0 {
            push_str(&mut v, "Capability::LEVEL1_GROUND_AIRBORNE");
        } else if self.0 == 4 {
            push_str(&mut v, "Capability::LEVEL2_GROUND");
        } else if self.0 == 5 {
            push_str(&mut v, "Capability::LEVEL2_AIRBORNE");
        } else if self.0 == 6 {
            push_str(&mut v, "Capability::LEVEL2_GROUND_AIRBORNE");
        } else if self.0 == 7 {
            push_str(&mut v, "Capability::DR_NOT_ZERO_FS_EQUAL_2345_GROUND_AIRBORNE");
        } else {
            push_str(&mut v, "Capability(b");
            push_binary(&mut v, self.0 as u32, 3);
            push_str(&mut v, ")");
        }
        assert(v@ =~= self.spec_debug_text());
        string_from_chars(&v)
    }
}

impl CodeFormat {
    /// The text for debugging: the name of the code. Only the codes 0 to 7 have a name.
    pub open spec fn spec_debug_text(self) -> Seq<char> {
        if self.0 == 0 {
            "CodeFormat::ADSB_WITH_ICAO_ADDRESS"@
        } else if self.0 == 1 {
            "CodeFormat::ADSB_WITH_NON_ICAO_ADDRESS"@
        } else if self.0 == 2 {
            "CodeFormat::TISB_WITH_ICAO_ADDRESS1"@
        } else if self.0 == 3 {
            "CodeFormat::TISB_WITH_ICAO_ADDRESS2"@
        } else if self.0 == 4 {
            "CodeFormat::TISB_AND_ADSR_MANAGEMENT"@
        } else if self.0 == 5 {
            "CodeFormat::TISB_WITH_NON_ICAO_ADDRESS"@
        } else if self.0 == 6 {
            "CodeFormat::ADSB_REBROADCAST"@
        } else if self.0 == 7 {
            "CodeFormat::RESERVED"@
        } else {
            Seq::empty()
        }
    }

    pub fn debug_text(&self) -> (r: String)
        requires
            self.0 <= 7,
        ensures
            r@ == self.spec_debug_text(),
    {
        let mut v: Vec<char> = Vec::new();
        if self.0 == 0 {
            push_str(&mut v, "CodeFormat::ADSB_WITH_ICAO_ADDRESS");
        } else if self.0 == 1 {
            push_str(&mut v, "CodeFormat::ADSB_WITH_NON_ICAO_ADDRESS");
        } else if self.0 == 2 {
            push_str(&mut v, "CodeFormat::TISB_WITH_ICAO_ADDRESS1");
        } else if self.0 == 3 {
            push_str(&mut v, "CodeFormat::TISB_WITH_ICAO_ADDRESS2");
        } else if self.0 == 4 {
            push_str(&mut v, "CodeFormat::TISB_AND_ADSR_MANAGEMENT");
        } else if self.0 == 5 {
            push_str(&mut v, "CodeFormat::TISB_WITH_NON_ICAO_ADDRESS");
        } else if self.0 == 6 {
            push_str(&mut v, "CodeFormat::ADSB_REBROADCAST");
        } else if self.0 == 7 {
            push_str(&mut v, "CodeFormat::RESERVED");
        }
        assert(v@ =~= self.spec_debug_text());
        string_from_chars(&v)
    }
}

impl DownlinkRequest {
    /// The text for debugging: the name of the code. Other codes are shown in decimal.
    pub open spec fn spec_debug_text(self) -> Seq<char> {
        if self.0 == 0 {
            "DownlinkRequest::NO_DOWNLINK_REQUEST"@
        } else if self.0 == 1 {
            "DownlinkRequest::REQUEST_TO_SEND_COMMB_MESSAGE"@
        } else if self.0 == 4 {
            "DownlinkRequest::COMMB_BROADCAST_MESSAGE1_AVAILABLE"@
        } else if self.0 == 5 {
            "DownlinkRequest::COMMB_BROADCAST_MESSAGE2_AVAILABLE"@
        } else {
            "DownlinkRequest("@ + spec_decimal(self.0 as nat) + ")"@
        }
    }

    pub fn debug_text(&self) -> (r: String)
        ensures
            r@ == self.spec_debug_text(),
    {
        let mut v: Vec<char> = Vec::new();
        if self.0 == 0 {
            push_str(&mut v, "DownlinkRequest::NO_DOWNLINK_REQUEST");
        } else if self.0 == 1 {
            push_str(&mut v, "DownlinkRequest::REQUEST_TO_SEND_COMMB_MESSAGE");
        } else if self.0 == 4 {
            push_str(&mut v, "DownlinkRequest::COMMB_BROADCAST_MESSAGE1_AVAILABLE");
        } else if self.0 == 5 {
            push_str(&mut v, "DownlinkRequest::COMMB_BROADCAST_MESSAGE2_AVAILABLE");
        } else {
            push_str(&mut v, "DownlinkRequest(");
            push_decimal(&mut v, self.0 as u32);
            push_str(&mut v, ")");
        }
        assert(v@ =~= self.spec_debug_text());
        string_from_chars(&v)
    }
}

impl InterrogatorReservationType {
    /// The text for debugging: the name of the code. Only the codes 0 to 3 have a name.
    pub open spec fn spec_debug_text(self) -> Seq<char> {
        if self.0 == 0 {
            "InterrogatorReservationType::NO_INFORMATION"@
        } else if self.0 == 1 {
            "InterrogatorReservationType::IIS_CONTAINS_COMMB"@
        } else if self.0 == 2 {
            "InterrogatorReservationType::IIS_CONTAINS_COMMC"@
        } else if self.0 == 3 {
            "InterrogatorReservationType::IIS_CONTAINS_COMMD"@
        } else {
            Seq::empty()
        }
    }

    pub fn debug_text(&self) -> (r: String)
        requires
            self.0 <= 3,
        ensures
            r@ == self.spec_debug_text(),
    {
        let mut v: Vec<char> = Vec::new();
        if self.0 == 0 {
            push_str(&mut v, "InterrogatorReservationType::NO_INFORMATION");
        } else if self.0 == 1 {
            push_str(&mut v, "InterrogatorReservationType::IIS_CONTAINS_COMMB");
        } else if self.0 == 2 {
            push_str(&mut v, "InterrogatorReservationType::IIS_CONTAINS_COMMC");
        } else if self.0 == 3 {
            push_str(&mut v, "InterrogatorReservationType::IIS_CONTAINS_COMMD");
        }
        assert(v@ =~= self.spec_debug_text());
        string_from_chars(&v)
    }
}

impl ReplyInformation {
    /// The text for debugging: the name of the code. Other codes are shown in decimal.
    pub open spec fn spec_debug_text(self) -> Seq<char> {
        if self.0 == 0 {
            "ReplyInformation::NO_OPERATING_ACAS"@
        } else if self.0 == 2 {
            "ReplyInformation::ACAS_RESOLUTION_CAPABILITY_INHIBITED"@
        } else if self.0 == 3 {
            "ReplyInformation::ACAS_VERTICAL_ONLY_CAPABILITY"@
        } else if self.0 == 7 {
            "ReplyInformation::ACAS_VERTICAL_AND_HORIZONTAL_CAPABILTIY"@
        } else {
            "ReplyInformation("@ + spec_decimal(self.0 as nat) + ")"@
        }
    }

    pub fn debug_text(&self) -> (r: String)
        ensures
            r@ == self.spec_debug_text(),
    {
        let mut v: Vec<char> = Vec::new();
        if self.0 == 0 {
            push_str(&mut v, "ReplyInformation::NO_OPERATING_ACAS");
        } else if self.0 == 2 {
            push_str(&mut v, "ReplyInformation::ACAS_RESOLUTION_CAPABILITY_INHIBITED");
        } else if self.0 == 3 {
            push_str(&mut v, "ReplyInformation::ACAS_VERTICAL_ONLY_CAPABILITY");
        } else if self.0 == 7 {
            push_str(&mut v, "ReplyInformation::ACAS_VERTICAL_AND_HORIZONTAL_CAPABILTIY");
        } else {
            push_str(&mut v, "ReplyInformation(");
            push_decimal(&mut v, self.0 as u32);
            push_str(&mut v, ")");
        }
        assert(v@ =~= self.spec_debug_text());
        string_from_chars(&v)
    }
}

impl EmergencyPriorityStatus {
    /// The text for debugging: the name of the code. Other codes are shown in decimal.
    pub open spec fn spec_debug_text(self) -> Seq<char> {
        if self.0 == 0 {
            "EmergencyPriorityStatus::NO_EMERGENCY"@
        } else if self.0 == 1 {
            "EmergencyPriorityStatus::GENERAL_EMERGENCY"@
        } else if self.0 == 2 {
            "EmergencyPriorityStatus::LIFEGUARD_MEDICAL_EMERGENCY"@
        } else if self.0 == 3 {
            "EmergencyPriorityStatus::MINIMAL_FUEL"@
        } else if self.0 == 4 {
            "EmergencyPriorityStatus::NO_COMMUNICATIONS"@
        } else if self.0 == 5 {
            "EmergencyPriorityStatus::UNLAWFUL_INTERFERENCE"@
        } else if self.0 == 6 {
            "EmergencyPriorityStatus::DOWNED_AIRCRAFT"@
        } else {
            "EmergencyPriorityStatus("@ + spec_decimal(self.0 as nat) + ")"@
        }
    }

    pub fn debug_text(&self) -> (r: String)
        ensures
            r@ == self.spec_debug_text(),
    {
        let mut v: Vec<char> = Vec::new();
        if self.0 == 0 {
            push_str(&mut v, "EmergencyPriorityStatus::NO_EMERGENCY");
        } else if self.0 == 1 {
            push_str(&mut v, "EmergencyPriorityStatus::GENERAL_EMERGENCY");
        } else if self.0 == 2 {
            push_str(&mut v, "EmergencyPriorityStatus::LIFEGUARD_MEDICAL_EMERGENCY");
        } else if self.0 == 3 {
            push_str(&mut v, "EmergencyPriorityStatus::MINIMAL_FUEL");
        } else if self.0 == 4 {
            push_str(&mut v, "EmergencyPriorityStatus::NO_COMMUNICATIONS");
        } else if self.0 == 5 {
            push_str(&mut v, "EmergencyPriorityStatus::UNLAWFUL_INTERFERENCE");
        } else if self.0 == 6 {
            push_str(&mut v, "EmergencyPriorityStatus::DOWNED_AIRCRAFT");
        } else {
            push_str(&mut v, "EmergencyPriorityStatus(");
            push_decimal(&mut v, self.0 as u32);
            push_str(&mut v, ")");
        }
        assert(v@ =~= self.spec_debug_text());
        string_from_chars(&v)
    }
}

impl NacP {
    /// The text for debugging: the name of the code. Other codes are shown in decimal.
    pub open spec fn spec_debug_text(self) -> Seq<char> {
        if self.0 == 0 {
            "NacP::UNKNOWN"@
        } else if self.0 == 1 {
            "NacP::RNP_10"@
        } else if self.0 == 2 {
            "NacP::RNP_4"@
        } else if self.0 == 3 {
            "NacP::RNP_2"@
        } else if self.0 == 4 {
            "NacP::RNP_1"@
        } else if self.0 == 5 {
            "NacP::RNP_0_5"@
        } else if self.0 == 6 {
            "NacP::RNP_0_3"@
        } else if self.0 == 7 {
            "NacP::RNP_0_1"@
        } else if self.0 == 8 {
            "NacP::GPS_SA_ON"@
        } else if self.0 == 9 {
            "NacP::GPS_SA_OFF"@
        } else if self.0 == 10 {
            "NacP::GPS_WAAS"@
        } else if self.0 == 11 {
            "NacP::GPS_LAAS"@
        } else {
            "NacP("@ + spec_decimal(self.0 as nat) + ")"@
        }
    }

    pub fn debug_text(&self) -> (r: String)
        ensures
            r@ == self.spec_debug_text(),
    {
        let mut v: Vec<char> = Vec::new();
        if self.0 == 0 {
            push_str(&mut v, "NacP::UNKNOWN");
        } else if self.0 == 1 {
            push_str(&mut v, "NacP::RNP_10");
        } else if self.0 == 2 {
            push_str(&mut v, "NacP::RNP_4");
        } else if self.0 == 3 {
            push_str(&mut v, "NacP::RNP_2");
        } else if self.0 == 4 {
            push_str(&mut v, "NacP::RNP_1");
        } else if self.0 == 5 {
            push_str(&mut v, "NacP::RNP_0_5");
        } else if self.0 == 6 {
            push_str(&mut v, "NacP::RNP_0_3");
        } else if self.0 == 7 {
            push_str(&mut v, "NacP::RNP_0_1");
        } else if self.0 == 8 {
            push_str(&mut v, "NacP::GPS_SA_ON");
        } else if self.0 == 9 {
            push_str(&mut v, "NacP::GPS_SA_OFF");
        } else if self.0 == 10 {
            push_str(&mut v, "NacP::GPS_WAAS");
        } else if self.0 == 11 {
            push_str(&mut v, "NacP::GPS_LAAS");
        } else {
            push_str(&mut v, "NacP(");
            push_decimal(&mut v, self.0 as u32);
            push_str(&mut v, ")");
        }
        assert(v@ =~= self.spec_debug_text());
        string_from_chars(&v)
    }
}

impl SurveillanceStatus {
    /// The text for debugging: the name of the code. Only the codes 0 to 3 have a name.
    pub open spec fn spec_debug_text(self) -> Seq<char> {
        if self.0 == 0 {
            "SurveillanceStatus::NO_CONDITION"@
        } else if self.0 == 1 {
            "SurveillanceStatus::PERMANENT_ALERT"@
        } else if self.0 == 2 {
            "SurveillanceStatus::TEMPORARY_ALERT"@
        } else if self.0 == 3 {
            "SurveillanceStatus::SPI_CONDITION"@
        } else {
            Seq::empty()
        }
    }

    pub fn debug_text(&self) -> (r: String)
        requires
            self.0 <= 3,
        ensures
            r@ == self.spec_debug_text(),
    {
        let mut v: Vec<char> = Vec::new();
        if self.0 == 0 {
            push_str(&mut v, "SurveillanceStatus::NO_CONDITION");
        } else if self.0 == 1 {
            push_str(&mut v, "SurveillanceStatus::PERMANENT_ALERT");
        } else if self.0 == 2 {
            push_str(&mut v, "SurveillanceStatus::TEMPORARY_ALERT");
        } else if self.0 == 3 {
            push_str(&mut v, "SurveillanceStatus::SPI_CONDITION");
        }
        assert(v@ =~= self.spec_debug_text());
        string_from_chars(&v)
    }
}

impl FlightStatus {
    /// The text for debugging: the flags that the status carries.
    pub open spec fn spec_debug_text(self) -> Seq<char> {
        let alert = self.spec_alert();
        let spi = self.spec_spi();
        let airborne = self.spec_ground();
        let ground = self.spec_ground();
        let alert_text = if alert {
            "alert"@
        } else {
            Seq::empty()
        };
        let spi_text = if spi {
            (if alert {
                ", "@
            } else {
                Seq::empty()
            }) + "spi"@
        } else {
            Seq::empty()
        };
        let comma = alert || spi;
        let airborne_text = if airborne {
            (if comma {
                ", "@
            } else {
                Seq::empty()
            }) + "airborne"@
        } else {
            Seq::empty()
        };
        let ground_text = if ground {
            (if airborne {
                "/"@
            } else if comma {
                ", "@
            } else {
                Seq::empty()
            }) + "ground"@
        } else {
            Seq::empty()
        };
        "FlightStatus("@ + alert_text + spi_text + airborne_text + ground_text + ")"@
    }

    pub fn debug_text(&self) -> (r: String)
        ensures
            r@ == self.spec_debug_text(),
    {
        let mut v: Vec<char> = Vec::new();
        push_str(&mut v, "FlightStatus(");
        let mut comma = false;
        let mut slash = false;
        if self.alert() {
            push_str(&mut v, "alert");
            comma = true;
        }
        if self.spi() {
            if comma {
                push_str(&mut v, ", ");
            }
            push_str(&mut v, "spi");
            comma = true;
        }
        if self.airborne() {
            if comma {
                push_str(&mut v, ", ");
            }
            push_str(&mut v, "airborne");
            slash = true;
        }
        if self.ground() {
            if slash {
                push_str(&mut v, "/");
            } else if comma {
                push_str(&mut v, ", ");
            }
            push_str(&mut v, "ground");
        }
        push_str(&mut v, ")");
        assert(v@ =~= self.spec_debug_text());
        string_from_chars(&v)
    }
}

impl AltitudeCode {
    /// The text for debugging: the altitude with its unit, or the raw code
    /// when it holds no altitude.
    pub open spec fn spec_debug_text(self) -> Seq<char> {
        match self.spec_decode() {
            Some(decoded) => "AltitudeCode("@ + spec_signed_decimal(decoded.altitude as int) + " "@
                + decoded.unit.spec_unit_str() + ")"@,
            None => "AltitudeCode("@ + spec_decimal(self.0 as nat) + ")"@,
        }
    }

    pub fn debug_text(&self) -> (r: String)
        ensures
            r@ == self.spec_debug_text(),
    {
        let mut v: Vec<char> = Vec::new();
        push_str(&mut v, "AltitudeCode(");
        if let Some(decoded) = self.decode() {
            push_signed_decimal(&mut v, decoded.altitude);
            push_str(&mut v, " ");
            push_str(&mut v, decoded.unit.unit_str());
        } else {
            push_decimal(&mut v, self.0 as u32);
        }
        push_str(&mut v, ")");
        assert(v@ =~= self.spec_debug_text());
        string_from_chars(&v)
    }
}

impl Callsign {
    /// The text for debugging: the callsign in quotes.
    pub open spec fn spec_debug_text(self) -> Seq<char> {
        "Callsign(\""@ + self@.map_values(|b: u8| b as char) + "\")"@
    }

    pub fn debug_text(&self) -> (r: String)
        ensures
            r@ == self.spec_debug_text(),
    {
        let mut v: Vec<char> = Vec::new();
        push_str(&mut v, "Callsign(\"");
        push_str(&mut v, self.as_str());
        push_str(&mut v, "\")");
        assert(v@ =~= self.spec_debug_text());
        string_from_chars(&v)
    }
}

impl EncodedCallsign {
    /// The text for debugging: the callsign decoded in the permissive
    /// character set, in quotes.
    pub open spec fn spec_debug_text(self) -> Seq<char> {
        "EncodedCallsign(\""@ + self.spec_expand()@.map_values(
            |b: u8| crate::mode_s::adsb::spec_callsign_char_permissive(b),
        ).map_values(|b: u8| b as char) + "\")"@
    }

    pub fn debug_text(&self) -> (r: String)
        ensures
            r@ == self.spec_debug_text(),
    {
        let mut v: Vec<char> = Vec::new();
        push_str(&mut v, "EncodedCallsign(\"");
        let callsign = self.decode_permissive();
        push_str(&mut v, callsign.as_str());
        push_str(&mut v, "\")");
        assert(v@ =~= self.spec_debug_text());
        string_from_chars(&v)
    }
}

} // verus!
