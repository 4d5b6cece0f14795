use adsbee::{
    mode_s::{
        AltitudeCode,
        Capability,
        CodeFormat,
        DownlinkRequest,
        FlightStatus,
        InterrogatorReservationType,
        ReplyInformation,
        adsb::{
            Callsign,
            EmergencyPriorityStatus,
            EncodedCallsign,
            NacP,
            SurveillanceStatus,
        },
    },
    rtlsdr::TunerType,
    types::Wtc,
};

#[test]
fn capabilities_show_names_or_binary() {
    assert_eq!(
        Capability(0b101).debug_text(),
        "Capability::LEVEL2_AIRBORNE"
    );
    assert_eq!(Capability(0b001).debug_text(), "Capability(b001)");
    assert_eq!(Capability(0b011).debug_text(), "Capability(b011)");
}

#[test]
fn codes_show_names_or_decimal() {
    assert_eq!(
        CodeFormat(6).debug_text(),
        "CodeFormat::ADSB_REBROADCAST"
    );
    assert_eq!(
        DownlinkRequest(4).debug_text(),
        "DownlinkRequest::COMMB_BROADCAST_MESSAGE1_AVAILABLE"
    );
    assert_eq!(DownlinkRequest(17).debug_text(), "DownlinkRequest(17)");
    assert_eq!(
        InterrogatorReservationType(3).debug_text(),
        "InterrogatorReservationType::IIS_CONTAINS_COMMD"
    );
    assert_eq!(
        ReplyInformation(0b0111).debug_text(),
        "ReplyInformation::ACAS_VERTICAL_AND_HORIZONTAL_CAPABILTIY"
    );
    assert_eq!(ReplyInformation(9).debug_text(), "ReplyInformation(9)");
    assert_eq!(
        EmergencyPriorityStatus(3).debug_text(),
        "EmergencyPriorityStatus::MINIMAL_FUEL"
    );
    assert_eq!(
        EmergencyPriorityStatus(7).debug_text(),
        "EmergencyPriorityStatus(7)"
    );
    assert_eq!(NacP(5).debug_text(), "NacP::RNP_0_5");
    assert_eq!(NacP(200).debug_text(), "NacP(200)");
    assert_eq!(
        SurveillanceStatus(2).debug_text(),
        "SurveillanceStatus::TEMPORARY_ALERT"
    );
    assert_eq!(TunerType(5).debug_text(), "TunerType::R820T");
    assert_eq!(TunerType(4096).debug_text(), "TunerType(4096)");
    assert_eq!(Wtc::Super.debug_text(), "Wtc(J)");
}

#[test]
fn flight_status_shows_its_flags() {
    assert_eq!(FlightStatus(0).debug_text(), "FlightStatus()");
    assert_eq!(
        FlightStatus(1).debug_text(),
        "FlightStatus(airborne/ground)"
    );
    assert_eq!(FlightStatus(2).debug_text(), "FlightStatus(alert)");
    assert_eq!(
        FlightStatus(3).debug_text(),
        "FlightStatus(alert, airborne/ground)"
    );
    assert_eq!(
        FlightStatus(4).debug_text(),
        "FlightStatus(alert, spi, airborne/ground)"
    );
    assert_eq!(
        FlightStatus(5).debug_text(),
        "FlightStatus(spi, airborne/ground)"
    );
}

#[test]
fn altitude_codes_show_altitudes() {
    // Q bit set: 25 ft steps from -1000 ft
    let ac = AltitudeCode(0b0_0000_0001_0000);
    assert_eq!(ac.debug_text(), "AltitudeCode(-1000 ft)");
    assert_eq!(AltitudeCode(0).debug_text(), "AltitudeCode(0)");
    assert_eq!(AltitudeCode(0x1fff).debug_text(), "AltitudeCode(8191)");
}

#[test]
fn callsigns_show_in_quotes() {
    let callsign = Callsign::from_str("KLM1023").unwrap();
    assert_eq!(callsign.debug_text(), "Callsign(\"KLM1023\u{0}\")");
    let encoded = EncodedCallsign([0x15, 0xa6, 0x76, 0xdd, 0x13, 0xa0]);
    assert_eq!(encoded.debug_text(), "EncodedCallsign(\"EZY67QN \")");
}
