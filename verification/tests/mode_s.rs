use adsbee::{
    mode_s::{
        AltitudeCode,
        AltitudeUnit,
        Capability,
        DecodeError,
        DownlinkFormat,
        ExtendedSquitter,
        FlightStatus,
        Frame,
        IdentityCode,
        UtilityMessage,
    },
    types::IcaoAddress,
};

fn ac13_decode_to_feet(ac13: u16) -> i32 {
    let altitude = AltitudeCode::from_u16(ac13).unwrap().decode().unwrap();
    assert_eq!(altitude.unit, AltitudeUnit::Feet);
    altitude.altitude
}

#[test]
fn it_decodes_ac13() {
    // the expected values were gathered by decoding frames with adsb_deku
    assert_eq!(ac13_decode_to_feet(6320), 38600);
    assert_eq!(ac13_decode_to_feet(3601), 21425);
    assert_eq!(ac13_decode_to_feet(4152), 25200);
    assert_eq!(ac13_decode_to_feet(4152), 25200);
    assert_eq!(ac13_decode_to_feet(3129), 18825);
    assert_eq!(ac13_decode_to_feet(5913), 36025);
    assert_eq!(ac13_decode_to_feet(4757), 28725);
    assert_eq!(ac13_decode_to_feet(5776), 35000);
    assert_eq!(ac13_decode_to_feet(5776), 35000);
    assert_eq!(ac13_decode_to_feet(6064), 37000);
    assert_eq!(ac13_decode_to_feet(2203), 12875);
    assert_eq!(ac13_decode_to_feet(2203), 12875);
    assert_eq!(ac13_decode_to_feet(5272), 32000);
    assert_eq!(ac13_decode_to_feet(442), 2050);
    assert_eq!(ac13_decode_to_feet(412), 1700);
    assert_eq!(ac13_decode_to_feet(6552), 40000);
    assert_eq!(ac13_decode_to_feet(1343), 7775);
    assert_eq!(ac13_decode_to_feet(2332), 13700);
    assert_eq!(ac13_decode_to_feet(5560), 34000);
}

#[test]
fn it_decodes_extended_squitter() {
    let bytes = b"\x8d\x40\x74\xb5\x23\x15\xa6\x76\xdd\x13\xa0\x66\x29\x67";
    let frame = Frame::decode(&bytes[..]).unwrap();
    match frame {
        Frame::ExtendedSquitter(ExtendedSquitter {
            capabilities,
            address_announced,
            ..
        }) => {
            assert_eq!(capabilities, Capability::from_u8_unchecked(0b101));
            assert_eq!(address_announced, IcaoAddress::from_u32_unchecked(0x4074b5));
        }
        _ => panic!("unexpected frame: {frame:?}"),
    }
}

#[test]
fn altitude_code_decodes_each_kind() {
    // no altitude
    assert_eq!(AltitudeCode::from_u16_unchecked(0).decode(), None);
    assert_eq!(AltitudeCode::from_u16_unchecked(0x1fff).decode(), None);
    // M bit: metres, the code without the M bit
    let metres = AltitudeCode::from_u16_unchecked(0b0_0000_0100_0001).decode().unwrap();
    assert_eq!(metres.unit, AltitudeUnit::Meter);
    assert_eq!(metres.altitude, 1);
    // neither M nor Q: 100 ft steps from -1200 ft over the Gillham code
    let gillham = AltitudeCode::from_u16_unchecked(0b0_0000_1000_0000).decode().unwrap();
    assert_eq!(gillham.unit, AltitudeUnit::Feet);
    assert_eq!(gillham.altitude, 100 * 0b00001000000 - 1200);
}

#[test]
fn altitude_unit_strings() {
    assert_eq!(AltitudeUnit::Feet.unit_str(), "ft");
    assert_eq!(AltitudeUnit::Meter.unit_str(), "m");
}

#[test]
fn it_rejects_an_empty_buffer() {
    assert!(matches!(Frame::decode(&[]), Err(DecodeError::NoDf)));
}

#[test]
fn it_rejects_an_invalid_downlink_format() {
    // DF 1
    assert!(matches!(
        Frame::decode(&[0b0000_1000]),
        Err(DecodeError::InvalidDf { value: 1 })
    ));
}

#[test]
fn it_rejects_a_truncated_frame() {
    let bytes = b"\x8d\x40\x74\xb5";
    assert!(matches!(
        Frame::decode(&bytes[..]),
        Err(DecodeError::Truncated {
            expected_length: 14,
            buffer_length: 4
        })
    ));
}

#[test]
fn downlink_formats_have_their_lengths() {
    assert_eq!(DownlinkFormat::from_u8(0).unwrap().frame_length(), 7);
    assert_eq!(DownlinkFormat::from_u8(11).unwrap().frame_length(), 7);
    assert_eq!(DownlinkFormat::from_u8(17).unwrap().frame_length(), 14);
    assert_eq!(DownlinkFormat::from_u8(24).unwrap(), DownlinkFormat::CommD);
    assert_eq!(DownlinkFormat::from_u8(31).unwrap(), DownlinkFormat::CommD);
    assert!(DownlinkFormat::from_u8(23).is_err());
}

#[test]
fn a_decoded_frame_has_the_format_and_length_of_its_first_byte() {
    let bytes = b"\x8d\x40\x74\xb5\x23\x15\xa6\x76\xdd\x13\xa0\x66\x29\x67";
    let frame = Frame::decode(&bytes[..]).unwrap();
    assert_eq!(frame.downlink_format(), DownlinkFormat::ExtendedSquitter);
    assert_eq!(frame.length(), bytes.len());
    assert!(frame.adsb().is_some());
}

#[test]
fn the_checksum_of_a_valid_extended_squitter_is_zero() {
    let bytes = b"\x8d\x40\x74\xb5\x23\x15\xa6\x76\xdd\x13\xa0\x66\x29\x67";
    let with_checksum = Frame::decode_and_calculate_checksum(&bytes[..]).unwrap();
    assert_eq!(with_checksum.checksum.0, [0, 0, 0]);
    assert_eq!(with_checksum.check(), Some(true));
    assert!(Frame::decode_and_check_checksum(&bytes[..]).is_ok());
}

#[test]
fn a_corrupted_extended_squitter_fails_the_crc_check() {
    let bytes = b"\x8d\x40\x74\xb5\x23\x15\xa6\x76\xdd\x13\xa0\x66\x29\x68";
    let with_checksum = Frame::decode_and_calculate_checksum(&bytes[..]).unwrap();
    assert_ne!(with_checksum.checksum.0, [0, 0, 0]);
    assert!(matches!(
        Frame::decode_and_check_checksum(&bytes[..]),
        Err(DecodeError::CrcCheckFailed(_))
    ));
}

#[test]
fn the_address_of_an_all_call_reply_parity_is_recovered() {
    // DF 4: surveillance altitude reply, whose parity is overlaid with the address
    let bytes = b"\x20\x00\x17\x18\x51\x86\x5a";
    let with_checksum = Frame::decode_and_calculate_checksum(&bytes[..]).unwrap();
    assert_eq!(with_checksum.check(), None);
    match with_checksum.frame {
        Frame::SurveillanceAltitudeReply(reply) => {
            let address = reply.address_parity.recover_address(&with_checksum.checksum);
            let parity = reply.address_parity.0;
            let checksum = with_checksum.checksum.0;
            let expected = IcaoAddress::from_bytes([
                parity[0] ^ checksum[0],
                parity[1] ^ checksum[1],
                parity[2] ^ checksum[2],
            ]);
            assert_eq!(address, expected);
        }
        frame => panic!("unexpected frame: {frame:?}"),
    }
}

#[test]
fn flight_status_flags() {
    let status = FlightStatus::from_u8(0b100).unwrap();
    assert!(status.alert());
    assert!(status.spi());
    assert!(status.airborne());
    assert!(status.ground());
    let status = FlightStatus::from_u8(0b000).unwrap();
    assert!(!status.alert());
    assert!(!status.spi());
    assert!(!status.airborne());
    assert!(FlightStatus::from_u8(8).is_none());
}

#[test]
fn utility_message_splits_its_byte() {
    let um = UtilityMessage::from_u8(0b10_1101).unwrap();
    assert_eq!(um.interrogator_identifier_subfield.as_u8(), 0b1011);
    assert_eq!(um.interrogator_reservation_type.as_u8(), 0b01);
    assert_eq!(um.as_u8(), 0b1011 | (0b01 << 4));
    assert!(UtilityMessage::from_u8(64).is_none());
}

#[test]
fn identity_code_reads_squawk_and_ident() {
    let code = IdentityCode::from_bytes([0x08, 0xa6]).unwrap();
    assert_eq!(code.as_u16(), 2214);
    assert_eq!(code.squawk().as_u16(), 2882);
    assert!(!code.ident());
    assert!(IdentityCode::from_bytes([0x20, 0x00]).is_none());
}
