use adsbee::{
    mode_s::{
        ExtendedSquitter,
        Frame,
        adsb::{
            AircraftStatus,
            AltitudeCode,
            AltitudeDifferenceSign,
            Callsign,
            DirectionEastWest,
            DirectionNorthSouth,
            EmergencyPriorityStatus,
            GpsAntennaOffset,
            Message,
            Movement,
            NacV,
            TurnIndicator,
            Velocity,
            VelocityType,
            VerticalRateSign,
            VerticalRateSource,
            VerticalRateValue,
            WakeVortexCategory,
            cpr,
        },
        util::gillham::decode_gillham_id13,
    },
    types::Squawk,
};

#[test]
fn it_decodes_ac12() {
    // from example: https://mode-s.org/1090mhz/content/ads-b/3-airborne-position.html

    let ac = AltitudeCode::from_u16(0xc38).expect("invalid AC12");
    assert_eq!(ac.decode(), 38000);
}

#[test]
fn it_decodes_airborne_position_barometric() {
    // first 12 bit of "\xc3\x82" is 0xc38 which is the altitude code.
    let bytes = b"\x8D\x40\x62\x1D\x58\xC3\x82\xD6\x90\xC8\xAC\x28\x63\xA7";
    let frame = Frame::decode(&bytes[..]).unwrap();
    match frame {
        Frame::ExtendedSquitter(ExtendedSquitter {
            adsb_message: Message::AirbornePosition(position),
            ..
        }) => {
            assert_eq!(
                position
                    .altitude()
                    .expect("no altitude")
                    .barometric()
                    .expect("not barometric"),
                38000
            );
            let cpr = position.cpr.expect("no position");
            assert_eq!(cpr.position.latitude.as_u32(), 93000);
            assert_eq!(cpr.position.longitude.as_u32(), 51372);
            assert_eq!(cpr.format, cpr::Format::Even);
        }
        _ => panic!("unexpected frame: {frame:?}"),
    }
}

#[test]
fn it_decodes_airborne_velocity() {
    let bytes = b"\x8d\xa3\xd4\x25\x99\x25\x01\x29\x78\x04\x84\x71\x2c\x50";
    let frame = Frame::decode(&bytes[..]).unwrap();
    match frame {
        Frame::ExtendedSquitter(ExtendedSquitter {
            adsb_message: Message::AirborneVelocity(velocity),
            ..
        }) => {
            assert!(!velocity.supersonic);
            assert!(!velocity.intent_change_flag);
            assert!(!velocity.ifr_capability_flag);
            assert_eq!(velocity.nac_v, NacV(0b100));

            match velocity.velocity_type {
                VelocityType::GroundSpeed(ground_speed) => {
                    assert_eq!(
                        ground_speed.direction_east_west,
                        DirectionEastWest::EastToWest
                    );
                    assert_eq!(ground_speed.velocity_east_west, Some(Velocity(1)));
                    assert_eq!(
                        ground_speed.direction_north_south,
                        DirectionNorthSouth::SouthToNorth
                    );
                    assert_eq!(ground_speed.velocity_north_south, Some(Velocity(331)));

                    assert_eq!(ground_speed.velocity_east_west.unwrap().as_knots(false), 0);
                    assert_eq!(
                        ground_speed.velocity_north_south.unwrap().as_knots(false),
                        330
                    );
                }
                _ => panic!("expected ground speed"),
            }

            assert_eq!(
                velocity.vertical_rate.source,
                VerticalRateSource::Barometric
            );
            assert_eq!(velocity.vertical_rate.sign, VerticalRateSign::Down);
            assert_eq!(velocity.vertical_rate.value, Some(VerticalRateValue(1)));
            assert_eq!(velocity.vertical_rate.as_ft_per_min().unwrap(), 0);

            assert_eq!(velocity.turn_indicator, TurnIndicator(0));
            assert_eq!(
                velocity.altitude_difference.sign,
                AltitudeDifferenceSign::GnssBelowBarometric
            );
        }
        _ => panic!("unexpected frame: {frame:?}"),
    }
}

#[test]
fn it_decodes_aircraft_identification() {
    let bytes = b"\x8d\x40\x74\xb5\x23\x15\xa6\x76\xdd\x13\xa0\x66\x29\x67";
    let frame = Frame::decode(&bytes[..]).unwrap();
    match frame {
        Frame::ExtendedSquitter(ExtendedSquitter {
            adsb_message: Message::AircraftIdentification(ident),
            ..
        }) => {
            assert_eq!(ident.wake_vortex_category, WakeVortexCategory::Medium2);
            assert_eq!(
                ident.callsign.decode().expect("invalid callsign").as_str(),
                "EZY67QN "
            );
        }
        _ => panic!("unexpected frame: {frame:?}"),
    }
}

#[test]
fn it_decodes_aircraft_status_mode_a() {
    let bytes = b"\x8d\xa0\xda\xdb\xe1\x02\x8b\x00\x00\x00\x00\xfe\xad\x7b";
    let frame = Frame::decode(&bytes[..]).unwrap();
    match frame {
        Frame::ExtendedSquitter(ExtendedSquitter {
            adsb_message:
                Message::AircraftStatus(AircraftStatus::EmergencyPriorityStatusAndModeACode(status)),
            ..
        }) => {
            assert_eq!(
                status.emergency_priority_status,
                EmergencyPriorityStatus::from_u8_unchecked(0)
            );
            assert_eq!(status.mode_a_code, Squawk::from_u16_unchecked(0o6604));
            assert_eq!(status.reserved, 0);
        }
        _ => panic!("unexpected frame: {frame:?}"),
    }
}

#[test]
fn it_decodes_aircraft_status_emergency() {
    let bytes = b"\x8c\x8c\x60\x2c\xe1\x65\xe5\xc1\x82\x51\x96\x55\x3f\x11";

    // emergency = 0b011 minimal fuel
    // squawk = 0b0010111100101
    let expected_squawk = Squawk::from_u16_unchecked(decode_gillham_id13(0b0010111100101));

    let frame = Frame::decode(&bytes[..]).unwrap();
    match frame {
        Frame::ExtendedSquitter(ExtendedSquitter {
            adsb_message:
                Message::AircraftStatus(AircraftStatus::EmergencyPriorityStatusAndModeACode(status)),
            ..
        }) => {
            assert_eq!(
                status.emergency_priority_status,
                EmergencyPriorityStatus::from_u8_unchecked(3)
            );
            assert_eq!(status.mode_a_code, expected_squawk);
            assert_eq!(status.reserved, 0xc1825196);
        }
        _ => panic!("unexpected frame: {frame:?}"),
    }
}

#[test]
fn it_decodes_surface_position() {
    let bytes = b"\x8c\x4a\xca\x15\x3a\xed\x72\x24\x12\x16\x88\x4a\xa6\x9b";
    let frame = Frame::decode(&bytes[..]).unwrap();

    match frame {
        Frame::ExtendedSquitter(ExtendedSquitter {
            adsb_message: Message::SurfacePosition(position),
            ..
        }) => {
            assert_eq!(position.movement.0, 0b0101110);
            let ground_track = position.ground_track.expect("no ground track");
            assert_eq!(ground_track.0, 0b1010111);

            assert_eq!(position.cpr.format, cpr::Format::Even);
            assert_eq!(
                position.cpr.position.latitude.as_u32(),
                0b1_0001_0010_0000_1001
            );
            assert_eq!(
                position.cpr.position.longitude.as_u32(),
                0b0_0001_0110_1000_1000
            );
        }
        _ => panic!("unexpected frame: {frame:?}"),
    }
}

#[test]
fn callsigns_read_back() {
    let callsign = Callsign::from_str("EZY67QN").unwrap();
    assert_eq!(callsign.as_bytes(), *b"EZY67QN\0");
    assert!(Callsign::from_str("TOOLONGCALL").is_err());
    assert!(Callsign::from_str("ab").is_err());
}

#[test]
fn movement_speeds() {
    assert_eq!(Movement(0).decode_as_1_8th_kt(), None);
    assert_eq!(Movement(1).decode_as_1_8th_kt(), Some(0));
    assert_eq!(Movement(2).decode_as_1_8th_kt(), Some(1));
    assert_eq!(Movement(9).decode_as_1_8th_kt(), Some(8));
    assert_eq!(Movement(123).decode_as_1_8th_kt(), Some(1360));
    assert_eq!(Movement(124).decode_as_1_8th_kt(), Some(1400));
    assert_eq!(Movement(125).decode_as_1_8th_kt(), None);
    let mut previous = 0;
    for code in 1..=124u8 {
        let speed = Movement(code).decode_as_1_8th_kt().unwrap();
        assert!(speed >= previous);
        previous = speed;
    }
}

#[test]
fn gps_antenna_offsets() {
    assert_eq!(GpsAntennaOffset::new(2, 10), Some(GpsAntennaOffset(0x80 | (1 << 5) | 5)));
    assert_eq!(GpsAntennaOffset::new(-4, 0), Some(GpsAntennaOffset(2 << 5)));
    assert_eq!(GpsAntennaOffset::new(3, 0), None);
    assert_eq!(GpsAntennaOffset::new(0, 64), None);
    assert_eq!(GpsAntennaOffset::new(-8, 0), None);
    assert_eq!(GpsAntennaOffset::new(2, 4), Some(GpsAntennaOffset(162)));
    assert_eq!(GpsAntennaOffset::new(-2, 4), Some(GpsAntennaOffset(34)));
}
