use adsbee::{
    beast::output::OutputPacket,
    live::ServerToClientMessage,
    sbs::Message,
    tracker::{
        Command,
        Followup,
        Reactor,
        SourceId,
        processor::FrameProcessor,
        subscriptions::{
            AircraftQuery,
            Error,
            SubscriptionFilter,
        },
    },
    mode_s::{
        Frame,
        adsb::cpr::{
            AlgorithmKind,
            Format,
        },
    },
    tracker::state::{
        GroundSpeedValue,
        PositionSource,
        State,
        Timestamped,
        TrackValue,
        UpdateTimestamped,
    },
    types::{
        IcaoAddress,
        Squawk,
    },
};

const SECOND: i64 = 1_000_000_000;

fn frame(bytes: &[u8]) -> Frame {
    Frame::decode(bytes).unwrap()
}

fn icao(address: u32) -> IcaoAddress {
    IcaoAddress {
        address,
        non_icao: false,
    }
}

#[test]
fn timestamped_keeps_newer_values() {
    let mut held = Timestamped {
        last_update: 10,
        value: 1u32,
    };
    assert!(!held.update(10, 2));
    assert_eq!(held.value, 1);
    assert!(!held.update(5, 3));
    assert_eq!(held.value, 1);
    assert!(held.update(11, 4));
    assert_eq!(held.value, 4);
    // the time of the last update is left as it is
    assert_eq!(held.last_update, 10);

    let mut absent: Option<Timestamped<u32>> = None;
    assert!(absent.update(7, 9));
    let stored = absent.unwrap();
    assert_eq!((stored.last_update, stored.value), (7, 9));
}

#[test]
fn tracker_identifies_aircraft() {
    let mut state: State<(f64, f64)> = State::new();
    let fix = state.update_with_mode_s(
        SECOND,
        &frame(b"\x8d\x40\x74\xb5\x23\x15\xa6\x76\xdd\x13\xa0\x66\x29\x67"),
    );
    assert!(fix.is_none());

    let aircraft = state.iter_aircraft();
    assert_eq!(aircraft.len(), 1);
    assert_eq!(aircraft[0].icao_address, icao(0x4074b5));
    let callsign = aircraft[0].callsign.expect("no callsign");
    assert_eq!(callsign.value.as_str(), "EZY67QN ");
    assert_eq!(callsign.last_update, SECOND);
    assert_eq!(aircraft[0].last_seen.last_update, SECOND);
}

#[test]
fn tracker_keeps_one_slot_per_aircraft() {
    let mut state: State<(f64, f64)> = State::new();
    let a = state.update_aircraft(icao(0x123456), 1);
    let b = state.update_aircraft(icao(0x654321), 2);
    let c = state.update_aircraft(icao(0x123456), 3);
    assert_ne!(a, b);
    assert_eq!(a, c);
    assert_eq!(state.iter_aircraft().len(), 2);

    let non_icao = state.update_aircraft(
        IcaoAddress {
            address: 0x123456,
            non_icao: true,
        },
        4,
    );
    assert_ne!(non_icao, a);
    assert_eq!(state.iter_aircraft().len(), 3);
}

#[test]
fn tracker_plans_position_decoding() {
    let mut state: State<(f64, f64)> = State::new();
    let fix = state
        .update_with_mode_s(
            SECOND,
            &frame(b"\x8D\x40\x62\x1D\x58\xC3\x82\xD6\x90\xC8\xAC\x28\x63\xA7"),
        )
        .expect("no position fix");
    assert_eq!(fix.time, SECOND);
    assert_eq!(fix.plan.algorithm, AlgorithmKind::Surface);
    assert!(fix.plan.global.is_none());
    assert_eq!(fix.plan.local.format, Format::Even);
    assert!(fix.reference.is_none());

    let aircraft = state.iter_aircraft();
    assert_eq!(aircraft[0].altitude_barometric.unwrap().value, 38000);
    assert!(aircraft[0].altitude_gnss.is_none());

    state.complete_position_fix(fix, Some((52.25, 3.92)));
    let aircraft = state.iter_aircraft();
    let position = aircraft[0].position.expect("no position");
    assert_eq!(position.value.coordinates, (52.25, 3.92));
    assert_eq!(position.value.source, PositionSource::Gnss);

    // the stored position is the reference for a CPR value 5 seconds later
    let fix = state
        .update_with_mode_s(
            6 * SECOND,
            &frame(b"\x8D\x40\x62\x1D\x58\xC3\x82\xD6\x90\xC8\xAC\x28\x63\xA7"),
        )
        .expect("no position fix");
    assert_eq!(fix.reference, Some((52.25, 3.92)));
}

#[test]
fn tracker_reads_velocity() {
    let mut state: State<(f64, f64)> = State::new();
    let fix = state.update_with_mode_s(
        SECOND,
        &frame(b"\x8d\xa3\xd4\x25\x99\x25\x01\x29\x78\x04\x84\x71\x2c\x50"),
    );
    assert!(fix.is_none());
    let aircraft = state.iter_aircraft();
    assert_eq!(
        aircraft[0].ground_speed.unwrap().value,
        GroundSpeedValue::Components {
            east: 0,
            north: 330
        }
    );
    assert_eq!(
        aircraft[0].track.unwrap().value,
        TrackValue::Components {
            east: 0,
            north: 330
        }
    );
}

#[test]
fn tracker_reads_squawk() {
    let mut state: State<(f64, f64)> = State::new();
    state.update_with_mode_s(
        SECOND,
        &frame(b"\x8d\xa0\xda\xdb\xe1\x02\x8b\x00\x00\x00\x00\xfe\xad\x7b"),
    );
    let aircraft = state.iter_aircraft();
    assert_eq!(
        aircraft[0].squawk.unwrap().value,
        Squawk::from_u16_unchecked(0o6604)
    );
}

#[test]
fn tracker_reads_surface_position() {
    let mut state: State<(f64, f64)> = State::new();
    let fix = state
        .update_with_mode_s(
            SECOND,
            &frame(b"\x8c\x4a\xca\x15\x3a\xed\x72\x24\x12\x16\x88\x4a\xa6\x9b"),
        )
        .expect("no position fix");
    assert_eq!(fix.plan.algorithm, AlgorithmKind::Surface);
    let aircraft = state.iter_aircraft();
    let speed = aircraft[0].ground_speed.unwrap().value;
    assert!(matches!(speed, GroundSpeedValue::EighthKnots(_)));
    assert!(matches!(
        aircraft[0].track.unwrap().value,
        TrackValue::GroundTrack(t) if t.0 == 0b1010111
    ));
}

fn long_packet(data: &[u8; 14]) -> Command<u32, ()> {
    Command::PushBeast {
        source_id: SourceId(0),
        receiver_id: None,
        time_received: 5 * SECOND,
        packet: OutputPacket::ModeSLong {
            timestamp: [0; 6],
            signal_level: 0,
            data: *data,
        },
    }
}

#[test]
fn reactor_tracks_beast_packets() {
    let mut reactor: Reactor<u32, (f64, f64)> = Reactor::new();
    let followup = reactor
        .handle_command(long_packet(b"\x8d\x40\x74\xb5\x23\x15\xa6\x76\xdd\x13\xa0\x66\x29\x67"))
        .unwrap();
    assert!(matches!(followup, Followup::Nothing));
    let aircraft = reactor.state.iter_aircraft();
    assert_eq!(aircraft.len(), 1);
    assert_eq!(aircraft[0].last_seen.last_update, 5 * SECOND);

    let followup = reactor
        .handle_command(long_packet(b"\x8D\x40\x62\x1D\x58\xC3\x82\xD6\x90\xC8\xAC\x28\x63\xA7"))
        .unwrap();
    match followup {
        Followup::DecodePosition(fix) => {
            assert_eq!(fix.time, 5 * SECOND);
            reactor.state.complete_position_fix(fix, Some((52.25, 3.92)));
        }
        _ => panic!("expected a position to decode"),
    }
    assert_eq!(reactor.state.iter_aircraft().len(), 2);

    // a frame that does not decode changes nothing
    let followup = reactor.handle_command(long_packet(&[0x08; 14])).unwrap();
    assert!(matches!(followup, Followup::Nothing));
    assert_eq!(reactor.state.iter_aircraft().len(), 2);
}

#[test]
fn reactor_hands_back_mlat_positions() {
    let mut reactor: Reactor<u32, (f64, f64)> = Reactor::new();
    let message = Message::from_str(
        "MSG,3,496,211,4CA2D6,10057,2008/11/28,14:53:50.594,2008/11/28,14:58:51.153,,37000,,,51.45735,-1.02826,,,0,0,0,0",
    )
    .unwrap();
    let followup = reactor
        .handle_command(Command::<u32, ()>::PushSbs {
            source_id: SourceId(1),
            mlat: true,
            message,
        })
        .unwrap();
    match followup {
        Followup::MlatPosition {
            icao_address,
            time_generated,
            latitude,
            longitude,
        } => {
            assert_eq!(icao_address, icao(0x4CA2D6));
            assert_eq!(time_generated.date.year, 2008);
            assert_eq!(latitude, "51.45735");
            assert_eq!(longitude, "-1.02826");
        }
        _ => panic!("expected an MLAT position"),
    }
    assert_eq!(reactor.state.iter_aircraft().len(), 0);
}

#[test]
fn reactor_handles_subscriptions() {
    let mut reactor: Reactor<u32, (f64, f64)> = Reactor::new();
    let filter: SubscriptionFilter<()> = SubscriptionFilter {
        aircraft: AircraftQuery {
            icao: vec![icao(0x4074b5)],
            callsign: vec![],
            squawk: vec![],
        },
        area: vec![],
    };
    let followup = reactor
        .handle_command(Command::Subscribe {
            client_id: 1,
            id: 2,
            filter,
            start_keyframe: false,
            message_sender: 3,
        })
        .unwrap();
    assert!(matches!(followup, Followup::Nothing));
    let followup = reactor
        .handle_command(Command::<u32, ()>::Unsubscribe {
            client_id: 1,
            id: 2,
            message_sender: 3,
        })
        .unwrap();
    match followup {
        Followup::Reply {
            message_sender,
            message: ServerToClientMessage::Error { id, message },
        } => {
            assert_eq!(message_sender, 3);
            assert_eq!(id, Some(2));
            assert_eq!(
                message.as_deref(),
                Some("invalid subscription: 00000000-0000-0000-0000-000000000002")
            );
        }
        _ => panic!("expected an error reply"),
    }
}

#[test]
fn tracker_errors_have_texts() {
    assert_eq!(Error::ReactorDead.message(), "reactor dead");
    assert_eq!(
        Error::InvalidSubscriptionId {
            client_id: 7,
            id: 0x67e55044_10b1_426f_9247_bb680e5fe0c8,
        }
        .message(),
        "invalid subscription: 67e55044-10b1-426f-9247-bb680e5fe0c8"
    );
}

#[test]
fn processor_counts_frames_that_pass_their_check() {

    let mut processor: FrameProcessor<(f64, f64)> = FrameProcessor::new();
    let frame = b"\x8d\x40\x74\xb5\x23\x15\xa6\x76\xdd\x13\xa0\x66\x29\x67";
    let (used, fix) = processor.handle_mode_s_data(SECOND, frame);
    assert!(used);
    assert!(fix.is_none());
    assert_eq!(processor.num_frames, 1);
    assert_eq!(processor.num_bytes, 14);
    assert_eq!(processor.state.iter_aircraft().len(), 1);

    // a corrupted frame fails its check
    let mut corrupted = *frame;
    corrupted[5] ^= 0x01;
    let (used, _) = processor.handle_mode_s_data(SECOND, &corrupted);
    assert!(!used);
    assert_eq!(processor.num_frames, 1);

    // bytes that are no frame
    let (used, _) = processor.handle_mode_s_data(SECOND, &[0x08; 7]);
    assert!(!used);
    assert_eq!(processor.num_bytes, 14);
}
