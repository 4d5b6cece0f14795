use adsbee::sbs::{
    Message,
    MessageFromStrError,
    ReceiveBuffer,
    StatusChange,
    Transmission,
    parse_callsign,
};

const EXAMPLE: &'static str = r#"SEL,,496,2286,4CA4E5,27215,2010/02/19,18:06:07.710,2010/02/19,18:06:07.710,RYR1427
ID,,496,7162,405637,27928,2010/02/19,18:06:07.115,2010/02/19,18:06:07.115,EZY691A
AIR,,496,5906,400F01,27931,2010/02/19,18:06:07.128,2010/02/19,18:06:07.128
STA,,5,179,400AE7,10103,2008/11/28,14:58:51.153,2008/11/28,14:58:51.153,RM
CLK,,496,-1,,-1,2010/02/19,18:18:19.036,2010/02/19,18:18:19.036
MSG,1,145,256,7404F2,11267,2008/11/28,23:48:18.611,2008/11/28,23:53:19.161,RJA1118,,,,,,,,,,,
MSG,2,496,603,400CB6,13168,2008/10/13,12:24:32.414,2008/10/13,12:28:52.074,,,0,76.4,258.3,54.05735,-4.38826,,,,,,0
MSG,3,496,211,4CA2D6,10057,2008/11/28,14:53:50.594,2008/11/28,14:58:51.153,,37000,,,51.45735,-1.02826,,,0,0,0,0
MSG,4,496,469,4CA767,27854,2010/02/19,17:58:13.039,2010/02/19,17:58:13.368,,,288.6,103.2,,,-832,,,,,
MSG,5,496,329,394A65,27868,2010/02/19,17:58:12.644,2010/02/19,17:58:13.368,,10000,,,,,,,0,,0,0
MSG,6,496,237,4CA215,27864,2010/02/19,17:58:12.846,2010/02/19,17:58:13.368,,33325,,,,,,0271,0,0,0,0
MSG,7,496,742,51106E,27929,2011/03/06,07:57:36.523,2011/03/06,07:57:37.054,,3775,,,,,,,,,,0
MSG,8,496,194,405F4E,27884,2010/02/19,17:58:13.244,2010/02/19,17:58:13.368,,,,,,,,,,,,0
"#;

#[test]
fn it_parses_the_example() {
    for line in EXAMPLE.lines() {
        if !line.is_empty() {
            Message::from_str(line).unwrap();
        }
    }
}

#[test]
fn it_reads_the_fields_of_a_selection_change() {
    let message = Message::from_str(EXAMPLE.lines().next().unwrap()).unwrap();
    match &message {
        Message::SelectionChange {
            session_id,
            aircraft_id,
            hex_ident,
            flight_id,
            callsign,
            time_generated,
            ..
        } => {
            assert_eq!(*session_id, 496);
            assert_eq!(*aircraft_id, 2286);
            assert_eq!(hex_ident.as_u32(), 0x4ca4e5);
            assert_eq!(*flight_id, 27215);
            assert_eq!(callsign, "RYR1427");
            assert_eq!(time_generated.date.year, 2010);
            assert_eq!(time_generated.date.month, 2);
            assert_eq!(time_generated.date.day, 19);
            assert_eq!(time_generated.time.hour, 18);
            assert_eq!(time_generated.time.minute, 6);
            assert_eq!(time_generated.time.second, 7);
            assert_eq!(time_generated.time.nanosecond, 710_000_000);
        }
        _ => panic!("unexpected message: {message:?}"),
    }
    assert_eq!(message.session_id(), 496);
    assert_eq!(message.time_logged(), message.time_generated());
}

#[test]
fn it_reads_a_transmission() {
    let line = EXAMPLE.lines().nth(10).unwrap();
    match Message::from_str(line).unwrap() {
        Message::Transmission {
            transmission:
                Transmission::SurveillanceIdMessage {
                    altitude,
                    squawk,
                    alert,
                    emergency,
                    spi,
                    is_on_ground,
                },
            ..
        } => {
            assert_eq!(altitude, Some(33325));
            assert_eq!(squawk.as_u16(), 0o271);
            assert!(!alert && !emergency && !spi);
            assert_eq!(is_on_ground, Some(false));
        }
        message => panic!("unexpected message: {message:?}"),
    }
    let line = EXAMPLE.lines().nth(8).unwrap();
    match Message::from_str(line).unwrap() {
        Message::Transmission {
            transmission:
                Transmission::EsAirborneVelocity {
                    ground_speed,
                    track,
                    vertical_rate,
                },
            ..
        } => {
            assert_eq!(ground_speed, "288.6");
            assert_eq!(track, "103.2");
            assert_eq!(vertical_rate, -832);
        }
        message => panic!("unexpected message: {message:?}"),
    }
}

#[test]
fn it_reports_errors() {
    assert!(matches!(Message::from_str("MSG,1,2"), Err(MessageFromStrError::Truncated)));
    assert!(matches!(
        Message::from_str("XYZ,,496,2286,4CA4E5,27215,2010/02/19,18:06:07.710,2010/02/19,18:06:07.710"),
        Err(MessageFromStrError::InvalidMessageType { value }) if value == "XYZ"
    ));
    assert!(matches!(
        Message::from_str("AIR,,x,5906,400F01,27931,2010/02/19,18:06:07.128,2010/02/19,18:06:07.128"),
        Err(MessageFromStrError::InvalidSessionId { value }) if value == "x"
    ));
    assert!(matches!(
        Message::from_str("AIR,,496,5906,400F01,27931,2010-02-19,18:06:07.128,2010/02/19,18:06:07.128"),
        Err(MessageFromStrError::InvalidDateMessageGenerated { value }) if value == "2010-02-19"
    ));
    assert!(matches!(
        Message::from_str("AIR,,496,5906,400F01,27931,2010/02/19,25:06:07.128,2010/02/19,18:06:07.128"),
        Err(MessageFromStrError::InvalidTimeMessageGenerated { .. })
    ));
    assert!(matches!(
        Message::from_str("AIR,,496,5906,ZZZ,27931,2010/02/19,18:06:07.128,2010/02/19,18:06:07.128"),
        Err(MessageFromStrError::InvalidHexIdent { value }) if value == "ZZZ"
    ));
    assert!(matches!(
        Message::from_str("STA,,5,179,400AE7,10103,2008/11/28,14:58:51.153,2008/11/28,14:58:51.153,XX"),
        Err(MessageFromStrError::InvalidStatusChange(_))
    ));
    assert!(matches!(
        Message::from_str("MSG,9,496,194,405F4E,27884,2010/02/19,17:58:13.244,2010/02/19,17:58:13.368,,,,,,,,,,,,0"),
        Err(MessageFromStrError::InvalidTransmissionType { value }) if value == "MSG"
    ));
    assert!(matches!(
        Message::from_str("MSG,4,496,469,4CA767,27854,2010/02/19,17:58:13.039,2010/02/19,17:58:13.368,,,fast,103.2,,,-832,,,,,"),
        Err(MessageFromStrError::InvalidGroundSpeed { value }) if value == "fast"
    ));
    assert!(matches!(
        Message::from_str("MSG,5,496,329,394A65,27868,2010/02/19,17:58:12.644,2010/02/19,17:58:13.368,,10000,,,,,,,1,,0,0"),
        Err(MessageFromStrError::InvalidAlert { value }) if value == "1"
    ));
}

#[test]
fn status_changes() {
    assert_eq!(StatusChange::from_str("PL").unwrap(), StatusChange::PositionLost);
    assert_eq!(StatusChange::from_str("OK").unwrap(), StatusChange::Okay);
    assert_eq!(StatusChange::from_str("ok").unwrap_err().input, "ok");
}

#[test]
fn callsigns_replace_at_signs() {
    assert_eq!(parse_callsign("AB@@1").unwrap(), "AB  1");
}

#[test]
fn it_cuts_lines() {
    let mut buffer = ReceiveBuffer::new();
    let text = b"AB\r\nCD";
    buffer.buffer[..text.len()].copy_from_slice(text);
    buffer.write_pos = text.len();
    assert_eq!(buffer.next_line(), Some(&b"AB"[..]));
    assert_eq!(buffer.next_line(), Some(&b""[..]));
    assert_eq!(buffer.next_line(), None);
    assert!(!buffer.has_data());
    buffer.prepare_read();
    assert_eq!(buffer.read_pos, 0);
    assert_eq!(buffer.write_pos, 2);
    assert_eq!(&buffer.buffer[..2], b"CD");
}

#[test]
fn it_decodes_a_stream() {
    let bytes = EXAMPLE.as_bytes();
    let mut buffer = ReceiveBuffer::new();
    let mut sent = 0;
    let mut messages = Vec::new();
    loop {
        if let Some(line) = buffer.next_line() {
            if !line.is_empty() {
                let line = std::str::from_utf8(line).unwrap();
                messages.push(Message::from_str(line).unwrap());
            }
        }
        else {
            buffer.prepare_read();
            let chunk = (bytes.len() - sent).min(100).min(1024 - buffer.write_pos);
            if chunk == 0 {
                break;
            }
            let write_pos = buffer.write_pos;
            buffer.buffer[write_pos..write_pos + chunk].copy_from_slice(&bytes[sent..sent + chunk]);
            buffer.write_pos += chunk;
            sent += chunk;
        }
    }
    assert_eq!(sent, bytes.len());
    assert_eq!(messages.len(), EXAMPLE.lines().count());
}
