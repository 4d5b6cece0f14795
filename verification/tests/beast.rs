use adsbee::beast::{
    PacketType,
    input::InputPacketType,
    output::{
        DecoderFailure,
        OutputPacket,
        OutputPacketType,
        PacketDecoder,
        ReceiveBuffer,
    },
};

fn fill(bytes: &[u8]) -> ReceiveBuffer {
    let mut buffer = ReceiveBuffer::new();
    buffer.buffer[..bytes.len()].copy_from_slice(bytes);
    buffer.write_pos = bytes.len();
    buffer
}

fn escape(payload: &[u8]) -> Vec<u8> {
    let mut out = vec![];
    for byte in payload {
        out.push(*byte);
        if *byte == 0x1a {
            out.push(0x1a);
        }
    }
    out
}

#[test]
fn it_decodes_a_mode_s_long_packet() {
    let frame = *b"\x8d\x40\x74\xb5\x23\x15\xa6\x76\xdd\x13\xa0\x66\x29\x67";
    let mut payload = vec![1, 2, 3, 4, 5, 6, 0xa0];
    payload.extend_from_slice(&frame);
    let mut bytes = vec![0x1a, b'3'];
    bytes.extend(escape(&payload));
    let mut buffer = fill(&bytes);
    let mut decoder = PacketDecoder::new();
    let packet = decoder.decode_next(&mut buffer).expect("no packet");
    assert_eq!(
        packet,
        OutputPacket::ModeSLong {
            timestamp: [1, 2, 3, 4, 5, 6],
            signal_level: 0xa0,
            data: frame,
        }
    );
    assert_eq!(buffer.read_pos, bytes.len());
}

#[test]
fn it_unescapes_doubled_escape_bytes() {
    // a Mode S short packet whose timestamp holds an escape byte
    let payload = [0x1a, 0, 0, 0, 0, 0x1a, 0x33, 0x5d, 1, 2, 3, 4, 5, 6];
    let mut bytes = vec![0x1a, b'2'];
    bytes.extend(escape(&payload));
    let mut buffer = fill(&bytes);
    let mut decoder = PacketDecoder::default();
    let packet = decoder.decode_next(&mut buffer).expect("no packet");
    assert_eq!(
        packet,
        OutputPacket::ModeSShort {
            timestamp: [0x1a, 0, 0, 0, 0, 0x1a],
            signal_level: 0x33,
            data: [0x5d, 1, 2, 3, 4, 5, 6],
        }
    );
}

#[test]
fn it_decodes_consecutive_packets() {
    let bytes = [0x1a, b'4', 0x42, 0x1a, b'4', 0x43];
    let mut buffer = fill(&bytes);
    let mut decoder = PacketDecoder::new();
    assert_eq!(decoder.decode_next(&mut buffer), Some(OutputPacket::DipSwitches(0x42)));
    assert_eq!(decoder.decode_next(&mut buffer), Some(OutputPacket::DipSwitches(0x43)));
    assert_eq!(decoder.decode_next(&mut buffer), None);
}

#[test]
fn it_resumes_a_packet_across_buffers() {
    let mut decoder = PacketDecoder::new();
    let mut buffer = fill(&[0x1a, b'1', 0, 0, 0]);
    assert_eq!(decoder.decode_next(&mut buffer), None);
    assert_eq!(buffer.read_pos, 5);
    let mut buffer = fill(&[0, 0, 0, 7, 8, 9]);
    assert_eq!(
        decoder.decode_next(&mut buffer),
        Some(OutputPacket::ModeAc {
            timestamp: [0, 0, 0, 0, 0, 0],
            signal_level: 7,
            data: [8, 9],
        })
    );
}

#[test]
fn output_packet_types() {
    assert_eq!(OutputPacketType::from_byte(b'1'), OutputPacketType::ModeAc);
    assert_eq!(OutputPacketType::from_byte(b'2'), OutputPacketType::ModeSShort);
    assert_eq!(OutputPacketType::from_byte(b'3'), OutputPacketType::ModeSLong);
    assert_eq!(OutputPacketType::from_byte(b'4'), OutputPacketType::DipSwitches);
    assert_eq!(OutputPacketType::ModeAc.expected_length(), Some(9));
    assert_eq!(OutputPacketType::ModeSShort.expected_length(), Some(14));
    assert_eq!(OutputPacketType::ModeSLong.expected_length(), Some(21));
    assert_eq!(OutputPacketType::Unknown(0).expected_length(), None);
    assert!(OutputPacketType::Ping.is_known());
    assert!(!OutputPacketType::Unknown(0xe3).is_known());
}

#[test]
fn output_packet_type_decodes_a_receiver_id() {
    let bytes: Vec<u8> = (0..16).collect();
    assert_eq!(
        OutputPacketType::ReceiverId.decode(&bytes),
        Some(OutputPacket::ReceiverId {
            receiver_id: [0, 1, 2, 3, 4, 5, 6, 7, 8, 9, 10, 11, 12, 13, 14, 15],
        })
    );
}

#[test]
fn input_packet_types() {
    assert_eq!(InputPacketType::from_byte(b'1'), InputPacketType::DipSwitches);
    assert_eq!(InputPacketType::from_byte(b'P'), InputPacketType::Ping);
    assert_eq!(InputPacketType::from_byte(b'W'), InputPacketType::ReadsbConfig);
    assert_eq!(InputPacketType::from_byte(b'x'), InputPacketType::Unknown(b'x'));
    assert_eq!(InputPacketType::Ping.expected_length(), Some(3));
    assert!(!InputPacketType::Unknown(0).is_known());
}

#[test]
fn it_reports_garbage_outside_a_packet() {
    let mut buffer = fill(&[0x42]);
    let mut decoder = PacketDecoder::new();
    assert_eq!(decoder.try_decode_next(&mut buffer), Err(DecoderFailure::Garbage));
}

#[test]
fn it_reports_unknown_packet_types() {
    let mut buffer = fill(&[0x1a, 0xe3]);
    let mut decoder = PacketDecoder::new();
    assert_eq!(
        decoder.try_decode_next(&mut buffer),
        Err(DecoderFailure::UnknownPacketType(0xe3))
    );
}

#[test]
fn it_decodes_without_failure_when_the_stream_is_clean() {
    let bytes = [0x1a, b'4', 0x1a, 0x1a];
    let mut buffer = fill(&bytes);
    let mut decoder = PacketDecoder::new();
    assert_eq!(
        decoder.try_decode_next(&mut buffer),
        Ok(Some(OutputPacket::DipSwitches(0x1a)))
    );
}
