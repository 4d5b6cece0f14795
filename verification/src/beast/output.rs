//! BEAST output format decoder
//!
//! The decoder is a state machine over the received bytes: a packet starts
//! with an escape, then its type byte, then its payload, in which an escape
//! byte is doubled. Reading from the underlying stream is done outside this
//! library; it fills a [`ReceiveBuffer`] and hands it to
//! [`PacketDecoder::decode_next`].

use vstd::prelude::*;

use crate::beast::{
    ESCAPE,
    MlatTimestamp,
    PacketType,
    SignalLevel,
};

verus! {

/// Size of the buffer that the stream is read into.
pub const RECEIVE_BUFFER_SIZE: usize = 512;

/// this only needs to be able to hold any packet we decode
pub const PACKET_BUFFER_SIZE: usize = 64;

/// Standard are 1, 2, 3, 4 (see [doc](https://wiki.jetvision.de/wiki/Mode-S_Beast:Data_Output_Formats))
///
/// `'4'`: 1 byte - [DIP switches](https://wiki.jetvision.de/wiki/Mode-S_Beast:Data_Input_Formats)
///
/// `P`: ping, and `0xe3`: receiver ID, are readsb extensions that the decoder
/// does not announce yet.
#[derive(Clone, Copy, Debug, PartialEq, Eq)]
pub enum OutputPacketType {
    ModeAc,
    ModeSShort,
    ModeSLong,
    DipSwitches,
    Ping,
    ReceiverId,
    Unknown(u8),
}

impl PacketType for OutputPacketType {
    type Packet = OutputPacket;

    /// `'1'`: Mode A/C, `'2'`: Mode S short, `'3'`: Mode S long, `'4'`: DIP
    /// switches. Other type bytes are not accepted.
    open spec fn spec_from_byte(byte: u8) -> Option<Self> {
        if byte == 0x31 {
            Some(OutputPacketType::ModeAc)
        } else if byte == 0x32 {
            Some(OutputPacketType::ModeSShort)
        } else if byte == 0x33 {
            Some(OutputPacketType::ModeSLong)
        } else if byte == 0x34 {
            Some(OutputPacketType::DipSwitches)
        } else {
            None
        }
    }

    /// Payload lengths: Mode A/C 9, Mode S short 14, Mode S long 21, DIP
    /// switches 1, ping 3, receiver ID 8.
    open spec fn spec_expected_length(&self) -> Option<usize> {
        match self {
            OutputPacketType::ModeAc => Some(9),
            OutputPacketType::ModeSShort => Some(14),
            OutputPacketType::ModeSLong => Some(21),
            OutputPacketType::DipSwitches => Some(1),
            OutputPacketType::Ping => Some(3),
            OutputPacketType::ReceiverId => Some(8),
            OutputPacketType::Unknown(_) => None,
        }
    }

    open spec fn spec_is_known(&self) -> bool {
        !(self is Unknown)
    }

    fn from_byte(byte: u8) -> (r: Self) {
        if byte == 0x31 {
            Self::ModeAc
        } else if byte == 0x32 {
            Self::ModeSShort
        } else if byte == 0x33 {
            Self::ModeSLong
        } else {
            Self::DipSwitches
        }
    }

    fn expected_length(&self) -> (r: Option<usize>) {
        match self {
            OutputPacketType::ModeAc => Some(9),
            OutputPacketType::ModeSShort => Some(14),
            OutputPacketType::ModeSLong => Some(21),
            OutputPacketType::DipSwitches => Some(1),
            OutputPacketType::Ping => Some(3),
            OutputPacketType::ReceiverId => Some(8),
            OutputPacketType::Unknown(_) => None,
        }
    }

    fn is_known(&self) -> (r: bool) {
        match self {
            OutputPacketType::Unknown(_) => false,
            _ => true,
        }
    }
}

#[derive(Clone, Debug, PartialEq, Eq)]
pub enum OutputPacket {
    ModeAc { timestamp: MlatTimestamp, signal_level: SignalLevel, data: [u8; 2] },
    ModeSShort { timestamp: MlatTimestamp, signal_level: SignalLevel, data: [u8; 7] },
    ModeSLong { timestamp: MlatTimestamp, signal_level: SignalLevel, data: [u8; 14] },
    DipSwitches(u8),
    Ping { data: [u8; 3] },
    /// The bytes of the receiver's UUID.
    ReceiverId { receiver_id: [u8; 16] },
}

impl OutputPacketType {
    /// The number of payload bytes that decoding a packet of this type reads.
    pub open spec fn spec_decode_length(self) -> nat {
        match self {
            OutputPacketType::ModeAc => 9,
            OutputPacketType::ModeSShort => 14,
            OutputPacketType::ModeSLong => 21,
            OutputPacketType::DipSwitches => 1,
            OutputPacketType::Ping => 3,
            OutputPacketType::ReceiverId => 16,
            OutputPacketType::Unknown(_) => 0,
        }
    }

    /// The packet of a payload: Mode A/C and Mode S packets hold a 6-byte
    /// timestamp, a signal level byte and the frame.
    pub open spec fn spec_decode(self, b: Seq<u8>) -> OutputPacket {
        match self {
            OutputPacketType::ModeAc => OutputPacket::ModeAc {
                timestamp: [b[0], b[1], b[2], b[3], b[4], b[5]],
                signal_level: b[6],
                data: [b[7], b[8]],
            },
            OutputPacketType::ModeSShort => OutputPacket::ModeSShort {
                timestamp: [b[0], b[1], b[2], b[3], b[4], b[5]],
                signal_level: b[6],
                data: [b[7], b[8], b[9], b[10], b[11], b[12], b[13]],
            },
            OutputPacketType::ModeSLong => OutputPacket::ModeSLong {
                timestamp: [b[0], b[1], b[2], b[3], b[4], b[5]],
                signal_level: b[6],
                data: [
                    b[7],
                    b[8],
                    b[9],
                    b[10],
                    b[11],
                    b[12],
                    b[13],
                    b[14],
                    b[15],
                    b[16],
                    b[17],
                    b[18],
                    b[19],
                    b[20],
                ],
            },
            OutputPacketType::DipSwitches => OutputPacket::DipSwitches(b[0]),
            OutputPacketType::Ping => OutputPacket::Ping { data: [b[0], b[1], b[2]] },
            _ => OutputPacket::ReceiverId {
                receiver_id: [
                    b[0],
                    b[1],
                    b[2],
                    b[3],
                    b[4],
                    b[5],
                    b[6],
                    b[7],
                    b[8],
                    b[9],
                    b[10],
                    b[11],
                    b[12],
                    b[13],
                    b[14],
                    b[15],
                ],
            },
        }
    }

    /// Decodes the payload of a packet of this type.
    pub fn decode(&self, b: &[u8]) -> (r: Option<OutputPacket>)
        requires
            !(*self is Unknown),
            b@.len() >= self.spec_decode_length(),
        ensures
            r == Some(self.spec_decode(b@)),
    {
        match self {
            OutputPacketType::ModeAc => Some(
                OutputPacket::ModeAc {
                    timestamp: [b[0], b[1], b[2], b[3], b[4], b[5]],
                    signal_level: b[6],
                    data: [b[7], b[8]],
                },
            ),
            OutputPacketType::ModeSShort => Some(
                OutputPacket::ModeSShort {
                    timestamp: [b[0], b[1], b[2], b[3], b[4], b[5]],
                    signal_level: b[6],
                    data: [b[7], b[8], b[9], b[10], b[11], b[12], b[13]],
                },
            ),
            OutputPacketType::ModeSLong => Some(
                OutputPacket::ModeSLong {
                    timestamp: [b[0], b[1], b[2], b[3], b[4], b[5]],
                    signal_level: b[6],
                    data: [
                        b[7],
                        b[8],
                        b[9],
                        b[10],
                        b[11],
                        b[12],
                        b[13],
                        b[14],
                        b[15],
                        b[16],
                        b[17],
                        b[18],
                        b[19],
                        b[20],
                    ],
                },
            ),
            OutputPacketType::DipSwitches => Some(OutputPacket::DipSwitches(b[0])),
            OutputPacketType::Ping => Some(OutputPacket::Ping { data: [b[0], b[1], b[2]] }),
            _ => Some(
                OutputPacket::ReceiverId {
                    receiver_id: [
                        b[0],
                        b[1],
                        b[2],
                        b[3],
                        b[4],
                        b[5],
                        b[6],
                        b[7],
                        b[8],
                        b[9],
                        b[10],
                        b[11],
                        b[12],
                        b[13],
                        b[14],
                        b[15],
                    ],
                },
            ),
        }
    }
}

/// The state of a [`PacketDecoder`] between two bytes.
pub struct DecoderModel {
    /// The escape that starts a packet was read.
    pub leading_escape_read: bool,
    /// The type of the packet being read, once its type byte was read.
    pub packet_type: Option<OutputPacketType>,
    /// The payload read so far, unescaped.
    pub payload: Seq<u8>,
    /// An escape inside the payload was the last byte of a buffer, so the
    /// byte that follows it is still to come.
    pub read_incomplete_escape: bool,
}

/// What handling a byte leads to: go on with the next byte, stop (with the
/// state after a packet, and the packet), or fail where the decoder has no
/// answer yet (garbage, an unexpected type byte or a truncated packet).
pub enum Step {
    Continue(DecoderModel),
    Stop(DecoderModel, Option<OutputPacket>),
    Fail,
}

/// The state with a payload byte appended.
pub open spec fn spec_push(st: DecoderModel, byte: u8) -> DecoderModel {
    DecoderModel { payload: st.payload.push(byte), ..st }
}

/// Emitting the packet read so far: it must be complete, its type known and
/// the payload long enough to decode. The decoder then waits for the next
/// leading escape, with the type of the next packet if it is already known.
pub open spec fn spec_emit(st: DecoderModel, next: Option<OutputPacketType>) -> Step {
    match st.packet_type {
        Some(pt) => if st.read_incomplete_escape || !st.leading_escape_read || pt is Unknown
            || pt.spec_expected_length() != Some(st.payload.len() as usize) || st.payload.len()
            < pt.spec_decode_length() {
            Step::Fail
        } else {
            Step::Stop(
                DecoderModel {
                    leading_escape_read: false,
                    packet_type: next,
                    payload: Seq::empty(),
                    read_incomplete_escape: st.read_incomplete_escape,
                },
                Some(pt.spec_decode(st.payload)),
            )
        },
        None => Step::Stop(st, None),
    }
}

/// After a payload byte: a payload that reached the expected length of its
/// type is emitted.
pub open spec fn spec_complete(pt: OutputPacketType, st: DecoderModel) -> Step {
    match pt.spec_expected_length() {
        Some(l) => if st.payload.len() == l {
            spec_emit(st, None)
        } else {
            Step::Continue(st)
        },
        None => Step::Continue(st),
    }
}

/// Runs the decoder over `bytes` from index `i` until a packet is emitted or
/// the bytes are used up. The result is the state after, the index of the
/// first byte not read, the packet, and the failure where the decoder has no
/// answer (none where it got there without one).
pub open spec fn spec_run(st: DecoderModel, bytes: Seq<u8>, i: int) -> (
    DecoderModel,
    int,
    Option<OutputPacket>,
    Option<DecoderFailure>,
)
    decreases bytes.len() - i,
{
    if i >= bytes.len() || i < 0 {
        (st, i, None, None)
    } else {
        let byte = bytes[i];
        if st.leading_escape_read {
            match st.packet_type {
                Some(pt) => {
                    if st.read_incomplete_escape {
                        let st1 = DecoderModel { read_incomplete_escape: false, ..st };
                        if byte == ESCAPE {
                            let st2 = if pt.spec_is_known() {
                                spec_push(st1, ESCAPE)
                            } else {
                                st1
                            };
                            match spec_complete(pt, st2) {
                                Step::Continue(s) => spec_run(s, bytes, i + 1),
                                Step::Stop(s, p) => (s, i + 1, p, None),
                                Step::Fail => (st, i, None, Some(DecoderFailure::TruncatedPacket)),
                            }
                        } else {
                            match OutputPacketType::spec_from_byte(byte) {
                                Some(next) => match spec_emit(st1, Some(next)) {
                                    Step::Stop(s, p) => (
                                        s,
                                        i + 1,
                                        p,
                                        if p is Some {
                                            None
                                        } else {
                                            Some(DecoderFailure::TruncatedPacket)
                                        },
                                    ),
                                    _ => (st, i, None, Some(DecoderFailure::TruncatedPacket)),
                                },
                                None => (st, i, None, Some(DecoderFailure::UnknownPacketType(byte))),
                            }
                        }
                    } else if byte == ESCAPE {
                        if i + 1 < bytes.len() {
                            let st2 = if pt.spec_is_known() {
                                spec_push(st, bytes[i + 1])
                            } else {
                                st
                            };
                            match spec_complete(pt, st2) {
                                Step::Continue(s) => spec_run(s, bytes, i + 2),
                                Step::Stop(s, p) => (s, i + 2, p, None),
                                Step::Fail => (st, i, None, Some(DecoderFailure::TruncatedPacket)),
                            }
                        } else {
                            (DecoderModel { read_incomplete_escape: true, ..st }, i + 1, None, None)
                        }
                    } else {
                        let st2 = if pt.spec_is_known() {
                            spec_push(st, byte)
                        } else {
                            st
                        };
                        match spec_complete(pt, st2) {
                            Step::Continue(s) => spec_run(s, bytes, i + 1),
                            Step::Stop(s, p) => (s, i + 1, p, None),
                            Step::Fail => (st, i, None, Some(DecoderFailure::TruncatedPacket)),
                        }
                    }
                },
                None => if byte == ESCAPE {
                    (st, i, None, Some(DecoderFailure::Garbage))
                } else {
                    match OutputPacketType::spec_from_byte(byte) {
                        Some(t) => spec_run(DecoderModel { packet_type: Some(t), ..st }, bytes, i + 1),
                        None => (st, i, None, Some(DecoderFailure::UnknownPacketType(byte))),
                    }
                },
            }
        } else if byte == ESCAPE {
            spec_run(
                DecoderModel {
                    leading_escape_read: true,
                    packet_type: None,
                    payload: Seq::empty(),
                    ..st
                },
                bytes,
                i + 1,
            )
        } else {
            (st, i, None, Some(DecoderFailure::Garbage))
        }
    }
}

/// The bytes read from the stream that were not decoded yet.
#[derive(Debug)]
pub struct ReceiveBuffer {
    pub buffer: [u8; 512],
    pub read_pos: usize,
    pub write_pos: usize,
}

impl ReceiveBuffer {
    pub open spec fn wf(&self) -> bool {
        self.read_pos <= self.write_pos <= 512
    }

    /// The bytes that were read into the buffer.
    pub open spec fn filled(&self) -> Seq<u8> {
        self.buffer@.take(self.write_pos as int)
    }

    /// An empty buffer.
    pub fn new() -> (r: Self)
        ensures
            r.wf(),
            r.read_pos == 0,
            r.write_pos == 0,
    {
        Self { buffer: [0u8; 512], read_pos: 0, write_pos: 0 }
    }

    pub fn has_data(&self) -> (r: bool)
        ensures
            r == (self.read_pos < self.write_pos),
    {
        self.read_pos < self.write_pos
    }

    /// Marks the buffer empty, to be filled from the start.
    pub fn reset(&mut self)
        ensures
            final(self).read_pos == 0,
            final(self).write_pos == 0,
            final(self).buffer == old(self).buffer,
    {
        self.read_pos = 0;
        self.write_pos = 0;
    }

    /// The next byte not read yet, if there is one.
    pub fn next_byte(&mut self) -> (r: Option<u8>)
        requires
            old(self).wf(),
        ensures
            final(self).wf(),
            final(self).buffer == old(self).buffer,
            final(self).write_pos == old(self).write_pos,
            old(self).read_pos < old(self).write_pos ==> r == Some(old(self).buffer@[old(self).read_pos as int])
                && final(self).read_pos == old(self).read_pos + 1,
            old(self).read_pos >= old(self).write_pos ==> r is None && final(self).read_pos == old(self).read_pos,
    {
        if self.read_pos < self.write_pos {
            let byte = self.buffer[self.read_pos];
            self.read_pos += 1;
            Some(byte)
        } else {
            None
        }
    }
}

impl Default for ReceiveBuffer {
    fn default() -> (r: Self)
        ensures
            r.wf(),
            r.read_pos == 0,
            r.write_pos == 0,
    {
        Self::new()
    }
}

/// Decodes packets from the bytes of a BEAST output stream, across buffers.
#[derive(Debug)]
pub struct PacketDecoder {
    leading_escape_read: bool,
    packet_type: Option<OutputPacketType>,
    buffer: [u8; 64],
    buffer_write_pos: usize,
    read_incomplete_escape: bool,
}

impl PacketDecoder {
    pub closed spec fn model(&self) -> DecoderModel {
        DecoderModel {
            leading_escape_read: self.leading_escape_read,
            packet_type: self.packet_type,
            payload: self.buffer@.take(self.buffer_write_pos as int),
            read_incomplete_escape: self.read_incomplete_escape,
        }
    }

    /// The payload stays shorter than its type's length (so it fits the
    /// buffer), no payload is kept before a type byte, and types are known.
    pub closed spec fn wf(&self) -> bool {
        &&& self.buffer_write_pos <= 64
        &&& match self.packet_type {
            Some(pt) => !(pt is Unknown) && (pt.spec_expected_length() matches Some(l)
                && self.buffer_write_pos < l),
            None => self.buffer_write_pos == 0,
        }
    }

    /// A decoder waiting for the first leading escape.
    pub fn new() -> (r: Self)
        ensures
            r.wf(),
            r.model() == (DecoderModel {
                leading_escape_read: false,
                packet_type: None,
                payload: Seq::empty(),
                read_incomplete_escape: false,
            }),
    {
        let r = Self {
            leading_escape_read: false,
            packet_type: None,
            buffer: [0u8; 64],
            buffer_write_pos: 0,
            read_incomplete_escape: false,
        };
        assert(r.buffer@.take(0) =~= Seq::<u8>::empty());
        r
    }

    fn push_byte(&mut self, byte: u8)
        requires
            old(self).buffer_write_pos < 64,
        ensures
            final(self).model() == spec_push(old(self).model(), byte),
            final(self).buffer_write_pos == old(self).buffer_write_pos + 1,
            final(self).packet_type == old(self).packet_type,
    {
        let pos = self.buffer_write_pos;
        self.buffer[pos] = byte;
        self.buffer_write_pos = pos + 1;
        assert(self.buffer@.take(pos as int + 1) =~= old(self).buffer@.take(pos as int).push(byte));
    }

    fn emit_packet(&mut self, next_packet_type: Option<OutputPacketType>) -> (r: Option<OutputPacket>)
        requires
            old(self).buffer_write_pos <= 64,
            old(self).packet_type is Some,
            spec_emit(old(self).model(), next_packet_type) !is Fail,
            next_packet_type matches Some(t) ==> !(t is Unknown) && t.spec_expected_length() is Some,
        ensures
            spec_emit(old(self).model(), next_packet_type) == Step::Stop(final(self).model(), r),
            final(self).wf(),
    {
        let packet_type = self.packet_type.unwrap();
        let pos = self.buffer_write_pos;
        let packet = packet_type.decode(self.buffer.as_slice());
        assert(packet_type.spec_decode(self.buffer@) == packet_type.spec_decode(
            self.buffer@.take(pos as int),
        ));
        self.leading_escape_read = false;
        self.packet_type = next_packet_type;
        self.buffer_write_pos = 0;
        assert(self.buffer@.take(0) =~= Seq::<u8>::empty());
        packet
    }

    /// Whether emitting the packet read so far is possible (see
    /// [`spec_emit`]).
    fn can_emit(&self) -> (r: bool)
        requires
            self.buffer_write_pos <= 64,
            self.packet_type is Some,
        ensures
            r == (spec_emit(self.model(), None) !is Fail),
    {
        let packet_type = self.packet_type.unwrap();
        let decode_length: usize = match packet_type {
            OutputPacketType::ModeAc => 9,
            OutputPacketType::ModeSShort => 14,
            OutputPacketType::ModeSLong => 21,
            OutputPacketType::DipSwitches => 1,
            OutputPacketType::Ping => 3,
            OutputPacketType::ReceiverId => 16,
            OutputPacketType::Unknown(_) => 0,
        };
        let length_ok = match packet_type.expected_length() {
            Some(l) => l == self.buffer_write_pos,
            None => false,
        };
        !self.read_incomplete_escape && self.leading_escape_read && packet_type.is_known()
            && length_ok && self.buffer_write_pos >= decode_length
    }

    /// Reads from the receive buffer as much as needed to decode one packet,
    /// as [`decode_next`][Self::decode_next] does; where the decoder has no
    /// answer (garbage outside a packet, an unexpected type byte, a packet cut
    /// short by the next one) it stops with an error, and its state is then
    /// not to be used further.
    pub fn try_decode_next(&mut self, receive_buffer: &mut ReceiveBuffer) -> (r: Result<
        Option<OutputPacket>,
        DecoderFailure,
    >)
        requires
            old(self).wf(),
            old(receive_buffer).wf(),
        ensures
            final(receive_buffer).wf(),
            final(receive_buffer).buffer == old(receive_buffer).buffer,
            final(receive_buffer).write_pos == old(receive_buffer).write_pos,
            ({
                let out = spec_run(
                    old(self).model(),
                    old(receive_buffer).filled(),
                    old(receive_buffer).read_pos as int,
                );
                &&& r is Ok <==> out.3 is None
                &&& r matches Err(e) ==> out.3 == Some(e)
                &&& r matches Ok(packet) ==> final(self).wf() && final(self).model() == out.0
                    && final(receive_buffer).read_pos == out.1 && packet == out.2
            }),
    {
        let ghost bytes = receive_buffer.filled();
        assert(bytes.len() == receive_buffer.write_pos);
        let ghost out = spec_run(self.model(), bytes, receive_buffer.read_pos as int);
        loop
            invariant
                self.wf(),
                receive_buffer.wf(),
                receive_buffer.buffer == old(receive_buffer).buffer,
                receive_buffer.write_pos == old(receive_buffer).write_pos,
                bytes == receive_buffer.filled(),
                bytes.len() == receive_buffer.write_pos,
                spec_run(self.model(), bytes, receive_buffer.read_pos as int) == out,
                out == spec_run(
                    old(self).model(),
                    old(receive_buffer).filled(),
                    old(receive_buffer).read_pos as int,
                ),
            decreases receive_buffer.write_pos - receive_buffer.read_pos,
        {
            let i = receive_buffer.read_pos;
            let byte = match receive_buffer.next_byte() {
                Some(byte) => byte,
                None => {
                    return Ok(None);
                },
            };
            assert(byte == bytes[i as int]);
            if self.leading_escape_read {
                match self.packet_type {
                    Some(packet_type) => {
                        if self.read_incomplete_escape {
                            self.read_incomplete_escape = false;
                            if byte == ESCAPE {
                                if packet_type.is_known() {
                                    self.push_byte(ESCAPE);
                                }
                            } else {
                                if !(0x31 <= byte && byte <= 0x34) {
                                    return Err(DecoderFailure::UnknownPacketType(byte));
                                }
                                let next = OutputPacketType::from_byte(byte);
                                self.leading_escape_read = true;
                                if !self.can_emit() {
                                    return Err(DecoderFailure::TruncatedPacket);
                                }
                                let packet = self.emit_packet(Some(next));
                                if packet.is_some() {
                                    return Ok(packet);
                                }
                            }
                        } else {
                            let mut payload_byte = byte;
                            if byte == ESCAPE {
                                match receive_buffer.next_byte() {
                                    Some(next_byte) => {
                                        payload_byte = next_byte;
                                    },
                                    None => {
                                        self.read_incomplete_escape = true;
                                        return Ok(None);
                                    },
                                }
                            }
                            if packet_type.is_known() {
                                self.push_byte(payload_byte);
                            }
                        }
                        match packet_type.expected_length() {
                            Some(expected_length) => {
                                if self.buffer_write_pos == expected_length {
                                    if !self.can_emit() {
                                        return Err(DecoderFailure::TruncatedPacket);
                                    }
                                    let packet = self.emit_packet(None);
                                    if packet.is_some() {
                                        return Ok(packet);
                                    }
                                }
                            },
                            None => {},
                        }
                    },
                    None => {
                        if byte == ESCAPE {
                            return Err(DecoderFailure::Garbage);
                        }
                        if !(0x31 <= byte && byte <= 0x34) {
                            return Err(DecoderFailure::UnknownPacketType(byte));
                        }
                        self.packet_type = Some(OutputPacketType::from_byte(byte));
                    },
                }
            } else {
                if byte != ESCAPE {
                    return Err(DecoderFailure::Garbage);
                }
                self.leading_escape_read = true;
                self.packet_type = None;
                self.buffer_write_pos = 0;
                assert(self.buffer@.take(0) =~= Seq::<u8>::empty());
            }
        }
    }

    /// Reads from the receive buffer as much as needed to decode one packet.
    /// If there isn't enough data in the buffer, returns `None`, having read
    /// all of it.
    ///
    /// The decoder keeps track of any partially decoded packets and the next
    /// invocation of this method will resume decoding.
    pub fn decode_next(&mut self, receive_buffer: &mut ReceiveBuffer) -> (r: Option<OutputPacket>)
        requires
            old(self).wf(),
            old(receive_buffer).wf(),
            spec_run(
                old(self).model(),
                old(receive_buffer).filled(),
                old(receive_buffer).read_pos as int,
            ).3 is None,
        ensures
            final(self).wf(),
            final(receive_buffer).wf(),
            final(receive_buffer).buffer == old(receive_buffer).buffer,
            final(receive_buffer).write_pos == old(receive_buffer).write_pos,
            ({
                let out = spec_run(
                    old(self).model(),
                    old(receive_buffer).filled(),
                    old(receive_buffer).read_pos as int,
                );
                final(self).model() == out.0 && final(receive_buffer).read_pos == out.1 && r
                    == out.2
            }),
    {
        match self.try_decode_next(receive_buffer) {
            Ok(packet) => packet,
            Err(_) => None,
        }
    }
}

/// Where the decoder has no answer.
#[derive(Clone, Copy, Debug, PartialEq, Eq)]
pub enum DecoderFailure {
    /// A byte outside a packet that is not a leading escape, or an escape
    /// where a type byte belongs.
    Garbage,
    /// A type byte that the decoder does not accept.
    UnknownPacketType(u8),
    /// A packet that is not complete when the next one starts.
    TruncatedPacket,
}

impl Default for PacketDecoder {
    fn default() -> (r: Self)
        ensures
            r.wf(),
            r.model() == (DecoderModel {
                leading_escape_read: false,
                packet_type: None,
                payload: Seq::empty(),
                read_incomplete_escape: false,
            }),
    {
        Self::new()
    }
}

/// The payload of a packet as it is sent: every escape byte doubled.
pub open spec fn spec_escape(payload: Seq<u8>) -> Seq<u8>
    decreases payload.len(),
{
    if payload.len() == 0 {
        Seq::empty()
    } else {
        (if payload[0] == ESCAPE {
            seq![ESCAPE, ESCAPE]
        } else {
            seq![payload[0]]
        }) + spec_escape(payload.drop_first())
    }
}

/// A packet as it is sent: the leading escape, the type byte and the escaped
/// payload.
pub open spec fn spec_encode_packet(type_byte: u8, payload: Seq<u8>) -> Seq<u8> {
    seq![ESCAPE, type_byte] + spec_escape(payload)
}

/// The state of a decoder between packets.
pub open spec fn spec_idle() -> DecoderModel {
    DecoderModel {
        leading_escape_read: false,
        packet_type: None,
        payload: Seq::empty(),
        read_incomplete_escape: false,
    }
}

proof fn lemma_escape_split(p: Seq<u8>, k: int)
    requires
        0 <= k <= p.len(),
    ensures
        spec_escape(p) == spec_escape(p.take(k)) + spec_escape(p.skip(k)),
    decreases k,
{
    if k == 0 {
        assert(p.take(0) =~= Seq::<u8>::empty());
        assert(p.skip(0) =~= p);
        assert(spec_escape(p.take(0)) + spec_escape(p) =~= spec_escape(p));
    } else {
        let q = p.drop_first();
        lemma_escape_split(q, k - 1);
        assert(p.take(k).drop_first() =~= q.take(k - 1));
        assert(p.take(k)[0] == p[0]);
        assert(p.skip(k) =~= q.skip(k - 1));
        let head = if p[0] == ESCAPE {
            seq![ESCAPE, ESCAPE]
        } else {
            seq![p[0]]
        };
        assert(spec_escape(p.take(k)) == head + spec_escape(q.take(k - 1)));
        assert(head + (spec_escape(q.take(k - 1)) + spec_escape(q.skip(k - 1))) =~= (head
            + spec_escape(q.take(k - 1))) + spec_escape(q.skip(k - 1)));
    }
}

proof fn lemma_escape_take_next(p: Seq<u8>, k: int)
    requires
        0 <= k < p.len(),
    ensures
        spec_escape(p.take(k + 1)) == spec_escape(p.take(k)) + (if p[k] == ESCAPE {
            seq![ESCAPE, ESCAPE]
        } else {
            seq![p[k]]
        }),
{
    let q = p.take(k + 1);
    lemma_escape_split(q, k);
    assert(q.take(k) =~= p.take(k));
    assert(q.skip(k) =~= seq![p[k]]);
    let e = seq![p[k]];
    assert(e.drop_first() =~= Seq::<u8>::empty());
    assert(spec_escape(e.drop_first()) == Seq::<u8>::empty());
    assert(spec_escape(seq![p[k]]) =~= (if p[k] == ESCAPE {
        seq![ESCAPE, ESCAPE]
    } else {
        seq![p[k]]
    }));
}

proof fn lemma_decode_payload(
    pt: OutputPacketType,
    type_byte: u8,
    payload: Seq<u8>,
    rest: Seq<u8>,
    k: int,
)
    requires
        OutputPacketType::spec_from_byte(type_byte) == Some(pt),
        pt.spec_expected_length() matches Some(l) && payload.len() == l,
        0 <= k < payload.len(),
    ensures
        ({
            let bytes = spec_encode_packet(type_byte, payload) + rest;
            let st = DecoderModel {
                leading_escape_read: true,
                packet_type: Some(pt),
                payload: payload.take(k),
                read_incomplete_escape: false,
            };
            spec_run(st, bytes, 2 + spec_escape(payload.take(k)).len() as int) == (
                spec_idle(),
                spec_encode_packet(type_byte, payload).len() as int,
                Some(pt.spec_decode(payload)),
                None::<DecoderFailure>,
            )
        }),
    decreases payload.len() - k,
{
    let enc = spec_encode_packet(type_byte, payload);
    let bytes = enc + rest;
    let pos: int = 2 + spec_escape(payload.take(k)).len() as int;
    lemma_escape_split(payload, k);
    lemma_escape_take_next(payload, k);
    let tail = spec_escape(payload.skip(k));
    assert(payload.skip(k)[0] == payload[k]);
    assert(bytes[pos] == tail[0]);
    let st1 = DecoderModel {
        leading_escape_read: true,
        packet_type: Some(pt),
        payload: payload.take(k + 1),
        read_incomplete_escape: false,
    };
    let step: int = if payload[k] == ESCAPE {
        2
    } else {
        1
    };
    assert(payload.take(k).push(payload[k]) =~= payload.take(k + 1));
    if payload[k] == ESCAPE {
        assert(bytes[pos + 1] == ESCAPE);
    }
    assert(pos + step == 2 + spec_escape(payload.take(k + 1)).len());
    if k + 1 == payload.len() {
        assert(payload.take(k + 1) =~= payload);
        assert(spec_escape(payload.take(k + 1)).len() + 2 == enc.len());
        assert(spec_idle().payload =~= Seq::<u8>::empty());
    } else {
        lemma_decode_payload(pt, type_byte, payload, rest, k + 1);
    }
}

/// Decoding a packet as it is sent gives its payload back: from the state
/// between packets, the decoder reads exactly the encoded packet (bytes that
/// follow it are left for later), emits the packet of its type and payload,
/// and is between packets again. The type byte must be one that the decoder
/// accepts, and the payload as long as that type's packets.
pub proof fn law_decode_encoded_packet(type_byte: u8, payload: Seq<u8>, rest: Seq<u8>)
    requires
        OutputPacketType::spec_from_byte(type_byte) matches Some(pt) && (pt.spec_expected_length()
            matches Some(l) && payload.len() == l),
    ensures
        ({
            let enc = spec_encode_packet(type_byte, payload);
            let pt = OutputPacketType::spec_from_byte(type_byte)->0;
            spec_run(spec_idle(), enc + rest, 0) == (
                spec_idle(),
                enc.len() as int,
                Some(pt.spec_decode(payload)),
                None::<DecoderFailure>,
            )
        }),
{
    let pt = OutputPacketType::spec_from_byte(type_byte)->0;
    let enc = spec_encode_packet(type_byte, payload);
    let bytes = enc + rest;
    assert(bytes[0] == ESCAPE);
    assert(bytes[1] == type_byte);
    assert(payload.take(0) =~= Seq::<u8>::empty());
    assert(spec_escape(payload.take(0)) =~= Seq::<u8>::empty());
    lemma_decode_payload(pt, type_byte, payload, rest, 0);
    let st_after_escape = DecoderModel {
        leading_escape_read: true,
        packet_type: None,
        payload: Seq::empty(),
        read_incomplete_escape: false,
    };
    assert(spec_run(spec_idle(), bytes, 0) == spec_run(st_after_escape, bytes, 1));
    let st0 = DecoderModel {
        leading_escape_read: true,
        packet_type: Some(pt),
        payload: payload.take(0),
        read_incomplete_escape: false,
    };
    assert(spec_run(st_after_escape, bytes, 1) == spec_run(st0, bytes, 2));
}

} // verus!
