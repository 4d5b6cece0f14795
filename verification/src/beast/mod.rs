//! BEAST format
//!
//! The BEAST format is a stream protocol to transmit ADS-B related data frames
//! as they're captured by a receiver. It's an escaped format, meaning frames
//! start with an escape byte, and any occurances of the escape byte in the
//! payload is escaped as two escape bytes. This allows for finding the start of
//! a packet and skipping malformed/unrecognized packets.
//!
//! The original format transports Mode A/C, Mode S (short and long) and
//! configuration data. But the readsb program extends the protocol to transport
//! various other bits of information, such as receiver ID.
//!
//! The protocol is actually bi-directional, but it's mostly used to receive
//! data from a BEAST module (or readsb) - this is BEAST output. The other
//! direction, BEAST input is only used to set configuration.
//!
//! - [Protocol documentation][1]
//! - [wiedehopf/readsb encoding][2]
//! - [wiedehopf/readsb decoding][3]
//! - [HULC extension][4]
//!
//! [1]: https://wiki.jetvision.de/wiki/Mode-S_Beast:Data_Output_Formats
//! [2]: https://github.com/wiedehopf/readsb/blob/75decb53c0e66f4c12cf24127578a3fe7d919219/net_io.c#L1754
//! [3]: https://github.com/wiedehopf/readsb/blob/75decb53c0e66f4c12cf24127578a3fe7d919219/net_io.c#L4885
//! [4]: https://static.avionix-tech.com/statics/cms/2023-11-21/GNS5894T_ADSB_Module_datasheet_V1.1.pdf

pub mod input;
pub mod output;

use vstd::prelude::*;

verus! {

/// the "escape" byte.
pub const ESCAPE: u8 = 0x1a;

/// The 6-byte, big-endian MLAT timestamp of a packet.
///
/// > Upper 18 bits are seconds since last midnight 00:00:00 UTC
/// > Lower 30 bits are nanoseconds of current second
pub type MlatTimestamp = [u8; 6];

/// Logarithmic field-strength indicator of a packet.
pub type SignalLevel = u8;

/// The type of a packet, announced by the byte after the leading escape.
pub trait PacketType: Sized {
    type Packet;

    /// The packet type that a type byte announces, or nothing for a byte that
    /// the decoder does not accept.
    spec fn spec_from_byte(byte: u8) -> Option<Self>;

    /// The number of payload bytes of a packet of this type, if known.
    spec fn spec_expected_length(&self) -> Option<usize>;

    /// Whether the packet type is known (its payload is kept).
    spec fn spec_is_known(&self) -> bool;

    fn from_byte(byte: u8) -> (r: Self)
        requires
            Self::spec_from_byte(byte) is Some,
        ensures
            Self::spec_from_byte(byte) == Some(r),
    ;

    fn expected_length(&self) -> (r: Option<usize>)
        ensures
            r == self.spec_expected_length(),
    ;

    fn is_known(&self) -> (r: bool)
        ensures
            r == self.spec_is_known(),
    ;
}

} // verus!
