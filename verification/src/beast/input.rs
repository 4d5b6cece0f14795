//! BEAST input format: the packet types that configure a receiver.
//!
//! - [Protocol documentation][1]
//! - [readsb command handling][2]
//!
//! [1]: https://wiki.jetvision.de/wiki/Mode-S_Beast:Data_Input_Formats
//! [2]: https://github.com/wiedehopf/readsb/blob/75decb53c0e66f4c12cf24127578a3fe7d919219/net_io.c#L3889

use vstd::prelude::*;

use crate::beast::PacketType;

verus! {

/// BEAST input packet type
#[derive(Clone, Copy, Debug, PartialEq, Eq)]
pub enum InputPacketType {
    DipSwitches,
    Ping,
    ReadsbConfig,
    Unknown(u8),
}

impl PacketType for InputPacketType {
    type Packet = InputPacket;

    /// `'1'`: DIP switches, `'P'`: ping, `'W'`: readsb configuration; any
    /// other byte is an unknown type.
    open spec fn spec_from_byte(byte: u8) -> Option<Self> {
        Some(
            if byte == 0x31 {
                InputPacketType::DipSwitches
            } else if byte == 0x50 {
                InputPacketType::Ping
            } else if byte == 0x57 {
                InputPacketType::ReadsbConfig
            } else {
                InputPacketType::Unknown(byte)
            },
        )
    }

    /// DIP switches and readsb configuration carry 1 byte, a ping 3.
    open spec fn spec_expected_length(&self) -> Option<usize> {
        match self {
            InputPacketType::DipSwitches => Some(1),
            InputPacketType::Ping => Some(3),
            InputPacketType::ReadsbConfig => Some(1),
            InputPacketType::Unknown(_) => None,
        }
    }

    open spec fn spec_is_known(&self) -> bool {
        !(self is Unknown)
    }

    fn from_byte(byte: u8) -> (r: Self) {
        if byte == 0x31 {
            Self::DipSwitches
        } else if byte == 0x50 {
            Self::Ping
        } else if byte == 0x57 {
            Self::ReadsbConfig
        } else {
            Self::Unknown(byte)
        }
    }

    fn expected_length(&self) -> (r: Option<usize>) {
        match self {
            InputPacketType::DipSwitches => Some(1),
            InputPacketType::Ping => Some(3),
            InputPacketType::ReadsbConfig => Some(1),
            InputPacketType::Unknown(_) => None,
        }
    }

    fn is_known(&self) -> (r: bool) {
        match self {
            InputPacketType::Unknown(_) => false,
            _ => true,
        }
    }
}

#[derive(Clone, Debug)]
pub enum InputPacket {
    DipSwitches(ToggleDipswitch),
    Ping([u8; 3]),
    ReadsbConfig(u8),
}

/// A DIP switch command: `c`/`C` AVR or binary format, `d`/`D` DF 11/17 only
/// off or on, `e`/`E` timestamp info off or on, `f`/`F` CRC check on or off,
/// `g`/`G` GPS timestamp off or on, `h`/`H` RTS handshake off or on, `i`/`I`
/// FEC on or off, `j`/`J` Mode A/C off or on.
#[derive(Clone, Copy, Debug, PartialEq, Eq)]
pub struct ToggleDipswitch(pub u8);

} // verus!
