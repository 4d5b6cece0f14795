//! TIS-B messages

use vstd::prelude::*;

use crate::mode_s::DecodeError;

verus! {

/// The 7 bytes of a TIS-B message, not decoded any further.
#[derive(Clone, Copy, Debug, PartialEq, Eq)]
pub struct Message {
    pub data: [u8; 7],
}

impl Message {
    /// Takes the 7 bytes of the message as they are; this always succeeds.
    pub fn decode(buffer: [u8; 7]) -> (r: Result<Self, DecodeError>)
        ensures
            r == Ok::<Message, DecodeError>(Message { data: buffer }),
    {
        Ok(Self { data: buffer })
    }
}

} // verus!
