//! Tracking the Mode S frames of a receiver, and counting those that pass
//! their CRC check.

use vstd::prelude::*;

use crate::{
    mode_s::{
        spec_has_surplus_bytes,
        DecodeError,
        Frame,
        FrameWithChecksum,
    },
    tracker::state::{
        lemma_decoded_frame_adsb_acceptable,
        spec_frame_acceptable,
        spec_update_with_mode_s,
        PositionFix,
        State,
        StateModel,
    },
};

verus! {

/// The frame of some bytes, with its checksum, if it decodes and its CRC
/// check passes.
pub open spec fn spec_checked_frame(data: Seq<u8>) -> Option<Frame> {
    match Frame::spec_decode(data) {
        Ok(frame) => if (FrameWithChecksum { frame, checksum: Frame::spec_checksum(data) }).spec_check()
            == Some(true) {
            Some(frame)
        } else {
            None
        },
        Err(_) => None,
    }
}

/// The frame bytes that the processor handles: exactly one frame, or bytes
/// whose first 5 bits are no downlink format; a frame that passes its CRC
/// check must be one the tracker takes.
pub open spec fn spec_frame_data_acceptable(data: Seq<u8>) -> bool {
    &&& !spec_has_surplus_bytes(data)
    &&& match Frame::spec_decode(data) {
        Ok(_) => true,
        Err(DecodeError::InvalidDf { .. }) => true,
        Err(_) => false,
    }
    &&& spec_checked_frame(data) matches Some(frame) ==> spec_frame_acceptable(frame)
}

/// Tracks aircraft from frames and counts the frames and bytes that were
/// used.
#[derive(Debug)]
pub struct FrameProcessor<P> {
    pub state: State<P>,
    pub num_frames: usize,
    pub num_bytes: usize,
}

impl<P: Copy> FrameProcessor<P> {
    pub fn new() -> (r: Self)
        ensures
            r.state.wf(),
            r.state@.aircraft.len() == 0,
            r.num_frames == 0,
            r.num_bytes == 0,
    {
        FrameProcessor { state: State::new(), num_frames: 0, num_bytes: 0 }
    }

    /// Handles the bytes of a frame received at `time`: a frame that decodes
    /// and passes its CRC check updates the tracked aircraft and is counted
    /// (the result is then `true`, with the position fix to complete, if
    /// any); other frames, and bytes that are no frame, change nothing.
    pub fn handle_mode_s_data(&mut self, time: i64, data: &[u8]) -> (r: (bool, Option<PositionFix<P>>))
        requires
            old(self).state.wf(),
            spec_frame_data_acceptable(data@),
            old(self).state@.aircraft.len() < usize::MAX,
            old(self).num_frames < usize::MAX,
            old(self).num_bytes + data@.len() <= usize::MAX,
        ensures
            final(self).state.wf(),
            match spec_checked_frame(data@) {
                Some(frame) => {
                    let (m, fix) = spec_update_with_mode_s(old(self).state@, time, frame);
                    &&& r == (true, fix)
                    &&& final(self).state@ == m
                    &&& final(self).num_frames == old(self).num_frames + 1
                    &&& final(self).num_bytes == old(self).num_bytes + data@.len()
                },
                None => {
                    &&& r == (false, None::<PositionFix<P>>)
                    &&& final(self).state@ == old(self).state@
                    &&& final(self).num_frames == old(self).num_frames
                    &&& final(self).num_bytes == old(self).num_bytes
                },
            },
    {
        match Frame::decode_and_calculate_checksum(data) {
            Ok(frame) => {
                match frame.check() {
                    Some(true) => {
                        proof {
                            lemma_decoded_frame_adsb_acceptable(data@);
                        }
                        let fix = self.state.update_with_mode_s(time, &frame.frame);
                        self.num_bytes = self.num_bytes + data.len();
                        self.num_frames = self.num_frames + 1;
                        (true, fix)
                    },
                    _ => (false, None),
                }
            },
            Err(_error) => (false, None),
        }
    }
}

} // verus!
