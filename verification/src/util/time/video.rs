//! Units of video streams.

use vstd::prelude::*;
use crate::config::stream::StreamConfig;
use crate::tags::Video;
use crate::util::time::generic::{is_lowest_terms_of, TimeBase, TimeBaseTicks, Timestamp};
use crate::util::time::IntoStreamTimestamp;

verus! {

/// The frame rate of a video stream in frames per second, as a fraction.
#[derive(Debug, Clone, Copy, PartialEq, Eq, Structural, Hash)]
pub struct FrameRate {
    /// Frames.
    pub numer: u64,
    /// Seconds.
    pub denom: u64,
}

impl FrameRate {
    /// The frame rate of film: 24 frames per second.
    pub fn film_standard() -> (rate: FrameRate)
        ensures
            rate.numer == 24,
            rate.denom == 1,
    {
        FrameRate { numer: 24, denom: 1 }
    }

    /// The frame rate of PAL video: 25 frames per second.
    pub fn pal() -> (rate: FrameRate)
        ensures
            rate.numer == 25,
            rate.denom == 1,
    {
        FrameRate { numer: 25, denom: 1 }
    }

    /// The frame rate that stands for NTSC video: 2997 frames in 1000
    /// seconds.
    pub fn ntsc() -> (rate: FrameRate)
        ensures
            rate.numer == 2997,
            rate.denom == 1000,
    {
        FrameRate { numer: 2997, denom: 1000 }
    }
}

/// The number of one frame of a video stream, counted from its start.
#[derive(Debug, Clone, Copy, PartialEq, Eq, Structural, PartialOrd, Ord, Hash)]
pub struct Frame(pub u64);

/// A frame lies as many frame periods from the start as its number says;
/// one frame period is the inverse of the average frame rate. A stream
/// without a frame rate gives it no time.
impl IntoStreamTimestamp<Video> for Frame {
    open spec fn spec_into(self, stream: StreamConfig<Video>, stamp: Option<Timestamp>) -> bool {
        let rate = stream.spec_parameters()@.avg_frame_rate;
        &&& stamp is Some <==> rate.numer != 0
        &&& stamp matches Some(s) ==> s.spec_ticks().0 == self.0 && is_lowest_terms_of(
            rate.denom as nat,
            rate.numer as nat,
            s.spec_base().spec_numer(),
            s.spec_base().spec_denom(),
        )
    }

    fn into(self, stream: &StreamConfig<Video>) -> (stamp: Option<Timestamp>) {
        let frame_rate = stream.parameters().avg_frame_rate();
        if frame_rate.numer == 0 {
            return None;
        }
        Some(
            TimeBaseTicks::new(self.0).to_timestamp(
                TimeBase::new(frame_rate.denom, frame_rate.numer),
            ),
        )
    }
}

} // verus!
