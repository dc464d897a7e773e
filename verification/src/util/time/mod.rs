//! Types for positions in time within a piece of media.
//!
//! A position can be counted in four ways: in ticks of a time base, in wall
//! clock milliseconds from the start, in audio samples, or in video frames.
//! A [`Timestamp`], ticks together with their time base, is the common form;
//! the others convert to it, given the stream they refer to.

pub mod audio;
pub mod generic;
pub mod video;

pub use audio::{Sample, SampleRate};
pub use generic::{rescale_periods, scale, TimeBase, TimeBaseTicks, Timestamp};
pub use video::{Frame, FrameRate};

use vstd::prelude::*;
use crate::config::stream::StreamConfig;
use crate::util::traits::MediaMarker;

verus! {

/// A position that becomes a timestamp once the stream that it refers to is
/// known.
pub trait IntoStreamTimestamp<AV: MediaMarker>: Sized {
    /// What the position is as a timestamp of the stream; nothing if the
    /// stream gives it no time.
    spec fn spec_into(self, stream: StreamConfig<AV>, stamp: Option<Timestamp>) -> bool;

    /// The position as a timestamp of the stream.
    fn into(self, stream: &StreamConfig<AV>) -> (stamp: Option<Timestamp>)
        ensures
            self.spec_into(*stream, stamp),
    ;
}

/// A timestamp is counted anew in the time base of the stream.
impl<AV: MediaMarker> IntoStreamTimestamp<AV> for Timestamp {
    open spec fn spec_into(self, stream: StreamConfig<AV>, stamp: Option<Timestamp>) -> bool {
        match self.spec_with_new_timebase(stream.spec_time_base()) {
            Some(counted) => stamp matches Some(s) && (s.spec_ticks().0 as nat, s.spec_base())
                == counted,
            None => stamp is None,
        }
    }

    fn into(self, stream: &StreamConfig<AV>) -> (stamp: Option<Timestamp>) {
        self.with_new_timebase(stream.time_base())
    }
}

} // verus!
