//! Units of audio streams.

use vstd::prelude::*;
use crate::config::stream::StreamConfig;
use crate::tags::Audio;
use crate::util::time::generic::{is_lowest_terms_of, TimeBase, TimeBaseTicks, Timestamp};
use crate::util::time::IntoStreamTimestamp;

verus! {

/// The sampling rate of an audio stream in whole hertz.
#[derive(Debug, Clone, Copy, PartialEq, Eq, Structural, PartialOrd, Ord, Hash)]
pub struct SampleRate(pub u32);

impl SampleRate {
    /// A sampling rate of `hz` hertz.
    pub fn new(hz: u32) -> (rate: SampleRate)
        ensures
            rate.0 == hz,
    {
        SampleRate(hz)
    }

    /// The sampling rate in hertz.
    pub fn as_hz(self) -> (hz: u32)
        ensures
            hz == self.0,
    {
        self.0
    }
}

/// The number of one sample of an audio stream, counted from its start.
#[derive(Debug, Clone, Copy, PartialEq, Eq, Structural, PartialOrd, Ord, Hash)]
pub struct Sample(pub u64);

/// A sample lies as many ticks of one sample period from the start as its
/// number says. A stream without a sampling rate gives it no time.
impl IntoStreamTimestamp<Audio> for Sample {
    open spec fn spec_into(self, stream: StreamConfig<Audio>, stamp: Option<Timestamp>) -> bool {
        let rate = stream.spec_parameters()@.sample_rate;
        &&& stamp is Some <==> rate != 0
        &&& stamp matches Some(s) ==> s.spec_ticks().0 == self.0 && is_lowest_terms_of(
            1,
            rate as nat,
            s.spec_base().spec_numer(),
            s.spec_base().spec_denom(),
        )
    }

    fn into(self, stream: &StreamConfig<Audio>) -> (stamp: Option<Timestamp>) {
        let rate = stream.parameters().sample_rate().as_hz();
        if rate == 0 {
            return None;
        }
        Some(TimeBaseTicks::new(self.0).to_timestamp(TimeBase::new(1, rate as u64)))
    }
}

} // verus!
