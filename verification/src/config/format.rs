//! What is known of a container as a whole once it is open.

use vstd::prelude::*;
use core::marker::PhantomData;
use crate::tags::Input;
use crate::util::time::{TimeBase, TimeBaseTicks, Timestamp};

verus! {

/// The fields of a native container context that the binding reads.
#[derive(Debug, Clone, Copy, PartialEq, Eq, Structural)]
pub struct FormatFields {
    /// The position of the first frame, in ticks of the default time base.
    pub start_time: i64,
    /// The duration, in ticks of the default time base.
    pub duration: i64,
    /// The total bit rate in bits per second; zero when it is not known.
    pub bit_rate: i64,
    /// The number of streams.
    pub nb_streams: u32,
    /// The number of chapters.
    pub nb_chapters: u32,
}

/// The configuration of a container. `IO` says whether it is read from or
/// written to.
#[derive(Debug)]
pub struct FormatConfig<IO> {
    start_time: TimeBaseTicks,
    duration: TimeBaseTicks,
    bit_rate: Option<i64>,
    num_streams: usize,
    num_chapters: usize,
    _io: PhantomData<IO>,
}

impl FormatConfig<Input> {
    /// The configuration that the fields of an open input give.
    pub fn from_input_fmt_ctx(ctx: &FormatFields) -> (config: Self)
        ensures
            config.spec_start_time().spec_av_timestamp() == ctx.start_time,
            config.spec_duration().spec_av_timestamp() == ctx.duration,
            config.spec_bit_rate() == (if ctx.bit_rate == 0 {
                None
            } else {
                Some(ctx.bit_rate)
            }),
            config.spec_num_streams() == ctx.nb_streams,
            config.spec_num_chapters() == ctx.nb_chapters,
    {
        FormatConfig {
            start_time: TimeBaseTicks::from_av_timestamp(ctx.start_time),
            duration: TimeBaseTicks::from_av_timestamp(ctx.duration),
            bit_rate: if ctx.bit_rate == 0 {
                None
            } else {
                Some(ctx.bit_rate)
            },
            num_streams: ctx.nb_streams as usize,
            num_chapters: ctx.nb_chapters as usize,
            _io: PhantomData,
        }
    }

    /// The time of the first frame of the container.
    pub fn start_time(&self) -> (stamp: Timestamp)
        ensures
            stamp.spec_ticks() == self.spec_start_time(),
            stamp.spec_base().spec_numer() == 1,
            stamp.spec_base().spec_denom() == 1_000_000,
    {
        self.start_time.to_timestamp(TimeBase::default_base())
    }

    /// The duration of the container.
    pub fn duration(&self) -> (stamp: Timestamp)
        ensures
            stamp.spec_ticks() == self.spec_duration(),
            stamp.spec_base().spec_numer() == 1,
            stamp.spec_base().spec_denom() == 1_000_000,
    {
        self.duration.to_timestamp(TimeBase::default_base())
    }

    /// The bit rate of the container, which is never zero; nothing when it
    /// is not known.
    pub fn bit_rate(&self) -> (rate: Option<i64>)
        ensures
            rate == self.spec_bit_rate(),
    {
        self.bit_rate
    }
}

impl<T> FormatConfig<T> {
    /// The position of the first frame in ticks.
    pub closed spec fn spec_start_time(self) -> TimeBaseTicks {
        self.start_time
    }

    /// The duration in ticks.
    pub closed spec fn spec_duration(self) -> TimeBaseTicks {
        self.duration
    }

    /// The bit rate, if it is known.
    pub closed spec fn spec_bit_rate(self) -> Option<i64> {
        self.bit_rate
    }

    /// The number of streams.
    pub closed spec fn spec_num_streams(self) -> usize {
        self.num_streams
    }

    /// The number of chapters.
    pub closed spec fn spec_num_chapters(self) -> usize {
        self.num_chapters
    }

    /// The same configuration for a container with `n` streams.
    pub fn with_num_streams(self, n: usize) -> (config: Self)
        ensures
            config.spec_num_streams() == n,
            config.spec_start_time() == self.spec_start_time(),
            config.spec_duration() == self.spec_duration(),
            config.spec_bit_rate() == self.spec_bit_rate(),
            config.spec_num_chapters() == self.spec_num_chapters(),
    {
        FormatConfig {
            start_time: self.start_time,
            duration: self.duration,
            bit_rate: self.bit_rate,
            num_streams: n,
            num_chapters: self.num_chapters,
            _io: PhantomData,
        }
    }

    /// How many streams the container holds.
    pub fn num_streams(&self) -> (n: usize)
        ensures
            n == self.spec_num_streams(),
    {
        self.num_streams
    }

    /// How many chapters the container holds.
    pub fn num_chapters(&self) -> (n: usize)
        ensures
            n == self.spec_num_chapters(),
    {
        self.num_chapters
    }
}

} // verus!
