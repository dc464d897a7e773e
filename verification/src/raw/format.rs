//! Containers: files or data streams that hold media streams.

use vstd::prelude::*;
use crate::config::format::{FormatConfig, FormatFields};
use crate::config::stream::StreamFields;
use crate::error::{spec_from_av_err, Error, ErrorView};
use crate::raw::packet::{Packet, PacketView};
use crate::raw::stream::StreamRef;
use crate::sys::{AVERROR_DECODER_NOT_FOUND, AVERROR_STREAM_NOT_FOUND};
use crate::tags::{Input, MediaType, Unknown};
use crate::util::time::generic::{spec_can_rescale_periods, spec_rescale_periods};
use crate::util::time::{rescale_periods, Frame, Sample, TimeBaseTicks, Timestamp};
use crate::util::path_to_cstr;
use crate::util::traits::MediaMarker;

verus! {

/// What the native layer answered when an input was opened and probed.
#[derive(Debug, Clone)]
pub struct OpenOutcome {
    /// The return code of opening the input.
    pub open_ret: i32,
    /// The return code of probing the input for its streams; read only if
    /// opening succeeded.
    pub info_ret: i32,
    /// The fields of the open container; read only if probing succeeded.
    pub fields: FormatFields,
    /// The stream table of the open container; read only if probing
    /// succeeded.
    pub streams: Vec<StreamFields>,
}

/// The native call that is due while an input is opened.
#[derive(Debug, Clone, Copy, PartialEq, Eq, Structural)]
pub enum OpenStep {
    /// Open the file.
    OpenFile,
    /// Probe the open input for its streams.
    FindStreamInfo,
    /// Read the fields of the container and its stream table.
    ReadStreams,
    /// No call is due: the outcome is complete.
    Finished,
}

/// What the native layer answered to one call of opening an input.
#[derive(Debug, Clone)]
pub enum OpenAnswer {
    /// The return code of opening the file.
    Opened(i32),
    /// The return code of probing the input.
    Probed(i32),
    /// The fields of the container and its stream table.
    Streams { fields: FormatFields, streams: Vec<StreamFields> },
}

impl OpenOutcome {
    /// The call that is due next and the outcome, after the call that was
    /// due has been answered. A call that failed ends the opening; an answer
    /// to another call than the one that was due changes nothing.
    pub open spec fn spec_answered(self, due: OpenStep, answer: OpenAnswer) -> (
        OpenStep,
        OpenOutcome,
    ) {
        match (due, answer) {
            (OpenStep::OpenFile, OpenAnswer::Opened(open_ret)) => (
                if open_ret >= 0 {
                    OpenStep::FindStreamInfo
                } else {
                    OpenStep::Finished
                },
                OpenOutcome { open_ret, ..self },
            ),
            (OpenStep::FindStreamInfo, OpenAnswer::Probed(info_ret)) => (
                if info_ret >= 0 {
                    OpenStep::ReadStreams
                } else {
                    OpenStep::Finished
                },
                OpenOutcome { info_ret, ..self },
            ),
            (OpenStep::ReadStreams, OpenAnswer::Streams { fields, streams }) => (
                OpenStep::Finished,
                OpenOutcome { fields, streams, ..self },
            ),
            _ => (due, self),
        }
    }

    /// The outcome before the native layer was asked anything. The first
    /// call that is due is [`OpenStep::OpenFile`].
    pub fn unanswered() -> (outcome: OpenOutcome)
        ensures
            outcome.open_ret == 0,
            outcome.info_ret == 0,
            outcome.fields == (FormatFields {
                start_time: 0,
                duration: 0,
                bit_rate: 0,
                nb_streams: 0,
                nb_chapters: 0,
            }),
            outcome.streams@.len() == 0,
    {
        OpenOutcome {
            open_ret: 0,
            info_ret: 0,
            fields: FormatFields {
                start_time: 0,
                duration: 0,
                bit_rate: 0,
                nb_streams: 0,
                nb_chapters: 0,
            },
            streams: Vec::new(),
        }
    }

    /// Takes in the answer to the call that was due and says which call is
    /// due next.
    pub fn answered(self, due: OpenStep, answer: OpenAnswer) -> (next: (OpenStep, OpenOutcome))
        ensures
            next == self.spec_answered(due, answer),
    {
        let mut outcome = self;
        match (due, answer) {
            (OpenStep::OpenFile, OpenAnswer::Opened(open_ret)) => {
                outcome.open_ret = open_ret;
                if open_ret >= 0 {
                    (OpenStep::FindStreamInfo, outcome)
                } else {
                    (OpenStep::Finished, outcome)
                }
            },
            (OpenStep::FindStreamInfo, OpenAnswer::Probed(info_ret)) => {
                outcome.info_ret = info_ret;
                if info_ret >= 0 {
                    (OpenStep::ReadStreams, outcome)
                } else {
                    (OpenStep::Finished, outcome)
                }
            },
            (OpenStep::ReadStreams, OpenAnswer::Streams { fields, streams }) => {
                outcome.fields = fields;
                outcome.streams = streams;
                (OpenStep::Finished, outcome)
            },
            (due, _) => (due, outcome),
        }
    }
}

/// What the native layer answered when the next packet was read.
#[derive(Debug, Clone, Copy)]
pub struct ReadOutcome {
    /// The return code of the read.
    pub ret: i32,
    /// The stream index that the packet carries; read only if the read
    /// succeeded.
    pub stream_index: i32,
    /// The number of bytes of the packet; read only if the read succeeded.
    pub size: i32,
}

/// The native flag that asks for the key frame before the time that is
/// sought rather than the one after it.
pub const AVSEEK_FLAG_BACKWARD: i32 = 1;

/// The time that is sought, in one of the ways in which time is counted.
#[derive(Debug, Clone, Copy)]
pub enum SeekTarget {
    /// In ticks of the time base of the stream.
    Ticks(TimeBaseTicks),
    /// As a time from the start.
    Time(Timestamp),
    /// As the number of a sample of an audio stream.
    Sample(Sample),
    /// As the number of a frame of a video stream.
    Frame(Frame),
}

/// Which of the two key frames next to the time is sought.
#[derive(Debug, Clone, Copy, PartialEq, Eq, Structural)]
pub enum SeekDirection {
    /// The nearest key frame that is not after the time.
    Before,
    /// The nearest key frame that is not before the time.
    After,
}

/// A seek as it is asked of the native layer.
#[derive(Debug, Clone, Copy, PartialEq, Eq, Structural)]
pub struct SeekRequest {
    /// The stream whose time base the timestamp is counted in.
    pub stream_index: i32,
    /// The time in ticks of the time base of the stream.
    pub timestamp: i64,
    /// The native seek flags.
    pub flags: i32,
}

/// The time that is sought in ticks of the time base of the stream; an
/// error if the stream is not of the kind that the way of counting calls
/// for, or if the time cannot be counted in that time base.
pub open spec fn spec_seek_ticks(stream: StreamFields, target: SeekTarget) -> Result<nat, ErrorView> {
    match target {
        SeekTarget::Ticks(ticks) => Ok(ticks.0 as nat),
        SeekTarget::Time(stamp) => match stamp.spec_with_new_timebase(stream.time_base) {
            Some((ticks, base)) => Ok(ticks),
            None => Err(ErrorView::InvalidArguments),
        },
        SeekTarget::Sample(sample) => if stream.codec.codec_type != MediaType::Audio {
            Err(
                ErrorView::MediaTypeDoesntMatch {
                    expected: MediaType::Audio,
                    found: stream.codec.codec_type,
                },
            )
        } else if spec_can_rescale_periods(
            sample.0 as nat,
            1,
            stream.codec.sample_rate as nat,
            stream.time_base,
        ) {
            Ok(
                spec_rescale_periods(
                    sample.0 as nat,
                    1,
                    stream.codec.sample_rate as nat,
                    stream.time_base,
                ),
            )
        } else {
            Err(ErrorView::InvalidArguments)
        },
        SeekTarget::Frame(frame) => if stream.codec.codec_type != MediaType::Video {
            Err(
                ErrorView::MediaTypeDoesntMatch {
                    expected: MediaType::Video,
                    found: stream.codec.codec_type,
                },
            )
        } else if spec_can_rescale_periods(
            frame.0 as nat,
            stream.codec.avg_frame_rate.denom as nat,
            stream.codec.avg_frame_rate.numer as nat,
            stream.time_base,
        ) {
            Ok(
                spec_rescale_periods(
                    frame.0 as nat,
                    stream.codec.avg_frame_rate.denom as nat,
                    stream.codec.avg_frame_rate.numer as nat,
                    stream.time_base,
                ),
            )
        } else {
            Err(ErrorView::InvalidArguments)
        },
    }
}

/// The seek that is asked of the native layer for a time in a stream: the
/// time in ticks of the time base of the stream, rounded down, and the flag
/// for the direction. An error if the container has no such stream, or the
/// time cannot be resolved, or it is beyond what the native layer counts.
pub open spec fn spec_seek_request(
    streams: Seq<StreamFields>,
    stream_index: usize,
    target: SeekTarget,
    direction: SeekDirection,
) -> Result<SeekRequest, ErrorView> {
    if stream_index >= streams.len() || stream_index > i32::MAX {
        Err(ErrorView::StreamNotFound)
    } else {
        match spec_seek_ticks(streams[stream_index as int], target) {
            Err(e) => Err(e),
            Ok(ticks) => if ticks > i64::MAX {
                Err(ErrorView::InvalidArguments)
            } else {
                Ok(
                    SeekRequest {
                        stream_index: stream_index as i32,
                        timestamp: ticks as i64,
                        flags: if direction == SeekDirection::Before {
                            AVSEEK_FLAG_BACKWARD
                        } else {
                            0
                        },
                    },
                )
            },
        }
    }
}

/// The stream table with each entry numbered by its place.
pub open spec fn spec_numbered(streams: Seq<StreamFields>) -> Seq<StreamFields> {
    Seq::new(
        streams.len(),
        |i: int|
            StreamFields {
                index: i as usize,
                id: streams[i].id,
                time_base: streams[i].time_base,
                codec: streams[i].codec,
            },
    )
}

/// What opening an input gives: the error of the first step that failed, or
/// the stream table.
pub open spec fn spec_open_input(path: Seq<u8>, opened: OpenOutcome) -> Result<
    Seq<StreamFields>,
    ErrorView,
> {
    if path.contains(0u8) {
        Err(ErrorView::FFIString)
    } else if opened.open_ret < 0 {
        Err(spec_from_av_err("opening input format"@, opened.open_ret))
    } else if opened.info_ret < 0 {
        Err(spec_from_av_err("getting stream info"@, opened.info_ret))
    } else {
        Ok(spec_numbered(opened.streams@))
    }
}

/// An opening that is carried through call by call, each answered as the
/// native layer would, ends with an outcome that opens the input exactly as
/// the outcome does that holds all the answers.
pub proof fn lemma_open_in_steps(
    path: Seq<u8>,
    start: OpenOutcome,
    open_ret: i32,
    info_ret: i32,
    fields: FormatFields,
    streams: Vec<StreamFields>,
)
    ensures
        ({
            let first = start.spec_answered(OpenStep::OpenFile, OpenAnswer::Opened(open_ret));
            let second = first.1.spec_answered(first.0, OpenAnswer::Probed(info_ret));
            let last = second.1.spec_answered(second.0, OpenAnswer::Streams { fields, streams });
            &&& last.0 == OpenStep::Finished
            &&& spec_open_input(path, last.1) == spec_open_input(
                path,
                OpenOutcome { open_ret, info_ret, fields, streams },
            )
            &&& spec_open_input(path, last.1) is Ok ==> last.1 == (OpenOutcome {
                open_ret,
                info_ret,
                fields,
                streams,
            })
        }),
{
}

/// Whether a configuration is the one that an input has that was opened with
/// the given answers of the native layer.
pub open spec fn spec_configured(config: FormatConfig<Input>, opened: OpenOutcome) -> bool {
    &&& config.spec_num_streams() == opened.streams@.len()
    &&& config.spec_num_chapters() == opened.fields.nb_chapters
    &&& config.spec_start_time().spec_av_timestamp() == opened.fields.start_time
    &&& config.spec_duration().spec_av_timestamp() == opened.fields.duration
    &&& config.spec_bit_rate() == (if opened.fields.bit_rate == 0 {
        None
    } else {
        Some(opened.fields.bit_rate)
    })
}

/// Whether `found` is an answer that the native heuristic for the best
/// stream gives: a place in the stream table, or one of the two codes with
/// which it says that there is no such stream or no decoder for it.
pub open spec fn spec_best_answer(streams: Seq<StreamFields>, found: i32) -> bool {
    ||| found == AVERROR_STREAM_NOT_FOUND
    ||| found == AVERROR_DECODER_NOT_FOUND
    ||| 0 <= found < streams.len()
}

/// The place of the best stream of a media type, for the answer `found` of
/// the native heuristic; nothing if the heuristic found none, or if the
/// stream that it names is of another media type.
pub open spec fn spec_best_stream<T: MediaMarker>(streams: Seq<StreamFields>, found: i32) -> Option<
    int,
> {
    if 0 <= found < streams.len() && streams[found as int].codec.codec_type
        == T::spec_media_type() {
        Some(found as int)
    } else {
        None
    }
}

/// A container without a stream of a media type has no best stream of that
/// type, whatever the native heuristic answers.
pub proof fn lemma_no_stream_of_the_type<T: MediaMarker>(streams: Seq<StreamFields>, found: i32)
    requires
        forall|i: int|
            0 <= i < streams.len() ==> (#[trigger] streams[i]).codec.codec_type
                != T::spec_media_type(),
    ensures
        spec_best_stream::<T>(streams, found) is None,
{
}

/// What reading the next packet gives: the error, or the packet as it is
/// filled.
pub open spec fn spec_read_packet(read: ReadOutcome) -> Result<PacketView, ErrorView> {
    if read.ret < 0 {
        Err(spec_from_av_err("reading next packet from format"@, read.ret))
    } else if read.stream_index < 0 || read.size < 0 {
        Err(ErrorView::InvalidData)
    } else {
        Ok(
            PacketView {
                filled: true,
                stream_index: read.stream_index as usize,
                size: read.size as usize,
            },
        )
    }
}

/// A file or data stream that holds media. `IO` says whether it is read from
/// or written to.
#[derive(Debug)]
pub struct Format<IO> {
    config: FormatConfig<IO>,
    streams: Vec<StreamFields>,
}

impl<T> View for Format<T> {
    type V = Seq<StreamFields>;

    /// The stream table.
    closed spec fn view(&self) -> Seq<StreamFields> {
        self.streams@
    }
}

impl<T> Format<T> {
    /// Every entry of the stream table carries its own place, and the
    /// configuration counts the entries.
    #[verifier::type_invariant]
    closed spec fn wf(self) -> bool {
        &&& self.config.spec_num_streams() == self.streams@.len()
        &&& forall|i: int| 0 <= i < self.streams@.len() ==> (#[trigger] self.streams@[i]).index == i
    }

    /// The configuration of the container.
    pub closed spec fn spec_configuration(self) -> FormatConfig<T> {
        self.config
    }

    /// What is known of the container as a whole.
    pub fn get_configuration(&self) -> (config: &FormatConfig<T>)
        ensures
            *config == self.spec_configuration(),
            config.spec_num_streams() == self@.len(),
    {
        proof {
            use_type_invariant(self);
        }
        &self.config
    }
}

impl Format<Input> {
    /// Opens a container for reading, given what the native layer answered.
    ///
    /// The path is checked first; a path with a zero byte in it fails before
    /// anything is opened. Then the first native step that failed decides the
    /// error.
    pub fn open_input(path: &[u8], opened: OpenOutcome) -> (result: Result<Format<Input>, Error>)
        ensures
            result is Ok <==> spec_open_input(path@, opened) is Ok,
            result matches Ok(format) ==> {
                &&& Ok::<Seq<StreamFields>, ErrorView>(format@) == spec_open_input(path@, opened)
                &&& spec_configured(format.spec_configuration(), opened)
            },
            result matches Err(e) ==> Err::<Seq<StreamFields>, ErrorView>(e@) == spec_open_input(
                path@,
                opened,
            ),
    {
        match path_to_cstr(path) {
            Err(e) => {
                return Err(e);
            },
            Ok(_) => {},
        }
        if opened.open_ret < 0 {
            return Err(Error::from_av_err("opening input format", opened.open_ret));
        }
        if opened.info_ret < 0 {
            return Err(Error::from_av_err("getting stream info", opened.info_ret));
        }
        let mut streams: Vec<StreamFields> = Vec::new();
        let mut i: usize = 0;
        while i < opened.streams.len()
            invariant
                i <= opened.streams@.len(),
                streams@ == spec_numbered(opened.streams@).take(i as int),
            decreases opened.streams@.len() - i,
        {
            let given = &opened.streams[i];
            streams.push(
                StreamFields {
                    index: i,
                    id: given.id,
                    time_base: given.time_base,
                    codec: given.codec,
                },
            );
            assert(streams@ =~= spec_numbered(opened.streams@).take(i + 1));
            i += 1;
        }
        assert(streams@ =~= spec_numbered(opened.streams@));
        let fields = FormatFields {
            start_time: opened.fields.start_time,
            duration: opened.fields.duration,
            bit_rate: opened.fields.bit_rate,
            nb_streams: 0,
            nb_chapters: opened.fields.nb_chapters,
        };
        let config = FormatConfig::from_input_fmt_ctx(&fields).with_num_streams(streams.len());
        Ok(Format { config, streams })
    }

    /// Tells whether `found` is an answer that the native heuristic for the
    /// best stream gives for this container.
    pub fn is_best_stream_answer(&self, found: i32) -> (known: bool)
        ensures
            known == spec_best_answer(self@, found),
    {
        found == AVERROR_STREAM_NOT_FOUND || found == AVERROR_DECODER_NOT_FOUND || (found >= 0
            && (found as usize) < self.streams.len())
    }

    /// The stream that the native heuristic found best for the media type
    /// `T`, given its answer `found`.
    ///
    /// A container without a stream of that type gives nothing; that is no
    /// error. Neither is a stream that has no decoder, nor a stream of
    /// another media type. The container stays as it is.
    pub fn get_best_stream<T: MediaMarker>(&self, found: i32) -> (result: Option<StreamRef<'_, T>>)
        requires
            spec_best_answer(self@, found),
        ensures
            result is Some <==> spec_best_stream::<T>(self@, found) is Some,
            result matches Some(stream) ==> spec_best_stream::<T>(self@, found) == Some(
                stream@.index as int,
            ) && stream@ == self@[found as int],
    {
        proof {
            use_type_invariant(self);
        }
        if found < 0 {
            return None;
        }
        let unknown = StreamRef::from_av_stream_unchecked(&self.streams[found as usize]);
        match unknown.as_other_type() {
            Ok(stream) => Some(stream),
            Err(_) => None,
        }
    }

    /// All streams of the container, each with its media type still to be
    /// looked at.
    pub fn streams(&self) -> (streams: Vec<StreamRef<'_, Unknown>>)
        ensures
            streams@.len() == self@.len(),
            forall|i: int|
                0 <= i < streams@.len() ==> (#[trigger] streams@[i])@ == self@[i] && self@[i].index
                    == i,
    {
        proof {
            use_type_invariant(self);
        }
        let mut streams: Vec<StreamRef<'_, Unknown>> = Vec::new();
        let mut i: usize = 0;
        while i < self.streams.len()
            invariant
                i <= self.streams@.len(),
                streams@.len() == i,
                forall|j: int| 0 <= j < streams@.len() ==> (#[trigger] streams@[j])@ == self@[j],
            decreases self.streams@.len() - i,
        {
            streams.push(StreamRef::from_av_stream_unchecked(&self.streams[i]));
            i += 1;
        }
        streams
    }

    /// Takes in the next packet, given what the native read answered.
    ///
    /// Whatever the packet held is dropped first. On success the packet
    /// refers to the data that was read, whichever stream it belongs to; on
    /// any failure it is empty. The end of the file is reported as
    /// [`Error::EoF`]. The container stays as it is.
    pub fn get_next_packet_into(&mut self, packet: &mut Packet, read: ReadOutcome) -> (result:
        Result<(), Error>)
        ensures
            *final(self) == *old(self),
            result is Ok <==> spec_read_packet(read) is Ok,
            result is Ok ==> Ok::<PacketView, ErrorView>(final(packet)@) == spec_read_packet(read),
            result matches Err(e) ==> Err::<PacketView, ErrorView>(e@) == spec_read_packet(read)
                && final(packet)@ == PacketView::empty(),
    {
        packet.unref();
        if read.ret < 0 {
            return Err(Error::from_av_err("reading next packet from format", read.ret));
        }
        if read.stream_index < 0 || read.size < 0 {
            return Err(Error::InvalidData);
        }
        packet.fill(read.stream_index as usize, read.size as usize);
        Ok(())
    }

    /// Resolves a time in a stream into the seek that is to be asked of the
    /// native layer.
    ///
    /// The time may be given in ticks of the stream, as a time from the
    /// start, or as the number of a sample or of a frame. It is counted in
    /// the time base of the stream and rounded down to a whole tick.
    pub fn seek_request(
        &self,
        stream_index: usize,
        target: SeekTarget,
        direction: SeekDirection,
    ) -> (result: Result<SeekRequest, Error>)
        ensures
            match spec_seek_request(self@, stream_index, target, direction) {
                Ok(request) => result == Ok::<SeekRequest, Error>(request),
                Err(e) => result matches Err(r) && r@ == e,
            },
    {
        if stream_index >= self.streams.len() || stream_index > i32::MAX as usize {
            return Err(Error::StreamNotFound);
        }
        let stream = &self.streams[stream_index];
        let ticks: u64 = match target {
            SeekTarget::Ticks(ticks) => ticks.0,
            SeekTarget::Time(stamp) => match stamp.with_new_timebase(stream.time_base) {
                Some(counted) => counted.get_ticks().0,
                None => {
                    return Err(Error::InvalidArguments);
                },
            },
            SeekTarget::Sample(sample) => {
                if stream.codec.codec_type != MediaType::Audio {
                    return Err(
                        Error::MediaTypeDoesntMatch {
                            expected: MediaType::Audio,
                            found: stream.codec.codec_type,
                        },
                    );
                }
                match rescale_periods(
                    sample.0,
                    1,
                    stream.codec.sample_rate as u64,
                    stream.time_base,
                ) {
                    Some(ticks) => ticks,
                    None => {
                        return Err(Error::InvalidArguments);
                    },
                }
            },
            SeekTarget::Frame(frame) => {
                if stream.codec.codec_type != MediaType::Video {
                    return Err(
                        Error::MediaTypeDoesntMatch {
                            expected: MediaType::Video,
                            found: stream.codec.codec_type,
                        },
                    );
                }
                match rescale_periods(
                    frame.0,
                    stream.codec.avg_frame_rate.denom,
                    stream.codec.avg_frame_rate.numer,
                    stream.time_base,
                ) {
                    Some(ticks) => ticks,
                    None => {
                        return Err(Error::InvalidArguments);
                    },
                }
            },
        };
        if ticks > i64::MAX as u64 {
            return Err(Error::InvalidArguments);
        }
        let flags: i32 = match direction {
            SeekDirection::Before => AVSEEK_FLAG_BACKWARD,
            SeekDirection::After => 0,
        };
        Ok(SeekRequest { stream_index: stream_index as i32, timestamp: ticks as i64, flags })
    }

    /// Completes a seek, given what the native layer answered to it. The
    /// container stays as it is.
    pub fn seek(&mut self, request: SeekRequest, sought: i32) -> (result: Result<(), Error>)
        ensures
            *final(self) == *old(self),
            result is Ok <==> sought >= 0,
            result matches Err(e) ==> e@ == spec_from_av_err("seeking"@, sought),
    {
        if sought < 0 {
            return Err(Error::from_av_err("seeking", sought));
        }
        Ok(())
    }

    /// Takes in the next packet as a new packet.
    pub fn get_next_packet(&mut self, read: ReadOutcome) -> (result: Result<Packet, Error>)
        ensures
            *final(self) == *old(self),
            result is Ok <==> spec_read_packet(read) is Ok,
            result matches Ok(packet) ==> Ok::<PacketView, ErrorView>(packet@) == spec_read_packet(
                read,
            ),
            result matches Err(e) ==> Err::<PacketView, ErrorView>(e@) == spec_read_packet(read),
    {
        let mut packet = Packet::new();
        match self.get_next_packet_into(&mut packet, read) {
            Ok(()) => Ok(packet),
            Err(e) => Err(e),
        }
    }
}

/// The stream that a decoder is opened for when the caller does not choose:
/// the best one of the media type `T`, or an error if there is none.
pub fn default_stream_selector<T: MediaMarker>(fmt: &Format<Input>, found: i32) -> (result: Result<
    StreamRef<'_, T>,
    Error,
>)
    requires
        spec_best_answer(fmt@, found),
    ensures
        match spec_best_stream::<T>(fmt@, found) {
            Some(index) => result matches Ok(stream) && stream@.index == index && stream@
                == fmt@[index],
            None => result matches Err(e) && e@ == ErrorView::StreamNotFound,
        },
{
    match fmt.get_best_stream(found) {
        Some(stream) => Ok(stream),
        None => Err(Error::StreamNotFound),
    }
}

} // verus!
