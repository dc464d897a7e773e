//! The decode loop for a single stream.

use vstd::prelude::*;
use crate::config::stream::{DecodedFields, DecodedStreamConfig, StreamFields};
use crate::error::{Error, ErrorView};
use crate::raw::codec::{
    spec_open_decode, spec_receive_frame, spec_submit_packet, Codec, DecoderOutcome, FrameOutcome,
};
use crate::raw::format::{
    default_stream_selector, spec_best_answer, spec_best_stream, spec_configured, spec_open_input,
    spec_read_packet, Format, OpenOutcome, ReadOutcome,
};
use crate::raw::frame::{Frame, FrameView};
use crate::raw::packet::{Packet, PacketView};
use crate::raw::stream::StreamRef;
use crate::sys::{AVERROR_EOF, EAGAIN};
use crate::tags::{Decode, Input};
use crate::util::traits::MediaMarker;

verus! {

/// Where a decode loop stands.
#[derive(Debug, Clone, Copy, PartialEq, Eq, Structural)]
pub enum DecodeState {
    /// No frame is at hand; the decoder is fed until it gives one.
    AwaitingPacket,
    /// The last request gave a frame.
    HasOutput,
    /// The container is at its end and the decoder is drained.
    EndOfStream,
}

/// The answer of the native layer that a decode loop waits for.
#[derive(Debug, Clone, Copy, PartialEq, Eq, Structural)]
pub enum Pending {
    /// None: no request is under way.
    Nothing,
    /// The answer to asking the decoder for a frame.
    Frame,
    /// The answer to reading a packet from the container.
    Packet,
    /// The answer to submitting the packet to the decoder.
    Submission,
}

/// What moves a decode loop on.
#[derive(Debug, Clone)]
pub enum DecodeEvent {
    /// The caller asks for the next frame.
    Start,
    /// The decoder was asked for a frame and answered.
    FrameReceived(FrameOutcome),
    /// The container was asked for a packet and answered.
    PacketRead(ReadOutcome),
    /// The packet was submitted to the decoder, which answered.
    PacketSubmitted(i32),
}

/// What a decode loop asks of its caller next, or how the request ended.
#[derive(Debug)]
pub enum Decoded<T> {
    /// Ask the decoder for a frame and report its answer.
    ReceiveFrame,
    /// Read the next packet from the container and report the answer.
    ReadPacket,
    /// Submit the packet that was read to the decoder and report its answer.
    SubmitPacket,
    /// The request is over: with what was asked for, or with an error.
    Done(Result<T, Error>),
}

/// A step of a decode loop without what it carries.
pub enum StepView {
    ReceiveFrame,
    ReadPacket,
    SubmitPacket,
    /// The request is over, with the error if it failed.
    Done(Option<ErrorView>),
}

impl<T> View for Decoded<T> {
    type V = StepView;

    open spec fn view(&self) -> StepView {
        match *self {
            Decoded::ReceiveFrame => StepView::ReceiveFrame,
            Decoded::ReadPacket => StepView::ReadPacket,
            Decoded::SubmitPacket => StepView::SubmitPacket,
            Decoded::Done(Ok(_)) => StepView::Done(None),
            Decoded::Done(Err(e)) => StepView::Done(Some(e@)),
        }
    }
}

/// What a decode loop holds.
pub struct DecoderView {
    /// Where the loop stands.
    pub state: DecodeState,
    /// The answer that the loop waits for.
    pub pending: Pending,
    /// Whether the container has reported its end.
    pub input_ended: bool,
    /// The index of the stream that is decoded.
    pub stream: usize,
    /// The stream table of the container.
    pub streams: Seq<StreamFields>,
    /// The packet that travels from the container to the decoder.
    pub packet: PacketView,
}

impl DecoderView {
    /// A loop waits for an answer only while it has no frame at hand and the
    /// stream has not ended.
    pub open spec fn wf(self) -> bool {
        self.pending != Pending::Nothing ==> self.state == DecodeState::AwaitingPacket
    }

    /// Whether the event is the answer that the loop waits for.
    pub open spec fn awaits(self, event: DecodeEvent) -> bool {
        match event {
            DecodeEvent::Start => false,
            DecodeEvent::FrameReceived(_) => self.pending == Pending::Frame,
            DecodeEvent::PacketRead(_) => self.pending == Pending::Packet,
            DecodeEvent::PacketSubmitted(_) => self.pending == Pending::Submission,
        }
    }

    /// The loop with another state, pending answer and packet.
    pub open spec fn moved(self, state: DecodeState, pending: Pending, packet: PacketView)
        -> DecoderView {
        DecoderView {
            state,
            pending,
            input_ended: self.input_ended,
            stream: self.stream,
            streams: self.streams,
            packet,
        }
    }

    /// The loop after the container has reported its end.
    pub open spec fn ended_input(self) -> DecoderView {
        DecoderView {
            state: self.state,
            pending: Pending::Frame,
            input_ended: true,
            stream: self.stream,
            streams: self.streams,
            packet: PacketView::empty(),
        }
    }

    /// The loop after an event, and the step that it answers with.
    ///
    /// An event that is not the answer that the loop waits for starts a new
    /// request. A request starts by asking the decoder for a frame, unless
    /// the stream has ended. A frame ends the request. A decoder that wants
    /// more input gets the next packet of the container, or ends the stream
    /// if the container has none left. A packet that was read is submitted
    /// if it belongs to the stream that is decoded. After a submission the
    /// decoder is asked again. Every other failure ends the request and
    /// leaves the loop ready for the next one.
    pub open spec fn step(self, event: DecodeEvent) -> (DecoderView, StepView) {
        if !self.awaits(event) {
            if self.state == DecodeState::EndOfStream {
                (
                    self.moved(DecodeState::EndOfStream, Pending::Nothing, self.packet),
                    StepView::Done(Some(ErrorView::EoF)),
                )
            } else {
                (
                    self.moved(DecodeState::AwaitingPacket, Pending::Frame, self.packet),
                    StepView::ReceiveFrame,
                )
            }
        } else {
            match event {
                DecodeEvent::Start => (self, StepView::ReceiveFrame),
                DecodeEvent::FrameReceived(received) => match spec_receive_frame(received.ret) {
                    None => (
                        self.moved(DecodeState::HasOutput, Pending::Nothing, self.packet),
                        StepView::Done(None),
                    ),
                    Some(ErrorView::SubmitMoreInput) => if self.input_ended {
                        (
                            self.moved(DecodeState::EndOfStream, Pending::Nothing, self.packet),
                            StepView::Done(Some(ErrorView::EoF)),
                        )
                    } else {
                        (
                            self.moved(DecodeState::AwaitingPacket, Pending::Packet, self.packet),
                            StepView::ReadPacket,
                        )
                    },
                    Some(ErrorView::EoF) => (
                        self.moved(DecodeState::EndOfStream, Pending::Nothing, self.packet),
                        StepView::Done(Some(ErrorView::EoF)),
                    ),
                    Some(e) => (
                        self.moved(DecodeState::AwaitingPacket, Pending::Nothing, self.packet),
                        StepView::Done(Some(e)),
                    ),
                },
                DecodeEvent::PacketRead(read) => match spec_read_packet(read) {
                    Ok(packet) => if packet.stream_index == self.stream {
                        (
                            self.moved(DecodeState::AwaitingPacket, Pending::Submission, packet),
                            StepView::SubmitPacket,
                        )
                    } else {
                        (
                            self.moved(DecodeState::AwaitingPacket, Pending::Nothing, packet),
                            StepView::Done(Some(ErrorView::PacketFromInvalidStream)),
                        )
                    },
                    Err(ErrorView::EoF) => (self.ended_input(), StepView::ReceiveFrame),
                    Err(e) => (
                        self.moved(
                            DecodeState::AwaitingPacket,
                            Pending::Nothing,
                            PacketView::empty(),
                        ),
                        StepView::Done(Some(e)),
                    ),
                },
                DecodeEvent::PacketSubmitted(sent) => match spec_submit_packet(
                    self.stream,
                    self.packet,
                    sent,
                ) {
                    None => (
                        self.moved(
                            DecodeState::AwaitingPacket,
                            Pending::Frame,
                            PacketView::empty(),
                        ),
                        StepView::ReceiveFrame,
                    ),
                    Some(e) => (
                        self.moved(DecodeState::AwaitingPacket, Pending::Nothing, self.packet),
                        StepView::Done(Some(e)),
                    ),
                },
            }
        }
    }
}

/// The end of the stream is final: once a loop has reached it, every event
/// leaves it there and is answered with the end of the file.
pub proof fn lemma_end_of_stream_is_final(decoder: DecoderView, event: DecodeEvent)
    requires
        decoder.state == DecodeState::EndOfStream,
        decoder.pending == Pending::Nothing,
    ensures
        decoder.step(event).0.state == DecodeState::EndOfStream,
        decoder.step(event).0.pending == Pending::Nothing,
        decoder.step(event).1 == StepView::Done(Some(ErrorView::EoF)),
{
}

/// A loop that is ready for its first request is well formed, and every
/// step keeps a loop well formed.
pub proof fn lemma_step_keeps_well_formed(decoder: DecoderView, event: DecodeEvent)
    requires
        decoder.wf(),
    ensures
        decoder.step(event).0.wf(),
{
}

/// A loop has output only after the decoder gave a frame: a step ends with
/// output exactly if its event is the awaited answer of the decoder and
/// carries a frame, and the request then ends without an error.
pub proof fn lemma_output_follows_a_frame(decoder: DecoderView, event: DecodeEvent)
    requires
        decoder.wf(),
    ensures
        decoder.step(event).0.state == DecodeState::HasOutput <==> decoder.awaits(event) && (
        event matches DecodeEvent::FrameReceived(received) && spec_receive_frame(received.ret)
            is None),
        decoder.step(event).0.state == DecodeState::HasOutput <==> decoder.step(event).1
            == StepView::Done(None),
{
}

/// A loop that waits for a packet when the container reports its end goes on
/// to ask the decoder, which is no error. If the decoder then gives a frame,
/// the request ends with output; if it asks for more input, the stream has
/// ended, and the request ends with the end of the file and with no other
/// error.
pub proof fn lemma_drained_input_ends_the_stream(
    decoder: DecoderView,
    read: ReadOutcome,
    received: FrameOutcome,
)
    requires
        decoder.pending == Pending::Packet,
        read.ret == AVERROR_EOF,
    ensures
        ({
            let (drained, asked) = decoder.step(DecodeEvent::PacketRead(read));
            let (after, answer) = drained.step(DecodeEvent::FrameReceived(received));
            &&& asked == StepView::ReceiveFrame
            &&& drained.input_ended
            &&& drained.pending == Pending::Frame
            &&& received.ret >= 0 ==> answer == StepView::Done(None) && after.state
                == DecodeState::HasOutput
            &&& received.ret == -EAGAIN ==> answer == StepView::Done(Some(ErrorView::EoF))
                && after.state == DecodeState::EndOfStream && after.pending == Pending::Nothing
        }),
{
}

/// A step changes neither the stream that is decoded nor the stream table,
/// and the container never comes back from its end.
pub proof fn lemma_step_keeps_the_binding(decoder: DecoderView, event: DecodeEvent)
    ensures
        decoder.step(event).0.stream == decoder.stream,
        decoder.step(event).0.streams == decoder.streams,
        decoder.input_ended ==> decoder.step(event).0.input_ended,
{
}

/// Whether the answer of the native heuristic for the best stream is one
/// that it gives for the input that was opened; it is not asked where the
/// input was not opened.
pub open spec fn spec_best_answer_for(file: Seq<u8>, opened: OpenOutcome, found: i32) -> bool {
    spec_open_input(file, opened) matches Ok(streams) ==> spec_best_answer(streams, found)
}

/// What opening a decoder for the best stream gives: the error of the first
/// step that failed, or the index of the stream that is decoded.
pub open spec fn spec_open<AV: MediaMarker>(
    file: Seq<u8>,
    opened: OpenOutcome,
    found: i32,
    decoder: DecoderOutcome,
) -> Result<int, ErrorView> {
    match spec_open_input(file, opened) {
        Err(e) => Err(e),
        Ok(streams) => match spec_best_stream::<AV>(streams, found) {
            None => Err(ErrorView::StreamNotFound),
            Some(index) => match spec_open_decode::<AV>(decoder) {
                Some(e) => Err(e),
                None => Ok(index),
            },
        },
    }
}

/// Decodes a single stream of a container, without any processing.
#[derive(Debug)]
pub struct SimpleDecoder<AV: MediaMarker> {
    fmt: Format<Input>,
    codec: Codec<Decode, AV>,
    packet: Packet,
    state: DecodeState,
    pending: Pending,
    input_ended: bool,
}

impl<AV: MediaMarker> View for SimpleDecoder<AV> {
    type V = DecoderView;

    closed spec fn view(&self) -> DecoderView {
        DecoderView {
            state: self.state,
            pending: self.pending,
            input_ended: self.input_ended,
            stream: self.codec.spec_out_stream_config().spec_stream_index(),
            streams: self.fmt@,
            packet: self.packet@,
        }
    }
}

/// Whether a decoder is bound to the stream at `index` of its container and
/// produces what the open decoder said.
pub open spec fn spec_bound<AV: MediaMarker>(
    simple: SimpleDecoder<AV>,
    index: int,
    decoded: DecodedFields,
) -> bool {
    &&& 0 <= index < simple.spec_format()@.len()
    &&& simple@.streams == simple.spec_format()@
    &&& simple@.stream == index
    &&& simple.spec_out_stream_config().spec_stream_index() == index
    &&& simple.spec_out_stream_config().spec_time_base() == simple.spec_format()@[index].time_base
    &&& simple.spec_out_stream_config().spec_decoded() == decoded
}

impl<AV: MediaMarker> SimpleDecoder<AV> {
    /// The container that is decoded from.
    pub closed spec fn spec_format(self) -> Format<Input> {
        self.fmt
    }

    /// The configuration of the stream as the decoder produces it.
    pub closed spec fn spec_out_stream_config(self) -> DecodedStreamConfig<AV> {
        self.codec.spec_out_stream_config()
    }

    /// Whether the decoder holds the container and produces the stream that
    /// `before` did.
    pub open spec fn spec_keeps(self, before: Self) -> bool {
        &&& self.spec_format() == before.spec_format()
        &&& self.spec_out_stream_config() == before.spec_out_stream_config()
    }

    /// The configuration of the stream as the decoder produces it.
    pub fn out_stream_config(&self) -> (config: &DecodedStreamConfig<AV>)
        ensures
            *config == self.spec_out_stream_config(),
    {
        self.codec.out_stream_config()
    }

    /// The container that is decoded from.
    pub fn format(&self) -> (fmt: &Format<Input>)
        ensures
            *fmt == self.spec_format(),
    {
        &self.fmt
    }

    /// Opens a file for decoding the best stream of the media type `AV`,
    /// given what the native layer answered on the way.
    pub fn open(file: &[u8], opened: OpenOutcome, found: i32, decoder: DecoderOutcome) -> (result:
        Result<SimpleDecoder<AV>, Error>)
        requires
            spec_best_answer_for(file@, opened, found),
        ensures
            result is Ok <==> spec_open::<AV>(file@, opened, found, decoder) is Ok,
            result matches Err(e) ==> spec_open::<AV>(file@, opened, found, decoder) == Err::<
                int,
                ErrorView,
            >(e@),
            result matches Ok(simple) ==> {
                &&& simple@.state == DecodeState::AwaitingPacket
                &&& simple@.pending == Pending::Nothing
                &&& !simple@.input_ended
                &&& spec_open::<AV>(file@, opened, found, decoder) == Ok::<int, ErrorView>(
                    simple@.stream as int,
                )
                &&& spec_open_input(file@, opened) == Ok::<Seq<StreamFields>, ErrorView>(
                    simple@.streams,
                )
                &&& simple@.packet == PacketView::empty()
                &&& spec_bound(simple, simple@.stream as int, decoder.decoded)
                &&& spec_configured(simple.spec_format().spec_configuration(), opened)
            },
    {
        match Format::open_input(file, opened) {
            Ok(format) => SimpleDecoder::from_format(format, found, decoder),
            Err(e) => Err(e),
        }
    }

    /// Opens a file for decoding the stream that the caller selected, given
    /// what the native layer answered on the way. `selected` is the index of
    /// the stream in the stream table, or the error with which the selection
    /// failed.
    pub fn open_with_stream(
        file: &[u8],
        opened: OpenOutcome,
        selected: Result<usize, Error>,
        decoder: DecoderOutcome,
    ) -> (result: Result<SimpleDecoder<AV>, Error>)
        ensures
            match spec_open_input(file@, opened) {
                Err(e) => result matches Err(r) && r@ == e,
                Ok(streams) => match spec_from_format_with_stream::<AV>(streams, selected, decoder) {
                    Ok(ready) => result matches Ok(simple) && simple@ == ready && spec_bound(
                        simple,
                        ready.stream as int,
                        decoder.decoded,
                    ) && spec_configured(simple.spec_format().spec_configuration(), opened),
                    Err(e) => result matches Err(r) && r@ == e,
                },
            },
    {
        match Format::open_input(file, opened) {
            Ok(format) => SimpleDecoder::from_format_with_stream(format, selected, decoder),
            Err(e) => Err(e),
        }
    }

    /// Sets up an open container for decoding its best stream of the media
    /// type `AV`.
    pub fn from_format(fmt: Format<Input>, found: i32, decoder: DecoderOutcome) -> (result: Result<
        SimpleDecoder<AV>,
        Error,
    >)
        requires
            spec_best_answer(fmt@, found),
        ensures
            match spec_best_stream::<AV>(fmt@, found) {
                None => result matches Err(r) && r@ == ErrorView::StreamNotFound,
                Some(index) => match spec_open_decode::<AV>(decoder) {
                    Some(e) => result matches Err(r) && r@ == e,
                    None => result matches Ok(simple) && simple@ == (DecoderView {
                        state: DecodeState::AwaitingPacket,
                        pending: Pending::Nothing,
                        input_ended: false,
                        stream: index as usize,
                        streams: fmt@,
                        packet: PacketView::empty(),
                    }) && simple.spec_format() == fmt && spec_bound(
                        simple,
                        index,
                        decoder.decoded,
                    ),
                },
            },
    {
        let codec = match default_stream_selector::<AV>(&fmt, found) {
            Ok(stream) => match Codec::open_decode(&stream, decoder) {
                Ok(codec) => codec,
                Err(e) => {
                    return Err(e);
                },
            },
            Err(e) => {
                return Err(e);
            },
        };
        Ok(
            SimpleDecoder {
                fmt,
                codec,
                packet: Packet::new(),
                state: DecodeState::AwaitingPacket,
                pending: Pending::Nothing,
                input_ended: false,
            },
        )
    }

    /// Sets up an open container for decoding the stream that the caller
    /// selected.
    pub fn from_format_with_stream(
        fmt: Format<Input>,
        selected: Result<usize, Error>,
        decoder: DecoderOutcome,
    ) -> (result: Result<SimpleDecoder<AV>, Error>)
        ensures
            match spec_from_format_with_stream::<AV>(fmt@, selected, decoder) {
                Ok(ready) => result matches Ok(simple) && simple@ == ready && simple.spec_format()
                    == fmt && spec_bound(simple, ready.stream as int, decoder.decoded),
                Err(e) => result matches Err(r) && r@ == e,
            },
    {
        let index = match selected {
            Ok(index) => index,
            Err(e) => {
                return Err(e);
            },
        };
        let codec = {
            let streams = fmt.streams();
            if index >= streams.len() {
                return Err(Error::StreamNotFound);
            }
            let stream: StreamRef<'_, AV> = match streams[index].duplicate().as_other_type() {
                Ok(stream) => stream,
                Err(e) => {
                    return Err(e);
                },
            };
            match Codec::open_decode(&stream, decoder) {
                Ok(codec) => codec,
                Err(e) => {
                    return Err(e);
                },
            }
        };
        Ok(
            SimpleDecoder {
                fmt,
                codec,
                packet: Packet::new(),
                state: DecodeState::AwaitingPacket,
                pending: Pending::Nothing,
                input_ended: false,
            },
        )
    }

    /// Where the loop stands.
    pub fn state(&self) -> (state: DecodeState)
        ensures
            state == self@.state,
    {
        self.state
    }

    /// Moves the loop on by one event and says what to do next; a frame that
    /// the decoder gave is put into `frame`.
    ///
    /// The frame is touched only by the answer to asking the decoder for a
    /// frame: it then holds the decoded data, or nothing if there was none.
    pub fn get_next_frame_into(&mut self, frame: &mut Frame<AV>, event: DecodeEvent) -> (step:
        Decoded<()>)
        ensures
            (final(self)@, step@) == old(self)@.step(event),
            final(self).spec_keeps(*old(self)),
            match event {
                DecodeEvent::FrameReceived(received) if old(self)@.awaits(event) => final(frame)@
                    == (if spec_receive_frame(received.ret) is None {
                    FrameView::holding(received.data)
                } else {
                    FrameView::empty()
                }),
                _ => final(frame)@ == old(frame)@,
            },
    {
        let awaited = match &event {
            DecodeEvent::Start => false,
            DecodeEvent::FrameReceived(_) => self.pending == Pending::Frame,
            DecodeEvent::PacketRead(_) => self.pending == Pending::Packet,
            DecodeEvent::PacketSubmitted(_) => self.pending == Pending::Submission,
        };
        if !awaited {
            return self.start();
        }
        match event {
            DecodeEvent::Start => Decoded::ReceiveFrame,
            DecodeEvent::FrameReceived(received) => {
                let result = self.codec.get_next_frame_into(frame, received);
                self.frame_received(result)
            },
            DecodeEvent::PacketRead(read) => self.packet_read(read),
            DecodeEvent::PacketSubmitted(sent) => self.packet_submitted(sent),
        }
    }

    /// Moves the loop on by one event and says what to do next; a frame that
    /// the decoder gave ends the request as a new frame.
    pub fn get_next_frame(&mut self, event: DecodeEvent) -> (step: Decoded<Frame<AV>>)
        ensures
            (final(self)@, step@) == old(self)@.step(event),
            final(self).spec_keeps(*old(self)),
            step matches Decoded::Done(Ok(frame)) ==> event matches DecodeEvent::FrameReceived(
                received,
            ) && frame@ == FrameView::holding(received.data),
    {
        let mut frame = Frame::new();
        match self.get_next_frame_into(&mut frame, event) {
            Decoded::ReceiveFrame => Decoded::ReceiveFrame,
            Decoded::ReadPacket => Decoded::ReadPacket,
            Decoded::SubmitPacket => Decoded::SubmitPacket,
            Decoded::Done(Ok(())) => Decoded::Done(Ok(frame)),
            Decoded::Done(Err(e)) => Decoded::Done(Err(e)),
        }
    }

    /// Ends decoding and gives back the container.
    pub fn finish(self) -> (fmt: Format<Input>)
        ensures
            fmt == self.spec_format(),
            fmt@ == self@.streams,
    {
        self.fmt
    }

    /// Starts a request.
    fn start(&mut self) -> (step: Decoded<()>)
        ensures
            final(self).spec_keeps(*old(self)),
            final(self)@ == (if old(self)@.state == DecodeState::EndOfStream {
                old(self)@.moved(DecodeState::EndOfStream, Pending::Nothing, old(self)@.packet)
            } else {
                old(self)@.moved(DecodeState::AwaitingPacket, Pending::Frame, old(self)@.packet)
            }),
            step@ == (if old(self)@.state == DecodeState::EndOfStream {
                StepView::Done(Some(ErrorView::EoF))
            } else {
                StepView::ReceiveFrame
            }),
    {
        match self.state {
            DecodeState::EndOfStream => {
                self.pending = Pending::Nothing;
                Decoded::Done(Err(Error::EoF))
            },
            _ => {
                self.state = DecodeState::AwaitingPacket;
                self.pending = Pending::Frame;
                Decoded::ReceiveFrame
            },
        }
    }

    /// Moves on after the decoder was asked for a frame.
    fn frame_received(&mut self, result: Result<(), Error>) -> (step: Decoded<()>)
        ensures
            final(self).spec_keeps(*old(self)),
            (final(self)@, step@) == (match result {
                Ok(()) => (
                    old(self)@.moved(DecodeState::HasOutput, Pending::Nothing, old(self)@.packet),
                    StepView::Done(None),
                ),
                Err(e) => match e@ {
                    ErrorView::SubmitMoreInput => if old(self)@.input_ended {
                        (
                            old(self)@.moved(
                                DecodeState::EndOfStream,
                                Pending::Nothing,
                                old(self)@.packet,
                            ),
                            StepView::Done(Some(ErrorView::EoF)),
                        )
                    } else {
                        (
                            old(self)@.moved(
                                DecodeState::AwaitingPacket,
                                Pending::Packet,
                                old(self)@.packet,
                            ),
                            StepView::ReadPacket,
                        )
                    },
                    ErrorView::EoF => (
                        old(self)@.moved(
                            DecodeState::EndOfStream,
                            Pending::Nothing,
                            old(self)@.packet,
                        ),
                        StepView::Done(Some(ErrorView::EoF)),
                    ),
                    other => (
                        old(self)@.moved(
                            DecodeState::AwaitingPacket,
                            Pending::Nothing,
                            old(self)@.packet,
                        ),
                        StepView::Done(Some(other)),
                    ),
                },
            }),
    {
        match result {
            Ok(()) => {
                self.state = DecodeState::HasOutput;
                self.pending = Pending::Nothing;
                Decoded::Done(Ok(()))
            },
            Err(Error::SubmitMoreInput) => {
                if self.input_ended {
                    self.state = DecodeState::EndOfStream;
                    self.pending = Pending::Nothing;
                    Decoded::Done(Err(Error::EoF))
                } else {
                    self.state = DecodeState::AwaitingPacket;
                    self.pending = Pending::Packet;
                    Decoded::ReadPacket
                }
            },
            Err(Error::EoF) => {
                self.state = DecodeState::EndOfStream;
                self.pending = Pending::Nothing;
                Decoded::Done(Err(Error::EoF))
            },
            Err(e) => {
                self.state = DecodeState::AwaitingPacket;
                self.pending = Pending::Nothing;
                Decoded::Done(Err(e))
            },
        }
    }

    /// Moves on after the container was asked for a packet.
    fn packet_read(&mut self, read: ReadOutcome) -> (step: Decoded<()>)
        requires
            old(self)@.pending == Pending::Packet,
        ensures
            final(self).spec_keeps(*old(self)),
            (final(self)@, step@) == old(self)@.step(DecodeEvent::PacketRead(read)),
    {
        match self.fmt.get_next_packet_into(&mut self.packet, read) {
            Ok(()) => {
                self.state = DecodeState::AwaitingPacket;
                if self.codec.accepts(&self.packet) {
                    self.pending = Pending::Submission;
                    Decoded::SubmitPacket
                } else {
                    self.pending = Pending::Nothing;
                    Decoded::Done(Err(Error::PacketFromInvalidStream))
                }
            },
            Err(Error::EoF) => {
                self.input_ended = true;
                self.pending = Pending::Frame;
                Decoded::ReceiveFrame
            },
            Err(e) => {
                self.state = DecodeState::AwaitingPacket;
                self.pending = Pending::Nothing;
                Decoded::Done(Err(e))
            },
        }
    }

    /// Moves on after the packet was submitted to the decoder.
    fn packet_submitted(&mut self, sent: i32) -> (step: Decoded<()>)
        requires
            old(self)@.pending == Pending::Submission,
        ensures
            final(self).spec_keeps(*old(self)),
            (final(self)@, step@) == old(self)@.step(DecodeEvent::PacketSubmitted(sent)),
    {
        self.state = DecodeState::AwaitingPacket;
        match self.codec.submit_packet(&mut self.packet, sent) {
            Ok(()) => {
                self.pending = Pending::Frame;
                Decoded::ReceiveFrame
            },
            Err(e) => {
                self.pending = Pending::Nothing;
                Decoded::Done(Err(e))
            },
        }
    }
}

/// What setting up a decoder for a selected stream gives: the error of the
/// selection; else an error if the index is not in the stream table or the
/// stream is of another media type; else the error of the first step of
/// opening the decoder that failed; else a loop that is ready for its first
/// request.
pub open spec fn spec_from_format_with_stream<AV: MediaMarker>(
    streams: Seq<StreamFields>,
    selected: Result<usize, Error>,
    decoder: DecoderOutcome,
) -> Result<DecoderView, ErrorView> {
    match selected {
        Err(e) => Err(e@),
        Ok(index) => if index >= streams.len() {
            Err(ErrorView::StreamNotFound)
        } else if streams[index as int].codec.codec_type != AV::spec_media_type() {
            Err(
                ErrorView::MediaTypeDoesntMatch {
                    expected: AV::spec_media_type(),
                    found: streams[index as int].codec.codec_type,
                },
            )
        } else {
            match spec_open_decode::<AV>(decoder) {
                Some(e) => Err(e),
                None => Ok(
                    DecoderView {
                        state: DecodeState::AwaitingPacket,
                        pending: Pending::Nothing,
                        input_ended: false,
                        stream: index,
                        streams,
                        packet: PacketView::empty(),
                    },
                ),
            }
        },
    }
}

} // verus!
