//! Codecs: decoders that are bound to one stream.

use vstd::prelude::*;
use core::marker::PhantomData;
use crate::config::stream::{spec_format_known, DecodedFields, DecodedStreamConfig};
use crate::error::{spec_from_av_err, Error, ErrorView};
use crate::raw::frame::{Frame, FrameData, FrameView, NO_FORMAT};
use crate::raw::packet::{Packet, PacketView};
use crate::raw::stream::StreamRef;
use crate::sys::EAGAIN;
use crate::tags::Decode;
use crate::util::traits::MediaMarker;

verus! {

/// What the native layer answered while a decoder was set up.
#[derive(Debug, Clone, Copy)]
pub struct DecoderOutcome {
    /// Whether a decoder is registered for the codec of the stream.
    pub found: bool,
    /// Whether a decoding context could be allocated; read only if a decoder
    /// was found.
    pub allocated: bool,
    /// The return code of copying the stream's parameters into the context;
    /// read only if the context was allocated.
    pub params_ret: i32,
    /// The return code of opening the decoder; read only if the parameters
    /// were copied.
    pub open_ret: i32,
    /// What the open decoder says of its frames; read only if it was opened.
    pub decoded: DecodedFields,
}

/// The native call that is due while a decoder is set up.
#[derive(Debug, Clone, Copy, PartialEq, Eq, Structural)]
pub enum SetupStep {
    /// Ask whether a decoder is registered for the codec of the stream.
    FindDecoder,
    /// Allocate a decoding context.
    AllocateContext,
    /// Copy the parameters of the stream into the context.
    CopyParameters,
    /// Open the decoder.
    OpenDecoder,
    /// Read what the open decoder says of its frames.
    ReadDecoded,
    /// No call is due: the outcome is complete.
    Finished,
}

/// What the native layer answered to one call of setting up a decoder.
#[derive(Debug, Clone, Copy)]
pub enum SetupAnswer {
    /// Whether a decoder is registered.
    Found(bool),
    /// Whether the context could be allocated.
    Allocated(bool),
    /// The return code of copying the parameters.
    Copied(i32),
    /// The return code of opening the decoder.
    Opened(i32),
    /// What the open decoder says of its frames.
    Decoded(DecodedFields),
}

impl DecoderOutcome {
    /// The outcome before the native layer was asked anything.
    pub open spec fn spec_unanswered() -> DecoderOutcome {
        DecoderOutcome {
            found: false,
            allocated: false,
            params_ret: 0,
            open_ret: 0,
            decoded: DecodedFields {
                format: NO_FORMAT,
                channel_layout: 0,
                sample_rate: 0,
                width: 0,
                height: 0,
            },
        }
    }

    /// The call that is due next and the outcome, after the call that was
    /// due has been answered. A call that failed ends the setup; an answer
    /// to another call than the one that was due changes nothing.
    pub open spec fn spec_answered(self, due: SetupStep, answer: SetupAnswer) -> (
        SetupStep,
        DecoderOutcome,
    ) {
        match (due, answer) {
            (SetupStep::FindDecoder, SetupAnswer::Found(found)) => (
                if found {
                    SetupStep::AllocateContext
                } else {
                    SetupStep::Finished
                },
                DecoderOutcome { found, ..self },
            ),
            (SetupStep::AllocateContext, SetupAnswer::Allocated(allocated)) => (
                if allocated {
                    SetupStep::CopyParameters
                } else {
                    SetupStep::Finished
                },
                DecoderOutcome { allocated, ..self },
            ),
            (SetupStep::CopyParameters, SetupAnswer::Copied(params_ret)) => (
                if params_ret >= 0 {
                    SetupStep::OpenDecoder
                } else {
                    SetupStep::Finished
                },
                DecoderOutcome { params_ret, ..self },
            ),
            (SetupStep::OpenDecoder, SetupAnswer::Opened(open_ret)) => (
                if open_ret >= 0 {
                    SetupStep::ReadDecoded
                } else {
                    SetupStep::Finished
                },
                DecoderOutcome { open_ret, ..self },
            ),
            (SetupStep::ReadDecoded, SetupAnswer::Decoded(decoded)) => (
                SetupStep::Finished,
                DecoderOutcome { decoded, ..self },
            ),
            _ => (due, self),
        }
    }

    /// The outcome before the native layer was asked anything. The first
    /// call that is due is [`SetupStep::FindDecoder`].
    pub fn unanswered() -> (outcome: DecoderOutcome)
        ensures
            outcome == Self::spec_unanswered(),
    {
        DecoderOutcome {
            found: false,
            allocated: false,
            params_ret: 0,
            open_ret: 0,
            decoded: DecodedFields {
                format: NO_FORMAT,
                channel_layout: 0,
                sample_rate: 0,
                width: 0,
                height: 0,
            },
        }
    }

    /// Takes in the answer to the call that was due and says which call is
    /// due next.
    pub fn answered(self, due: SetupStep, answer: SetupAnswer) -> (next: (
        SetupStep,
        DecoderOutcome,
    ))
        ensures
            next == self.spec_answered(due, answer),
    {
        let mut outcome = self;
        match (due, answer) {
            (SetupStep::FindDecoder, SetupAnswer::Found(found)) => {
                outcome.found = found;
                if found {
                    (SetupStep::AllocateContext, outcome)
                } else {
                    (SetupStep::Finished, outcome)
                }
            },
            (SetupStep::AllocateContext, SetupAnswer::Allocated(allocated)) => {
                outcome.allocated = allocated;
                if allocated {
                    (SetupStep::CopyParameters, outcome)
                } else {
                    (SetupStep::Finished, outcome)
                }
            },
            (SetupStep::CopyParameters, SetupAnswer::Copied(params_ret)) => {
                outcome.params_ret = params_ret;
                if params_ret >= 0 {
                    (SetupStep::OpenDecoder, outcome)
                } else {
                    (SetupStep::Finished, outcome)
                }
            },
            (SetupStep::OpenDecoder, SetupAnswer::Opened(open_ret)) => {
                outcome.open_ret = open_ret;
                if open_ret >= 0 {
                    (SetupStep::ReadDecoded, outcome)
                } else {
                    (SetupStep::Finished, outcome)
                }
            },
            (SetupStep::ReadDecoded, SetupAnswer::Decoded(decoded)) => {
                outcome.decoded = decoded;
                (SetupStep::Finished, outcome)
            },
            (due, _) => (due, outcome),
        }
    }
}

/// A setup that is carried through call by call, each answered as the native
/// layer would, ends with the outcome that holds these answers as far as
/// they were asked for, and opening a decoder with it fails with the error of
/// the first call that failed.
pub proof fn lemma_setup_in_steps<AV: MediaMarker>(
    found: bool,
    allocated: bool,
    params_ret: i32,
    open_ret: i32,
    decoded: DecodedFields,
)
    ensures
        ({
            let start = DecoderOutcome::spec_unanswered();
            let first = start.spec_answered(SetupStep::FindDecoder, SetupAnswer::Found(found));
            let second = first.1.spec_answered(first.0, SetupAnswer::Allocated(allocated));
            let third = second.1.spec_answered(second.0, SetupAnswer::Copied(params_ret));
            let fourth = third.1.spec_answered(third.0, SetupAnswer::Opened(open_ret));
            let last = fourth.1.spec_answered(fourth.0, SetupAnswer::Decoded(decoded));
            let whole = DecoderOutcome { found, allocated, params_ret, open_ret, decoded };
            &&& last.0 == SetupStep::Finished
            &&& spec_open_decode::<AV>(last.1) == spec_open_decode::<AV>(whole)
            &&& spec_open_decode::<AV>(last.1) is None ==> last.1 == whole
        }),
{
}

/// What the native layer answered when a frame was asked for.
#[derive(Debug, Clone)]
pub struct FrameOutcome {
    /// The return code.
    pub ret: i32,
    /// The data that was put into the frame; read only on success.
    pub data: FrameData,
}

/// The error of the first step of setting up a decoder that failed, if one
/// did.
pub open spec fn spec_open_decode<AV: MediaMarker>(opened: DecoderOutcome) -> Option<ErrorView> {
    if !opened.found {
        Some(ErrorView::ResourceNotFound("decoder"@))
    } else if !opened.allocated {
        Some(ErrorView::AllocationFailed("initializing decoder context"@))
    } else if opened.params_ret < 0 {
        Some(spec_from_av_err("copying codec parameters"@, opened.params_ret))
    } else if opened.open_ret < 0 {
        Some(spec_from_av_err("opening decoder"@, opened.open_ret))
    } else if !spec_format_known(AV::spec_media_type(), opened.decoded.format) {
        Some(ErrorView::InvalidData)
    } else {
        None
    }
}

/// The error with which a packet is turned away or its submission fails, if
/// it is: a packet of another stream is turned away whatever the native
/// layer answered.
pub open spec fn spec_submit_packet(bound: usize, packet: PacketView, sent: i32) -> Option<
    ErrorView,
> {
    if packet.stream_index != bound {
        Some(ErrorView::PacketFromInvalidStream)
    } else if sent < 0 {
        Some(spec_from_av_err("submitting packet to decoder"@, sent))
    } else {
        None
    }
}

/// The error with which no frame is handed out, if none is. A decoder that
/// wants more data before it gives the next frame is reported as
/// [`ErrorView::SubmitMoreInput`].
pub open spec fn spec_receive_frame(ret: i32) -> Option<ErrorView> {
    if ret == -EAGAIN {
        Some(ErrorView::SubmitMoreInput)
    } else if ret < 0 {
        Some(spec_from_av_err("receiving frame from codec"@, ret))
    } else {
        None
    }
}

/// A packet of another stream than the one that a codec is bound to is
/// turned away with the error that is kept for this, whatever the native
/// layer answers.
pub proof fn lemma_foreign_packet_rejected(bound: usize, packet: PacketView, sent: i32)
    requires
        packet.stream_index != bound,
    ensures
        spec_submit_packet(bound, packet, sent) == Some(ErrorView::PacketFromInvalidStream),
{
}

/// A codec. `EnDec` says whether it encodes or decodes, `AV` stands for the
/// media type of its frames.
#[derive(Debug)]
pub struct Codec<EnDec, AV: MediaMarker> {
    stream_config: DecodedStreamConfig<AV>,
    _codec: PhantomData<EnDec>,
}

impl<AV: MediaMarker> Codec<Decode, AV> {
    /// Opens a decoder for a stream, given what the native layer answered.
    ///
    /// The first step that failed decides the error: no decoder registered
    /// for the codec, no memory for the context, the parameters not taken,
    /// the decoder not opened. A decoder that announces a format that the
    /// binding does not know is reported as invalid data.
    pub fn open_decode(stream: &StreamRef<'_, AV>, opened: DecoderOutcome) -> (result: Result<
        Codec<Decode, AV>,
        Error,
    >)
        ensures
            result is Ok <==> spec_open_decode::<AV>(opened) is None,
            result matches Err(e) ==> spec_open_decode::<AV>(opened) == Some(e@),
            result matches Ok(codec) ==> {
                &&& codec.spec_out_stream_config().spec_stream_index() == stream@.index
                &&& codec.spec_out_stream_config().spec_time_base() == stream@.time_base
                &&& codec.spec_out_stream_config().spec_decoded() == opened.decoded
            },
    {
        if !opened.found {
            return Err(Error::ResourceNotFound("decoder"));
        }
        if !opened.allocated {
            return Err(Error::AllocationFailed("initializing decoder context"));
        }
        if opened.params_ret < 0 {
            return Err(Error::from_av_err("copying codec parameters", opened.params_ret));
        }
        if opened.open_ret < 0 {
            return Err(Error::from_av_err("opening decoder", opened.open_ret));
        }
        let fields = stream.fields();
        match DecodedStreamConfig::new(fields.index, fields.time_base, opened.decoded) {
            Some(stream_config) => Ok(Codec { stream_config, _codec: PhantomData }),
            None => Err(Error::InvalidData),
        }
    }

    /// Whether the codec takes the packet: it does if the packet belongs to
    /// the stream that the codec is bound to.
    pub fn accepts(&self, packet: &Packet) -> (accepted: bool)
        ensures
            accepted == (packet@.stream_index == self.spec_out_stream_config().spec_stream_index()),
    {
        packet.stream_index() == self.stream_config.stream_index()
    }

    /// Submits a packet for decoding, given what the native layer answered
    /// to it.
    ///
    /// A packet of another stream than the one that the codec is bound to is
    /// turned away with [`Error::PacketFromInvalidStream`], and nothing that
    /// the native layer answered changes that. After a successful submission
    /// the decoder holds the data and the packet is empty; after a failure
    /// the packet is as it was.
    pub fn submit_packet(&mut self, packet: &mut Packet, sent: i32) -> (result: Result<(), Error>)
        ensures
            final(self).spec_out_stream_config() == old(self).spec_out_stream_config(),
            result is Ok <==> spec_submit_packet(
                old(self).spec_out_stream_config().spec_stream_index(),
                old(packet)@,
                sent,
            ) is None,
            result matches Err(e) ==> spec_submit_packet(
                old(self).spec_out_stream_config().spec_stream_index(),
                old(packet)@,
                sent,
            ) == Some(e@) && final(packet)@ == old(packet)@,
            result is Ok ==> final(packet)@ == PacketView::empty(),
    {
        if packet.stream_index() != self.stream_config.stream_index() {
            return Err(Error::PacketFromInvalidStream);
        }
        if sent < 0 {
            return Err(Error::from_av_err("submitting packet to decoder", sent));
        }
        packet.unref();
        Ok(())
    }

    /// Takes the next decoded frame into `frame`, given what the native
    /// layer answered.
    ///
    /// Whatever the frame held is dropped. A decoder that wants more data
    /// first is reported as [`Error::SubmitMoreInput`], which is no failure:
    /// submit a packet and ask again.
    pub fn get_next_frame_into(&mut self, frame: &mut Frame<AV>, received: FrameOutcome) -> (result:
        Result<(), Error>)
        ensures
            final(self).spec_out_stream_config() == old(self).spec_out_stream_config(),
            result is Ok <==> spec_receive_frame(received.ret) is None,
            result matches Err(e) ==> spec_receive_frame(received.ret) == Some(e@) && final(frame)@
                == FrameView::empty(),
            result is Ok ==> final(frame)@ == FrameView::holding(received.data),
    {
        if received.ret == -EAGAIN {
            frame.unref();
            return Err(Error::SubmitMoreInput);
        }
        if received.ret < 0 {
            frame.unref();
            return Err(Error::from_av_err("receiving frame from codec", received.ret));
        }
        frame.store(received.data);
        Ok(())
    }

    /// Takes the next decoded frame as a new frame.
    pub fn get_next_frame(&mut self, received: FrameOutcome) -> (result: Result<Frame<AV>, Error>)
        ensures
            final(self).spec_out_stream_config() == old(self).spec_out_stream_config(),
            result is Ok <==> spec_receive_frame(received.ret) is None,
            result matches Err(e) ==> spec_receive_frame(received.ret) == Some(e@),
            result matches Ok(frame) ==> frame@ == FrameView::holding(received.data),
    {
        let mut frame = Frame::new();
        match self.get_next_frame_into(&mut frame, received) {
            Ok(()) => Ok(frame),
            Err(e) => Err(e),
        }
    }

    /// The configuration of the stream as the decoder produces it.
    pub fn out_stream_config(&self) -> (config: &DecodedStreamConfig<AV>)
        ensures
            *config == self.spec_out_stream_config(),
    {
        &self.stream_config
    }
}

impl<EnDec, AV: MediaMarker> Codec<EnDec, AV> {
    /// The configuration of the stream as the codec produces it.
    pub closed spec fn spec_out_stream_config(self) -> DecodedStreamConfig<AV> {
        self.stream_config
    }
}

} // verus!
