//! Decoding a video stream into images.

use vstd::prelude::*;
use core::marker::PhantomData;
use crate::decode::simple::{
    spec_best_answer_for, spec_bound, spec_from_format_with_stream, spec_open, DecodeEvent,
    DecodeState, Decoded, DecoderView, Pending, SimpleDecoder, StepView,
};
use crate::error::{Error, ErrorView};
use crate::raw::codec::{spec_open_decode, spec_receive_frame, DecoderOutcome};
use crate::raw::format::{
    spec_best_answer, spec_best_stream, spec_configured, spec_open_input, Format, OpenOutcome,
};
use crate::raw::frame::{Frame, FrameView};
use crate::raw::packet::PacketView;
use crate::tags::{Input, Video};
use crate::util::color::image_ext::ImageFormat;

verus! {

/// Decodes a video stream of a container into a series of images of the
/// type `I`.
pub struct ImageDecoder<I: ImageFormat> {
    simple: SimpleDecoder<Video>,
    frame: Frame<Video>,
    _output: PhantomData<I>,
}

impl<I: ImageFormat> View for ImageDecoder<I> {
    type V = DecoderView;

    /// The decode loop underneath.
    closed spec fn view(&self) -> DecoderView {
        self.simple@
    }
}

impl<I: ImageFormat> ImageDecoder<I> {
    /// The picture that was decoded last.
    pub closed spec fn spec_frame(self) -> FrameView {
        self.frame@
    }

    /// The decode loop underneath, with the container that it holds.
    pub closed spec fn spec_decoder(self) -> SimpleDecoder<Video> {
        self.simple
    }

    /// Opens a file for decoding its best video stream into images, given
    /// what the native layer answered on the way.
    pub fn open(file: &[u8], opened: OpenOutcome, found: i32, decoder: DecoderOutcome) -> (result:
        Result<ImageDecoder<I>, Error>)
        requires
            spec_best_answer_for(file@, opened, found),
        ensures
            result is Ok <==> spec_open::<Video>(file@, opened, found, decoder) is Ok,
            result matches Err(e) ==> spec_open::<Video>(file@, opened, found, decoder) == Err::<
                int,
                ErrorView,
            >(e@),
            result matches Ok(images) ==> images@.state == DecodeState::AwaitingPacket
                && images@.pending == Pending::Nothing && spec_open::<Video>(
                file@,
                opened,
                found,
                decoder,
            ) == Ok::<int, ErrorView>(images@.stream as int) && images.spec_frame()
                == FrameView::empty(),
            result matches Ok(images) ==> {
                &&& images@ == images.spec_decoder()@
                &&& spec_bound(images.spec_decoder(), images@.stream as int, decoder.decoded)
                &&& spec_configured(images.spec_decoder().spec_format().spec_configuration(), opened)
            },
    {
        match SimpleDecoder::open(file, opened, found, decoder) {
            Ok(simple) => Ok(Self::inner_open(simple)),
            Err(e) => Err(e),
        }
    }

    /// Opens a file for decoding the video stream that the caller selected
    /// into images.
    pub fn open_with_stream(
        file: &[u8],
        opened: OpenOutcome,
        selected: Result<usize, Error>,
        decoder: DecoderOutcome,
    ) -> (result: Result<ImageDecoder<I>, Error>)
        ensures
            result is Ok ==> result->Ok_0.spec_frame() == FrameView::empty(),
            match spec_open_input(file@, opened) {
                Err(e) => result matches Err(r) && r@ == e,
                Ok(streams) => match spec_from_format_with_stream::<Video>(
                    streams,
                    selected,
                    decoder,
                ) {
                    Ok(ready) => result matches Ok(images) && images@ == ready && spec_bound(
                        images.spec_decoder(),
                        ready.stream as int,
                        decoder.decoded,
                    ) && spec_configured(
                        images.spec_decoder().spec_format().spec_configuration(),
                        opened,
                    ),
                    Err(e) => result matches Err(r) && r@ == e,
                },
            },
    {
        match SimpleDecoder::open_with_stream(file, opened, selected, decoder) {
            Ok(simple) => Ok(Self::inner_open(simple)),
            Err(e) => Err(e),
        }
    }

    /// Sets up an open container for decoding its best video stream into
    /// images.
    pub fn from_format(fmt: Format<Input>, found: i32, decoder: DecoderOutcome) -> (result: Result<
        ImageDecoder<I>,
        Error,
    >)
        requires
            spec_best_answer(fmt@, found),
        ensures
            result is Ok ==> result->Ok_0.spec_frame() == FrameView::empty(),
            match spec_best_stream::<Video>(fmt@, found) {
                None => result matches Err(r) && r@ == ErrorView::StreamNotFound,
                Some(index) => match spec_open_decode::<Video>(decoder) {
                    Some(e) => result matches Err(r) && r@ == e,
                    None => result matches Ok(images) && images@ == (DecoderView {
                        state: DecodeState::AwaitingPacket,
                        pending: Pending::Nothing,
                        input_ended: false,
                        stream: index as usize,
                        streams: fmt@,
                        packet: PacketView::empty(),
                    }) && images.spec_decoder().spec_format() == fmt && spec_bound(
                        images.spec_decoder(),
                        index,
                        decoder.decoded,
                    ),
                },
            },
    {
        match SimpleDecoder::from_format(fmt, found, decoder) {
            Ok(simple) => Ok(Self::inner_open(simple)),
            Err(e) => Err(e),
        }
    }

    /// Sets up an open container for decoding the video stream that the
    /// caller selected into images.
    pub fn from_format_with_stream(
        fmt: Format<Input>,
        selected: Result<usize, Error>,
        decoder: DecoderOutcome,
    ) -> (result: Result<ImageDecoder<I>, Error>)
        ensures
            result is Ok ==> result->Ok_0.spec_frame() == FrameView::empty(),
            match spec_from_format_with_stream::<Video>(fmt@, selected, decoder) {
                Ok(ready) => result matches Ok(images) && images@ == ready
                    && images.spec_decoder().spec_format() == fmt && spec_bound(
                    images.spec_decoder(),
                    ready.stream as int,
                    decoder.decoded,
                ),
                Err(e) => result matches Err(r) && r@ == e,
            },
    {
        match SimpleDecoder::from_format_with_stream(fmt, selected, decoder) {
            Ok(simple) => Ok(Self::inner_open(simple)),
            Err(e) => Err(e),
        }
    }

    /// Puts an image decoder around a decode loop.
    fn inner_open(simple: SimpleDecoder<Video>) -> (images: ImageDecoder<I>)
        ensures
            images@ == simple@,
            images.spec_decoder() == simple,
            images.spec_frame() == FrameView::empty(),
    {
        ImageDecoder { simple, frame: Frame::new(), _output: PhantomData }
    }

    /// Moves the decode loop on by one event and says what to do next; a
    /// picture that the decoder gave ends the request as an image.
    ///
    /// A picture that does not hold the data that its size calls for ends
    /// the request with [`Error::InvalidData`].
    pub fn get_next_image(&mut self, event: DecodeEvent) -> (step: Decoded<I>)
        ensures
            final(self)@ == old(self)@.step(event).0,
            final(self)@ == final(self).spec_decoder()@,
            final(self).spec_decoder().spec_keeps(old(self).spec_decoder()),
            match old(self)@.step(event).1 {
                StepView::Done(None) => {
                    &&& step matches Decoded::Done(Ok(image)) ==> I::spec_from_frame(
                        final(self).spec_frame(),
                        Some(image),
                    )
                    &&& step matches Decoded::Done(Err(e)) ==> e@ == ErrorView::InvalidData
                        && I::spec_from_frame(final(self).spec_frame(), None)
                    &&& step is Done
                },
                other => step@ == other,
            },
            match event {
                DecodeEvent::FrameReceived(received) if old(self)@.awaits(event) => {
                    final(self).spec_frame() == (if spec_receive_frame(received.ret) is None {
                        FrameView::holding(received.data)
                    } else {
                        FrameView::empty()
                    })
                },
                _ => final(self).spec_frame() == old(self).spec_frame(),
            },
    {
        match self.simple.get_next_frame_into(&mut self.frame, event) {
            Decoded::ReceiveFrame => Decoded::ReceiveFrame,
            Decoded::ReadPacket => Decoded::ReadPacket,
            Decoded::SubmitPacket => Decoded::SubmitPacket,
            Decoded::Done(Ok(())) => match I::from_frame(&self.frame) {
                Some(image) => Decoded::Done(Ok(image)),
                None => Decoded::Done(Err(Error::InvalidData)),
            },
            Decoded::Done(Err(e)) => Decoded::Done(Err(e)),
        }
    }

    /// Ends decoding and gives back the container.
    pub fn finish(self) -> (fmt: Format<Input>)
        ensures
            fmt == self.spec_decoder().spec_format(),
            fmt@ == self@.streams,
    {
        self.simple.finish()
    }
}

} // verus!
