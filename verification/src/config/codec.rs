//! The parameters of a codec, as a stream declares them.

use vstd::prelude::*;
use core::marker::PhantomData;
use crate::error::{Error, ErrorView};
use crate::tags::{Audio, MediaType, Unknown, Video};
use crate::util::color::ColorPrimary;
use crate::util::pixels::PixelFormat;
use crate::util::sampling::SampleFormat;
use crate::util::time::{FrameRate, SampleRate};
use crate::util::traits::MediaMarker;

verus! {

/// The fields of the native codec parameters that the binding reads.
#[derive(Debug, Clone, Copy, PartialEq, Eq, Structural)]
pub struct CodecFields {
    /// The media type of the stream.
    pub codec_type: MediaType,
    /// The native identifier of the codec.
    pub codec_id: i32,
    /// The native number of the sample format or of the pixel format,
    /// whichever the media type calls for.
    pub format: i32,
    /// The number of audio channels.
    pub channels: u32,
    /// The audio channel mask.
    pub channel_layout: u64,
    /// The audio sampling rate in hertz.
    pub sample_rate: u32,
    /// The width of a picture in pixels.
    pub width: u32,
    /// The height of a picture in pixels.
    pub height: u32,
    /// The native number of the colour primaries.
    pub color_primaries: i32,
    /// The average frame rate of the stream.
    pub avg_frame_rate: FrameRate,
}

/// The parameters of a codec for a stream of the media type that `AV` stands
/// for.
#[derive(Debug)]
pub struct CodecParameters<AV: MediaMarker> {
    params: CodecFields,
    _av: PhantomData<AV>,
}

impl<AV: MediaMarker> View for CodecParameters<AV> {
    type V = CodecFields;

    closed spec fn view(&self) -> CodecFields {
        self.params
    }
}

impl<AV: MediaMarker> CodecParameters<AV> {
    /// Copies the parameters if they are of the media type `AV`, and fails
    /// with the two media types otherwise.
    pub fn from_av_codec_parameters(other: &CodecFields) -> (result: Result<
        CodecParameters<AV>,
        Error,
    >)
        ensures
            result is Ok <==> other.codec_type == AV::spec_media_type(),
            result matches Ok(p) ==> p@ == *other,
            result matches Err(e) ==> e@ == (ErrorView::MediaTypeDoesntMatch {
                expected: AV::spec_media_type(),
                found: other.codec_type,
            }),
    {
        CodecParameters::from_av_codec_parameters_unchecked(other).as_other_type()
    }

    /// The media type that the parameters declare.
    pub fn codec_type(&self) -> (media: MediaType)
        ensures
            media == self@.codec_type,
    {
        self.params.codec_type
    }

    /// The native identifier of the codec.
    pub fn codec_id(&self) -> (id: i32)
        ensures
            id == self@.codec_id,
    {
        self.params.codec_id
    }
}

impl CodecParameters<Unknown> {
    /// Copies the parameters without looking at their media type.
    pub fn from_av_codec_parameters_unchecked(other: &CodecFields) -> (params: CodecParameters<
        Unknown,
    >)
        ensures
            params@ == *other,
    {
        CodecParameters { params: *other, _av: PhantomData }
    }

    /// Narrows the parameters to the media type `T`. Fails with the two media
    /// types if the parameters declare another one.
    pub fn as_other_type<T: MediaMarker>(self) -> (result: Result<CodecParameters<T>, Error>)
        ensures
            result is Ok <==> self@.codec_type == T::spec_media_type(),
            result matches Ok(p) ==> p@ == self@,
            result matches Err(e) ==> e@ == (ErrorView::MediaTypeDoesntMatch {
                expected: T::spec_media_type(),
                found: self@.codec_type,
            }),
    {
        let expected = T::media_type();
        if self.params.codec_type != expected {
            Err(Error::MediaTypeDoesntMatch { expected, found: self.params.codec_type })
        } else {
            Ok(CodecParameters { params: self.params, _av: PhantomData })
        }
    }
}

impl CodecParameters<Audio> {
    /// The number of channels of the stream.
    pub fn num_channels(&self) -> (channels: u32)
        ensures
            channels == self@.channels,
    {
        self.params.channels
    }

    /// The channel mask of the stream.
    pub fn channel_layout(&self) -> (mask: u64)
        ensures
            mask == self@.channel_layout,
    {
        self.params.channel_layout
    }

    /// The sampling rate of the stream.
    pub fn sample_rate(&self) -> (rate: SampleRate)
        ensures
            rate.0 == self@.sample_rate,
    {
        SampleRate::new(self.params.sample_rate)
    }

    /// The format in which the samples of the stream are stored, if the
    /// binding knows the one that the stream declares.
    pub fn sample_format(&self) -> (format: Option<SampleFormat>)
        ensures
            format is Some <==> 0 <= self@.format <= 11,
            format matches Some(f) ==> f.spec_av_sample() == self@.format,
    {
        SampleFormat::from_av_sample(self.params.format)
    }
}

impl CodecParameters<Video> {
    /// The width of one picture.
    pub fn width(&self) -> (width: u32)
        ensures
            width == self@.width,
    {
        self.params.width
    }

    /// The height of one picture.
    pub fn height(&self) -> (height: u32)
        ensures
            height == self@.height,
    {
        self.params.height
    }

    /// The format in which the pixels of a decoded picture are stored, if
    /// the binding knows the one that the stream declares.
    pub fn pixel_format(&self) -> (format: Option<PixelFormat>)
        ensures
            format is Some <==> -1 <= self@.format <= 43,
            format matches Some(f) ==> f.spec_av_pixel_format() == self@.format,
    {
        PixelFormat::from_av_pixel_format(self.params.format)
    }

    /// The colour primaries of the stream, if the number that the stream
    /// declares is assigned.
    pub fn color_primary(&self) -> (primary: Option<ColorPrimary>)
        ensures
            primary is Some <==> ColorPrimary::spec_is_known(self@.color_primaries as int),
            primary matches Some(p) ==> p.spec_av_color_primaries() == self@.color_primaries,
    {
        ColorPrimary::from_av_color_primaries(self.params.color_primaries)
    }

    /// The average frame rate of the stream.
    pub fn avg_frame_rate(&self) -> (rate: FrameRate)
        ensures
            rate == self@.avg_frame_rate,
    {
        self.params.avg_frame_rate
    }
}

} // verus!
