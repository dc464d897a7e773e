//! The configuration of a stream, before and after its decoder is open.

use vstd::prelude::*;
use core::marker::PhantomData;
use crate::config::codec::{CodecFields, CodecParameters};
use crate::error::{Error, ErrorView};
use crate::tags::{Audio, MediaType, Unknown, Video};
use crate::util::pixels::PixelFormat;
use crate::util::sampling::SampleFormat;
use crate::util::time::{SampleRate, TimeBase};
use crate::util::traits::MediaMarker;
use crate::util::types::StreamID;

verus! {

/// The fields of a native stream that the binding reads.
#[derive(Debug, Clone, Copy)]
pub struct StreamFields {
    /// The place of the stream in the stream table of its container.
    pub index: usize,
    /// The identifier that the container format gives to the stream.
    pub id: StreamID,
    /// The time base in which the timestamps of the stream are counted.
    pub time_base: TimeBase,
    /// The codec parameters of the stream.
    pub codec: CodecFields,
}

/// The configuration of a stream of the media type that `AV` stands for.
#[derive(Debug)]
pub struct StreamConfig<AV: MediaMarker> {
    codec_parameters: CodecParameters<AV>,
    time_base: TimeBase,
    _av: PhantomData<AV>,
}

impl<AV: MediaMarker> StreamConfig<AV> {
    /// The codec parameters of the stream.
    pub closed spec fn spec_parameters(self) -> CodecParameters<AV> {
        self.codec_parameters
    }

    /// The time base of the stream.
    pub closed spec fn spec_time_base(self) -> TimeBase {
        self.time_base
    }

    /// The configuration of a stream, if it is of the media type `AV`; fails
    /// with the two media types otherwise.
    pub fn from_av_stream(other: &StreamFields) -> (result: Result<StreamConfig<AV>, Error>)
        ensures
            result is Ok <==> other.codec.codec_type == AV::spec_media_type(),
            result matches Ok(c) ==> c.spec_parameters()@ == other.codec && c.spec_time_base()
                == other.time_base,
            result matches Err(e) ==> e@ == (ErrorView::MediaTypeDoesntMatch {
                expected: AV::spec_media_type(),
                found: other.codec.codec_type,
            }),
    {
        match CodecParameters::from_av_codec_parameters(&other.codec) {
            Ok(codec_parameters) => Ok(
                StreamConfig { codec_parameters, time_base: other.time_base, _av: PhantomData },
            ),
            Err(e) => Err(e),
        }
    }

    /// The time base in which the timestamps of the stream are counted.
    pub fn time_base(&self) -> (base: TimeBase)
        ensures
            base == self.spec_time_base(),
    {
        self.time_base
    }

    /// The codec parameters of the stream.
    pub fn parameters(&self) -> (params: &CodecParameters<AV>)
        ensures
            *params == self.spec_parameters(),
    {
        &self.codec_parameters
    }
}

impl StreamConfig<Unknown> {
    /// The configuration of a stream whose media type is not looked at.
    pub fn from_av_stream_unchecked(other: &StreamFields) -> (config: StreamConfig<Unknown>)
        ensures
            config.spec_parameters()@ == other.codec,
            config.spec_time_base() == other.time_base,
    {
        StreamConfig {
            codec_parameters: CodecParameters::from_av_codec_parameters_unchecked(&other.codec),
            time_base: other.time_base,
            _av: PhantomData,
        }
    }

    /// Narrows the configuration to the media type `T`. Fails with the two
    /// media types if the stream is of another one.
    pub fn as_other_type<T: MediaMarker>(self) -> (result: Result<StreamConfig<T>, Error>)
        ensures
            result is Ok <==> self.spec_parameters()@.codec_type == T::spec_media_type(),
            result matches Ok(c) ==> c.spec_parameters()@ == self.spec_parameters()@
                && c.spec_time_base() == self.spec_time_base(),
            result matches Err(e) ==> e@ == (ErrorView::MediaTypeDoesntMatch {
                expected: T::spec_media_type(),
                found: self.spec_parameters()@.codec_type,
            }),
    {
        match self.codec_parameters.as_other_type() {
            Ok(codec_parameters) => Ok(
                StreamConfig { codec_parameters, time_base: self.time_base, _av: PhantomData },
            ),
            Err(e) => Err(e),
        }
    }
}

/// What an open decoder says of the frames that it produces.
#[derive(Debug, Clone, Copy, PartialEq, Eq, Structural)]
pub struct DecodedFields {
    /// The native number of the sample format or of the pixel format of the
    /// decoded frames.
    pub format: i32,
    /// The audio channel mask of the decoded frames.
    pub channel_layout: u64,
    /// The audio sampling rate of the decoded frames in hertz.
    pub sample_rate: u32,
    /// The width of a decoded picture.
    pub width: u32,
    /// The height of a decoded picture.
    pub height: u32,
}

/// The configuration of a stream as its open decoder produces it. For an
/// audio stream the sample format is one that the binding knows, for a video
/// stream the pixel format is.
#[derive(Debug)]
pub struct DecodedStreamConfig<AV: MediaMarker> {
    stream_index: usize,
    time_base: TimeBase,
    decoded: DecodedFields,
    _av: PhantomData<AV>,
}

/// Whether the binding knows the format that a decoder of the given media
/// type announces.
pub open spec fn spec_format_known(media: MediaType, format: i32) -> bool {
    &&& media == MediaType::Audio ==> 0 <= format <= 11
    &&& media == MediaType::Video ==> -1 <= format <= 43
}

impl<AV: MediaMarker> DecodedStreamConfig<AV> {
    #[verifier::type_invariant]
    closed spec fn wf(self) -> bool {
        spec_format_known(AV::spec_media_type(), self.decoded.format)
    }

    /// The place of the stream in the stream table of its container.
    pub closed spec fn spec_stream_index(self) -> usize {
        self.stream_index
    }

    /// The time base of the stream.
    pub closed spec fn spec_time_base(self) -> TimeBase {
        self.time_base
    }

    /// What the decoder says of its frames.
    pub closed spec fn spec_decoded(self) -> DecodedFields {
        self.decoded
    }

    /// The configuration of the decoded stream, unless the decoder announces
    /// a format that the binding does not know.
    pub fn new(stream_index: usize, time_base: TimeBase, decoded: DecodedFields) -> (config:
        Option<DecodedStreamConfig<AV>>)
        ensures
            config is Some <==> spec_format_known(AV::spec_media_type(), decoded.format),
            config matches Some(c) ==> c.spec_stream_index() == stream_index && c.spec_time_base()
                == time_base && c.spec_decoded() == decoded,
    {
        let media = AV::media_type();
        let known = match media {
            MediaType::Audio => 0 <= decoded.format && decoded.format <= 11,
            MediaType::Video => -1 <= decoded.format && decoded.format <= 43,
            _ => true,
        };
        if known {
            Some(DecodedStreamConfig { stream_index, time_base, decoded, _av: PhantomData })
        } else {
            None
        }
    }

    /// The place of the stream in the stream table of its container.
    pub fn stream_index(&self) -> (index: usize)
        ensures
            index == self.spec_stream_index(),
    {
        self.stream_index
    }

    /// The time base in which the timestamps of the frames are counted.
    pub fn time_base(&self) -> (base: TimeBase)
        ensures
            base == self.spec_time_base(),
    {
        self.time_base
    }
}

impl<AV: MediaMarker> Clone for DecodedStreamConfig<AV> {
    fn clone(&self) -> (copy: Self)
        ensures
            copy == *self,
    {
        proof {
            use_type_invariant(self);
        }
        DecodedStreamConfig {
            stream_index: self.stream_index,
            time_base: self.time_base,
            decoded: self.decoded,
            _av: PhantomData,
        }
    }
}

impl DecodedStreamConfig<Audio> {
    /// The format of the decoded samples.
    pub open spec fn spec_sample_format(self) -> SampleFormat {
        SampleFormat::spec_from_av_sample(self.spec_decoded().format as int)->0
    }

    /// The format of the decoded samples.
    pub fn sample_format(&self) -> (format: SampleFormat)
        ensures
            format == self.spec_sample_format(),
            format.spec_av_sample() == self.spec_decoded().format,
    {
        proof {
            use_type_invariant(self);
        }
        match SampleFormat::from_av_sample(self.decoded.format) {
            Some(format) => format,
            None => SampleFormat::PackedU8,
        }
    }

    /// The channel mask of the decoded frames.
    pub fn channel_layout(&self) -> (mask: u64)
        ensures
            mask == self.spec_decoded().channel_layout,
    {
        self.decoded.channel_layout
    }

    /// The sampling rate of the decoded frames.
    pub fn sample_rate(&self) -> (rate: SampleRate)
        ensures
            rate.0 == self.spec_decoded().sample_rate,
    {
        SampleRate::new(self.decoded.sample_rate)
    }
}

impl DecodedStreamConfig<Video> {
    /// The format of the decoded pixels.
    pub open spec fn spec_pixel_format(self) -> PixelFormat {
        PixelFormat::spec_from_av_pixel_format(self.spec_decoded().format as int)->0
    }

    /// The format of the decoded pixels.
    pub fn pixel_format(&self) -> (format: PixelFormat)
        ensures
            format == self.spec_pixel_format(),
            format.spec_av_pixel_format() == self.spec_decoded().format,
    {
        proof {
            use_type_invariant(self);
        }
        match PixelFormat::from_av_pixel_format(self.decoded.format) {
            Some(format) => format,
            None => PixelFormat::NONE,
        }
    }

    /// The width of a decoded picture.
    pub fn width(&self) -> (width: u32)
        ensures
            width == self.spec_decoded().width,
    {
        self.decoded.width
    }

    /// The height of a decoded picture.
    pub fn height(&self) -> (height: u32)
        ensures
            height == self.spec_decoded().height,
    {
        self.decoded.height
    }
}

} // verus!
