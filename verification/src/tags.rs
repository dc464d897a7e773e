//! Marker types that select, at compile time, what a handle may be used for,
//! and the media type that each of the stream markers stands for.

use vstd::prelude::*;
use crate::config::stream::DecodedStreamConfig;
use crate::config::dict::Entries;
use crate::raw::filter::audio::{spec_abuffer_options, ABufferSource};
use crate::raw::filter::video::{spec_buffer_options, VBufferSource};
use crate::util::traits::{Filter, Filterable, MediaMarker};

verus! {

/// The kind of data that a stream, a codec or a frame carries.
#[derive(Debug, Clone, Copy, PartialEq, Eq, Structural, Hash)]
pub enum MediaType {
    /// The kind is not known, or was not looked at yet.
    Unknown,
    /// Pictures.
    Video,
    /// Sound.
    Audio,
    /// Opaque data, usually continuous.
    Data,
    /// Subtitles.
    Subtitle,
    /// Opaque data, usually sparse.
    Attachment,
}

impl MediaType {
    /// The number that the native libraries use for this media type.
    pub open spec fn spec_av_media_type(self) -> int {
        match self {
            MediaType::Unknown => -1,
            MediaType::Video => 0,
            MediaType::Audio => 1,
            MediaType::Data => 2,
            MediaType::Subtitle => 3,
            MediaType::Attachment => 4,
        }
    }

    /// The number that the native libraries use for this media type.
    pub fn as_av_media_type(self) -> (code: i32)
        ensures
            code == self.spec_av_media_type(),
    {
        match self {
            MediaType::Unknown => -1,
            MediaType::Video => 0,
            MediaType::Audio => 1,
            MediaType::Data => 2,
            MediaType::Subtitle => 3,
            MediaType::Attachment => 4,
        }
    }

    /// The media type with the given native number, if there is one.
    pub fn from_av_media_type(code: i32) -> (media: Option<MediaType>)
        ensures
            media is Some <==> -1 <= code <= 4,
            media matches Some(m) ==> m.spec_av_media_type() == code,
    {
        match code {
            -1 => Some(MediaType::Unknown),
            0 => Some(MediaType::Video),
            1 => Some(MediaType::Audio),
            2 => Some(MediaType::Data),
            3 => Some(MediaType::Subtitle),
            4 => Some(MediaType::Attachment),
            _ => None,
        }
    }

    /// The lower case name of the media type, as it appears in messages.
    pub open spec fn spec_name(self) -> Seq<char> {
        match self {
            MediaType::Unknown => "unknown"@,
            MediaType::Video => "video"@,
            MediaType::Audio => "audio"@,
            MediaType::Data => "data"@,
            MediaType::Subtitle => "subtitle"@,
            MediaType::Attachment => "attachment"@,
        }
    }

    /// The lower case name of the media type, as it appears in messages.
    pub fn name(self) -> (text: &'static str)
        ensures
            text@ == self.spec_name(),
    {
        match self {
            MediaType::Unknown => "unknown",
            MediaType::Video => "video",
            MediaType::Audio => "audio",
            MediaType::Data => "data",
            MediaType::Subtitle => "subtitle",
            MediaType::Attachment => "attachment",
        }
    }
}

/// Marks an item that deals with audio.
#[derive(Debug, Clone, Copy)]
pub struct Audio;

/// Marks an item that deals with video.
#[derive(Debug, Clone, Copy)]
pub struct Video;

/// Marks an item that deals with raw data.
#[derive(Debug, Clone, Copy)]
pub struct Data;

/// Marks an item that deals with subtitles.
#[derive(Debug, Clone, Copy)]
pub struct Subtitles;

/// Marks an item that deals with file attachments.
#[derive(Debug, Clone, Copy)]
pub struct Attachment;

/// Marks an item whose media type was not looked at yet.
#[derive(Debug, Clone, Copy)]
pub struct Unknown;

/// Marks a container that is read from.
#[derive(Debug, Clone, Copy)]
pub struct Input;

/// Marks a container that is written to.
#[derive(Debug, Clone, Copy)]
pub struct Output;

/// Marks a codec that decodes.
#[derive(Debug, Clone, Copy)]
pub struct Decode;

/// Marks a codec that encodes.
#[derive(Debug, Clone, Copy)]
pub struct Encode;

/// Marks a filter graph whose topology is frozen and which exchanges frames.
#[derive(Debug, Clone, Copy)]
pub struct Configured;

/// Marks a filter graph that still accepts filters and links.
#[derive(Debug, Clone, Copy)]
pub struct Unconfigured;

impl MediaMarker for Audio {
    open spec fn spec_media_type() -> MediaType {
        MediaType::Audio
    }

    fn media_type() -> (media: MediaType) {
        MediaType::Audio
    }
}

impl MediaMarker for Video {
    open spec fn spec_media_type() -> MediaType {
        MediaType::Video
    }

    fn media_type() -> (media: MediaType) {
        MediaType::Video
    }
}

impl MediaMarker for Data {
    open spec fn spec_media_type() -> MediaType {
        MediaType::Data
    }

    fn media_type() -> (media: MediaType) {
        MediaType::Data
    }
}

impl MediaMarker for Subtitles {
    open spec fn spec_media_type() -> MediaType {
        MediaType::Subtitle
    }

    fn media_type() -> (media: MediaType) {
        MediaType::Subtitle
    }
}

impl MediaMarker for Attachment {
    open spec fn spec_media_type() -> MediaType {
        MediaType::Attachment
    }

    fn media_type() -> (media: MediaType) {
        MediaType::Attachment
    }
}

impl MediaMarker for Unknown {
    open spec fn spec_media_type() -> MediaType {
        MediaType::Unknown
    }

    fn media_type() -> (media: MediaType) {
        MediaType::Unknown
    }
}

impl Filterable for Audio {
    type InputType = ABufferSource;

    open spec fn spec_incoming(input: ABufferSource) -> DecodedStreamConfig<Audio> {
        input.spec_incoming_stream()
    }

    open spec fn spec_source_options(decoded: DecodedStreamConfig<Audio>) -> Entries {
        spec_abuffer_options(decoded)
    }

    fn from_decoded_stream(name: &str, decoded: &DecodedStreamConfig<Self>) -> (input:
        ABufferSource) {
        ABufferSource::from_decoded_stream(name, decoded)
    }
}

impl Filterable for Video {
    type InputType = VBufferSource;

    open spec fn spec_incoming(input: VBufferSource) -> DecodedStreamConfig<Video> {
        input.spec_incoming_stream()
    }

    open spec fn spec_source_options(decoded: DecodedStreamConfig<Video>) -> Entries {
        spec_buffer_options(decoded)
    }

    fn from_decoded_stream(name: &str, decoded: &DecodedStreamConfig<Self>) -> (input:
        VBufferSource) {
        VBufferSource::from_decoded_stream(name, decoded)
    }
}

} // verus!
