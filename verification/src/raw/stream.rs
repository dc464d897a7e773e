//! Streams: the tracks of a container.

use vstd::prelude::*;
use core::marker::PhantomData;
use crate::config::stream::{StreamConfig, StreamFields};
use crate::error::{Error, ErrorView};
use crate::tags::Unknown;
use crate::util::traits::MediaMarker;
use crate::util::types::StreamID;

verus! {

/// A reference to one entry of the stream table of a container, tagged with
/// the media type that `AV` stands for. It lives no longer than the
/// container.
#[derive(Debug)]
pub struct StreamRef<'container, AV: MediaMarker> {
    stream: &'container StreamFields,
    _lav: PhantomData<AV>,
}

impl<'a, AV: MediaMarker> View for StreamRef<'a, AV> {
    type V = StreamFields;

    closed spec fn view(&self) -> StreamFields {
        *self.stream
    }
}

impl<'a, AV: MediaMarker> StreamRef<'a, AV> {
    /// A reference to the stream, if it is of the media type `AV`; fails
    /// with the two media types otherwise.
    pub fn from_av_stream(other: &'a StreamFields) -> (result: Result<StreamRef<'a, AV>, Error>)
        ensures
            result is Ok <==> other.codec.codec_type == AV::spec_media_type(),
            result matches Ok(s) ==> s@ == *other,
            result matches Err(e) ==> e@ == (ErrorView::MediaTypeDoesntMatch {
                expected: AV::spec_media_type(),
                found: other.codec.codec_type,
            }),
    {
        StreamRef::from_av_stream_unchecked(other).as_other_type()
    }

    /// The place of the stream in the stream table of its container.
    pub fn index(&self) -> (index: usize)
        ensures
            index == self@.index,
    {
        self.stream.index
    }

    /// The fields of the stream.
    pub fn fields(&self) -> (fields: &'a StreamFields)
        ensures
            *fields == self@,
    {
        self.stream
    }

    /// A second reference to the same stream.
    pub fn duplicate(&self) -> (copy: StreamRef<'a, AV>)
        ensures
            copy@ == self@,
    {
        StreamRef { stream: self.stream, _lav: PhantomData }
    }
}

impl<'a> StreamRef<'a, Unknown> {
    /// A reference to the stream, whatever its media type.
    pub fn from_av_stream_unchecked(other: &'a StreamFields) -> (stream: StreamRef<'a, Unknown>)
        ensures
            stream@ == *other,
    {
        StreamRef { stream: other, _lav: PhantomData }
    }

    /// Narrows the reference to the media type `T`. Fails with the two media
    /// types if the stream is of another one.
    pub fn as_other_type<T: MediaMarker>(self) -> (result: Result<StreamRef<'a, T>, Error>)
        ensures
            result is Ok <==> self@.codec.codec_type == T::spec_media_type(),
            result matches Ok(s) ==> s@ == self@,
            result matches Err(e) ==> e@ == (ErrorView::MediaTypeDoesntMatch {
                expected: T::spec_media_type(),
                found: self@.codec.codec_type,
            }),
    {
        let expected = T::media_type();
        if self.stream.codec.codec_type != expected {
            return Err(
                Error::MediaTypeDoesntMatch { expected, found: self.stream.codec.codec_type },
            );
        }
        Ok(StreamRef { stream: self.stream, _lav: PhantomData })
    }
}

/// A handle to a stream that does not borrow from the container: the
/// coordinates of the stream and a copy of its configuration.
#[derive(Debug)]
pub struct StreamHandle<AV: MediaMarker> {
    id: StreamID,
    index: usize,
    config: StreamConfig<AV>,
    _av: PhantomData<AV>,
}

impl<AV: MediaMarker> StreamHandle<AV> {
    /// The identifier of the stream.
    pub closed spec fn spec_id(self) -> StreamID {
        self.id
    }

    /// The place of the stream in its container.
    pub closed spec fn spec_index(self) -> usize {
        self.index
    }

    /// The configuration of the stream.
    pub closed spec fn spec_config(self) -> StreamConfig<AV> {
        self.config
    }

    /// The handle for a stream that a reference points at.
    pub fn from_stream_ref(stream: &StreamRef<'_, AV>) -> (result: Result<StreamHandle<AV>, Error>)
        ensures
            result is Ok <==> stream@.codec.codec_type == AV::spec_media_type(),
            result matches Ok(h) ==> h.spec_id() == stream@.id && h.spec_index() == stream@.index
                && h.spec_config().spec_parameters()@ == stream@.codec
                && h.spec_config().spec_time_base() == stream@.time_base,
            result matches Err(e) ==> e@ == (ErrorView::MediaTypeDoesntMatch {
                expected: AV::spec_media_type(),
                found: stream@.codec.codec_type,
            }),
    {
        match StreamConfig::from_av_stream(stream.fields()) {
            Ok(config) => Ok(
                StreamHandle {
                    id: stream.fields().id,
                    index: stream.fields().index,
                    config,
                    _av: PhantomData,
                },
            ),
            Err(e) => Err(e),
        }
    }

    /// The identifier that the container format gives to the stream.
    pub fn id(&self) -> (id: StreamID)
        ensures
            id == self.spec_id(),
    {
        self.id
    }

    /// The place of the stream in the stream table of its container.
    pub fn index(&self) -> (index: usize)
        ensures
            index == self.spec_index(),
    {
        self.index
    }

    /// The configuration of the stream.
    pub fn config(&self) -> (config: &StreamConfig<AV>)
        ensures
            *config == self.spec_config(),
    {
        &self.config
    }
}

} // verus!
