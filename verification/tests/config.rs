use ffav::config::{
    CodecFields, CodecParameters, DecodedFields, DecodedStreamConfig, FormatConfig, FormatFields,
    StreamConfig, StreamFields,
};
use ffav::error::Error;
use ffav::raw::{StreamHandle, StreamRef};
use ffav::tags::{Audio, Data, Input, MediaType, Unknown, Video};
use ffav::util::color::{ColorPrimary, PixelFormat};
use ffav::util::sampling::SampleFormat;
use ffav::util::time::{
    Frame, FrameRate, IntoStreamTimestamp, Sample, TimeBase, TimeBaseTicks, Timestamp,
};
use ffav::util::StreamID;

fn audio_fields() -> CodecFields {
    CodecFields {
        codec_type: MediaType::Audio,
        codec_id: 86018,
        format: 8,
        channels: 2,
        channel_layout: 3,
        sample_rate: 44100,
        width: 0,
        height: 0,
        color_primaries: 2,
        avg_frame_rate: FrameRate { numer: 0, denom: 1 },
    }
}

fn video_fields() -> CodecFields {
    CodecFields {
        codec_type: MediaType::Video,
        codec_id: 27,
        format: 0,
        channels: 0,
        channel_layout: 0,
        sample_rate: 0,
        width: 1920,
        height: 1080,
        color_primaries: 1,
        avg_frame_rate: FrameRate { numer: 30000, denom: 1001 },
    }
}

fn stream(index: usize, codec: CodecFields) -> StreamFields {
    StreamFields { index, id: StreamID::new(index as i32 + 1), time_base: TimeBase::new(1, 90000), codec }
}

#[test]
fn codec_parameters_narrow_to_their_media_type() {
    let unknown = CodecParameters::from_av_codec_parameters_unchecked(&audio_fields());
    let audio = unknown.as_other_type::<Audio>().unwrap();
    assert_eq!(audio.num_channels(), 2);
    assert_eq!(audio.sample_rate().as_hz(), 44100);
    assert_eq!(audio.sample_format(), Some(SampleFormat::PlanarF32));
    assert_eq!(audio.channel_layout(), 3);
    assert_eq!(audio.codec_type(), MediaType::Audio);
    assert_eq!(audio.codec_id(), 86018);
}

#[test]
fn codec_parameters_refuse_another_media_type() {
    let unknown = CodecParameters::from_av_codec_parameters_unchecked(&audio_fields());
    assert_eq!(
        unknown.as_other_type::<Video>().err(),
        Some(Error::MediaTypeDoesntMatch { expected: MediaType::Video, found: MediaType::Audio })
    );
    assert_eq!(
        CodecParameters::<Data>::from_av_codec_parameters(&video_fields()).err(),
        Some(Error::MediaTypeDoesntMatch { expected: MediaType::Data, found: MediaType::Video })
    );
    assert_eq!(
        CodecParameters::<Unknown>::from_av_codec_parameters(&video_fields()).err(),
        Some(Error::MediaTypeDoesntMatch { expected: MediaType::Unknown, found: MediaType::Video })
    );
}

#[test]
fn video_parameters_give_size_and_formats() {
    let video = CodecParameters::<Video>::from_av_codec_parameters(&video_fields()).unwrap();
    assert_eq!(video.width(), 1920);
    assert_eq!(video.height(), 1080);
    assert_eq!(video.pixel_format(), Some(PixelFormat::YUV420P));
    assert_eq!(video.color_primary(), Some(ColorPrimary::BT709));
    assert_eq!(video.avg_frame_rate(), FrameRate { numer: 30000, denom: 1001 });
    let mut odd = video_fields();
    odd.format = 500;
    odd.color_primaries = 3;
    let video = CodecParameters::<Video>::from_av_codec_parameters(&odd).unwrap();
    assert_eq!(video.pixel_format(), None);
    assert_eq!(video.color_primary(), None);
}

#[test]
fn stream_config_narrows_like_its_parameters() {
    let fields = stream(0, audio_fields());
    let unknown = StreamConfig::from_av_stream_unchecked(&fields);
    assert!(unknown.time_base().same(&TimeBase::new(1, 90000)));
    let audio = unknown.as_other_type::<Audio>().unwrap();
    assert_eq!(audio.parameters().sample_rate().as_hz(), 44100);
    assert!(StreamConfig::<Video>::from_av_stream(&fields).is_err());
    assert_eq!(
        StreamConfig::from_av_stream_unchecked(&fields).as_other_type::<Video>().err(),
        Some(Error::MediaTypeDoesntMatch { expected: MediaType::Video, found: MediaType::Audio })
    );
}

#[test]
fn stream_ref_narrows_like_its_parameters() {
    let fields = stream(3, video_fields());
    let unknown = StreamRef::from_av_stream_unchecked(&fields);
    assert_eq!(unknown.index(), 3);
    let video = unknown.as_other_type::<Video>().unwrap();
    assert_eq!(video.index(), 3);
    assert_eq!(video.fields().id, StreamID::new(4));
    assert_eq!(
        StreamRef::<Audio>::from_av_stream(&fields).err(),
        Some(Error::MediaTypeDoesntMatch { expected: MediaType::Audio, found: MediaType::Video })
    );
}

#[test]
fn stream_handle_copies_the_coordinates() {
    let fields = stream(2, audio_fields());
    let stream = StreamRef::<Audio>::from_av_stream(&fields).unwrap();
    let handle = StreamHandle::from_stream_ref(&stream).unwrap();
    assert_eq!(handle.id(), StreamID::new(3));
    assert_eq!(handle.index(), 2);
    assert_eq!(handle.config().parameters().num_channels(), 2);
}

#[test]
fn format_config_reads_the_container_fields() {
    let config = FormatConfig::<Input>::from_input_fmt_ctx(&FormatFields {
        start_time: 0,
        duration: 12_500_000,
        bit_rate: 320_000,
        nb_streams: 2,
        nb_chapters: 5,
    });
    assert_eq!(config.num_streams(), 2);
    assert_eq!(config.num_chapters(), 5);
    assert_eq!(config.bit_rate(), Some(320_000));
    assert_eq!(config.duration().get_ticks(), TimeBaseTicks(12_500_000));
    assert_eq!(config.duration().as_duration(), Some(12_500));
    assert_eq!(config.start_time().get_ticks(), TimeBaseTicks(0));
    assert!(config.duration().get_base().same(&TimeBase::default_base()));
}

#[test]
fn format_config_without_bit_rate() {
    let config = FormatConfig::<Input>::from_input_fmt_ctx(&FormatFields {
        start_time: i64::MIN,
        duration: -1,
        bit_rate: 0,
        nb_streams: 0,
        nb_chapters: 0,
    });
    assert_eq!(config.bit_rate(), None);
    assert_eq!(config.start_time().get_ticks(), TimeBaseTicks(1 << 63));
    assert_eq!(config.duration().get_ticks(), TimeBaseTicks(u64::MAX));
    assert_eq!(config.with_num_streams(4).num_streams(), 4);
}

#[test]
fn decoded_stream_config_needs_a_known_format() {
    let decoded = DecodedFields { format: 1, channel_layout: 3, sample_rate: 48000, width: 0, height: 0 };
    let config = DecodedStreamConfig::<Audio>::new(2, TimeBase::new(1, 48000), decoded).unwrap();
    assert_eq!(config.stream_index(), 2);
    assert_eq!(config.sample_format(), SampleFormat::PackedI16);
    assert_eq!(config.sample_rate().as_hz(), 48000);
    assert_eq!(config.channel_layout(), 3);
    let unknown = DecodedFields { format: 12, channel_layout: 3, sample_rate: 48000, width: 0, height: 0 };
    assert!(DecodedStreamConfig::<Audio>::new(2, TimeBase::new(1, 48000), unknown).is_none());
    let none = DecodedFields { format: -1, channel_layout: 0, sample_rate: 0, width: 4, height: 2 };
    assert!(DecodedStreamConfig::<Audio>::new(0, TimeBase::new(1, 25), none).is_none());
    let video = DecodedStreamConfig::<Video>::new(0, TimeBase::new(1, 25), none).unwrap();
    assert_eq!(video.pixel_format(), PixelFormat::NONE);
    assert_eq!((video.width(), video.height()), (4, 2));
    let unknown = DecodedFields { format: 44, channel_layout: 0, sample_rate: 0, width: 4, height: 2 };
    assert!(DecodedStreamConfig::<Video>::new(0, TimeBase::new(1, 25), unknown).is_none());
    assert!(DecodedStreamConfig::<Data>::new(0, TimeBase::new(1, 25), unknown).is_some());
}

#[test]
fn sample_number_becomes_a_timestamp_of_its_stream() {
    let config = StreamConfig::<Audio>::from_av_stream(&stream(0, audio_fields())).unwrap();
    let stamp = IntoStreamTimestamp::into(Sample(88200), &config).unwrap();
    assert_eq!(stamp.get_ticks(), TimeBaseTicks(88200));
    assert!(stamp.get_base().same(&TimeBase::new(1, 44100)));
    assert_eq!(stamp.as_duration(), Some(2000));
    let mut silent = audio_fields();
    silent.sample_rate = 0;
    let config = StreamConfig::<Audio>::from_av_stream(&stream(0, silent)).unwrap();
    assert!(IntoStreamTimestamp::into(Sample(1), &config).is_none());
}

#[test]
fn frame_number_becomes_a_timestamp_of_its_stream() {
    let config = StreamConfig::<Video>::from_av_stream(&stream(0, video_fields())).unwrap();
    let stamp = IntoStreamTimestamp::into(Frame(30000), &config).unwrap();
    assert_eq!(stamp.get_ticks(), TimeBaseTicks(30000));
    assert!(stamp.get_base().same(&TimeBase::new(1001, 30000)));
    assert_eq!(stamp.as_duration(), Some(1_001_000));
    let mut still = video_fields();
    still.avg_frame_rate = FrameRate { numer: 0, denom: 1 };
    let config = StreamConfig::<Video>::from_av_stream(&stream(0, still)).unwrap();
    assert!(IntoStreamTimestamp::into(Frame(1), &config).is_none());
}

#[test]
fn timestamp_is_counted_in_the_time_base_of_its_stream() {
    let config = StreamConfig::<Audio>::from_av_stream(&stream(0, audio_fields())).unwrap();
    let stamp = IntoStreamTimestamp::into(Timestamp::from_millis(2000), &config).unwrap();
    assert_eq!(stamp.get_ticks(), TimeBaseTicks(180_000));
    assert!(stamp.get_base().same(&TimeBase::new(1, 90000)));
}
