use ffav::tags::MediaType;
use ffav::util::channels::{
    ChannelLayout, ALL_CHANNELS, FRONT_CENTER, FRONT_LEFT, FRONT_RIGHT, LOW_FREQ, LOW_FREQ_2,
};
use ffav::util::color::{ColorPrimary, PixelFormat};
use ffav::util::sampling::SampleFormat;
use ffav::util::traits::MediaMarker;
use ffav::util::StreamID;
use ffav::tags::{Attachment, Audio, Data, Subtitles, Unknown, Video};

#[test]
fn media_types_have_the_native_numbers() {
    assert_eq!(MediaType::Unknown.as_av_media_type(), -1);
    assert_eq!(MediaType::Video.as_av_media_type(), 0);
    assert_eq!(MediaType::Audio.as_av_media_type(), 1);
    assert_eq!(MediaType::Data.as_av_media_type(), 2);
    assert_eq!(MediaType::Subtitle.as_av_media_type(), 3);
    assert_eq!(MediaType::Attachment.as_av_media_type(), 4);
    for code in -1..=4 {
        assert_eq!(MediaType::from_av_media_type(code).unwrap().as_av_media_type(), code);
    }
    assert_eq!(MediaType::from_av_media_type(5), None);
    assert_eq!(MediaType::from_av_media_type(-2), None);
}

#[test]
fn markers_stand_for_their_media_type() {
    assert_eq!(Audio::media_type(), MediaType::Audio);
    assert_eq!(Video::media_type(), MediaType::Video);
    assert_eq!(Data::media_type(), MediaType::Data);
    assert_eq!(Subtitles::media_type(), MediaType::Subtitle);
    assert_eq!(Attachment::media_type(), MediaType::Attachment);
    assert_eq!(Unknown::media_type(), MediaType::Unknown);
    assert_eq!(MediaType::Audio.name(), "audio");
    assert_eq!(MediaType::Subtitle.name(), "subtitle");
}

#[test]
fn pixel_formats_have_the_native_numbers() {
    assert_eq!(PixelFormat::NONE.as_av_pixel_format(), -1);
    assert_eq!(PixelFormat::YUV420P.as_av_pixel_format(), 0);
    assert_eq!(PixelFormat::YUYV422.as_av_pixel_format(), 1);
    assert_eq!(PixelFormat::RGB24.as_av_pixel_format(), 2);
    assert_eq!(PixelFormat::BGR24.as_av_pixel_format(), 3);
    assert_eq!(PixelFormat::GRAY8.as_av_pixel_format(), 8);
    assert_eq!(PixelFormat::PAL8.as_av_pixel_format(), 11);
    assert_eq!(PixelFormat::NV12.as_av_pixel_format(), 23);
    assert_eq!(PixelFormat::NV21.as_av_pixel_format(), 24);
    assert_eq!(PixelFormat::BGRA.as_av_pixel_format(), 28);
    assert_eq!(PixelFormat::RGB48LE.as_av_pixel_format(), 35);
    assert_eq!(PixelFormat::BGR555LE.as_av_pixel_format(), 43);
}

#[test]
fn pixel_format_numbers_convert_back() {
    for code in -1..=43 {
        let format = PixelFormat::from_av_pixel_format(code).unwrap();
        assert_eq!(format.as_av_pixel_format(), code);
    }
    assert_eq!(PixelFormat::from_av_pixel_format(44), None);
    assert_eq!(PixelFormat::from_av_pixel_format(-2), None);
    assert_eq!(PixelFormat::from_av_pixel_format(i32::MAX), None);
}

#[test]
fn pixel_formats_have_the_native_names() {
    assert_eq!(PixelFormat::YUV420P.format_name(), "yuv420p");
    assert_eq!(PixelFormat::RGB24.format_name(), "rgb24");
    assert_eq!(PixelFormat::GRAY8.format_name(), "gray");
    assert_eq!(PixelFormat::MONOWHITE.format_name(), "monow");
    assert_eq!(PixelFormat::BGR4Byte.format_name(), "bgr4_byte");
    assert_eq!(PixelFormat::BGR555LE.format_name(), "bgr555le");
}

#[test]
fn sample_formats_have_the_native_numbers_and_names() {
    assert_eq!(SampleFormat::PackedU8.to_av_sample(), 0);
    assert_eq!(SampleFormat::PackedI16.to_av_sample(), 1);
    assert_eq!(SampleFormat::PackedI32.to_av_sample(), 2);
    assert_eq!(SampleFormat::PackedF32.to_av_sample(), 3);
    assert_eq!(SampleFormat::PackedF64.to_av_sample(), 4);
    assert_eq!(SampleFormat::PlanarU8.to_av_sample(), 5);
    assert_eq!(SampleFormat::PlanarF32.to_av_sample(), 8);
    assert_eq!(SampleFormat::PackedI64.to_av_sample(), 10);
    assert_eq!(SampleFormat::PlanarI64.to_av_sample(), 11);
    assert_eq!(SampleFormat::PackedI16.format_name(), "s16");
    assert_eq!(SampleFormat::PlanarF32.format_name(), "fltp");
    assert_eq!(SampleFormat::PackedF64.format_name(), "dbl");
    for code in 0..=11 {
        assert_eq!(SampleFormat::from_av_sample(code).unwrap().to_av_sample(), code);
    }
    assert_eq!(SampleFormat::from_av_sample(-1), None);
    assert_eq!(SampleFormat::from_av_sample(12), None);
}

#[test]
fn color_primaries_have_the_native_numbers() {
    assert_eq!(ColorPrimary::BT709.as_av_color_primaries(), 1);
    assert_eq!(ColorPrimary::Unspecified.as_av_color_primaries(), 2);
    assert_eq!(ColorPrimary::BT470M.as_av_color_primaries(), 4);
    assert_eq!(ColorPrimary::SMPTE432.as_av_color_primaries(), 12);
    assert_eq!(ColorPrimary::EBU3213.as_av_color_primaries(), 22);
    assert_eq!(ColorPrimary::from_av_color_primaries(9), Some(ColorPrimary::BT2020));
    assert_eq!(ColorPrimary::from_av_color_primaries(0), None);
    assert_eq!(ColorPrimary::from_av_color_primaries(3), None);
    assert_eq!(ColorPrimary::from_av_color_primaries(13), None);
    assert_eq!(ColorPrimary::from_av_color_primaries(23), None);
}

#[test]
fn channel_layouts_are_sets_of_speakers() {
    assert_eq!(ChannelLayout::empty().bits(), 0);
    assert_eq!(ChannelLayout::layout_mono().bits(), FRONT_CENTER);
    assert_eq!(ChannelLayout::layout_stereo().bits(), FRONT_LEFT | FRONT_RIGHT);
    assert_eq!(ChannelLayout::layout_stereo().bits(), 3);
    assert_eq!(ChannelLayout::layout_surround().bits(), 7);
    assert_eq!(ChannelLayout::layout_3_point_1().bits(), FRONT_LEFT | FRONT_RIGHT | FRONT_CENTER | LOW_FREQ);
    assert!(ChannelLayout::layout_surround().contains(ChannelLayout::layout_stereo()));
    assert!(!ChannelLayout::layout_stereo().contains(ChannelLayout::layout_mono()));
    assert_eq!(
        ChannelLayout::layout_stereo().union(ChannelLayout::layout_mono()),
        ChannelLayout::layout_surround()
    );
}

#[test]
fn channel_layout_drops_bits_that_are_no_speaker() {
    assert_eq!(ChannelLayout::from_bits_truncate(u64::MAX).bits(), ALL_CHANNELS);
    assert_eq!(ChannelLayout::from_bits_truncate(0x40000 | 1).bits(), 1);
    assert_eq!(ChannelLayout::from_bits(0x40000), None);
    assert_eq!(ChannelLayout::from_bits(LOW_FREQ_2).unwrap().bits(), 0x8_0000_0000);
    assert_eq!(ChannelLayout::layout_stereo().to_hex(), "3");
    assert_eq!(ChannelLayout::from_bits_truncate(0x63f).to_hex(), "63f");
}

#[test]
fn stream_id_wraps_the_number() {
    assert_eq!(StreamID::new(7).get(), 7);
    assert_eq!(StreamID::new(-1), StreamID(-1));
}
