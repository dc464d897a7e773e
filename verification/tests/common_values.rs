use ffav::config::{CodecFields, DecodedFields, FormatFields, StreamFields};
use ffav::raw::codec::DecoderOutcome;
use ffav::raw::format::{OpenOutcome, ReadOutcome};
use ffav::tags::MediaType;
use ffav::util::time::{FrameRate, TimeBase};
use ffav::util::StreamID;

#[test]
fn plain_values_can_be_written_out() {
    let codec = CodecFields {
        codec_type: MediaType::Audio,
        codec_id: 86018,
        format: 8,
        channels: 2,
        channel_layout: 3,
        sample_rate: 44100,
        width: 0,
        height: 0,
        color_primaries: 2,
        avg_frame_rate: FrameRate { numer: 0, denom: 1 },
    };
    let stream = StreamFields { index: 0, id: StreamID::new(1), time_base: TimeBase::new(1, 44100), codec };
    let opened = OpenOutcome {
        open_ret: 0,
        info_ret: 0,
        fields: FormatFields { start_time: 0, duration: 1_000_000, bit_rate: 128000, nb_streams: 1, nb_chapters: 0 },
        streams: vec![stream],
    };
    assert_eq!(opened.streams.len(), 1);
    let read = ReadOutcome { ret: 0, stream_index: 0, size: 417 };
    assert_eq!(read.size, 417);
    let decoder = DecoderOutcome {
        found: true,
        allocated: true,
        params_ret: 0,
        open_ret: 0,
        decoded: DecodedFields { format: 8, channel_layout: 3, sample_rate: 44100, width: 0, height: 0 },
    };
    assert!(decoder.found);
}
