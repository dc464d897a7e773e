use ffav::config::{CodecFields, DecodedFields, FormatFields, StreamFields};
use ffav::decode::{DecodeEvent, DecodeState, Decoded, ImageDecoder, SimpleDecoder, SimpleSequencer};
use ffav::error::Error;
use ffav::raw::codec::{DecoderOutcome, FrameOutcome};
use ffav::raw::filter::audio::{ABufferSink, ABufferSource};
use ffav::raw::filter::{AddOutcome, FilterGraph};
use ffav::raw::format::{OpenOutcome, ReadOutcome};
use ffav::raw::frame::FrameData;
use ffav::raw::{Format, Frame, Plane};
use ffav::sys::{AVERROR_EOF, AVERROR_INVALIDDATA, AVERROR_STREAM_NOT_FOUND};
use ffav::tags::{Audio, MediaType, Video};
use ffav::util::color::image_ext::{rgb_pixels, ImageFormat, RgbImage};
use ffav::util::color::PixelFormat;
use ffav::util::time::{FrameRate, TimeBase};
use ffav::util::StreamID;

fn stream(media: MediaType) -> StreamFields {
    StreamFields {
        index: 0,
        id: StreamID::new(1),
        time_base: TimeBase::new(1, 44100),
        codec: CodecFields {
            codec_type: media,
            codec_id: 86018,
            format: 8,
            channels: 2,
            channel_layout: 3,
            sample_rate: 44100,
            width: 2,
            height: 2,
            color_primaries: 2,
            avg_frame_rate: FrameRate { numer: 25, denom: 1 },
        },
    }
}

fn opened(streams: Vec<StreamFields>) -> OpenOutcome {
    OpenOutcome {
        open_ret: 0,
        info_ret: 0,
        fields: FormatFields { start_time: 0, duration: 0, bit_rate: 0, nb_streams: 0, nb_chapters: 0 },
        streams,
    }
}

fn decoder(format: i32) -> DecoderOutcome {
    DecoderOutcome {
        found: true,
        allocated: true,
        params_ret: 0,
        open_ret: 0,
        decoded: DecodedFields { format, channel_layout: 3, sample_rate: 44100, width: 2, height: 2 },
    }
}

fn samples(pts: i64) -> FrameData {
    FrameData { planes: vec![Plane { data: vec![0; 16], linesize: 16 }], width: 0, height: 0, pts, format: 8 }
}

fn received(ret: i32, pts: i64) -> DecodeEvent {
    DecodeEvent::FrameReceived(FrameOutcome { ret, data: samples(pts) })
}

fn read(ret: i32, stream_index: i32) -> DecodeEvent {
    DecodeEvent::PacketRead(ReadOutcome { ret, stream_index, size: 100 })
}

fn audio_decoder() -> SimpleDecoder<Audio> {
    SimpleDecoder::open(b"song.flac", opened(vec![stream(MediaType::Video), stream(MediaType::Audio)]), 1, decoder(8)).unwrap()
}

#[test]
fn open_reports_the_first_failure() {
    let mut outcome = opened(vec![stream(MediaType::Audio)]);
    outcome.open_ret = -2;
    assert_eq!(
        SimpleDecoder::<Audio>::open(b"song.flac", outcome, 0, decoder(8)).err(),
        Some(Error::Unknown { context: "opening input format", code: -2 })
    );
    assert_eq!(
        SimpleDecoder::<Video>::open(b"song.flac", opened(vec![stream(MediaType::Audio)]), AVERROR_STREAM_NOT_FOUND, decoder(0)).err(),
        Some(Error::StreamNotFound)
    );
    let mut bad = decoder(8);
    bad.found = false;
    assert_eq!(
        SimpleDecoder::<Audio>::open(b"song.flac", opened(vec![stream(MediaType::Audio)]), 0, bad).err(),
        Some(Error::ResourceNotFound("decoder"))
    );
    assert_eq!(
        SimpleDecoder::<Audio>::open(b"so\0ng", opened(vec![stream(MediaType::Audio)]), 0, decoder(8)).err(),
        Some(Error::FFIString)
    );
}

#[test]
fn open_with_a_selected_stream() {
    let streams = vec![stream(MediaType::Video), stream(MediaType::Audio)];
    let simple = SimpleDecoder::<Audio>::open_with_stream(b"a", opened(streams.clone()), Ok(1), decoder(8)).unwrap();
    assert_eq!(simple.state(), DecodeState::AwaitingPacket);
    assert_eq!(
        SimpleDecoder::<Audio>::open_with_stream(b"a", opened(streams.clone()), Ok(0), decoder(8)).err(),
        Some(Error::MediaTypeDoesntMatch { expected: MediaType::Audio, found: MediaType::Video })
    );
    assert_eq!(
        SimpleDecoder::<Audio>::open_with_stream(b"a", opened(streams.clone()), Ok(2), decoder(8)).err(),
        Some(Error::StreamNotFound)
    );
    assert_eq!(
        SimpleDecoder::<Audio>::open_with_stream(b"a", opened(streams.clone()), Err(Error::InvalidData), decoder(8)).err(),
        Some(Error::InvalidData)
    );
    let format = Format::open_input(b"a", opened(streams)).unwrap();
    assert!(SimpleDecoder::<Video>::from_format_with_stream(format, Ok(0), decoder(0)).is_ok());
}

#[test]
fn a_request_feeds_the_decoder_until_a_frame_comes() {
    let mut simple = audio_decoder();
    let mut frame = Frame::<Audio>::new();
    assert!(matches!(simple.get_next_frame_into(&mut frame, DecodeEvent::Start), Decoded::ReceiveFrame));
    assert_eq!(simple.state(), DecodeState::AwaitingPacket);
    assert!(matches!(simple.get_next_frame_into(&mut frame, received(-11, 0)), Decoded::ReadPacket));
    assert!(matches!(simple.get_next_frame_into(&mut frame, read(0, 1)), Decoded::SubmitPacket));
    assert!(matches!(
        simple.get_next_frame_into(&mut frame, DecodeEvent::PacketSubmitted(0)),
        Decoded::ReceiveFrame
    ));
    assert_eq!(simple.state(), DecodeState::AwaitingPacket);
    assert!(matches!(simple.get_next_frame_into(&mut frame, received(-11, 0)), Decoded::ReadPacket));
    assert!(matches!(simple.get_next_frame_into(&mut frame, read(0, 1)), Decoded::SubmitPacket));
    assert!(matches!(
        simple.get_next_frame_into(&mut frame, DecodeEvent::PacketSubmitted(0)),
        Decoded::ReceiveFrame
    ));
    assert!(matches!(simple.get_next_frame_into(&mut frame, received(0, 1024)), Decoded::Done(Ok(()))));
    assert_eq!(simple.state(), DecodeState::HasOutput);
    assert_eq!(frame.get_pts().0, 1024);
    assert_eq!(frame.plane(0).data.len(), 16);
}

#[test]
fn the_stream_ends_when_the_container_is_at_its_end_and_the_decoder_is_drained() {
    let mut simple = audio_decoder();
    let mut frame = Frame::<Audio>::new();
    simple.get_next_frame_into(&mut frame, DecodeEvent::Start);
    simple.get_next_frame_into(&mut frame, received(-11, 0));
    assert!(matches!(simple.get_next_frame_into(&mut frame, read(AVERROR_EOF, 0)), Decoded::ReceiveFrame));
    assert_eq!(simple.state(), DecodeState::AwaitingPacket);
    assert!(matches!(simple.get_next_frame_into(&mut frame, received(0, 7)), Decoded::Done(Ok(()))));
    assert_eq!(simple.state(), DecodeState::HasOutput);
    assert!(matches!(simple.get_next_frame_into(&mut frame, DecodeEvent::Start), Decoded::ReceiveFrame));
    assert!(matches!(
        simple.get_next_frame_into(&mut frame, received(-11, 0)),
        Decoded::Done(Err(Error::EoF))
    ));
    assert_eq!(simple.state(), DecodeState::EndOfStream);
    assert!(matches!(simple.get_next_frame_into(&mut frame, DecodeEvent::Start), Decoded::Done(Err(Error::EoF))));
    assert!(matches!(simple.get_next_frame_into(&mut frame, received(0, 9)), Decoded::Done(Err(Error::EoF))));
    assert_eq!(simple.state(), DecodeState::EndOfStream);
    assert_eq!(simple.finish().streams().len(), 2);
}

#[test]
fn a_decoder_that_reports_its_end_ends_the_stream() {
    let mut simple = audio_decoder();
    let mut frame = Frame::<Audio>::new();
    simple.get_next_frame_into(&mut frame, DecodeEvent::Start);
    assert!(matches!(
        simple.get_next_frame_into(&mut frame, received(AVERROR_EOF, 0)),
        Decoded::Done(Err(Error::EoF))
    ));
    assert_eq!(simple.state(), DecodeState::EndOfStream);
}

#[test]
fn failures_end_the_request_and_leave_the_loop_usable() {
    let mut simple = audio_decoder();
    let mut frame = Frame::<Audio>::new();
    simple.get_next_frame_into(&mut frame, DecodeEvent::Start);
    assert!(matches!(
        simple.get_next_frame_into(&mut frame, received(AVERROR_INVALIDDATA, 0)),
        Decoded::Done(Err(Error::InvalidData))
    ));
    assert_eq!(simple.state(), DecodeState::AwaitingPacket);
    simple.get_next_frame_into(&mut frame, DecodeEvent::Start);
    simple.get_next_frame_into(&mut frame, received(-11, 0));
    assert!(matches!(
        simple.get_next_frame_into(&mut frame, read(0, 0)),
        Decoded::Done(Err(Error::PacketFromInvalidStream))
    ));
    simple.get_next_frame_into(&mut frame, DecodeEvent::Start);
    simple.get_next_frame_into(&mut frame, received(-11, 0));
    assert!(matches!(
        simple.get_next_frame_into(&mut frame, read(-5, 0)),
        Decoded::Done(Err(Error::Unknown { context: "reading next packet from format", code: -5 }))
    ));
    simple.get_next_frame_into(&mut frame, DecodeEvent::Start);
    simple.get_next_frame_into(&mut frame, received(-11, 0));
    simple.get_next_frame_into(&mut frame, read(0, 1));
    assert!(matches!(
        simple.get_next_frame_into(&mut frame, DecodeEvent::PacketSubmitted(-22)),
        Decoded::Done(Err(Error::Unknown { context: "submitting packet to decoder", code: -22 }))
    ));
    assert!(matches!(simple.get_next_frame_into(&mut frame, DecodeEvent::Start), Decoded::ReceiveFrame));
    assert!(matches!(simple.get_next_frame_into(&mut frame, received(0, 3)), Decoded::Done(Ok(()))));
}

#[test]
fn an_event_that_is_not_awaited_starts_a_request() {
    let mut simple = audio_decoder();
    let mut frame = Frame::<Audio>::new();
    assert!(matches!(simple.get_next_frame_into(&mut frame, read(0, 1)), Decoded::ReceiveFrame));
    assert!(matches!(
        simple.get_next_frame_into(&mut frame, DecodeEvent::PacketSubmitted(0)),
        Decoded::ReceiveFrame
    ));
    assert!(frame.plane(0).data.is_empty());
    assert!(matches!(simple.get_next_frame_into(&mut frame, received(0, 3)), Decoded::Done(Ok(()))));
}

#[test]
fn get_next_frame_hands_out_a_new_frame() {
    let mut simple = audio_decoder();
    assert!(matches!(simple.get_next_frame(DecodeEvent::Start), Decoded::ReceiveFrame));
    match simple.get_next_frame(received(0, 55)) {
        Decoded::Done(Ok(frame)) => assert_eq!(frame.get_pts().0, 55),
        other => panic!("no frame: {:?}", other),
    }
}

/// A container that yields a number of packets, and a decoder that gives
/// one frame for every second packet.
struct Native {
    packets_left: u32,
    submitted: u32,
    ready: u32,
    decoded: i64,
    graph_queue: Vec<FrameData>,
}

impl Native {
    fn receive(&mut self) -> FrameOutcome {
        if self.ready > 0 {
            self.ready -= 1;
            self.decoded += 1;
            FrameOutcome { ret: 0, data: samples(self.decoded * 1024) }
        } else {
            FrameOutcome { ret: -11, data: samples(0) }
        }
    }

    fn read(&mut self) -> ReadOutcome {
        if self.packets_left == 0 {
            ReadOutcome { ret: AVERROR_EOF, stream_index: 0, size: 0 }
        } else {
            self.packets_left -= 1;
            ReadOutcome { ret: 0, stream_index: 0, size: 64 }
        }
    }

    fn send(&mut self) -> i32 {
        self.submitted += 1;
        if self.submitted % 2 == 0 {
            self.ready += 1;
        }
        0
    }

    fn next_frame(&mut self, simple: &mut SimpleDecoder<Audio>, frame: &mut Frame<Audio>) -> Result<(), Error> {
        let mut event = DecodeEvent::Start;
        for _ in 0..1000 {
            event = match simple.get_next_frame_into(frame, event) {
                Decoded::ReceiveFrame => DecodeEvent::FrameReceived(self.receive()),
                Decoded::ReadPacket => DecodeEvent::PacketRead(self.read()),
                Decoded::SubmitPacket => DecodeEvent::PacketSubmitted(self.send()),
                Decoded::Done(result) => return result,
            };
        }
        panic!("the decode loop did not end");
    }
}

#[test]
fn decoding_a_file_through_a_graph_until_its_end() {
    let mut native = Native { packets_left: 9, submitted: 0, ready: 0, decoded: 0, graph_queue: Vec::new() };
    let mut simple =
        SimpleDecoder::<Audio>::open(b"test.flac", opened(vec![stream(MediaType::Audio)]), 0, decoder(8)).unwrap();

    let mut graph = FilterGraph::new(0x5000);
    let decoded = {
        let format = Format::open_input(b"test.flac", opened(vec![stream(MediaType::Audio)])).unwrap();
        let best = format.get_best_stream::<Audio>(0).unwrap();
        ffav::raw::Codec::open_decode(&best, decoder(8)).unwrap().out_stream_config().clone()
    };
    let src = graph
        .add(
            ABufferSource::from_decoded_stream("src", &decoded),
            AddOutcome { found: true, init_ret: 0, inputs: vec![], outputs: vec![MediaType::Audio] },
        )
        .unwrap();
    let sink = graph
        .add(
            ABufferSink::new("out"),
            AddOutcome { found: true, init_ret: 0, inputs: vec![MediaType::Audio], outputs: vec![] },
        )
        .unwrap();
    graph.connect(&src, 0, &sink, 0, 0).unwrap();
    let mut graph = graph.configure(0).unwrap();

    let mut produced = Vec::new();
    let mut input = Frame::<Audio>::new();
    let mut turns = 0;
    loop {
        turns += 1;
        assert!(turns < 1000);
        let (ret, data) = match native.graph_queue.pop() {
            Some(data) => (0, data),
            None => (-11, samples(0)),
        };
        match graph.get_output(&sink, ret, data) {
            Ok(frame) => produced.push(frame),
            Err(Error::SubmitMoreInput) => match native.next_frame(&mut simple, &mut input) {
                Ok(()) => {
                    graph.submit_frame(&src, &mut input, 0).unwrap();
                    native.graph_queue.push(samples(input.get_pts().as_av_timestamp()));
                },
                Err(Error::EoF) => break,
                Err(e) => panic!("decoding failed: {}", e.message()),
            },
            Err(e) => panic!("filtering failed: {}", e.message()),
        }
    }
    assert_eq!(simple.state(), DecodeState::EndOfStream);
    assert_eq!(produced.len(), 4);
    assert!(!produced.is_empty());
    for frame in &produced {
        assert_eq!(frame.format(), decoded.sample_format().to_av_sample());
    }
    assert_eq!(produced[0].get_pts().0, 1024);
    assert_eq!(produced[3].get_pts().0, 4096);
}

#[test]
fn best_video_stream_of_an_audio_only_file_is_nothing() {
    let format = Format::open_input(b"test.flac", opened(vec![stream(MediaType::Audio)])).unwrap();
    assert!(format.is_best_stream_answer(AVERROR_STREAM_NOT_FOUND));
    let best = format.get_best_stream::<Video>(AVERROR_STREAM_NOT_FOUND);
    assert!(best.is_none());
    let best = format.get_best_stream::<Video>(0);
    assert!(best.is_none());
}

#[test]
fn sequencer_adds_inputs_to_its_graph() {
    let mut sequencer = SimpleSequencer::<Audio, _>::new(0x77);
    let node = AddOutcome { found: true, init_ret: 0, inputs: vec![], outputs: vec![MediaType::Audio] };
    assert_eq!(sequencer.add_item(b"one.flac", opened(vec![stream(MediaType::Audio)]), 0, decoder(8), node.clone()), Ok(()));
    assert_eq!(sequencer.add_item(b"two.flac", opened(vec![stream(MediaType::Audio)]), 0, decoder(8), node.clone()), Ok(()));
    assert_eq!(sequencer.len(), 2);
    assert_eq!(
        sequencer.add_item(b"silent.mkv", opened(vec![stream(MediaType::Video)]), AVERROR_STREAM_NOT_FOUND, decoder(8), node.clone()),
        Err(Error::StreamNotFound)
    );
    let mut missing = node.clone();
    missing.found = false;
    assert_eq!(
        sequencer.add_item(b"three.flac", opened(vec![stream(MediaType::Audio)]), 0, decoder(8), missing),
        Err(Error::FilterNotFound("abuffer".to_string()))
    );
    assert_eq!(sequencer.len(), 2);
    let decoded = {
        let format = Format::open_input(b"three.flac", opened(vec![stream(MediaType::Audio)])).unwrap();
        let best = format.get_best_stream::<Audio>(0).unwrap();
        ffav::raw::Codec::open_decode(&best, decoder(8)).unwrap().out_stream_config().clone()
    };
    let (name, options) = sequencer.next_source(&decoded);
    assert_eq!(name, "src_2#2");
    assert_eq!(options.len(), 4);
    assert_eq!(options.get("time_base"), Some("1/44100"));
    assert_eq!(options.get("sample_fmt"), Some("fltp"));
    assert_eq!(options.get("channel_layout"), Some("0x3"));
    assert_eq!(options.get("sample_rate"), Some("44100"));
    let configured = sequencer.configure(0).unwrap();
    assert_eq!(configured.len(), 2);
    let sequencer = SimpleSequencer::<Video, _>::new(0x78);
    assert_eq!(
        sequencer.configure(-22).err(),
        Some(Error::Unknown { context: "configuring filter graph", code: -22 })
    );
}

fn picture(width: u32, height: u32, linesize: usize, rows: usize) -> FrameData {
    let mut plane = Vec::new();
    for row in 0..rows {
        for byte in 0..linesize {
            plane.push((row * 16 + byte) as u8);
        }
    }
    FrameData { planes: vec![Plane { data: plane, linesize }], width, height, pts: 0, format: 2 }
}

#[test]
fn rgb_pixels_leave_out_the_padding_of_each_line() {
    let plane = Plane { data: (0u8..16).collect(), linesize: 8 };
    assert_eq!(rgb_pixels(&plane, 2), vec![0, 1, 2, 3, 4, 5, 8, 9, 10, 11, 12, 13]);
    assert_eq!(rgb_pixels(&plane, 1), vec![0, 1, 2, 8, 9, 10]);
    assert_eq!(rgb_pixels(&plane, 5), vec![0, 1, 2, 3, 4, 5, 8, 9, 10, 11, 12, 13]);
    assert_eq!(rgb_pixels(&plane, 0), Vec::<u8>::new());
    let ragged = Plane { data: (0u8..15).collect(), linesize: 8 };
    assert_eq!(rgb_pixels(&ragged, 2), vec![0, 1, 2, 3, 4, 5]);
    let narrow = Plane { data: vec![1, 2, 3, 4], linesize: 2 };
    assert_eq!(rgb_pixels(&narrow, 1), Vec::<u8>::new());
}

#[test]
fn rgb_image_is_made_from_a_picture() {
    let mut frame = Frame::<Video>::new();
    frame.store(picture(2, 2, 8, 2));
    let image = RgbImage::from_frame(&frame).unwrap();
    assert_eq!(image.dimensions(), (2, 2));
    assert_eq!(image.into_raw(), vec![0, 1, 2, 3, 4, 5, 16, 17, 18, 19, 20, 21]);
    assert_eq!(RgbImage::format(), PixelFormat::RGB24);
}

#[test]
fn rgb_image_needs_enough_data() {
    let mut frame = Frame::<Video>::new();
    assert!(RgbImage::from_frame(&frame).is_none());
    frame.store(picture(2, 3, 8, 2));
    assert!(RgbImage::from_frame(&frame).is_none());
    frame.store(picture(3, 2, 8, 2));
    assert!(RgbImage::from_frame(&frame).is_none());
    frame.store(picture(2, 2, 8, 3));
    let image = RgbImage::from_frame(&frame).unwrap();
    assert_eq!(image.dimensions(), (2, 2));
    assert_eq!(image.into_raw().len(), 18);
    assert!(RgbImage::from_vec(1, 1, vec![1, 2]).is_none());
    assert!(RgbImage::from_vec(u32::MAX, u32::MAX, vec![1, 2, 3]).is_none());
    let image = RgbImage::from_vec(1, 1, vec![7, 8, 9]).unwrap();
    assert_eq!(image.dimensions(), (1, 1));
    assert_eq!(image.into_raw(), vec![7, 8, 9]);
    assert!(RgbImage::from_vec(0, 5, vec![]).is_some());
}

#[test]
fn image_decoder_turns_pictures_into_images() {
    let mut images = ImageDecoder::<RgbImage>::open(
        b"clip.mkv",
        opened(vec![stream(MediaType::Video)]),
        0,
        decoder(2),
    )
    .unwrap();
    assert!(matches!(images.get_next_image(DecodeEvent::Start), Decoded::ReceiveFrame));
    match images.get_next_image(DecodeEvent::FrameReceived(FrameOutcome { ret: 0, data: picture(2, 2, 6, 2) })) {
        Decoded::Done(Ok(image)) => {
            assert_eq!(image.dimensions(), (2, 2));
            assert_eq!(image.into_raw(), vec![0, 1, 2, 3, 4, 5, 16, 17, 18, 19, 20, 21]);
        },
        _ => panic!("no image"),
    }
    images.get_next_image(DecodeEvent::Start);
    assert!(matches!(
        images.get_next_image(DecodeEvent::FrameReceived(FrameOutcome { ret: 0, data: picture(4, 4, 6, 2) })),
        Decoded::Done(Err(Error::InvalidData))
    ));
    images.get_next_image(DecodeEvent::Start);
    assert!(matches!(
        images.get_next_image(DecodeEvent::FrameReceived(FrameOutcome { ret: -11, data: picture(2, 2, 6, 2) })),
        Decoded::ReadPacket
    ));
    assert_eq!(images.finish().streams().len(), 1);
    assert!(ImageDecoder::<RgbImage>::open(b"a.flac", opened(vec![stream(MediaType::Audio)]), AVERROR_STREAM_NOT_FOUND, decoder(2)).is_err());
    let format = Format::open_input(b"clip.mkv", opened(vec![stream(MediaType::Video)])).unwrap();
    assert!(ImageDecoder::<RgbImage>::from_format(format, 0, decoder(2)).is_ok());
    let format = Format::open_input(b"clip.mkv", opened(vec![stream(MediaType::Video)])).unwrap();
    assert!(ImageDecoder::<RgbImage>::from_format_with_stream(format, Ok(0), decoder(2)).is_ok());
    assert!(ImageDecoder::<RgbImage>::open_with_stream(b"clip.mkv", opened(vec![stream(MediaType::Video)]), Ok(1), decoder(2)).is_err());
}

#[test]
fn decoder_keeps_the_container_and_hands_it_back() {
    let mut outcome = opened(vec![stream(MediaType::Video), stream(MediaType::Audio)]);
    outcome.fields.nb_chapters = 3;
    outcome.fields.bit_rate = 128_000;
    let mut simple = SimpleDecoder::<Audio>::open(b"song.flac", outcome, 1, decoder(8)).unwrap();
    assert_eq!(simple.format().get_configuration().num_chapters(), 3);
    assert_eq!(simple.format().get_configuration().num_streams(), 2);
    assert_eq!(simple.out_stream_config().stream_index(), 1);
    assert_eq!(simple.out_stream_config().sample_rate().as_hz(), 44100);
    assert!(simple.out_stream_config().time_base().same(&TimeBase::new(1, 44100)));
    let mut frame = Frame::new();
    assert!(matches!(simple.get_next_frame_into(&mut frame, DecodeEvent::Start), Decoded::ReceiveFrame));
    assert!(matches!(simple.get_next_frame_into(&mut frame, received(0, 7)), Decoded::Done(Ok(()))));
    assert_eq!(simple.format().get_configuration().num_chapters(), 3);
    assert_eq!(simple.out_stream_config().stream_index(), 1);
    let format = simple.finish();
    assert_eq!(format.get_configuration().num_chapters(), 3);
    assert_eq!(format.get_configuration().bit_rate(), Some(128_000));
    assert_eq!(format.streams().len(), 2);
}

#[test]
fn image_decoder_hands_the_container_back() {
    let mut outcome = opened(vec![stream(MediaType::Video)]);
    outcome.fields.nb_chapters = 2;
    let format = Format::open_input(b"clip.mkv", outcome).unwrap();
    let images = ImageDecoder::<RgbImage>::from_format(format, 0, decoder(2)).unwrap();
    let format = images.finish();
    assert_eq!(format.get_configuration().num_chapters(), 2);
    assert_eq!(format.streams().len(), 1);
}
