use ffav::config::{DecodedFields, DecodedStreamConfig};
use ffav::error::Error;
use ffav::raw::filter::audio::{ABufferSink, ABufferSource, ACrosssfade, AFormat, ANullSink, ATrim};
use ffav::raw::filter::video::{VBufferSink, VBufferSource, VFormat};
use ffav::raw::filter::{
    AbstractFilterInfo, AddAnswer, AddOutcome, AddStep, Filter, FilterGraph, FilterHandle,
};
use ffav::util::traits::Filterable;
use ffav::raw::frame::FrameData;
use ffav::raw::{Frame, Plane};
use ffav::sys::{AVERROR_EOF, AVERROR_FILTER_NOT_FOUND};
use ffav::tags::{Audio, Configured, MediaType, Unconfigured, Video};
use ffav::util::channels::ChannelLayout;
use ffav::util::color::PixelFormat;
use ffav::util::sampling::SampleFormat;
use ffav::util::time::{TimeBase, Timestamp};

fn decoded_audio() -> DecodedStreamConfig<Audio> {
    let decoded = DecodedFields { format: 8, channel_layout: 3, sample_rate: 44100, width: 0, height: 0 };
    DecodedStreamConfig::new(0, TimeBase::new(1, 44100), decoded).unwrap()
}

fn decoded_video() -> DecodedStreamConfig<Video> {
    let decoded = DecodedFields { format: 0, channel_layout: 0, sample_rate: 0, width: 640, height: 360 };
    DecodedStreamConfig::new(0, TimeBase::new(1, 25), decoded).unwrap()
}

fn node(inputs: &[MediaType], outputs: &[MediaType]) -> AddOutcome {
    AddOutcome { found: true, init_ret: 0, inputs: inputs.to_vec(), outputs: outputs.to_vec() }
}

fn source() -> AddOutcome {
    node(&[], &[MediaType::Audio])
}

fn sink() -> AddOutcome {
    node(&[MediaType::Audio], &[])
}

fn through() -> AddOutcome {
    node(&[MediaType::Audio], &[MediaType::Audio])
}

fn data() -> FrameData {
    FrameData { planes: vec![Plane { data: vec![9; 8], linesize: 8 }], width: 0, height: 0, pts: 1, format: 8 }
}

struct Simple {
    graph: FilterGraph<Unconfigured>,
    src: FilterHandle<ABufferSource>,
    out: FilterHandle<ABufferSink>,
}

fn simple(address: usize) -> Simple {
    let mut graph = FilterGraph::new(address);
    let src = graph.add(ABufferSource::from_decoded_stream("src", &decoded_audio()), source()).unwrap();
    let out = graph.add(ABufferSink::new("out"), sink()).unwrap();
    Simple { graph, src, out }
}

fn configured(address: usize) -> (FilterGraph<Configured>, FilterHandle<ABufferSource>, FilterHandle<ABufferSink>) {
    let Simple { mut graph, src, out } = simple(address);
    graph.connect(&src, 0, &out, 0, 0).unwrap();
    (graph.configure(0).unwrap(), src, out)
}

#[test]
fn new_graph_is_empty_and_knows_its_identity() {
    let graph = FilterGraph::new(0x1000);
    assert_eq!(graph.id(), 0x1000);
    assert_eq!(graph.len(), 0);
}

#[test]
fn add_hands_out_handles_in_order() {
    let Simple { graph, src, out } = simple(0x1000);
    assert_eq!(src.to_filter_info(), AbstractFilterInfo { graph: 0x1000, index: 0 });
    assert_eq!(out.to_filter_info(), AbstractFilterInfo { graph: 0x1000, index: 1 });
    assert_eq!(graph.len(), 2);
    assert!(graph.owns(&src));
    assert_eq!(out.config().filter_name(), "out");
    assert_eq!(src.config().filter_name(), "src");
}

#[test]
fn add_accepts_the_same_name_twice() {
    let mut graph = FilterGraph::new(1);
    let a = graph.add_filter(ABufferSink::new("trim1"), sink()).unwrap();
    let b = graph.add_filter(ABufferSink::new("trim1"), sink()).unwrap();
    assert_eq!(a.to_filter_info().index, 0);
    assert_eq!(b.to_filter_info().index, 1);
}

#[test]
fn add_of_an_unknown_filter_type_fails() {
    let mut graph = FilterGraph::new(1);
    let mut outcome = through();
    outcome.found = false;
    outcome.init_ret = -1;
    assert_eq!(
        graph.add(ACrosssfade::no_overlap("cross", Timestamp::from_millis(0)), outcome).err(),
        Some(Error::FilterNotFound("acrossfade".to_string()))
    );
    assert_eq!(graph.len(), 0);
}

#[test]
fn add_with_a_nul_in_the_name_fails() {
    let mut graph = FilterGraph::new(1);
    assert_eq!(graph.add(ABufferSink::new("o\0ut"), sink()).err(), Some(Error::FFIString));
    assert_eq!(graph.len(), 0);
}

#[test]
fn add_reports_a_failed_initialisation() {
    let mut graph = FilterGraph::new(1);
    let mut outcome = sink();
    outcome.init_ret = -22;
    assert_eq!(
        graph.add(ABufferSink::new("out"), outcome).err(),
        Some(Error::Unknown { context: "setting filter parameters", code: -22 })
    );
    let mut outcome = sink();
    outcome.init_ret = AVERROR_FILTER_NOT_FOUND;
    assert_eq!(
        graph.add(ABufferSink::new("out"), outcome).err(),
        Some(Error::Unknown { context: "setting filter parameters", code: AVERROR_FILTER_NOT_FOUND })
    );
    assert_eq!(graph.len(), 0);
}

#[test]
fn connect_links_free_pads() {
    let Simple { mut graph, src, out } = simple(7);
    assert_eq!(graph.check_link(src.to_filter_info(), 0, out.to_filter_info(), 0), Ok(()));
    assert_eq!(graph.connect(&src, 0, &out, 0, 0), Ok(()));
}

#[test]
fn connect_to_a_missing_input_pad_names_the_pad() {
    let Simple { mut graph, src, out } = simple(7);
    let expected = Error::InputPadDoesntExist {
        name: "out".to_string(),
        filter_type: "abuffersink".to_string(),
        pad_number: 1,
    };
    assert_eq!(graph.connect(&src, 0, &out, 1, 0), Err(expected.clone()));
    assert_eq!(graph.connect(&src, 0, &out, 1, -22), Err(expected));
    assert_eq!(
        graph.connect(&src, 0, &out, u32::MAX, 0),
        Err(Error::InputPadDoesntExist {
            name: "out".to_string(),
            filter_type: "abuffersink".to_string(),
            pad_number: u32::MAX,
        })
    );
    assert_eq!(graph.connect(&src, 0, &out, 0, 0), Ok(()));
}

#[test]
fn connect_from_a_missing_output_pad_names_the_pad() {
    let Simple { mut graph, src, out } = simple(7);
    assert_eq!(
        graph.connect(&src, 2, &out, 0, 0),
        Err(Error::OutputPadDoesntExist {
            name: "src".to_string(),
            filter_type: "abuffer".to_string(),
            pad_number: 2,
        })
    );
    assert_eq!(
        graph.connect(&src, 2, &out, 5, 0),
        Err(Error::OutputPadDoesntExist {
            name: "src".to_string(),
            filter_type: "abuffer".to_string(),
            pad_number: 2,
        })
    );
}

#[test]
fn connect_to_a_taken_pad_fails_like_a_missing_one() {
    let mut graph = FilterGraph::new(7);
    let a = graph.add(ABufferSource::from_decoded_stream("a", &decoded_audio()), source()).unwrap();
    let b = graph.add(ABufferSource::from_decoded_stream("b", &decoded_audio()), source()).unwrap();
    let out = graph.add(ABufferSink::new("out"), sink()).unwrap();
    assert_eq!(graph.connect(&a, 0, &out, 0, 0), Ok(()));
    assert_eq!(
        graph.connect(&b, 0, &out, 0, 0),
        Err(Error::InputPadDoesntExist {
            name: "out".to_string(),
            filter_type: "abuffersink".to_string(),
            pad_number: 0,
        })
    );
    let other = graph.add(ANullSink::new("null"), sink()).unwrap();
    assert_eq!(
        graph.connect(&a, 0, &other, 0, 0),
        Err(Error::OutputPadDoesntExist {
            name: "a".to_string(),
            filter_type: "abuffer".to_string(),
            pad_number: 0,
        })
    );
    assert_eq!(graph.link(b, 0, other, 0, 0), Ok(()));
}

#[test]
fn connect_of_pads_of_different_media_types_fails() {
    let mut graph = FilterGraph::new(7);
    let src = graph.add(ABufferSource::from_decoded_stream("src", &decoded_audio()), source()).unwrap();
    let out = graph.add(VBufferSink::new("out"), node(&[MediaType::Video], &[])).unwrap();
    assert_eq!(
        graph.connect(&src, 0, &out, 0, 0),
        Err(Error::PadTypeMismatch { output: MediaType::Audio, input: MediaType::Video })
    );
}

#[test]
fn connect_reports_a_native_failure_and_leaves_the_pads_free() {
    let Simple { mut graph, src, out } = simple(7);
    assert_eq!(
        graph.connect(&src, 0, &out, 0, -22),
        Err(Error::Unknown { context: "linking filters", code: -22 })
    );
    assert_eq!(graph.connect(&src, 0, &out, 0, 0), Ok(()));
}

#[test]
fn handle_of_another_graph_is_rejected() {
    let first = simple(0x1000);
    let mut second = simple(0x2000);
    assert!(!second.graph.owns(&first.src));
    assert_eq!(second.graph.connect(&first.src, 0, &second.out, 0, 0), Err(Error::GraphMismatch));
    assert_eq!(second.graph.connect(&second.src, 0, &first.out, 0, 0), Err(Error::GraphMismatch));
    assert_eq!(second.graph.connect(&first.src, 0, &first.out, 0, 0), Err(Error::GraphMismatch));
    assert_eq!(
        second.graph.check_link(first.src.to_filter_info(), 0, second.out.to_filter_info(), 0),
        Err(Error::GraphMismatch)
    );
    assert_eq!(second.graph.connect(&second.src, 0, &second.out, 0, 0), Ok(()));
}

#[test]
fn handle_of_a_dropped_graph_is_rejected() {
    let first = simple(0x1000);
    let stale = first.src;
    drop(first.graph);
    let mut second = simple(0x3000);
    assert_eq!(second.graph.connect(&stale, 0, &second.out, 0, 0), Err(Error::GraphMismatch));
}

#[test]
fn handle_with_an_index_beyond_the_graph_is_rejected() {
    let mut big = FilterGraph::new(0x1000);
    big.add(ABufferSink::new("a"), sink()).unwrap();
    big.add(ABufferSink::new("b"), sink()).unwrap();
    let third = big.add(ABufferSource::from_decoded_stream("c", &decoded_audio()), source()).unwrap();
    drop(big);
    let mut small = simple(0x1000);
    assert_eq!(small.graph.connect(&third, 0, &small.out, 0, 0), Err(Error::GraphMismatch));
}

#[test]
fn handle_of_another_graph_is_rejected_after_configuration() {
    let (mut graph, _src, _out) = configured(0x1000);
    let (_other_graph, other_src, other_out) = configured(0x2000);
    let mut frame = Frame::<Audio>::new();
    frame.store(data());
    assert_eq!(graph.submit_frame(&other_src, &mut frame, 0), Err(Error::GraphMismatch));
    assert_eq!(graph.submit_frame(&other_src, &mut frame, -11), Err(Error::GraphMismatch));
    assert_eq!(frame.plane(0).data, vec![9; 8]);
    assert_eq!(graph.get_output_into(&other_out, &mut frame, 0, data()), Err(Error::GraphMismatch));
    assert_eq!(frame.plane(0).data, vec![9; 8]);
    assert_eq!(graph.get_output(&other_out, 0, data()).err(), Some(Error::GraphMismatch));
    assert_eq!(graph.get_frame(&other_out, 0, data()).err(), Some(Error::GraphMismatch));
}

#[test]
fn configure_freezes_or_fails() {
    let Simple { mut graph, src, out } = simple(5);
    graph.connect(&src, 0, &out, 0, 0).unwrap();
    let graph = graph.configure(0).unwrap();
    assert_eq!(graph.id(), 5);
    assert_eq!(graph.len(), 2);
    let Simple { graph, .. } = simple(5);
    assert_eq!(
        graph.configure(-22).err(),
        Some(Error::Unknown { context: "configuring filter graph", code: -22 })
    );
}

#[test]
fn submit_frame_signals_when_output_has_to_be_drained() {
    let (mut graph, src, _out) = configured(9);
    let mut frame = Frame::<Audio>::new();
    frame.store(data());
    assert_eq!(graph.submit_frame(&src, &mut frame, 0), Ok(()));
    assert_eq!(frame.plane(0).data, vec![9; 8]);
    assert_eq!(graph.submit_frame(&src, &mut frame, -11), Err(Error::CouldNotAcceptInput));
    assert_eq!(frame.plane(0).data, vec![9; 8]);
    assert_eq!(
        graph.submit_frame(&src, &mut frame, -22),
        Err(Error::Unknown { context: "submitting frame to FrameGraph", code: -22 })
    );
    assert_eq!(graph.submit_frame(&src, &mut frame, AVERROR_EOF), Err(Error::EoF));
}

#[test]
fn get_output_signals_when_input_has_to_be_submitted() {
    let (mut graph, _src, out) = configured(9);
    let mut frame = Frame::<Audio>::new();
    assert_eq!(graph.get_output_into(&out, &mut frame, -11, data()), Err(Error::SubmitMoreInput));
    assert!(frame.plane(0).data.is_empty());
    assert_eq!(graph.get_output_into(&out, &mut frame, 0, data()), Ok(()));
    assert_eq!(frame.plane(0).data, vec![9; 8]);
    assert_eq!(graph.get_frame_into(&out, &mut frame, AVERROR_EOF, data()), Err(Error::EoF));
    assert!(frame.plane(0).data.is_empty());
    assert_eq!(
        graph.get_output(&out, -5, data()).err(),
        Some(Error::Unknown { context: "getting frame from FilterGraph", code: -5 })
    );
    assert_eq!(graph.get_output(&out, 0, data()).unwrap().format(), 8);
}

fn entries(filter: &impl Filter) -> Vec<(String, String)> {
    let dict = filter.config_parameters_dict();
    let mut out = Vec::new();
    let mut cursor = dict.items();
    while let Some((k, v)) = cursor.next() {
        out.push((k.to_string(), v.to_string()));
    }
    out
}

fn pairs(list: &[(&str, &str)]) -> Vec<(String, String)> {
    list.iter().map(|(k, v)| (k.to_string(), v.to_string())).collect()
}

#[test]
fn audio_source_options() {
    let src = ABufferSource::from_decoded_stream("src", &decoded_audio());
    assert_eq!(ABufferSource::filter_type_name(), "abuffer");
    assert_eq!(src.filter_name(), "src");
    assert_eq!(
        entries(&src),
        pairs(&[
            ("time_base", "1/44100"),
            ("sample_fmt", "fltp"),
            ("channel_layout", "0x3"),
            ("sample_rate", "44100"),
        ])
    );
}

#[test]
fn video_source_options() {
    let src = VBufferSource::from_decoded_stream("in", &decoded_video());
    assert_eq!(VBufferSource::filter_type_name(), "buffer");
    assert_eq!(
        entries(&src),
        pairs(&[("time_base", "1/25"), ("width", "640"), ("height", "360"), ("pix_fmt", "yuv420p")])
    );
}

#[test]
fn audio_format_options() {
    let all = AFormat::new("format", Some(32000), Some(SampleFormat::PackedI16), Some(ChannelLayout::layout_stereo()));
    assert_eq!(AFormat::filter_type_name(), "aformat");
    assert_eq!(
        entries(&all),
        pairs(&[("sample_rates", "32000"), ("sample_fmts", "s16"), ("channel_layouts", "3")])
    );
    let none = AFormat::new("format", None, None, None);
    assert!(entries(&none).is_empty());
    let some = AFormat::new("format", None, Some(SampleFormat::PlanarF64), None);
    assert_eq!(entries(&some), pairs(&[("sample_fmts", "dblp")]));
    let layout = AFormat::new("format", Some(0), None, Some(ChannelLayout::from_bits_truncate(0x63f)));
    assert_eq!(entries(&layout), pairs(&[("sample_rates", "0"), ("channel_layouts", "63f")]));
}

#[test]
fn video_format_options() {
    assert_eq!(VFormat::filter_type_name(), "format");
    assert_eq!(entries(&VFormat::new("f", Some(PixelFormat::RGB24))), pairs(&[("pix_fmts", "rgb24")]));
    assert!(entries(&VFormat::new("f", None)).is_empty());
}

#[test]
fn trim_options() {
    let by_duration = ATrim::new_with_duration("trim1", Timestamp::from_millis(0), Timestamp::from_millis(10_000));
    assert_eq!(ATrim::filter_type_name(), "atrim");
    assert_eq!(by_duration.filter_name(), "trim1");
    assert_eq!(entries(&by_duration), pairs(&[("start", "0.000"), ("duration", "10.000")]));
    let by_end = ATrim::new_with_end("trim2", Timestamp::from_millis(1500), Timestamp::from_millis(61_250));
    assert_eq!(entries(&by_end), pairs(&[("start", "1.500"), ("end", "61.250")]));
}

#[test]
fn cross_fade_options() {
    let cross = ACrosssfade::no_overlap("cross", Timestamp::from_millis(250));
    assert_eq!(ACrosssfade::filter_type_name(), "acrossfade");
    assert_eq!(entries(&cross), pairs(&[("duration", "0.250"), ("overlap", "0")]));
}

#[test]
fn sinks_have_no_options() {
    assert_eq!(ABufferSink::filter_type_name(), "abuffersink");
    assert_eq!(ANullSink::filter_type_name(), "anullsink");
    assert_eq!(VBufferSink::filter_type_name(), "buffersink");
    assert!(entries(&ABufferSink::new("a")).is_empty());
    assert!(entries(&ANullSink::new("b")).is_empty());
    assert!(entries(&VBufferSink::new("c")).is_empty());
    assert_eq!(ANullSink::new("b").filter_name(), "b");
}

#[test]
fn larger_graph_links_up() {
    let mut fg = FilterGraph::new(0xabc);
    let src = fg.add(ABufferSource::from_decoded_stream("src", &decoded_audio()), source()).unwrap();
    let trim1 = fg
        .add(ATrim::new_with_duration("trim1", Timestamp::from_millis(0), Timestamp::from_millis(10_000)), through())
        .unwrap();
    let src2 = fg.add(ABufferSource::from_decoded_stream("src2", &decoded_audio()), source()).unwrap();
    let trim2 = fg
        .add(ATrim::new_with_duration("trim1", Timestamp::from_millis(0), Timestamp::from_millis(10_000)), through())
        .unwrap();
    let cross = fg
        .add(
            ACrosssfade::no_overlap("cross", Timestamp::from_millis(0)),
            node(&[MediaType::Audio, MediaType::Audio], &[MediaType::Audio]),
        )
        .unwrap();
    let afmt = fg
        .add(AFormat::new("format", Some(32000), Some(SampleFormat::PackedI16), Some(ChannelLayout::layout_stereo())), through())
        .unwrap();
    let sink = fg.add(ABufferSink::new("out"), sink()).unwrap();
    fg.connect(&src, 0, &trim1, 0, 0).unwrap();
    fg.connect(&src2, 0, &trim2, 0, 0).unwrap();
    fg.connect(&trim1, 0, &cross, 0, 0).unwrap();
    fg.connect(&trim2, 0, &cross, 1, 0).unwrap();
    fg.connect(&cross, 0, &afmt, 0, 0).unwrap();
    fg.connect(&afmt, 0, &sink, 0, 0).unwrap();
    assert!(fg.connect(&trim2, 0, &cross, 1, 0).is_err());
    assert!(fg.connect(&trim2, 0, &cross, 2, 0).is_err());
    assert_eq!(fg.len(), 7);
    assert!(fg.configure(0).is_ok());
}

#[test]
fn native_names_differ_for_every_filter() {
    let mut graph = FilterGraph::new(1);
    let first = ABufferSink::new("trim1");
    assert_eq!(graph.next_node_name(&first), "trim1#0");
    graph.add(first, sink()).unwrap();
    let second = ABufferSink::new("trim1");
    assert_eq!(graph.next_node_name(&second), "trim1#1");
    graph.add(second, sink()).unwrap();
    assert_eq!(graph.next_node_name(&ABufferSink::new("")), "#2");
    assert_eq!(graph.next_node_name(&ABufferSink::new("a#1")), "a#1#2");
}

#[test]
fn adding_a_filter_asks_for_one_call_after_the_other() {
    let start = AddOutcome::unanswered();
    assert!(!start.found);
    let (step, outcome) = start.clone().answered("src", AddStep::FindFilter, AddAnswer::Found(true));
    assert_eq!(step, AddStep::AllocateFilter);
    assert!(outcome.found);
    let (step, outcome) = outcome.answered("src", step, AddAnswer::Allocated);
    assert_eq!(step, AddStep::InitFilter);
    let (step, outcome) = outcome.answered("src", step, AddAnswer::Initialised(0));
    assert_eq!(step, AddStep::ReadPads);
    let pads = AddAnswer::Pads { inputs: vec![], outputs: vec![MediaType::Audio] };
    let (step, outcome) = outcome.answered("src", step, pads);
    assert_eq!(step, AddStep::Finished);
    assert_eq!(outcome.outputs, vec![MediaType::Audio]);
    assert!(outcome.inputs.is_empty());
    let mut graph = FilterGraph::new(0x900);
    assert!(graph.add(ABufferSource::from_decoded_stream("src", &decoded_audio()), outcome).is_ok());
}

#[test]
fn adding_a_filter_stops_before_a_call_that_must_not_be_made() {
    let start = AddOutcome::unanswered();
    let (step, outcome) = start.clone().answered("src", AddStep::FindFilter, AddAnswer::Found(false));
    assert_eq!(step, AddStep::Finished);
    assert!(!outcome.found);
    let (step, outcome) = start.clone().answered("s\0rc", AddStep::FindFilter, AddAnswer::Found(true));
    assert_eq!(step, AddStep::Finished);
    assert!(outcome.found);
    let (step, outcome) = start.clone().answered("src", AddStep::InitFilter, AddAnswer::Initialised(-22));
    assert_eq!(step, AddStep::Finished);
    assert_eq!(outcome.init_ret, -22);
    let (step, outcome) = start.answered("src", AddStep::InitFilter, AddAnswer::Found(true));
    assert_eq!(step, AddStep::InitFilter);
    assert!(!outcome.found);
}

#[test]
fn input_filter_of_a_media_type_is_made_for_the_decoded_stream() {
    let audio = <Audio as Filterable>::from_decoded_stream("in", &decoded_audio());
    assert_eq!(audio.filter_name(), "in");
    assert_eq!(
        entries(&audio),
        pairs(&[
            ("time_base", "1/44100"),
            ("sample_fmt", "fltp"),
            ("channel_layout", "0x3"),
            ("sample_rate", "44100"),
        ])
    );
    let video = <Video as Filterable>::from_decoded_stream("pictures", &decoded_video());
    assert_eq!(video.filter_name(), "pictures");
    assert_eq!(
        entries(&video),
        pairs(&[("time_base", "1/25"), ("width", "640"), ("height", "360"), ("pix_fmt", "yuv420p")])
    );
}

#[test]
fn link_uses_up_both_pads() {
    let mut graph = FilterGraph::new(0x901);
    let src = graph.add(ABufferSource::from_decoded_stream("src", &decoded_audio()), source()).unwrap();
    let other = graph.add(ABufferSource::from_decoded_stream("other", &decoded_audio()), source()).unwrap();
    let out = graph.add(ABufferSink::new("out"), sink()).unwrap();
    let spare = graph.add(ABufferSink::new("spare"), sink()).unwrap();
    assert_eq!(graph.connect(&src, 0, &out, 0, 0), Ok(()));
    assert_eq!(
        graph.connect(&src, 0, &out, 0, 0),
        Err(Error::OutputPadDoesntExist { name: "src".to_string(), filter_type: "abuffer".to_string(), pad_number: 0 })
    );
    assert_eq!(
        graph.connect(&src, 0, &spare, 0, 0),
        Err(Error::OutputPadDoesntExist { name: "src".to_string(), filter_type: "abuffer".to_string(), pad_number: 0 })
    );
    assert_eq!(
        graph.connect(&other, 0, &out, 0, 0),
        Err(Error::InputPadDoesntExist { name: "out".to_string(), filter_type: "abuffersink".to_string(), pad_number: 0 })
    );
    assert_eq!(graph.link(other, 0, spare, 0, 0), Ok(()));
}
