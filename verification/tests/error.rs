use ffav::error::Error;
use ffav::sys::{
    av_err, AVERROR_DECODER_NOT_FOUND, AVERROR_EOF, AVERROR_INVALIDDATA, AVERROR_STREAM_NOT_FOUND,
    EAGAIN,
};
use ffav::tags::MediaType;

#[test]
fn end_of_file_code_has_its_own_error() {
    assert_eq!(Error::from_av_err("reading", AVERROR_EOF), Error::EoF);
}

#[test]
fn stream_not_found_code_has_its_own_error() {
    assert_eq!(Error::from_av_err("finding", AVERROR_STREAM_NOT_FOUND), Error::StreamNotFound);
}

#[test]
fn invalid_data_code_has_its_own_error() {
    assert_eq!(Error::from_av_err("decoding", AVERROR_INVALIDDATA), Error::InvalidData);
}

#[test]
fn try_again_code_asks_for_more_input() {
    assert_eq!(Error::from_av_err("receiving", av_err(EAGAIN)), Error::SubmitMoreInput);
    assert_eq!(Error::from_av_err("receiving", -11), Error::SubmitMoreInput);
}

#[test]
fn other_codes_keep_context_and_code() {
    assert_eq!(
        Error::from_av_err("opening decoder", -22),
        Error::Unknown { context: "opening decoder", code: -22 }
    );
    assert_eq!(
        Error::from_av_err("opening decoder", AVERROR_DECODER_NOT_FOUND),
        Error::Unknown { context: "opening decoder", code: AVERROR_DECODER_NOT_FOUND }
    );
    assert_eq!(
        Error::from_av_err("x", i32::MIN),
        Error::Unknown { context: "x", code: i32::MIN }
    );
}

#[test]
fn backpressure_is_told_from_failure() {
    assert!(Error::SubmitMoreInput.is_backpressure());
    assert!(Error::CouldNotAcceptInput.is_backpressure());
    assert!(!Error::EoF.is_backpressure());
    assert!(!Error::GraphMismatch.is_backpressure());
    assert!(!Error::Unknown { context: "x", code: -11 }.is_backpressure());
}

#[test]
fn messages_name_what_went_wrong() {
    assert_eq!(
        Error::InputPadDoesntExist {
            name: "out".to_string(),
            filter_type: "abuffersink".to_string(),
            pad_number: 3,
        }
        .message(),
        "input pad 3 is not available on filter 'out' of type 'abuffersink'"
    );
    assert_eq!(
        Error::OutputPadDoesntExist {
            name: "src".to_string(),
            filter_type: "abuffer".to_string(),
            pad_number: 12,
        }
        .message(),
        "output pad 12 is not available on filter 'src' of type 'abuffer'"
    );
    assert_eq!(
        Error::FilterNotFound("acrossfade".to_string()).message(),
        "could not find the filter 'acrossfade'; the linked native library may not provide it"
    );
    assert_eq!(
        Error::MediaTypeDoesntMatch { expected: MediaType::Video, found: MediaType::Audio }
            .message(),
        "expected media type video but found audio"
    );
    assert_eq!(
        Error::PadTypeMismatch { output: MediaType::Audio, input: MediaType::Video }.message(),
        "cannot link an output pad of type audio to an input pad of type video"
    );
    assert_eq!(Error::ResourceNotFound("decoder").message(), "could not find a decoder");
    assert_eq!(
        Error::AllocationFailed("initializing decoder context").message(),
        "allocation failed while initializing decoder context"
    );
}

#[test]
fn message_of_unknown_error_holds_context_and_code() {
    assert_eq!(
        Error::Unknown { context: "opening decoder", code: -22 }.message(),
        "native error while opening decoder: code -22"
    );
    assert_eq!(
        Error::Unknown { context: "probing", code: 5 }.message(),
        "native error while probing: code 5"
    );
    assert_eq!(
        Error::Unknown { context: "probing", code: i32::MIN }.message(),
        "native error while probing: code -2147483648"
    );
}

#[test]
fn every_variant_has_a_message() {
    let all = vec![
        Error::FFIString,
        Error::InvalidPath,
        Error::StreamNotFound,
        Error::InvalidArguments,
        Error::EoF,
        Error::InvalidData,
        Error::SubmitMoreInput,
        Error::CouldNotAcceptInput,
        Error::GraphMismatch,
        Error::PacketFromInvalidStream,
    ];
    for e in all {
        assert!(!e.message().is_empty());
    }
}
