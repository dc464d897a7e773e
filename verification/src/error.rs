//! The errors of the binding, and the translation of native return codes.

use vstd::prelude::*;
use crate::sys::{AVERROR_EOF, AVERROR_INVALIDDATA, AVERROR_STREAM_NOT_FOUND, EAGAIN};
use crate::tags::MediaType;
use crate::util::text::{decimal, spec_decimal};

verus! {

/// All that can go wrong in the binding.
///
/// The two flow control signals, [`Error::SubmitMoreInput`] and
/// [`Error::CouldNotAcceptInput`], are no failures: they tell the caller which
/// side of a decoder or a filter graph to serve next.
#[derive(Debug, Clone, PartialEq, Eq)]
pub enum Error {
    /// A string holds a NUL and cannot be handed to the native layer.
    FFIString,
    /// A path cannot be represented for the native layer.
    InvalidPath,
    /// Nothing is registered for what was asked, such as a decoder.
    ResourceNotFound(&'static str),
    /// The linked native library has no filter of this type name.
    FilterNotFound(String),
    /// The container has no stream of the kind asked for.
    StreamNotFound,
    /// The native allocator is exhausted; the label says what was being set up.
    AllocationFailed(&'static str),
    /// The arguments cannot be used: they cannot be expressed for the native
    /// layer, or the native layer rejected them.
    InvalidArguments,
    /// The end of the file or of the stream was reached.
    EoF,
    /// The data is invalid or corrupt.
    InvalidData,
    /// Nothing can be taken out until more input is submitted.
    SubmitMoreInput,
    /// No input can be accepted until the available output is drained.
    CouldNotAcceptInput,
    /// A filter handle was used with a graph other than the one that made it.
    GraphMismatch,
    /// The filter has no free input pad of this number.
    InputPadDoesntExist {
        /// The name of the filter in its graph.
        name: String,
        /// The type name of the filter.
        filter_type: String,
        /// The pad that was asked for.
        pad_number: u32,
    },
    /// The filter has no free output pad of this number.
    OutputPadDoesntExist {
        /// The name of the filter in its graph.
        name: String,
        /// The type name of the filter.
        filter_type: String,
        /// The pad that was asked for.
        pad_number: u32,
    },
    /// The two pads of a link carry different media types.
    PadTypeMismatch {
        /// The media type of the output pad.
        output: MediaType,
        /// The media type of the input pad.
        input: MediaType,
    },
    /// A packet was submitted to a codec that is bound to another stream.
    PacketFromInvalidStream,
    /// An item of one media type was asked to be of another.
    MediaTypeDoesntMatch {
        /// The media type that was asked for.
        expected: MediaType,
        /// The media type that the item has.
        found: MediaType,
    },
    /// A native failure that has no variant of its own.
    Unknown {
        /// What was being done when the native call failed.
        context: &'static str,
        /// The native return code.
        code: i32,
    },
}

/// What an [`Error`] holds, with its strings as sequences of characters.
pub enum ErrorView {
    FFIString,
    InvalidPath,
    ResourceNotFound(Seq<char>),
    FilterNotFound(Seq<char>),
    StreamNotFound,
    AllocationFailed(Seq<char>),
    InvalidArguments,
    EoF,
    InvalidData,
    SubmitMoreInput,
    CouldNotAcceptInput,
    GraphMismatch,
    InputPadDoesntExist { name: Seq<char>, filter_type: Seq<char>, pad_number: u32 },
    OutputPadDoesntExist { name: Seq<char>, filter_type: Seq<char>, pad_number: u32 },
    PadTypeMismatch { output: MediaType, input: MediaType },
    PacketFromInvalidStream,
    MediaTypeDoesntMatch { expected: MediaType, found: MediaType },
    Unknown { context: Seq<char>, code: i32 },
}

impl View for Error {
    type V = ErrorView;

    open spec fn view(&self) -> ErrorView {
        match *self {
            Error::FFIString => ErrorView::FFIString,
            Error::InvalidPath => ErrorView::InvalidPath,
            Error::ResourceNotFound(what) => ErrorView::ResourceNotFound(what@),
            Error::FilterNotFound(name) => ErrorView::FilterNotFound(name@),
            Error::StreamNotFound => ErrorView::StreamNotFound,
            Error::AllocationFailed(what) => ErrorView::AllocationFailed(what@),
            Error::InvalidArguments => ErrorView::InvalidArguments,
            Error::EoF => ErrorView::EoF,
            Error::InvalidData => ErrorView::InvalidData,
            Error::SubmitMoreInput => ErrorView::SubmitMoreInput,
            Error::CouldNotAcceptInput => ErrorView::CouldNotAcceptInput,
            Error::GraphMismatch => ErrorView::GraphMismatch,
            Error::InputPadDoesntExist { name, filter_type, pad_number } => {
                ErrorView::InputPadDoesntExist { name: name@, filter_type: filter_type@, pad_number }
            },
            Error::OutputPadDoesntExist { name, filter_type, pad_number } => {
                ErrorView::OutputPadDoesntExist {
                    name: name@,
                    filter_type: filter_type@,
                    pad_number,
                }
            },
            Error::PadTypeMismatch { output, input } => ErrorView::PadTypeMismatch {
                output,
                input,
            },
            Error::PacketFromInvalidStream => ErrorView::PacketFromInvalidStream,
            Error::MediaTypeDoesntMatch { expected, found } => ErrorView::MediaTypeDoesntMatch {
                expected,
                found,
            },
            Error::Unknown { context, code } => ErrorView::Unknown { context: context@, code },
        }
    }
}

/// The error that a negative native return code stands for. Four codes have
/// a meaning of their own; every other one keeps the label of what was being
/// done, and the code itself.
pub open spec fn spec_from_av_err(context: Seq<char>, err: i32) -> ErrorView {
    if err == AVERROR_EOF {
        ErrorView::EoF
    } else if err == AVERROR_STREAM_NOT_FOUND {
        ErrorView::StreamNotFound
    } else if err == AVERROR_INVALIDDATA {
        ErrorView::InvalidData
    } else if err == -EAGAIN {
        ErrorView::SubmitMoreInput
    } else {
        ErrorView::Unknown { context, code: err }
    }
}

impl ErrorView {
    /// Whether the error is one of the two flow control signals.
    pub open spec fn is_backpressure(self) -> bool {
        self is SubmitMoreInput || self is CouldNotAcceptInput
    }

    /// The text that describes the error to the user.
    pub open spec fn message(self) -> Seq<char> {
        match self {
            ErrorView::FFIString => "a string holds a NUL and cannot be passed to the native library"@,
            ErrorView::InvalidPath => "the path cannot be passed to the native library"@,
            ErrorView::ResourceNotFound(what) => "could not find a "@ + what,
            ErrorView::FilterNotFound(name) => "could not find the filter '"@ + name
                + "'; the linked native library may not provide it"@,
            ErrorView::StreamNotFound => "could not find a stream of the requested type"@,
            ErrorView::AllocationFailed(what) => "allocation failed while "@ + what,
            ErrorView::InvalidArguments => "the native library rejected the arguments"@,
            ErrorView::EoF => "end of file"@,
            ErrorView::InvalidData => "invalid data found when processing input"@,
            ErrorView::SubmitMoreInput => "more input has to be submitted before output is available"@,
            ErrorView::CouldNotAcceptInput => "the available output has to be drained before input is accepted"@,
            ErrorView::GraphMismatch => "the filter does not belong to this filter graph"@,
            ErrorView::InputPadDoesntExist { name, filter_type, pad_number } => "input pad "@
                + spec_decimal(pad_number as nat) + " is not available on filter '"@ + name
                + "' of type '"@ + filter_type + "'"@,
            ErrorView::OutputPadDoesntExist { name, filter_type, pad_number } => "output pad "@
                + spec_decimal(pad_number as nat) + " is not available on filter '"@ + name
                + "' of type '"@ + filter_type + "'"@,
            ErrorView::PadTypeMismatch { output, input } => "cannot link an output pad of type "@
                + output.spec_name() + " to an input pad of type "@ + input.spec_name(),
            ErrorView::PacketFromInvalidStream => "the packet does not belong to the stream of this codec"@,
            ErrorView::MediaTypeDoesntMatch { expected, found } => "expected media type "@
                + expected.spec_name() + " but found "@ + found.spec_name(),
            ErrorView::Unknown { context, code } => "native error while "@ + context + ": code "@
                + (if code < 0 {
                "-"@
            } else {
                ""@
            }) + spec_decimal(
                (if code < 0 {
                    -code
                } else {
                    code as int
                }) as nat,
            ),
        }
    }
}

impl Error {
    /// Translates a negative native return code. `context` says what was being
    /// done; it is kept only where the code has no meaning of its own.
    pub fn from_av_err(context: &'static str, err: i32) -> (error: Error)
        ensures
            error@ == spec_from_av_err(context@, err),
    {
        if err == AVERROR_EOF {
            Error::EoF
        } else if err == AVERROR_STREAM_NOT_FOUND {
            Error::StreamNotFound
        } else if err == AVERROR_INVALIDDATA {
            Error::InvalidData
        } else if err == -EAGAIN {
            Error::SubmitMoreInput
        } else {
            Error::Unknown { context, code: err }
        }
    }

    /// Whether the error is a flow control signal rather than a failure.
    pub fn is_backpressure(&self) -> (signal: bool)
        ensures
            signal == self@.is_backpressure(),
    {
        match self {
            Error::SubmitMoreInput => true,
            Error::CouldNotAcceptInput => true,
            _ => false,
        }
    }

    /// The text that describes the error to the user.
    pub fn message(&self) -> (text: String)
        ensures
            text@ == self@.message(),
    {
        match self {
            Error::FFIString => String::from_str(
                "a string holds a NUL and cannot be passed to the native library",
            ),
            Error::InvalidPath => String::from_str(
                "the path cannot be passed to the native library",
            ),
            Error::ResourceNotFound(what) => {
                let mut text = String::from_str("could not find a ");
                text.append(what);
                text
            },
            Error::FilterNotFound(name) => {
                let mut text = String::from_str("could not find the filter '");
                text.append(name.as_str());
                text.append("'; the linked native library may not provide it");
                text
            },
            Error::StreamNotFound => String::from_str(
                "could not find a stream of the requested type",
            ),
            Error::AllocationFailed(what) => {
                let mut text = String::from_str("allocation failed while ");
                text.append(what);
                text
            },
            Error::InvalidArguments => String::from_str(
                "the native library rejected the arguments",
            ),
            Error::EoF => String::from_str("end of file"),
            Error::InvalidData => String::from_str("invalid data found when processing input"),
            Error::SubmitMoreInput => String::from_str(
                "more input has to be submitted before output is available",
            ),
            Error::CouldNotAcceptInput => String::from_str(
                "the available output has to be drained before input is accepted",
            ),
            Error::GraphMismatch => String::from_str(
                "the filter does not belong to this filter graph",
            ),
            Error::InputPadDoesntExist { name, filter_type, pad_number } => {
                let mut text = String::from_str("input pad ");
                text.append(decimal(*pad_number as u64).as_str());
                text.append(" is not available on filter '");
                text.append(name.as_str());
                text.append("' of type '");
                text.append(filter_type.as_str());
                text.append("'");
                text
            },
            Error::OutputPadDoesntExist { name, filter_type, pad_number } => {
                let mut text = String::from_str("output pad ");
                text.append(decimal(*pad_number as u64).as_str());
                text.append(" is not available on filter '");
                text.append(name.as_str());
                text.append("' of type '");
                text.append(filter_type.as_str());
                text.append("'");
                text
            },
            Error::PadTypeMismatch { output, input } => {
                let mut text = String::from_str("cannot link an output pad of type ");
                text.append(output.name());
                text.append(" to an input pad of type ");
                text.append(input.name());
                text
            },
            Error::PacketFromInvalidStream => String::from_str(
                "the packet does not belong to the stream of this codec",
            ),
            Error::MediaTypeDoesntMatch { expected, found } => {
                let mut text = String::from_str("expected media type ");
                text.append(expected.name());
                text.append(" but found ");
                text.append(found.name());
                text
            },
            Error::Unknown { context, code } => {
                let mut text = String::from_str("native error while ");
                text.append(context);
                text.append(": code ");
                let magnitude: u64 = if *code < 0 {
                    text.append("-");
                    (-(*code as i64)) as u64
                } else {
                    text.append("");
                    *code as u64
                };
                text.append(decimal(magnitude).as_str());
                text
            },
        }
    }
}

} // verus!
