//! What a filter configuration has to tell the filter graph.

use vstd::prelude::*;
use crate::config::dict::{Dictionary, Entries};
use crate::config::stream::DecodedStreamConfig;
use crate::error::{Error, ErrorView};
use crate::raw::frame::{Frame, FrameData, FrameView};
use crate::util::traits::MediaMarker;

verus! {

/// The configuration of one filter of a filter graph.
pub trait Filter {
    /// The name under which the native library registers the filter type.
    spec fn spec_filter_type_name() -> Seq<char>;

    /// The name that this filter has in its graph.
    spec fn spec_filter_name(&self) -> Seq<char>;

    /// The options that configure the filter.
    spec fn spec_config_parameters(&self) -> Entries;

    /// The name under which the native library registers the filter type.
    fn filter_type_name() -> (name: &'static str)
        ensures
            name@ == Self::spec_filter_type_name(),
    ;

    /// The name that this filter has in its graph.
    fn filter_name(&self) -> (name: &str)
        ensures
            name@ == self.spec_filter_name(),
    ;

    /// The options that configure the filter, as they are handed to the
    /// native layer.
    fn config_parameters_dict(&self) -> (dict: Dictionary)
        ensures
            dict@ == self.spec_config_parameters(),
    ;
}

/// A filter some of whose parameters can be changed while the graph runs.
pub trait UpdatableFilter {
    /// The commands that bring the running filter up to date.
    spec fn spec_command_parameters(&self) -> Entries;

    /// The commands that bring the running filter up to date.
    fn get_command_dictionary(&self) -> (dict: Dictionary)
        ensures
            dict@ == self.spec_command_parameters(),
    ;
}

/// A filter that takes input from another filter.
pub trait HasInputPads: Filter {

}

/// A filter whose output can go to another filter.
pub trait HasOutputPads: Filter {

}

/// A filter through which frames enter the graph.
pub trait GraphInput: Filter {
    /// The marker of the frames that are submitted to the filter.
    type StreamType: MediaMarker;

    /// The error with which a submission fails, for the answer `submitted`
    /// of the native layer; nothing if it succeeds.
    spec fn spec_submit_frame(submitted: i32) -> Option<ErrorView>;

    /// Completes the submission of a frame to a filter of this type, given
    /// what the native layer answered. The frame keeps its data either way.
    fn submit_frame(frame: &mut Frame<Self::StreamType>, submitted: i32) -> (result: Result<
        (),
        Error,
    >)
        ensures
            result is Ok <==> Self::spec_submit_frame(submitted) is None,
            result matches Err(e) ==> Self::spec_submit_frame(submitted) == Some(e@),
            final(frame)@ == old(frame)@,
    ;
}

/// A filter through which frames leave the graph.
pub trait GraphOutput: Filter {
    /// The marker of the frames that the filter gives out.
    type StreamType: MediaMarker;

    /// The error with which no frame is given out, for the return code of the
    /// native layer; nothing if one is.
    spec fn spec_get_frame(ret: i32) -> Option<ErrorView>;

    /// Completes taking a frame out of a filter of this type, given the
    /// return code of the native layer and the data that it put into the
    /// frame. The frame holds that data on success and nothing on failure.
    fn get_frame_into(frame: &mut Frame<Self::StreamType>, ret: i32, data: FrameData) -> (result:
        Result<(), Error>)
        ensures
            result is Ok <==> Self::spec_get_frame(ret) is None,
            result matches Err(e) ==> Self::spec_get_frame(ret) == Some(e@) && final(frame)@
                == FrameView::empty(),
            result is Ok ==> final(frame)@ == FrameView::holding(data),
    ;
}

/// A media type whose decoded frames can enter a filter graph.
pub trait Filterable: MediaMarker + Sized {
    /// The filter through which frames of this media type enter a graph.
    type InputType: GraphInput;

    /// The decoded stream whose frames an input filter takes.
    spec fn spec_incoming(input: Self::InputType) -> DecodedStreamConfig<Self>;

    /// The options that configure an input filter for the frames of a
    /// decoded stream.
    spec fn spec_source_options(decoded: DecodedStreamConfig<Self>) -> Entries;

    /// An input filter named `name` for the frames of a decoded stream.
    fn from_decoded_stream(name: &str, decoded: &DecodedStreamConfig<Self>) -> (input:
        Self::InputType)
        ensures
            input.spec_filter_name() == name@,
            Self::spec_incoming(input) == *decoded,
            input.spec_config_parameters() == Self::spec_source_options(*decoded),
    ;
}

} // verus!
