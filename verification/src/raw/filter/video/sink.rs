//! The filter at which video leaves a graph.

use vstd::prelude::*;
use crate::config::dict::{Dictionary, Entries};
use crate::error::{spec_from_av_err, Error, ErrorView};
use crate::raw::frame::{Frame, FrameData};
use crate::tags::Video;
use crate::util::traits::{Filter, GraphOutput, HasInputPads};

verus! {

/// A video buffer sink: the frames that reach it can be taken out of the
/// graph.
#[derive(Debug)]
pub struct VBufferSink {
    name: String,
}

impl VBufferSink {
    /// A sink named `name`.
    pub fn new(name: &str) -> (sink: Self)
        ensures
            sink.spec_filter_name() == name@,
    {
        VBufferSink { name: String::from_str(name) }
    }
}

impl Filter for VBufferSink {
    open spec fn spec_filter_type_name() -> Seq<char> {
        "buffersink"@
    }

    closed spec fn spec_filter_name(&self) -> Seq<char> {
        self.name@
    }

    open spec fn spec_config_parameters(&self) -> Entries {
        Entries::empty()
    }

    fn filter_type_name() -> (name: &'static str) {
        "buffersink"
    }

    fn filter_name(&self) -> (name: &str) {
        self.name.as_str()
    }

    fn config_parameters_dict(&self) -> (dict: Dictionary) {
        Dictionary::new()
    }
}

impl HasInputPads for VBufferSink {

}

impl GraphOutput for VBufferSink {
    type StreamType = Video;

    open spec fn spec_get_frame(ret: i32) -> Option<ErrorView> {
        if ret < 0 {
            Some(spec_from_av_err("getting frame from FilterGraph"@, ret))
        } else {
            None
        }
    }

    fn get_frame_into(frame: &mut Frame<Video>, ret: i32, data: FrameData) -> (result: Result<
        (),
        Error,
    >) {
        if ret < 0 {
            frame.unref();
            return Err(Error::from_av_err("getting frame from FilterGraph", ret));
        }
        frame.store(data);
        Ok(())
    }
}

} // verus!
