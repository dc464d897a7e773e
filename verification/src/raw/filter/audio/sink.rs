//! The filters at which audio leaves a graph.

use vstd::prelude::*;
use crate::config::dict::{Dictionary, Entries};
use crate::error::{spec_from_av_err, Error, ErrorView};
use crate::raw::frame::{Frame, FrameData};
use crate::tags::Audio;
use crate::util::traits::{Filter, GraphOutput, HasInputPads};

verus! {

/// An audio buffer sink: the frames that reach it can be taken out of the
/// graph.
#[derive(Debug)]
pub struct ABufferSink {
    name: String,
}

impl ABufferSink {
    /// A sink named `name`.
    pub fn new(name: &str) -> (sink: Self)
        ensures
            sink.spec_filter_name() == name@,
    {
        ABufferSink { name: String::from_str(name) }
    }
}

impl Filter for ABufferSink {
    open spec fn spec_filter_type_name() -> Seq<char> {
        "abuffersink"@
    }

    closed spec fn spec_filter_name(&self) -> Seq<char> {
        self.name@
    }

    open spec fn spec_config_parameters(&self) -> Entries {
        Entries::empty()
    }

    fn filter_type_name() -> (name: &'static str) {
        "abuffersink"
    }

    fn filter_name(&self) -> (name: &str) {
        self.name.as_str()
    }

    fn config_parameters_dict(&self) -> (dict: Dictionary) {
        Dictionary::new()
    }
}

impl HasInputPads for ABufferSink {

}

impl GraphOutput for ABufferSink {
    type StreamType = Audio;

    open spec fn spec_get_frame(ret: i32) -> Option<ErrorView> {
        if ret < 0 {
            Some(spec_from_av_err("getting frame from FilterGraph"@, ret))
        } else {
            None
        }
    }

    fn get_frame_into(frame: &mut Frame<Audio>, ret: i32, data: FrameData) -> (result: Result<
        (),
        Error,
    >) {
        if ret < 0 {
            frame.unref();
            return Err(Error::from_av_err("getting frame from FilterGraph", ret));
        }
        frame.store(data);
        Ok(())
    }
}

/// An audio null sink: the frames that reach it are dropped.
#[derive(Debug)]
pub struct ANullSink {
    name: String,
}

impl ANullSink {
    /// A null sink named `name`.
    pub fn new(name: &str) -> (sink: Self)
        ensures
            sink.spec_filter_name() == name@,
    {
        ANullSink { name: String::from_str(name) }
    }
}

impl Filter for ANullSink {
    open spec fn spec_filter_type_name() -> Seq<char> {
        "anullsink"@
    }

    closed spec fn spec_filter_name(&self) -> Seq<char> {
        self.name@
    }

    open spec fn spec_config_parameters(&self) -> Entries {
        Entries::empty()
    }

    fn filter_type_name() -> (name: &'static str) {
        "anullsink"
    }

    fn filter_name(&self) -> (name: &str) {
        self.name.as_str()
    }

    fn config_parameters_dict(&self) -> (dict: Dictionary) {
        Dictionary::new()
    }
}

impl HasInputPads for ANullSink {

}

} // verus!
