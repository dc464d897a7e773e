//! The filter through which decoded video enters a graph.

use vstd::prelude::*;
use crate::config::dict::{set_option, Dictionary, Entries};
use crate::config::stream::DecodedStreamConfig;
use crate::error::{spec_from_av_err, Error, ErrorView};
use crate::raw::frame::Frame;
use crate::tags::Video;
use crate::util::pixels::lemma_pixel_format_name_nul_free;
use crate::util::text::{decimal, lemma_radix_nul_free, spec_decimal};
use crate::util::traits::{Filter, GraphInput, HasOutputPads};

verus! {

/// A video buffer source: it takes the frames of one decoded video stream.
#[derive(Debug)]
pub struct VBufferSource {
    name: String,
    incoming_stream: DecodedStreamConfig<Video>,
}

impl VBufferSource {
    /// The decoded stream whose frames the source takes.
    pub closed spec fn spec_incoming_stream(self) -> DecodedStreamConfig<Video> {
        self.incoming_stream
    }

    /// A source named `name` for the frames of the decoded stream.
    pub fn from_decoded_stream(name: &str, dec_stream: &DecodedStreamConfig<Video>) -> (source:
        Self)
        ensures
            source.spec_filter_name() == name@,
            source.spec_incoming_stream() == *dec_stream,
    {
        VBufferSource { name: String::from_str(name), incoming_stream: dec_stream.clone() }
    }
}

/// The options of a video buffer source for a decoded stream: the time
/// base, the width and the height in pixels, and the pixel format by name.
pub open spec fn spec_buffer_options(stream: DecodedStreamConfig<Video>) -> Entries {
    seq![
        ("time_base"@, stream.spec_time_base().spec_text()),
        ("width"@, spec_decimal(stream.spec_decoded().width as nat)),
        ("height"@, spec_decimal(stream.spec_decoded().height as nat)),
        ("pix_fmt"@, stream.spec_pixel_format().spec_format_name()),
    ]
}

impl Filter for VBufferSource {
    open spec fn spec_filter_type_name() -> Seq<char> {
        "buffer"@
    }

    closed spec fn spec_filter_name(&self) -> Seq<char> {
        self.name@
    }

    /// The options for the decoded stream whose frames the source takes.
    open spec fn spec_config_parameters(&self) -> Entries {
        spec_buffer_options(self.spec_incoming_stream())
    }

    fn filter_type_name() -> (name: &'static str) {
        "buffer"
    }

    fn filter_name(&self) -> (name: &str) {
        self.name.as_str()
    }

    fn config_parameters_dict(&self) -> (dict: Dictionary) {
        let mut dict = Dictionary::new();
        let stream = &self.incoming_stream;
        let time_base = stream.time_base().to_text();
        let width = decimal(stream.width() as u64);
        let height = decimal(stream.height() as u64);
        let pixel_format = stream.pixel_format();
        proof {
            reveal_strlit("time_base");
            reveal_strlit("width");
            reveal_strlit("height");
            reveal_strlit("pix_fmt");
            stream.spec_time_base().lemma_text_nul_free();
            lemma_radix_nul_free(stream.spec_decoded().width as nat, 10);
            lemma_radix_nul_free(stream.spec_decoded().height as nat, 10);
            lemma_pixel_format_name_nul_free(pixel_format);
        }
        set_option(&mut dict, "time_base", time_base.as_str());
        set_option(&mut dict, "width", width.as_str());
        set_option(&mut dict, "height", height.as_str());
        set_option(&mut dict, "pix_fmt", pixel_format.format_name());
        assert(dict@ =~= self.spec_config_parameters());
        dict
    }
}

impl HasOutputPads for VBufferSource {

}

impl GraphInput for VBufferSource {
    type StreamType = Video;

    open spec fn spec_submit_frame(submitted: i32) -> Option<ErrorView> {
        if submitted < 0 {
            Some(spec_from_av_err("submitting frame to FrameGraph"@, submitted))
        } else {
            None
        }
    }

    fn submit_frame(frame: &mut Frame<Video>, submitted: i32) -> (result: Result<(), Error>) {
        if submitted < 0 {
            return Err(Error::from_av_err("submitting frame to FrameGraph", submitted));
        }
        Ok(())
    }
}

} // verus!
