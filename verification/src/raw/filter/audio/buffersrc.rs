//! The filter through which decoded audio enters a graph.

use vstd::prelude::*;
use crate::config::dict::{set_option, Dictionary, Entries};
use crate::config::stream::DecodedStreamConfig;
use crate::error::{spec_from_av_err, Error, ErrorView};
use crate::raw::frame::Frame;
use crate::tags::Audio;
use crate::util::sampling::lemma_sample_format_name_nul_free;
use crate::util::text::{
    decimal, hex, lemma_concat_nul_free, lemma_radix_nul_free, spec_decimal, spec_hex,
};
use crate::util::traits::{Filter, GraphInput, HasOutputPads};

verus! {

/// An audio buffer source: it takes the frames of one decoded audio stream.
#[derive(Debug)]
pub struct ABufferSource {
    name: String,
    incoming_stream: DecodedStreamConfig<Audio>,
}

impl ABufferSource {
    /// The decoded stream whose frames the source takes.
    pub closed spec fn spec_incoming_stream(self) -> DecodedStreamConfig<Audio> {
        self.incoming_stream
    }

    /// A source named `name` for the frames of the decoded stream.
    pub fn from_decoded_stream(name: &str, dec_stream: &DecodedStreamConfig<Audio>) -> (source:
        Self)
        ensures
            source.spec_filter_name() == name@,
            source.spec_incoming_stream() == *dec_stream,
    {
        ABufferSource { name: String::from_str(name), incoming_stream: dec_stream.clone() }
    }
}

/// The options of an audio buffer source for a decoded stream: the time
/// base, the sample format by name, the channel mask in hexadecimal with `0x`
/// in front, and the sampling rate in hertz.
pub open spec fn spec_abuffer_options(stream: DecodedStreamConfig<Audio>) -> Entries {
    seq![
        ("time_base"@, stream.spec_time_base().spec_text()),
        ("sample_fmt"@, stream.spec_sample_format().spec_format_name()),
        (
            "channel_layout"@,
            "0x"@ + spec_hex(stream.spec_decoded().channel_layout as nat),
        ),
        (
            "sample_rate"@,
            spec_decimal(stream.spec_decoded().sample_rate as nat),
        ),
    ]
}

impl Filter for ABufferSource {
    open spec fn spec_filter_type_name() -> Seq<char> {
        "abuffer"@
    }

    closed spec fn spec_filter_name(&self) -> Seq<char> {
        self.name@
    }

    /// The options for the decoded stream whose frames the source takes.
    open spec fn spec_config_parameters(&self) -> Entries {
        spec_abuffer_options(self.spec_incoming_stream())
    }

    fn filter_type_name() -> (name: &'static str) {
        "abuffer"
    }

    fn filter_name(&self) -> (name: &str) {
        self.name.as_str()
    }

    fn config_parameters_dict(&self) -> (dict: Dictionary) {
        let mut dict = Dictionary::new();
        let stream = &self.incoming_stream;
        let time_base = stream.time_base().to_text();
        let sample_format = stream.sample_format();
        let mut layout = String::from_str("0x");
        layout.append(hex(stream.channel_layout()).as_str());
        let rate = decimal(stream.sample_rate().as_hz() as u64);
        proof {
            reveal_strlit("time_base");
            reveal_strlit("sample_fmt");
            reveal_strlit("channel_layout");
            reveal_strlit("sample_rate");
            reveal_strlit("0x");
            stream.spec_time_base().lemma_text_nul_free();
            lemma_sample_format_name_nul_free(sample_format);
            lemma_radix_nul_free(stream.spec_decoded().channel_layout as nat, 16);
            lemma_concat_nul_free("0x"@, spec_hex(stream.spec_decoded().channel_layout as nat));
            lemma_radix_nul_free(stream.spec_decoded().sample_rate as nat, 10);
        }
        set_option(&mut dict, "time_base", time_base.as_str());
        set_option(&mut dict, "sample_fmt", sample_format.format_name());
        set_option(&mut dict, "channel_layout", layout.as_str());
        set_option(&mut dict, "sample_rate", rate.as_str());
        assert(dict@ =~= self.spec_config_parameters());
        dict
    }
}

impl HasOutputPads for ABufferSource {

}

impl GraphInput for ABufferSource {
    type StreamType = Audio;

    open spec fn spec_submit_frame(submitted: i32) -> Option<ErrorView> {
        if submitted < 0 {
            Some(spec_from_av_err("submitting frame to FrameGraph"@, submitted))
        } else {
            None
        }
    }

    fn submit_frame(frame: &mut Frame<Audio>, submitted: i32) -> (result: Result<(), Error>) {
        if submitted < 0 {
            return Err(Error::from_av_err("submitting frame to FrameGraph", submitted));
        }
        Ok(())
    }
}

} // verus!
