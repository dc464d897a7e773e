//! The filter that converts audio to one of the formats that are asked for.

use vstd::prelude::*;
use crate::config::dict::{set_option, Dictionary, Entries};
use crate::util::channels::ChannelLayout;
use crate::util::sampling::{lemma_sample_format_name_nul_free, SampleFormat};
use crate::util::text::{decimal, lemma_radix_nul_free, spec_decimal, spec_hex};
use crate::util::traits::{Filter, HasInputPads, HasOutputPads};

verus! {

/// An audio format filter. Each of its three constraints is optional.
#[derive(Debug)]
pub struct AFormat {
    name: String,
    sample_rate: Option<u32>,
    sample_format: Option<SampleFormat>,
    channel_layout: Option<ChannelLayout>,
}

impl AFormat {
    /// The sampling rate that is asked for.
    pub closed spec fn spec_sample_rate(self) -> Option<u32> {
        self.sample_rate
    }

    /// The sample format that is asked for.
    pub closed spec fn spec_sample_format(self) -> Option<SampleFormat> {
        self.sample_format
    }

    /// The channel layout that is asked for.
    pub closed spec fn spec_channel_layout(self) -> Option<ChannelLayout> {
        self.channel_layout
    }

    /// A format filter named `name` with the given constraints.
    pub fn new(
        name: &str,
        sample_rate: Option<u32>,
        sample_fmt: Option<SampleFormat>,
        channel_layout: Option<ChannelLayout>,
    ) -> (filter: Self)
        ensures
            filter.spec_filter_name() == name@,
            filter.spec_sample_rate() == sample_rate,
            filter.spec_sample_format() == sample_fmt,
            filter.spec_channel_layout() == channel_layout,
    {
        AFormat {
            name: String::from_str(name),
            sample_rate,
            sample_format: sample_fmt,
            channel_layout,
        }
    }
}

impl HasInputPads for AFormat {

}

impl HasOutputPads for AFormat {

}

impl Filter for AFormat {
    open spec fn spec_filter_type_name() -> Seq<char> {
        "aformat"@
    }

    closed spec fn spec_filter_name(&self) -> Seq<char> {
        self.name@
    }

    /// One option for each constraint that is set: the sampling rate in
    /// hertz, the sample format by name, the channel mask in hexadecimal
    /// without a prefix.
    open spec fn spec_config_parameters(&self) -> Entries {
        (match self.spec_sample_rate() {
            Some(rate) => seq![("sample_rates"@, spec_decimal(rate as nat))],
            None => Entries::empty(),
        }) + (match self.spec_sample_format() {
            Some(format) => seq![("sample_fmts"@, format.spec_format_name())],
            None => Entries::empty(),
        }) + (match self.spec_channel_layout() {
            Some(layout) => seq![("channel_layouts"@, spec_hex(layout.spec_bits() as nat))],
            None => Entries::empty(),
        })
    }

    fn filter_type_name() -> (name: &'static str) {
        "aformat"
    }

    fn filter_name(&self) -> (name: &str) {
        self.name.as_str()
    }

    fn config_parameters_dict(&self) -> (dict: Dictionary) {
        let mut dict = Dictionary::new();
        proof {
            reveal_strlit("sample_rates");
            reveal_strlit("sample_fmts");
            reveal_strlit("channel_layouts");
        }
        match self.sample_rate {
            Some(sample_rate) => {
                proof {
                    lemma_radix_nul_free(sample_rate as nat, 10);
                }
                set_option(&mut dict, "sample_rates", decimal(sample_rate as u64).as_str());
            },
            None => {},
        }
        match self.sample_format {
            Some(sample_format) => {
                proof {
                    lemma_sample_format_name_nul_free(sample_format);
                }
                set_option(&mut dict, "sample_fmts", sample_format.format_name());
            },
            None => {},
        }
        match self.channel_layout {
            Some(channel_layout) => {
                proof {
                    lemma_radix_nul_free(channel_layout.spec_bits() as nat, 16);
                }
                set_option(&mut dict, "channel_layouts", channel_layout.to_hex().as_str());
            },
            None => {},
        }
        assert(dict@ =~= self.spec_config_parameters());
        dict
    }
}

} // verus!
