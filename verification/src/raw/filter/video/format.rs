//! The filter that converts video to the pixel format that is asked for.

use vstd::prelude::*;
use crate::config::dict::{set_option, Dictionary, Entries};
use crate::util::pixels::{lemma_pixel_format_name_nul_free, PixelFormat};
use crate::util::traits::{Filter, HasInputPads, HasOutputPads};

verus! {

/// A video format filter. Without a pixel format it lets every frame through
/// as it is.
#[derive(Debug)]
pub struct VFormat {
    name: String,
    pixel_format: Option<PixelFormat>,
}

impl VFormat {
    /// The pixel format that is asked for.
    pub closed spec fn spec_pixel_format(self) -> Option<PixelFormat> {
        self.pixel_format
    }

    /// A format filter named `name` for the given pixel format.
    pub fn new(name: &str, pixel_format: Option<PixelFormat>) -> (filter: Self)
        ensures
            filter.spec_filter_name() == name@,
            filter.spec_pixel_format() == pixel_format,
    {
        VFormat { name: String::from_str(name), pixel_format }
    }
}

impl HasInputPads for VFormat {

}

impl HasOutputPads for VFormat {

}

impl Filter for VFormat {
    open spec fn spec_filter_type_name() -> Seq<char> {
        "format"@
    }

    closed spec fn spec_filter_name(&self) -> Seq<char> {
        self.name@
    }

    /// The pixel format by name, if one is set.
    open spec fn spec_config_parameters(&self) -> Entries {
        match self.spec_pixel_format() {
            Some(format) => seq![("pix_fmts"@, format.spec_format_name())],
            None => Entries::empty(),
        }
    }

    fn filter_type_name() -> (name: &'static str) {
        "format"
    }

    fn filter_name(&self) -> (name: &str) {
        self.name.as_str()
    }

    fn config_parameters_dict(&self) -> (dict: Dictionary) {
        let mut dict = Dictionary::new();
        match self.pixel_format {
            Some(pixel_format) => {
                proof {
                    reveal_strlit("pix_fmts");
                    lemma_pixel_format_name_nul_free(pixel_format);
                }
                set_option(&mut dict, "pix_fmts", pixel_format.format_name());
            },
            None => {},
        }
        assert(dict@ =~= self.spec_config_parameters());
        dict
    }
}

} // verus!
