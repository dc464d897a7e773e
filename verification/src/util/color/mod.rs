//! How the colours of a picture are encoded.

pub mod color_primary;
pub mod image_ext;
pub mod pixel_format;

pub use crate::util::pixels::PixelFormat;
pub use color_primary::ColorPrimary;
pub use image_ext::{ImageFormat, RgbImage};
pub use pixel_format::ColorEncoding;

use vstd::prelude::*;

verus! {

/// The byte order of the components of a pixel format.
#[derive(Debug, Clone, Copy, PartialEq, Eq, Structural, Hash)]
pub enum Endian {
    /// The most significant byte comes first.
    Big,
    /// The least significant byte comes first.
    Little,
}

} // verus!
