//! The families of pixel formats.

use vstd::prelude::*;

verus! {

/// The colour model that a pixel format encodes.
#[derive(Debug, Clone, Copy, PartialEq, Eq, Structural, Hash)]
pub enum ColorEncoding {
    /// Luma and two chroma components, with or without alpha.
    YUV,
    /// Red, green and blue, with or without alpha.
    RGB,
    /// CIE XYZ.
    XYZ,
    /// Luma only.
    Gray,
    /// An index into a palette.
    Indexed,
    /// A layout that only some hardware understands.
    Hardware,
}

} // verus!
