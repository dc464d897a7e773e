//! The version of a linked native library.

use vstd::prelude::*;

verus! {

/// The version of a native library: major, minor and patch number.
#[derive(Debug, Clone, Copy, PartialEq, Eq, Structural)]
pub struct Version {
    pub major: u16,
    pub minor: u16,
    pub patch: u16,
}

} // verus!
