//! Small identifier types.

use vstd::prelude::*;

verus! {

/// The identifier that a container format gives to one of its streams.
#[derive(Debug, Clone, Copy, PartialEq, Eq, Structural, PartialOrd, Ord, Hash)]
pub struct StreamID(pub i32);

impl StreamID {
    /// Wraps a container specific stream identifier.
    pub fn new(id: i32) -> (stream: StreamID)
        ensures
            stream.0 == id,
    {
        StreamID(id)
    }

    /// The identifier as the container format numbers it.
    pub fn get(self) -> (id: i32)
        ensures
            id == self.0,
    {
        self.0
    }
}

} // verus!
