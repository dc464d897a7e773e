//! Traits that tie a marker type to what it stands for, and a filter
//! configuration to the filter that it configures.

pub mod filter;

pub use filter::{
    Filter, Filterable, GraphInput, GraphOutput, HasInputPads, HasOutputPads, UpdatableFilter,
};

use vstd::prelude::*;
use crate::tags::MediaType;

verus! {

/// A marker type that stands for one media type.
pub trait MediaMarker {
    /// The media type that items with this marker carry.
    spec fn spec_media_type() -> MediaType;

    /// The media type that items with this marker carry.
    fn media_type() -> (media: MediaType)
        ensures
            media == Self::spec_media_type(),
    ;
}

} // verus!
