//! Filters and the graph that they are linked in.

pub mod audio;
pub mod graph;
pub mod video;

pub use crate::util::traits::{
    Filter, GraphInput, GraphOutput, HasInputPads, HasOutputPads, UpdatableFilter,
};
pub use graph::{AddAnswer, AddOutcome, AddStep, FilterGraph, GraphView, NodeView, Pad};

use vstd::prelude::*;

verus! {

/// The place of one filter in one filter graph, together with the
/// configuration that the filter was made from.
///
/// A handle is good only for the graph that handed it out. Every operation of
/// a graph compares the identity that the handle records with its own.
#[derive(Debug)]
pub struct FilterHandle<F: Filter> {
    graph: u64,
    index: usize,
    config: F,
}

/// The place that a handle records, without the configuration.
#[derive(Debug, Clone, Copy, PartialEq, Eq, Structural)]
pub struct AbstractFilterInfo {
    /// The identity of the graph.
    pub graph: u64,
    /// The index of the filter in the graph.
    pub index: usize,
}

impl<F: Filter> View for FilterHandle<F> {
    type V = AbstractFilterInfo;

    closed spec fn view(&self) -> AbstractFilterInfo {
        AbstractFilterInfo { graph: self.graph, index: self.index }
    }
}

impl<F: Filter> FilterHandle<F> {
    /// The configuration that the filter was made from.
    pub closed spec fn spec_config(self) -> F {
        self.config
    }

    /// A handle for the filter at `index` of the graph with the identity
    /// `graph`.
    pub(crate) fn new(graph: u64, index: usize, config: F) -> (handle: FilterHandle<F>)
        ensures
            handle@ == (AbstractFilterInfo { graph, index }),
            handle.spec_config() == config,
    {
        FilterHandle { graph, index, config }
    }

    /// The place that the handle records.
    pub fn to_filter_info(&self) -> (info: AbstractFilterInfo)
        ensures
            info == self@,
    {
        AbstractFilterInfo { graph: self.graph, index: self.index }
    }

    /// The configuration that the filter was made from.
    pub fn config(&self) -> (config: &F)
        ensures
            *config == self.spec_config(),
    {
        &self.config
    }
}

} // verus!
