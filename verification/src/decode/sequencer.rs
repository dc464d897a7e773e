//! Playing several inputs through one filter graph, one after another.

use vstd::prelude::*;
use crate::config::dict::Dictionary;
use crate::config::stream::DecodedStreamConfig;
use crate::decode::simple::{spec_best_answer_for, spec_open};
use crate::error::{spec_from_av_err, Error, ErrorView};
use crate::raw::codec::{Codec, DecoderOutcome};
use crate::raw::filter::graph::{
    spec_add_error, spec_new_node, spec_node_name, AddOutcome, FilterGraph, GraphView,
};
use crate::raw::filter::FilterHandle;
use crate::raw::format::{default_stream_selector, Format, OpenOutcome};
use crate::tags::{Configured, Decode, Input, Unconfigured};
use crate::util::text::{decimal, spec_decimal};
use crate::util::traits::{Filter, Filterable};

verus! {

/// One input of a sequencer: the container, the decoder of its best stream,
/// and the filter through which its frames enter the graph.
struct Item<AV: Filterable> {
    input: Format<Input>,
    codec: Codec<Decode, AV>,
    buf: FilterHandle<AV::InputType>,
}

/// A sequence of inputs of the media type `AV` and the filter graph that
/// joins them. `State` is the state of the graph.
pub struct SimpleSequencer<AV: Filterable, State> {
    items: Vec<Item<AV>>,
    filter_graph: FilterGraph<State>,
}

/// The name of the input filter of the item at a place.
pub open spec fn spec_source_name(place: nat) -> Seq<char> {
    "src_"@ + spec_decimal(place)
}

/// The error with which an item is not added, if it is not: that of opening
/// the input and its decoder, or else that of adding the input filter.
pub open spec fn spec_add_item_error<AV: Filterable>(
    place: nat,
    path: Seq<u8>,
    opened: OpenOutcome,
    found: i32,
    decoder: DecoderOutcome,
    added: AddOutcome,
) -> Option<ErrorView> {
    match spec_open::<AV>(path, opened, found, decoder) {
        Err(e) => Some(e),
        Ok(_) => spec_add_error(
            <AV::InputType as Filter>::spec_filter_type_name(),
            spec_source_name(place),
            added,
        ),
    }
}

impl<AV: Filterable, State> SimpleSequencer<AV, State> {
    /// The number of inputs.
    pub closed spec fn spec_len(self) -> nat {
        self.items@.len()
    }

    /// The filter graph.
    pub closed spec fn spec_graph(self) -> GraphView {
        self.filter_graph@
    }

    /// The number of inputs.
    pub fn len(&self) -> (n: usize)
        ensures
            n == self.spec_len(),
    {
        self.items.len()
    }
}

impl<AV: Filterable> SimpleSequencer<AV, Unconfigured> {
    /// A sequencer without inputs, around the native graph at the given
    /// address.
    pub fn new(address: usize) -> (sequencer: Self)
        ensures
            sequencer.spec_len() == 0,
            sequencer.spec_graph().id == address,
            sequencer.spec_graph().nodes.len() == 0,
    {
        SimpleSequencer { items: Vec::new(), filter_graph: FilterGraph::new(address) }
    }

    /// What the native layer needs to set up the input filter of the next
    /// input, for the stream as its decoder produces it: the name under which
    /// the filter is entered into the native graph, and its options.
    pub fn next_source(&self, decoded: &DecodedStreamConfig<AV>) -> (source: (String, Dictionary))
        ensures
            source.0@ == spec_node_name(
                spec_source_name(self.spec_len()),
                self.spec_graph().nodes.len(),
            ),
            source.1@ == AV::spec_source_options(*decoded),
    {
        let mut name = String::from_str("src_");
        name.append(decimal(self.items.len() as u64).as_str());
        let src = AV::from_decoded_stream(name.as_str(), decoded);
        (self.filter_graph.next_node_name(&src), src.config_parameters_dict())
    }

    /// Adds the best stream of a file as the next input, given what the
    /// native layer answered on the way. The input filter is named `src_`
    /// and the place of the input.
    ///
    /// Fails, and leaves the sequencer as it is, with the error of the first
    /// step that failed: opening the file, finding a stream of the media
    /// type, opening its decoder, adding the input filter.
    pub fn add_item(
        &mut self,
        path: &[u8],
        opened: OpenOutcome,
        found: i32,
        decoder: DecoderOutcome,
        added: AddOutcome,
    ) -> (result: Result<(), Error>)
        requires
            spec_best_answer_for(path@, opened, found),
        ensures
            result is Ok <==> spec_add_item_error::<AV>(
                old(self).spec_len(),
                path@,
                opened,
                found,
                decoder,
                added,
            ) is None,
            result matches Err(e) ==> {
                &&& spec_add_item_error::<AV>(
                    old(self).spec_len(),
                    path@,
                    opened,
                    found,
                    decoder,
                    added,
                ) == Some(e@)
                &&& final(self).spec_len() == old(self).spec_len()
                &&& final(self).spec_graph() == old(self).spec_graph()
            },
            result is Ok ==> {
                &&& final(self).spec_len() == old(self).spec_len() + 1
                &&& final(self).spec_graph().id == old(self).spec_graph().id
                &&& final(self).spec_graph().nodes == old(self).spec_graph().nodes.push(
                    spec_new_node(
                        <AV::InputType as Filter>::spec_filter_type_name(),
                        spec_source_name(old(self).spec_len()),
                        added,
                    ),
                )
            },
    {
        let input_format = match Format::open_input(path, opened) {
            Ok(format) => format,
            Err(e) => {
                return Err(e);
            },
        };
        let codec = match default_stream_selector::<AV>(&input_format, found) {
            Ok(best_stream) => match Codec::open_decode(&best_stream, decoder) {
                Ok(codec) => codec,
                Err(e) => {
                    return Err(e);
                },
            },
            Err(e) => {
                return Err(e);
            },
        };
        let mut name = String::from_str("src_");
        name.append(decimal(self.items.len() as u64).as_str());
        let src = AV::from_decoded_stream(name.as_str(), codec.out_stream_config());
        match self.filter_graph.add(src, added) {
            Ok(buf) => {
                self.items.push(Item { input: input_format, codec, buf });
                Ok(())
            },
            Err(e) => Err(e),
        }
    }

    /// Freezes the filter graph, given what the native layer answered to its
    /// validation. The sequencer is used up either way.
    pub fn configure(self, configured: i32) -> (result: Result<
        SimpleSequencer<AV, Configured>,
        Error,
    >)
        ensures
            result is Ok <==> configured >= 0,
            result matches Ok(sequencer) ==> sequencer.spec_len() == self.spec_len()
                && sequencer.spec_graph() == self.spec_graph(),
            result matches Err(e) ==> e@ == spec_from_av_err(
                "configuring filter graph"@,
                configured,
            ),
    {
        match self.filter_graph.configure(configured) {
            Ok(filter_graph) => Ok(SimpleSequencer { items: self.items, filter_graph }),
            Err(e) => Err(e),
        }
    }
}

} // verus!
