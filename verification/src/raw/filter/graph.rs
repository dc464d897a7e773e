//! The filter graph: a two phase state machine.
//!
//! While a graph is [`Unconfigured`] filters can be added and linked. Once
//! it is [`Configured`] its topology is frozen and frames flow through it.
//! The step from the first phase to the second consumes the graph, so that
//! nothing of the first phase can be called afterwards.

use vstd::prelude::*;
use core::marker::PhantomData;
use crate::error::{spec_from_av_err, Error, ErrorView};
use crate::raw::filter::audio::ABufferSink;
use crate::raw::filter::video::VBufferSink;
use crate::raw::filter::{AbstractFilterInfo, FilterHandle};
use crate::raw::frame::{Frame, FrameData, FrameView};
use crate::sys::EAGAIN;
use crate::tags::{Configured, MediaType, Unconfigured};
use crate::util::make_id_from_ptr;
use crate::util::text::{
    decimal, has_nul, lemma_radix_injective, spec_decimal, spec_digit_char, spec_is_digit_char, NUL,
};
use crate::util::traits::{Filter, GraphInput, GraphOutput, HasInputPads, HasOutputPads};

verus! {

/// One pad of a filter: a point at which a link can be attached.
#[derive(Debug, Clone, Copy, PartialEq, Eq, Structural)]
pub struct Pad {
    /// The media type that flows through the pad.
    pub media: MediaType,
    /// Whether a link is attached.
    pub linked: bool,
}

/// What the native layer answered when a filter was added to a graph.
#[derive(Debug, Clone)]
pub struct AddOutcome {
    /// Whether the native library has a filter of the type name.
    pub found: bool,
    /// The return code of initialising the filter with its options; read
    /// only if the filter type was found.
    pub init_ret: i32,
    /// The media types of the input pads of the new filter, in their order;
    /// read only if the filter was initialised.
    pub inputs: Vec<MediaType>,
    /// The media types of the output pads of the new filter, in their order;
    /// read only if the filter was initialised.
    pub outputs: Vec<MediaType>,
}

/// The native call that is due while a filter is added to a graph.
#[derive(Debug, Clone, Copy, PartialEq, Eq, Structural)]
pub enum AddStep {
    /// Ask whether the native library has a filter of the type name.
    FindFilter,
    /// Allocate the filter in the native graph.
    AllocateFilter,
    /// Initialise the filter with its options.
    InitFilter,
    /// Read the pads of the initialised filter.
    ReadPads,
    /// No call is due: the outcome is complete.
    Finished,
}

/// What the native layer answered to one call of adding a filter.
#[derive(Debug, Clone)]
pub enum AddAnswer {
    /// Whether the native library has a filter of the type name.
    Found(bool),
    /// The filter was allocated.
    Allocated,
    /// The return code of initialising the filter.
    Initialised(i32),
    /// The media types of the input pads and of the output pads.
    Pads { inputs: Vec<MediaType>, outputs: Vec<MediaType> },
}

impl AddOutcome {
    /// The call that is due next and the outcome, after the call that was
    /// due for the filter named `name` has been answered. Nothing is
    /// allocated for a filter type that was not found, nor for a name that
    /// holds a NUL; a failed initialisation ends the addition; an answer to
    /// another call than the one that was due changes nothing.
    pub open spec fn spec_answered(self, name: Seq<char>, due: AddStep, answer: AddAnswer) -> (
        AddStep,
        AddOutcome,
    ) {
        match (due, answer) {
            (AddStep::FindFilter, AddAnswer::Found(found)) => (
                if found && !name.contains(NUL) {
                    AddStep::AllocateFilter
                } else {
                    AddStep::Finished
                },
                AddOutcome { found, ..self },
            ),
            (AddStep::AllocateFilter, AddAnswer::Allocated) => (AddStep::InitFilter, self),
            (AddStep::InitFilter, AddAnswer::Initialised(init_ret)) => (
                if init_ret >= 0 {
                    AddStep::ReadPads
                } else {
                    AddStep::Finished
                },
                AddOutcome { init_ret, ..self },
            ),
            (AddStep::ReadPads, AddAnswer::Pads { inputs, outputs }) => (
                AddStep::Finished,
                AddOutcome { inputs, outputs, ..self },
            ),
            _ => (due, self),
        }
    }

    /// The outcome before the native layer was asked anything. The first
    /// call that is due is [`AddStep::FindFilter`].
    pub fn unanswered() -> (outcome: AddOutcome)
        ensures
            !outcome.found,
            outcome.init_ret == 0,
            outcome.inputs@.len() == 0,
            outcome.outputs@.len() == 0,
    {
        AddOutcome { found: false, init_ret: 0, inputs: Vec::new(), outputs: Vec::new() }
    }

    /// Takes in the answer to the call that was due for the filter named
    /// `name` and says which call is due next.
    pub fn answered(self, name: &str, due: AddStep, answer: AddAnswer) -> (next: (
        AddStep,
        AddOutcome,
    ))
        ensures
            next == self.spec_answered(name@, due, answer),
    {
        let mut outcome = self;
        match (due, answer) {
            (AddStep::FindFilter, AddAnswer::Found(found)) => {
                outcome.found = found;
                if found && !has_nul(name) {
                    (AddStep::AllocateFilter, outcome)
                } else {
                    (AddStep::Finished, outcome)
                }
            },
            (AddStep::AllocateFilter, AddAnswer::Allocated) => (AddStep::InitFilter, outcome),
            (AddStep::InitFilter, AddAnswer::Initialised(init_ret)) => {
                outcome.init_ret = init_ret;
                if init_ret >= 0 {
                    (AddStep::ReadPads, outcome)
                } else {
                    (AddStep::Finished, outcome)
                }
            },
            (AddStep::ReadPads, AddAnswer::Pads { inputs, outputs }) => {
                outcome.inputs = inputs;
                outcome.outputs = outputs;
                (AddStep::Finished, outcome)
            },
            (due, _) => (due, outcome),
        }
    }
}

/// One filter of a graph.
#[derive(Debug)]
struct Node {
    name: String,
    filter_type: String,
    inputs: Vec<Pad>,
    outputs: Vec<Pad>,
}

/// What the graph knows of one of its filters.
pub struct NodeView {
    /// The name of the filter in the graph.
    pub name: Seq<char>,
    /// The type name of the filter.
    pub filter_type: Seq<char>,
    /// The input pads.
    pub inputs: Seq<Pad>,
    /// The output pads.
    pub outputs: Seq<Pad>,
}

/// What a filter graph holds.
pub struct GraphView {
    /// The identity of the graph.
    pub id: u64,
    /// The filters, in the order in which they were added.
    pub nodes: Seq<NodeView>,
}

impl View for Node {
    type V = NodeView;

    closed spec fn view(&self) -> NodeView {
        NodeView {
            name: self.name@,
            filter_type: self.filter_type@,
            inputs: self.inputs@,
            outputs: self.outputs@,
        }
    }
}

/// Pads of the given media types with no link attached.
pub open spec fn spec_free_pads(media: Seq<MediaType>) -> Seq<Pad> {
    Seq::new(media.len(), |i: int| Pad { media: media[i], linked: false })
}

/// The name under which the filter at a place is entered into the native
/// graph: the name that its configuration gives it, a number sign, and its
/// place.
pub open spec fn spec_node_name(name: Seq<char>, index: nat) -> Seq<char> {
    name + "#"@ + spec_decimal(index)
}

/// Filters at different places of a graph have different native names,
/// whatever names their configurations give them.
pub proof fn lemma_node_names_differ(a: Seq<char>, i: nat, b: Seq<char>, j: nat)
    requires
        i != j,
    ensures
        spec_node_name(a, i) != spec_node_name(b, j),
{
    reveal_strlit("#");
    let first = spec_node_name(a, i);
    let second = spec_node_name(b, j);
    let di = spec_decimal(i);
    let dj = spec_decimal(j);
    lemma_radix_injective(i, j, 10);
    lemma_radix_injective(j, i, 10);
    lemma_sign_is_no_digit();
    assert("#"@.len() == 1 && "#"@[0] == '#');
    assert(first.len() == a.len() + 1 + di.len());
    assert(second.len() == b.len() + 1 + dj.len());
    if first == second {
        assert(a.len() + di.len() == b.len() + dj.len());
        if di.len() == dj.len() {
            assert(di =~= dj) by {
                assert forall|k: int| 0 <= k < di.len() implies di[k] == dj[k] by {
                    assert(first[a.len() + 1 + k] == di[k]);
                    assert(second[b.len() + 1 + k] == dj[k]);
                }
            }
        } else if di.len() < dj.len() {
            let at = a.len() as int;
            assert(first[at] == '#');
            assert(second[at] == dj[at - b.len() - 1]);
            assert(spec_is_digit_char(dj[at - b.len() - 1]));
        } else {
            let at = b.len() as int;
            assert(second[at] == '#');
            assert(first[at] == di[at - a.len() - 1]);
            assert(spec_is_digit_char(di[at - a.len() - 1]));
        }
    }
}

/// The number sign is no digit.
proof fn lemma_sign_is_no_digit()
    ensures
        !spec_is_digit_char('#'),
{
    if spec_is_digit_char('#') {
        let d = choose|d: nat| d < 16 && #[trigger] spec_digit_char(d) == '#';
        assert(spec_digit_char(d) != '#');
    }
}

/// The error with which a filter is not added, if it is not: the first of
/// the steps that failed.
pub open spec fn spec_add_error(
    filter_type: Seq<char>,
    name: Seq<char>,
    added: AddOutcome,
) -> Option<ErrorView> {
    if !added.found {
        Some(ErrorView::FilterNotFound(filter_type))
    } else if name.contains(NUL) {
        Some(ErrorView::FFIString)
    } else if added.init_ret < 0 {
        Some(spec_from_av_err("setting filter parameters"@, added.init_ret))
    } else {
        None
    }
}

/// An addition that is carried through call by call, each answered as the
/// native layer would, ends with an outcome that adds the filter exactly as
/// the outcome does that holds all the answers.
pub proof fn lemma_add_in_steps(
    filter_type: Seq<char>,
    name: Seq<char>,
    start: AddOutcome,
    found: bool,
    init_ret: i32,
    inputs: Vec<MediaType>,
    outputs: Vec<MediaType>,
)
    ensures
        ({
            let first = start.spec_answered(name, AddStep::FindFilter, AddAnswer::Found(found));
            let second = first.1.spec_answered(name, first.0, AddAnswer::Allocated);
            let third = second.1.spec_answered(name, second.0, AddAnswer::Initialised(init_ret));
            let last = third.1.spec_answered(name, third.0, AddAnswer::Pads { inputs, outputs });
            let whole = AddOutcome { found, init_ret, inputs, outputs };
            &&& last.0 == AddStep::Finished
            &&& spec_add_error(filter_type, name, last.1) == spec_add_error(
                filter_type,
                name,
                whole,
            )
            &&& spec_add_error(filter_type, name, last.1) is None ==> last.1 == whole
        }),
{
}

/// The filter that an addition puts into the graph.
pub open spec fn spec_new_node(filter_type: Seq<char>, name: Seq<char>, added: AddOutcome)
    -> NodeView {
    NodeView {
        name,
        filter_type,
        inputs: spec_free_pads(added.inputs@),
        outputs: spec_free_pads(added.outputs@),
    }
}

impl GraphView {
    /// Whether a handle belongs to the graph: it records the identity of the
    /// graph and an index that the graph has a filter at.
    pub open spec fn owns(self, handle: AbstractFilterInfo) -> bool {
        handle.graph == self.id && handle.index < self.nodes.len()
    }

    /// The error with which a link is refused before the native layer is
    /// asked, if it is. The checks come in this order: both handles belong
    /// to the graph; the output pad is there and free; the input pad is
    /// there and free; the two pads carry the same media type.
    pub open spec fn link_error(
        self,
        src: AbstractFilterInfo,
        src_pad: u32,
        dest: AbstractFilterInfo,
        dest_pad: u32,
    ) -> Option<ErrorView> {
        if !self.owns(src) || !self.owns(dest) {
            Some(ErrorView::GraphMismatch)
        } else if src_pad >= self.nodes[src.index as int].outputs.len()
            || self.nodes[src.index as int].outputs[src_pad as int].linked {
            Some(
                ErrorView::OutputPadDoesntExist {
                    name: self.nodes[src.index as int].name,
                    filter_type: self.nodes[src.index as int].filter_type,
                    pad_number: src_pad,
                },
            )
        } else if dest_pad >= self.nodes[dest.index as int].inputs.len()
            || self.nodes[dest.index as int].inputs[dest_pad as int].linked {
            Some(
                ErrorView::InputPadDoesntExist {
                    name: self.nodes[dest.index as int].name,
                    filter_type: self.nodes[dest.index as int].filter_type,
                    pad_number: dest_pad,
                },
            )
        } else if self.nodes[src.index as int].outputs[src_pad as int].media
            != self.nodes[dest.index as int].inputs[dest_pad as int].media {
            Some(
                ErrorView::PadTypeMismatch {
                    output: self.nodes[src.index as int].outputs[src_pad as int].media,
                    input: self.nodes[dest.index as int].inputs[dest_pad as int].media,
                },
            )
        } else {
            None
        }
    }

    /// The graph with the output pad of one filter marked as linked.
    pub open spec fn with_output_linked(self, index: int, pad: int) -> GraphView {
        let node = self.nodes[index];
        GraphView {
            id: self.id,
            nodes: self.nodes.update(
                index,
                NodeView {
                    name: node.name,
                    filter_type: node.filter_type,
                    inputs: node.inputs,
                    outputs: node.outputs.update(
                        pad,
                        Pad { media: node.outputs[pad].media, linked: true },
                    ),
                },
            ),
        }
    }

    /// The graph with the input pad of one filter marked as linked.
    pub open spec fn with_input_linked(self, index: int, pad: int) -> GraphView {
        let node = self.nodes[index];
        GraphView {
            id: self.id,
            nodes: self.nodes.update(
                index,
                NodeView {
                    name: node.name,
                    filter_type: node.filter_type,
                    inputs: node.inputs.update(
                        pad,
                        Pad { media: node.inputs[pad].media, linked: true },
                    ),
                    outputs: node.outputs,
                },
            ),
        }
    }

    /// What linking gives, for the answer `linked` of the native layer: the
    /// error of the binding's own checks, which come first; else the error
    /// of the native layer; else the graph with both pads linked.
    pub open spec fn link(
        self,
        src: AbstractFilterInfo,
        src_pad: u32,
        dest: AbstractFilterInfo,
        dest_pad: u32,
        linked: i32,
    ) -> Result<GraphView, ErrorView> {
        match self.link_error(src, src_pad, dest, dest_pad) {
            Some(e) => Err(e),
            None => if linked < 0 {
                Err(spec_from_av_err("linking filters"@, linked))
            } else {
                Ok(
                    self.with_output_linked(src.index as int, src_pad as int).with_input_linked(
                        dest.index as int,
                        dest_pad as int,
                    ),
                )
            },
        }
    }

    /// The error with which a frame is not taken in at a filter of the graph,
    /// if it is not. The handle is checked first; then a native layer that
    /// is temporarily unable to take input is reported as
    /// [`ErrorView::CouldNotAcceptInput`]; any other failure is the one that
    /// the filter type makes of it.
    pub open spec fn submit_error<F: GraphInput>(self, filter: AbstractFilterInfo, submitted: i32)
        -> Option<ErrorView> {
        if !self.owns(filter) {
            Some(ErrorView::GraphMismatch)
        } else if submitted == -EAGAIN {
            Some(ErrorView::CouldNotAcceptInput)
        } else {
            F::spec_submit_frame(submitted)
        }
    }

    /// The error with which no frame is handed out at a filter of the graph,
    /// if none is. The handle is checked first; then a native layer that
    /// temporarily has no output is reported as
    /// [`ErrorView::SubmitMoreInput`]; any other failure is the one that the
    /// filter type makes of it.
    pub open spec fn output_error<F: GraphOutput>(self, filter: AbstractFilterInfo, ret: i32)
        -> Option<ErrorView> {
        if !self.owns(filter) {
            Some(ErrorView::GraphMismatch)
        } else if ret == -EAGAIN {
            Some(ErrorView::SubmitMoreInput)
        } else {
            F::spec_get_frame(ret)
        }
    }
}

/// A handle that one graph handed out is turned away by every operation of
/// a graph with another identity: linking from it, linking to it,
/// submitting a frame at it and taking a frame out at it all fail with
/// [`ErrorView::GraphMismatch`], whatever the native layer answers.
pub proof fn lemma_foreign_handle_rejected<I: GraphInput, O: GraphOutput>(
    minted_by: GraphView,
    used_with: GraphView,
    handle: AbstractFilterInfo,
    other: AbstractFilterInfo,
    pad: u32,
    other_pad: u32,
    answer: i32,
)
    requires
        handle.graph == minted_by.id,
        minted_by.id != used_with.id,
    ensures
        used_with.link(handle, pad, other, other_pad, answer) == Err::<GraphView, ErrorView>(
            ErrorView::GraphMismatch,
        ),
        used_with.link(other, other_pad, handle, pad, answer) == Err::<GraphView, ErrorView>(
            ErrorView::GraphMismatch,
        ),
        used_with.submit_error::<I>(handle, answer) == Some(ErrorView::GraphMismatch),
        used_with.output_error::<O>(handle, answer) == Some(ErrorView::GraphMismatch),
{
}

/// A link to an input pad that the destination filter does not have fails
/// with an error that names a pad, never with the error for native codes
/// that have no meaning of their own. Where the output pad is there and
/// free, the error names the destination filter, its type, and the input
/// pad.
pub proof fn lemma_missing_input_pad(
    graph: GraphView,
    src: AbstractFilterInfo,
    src_pad: u32,
    dest: AbstractFilterInfo,
    dest_pad: u32,
    linked: i32,
)
    requires
        graph.owns(src),
        graph.owns(dest),
        dest_pad >= graph.nodes[dest.index as int].inputs.len(),
    ensures
        graph.link(src, src_pad, dest, dest_pad, linked) matches Err(e) && (e
            is InputPadDoesntExist || e is OutputPadDoesntExist),
        src_pad < graph.nodes[src.index as int].outputs.len()
            && !graph.nodes[src.index as int].outputs[src_pad as int].linked ==> graph.link(
            src,
            src_pad,
            dest,
            dest_pad,
            linked,
        ) == Err::<GraphView, ErrorView>(
            ErrorView::InputPadDoesntExist {
                name: graph.nodes[dest.index as int].name,
                filter_type: graph.nodes[dest.index as int].filter_type,
                pad_number: dest_pad,
            },
        ),
{
}

/// The checks of the binding come before the native layer: where a link is
/// refused by them, the result does not depend on what the native layer
/// answers.
pub proof fn lemma_checks_come_first(
    graph: GraphView,
    src: AbstractFilterInfo,
    src_pad: u32,
    dest: AbstractFilterInfo,
    dest_pad: u32,
    linked: i32,
    other: i32,
)
    requires
        graph.link_error(src, src_pad, dest, dest_pad) is Some,
    ensures
        graph.link(src, src_pad, dest, dest_pad, linked) == graph.link(
            src,
            src_pad,
            dest,
            dest_pad,
            other,
        ),
        graph.link(src, src_pad, dest, dest_pad, linked) is Err,
{
}

/// A link between a free output pad and a free input pad of the same
/// media type succeeds where the native layer accepts it. Both pads are
/// linked afterwards, and nothing else of the graph has changed: the filters
/// keep their number, their names and their types. A further link from the
/// output pad is then refused with an error that names the pad, and so is a
/// further link to the input pad from any other free output pad, whatever
/// the native layer answers.
pub proof fn lemma_link_uses_up_the_pads(
    graph: GraphView,
    src: AbstractFilterInfo,
    src_pad: u32,
    dest: AbstractFilterInfo,
    dest_pad: u32,
    linked: i32,
    from: AbstractFilterInfo,
    from_pad: u32,
    to: AbstractFilterInfo,
    to_pad: u32,
    again: i32,
)
    requires
        graph.owns(src),
        graph.owns(dest),
        src_pad < graph.nodes[src.index as int].outputs.len(),
        !graph.nodes[src.index as int].outputs[src_pad as int].linked,
        dest_pad < graph.nodes[dest.index as int].inputs.len(),
        !graph.nodes[dest.index as int].inputs[dest_pad as int].linked,
        graph.nodes[src.index as int].outputs[src_pad as int].media
            == graph.nodes[dest.index as int].inputs[dest_pad as int].media,
        linked >= 0,
    ensures
        graph.link(src, src_pad, dest, dest_pad, linked) matches Ok(after) && {
            &&& after.id == graph.id
            &&& after.nodes.len() == graph.nodes.len()
            &&& after.nodes[src.index as int].outputs[src_pad as int].linked
            &&& after.nodes[dest.index as int].inputs[dest_pad as int].linked
            &&& after.nodes[src.index as int].name == graph.nodes[src.index as int].name
            &&& after.nodes[dest.index as int].name == graph.nodes[dest.index as int].name
            &&& after.owns(to) ==> after.link(src, src_pad, to, to_pad, again) == Err::<
                GraphView,
                ErrorView,
            >(
                ErrorView::OutputPadDoesntExist {
                    name: graph.nodes[src.index as int].name,
                    filter_type: graph.nodes[src.index as int].filter_type,
                    pad_number: src_pad,
                },
            )
            &&& after.owns(from) && from_pad < after.nodes[from.index as int].outputs.len()
                && !after.nodes[from.index as int].outputs[from_pad as int].linked ==> after.link(
                from,
                from_pad,
                dest,
                dest_pad,
                again,
            ) == Err::<GraphView, ErrorView>(
                ErrorView::InputPadDoesntExist {
                    name: graph.nodes[dest.index as int].name,
                    filter_type: graph.nodes[dest.index as int].filter_type,
                    pad_number: dest_pad,
                },
            )
        },
{
    let first = graph.with_output_linked(src.index as int, src_pad as int);
    let after = first.with_input_linked(dest.index as int, dest_pad as int);
    assert(graph.link_error(src, src_pad, dest, dest_pad) is None);
    assert(graph.link(src, src_pad, dest, dest_pad, linked) == Ok::<GraphView, ErrorView>(after));
}

/// What an output filter of a graph answers where its handle belongs to the
/// graph: a frame, where the native layer gave one; the request for more
/// input, where the native layer has no output for the time being; else the
/// error that the filter type makes of the native code. It is the request
/// for more input only on that one answer of the native layer.
pub proof fn lemma_output_or_more_input<F: GraphOutput>(
    graph: GraphView,
    filter: AbstractFilterInfo,
    ret: i32,
)
    requires
        graph.owns(filter),
    ensures
        ret == -EAGAIN ==> graph.output_error::<F>(filter, ret) == Some(ErrorView::SubmitMoreInput),
        ret != -EAGAIN ==> graph.output_error::<F>(filter, ret) == F::spec_get_frame(ret),
{
}

/// A buffer sink of a graph gives a frame exactly where the native layer
/// answers with a code that is not negative, and asks for more input exactly
/// where the native layer has no output for the time being.
pub proof fn lemma_buffer_sink_output(graph: GraphView, filter: AbstractFilterInfo, ret: i32)
    requires
        graph.owns(filter),
    ensures
        graph.output_error::<ABufferSink>(filter, ret) is None <==> ret >= 0,
        graph.output_error::<ABufferSink>(filter, ret) == Some(ErrorView::SubmitMoreInput) <==> ret
            == -EAGAIN,
        graph.output_error::<VBufferSink>(filter, ret) is None <==> ret >= 0,
        graph.output_error::<VBufferSink>(filter, ret) == Some(ErrorView::SubmitMoreInput) <==> ret
            == -EAGAIN,
{
}

/// A graph of filters that process audio and video. `Status` is
/// [`Unconfigured`] or [`Configured`].
#[derive(Debug)]
pub struct FilterGraph<Status> {
    id: u64,
    filters: Vec<Node>,
    _status: PhantomData<Status>,
}

impl<Status> View for FilterGraph<Status> {
    type V = GraphView;

    closed spec fn view(&self) -> GraphView {
        GraphView {
            id: self.id,
            nodes: Seq::new(self.filters@.len(), |i: int| self.filters@[i]@),
        }
    }
}

/// Pads of the given media types with no link attached.
fn free_pads(media: &Vec<MediaType>) -> (pads: Vec<Pad>)
    ensures
        pads@ == spec_free_pads(media@),
{
    let mut pads: Vec<Pad> = Vec::new();
    let mut i: usize = 0;
    while i < media.len()
        invariant
            i <= media@.len(),
            pads@ == spec_free_pads(media@).take(i as int),
        decreases media@.len() - i,
    {
        pads.push(Pad { media: media[i], linked: false });
        assert(pads@ =~= spec_free_pads(media@).take(i + 1));
        i += 1;
    }
    assert(pads@ =~= spec_free_pads(media@));
    pads
}

impl<Status> FilterGraph<Status> {
    /// The identity of the graph.
    pub fn id(&self) -> (id: u64)
        ensures
            id == self@.id,
    {
        self.id
    }

    /// The number of filters in the graph.
    pub fn len(&self) -> (n: usize)
        ensures
            n == self@.nodes.len(),
    {
        self.filters.len()
    }

    /// Whether the handle belongs to this graph.
    pub fn owns<F: Filter>(&self, handle: &FilterHandle<F>) -> (owned: bool)
        ensures
            owned == self@.owns(handle@),
    {
        let info = handle.to_filter_info();
        info.graph == self.id && info.index < self.filters.len()
    }
}

impl FilterGraph<Unconfigured> {
    /// An empty graph for the native graph at the given address. The
    /// identity of the graph is made from the address.
    pub fn new(address: usize) -> (graph: FilterGraph<Unconfigured>)
        ensures
            graph@.id == address,
            graph@.nodes.len() == 0,
    {
        FilterGraph { id: make_id_from_ptr(address), filters: Vec::new(), _status: PhantomData }
    }

    /// The name under which the next filter is to be entered into the native
    /// graph. It differs from the native name of every other filter of the
    /// graph, also where two configurations give the same name.
    pub fn next_node_name<F: Filter>(&self, filter_config: &F) -> (name: String)
        ensures
            name@ == spec_node_name(filter_config.spec_filter_name(), self@.nodes.len()),
    {
        let mut name = String::from_str(filter_config.filter_name());
        name.append("#");
        name.append(decimal(self.filters.len() as u64).as_str());
        name
    }

    /// Adds a filter, given what the native layer answered, and hands out
    /// the handle for it.
    ///
    /// Fails, and leaves the graph as it is, if the native library has no
    /// filter of the type, if the name of the filter holds a NUL, or if the
    /// native layer did not take the options.
    pub fn add<F: Filter>(&mut self, filter_config: F, added: AddOutcome) -> (result: Result<
        FilterHandle<F>,
        Error,
    >)
        ensures
            result is Ok <==> spec_add_error(
                F::spec_filter_type_name(),
                filter_config.spec_filter_name(),
                added,
            ) is None,
            result matches Err(e) ==> spec_add_error(
                F::spec_filter_type_name(),
                filter_config.spec_filter_name(),
                added,
            ) == Some(e@) && final(self)@ == old(self)@,
            result matches Ok(handle) ==> {
                &&& handle@ == (AbstractFilterInfo {
                    graph: old(self)@.id,
                    index: old(self)@.nodes.len() as usize,
                })
                &&& handle.spec_config() == filter_config
                &&& final(self)@.id == old(self)@.id
                &&& final(self)@.nodes == old(self)@.nodes.push(
                    spec_new_node(
                        F::spec_filter_type_name(),
                        filter_config.spec_filter_name(),
                        added,
                    ),
                )
            },
    {
        match self.inner_add(filter_config.filter_name(), F::filter_type_name(), added) {
            Ok(index) => Ok(FilterHandle::new(self.id, index, filter_config)),
            Err(e) => Err(e),
        }
    }

    /// The work of adding, for a filter of any type: the checks, and the
    /// entry of the new filter into the graph. Gives the index of the filter.
    fn inner_add(&mut self, name: &str, filter_type: &str, added: AddOutcome) -> (result: Result<
        usize,
        Error,
    >)
        ensures
            result is Ok <==> spec_add_error(filter_type@, name@, added) is None,
            result matches Err(e) ==> spec_add_error(filter_type@, name@, added) == Some(e@)
                && final(self)@ == old(self)@,
            result matches Ok(index) ==> {
                &&& index == old(self)@.nodes.len()
                &&& final(self)@.id == old(self)@.id
                &&& final(self)@.nodes == old(self)@.nodes.push(
                    spec_new_node(filter_type@, name@, added),
                )
            },
    {
        if !added.found {
            return Err(Error::FilterNotFound(String::from_str(filter_type)));
        }
        if has_nul(name) {
            return Err(Error::FFIString);
        }
        if added.init_ret < 0 {
            return Err(Error::from_av_err("setting filter parameters", added.init_ret));
        }
        let node = Node {
            name: String::from_str(name),
            filter_type: String::from_str(filter_type),
            inputs: free_pads(&added.inputs),
            outputs: free_pads(&added.outputs),
        };
        let index = self.filters.len();
        self.filters.push(node);
        assert(self@.nodes =~= old(self)@.nodes.push(spec_new_node(filter_type@, name@, added)));
        Ok(index)
    }

    /// Adds a filter; the same as [`FilterGraph::add`].
    pub fn add_filter<F: Filter>(&mut self, filter_config: F, added: AddOutcome) -> (result:
        Result<FilterHandle<F>, Error>)
        ensures
            result is Ok <==> spec_add_error(
                F::spec_filter_type_name(),
                filter_config.spec_filter_name(),
                added,
            ) is None,
            result matches Err(e) ==> spec_add_error(
                F::spec_filter_type_name(),
                filter_config.spec_filter_name(),
                added,
            ) == Some(e@) && final(self)@ == old(self)@,
            result matches Ok(handle) ==> {
                &&& handle@ == (AbstractFilterInfo {
                    graph: old(self)@.id,
                    index: old(self)@.nodes.len() as usize,
                })
                &&& handle.spec_config() == filter_config
                &&& final(self)@.id == old(self)@.id
                &&& final(self)@.nodes == old(self)@.nodes.push(
                    spec_new_node(
                        F::spec_filter_type_name(),
                        filter_config.spec_filter_name(),
                        added,
                    ),
                )
            },
    {
        self.add(filter_config, added)
    }

    /// Checks whether a link may be asked of the native layer at all.
    ///
    /// Both handles have to belong to this graph, the output pad and the
    /// input pad have to be there and free, and the two pads have to carry
    /// the same media type. A pad that is missing or taken is reported with
    /// the name and the type of its filter and with its number.
    pub fn check_link(
        &self,
        src: AbstractFilterInfo,
        src_pad: u32,
        dest: AbstractFilterInfo,
        dest_pad: u32,
    ) -> (result: Result<(), Error>)
        ensures
            result is Ok <==> self@.link_error(src, src_pad, dest, dest_pad) is None,
            result matches Err(e) ==> self@.link_error(src, src_pad, dest, dest_pad) == Some(e@),
    {
        if src.graph != self.id || src.index >= self.filters.len() {
            return Err(Error::GraphMismatch);
        }
        if dest.graph != self.id || dest.index >= self.filters.len() {
            return Err(Error::GraphMismatch);
        }
        let filter_src = &self.filters[src.index];
        let filter_dest = &self.filters[dest.index];
        assert(self@.nodes[src.index as int] == filter_src@);
        assert(self@.nodes[dest.index as int] == filter_dest@);
        if src_pad as usize >= filter_src.outputs.len() || filter_src.outputs[src_pad
            as usize].linked {
            return Err(
                Error::OutputPadDoesntExist {
                    name: filter_src.name.clone(),
                    filter_type: filter_src.filter_type.clone(),
                    pad_number: src_pad,
                },
            );
        }
        if dest_pad as usize >= filter_dest.inputs.len() || filter_dest.inputs[dest_pad
            as usize].linked {
            return Err(
                Error::InputPadDoesntExist {
                    name: filter_dest.name.clone(),
                    filter_type: filter_dest.filter_type.clone(),
                    pad_number: dest_pad,
                },
            );
        }
        let output = filter_src.outputs[src_pad as usize].media;
        let input = filter_dest.inputs[dest_pad as usize].media;
        if output != input {
            return Err(Error::PadTypeMismatch { output, input });
        }
        Ok(())
    }

    /// Links an output pad of `src` to an input pad of `dest`, given what
    /// the native layer answered to the link.
    ///
    /// The checks of [`FilterGraph::check_link`] come first, and where one of
    /// them fails its error is the result, whatever the native layer
    /// answered. After a failure the graph is as it was; after a success
    /// both pads are taken.
    pub fn connect<A: HasOutputPads, B: HasInputPads>(
        &mut self,
        src: &FilterHandle<A>,
        src_pad: u32,
        dest: &FilterHandle<B>,
        dest_pad: u32,
        linked: i32,
    ) -> (result: Result<(), Error>)
        ensures
            result is Ok <==> old(self)@.link(src@, src_pad, dest@, dest_pad, linked) is Ok,
            result is Ok ==> Ok::<GraphView, ErrorView>(final(self)@) == old(self)@.link(
                src@,
                src_pad,
                dest@,
                dest_pad,
                linked,
            ),
            result matches Err(e) ==> Err::<GraphView, ErrorView>(e@) == old(self)@.link(
                src@,
                src_pad,
                dest@,
                dest_pad,
                linked,
            ) && final(self)@ == old(self)@,
    {
        self.inner_link(src.to_filter_info(), src_pad, dest.to_filter_info(), dest_pad, linked)
    }

    /// Links an output pad of `src` to an input pad of `dest`; the same as
    /// [`FilterGraph::connect`], for handles that are given away.
    pub fn link<A: HasOutputPads, B: HasInputPads>(
        &mut self,
        src: FilterHandle<A>,
        src_pad: u32,
        dest: FilterHandle<B>,
        dest_pad: u32,
        linked: i32,
    ) -> (result: Result<(), Error>)
        ensures
            result is Ok <==> old(self)@.link(src@, src_pad, dest@, dest_pad, linked) is Ok,
            result is Ok ==> Ok::<GraphView, ErrorView>(final(self)@) == old(self)@.link(
                src@,
                src_pad,
                dest@,
                dest_pad,
                linked,
            ),
            result matches Err(e) ==> Err::<GraphView, ErrorView>(e@) == old(self)@.link(
                src@,
                src_pad,
                dest@,
                dest_pad,
                linked,
            ) && final(self)@ == old(self)@,
    {
        self.inner_link(src.to_filter_info(), src_pad, dest.to_filter_info(), dest_pad, linked)
    }

    /// The work of linking, for handles of any filter type.
    fn inner_link(
        &mut self,
        src: AbstractFilterInfo,
        src_pad: u32,
        dest: AbstractFilterInfo,
        dest_pad: u32,
        linked: i32,
    ) -> (result: Result<(), Error>)
        ensures
            result is Ok <==> old(self)@.link(src, src_pad, dest, dest_pad, linked) is Ok,
            result is Ok ==> Ok::<GraphView, ErrorView>(final(self)@) == old(self)@.link(
                src,
                src_pad,
                dest,
                dest_pad,
                linked,
            ),
            result matches Err(e) ==> Err::<GraphView, ErrorView>(e@) == old(self)@.link(
                src,
                src_pad,
                dest,
                dest_pad,
                linked,
            ) && final(self)@ == old(self)@,
    {
        match self.check_link(src, src_pad, dest, dest_pad) {
            Err(e) => {
                return Err(e);
            },
            Ok(()) => {},
        }
        if linked < 0 {
            return Err(Error::from_av_err("linking filters", linked));
        }
        let ghost before = self@;
        let media = self.filters[src.index].outputs[src_pad as usize].media;
        self.filters[src.index].outputs[src_pad as usize] = Pad { media, linked: true };
        assert(self@.nodes =~= before.with_output_linked(
            src.index as int,
            src_pad as int,
        ).nodes);
        let ghost between = self@;
        let media = self.filters[dest.index].inputs[dest_pad as usize].media;
        self.filters[dest.index].inputs[dest_pad as usize] = Pad { media, linked: true };
        assert(self@.nodes =~= between.with_input_linked(
            dest.index as int,
            dest_pad as int,
        ).nodes);
        Ok(())
    }

    /// Freezes the topology of the graph, given what the native layer
    /// answered to its validation. The graph is used up either way: after a
    /// failure there is no graph to go on with.
    pub fn configure(self, configured: i32) -> (result: Result<FilterGraph<Configured>, Error>)
        ensures
            result is Ok <==> configured >= 0,
            result matches Ok(graph) ==> graph@ == self@,
            result matches Err(e) ==> e@ == spec_from_av_err(
                "configuring filter graph"@,
                configured,
            ),
    {
        if configured < 0 {
            return Err(Error::from_av_err("configuring filter graph", configured));
        }
        let graph = FilterGraph { id: self.id, filters: self.filters, _status: PhantomData };
        assert(graph@.nodes =~= self@.nodes);
        Ok(graph)
    }
}

impl FilterGraph<Configured> {
    /// Submits a frame at an input filter of the graph, given what the
    /// native layer answered.
    ///
    /// A handle of another graph is turned away first. A native layer that
    /// cannot take input for now is reported as
    /// [`Error::CouldNotAcceptInput`]: take out what the graph has to give,
    /// then submit again. The frame keeps its data in every case.
    pub fn submit_frame<F: GraphInput>(
        &mut self,
        filter: &FilterHandle<F>,
        frame: &mut Frame<F::StreamType>,
        submitted: i32,
    ) -> (result: Result<(), Error>)
        ensures
            final(self)@ == old(self)@,
            final(frame)@ == old(frame)@,
            result is Ok <==> old(self)@.submit_error::<F>(filter@, submitted) is None,
            result matches Err(e) ==> old(self)@.submit_error::<F>(filter@, submitted) == Some(e@),
    {
        if !self.owns(filter) {
            return Err(Error::GraphMismatch);
        }
        if submitted == -EAGAIN {
            return Err(Error::CouldNotAcceptInput);
        }
        F::submit_frame(frame, submitted)
    }

    /// Takes a frame out at an output filter of the graph into `frame`,
    /// given the return code of the native layer and the data that it put
    /// into the frame.
    ///
    /// A handle of another graph is turned away first, and the frame is then
    /// left as it is. A native layer that has nothing to give for now is
    /// reported as [`Error::SubmitMoreInput`]. On every failure of the native
    /// layer the frame is empty.
    pub fn get_output_into<F: GraphOutput>(
        &mut self,
        filter: &FilterHandle<F>,
        frame: &mut Frame<F::StreamType>,
        ret: i32,
        data: FrameData,
    ) -> (result: Result<(), Error>)
        ensures
            final(self)@ == old(self)@,
            result is Ok <==> old(self)@.output_error::<F>(filter@, ret) is None,
            result matches Err(e) ==> old(self)@.output_error::<F>(filter@, ret) == Some(e@),
            result is Ok ==> final(frame)@ == FrameView::holding(data),
            result is Err ==> final(frame)@ == (if old(self)@.owns(filter@) {
                FrameView::empty()
            } else {
                old(frame)@
            }),
    {
        if !self.owns(filter) {
            return Err(Error::GraphMismatch);
        }
        if ret == -EAGAIN {
            frame.unref();
            return Err(Error::SubmitMoreInput);
        }
        F::get_frame_into(frame, ret, data)
    }

    /// Takes a frame out at an output filter of the graph as a new frame.
    pub fn get_output<F: GraphOutput>(&mut self, filter: &FilterHandle<F>, ret: i32, data: FrameData)
        -> (result: Result<Frame<F::StreamType>, Error>)
        ensures
            final(self)@ == old(self)@,
            result is Ok <==> old(self)@.output_error::<F>(filter@, ret) is None,
            result matches Err(e) ==> old(self)@.output_error::<F>(filter@, ret) == Some(e@),
            result matches Ok(frame) ==> frame@ == FrameView::holding(data),
    {
        let mut frame = Frame::new();
        match self.get_output_into(filter, &mut frame, ret, data) {
            Ok(()) => Ok(frame),
            Err(e) => Err(e),
        }
    }

    /// Takes a frame out at an output filter; the same as
    /// [`FilterGraph::get_output_into`].
    pub fn get_frame_into<F: GraphOutput>(
        &mut self,
        filter: &FilterHandle<F>,
        frame: &mut Frame<F::StreamType>,
        ret: i32,
        data: FrameData,
    ) -> (result: Result<(), Error>)
        ensures
            final(self)@ == old(self)@,
            result is Ok <==> old(self)@.output_error::<F>(filter@, ret) is None,
            result matches Err(e) ==> old(self)@.output_error::<F>(filter@, ret) == Some(e@),
            result is Ok ==> final(frame)@ == FrameView::holding(data),
            result is Err ==> final(frame)@ == (if old(self)@.owns(filter@) {
                FrameView::empty()
            } else {
                old(frame)@
            }),
    {
        self.get_output_into(filter, frame, ret, data)
    }

    /// Takes a frame out at an output filter as a new frame; the same as
    /// [`FilterGraph::get_output`].
    pub fn get_frame<F: GraphOutput>(&mut self, filter: &FilterHandle<F>, ret: i32, data: FrameData)
        -> (result: Result<Frame<F::StreamType>, Error>)
        ensures
            final(self)@ == old(self)@,
            result is Ok <==> old(self)@.output_error::<F>(filter@, ret) is None,
            result matches Err(e) ==> old(self)@.output_error::<F>(filter@, ret) == Some(e@),
            result matches Ok(frame) ==> frame@ == FrameView::holding(data),
    {
        self.get_output(filter, ret, data)
    }
}

} // verus!
