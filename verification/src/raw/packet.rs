//! Packets: units of data that are still encoded.

use vstd::prelude::*;

verus! {

/// What a packet holds.
pub struct PacketView {
    /// Whether the packet refers to data.
    pub filled: bool,
    /// The stream that the data belongs to.
    pub stream_index: usize,
    /// The number of bytes of data.
    pub size: usize,
}

impl PacketView {
    /// A packet as it is right after it was made: no data, and every field
    /// at its default.
    pub open spec fn empty() -> PacketView {
        PacketView { filled: false, stream_index: 0, size: 0 }
    }

    /// The packet after its data was dropped.
    pub open spec fn unref(self) -> PacketView {
        PacketView::empty()
    }
}

/// Dropping the data of a packet a second time changes nothing.
pub proof fn lemma_unref_idempotent(packet: PacketView)
    ensures
        packet.unref().unref() == packet.unref(),
        packet.unref() == PacketView::empty(),
{
}

/// A packet of encoded data from a container. The shell is reused from one
/// read to the next; only the data it refers to comes and goes.
#[derive(Debug, PartialEq, Eq)]
pub struct Packet {
    filled: bool,
    stream_index: usize,
    size: usize,
}

impl View for Packet {
    type V = PacketView;

    closed spec fn view(&self) -> PacketView {
        PacketView { filled: self.filled, stream_index: self.stream_index, size: self.size }
    }
}

impl Packet {
    /// A packet that refers to no data.
    pub fn new() -> (packet: Packet)
        ensures
            packet@ == PacketView::empty(),
    {
        Packet { filled: false, stream_index: 0, size: 0 }
    }

    /// Drops the data that the packet refers to. The packet is afterwards as
    /// if it had just been made, whatever it held, and can be used again.
    pub fn unref(&mut self)
        ensures
            final(self)@ == old(self)@.unref(),
            final(self)@ == PacketView::empty(),
    {
        self.filled = false;
        self.stream_index = 0;
        self.size = 0;
    }

    /// Makes the packet refer to `size` bytes of data of the given stream.
    pub fn fill(&mut self, stream_index: usize, size: usize)
        ensures
            final(self)@ == (PacketView { filled: true, stream_index, size }),
    {
        self.filled = true;
        self.stream_index = stream_index;
        self.size = size;
    }

    /// The index of the stream that the packet was read from, or is meant
    /// for.
    pub fn stream_index(&self) -> (index: usize)
        ensures
            index == self@.stream_index,
    {
        self.stream_index
    }

    /// The number of bytes of data that the packet refers to.
    pub fn size(&self) -> (size: usize)
        ensures
            size == self@.size,
    {
        self.size
    }

    /// Whether the packet refers to no data.
    pub fn is_empty(&self) -> (empty: bool)
        ensures
            empty == !self@.filled,
    {
        !self.filled
    }
}

impl Default for Packet {
    fn default() -> (packet: Packet)
        ensures
            packet@ == PacketView::empty(),
    {
        Packet::new()
    }
}

} // verus!
