//! The speakers that the channels of an audio stream are meant for.

use vstd::prelude::*;
use crate::util::text::{hex, spec_hex};

verus! {

/// Front left.
pub const FRONT_LEFT: u64 = 0x1;

/// Front right.
pub const FRONT_RIGHT: u64 = 0x2;

/// Front centre.
pub const FRONT_CENTER: u64 = 0x4;

/// Low frequency, such as a subwoofer.
pub const LOW_FREQ: u64 = 0x8;

/// Back left.
pub const BACK_LEFT: u64 = 0x10;

/// Back right.
pub const BACK_RIGHT: u64 = 0x20;

/// Front, left of centre.
pub const FRONT_LEFT_OF_CENTER: u64 = 0x40;

/// Front, right of centre.
pub const FRONT_RIGHT_OF_CENTER: u64 = 0x80;

/// Back centre.
pub const BACK_CENTER: u64 = 0x100;

/// Side left.
pub const SIDE_LEFT: u64 = 0x200;

/// Side right.
pub const SIDE_RIGHT: u64 = 0x400;

/// Top centre.
pub const TOP_CENTER: u64 = 0x800;

/// Top front left.
pub const TOP_FRONT_LEFT: u64 = 0x1000;

/// Top front centre.
pub const TOP_FRONT_CENTER: u64 = 0x2000;

/// Top front right.
pub const TOP_FRONT_RIGHT: u64 = 0x4000;

/// Top back left.
pub const TOP_BACK_LEFT: u64 = 0x8000;

/// Top back centre.
pub const TOP_BACK_CENTER: u64 = 0x1_0000;

/// Top back right.
pub const TOP_BACK_RIGHT: u64 = 0x2_0000;

/// Left channel of a stereo downmix.
pub const STEREO_LEFT: u64 = 0x2000_0000;

/// Right channel of a stereo downmix.
pub const STEREO_RIGHT: u64 = 0x4000_0000;

/// Wide left.
pub const WIDE_LEFT: u64 = 0x8000_0000;

/// Wide right.
pub const WIDE_RIGHT: u64 = 0x1_0000_0000;

/// Surround direct left.
pub const SURROUND_DIRECT_LEFT: u64 = 0x2_0000_0000;

/// Surround direct right.
pub const SURROUND_DIRECT_RIGHT: u64 = 0x4_0000_0000;

/// Second low frequency channel.
pub const LOW_FREQ_2: u64 = 0x8_0000_0000;

/// Every bit that stands for a speaker.
pub const ALL_CHANNELS: u64 = 0xf_e003_ffff;

/// One centre channel.
pub const LAYOUT_MONO: u64 = 0x4;

/// Left and right.
pub const LAYOUT_STEREO: u64 = 0x3;

/// Left, right and centre.
pub const LAYOUT_SURROUND: u64 = 0x7;

/// Left, right, centre and a subwoofer.
pub const LAYOUT_3_POINT_1: u64 = 0xf;

/// The set of speakers that the channels of an audio stream are meant for,
/// one bit for each speaker.
#[derive(Debug, Clone, Copy, PartialEq, Eq, Structural, Hash)]
pub struct ChannelLayout {
    bits: u64,
}

impl ChannelLayout {
    /// The bits of the layout.
    pub closed spec fn spec_bits(self) -> u64 {
        self.bits
    }

    /// Only bits that stand for a speaker are ever set.
    #[verifier::type_invariant]
    closed spec fn wf(self) -> bool {
        self.bits & !ALL_CHANNELS == 0
    }

    /// The layout without any channel.
    pub fn empty() -> (layout: ChannelLayout)
        ensures
            layout.spec_bits() == 0,
    {
        assert(0u64 & !ALL_CHANNELS == 0) by (bit_vector);
        ChannelLayout { bits: 0 }
    }

    /// The layout with the given bits, if each of them stands for a speaker.
    pub fn from_bits(bits: u64) -> (layout: Option<ChannelLayout>)
        ensures
            layout is Some <==> bits & !ALL_CHANNELS == 0,
            layout matches Some(l) ==> l.spec_bits() == bits,
    {
        if bits & !ALL_CHANNELS == 0 {
            Some(ChannelLayout { bits })
        } else {
            None
        }
    }

    /// The layout with those of the given bits that stand for a speaker.
    pub fn from_bits_truncate(bits: u64) -> (layout: ChannelLayout)
        ensures
            layout.spec_bits() == bits & ALL_CHANNELS,
    {
        assert((bits & ALL_CHANNELS) & !ALL_CHANNELS == 0) by (bit_vector);
        ChannelLayout { bits: bits & ALL_CHANNELS }
    }

    /// The bits of the layout, as the native libraries read them.
    pub fn bits(self) -> (bits: u64)
        ensures
            bits == self.spec_bits(),
    {
        self.bits
    }

    /// Whether every channel of `other` is part of this layout.
    pub fn contains(self, other: ChannelLayout) -> (all: bool)
        ensures
            all == (self.spec_bits() & other.spec_bits() == other.spec_bits()),
    {
        self.bits & other.bits == other.bits
    }

    /// The layout with the channels of both.
    pub fn union(self, other: ChannelLayout) -> (layout: ChannelLayout)
        ensures
            layout.spec_bits() == self.spec_bits() | other.spec_bits(),
    {
        proof {
            use_type_invariant(self);
            use_type_invariant(other);
        }
        let a = self.bits;
        let b = other.bits;
        assert((a | b) & !ALL_CHANNELS == 0) by (bit_vector)
            requires
                a & !ALL_CHANNELS == 0,
                b & !ALL_CHANNELS == 0,
        ;
        ChannelLayout { bits: a | b }
    }

    /// One centre channel.
    pub fn layout_mono() -> (layout: ChannelLayout)
        ensures
            layout.spec_bits() == FRONT_CENTER,
    {
        assert(LAYOUT_MONO & !ALL_CHANNELS == 0) by (bit_vector);
        ChannelLayout { bits: LAYOUT_MONO }
    }

    /// Left and right.
    pub fn layout_stereo() -> (layout: ChannelLayout)
        ensures
            layout.spec_bits() == FRONT_LEFT | FRONT_RIGHT,
    {
        assert(LAYOUT_STEREO & !ALL_CHANNELS == 0 && LAYOUT_STEREO == FRONT_LEFT | FRONT_RIGHT)
            by (bit_vector);
        ChannelLayout { bits: LAYOUT_STEREO }
    }

    /// Left, right and centre.
    pub fn layout_surround() -> (layout: ChannelLayout)
        ensures
            layout.spec_bits() == FRONT_LEFT | FRONT_RIGHT | FRONT_CENTER,
    {
        assert(LAYOUT_SURROUND & !ALL_CHANNELS == 0 && LAYOUT_SURROUND == FRONT_LEFT | FRONT_RIGHT
            | FRONT_CENTER) by (bit_vector);
        ChannelLayout { bits: LAYOUT_SURROUND }
    }

    /// Left, right, centre and a subwoofer.
    pub fn layout_3_point_1() -> (layout: ChannelLayout)
        ensures
            layout.spec_bits() == FRONT_LEFT | FRONT_RIGHT | FRONT_CENTER | LOW_FREQ,
    {
        assert(LAYOUT_3_POINT_1 & !ALL_CHANNELS == 0 && LAYOUT_3_POINT_1 == FRONT_LEFT
            | FRONT_RIGHT | FRONT_CENTER | LOW_FREQ) by (bit_vector);
        ChannelLayout { bits: LAYOUT_3_POINT_1 }
    }

    /// The mask in lower case hexadecimal, without a prefix.
    pub fn to_hex(self) -> (text: String)
        ensures
            text@ == spec_hex(self.spec_bits() as nat),
    {
        hex(self.bits)
    }
}

} // verus!
