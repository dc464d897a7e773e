//! The chromaticity coordinates of the source primaries of a video stream.

use vstd::prelude::*;

verus! {

/// The colour primaries of a video stream.
#[derive(Debug, Clone, Copy, PartialEq, Eq, Structural, Hash)]
pub enum ColorPrimary {
    /// Not specified.
    Unspecified,
    /// ITU-R BT.709, also ITU-R BT1361, IEC 61966-2-4 and SMPTE RP177 Annex B.
    BT709,
    /// ITU-R BT.470 System M, also FCC Title 47 Code of Federal Regulations 73.682 (a)(20).
    BT470M,
    /// ITU-R BT.470 System B, G, also BT601-6 625, BT1358 625 and BT1700 625 PAL and SECAM.
    BT470BG,
    /// SMPTE 170M, also ITU-R BT601-6 525, BT1358 525 and BT1700 NTSC.
    SMPTE170M,
    /// SMPTE 240M, functionally the same as SMPTE 170M.
    SMPTE240M,
    /// Colour filters using Illuminant C.
    FILM,
    /// ITU-R BT.2020.
    BT2020,
    /// SMPTE ST 428-1 (CIE 1931 XYZ).
    SMPTE428,
    /// SMPTE ST 431-2 (2011), DCI P3.
    SMPTE431,
    /// SMPTE ST 432-1 (2010), P3 D65, Display P3.
    SMPTE432,
    /// EBU Tech. 3213-E, which older native headers call JEDEC P22 phosphors.
    EBU3213,
}

impl ColorPrimary {
    /// The number that the native libraries use for these primaries.
    pub open spec fn spec_av_color_primaries(self) -> int {
        match self {
            ColorPrimary::BT709 => 1,
            ColorPrimary::Unspecified => 2,
            ColorPrimary::BT470M => 4,
            ColorPrimary::BT470BG => 5,
            ColorPrimary::SMPTE170M => 6,
            ColorPrimary::SMPTE240M => 7,
            ColorPrimary::FILM => 8,
            ColorPrimary::BT2020 => 9,
            ColorPrimary::SMPTE428 => 10,
            ColorPrimary::SMPTE431 => 11,
            ColorPrimary::SMPTE432 => 12,
            ColorPrimary::EBU3213 => 22,
        }
    }

    /// Whether the native number names colour primaries. The numbers 0 and 3
    /// are reserved, and those between 12 and 22, and above 22, are not
    /// assigned.
    pub open spec fn spec_is_known(code: int) -> bool {
        code == 1 || code == 2 || 4 <= code <= 12 || code == 22
    }

    /// Converts to the number that the native libraries use.
    pub fn as_av_color_primaries(self) -> (code: i32)
        ensures
            code == self.spec_av_color_primaries(),
            Self::spec_is_known(code as int),
    {
        match self {
            ColorPrimary::BT709 => 1,
            ColorPrimary::Unspecified => 2,
            ColorPrimary::BT470M => 4,
            ColorPrimary::BT470BG => 5,
            ColorPrimary::SMPTE170M => 6,
            ColorPrimary::SMPTE240M => 7,
            ColorPrimary::FILM => 8,
            ColorPrimary::BT2020 => 9,
            ColorPrimary::SMPTE428 => 10,
            ColorPrimary::SMPTE431 => 11,
            ColorPrimary::SMPTE432 => 12,
            ColorPrimary::EBU3213 => 22,
        }
    }

    /// The colour primaries with the given native number. There are none for
    /// a reserved or unassigned number.
    pub fn from_av_color_primaries(code: i32) -> (primary: Option<ColorPrimary>)
        ensures
            primary is Some <==> Self::spec_is_known(code as int),
            primary matches Some(p) ==> p.spec_av_color_primaries() == code,
    {
        match code {
            1 => Some(ColorPrimary::BT709),
            2 => Some(ColorPrimary::Unspecified),
            4 => Some(ColorPrimary::BT470M),
            5 => Some(ColorPrimary::BT470BG),
            6 => Some(ColorPrimary::SMPTE170M),
            7 => Some(ColorPrimary::SMPTE240M),
            8 => Some(ColorPrimary::FILM),
            9 => Some(ColorPrimary::BT2020),
            10 => Some(ColorPrimary::SMPTE428),
            11 => Some(ColorPrimary::SMPTE431),
            12 => Some(ColorPrimary::SMPTE432),
            22 => Some(ColorPrimary::EBU3213),
            _ => None,
        }
    }
}

} // verus!
