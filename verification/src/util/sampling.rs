//! The layouts in which the samples of a decoded audio frame are stored.

use vstd::prelude::*;

verus! {

/// The native sample format of an audio stream.
///
/// A planar format keeps each channel in a data plane of its own; a packed
/// format interleaves the channels in one plane.
#[derive(Debug, Clone, Copy, PartialEq, Eq, Structural, Hash)]
pub enum SampleFormat {
    /// Planar `u8` samples.
    PlanarU8,
    /// Planar `i16` samples.
    PlanarI16,
    /// Planar `i32` samples.
    PlanarI32,
    /// Planar `i64` samples.
    PlanarI64,
    /// Planar `f32` samples.
    PlanarF32,
    /// Planar `f64` samples.
    PlanarF64,
    /// Packed `u8` samples.
    PackedU8,
    /// Packed `i16` samples.
    PackedI16,
    /// Packed `i32` samples.
    PackedI32,
    /// Packed `i64` samples.
    PackedI64,
    /// Packed `f32` samples.
    PackedF32,
    /// Packed `f64` samples.
    PackedF64,
}

impl SampleFormat {
    /// The number that the native libraries use for this sample format.
    pub open spec fn spec_av_sample(self) -> int {
        match self {
            SampleFormat::PackedU8 => 0,
            SampleFormat::PackedI16 => 1,
            SampleFormat::PackedI32 => 2,
            SampleFormat::PackedF32 => 3,
            SampleFormat::PackedF64 => 4,
            SampleFormat::PlanarU8 => 5,
            SampleFormat::PlanarI16 => 6,
            SampleFormat::PlanarI32 => 7,
            SampleFormat::PlanarF32 => 8,
            SampleFormat::PlanarF64 => 9,
            SampleFormat::PackedI64 => 10,
            SampleFormat::PlanarI64 => 11,
        }
    }

    /// The name that the native libraries use for this sample format.
    pub open spec fn spec_format_name(self) -> Seq<char> {
        match self {
            SampleFormat::PackedU8 => "u8"@,
            SampleFormat::PackedI16 => "s16"@,
            SampleFormat::PackedI32 => "s32"@,
            SampleFormat::PackedF32 => "flt"@,
            SampleFormat::PackedF64 => "dbl"@,
            SampleFormat::PlanarU8 => "u8p"@,
            SampleFormat::PlanarI16 => "s16p"@,
            SampleFormat::PlanarI32 => "s32p"@,
            SampleFormat::PlanarF32 => "fltp"@,
            SampleFormat::PlanarF64 => "dblp"@,
            SampleFormat::PackedI64 => "s64"@,
            SampleFormat::PlanarI64 => "s64p"@,
        }
    }

    /// The sample format with the given native number, if there is one.
    pub open spec fn spec_from_av_sample(code: int) -> Option<SampleFormat> {
        if code == 0 {
            Some(SampleFormat::PackedU8)
        } else if code == 1 {
            Some(SampleFormat::PackedI16)
        } else if code == 2 {
            Some(SampleFormat::PackedI32)
        } else if code == 3 {
            Some(SampleFormat::PackedF32)
        } else if code == 4 {
            Some(SampleFormat::PackedF64)
        } else if code == 5 {
            Some(SampleFormat::PlanarU8)
        } else if code == 6 {
            Some(SampleFormat::PlanarI16)
        } else if code == 7 {
            Some(SampleFormat::PlanarI32)
        } else if code == 8 {
            Some(SampleFormat::PlanarF32)
        } else if code == 9 {
            Some(SampleFormat::PlanarF64)
        } else if code == 10 {
            Some(SampleFormat::PackedI64)
        } else if code == 11 {
            Some(SampleFormat::PlanarI64)
        } else {
            None
        }
    }

    /// Converts to the number that the native libraries use.
    pub fn to_av_sample(self) -> (code: i32)
        ensures
            code == self.spec_av_sample(),
            0 <= code <= 11,
    {
        match self {
            SampleFormat::PackedU8 => 0,
            SampleFormat::PackedI16 => 1,
            SampleFormat::PackedI32 => 2,
            SampleFormat::PackedF32 => 3,
            SampleFormat::PackedF64 => 4,
            SampleFormat::PlanarU8 => 5,
            SampleFormat::PlanarI16 => 6,
            SampleFormat::PlanarI32 => 7,
            SampleFormat::PlanarF32 => 8,
            SampleFormat::PlanarF64 => 9,
            SampleFormat::PackedI64 => 10,
            SampleFormat::PlanarI64 => 11,
        }
    }

    /// The sample format with the given native number. There is none for the
    /// native "no format" and "number of formats" values, nor for any other
    /// number outside the table.
    pub fn from_av_sample(code: i32) -> (format: Option<SampleFormat>)
        ensures
            format == Self::spec_from_av_sample(code as int),
            format is Some <==> 0 <= code <= 11,
            format matches Some(f) ==> f.spec_av_sample() == code,
    {
        match code {
            0 => Some(SampleFormat::PackedU8),
            1 => Some(SampleFormat::PackedI16),
            2 => Some(SampleFormat::PackedI32),
            3 => Some(SampleFormat::PackedF32),
            4 => Some(SampleFormat::PackedF64),
            5 => Some(SampleFormat::PlanarU8),
            6 => Some(SampleFormat::PlanarI16),
            7 => Some(SampleFormat::PlanarI32),
            8 => Some(SampleFormat::PlanarF32),
            9 => Some(SampleFormat::PlanarF64),
            10 => Some(SampleFormat::PackedI64),
            11 => Some(SampleFormat::PlanarI64),
            _ => None,
        }
    }

    /// The name of the sample format, as the native layer reads it in an option.
    pub fn format_name(&self) -> (name: &'static str)
        ensures
            name@ == self.spec_format_name(),
    {
        match self {
            SampleFormat::PackedU8 => "u8",
            SampleFormat::PackedI16 => "s16",
            SampleFormat::PackedI32 => "s32",
            SampleFormat::PackedF32 => "flt",
            SampleFormat::PackedF64 => "dbl",
            SampleFormat::PlanarU8 => "u8p",
            SampleFormat::PlanarI16 => "s16p",
            SampleFormat::PlanarI32 => "s32p",
            SampleFormat::PlanarF32 => "fltp",
            SampleFormat::PlanarF64 => "dblp",
            SampleFormat::PackedI64 => "s64",
            SampleFormat::PlanarI64 => "s64p",
        }
    }
}

/// Two sample formats never share a native number.
pub proof fn lemma_sample_format_injective(a: SampleFormat, b: SampleFormat)
    ensures
        a.spec_av_sample() == b.spec_av_sample() ==> a == b,
{
}

/// No name of a sample format holds a NUL.
pub proof fn lemma_sample_format_name_nul_free(format: SampleFormat)
    ensures
        !format.spec_format_name().contains('\0'),
{
    reveal_strlit("u8");
    reveal_strlit("s16");
    reveal_strlit("s32");
    reveal_strlit("flt");
    reveal_strlit("dbl");
    reveal_strlit("u8p");
    reveal_strlit("s16p");
    reveal_strlit("s32p");
    reveal_strlit("fltp");
    reveal_strlit("dblp");
    reveal_strlit("s64");
    reveal_strlit("s64p");
}

} // verus!
