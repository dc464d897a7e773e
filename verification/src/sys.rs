//! Numeric conventions of the native error interface.
//!
//! The native libraries report failure as a negative `int`. A POSIX `errno`
//! value is negated; a library specific error is the negated four character
//! tag packed little-endian into 32 bits.

use vstd::prelude::*;

verus! {

/// `EAGAIN` of the platforms this binding supports.
pub const EAGAIN: i32 = 11;

/// End of file.
pub const AVERROR_EOF: i32 = -541478725;

/// Internal bug of the native library.
pub const AVERROR_BUG: i32 = -558323010;

/// Buffer too small.
pub const AVERROR_BUFFER_TOO_SMALL: i32 = -1397118274;

/// Decoder not found.
pub const AVERROR_DECODER_NOT_FOUND: i32 = -1128613112;

/// Demuxer not found.
pub const AVERROR_DEMUXER_NOT_FOUND: i32 = -1296385272;

/// Encoder not found.
pub const AVERROR_ENCODER_NOT_FOUND: i32 = -1129203192;

/// Immediate exit was requested.
pub const AVERROR_EXIT: i32 = -1414092869;

/// Generic error in an external library.
pub const AVERROR_EXTERNAL: i32 = -542398533;

/// Filter not found.
pub const AVERROR_FILTER_NOT_FOUND: i32 = -1279870712;

/// Invalid data found when processing input.
pub const AVERROR_INVALIDDATA: i32 = -1094995529;

/// Muxer not found.
pub const AVERROR_MUXER_NOT_FOUND: i32 = -1481985528;

/// Option not found.
pub const AVERROR_OPTION_NOT_FOUND: i32 = -1414549496;

/// Not yet implemented in the native library.
pub const AVERROR_PATCHWELCOME: i32 = -1163346256;

/// Protocol not found.
pub const AVERROR_PROTOCOL_NOT_FOUND: i32 = -1330794744;

/// Bitstream filter not found.
pub const AVERROR_BSF_NOT_FOUND: i32 = -1179861752;

/// Stream not found.
pub const AVERROR_STREAM_NOT_FOUND: i32 = -1381258232;

/// The native error code of a POSIX error number: its negated magnitude.
pub open spec fn spec_av_err(err: int) -> int {
    if err >= 0 {
        -err
    } else {
        err
    }
}

/// The 32 bits that hold the code points of `a`, `b`, `c`, `d`, each shifted
/// up by one byte more than the one before and all joined by a bitwise or.
/// Bits that are shifted beyond the highest are lost.
pub open spec fn spec_tag_bits(a: char, b: char, c: char, d: char) -> u32 {
    (a as u32) | ((b as u32) << 8) | ((c as u32) << 16) | ((d as u32) << 24)
}

/// The tag of the four characters `a`, `b`, `c`, `d`: its 32 bits read as a
/// signed number.
pub open spec fn spec_mk_tag(a: char, b: char, c: char, d: char) -> int {
    let bits = spec_tag_bits(a, b, c, d);
    if bits < 0x8000_0000 {
        bits as int
    } else {
        bits - 0x1_0000_0000
    }
}

/// The library specific error code whose tag is `a`, `b`, `c`, `d`.
pub open spec fn spec_ffaverr(a: char, b: char, c: char, d: char) -> int {
    -spec_mk_tag(a, b, c, d)
}

/// Turns a POSIX error number, of either sign, into the code the native
/// libraries return for it.
pub fn av_err(err: i32) -> (code: i32)
    ensures
        code == spec_av_err(err as int),
        code <= 0,
{
    if err > 0 {
        -err
    } else {
        err
    }
}

/// Packs four characters into a tag, the first in the lowest byte.
///
/// Characters beyond one byte run into the bytes above them, and what goes
/// beyond 32 bits is lost.
pub fn mk_tag(a: char, b: char, c: char, d: char) -> (tag: i32)
    ensures
        tag == spec_mk_tag(a, b, c, d),
{
    let bits: u32 = (a as u32) | ((b as u32) << 8) | ((c as u32) << 16) | ((d as u32) << 24);
    if bits < 0x8000_0000 {
        bits as i32
    } else {
        (bits - 0x8000_0000) as i32 + i32::MIN
    }
}

/// The error code for a four character tag: the tag negated. The one tag
/// that has no negation in 32 bits is left out.
pub fn ffaverr(a: char, b: char, c: char, d: char) -> (code: i32)
    requires
        spec_mk_tag(a, b, c, d) != i32::MIN,
    ensures
        code == spec_ffaverr(a, b, c, d),
{
    -mk_tag(a, b, c, d)
}

/// A tag of four characters of one byte each, the last below `0x80`, is the
/// sum of the four with each weighted by its place, and is not negative.
pub proof fn lemma_tag_of_bytes(a: char, b: char, c: char, d: char)
    requires
        (a as u32) < 0x100,
        (b as u32) < 0x100,
        (c as u32) < 0x100,
        (d as u32) < 0x80,
    ensures
        spec_mk_tag(a, b, c, d) == (a as u32) + (b as u32) * 0x100 + (c as u32) * 0x1_0000 + (
        d as u32) * 0x100_0000,
        spec_mk_tag(a, b, c, d) >= 0,
{
    let a = a as u32;
    let b = b as u32;
    let c = c as u32;
    let d = d as u32;
    assert((a | (b << 8) | (c << 16) | (d << 24)) == a + b * 0x100 + c * 0x1_0000 + d * 0x100_0000
        && (a | (b << 8) | (c << 16) | (d << 24)) < 0x8000_0000) by (bit_vector)
        requires
            a < 0x100,
            b < 0x100,
            c < 0x100,
            d < 0x80,
    ;
}

/// The named error codes are the tags that the native headers assign them.
pub proof fn lemma_error_codes()
    ensures
        AVERROR_EOF == spec_ffaverr('E', 'O', 'F', ' '),
        AVERROR_BUG == spec_ffaverr('B', 'U', 'G', '!'),
        AVERROR_BUFFER_TOO_SMALL == spec_ffaverr('B', 'U', 'F', 'S'),
        AVERROR_DECODER_NOT_FOUND == spec_ffaverr('\u{f8}', 'D', 'E', 'C'),
        AVERROR_DEMUXER_NOT_FOUND == spec_ffaverr('\u{f8}', 'D', 'E', 'M'),
        AVERROR_ENCODER_NOT_FOUND == spec_ffaverr('\u{f8}', 'E', 'N', 'C'),
        AVERROR_EXIT == spec_ffaverr('E', 'X', 'I', 'T'),
        AVERROR_EXTERNAL == spec_ffaverr('E', 'X', 'T', ' '),
        AVERROR_FILTER_NOT_FOUND == spec_ffaverr('\u{f8}', 'F', 'I', 'L'),
        AVERROR_INVALIDDATA == spec_ffaverr('I', 'N', 'D', 'A'),
        AVERROR_MUXER_NOT_FOUND == spec_ffaverr('\u{f8}', 'M', 'U', 'X'),
        AVERROR_OPTION_NOT_FOUND == spec_ffaverr('\u{f8}', 'O', 'P', 'T'),
        AVERROR_PATCHWELCOME == spec_ffaverr('P', 'A', 'W', 'E'),
        AVERROR_PROTOCOL_NOT_FOUND == spec_ffaverr('\u{f8}', 'P', 'R', 'O'),
        AVERROR_BSF_NOT_FOUND == spec_ffaverr('\u{f8}', 'B', 'S', 'F'),
        AVERROR_STREAM_NOT_FOUND == spec_ffaverr('\u{f8}', 'S', 'T', 'R'),
{
    lemma_tag_of_bytes('E', 'O', 'F', ' ');
    lemma_tag_of_bytes('B', 'U', 'G', '!');
    lemma_tag_of_bytes('B', 'U', 'F', 'S');
    lemma_tag_of_bytes('\u{f8}', 'D', 'E', 'C');
    lemma_tag_of_bytes('\u{f8}', 'D', 'E', 'M');
    lemma_tag_of_bytes('\u{f8}', 'E', 'N', 'C');
    lemma_tag_of_bytes('E', 'X', 'I', 'T');
    lemma_tag_of_bytes('E', 'X', 'T', ' ');
    lemma_tag_of_bytes('\u{f8}', 'F', 'I', 'L');
    lemma_tag_of_bytes('I', 'N', 'D', 'A');
    lemma_tag_of_bytes('\u{f8}', 'M', 'U', 'X');
    lemma_tag_of_bytes('\u{f8}', 'O', 'P', 'T');
    lemma_tag_of_bytes('P', 'A', 'W', 'E');
    lemma_tag_of_bytes('\u{f8}', 'P', 'R', 'O');
    lemma_tag_of_bytes('\u{f8}', 'B', 'S', 'F');
    lemma_tag_of_bytes('\u{f8}', 'S', 'T', 'R');
}

} // verus!
