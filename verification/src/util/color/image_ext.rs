//! Turning decoded pictures into image buffers.

use vstd::prelude::*;
use crate::raw::frame::{Frame, FrameView, Plane, PlaneView};
use crate::tags::Video;
use crate::util::pixels::PixelFormat;

verus! {

/// An image of 8 bit RGB pixels, row after row without padding. It holds an
/// `image::RgbImage`, whose fields the verifier does not look into.
#[verifier::external_body]
pub struct RgbImage {
    inner: image::RgbImage,
}

/// The bytes of an RGB image: three for each pixel, row after row.
pub uninterp spec fn rgb_image_raw(image: RgbImage) -> Seq<u8>;

/// The width and the height of an RGB image in pixels.
pub uninterp spec fn rgb_image_dimensions(image: RgbImage) -> (u32, u32);

/// Makes an image out of a buffer of bytes. Trusted:
/// `image::RgbImage::from_vec` keeps the buffer and the dimensions as they are
/// given, and gives nothing exactly if the buffer has fewer than three bytes
/// for each pixel.
#[verifier::external_body]
fn image_from_vec(width: u32, height: u32, pixels: Vec<u8>) -> (image: Option<RgbImage>)
    ensures
        image is Some <==> 3 * width * height <= pixels@.len(),
        image matches Some(i) ==> rgb_image_raw(i) == pixels@ && rgb_image_dimensions(i) == (
            width,
            height,
        ),
{
    match image::RgbImage::from_vec(width, height, pixels) {
        Some(inner) => Some(RgbImage { inner }),
        None => None,
    }
}

/// Takes an image apart. Trusted: `image::RgbImage::into_raw` gives back the
/// buffer that the image holds.
#[verifier::external_body]
fn image_into_raw(image: RgbImage) -> (pixels: Vec<u8>)
    ensures
        pixels@ == rgb_image_raw(image),
{
    image.inner.into_raw()
}

/// The size of an image. Trusted: `image::RgbImage::dimensions` gives the
/// width and the height that the image was made with.
#[verifier::external_body]
fn image_dimensions(image: &RgbImage) -> (size: (u32, u32))
    ensures
        size == rgb_image_dimensions(*image),
{
    image.inner.dimensions()
}

impl RgbImage {
    /// An image of the given size over the given bytes, if there are at
    /// least three bytes for each pixel.
    pub fn from_vec(width: u32, height: u32, pixels: Vec<u8>) -> (image: Option<RgbImage>)
        ensures
            image is Some <==> 3 * width * height <= pixels@.len(),
            image matches Some(i) ==> rgb_image_raw(i) == pixels@ && rgb_image_dimensions(i) == (
                width,
                height,
            ),
    {
        image_from_vec(width, height, pixels)
    }

    /// The bytes of the image.
    pub fn into_raw(self) -> (pixels: Vec<u8>)
        ensures
            pixels@ == rgb_image_raw(self),
    {
        image_into_raw(self)
    }

    /// The width and the height of the image.
    pub fn dimensions(&self) -> (size: (u32, u32))
        ensures
            size == rgb_image_dimensions(*self),
    {
        image_dimensions(self)
    }
}

/// The first `row` bytes of each of the first `lines` lines of a plane, one
/// line after the other.
pub open spec fn spec_packed_rows(data: Seq<u8>, linesize: nat, row: nat, lines: nat) -> Seq<u8>
    decreases lines,
{
    if lines == 0 {
        Seq::empty()
    } else {
        spec_packed_rows(data, linesize, row, (lines - 1) as nat) + data.subrange(
            (lines - 1) * linesize,
            (lines - 1) * linesize + row,
        )
    }
}

/// The number of bytes of one line of a plane that belong to whole RGB
/// pixels of a picture of the given width.
pub open spec fn spec_rgb_row(linesize: nat, width: nat) -> nat {
    if width <= linesize / 3 {
        3 * width
    } else {
        3 * (linesize / 3)
    }
}

/// The bytes of the RGB pixels of a plane: of every complete line the pixels
/// of the picture, without the padding at the end of the line.
pub open spec fn spec_rgb_pixels(plane: PlaneView, width: u32) -> Seq<u8> {
    spec_packed_rows(
        plane.data,
        plane.linesize as nat,
        spec_rgb_row(plane.linesize as nat, width as nat),
        plane.data.len() / plane.linesize as nat,
    )
}

/// Copies the RGB pixels out of a plane, leaving out the padding of each
/// line.
pub fn rgb_pixels(plane: &Plane, width: u32) -> (pixels: Vec<u8>)
    requires
        plane@.linesize > 0,
    ensures
        pixels@ == spec_rgb_pixels(plane@, width),
{
    let linesize = plane.linesize;
    let per_line = linesize / 3;
    let row: usize = if width as usize <= per_line {
        3 * (width as usize)
    } else {
        3 * per_line
    };
    let data = plane.bytes();
    let mut pixels: Vec<u8> = Vec::new();
    let mut base: usize = 0;
    let ghost mut line: nat = 0;
    while data.len() - base >= linesize
        invariant
            linesize > 0,
            row <= linesize,
            base <= data@.len(),
            base == line * linesize,
            pixels@ == spec_packed_rows(data@, linesize as nat, row as nat, line),
        decreases data@.len() - base,
    {
        let ghost before = pixels@;
        let mut offset: usize = 0;
        while offset < row
            invariant
                offset <= row <= linesize,
                base + linesize <= data.len(),
                pixels@ == before + data@.subrange(base as int, base + offset),
            decreases row - offset,
        {
            pixels.push(data[base + offset]);
            assert(data@.subrange(base as int, base + offset).push(data@[base + offset])
                =~= data@.subrange(base as int, base + offset + 1));
            assert(pixels@ =~= before + data@.subrange(base as int, base + offset + 1));
            offset += 1;
        }
        proof {
            assert((line + 1) * linesize == base + linesize) by (nonlinear_arith)
                requires
                    base == line * linesize,
            ;
            assert(spec_packed_rows(data@, linesize as nat, row as nat, line + 1) == before
                + data@.subrange(base as int, base + row));
            line = line + 1;
        }
        base += linesize;
    }
    proof {
        let len = data@.len();
        assert(line == len / linesize as nat) by (nonlinear_arith)
            requires
                base == line * linesize,
                base <= len,
                len - base < linesize,
                linesize > 0,
        ;
    }
    pixels
}

/// An image type that a decoded picture can be turned into.
pub trait ImageFormat: Sized {
    /// The pixel format that a picture has to be in.
    spec fn spec_format() -> PixelFormat;

    /// What the image made from a picture is; nothing if the picture does
    /// not hold enough data for its size.
    spec fn spec_from_frame(frame: FrameView, image: Option<Self>) -> bool;

    /// The pixel format that a picture has to be in.
    fn format() -> (format: PixelFormat)
        ensures
            format == Self::spec_format(),
    ;

    /// The image of a decoded picture.
    fn from_frame(frame: &Frame<Video>) -> (image: Option<Self>)
        ensures
            Self::spec_from_frame(frame@, image),
    ;
}

impl ImageFormat for RgbImage {
    open spec fn spec_format() -> PixelFormat {
        PixelFormat::RGB24
    }

    /// The image has the size of the picture and holds the pixels of its
    /// first plane. There is none if the lines of the plane have no length
    /// or the plane holds fewer pixels than the size calls for.
    open spec fn spec_from_frame(frame: FrameView, image: Option<Self>) -> bool {
        let plane = frame.planes[0];
        let pixels = spec_rgb_pixels(plane, frame.width);
        &&& image is Some <==> plane.linesize > 0 && 3 * frame.width * frame.height <= pixels.len()
        &&& image matches Some(i) ==> rgb_image_raw(i) == pixels && rgb_image_dimensions(i) == (
            frame.width,
            frame.height,
        )
    }

    fn format() -> (format: PixelFormat) {
        PixelFormat::RGB24
    }

    fn from_frame(frame: &Frame<Video>) -> (image: Option<Self>) {
        let plane = frame.plane(0);
        if plane.linesize == 0 {
            return None;
        }
        let pixels = rgb_pixels(plane, frame.width());
        RgbImage::from_vec(frame.width(), frame.height(), pixels)
    }
}

} // verus!
