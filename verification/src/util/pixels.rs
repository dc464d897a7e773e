//! The layouts in which the pixels of a decoded video frame are stored.

use vstd::prelude::*;

verus! {

/// The layout of the pixels of a decoded video frame.
#[derive(Debug, Clone, Copy, PartialEq, Eq, Structural, PartialOrd, Ord, Hash)]
pub enum PixelFormat {
    /// No pixel format is specified
    NONE,
    /// Planar YUV 4:2:0, 12bpp, (1 Cr & Cb sample per 2x2 Y samples)
    YUV420P,
    /// Planar YUV 4:2:0, 12bpp, 1 plane for Y and 1 plane for the UV components, which are interleaved (first byte U and the following byte V)
    NV12,
    /// As above, but U and V bytes are swapped
    NV21,
    /// Planar YUV 4:2:2, 16bpp, (1 Cr & Cb sample per 2x1 Y samples)
    YUV422P,
    /// Planar YUV 4:4:4, 24bpp, (1 Cr & Cb sample per 1x1 Y samples)
    YUV444P,
    /// Planar YUV 4:1:0, 9bpp, (1 Cr & Cb sample per 4x4 Y samples)
    YUV410P,
    /// Planar YUV 4:1:1, 12bpp, (1 Cr & Cb sample per 4x1 Y samples)
    YUV411P,
    /// 8 bits with RGB32 palette
    PAL8,
    /// Planar YUV 4:2:0, 12bpp, full scale (JPEG), deprecated in favor of YUV420P and setting color_range
    YUVJ420P,
    /// Planar YUV 4:2:2, 16bpp, full scale (JPEG), deprecated in favor of YUV422P and setting color_range
    YUVJ422P,
    /// Planar YUV 4:4:4, 24bpp, full scale (JPEG), deprecated in favor of YUV444P and setting color_range
    YUVJ444P,
    /// Packed YUV 4:2:2, 16bpp, Cb Y0 Cr Y1
    UYVY422,
    /// Packed YUV 4:1:1, 12bpp, Cb Y0 Y1 Cr Y2 Y3
    UYYVYY411,
    /// Packed RGB 3:3:2, 8bpp, (msb)2B 3G 3R(lsb)
    BGR8,
    /// Packed RGB 1:2:1 bitstream, 4bpp, (msb)1B 2G 1R(lsb), a byte contains two pixels, the first pixel in the byte is the one composed by the 4 msb bits
    BGR4,
    /// Packed RGB 1:2:1, 8bpp, (msb)1B 2G 1R(lsb)
    BGR4Byte,
    /// Packed RGB 3:3:2, 8bpp, (msb)2R 3G 3B(lsb)
    RGB8,
    /// Packed RGB 1:2:1 bitstream, 4bpp, (msb)1R 2G 1B(lsb), a byte contains two pixels, the first pixel in the byte is the one composed by the 4 msb bits
    RGB4,
    /// Packed RGB 1:2:1, 8bpp, (msb)1R 2G 1B(lsb)
    RGB4Byte,
    /// Packed YUV 4:2:2, 16bpp, Y0 Cb Y1 Cr
    YUYV422,
    /// Packed RGB 8:8:8, 24bpp, RGBRGB...
    RGB24,
    /// Packed RGB 8:8:8, 24bpp, BGRBGR...
    BGR24,
    /// Y , 8bpp
    GRAY8,
    /// Y , 1bpp, 0 is white, 1 is black, in each byte pixels are ordered from the msb to the lsb
    MONOWHITE,
    /// Y , 1bpp, 0 is black, 1 is white, in each byte pixels are ordered from the msb to the lsb
    MONOBLACK,
    /// Packed ARGB 8:8:8:8, 32bpp, ARGBARGB...
    ARGB,
    /// Packed RGBA 8:8:8:8, 32bpp, RGBARGBA...
    RGBA,
    /// Packed ABGR 8:8:8:8, 32bpp, ABGRABGR...
    ABGR,
    /// Packed BGRA 8:8:8:8, 32bpp, BGRABGRA...
    BGRA,
    /// Y , 16bpp, big-endian
    GRAY16BE,
    /// Y , 16bpp, little-endian
    GRAY16LE,
    /// Planar YUV 4:4:0 (1 Cr & Cb sample per 1x2 Y samples)
    YUV440P,
    /// Planar YUV 4:4:0 full scale (JPEG), deprecated in favor of YUV440P and setting color_range
    YUVJ440P,
    /// Planar YUV 4:2:0, 20bpp, (1 Cr & Cb sample per 2x2 Y & A samples)
    YUVA420P,
    /// Packed RGB 16:16:16, 48bpp, 16R, 16G, 16B, the 2-byte value for each R/G/B component is stored as big-endian
    RGB48BE,
    /// Packed RGB 16:16:16, 48bpp, 16R, 16G, 16B, the 2-byte value for each R/G/B component is stored as little-endian
    RGB48LE,
    /// Packed RGB 5:6:5, 16bpp, (msb) 5R 6G 5B(lsb), big-endian
    RGB565BE,
    /// Packed RGB 5:6:5, 16bpp, (msb) 5R 6G 5B(lsb), little-endian
    RGB565LE,
    /// Packed RGB 5:5:5, 16bpp, (msb)1X 5R 5G 5B(lsb), big-endian , X=unused/undefined
    RGB555BE,
    /// Packed RGB 5:5:5, 16bpp, (msb)1X 5R 5G 5B(lsb), little-endian, X=unused/undefined
    RGB555LE,
    /// Packed BGR 5:6:5, 16bpp, (msb) 5B 6G 5R(lsb), big-endian
    BGR565BE,
    /// Packed BGR 5:6:5, 16bpp, (msb) 5B 6G 5R(lsb), little-endian
    BGR565LE,
    /// Packed BGR 5:5:5, 16bpp, (msb)1X 5B 5G 5R(lsb), big-endian , X=unused/undefined
    BGR555BE,
    /// Packed BGR 5:5:5, 16bpp, (msb)1X 5B 5G 5R(lsb), little-endian, X=unused/undefined
    BGR555LE,
}

impl PixelFormat {
    /// The number that the native libraries use for this pixel format.
    pub open spec fn spec_av_pixel_format(self) -> int {
        match self {
            PixelFormat::NONE => -1,
            PixelFormat::YUV420P => 0,
            PixelFormat::NV12 => 23,
            PixelFormat::NV21 => 24,
            PixelFormat::YUV422P => 4,
            PixelFormat::YUV444P => 5,
            PixelFormat::YUV410P => 6,
            PixelFormat::YUV411P => 7,
            PixelFormat::PAL8 => 11,
            PixelFormat::YUVJ420P => 12,
            PixelFormat::YUVJ422P => 13,
            PixelFormat::YUVJ444P => 14,
            PixelFormat::UYVY422 => 15,
            PixelFormat::UYYVYY411 => 16,
            PixelFormat::BGR8 => 17,
            PixelFormat::BGR4 => 18,
            PixelFormat::BGR4Byte => 19,
            PixelFormat::RGB8 => 20,
            PixelFormat::RGB4 => 21,
            PixelFormat::RGB4Byte => 22,
            PixelFormat::YUYV422 => 1,
            PixelFormat::RGB24 => 2,
            PixelFormat::BGR24 => 3,
            PixelFormat::GRAY8 => 8,
            PixelFormat::MONOWHITE => 9,
            PixelFormat::MONOBLACK => 10,
            PixelFormat::ARGB => 25,
            PixelFormat::RGBA => 26,
            PixelFormat::ABGR => 27,
            PixelFormat::BGRA => 28,
            PixelFormat::GRAY16BE => 29,
            PixelFormat::GRAY16LE => 30,
            PixelFormat::YUV440P => 31,
            PixelFormat::YUVJ440P => 32,
            PixelFormat::YUVA420P => 33,
            PixelFormat::RGB48BE => 34,
            PixelFormat::RGB48LE => 35,
            PixelFormat::RGB565BE => 36,
            PixelFormat::RGB565LE => 37,
            PixelFormat::RGB555BE => 38,
            PixelFormat::RGB555LE => 39,
            PixelFormat::BGR565BE => 40,
            PixelFormat::BGR565LE => 41,
            PixelFormat::BGR555BE => 42,
            PixelFormat::BGR555LE => 43,
        }
    }

    /// The name that the native libraries use for this pixel format. The
    /// format that stands for "none" has no name there and is written `none`.
    pub open spec fn spec_format_name(self) -> Seq<char> {
        match self {
            PixelFormat::NONE => "none"@,
            PixelFormat::YUV420P => "yuv420p"@,
            PixelFormat::NV12 => "nv12"@,
            PixelFormat::NV21 => "nv21"@,
            PixelFormat::YUV422P => "yuv422p"@,
            PixelFormat::YUV444P => "yuv444p"@,
            PixelFormat::YUV410P => "yuv410p"@,
            PixelFormat::YUV411P => "yuv411p"@,
            PixelFormat::PAL8 => "pal8"@,
            PixelFormat::YUVJ420P => "yuvj420p"@,
            PixelFormat::YUVJ422P => "yuvj422p"@,
            PixelFormat::YUVJ444P => "yuvj444p"@,
            PixelFormat::UYVY422 => "uyvy422"@,
            PixelFormat::UYYVYY411 => "uyyvyy411"@,
            PixelFormat::BGR8 => "bgr8"@,
            PixelFormat::BGR4 => "bgr4"@,
            PixelFormat::BGR4Byte => "bgr4_byte"@,
            PixelFormat::RGB8 => "rgb8"@,
            PixelFormat::RGB4 => "rgb4"@,
            PixelFormat::RGB4Byte => "rgb4_byte"@,
            PixelFormat::YUYV422 => "yuyv422"@,
            PixelFormat::RGB24 => "rgb24"@,
            PixelFormat::BGR24 => "bgr24"@,
            PixelFormat::GRAY8 => "gray"@,
            PixelFormat::MONOWHITE => "monow"@,
            PixelFormat::MONOBLACK => "monob"@,
            PixelFormat::ARGB => "argb"@,
            PixelFormat::RGBA => "rgba"@,
            PixelFormat::ABGR => "abgr"@,
            PixelFormat::BGRA => "bgra"@,
            PixelFormat::GRAY16BE => "gray16be"@,
            PixelFormat::GRAY16LE => "gray16le"@,
            PixelFormat::YUV440P => "yuv440p"@,
            PixelFormat::YUVJ440P => "yuvj440p"@,
            PixelFormat::YUVA420P => "yuva420p"@,
            PixelFormat::RGB48BE => "rgb48be"@,
            PixelFormat::RGB48LE => "rgb48le"@,
            PixelFormat::RGB565BE => "rgb565be"@,
            PixelFormat::RGB565LE => "rgb565le"@,
            PixelFormat::RGB555BE => "rgb555be"@,
            PixelFormat::RGB555LE => "rgb555le"@,
            PixelFormat::BGR565BE => "bgr565be"@,
            PixelFormat::BGR565LE => "bgr565le"@,
            PixelFormat::BGR555BE => "bgr555be"@,
            PixelFormat::BGR555LE => "bgr555le"@,
        }
    }

    /// The pixel format with the given native number, if there is one.
    pub open spec fn spec_from_av_pixel_format(code: int) -> Option<PixelFormat> {
        if code == -1 {
            Some(PixelFormat::NONE)
        } else if code == 0 {
            Some(PixelFormat::YUV420P)
        } else if code == 1 {
            Some(PixelFormat::YUYV422)
        } else if code == 2 {
            Some(PixelFormat::RGB24)
        } else if code == 3 {
            Some(PixelFormat::BGR24)
        } else if code == 4 {
            Some(PixelFormat::YUV422P)
        } else if code == 5 {
            Some(PixelFormat::YUV444P)
        } else if code == 6 {
            Some(PixelFormat::YUV410P)
        } else if code == 7 {
            Some(PixelFormat::YUV411P)
        } else if code == 8 {
            Some(PixelFormat::GRAY8)
        } else if code == 9 {
            Some(PixelFormat::MONOWHITE)
        } else if code == 10 {
            Some(PixelFormat::MONOBLACK)
        } else if code == 11 {
            Some(PixelFormat::PAL8)
        } else if code == 12 {
            Some(PixelFormat::YUVJ420P)
        } else if code == 13 {
            Some(PixelFormat::YUVJ422P)
        } else if code == 14 {
            Some(PixelFormat::YUVJ444P)
        } else if code == 15 {
            Some(PixelFormat::UYVY422)
        } else if code == 16 {
            Some(PixelFormat::UYYVYY411)
        } else if code == 17 {
            Some(PixelFormat::BGR8)
        } else if code == 18 {
            Some(PixelFormat::BGR4)
        } else if code == 19 {
            Some(PixelFormat::BGR4Byte)
        } else if code == 20 {
            Some(PixelFormat::RGB8)
        } else if code == 21 {
            Some(PixelFormat::RGB4)
        } else if code == 22 {
            Some(PixelFormat::RGB4Byte)
        } else if code == 23 {
            Some(PixelFormat::NV12)
        } else if code == 24 {
            Some(PixelFormat::NV21)
        } else if code == 25 {
            Some(PixelFormat::ARGB)
        } else if code == 26 {
            Some(PixelFormat::RGBA)
        } else if code == 27 {
            Some(PixelFormat::ABGR)
        } else if code == 28 {
            Some(PixelFormat::BGRA)
        } else if code == 29 {
            Some(PixelFormat::GRAY16BE)
        } else if code == 30 {
            Some(PixelFormat::GRAY16LE)
        } else if code == 31 {
            Some(PixelFormat::YUV440P)
        } else if code == 32 {
            Some(PixelFormat::YUVJ440P)
        } else if code == 33 {
            Some(PixelFormat::YUVA420P)
        } else if code == 34 {
            Some(PixelFormat::RGB48BE)
        } else if code == 35 {
            Some(PixelFormat::RGB48LE)
        } else if code == 36 {
            Some(PixelFormat::RGB565BE)
        } else if code == 37 {
            Some(PixelFormat::RGB565LE)
        } else if code == 38 {
            Some(PixelFormat::RGB555BE)
        } else if code == 39 {
            Some(PixelFormat::RGB555LE)
        } else if code == 40 {
            Some(PixelFormat::BGR565BE)
        } else if code == 41 {
            Some(PixelFormat::BGR565LE)
        } else if code == 42 {
            Some(PixelFormat::BGR555BE)
        } else if code == 43 {
            Some(PixelFormat::BGR555LE)
        } else {
            None
        }
    }

    /// Converts to the number that the native libraries use.
    pub fn as_av_pixel_format(self) -> (code: i32)
        ensures
            code == self.spec_av_pixel_format(),
            -1 <= code <= 43,
    {
        match self {
            PixelFormat::NONE => -1,
            PixelFormat::YUV420P => 0,
            PixelFormat::NV12 => 23,
            PixelFormat::NV21 => 24,
            PixelFormat::YUV422P => 4,
            PixelFormat::YUV444P => 5,
            PixelFormat::YUV410P => 6,
            PixelFormat::YUV411P => 7,
            PixelFormat::PAL8 => 11,
            PixelFormat::YUVJ420P => 12,
            PixelFormat::YUVJ422P => 13,
            PixelFormat::YUVJ444P => 14,
            PixelFormat::UYVY422 => 15,
            PixelFormat::UYYVYY411 => 16,
            PixelFormat::BGR8 => 17,
            PixelFormat::BGR4 => 18,
            PixelFormat::BGR4Byte => 19,
            PixelFormat::RGB8 => 20,
            PixelFormat::RGB4 => 21,
            PixelFormat::RGB4Byte => 22,
            PixelFormat::YUYV422 => 1,
            PixelFormat::RGB24 => 2,
            PixelFormat::BGR24 => 3,
            PixelFormat::GRAY8 => 8,
            PixelFormat::MONOWHITE => 9,
            PixelFormat::MONOBLACK => 10,
            PixelFormat::ARGB => 25,
            PixelFormat::RGBA => 26,
            PixelFormat::ABGR => 27,
            PixelFormat::BGRA => 28,
            PixelFormat::GRAY16BE => 29,
            PixelFormat::GRAY16LE => 30,
            PixelFormat::YUV440P => 31,
            PixelFormat::YUVJ440P => 32,
            PixelFormat::YUVA420P => 33,
            PixelFormat::RGB48BE => 34,
            PixelFormat::RGB48LE => 35,
            PixelFormat::RGB565BE => 36,
            PixelFormat::RGB565LE => 37,
            PixelFormat::RGB555BE => 38,
            PixelFormat::RGB555LE => 39,
            PixelFormat::BGR565BE => 40,
            PixelFormat::BGR565LE => 41,
            PixelFormat::BGR555BE => 42,
            PixelFormat::BGR555LE => 43,
        }
    }

    /// The pixel format with the given native number. There is none for a
    /// number that this binding does not know.
    pub fn from_av_pixel_format(code: i32) -> (format: Option<PixelFormat>)
        ensures
            format == Self::spec_from_av_pixel_format(code as int),
            format is Some <==> -1 <= code <= 43,
            format matches Some(f) ==> f.spec_av_pixel_format() == code,
    {
        match code {
            -1 => Some(PixelFormat::NONE),
            0 => Some(PixelFormat::YUV420P),
            1 => Some(PixelFormat::YUYV422),
            2 => Some(PixelFormat::RGB24),
            3 => Some(PixelFormat::BGR24),
            4 => Some(PixelFormat::YUV422P),
            5 => Some(PixelFormat::YUV444P),
            6 => Some(PixelFormat::YUV410P),
            7 => Some(PixelFormat::YUV411P),
            8 => Some(PixelFormat::GRAY8),
            9 => Some(PixelFormat::MONOWHITE),
            10 => Some(PixelFormat::MONOBLACK),
            11 => Some(PixelFormat::PAL8),
            12 => Some(PixelFormat::YUVJ420P),
            13 => Some(PixelFormat::YUVJ422P),
            14 => Some(PixelFormat::YUVJ444P),
            15 => Some(PixelFormat::UYVY422),
            16 => Some(PixelFormat::UYYVYY411),
            17 => Some(PixelFormat::BGR8),
            18 => Some(PixelFormat::BGR4),
            19 => Some(PixelFormat::BGR4Byte),
            20 => Some(PixelFormat::RGB8),
            21 => Some(PixelFormat::RGB4),
            22 => Some(PixelFormat::RGB4Byte),
            23 => Some(PixelFormat::NV12),
            24 => Some(PixelFormat::NV21),
            25 => Some(PixelFormat::ARGB),
            26 => Some(PixelFormat::RGBA),
            27 => Some(PixelFormat::ABGR),
            28 => Some(PixelFormat::BGRA),
            29 => Some(PixelFormat::GRAY16BE),
            30 => Some(PixelFormat::GRAY16LE),
            31 => Some(PixelFormat::YUV440P),
            32 => Some(PixelFormat::YUVJ440P),
            33 => Some(PixelFormat::YUVA420P),
            34 => Some(PixelFormat::RGB48BE),
            35 => Some(PixelFormat::RGB48LE),
            36 => Some(PixelFormat::RGB565BE),
            37 => Some(PixelFormat::RGB565LE),
            38 => Some(PixelFormat::RGB555BE),
            39 => Some(PixelFormat::RGB555LE),
            40 => Some(PixelFormat::BGR565BE),
            41 => Some(PixelFormat::BGR565LE),
            42 => Some(PixelFormat::BGR555BE),
            43 => Some(PixelFormat::BGR555LE),
            _ => None,
        }
    }

    /// The name of the pixel format, as the native layer reads it in an option.
    pub fn format_name(self) -> (name: &'static str)
        ensures
            name@ == self.spec_format_name(),
    {
        match self {
            PixelFormat::NONE => "none",
            PixelFormat::YUV420P => "yuv420p",
            PixelFormat::NV12 => "nv12",
            PixelFormat::NV21 => "nv21",
            PixelFormat::YUV422P => "yuv422p",
            PixelFormat::YUV444P => "yuv444p",
            PixelFormat::YUV410P => "yuv410p",
            PixelFormat::YUV411P => "yuv411p",
            PixelFormat::PAL8 => "pal8",
            PixelFormat::YUVJ420P => "yuvj420p",
            PixelFormat::YUVJ422P => "yuvj422p",
            PixelFormat::YUVJ444P => "yuvj444p",
            PixelFormat::UYVY422 => "uyvy422",
            PixelFormat::UYYVYY411 => "uyyvyy411",
            PixelFormat::BGR8 => "bgr8",
            PixelFormat::BGR4 => "bgr4",
            PixelFormat::BGR4Byte => "bgr4_byte",
            PixelFormat::RGB8 => "rgb8",
            PixelFormat::RGB4 => "rgb4",
            PixelFormat::RGB4Byte => "rgb4_byte",
            PixelFormat::YUYV422 => "yuyv422",
            PixelFormat::RGB24 => "rgb24",
            PixelFormat::BGR24 => "bgr24",
            PixelFormat::GRAY8 => "gray",
            PixelFormat::MONOWHITE => "monow",
            PixelFormat::MONOBLACK => "monob",
            PixelFormat::ARGB => "argb",
            PixelFormat::RGBA => "rgba",
            PixelFormat::ABGR => "abgr",
            PixelFormat::BGRA => "bgra",
            PixelFormat::GRAY16BE => "gray16be",
            PixelFormat::GRAY16LE => "gray16le",
            PixelFormat::YUV440P => "yuv440p",
            PixelFormat::YUVJ440P => "yuvj440p",
            PixelFormat::YUVA420P => "yuva420p",
            PixelFormat::RGB48BE => "rgb48be",
            PixelFormat::RGB48LE => "rgb48le",
            PixelFormat::RGB565BE => "rgb565be",
            PixelFormat::RGB565LE => "rgb565le",
            PixelFormat::RGB555BE => "rgb555be",
            PixelFormat::RGB555LE => "rgb555le",
            PixelFormat::BGR565BE => "bgr565be",
            PixelFormat::BGR565LE => "bgr565le",
            PixelFormat::BGR555BE => "bgr555be",
            PixelFormat::BGR555LE => "bgr555le",
        }
    }
}

/// Converting a pixel format to its native number and back gives the same
/// pixel format, and two pixel formats never share a number.
pub proof fn lemma_pixel_format_round_trip(a: PixelFormat, b: PixelFormat)
    ensures
        -1 <= a.spec_av_pixel_format() <= 43,
        a.spec_av_pixel_format() == b.spec_av_pixel_format() ==> a == b,
{
}

/// No name of a pixel format holds a NUL.
pub proof fn lemma_pixel_format_name_nul_free(format: PixelFormat)
    ensures
        !format.spec_format_name().contains('\0'),
{
    reveal_strlit("none");
    reveal_strlit("yuv420p");
    reveal_strlit("nv12");
    reveal_strlit("nv21");
    reveal_strlit("yuv422p");
    reveal_strlit("yuv444p");
    reveal_strlit("yuv410p");
    reveal_strlit("yuv411p");
    reveal_strlit("pal8");
    reveal_strlit("yuvj420p");
    reveal_strlit("yuvj422p");
    reveal_strlit("yuvj444p");
    reveal_strlit("uyvy422");
    reveal_strlit("uyyvyy411");
    reveal_strlit("bgr8");
    reveal_strlit("bgr4");
    reveal_strlit("bgr4_byte");
    reveal_strlit("rgb8");
    reveal_strlit("rgb4");
    reveal_strlit("rgb4_byte");
    reveal_strlit("yuyv422");
    reveal_strlit("rgb24");
    reveal_strlit("bgr24");
    reveal_strlit("gray");
    reveal_strlit("monow");
    reveal_strlit("monob");
    reveal_strlit("argb");
    reveal_strlit("rgba");
    reveal_strlit("abgr");
    reveal_strlit("bgra");
    reveal_strlit("gray16be");
    reveal_strlit("gray16le");
    reveal_strlit("yuv440p");
    reveal_strlit("yuvj440p");
    reveal_strlit("yuva420p");
    reveal_strlit("rgb48be");
    reveal_strlit("rgb48le");
    reveal_strlit("rgb565be");
    reveal_strlit("rgb565le");
    reveal_strlit("rgb555be");
    reveal_strlit("rgb555le");
    reveal_strlit("bgr565be");
    reveal_strlit("bgr565le");
    reveal_strlit("bgr555be");
    reveal_strlit("bgr555le");
}

} // verus!
