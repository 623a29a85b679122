//! Pixel formats, as four-character codes.
//!
//! A code packs four ASCII characters into 32 bits, the first in the lowest
//! byte.
use vstd::prelude::*;

verus! {

/// The code of the four characters `a`, `b`, `c`, `d`, the first in the
/// lowest byte.
pub open spec fn fourcc(a: char, b: char, c: char, d: char) -> int {
    a as int + b as int * 0x100 + c as int * 0x1_0000 + d as int * 0x100_0000
}

// Color index

/// [7:0] C
pub const C8: u32 = 0x20203843;

// 8 bpp RGB

/// [7:0] R:G:B 3:3:2
pub const RGB332: u32 = 0x38424752;

/// [7:0] B:G:R 2:3:3
pub const BGR233: u32 = 0x38524742;

// 16 bpp RGB

/// [15:0] x:R:G:B 4:4:4:4 little endian
pub const XRGB4444: u32 = 0x32315258;

/// [15:0] x:B:G:R 4:4:4:4 little endian
pub const XBGR4444: u32 = 0x32314258;

/// [15:0] R:G:B:x 4:4:4:4 little endian
pub const RGBX4444: u32 = 0x32315852;

/// [15:0] B:G:R:x 4:4:4:4 little endian
pub const BGRX4444: u32 = 0x32315842;

/// [15:0] A:R:G:B 4:4:4:4 little endian
pub const ARGB4444: u32 = 0x32315241;

/// [15:0] A:B:G:R 4:4:4:4 little endian
pub const ABGR4444: u32 = 0x32314241;

/// [15:0] R:G:B:A 4:4:4:4 little endian
pub const RGBA4444: u32 = 0x32314152;

/// [15:0] B:G:R:A 4:4:4:4 little endian
pub const BGRA4444: u32 = 0x32314142;

/// [15:0] x:R:G:B 1:5:5:5 little endian
pub const XRGB1555: u32 = 0x35315258;

/// [15:0] x:B:G:R 1:5:5:5 little endian
pub const XBGR1555: u32 = 0x35314258;

/// [15:0] R:G:B:x 5:5:5:1 little endian
pub const RGBX5551: u32 = 0x35315852;

/// [15:0] B:G:R:x 5:5:5:1 little endian
pub const BGRX5551: u32 = 0x35315842;

/// [15:0] A:R:G:B 1:5:5:5 little endian
pub const ARGB1555: u32 = 0x35315241;

/// [15:0] A:B:G:R 1:5:5:5 little endian
pub const ABGR1555: u32 = 0x35314241;

/// [15:0] R:G:B:A 5:5:5:1 little endian
pub const RGBA5551: u32 = 0x35314152;

/// [15:0] B:G:R:A 5:5:5:1 little endian
pub const BGRA5551: u32 = 0x35314142;

/// [15:0] R:G:B 5:6:5 little endian
pub const RGB565: u32 = 0x36314752;

/// [15:0] B:G:R 5:6:5 little endian
pub const BGR565: u32 = 0x36314742;

// 24 bpp RGB

/// [23:0] R:G:B little endian
pub const RGB888: u32 = 0x34324752;

/// [23:0] B:G:R little endian
pub const BGR888: u32 = 0x34324742;

// 32 bpp RGB

/// [31:0] x:R:G:B 8:8:8:8 little endian
pub const XRGB8888: u32 = 0x34325258;

/// [31:0] x:B:G:R 8:8:8:8 little endian
pub const XBGR8888: u32 = 0x34324258;

/// [31:0] R:G:B:x 8:8:8:8 little endian
pub const RGBX8888: u32 = 0x34325852;

/// [31:0] B:G:R:x 8:8:8:8 little endian
pub const BGRX8888: u32 = 0x34325842;

/// [31:0] A:R:G:B 8:8:8:8 little endian
pub const ARGB8888: u32 = 0x34325241;

/// [31:0] A:B:G:R 8:8:8:8 little endian
pub const ABGR8888: u32 = 0x34324241;

/// [31:0] R:G:B:A 8:8:8:8 little endian
pub const RGBA8888: u32 = 0x34324152;

/// [31:0] B:G:R:A 8:8:8:8 little endian
pub const BGRA8888: u32 = 0x34324142;

/// [31:0] x:R:G:B 2:10:10:10 little endian
pub const XRGB2101010: u32 = 0x30335258;

/// [31:0] x:B:G:R 2:10:10:10 little endian
pub const XBGR2101010: u32 = 0x30334258;

/// [31:0] R:G:B:x 10:10:10:2 little endian
pub const RGBX1010102: u32 = 0x30335852;

/// [31:0] B:G:R:x 10:10:10:2 little endian
pub const BGRX1010102: u32 = 0x30335842;

/// [31:0] A:R:G:B 2:10:10:10 little endian
pub const ARGB2101010: u32 = 0x30335241;

/// [31:0] A:B:G:R 2:10:10:10 little endian
pub const ABGR2101010: u32 = 0x30334241;

/// [31:0] R:G:B:A 10:10:10:2 little endian
pub const RGBA1010102: u32 = 0x30334152;

/// [31:0] B:G:R:A 10:10:10:2 little endian
pub const BGRA1010102: u32 = 0x30334142;

// packed YCbCr

/// [31:0] Cr0:Y1:Cb0:Y0 8:8:8:8 little endian
pub const YUYV: u32 = 0x56595559;

/// [31:0] Cb0:Y1:Cr0:Y0 8:8:8:8 little endian
pub const YVYU: u32 = 0x55595659;

/// [31:0] Y1:Cr0:Y0:Cb0 8:8:8:8 little endian
pub const UYVY: u32 = 0x59565955;

/// [31:0] Y1:Cb0:Y0:Cr0 8:8:8:8 little endian
pub const VYUY: u32 = 0x59555956;

/// [31:0] A:Y:Cb:Cr 8:8:8:8 little endian
pub const AYUV: u32 = 0x56555941;

// 2 plane YCbCr

/// 2x2 subsampled Cr:Cb plane
pub const NV12: u32 = 0x3231564e;

/// 2x2 subsampled Cb:Cr plane
pub const NV21: u32 = 0x3132564e;

/// 2x1 subsampled Cr:Cb plane
pub const NV16: u32 = 0x3631564e;

/// 2x1 subsampled Cb:Cr plane
pub const NV61: u32 = 0x3136564e;

/// Each format constant is the code of its four characters.
pub proof fn lemma_format_codes()
    ensures
        C8 == fourcc('C', '8', ' ', ' '),
        RGB332 == fourcc('R', 'G', 'B', '8'),
        BGR233 == fourcc('B', 'G', 'R', '8'),
        XRGB4444 == fourcc('X', 'R', '1', '2'),
        XBGR4444 == fourcc('X', 'B', '1', '2'),
        RGBX4444 == fourcc('R', 'X', '1', '2'),
        BGRX4444 == fourcc('B', 'X', '1', '2'),
        ARGB4444 == fourcc('A', 'R', '1', '2'),
        ABGR4444 == fourcc('A', 'B', '1', '2'),
        RGBA4444 == fourcc('R', 'A', '1', '2'),
        BGRA4444 == fourcc('B', 'A', '1', '2'),
        XRGB1555 == fourcc('X', 'R', '1', '5'),
        XBGR1555 == fourcc('X', 'B', '1', '5'),
        RGBX5551 == fourcc('R', 'X', '1', '5'),
        BGRX5551 == fourcc('B', 'X', '1', '5'),
        ARGB1555 == fourcc('A', 'R', '1', '5'),
        ABGR1555 == fourcc('A', 'B', '1', '5'),
        RGBA5551 == fourcc('R', 'A', '1', '5'),
        BGRA5551 == fourcc('B', 'A', '1', '5'),
        RGB565 == fourcc('R', 'G', '1', '6'),
        BGR565 == fourcc('B', 'G', '1', '6'),
        RGB888 == fourcc('R', 'G', '2', '4'),
        BGR888 == fourcc('B', 'G', '2', '4'),
        XRGB8888 == fourcc('X', 'R', '2', '4'),
        XBGR8888 == fourcc('X', 'B', '2', '4'),
        RGBX8888 == fourcc('R', 'X', '2', '4'),
        BGRX8888 == fourcc('B', 'X', '2', '4'),
        ARGB8888 == fourcc('A', 'R', '2', '4'),
        ABGR8888 == fourcc('A', 'B', '2', '4'),
        RGBA8888 == fourcc('R', 'A', '2', '4'),
        BGRA8888 == fourcc('B', 'A', '2', '4'),
        XRGB2101010 == fourcc('X', 'R', '3', '0'),
        XBGR2101010 == fourcc('X', 'B', '3', '0'),
        RGBX1010102 == fourcc('R', 'X', '3', '0'),
        BGRX1010102 == fourcc('B', 'X', '3', '0'),
        ARGB2101010 == fourcc('A', 'R', '3', '0'),
        ABGR2101010 == fourcc('A', 'B', '3', '0'),
        RGBA1010102 == fourcc('R', 'A', '3', '0'),
        BGRA1010102 == fourcc('B', 'A', '3', '0'),
        YUYV == fourcc('Y', 'U', 'Y', 'V'),
        YVYU == fourcc('Y', 'V', 'Y', 'U'),
        UYVY == fourcc('U', 'Y', 'V', 'Y'),
        VYUY == fourcc('V', 'Y', 'U', 'Y'),
        AYUV == fourcc('A', 'Y', 'U', 'V'),
        NV12 == fourcc('N', 'V', '1', '2'),
        NV21 == fourcc('N', 'V', '2', '1'),
        NV16 == fourcc('N', 'V', '1', '6'),
        NV61 == fourcc('N', 'V', '6', '1'),
{
}

} // verus!
