//! Which OpenGL pixel format and type describe the pixels of an SDL surface.
use vstd::prelude::*;
use crate::glenum::{GLenum, BGRA, RGBA, UNSIGNED_BYTE, UNSIGNED_INT_8_8_8_8, UNSIGNED_INT_8_8_8_8_REV};

verus! {

/// The pixel formats an SDL surface can have.
#[derive(Clone, Copy, Debug, PartialEq, Eq)]
pub enum SdlPixelFormat {
    Unknown,
    Index1LSB,
    Index1MSB,
    Index4LSB,
    Index4MSB,
    Index8,
    RGB332,
    RGB444,
    RGB555,
    BGR555,
    ARGB4444,
    RGBA4444,
    ABGR4444,
    BGRA4444,
    ARGB1555,
    RGBA5551,
    ABGR1555,
    BGRA5551,
    RGB565,
    BGR565,
    RGB24,
    BGR24,
    RGB888,
    RGBX8888,
    BGR888,
    BGRX8888,
    ARGB8888,
    RGBA8888,
    ABGR8888,
    BGRA8888,
    ARGB2101010,
    YV12,
    IYUV,
    YUY2,
    UYVY,
    YVYU,
    NV12,
    NV21,
}

/// The formats whose pixels can be uploaded as they are.
pub open spec fn has_gl_equivalent(f: SdlPixelFormat) -> bool {
    f == SdlPixelFormat::BGRA8888 || f == SdlPixelFormat::RGBA8888 || f == SdlPixelFormat::ARGB8888
}

/// The (format, type) pair for `glTexImage2D` that reads pixels of an SDL
/// surface of format `f`.
pub open spec fn gl_format_type(f: SdlPixelFormat) -> (GLenum, GLenum) {
    if f == SdlPixelFormat::BGRA8888 {
        (BGRA, UNSIGNED_BYTE)
    } else if f == SdlPixelFormat::RGBA8888 {
        (RGBA, UNSIGNED_INT_8_8_8_8)
    } else {
        (BGRA, UNSIGNED_INT_8_8_8_8_REV)
    }
}

/// Whether pixels of format `f` can be handed to OpenGL as they are.
pub fn has_gl_format(f: SdlPixelFormat) -> (r: bool)
    ensures
        r == has_gl_equivalent(f),
{
    match f {
        SdlPixelFormat::BGRA8888 | SdlPixelFormat::RGBA8888 | SdlPixelFormat::ARGB8888 => true,
        _ => false,
    }
}

/// The (format, type) pair for `glTexImage2D` that reads pixels of an SDL
/// surface of format `f`.  SDL's packed formats name their channels from
/// the most significant byte of a 32-bit pixel down: RGBA8888 is read as
/// `RGBA` with `UNSIGNED_INT_8_8_8_8`, ARGB8888 as `BGRA` with
/// `UNSIGNED_INT_8_8_8_8_REV`, and BGRA8888 byte by byte as `BGRA`.
pub fn sdl_format_to_gl_format_type(f: SdlPixelFormat) -> (r: (GLenum, GLenum))
    requires
        has_gl_equivalent(f),
    ensures
        r == gl_format_type(f),
{
    match f {
        SdlPixelFormat::BGRA8888 => (BGRA, UNSIGNED_BYTE),
        SdlPixelFormat::RGBA8888 => (RGBA, UNSIGNED_INT_8_8_8_8),
        _ => (BGRA, UNSIGNED_INT_8_8_8_8_REV),
    }
}

/// The formats that have no GL equivalent and that the demos know by name;
/// any other format without one (the two-plane YUV formats) is unknown to
/// them.
pub open spec fn named_without_gl_equivalent(f: SdlPixelFormat) -> bool {
    !has_gl_equivalent(f) && f != SdlPixelFormat::NV12 && f != SdlPixelFormat::NV21
}

/// Whether `f` is a format without a GL equivalent that the demos know by
/// name (they report it as unhandled rather than unknown).
pub fn is_named_without_gl_equivalent(f: SdlPixelFormat) -> (r: bool)
    ensures
        r == named_without_gl_equivalent(f),
{
    match f {
        SdlPixelFormat::BGRA8888 | SdlPixelFormat::RGBA8888 | SdlPixelFormat::ARGB8888 => false,
        SdlPixelFormat::NV12 | SdlPixelFormat::NV21 => false,
        _ => true,
    }
}

} // verus!
