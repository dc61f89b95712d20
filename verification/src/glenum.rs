//! OpenGL scalar types and the enumerant values the library hands to the
//! driver.  The numbers are those of the Khronos OpenGL registry (`gl.xml`),
//! which is also what the `gl` bindings are generated from.
use vstd::prelude::*;

verus! {

pub type GLint = i32;

pub type GLuint = u32;

pub type GLenum = u32;

pub type GLsizei = i32;

pub type GLboolean = u8;

pub const GL_FALSE: GLboolean = 0u8;

pub const GL_TRUE: GLboolean = 1u8;

pub const FLOAT: GLenum = 0x1406u32;

pub const INT: GLenum = 0x1404u32;

pub const UNSIGNED_BYTE: GLenum = 0x1401u32;

pub const UNSIGNED_SHORT: GLenum = 0x1403u32;

pub const UNSIGNED_INT: GLenum = 0x1405u32;

pub const UNSIGNED_INT_8_8_8_8: GLenum = 0x8035u32;

pub const UNSIGNED_INT_8_8_8_8_REV: GLenum = 0x8367u32;

pub const BGRA: GLenum = 0x80E1u32;

pub const RGBA: GLenum = 0x1908u32;

pub const VERTEX_SHADER: GLenum = 0x8B31u32;

pub const FRAGMENT_SHADER: GLenum = 0x8B30u32;

pub const TESS_CONTROL_SHADER: GLenum = 0x8E88u32;

pub const TESS_EVALUATION_SHADER: GLenum = 0x8E87u32;

pub const ARRAY_BUFFER: GLenum = 0x8892u32;

pub const ELEMENT_ARRAY_BUFFER: GLenum = 0x8893u32;

pub const TRIANGLES: GLenum = 0x0004u32;

pub const TEXTURE0: GLenum = 0x84C0u32;

pub const MAX_COMBINED_TEXTURE_IMAGE_UNITS: GLenum = 0x8B4Du32;

pub const TEXTURE_1D: GLenum = 0x0DE0u32;

pub const TEXTURE_2D: GLenum = 0x0DE1u32;

pub const TEXTURE_3D: GLenum = 0x806Fu32;

pub const STREAM_DRAW: GLenum = 0x88E0u32;

pub const STREAM_READ: GLenum = 0x88E1u32;

pub const STREAM_COPY: GLenum = 0x88E2u32;

pub const STATIC_DRAW: GLenum = 0x88E4u32;

pub const STATIC_READ: GLenum = 0x88E5u32;

pub const STATIC_COPY: GLenum = 0x88E6u32;

pub const DYNAMIC_DRAW: GLenum = 0x88E8u32;

pub const DYNAMIC_READ: GLenum = 0x88E9u32;

pub const DYNAMIC_COPY: GLenum = 0x88EAu32;

pub const TEXTURE_MAG_FILTER: GLenum = 0x2800u32;

pub const TEXTURE_MIN_FILTER: GLenum = 0x2801u32;

pub const TEXTURE_WRAP_S: GLenum = 0x2802u32;

pub const TEXTURE_WRAP_T: GLenum = 0x2803u32;

pub const LINEAR: GLenum = 0x2601u32;

pub const CLAMP_TO_EDGE: GLenum = 0x812Fu32;

pub const RGB: GLenum = 0x1907u32;

} // verus!
