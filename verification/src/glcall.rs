//! The driver calls the library decides on.  A function that would talk to
//! OpenGL appends the calls to a command list instead; the owner of the GL
//! context performs them in order.
use vstd::prelude::*;
use crate::glenum::{GLboolean, GLenum, GLint, GLsizei, GLuint};

verus! {

/// One OpenGL call that returns nothing, with its arguments.
#[derive(Debug, Clone, PartialEq, Eq)]
#[allow(inconsistent_fields)]
pub enum GlCall {
    EnableVertexAttribArray { index: GLuint },
    /// `offset` is the byte offset of the first component in the bound buffer.
    VertexAttribPointer {
        index: GLuint,
        size: GLint,
        type_: GLenum,
        normalized: GLboolean,
        stride: GLsizei,
        offset: usize,
    },
    Uniform1i { location: GLint, v0: GLint },
    Uniform2i { location: GLint, v0: GLint, v1: GLint },
    Uniform3i { location: GLint, v0: GLint, v1: GLint, v2: GLint },
    Uniform4i { location: GLint, v0: GLint, v1: GLint, v2: GLint, v3: GLint },
    Uniform1ui { location: GLint, v0: GLuint },
    Uniform2ui { location: GLint, v0: GLuint, v1: GLuint },
    Uniform3ui { location: GLint, v0: GLuint, v1: GLuint, v2: GLuint },
    Uniform4ui { location: GLint, v0: GLuint, v1: GLuint, v2: GLuint, v3: GLuint },
    /// `glUniform1f`..`glUniform4f`; each value is given by its IEEE 754 bits.
    Uniform1f { location: GLint, v0: u32 },
    Uniform2f { location: GLint, v0: u32, v1: u32 },
    Uniform3f { location: GLint, v0: u32, v1: u32, v2: u32 },
    Uniform4f { location: GLint, v0: u32, v1: u32, v2: u32, v3: u32 },
    /// `glUniformMatrix4fv` of one column-major matrix, untransposed, given by
    /// the IEEE 754 bits of its sixteen entries.
    UniformMatrix4f { location: GLint, entries: Vec<u32> },
    AttachShader { program: GLuint, shader: GLuint },
    LinkProgram { program: GLuint },
    UseProgram { program: GLuint },
    BindAttribLocation { program: GLuint, index: GLuint, name: String },
    BindFragDataLocation { program: GLuint, color_number: GLuint, name: String },
    /// `glShaderSource` with one string per element of `sources`.
    ShaderSource { shader: GLuint, sources: Vec<String> },
    CompileShader { shader: GLuint },
    BindVertexArray { array: GLuint },
    DeleteVertexArrays { arrays: Vec<GLuint> },
    BindBuffer { target: GLenum, buffer: GLuint },
    /// `glBufferData` of the given bytes.
    BufferData { target: GLenum, data: Vec<u8>, usage: GLenum },
    DeleteBuffers { buffers: Vec<GLuint> },
    /// `glDrawElements`; `offset` is passed as the indices pointer.
    DrawElements { mode: GLenum, count: GLsizei, type_: GLenum, offset: usize },
    ActiveTexture { texture: GLenum },
    BindTexture { target: GLenum, texture: GLuint },
    TexParameteri { target: GLenum, pname: GLenum, param: GLint },
    /// `glTexImage2D` of the given pixel bytes.
    TexImage2D {
        target: GLenum,
        level: GLint,
        internal_format: GLint,
        width: GLsizei,
        height: GLsizei,
        border: GLint,
        format: GLenum,
        type_: GLenum,
        pixels: Vec<u8>,
    },
}

} // verus!
