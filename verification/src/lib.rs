//! Typed helpers for building GLSL shader programs and tracking the OpenGL
//! objects of a small SDL/OpenGL demo.  Every driver call the library decides
//! on is described by a [`glcall::GlCall`] value; the program that owns the
//! OpenGL context performs them in order.
pub mod glenum;
pub mod glcall;
pub mod text;
pub mod glsl;
pub mod program;
pub mod shader_builder;
pub mod buffers;
pub mod pixel_format;
pub mod demo;
pub mod demo_shaders;
pub mod demo_data;
pub mod laws;
