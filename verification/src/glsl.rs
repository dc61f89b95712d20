//! GLSL shader and program objects, the Rust types that stand for GLSL
//! types, and typed handles on shader globals.
use vstd::prelude::*;
use std::marker::PhantomData;
use crate::glcall::GlCall;
use crate::glenum::{GLboolean, GLenum, GLint, GLsizei, GLuint, FLOAT, INT};

verus! {

/// A GL object that names a compiled shader of one stage.
pub trait Shader: Sized {
    spec fn spec_name(&self) -> GLuint;

    fn new(name: GLuint) -> (r: Self)
        ensures
            r.spec_name() == name,
    ;

    fn name(&self) -> (r: GLuint)
        ensures
            r == self.spec_name(),
    ;
}

pub struct VertexShader {
    name: GLuint,
}

pub struct FragmentShader {
    name: GLuint,
}

pub struct TesselationControlShader {
    name: GLuint,
}

pub struct TesselationEvaluationShader {
    name: GLuint,
}

impl Shader for VertexShader {
    closed spec fn spec_name(&self) -> GLuint {
        self.name
    }

    fn new(name: GLuint) -> (r: VertexShader) {
        VertexShader { name: name }
    }

    fn name(&self) -> (r: GLuint) {
        self.name
    }
}

impl Shader for FragmentShader {
    closed spec fn spec_name(&self) -> GLuint {
        self.name
    }

    fn new(name: GLuint) -> (r: FragmentShader) {
        FragmentShader { name: name }
    }

    fn name(&self) -> (r: GLuint) {
        self.name
    }
}

impl Shader for TesselationControlShader {
    closed spec fn spec_name(&self) -> GLuint {
        self.name
    }

    fn new(name: GLuint) -> (r: TesselationControlShader) {
        TesselationControlShader { name: name }
    }

    fn name(&self) -> (r: GLuint) {
        self.name
    }
}

impl Shader for TesselationEvaluationShader {
    closed spec fn spec_name(&self) -> GLuint {
        self.name
    }

    fn new(name: GLuint) -> (r: TesselationEvaluationShader) {
        TesselationEvaluationShader { name: name }
    }

    fn name(&self) -> (r: GLuint) {
        self.name
    }
}

/// A Rust type that stands for a GLSL type.  The value itself carries no
/// data; `Default` makes one to ask for the GLSL spelling of the type.
pub trait ToGLSLType: Default {
    /// How GLSL spells the type.  A type that does not say leaves it
    /// unknown.
    open spec fn glsl_type_name() -> Seq<char> {
        arbitrary()
    }

    fn type_(&self) -> (r: &str)
        ensures
            r@ == Self::glsl_type_name(),
    ;
}

/// A GLSL type that can be fed from tightly packed vertex data: how many
/// components, of which GL type, and how many bytes one value takes.
pub trait ToGLSLType2: ToGLSLType {
    spec fn spec_count() -> GLint;

    spec fn spec_gl_type() -> GLenum;

    spec fn spec_stride() -> GLsizei;

    fn count(&self) -> (r: GLint)
        ensures
            r == Self::spec_count(),
    ;

    fn gl_type(&self) -> (r: GLenum)
        ensures
            r == Self::spec_gl_type(),
    ;

    fn stride(&self) -> (r: GLsizei)
        ensures
            r == Self::spec_stride(),
    ;
}

/// Bytes in one `GLint` or `GLfloat`.
pub open spec fn scalar_bytes() -> int {
    4
}

pub struct Sampler2D;

pub struct Vec2;

pub struct Vec3;

pub struct Vec4;

pub struct Mat4;

impl Default for Sampler2D {
    fn default() -> (r: Sampler2D) {
        Sampler2D
    }
}

impl Default for Vec2 {
    fn default() -> (r: Vec2) {
        Vec2
    }
}

impl Default for Vec3 {
    fn default() -> (r: Vec3) {
        Vec3
    }
}

impl Default for Vec4 {
    fn default() -> (r: Vec4) {
        Vec4
    }
}

impl Default for Mat4 {
    fn default() -> (r: Mat4) {
        Mat4
    }
}

impl ToGLSLType for Sampler2D {
    open spec fn glsl_type_name() -> Seq<char> {
        seq!['s', 'a', 'm', 'p', 'l', 'e', 'r', '2', 'D']
    }

    fn type_(&self) -> (r: &str) {
        proof {
            reveal_strlit("sampler2D");
        }
        "sampler2D"
    }
}

impl ToGLSLType for Vec2 {
    open spec fn glsl_type_name() -> Seq<char> {
        seq!['v', 'e', 'c', '2']
    }

    fn type_(&self) -> (r: &str) {
        proof {
            reveal_strlit("vec2");
        }
        "vec2"
    }
}

impl ToGLSLType for Vec3 {
    open spec fn glsl_type_name() -> Seq<char> {
        seq!['v', 'e', 'c', '3']
    }

    fn type_(&self) -> (r: &str) {
        proof {
            reveal_strlit("vec3");
        }
        "vec3"
    }
}

impl ToGLSLType for Vec4 {
    open spec fn glsl_type_name() -> Seq<char> {
        seq!['v', 'e', 'c', '4']
    }

    fn type_(&self) -> (r: &str) {
        proof {
            reveal_strlit("vec4");
        }
        "vec4"
    }
}

impl ToGLSLType for Mat4 {
    open spec fn glsl_type_name() -> Seq<char> {
        seq!['m', 'a', 't', '4']
    }

    fn type_(&self) -> (r: &str) {
        proof {
            reveal_strlit("mat4");
        }
        "mat4"
    }
}

impl ToGLSLType2 for Sampler2D {
    open spec fn spec_count() -> GLint {
        1
    }

    open spec fn spec_gl_type() -> GLenum {
        INT
    }

    open spec fn spec_stride() -> GLsizei {
        4
    }

    fn count(&self) -> (r: GLint) {
        1
    }

    fn gl_type(&self) -> (r: GLenum) {
        INT
    }

    fn stride(&self) -> (r: GLsizei) {
        4
    }
}

impl ToGLSLType2 for Vec2 {
    open spec fn spec_count() -> GLint {
        2
    }

    open spec fn spec_gl_type() -> GLenum {
        FLOAT
    }

    open spec fn spec_stride() -> GLsizei {
        8
    }

    fn count(&self) -> (r: GLint) {
        2
    }

    fn gl_type(&self) -> (r: GLenum) {
        FLOAT
    }

    fn stride(&self) -> (r: GLsizei) {
        8
    }
}

impl ToGLSLType2 for Vec3 {
    open spec fn spec_count() -> GLint {
        3
    }

    open spec fn spec_gl_type() -> GLenum {
        FLOAT
    }

    open spec fn spec_stride() -> GLsizei {
        12
    }

    fn count(&self) -> (r: GLint) {
        3
    }

    fn gl_type(&self) -> (r: GLenum) {
        FLOAT
    }

    fn stride(&self) -> (r: GLsizei) {
        12
    }
}

impl ToGLSLType2 for Vec4 {
    open spec fn spec_count() -> GLint {
        4
    }

    open spec fn spec_gl_type() -> GLenum {
        FLOAT
    }

    open spec fn spec_stride() -> GLsizei {
        16
    }

    fn count(&self) -> (r: GLint) {
        4
    }

    fn gl_type(&self) -> (r: GLenum) {
        FLOAT
    }

    fn stride(&self) -> (r: GLsizei) {
        16
    }
}

impl ToGLSLType2 for Mat4 {
    open spec fn spec_count() -> GLint {
        16
    }

    open spec fn spec_gl_type() -> GLenum {
        FLOAT
    }

    open spec fn spec_stride() -> GLsizei {
        64
    }

    fn count(&self) -> (r: GLint) {
        16
    }

    fn gl_type(&self) -> (r: GLenum) {
        FLOAT
    }

    fn stride(&self) -> (r: GLsizei) {
        64
    }
}

/// A global variable declared in a shader: its GLSL type and its name.
pub struct Global<T> {
    type_: String,
    name: String,
    marker: PhantomData<T>,
}

impl<T> Global<T> {
    pub closed spec fn spec_type(&self) -> Seq<char> {
        self.type_@
    }

    pub closed spec fn spec_name(&self) -> Seq<char> {
        self.name@
    }

    /// A global of the given type and name.
    pub fn new(type_: String, name: String) -> (r: Global<T>)
        ensures
            r.spec_type() == type_@,
            r.spec_name() == name@,
    {
        Global { type_: type_, name: name, marker: PhantomData }
    }

    /// The GLSL type the global was declared with.
    pub fn glsl_type(&self) -> (r: &str)
        ensures
            r@ == self.spec_type(),
    {
        self.type_.as_str()
    }

    /// The name the global was declared with.
    pub fn name(&self) -> (r: &str)
        ensures
            r@ == self.spec_name(),
    {
        self.name.as_str()
    }
}

} // verus!

verus! {

/// The location of a vertex attribute of GLSL type `T` in a linked program.
pub struct AttribLocation<T> {
    pub name: GLint,
    pub marker: PhantomData<T>,
}

/// The location of a uniform variable in a linked program.
pub struct UniformLocation {
    pub name: GLint,
}

/// A tuple of scalars that a vertex attribute can be read from: how many
/// components it has and of which GL type.
pub trait TupleReflect {
    fn size_and_gl_type(&self) -> (GLint, GLenum);
}

/// The component count and GL type of a tuple of `arity` `GLfloat`s, as the
/// `TupleReflect` implementations for one to four floats report them.
pub fn float_tuple_size_and_gl_type(arity: usize) -> (r: (GLint, GLenum))
    requires
        1 <= arity <= 4,
    ensures
        r == (arity as GLint, FLOAT),
{
    (arity as GLint, FLOAT)
}

/// The byte offset of a field inside a row of vertex data, given where both
/// sit in memory.  The field must lie entirely within the row.
pub fn field_offset(field_addr: usize, field_size: usize, row_addr: usize, row_size: usize) -> (r: usize)
    requires
        row_addr <= field_addr,
        field_addr + field_size <= row_addr + row_size,
    ensures
        r == field_addr - row_addr,
        r + field_size <= row_size,
{
    field_addr - row_addr
}

/// How a vertex attribute of GLSL type `T` is laid out in the bound buffer:
/// component count, component type, stride and byte offset of the first
/// value.
pub trait VertexAttribPointerRTTI<T> {
    /// Each layout value is unknown for a type that does not say.
    open spec fn spec_size(&self) -> GLint {
        arbitrary()
    }

    open spec fn spec_gl_type(&self) -> GLenum {
        arbitrary()
    }

    open spec fn spec_stride(&self) -> GLsizei {
        arbitrary()
    }

    open spec fn spec_pointer(&self) -> usize {
        arbitrary()
    }

    fn size(&self) -> (r: GLint)
        ensures
            r == self.spec_size(),
    ;

    fn gl_type(&self) -> (r: GLenum)
        ensures
            r == self.spec_gl_type(),
    ;

    fn stride(&self) -> (r: GLsizei)
        ensures
            r == self.spec_stride(),
    ;

    fn pointer(&self) -> (r: usize)
        ensures
            r == self.spec_pointer(),
    ;
}

/// Infers the layout from the attribute's type, for a buffer that holds
/// tightly packed values of that type and nothing else.
pub struct Packed;

impl<T: ToGLSLType2> VertexAttribPointerRTTI<T> for Packed {
    open spec fn spec_size(&self) -> GLint {
        T::spec_count()
    }

    open spec fn spec_gl_type(&self) -> GLenum {
        T::spec_gl_type()
    }

    open spec fn spec_stride(&self) -> GLsizei {
        T::spec_stride()
    }

    open spec fn spec_pointer(&self) -> usize {
        0
    }

    fn size(&self) -> (r: GLint) {
        let d: T = T::default();
        d.count()
    }

    fn gl_type(&self) -> (r: GLenum) {
        let d: T = T::default();
        d.gl_type()
    }

    fn stride(&self) -> (r: GLsizei) {
        let d: T = T::default();
        d.stride()
    }

    fn pointer(&self) -> (r: usize) {
        0
    }
}

/// An explicit layout: (component count, component type, stride, offset).
impl<T> VertexAttribPointerRTTI<T> for (GLint, GLenum, GLsizei, usize) {
    open spec fn spec_size(&self) -> GLint {
        self.0
    }

    open spec fn spec_gl_type(&self) -> GLenum {
        self.1
    }

    open spec fn spec_stride(&self) -> GLsizei {
        self.2
    }

    open spec fn spec_pointer(&self) -> usize {
        self.3
    }

    fn size(&self) -> (r: GLint) {
        self.0
    }

    fn gl_type(&self) -> (r: GLenum) {
        self.1
    }

    fn stride(&self) -> (r: GLsizei) {
        self.2
    }

    fn pointer(&self) -> (r: usize) {
        self.3
    }
}

impl<T> AttribLocation<T> {
    /// The attribute at location `name`.
    pub fn new(name: GLint) -> (r: AttribLocation<T>)
        ensures
            r.name == name,
    {
        AttribLocation { name: name, marker: PhantomData }
    }

    /// Enables the attribute's vertex array.
    pub fn enable_vertex_attrib_array(&self, cmds: &mut Vec<GlCall>)
        ensures
            final(cmds)@ == old(cmds)@.push(
                GlCall::EnableVertexAttribArray { index: self.name as GLuint },
            ),
    {
        cmds.push(GlCall::EnableVertexAttribArray { index: self.name as GLuint });
    }
}

impl<T: ToGLSLType> AttribLocation<T> {
    /// Points the attribute at the bound buffer, laid out as `args` says.
    pub fn vertex_attrib_pointer<R: VertexAttribPointerRTTI<T>>(
        &self,
        normalized: GLboolean,
        args: R,
        cmds: &mut Vec<GlCall>,
    )
        ensures
            final(cmds)@ == old(cmds)@.push(
                GlCall::VertexAttribPointer {
                    index: self.name as GLuint,
                    size: args.spec_size(),
                    type_: args.spec_gl_type(),
                    normalized: normalized,
                    stride: args.spec_stride(),
                    offset: args.spec_pointer(),
                },
            ),
    {
        let size = args.size();
        let type_ = args.gl_type();
        let stride = args.stride();
        let pointer = args.pointer();
        cmds.push(
            GlCall::VertexAttribPointer {
                index: self.name as GLuint,
                size: size,
                type_: type_,
                normalized: normalized,
                stride: stride,
                offset: pointer,
            },
        );
    }
}

/// A value that can be stored in a uniform variable.
pub trait UniformArg {
    /// The call that stores the value at `location`; unknown for a type
    /// that does not say.
    open spec fn uniform_call(&self, location: GLint) -> GlCall {
        arbitrary()
    }

    fn set_at_location(&self, location: GLint, cmds: &mut Vec<GlCall>)
        ensures
            final(cmds)@ == old(cmds)@.push(self.uniform_call(location)),
    ;
}

/// Marks the Rust values that may be stored in a uniform of GLSL type `T`.
pub trait SettableTo<T> {

}

impl UniformArg for GLint {
    open spec fn uniform_call(&self, location: GLint) -> GlCall {
        GlCall::Uniform1i { location, v0: *self }
    }

    fn set_at_location(&self, location: GLint, cmds: &mut Vec<GlCall>) {
        cmds.push(GlCall::Uniform1i { location, v0: *self });
    }
}

impl UniformArg for (GLint, GLint) {
    open spec fn uniform_call(&self, location: GLint) -> GlCall {
        GlCall::Uniform2i { location, v0: self.0, v1: self.1 }
    }

    fn set_at_location(&self, location: GLint, cmds: &mut Vec<GlCall>) {
        cmds.push(GlCall::Uniform2i { location, v0: self.0, v1: self.1 });
    }
}

impl UniformArg for (GLint, GLint, GLint) {
    open spec fn uniform_call(&self, location: GLint) -> GlCall {
        GlCall::Uniform3i { location, v0: self.0, v1: self.1, v2: self.2 }
    }

    fn set_at_location(&self, location: GLint, cmds: &mut Vec<GlCall>) {
        cmds.push(GlCall::Uniform3i { location, v0: self.0, v1: self.1, v2: self.2 });
    }
}

impl UniformArg for (GLint, GLint, GLint, GLint) {
    open spec fn uniform_call(&self, location: GLint) -> GlCall {
        GlCall::Uniform4i { location, v0: self.0, v1: self.1, v2: self.2, v3: self.3 }
    }

    fn set_at_location(&self, location: GLint, cmds: &mut Vec<GlCall>) {
        cmds.push(GlCall::Uniform4i { location, v0: self.0, v1: self.1, v2: self.2, v3: self.3 });
    }
}

impl UniformArg for GLuint {
    open spec fn uniform_call(&self, location: GLint) -> GlCall {
        GlCall::Uniform1ui { location, v0: *self }
    }

    fn set_at_location(&self, location: GLint, cmds: &mut Vec<GlCall>) {
        cmds.push(GlCall::Uniform1ui { location, v0: *self });
    }
}

impl UniformArg for (GLuint, GLuint) {
    open spec fn uniform_call(&self, location: GLint) -> GlCall {
        GlCall::Uniform2ui { location, v0: self.0, v1: self.1 }
    }

    fn set_at_location(&self, location: GLint, cmds: &mut Vec<GlCall>) {
        cmds.push(GlCall::Uniform2ui { location, v0: self.0, v1: self.1 });
    }
}

impl UniformArg for (GLuint, GLuint, GLuint) {
    open spec fn uniform_call(&self, location: GLint) -> GlCall {
        GlCall::Uniform3ui { location, v0: self.0, v1: self.1, v2: self.2 }
    }

    fn set_at_location(&self, location: GLint, cmds: &mut Vec<GlCall>) {
        cmds.push(GlCall::Uniform3ui { location, v0: self.0, v1: self.1, v2: self.2 });
    }
}

impl UniformArg for (GLuint, GLuint, GLuint, GLuint) {
    open spec fn uniform_call(&self, location: GLint) -> GlCall {
        GlCall::Uniform4ui { location, v0: self.0, v1: self.1, v2: self.2, v3: self.3 }
    }

    fn set_at_location(&self, location: GLint, cmds: &mut Vec<GlCall>) {
        cmds.push(GlCall::Uniform4ui { location, v0: self.0, v1: self.1, v2: self.2, v3: self.3 });
    }
}

impl UniformLocation {
    /// Stores `arg` in the uniform at this location.
    pub fn uniform<U: UniformArg>(&self, arg: U, cmds: &mut Vec<GlCall>)
        ensures
            final(cmds)@ == old(cmds)@.push(arg.uniform_call(self.name)),
    {
        arg.set_at_location(self.name, cmds);
    }
}

} // verus!
