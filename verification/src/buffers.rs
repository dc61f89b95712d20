//! Vertex array, buffer and texture objects: which driver names they hold,
//! what each buffer was last filled with, and the calls that bind, fill and
//! draw them.
use vstd::prelude::*;
use crate::glcall::GlCall;
use crate::glenum::{
    GLenum, GLint, GLsizei, GLuint, ARRAY_BUFFER, DYNAMIC_COPY, DYNAMIC_DRAW, DYNAMIC_READ,
    ELEMENT_ARRAY_BUFFER, MAX_COMBINED_TEXTURE_IMAGE_UNITS, STATIC_COPY, STATIC_DRAW, STATIC_READ,
    STREAM_COPY, STREAM_DRAW, STREAM_READ, TEXTURE0, TEXTURE_1D, TEXTURE_2D, TEXTURE_3D, TRIANGLES,
    RGB, UNSIGNED_BYTE, UNSIGNED_INT, UNSIGNED_SHORT,
};
use crate::glsl::{Sampler2D, SettableTo, UniformArg};
use vstd::layout::size_of;
use crate::demo_data::{push_word, word_bytes};
use crate::pixel_format::{gl_format_type, has_gl_equivalent, sdl_format_to_gl_format_type, SdlPixelFormat};

verus! {

/// A set of vertex array objects.
pub struct VertexArrays {
    names: Vec<GLuint>,
}

impl VertexArrays {
    pub closed spec fn spec_names(&self) -> Seq<GLuint> {
        self.names@
    }

    /// The `len` vertex arrays the driver generated, named `names`.
    pub fn new(len: u32, names: Vec<GLuint>) -> (r: VertexArrays)
        requires
            0 < len <= i32::MAX,
            names@.len() == len,
        ensures
            r.spec_names() == names@,
    {
        VertexArrays { names: names }
    }

    /// Binds the `idx`-th vertex array.
    pub fn bind(&mut self, idx: u32, cmds: &mut Vec<GlCall>)
        requires
            idx < old(self).spec_names().len(),
        ensures
            final(self).spec_names() == old(self).spec_names(),
            final(cmds)@ == old(cmds)@.push(
                GlCall::BindVertexArray { array: old(self).spec_names()[idx as int] },
            ),
    {
        cmds.push(GlCall::BindVertexArray { array: self.names[idx as usize] });
    }

    /// Deletes all the vertex arrays.
    pub fn delete(self, cmds: &mut Vec<GlCall>)
        requires
            self.spec_names().len() <= i32::MAX,
        ensures
            final(cmds)@.len() == old(cmds)@.len() + 1,
            final(cmds)@.drop_last() == old(cmds)@,
            final(cmds)@.last() matches GlCall::DeleteVertexArrays { arrays } && arrays@
                == self.spec_names(),
    {
        cmds.push(GlCall::DeleteVertexArrays { arrays: self.names });
        assert(final(cmds)@.drop_last() =~= old(cmds)@);
    }
}

/// A single vertex array object.
pub struct VertexArray {
    singleton: VertexArrays,
}

impl VertexArray {
    pub closed spec fn spec_arrays(&self) -> VertexArrays {
        self.singleton
    }

    pub open spec fn spec_name(&self) -> GLuint {
        self.spec_arrays().spec_names()[0]
    }

    /// Exactly one vertex array.
    pub open spec fn wf(&self) -> bool {
        self.spec_arrays().spec_names().len() == 1
    }

    /// The vertex array the driver generated, named `name`.
    pub fn new(name: GLuint) -> (r: VertexArray)
        ensures
            r.wf(),
            r.spec_name() == name,
    {
        let mut names: Vec<GLuint> = Vec::new();
        names.push(name);
        VertexArray { singleton: VertexArrays::new(1, names) }
    }

    /// Binds the vertex array.
    pub fn bind(&mut self, cmds: &mut Vec<GlCall>)
        requires
            old(self).wf(),
        ensures
            final(self).wf(),
            final(self).spec_name() == old(self).spec_name(),
            final(cmds)@ == old(cmds)@.push(GlCall::BindVertexArray { array: old(self).spec_name() }),
    {
        self.singleton.bind(0, cmds)
    }

    /// Deletes the vertex array.
    pub fn delete(self, cmds: &mut Vec<GlCall>)
        requires
            self.wf(),
        ensures
            final(cmds)@.len() == old(cmds)@.len() + 1,
            final(cmds)@.drop_last() == old(cmds)@,
            final(cmds)@.last() matches GlCall::DeleteVertexArrays { arrays } && arrays@ == seq![
                self.spec_name(),
            ],
    {
        let ghost name = self.spec_name();
        self.singleton.delete(cmds);
        assert(self.spec_arrays().spec_names() =~= seq![name]);
    }
}

/// How a buffer's data will be used.
#[derive(Clone, Copy, Debug, PartialEq, Eq)]
pub enum BufferDataUsage {
    StreamDraw,
    StreamRead,
    StreamCopy,
    StaticDraw,
    StaticRead,
    StaticCopy,
    DynamicDraw,
    DynamicRead,
    DynamicCopy,
}

/// The GL enumerant of a usage.
pub open spec fn usage_glenum(u: BufferDataUsage) -> GLenum {
    match u {
        BufferDataUsage::StreamDraw => STREAM_DRAW,
        BufferDataUsage::StreamRead => STREAM_READ,
        BufferDataUsage::StreamCopy => STREAM_COPY,
        BufferDataUsage::StaticDraw => STATIC_DRAW,
        BufferDataUsage::StaticRead => STATIC_READ,
        BufferDataUsage::StaticCopy => STATIC_COPY,
        BufferDataUsage::DynamicDraw => DYNAMIC_DRAW,
        BufferDataUsage::DynamicRead => DYNAMIC_READ,
        BufferDataUsage::DynamicCopy => DYNAMIC_COPY,
    }
}

impl BufferDataUsage {
    /// The GL enumerant of the usage.
    pub fn to_glenum(&self) -> (r: GLenum)
        ensures
            r == usage_glenum(*self),
    {
        match self {
            BufferDataUsage::StreamDraw => STREAM_DRAW,
            BufferDataUsage::StreamRead => STREAM_READ,
            BufferDataUsage::StreamCopy => STREAM_COPY,
            BufferDataUsage::StaticDraw => STATIC_DRAW,
            BufferDataUsage::StaticRead => STATIC_READ,
            BufferDataUsage::StaticCopy => STATIC_COPY,
            BufferDataUsage::DynamicDraw => DYNAMIC_DRAW,
            BufferDataUsage::DynamicRead => DYNAMIC_READ,
            BufferDataUsage::DynamicCopy => DYNAMIC_COPY,
        }
    }
}

/// A set of buffer objects used as vertex arrays, each with the number of
/// elements it was last filled with, if any.
pub struct VertexBuffers {
    names: Vec<GLuint>,
    init_lens: Vec<Option<usize>>,
}

impl VertexBuffers {
    pub closed spec fn spec_names(&self) -> Seq<GLuint> {
        self.names@
    }

    pub closed spec fn spec_init_lens(&self) -> Seq<Option<usize>> {
        self.init_lens@
    }

    /// One entry of bookkeeping per buffer.
    pub open spec fn wf(&self) -> bool {
        self.spec_names().len() == self.spec_init_lens().len()
    }

    /// The `len` buffers the driver generated, named `names`, none filled
    /// yet.
    pub fn new(len: u32, names: Vec<GLuint>) -> (r: VertexBuffers)
        requires
            0 < len <= i32::MAX,
            names@.len() == len,
        ensures
            r.wf(),
            r.spec_names() == names@,
            r.spec_init_lens() == Seq::new(len as nat, |i: int| None::<usize>),
    {
        let mut nones: Vec<Option<usize>> = Vec::new();
        let mut i: u32 = 0;
        while i < len
            invariant
                i <= len,
                nones@ == Seq::new(i as nat, |k: int| None::<usize>),
            decreases len - i,
        {
            nones.push(None);
            assert(nones@ =~= Seq::new((i + 1) as nat, |k: int| None::<usize>));
            i = i + 1;
        }
        VertexBuffers { names: names, init_lens: nones }
    }

    /// Binds the `idx`-th buffer as the vertex array buffer.
    pub fn bind_array(&mut self, idx: u32, cmds: &mut Vec<GlCall>)
        requires
            idx < old(self).spec_names().len(),
        ensures
            *final(self) == *old(self),
            final(cmds)@ == old(cmds)@.push(
                GlCall::BindBuffer { target: ARRAY_BUFFER, buffer: old(self).spec_names()[idx as int] },
            ),
    {
        cmds.push(GlCall::BindBuffer { target: ARRAY_BUFFER, buffer: self.names[idx as usize] });
    }

    /// Binds the `idx`-th buffer and fills it with `data`, the bytes of the
    /// elements `init`, recording their count for it.
    pub fn bind_and_init_array<T>(
        &mut self,
        idx: u32,
        init: &[T],
        data: Vec<u8>,
        usage: BufferDataUsage,
        cmds: &mut Vec<GlCall>,
    )
        requires
            old(self).wf(),
            idx < old(self).spec_names().len(),
            init@.len() > 0,
            data@.len() == init@.len() * size_of::<T>(),
        ensures
            final(self).wf(),
            final(self).spec_names() == old(self).spec_names(),
            final(self).spec_init_lens() == old(self).spec_init_lens().update(
                idx as int,
                Some(init@.len() as usize),
            ),
            final(cmds)@ == old(cmds)@.push(
                GlCall::BindBuffer { target: ARRAY_BUFFER, buffer: old(self).spec_names()[idx as int] },
            ).push(GlCall::BufferData { target: ARRAY_BUFFER, data: data, usage: usage_glenum(usage) }),
    {
        self.bind_array(idx, cmds);
        cmds.push(GlCall::BufferData { target: ARRAY_BUFFER, data: data, usage: usage.to_glenum() });
        self.init_lens.set(idx as usize, Some(init.len()));
    }

    /// Deletes all the buffers.
    pub fn delete(self, cmds: &mut Vec<GlCall>)
        requires
            self.spec_names().len() <= i32::MAX,
        ensures
            final(cmds)@.len() == old(cmds)@.len() + 1,
            final(cmds)@.drop_last() == old(cmds)@,
            final(cmds)@.last() matches GlCall::DeleteBuffers { buffers } && buffers@
                == self.spec_names(),
    {
        cmds.push(GlCall::DeleteBuffers { buffers: self.names });
        assert(final(cmds)@.drop_last() =~= old(cmds)@);
    }
}

/// A single buffer object used as a vertex array.
pub struct VertexBuffer {
    singleton: VertexBuffers,
}

impl VertexBuffer {
    pub closed spec fn spec_buffers(&self) -> VertexBuffers {
        self.singleton
    }

    pub open spec fn spec_name(&self) -> GLuint {
        self.spec_buffers().spec_names()[0]
    }

    /// The element count the buffer was last filled with, if any.
    pub open spec fn spec_init_len(&self) -> Option<usize> {
        self.spec_buffers().spec_init_lens()[0]
    }

    /// Exactly one buffer, with its bookkeeping.
    pub open spec fn wf(&self) -> bool {
        self.spec_buffers().wf() && self.spec_buffers().spec_names().len() == 1
    }

    /// The buffer the driver generated, named `name`, not filled yet.
    pub fn new(name: GLuint) -> (r: VertexBuffer)
        ensures
            r.wf(),
            r.spec_name() == name,
            r.spec_init_len() is None,
    {
        let mut names: Vec<GLuint> = Vec::new();
        names.push(name);
        VertexBuffer { singleton: VertexBuffers::new(1, names) }
    }

    /// Binds the buffer as the vertex array buffer.
    pub fn bind_array(&mut self, cmds: &mut Vec<GlCall>)
        requires
            old(self).wf(),
        ensures
            *final(self) == *old(self),
            final(cmds)@ == old(cmds)@.push(
                GlCall::BindBuffer { target: ARRAY_BUFFER, buffer: old(self).spec_name() },
            ),
    {
        self.singleton.bind_array(0, cmds)
    }

    /// Binds the buffer and fills it with `data`, the bytes of the elements
    /// `init`.
    pub fn bind_and_init_array<T>(
        &mut self,
        init: &[T],
        data: Vec<u8>,
        usage: BufferDataUsage,
        cmds: &mut Vec<GlCall>,
    )
        requires
            old(self).wf(),
            init@.len() > 0,
            data@.len() == init@.len() * size_of::<T>(),
        ensures
            final(self).wf(),
            final(self).spec_name() == old(self).spec_name(),
            final(self).spec_init_len() == Some(init@.len() as usize),
            final(cmds)@ == old(cmds)@.push(
                GlCall::BindBuffer { target: ARRAY_BUFFER, buffer: old(self).spec_name() },
            ).push(GlCall::BufferData { target: ARRAY_BUFFER, data: data, usage: usage_glenum(usage) }),
    {
        self.singleton.bind_and_init_array(0, init, data, usage, cmds)
    }

    /// Deletes the buffer.
    pub fn delete(self, cmds: &mut Vec<GlCall>)
        requires
            self.wf(),
        ensures
            final(cmds)@.len() == old(cmds)@.len() + 1,
            final(cmds)@.drop_last() == old(cmds)@,
            final(cmds)@.last() matches GlCall::DeleteBuffers { buffers } && buffers@ == seq![
                self.spec_name(),
            ],
    {
        let ghost name = self.spec_name();
        self.singleton.delete(cmds);
        assert(self.spec_buffers().spec_names() =~= seq![name]);
    }
}

/// An integer type that element indices can be stored as.
pub trait ElementBufferData: Sized {
    spec fn spec_type() -> GLenum;

    /// Bytes in one index.
    spec fn spec_size() -> nat;

    /// The bytes of the index as the driver reads it, in the given byte
    /// order.
    spec fn spec_bytes(&self, big_endian: bool) -> Seq<u8>;

    /// The GL type of the indices.
    fn type_(&self) -> (r: GLenum)
        ensures
            r == Self::spec_type(),
    ;

    /// Appends the bytes of the index to `buf`: `spec_size` of them.
    fn push_bytes(&self, big_endian: bool, buf: &mut Vec<u8>)
        ensures
            final(buf)@ == old(buf)@ + self.spec_bytes(big_endian),
            self.spec_bytes(big_endian).len() == Self::spec_size(),
    ;
}

/// The bytes of the two-byte value `v`, least significant first unless
/// `big_endian`.
pub open spec fn half_word_bytes(v: u16, big_endian: bool) -> Seq<u8> {
    let lo = (v % 256) as u8;
    let hi = (v / 256) as u8;
    if big_endian {
        seq![hi, lo]
    } else {
        seq![lo, hi]
    }
}

impl ElementBufferData for u8 {
    open spec fn spec_type() -> GLenum {
        UNSIGNED_BYTE
    }

    open spec fn spec_size() -> nat {
        1
    }

    open spec fn spec_bytes(&self, big_endian: bool) -> Seq<u8> {
        seq![*self]
    }

    fn type_(&self) -> (r: GLenum) {
        UNSIGNED_BYTE
    }

    fn push_bytes(&self, big_endian: bool, buf: &mut Vec<u8>) {
        buf.push(*self);
    }
}

impl ElementBufferData for u16 {
    open spec fn spec_type() -> GLenum {
        UNSIGNED_SHORT
    }

    open spec fn spec_size() -> nat {
        2
    }

    open spec fn spec_bytes(&self, big_endian: bool) -> Seq<u8> {
        half_word_bytes(*self, big_endian)
    }

    fn type_(&self) -> (r: GLenum) {
        UNSIGNED_SHORT
    }

    fn push_bytes(&self, big_endian: bool, buf: &mut Vec<u8>) {
        let lo = (*self % 256) as u8;
        let hi = (*self / 256) as u8;
        if big_endian {
            buf.push(hi);
            buf.push(lo);
        } else {
            buf.push(lo);
            buf.push(hi);
        }
    }
}

impl ElementBufferData for u32 {
    open spec fn spec_type() -> GLenum {
        UNSIGNED_INT
    }

    open spec fn spec_size() -> nat {
        4
    }

    open spec fn spec_bytes(&self, big_endian: bool) -> Seq<u8> {
        word_bytes(*self, big_endian)
    }

    fn type_(&self) -> (r: GLenum) {
        UNSIGNED_INT
    }

    fn push_bytes(&self, big_endian: bool, buf: &mut Vec<u8>) {
        push_word(buf, *self, big_endian);
    }
}

/// The bytes of the indices `init`, one index after the other.
pub open spec fn index_bytes<T: ElementBufferData>(init: Seq<T>, big_endian: bool) -> Seq<u8>
    decreases init.len(),
{
    if init.len() == 0 {
        Seq::empty()
    } else {
        index_bytes(init.drop_last(), big_endian) + init.last().spec_bytes(big_endian)
    }
}

/// `c` is a `glBufferData` call on `target` with exactly the bytes `bytes`.
pub open spec fn is_buffer_data(c: GlCall, target: GLenum, bytes: Seq<u8>, usage: GLenum) -> bool {
    c matches GlCall::BufferData { target: t, data, usage: u } && t == target && data@ == bytes && u
        == usage
}

/// The bytes of the indices `init` in the given byte order.
pub fn index_data<T: ElementBufferData>(init: &[T], big_endian: bool) -> (r: Vec<u8>)
    ensures
        r@ == index_bytes(init@, big_endian),
        r@.len() == init@.len() * T::spec_size(),
{
    let mut r: Vec<u8> = Vec::new();
    let mut i: usize = 0;
    while i < init.len()
        invariant
            i <= init@.len(),
            r@ == index_bytes(init@.take(i as int), big_endian),
            r@.len() == i * T::spec_size(),
        decreases init@.len() - i,
    {
        init[i].push_bytes(big_endian, &mut r);
        proof {
            assert(init@.take(i + 1).drop_last() =~= init@.take(i as int));
            let n = T::spec_size();
            assert((i + 1) * n == i * n + n) by (nonlinear_arith);
        }
        i = i + 1;
    }
    proof {
        assert(init@.take(init@.len() as int) =~= init@);
    }
    r
}

/// A set of buffer objects holding element indices, each with the index
/// type and count it was last filled with, if any.
pub struct ElementBuffers {
    names: Vec<GLuint>,
    inits: Vec<Option<(GLenum, GLsizei)>>,
}

/// The draw call for an element buffer named `name` filled with `count`
/// indices of type `type_`.  The buffer's name is passed where the indices
/// pointer goes.
pub open spec fn draw_call(name: GLuint, type_: GLenum, count: GLsizei) -> GlCall {
    GlCall::DrawElements { mode: TRIANGLES, count, type_, offset: name as usize }
}

/// The draw call for an element buffer named `name` with the recorded
/// filling `init`.
pub open spec fn draw_call_for(name: GLuint, init: Option<(GLenum, GLsizei)>) -> GlCall {
    match init {
        Some((type_, count)) => draw_call(name, type_, count),
        None => draw_call(name, 0, 0),
    }
}

impl ElementBuffers {
    pub closed spec fn spec_names(&self) -> Seq<GLuint> {
        self.names@
    }

    pub closed spec fn spec_inits(&self) -> Seq<Option<(GLenum, GLsizei)>> {
        self.inits@
    }

    /// One entry of bookkeeping per buffer.
    pub open spec fn wf(&self) -> bool {
        self.spec_names().len() == self.spec_inits().len()
    }

    /// The `len` buffers the driver generated, named `names`, none filled
    /// yet.
    pub fn new(len: u32, names: Vec<GLuint>) -> (r: ElementBuffers)
        requires
            0 < len <= i32::MAX,
            names@.len() == len,
        ensures
            r.wf(),
            r.spec_names() == names@,
            r.spec_inits() == Seq::new(len as nat, |i: int| None::<(GLenum, GLsizei)>),
    {
        let mut nones: Vec<Option<(GLenum, GLsizei)>> = Vec::new();
        let mut i: u32 = 0;
        while i < len
            invariant
                i <= len,
                nones@ == Seq::new(i as nat, |k: int| None::<(GLenum, GLsizei)>),
            decreases len - i,
        {
            nones.push(None);
            assert(nones@ =~= Seq::new((i + 1) as nat, |k: int| None::<(GLenum, GLsizei)>));
            i = i + 1;
        }
        ElementBuffers { names: names, inits: nones }
    }

    /// Binds the `idx`-th buffer as the element array buffer.
    pub fn bind_elements(&mut self, idx: u32, cmds: &mut Vec<GlCall>)
        requires
            idx < old(self).spec_names().len(),
        ensures
            *final(self) == *old(self),
            final(cmds)@ == old(cmds)@.push(
                GlCall::BindBuffer {
                    target: ELEMENT_ARRAY_BUFFER,
                    buffer: old(self).spec_names()[idx as int],
                },
            ),
    {
        cmds.push(GlCall::BindBuffer { target: ELEMENT_ARRAY_BUFFER, buffer: self.names[idx as usize] });
    }

    /// Binds the `idx`-th buffer and fills it with the bytes of the indices
    /// `init`, laid out in the given byte order (the machine's, for the
    /// driver to read them), recording their type and count for it.
    pub fn bind_and_init_elements<T: ElementBufferData>(
        &mut self,
        idx: u32,
        init: &[T],
        big_endian: bool,
        usage: BufferDataUsage,
        cmds: &mut Vec<GlCall>,
    )
        requires
            old(self).wf(),
            idx < old(self).spec_names().len(),
            0 < init@.len() <= i32::MAX,
        ensures
            final(self).wf(),
            final(self).spec_names() == old(self).spec_names(),
            final(self).spec_inits() == old(self).spec_inits().update(
                idx as int,
                Some((T::spec_type(), init@.len() as GLsizei)),
            ),
            final(cmds)@.len() == old(cmds)@.len() + 2,
            final(cmds)@.take(old(cmds)@.len() as int) == old(cmds)@,
            final(cmds)@[old(cmds)@.len() as int] == (GlCall::BindBuffer {
                target: ELEMENT_ARRAY_BUFFER,
                buffer: old(self).spec_names()[idx as int],
            }),
            is_buffer_data(
                final(cmds)@[old(cmds)@.len() + 1int],
                ELEMENT_ARRAY_BUFFER,
                index_bytes(init@, big_endian),
                usage_glenum(usage),
            ),
    {
        let data = index_data(init, big_endian);
        self.bind_elements(idx, cmds);
        cmds.push(
            GlCall::BufferData { target: ELEMENT_ARRAY_BUFFER, data: data, usage: usage.to_glenum() },
        );
        let len = init.len() as GLsizei;
        let type_ = init[0].type_();
        self.inits.set(idx as usize, Some((type_, len)));
        assert(final(cmds)@.take(old(cmds)@.len() as int) =~= old(cmds)@);
    }

    /// Draws the triangles whose indices the `idx`-th buffer was filled with.
    pub fn draw_elements(&self, idx: u32, cmds: &mut Vec<GlCall>)
        requires
            self.wf(),
            idx < self.spec_names().len(),
            self.spec_inits()[idx as int] is Some,
        ensures
            final(cmds)@ == old(cmds)@.push(
                draw_call_for(self.spec_names()[idx as int], self.spec_inits()[idx as int]),
            ),
    {
        match self.inits[idx as usize] {
            Some((type_, len)) => {
                cmds.push(
                    GlCall::DrawElements {
                        mode: TRIANGLES,
                        count: len,
                        type_: type_,
                        offset: self.names[idx as usize] as usize,
                    },
                );
            },
            None => {
                assert(false);
            },
        }
    }

    /// Deletes all the buffers.
    pub fn delete(self, cmds: &mut Vec<GlCall>)
        requires
            self.spec_names().len() <= i32::MAX,
        ensures
            final(cmds)@.len() == old(cmds)@.len() + 1,
            final(cmds)@.drop_last() == old(cmds)@,
            final(cmds)@.last() matches GlCall::DeleteBuffers { buffers } && buffers@
                == self.spec_names(),
    {
        cmds.push(GlCall::DeleteBuffers { buffers: self.names });
        assert(final(cmds)@.drop_last() =~= old(cmds)@);
    }
}

/// A single buffer object holding element indices.
pub struct ElementBuffer {
    singleton: ElementBuffers,
}

impl ElementBuffer {
    pub closed spec fn spec_buffers(&self) -> ElementBuffers {
        self.singleton
    }

    pub open spec fn spec_name(&self) -> GLuint {
        self.spec_buffers().spec_names()[0]
    }

    /// The index type and count the buffer was last filled with, if any.
    pub open spec fn spec_init(&self) -> Option<(GLenum, GLsizei)> {
        self.spec_buffers().spec_inits()[0]
    }

    /// Exactly one buffer, with its bookkeeping.
    pub open spec fn wf(&self) -> bool {
        self.spec_buffers().wf() && self.spec_buffers().spec_names().len() == 1
    }

    /// The buffer the driver generated, named `name`, not filled yet.
    pub fn new(name: GLuint) -> (r: ElementBuffer)
        ensures
            r.wf(),
            r.spec_name() == name,
            r.spec_init() is None,
    {
        let mut names: Vec<GLuint> = Vec::new();
        names.push(name);
        ElementBuffer { singleton: ElementBuffers::new(1, names) }
    }

    /// Binds the buffer as the element array buffer.
    pub fn bind_elements(&mut self, cmds: &mut Vec<GlCall>)
        requires
            old(self).wf(),
        ensures
            *final(self) == *old(self),
            final(cmds)@ == old(cmds)@.push(
                GlCall::BindBuffer { target: ELEMENT_ARRAY_BUFFER, buffer: old(self).spec_name() },
            ),
    {
        self.singleton.bind_elements(0, cmds)
    }

    /// Binds the buffer and fills it with the bytes of the indices `init`,
    /// laid out in the given byte order.
    pub fn bind_and_init_elements<T: ElementBufferData>(
        &mut self,
        init: &[T],
        big_endian: bool,
        usage: BufferDataUsage,
        cmds: &mut Vec<GlCall>,
    )
        requires
            old(self).wf(),
            0 < init@.len() <= i32::MAX,
        ensures
            final(self).wf(),
            final(self).spec_name() == old(self).spec_name(),
            final(self).spec_init() == Some((T::spec_type(), init@.len() as GLsizei)),
            final(cmds)@.len() == old(cmds)@.len() + 2,
            final(cmds)@.take(old(cmds)@.len() as int) == old(cmds)@,
            final(cmds)@[old(cmds)@.len() as int] == (GlCall::BindBuffer {
                target: ELEMENT_ARRAY_BUFFER,
                buffer: old(self).spec_name(),
            }),
            is_buffer_data(
                final(cmds)@[old(cmds)@.len() + 1int],
                ELEMENT_ARRAY_BUFFER,
                index_bytes(init@, big_endian),
                usage_glenum(usage),
            ),
    {
        self.singleton.bind_and_init_elements(0, init, big_endian, usage, cmds)
    }

    /// Draws the triangles whose indices the buffer was filled with.
    pub fn draw_elements(&self, cmds: &mut Vec<GlCall>)
        requires
            self.wf(),
            self.spec_init() is Some,
        ensures
            final(cmds)@ == old(cmds)@.push(
                draw_call_for(self.spec_name(), self.spec_init()),
            ),
    {
        self.singleton.draw_elements(0, cmds)
    }

    /// Deletes the buffer.
    pub fn delete(self, cmds: &mut Vec<GlCall>)
        requires
            self.wf(),
        ensures
            final(cmds)@.len() == old(cmds)@.len() + 1,
            final(cmds)@.drop_last() == old(cmds)@,
            final(cmds)@.last() matches GlCall::DeleteBuffers { buffers } && buffers@ == seq![
                self.spec_name(),
            ],
    {
        let ghost name = self.spec_name();
        self.singleton.delete(cmds);
        assert(self.spec_buffers().spec_names() =~= seq![name]);
    }
}

/// A texture image unit.
pub struct TextureUnit {
    idx: GLuint,
}

impl TextureUnit {
    #[verifier::type_invariant]
    spec fn idx_below_limit(self) -> bool {
        self.idx < MAX_COMBINED_TEXTURE_IMAGE_UNITS
    }

    pub closed spec fn spec_idx(&self) -> GLuint {
        self.idx
    }

    /// The texture unit numbered `idx`.
    pub fn new(idx: GLuint) -> (r: TextureUnit)
        requires
            idx < MAX_COMBINED_TEXTURE_IMAGE_UNITS,
        ensures
            r.spec_idx() == idx,
    {
        TextureUnit { idx: idx }
    }

    /// Makes this the active texture unit.
    pub fn active(&self, cmds: &mut Vec<GlCall>)
        ensures
            final(cmds)@ == old(cmds)@.push(
                GlCall::ActiveTexture { texture: (TEXTURE0 + self.spec_idx()) as GLenum },
            ),
    {
        proof {
            use_type_invariant(self);
        }
        cmds.push(GlCall::ActiveTexture { texture: TEXTURE0 + self.idx });
    }
}

/// A sampler uniform is set to the number of its texture unit, with
/// `glUniform1i`.
impl UniformArg for TextureUnit {
    open spec fn uniform_call(&self, location: GLint) -> GlCall {
        GlCall::Uniform1i { location, v0: self.spec_idx() as GLint }
    }

    fn set_at_location(&self, location: GLint, cmds: &mut Vec<GlCall>) {
        cmds.push(GlCall::Uniform1i { location, v0: self.idx as GLint });
    }
}

impl SettableTo<Sampler2D> for TextureUnit {

}

/// The kinds of texture a texture object can be bound as.
#[derive(Clone, Copy, Debug, PartialEq, Eq)]
pub enum TextureTarget {
    Texture1D,
    Texture2D,
    Texture3D,
}

/// The GL enumerant of a texture target.
pub open spec fn target_glenum(t: TextureTarget) -> GLenum {
    match t {
        TextureTarget::Texture1D => TEXTURE_1D,
        TextureTarget::Texture2D => TEXTURE_2D,
        TextureTarget::Texture3D => TEXTURE_3D,
    }
}

impl TextureTarget {
    /// The GL enumerant of the target.
    pub fn to_glenum(&self) -> (r: GLenum)
        ensures
            r == target_glenum(*self),
    {
        match self {
            TextureTarget::Texture1D => TEXTURE_1D,
            TextureTarget::Texture2D => TEXTURE_2D,
            TextureTarget::Texture3D => TEXTURE_3D,
        }
    }
}

/// A set of texture objects.
pub struct Textures {
    len: GLsizei,
    names: Vec<GLuint>,
}

impl Textures {
    pub closed spec fn spec_names(&self) -> Seq<GLuint> {
        self.names@
    }

    /// The `len` textures the driver generated, named `names`.
    pub fn new(len: usize, names: Vec<GLuint>) -> (r: Textures)
        requires
            0 < len <= i32::MAX,
            names@.len() == len,
        ensures
            r.spec_names() == names@,
    {
        Textures { len: len as GLsizei, names: names }
    }

    /// How many textures the set holds.
    pub fn len(&self) -> (r: usize)
        ensures
            r == self.spec_names().len(),
    {
        self.names.len()
    }

    /// Binds the `idx`-th texture as a texture of kind `dim`.
    pub fn bind(&self, idx: usize, dim: TextureTarget, cmds: &mut Vec<GlCall>)
        requires
            idx < self.spec_names().len(),
        ensures
            final(cmds)@ == old(cmds)@.push(
                GlCall::BindTexture { target: target_glenum(dim), texture: self.spec_names()[idx as int] },
            ),
    {
        cmds.push(GlCall::BindTexture { target: dim.to_glenum(), texture: self.names[idx] });
    }

    /// Binds the `idx`-th texture as a 2D texture and uploads into it an
    /// image of `width` by `height` pixels in the SDL pixel format `format`,
    /// whose bytes are `pixels`; the texture keeps RGB colour.
    pub fn bind_and_set_image_2d(
        &self,
        idx: usize,
        width: u32,
        height: u32,
        format: SdlPixelFormat,
        pixels: Vec<u8>,
        cmds: &mut Vec<GlCall>,
    )
        requires
            idx < self.spec_names().len(),
            has_gl_equivalent(format),
            width <= i32::MAX,
            height <= i32::MAX,
        ensures
            final(cmds)@ == old(cmds)@.push(
                GlCall::BindTexture { target: TEXTURE_2D, texture: self.spec_names()[idx as int] },
            ).push(
                GlCall::TexImage2D {
                    target: TEXTURE_2D,
                    level: 0,
                    internal_format: RGB as GLint,
                    width: width as GLsizei,
                    height: height as GLsizei,
                    border: 0,
                    format: gl_format_type(format).0,
                    type_: gl_format_type(format).1,
                    pixels,
                },
            ),
    {
        self.bind(idx, TextureTarget::Texture2D, cmds);
        let (gl_format, gl_type) = sdl_format_to_gl_format_type(format);
        cmds.push(
            GlCall::TexImage2D {
                target: TEXTURE_2D,
                level: 0,
                internal_format: RGB as GLint,
                width: width as GLsizei,
                height: height as GLsizei,
                border: 0,
                format: gl_format,
                type_: gl_type,
                pixels,
            },
        );
    }
}

/// A single texture object.
pub struct Texture {
    singleton: Textures,
}

impl Texture {
    pub closed spec fn spec_textures(&self) -> Textures {
        self.singleton
    }

    pub open spec fn spec_name(&self) -> GLuint {
        self.spec_textures().spec_names()[0]
    }

    /// Exactly one texture.
    pub open spec fn wf(&self) -> bool {
        self.spec_textures().spec_names().len() == 1
    }

    /// The texture the driver generated, named `name`.
    pub fn new(name: GLuint) -> (r: Texture)
        ensures
            r.wf(),
            r.spec_name() == name,
    {
        let mut names: Vec<GLuint> = Vec::new();
        names.push(name);
        Texture { singleton: Textures::new(1, names) }
    }

    /// Binds the texture as a texture of kind `dim`.
    pub fn bind(&self, dim: TextureTarget, cmds: &mut Vec<GlCall>)
        requires
            self.wf(),
        ensures
            final(cmds)@ == old(cmds)@.push(
                GlCall::BindTexture { target: target_glenum(dim), texture: self.spec_name() },
            ),
    {
        self.singleton.bind(0, dim, cmds)
    }
}

} // verus!
