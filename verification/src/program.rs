//! Shader compilation, program linking and program introspection, written
//! as decisions on what the driver reported.
use vstd::prelude::*;
use vstd::utf8::{decode_utf8, encode_utf8, valid_utf8};
use crate::glcall::GlCall;
use crate::glenum::{GLenum, GLint, GLuint};
use crate::glsl::{AttribLocation, FragmentShader, Global, Shader, VertexShader};
use crate::text::{owned, string_views, utf8_to_string};

verus! {

/// The value `glGetShaderiv`/`glGetProgramiv` report for a successful
/// compile or link (`GL_TRUE`).
pub open spec fn status_ok(status: GLint) -> bool {
    status == 1
}

/// Whether a list of source strings can be handed to `glShaderSource`: at
/// least one string, a count and byte lengths that fit a `GLint`, and no NUL
/// inside a string (each becomes a C string).
pub open spec fn shader_sources_ok(src: Seq<Seq<char>>) -> bool {
    &&& 0 < src.len() <= i32::MAX
    &&& forall|i: int| 0 <= i < src.len() ==> encode_utf8(#[trigger] src[i]).len() <= i32::MAX
    &&& forall|i: int| 0 <= i < src.len() ==> !(#[trigger] src[i]).contains('\0')
}

/// `c` is a `glShaderSource` call on `shader` with exactly the strings `src`.
pub open spec fn is_shader_source(c: GlCall, shader: GLuint, src: Seq<Seq<char>>) -> bool {
    c matches GlCall::ShaderSource { shader: s, sources } && s == shader && string_views(sources@)
        == src
}

/// Hands the source strings to the freshly created `shader` and asks the
/// driver to compile it.  The driver's verdict is judged by
/// [`compile_shader`].
pub fn shader_source_calls(src: &Vec<String>, shader: GLuint, cmds: &mut Vec<GlCall>)
    requires
        shader_sources_ok(string_views(src@)),
    ensures
        final(cmds)@.len() == old(cmds)@.len() + 2,
        final(cmds)@.take(old(cmds)@.len() as int) == old(cmds)@,
        is_shader_source(final(cmds)@[old(cmds)@.len() as int], shader, string_views(src@)),
        final(cmds)@[old(cmds)@.len() + 1int] == (GlCall::CompileShader { shader }),
{
    let sources = src.clone();
    assert(sources@ =~= src@);
    cmds.push(GlCall::ShaderSource { shader, sources });
    cmds.push(GlCall::CompileShader { shader });
    assert(final(cmds)@.take(old(cmds)@.len() as int) =~= old(cmds)@) by {
        assert(forall|i: int| 0 <= i < old(cmds)@.len() ==> cmds@[i] == old(cmds)@[i]);
    }
}

/// What a failed compile or link reports: the info log read as UTF-8, or
/// nothing when the log is not valid UTF-8.
pub open spec fn log_text(log: Seq<u8>) -> Option<Seq<char>> {
    if valid_utf8(log) {
        Some(decode_utf8(log))
    } else {
        None
    }
}

/// How many bytes of an info log to read, given the length the driver
/// reports (which counts the trailing NUL).
pub fn info_log_buffer_len(len: GLint) -> (r: usize)
    requires
        len >= 1,
    ensures
        r == len - 1,
{
    (len - 1) as usize
}

/// The verdict on compiling `shader`: its name when the compile status the
/// driver reports is `GL_TRUE`; otherwise the info log, as text when it is
/// valid UTF-8.  No shader comes out of a failed compile.
pub fn compile_shader(shader: GLuint, status: GLint, log: &[u8]) -> (r: Result<GLuint, Option<String>>)
    ensures
        r is Ok <==> status_ok(status),
        r matches Ok(n) ==> n == shader,
        r matches Err(m) ==> (m is Some <==> valid_utf8(log@)),
        r matches Err(Some(m)) ==> m@ == decode_utf8(log@),
{
    if status == 1 {
        Ok(shader)
    } else {
        Err(utf8_to_string(log))
    }
}

/// The message reported when the driver's link log is not valid UTF-8.
pub open spec fn malformed_log_message() -> Seq<char> {
    "link failure; graphics driver provided malformed log"@
}

/// The verdict on a program link: success when the link status is
/// `GL_TRUE`; otherwise the info log, or a fixed message when the log is not
/// valid UTF-8.
pub fn try_link_program(status: GLint, log: &[u8]) -> (r: Result<(), String>)
    ensures
        r is Ok <==> status_ok(status),
        r matches Err(m) ==> m@ == (match log_text(log@) {
            Some(t) => t,
            None => malformed_log_message(),
        }),
{
    if status == 1 {
        Ok(())
    } else {
        match utf8_to_string(log) {
            Some(msg) => Err(msg),
            None => {
                let msg = crate::text::owned("link failure; graphics driver provided malformed log");
                Err(msg)
            },
        }
    }
}

/// A program object that shaders are being attached to.
pub struct ProgramBuilder {
    name: GLuint,
}

/// A linked program object.
pub struct Program {
    name: GLuint,
}

impl ProgramBuilder {
    pub closed spec fn spec_name(&self) -> GLuint {
        self.name
    }

    /// The builder for the freshly created program object `program`.
    pub fn new_unattached(program: GLuint) -> (r: ProgramBuilder)
        ensures
            r.spec_name() == program,
    {
        ProgramBuilder { name: program }
    }

    /// The builder for the freshly created program object `program`, with
    /// the vertex shader and then the fragment shader attached.
    pub fn new(program: GLuint, vs: &VertexShader, fs: &FragmentShader, cmds: &mut Vec<GlCall>) -> (r:
        ProgramBuilder)
        ensures
            r.spec_name() == program,
            final(cmds)@ == old(cmds)@.push(
                GlCall::AttachShader { program, shader: vs.spec_name() },
            ).push(GlCall::AttachShader { program, shader: fs.spec_name() }),
    {
        let mut pb = ProgramBuilder::new_unattached(program);
        pb.attach_shader(vs, cmds);
        pb.attach_shader(fs, cmds);
        pb
    }

    /// The program object's name.
    pub fn name(&self) -> (r: GLuint)
        ensures
            r == self.spec_name(),
    {
        self.name
    }

    /// Attaches the shader `s` to the program.
    pub fn attach_shader<SHDR: Shader>(&mut self, s: &SHDR, cmds: &mut Vec<GlCall>)
        ensures
            final(self).spec_name() == old(self).spec_name(),
            final(cmds)@ == old(cmds)@.push(
                GlCall::AttachShader { program: old(self).spec_name(), shader: s.spec_name() },
            ),
    {
        cmds.push(GlCall::AttachShader { program: self.name, shader: s.name() });
    }

    /// Asks the driver to link the program; [`ProgramBuilder::link`] then
    /// judges the link status it reports.
    pub fn request_link(&self, cmds: &mut Vec<GlCall>)
        ensures
            final(cmds)@ == old(cmds)@.push(GlCall::LinkProgram { program: self.spec_name() }),
    {
        cmds.push(GlCall::LinkProgram { program: self.name });
    }

    /// The program, when the driver reports the link succeeded; otherwise
    /// the builder back with the link's error message.
    pub fn link(self, status: GLint, log: &[u8]) -> (r: Result<Program, (ProgramBuilder, String)>)
        ensures
            r is Ok <==> status_ok(status),
            r matches Ok(p) ==> p.spec_name() == self.spec_name(),
            r matches Err(e) ==> e.0.spec_name() == self.spec_name() && e.1@ == (match log_text(
                log@,
            ) {
                Some(t) => t,
                None => malformed_log_message(),
            }),
    {
        match try_link_program(status, log) {
            Ok(()) => Ok(Program { name: self.name }),
            Err(m) => Err((self, m)),
        }
    }

    /// Binds the input `g` to the attribute location `l` (takes effect at the
    /// next link).
    pub fn bind_attrib_location<T>(&self, l: &AttribLocation<T>, g: &Global<T>, cmds: &mut Vec<GlCall>)
        requires
            !g.spec_name().contains('\0'),
        ensures
            final(cmds)@.len() == old(cmds)@.len() + 1,
            final(cmds)@.drop_last() == old(cmds)@,
            final(cmds)@.last() matches GlCall::BindAttribLocation { program, index, name }
                && program == self.spec_name() && index == l.name as GLuint && name@
                == g.spec_name(),
    {
        cmds.push(
            GlCall::BindAttribLocation {
                program: self.name,
                index: l.name as GLuint,
                name: owned(g.name()),
            },
        );
        assert(final(cmds)@.drop_last() =~= old(cmds)@);
    }

    /// Binds the fragment output `g` to the color number `color_number`
    /// (takes effect at the next link).
    pub fn bind_frag_data_location<T>(&self, color_number: GLuint, g: &Global<T>, cmds: &mut Vec<GlCall>)
        requires
            !g.spec_name().contains('\0'),
        ensures
            final(cmds)@.len() == old(cmds)@.len() + 1,
            final(cmds)@.drop_last() == old(cmds)@,
            final(cmds)@.last() matches GlCall::BindFragDataLocation { program, color_number: c, name }
                && program == self.spec_name() && c == color_number && name@ == g.spec_name(),
    {
        cmds.push(
            GlCall::BindFragDataLocation {
                program: self.name,
                color_number: color_number,
                name: owned(g.name()),
            },
        );
        assert(final(cmds)@.drop_last() =~= old(cmds)@);
    }
}

/// What `glGetActiveAttrib`/`glGetActiveUniform` reported for one index:
/// the number of name bytes written, the variable's size and type, and the
/// name buffer.
pub struct ActiveVariableReport {
    pub written: GLint,
    pub size: GLint,
    pub type_: GLenum,
    pub buf: Vec<u8>,
}

/// A report the library can read: the written length is non-negative, lies
/// within the buffer, and the name bytes are UTF-8.
pub open spec fn report_ok(r: ActiveVariableReport) -> bool {
    &&& 0 <= r.written <= r.buf@.len()
    &&& valid_utf8(r.buf@.take(r.written as int))
}

/// The (size, type, name) the report describes.
pub open spec fn report_entry(r: ActiveVariableReport) -> (GLint, GLenum, Seq<char>) {
    (r.size, r.type_, decode_utf8(r.buf@.take(r.written as int)))
}

/// The (size, type, name) of each of the `n` active variables, from the
/// driver's reports for indices `0..n`.
pub fn collect_active(n: GLint, reports: &Vec<ActiveVariableReport>) -> (r: Vec<(GLint, GLenum, String)>)
    requires
        n >= 0,
        reports@.len() == n,
        forall|i: int| 0 <= i < n ==> report_ok(#[trigger] reports@[i]),
    ensures
        r@.len() == n,
        forall|i: int|
            0 <= i < n ==> ({
                let e = report_entry(reports@[i]);
                &&& (#[trigger] r@[i]).0 == e.0
                &&& r@[i].1 == e.1
                &&& r@[i].2@ == e.2
            }),
{
    let mut out: Vec<(GLint, GLenum, String)> = Vec::new();
    let count = n as usize;
    let mut i: usize = 0;
    while i < count
        invariant
            count == n,
            reports@.len() == n,
            forall|k: int| 0 <= k < n ==> report_ok(#[trigger] reports@[k]),
            i <= count,
            out@.len() == i,
            forall|k: int|
                0 <= k < i ==> ({
                    let e = report_entry(reports@[k]);
                    &&& (#[trigger] out@[k]).0 == e.0
                    &&& out@[k].1 == e.1
                    &&& out@[k].2@ == e.2
                }),
        decreases count - i,
    {
        let report = &reports[i];
        let written = report.written as usize;
        let mut bytes: Vec<u8> = Vec::new();
        let mut j: usize = 0;
        while j < written
            invariant
                report_ok(*report),
                written == report.written,
                j <= written,
                bytes@ == report.buf@.take(j as int),
            decreases written - j,
        {
            bytes.push(report.buf[j]);
            assert(bytes@ =~= report.buf@.take(j + 1));
            j = j + 1;
        }
        let name = utf8_to_string(bytes.as_slice());
        match name {
            Some(s) => {
                out.push((report.size, report.type_, s));
            },
            None => {
                assert(false);
            },
        }
        i = i + 1;
    }
    out
}

impl Program {
    pub closed spec fn spec_name(&self) -> GLuint {
        self.name
    }

    /// The program linked from `pb`, once the link requested with
    /// [`ProgramBuilder::request_link`] is reported successful; otherwise the
    /// link's error message.  No program comes out of a failed link.
    pub fn new(pb: ProgramBuilder, status: GLint, log: &[u8]) -> (r: Result<Program, String>)
        ensures
            r is Ok <==> status_ok(status),
            r matches Ok(p) ==> p.spec_name() == pb.spec_name(),
            r matches Err(m) ==> m@ == (match log_text(log@) {
                Some(t) => t,
                None => malformed_log_message(),
            }),
    {
        match pb.link(status, log) {
            Ok(p) => Ok(p),
            Err((_, m)) => Err(m),
        }
    }

    /// The program object's name.
    pub fn name(&self) -> (r: GLuint)
        ensures
            r == self.spec_name(),
    {
        self.name
    }

    /// Installs the program for rendering.
    pub fn use_program(&self, cmds: &mut Vec<GlCall>)
        ensures
            final(cmds)@ == old(cmds)@.push(GlCall::UseProgram { program: self.spec_name() }),
    {
        cmds.push(GlCall::UseProgram { program: self.name });
    }

    /// The (size, type, name) of every active attribute, from the count the
    /// driver reports and its report for each index.
    pub fn active_attribs(&self, n_attribs: GLint, reports: &Vec<ActiveVariableReport>) -> (r: Vec<
        (GLint, GLenum, String),
    >)
        requires
            n_attribs >= 0,
            reports@.len() == n_attribs,
            forall|i: int| 0 <= i < n_attribs ==> report_ok(#[trigger] reports@[i]),
        ensures
            r@.len() == n_attribs,
            forall|i: int|
                0 <= i < n_attribs ==> ({
                    let e = report_entry(reports@[i]);
                    &&& (#[trigger] r@[i]).0 == e.0
                    &&& r@[i].1 == e.1
                    &&& r@[i].2@ == e.2
                }),
    {
        collect_active(n_attribs, reports)
    }

    /// The (size, type, name) of every active uniform, from the count the
    /// driver reports and its report for each index.
    pub fn active_uniforms(&self, n_uniforms: GLint, reports: &Vec<ActiveVariableReport>) -> (r: Vec<
        (GLint, GLenum, String),
    >)
        requires
            n_uniforms >= 0,
            reports@.len() == n_uniforms,
            forall|i: int| 0 <= i < n_uniforms ==> report_ok(#[trigger] reports@[i]),
        ensures
            r@.len() == n_uniforms,
            forall|i: int|
                0 <= i < n_uniforms ==> ({
                    let e = report_entry(reports@[i]);
                    &&& (#[trigger] r@[i]).0 == e.0
                    &&& r@[i].1 == e.1
                    &&& r@[i].2@ == e.2
                }),
    {
        collect_active(n_uniforms, reports)
    }
}

} // verus!
