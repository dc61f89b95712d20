//! Building GLSL source text line by line.
use vstd::prelude::*;
use crate::glcall::GlCall;
use crate::glenum::{GLenum, GLint, GLuint, FRAGMENT_SHADER, TESS_CONTROL_SHADER, TESS_EVALUATION_SHADER, VERTEX_SHADER};
use crate::glsl::{
    FragmentShader, Global, Shader, TesselationControlShader, TesselationEvaluationShader,
    ToGLSLType, VertexShader,
};
use crate::program::{compile_shader, is_shader_source, shader_source_calls, shader_sources_ok, status_ok};
use vstd::utf8::{decode_utf8, valid_utf8};
use crate::text::{join, owned, seq_join, str_views, string_views};
use crate::laws::{builder_shape, lemma_builder_shape_kept};

verus! {

/// The line break the builders put after every line.
pub open spec fn newline() -> Seq<char> {
    seq!['\n']
}

/// The lines a builder holds after pushing each of `ls` in turn: every line
/// is followed by a line break of its own.
pub open spec fn pushed(ls: Seq<Seq<char>>) -> Seq<Seq<char>>
    decreases ls.len(),
{
    if ls.len() == 0 {
        Seq::empty()
    } else {
        pushed(ls.drop_last()) + seq![ls.last(), newline()]
    }
}

/// A declaration `qualifiers type name;`.
pub open spec fn decl_line(qualifiers: Seq<char>, ty: Seq<char>, name: Seq<char>) -> Seq<char> {
    qualifiers + seq![' '] + ty + seq![' '] + name + seq![';']
}

/// The header a builder made by `new_150core` starts from.
pub open spec fn version_150_core() -> Seq<char> {
    "#version 150 core"@
}

/// The types a uniform block member can have.
#[allow(non_camel_case_types)]
#[derive(Clone, Copy, Debug, PartialEq, Eq)]
pub enum GLSLType {
    sampler2d,
    vec2,
    vec3,
    vec4,
    mat4,
    float,
}

/// How a uniform block member type is written.
pub open spec fn glsl_type_text(t: GLSLType) -> Seq<char> {
    match t {
        GLSLType::sampler2d => "sampler2d"@,
        GLSLType::vec2 => "vec2"@,
        GLSLType::vec3 => "vec3"@,
        GLSLType::vec4 => "vec4"@,
        GLSLType::mat4 => "mat4"@,
        GLSLType::float => "float"@,
    }
}

impl GLSLType {
    /// The GLSL spelling of the type.
    pub fn to_string(&self) -> (r: String)
        ensures
            r@ == glsl_type_text(*self),
    {
        match self {
            GLSLType::sampler2d => owned("sampler2d"),
            GLSLType::vec2 => owned("vec2"),
            GLSLType::vec3 => owned("vec3"),
            GLSLType::vec4 => owned("vec4"),
            GLSLType::mat4 => owned("mat4"),
            GLSLType::float => owned("float"),
        }
    }
}

/// The member line `  type name;` of a uniform block.
pub open spec fn member_line(t: GLSLType, name: Seq<char>) -> Seq<char> {
    seq![' ', ' '] + glsl_type_text(t) + seq![' '] + name + seq![';']
}

/// The lines of a uniform block: its opening, one line per member, and its
/// closing, which names the instance when there is one.
pub open spec fn uniform_block_lines(
    name: Seq<char>,
    contents: Seq<(GLSLType, Seq<char>)>,
    instance_name: Option<Seq<char>>,
) -> Seq<Seq<char>> {
    seq!["uniform "@ + name + " {"@] + contents.map_values(
        |m: (GLSLType, Seq<char>)| member_line(m.0, m.1),
    ) + seq![
        match instance_name {
            None => "};"@,
            Some(s) => "} "@ + s + ";"@,
        },
    ]
}

/// The first line of a function definition `ret name(args) {`.
pub open spec fn fn_open_line(ret: Seq<char>, name: Seq<char>, args: Seq<Seq<char>>) -> Seq<char> {
    ret + seq![' '] + name + seq!['('] + seq_join(args, ", "@) + seq![')', ' ', '{']
}

/// The lines of a function definition with the given body lines.
pub open spec fn fn_def_lines(
    ret: Seq<char>,
    name: Seq<char>,
    args: Seq<Seq<char>>,
    body: Seq<Seq<char>>,
) -> Seq<Seq<char>> {
    seq![fn_open_line(ret, name, args)] + body + seq![seq!['}']]
}

/// Content for a function body: one or more lines.
pub trait ContentFiller {
    spec fn spec_fill(&self) -> Seq<Seq<char>>;

    /// The lines of content, in order.
    fn fill(&self) -> (r: Vec<String>)
        ensures
            string_views(r@) == self.spec_fill(),
    ;
}

impl<'a> ContentFiller for &'a str {
    open spec fn spec_fill(&self) -> Seq<Seq<char>> {
        seq![(*self)@]
    }

    fn fill(&self) -> (r: Vec<String>) {
        let mut r: Vec<String> = Vec::new();
        r.push(owned(*self));
        assert(string_views(r@) =~= seq![(*self)@]);
        r
    }
}

impl<'a, 'b> ContentFiller for &'a [&'b str] {
    open spec fn spec_fill(&self) -> Seq<Seq<char>> {
        str_views((*self)@)
    }

    fn fill(&self) -> (r: Vec<String>) {
        let mut r: Vec<String> = Vec::new();
        let mut i: usize = 0;
        while i < self.len()
            invariant
                i <= (*self)@.len(),
                string_views(r@) =~= str_views((*self)@.take(i as int)),
            decreases (*self)@.len() - i,
        {
            r.push(owned(self[i]));
            assert(str_views((*self)@.take(i + 1)) =~= str_views((*self)@.take(i as int)).push(
                (*self)@[i as int]@,
            ));
            i = i + 1;
        }
        assert((*self)@.take((*self)@.len() as int) =~= (*self)@);
        r
    }
}

/// Builds the source text of one shader stage.  A builder starts with its
/// header line (the `#version` line) and collects lines after it.
pub trait ShaderBuilder<SHDR: Shader>: Sized {
    spec fn spec_header(&self) -> Seq<char>;

    spec fn spec_lines(&self) -> Seq<Seq<char>>;

    spec fn spec_shader_type() -> GLenum;

    /// A builder whose header is `version_string` and a line break, and
    /// whose only line is that header.
    fn new(version_string: &str) -> (r: Self)
        ensures
            r.spec_header() == version_string@ + newline(),
            r.spec_lines() == seq![version_string@ + newline()],
    ;

    /// A builder for `#version 150 core`.
    fn new_150core() -> (r: Self)
        ensures
            r.spec_header() == version_150_core() + newline(),
            r.spec_lines() == seq![version_150_core() + newline()],
    {
        Self::new("#version 150 core")
    }

    /// The GL shader type of the stage built.
    fn shader_type(&self) -> (r: GLenum)
        ensures
            r == Self::spec_shader_type(),
    ;

    fn header(&self) -> (r: &str)
        ensures
            r@ == self.spec_header(),
    ;

    /// The lines collected so far.  They always have the builders' shape:
    /// the header first, then every pushed line followed by a line break.
    fn lines(&self) -> (r: &Vec<String>)
        ensures
            string_views(r@) == self.spec_lines(),
            builder_shape(self.spec_header(), self.spec_lines()),
    ;

    /// Drops every line but the header.
    fn clear(&mut self)
        ensures
            final(self).spec_header() == old(self).spec_header(),
            final(self).spec_lines() == seq![old(self).spec_header()],
    ;

    /// Appends `line` and then a line break.
    fn push(&mut self, line: &str)
        ensures
            final(self).spec_header() == old(self).spec_header(),
            final(self).spec_lines() == old(self).spec_lines() + seq![line@, newline()],
    ;

    /// Hands the collected lines to the freshly created `shader` object and
    /// asks for its compilation; [`ShaderBuilder::compile`] then judges the
    /// driver's verdict.
    fn request_compile(&self, shader: GLuint, cmds: &mut Vec<GlCall>)
        requires
            shader_sources_ok(self.spec_lines()),
        ensures
            final(cmds)@.len() == old(cmds)@.len() + 2,
            final(cmds)@.take(old(cmds)@.len() as int) == old(cmds)@,
            is_shader_source(final(cmds)@[old(cmds)@.len() as int], shader, self.spec_lines()),
            final(cmds)@[old(cmds)@.len() + 1int] == (GlCall::CompileShader { shader }),
    {
        shader_source_calls(self.lines(), shader, cmds);
    }

    /// The compiled shader `shader`, when the driver reports that the
    /// compile requested with [`ShaderBuilder::request_compile`] succeeded;
    /// otherwise the info log, as text when it is valid UTF-8.
    fn compile(&self, shader: GLuint, status: GLint, log: &[u8]) -> (r: Result<SHDR, Option<String>>)
        ensures
            r is Ok <==> status_ok(status),
            r matches Ok(s) ==> s.spec_name() == shader,
            r matches Err(m) ==> (m is Some <==> valid_utf8(log@)),
            r matches Err(Some(m)) ==> m@ == decode_utf8(log@),
    {
        match compile_shader(shader, status, log) {
            Ok(name) => Ok(SHDR::new(name)),
            Err(m) => Err(m),
        }
    }

    /// Declares a global `qualifiers type name;` of the GLSL type `T`.
    fn global<T: ToGLSLType>(&mut self, qualifiers: &str, name: &str) -> (r: Global<T>)
        ensures
            final(self).spec_header() == old(self).spec_header(),
            final(self).spec_lines() == old(self).spec_lines() + pushed(
                seq![decl_line(qualifiers@, T::glsl_type_name(), name@)],
            ),
            r.spec_type() == T::glsl_type_name(),
            r.spec_name() == name@,
    {
        let dummy_t: T = T::default();
        let type_ = dummy_t.type_();
        let mut line = owned(qualifiers);
        line.append(" ");
        line.append(type_);
        line.append(" ");
        line.append(name);
        line.append(";");
        proof {
            reveal_strlit(" ");
            reveal_strlit(";");
            assert(line@ =~= decl_line(qualifiers@, T::glsl_type_name(), name@));
            reveal_with_fuel(pushed, 2);
        }
        self.push(line.as_str());
        Global::new(owned(type_), owned(name))
    }

    /// Declares a uniform block with the given members and, when
    /// `instance_name` is given, an instance of it.
    fn uniform_block(
        &mut self,
        name: &str,
        contents: &[(GLSLType, &str)],
        instance_name: Option<&str>,
    )
        ensures
            final(self).spec_header() == old(self).spec_header(),
            final(self).spec_lines() == old(self).spec_lines() + pushed(
                uniform_block_lines(
                    name@,
                    contents@.map_values(|m: (GLSLType, &str)| (m.0, m.1@)),
                    match instance_name {
                        None => None,
                        Some(s) => Some(s@),
                    },
                ),
            ),
    {
        let ghost old_lines = self.spec_lines();
        let ghost members = contents@.map_values(|m: (GLSLType, &str)| (m.0, m.1@));
        let ghost member_lines = members.map_values(
            |m: (GLSLType, Seq<char>)| member_line(m.0, m.1),
        );
        let mut open = owned("uniform ");
        open.append(name);
        open.append(" {");
        proof {
            reveal_strlit("uniform ");
            reveal_strlit(" {");
        }
        self.push(open.as_str());
        proof {
            reveal_with_fuel(pushed, 2);
            assert(self.spec_lines() =~= old_lines + pushed(seq![open@]));
        }
        let mut i: usize = 0;
        while i < contents.len()
            invariant
                i <= contents@.len(),
                members == contents@.map_values(|m: (GLSLType, &str)| (m.0, m.1@)),
                member_lines == members.map_values(
                    |m: (GLSLType, Seq<char>)| member_line(m.0, m.1),
                ),
                self.spec_header() == old(self).spec_header(),
                self.spec_lines() == old_lines + pushed(
                    seq!["uniform "@ + name@ + " {"@] + member_lines.take(i as int),
                ),
            decreases contents@.len() - i,
        {
            let (typ_, member_name) = contents[i];
            let mut line = owned("  ");
            let t = typ_.to_string();
            line.append(t.as_str());
            line.append(" ");
            line.append(member_name);
            line.append(";");
            proof {
                reveal_strlit("  ");
                reveal_strlit(" ");
                reveal_strlit(";");
                assert(line@ =~= member_line(typ_, member_name@));
                assert(member_lines[i as int] == line@);
            }
            self.push(line.as_str());
            proof {
                let prefix = seq!["uniform "@ + name@ + " {"@];
                let next = prefix + member_lines.take(i + 1);
                assert(next.drop_last() =~= prefix + member_lines.take(i as int));
                assert(next.last() == line@);
                reveal_with_fuel(pushed, 2);
            }
            i = i + 1;
        }
        let close = match instance_name {
            None => owned("};"),
            Some(s) => {
                let mut c = owned("} ");
                c.append(s);
                c.append(";");
                c
            },
        };
        proof {
            reveal_strlit("} ");
            reveal_strlit(";");
            reveal_strlit("};");
        }
        self.push(close.as_str());
        proof {
            let prefix = seq!["uniform "@ + name@ + " {"@];
            assert(member_lines.take(contents@.len() as int) =~= member_lines);
            let all = uniform_block_lines(
                name@,
                members,
                match instance_name {
                    None => None,
                    Some(s) => Some(s@),
                },
            );
            assert(all.drop_last() =~= prefix + member_lines);
            reveal_with_fuel(pushed, 2);
        }
    }

    /// Appends one line, as `push` does.
    fn then(&mut self, line: &str)
        ensures
            final(self).spec_header() == old(self).spec_header(),
            final(self).spec_lines() == old(self).spec_lines() + seq![line@, newline()],
    {
        self.push(line);
    }

    /// Defines a function `ret name(args) { content }`.
    fn def_fn<C: ContentFiller>(&mut self, name: &str, args: &[&str], ret: &str, content: C)
        ensures
            final(self).spec_header() == old(self).spec_header(),
            final(self).spec_lines() == old(self).spec_lines() + pushed(
                fn_def_lines(ret@, name@, str_views(args@), content.spec_fill()),
            ),
    {
        let ghost old_lines = self.spec_lines();
        let sig = join(args, ", ");
        let mut open = owned(ret);
        open.append(" ");
        open.append(name);
        open.append("(");
        open.append(sig.as_str());
        open.append(") {");
        proof {
            reveal_strlit(" ");
            reveal_strlit("(");
            reveal_strlit(") {");
            assert(open@ =~= fn_open_line(ret@, name@, str_views(args@)));
        }
        self.push(open.as_str());
        let body = content.fill();
        proof {
            reveal_with_fuel(pushed, 2);
            assert(self.spec_lines() =~= old_lines + pushed(seq![open@]));
        }
        let mut i: usize = 0;
        while i < body.len()
            invariant
                i <= body@.len(),
                string_views(body@) == content.spec_fill(),
                self.spec_header() == old(self).spec_header(),
                self.spec_lines() == old_lines + pushed(
                    seq![open@] + string_views(body@).take(i as int),
                ),
            decreases body@.len() - i,
        {
            self.push(body[i].as_str());
            proof {
                let next = seq![open@] + string_views(body@).take(i + 1);
                assert(next.drop_last() =~= seq![open@] + string_views(body@).take(i as int));
                assert(next.last() == body@[i as int]@);
                reveal_with_fuel(pushed, 2);
            }
            i = i + 1;
        }
        self.push("}");
        proof {
            reveal_strlit("}");
            assert(string_views(body@).take(body@.len() as int) =~= string_views(body@));
            let all = fn_def_lines(ret@, name@, str_views(args@), content.spec_fill());
            assert(all.drop_last() =~= seq![open@] + string_views(body@));
            assert(all.last() == "}"@);
            assert(pushed(all) == pushed(all.drop_last()) + seq![all.last(), newline()]);
        }
    }

    /// Defines `void main() { content }`.
    fn def_main<C: ContentFiller>(&mut self, content: C)
        ensures
            final(self).spec_header() == old(self).spec_header(),
            final(self).spec_lines() == old(self).spec_lines() + pushed(
                fn_def_lines("void"@, "main"@, Seq::empty(), content.spec_fill()),
            ),
    {
        let no_args: [&str; 0] = [];
        proof {
            assert(str_views(no_args@) =~= Seq::<Seq<char>>::empty());
        }
        self.def_fn("main", &no_args, "void", content)
    }
}

pub struct VertexShaderBuilder {
    header: String,
    lines: Vec<String>,
}

impl VertexShaderBuilder {
    #[verifier::type_invariant]
    spec fn shape(&self) -> bool {
        builder_shape(self.header@, string_views(self.lines@))
    }
}

impl ShaderBuilder<VertexShader> for VertexShaderBuilder {
    closed spec fn spec_header(&self) -> Seq<char> {
        self.header@
    }

    closed spec fn spec_lines(&self) -> Seq<Seq<char>> {
        string_views(self.lines@)
    }

    open spec fn spec_shader_type() -> GLenum {
        VERTEX_SHADER
    }

    fn new(version_string: &str) -> (r: VertexShaderBuilder) {
        let mut hdr = owned(version_string);
        hdr.append("\n");
        proof {
            reveal_strlit("\n");
            assert("\n"@ == newline());
        }
        let mut lines: Vec<String> = Vec::new();
        lines.push(hdr.clone());
        assert(string_views(lines@) =~= seq![hdr@]);
        let r = VertexShaderBuilder { header: hdr, lines: lines };
        r
    }

    fn header(&self) -> (r: &str) {
        self.header.as_str()
    }

    fn lines(&self) -> (r: &Vec<String>) {
        proof {
            use_type_invariant(self);
        }
        &self.lines
    }

    fn shader_type(&self) -> (r: GLenum) {
        VERTEX_SHADER
    }

    fn clear(&mut self) {
        let mut lines: Vec<String> = Vec::new();
        lines.push(self.header.clone());
        assert(string_views(lines@) =~= seq![self.header@]);
        self.lines = lines;
    }

    fn push(&mut self, line: &str) {
        proof {
            reveal_strlit("\n");
            assert("\n"@ == newline());
        }
        proof {
            use_type_invariant(&*self);
            lemma_builder_shape_kept(self.header@, string_views(self.lines@), seq![line@]);
        }
        let mut lines = self.lines.clone();
        lines.push(owned(line));
        lines.push(owned("\n"));
        assert(string_views(lines@) =~= old(self).spec_lines() + seq![line@, newline()]);
        self.lines = lines;
    }
}

pub struct FragmentShaderBuilder {
    header: String,
    lines: Vec<String>,
}

impl FragmentShaderBuilder {
    #[verifier::type_invariant]
    spec fn shape(&self) -> bool {
        builder_shape(self.header@, string_views(self.lines@))
    }
}

impl ShaderBuilder<FragmentShader> for FragmentShaderBuilder {
    closed spec fn spec_header(&self) -> Seq<char> {
        self.header@
    }

    closed spec fn spec_lines(&self) -> Seq<Seq<char>> {
        string_views(self.lines@)
    }

    open spec fn spec_shader_type() -> GLenum {
        FRAGMENT_SHADER
    }

    fn new(version_string: &str) -> (r: FragmentShaderBuilder) {
        let mut hdr = owned(version_string);
        hdr.append("\n");
        proof {
            reveal_strlit("\n");
            assert("\n"@ == newline());
        }
        let mut lines: Vec<String> = Vec::new();
        lines.push(hdr.clone());
        assert(string_views(lines@) =~= seq![hdr@]);
        let r = FragmentShaderBuilder { header: hdr, lines: lines };
        r
    }

    fn header(&self) -> (r: &str) {
        self.header.as_str()
    }

    fn lines(&self) -> (r: &Vec<String>) {
        proof {
            use_type_invariant(self);
        }
        &self.lines
    }

    fn shader_type(&self) -> (r: GLenum) {
        FRAGMENT_SHADER
    }

    fn clear(&mut self) {
        let mut lines: Vec<String> = Vec::new();
        lines.push(self.header.clone());
        assert(string_views(lines@) =~= seq![self.header@]);
        self.lines = lines;
    }

    fn push(&mut self, line: &str) {
        proof {
            reveal_strlit("\n");
            assert("\n"@ == newline());
        }
        proof {
            use_type_invariant(&*self);
            lemma_builder_shape_kept(self.header@, string_views(self.lines@), seq![line@]);
        }
        let mut lines = self.lines.clone();
        lines.push(owned(line));
        lines.push(owned("\n"));
        assert(string_views(lines@) =~= old(self).spec_lines() + seq![line@, newline()]);
        self.lines = lines;
    }
}

pub struct TessellationControlShaderBuilder {
    header: String,
    lines: Vec<String>,
}

impl TessellationControlShaderBuilder {
    #[verifier::type_invariant]
    spec fn shape(&self) -> bool {
        builder_shape(self.header@, string_views(self.lines@))
    }
}

impl ShaderBuilder<TesselationControlShader> for TessellationControlShaderBuilder {
    closed spec fn spec_header(&self) -> Seq<char> {
        self.header@
    }

    closed spec fn spec_lines(&self) -> Seq<Seq<char>> {
        string_views(self.lines@)
    }

    open spec fn spec_shader_type() -> GLenum {
        TESS_CONTROL_SHADER
    }

    fn new(version_string: &str) -> (r: TessellationControlShaderBuilder) {
        let mut hdr = owned(version_string);
        hdr.append("\n");
        proof {
            reveal_strlit("\n");
            assert("\n"@ == newline());
        }
        let mut lines: Vec<String> = Vec::new();
        lines.push(hdr.clone());
        assert(string_views(lines@) =~= seq![hdr@]);
        let r = TessellationControlShaderBuilder { header: hdr, lines: lines };
        r
    }

    fn header(&self) -> (r: &str) {
        self.header.as_str()
    }

    fn lines(&self) -> (r: &Vec<String>) {
        proof {
            use_type_invariant(self);
        }
        &self.lines
    }

    fn shader_type(&self) -> (r: GLenum) {
        TESS_CONTROL_SHADER
    }

    fn clear(&mut self) {
        let mut lines: Vec<String> = Vec::new();
        lines.push(self.header.clone());
        assert(string_views(lines@) =~= seq![self.header@]);
        self.lines = lines;
    }

    fn push(&mut self, line: &str) {
        proof {
            reveal_strlit("\n");
            assert("\n"@ == newline());
        }
        proof {
            use_type_invariant(&*self);
            lemma_builder_shape_kept(self.header@, string_views(self.lines@), seq![line@]);
        }
        let mut lines = self.lines.clone();
        lines.push(owned(line));
        lines.push(owned("\n"));
        assert(string_views(lines@) =~= old(self).spec_lines() + seq![line@, newline()]);
        self.lines = lines;
    }
}

pub struct TessellationEvaluationShaderBuilder {
    header: String,
    lines: Vec<String>,
}

impl TessellationEvaluationShaderBuilder {
    #[verifier::type_invariant]
    spec fn shape(&self) -> bool {
        builder_shape(self.header@, string_views(self.lines@))
    }
}

impl ShaderBuilder<TesselationEvaluationShader> for TessellationEvaluationShaderBuilder {
    closed spec fn spec_header(&self) -> Seq<char> {
        self.header@
    }

    closed spec fn spec_lines(&self) -> Seq<Seq<char>> {
        string_views(self.lines@)
    }

    open spec fn spec_shader_type() -> GLenum {
        TESS_EVALUATION_SHADER
    }

    fn new(version_string: &str) -> (r: TessellationEvaluationShaderBuilder) {
        let mut hdr = owned(version_string);
        hdr.append("\n");
        proof {
            reveal_strlit("\n");
            assert("\n"@ == newline());
        }
        let mut lines: Vec<String> = Vec::new();
        lines.push(hdr.clone());
        assert(string_views(lines@) =~= seq![hdr@]);
        let r = TessellationEvaluationShaderBuilder { header: hdr, lines: lines };
        r
    }

    fn header(&self) -> (r: &str) {
        self.header.as_str()
    }

    fn lines(&self) -> (r: &Vec<String>) {
        proof {
            use_type_invariant(self);
        }
        &self.lines
    }

    fn shader_type(&self) -> (r: GLenum) {
        TESS_EVALUATION_SHADER
    }

    fn clear(&mut self) {
        let mut lines: Vec<String> = Vec::new();
        lines.push(self.header.clone());
        assert(string_views(lines@) =~= seq![self.header@]);
        self.lines = lines;
    }

    fn push(&mut self, line: &str) {
        proof {
            reveal_strlit("\n");
            assert("\n"@ == newline());
        }
        proof {
            use_type_invariant(&*self);
            lemma_builder_shape_kept(self.header@, string_views(self.lines@), seq![line@]);
        }
        let mut lines = self.lines.clone();
        lines.push(owned(line));
        lines.push(owned("\n"));
        assert(string_views(lines@) =~= old(self).spec_lines() + seq![line@, newline()]);
        self.lines = lines;
    }
}

impl VertexShaderBuilder {
    /// The compiled vertex shader `shader`, when the driver reports that the
    /// compile requested with [`ShaderBuilder::request_compile`] succeeded;
    /// otherwise the info log, as text when it is valid UTF-8.
    pub fn compile(&self, shader: GLuint, status: GLint, log: &[u8]) -> (r: Result<VertexShader, Option<String>>)
        ensures
            r is Ok <==> status_ok(status),
            r matches Ok(s) ==> s.spec_name() == shader,
            r matches Err(m) ==> (m is Some <==> valid_utf8(log@)),
            r matches Err(Some(m)) ==> m@ == decode_utf8(log@),
    {
        match compile_shader(shader, status, log) {
            Ok(name) => Ok(VertexShader::new(name)),
            Err(m) => Err(m),
        }
    }

    /// Declares an output `out qualifiers type name;`.
    pub fn out_global<T: ToGLSLType>(&mut self, qualifiers: &str, name: &str) -> (r: Global<T>)
        ensures
            final(self).spec_header() == old(self).spec_header(),
            final(self).spec_lines() == old(self).spec_lines() + pushed(
                seq![decl_line("out "@ + qualifiers@, T::glsl_type_name(), name@)],
            ),
            r.spec_type() == T::glsl_type_name(),
            r.spec_name() == name@,
    {
        let mut q = owned("out ");
        q.append(qualifiers);
        proof {
            reveal_strlit("out ");
        }
        self.global::<T>(q.as_str(), name)
    }
}

impl FragmentShaderBuilder {
    /// The compiled fragment shader `shader`, when the driver reports that the
    /// compile requested with [`ShaderBuilder::request_compile`] succeeded;
    /// otherwise the info log, as text when it is valid UTF-8.
    pub fn compile(&self, shader: GLuint, status: GLint, log: &[u8]) -> (r: Result<FragmentShader, Option<String>>)
        ensures
            r is Ok <==> status_ok(status),
            r matches Ok(s) ==> s.spec_name() == shader,
            r matches Err(m) ==> (m is Some <==> valid_utf8(log@)),
            r matches Err(Some(m)) ==> m@ == decode_utf8(log@),
    {
        match compile_shader(shader, status, log) {
            Ok(name) => Ok(FragmentShader::new(name)),
            Err(m) => Err(m),
        }
    }

    /// Declares an input `in qualifiers type name;` that matches the global
    /// `g` of another stage: same type, same name.
    pub fn in_global<T: ToGLSLType>(&mut self, qualifiers: &str, g: &Global<T>) -> (r: Global<T>)
        ensures
            final(self).spec_header() == old(self).spec_header(),
            final(self).spec_lines() == old(self).spec_lines() + pushed(
                seq![decl_line("in "@ + qualifiers@, T::glsl_type_name(), g.spec_name())],
            ),
            r.spec_type() == T::glsl_type_name(),
            r.spec_name() == g.spec_name(),
    {
        let mut q = owned("in ");
        q.append(qualifiers);
        proof {
            reveal_strlit("in ");
        }
        self.global::<T>(q.as_str(), g.name())
    }
}

} // verus!
