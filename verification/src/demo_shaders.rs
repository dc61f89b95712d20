//! The shader sources of the demos, built with the shader builders.  Each
//! function returns the builders of one demo, ready to be compiled; its
//! contract gives every line they hold.
use vstd::prelude::*;
use crate::glsl::{Global, Mat4, Sampler2D, ToGLSLType, Vec2, Vec3, Vec4};
use crate::shader_builder::{
    decl_line, fn_def_lines, newline, pushed, uniform_block_lines, version_150_core,
    FragmentShaderBuilder, GLSLType, ShaderBuilder, TessellationControlShaderBuilder,
    TessellationEvaluationShaderBuilder, VertexShaderBuilder,
};

verus! {

/// The version line of the superbible demos' shaders, except the vertex
/// shaders of the third and fourth demos.
pub const VERSION_410_CORE: &'static str = "#version 410 core";

/// The version line of the cookbook demos' shaders and of the vertex
/// shaders of the third and fourth superbible demos.
pub const VERSION_400: &'static str = "#version 400";

/// The body of the first superbible vertex shader: one point.
pub const POINT_VS_MAIN: &'static str = "gl_Position = vec4(0.0, 0.0, 0.5, 1.0);";

/// The body of the superbible fragment shaders that paint one flat colour.
pub const FLAT_COLOR_FS_MAIN: &'static str = "color = vec4(0.0, 0.8, 1.0, 1.0);";

/// The body of the third superbible fragment shader.
pub const BLOCK_COLOR_FS_MAIN: &'static str = "color = fs_in.color;";

/// The layout line of the tessellation control shader.
pub const TESS_CONTROL_LAYOUT: &'static str = "layout (vertices = 3) out;";

/// The layout line of the tessellation evaluation shader.
pub const TESS_EVAL_LAYOUT: &'static str = "layout (triangles, equal_spacing, cw) in;";

/// The body of the fragment shader of the first cookbook demo.
pub const ROTATING_FS_MAIN: &'static str = "FragColor = vec4(Color, 1.0);";

/// The body of the second superbible vertex shader: one fixed triangle.
pub const TRIANGLE_VS_MAIN: &'static str = "const vec4 vertices[3] =
                           vec4[3](vec4( 0.25, -0.25, 0.5, 1.0),
                                   vec4(-0.25, -0.25, 0.5, 1.0),
                                   vec4( 0.25,  0.25, 0.5, 1.0));
                 gl_Position = vertices[gl_VertexID];";

/// The body of the third superbible vertex shader: the triangle moved by `offset`, its colour passed on.
pub const OFFSET_COLOR_VS_MAIN: &'static str = "const vec4 vertices[3] = vec4[3](
            vec4( 0.25, -0.25, 0.5, 1.0),
            vec4(-0.25, -0.25, 0.5, 1.0),
            vec4( 0.25,  0.25, 0.5, 1.0));
         // Add `offset` to our hard coded vertex position
         gl_Position = vertices[gl_VertexID] + offset;
         // Output a fixed value for vs_color
         vs_out.color = color;
    ";

/// The body of the fourth superbible vertex shader: the triangle moved by `offset`.
pub const OFFSET_VS_MAIN: &'static str = "const vec4 vertices[3] = vec4[3](
            vec4( 0.25, -0.25, 0.5, 1.0),
            vec4(-0.25, -0.25, 0.5, 1.0),
            vec4( 0.25,  0.25, 0.5, 1.0));
         // Add `offset` to our hard coded vertex position
         gl_Position = vertices[gl_VertexID] + offset;
    ";

/// The body of the tessellation control shader of the fourth superbible demo.
pub const TESS_CONTROL_MAIN: &'static str = "if (gl_InvocationID == 0) {
            gl_TessLevelInner[0] = 5.0;
            gl_TessLevelOuter[0] = 5.0;
            gl_TessLevelOuter[1] = 5.0;
            gl_TessLevelOuter[2] = 5.0;
        }
        gl_out[gl_InvocationID].gl_Position =
            gl_in[gl_InvocationID].gl_Position;";

/// The body of the tessellation evaluation shader of the fourth superbible demo.
pub const TESS_EVAL_MAIN: &'static str = "gl_Position = (gl_TessCoord.x * gl_in[0].gl_Position +
                        gl_TessCoord.y * gl_in[1].gl_Position +
                        gl_TessCoord.z * gl_in[2].gl_Position);";

/// The body of the vertex shader of the blob demos.
pub const BLOB_VS_MAIN: &'static str = "TexCoord = VertexTexCoord;\
               \nColor = VertexColor;\
               \ngl_Position = vec4( VertexPosition, 1.0 );";

/// The body of the fragment shader of the blob demos.
pub const BLOB_FS_MAIN: &'static str = "float dx = TexCoord.x - 0.5;\
               \nfloat dy = TexCoord.y - 0.5;\
               \nfloat dist = sqrt(dx * dx + dy * dy);\
               \n//FragColor = mix( Blob.InnerColor, Blob.OuterColor,\
               \n//                  smoothstep( Blob.RadiusInner, Blob.RadiusOuter, dist));\
               \nFragColor = mix( Blob.InnerColor, vec4(Color,1.0),\
               \n                  smoothstep( Blob.RadiusInner, Blob.RadiusOuter, dist));\
               \n//FragColor = vec4(Color, 1.0);\
               \n";

/// The body of the vertex shader of the first cookbook demo.
pub const ROTATING_VS_MAIN: &'static str = "Color = VertexColor;
                 gl_Position = RotationMatrix * vec4( VertexPosition, 1.0 );";

/// The body of the vertex shader of the textured demo.
pub const TEXTURED_VS_MAIN: &'static str = "
        v2f_color = color;
        v2f_texcoord = texcoord;
        gl_Position = model * vec4(position, 0.0, 1.0);";

/// The body of the fragment shader of the textured demo.
pub const TEXTURED_FS_MAIN: &'static str = "
        vec4 colKitten = texture(texKitten, v2f_texcoord);
        vec4 colPuppy  = texture(texPuppy, v2f_texcoord);
        out_color = mix(colKitten, colPuppy.rgba, 0.5) * vec4(v2f_color, 1.0);
        // out_color = colKitten * vec4(v2f_color, 1.0);
        // out_color = mix(colKitten, colPuppy, 0.5);";

/// The interface block that the third superbible demo passes from its vertex
/// shader to its fragment shader.
pub struct VsOut;

impl Default for VsOut {
    fn default() -> (r: VsOut) {
        VsOut
    }
}

impl ToGLSLType for VsOut {
    open spec fn glsl_type_name() -> Seq<char> {
        "VS_OUT { vec4 color; }"@
    }

    fn type_(&self) -> (r: &str) {
        "VS_OUT { vec4 color; }"
    }
}

/// The first line of a builder made with the given version line.
pub open spec fn header_lines(version: Seq<char>) -> Seq<Seq<char>> {
    seq![version + newline()]
}

/// The lines that one declaration adds.
pub open spec fn decl_lines(qualifiers: Seq<char>, ty: Seq<char>, name: Seq<char>) -> Seq<Seq<char>> {
    pushed(seq![decl_line(qualifiers, ty, name)])
}

/// The lines that `def_main` adds for a body given as one piece of text.
pub open spec fn main_lines(body: Seq<char>) -> Seq<Seq<char>> {
    pushed(fn_def_lines("void"@, "main"@, Seq::empty(), seq![body]))
}

/// The flat-colour fragment shader of the superbible demos.
pub open spec fn flat_color_fs_lines() -> Seq<Seq<char>> {
    header_lines(VERSION_410_CORE@)
        + decl_lines("out"@, Vec4::glsl_type_name(), "color"@)
        + main_lines(FLAT_COLOR_FS_MAIN@)
}

/// The vertex shader of the first superbible demo.
pub open spec fn point_vs_lines() -> Seq<Seq<char>> {
    header_lines(VERSION_410_CORE@) + main_lines(POINT_VS_MAIN@)
}

/// The vertex shader of the second superbible demo.
pub open spec fn triangle_vs_lines() -> Seq<Seq<char>> {
    header_lines(VERSION_410_CORE@) + main_lines(TRIANGLE_VS_MAIN@)
}

/// The two vertex inputs `offset` and `color` of the third and fourth
/// superbible demos, after their header.
pub open spec fn offset_color_inputs() -> Seq<Seq<char>> {
    header_lines(VERSION_400@)
        + decl_lines("layout (location = 0) in"@, Vec4::glsl_type_name(), "offset"@)
        + decl_lines("layout (location = 1) in"@, Vec4::glsl_type_name(), "color"@)
}

/// The vertex shader of the third superbible demo.
pub open spec fn offset_color_vs_lines() -> Seq<Seq<char>> {
    offset_color_inputs()
        + decl_lines("out"@, VsOut::glsl_type_name(), "vs_out"@)
        + main_lines(OFFSET_COLOR_VS_MAIN@)
}

/// The fragment shader of the third superbible demo.
pub open spec fn block_color_fs_lines() -> Seq<Seq<char>> {
    header_lines(VERSION_410_CORE@)
        + decl_lines("in"@, Vec4::glsl_type_name(), "vs_color"@)
        + decl_lines("in"@, VsOut::glsl_type_name(), "fs_in"@)
        + decl_lines("out"@, Vec4::glsl_type_name(), "color"@)
        + main_lines(BLOCK_COLOR_FS_MAIN@)
}

/// The vertex shader of the fourth superbible demo.
pub open spec fn offset_vs_lines() -> Seq<Seq<char>> {
    offset_color_inputs() + main_lines(OFFSET_VS_MAIN@)
}

/// The tessellation control shader of the fourth superbible demo.
pub open spec fn tess_control_lines() -> Seq<Seq<char>> {
    header_lines(VERSION_410_CORE@) + pushed(seq![TESS_CONTROL_LAYOUT@]) + main_lines(
        TESS_CONTROL_MAIN@,
    )
}

/// The tessellation evaluation shader of the fourth superbible demo.
pub open spec fn tess_eval_lines() -> Seq<Seq<char>> {
    header_lines(VERSION_410_CORE@) + pushed(seq![TESS_EVAL_LAYOUT@]) + main_lines(
        TESS_EVAL_MAIN@,
    )
}

/// The vertex shader of the blob demos.
pub open spec fn blob_vs_lines() -> Seq<Seq<char>> {
    header_lines(VERSION_400@)
        + decl_lines("layout (location = 0) in"@, Vec3::glsl_type_name(), "VertexPosition"@)
        + decl_lines("layout (location = 1) in"@, Vec3::glsl_type_name(), "VertexColor"@)
        + decl_lines("layout (location = 2) in"@, Vec2::glsl_type_name(), "VertexTexCoord"@)
        + decl_lines("out"@, Vec3::glsl_type_name(), "Color"@)
        + decl_lines("out"@, Vec2::glsl_type_name(), "TexCoord"@)
        + main_lines(BLOB_VS_MAIN@)
}

/// The members of the `BlobSettings` uniform block.
pub open spec fn blob_settings_members() -> Seq<(GLSLType, Seq<char>)> {
    seq![
        (GLSLType::vec4, "InnerColor"@),
        (GLSLType::vec4, "OuterColor"@),
        (GLSLType::float, "RadiusInner"@),
        (GLSLType::float, "RadiusOuter"@),
    ]
}

/// The fragment shader of the blob demos.
pub open spec fn blob_fs_lines() -> Seq<Seq<char>> {
    header_lines(VERSION_400@)
        + decl_lines("in"@, Vec2::glsl_type_name(), "TexCoord"@)
        + decl_lines("in"@, Vec3::glsl_type_name(), "Color"@)
        + decl_lines("layout (location = 0) out"@, Vec4::glsl_type_name(), "FragColor"@)
        + pushed(uniform_block_lines("BlobSettings"@, blob_settings_members(), Some("Blob"@)))
        + main_lines(BLOB_FS_MAIN@)
}

/// The vertex shader of the first cookbook demo.
pub open spec fn rotating_vs_lines() -> Seq<Seq<char>> {
    header_lines(VERSION_400@)
        + decl_lines("layout (location = 0) in"@, Vec3::glsl_type_name(), "VertexPosition"@)
        + decl_lines("layout (location = 1) in"@, Vec3::glsl_type_name(), "VertexColor"@)
        + decl_lines("out"@, Vec3::glsl_type_name(), "LightIntensity"@)
        + decl_lines("out"@, Vec3::glsl_type_name(), "Color"@)
        + decl_lines("uniform"@, Mat4::glsl_type_name(), "RotationMatrix"@)
        + main_lines(ROTATING_VS_MAIN@)
}

/// The fragment shader of the first cookbook demo.
pub open spec fn rotating_fs_lines() -> Seq<Seq<char>> {
    header_lines(VERSION_400@)
        + decl_lines("in"@, Vec3::glsl_type_name(), "Color"@)
        + decl_lines("layout (location = 0) out"@, Vec4::glsl_type_name(), "FragColor"@)
        + main_lines(ROTATING_FS_MAIN@)
}

/// The vertex shader of the textured demo.
pub open spec fn textured_vs_lines() -> Seq<Seq<char>> {
    header_lines(version_150_core())
        + decl_lines("in"@, Vec2::glsl_type_name(), "position"@)
        + decl_lines("in"@, Vec3::glsl_type_name(), "color"@)
        + decl_lines("in"@, Vec2::glsl_type_name(), "texcoord"@)
        + decl_lines("out "@, Vec3::glsl_type_name(), "v2f_color"@)
        + decl_lines("out "@, Vec2::glsl_type_name(), "v2f_texcoord"@)
        + decl_lines("uniform"@, Mat4::glsl_type_name(), "model"@)
        + decl_lines("uniform"@, Mat4::glsl_type_name(), "view"@)
        + decl_lines("uniform"@, Mat4::glsl_type_name(), "proj"@)
        + main_lines(TEXTURED_VS_MAIN@)
}

/// The fragment shader of the textured demo.
pub open spec fn textured_fs_lines() -> Seq<Seq<char>> {
    header_lines(version_150_core())
        + decl_lines("in "@, Vec3::glsl_type_name(), "v2f_color"@)
        + decl_lines("in "@, Vec2::glsl_type_name(), "v2f_texcoord"@)
        + decl_lines("out"@, Vec4::glsl_type_name(), "out_color"@)
        + decl_lines("uniform"@, Sampler2D::glsl_type_name(), "texKitten"@)
        + decl_lines("uniform"@, Sampler2D::glsl_type_name(), "texPuppy"@)
        + main_lines(TEXTURED_FS_MAIN@)
}

fn flat_color_fs() -> (r: FragmentShaderBuilder)
    ensures
        r.spec_header() == VERSION_410_CORE@ + newline(),
        r.spec_lines() == flat_color_fs_lines(),
{
    let mut fs: FragmentShaderBuilder = ShaderBuilder::new(VERSION_410_CORE);
    fs.global::<Vec4>("out", "color");
    fs.def_main(FLAT_COLOR_FS_MAIN);
    fs
}

/// The shaders of the first superbible demo: a vertex shader that places one
/// point and a fragment shader that paints it.
pub fn superbible_1_shaders() -> (r: (VertexShaderBuilder, FragmentShaderBuilder))
    ensures
        r.0.spec_header() == VERSION_410_CORE@ + newline(),
        r.0.spec_lines() == point_vs_lines(),
        r.1.spec_header() == VERSION_410_CORE@ + newline(),
        r.1.spec_lines() == flat_color_fs_lines(),
{
    let mut vs: VertexShaderBuilder = ShaderBuilder::new(VERSION_410_CORE);
    vs.def_main(POINT_VS_MAIN);
    (vs, flat_color_fs())
}

/// The shaders of the second superbible demo: one fixed triangle, painted
/// with a flat colour.
pub fn superbible_2_shaders() -> (r: (VertexShaderBuilder, FragmentShaderBuilder))
    ensures
        r.0.spec_header() == VERSION_410_CORE@ + newline(),
        r.0.spec_lines() == triangle_vs_lines(),
        r.1.spec_header() == VERSION_410_CORE@ + newline(),
        r.1.spec_lines() == flat_color_fs_lines(),
{
    let mut vs: VertexShaderBuilder = ShaderBuilder::new(VERSION_410_CORE);
    vs.def_main(TRIANGLE_VS_MAIN);
    (vs, flat_color_fs())
}

fn offset_color_vs() -> (r: VertexShaderBuilder)
    ensures
        r.spec_header() == VERSION_400@ + newline(),
        r.spec_lines() == offset_color_inputs(),
{
    let mut vs: VertexShaderBuilder = ShaderBuilder::new(VERSION_400);
    vs.global::<Vec4>("layout (location = 0) in", "offset");
    vs.global::<Vec4>("layout (location = 1) in", "color");
    vs
}

/// The shaders of the third superbible demo: the triangle moved by the
/// `offset` input, whose colour reaches the fragment shader through the
/// `VS_OUT` block.
pub fn superbible_3_shaders() -> (r: (VertexShaderBuilder, FragmentShaderBuilder))
    ensures
        r.0.spec_header() == VERSION_400@ + newline(),
        r.0.spec_lines() == offset_color_vs_lines(),
        r.1.spec_header() == VERSION_410_CORE@ + newline(),
        r.1.spec_lines() == block_color_fs_lines(),
{
    let mut vs = offset_color_vs();
    vs.global::<VsOut>("out", "vs_out");
    vs.def_main(OFFSET_COLOR_VS_MAIN);

    let mut fs: FragmentShaderBuilder = ShaderBuilder::new(VERSION_410_CORE);
    fs.global::<Vec4>("in", "vs_color");
    fs.global::<VsOut>("in", "fs_in");
    fs.global::<Vec4>("out", "color");
    fs.def_main(BLOCK_COLOR_FS_MAIN);
    (vs, fs)
}

/// The shaders of the fourth superbible demo: the moved triangle, split by
/// the tessellation stages, painted with a flat colour.
pub fn superbible_4_shaders() -> (r: (
    VertexShaderBuilder,
    FragmentShaderBuilder,
    TessellationControlShaderBuilder,
    TessellationEvaluationShaderBuilder,
))
    ensures
        r.0.spec_header() == VERSION_400@ + newline(),
        r.0.spec_lines() == offset_vs_lines(),
        r.1.spec_header() == VERSION_410_CORE@ + newline(),
        r.1.spec_lines() == flat_color_fs_lines(),
        r.2.spec_header() == VERSION_410_CORE@ + newline(),
        r.2.spec_lines() == tess_control_lines(),
        r.3.spec_header() == VERSION_410_CORE@ + newline(),
        r.3.spec_lines() == tess_eval_lines(),
{
    let mut vs = offset_color_vs();
    vs.def_main(OFFSET_VS_MAIN);

    let mut tcs: TessellationControlShaderBuilder = ShaderBuilder::new(VERSION_410_CORE);
    tcs.push(TESS_CONTROL_LAYOUT);
    tcs.def_main(TESS_CONTROL_MAIN);

    let mut tes: TessellationEvaluationShaderBuilder = ShaderBuilder::new(VERSION_410_CORE);
    tes.push(TESS_EVAL_LAYOUT);
    tes.def_main(TESS_EVAL_MAIN);

    proof {
        // `push` appends a line and its line break: `pushed` of that line.
        reveal_with_fuel(pushed, 2);
    }
    (vs, flat_color_fs(), tcs, tes)
}

/// The shaders of the blob demos: a textured square whose fragment shader
/// blends from the inner colour of the `BlobSettings` uniform block.
pub fn blob_shaders() -> (r: (VertexShaderBuilder, FragmentShaderBuilder))
    ensures
        r.0.spec_header() == VERSION_400@ + newline(),
        r.0.spec_lines() == blob_vs_lines(),
        r.1.spec_header() == VERSION_400@ + newline(),
        r.1.spec_lines() == blob_fs_lines(),
{
    let mut vs: VertexShaderBuilder = ShaderBuilder::new(VERSION_400);
    vs.global::<Vec3>("layout (location = 0) in", "VertexPosition");
    vs.global::<Vec3>("layout (location = 1) in", "VertexColor");
    vs.global::<Vec2>("layout (location = 2) in", "VertexTexCoord");
    vs.global::<Vec3>("out", "Color");
    vs.global::<Vec2>("out", "TexCoord");
    vs.def_main(BLOB_VS_MAIN);

    let mut fs: FragmentShaderBuilder = ShaderBuilder::new(VERSION_400);
    fs.global::<Vec2>("in", "TexCoord");
    fs.global::<Vec3>("in", "Color");
    fs.global::<Vec4>("layout (location = 0) out", "FragColor");
    let members: [(GLSLType, &str); 4] = [
        (GLSLType::vec4, "InnerColor"),
        (GLSLType::vec4, "OuterColor"),
        (GLSLType::float, "RadiusInner"),
        (GLSLType::float, "RadiusOuter"),
    ];
    proof {
        assert(members@.map_values(|m: (GLSLType, &str)| (m.0, m.1@)) =~= blob_settings_members());
    }
    fs.uniform_block("BlobSettings", &members, Some("Blob"));
    fs.def_main(BLOB_FS_MAIN);
    (vs, fs)
}

/// The shaders of the first cookbook demo, and the handle on their
/// `RotationMatrix` uniform.
pub fn rotating_shaders() -> (r: (VertexShaderBuilder, FragmentShaderBuilder, Global<Mat4>))
    ensures
        r.0.spec_header() == VERSION_400@ + newline(),
        r.0.spec_lines() == rotating_vs_lines(),
        r.1.spec_header() == VERSION_400@ + newline(),
        r.1.spec_lines() == rotating_fs_lines(),
        r.2.spec_type() == Mat4::glsl_type_name(),
        r.2.spec_name() == "RotationMatrix"@,
{
    let mut vs: VertexShaderBuilder = ShaderBuilder::new(VERSION_400);
    vs.global::<Vec3>("layout (location = 0) in", "VertexPosition");
    vs.global::<Vec3>("layout (location = 1) in", "VertexColor");
    vs.global::<Vec3>("out", "LightIntensity");
    vs.global::<Vec3>("out", "Color");
    let rot_g = vs.global::<Mat4>("uniform", "RotationMatrix");
    vs.def_main(ROTATING_VS_MAIN);

    let mut fs: FragmentShaderBuilder = ShaderBuilder::new(VERSION_400);
    fs.global::<Vec3>("in", "Color");
    fs.global::<Vec4>("layout (location = 0) out", "FragColor");
    fs.def_main(ROTATING_FS_MAIN);
    (vs, fs, rot_g)
}

/// The shaders of the textured demo and the handles on the globals that the
/// demo sets.
pub struct TexturedShaders {
    pub vs: VertexShaderBuilder,
    pub fs: FragmentShaderBuilder,
    pub position: Global<Vec2>,
    pub color: Global<Vec3>,
    pub texcoord: Global<Vec2>,
    pub model: Global<Mat4>,
    pub view: Global<Mat4>,
    pub proj: Global<Mat4>,
    pub tex_kitten: Global<Sampler2D>,
    pub tex_puppy: Global<Sampler2D>,
}

/// The shaders of the textured demo: two textured quads that mix the
/// kitten and puppy textures, moved by the `model` matrix.
pub fn textured_shaders() -> (r: TexturedShaders)
    ensures
        r.vs.spec_header() == version_150_core() + newline(),
        r.vs.spec_lines() == textured_vs_lines(),
        r.fs.spec_header() == version_150_core() + newline(),
        r.fs.spec_lines() == textured_fs_lines(),
        r.position.spec_type() == Vec2::glsl_type_name(),
        r.position.spec_name() == "position"@,
        r.color.spec_type() == Vec3::glsl_type_name(),
        r.color.spec_name() == "color"@,
        r.texcoord.spec_type() == Vec2::glsl_type_name(),
        r.texcoord.spec_name() == "texcoord"@,
        r.model.spec_type() == Mat4::glsl_type_name(),
        r.model.spec_name() == "model"@,
        r.view.spec_type() == Mat4::glsl_type_name(),
        r.view.spec_name() == "view"@,
        r.proj.spec_type() == Mat4::glsl_type_name(),
        r.proj.spec_name() == "proj"@,
        r.tex_kitten.spec_type() == Sampler2D::glsl_type_name(),
        r.tex_kitten.spec_name() == "texKitten"@,
        r.tex_puppy.spec_type() == Sampler2D::glsl_type_name(),
        r.tex_puppy.spec_name() == "texPuppy"@,
{
    proof {
        reveal_strlit("");
        reveal_strlit("out ");
        reveal_strlit("in ");
        assert("out "@ + ""@ =~= "out "@);
        assert("in "@ + ""@ =~= "in "@);
    }
    let mut vs: VertexShaderBuilder = ShaderBuilder::new_150core();
    let position = vs.global::<Vec2>("in", "position");
    let color = vs.global::<Vec3>("in", "color");
    let texcoord = vs.global::<Vec2>("in", "texcoord");
    let v2f_color = vs.out_global::<Vec3>("", "v2f_color");
    let v2f_texcoord = vs.out_global::<Vec2>("", "v2f_texcoord");
    let model = vs.global::<Mat4>("uniform", "model");
    let view = vs.global::<Mat4>("uniform", "view");
    let proj = vs.global::<Mat4>("uniform", "proj");
    vs.def_main(TEXTURED_VS_MAIN);

    let mut fs: FragmentShaderBuilder = ShaderBuilder::new_150core();
    fs.in_global("", &v2f_color);
    fs.in_global("", &v2f_texcoord);
    fs.global::<Vec4>("out", "out_color");
    let tex_kitten = fs.global::<Sampler2D>("uniform", "texKitten");
    let tex_puppy = fs.global::<Sampler2D>("uniform", "texPuppy");
    fs.def_main(TEXTURED_FS_MAIN);
    TexturedShaders {
        vs,
        fs,
        position,
        color,
        texcoord,
        model,
        view,
        proj,
        tex_kitten,
        tex_puppy,
    }
}

} // verus!
