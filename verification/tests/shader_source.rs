use gldemo::glcall::GlCall;
use gldemo::glsl::{FragmentShader, Global, Mat4, Sampler2D, Shader, Vec2, Vec3, Vec4, VertexShader};
use gldemo::shader_builder::{
    FragmentShaderBuilder, GLSLType, ShaderBuilder, TessellationControlShaderBuilder,
    TessellationEvaluationShaderBuilder, VertexShaderBuilder,
};

fn lines_of<B: ShaderBuilder<S>, S: Shader>(b: &B) -> Vec<String> {
    b.lines().clone()
}

#[test]
fn new_builder_holds_only_its_header() {
    let vs: VertexShaderBuilder = ShaderBuilder::new("#version 400");
    assert_eq!(vs.header(), "#version 400\n");
    assert_eq!(lines_of(&vs), vec!["#version 400\n".to_string()]);
}

#[test]
fn new_150core_uses_the_150_core_header() {
    let fs: FragmentShaderBuilder = ShaderBuilder::new_150core();
    assert_eq!(fs.header(), "#version 150 core\n");
    assert_eq!(lines_of(&fs), vec!["#version 150 core\n".to_string()]);
}

#[test]
fn shader_types_of_the_four_stages() {
    let vs: VertexShaderBuilder = ShaderBuilder::new("#version 400");
    let fs: FragmentShaderBuilder = ShaderBuilder::new("#version 400");
    let tcs: TessellationControlShaderBuilder = ShaderBuilder::new("#version 410 core");
    let tes: TessellationEvaluationShaderBuilder = ShaderBuilder::new("#version 410 core");
    assert_eq!(vs.shader_type(), 0x8B31);
    assert_eq!(fs.shader_type(), 0x8B30);
    assert_eq!(tcs.shader_type(), 0x8E88);
    assert_eq!(tes.shader_type(), 0x8E87);
}

#[test]
fn push_appends_the_line_and_a_line_break() {
    let mut tcs: TessellationControlShaderBuilder = ShaderBuilder::new("#version 410 core");
    tcs.push("layout (vertices = 3) out;");
    assert_eq!(
        lines_of(&tcs),
        vec!["#version 410 core\n", "layout (vertices = 3) out;", "\n"]
            .into_iter()
            .map(String::from)
            .collect::<Vec<_>>()
    );
}

#[test]
fn then_is_push() {
    let mut a: TessellationEvaluationShaderBuilder = ShaderBuilder::new("#version 410 core");
    let mut b: TessellationEvaluationShaderBuilder = ShaderBuilder::new("#version 410 core");
    a.then("layout (triangles, equal_spacing, cw) in;");
    b.push("layout (triangles, equal_spacing, cw) in;");
    assert_eq!(lines_of(&a), lines_of(&b));
}

#[test]
fn clear_keeps_only_the_header() {
    let mut fs: FragmentShaderBuilder = ShaderBuilder::new("#version 400");
    fs.push("a");
    fs.global::<Vec4>("out", "color");
    fs.clear();
    assert_eq!(lines_of(&fs), vec!["#version 400\n".to_string()]);
    fs.clear();
    assert_eq!(lines_of(&fs), vec!["#version 400\n".to_string()]);
    assert_eq!(fs.header(), "#version 400\n");
}

#[test]
fn global_declares_the_variable_and_describes_it() {
    let mut fs: FragmentShaderBuilder = ShaderBuilder::new("#version 410 core");
    let g: Global<Vec4> = fs.global::<Vec4>("out", "color");
    assert_eq!(g.glsl_type(), "vec4");
    assert_eq!(g.name(), "color");
    assert_eq!(lines_of(&fs)[1], "out vec4 color;");
    assert_eq!(lines_of(&fs)[2], "\n");
    assert_eq!(lines_of(&fs).len(), 3);
}

#[test]
fn globals_of_each_glsl_type() {
    let mut vs: VertexShaderBuilder = ShaderBuilder::new_150core();
    let p = vs.global::<Vec2>("in", "position");
    let c = vs.global::<Vec3>("in", "color");
    let m = vs.global::<Mat4>("uniform", "model");
    let t = vs.global::<Sampler2D>("uniform", "texKitten");
    assert_eq!(p.glsl_type(), "vec2");
    assert_eq!(c.glsl_type(), "vec3");
    assert_eq!(m.glsl_type(), "mat4");
    assert_eq!(t.glsl_type(), "sampler2D");
    let l = lines_of(&vs);
    assert_eq!(l[1], "in vec2 position;");
    assert_eq!(l[3], "in vec3 color;");
    assert_eq!(l[5], "uniform mat4 model;");
    assert_eq!(l[7], "uniform sampler2D texKitten;");
}

#[test]
fn out_global_and_in_global_declare_the_same_variable() {
    let mut vs: VertexShaderBuilder = ShaderBuilder::new_150core();
    let mut fs: FragmentShaderBuilder = ShaderBuilder::new_150core();
    let out = vs.out_global::<Vec3>("", "v2f_color");
    let inp = fs.in_global("", &out);
    assert_eq!(lines_of(&vs)[1], "out  vec3 v2f_color;");
    assert_eq!(lines_of(&fs)[1], "in  vec3 v2f_color;");
    assert_eq!(inp.glsl_type(), out.glsl_type());
    assert_eq!(inp.name(), out.name());
}

#[test]
fn uniform_block_with_instance_name() {
    let mut fs: FragmentShaderBuilder = ShaderBuilder::new("#version 400");
    fs.uniform_block(
        "BlobSettings",
        &[
            (GLSLType::vec4, "InnerColor"),
            (GLSLType::vec4, "OuterColor"),
            (GLSLType::float, "RadiusInner"),
            (GLSLType::float, "RadiusOuter"),
        ],
        Some("Blob"),
    );
    let expected: Vec<String> = vec![
        "#version 400\n",
        "uniform BlobSettings {",
        "\n",
        "  vec4 InnerColor;",
        "\n",
        "  vec4 OuterColor;",
        "\n",
        "  float RadiusInner;",
        "\n",
        "  float RadiusOuter;",
        "\n",
        "} Blob;",
        "\n",
    ]
    .into_iter()
    .map(String::from)
    .collect();
    assert_eq!(lines_of(&fs), expected);
}

#[test]
fn uniform_block_without_instance_name() {
    let mut fs: FragmentShaderBuilder = ShaderBuilder::new("#version 400");
    fs.uniform_block("Empty", &[], None);
    assert_eq!(lines_of(&fs)[1], "uniform Empty {");
    assert_eq!(lines_of(&fs)[3], "};");
    assert_eq!(lines_of(&fs).len(), 5);
}

#[test]
fn glsl_type_spellings() {
    assert_eq!(GLSLType::sampler2d.to_string(), "sampler2d");
    assert_eq!(GLSLType::vec2.to_string(), "vec2");
    assert_eq!(GLSLType::vec3.to_string(), "vec3");
    assert_eq!(GLSLType::vec4.to_string(), "vec4");
    assert_eq!(GLSLType::mat4.to_string(), "mat4");
    assert_eq!(GLSLType::float.to_string(), "float");
}

#[test]
fn def_main_wraps_the_content_in_main() {
    let mut vs: VertexShaderBuilder = ShaderBuilder::new("#version 410 core");
    vs.def_main("gl_Position = vec4(0.0, 0.0, 0.5, 1.0);");
    let expected: Vec<String> = vec![
        "#version 410 core\n",
        "void main() {",
        "\n",
        "gl_Position = vec4(0.0, 0.0, 0.5, 1.0);",
        "\n",
        "}",
        "\n",
    ]
    .into_iter()
    .map(String::from)
    .collect();
    assert_eq!(lines_of(&vs), expected);
}

#[test]
fn def_fn_joins_arguments_and_pushes_each_content_line() {
    let mut fs: FragmentShaderBuilder = ShaderBuilder::new("#version 400");
    let body: &[&str] = &["float s = a + b;", "return s;"];
    fs.def_fn("add", &["float a", "float b"], "float", body);
    let l = lines_of(&fs);
    assert_eq!(l[1], "float add(float a, float b) {");
    assert_eq!(l[3], "float s = a + b;");
    assert_eq!(l[5], "return s;");
    assert_eq!(l[7], "}");
    assert_eq!(l.len(), 9);
}

#[test]
fn compile_hands_the_lines_to_the_driver() {
    let mut vs: VertexShaderBuilder = ShaderBuilder::new("#version 400");
    vs.global::<Vec3>("layout (location = 0) in", "VertexPosition");
    let mut cmds: Vec<GlCall> = Vec::new();
    vs.request_compile(7, &mut cmds);
    let shader: VertexShader = vs.compile(7, 1, b"").ok().unwrap();
    assert_eq!(shader.name(), 7);
    assert_eq!(
        cmds,
        vec![
            GlCall::ShaderSource {
                shader: 7,
                sources: vec![
                    "#version 400\n".to_string(),
                    "layout (location = 0) in vec3 VertexPosition;".to_string(),
                    "\n".to_string(),
                ],
            },
            GlCall::CompileShader { shader: 7 },
        ]
    );
}

#[test]
fn compile_refuses_a_failed_stage() {
    let fs: FragmentShaderBuilder = ShaderBuilder::new("#version 400");
    let r: Result<FragmentShader, Option<String>> = ShaderBuilder::compile(&fs, 9, 0, b"0:2: error");
    assert_eq!(r.err(), Some(Some("0:2: error".to_string())));
    let vs: VertexShaderBuilder = ShaderBuilder::new("#version 400");
    assert!(vs.compile(3, 0, &[0xff]).err() == Some(None));
}

#[test]
fn trait_compile_builds_the_stage_shader() {
    let mut fs: FragmentShaderBuilder = ShaderBuilder::new("#version 400");
    fs.def_main("FragColor = vec4(Color, 1.0);");
    let mut cmds: Vec<GlCall> = vec![GlCall::UseProgram { program: 1 }];
    fs.request_compile(9, &mut cmds);
    let shader: FragmentShader = ShaderBuilder::compile(&fs, 9, 1, b"").ok().unwrap();
    assert_eq!(shader.name(), 9);
    assert_eq!(cmds.len(), 3);
    assert_eq!(cmds[0], GlCall::UseProgram { program: 1 });
    assert_eq!(cmds[2], GlCall::CompileShader { shader: 9 });
    match &cmds[1] {
        GlCall::ShaderSource { shader, sources } => {
            assert_eq!(*shader, 9);
            assert_eq!(*sources, lines_of(&fs));
        }
        other => panic!("unexpected call {:?}", other),
    }
}

#[test]
fn source_text_is_one_line_per_push() {
    let mut vs: VertexShaderBuilder = ShaderBuilder::new("#version 400");
    vs.global::<Vec3>("in", "Color");
    vs.def_main("Color = VertexColor;");
    let text: String = lines_of(&vs).concat();
    assert_eq!(text, "#version 400\nin vec3 Color;\nvoid main() {\nColor = VertexColor;\n}\n");
}

#[test]
fn header_stays_the_first_line() {
    let mut fs: FragmentShaderBuilder = ShaderBuilder::new("#version 400");
    fs.global::<Vec4>("out", "FragColor");
    fs.uniform_block("B", &[(GLSLType::mat4, "M")], None);
    fs.then("// comment");
    fs.def_main("FragColor = vec4(1.0);");
    assert_eq!(lines_of(&fs)[0], fs.header());
    fs.clear();
    assert_eq!(lines_of(&fs)[0], fs.header());
    fs.push("x");
    assert_eq!(lines_of(&fs)[0], "#version 400\n");
}

#[test]
fn empty_version_string_and_empty_lines() {
    let mut vs: VertexShaderBuilder = ShaderBuilder::new("");
    assert_eq!(vs.header(), "\n");
    vs.push("");
    vs.def_fn("f", &[], "void", "");
    let l = lines_of(&vs);
    assert_eq!(l, vec!["\n", "", "\n", "void f() {", "\n", "", "\n", "}", "\n"]
        .into_iter()
        .map(String::from)
        .collect::<Vec<_>>());
}

#[test]
fn builder_lines_keep_their_shape() {
    let mut fs: FragmentShaderBuilder = ShaderBuilder::new("#version 400");
    fs.global::<Vec3>("in", "Color");
    fs.push("// a comment");
    fs.def_main("FragColor = vec4(Color, 1.0);");
    let l = lines_of(&fs);
    assert_eq!(l.len() % 2, 1);
    assert_eq!(l[0], fs.header());
    for k in 1..=l.len() / 2 {
        assert_eq!(l[2 * k], "\n");
    }
    fs.clear();
    assert_eq!(lines_of(&fs), vec!["#version 400\n".to_string()]);
}
