use gldemo::buffers::{BufferDataUsage, ElementBuffer, Textures, VertexArray, VertexBuffer};
use gldemo::pixel_format::SdlPixelFormat;
use gldemo::demo::{
    default_event_action, hello_layout, DefaultAction, DefaultEvent, EventLoop, LoopEvent, LoopStep,
    Redraw,
};
use gldemo::demo_data::{
    blob_settings_block, set_misc_tex_params, textured_elements, textured_images, u32_bytes,
    KITTEN_UNIT, PUPPY_UNIT, TEXTURED_TEXTURE_COUNT,
};
use gldemo::demo_shaders::{
    blob_shaders, rotating_shaders, superbible_1_shaders, superbible_2_shaders,
    superbible_3_shaders, superbible_4_shaders, textured_shaders, VsOut,
};
use gldemo::glcall::GlCall;
use gldemo::glsl::ToGLSLType;
use gldemo::shader_builder::ShaderBuilder;

fn machine_is_big_endian() -> bool {
    u32::from_ne_bytes([0, 0, 0, 1]) == 1
}

fn strings(ls: &[&str]) -> Vec<String> {
    ls.iter().map(|s| s.to_string()).collect()
}

#[test]
fn superbible_1_point_and_flat_colour() {
    let (vs, fs) = superbible_1_shaders();
    assert_eq!(
        *vs.lines(),
        strings(&[
            "#version 410 core\n",
            "void main() {",
            "\n",
            "gl_Position = vec4(0.0, 0.0, 0.5, 1.0);",
            "\n",
            "}",
            "\n",
        ])
    );
    assert_eq!(
        *fs.lines(),
        strings(&[
            "#version 410 core\n",
            "out vec4 color;",
            "\n",
            "void main() {",
            "\n",
            "color = vec4(0.0, 0.8, 1.0, 1.0);",
            "\n",
            "}",
            "\n",
        ])
    );
}

#[test]
fn superbible_2_draws_a_fixed_triangle() {
    let (vs, fs) = superbible_2_shaders();
    assert_eq!(vs.lines().len(), 7);
    assert!(vs.lines()[3].starts_with("const vec4 vertices[3] =\n"));
    assert!(vs.lines()[3].ends_with("gl_Position = vertices[gl_VertexID];"));
    assert_eq!(fs.lines()[1], "out vec4 color;");
}

#[test]
fn superbible_3_passes_the_colour_block() {
    assert_eq!(VsOut.type_(), "VS_OUT { vec4 color; }");
    let (vs, fs) = superbible_3_shaders();
    assert_eq!(vs.header(), "#version 400\n");
    assert_eq!(vs.lines()[1], "layout (location = 0) in vec4 offset;");
    assert_eq!(vs.lines()[3], "layout (location = 1) in vec4 color;");
    assert_eq!(vs.lines()[5], "out VS_OUT { vec4 color; } vs_out;");
    assert!(vs.lines()[9].contains("vs_out.color = color;"));
    assert_eq!(fs.header(), "#version 410 core\n");
    assert_eq!(fs.lines()[1], "in vec4 vs_color;");
    assert_eq!(fs.lines()[3], "in VS_OUT { vec4 color; } fs_in;");
    assert_eq!(fs.lines()[5], "out vec4 color;");
    assert_eq!(fs.lines()[9], "color = fs_in.color;");
}

#[test]
fn superbible_4_has_four_stages() {
    let (vs, fs, tcs, tes) = superbible_4_shaders();
    assert_eq!(vs.lines().len(), 11);
    assert_eq!(fs.lines().len(), 9);
    assert_eq!(tcs.shader_type(), 0x8E88);
    assert_eq!(tcs.lines()[1], "layout (vertices = 3) out;");
    assert!(tcs.lines()[5].starts_with("if (gl_InvocationID == 0) {"));
    assert_eq!(tes.shader_type(), 0x8E87);
    assert_eq!(tes.lines()[1], "layout (triangles, equal_spacing, cw) in;");
    assert!(tes.lines()[5].starts_with("gl_Position = (gl_TessCoord.x"));
}

#[test]
fn blob_fragment_shader_declares_the_settings_block() {
    let (vs, fs) = blob_shaders();
    assert_eq!(vs.lines()[9], "out vec2 TexCoord;");
    assert_eq!(
        vs.lines()[13],
        "TexCoord = VertexTexCoord;\nColor = VertexColor;\ngl_Position = vec4( VertexPosition, 1.0 );"
    );
    let l = fs.lines();
    assert_eq!(l[5], "layout (location = 0) out vec4 FragColor;");
    assert_eq!(l[7], "uniform BlobSettings {");
    assert_eq!(l[9], "  vec4 InnerColor;");
    assert_eq!(l[11], "  vec4 OuterColor;");
    assert_eq!(l[13], "  float RadiusInner;");
    assert_eq!(l[15], "  float RadiusOuter;");
    assert_eq!(l[17], "} Blob;");
    assert!(l[21].starts_with("float dx = TexCoord.x - 0.5;\nfloat dy"));
}

#[test]
fn rotating_shader_exposes_its_rotation_uniform() {
    let (vs, fs, rot) = rotating_shaders();
    assert_eq!(rot.name(), "RotationMatrix");
    assert_eq!(rot.glsl_type(), "mat4");
    assert_eq!(vs.lines()[9], "uniform mat4 RotationMatrix;");
    assert_eq!(fs.lines()[7], "FragColor = vec4(Color, 1.0);");
}

#[test]
fn textured_shaders_link_their_stages() {
    let t = textured_shaders();
    assert_eq!(t.vs.header(), "#version 150 core\n");
    assert_eq!(t.vs.lines()[7], "out  vec3 v2f_color;");
    assert_eq!(t.fs.lines()[1], "in  vec3 v2f_color;");
    assert_eq!(t.fs.lines()[3], "in  vec2 v2f_texcoord;");
    assert_eq!(t.fs.lines()[7], "uniform sampler2D texKitten;");
    assert!(t.fs.lines()[13].ends_with("// out_color = mix(colKitten, colPuppy, 0.5);"));
    assert_eq!(t.position.name(), "position");
    assert_eq!(t.color.glsl_type(), "vec3");
    assert_eq!(t.texcoord.name(), "texcoord");
    assert_eq!(t.model.name(), "model");
    assert_eq!(t.view.name(), "view");
    assert_eq!(t.proj.name(), "proj");
    assert_eq!(t.tex_kitten.glsl_type(), "sampler2D");
    assert_eq!(t.tex_puppy.name(), "texPuppy");
}

fn expected_blob_block(size: usize, offsets: [usize; 4]) -> Vec<u8> {
    let mut b = vec![0u8; size];
    let mut put = |at: usize, vs: &[f32]| {
        for (k, v) in vs.iter().enumerate() {
            b[at + 4 * k..at + 4 * k + 4].copy_from_slice(&v.to_ne_bytes());
        }
    };
    put(offsets[0], &[1.0, 1.0, 0.75, 1.0]);
    put(offsets[1], &[0.0; 4]);
    put(offsets[2], &[0.25]);
    put(offsets[3], &[0.45]);
    b
}

#[test]
fn blob_block_holds_the_settings() {
    let be = machine_is_big_endian();
    let block = blob_settings_block(48, &[0, 16, 32, 36], be).unwrap();
    assert_eq!(block, expected_blob_block(48, [0, 16, 32, 36]));
    let block = blob_settings_block(64, &[16, 32, 0, 60], be).unwrap();
    assert_eq!(block, expected_blob_block(64, [16, 32, 0, 60]));
    assert_eq!(&block[4..16], &[0u8; 12]);
}

#[test]
fn blob_block_refuses_what_does_not_fit() {
    assert_eq!(blob_settings_block(0, &[0, 16, 32, 36], false), None);
    assert_eq!(blob_settings_block(-4, &[0, 0, 0, 0], false), None);
    assert_eq!(blob_settings_block(48, &[-1, 16, 32, 36], false), None);
    assert_eq!(blob_settings_block(48, &[33, 16, 32, 36], false), None);
    assert_eq!(blob_settings_block(48, &[0, 16, 32, 45], false), None);
    assert!(blob_settings_block(48, &[0, 16, 32, 44], false).is_some());
}

#[test]
fn words_become_bytes_in_either_order() {
    assert_eq!(u32_bytes(&[0x3EE6_6666], false), 0.45f32.to_le_bytes().to_vec());
    assert_eq!(u32_bytes(&[0x3EE6_6666], true), 0.45f32.to_be_bytes().to_vec());
    assert_eq!(u32_bytes(&[1, 0x0102_0304], false), vec![1, 0, 0, 0, 4, 3, 2, 1]);
    assert_eq!(u32_bytes(&[], true), Vec::<u8>::new());
}

#[test]
fn default_demo_reacts_to_events() {
    assert_eq!(default_event_action(DefaultEvent::Quit), DefaultAction::Stop);
    assert_eq!(default_event_action(DefaultEvent::EscapeUp), DefaultAction::Stop);
    assert_eq!(default_event_action(DefaultEvent::NoEvent), DefaultAction::EndBatch);
    assert_eq!(
        default_event_action(DefaultEvent::MouseMotion { x: 5, y: 7, buttons_held: true }),
        DefaultAction::Square { x: 5, y: 7, size: 30, red: 128, green: 0, blue: 128 }
    );
    assert_eq!(
        default_event_action(DefaultEvent::MouseMotion { x: -1, y: 2, buttons_held: false }),
        DefaultAction::Square { x: -1, y: 2, size: 3, red: 0, green: 0, blue: 0 }
    );
    assert_eq!(default_event_action(DefaultEvent::Finger), DefaultAction::Ignore);
    assert_eq!(default_event_action(DefaultEvent::Other), DefaultAction::Print);
}

#[test]
fn hello_tiles_the_background_and_centres_the_image() {
    assert_eq!(hello_layout(100, 50, 200, 101), [(0, 0), (100, 0), (0, 50), (100, 50), (220, 190)]);
    assert_eq!(hello_layout(0, 0, 1000, 0), [(0, 0), (0, 0), (0, 0), (0, 0), (-180, 240)]);
}

#[test]
fn textured_demo_plan() {
    let images = textured_images();
    let plan: Vec<(u32, usize, &str)> = images.iter().map(|s| (s.unit, s.texture, s.path)).collect();
    assert_eq!(
        plan,
        vec![(0, 1, "paris.bmp"), (1, 2, "bertin.bmp"), (2, 3, "kitten.bmp"), (3, 4, "puppy.bmp")]
    );
    assert!(images.iter().all(|s| s.texture < TEXTURED_TEXTURE_COUNT));
    assert_eq!((KITTEN_UNIT, PUPPY_UNIT), (0, 1));
    assert_eq!(textured_elements(), vec![4, 5, 6, 6, 7, 4, 0, 1, 2, 2, 3, 0]);
}

#[test]
fn textured_demo_fills_and_draws_its_indices() {
    let elements = textured_elements();
    let ne: Vec<u8> = elements.iter().flat_map(|e| e.to_ne_bytes()).collect();
    assert_eq!(u32_bytes(&elements, machine_is_big_endian()), ne);
    let mut ebo = ElementBuffer::new(8);
    let mut cmds = Vec::new();
    ebo.bind_and_init_elements(&elements, machine_is_big_endian(), BufferDataUsage::StaticDraw, &mut cmds);
    ebo.draw_elements(&mut cmds);
    assert_eq!(cmds[1], GlCall::BufferData { target: 0x8893, data: ne, usage: 0x88E4 });
    assert_eq!(cmds[2], GlCall::DrawElements { mode: 4, count: 12, type_: 0x1405, offset: 8 });
}

#[test]
fn texture_parameters_clamp_and_filter_linearly() {
    let mut cmds = vec![GlCall::UseProgram { program: 2 }];
    set_misc_tex_params(&mut cmds);
    assert_eq!(
        cmds,
        vec![
            GlCall::UseProgram { program: 2 },
            GlCall::TexParameteri { target: 0x0DE1, pname: 0x2802, param: 0x812F },
            GlCall::TexParameteri { target: 0x0DE1, pname: 0x2803, param: 0x812F },
            GlCall::TexParameteri { target: 0x0DE1, pname: 0x2801, param: 0x2601 },
            GlCall::TexParameteri { target: 0x0DE1, pname: 0x2800, param: 0x2601 },
        ]
    );
}

#[test]
fn event_loop_swaps_once_per_redraw() {
    let mut el = EventLoop::new();
    assert_eq!(el.next_event(LoopEvent::Other, false), LoopStep::Process);
    assert!(el.event_handled(Redraw::Redraw));
    assert_eq!(el.next_event(LoopEvent::Other, false), LoopStep::Process);
    assert!(!el.event_handled(Redraw::NothingChanged));
    assert_eq!(el.next_event(LoopEvent::EscapeUp, false), LoopStep::Stop);
}

#[test]
fn event_loop_stops_when_time_is_up() {
    let mut el = EventLoop::new();
    assert_eq!(el.next_event(LoopEvent::Other, true), LoopStep::Stop);
    let mut el = EventLoop::new();
    assert_eq!(el.next_event(LoopEvent::Quit, false), LoopStep::Stop);
}

#[test]
fn single_objects_delete_their_names() {
    let mut cmds = Vec::new();
    VertexArray::new(3).delete(&mut cmds);
    VertexBuffer::new(4).delete(&mut cmds);
    ElementBuffer::new(5).delete(&mut cmds);
    assert_eq!(
        cmds,
        vec![
            GlCall::DeleteVertexArrays { arrays: vec![3] },
            GlCall::DeleteBuffers { buffers: vec![4] },
            GlCall::DeleteBuffers { buffers: vec![5] },
        ]
    );
}

#[test]
fn textures_upload_an_image_in_its_gl_format() {
    let textures = Textures::new(2, vec![7, 8]);
    assert_eq!(textures.len(), 2);
    let mut cmds = Vec::new();
    textures.bind_and_set_image_2d(1, 2, 1, SdlPixelFormat::RGBA8888, vec![1, 2, 3, 4, 5, 6, 7, 8], &mut cmds);
    assert_eq!(
        cmds,
        vec![
            GlCall::BindTexture { target: 0x0DE1, texture: 8 },
            GlCall::TexImage2D {
                target: 0x0DE1,
                level: 0,
                internal_format: 0x1907,
                width: 2,
                height: 1,
                border: 0,
                format: 0x1908,
                type_: 0x8035,
                pixels: vec![1, 2, 3, 4, 5, 6, 7, 8],
            },
        ]
    );
}
