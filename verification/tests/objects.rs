use gldemo::buffers::{
    index_data, BufferDataUsage, ElementBuffer, ElementBuffers, TextureTarget, TextureUnit, Textures,
    Texture, VertexArray, VertexArrays, VertexBuffer, VertexBuffers,
};
use gldemo::glcall::GlCall;
use gldemo::glsl::{
    field_offset, float_tuple_size_and_gl_type, AttribLocation, FragmentShader, Global, Packed,
    Shader, TesselationControlShader, TesselationEvaluationShader, ToGLSLType2, UniformLocation,
    Mat4, Sampler2D, Vec2, Vec3, Vec4, VertexShader,
};
use gldemo::program::{
    collect_active, compile_shader, info_log_buffer_len, shader_source_calls, try_link_program,
    ActiveVariableReport, Program, ProgramBuilder,
};

#[test]
fn shader_objects_keep_their_names() {
    assert_eq!(<VertexShader as Shader>::new(3).name(), 3);
    assert_eq!(<FragmentShader as Shader>::new(4).name(), 4);
    assert_eq!(<TesselationControlShader as Shader>::new(5).name(), 5);
    assert_eq!(<TesselationEvaluationShader as Shader>::new(6).name(), 6);
}

#[test]
fn program_builder_attaches_vertex_then_fragment_shader() {
    let vs: VertexShader = Shader::new(2);
    let fs: FragmentShader = Shader::new(3);
    let mut cmds = Vec::new();
    let pb = ProgramBuilder::new(1, &vs, &fs, &mut cmds);
    assert_eq!(pb.name(), 1);
    assert_eq!(
        cmds,
        vec![
            GlCall::AttachShader { program: 1, shader: 2 },
            GlCall::AttachShader { program: 1, shader: 3 },
        ]
    );
}

#[test]
fn program_builder_attaches_tessellation_shaders() {
    let mut pb = ProgramBuilder::new_unattached(10);
    let tcs: TesselationControlShader = Shader::new(11);
    let tes: TesselationEvaluationShader = Shader::new(12);
    let mut cmds = Vec::new();
    pb.attach_shader(&tcs, &mut cmds);
    pb.attach_shader(&tes, &mut cmds);
    pb.request_link(&mut cmds);
    assert_eq!(
        cmds,
        vec![
            GlCall::AttachShader { program: 10, shader: 11 },
            GlCall::AttachShader { program: 10, shader: 12 },
            GlCall::LinkProgram { program: 10 },
        ]
    );
}

#[test]
fn link_succeeds_on_true_status() {
    let pb = ProgramBuilder::new_unattached(5);
    match pb.link(1, b"") {
        Ok(p) => assert_eq!(p.name(), 5),
        Err(_) => panic!("link should succeed"),
    }
}

#[test]
fn link_fails_with_the_driver_log() {
    let pb = ProgramBuilder::new_unattached(5);
    match pb.link(0, b"error: main undefined") {
        Ok(_) => panic!("link should fail"),
        Err((pb, msg)) => {
            assert_eq!(pb.name(), 5);
            assert_eq!(msg, "error: main undefined");
        }
    }
}

#[test]
fn link_fails_with_malformed_log() {
    assert_eq!(
        try_link_program(0, &[0xff, 0xfe]),
        Err("link failure; graphics driver provided malformed log".to_string())
    );
    assert_eq!(try_link_program(1, &[0xff]), Ok(()));
    assert_eq!(try_link_program(2, b"x"), Err("x".to_string()));
}

#[test]
fn compile_shader_reports_the_log() {
    assert_eq!(compile_shader(4, 1, b"ignored"), Ok(4));
    assert_eq!(compile_shader(4, 0, b"0:1: syntax error"), Err(Some("0:1: syntax error".to_string())));
    assert_eq!(compile_shader(4, 0, &[0xc3]), Err(None));
}

#[test]
fn info_log_length_drops_the_nul() {
    assert_eq!(info_log_buffer_len(1), 0);
    assert_eq!(info_log_buffer_len(42), 41);
}

#[test]
fn shader_source_calls_pass_all_strings() {
    let src = vec!["#version 400\n".to_string(), "void main() {}".to_string()];
    let mut cmds = Vec::new();
    shader_source_calls(&src, 4, &mut cmds);
    assert_eq!(
        cmds,
        vec![GlCall::ShaderSource { shader: 4, sources: src.clone() }, GlCall::CompileShader { shader: 4 }]
    );
}

#[test]
fn program_new_attaches_and_links() {
    let vs: VertexShader = Shader::new(2);
    let fs: FragmentShader = Shader::new(3);
    let mut cmds = Vec::new();
    let pb = ProgramBuilder::new(1, &vs, &fs, &mut cmds);
    pb.request_link(&mut cmds);
    let p = Program::new(pb, 1, b"").unwrap();
    p.use_program(&mut cmds);
    assert_eq!(p.name(), 1);
    assert_eq!(
        cmds,
        vec![
            GlCall::AttachShader { program: 1, shader: 2 },
            GlCall::AttachShader { program: 1, shader: 3 },
            GlCall::LinkProgram { program: 1 },
            GlCall::UseProgram { program: 1 },
        ]
    );
}

#[test]
fn program_new_fails_on_a_failed_link() {
    let pb = ProgramBuilder::new_unattached(3);
    assert_eq!(Program::new(pb, 0, b"undefined reference").err(), Some("undefined reference".to_string()));
    let pb = ProgramBuilder::new_unattached(3);
    assert_eq!(
        Program::new(pb, 0, &[0xc0]).err(),
        Some("link failure; graphics driver provided malformed log".to_string())
    );
}

fn report(written: i32, size: i32, type_: u32, buf: &[u8]) -> ActiveVariableReport {
    ActiveVariableReport { written, size, type_, buf: buf.to_vec() }
}

#[test]
fn active_attribs_reads_each_reported_name() {
    let p = ProgramBuilder::new_unattached(1).link(1, b"").ok().unwrap();
    let reports = vec![
        report(14, 1, 0x8B51, b"VertexPosition\0\0"),
        report(11, 1, 0x8B51, b"VertexColorXXXXX"),
    ];
    let attribs = p.active_attribs(2, &reports);
    assert_eq!(
        attribs,
        vec![
            (1, 0x8B51, "VertexPosition".to_string()),
            (1, 0x8B51, "VertexColor".to_string()),
        ]
    );
    let uniforms = p.active_uniforms(1, &vec![report(4, 1, 0x8B5C, b"proj")]);
    assert_eq!(uniforms, vec![(1, 0x8B5C, "proj".to_string())]);
    assert_eq!(collect_active(0, &Vec::new()), Vec::new());
}

#[test]
fn bind_locations_name_the_global() {
    let pb = ProgramBuilder::new_unattached(8);
    let l: AttribLocation<Vec3> = AttribLocation::new(2);
    let g: Global<Vec3> = Global::new("vec3".to_string(), "color".to_string());
    let mut cmds = Vec::new();
    pb.bind_attrib_location(&l, &g, &mut cmds);
    pb.bind_frag_data_location(0, &g, &mut cmds);
    assert_eq!(
        cmds,
        vec![
            GlCall::BindAttribLocation { program: 8, index: 2, name: "color".to_string() },
            GlCall::BindFragDataLocation { program: 8, color_number: 0, name: "color".to_string() },
        ]
    );
}

#[test]
fn packed_attribute_layout_follows_the_glsl_type() {
    let mut cmds = Vec::new();
    let vpos: AttribLocation<Vec3> = AttribLocation::new(0);
    let vtex: AttribLocation<Vec2> = AttribLocation::new(2);
    vpos.enable_vertex_attrib_array(&mut cmds);
    vpos.vertex_attrib_pointer(0, Packed, &mut cmds);
    vtex.vertex_attrib_pointer(0, Packed, &mut cmds);
    assert_eq!(
        cmds,
        vec![
            GlCall::EnableVertexAttribArray { index: 0 },
            GlCall::VertexAttribPointer { index: 0, size: 3, type_: 0x1406, normalized: 0, stride: 12, offset: 0 },
            GlCall::VertexAttribPointer { index: 2, size: 2, type_: 0x1406, normalized: 0, stride: 8, offset: 0 },
        ]
    );
}

#[test]
fn explicit_attribute_layout() {
    let mut cmds = Vec::new();
    let col: AttribLocation<Vec3> = AttribLocation::new(1);
    col.vertex_attrib_pointer(0, (3, 0x1406u32, 28, 8usize), &mut cmds);
    assert_eq!(
        cmds,
        vec![GlCall::VertexAttribPointer { index: 1, size: 3, type_: 0x1406, normalized: 0, stride: 28, offset: 8 }]
    );
}

#[test]
fn negative_attribute_location_is_passed_as_unsigned() {
    let mut cmds = Vec::new();
    let l: AttribLocation<Vec4> = AttribLocation::new(-1);
    l.enable_vertex_attrib_array(&mut cmds);
    assert_eq!(cmds, vec![GlCall::EnableVertexAttribArray { index: u32::MAX }]);
}

#[test]
fn packed_types_are_tight() {
    assert_eq!(Sampler2D.stride(), Sampler2D.count() * 4);
    assert_eq!(Vec2.stride(), Vec2.count() * 4);
    assert_eq!(Vec3.stride(), Vec3.count() * 4);
    assert_eq!(Vec4.stride(), Vec4.count() * 4);
    assert_eq!(Mat4.stride(), Mat4.count() * 4);
    assert_eq!(Sampler2D.gl_type(), 0x1404);
    assert_eq!(Mat4.gl_type(), 0x1406);
}

#[test]
fn field_offsets_and_float_tuples() {
    assert_eq!(field_offset(1008, 12, 1000, 28), 8);
    assert_eq!(field_offset(1000, 8, 1000, 28), 0);
    assert_eq!(float_tuple_size_and_gl_type(3), (3, 0x1406));
    assert_eq!(float_tuple_size_and_gl_type(1), (1, 0x1406));
}

#[test]
fn uniforms_of_integer_tuples() {
    let loc = UniformLocation { name: 4 };
    let mut cmds = Vec::new();
    loc.uniform(7i32, &mut cmds);
    loc.uniform((1i32, 2i32), &mut cmds);
    loc.uniform((1i32, 2i32, 3i32), &mut cmds);
    loc.uniform((1i32, 2i32, 3i32, 4i32), &mut cmds);
    loc.uniform(7u32, &mut cmds);
    loc.uniform((1u32, 2u32), &mut cmds);
    loc.uniform((1u32, 2u32, 3u32), &mut cmds);
    loc.uniform((1u32, 2u32, 3u32, 4u32), &mut cmds);
    assert_eq!(
        cmds,
        vec![
            GlCall::Uniform1i { location: 4, v0: 7 },
            GlCall::Uniform2i { location: 4, v0: 1, v1: 2 },
            GlCall::Uniform3i { location: 4, v0: 1, v1: 2, v2: 3 },
            GlCall::Uniform4i { location: 4, v0: 1, v1: 2, v2: 3, v3: 4 },
            GlCall::Uniform1ui { location: 4, v0: 7 },
            GlCall::Uniform2ui { location: 4, v0: 1, v1: 2 },
            GlCall::Uniform3ui { location: 4, v0: 1, v1: 2, v2: 3 },
            GlCall::Uniform4ui { location: 4, v0: 1, v1: 2, v2: 3, v3: 4 },
        ]
    );
}

#[test]
fn texture_unit_sampler_and_active_unit_agree() {
    let unit = TextureUnit::new(3);
    let mut cmds = Vec::new();
    unit.active(&mut cmds);
    UniformLocation { name: 9 }.uniform(unit, &mut cmds);
    assert_eq!(
        cmds,
        vec![GlCall::ActiveTexture { texture: 0x84C0 + 3 }, GlCall::Uniform1i { location: 9, v0: 3 }]
    );
}

#[test]
fn vertex_arrays_bind_by_index_and_delete_all() {
    let mut vas = VertexArrays::new(2, vec![21, 22]);
    let mut cmds = Vec::new();
    vas.bind(1, &mut cmds);
    vas.bind(0, &mut cmds);
    vas.delete(&mut cmds);
    let mut va = VertexArray::new(30);
    va.bind(&mut cmds);
    assert_eq!(
        cmds,
        vec![
            GlCall::BindVertexArray { array: 22 },
            GlCall::BindVertexArray { array: 21 },
            GlCall::DeleteVertexArrays { arrays: vec![21, 22] },
            GlCall::BindVertexArray { array: 30 },
        ]
    );
}

#[test]
fn vertex_buffers_fill_only_the_chosen_buffer() {
    let mut vbos = VertexBuffers::new(3, vec![5, 6, 7]);
    let mut cmds = Vec::new();
    vbos.bind_and_init_array(1, &[0x0403_0201u32, 0x0807_0605u32], vec![1, 2, 3, 4, 5, 6, 7, 8], BufferDataUsage::StaticDraw, &mut cmds);
    vbos.bind_array(2, &mut cmds);
    assert_eq!(
        cmds,
        vec![
            GlCall::BindBuffer { target: 0x8892, buffer: 6 },
            GlCall::BufferData { target: 0x8892, data: vec![1, 2, 3, 4, 5, 6, 7, 8], usage: 0x88E4 },
            GlCall::BindBuffer { target: 0x8892, buffer: 7 },
        ]
    );
    vbos.delete(&mut cmds);
    assert_eq!(cmds[3], GlCall::DeleteBuffers { buffers: vec![5, 6, 7] });
}

#[test]
fn single_vertex_buffer() {
    let mut vbo = VertexBuffer::new(40);
    let mut cmds = Vec::new();
    vbo.bind_array(&mut cmds);
    vbo.bind_and_init_array(&[1.0f32], 1.0f32.to_le_bytes().to_vec(), BufferDataUsage::DynamicDraw, &mut cmds);
    assert_eq!(
        cmds,
        vec![
            GlCall::BindBuffer { target: 0x8892, buffer: 40 },
            GlCall::BindBuffer { target: 0x8892, buffer: 40 },
            GlCall::BufferData { target: 0x8892, data: vec![0, 0, 128, 63], usage: 0x88E8 },
        ]
    );
}

#[test]
fn usage_enumerants() {
    let all = [
        (BufferDataUsage::StreamDraw, 0x88E0),
        (BufferDataUsage::StreamRead, 0x88E1),
        (BufferDataUsage::StreamCopy, 0x88E2),
        (BufferDataUsage::StaticDraw, 0x88E4),
        (BufferDataUsage::StaticRead, 0x88E5),
        (BufferDataUsage::StaticCopy, 0x88E6),
        (BufferDataUsage::DynamicDraw, 0x88E8),
        (BufferDataUsage::DynamicRead, 0x88E9),
        (BufferDataUsage::DynamicCopy, 0x88EA),
    ];
    for (u, e) in all.iter() {
        assert_eq!(u.to_glenum(), *e);
    }
}

#[test]
fn element_buffer_draws_what_it_was_filled_with() {
    let mut ebo = ElementBuffer::new(50);
    let mut cmds = Vec::new();
    let elements: Vec<u32> = vec![4, 5, 6, 6, 7, 4, 0, 1, 2, 2, 3, 0];
    let bytes: Vec<u8> = elements.iter().flat_map(|e| e.to_le_bytes()).collect();
    ebo.bind_and_init_elements(&elements, false, BufferDataUsage::StaticDraw, &mut cmds);
    ebo.draw_elements(&mut cmds);
    assert_eq!(
        cmds,
        vec![
            GlCall::BindBuffer { target: 0x8893, buffer: 50 },
            GlCall::BufferData { target: 0x8893, data: bytes, usage: 0x88E4 },
            GlCall::DrawElements { mode: 0x0004, count: 12, type_: 0x1405, offset: 50 },
        ]
    );
}

#[test]
fn element_buffers_remember_type_per_buffer() {
    let mut ebos = ElementBuffers::new(2, vec![60, 61]);
    let mut cmds = Vec::new();
    let small: Vec<u8> = vec![0, 1, 2];
    let wide: Vec<u16> = vec![0x0102, 0x0304, 5, 6];
    ebos.bind_and_init_elements(0, &small, false, BufferDataUsage::StaticDraw, &mut cmds);
    ebos.bind_and_init_elements(1, &wide, true, BufferDataUsage::StaticDraw, &mut cmds);
    assert_eq!(cmds[1], GlCall::BufferData { target: 0x8893, data: vec![0, 1, 2], usage: 0x88E4 });
    assert_eq!(
        cmds[3],
        GlCall::BufferData { target: 0x8893, data: vec![1, 2, 3, 4, 0, 5, 0, 6], usage: 0x88E4 }
    );
    ebos.bind_elements(0, &mut cmds);
    ebos.draw_elements(0, &mut cmds);
    ebos.draw_elements(1, &mut cmds);
    assert_eq!(cmds[4], GlCall::BindBuffer { target: 0x8893, buffer: 60 });
    assert_eq!(cmds[5], GlCall::DrawElements { mode: 4, count: 3, type_: 0x1401, offset: 60 });
    assert_eq!(cmds[6], GlCall::DrawElements { mode: 4, count: 4, type_: 0x1403, offset: 61 });
    ebos.delete(&mut cmds);
    assert_eq!(cmds[7], GlCall::DeleteBuffers { buffers: vec![60, 61] });
}

#[test]
fn index_data_follows_the_byte_order() {
    assert_eq!(index_data(&[0x0102u16, 0x0304], false), vec![2, 1, 4, 3]);
    assert_eq!(index_data(&[0x0102u16, 0x0304], true), vec![1, 2, 3, 4]);
    assert_eq!(index_data(&[7u8, 9], true), vec![7, 9]);
    assert_eq!(index_data(&[7u32], false), vec![7, 0, 0, 0]);
    assert_eq!(index_data(&[7u32], true), vec![0, 0, 0, 7]);
}

#[test]
fn textures_bind_by_target() {
    let textures = Textures::new(5, vec![1, 2, 3, 4, 5]);
    let texture = Texture::new(9);
    let mut cmds = Vec::new();
    textures.bind(1, TextureTarget::Texture2D, &mut cmds);
    textures.bind(4, TextureTarget::Texture1D, &mut cmds);
    texture.bind(TextureTarget::Texture3D, &mut cmds);
    assert_eq!(
        cmds,
        vec![
            GlCall::BindTexture { target: 0x0DE1, texture: 2 },
            GlCall::BindTexture { target: 0x0DE0, texture: 5 },
            GlCall::BindTexture { target: 0x806F, texture: 9 },
        ]
    );
}
