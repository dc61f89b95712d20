use gldemo::demo::{dispatch, loop_step, swaps_window, Demo, LoopEvent, LoopStep, Redraw};
use gldemo::pixel_format::{
    has_gl_format, is_named_without_gl_equivalent, sdl_format_to_gl_format_type, SdlPixelFormat,
};

#[test]
fn dispatch_recognizes_every_demo() {
    assert_eq!(dispatch("demo", "gl", &[]), Some(Demo::Gl));
    assert_eq!(dispatch("demo", "hello", &["x"]), Some(Demo::Hello));
    assert_eq!(dispatch("demo", "glsl-cookbook", &["1"]), Some(Demo::GlslCookbook1));
    assert_eq!(dispatch("demo", "glsl-cookbook", &["2"]), Some(Demo::GlslCookbook2));
    assert_eq!(dispatch("demo", "glsl-cookbook", &["3", "more"]), Some(Demo::GlslCookbook3));
    assert_eq!(dispatch("demo", "gl-superbible", &["1"]), Some(Demo::GlSuperbible1));
    assert_eq!(dispatch("demo", "gl-superbible", &["2"]), Some(Demo::GlSuperbible2));
    assert_eq!(dispatch("demo", "gl-superbible", &["3"]), Some(Demo::GlSuperbible3));
    assert_eq!(dispatch("demo", "gl-superbible", &["4"]), Some(Demo::GlSuperbible4));
}

#[test]
fn dispatch_rejects_unknown_command_lines() {
    assert_eq!(dispatch("demo", "glsl-cookbook", &[]), None);
    assert_eq!(dispatch("demo", "glsl-cookbook", &["4"]), None);
    assert_eq!(dispatch("demo", "gl-superbible", &["5"]), None);
    assert_eq!(dispatch("demo", "open_gl", &[]), None);
    assert_eq!(dispatch("demo", "GL", &[]), None);
}

#[test]
fn event_loop_stops_on_quit_escape_or_timeout() {
    assert_eq!(loop_step(LoopEvent::Quit, false), LoopStep::Stop);
    assert_eq!(loop_step(LoopEvent::EscapeUp, false), LoopStep::Stop);
    assert_eq!(loop_step(LoopEvent::Other, true), LoopStep::Stop);
    assert_eq!(loop_step(LoopEvent::Other, false), LoopStep::Process);
    assert!(swaps_window(Redraw::Redraw));
    assert!(!swaps_window(Redraw::NothingChanged));
}

#[test]
fn pixel_formats_with_a_gl_equivalent() {
    assert_eq!(sdl_format_to_gl_format_type(SdlPixelFormat::BGRA8888), (0x80E1, 0x1401));
    assert_eq!(sdl_format_to_gl_format_type(SdlPixelFormat::RGBA8888), (0x1908, 0x8035));
    assert_eq!(sdl_format_to_gl_format_type(SdlPixelFormat::ARGB8888), (0x80E1, 0x8367));
    assert!(has_gl_format(SdlPixelFormat::BGRA8888));
    assert!(!has_gl_format(SdlPixelFormat::ABGR8888));
    assert!(!has_gl_format(SdlPixelFormat::RGB24));
    assert!(!has_gl_format(SdlPixelFormat::Unknown));
}

#[test]
fn formats_without_gl_equivalent_are_named_or_unknown() {
    assert!(is_named_without_gl_equivalent(SdlPixelFormat::ABGR8888));
    assert!(is_named_without_gl_equivalent(SdlPixelFormat::YVYU));
    assert!(!is_named_without_gl_equivalent(SdlPixelFormat::NV12));
    assert!(!is_named_without_gl_equivalent(SdlPixelFormat::NV21));
    assert!(!is_named_without_gl_equivalent(SdlPixelFormat::ARGB8888));
    assert_ne!(
        sdl_format_to_gl_format_type(SdlPixelFormat::RGBA8888),
        sdl_format_to_gl_format_type(SdlPixelFormat::ARGB8888)
    );
}
