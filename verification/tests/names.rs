use imgui_context::{Context, Engine, Io, SuspendedContext};

fn io_of(ctx: &Context) -> (bool, bool, bool, bool) {
    let Io { ini_filename, log_filename, backend_platform_name, backend_renderer_name } = ctx.io();
    (ini_filename, log_filename, backend_platform_name, backend_renderer_name)
}

#[test]
fn new_context_has_no_names() {
    let mut engine = Engine::new();
    let ctx = Context::create(&mut engine);
    assert_eq!(ctx.ini_filename(), None);
    assert_eq!(ctx.log_filename(), None);
    assert_eq!(ctx.platform_name(), None);
    assert_eq!(ctx.renderer_name(), None);
    assert_eq!(io_of(&ctx), (false, false, false, false));
}

#[test]
fn new_suspended_context_has_no_names() {
    let mut engine = Engine::new();
    let ctx = SuspendedContext::create(&mut engine).activate(&mut engine).unwrap();
    assert_eq!(ctx.ini_filename(), None);
    assert_eq!(ctx.log_filename(), None);
    assert_eq!(ctx.platform_name(), None);
    assert_eq!(ctx.renderer_name(), None);
    assert_eq!(io_of(&ctx), (false, false, false, false));
}

#[test]
fn platform_name_set_then_cleared() {
    let mut engine = Engine::new();
    let mut ctx = Context::create(&mut engine);
    assert_eq!(ctx.platform_name(), None);
    ctx.set_platform_name(Some(String::from("winit")));
    assert_eq!(ctx.platform_name(), Some("winit"));
    assert_eq!(io_of(&ctx), (false, false, true, false));
    ctx.set_platform_name(None);
    assert_eq!(ctx.platform_name(), None);
    assert_eq!(io_of(&ctx), (false, false, false, false));
}

#[test]
fn renderer_name_set_then_cleared() {
    let mut engine = Engine::new();
    let mut ctx = Context::create(&mut engine);
    ctx.set_renderer_name(Some(String::from("glium")));
    assert_eq!(ctx.renderer_name(), Some("glium"));
    assert_eq!(io_of(&ctx), (false, false, false, true));
    ctx.set_renderer_name(None);
    assert_eq!(ctx.renderer_name(), None);
    assert_eq!(io_of(&ctx), (false, false, false, false));
}

#[test]
fn ini_filename_set_then_cleared() {
    let mut engine = Engine::new();
    let mut ctx = Context::create(&mut engine);
    ctx.set_ini_filename(Some(String::from("imgui.ini")));
    assert_eq!(ctx.ini_filename(), Some("imgui.ini"));
    assert_eq!(io_of(&ctx), (true, false, false, false));
    ctx.set_ini_filename(None);
    assert_eq!(ctx.ini_filename(), None);
    assert_eq!(io_of(&ctx), (false, false, false, false));
}

#[test]
fn log_filename_set_then_cleared() {
    let mut engine = Engine::new();
    let mut ctx = Context::create(&mut engine);
    ctx.set_log_filename(Some(String::from("imgui_log.txt")));
    assert_eq!(ctx.log_filename(), Some("imgui_log.txt"));
    assert_eq!(io_of(&ctx), (false, true, false, false));
    ctx.set_log_filename(None);
    assert_eq!(ctx.log_filename(), None);
    assert_eq!(io_of(&ctx), (false, false, false, false));
}

#[test]
fn setting_a_name_again_replaces_it() {
    let mut engine = Engine::new();
    let mut ctx = Context::create(&mut engine);
    ctx.set_platform_name(Some(String::from("first")));
    ctx.set_platform_name(Some(String::from("second, and longer")));
    assert_eq!(ctx.platform_name(), Some("second, and longer"));
    ctx.set_platform_name(Some(String::new()));
    assert_eq!(ctx.platform_name(), Some(""));
    assert_eq!(io_of(&ctx), (false, false, true, false));
}

#[test]
fn names_do_not_touch_each_other() {
    let mut engine = Engine::new();
    let mut ctx = Context::create(&mut engine);
    ctx.set_ini_filename(Some(String::from("a.ini")));
    ctx.set_log_filename(Some(String::from("b.log")));
    ctx.set_platform_name(Some(String::from("c")));
    ctx.set_renderer_name(Some(String::from("d")));
    assert_eq!(io_of(&ctx), (true, true, true, true));
    ctx.set_log_filename(None);
    assert_eq!(ctx.ini_filename(), Some("a.ini"));
    assert_eq!(ctx.log_filename(), None);
    assert_eq!(ctx.platform_name(), Some("c"));
    assert_eq!(ctx.renderer_name(), Some("d"));
    assert_eq!(io_of(&ctx), (true, false, true, true));
}

#[test]
fn names_are_kept_per_context() {
    let mut engine = Engine::new();
    let mut one = Context::create(&mut engine);
    one.set_platform_name(Some(String::from("one")));
    let one = one.suspend(&mut engine);
    let two = Context::create(&mut engine);
    assert_eq!(two.platform_name(), None);
    two.destroy(&mut engine);
    let one = one.activate(&mut engine).unwrap();
    assert_eq!(one.platform_name(), Some("one"));
}

#[test]
fn names_hold_any_text() {
    let mut engine = Engine::new();
    let mut ctx = Context::create(&mut engine);
    ctx.set_renderer_name(Some(String::from("rendu \u{e9}t\u{e9} \u{1f600}")));
    assert_eq!(ctx.renderer_name(), Some("rendu \u{e9}t\u{e9} \u{1f600}"));
}
