use imgui_context::text::{c_str_len, decode_c_str};
use imgui_context::{Context, Engine, Instance, EngineState};

#[test]
fn test_ini_load_save() {
    let mut engine = Engine::new();
    let mut ctx = Context::create(&mut engine);
    let data = "[Window][Debug##Default]
Pos=60,60
Size=400,400
Collapsed=0";
    ctx.load_ini_settings(&data);
    let mut buf = String::new();
    ctx.save_ini_settings(&mut buf);
    assert_eq!(data.trim(), buf.trim());
}

#[test]
fn save_without_load_gives_nothing() {
    let mut engine = Engine::new();
    let mut ctx = Context::create(&mut engine);
    let mut buf = String::new();
    ctx.save_ini_settings(&mut buf);
    assert_eq!(buf, "");
}

#[test]
fn save_appends_to_what_the_buffer_holds() {
    let mut engine = Engine::new();
    let mut ctx = Context::create(&mut engine);
    ctx.load_ini_settings("Pos=60,60\n");
    let mut buf = String::from("# saved\n");
    ctx.save_ini_settings(&mut buf);
    assert_eq!(buf, "# saved\nPos=60,60\n");
    ctx.save_ini_settings(&mut buf);
    assert_eq!(buf, "# saved\nPos=60,60\nPos=60,60\n");
}

#[test]
fn load_replaces_earlier_settings() {
    let mut engine = Engine::new();
    let mut ctx = Context::create(&mut engine);
    ctx.load_ini_settings("Size=400,400");
    ctx.load_ini_settings("Collapsed=0");
    let mut buf = String::new();
    ctx.save_ini_settings(&mut buf);
    assert_eq!(buf, "Collapsed=0");
    ctx.load_ini_settings("");
    let mut buf = String::new();
    ctx.save_ini_settings(&mut buf);
    assert_eq!(buf, "");
}

#[test]
fn saved_text_ends_at_the_first_nul() {
    let mut engine = Engine::new();
    let mut ctx = Context::create(&mut engine);
    ctx.load_ini_settings("Pos=1,1\0Size=2,2");
    let mut buf = String::new();
    ctx.save_ini_settings(&mut buf);
    assert_eq!(buf, "Pos=1,1");
}

#[test]
fn settings_round_trip_keeps_text_beyond_ascii() {
    let mut engine = Engine::new();
    let mut ctx = Context::create(&mut engine);
    let data = "[Window][Fen\u{ea}tre \u{4e2d}\u{6587} \u{1f600}]\nPos=60,60";
    ctx.load_ini_settings(data);
    let mut buf = String::new();
    ctx.save_ini_settings(&mut buf);
    assert_eq!(buf, data);
}

#[test]
fn settings_do_not_touch_names_or_the_slot() {
    let mut engine = Engine::new();
    let mut ctx = Context::create(&mut engine);
    ctx.set_ini_filename(Some(String::from("imgui.ini")));
    ctx.load_ini_settings("Pos=60,60");
    let mut buf = String::new();
    ctx.save_ini_settings(&mut buf);
    assert_eq!(ctx.ini_filename(), Some("imgui.ini"));
    assert_eq!(ctx.log_filename(), None);
    assert!(ctx.is_current_context(&engine));
}

#[test]
fn c_str_len_stops_at_the_first_nul() {
    assert_eq!(c_str_len(b"abc\0def\0"), 3);
    assert_eq!(c_str_len(b"\0abc"), 0);
    assert_eq!(c_str_len(b"abc\0"), 3);
}

#[test]
fn c_str_len_of_buffer_without_nul_is_its_length() {
    assert_eq!(c_str_len(b"abc"), 3);
    assert_eq!(c_str_len(b""), 0);
}

#[test]
fn decode_c_str_reads_valid_text() {
    assert_eq!(decode_c_str(b"Pos=60,60\0"), "Pos=60,60");
    assert_eq!(decode_c_str("\u{e9}\u{1f600}\0tail".as_bytes()), "\u{e9}\u{1f600}");
    assert_eq!(decode_c_str(b"\0"), "");
    assert_eq!(decode_c_str(b"no terminator"), "no terminator");
}

#[test]
fn decode_c_str_replaces_invalid_bytes() {
    assert_eq!(decode_c_str(b"h\xffi\0zz"), "h\u{fffd}i");
    assert_eq!(decode_c_str(b"\xc3\0"), "\u{fffd}");
    assert_eq!(decode_c_str(b"ok\xe2\x82\0"), "ok\u{fffd}");
}

#[test]
fn instance_settings_come_back_nul_terminated() {
    let mut state = EngineState::new();
    let mut instance: Instance = state.create_context();
    assert_eq!(instance.save_settings_to_memory(), vec![0u8]);
    instance.load_settings_from_memory(vec![80, 111, 115]);
    assert_eq!(instance.save_settings_to_memory(), vec![80, 111, 115, 0]);
    instance.load_settings_from_memory(vec![1, 0, 2]);
    assert_eq!(instance.save_settings_to_memory(), vec![1, 0, 2, 0]);
}
