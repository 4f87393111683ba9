use rhai_sdl3::Color;
use rhai_sdl3::KeyName;
use rhai_sdl3::KeySnapshot;
use rhai_sdl3::MouseButtonName;
use rhai_sdl3::MouseSnapshot;
use rhai_sdl3::Point;
use rhai_sdl3::PolledEvent;
use rhai_sdl3::Rect;
use rhai_sdl3::SDLContext;
use rhai_sdl3::SdlError;
use rhai_sdl3::bridge_clear;
use rhai_sdl3::bridge_create_window;
use rhai_sdl3::bridge_delay;
use rhai_sdl3::bridge_draw_line;
use rhai_sdl3::bridge_draw_point;
use rhai_sdl3::bridge_draw_rect;
use rhai_sdl3::bridge_fill_rect;
use rhai_sdl3::bridge_get_mouse_position;
use rhai_sdl3::bridge_init_event_pump;
use rhai_sdl3::bridge_is_key_down;
use rhai_sdl3::bridge_is_mouse_button_down;
use rhai_sdl3::bridge_poll_event;
use rhai_sdl3::bridge_present;
use rhai_sdl3::bridge_rand;
use rhai_sdl3::bridge_set_draw_color;

fn fresh() -> SDLContext {
    SDLContext::new(Ok(())).expect("backend init succeeded")
}

fn with_pump() -> SDLContext {
    let mut ctx = fresh();
    ctx.init_event_pump(Ok(())).expect("pump creation succeeded");
    ctx
}

fn with_window() -> SDLContext {
    let mut ctx = fresh();
    bridge_create_window(&mut ctx, "t", 640, 480, Ok(())).expect("window creation succeeded");
    ctx
}

fn all_keys() -> KeySnapshot {
    KeySnapshot { space: true, left: true, right: true, up: true, down: true }
}

fn no_keys() -> KeySnapshot {
    KeySnapshot { space: false, left: false, right: false, up: false, down: false }
}

#[test]
fn key_names_accept_every_case_variant() {
    let ctx = with_pump();
    let keys = no_keys();
    let names = vec![
        "space", "Space", "SPACE", "sPaCe", "left", "LEFT", "Left", "right", "RIGHT", "rIgHt",
        "up", "UP", "Up", "down", "DOWN", "DoWn",
    ];
    for name in names {
        assert!(bridge_is_key_down(&ctx, name, &keys).is_ok(), "rejected {}", name);
    }
}

#[test]
fn key_names_reject_anything_else() {
    let ctx = with_pump();
    let keys = all_keys();
    for name in vec!["", "enter", "spacex", " space", "space ", "lef", "upp", "downn", "a"] {
        let err = bridge_is_key_down(&ctx, name, &keys).unwrap_err();
        assert_eq!(err, format!("Unsupported key: {}", name));
    }
}

#[test]
fn key_query_reads_the_snapshot() {
    let ctx = with_pump();
    let keys = KeySnapshot { space: true, left: false, right: true, up: false, down: true };
    assert_eq!(bridge_is_key_down(&ctx, "SPACE", &keys), Ok(true));
    assert_eq!(bridge_is_key_down(&ctx, "left", &keys), Ok(false));
    assert_eq!(bridge_is_key_down(&ctx, "Right", &keys), Ok(true));
    assert_eq!(bridge_is_key_down(&ctx, "up", &keys), Ok(false));
    assert_eq!(bridge_is_key_down(&ctx, "down", &keys), Ok(true));
}

#[test]
fn mouse_button_names_accept_every_case_variant() {
    let ctx = with_pump();
    let mouse = MouseSnapshot { left: false, right: false, middle: false, x: 0, y: 0 };
    for name in vec!["left", "LEFT", "Left", "right", "RIGHT", "rIgHt", "middle", "MIDDLE", "Middle"] {
        assert!(bridge_is_mouse_button_down(&ctx, name, &mouse).is_ok(), "rejected {}", name);
    }
}

#[test]
fn mouse_button_names_reject_anything_else() {
    let ctx = with_pump();
    let mouse = MouseSnapshot { left: true, right: true, middle: true, x: 0, y: 0 };
    for name in vec!["", "back", "forward", "midle", "left ", "wheel"] {
        let err = bridge_is_mouse_button_down(&ctx, name, &mouse).unwrap_err();
        assert_eq!(err, format!("Unsupported mouse button: {}", name));
    }
}

#[test]
fn mouse_query_reads_the_snapshot() {
    let ctx = with_pump();
    let mouse = MouseSnapshot { left: true, right: false, middle: true, x: 12, y: -7 };
    assert_eq!(bridge_is_mouse_button_down(&ctx, "Left", &mouse), Ok(true));
    assert_eq!(bridge_is_mouse_button_down(&ctx, "right", &mouse), Ok(false));
    assert_eq!(bridge_is_mouse_button_down(&ctx, "MIDDLE", &mouse), Ok(true));
    assert_eq!(bridge_get_mouse_position(&ctx, &mouse), Ok((12, -7)));
}

#[test]
fn drawing_before_window_is_a_precondition_error() {
    let mut ctx = fresh();
    assert_eq!(bridge_set_draw_color(&mut ctx, 0, 0, 0).unwrap_err(), "Canvas not initialized");
    assert_eq!(bridge_clear(&ctx).unwrap_err(), "Canvas not initialized");
    assert_eq!(bridge_present(&ctx).unwrap_err(), "Canvas not initialized");
    assert_eq!(bridge_draw_rect(&ctx, 0, 0, 10, 10).unwrap_err(), "Canvas not initialized");
    assert_eq!(bridge_fill_rect(&ctx, 0, 0, 10, 10).unwrap_err(), "Canvas not initialized");
    assert_eq!(bridge_draw_point(&ctx, 1, 2).unwrap_err(), "Canvas not initialized");
    assert_eq!(bridge_draw_line(&ctx, 0, 0, 5, 5).unwrap_err(), "Canvas not initialized");
}

#[test]
fn input_queries_before_pump_are_a_precondition_error() {
    let ctx = fresh();
    let keys = all_keys();
    let mouse = MouseSnapshot { left: true, right: true, middle: true, x: 3, y: 4 };
    assert_eq!(bridge_poll_event(&ctx, None).unwrap_err(), "Event pump not initialized");
    assert_eq!(bridge_is_key_down(&ctx, "space", &keys).unwrap_err(), "Event pump not initialized");
    assert_eq!(
        bridge_is_mouse_button_down(&ctx, "left", &mouse).unwrap_err(),
        "Event pump not initialized"
    );
    assert_eq!(
        bridge_get_mouse_position(&ctx, &mouse).unwrap_err(),
        "Event pump not initialized"
    );
}

#[test]
fn poll_event_classifies_quit_and_only_quit() {
    let ctx = with_pump();
    assert_eq!(bridge_poll_event(&ctx, None), Ok(true));
    assert_eq!(bridge_poll_event(&ctx, Some(PolledEvent::Other)), Ok(true));
    assert_eq!(bridge_poll_event(&ctx, Some(PolledEvent::Quit)), Ok(false));
}

#[test]
fn rand_degenerate_range_is_constant() {
    for _ in 0..50 {
        assert_eq!(bridge_rand(1, 1), Ok(1));
    }
}

#[test]
fn rand_stays_in_range() {
    for _ in 0..200 {
        let v = bridge_rand(5, 10).expect("non-empty range samples");
        assert!(5 <= v && v <= 10, "sample {} out of range", v);
    }
}

#[test]
fn rand_inverted_range_is_a_validation_error() {
    assert_eq!(bridge_rand(10, 5).unwrap_err(), "Invalid random range: min exceeds max");
    let direct = rhai_sdl3::rand_range(2, 1).unwrap_err();
    assert_eq!(direct, SdlError::EmptyRandomRange);
}

#[test]
fn draw_sequence_after_window_succeeds() {
    let mut ctx = fresh();
    assert_eq!(bridge_create_window(&mut ctx, "t", 640, 480, Ok(())), Ok(()));
    assert_eq!(
        bridge_set_draw_color(&mut ctx, 255, 0, 0),
        Ok(Color { r: 255, g: 0, b: 0 })
    );
    assert_eq!(bridge_clear(&ctx), Ok(()));
    assert_eq!(bridge_present(&ctx), Ok(()));
}

#[test]
fn window_creation_failure_reports_the_backend_message() {
    let mut ctx = fresh();
    let err = bridge_create_window(&mut ctx, "t", 640, 480, Err("no display".to_string()))
        .unwrap_err();
    assert_eq!(err, "no display");
    assert_eq!(bridge_clear(&ctx).unwrap_err(), "Canvas not initialized");
}

#[test]
fn recreating_the_window_succeeds_and_replaces_it() {
    let mut ctx = with_window();
    assert!(ctx.canvas_ready());
    assert_eq!(ctx.window_size(), Some((640, 480)));
    bridge_set_draw_color(&mut ctx, 9, 9, 9).unwrap();
    assert_eq!(ctx.current_draw_color(), Some(Color { r: 9, g: 9, b: 9 }));

    assert_eq!(bridge_create_window(&mut ctx, "second", 320, 200, Ok(())), Ok(()));
    assert!(ctx.canvas_ready());
    assert_eq!(ctx.window_size(), Some((320, 200)));
    // The replacement surface starts without a color of its own.
    assert_eq!(ctx.current_draw_color(), None);
    assert_eq!(bridge_clear(&ctx), Ok(()));
    assert_eq!(bridge_present(&ctx), Ok(()));
}

#[test]
fn fresh_context_holds_no_resources() {
    let ctx = fresh();
    assert_eq!(ctx.window_size(), None);
    assert_eq!(ctx.current_draw_color(), None);
    assert!(!ctx.canvas_ready());
    assert!(!ctx.event_pump_ready());
}

#[test]
fn pump_creation_failure_reports_the_backend_message() {
    let mut ctx = fresh();
    let err = bridge_init_event_pump(&mut ctx, Err("no input".to_string())).unwrap_err();
    assert_eq!(err, "no input");
    assert_eq!(bridge_poll_event(&ctx, None).unwrap_err(), "Event pump not initialized");
    assert_eq!(bridge_init_event_pump(&mut ctx, Ok(())), Ok(()));
    assert_eq!(bridge_poll_event(&ctx, None), Ok(true));
}

#[test]
fn channel_narrowing_truncates_like_the_boundary() {
    assert_eq!(rhai_sdl3::narrow_u8(300), 44);
    assert_eq!(rhai_sdl3::narrow_u8(-1), 255);
    assert_eq!(rhai_sdl3::narrow_u8(255), 255);
    assert_eq!(rhai_sdl3::narrow_i32(4294967301), 5);
    assert_eq!(rhai_sdl3::narrow_i32(-1), -1);
    assert_eq!(rhai_sdl3::narrow_u32(-1), u32::MAX);
    assert_eq!(rhai_sdl3::narrow_u32(1000), 1000);

    let mut ctx = with_window();
    assert_eq!(
        bridge_set_draw_color(&mut ctx, 300, -1, 256),
        Ok(Color { r: 44, g: 255, b: 0 })
    );
}

#[test]
fn rect_commands_carry_reinterpreted_magnitudes() {
    let ctx = with_window();
    assert_eq!(
        bridge_draw_rect(&ctx, 10, 20, 30, 40),
        Ok(Rect { x: 10, y: 20, w: 30, h: 40 })
    );
    assert_eq!(
        bridge_fill_rect(&ctx, -5, -6, 7, 8),
        Ok(Rect { x: -5, y: -6, w: 7, h: 8 })
    );
    // A negative extent is reinterpreted as the backend would have seen it.
    assert_eq!(
        bridge_draw_rect(&ctx, 0, 0, -1, 2),
        Ok(Rect { x: 0, y: 0, w: u32::MAX, h: 2 })
    );
    assert_eq!(
        bridge_draw_point(&ctx, 3, 4),
        Ok(Point { x: 3, y: 4 })
    );
    assert_eq!(
        bridge_draw_line(&ctx, 1, 2, 3, 4),
        Ok((Point { x: 1, y: 2 }, Point { x: 3, y: 4 }))
    );
}

#[test]
fn delay_always_succeeds_with_the_narrowed_duration() {
    let ctx = fresh();
    assert_eq!(bridge_delay(&ctx, 16), Ok(16));
    assert_eq!(bridge_delay(&ctx, -1), Ok(u32::MAX));
}

#[test]
fn error_messages_are_exact() {
    assert_eq!(SdlError::CanvasNotInitialized.message(), "Canvas not initialized");
    assert_eq!(SdlError::EventPumpNotInitialized.message(), "Event pump not initialized");
    assert_eq!(SdlError::Backend("boom".to_string()).message(), "boom");
    assert_eq!(SdlError::UnsupportedKey("q".to_string()).message(), "Unsupported key: q");
    assert_eq!(
        SdlError::UnsupportedMouseButton("x4".to_string()).message(),
        "Unsupported mouse button: x4"
    );
    assert_eq!(
        SdlError::EmptyRandomRange.message(),
        "Invalid random range: min exceeds max"
    );
    assert_eq!(SdlError::Poisoned("lock broke".to_string()).message(), "lock broke");
}

#[test]
fn parsing_maps_names_to_the_fixed_sets() {
    assert_eq!(rhai_sdl3::parse_key("Space"), Some(KeyName::Space));
    assert_eq!(rhai_sdl3::parse_key("LEFT"), Some(KeyName::Left));
    assert_eq!(rhai_sdl3::parse_key("right"), Some(KeyName::Right));
    assert_eq!(rhai_sdl3::parse_key("uP"), Some(KeyName::Up));
    assert_eq!(rhai_sdl3::parse_key("Down"), Some(KeyName::Down));
    assert_eq!(rhai_sdl3::parse_key("downs"), None);
    assert_eq!(rhai_sdl3::parse_mouse_button("MiDdLe"), Some(MouseButtonName::Middle));
    assert_eq!(rhai_sdl3::parse_mouse_button("left"), Some(MouseButtonName::Left));
    assert_eq!(rhai_sdl3::parse_mouse_button("Right"), Some(MouseButtonName::Right));
    assert_eq!(rhai_sdl3::parse_mouse_button("center"), None);
}
