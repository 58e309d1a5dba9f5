use frame_core::context::Context;
use frame_core::input::RawInput;
use frame_core::math::{Pos2, Rect, Vec2};

#[test]
fn idle_frame_paints_nothing() {
    let mut ctx = Context::new();
    let raw = RawInput {
        mouse_down: false,
        mouse_pos: None,
        screen_size: Vec2 { x: 800, y: 600 },
        pixels_per_point: None,
        time: 0,
    };
    let ui = ctx.begin_frame(raw);
    assert_eq!(
        ui.rect,
        Rect { min: Pos2 { x: 0, y: 0 }, max: Pos2 { x: 800, y: 600 } }
    );
    let (output, commands) = ctx.end_frame();
    assert!(commands.is_empty());
    assert!(output.copied_text.is_empty());
    assert!(output.open_url.is_none());
}
