use frame_core::areas::AreaState;
use frame_core::context::Context;
use frame_core::fonts::FontDefinitions;
use frame_core::input::RawInput;
use frame_core::inspect::Widget;
use frame_core::layer::{Id, Layer, Order};
use frame_core::math::{Pos2, Vec2};
use frame_core::text::push_signed;

fn raw(width: i32, height: i32, scale: Option<u32>) -> RawInput {
    RawInput {
        mouse_down: false,
        mouse_pos: None,
        screen_size: Vec2 { x: width, y: height },
        pixels_per_point: scale,
        time: 0,
    }
}

fn describe(widgets: &Vec<Widget>) -> Vec<String> {
    widgets
        .iter()
        .map(|w| match w {
            Widget::Label { text, tooltip } => format!("label {:?} {:?}", text, tooltip),
            Widget::Heading { text } => format!("heading {:?}", text),
            Widget::Checkbox { checked, text } => format!("checkbox {:?} {:?}", checked, text),
            Widget::Button { text, tooltip } => format!("button {:?} {:?}", text, tooltip),
        })
        .collect()
}

#[test]
fn push_signed_writes_whole_numbers() {
    let mut s = String::new();
    push_signed(&mut s, 0);
    s.push(' ');
    push_signed(&mut s, -45);
    s.push(' ');
    push_signed(&mut s, 1200);
    s.push(' ');
    push_signed(&mut s, i64::MIN);
    s.push(' ');
    push_signed(&mut s, i64::MAX);
    assert_eq!(s, "0 -45 1200 -9223372036854775808 9223372036854775807");
}

#[test]
fn the_inspection_panel_shows_the_screen_and_the_statistics() {
    let mut ctx = Context::new();
    ctx.begin_frame(raw(1024, 768, Some(2500)));
    let rows = ctx.inspection_ui();
    assert_eq!(
        describe(&rows),
        vec![
            "label \"Screen size: 1024 x 768 points, pixels_per_point: 2.500\" None",
            "heading \"Painting:\"",
            "label \"Batches: 0\" Some(\"Number of separate clip rectangles\")",
            "label \"Primitives: 0\" Some(\"Boxes, circles, text areas etc\")",
            "label \"Vertices: 0\" None",
            "label \"Triangles: 0\" None",
        ]
    );
}

#[test]
fn the_inspection_panel_shows_a_negative_size() {
    let mut ctx = Context::new();
    ctx.begin_frame(raw(-3, 0, None));
    let rows = ctx.inspection_ui();
    assert_eq!(
        describe(&rows)[0],
        "label \"Screen size: -3 x 0 points, pixels_per_point: 1.000\" None"
    );
}

#[test]
fn the_settings_panel_shows_the_paint_options() {
    let mut ctx = Context::new();
    ctx.begin_frame(raw(800, 600, None));
    let rows = ctx.settings_ui(None);
    assert_eq!(
        describe(&rows),
        vec![
            "heading \"Style\"",
            "checkbox true \"Antialias\"",
            "checkbox false \"Paint Clip Rects (debug)\"",
            "heading \"Fonts\"",
        ]
    );
    assert!(ctx.paint_options().anti_alias);
}

#[test]
fn a_click_in_the_settings_panel_toggles_the_option_of_its_row() {
    let mut ctx = Context::new();
    ctx.begin_frame(raw(800, 600, None));
    let rows = ctx.settings_ui(Some(1));
    assert_eq!(describe(&rows)[1], "checkbox false \"Antialias\"");
    assert!(!ctx.paint_options().anti_alias);
    let rows = ctx.settings_ui(Some(2));
    assert_eq!(describe(&rows)[2], "checkbox true \"Paint Clip Rects (debug)\"");
    assert!(ctx.paint_options().debug_paint_clip_rects);
    // the headings do not react
    ctx.settings_ui(Some(0));
    ctx.settings_ui(Some(3));
    assert!(!ctx.paint_options().anti_alias);
    assert!(ctx.paint_options().debug_paint_clip_rects);
}

#[test]
fn the_settings_panel_sets_the_fonts_in_use_for_the_next_frame() {
    let mut ctx = Context::new();
    ctx.begin_frame(raw(800, 600, None));
    let mut wanted = FontDefinitions::default();
    wanted.body.size = 40;
    ctx.set_fonts(wanted);
    ctx.settings_ui(None);
    ctx.end_frame();
    ctx.begin_frame(raw(800, 600, None));
    assert!(!ctx.fonts_rebuilt());
    assert_eq!(ctx.fonts().body.size, 16);
}

#[test]
fn the_memory_panel_counts_the_areas() {
    let mut ctx = Context::new();
    ctx.begin_frame(raw(800, 600, None));
    ctx.memory().areas.set_state(
        Layer { order: Order::Middle, id: Id(3) },
        AreaState { pos: Pos2 { x: 0, y: 0 }, size: Vec2 { x: 1, y: 1 }, interactable: true },
    );
    let rows = ctx.memory_ui(None);
    assert_eq!(
        describe(&rows),
        vec![
            "button \"Reset all\" Some(\"Reset all state\")",
            "label \"2 areas (window positions)\" None",
            "button \"Reset\" None",
            "label \"NOTE: the position of this window cannot be reset from within itself.\" None",
        ]
    );
    assert_eq!(ctx.memory().areas.count(), 2);
}

#[test]
fn the_memory_panel_forgets_the_areas() {
    let mut ctx = Context::new();
    ctx.begin_frame(raw(800, 600, None));
    ctx.memory().interaction.click_id = Some(Id(9));
    let rows = ctx.memory_ui(Some(2));
    assert_eq!(describe(&rows)[1], "label \"1 areas (window positions)\" None");
    assert_eq!(ctx.memory().areas.count(), 0);
    assert_eq!(ctx.memory().interaction.click_id, Some(Id(9)));
}

#[test]
fn the_memory_panel_forgets_everything() {
    let mut ctx = Context::new();
    ctx.begin_frame(raw(800, 600, None));
    ctx.memory().interaction.click_id = Some(Id(9));
    ctx.memory().interaction.drag_is_window = true;
    let rows = ctx.memory_ui(Some(0));
    assert_eq!(describe(&rows)[1], "label \"0 areas (window positions)\" None");
    assert_eq!(ctx.memory().areas.count(), 0);
    assert_eq!(ctx.memory().interaction.click_id, None);
    assert!(!ctx.memory().interaction.drag_is_window);
}

#[test]
fn a_click_on_a_label_of_the_memory_panel_does_nothing() {
    let mut ctx = Context::new();
    ctx.begin_frame(raw(800, 600, None));
    ctx.memory_ui(Some(1));
    ctx.memory_ui(Some(3));
    ctx.memory_ui(Some(17));
    assert_eq!(ctx.memory().areas.count(), 1);
}
