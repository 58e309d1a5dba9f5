use frame_core::inspect::{count_label, PaintOptions, PaintStats, Widget};
use frame_core::math::{Pos2, Rect};
use frame_core::paint::{srgba, Triangles, Vertex};

fn checkbox(widget: &Widget) -> (bool, &str) {
    match widget {
        Widget::Checkbox { checked, text } => (*checked, text.as_str()),
        other => panic!("not a checkbox: {:?}", other),
    }
}

fn label(widget: &Widget) -> (&str, Option<&str>) {
    match widget {
        Widget::Label { text, tooltip } => (text.as_str(), tooltip.as_deref()),
        other => panic!("not a label: {:?}", other),
    }
}

fn batch(vertices: usize, indices: usize) -> (Rect, Triangles) {
    let vertex = Vertex { pos: Pos2 { x: 0, y: 0 }, u: 0, v: 0, color: srgba(0, 0, 0, 0) };
    (Rect::everything(), Triangles { indices: vec![0; indices], vertices: vec![vertex; vertices] })
}

#[test]
fn the_default_paint_options() {
    let options = PaintOptions::default();
    assert!(options.anti_alias);
    assert_eq!(options.aa_size, 1000);
    assert!(!options.debug_paint_clip_rects);
}

#[test]
fn the_options_panel_shows_two_checkboxes() {
    let mut options = PaintOptions::default();
    let rows = options.ui(None);
    assert_eq!(rows.len(), 2);
    assert_eq!(checkbox(&rows[0]), (true, "Antialias"));
    assert_eq!(checkbox(&rows[1]), (false, "Paint Clip Rects (debug)"));
    assert_eq!(options, PaintOptions::default());
}

#[test]
fn a_click_on_a_row_toggles_its_option() {
    let mut options = PaintOptions::default();
    let rows = options.ui(Some(0));
    assert!(!options.anti_alias);
    assert!(!options.debug_paint_clip_rects);
    assert_eq!(checkbox(&rows[0]), (false, "Antialias"));
    let rows = options.ui(Some(1));
    assert!(!options.anti_alias);
    assert!(options.debug_paint_clip_rects);
    assert_eq!(checkbox(&rows[1]), (true, "Paint Clip Rects (debug)"));
    options.ui(Some(0));
    assert!(options.anti_alias);
    assert_eq!(options.aa_size, 1000);
}

#[test]
fn a_click_on_no_row_toggles_nothing() {
    let mut options = PaintOptions::default();
    options.ui(Some(2));
    assert_eq!(options, PaintOptions::default());
    options.ui(Some(usize::MAX));
    assert_eq!(options, PaintOptions::default());
}

#[test]
fn the_smoothed_edge_follows_the_scale() {
    let options = PaintOptions::default();
    assert_eq!(options.for_scale(1000).aa_size, 1500);
    assert_eq!(options.for_scale(2000).aa_size, 750);
    assert_eq!(options.for_scale(1500).aa_size, 1000);
    assert_eq!(options.for_scale(0).aa_size, 1_500_000);
    assert_eq!(options.for_scale(u32::MAX).aa_size, 0);
    assert!(options.for_scale(2000).anti_alias);
    assert!(!options.for_scale(2000).debug_paint_clip_rects);
}

#[test]
fn the_default_statistics_are_zero() {
    assert_eq!(
        PaintStats::default(),
        PaintStats { num_batches: 0, num_primitives: 0, num_vertices: 0, num_triangles: 0 }
    );
}

#[test]
fn statistics_count_vertices_and_whole_triangles() {
    let batches = vec![batch(4, 6), batch(3, 3), batch(10, 8), batch(0, 2)];
    let stats = PaintStats::from_batches(17, &batches);
    assert_eq!(
        stats,
        PaintStats { num_batches: 4, num_primitives: 17, num_vertices: 17, num_triangles: 5 }
    );
}

#[test]
fn statistics_of_no_batches() {
    assert_eq!(
        PaintStats::from_batches(3, &vec![]),
        PaintStats { num_batches: 0, num_primitives: 3, num_vertices: 0, num_triangles: 0 }
    );
}

#[test]
fn the_statistics_panel_shows_four_labels() {
    let stats = PaintStats { num_batches: 2, num_primitives: 31, num_vertices: 1200, num_triangles: 0 };
    let rows = stats.ui();
    assert_eq!(rows.len(), 4);
    assert_eq!(label(&rows[0]), ("Batches: 2", Some("Number of separate clip rectangles")));
    assert_eq!(label(&rows[1]), ("Primitives: 31", Some("Boxes, circles, text areas etc")));
    assert_eq!(label(&rows[2]), ("Vertices: 1200", None));
    assert_eq!(label(&rows[3]), ("Triangles: 0", None));
}

#[test]
fn a_count_label_writes_the_count_in_decimal() {
    let widget = count_label("n = ", usize::MAX, None);
    let expected = format!("n = {}", usize::MAX);
    assert_eq!(label(&widget), (expected.as_str(), None));
    let widget = count_label("", 0, Some("tip"));
    assert_eq!(label(&widget), ("0", Some("tip")));
}
