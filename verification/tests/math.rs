use frame_core::math::{
    align_rect, align_start, half, lerp, midpoint, pos2, remap_clamp, saturate, vec2, Align, Pos2,
    Rect, Vec2,
};

fn rect(x0: i32, y0: i32, x1: i32, y1: i32) -> Rect {
    Rect { min: Pos2 { x: x0, y: y0 }, max: Pos2 { x: x1, y: y1 } }
}

#[test]
fn saturate_keeps_values_on_the_grid() {
    assert_eq!(saturate(0), 0);
    assert_eq!(saturate(-17), -17);
    assert_eq!(saturate(i32::MAX as i64), i32::MAX);
    assert_eq!(saturate(i32::MIN as i64), i32::MIN);
}

#[test]
fn saturate_clamps_values_off_the_grid() {
    assert_eq!(saturate(i32::MAX as i64 + 1), i32::MAX);
    assert_eq!(saturate(i32::MIN as i64 - 1), i32::MIN);
    assert_eq!(saturate(i64::MAX), i32::MAX);
    assert_eq!(saturate(i64::MIN), i32::MIN);
}

#[test]
fn half_rounds_down() {
    assert_eq!(half(8), 4);
    assert_eq!(half(7), 3);
    assert_eq!(half(0), 0);
    assert_eq!(half(-1), -1);
    assert_eq!(half(-7), -4);
    assert_eq!(half(-8), -4);
    assert_eq!(half(i32::MIN), i32::MIN / 2);
    assert_eq!(half(i32::MAX), i32::MAX / 2);
}

#[test]
fn midpoint_rounds_down() {
    assert_eq!(midpoint(0, 10), 5);
    assert_eq!(midpoint(0, 11), 5);
    assert_eq!(midpoint(-11, 0), -6);
    assert_eq!(midpoint(i32::MAX, i32::MAX), i32::MAX);
    assert_eq!(midpoint(i32::MIN, i32::MIN), i32::MIN);
    assert_eq!(midpoint(i32::MIN, i32::MAX), -1);
}

#[test]
fn constructors_build_what_they_are_given() {
    assert_eq!(pos2(3, -4), Pos2 { x: 3, y: -4 });
    assert_eq!(vec2(5, 6), Vec2 { x: 5, y: 6 });
    assert_eq!(Vec2::zero(), Vec2 { x: 0, y: 0 });
}

#[test]
fn offset_adds_and_saturates() {
    assert_eq!(pos2(1, 2).offset(vec2(10, 20)), pos2(11, 22));
    assert_eq!(pos2(i32::MAX, i32::MIN).offset(vec2(1, -1)), pos2(i32::MAX, i32::MIN));
}

#[test]
fn offset_from_subtracts_and_saturates() {
    assert_eq!(pos2(11, 22).offset_from(pos2(1, 2)), vec2(10, 20));
    assert_eq!(pos2(i32::MAX, i32::MIN).offset_from(pos2(-1, 1)), vec2(i32::MAX, i32::MIN));
}

#[test]
fn halved_halves_each_component() {
    assert_eq!(vec2(8, 4).halved(), vec2(4, 2));
    assert_eq!(vec2(9, -5).halved(), vec2(4, -3));
}

#[test]
fn is_within_compares_the_euclidean_distance() {
    let origin = pos2(0, 0);
    assert!(origin.is_within(pos2(0, 0), 4));
    assert!(origin.is_within(pos2(3, 2), 4));
    // 3-4-5 triangle: the distance is exactly 5
    assert!(!origin.is_within(pos2(3, 4), 5));
    assert!(origin.is_within(pos2(3, 4), 6));
    assert!(!origin.is_within(pos2(4, 0), 4));
    assert!(!origin.is_within(pos2(0, 0), 0));
    assert!(!origin.is_within(pos2(0, 0), -3));
}

#[test]
fn is_within_holds_at_the_ends_of_the_grid() {
    let a = pos2(i32::MIN, i32::MIN);
    let b = pos2(i32::MAX, i32::MAX);
    assert!(!a.is_within(b, i32::MAX));
    assert!(a.is_within(a, 1));
}

#[test]
fn from_min_size_places_the_far_corner() {
    assert_eq!(Rect::from_min_size(pos2(10, 20), vec2(30, 40)), rect(10, 20, 40, 60));
    assert_eq!(
        Rect::from_min_size(pos2(i32::MAX - 1, 0), vec2(10, 0)),
        rect(i32::MAX - 1, 0, i32::MAX, 0)
    );
}

#[test]
fn from_center_size_reaches_half_the_size_each_way() {
    assert_eq!(Rect::from_center_size(pos2(100, 50), vec2(16, 10)), rect(92, 45, 108, 55));
    assert_eq!(Rect::from_center_size(pos2(0, 0), vec2(5, 5)), rect(-2, -2, 2, 2));
}

#[test]
fn expand_grows_all_sides() {
    assert_eq!(rect(10, 10, 20, 20).expand(2), rect(8, 8, 22, 22));
    assert_eq!(rect(10, 10, 20, 20).expand2(vec2(4, 2)), rect(6, 8, 24, 22));
    assert_eq!(rect(10, 10, 20, 20).expand(-3), rect(13, 13, 17, 17));
    assert_eq!(Rect::everything().expand(5), Rect::everything());
}

#[test]
fn intersect_keeps_the_shared_part() {
    assert_eq!(rect(0, 0, 10, 10).intersect(rect(5, 5, 20, 20)), rect(5, 5, 10, 10));
    assert_eq!(rect(0, 0, 10, 10).intersect(Rect::everything()), rect(0, 0, 10, 10));
    let apart = rect(0, 0, 10, 10).intersect(rect(20, 20, 30, 30));
    assert!(!apart.contains(pos2(15, 15)));
    assert!(!apart.contains(pos2(20, 20)));
}

#[test]
fn contains_includes_the_edges() {
    let r = rect(0, 0, 10, 10);
    assert!(r.contains(pos2(0, 0)));
    assert!(r.contains(pos2(10, 10)));
    assert!(r.contains(pos2(5, 5)));
    assert!(!r.contains(pos2(11, 5)));
    assert!(!r.contains(pos2(5, -1)));
}

#[test]
fn a_degenerate_rect_contains_only_its_point() {
    let r = rect(5, 5, 5, 5);
    assert!(r.contains(pos2(5, 5)));
    assert!(!r.contains(pos2(5, 6)));
    let inverted = rect(10, 10, 0, 0);
    assert!(!inverted.contains(pos2(5, 5)));
}

#[test]
fn center_and_size_of_a_rect() {
    let r = rect(10, 20, 40, 60);
    assert_eq!(r.center(), pos2(25, 40));
    assert_eq!(r.size(), vec2(30, 40));
    assert_eq!(r.width(), 30);
    assert_eq!(r.height(), 40);
    assert_eq!(Rect::everything().size(), vec2(i32::MAX, i32::MAX));
    assert_eq!(Rect::everything().center(), pos2(-1, -1));
}

#[test]
fn lerp_takes_a_fraction_of_the_way() {
    assert_eq!(lerp(0, 30, 2, 3), 20);
    assert_eq!(lerp(0, 30, 1, 3), 10);
    assert_eq!(lerp(10, 20, 1, 3), 13);
    assert_eq!(lerp(20, 10, 1, 3), 16);
    assert_eq!(lerp(5, 50, 0, 3), 5);
    assert_eq!(lerp(5, 50, 3, 3), 50);
}

#[test]
fn lerp_with_a_bad_denominator_gives_the_start() {
    assert_eq!(lerp(5, 50, 1, 0), 5);
    assert_eq!(lerp(5, 50, 1, -2), 5);
}

#[test]
fn lerp_saturates() {
    assert_eq!(lerp(i32::MIN, i32::MAX, 2, 1), i32::MAX);
    assert_eq!(lerp(i32::MAX, i32::MIN, 2, 1), i32::MIN);
}

#[test]
fn remap_clamp_interpolates_inside_the_range() {
    assert_eq!(remap_clamp(500, 0, 1000, 0, 100), 50);
    assert_eq!(remap_clamp(250, 0, 1000, 100, 300), 150);
    assert_eq!(remap_clamp(1, 0, 3, 0, 10), 3);
    assert_eq!(remap_clamp(1, 0, 3, 10, 0), 6);
}

#[test]
fn remap_clamp_holds_values_outside_the_range() {
    assert_eq!(remap_clamp(-5, 0, 1000, 10, 110), 10);
    assert_eq!(remap_clamp(0, 0, 1000, 10, 110), 10);
    assert_eq!(remap_clamp(1000, 0, 1000, 10, 110), 110);
    assert_eq!(remap_clamp(5000, 0, 1000, 10, 110), 110);
    assert_eq!(remap_clamp(i64::MAX, i64::MIN, i64::MAX, i32::MIN, i32::MAX), i32::MAX);
    assert_eq!(remap_clamp(i64::MIN, i64::MIN, i64::MAX, i32::MIN, i32::MAX), i32::MIN);
}

#[test]
fn remap_clamp_over_the_widest_ranges() {
    assert_eq!(remap_clamp(0, i64::MIN, i64::MAX, i32::MIN, i32::MAX), -1);
    assert_eq!(remap_clamp(-1, i64::MIN, i64::MAX, i32::MAX, i32::MIN), -1);
}

#[test]
fn remap_clamp_of_an_empty_range_gives_the_start() {
    assert_eq!(remap_clamp(7, 7, 7, 10, 110), 10);
    assert_eq!(remap_clamp(8, 7, 7, 10, 110), 110);
}

#[test]
fn align_start_by_each_alignment() {
    assert_eq!(align_start(100, 30, Align::Min), 100);
    assert_eq!(align_start(100, 30, Align::Center), 85);
    assert_eq!(align_start(100, 30, Align::Max), 70);
    assert_eq!(align_start(i32::MIN, 30, Align::Max), i32::MIN);
}

#[test]
fn align_rect_moves_the_rect_about_its_corner() {
    let r = rect(100, 200, 140, 220);
    assert_eq!(align_rect(r, Align::Min, Align::Min), r);
    assert_eq!(align_rect(r, Align::Center, Align::Center), rect(80, 190, 120, 210));
    assert_eq!(align_rect(r, Align::Max, Align::Min), rect(60, 200, 100, 220));
}
