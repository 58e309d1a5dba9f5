use frame_core::input::MouseInput;
use frame_core::layer::{Id, Layer, Order};
use frame_core::math::{Pos2, Rect};
use frame_core::memory::{InteractInfo, Interaction, Memory, Sense, WindowInteraction};

fn region() -> Rect {
    Rect { min: Pos2 { x: 0, y: 0 }, max: Pos2 { x: 100, y: 20 } }
}

fn mouse(down: bool, pressed: bool, released: bool) -> MouseInput {
    MouseInput {
        down,
        pressed,
        released,
        double_click: false,
        pos: Some(Pos2 { x: 10, y: 10 }),
        delta: frame_core::math::Vec2 { x: 0, y: 0 },
        last_release: None,
    }
}

fn info(hovered: bool, clicked: bool, double_clicked: bool, active: bool) -> InteractInfo {
    InteractInfo { rect: region(), hovered, clicked, double_clicked, active }
}

#[test]
fn senses_ask_for_what_they_name() {
    assert_eq!(Sense::nothing(), Sense { click: false, drag: false });
    assert_eq!(Sense::click(), Sense { click: true, drag: false });
    assert_eq!(Sense::drag(), Sense { click: false, drag: true });
    assert_eq!(Sense::click_and_drag(), Sense { click: true, drag: true });
}

#[test]
fn a_new_memory_has_no_owner() {
    let memory = Memory::new();
    assert_eq!(memory.interaction, Interaction::default());
    assert_eq!(memory.interaction.click_id, None);
    assert_eq!(memory.interaction.drag_id, None);
    assert!(!memory.interaction.drag_is_window);
    assert!(!memory.interaction.click_interest);
    assert!(!memory.interaction.drag_interest);
    assert!(!memory.interaction.is_using_mouse());
    assert_eq!(memory.window_interaction, None);
    assert_eq!(memory.areas.count(), 0);
}

#[test]
fn a_probe_without_identity_only_hovers() {
    let mut memory = Memory::new();
    let got = memory.interact(&mouse(true, true, false), region(), true, None, Sense::click());
    assert_eq!(got, info(true, false, false, false));
    assert_eq!(memory.interaction, Interaction::default());
}

#[test]
fn a_probe_without_interest_only_hovers() {
    let mut memory = Memory::new();
    let got = memory.interact(&mouse(true, true, false), region(), true, Some(Id(1)), Sense::nothing());
    assert_eq!(got, info(true, false, false, false));
    assert_eq!(memory.interaction, Interaction::default());
    let got = memory.interact(&mouse(false, false, true), region(), false, Some(Id(1)), Sense::nothing());
    assert_eq!(got, info(false, false, false, false));
    assert_eq!(memory.interaction, Interaction::default());
}

#[test]
fn a_press_over_a_free_region_claims_the_click() {
    let mut memory = Memory::new();
    let got = memory.interact(&mouse(true, true, false), region(), true, Some(Id(1)), Sense::click());
    assert_eq!(got, info(true, false, false, true));
    assert_eq!(memory.interaction.click_id, Some(Id(1)));
    assert_eq!(memory.interaction.drag_id, None);
    assert!(memory.interaction.click_interest);
    assert!(!memory.interaction.drag_interest);
    assert!(memory.interaction.is_active(Id(1)));
    assert!(!memory.interaction.is_active(Id(2)));
    assert!(memory.interaction.is_using_mouse());
}

#[test]
fn a_press_over_a_free_region_claims_the_drag() {
    let mut memory = Memory::new();
    let got = memory.interact(&mouse(true, true, false), region(), true, Some(Id(1)), Sense::drag());
    assert_eq!(got, info(true, false, false, true));
    assert_eq!(memory.interaction.click_id, None);
    assert_eq!(memory.interaction.drag_id, Some(Id(1)));
    assert!(memory.interaction.drag_interest);
}

#[test]
fn a_press_claims_click_and_drag_together() {
    let mut memory = Memory::new();
    let got =
        memory.interact(&mouse(true, true, false), region(), true, Some(Id(1)), Sense::click_and_drag());
    assert_eq!(got, info(true, false, false, true));
    assert_eq!(memory.interaction.click_id, Some(Id(1)));
    assert_eq!(memory.interaction.drag_id, Some(Id(1)));
}

#[test]
fn a_press_that_misses_changes_no_owner() {
    let mut memory = Memory::new();
    let got = memory.interact(&mouse(true, true, false), region(), false, Some(Id(1)), Sense::click());
    assert_eq!(got, info(false, false, false, false));
    assert_eq!(memory.interaction.click_id, None);
    assert_eq!(memory.interaction.drag_id, None);
    assert!(!memory.interaction.click_interest);
}

#[test]
fn the_first_claimant_keeps_the_click() {
    let mut memory = Memory::new();
    memory.interact(&mouse(true, true, false), region(), true, Some(Id(1)), Sense::click());
    let got = memory.interact(&mouse(true, true, false), region(), true, Some(Id(2)), Sense::click());
    assert_eq!(got, info(true, false, false, false));
    assert_eq!(memory.interaction.click_id, Some(Id(1)));
    assert_eq!(memory.interaction.drag_id, None);
}

#[test]
fn the_first_claimant_keeps_the_drag() {
    let mut memory = Memory::new();
    memory.interact(&mouse(true, true, false), region(), true, Some(Id(1)), Sense::drag());
    let got = memory.interact(&mouse(true, true, false), region(), true, Some(Id(2)), Sense::drag());
    assert_eq!(got, info(true, false, false, false));
    assert_eq!(memory.interaction.drag_id, Some(Id(1)));
}

#[test]
fn a_widget_takes_the_drag_from_a_window() {
    let mut memory = Memory::new();
    memory.interaction.drag_id = Some(Id(50));
    memory.interaction.drag_is_window = true;
    memory.window_interaction = Some(WindowInteraction {
        area_layer: Layer { order: Order::Middle, id: Id(50) },
        start_rect: region(),
        start_mouse_pos: Pos2 { x: 1, y: 1 },
    });
    let got = memory.interact(&mouse(true, true, false), region(), true, Some(Id(1)), Sense::drag());
    assert_eq!(got, info(true, false, false, true));
    assert_eq!(memory.interaction.drag_id, Some(Id(1)));
    assert!(!memory.interaction.drag_is_window);
    assert_eq!(memory.window_interaction, None);
}

#[test]
fn a_click_claim_leaves_a_moving_window_alone() {
    let mut memory = Memory::new();
    let moving = WindowInteraction {
        area_layer: Layer { order: Order::Middle, id: Id(50) },
        start_rect: region(),
        start_mouse_pos: Pos2 { x: 1, y: 1 },
    };
    memory.interaction.drag_id = Some(Id(50));
    memory.interaction.drag_is_window = true;
    memory.window_interaction = Some(moving);
    let got = memory.interact(&mouse(true, true, false), region(), true, Some(Id(1)), Sense::click());
    assert_eq!(got, info(true, false, false, true));
    assert_eq!(memory.interaction.click_id, Some(Id(1)));
    assert_eq!(memory.interaction.drag_id, Some(Id(50)));
    assert!(memory.interaction.drag_is_window);
    assert_eq!(memory.window_interaction, Some(moving));
}

#[test]
fn a_release_over_the_owner_is_a_click() {
    let mut memory = Memory::new();
    memory.interaction.click_id = Some(Id(1));
    let got = memory.interact(&mouse(false, false, true), region(), true, Some(Id(1)), Sense::click());
    assert_eq!(got, info(true, true, false, true));
    // the owner is released by the end of the frame, not by the probe
    assert_eq!(memory.interaction.click_id, Some(Id(1)));
    let again = memory.interact(&mouse(false, false, true), region(), true, Some(Id(1)), Sense::click());
    assert_eq!(again, got);
}

#[test]
fn a_release_over_another_widget_is_no_click() {
    let mut memory = Memory::new();
    memory.interaction.click_id = Some(Id(1));
    let got = memory.interact(&mouse(false, false, true), region(), true, Some(Id(2)), Sense::click());
    assert_eq!(got, info(true, false, false, false));
}

#[test]
fn a_release_away_from_the_owner_is_no_click() {
    let mut memory = Memory::new();
    memory.interaction.click_id = Some(Id(1));
    let got = memory.interact(&mouse(false, false, true), region(), false, Some(Id(1)), Sense::click());
    assert_eq!(got, info(false, false, false, true));
}

#[test]
fn a_double_click_needs_a_click() {
    let mut memory = Memory::new();
    memory.interaction.click_id = Some(Id(1));
    let mut m = mouse(false, false, true);
    m.double_click = true;
    let got = memory.interact(&m, region(), true, Some(Id(1)), Sense::click());
    assert_eq!(got, info(true, true, true, true));
    let got = memory.interact(&m, region(), true, Some(Id(2)), Sense::click());
    assert_eq!(got, info(true, false, false, false));
    let got = memory.interact(&m, region(), false, Some(Id(1)), Sense::click());
    assert_eq!(got, info(false, false, false, true));
}

#[test]
fn a_held_button_hides_the_hover_from_others() {
    let mut memory = Memory::new();
    memory.interaction.drag_id = Some(Id(1));
    let held = mouse(true, false, false);
    let owner = memory.interact(&held, region(), true, Some(Id(1)), Sense::drag());
    assert_eq!(owner, info(true, false, false, true));
    let other = memory.interact(&held, region(), true, Some(Id(2)), Sense::drag());
    assert_eq!(other, info(false, false, false, false));
    let away = memory.interact(&held, region(), false, Some(Id(1)), Sense::drag());
    assert_eq!(away, info(false, false, false, true));
    assert_eq!(memory.interaction.drag_id, Some(Id(1)));
}

#[test]
fn an_idle_pointer_hovers() {
    let mut memory = Memory::new();
    let idle = mouse(false, false, false);
    let got = memory.interact(&idle, region(), true, Some(Id(1)), Sense::click_and_drag());
    assert_eq!(got, info(true, false, false, false));
    assert!(memory.interaction.click_interest);
    assert!(memory.interaction.drag_interest);
    assert_eq!(memory.interaction.click_id, None);
}

#[test]
fn a_press_comes_before_a_release() {
    // an input that reports both edges at once is taken for a press
    let mut memory = Memory::new();
    let both = mouse(true, true, true);
    let got = memory.interact(&both, region(), true, Some(Id(1)), Sense::click());
    assert_eq!(got, info(true, false, false, true));
}

#[test]
fn interest_is_forgotten_at_the_start_of_a_frame() {
    let mut memory = Memory::new();
    memory.interact(&mouse(true, true, false), region(), true, Some(Id(1)), Sense::click_and_drag());
    memory.begin_frame();
    assert!(!memory.interaction.click_interest);
    assert!(!memory.interaction.drag_interest);
    assert_eq!(memory.interaction.click_id, Some(Id(1)));
    assert_eq!(memory.interaction.drag_id, Some(Id(1)));
}

#[test]
fn owners_are_released_at_the_end_of_a_frame_with_the_button_up() {
    let mut memory = Memory::new();
    memory.interact(&mouse(true, true, false), region(), true, Some(Id(1)), Sense::click_and_drag());
    let mut held = frame_core::input::InputState::default();
    held.mouse = mouse(true, false, false);
    memory.end_frame(&held);
    assert_eq!(memory.interaction.click_id, Some(Id(1)));
    assert_eq!(memory.interaction.drag_id, Some(Id(1)));
    let mut up = frame_core::input::InputState::default();
    up.mouse = mouse(false, false, true);
    memory.window_interaction = Some(WindowInteraction {
        area_layer: Layer::background(),
        start_rect: region(),
        start_mouse_pos: Pos2 { x: 0, y: 0 },
    });
    memory.end_frame(&up);
    assert_eq!(memory.interaction.click_id, None);
    assert_eq!(memory.interaction.drag_id, None);
    assert_eq!(memory.window_interaction, None);
}

#[test]
fn all_probes_of_the_press_frame_see_the_owner_as_active() {
    let mut memory = Memory::new();
    let press = mouse(true, true, false);
    let first = memory.interact(&press, region(), true, Some(Id(1)), Sense::click());
    assert_eq!(first, info(true, false, false, true));
    let second = memory.interact(&press, region(), true, Some(Id(1)), Sense::click());
    assert_eq!(second, first);
    assert_eq!(memory.interaction.click_id, Some(Id(1)));
    assert_eq!(memory.interaction.drag_id, None);
    let both = memory.interact(&press, region(), true, Some(Id(1)), Sense::click_and_drag());
    assert_eq!(both, info(true, false, false, true));
    assert_eq!(memory.interaction.drag_id, Some(Id(1)));
}

#[test]
fn the_owner_of_the_drag_is_active_on_a_press_that_claims_nothing() {
    let mut memory = Memory::new();
    memory.interaction.click_id = Some(Id(2));
    memory.interaction.drag_id = Some(Id(1));
    let press = mouse(true, true, false);
    let got = memory.interact(&press, region(), true, Some(Id(1)), Sense::click());
    assert_eq!(got, info(true, false, false, true));
    assert_eq!(memory.interaction.click_id, Some(Id(2)));
    assert_eq!(memory.interaction.drag_id, Some(Id(1)));
}

#[test]
fn the_owner_is_not_active_on_a_press_that_misses() {
    let mut memory = Memory::new();
    memory.interaction.click_id = Some(Id(1));
    let press = mouse(true, true, false);
    let got = memory.interact(&press, region(), false, Some(Id(1)), Sense::click());
    assert_eq!(got, info(false, false, false, false));
    assert_eq!(memory.interaction.click_id, Some(Id(1)));
}
