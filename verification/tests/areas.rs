use frame_core::areas::{AreaEntry, AreaState, Areas};
use frame_core::layer::{Id, Layer, Order};
use frame_core::math::{Pos2, Vec2};

fn state(x: i32, y: i32, w: i32, h: i32) -> AreaState {
    AreaState { pos: Pos2 { x, y }, size: Vec2 { x: w, y: h }, interactable: true }
}

fn layer(order: Order, id: u64) -> Layer {
    Layer { order, id: Id(id) }
}

#[test]
fn a_new_registry_is_empty() {
    let areas = Areas::new();
    assert_eq!(areas.count(), 0);
    assert!(areas.order().is_empty());
    assert_eq!(areas.layer_at(Pos2 { x: 0, y: 0 }, 5), None);
    assert_eq!(areas.get(Layer::background()), None);
}

#[test]
fn layers_are_ordered_by_class_then_by_arrival() {
    let mut areas = Areas::new();
    let w1 = layer(Order::Middle, 10);
    let fg = layer(Order::Foreground, 20);
    let w2 = layer(Order::Middle, 11);
    let bg = Layer::background();
    areas.set_state(w1, state(0, 0, 10, 10));
    areas.set_state(fg, state(0, 0, 10, 10));
    areas.set_state(w2, state(0, 0, 10, 10));
    areas.set_state(bg, state(0, 0, 10, 10));
    assert_eq!(areas.order(), vec![bg, w1, w2, fg]);
    assert_eq!(areas.count(), 4);
}

#[test]
fn a_known_layer_keeps_its_place() {
    let mut areas = Areas::new();
    let w1 = layer(Order::Middle, 10);
    let w2 = layer(Order::Middle, 11);
    areas.set_state(w1, state(0, 0, 10, 10));
    areas.set_state(w2, state(0, 0, 10, 10));
    areas.set_state(w1, state(50, 60, 70, 80));
    assert_eq!(areas.order(), vec![w1, w2]);
    assert_eq!(areas.count(), 2);
    assert_eq!(areas.get(w1), Some(state(50, 60, 70, 80)));
    assert_eq!(areas.get(w2), Some(state(0, 0, 10, 10)));
}

#[test]
fn the_same_identity_in_two_classes_is_two_layers() {
    let mut areas = Areas::new();
    let a = layer(Order::Middle, 10);
    let b = layer(Order::Foreground, 10);
    areas.set_state(b, state(0, 0, 1, 1));
    areas.set_state(a, state(0, 0, 2, 2));
    assert_eq!(areas.order(), vec![a, b]);
}

#[test]
fn layer_at_finds_the_frontmost_layer() {
    let mut areas = Areas::new();
    let bg = Layer::background();
    let w1 = layer(Order::Middle, 10);
    let w2 = layer(Order::Middle, 11);
    areas.set_state(bg, state(0, 0, 800, 600));
    areas.set_state(w1, state(100, 100, 200, 200));
    areas.set_state(w2, state(200, 200, 200, 200));
    assert_eq!(areas.layer_at(Pos2 { x: 10, y: 10 }, 0), Some(bg));
    assert_eq!(areas.layer_at(Pos2 { x: 150, y: 150 }, 0), Some(w1));
    assert_eq!(areas.layer_at(Pos2 { x: 250, y: 250 }, 0), Some(w2));
    assert_eq!(areas.layer_at(Pos2 { x: 350, y: 350 }, 0), Some(w2));
    assert_eq!(areas.layer_at(Pos2 { x: 900, y: 10 }, 0), None);
}

#[test]
fn layer_at_reaches_a_little_outside() {
    let mut areas = Areas::new();
    let w1 = layer(Order::Middle, 10);
    areas.set_state(w1, state(100, 100, 50, 50));
    assert_eq!(areas.layer_at(Pos2 { x: 96, y: 120 }, 5), Some(w1));
    assert_eq!(areas.layer_at(Pos2 { x: 95, y: 120 }, 5), Some(w1));
    assert_eq!(areas.layer_at(Pos2 { x: 94, y: 120 }, 5), None);
    assert_eq!(areas.layer_at(Pos2 { x: 155, y: 155 }, 5), Some(w1));
    assert_eq!(areas.layer_at(Pos2 { x: 156, y: 155 }, 5), None);
}

#[test]
fn layer_at_passes_through_what_cannot_be_reached() {
    let mut areas = Areas::new();
    let bg = Layer::background();
    let w1 = layer(Order::Middle, 10);
    areas.set_state(bg, state(0, 0, 800, 600));
    areas.set_state(
        w1,
        AreaState { pos: Pos2 { x: 100, y: 100 }, size: Vec2 { x: 50, y: 50 }, interactable: false },
    );
    assert_eq!(areas.layer_at(Pos2 { x: 120, y: 120 }, 5), Some(bg));
}

#[test]
fn an_entry_is_hit_inside_its_margin() {
    let entry = AreaEntry { layer: layer(Order::Middle, 1), state: state(10, 10, 10, 10) };
    assert!(entry.is_hit(Pos2 { x: 15, y: 15 }, 0));
    assert!(entry.is_hit(Pos2 { x: 20, y: 20 }, 0));
    assert!(!entry.is_hit(Pos2 { x: 21, y: 20 }, 0));
    assert!(entry.is_hit(Pos2 { x: 21, y: 20 }, 1));
}

#[test]
fn a_cloned_registry_holds_the_same() {
    let mut areas = Areas::new();
    let w1 = layer(Order::Middle, 10);
    areas.set_state(w1, state(1, 2, 3, 4));
    let copy = areas.clone();
    areas.set_state(layer(Order::Middle, 11), state(0, 0, 1, 1));
    assert_eq!(copy.order(), vec![w1]);
    assert_eq!(copy.get(w1), Some(state(1, 2, 3, 4)));
    assert_eq!(areas.count(), 2);
}
