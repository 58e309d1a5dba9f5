use frame_core::layer::Id;
use frame_core::math::Pos2;
use frame_core::used_ids::{is_clash, report_clash, UsedIds, CLASH_TOLERANCE};

fn p(x: i32, y: i32) -> Pos2 {
    Pos2 { x, y }
}

#[test]
fn a_new_identity_reports_nothing() {
    let mut ids = UsedIds::new();
    assert!(ids.register(Id(1), "button", p(10, 10)).is_empty());
    assert_eq!(ids.get(Id(1)), Some(p(10, 10)));
    assert_eq!(ids.get(Id(2)), None);
}

#[test]
fn the_same_identity_close_by_reports_nothing() {
    let mut ids = UsedIds::new();
    assert!(ids.register(Id(1), "button", p(10, 10)).is_empty());
    assert!(ids.register(Id(1), "button", p(10, 10)).is_empty());
    assert!(ids.register(Id(1), "button", p(12, 12)).is_empty());
    assert_eq!(ids.get(Id(1)), Some(p(12, 12)));
}

#[test]
fn the_same_identity_far_away_reports_both_places() {
    let mut ids = UsedIds::new();
    assert!(ids.register(Id(1), "\"ok\"", p(10, 10)).is_empty());
    let diagnostics = ids.register(Id(1), "\"ok\"", p(200, 300));
    assert_eq!(diagnostics.len(), 2);
    assert_eq!(diagnostics[0].pos, p(10, 10));
    assert_eq!(diagnostics[0].text, "first use of non-unique ID \"ok\" (name clash?)");
    assert_eq!(diagnostics[1].pos, p(200, 300));
    assert_eq!(diagnostics[1].text, "second use of non-unique ID \"ok\" (name clash?)");
    assert_eq!(ids.get(Id(1)), Some(p(200, 300)));
}

#[test]
fn the_tolerance_is_exclusive() {
    assert_eq!(CLASH_TOLERANCE, 4);
    assert!(!is_clash(p(0, 0), p(3, 0)));
    assert!(!is_clash(p(0, 0), p(2, 3)));
    assert!(is_clash(p(0, 0), p(4, 0)));
    assert!(is_clash(p(0, 0), p(3, 3)));
    assert!(is_clash(p(i32::MIN, i32::MIN), p(i32::MAX, i32::MAX)));
}

#[test]
fn a_clash_at_the_tolerance_is_reported() {
    let mut ids = UsedIds::new();
    ids.register(Id(9), "x", p(0, 0));
    assert_eq!(ids.register(Id(9), "x", p(4, 0)).len(), 2);
}

#[test]
fn another_identity_does_not_clash() {
    let mut ids = UsedIds::new();
    ids.register(Id(1), "a", p(0, 0));
    assert!(ids.register(Id(2), "b", p(500, 500)).is_empty());
}

#[test]
fn a_clash_is_reported_again_after_clearing() {
    let mut ids = UsedIds::new();
    for _ in 0..3 {
        ids.clear();
        assert_eq!(ids.get(Id(1)), None);
        assert!(ids.register(Id(1), "a", p(0, 0)).is_empty());
        let diagnostics = ids.register(Id(1), "a", p(100, 0));
        assert_eq!(diagnostics.len(), 2);
        assert_eq!(diagnostics[0].pos, p(0, 0));
        assert_eq!(diagnostics[1].pos, p(100, 0));
    }
}

#[test]
fn a_third_claim_is_held_against_the_latest() {
    let mut ids = UsedIds::new();
    ids.register(Id(1), "a", p(0, 0));
    ids.register(Id(1), "a", p(100, 0));
    assert!(ids.register(Id(1), "a", p(101, 1)).is_empty());
    let diagnostics = ids.register(Id(1), "a", p(0, 0));
    assert_eq!(diagnostics[0].pos, p(101, 1));
}

#[test]
fn report_clash_names_the_source() {
    let diagnostics = report_clash(p(1, 2), "slider", p(3, 4));
    assert_eq!(diagnostics.len(), 2);
    assert_eq!(diagnostics[0].pos, p(1, 2));
    assert_eq!(diagnostics[0].text, "first use of non-unique ID slider (name clash?)");
    assert_eq!(diagnostics[1].pos, p(3, 4));
    assert_eq!(diagnostics[1].text, "second use of non-unique ID slider (name clash?)");
}

#[test]
fn a_cloned_registry_holds_the_same_claims() {
    let mut ids = UsedIds::new();
    ids.register(Id(1), "a", p(1, 1));
    let mut copy = ids.clone();
    ids.register(Id(2), "b", p(2, 2));
    assert_eq!(copy.get(Id(1)), Some(p(1, 1)));
    assert_eq!(copy.get(Id(2)), None);
    assert_eq!(copy.register(Id(1), "a", p(50, 50)).len(), 2);
    assert_eq!(ids.get(Id(1)), Some(p(1, 1)));
}

#[test]
fn an_identity_from_a_source_is_stable() {
    assert_eq!(Id::new("window"), Id::new("window"));
    assert_ne!(Id::new("window"), Id::new("button"));
}
