use anvil_express::world::{EntityKind, World};

#[test]
fn spawn_hands_out_fresh_increasing_ids() {
    let mut w = World::new();
    let a = w.spawn(EntityKind::Light, true);
    let b = w.spawn(EntityKind::Cargo, true);
    let c = w.spawn(EntityKind::UiPanel, false);
    assert_eq!((a, b, c), (0, 1, 2));
    assert_eq!(w.records.len(), 3);
    assert_eq!(w.next_id, 3);
}

#[test]
fn kind_and_transient_counts() {
    let mut w = World::new();
    w.spawn(EntityKind::Light, true);
    w.spawn(EntityKind::Cargo, true);
    w.spawn(EntityKind::ObjectiveMarker, true);
    w.spawn(EntityKind::ObjectiveMarker, true);
    w.spawn(EntityKind::UiPanel, false);
    assert_eq!(w.kind_count(EntityKind::ObjectiveMarker), 2);
    assert_eq!(w.kind_count(EntityKind::Cargo), 1);
    assert_eq!(w.kind_count(EntityKind::PlayerBody), 0);
    assert_eq!(w.transient_count(), 4);
}

#[test]
fn despawn_removes_exactly_the_transient_records() {
    let mut w = World::new();
    w.spawn(EntityKind::Light, true);
    let kept_a = w.spawn(EntityKind::UiPanel, false);
    w.spawn(EntityKind::Cargo, true);
    let kept_b = w.spawn(EntityKind::HelpPanel, false);
    w.despawn_transient();
    assert_eq!(w.records.len(), 2);
    assert_eq!(w.records[0].id, kept_a);
    assert_eq!(w.records[1].id, kept_b);
    assert!(w.records.iter().all(|r| !r.transient));
    assert_eq!(w.transient_count(), 0);
    // Ids are never reused after a sweep.
    assert_eq!(w.next_id, 4);
    let fresh = w.spawn(EntityKind::Light, true);
    assert_eq!(fresh, 4);
}

#[test]
fn despawn_of_all_transient_world_empties_it() {
    let mut w = World::new();
    for _ in 0..5 {
        w.spawn(EntityKind::SceneRoot, true);
    }
    w.despawn_transient();
    assert!(w.records.is_empty());
}
