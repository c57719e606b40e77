use anvil_express::cargo::{CargoState, InteractionEvent};
use anvil_express::fx::V3;
use anvil_express::phase::Phase;
use anvil_express::progress::Powerup;
use anvil_express::scene::SceneNode;
use anvil_express::sim::{Feedback, PrepareFault, PrepareStep, SimState, TickInput};
use anvil_express::world::EntityKind;

fn at(x: i64, y: i64, z: i64) -> V3 {
    V3 { x, y, z }
}

fn idle_input() -> TickInput {
    TickInput {
        dt: 16_667,
        look_dx: 0,
        look_dy: 0,
        forward_key: false,
        back_key: false,
        left_key: false,
        right_key: false,
        jump_key: false,
        action_held: false,
        action_pressed: false,
        throw_key: false,
        help_pressed: false,
        reset_pressed: false,
    }
}

fn ground_feedback() -> Feedback {
    Feedback {
        grounded: true,
        on_held_cargo: false,
        player_pos: at(0, 0, 0),
        cargo_pos: at(0, 20_000_000, 0),
        cargo_vel: at(0, 0, 0),
        fwd_x: 0,
        fwd_z: -1_000_000,
        cam_fwd: at(0, 0, -1_000_000),
    }
}

fn node(name: &str, root: &str, pos: V3) -> SceneNode {
    SceneNode {
        name: name.as_bytes().to_vec(),
        root_name: root.as_bytes().to_vec(),
        has_mesh: true,
        mesh_convertible: true,
        world_pos: pos,
    }
}

fn city_snapshot() -> Vec<SceneNode> {
    vec![
        node("Ground", "City", at(0, 0, 0)),
        node("AnvilBody", "Anvil", at(0, 12_500_000, 0)),
        node("Objective0", "City", at(0, 1_000_000, 30_000_000)),
    ]
}

/// Drive a fresh simulation up to `Playing` with the given snapshot.
fn start_playing(snapshot: &Vec<SceneNode>) -> SimState {
    let mut s = SimState::new();
    assert_eq!(s.phase, Phase::Loading);
    s.tick_loading(false);
    assert_eq!(s.phase, Phase::Loading);
    s.tick_loading(true);
    assert_eq!(s.phase, Phase::Preparing);
    let empty: Vec<SceneNode> = Vec::new();
    assert_eq!(s.tick_prepare(0, &empty), Ok(PrepareStep::SpawnedLevel));
    assert_eq!(s.tick_prepare(1, snapshot), Ok(PrepareStep::Waiting));
    assert_eq!(s.tick_prepare(3, snapshot), Ok(PrepareStep::Synthesized));
    assert_eq!(s.phase, Phase::Playing);
    s
}

#[test]
fn phases_progress_from_loading_to_playing() {
    let snap = city_snapshot();
    let s = start_playing(&snap);
    let lvl = s.level.as_ref().unwrap();
    assert_eq!(lvl.markers.len(), 1);
    assert_eq!(lvl.markers[0].num, 0);
    assert_eq!(lvl.markers[0].pos, at(0, 1_000_000, 30_000_000));
    assert_eq!(lvl.cargo.state, CargoState::Free);
}

#[test]
fn reset_despawns_transient_and_keeps_progress() {
    let snap = city_snapshot();
    let mut s = start_playing(&snap);
    s.progress.record_objective(1);
    let objectives_before = s.progress.objectives.clone();
    let powerups_before = s.progress.powerups.clone();
    let help_before = s.progress.help;
    assert!(s.world.transient_count() > 0);

    let mut input = idle_input();
    input.reset_pressed = true;
    let out = s.tick_play(&input, &ground_feedback());

    assert!(out.reset);
    assert_eq!(s.phase, Phase::Preparing);
    assert!(s.level.is_none());
    assert_eq!(s.world.transient_count(), 0);
    assert_eq!(s.progress.objectives, objectives_before);
    assert_eq!(s.progress.powerups, powerups_before);
    assert_eq!(s.progress.help, help_before);
}

#[test]
fn delivery_completes_objective_and_regenerates() {
    let snap = city_snapshot();
    let mut s = start_playing(&snap);
    let mut fb = ground_feedback();
    // Set the free cargo down inside the delivery radius of the marker.
    fb.cargo_pos = at(0, 0, 30_000_000);
    let out = s.tick_play(&idle_input(), &fb);
    assert!(out.completed);
    assert!(out.reset);
    assert_eq!(s.phase, Phase::Preparing);
    assert_eq!(s.progress.objectives, vec![0]);
    assert_eq!(s.progress.powerups, vec![Powerup::Weight]);
}

#[test]
fn delivered_objective_does_not_retrigger_next_cycle() {
    let snap = city_snapshot();
    let mut s = start_playing(&snap);
    let mut fb = ground_feedback();
    fb.cargo_pos = at(0, 0, 30_000_000);
    let out = s.tick_play(&idle_input(), &fb);
    assert!(out.completed);

    // Regenerate the level; the cargo lingers in the delivered zone.
    assert_eq!(s.tick_prepare(0, &snap), Ok(PrepareStep::SpawnedLevel));
    assert_eq!(s.tick_prepare(3, &snap), Ok(PrepareStep::Synthesized));
    let again = s.tick_play(&idle_input(), &fb);
    assert!(!again.completed);
    assert!(!again.reset);
    assert_eq!(s.phase, Phase::Playing);
    assert_eq!(s.progress.objectives, vec![0]);
    assert_eq!(s.progress.powerups, vec![Powerup::Weight]);
}

#[test]
fn delivery_boundary_distance_does_not_complete() {
    // The marker sits exactly five units from the delivery probe: the
    // strict inequality leaves it incomplete.
    let snap = vec![
        node("Ground", "City", at(0, 0, 0)),
        node("AnvilBody", "Anvil", at(0, 12_500_000, 0)),
        node("Objective0", "City", at(0, 1_000_000, 5_000_000)),
    ];
    let mut s = start_playing(&snap);
    let mut fb = ground_feedback();
    fb.cargo_pos = at(0, 0, 0);
    let out = s.tick_play(&idle_input(), &fb);
    assert!(!out.completed);
    assert_eq!(s.phase, Phase::Playing);
    assert!(s.progress.objectives.is_empty());
}

#[test]
fn carried_cargo_cannot_deliver() {
    let snap = city_snapshot();
    let mut s = start_playing(&snap);
    let mut fb = ground_feedback();
    // Bring the cargo within reach and drain the spawn cooldown.
    fb.cargo_pos = at(0, 1_000_000, 0);
    for _ in 0..19 {
        s.tick_play(&idle_input(), &fb);
    }
    let mut grab = idle_input();
    grab.action_held = true;
    let out = s.tick_play(&grab, &fb);
    assert_eq!(out.event, InteractionEvent::PickedUp);
    // Carry the held cargo over the marker: no delivery while held.
    let mut fb_over = ground_feedback();
    fb_over.player_pos = at(0, 1_000_000, 30_000_000);
    let over = s.tick_play(&idle_input(), &fb_over);
    assert!(!over.completed);
    assert_eq!(s.phase, Phase::Playing);
    let lvl = s.level.as_ref().unwrap();
    assert_eq!(lvl.cargo.state, CargoState::Held);
}

#[test]
fn pickup_and_drop_through_the_pipeline() {
    let snap = city_snapshot();
    let mut s = start_playing(&snap);
    let mut fb = ground_feedback();
    fb.cargo_pos = at(0, 1_000_000, 0);
    for _ in 0..19 {
        let out = s.tick_play(&idle_input(), &fb);
        assert_eq!(out.event, InteractionEvent::Idle);
    }
    let mut grab = idle_input();
    grab.action_held = true;
    assert_eq!(s.tick_play(&grab, &fb).event, InteractionEvent::PickedUp);
    {
        let lvl = s.level.as_ref().unwrap();
        assert_eq!(lvl.cargo.state, CargoState::Held);
        assert_eq!(lvl.cargo.groups.memberships, 0);
    }
    // The one cargo of the level is the only entity that can be held.
    assert_eq!(s.world.kind_count(EntityKind::Cargo), 1);
    let mut put = idle_input();
    put.action_pressed = true;
    assert_eq!(s.tick_play(&put, &fb).event, InteractionEvent::Dropped);
    let lvl = s.level.as_ref().unwrap();
    assert_eq!(lvl.cargo.state, CargoState::Free);
    assert_eq!(lvl.cargo.groups.memberships, 2);
}

#[test]
fn help_toggle_through_the_pipeline() {
    let snap = city_snapshot();
    let mut s = start_playing(&snap);
    assert!(s.progress.help);
    let mut input = idle_input();
    input.help_pressed = true;
    s.tick_play(&input, &ground_feedback());
    assert!(!s.progress.help);
    s.tick_play(&input, &ground_feedback());
    assert!(s.progress.help);
}

#[test]
fn incomplete_scene_stalls_after_the_bound() {
    let mut s = SimState::new();
    s.tick_loading(true);
    let empty: Vec<SceneNode> = Vec::new();
    assert_eq!(s.tick_prepare(0, &empty), Ok(PrepareStep::SpawnedLevel));
    for _ in 0..600 {
        assert_eq!(s.tick_prepare(1, &empty), Ok(PrepareStep::Waiting));
    }
    assert_eq!(s.tick_prepare(1, &empty), Err(PrepareFault::Stalled));
    assert_eq!(s.phase, Phase::Preparing);
}

#[test]
fn bad_scene_node_fails_preparation() {
    let snap = vec![
        node("Ground", "City", at(0, 0, 0)),
        node("ObjectiveOops", "City", at(0, 0, 0)),
    ];
    let mut s = SimState::new();
    s.tick_loading(true);
    assert_eq!(s.tick_prepare(0, &snap), Ok(PrepareStep::SpawnedLevel));
    match s.tick_prepare(2, &snap) {
        Err(PrepareFault::Node(f)) => {
            assert_eq!(f.index, 1);
        },
        other => panic!("expected a node fault, got {:?}", other),
    }
    assert_eq!(s.phase, Phase::Preparing);
}

#[test]
fn loading_waits_until_assets_are_resident() {
    let mut s = SimState::new();
    for _ in 0..5 {
        s.tick_loading(false);
        assert_eq!(s.phase, Phase::Loading);
    }
    s.tick_loading(true);
    assert_eq!(s.phase, Phase::Preparing);
    // Further asset signals change nothing once loading is over.
    s.tick_loading(true);
    assert_eq!(s.phase, Phase::Preparing);
}
