use anvil_express::cargo::{CargoState, InteractionEvent};
use anvil_express::fx::V3;
use anvil_express::phase::Phase;
use anvil_express::progress::Powerup;
use anvil_express::scene::SceneNode;
use anvil_express::sim::{Feedback, PrepareStep, SimState, TickInput};

fn at(x: i64, y: i64, z: i64) -> V3 {
    V3 { x, y, z }
}

fn quiet_input() -> TickInput {
    TickInput {
        dt: 16_667,
        look_dx: 0,
        look_dy: 0,
        forward_key: false,
        back_key: false,
        left_key: false,
        right_key: false,
        jump_key: false,
        action_held: false,
        action_pressed: false,
        throw_key: false,
        help_pressed: false,
        reset_pressed: false,
    }
}

fn flat_feedback() -> Feedback {
    Feedback {
        grounded: true,
        on_held_cargo: false,
        player_pos: at(0, 0, 0),
        cargo_pos: at(0, 60_000_000, 0),
        cargo_vel: at(0, 0, 0),
        fwd_x: 0,
        fwd_z: -1_000_000,
        cam_fwd: at(0, 0, -1_000_000),
    }
}

fn mesh(name: &str, root: &str, pos: V3) -> SceneNode {
    SceneNode {
        name: name.as_bytes().to_vec(),
        root_name: root.as_bytes().to_vec(),
        has_mesh: true,
        mesh_convertible: true,
        world_pos: pos,
    }
}

fn three_customer_snapshot() -> Vec<SceneNode> {
    vec![
        mesh("Ground", "City", at(0, 0, 0)),
        mesh("AnvilBody", "Anvil", at(0, 12_500_000, 0)),
        mesh("Objective0", "City", at(0, 1_000_000, 30_000_000)),
        mesh("Objective1", "City", at(30_000_000, 1_000_000, 0)),
        mesh("Objective2", "City", at(-30_000_000, 1_000_000, 0)),
    ]
}

fn boot(snapshot: &Vec<SceneNode>) -> SimState {
    let mut s = SimState::new();
    s.tick_loading(true);
    assert_eq!(s.tick_prepare(0, snapshot), Ok(PrepareStep::SpawnedLevel));
    assert_eq!(s.tick_prepare(5, snapshot), Ok(PrepareStep::Synthesized));
    s
}

#[test]
fn three_deliveries_grant_all_powerups() {
    let snap = three_customer_snapshot();
    let mut s = boot(&snap);
    let drop_points = [
        at(0, 0, 30_000_000),
        at(30_000_000, 0, 0),
        at(-30_000_000, 0, 0),
    ];
    for (n, point) in drop_points.iter().enumerate() {
        let mut fb = flat_feedback();
        fb.cargo_pos = *point;
        let out = s.tick_play(&quiet_input(), &fb);
        assert!(out.completed);
        assert!(out.reset);
        assert_eq!(s.progress.delivered_count(), n + 1);
        if n + 1 < drop_points.len() {
            assert_eq!(s.tick_prepare(0, &snap), Ok(PrepareStep::SpawnedLevel));
            assert_eq!(s.tick_prepare(5, &snap), Ok(PrepareStep::Synthesized));
        }
    }
    assert!(s.progress.all_delivered());
    assert_eq!(s.progress.objectives, vec![0, 1, 2]);
    assert_eq!(
        s.progress.powerups,
        vec![Powerup::Weight, Powerup::Strength, Powerup::Speed],
    );
}

#[test]
fn weight_powerup_pulls_harder_through_the_pipeline() {
    let snap = three_customer_snapshot();

    let mut base = boot(&snap);
    let mut fb = flat_feedback();
    fb.cargo_pos = at(10_000_000, 1_000_000, 0);
    let mut pull = quiet_input();
    pull.action_held = true;
    let out = base.tick_play(&pull, &fb);
    assert_eq!(out.event, InteractionEvent::Attracted);
    let base_gain = base.level.as_ref().unwrap().player.velocity.x;
    assert_eq!(base_gain, 50_000);

    let mut boosted = boot(&snap);
    boosted.progress.record_objective(0);
    assert!(boosted.progress.has_powerup(Powerup::Weight));
    let out2 = boosted.tick_play(&pull, &fb);
    assert_eq!(out2.event, InteractionEvent::Attracted);
    let boosted_gain = boosted.level.as_ref().unwrap().player.velocity.x;
    assert_eq!(boosted_gain, 66_660);
    assert!(boosted_gain > base_gain);
}

#[test]
fn speed_powerup_moves_faster_through_the_pipeline() {
    let snap = three_customer_snapshot();

    let mut base = boot(&snap);
    let mut run = quiet_input();
    run.forward_key = true;
    base.tick_play(&run, &flat_feedback());
    let base_speed = base.level.as_ref().unwrap().player.velocity.z;
    assert_eq!(base_speed, -15_000);

    let mut boosted = boot(&snap);
    boosted.progress.record_objective(2);
    assert!(boosted.progress.has_powerup(Powerup::Speed));
    boosted.tick_play(&run, &flat_feedback());
    let boosted_speed = boosted.level.as_ref().unwrap().player.velocity.z;
    assert_eq!(boosted_speed, -18_000);
    assert!(boosted_speed.abs() > base_speed.abs());
}

#[test]
fn throw_through_the_pipeline() {
    let snap = three_customer_snapshot();
    let mut s = boot(&snap);
    let mut fb = flat_feedback();
    fb.cargo_pos = at(0, 1_000_000, 0);
    // Drain the spawn cooldown, then grab.
    for _ in 0..19 {
        s.tick_play(&quiet_input(), &fb);
    }
    let mut grab = quiet_input();
    grab.action_held = true;
    assert_eq!(s.tick_play(&grab, &fb).event, InteractionEvent::PickedUp);

    let mut hurl = quiet_input();
    hurl.throw_key = true;
    let out = s.tick_play(&hurl, &fb);
    assert_eq!(out.event, InteractionEvent::Thrown);
    let lvl = s.level.as_ref().unwrap();
    assert_eq!(lvl.cargo.state, CargoState::Free);
    assert_eq!(lvl.cargo.groups.memberships, 2);
    assert_eq!(lvl.cargo.groups.filters, 0xFFFF_FFFF);
    // Player at rest: the cargo leaves along the camera forward at the base
    // throw strength of ten units.
    assert_eq!(lvl.cargo.vel.z, -10_000_000);
    assert!(lvl.player.launched);

    // Holding the throw key on the now-free cargo throws nothing more.
    let after = s.tick_play(&hurl, &fb);
    assert_eq!(after.event, InteractionEvent::Idle);
}
