use anvil_express::cargo::{
    follow_step, interaction_step, BodyMode, Cargo, CargoState, InteractionEvent,
};
use anvil_express::fx::V3;
use anvil_express::player::Player;

fn ready_player() -> Player {
    let mut p = Player::spawn();
    p.cooldown_left = 0;
    p
}

fn origin() -> V3 {
    V3 { x: 0, y: 0, z: 0 }
}

fn forward() -> V3 {
    V3 { x: 0, y: 0, z: -1_000_000 }
}

#[test]
fn cargo_spawns_free_and_colliding() {
    let c = Cargo::spawn();
    assert_eq!(c.state, CargoState::Free);
    assert_eq!(c.body, BodyMode::Dynamic);
    assert_eq!(c.groups.memberships, 2);
    assert_eq!(c.groups.filters, 0xFFFF_FFFF);
    assert_eq!((c.pos.x, c.pos.y, c.pos.z), (0, 12_500_000, 0));
}

#[test]
fn pickup_within_range_with_finished_cooldown() {
    let mut p = ready_player();
    let mut c = Cargo::spawn();
    // 2.999999 units above the head point: strictly inside the 3-unit reach.
    c.pos = V3 { x: 0, y: 3_999_999, z: 0 };
    let ev = interaction_step(
        &mut p, &mut c, origin(), forward(), true, false, false, true, false, false, false, 0,
    );
    assert_eq!(ev, InteractionEvent::PickedUp);
    assert_eq!(c.state, CargoState::Held);
    assert_eq!(c.body, BodyMode::Fixed);
    assert_eq!(c.groups.memberships, 0);
    assert_eq!(c.groups.filters, 0);
    // Pickup re-arms the cooldown.
    assert_eq!(p.cooldown_left, 300_000);
}

#[test]
fn pickup_boundary_distance_does_not_trigger() {
    // Exactly 3 units from the head point: the strict inequality fails, so
    // the action pulls instead of picking up.
    let mut p = ready_player();
    let mut c = Cargo::spawn();
    c.pos = V3 { x: 0, y: 4_000_000, z: 0 };
    let ev = interaction_step(
        &mut p, &mut c, origin(), forward(), true, false, false, true, false, false, false, 0,
    );
    assert_eq!(ev, InteractionEvent::Attracted);
    assert_eq!(c.state, CargoState::Free);
}

#[test]
fn pickup_blocked_by_running_cooldown() {
    let mut p = Player::spawn();
    // Spawn arms the cooldown; a short tick leaves it running.
    let mut c = Cargo::spawn();
    c.pos = V3 { x: 0, y: 1_000_000, z: 0 };
    let ev = interaction_step(
        &mut p, &mut c, origin(), forward(), true, false, false, true, false, false, false,
        10_000,
    );
    assert_eq!(ev, InteractionEvent::Idle);
    assert_eq!(c.state, CargoState::Free);
    assert_eq!(p.cooldown_left, 290_000);
}

#[test]
fn cooldown_elapses_then_pickup_succeeds() {
    let mut p = Player::spawn();
    let mut c = Cargo::spawn();
    c.pos = V3 { x: 0, y: 1_000_000, z: 0 };
    let ev1 = interaction_step(
        &mut p, &mut c, origin(), forward(), true, false, false, true, false, false, false,
        300_000,
    );
    assert_eq!(ev1, InteractionEvent::PickedUp);
}

#[test]
fn attract_pulls_both_bodies() {
    let mut p = ready_player();
    let mut c = Cargo::spawn();
    c.pos = V3 { x: 10_000_000, y: 1_000_000, z: 0 };
    let ev = interaction_step(
        &mut p, &mut c, origin(), forward(), true, false, false, true, false, false, false,
        16_667,
    );
    assert_eq!(ev, InteractionEvent::Attracted);
    // Pull magnitude 0.003 * (dt * 100) = 5000 micro-units per unit of
    // separation; the player gains the full pull, the cargo a fifth back.
    assert_eq!(p.velocity.x, 50_000);
    assert_eq!(c.vel.x, -10_000);
    assert_eq!(p.velocity.y, 0);
    assert_eq!(c.vel.y, 0);
}

#[test]
fn weight_powerup_strengthens_attraction() {
    let mut p = ready_player();
    let mut c = Cargo::spawn();
    c.pos = V3 { x: 10_000_000, y: 1_000_000, z: 0 };
    interaction_step(
        &mut p, &mut c, origin(), forward(), true, false, false, true, false, true, false,
        16_667,
    );
    assert_eq!(p.velocity.x, 66_660);
    assert!(p.velocity.x > 50_000);
}

#[test]
fn attraction_ignores_cooldown() {
    // The cooldown gates only the pickup edge; the continuous pull runs
    // even while it is still counting down.
    let mut p = Player::spawn();
    assert_eq!(p.cooldown_left, 300_000);
    let mut c = Cargo::spawn();
    c.pos = V3 { x: 10_000_000, y: 1_000_000, z: 0 };
    let ev = interaction_step(
        &mut p, &mut c, origin(), forward(), true, false, false, true, false, false, false,
        16_667,
    );
    assert_eq!(ev, InteractionEvent::Attracted);
    assert_eq!(p.velocity.x, 50_000);
}

fn held_pair() -> (Player, Cargo) {
    let mut p = ready_player();
    let mut c = Cargo::spawn();
    c.pos = V3 { x: 0, y: 1_000_000, z: 0 };
    let ev = interaction_step(
        &mut p, &mut c, origin(), forward(), true, false, false, true, false, false, false, 0,
    );
    assert_eq!(ev, InteractionEvent::PickedUp);
    (p, c)
}

#[test]
fn drop_restores_dynamics_and_soft_tosses() {
    let (mut p, mut c) = held_pair();
    p.velocity = V3 { x: 100_000, y: 0, z: -50_000 };
    let ev = interaction_step(
        &mut p, &mut c, origin(), forward(), false, true, false, true, false, false, false, 0,
    );
    assert_eq!(ev, InteractionEvent::Dropped);
    assert_eq!(c.state, CargoState::Free);
    assert_eq!(c.body, BodyMode::Dynamic);
    assert_eq!(c.groups.memberships, 2);
    assert_eq!(c.groups.filters, 0xFFFF_FFFF);
    // Drop velocity is the player velocity scaled by 100.
    assert_eq!(c.vel.x, 10_000_000);
    assert_eq!(c.vel.z, -5_000_000);
    assert_eq!(p.cooldown_left, 300_000);
}

#[test]
fn throw_imparts_camera_forward_impulse() {
    let (mut p, mut c) = held_pair();
    p.cooldown_left = 0;
    let ev = interaction_step(
        &mut p, &mut c, origin(), forward(), false, false, true, true, false, false, false, 0,
    );
    assert_eq!(ev, InteractionEvent::Thrown);
    assert_eq!(c.state, CargoState::Free);
    // Base throw strength 10 along the camera forward.
    assert_eq!(c.vel.z, -10_000_000);
    assert!(p.launched);
    assert_eq!(p.cooldown_left, 300_000);
}

#[test]
fn strength_powerup_throws_harder() {
    let (mut p1, mut c1) = held_pair();
    p1.cooldown_left = 0;
    interaction_step(
        &mut p1, &mut c1, origin(), forward(), false, false, true, true, false, false, false, 0,
    );
    let (mut p2, mut c2) = held_pair();
    p2.cooldown_left = 0;
    interaction_step(
        &mut p2, &mut c2, origin(), forward(), false, false, true, true, false, false, true, 0,
    );
    // Boosted throw strength 12 versus base 10, same velocity and camera.
    assert_eq!(c1.vel.z, -10_000_000);
    assert_eq!(c2.vel.z, -12_000_000);
    assert!(c2.vel.z.abs() > c1.vel.z.abs());
}

#[test]
fn throw_blocked_while_airborne() {
    let (mut p, mut c) = held_pair();
    let ev = interaction_step(
        &mut p, &mut c, origin(), forward(), false, false, true, false, false, false, false, 0,
    );
    assert_eq!(ev, InteractionEvent::Idle);
    assert_eq!(c.state, CargoState::Held);
    assert!(!p.launched);
}

#[test]
fn throw_blocked_standing_on_the_cargo() {
    let (mut p, mut c) = held_pair();
    let ev = interaction_step(
        &mut p, &mut c, origin(), forward(), false, false, true, true, true, false, false, 0,
    );
    assert_eq!(ev, InteractionEvent::Idle);
    assert_eq!(c.state, CargoState::Held);
}

#[test]
fn launch_guard_blocks_repeat_throws() {
    let (mut p, mut c) = held_pair();
    p.launched = true;
    let ev = interaction_step(
        &mut p, &mut c, origin(), forward(), false, false, true, true, false, false, false, 0,
    );
    assert_eq!(ev, InteractionEvent::Idle);
    assert_eq!(c.state, CargoState::Held);
}

#[test]
fn held_cargo_follows_carry_offset() {
    let (p, mut c) = held_pair();
    let player_pos = V3 { x: 1_000_000, y: 2_000_000, z: 3_000_000 };
    follow_step(&mut c, player_pos, forward(), p.yaw);
    assert_eq!(c.pos.x, 1_000_000);
    assert_eq!(c.pos.y, 2_850_000);
    assert_eq!(c.pos.z, 1_800_000);
    assert_eq!(c.facing, p.yaw);
}

#[test]
fn free_cargo_does_not_follow() {
    let mut c = Cargo::spawn();
    let before = c.pos;
    follow_step(&mut c, V3 { x: 9_000_000, y: 0, z: 0 }, forward(), 777);
    assert_eq!(c.pos, before);
    assert_eq!(c.facing, 0);
}

#[test]
fn zero_tick_duration_changes_nothing_but_edges() {
    // A zero-length tick neither advances the cooldown nor pulls anything.
    let mut p = Player::spawn();
    let mut c = Cargo::spawn();
    c.pos = V3 { x: 10_000_000, y: 1_000_000, z: 0 };
    let ev = interaction_step(
        &mut p, &mut c, origin(), forward(), true, false, false, true, false, false, false, 0,
    );
    assert_eq!(ev, InteractionEvent::Attracted);
    assert_eq!(p.cooldown_left, 300_000);
    assert_eq!(p.velocity.x, 0);
    assert_eq!(c.vel.x, 0);
}
