use anvil_express::fx::{fx_add, fx_mul};
use anvil_express::player::Player;

#[test]
fn spawn_tuning() {
    let p = Player::spawn();
    assert_eq!(p.speed, 1_000_000);
    assert_eq!(p.jump_strength, 70_000);
    assert_eq!(p.pickup_range, 3_000_000);
    assert_eq!(p.cooldown_left, 300_000);
    assert!(!p.launched);
    assert_eq!((p.velocity.x, p.velocity.y, p.velocity.z), (0, 0, 0));
}

#[test]
fn look_applies_yaw_and_pitch() {
    let mut p = Player::spawn();
    p.look_step(-1_000_000, -1_000_000);
    assert_eq!(p.yaw, 4_000);
    assert_eq!(p.pitch, 4_000);
    p.look_step(500_000, 0);
    assert_eq!(p.yaw, 2_000);
    assert_eq!(p.pitch, 4_000);
}

#[test]
fn pitch_clamp_rejects_overlarge_delta() {
    // A delta that would land at +1.6 radians is rejected whole, not cut
    // to the boundary.
    let mut p = Player::spawn();
    p.look_step(0, -400_000_000);
    assert_eq!(p.pitch, 0);
    // A small delta still applies afterwards.
    p.look_step(0, -1_000_000);
    assert_eq!(p.pitch, 4_000);
}

#[test]
fn pitch_clamp_boundary_is_open() {
    // This delta lands exactly on the quarter-turn boundary; the clamp
    // interval is open, so it is rejected too.
    let mut p = Player::spawn();
    p.look_step(0, -392_699_000);
    assert_eq!(p.pitch, 0);
}

#[test]
fn pitch_clamp_keeps_interval() {
    let mut p = Player::spawn();
    for _ in 0..2000 {
        p.look_step(0, -10_000_000);
    }
    assert!(p.pitch > -1_570_796 && p.pitch < 1_570_796);
}

#[test]
fn diagonal_direction_is_normalized() {
    let axis = Player::move_dir_local(true, false, false, false);
    assert_eq!(axis, (1_000_000, 0));
    let diagonal = Player::move_dir_local(true, false, false, true);
    assert_eq!(diagonal, (707_107, 707_107));
    let back_left = Player::move_dir_local(false, true, true, false);
    assert_eq!(back_left, (-707_107, -707_107));
}

#[test]
fn diagonal_speed_equals_axis_speed() {
    // Squared magnitude of the diagonal direction equals the axis-aligned
    // one exactly: not the square root of two larger.
    let axis = Player::move_dir_local(true, false, false, false);
    let diagonal = Player::move_dir_local(true, false, false, true);
    let axis_sq = fx_add(fx_mul(axis.0, axis.0), fx_mul(axis.1, axis.1));
    let diag_sq = fx_add(fx_mul(diagonal.0, diagonal.0), fx_mul(diagonal.1, diagonal.1));
    assert_eq!(axis_sq, 1_000_000);
    assert_eq!(diag_sq, 1_000_000);
}

#[test]
fn opposing_keys_cancel() {
    assert_eq!(Player::move_dir_local(true, true, false, false), (0, 0));
    assert_eq!(Player::move_dir_local(true, true, true, false), (0, -1_000_000));
}

#[test]
fn movement_integrates_velocity_and_gravity() {
    let mut p = Player::spawn();
    let disp = p.movement_step(true, false, false, false, 0, -1_000_000, false, false, 16_667);
    assert_eq!((p.velocity.x, p.velocity.y, p.velocity.z), (0, -5_000, -16_667));
    assert_eq!((disp.x, disp.y, disp.z), (0, -8_300, -27_700));
}

#[test]
fn speed_powerup_and_carry_penalty_compose() {
    let mut base = Player::spawn();
    base.movement_step(true, false, false, false, 0, -1_000_000, false, false, 16_667);
    let mut boosted = Player::spawn();
    boosted.movement_step(true, false, false, false, 0, -1_000_000, true, false, 16_667);
    let mut carrying = Player::spawn();
    carrying.movement_step(true, false, false, false, 0, -1_000_000, false, true, 16_667);
    let mut both = Player::spawn();
    both.movement_step(true, false, false, false, 0, -1_000_000, true, true, 16_667);
    assert_eq!(base.velocity.z, -16_667);
    assert_eq!(boosted.velocity.z, -20_000);
    assert_eq!(carrying.velocity.z, -8_333);
    assert_eq!(both.velocity.z, -10_000);
}

#[test]
fn damping_variants() {
    let mut p = Player::spawn();
    p.velocity.x = 100_000;
    p.velocity.y = 50_000;
    p.velocity.z = -200_000;
    p.launched = true;
    p.damping_step(true, false);
    assert_eq!((p.velocity.x, p.velocity.y, p.velocity.z), (90_000, 0, -180_000));
    assert!(!p.launched);

    let mut air = Player::spawn();
    air.velocity.x = 100_000;
    air.velocity.y = 50_000;
    air.damping_step(false, false);
    assert_eq!((air.velocity.x, air.velocity.y), (93_000, 50_000));

    let mut loaded = Player::spawn();
    loaded.velocity.x = 100_000;
    loaded.damping_step(false, true);
    assert_eq!(loaded.velocity.x, 99_000);
}

#[test]
fn jump_requires_ground_and_not_the_cargo() {
    let mut p = Player::spawn();
    p.jump_step(true, true, false);
    assert_eq!(p.velocity.y, 70_000);

    let mut airborne = Player::spawn();
    airborne.jump_step(true, false, false);
    assert_eq!(airborne.velocity.y, 0);

    let mut on_cargo = Player::spawn();
    on_cargo.jump_step(true, true, true);
    assert_eq!(on_cargo.velocity.y, 0);

    let mut idle = Player::spawn();
    idle.jump_step(false, true, false);
    assert_eq!(idle.velocity.y, 0);
}

#[test]
fn forward_hold_converges_to_damped_steady_state() {
    // Hold forward for one time unit at a tick duration of 1/60 while
    // grounded. The recurrence v' = (v + speed * dt) * 0.9 converges to
    // speed * dt * 0.9 / 0.1, about 0.150003 units per tick here; after 60
    // ticks the horizontal speed must sit within 0.002 units of it.
    let mut p = Player::spawn();
    for _ in 0..60 {
        p.movement_step(true, false, false, false, 0, -1_000_000, false, false, 16_667);
        p.damping_step(true, false);
    }
    let steady = -150_003i64;
    assert!((p.velocity.z - steady).abs() <= 2_000, "speed {}", p.velocity.z);
    assert_eq!(p.velocity.x, 0);
    assert_eq!(p.velocity.y, 0);
}
