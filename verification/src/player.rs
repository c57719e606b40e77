//! The kinematic player controller.
//!
//! Per tick the controller folds look input into yaw and pitch, builds a
//! desired direction from the held movement keys, scales it by the speed
//! multipliers, adds gravity, integrates the result into a velocity
//! accumulator, and hands the host a displacement request for the character
//! controller. Grounding feedback then damps the horizontal velocity and may
//! zero the vertical one. Headings are the host's job to turn into basis
//! vectors (that needs trigonometry); the controller takes the horizontal
//! forward basis as an input and derives the right basis by an exact
//! quarter-turn.

use crate::fx::{add_val, fx_add, fx_mul, fx_neg, mul_val, neg_val, V3, SCALE};
use vstd::prelude::*;

verus! {

/// Radians of rotation per micro-unit of pointer motion.
pub const LOOK_SENSITIVITY: i64 = 4_000;

/// A quarter turn, in micro-radians; the camera pitch must stay strictly
/// inside `(-HALF_PI, HALF_PI)`.
pub const HALF_PI: i64 = 1_570_796;

/// Constant downward pull added to the velocity each tick, scaled by the
/// tick duration.
pub const GRAVITY: i64 = 300_000;

/// The player's base movement speed.
pub const BASE_SPEED: i64 = 1_000_000;

/// Vertical velocity set by a jump.
pub const JUMP_STRENGTH: i64 = 70_000;

/// Pickup reach; compared squared against the squared distance to the cargo.
pub const PICKUP_RANGE: i64 = 3_000_000;

/// How long the single-shot cooldown runs after a pickup, drop or throw.
pub const COOLDOWN_TIME: i64 = 300_000;

/// Speed multiplier while the Speed powerup is held.
pub const SPEED_BOOST: i64 = 1_200_000;

/// Speed multiplier while carrying the cargo.
pub const CARRY_PENALTY: i64 = 500_000;

/// Horizontal damping per tick while grounded.
pub const DAMP_GROUNDED: i64 = 900_000;

/// Horizontal damping per tick while airborne with free hands: the
/// canonical air-drag tuning of this build.
pub const DAMP_AIR: i64 = 930_000;

/// Horizontal damping per tick while airborne and carrying the cargo.
pub const DAMP_AIR_CARRY: i64 = 990_000;

/// Gain turning the velocity accumulator into a displacement request.
pub const DISPLACEMENT_GAIN: i64 = 100_000_000;

/// Height of the head point above the body origin; pickup reach is
/// measured from there.
pub const HEAD_OFFSET: i64 = 1_000_000;

/// One over the square root of two, in micro-units; scales a diagonal input
/// so that its squared magnitude equals that of an axis-aligned one.
pub const INV_SQRT2: i64 = 707_107;

pub struct Player {
    /// Base movement speed scalar.
    pub speed: i64,
    /// The velocity accumulator, mutated only by the controller and the
    /// cargo interaction machine.
    pub velocity: V3,
    /// Vertical velocity a jump sets.
    pub jump_strength: i64,
    /// Pickup reach.
    pub pickup_range: i64,
    /// Time still to run on the single-shot action cooldown; zero means
    /// finished.
    pub cooldown_left: i64,
    /// Guard that keeps one throw-key hold from launching every tick.
    pub launched: bool,
    /// Accumulated heading angle, micro-radians.
    pub yaw: i64,
    /// Camera pitch, micro-radians, strictly inside `(-HALF_PI, HALF_PI)`.
    pub pitch: i64,
}

/// Contribution of one opposing key pair: 1, -1, or 0.
pub open spec fn key_axis(pos: bool, neg: bool) -> int {
    (if pos {
        1int
    } else {
        0int
    }) - (if neg {
        1int
    } else {
        0int
    })
}

/// The desired direction in the player's local frame, as (forward, right)
/// fixed-point components. Opposing keys cancel; a diagonal pair is
/// normalized by scaling both axes with `INV_SQRT2` so diagonal movement is
/// no faster than axis-aligned movement.
pub open spec fn move_dir_spec(f: bool, b: bool, l: bool, r: bool) -> (int, int) {
    let df = key_axis(f, b);
    let dr = key_axis(r, l);
    if df != 0 && dr != 0 {
        (df * INV_SQRT2 as int, dr * INV_SQRT2 as int)
    } else {
        (df * SCALE as int, dr * SCALE as int)
    }
}

/// Squared magnitude of a local direction.
pub open spec fn dir_len_sq_spec(d: (int, int)) -> int {
    add_val(mul_val(d.0, d.0), mul_val(d.1, d.1))
}

/// The combined speed multiplier: Speed powerup and carrying penalty compose
/// multiplicatively with the base speed.
pub open spec fn move_factor_spec(speed: int, boost: bool, carrying: bool) -> int {
    mul_val(
        mul_val(
            if boost {
                SPEED_BOOST as int
            } else {
                SCALE as int
            },
            speed,
        ),
        if carrying {
            CARRY_PENALTY as int
        } else {
            SCALE as int
        },
    )
}

/// Horizontal acceleration in the world frame: the local direction rotated
/// by the forward basis (the right basis is the forward one turned a quarter
/// turn), scaled by the combined speed multiplier.
pub open spec fn accel_x_spec(
    f: bool,
    b: bool,
    l: bool,
    r: bool,
    fwd_x: int,
    fwd_z: int,
    factor: int,
) -> int {
    let d = move_dir_spec(f, b, l, r);
    mul_val(add_val(mul_val(fwd_x, d.0), mul_val(neg_val(fwd_z), d.1)), factor)
}

pub open spec fn accel_z_spec(
    f: bool,
    b: bool,
    l: bool,
    r: bool,
    fwd_x: int,
    fwd_z: int,
    factor: int,
) -> int {
    let d = move_dir_spec(f, b, l, r);
    mul_val(add_val(mul_val(fwd_z, d.0), mul_val(fwd_x, d.1)), factor)
}

/// The per-tick vertical acceleration: gravity, pointing down.
pub open spec fn neg_gravity_rate() -> int {
    neg_val(GRAVITY as int)
}

/// Angle moved per micro-unit of pointer travel.
pub open spec fn look_delta_spec(d: int) -> int {
    neg_val(mul_val(d, LOOK_SENSITIVITY as int))
}

/// Whether a pitch lies strictly inside the open clamp interval.
pub open spec fn pitch_ok(p: int) -> bool {
    -(HALF_PI as int) < p < HALF_PI as int
}

/// Damping factor chosen from grounding and carrying.
pub open spec fn damp_factor_spec(grounded: bool, carrying: bool) -> int {
    if grounded {
        DAMP_GROUNDED as int
    } else if !carrying {
        DAMP_AIR as int
    } else {
        DAMP_AIR_CARRY as int
    }
}

impl Player {
    /// A freshly spawned player with the reference tuning, cooldown armed.
    pub fn spawn() -> (p: Player)
        ensures
            p.speed == BASE_SPEED,
            p.velocity.x == 0 && p.velocity.y == 0 && p.velocity.z == 0,
            p.jump_strength == JUMP_STRENGTH,
            p.pickup_range == PICKUP_RANGE,
            p.cooldown_left == COOLDOWN_TIME,
            !p.launched,
            p.yaw == 0,
            p.pitch == 0,
    {
        Player {
            speed: BASE_SPEED,
            velocity: V3 { x: 0, y: 0, z: 0 },
            jump_strength: JUMP_STRENGTH,
            pickup_range: PICKUP_RANGE,
            cooldown_left: COOLDOWN_TIME,
            launched: false,
            yaw: 0,
            pitch: 0,
        }
    }

    /// Fold one tick of relative pointer motion into yaw and pitch. Yaw is
    /// unbounded and wraps naturally when interpreted as an angle. Pitch is
    /// clamped to the open interval `(-HALF_PI, HALF_PI)`: the clamp is
    /// evaluated before applying, so an over-large delta is rejected whole
    /// for this tick rather than cut to the boundary.
    pub fn look_step(&mut self, dx: i64, dy: i64)
        ensures
            final(self).yaw as int == add_val(old(self).yaw as int, look_delta_spec(dx as int)),
            final(self).pitch as int == if pitch_ok(
                add_val(old(self).pitch as int, look_delta_spec(dy as int)),
            ) {
                add_val(old(self).pitch as int, look_delta_spec(dy as int))
            } else {
                old(self).pitch as int
            },
            final(self).velocity == old(self).velocity,
            final(self).speed == old(self).speed,
            final(self).jump_strength == old(self).jump_strength,
            final(self).pickup_range == old(self).pickup_range,
            final(self).cooldown_left == old(self).cooldown_left,
            final(self).launched == old(self).launched,
    {
        let pitch_amt = fx_neg(fx_mul(dy, LOOK_SENSITIVITY));
        let candidate = fx_add(self.pitch, pitch_amt);
        if -HALF_PI < candidate && candidate < HALF_PI {
            self.pitch = candidate;
        }
        let yaw_amt = fx_neg(fx_mul(dx, LOOK_SENSITIVITY));
        self.yaw = fx_add(self.yaw, yaw_amt);
    }

    /// Integrate movement keys and gravity into the velocity accumulator and
    /// return the displacement request for the character controller. The
    /// host supplies the horizontal forward basis derived from the yaw.
    pub fn movement_step(
        &mut self,
        forward_key: bool,
        back_key: bool,
        left_key: bool,
        right_key: bool,
        fwd_x: i64,
        fwd_z: i64,
        boost: bool,
        carrying: bool,
        dt: i64,
    ) -> (disp: V3)
        requires
            dt >= 0,
        ensures
            ({
                let factor = move_factor_spec(old(self).speed as int, boost, carrying);
                let ax = accel_x_spec(
                    forward_key,
                    back_key,
                    left_key,
                    right_key,
                    fwd_x as int,
                    fwd_z as int,
                    factor,
                );
                let az = accel_z_spec(
                    forward_key,
                    back_key,
                    left_key,
                    right_key,
                    fwd_x as int,
                    fwd_z as int,
                    factor,
                );
                &&& final(self).velocity.x as int == add_val(
                    old(self).velocity.x as int,
                    mul_val(ax, dt as int),
                )
                &&& final(self).velocity.y as int == add_val(
                    old(self).velocity.y as int,
                    mul_val(neg_val(GRAVITY as int), dt as int),
                )
                &&& final(self).velocity.z as int == add_val(
                    old(self).velocity.z as int,
                    mul_val(az, dt as int),
                )
            }),
            disp.x as int == mul_val(
                mul_val(final(self).velocity.x as int, dt as int),
                DISPLACEMENT_GAIN as int,
            ),
            disp.y as int == mul_val(
                mul_val(final(self).velocity.y as int, dt as int),
                DISPLACEMENT_GAIN as int,
            ),
            disp.z as int == mul_val(
                mul_val(final(self).velocity.z as int, dt as int),
                DISPLACEMENT_GAIN as int,
            ),
            final(self).speed == old(self).speed,
            final(self).yaw == old(self).yaw,
            final(self).pitch == old(self).pitch,
            final(self).cooldown_left == old(self).cooldown_left,
            final(self).launched == old(self).launched,
            final(self).jump_strength == old(self).jump_strength,
            final(self).pickup_range == old(self).pickup_range,
    {
        let (dfc, drc) = Self::move_dir_local(forward_key, back_key, left_key, right_key);
        let factor = fx_mul(
            fx_mul(if boost { SPEED_BOOST } else { SCALE }, self.speed),
            if carrying { CARRY_PENALTY } else { SCALE },
        );
        let rx = fx_neg(fwd_z);
        let rz = fwd_x;
        let ax = fx_mul(fx_add(fx_mul(fwd_x, dfc), fx_mul(rx, drc)), factor);
        let az = fx_mul(fx_add(fx_mul(fwd_z, dfc), fx_mul(rz, drc)), factor);
        let ay = fx_neg(GRAVITY);
        self.velocity = V3 {
            x: fx_add(self.velocity.x, fx_mul(ax, dt)),
            y: fx_add(self.velocity.y, fx_mul(ay, dt)),
            z: fx_add(self.velocity.z, fx_mul(az, dt)),
        };
        V3 {
            x: fx_mul(fx_mul(self.velocity.x, dt), DISPLACEMENT_GAIN),
            y: fx_mul(fx_mul(self.velocity.y, dt), DISPLACEMENT_GAIN),
            z: fx_mul(fx_mul(self.velocity.z, dt), DISPLACEMENT_GAIN),
        }
    }

    /// The normalized desired direction in the local frame.
    pub fn move_dir_local(forward_key: bool, back_key: bool, left_key: bool, right_key: bool) -> (d:
        (i64, i64))
        ensures
            d.0 as int == move_dir_spec(forward_key, back_key, left_key, right_key).0,
            d.1 as int == move_dir_spec(forward_key, back_key, left_key, right_key).1,
    {
        let df: i64 = (if forward_key { 1 } else { 0 }) - (if back_key { 1 } else { 0 });
        let dr: i64 = (if right_key { 1 } else { 0 }) - (if left_key { 1 } else { 0 });
        if df != 0 && dr != 0 {
            (df * INV_SQRT2, dr * INV_SQRT2)
        } else {
            (df * SCALE, dr * SCALE)
        }
    }

    /// Apply the grounding feedback of the physics step:
    /// frame-rate-independent horizontal damping, vertical velocity zeroed
    /// on the ground, and the launch guard re-armed there.
    pub fn damping_step(&mut self, grounded: bool, carrying: bool)
        ensures
            final(self).velocity.x as int == mul_val(
                old(self).velocity.x as int,
                damp_factor_spec(grounded, carrying),
            ),
            final(self).velocity.z as int == mul_val(
                old(self).velocity.z as int,
                damp_factor_spec(grounded, carrying),
            ),
            final(self).velocity.y == if grounded {
                0i64
            } else {
                old(self).velocity.y
            },
            final(self).launched == (old(self).launched && !grounded),
            final(self).speed == old(self).speed,
            final(self).yaw == old(self).yaw,
            final(self).pitch == old(self).pitch,
            final(self).cooldown_left == old(self).cooldown_left,
            final(self).jump_strength == old(self).jump_strength,
            final(self).pickup_range == old(self).pickup_range,
    {
        let damp = if grounded {
            DAMP_GROUNDED
        } else if !carrying {
            DAMP_AIR
        } else {
            DAMP_AIR_CARRY
        };
        let vy = if grounded {
            0
        } else {
            self.velocity.y
        };
        if grounded {
            self.launched = false;
        }
        self.velocity = V3 { x: fx_mul(self.velocity.x, damp), y: vy, z: fx_mul(self.velocity.z, damp) };
    }

    /// Jump: only while grounded this tick, and never off the carried cargo
    /// itself.
    pub fn jump_step(&mut self, jump_key: bool, grounded: bool, on_held_cargo: bool)
        ensures
            final(self).velocity.y == if jump_key && grounded && !on_held_cargo {
                old(self).jump_strength
            } else {
                old(self).velocity.y
            },
            final(self).velocity.x == old(self).velocity.x,
            final(self).velocity.z == old(self).velocity.z,
            final(self).speed == old(self).speed,
            final(self).yaw == old(self).yaw,
            final(self).pitch == old(self).pitch,
            final(self).cooldown_left == old(self).cooldown_left,
            final(self).launched == old(self).launched,
            final(self).jump_strength == old(self).jump_strength,
            final(self).pickup_range == old(self).pickup_range,
    {
        if jump_key && grounded && !on_held_cargo {
            self.velocity = V3 { x: self.velocity.x, y: self.jump_strength, z: self.velocity.z };
        }
    }
}

/// The pitch clamp law: starting strictly inside the open interval, the
/// pitch stays strictly inside it, and a look-delta that would push it out
/// leaves it unchanged for that tick — rejected whole, not cut to the
/// boundary.
pub proof fn lemma_pitch_clamp(p: int, dy: int)
    requires
        pitch_ok(p),
    ensures
        ({
            let next = if pitch_ok(add_val(p, look_delta_spec(dy))) {
                add_val(p, look_delta_spec(dy))
            } else {
                p
            };
            &&& pitch_ok(next)
            &&& !pitch_ok(add_val(p, look_delta_spec(dy))) ==> next == p
        }),
{
}

/// The normalization law: any held-key combination that moves at all yields
/// a local direction of one squared magnitude — a diagonal is exactly as
/// fast as an axis-aligned move, not the square root of two faster.
pub proof fn lemma_diagonal_speed(f: bool, b: bool, l: bool, r: bool)
    requires
        move_dir_spec(f, b, l, r) != (0int, 0int),
    ensures
        dir_len_sq_spec(move_dir_spec(f, b, l, r)) == SCALE as int,
{
    let d = move_dir_spec(f, b, l, r);
    let df = key_axis(f, b);
    let dr = key_axis(r, l);
    assert(-1 <= df <= 1 && -1 <= dr <= 1);
    assert(mul_val(707_107int, 707_107int) == 500_000int) by (nonlinear_arith);
    assert(mul_val(-707_107int, -707_107int) == 500_000int) by (nonlinear_arith);
    assert(mul_val(1_000_000int, 1_000_000int) == 1_000_000int) by (nonlinear_arith);
    assert(mul_val(-1_000_000int, -1_000_000int) == 1_000_000int) by (nonlinear_arith);
    assert(mul_val(0int, 0int) == 0int) by (nonlinear_arith);
    if df != 0 && dr != 0 {
        assert(d.0 == 707_107int || d.0 == -707_107int);
        assert(d.1 == 707_107int || d.1 == -707_107int);
        assert(dir_len_sq_spec(d) == add_val(500_000int, 500_000int));
    } else if df != 0 {
        assert(d.0 == 1_000_000int || d.0 == -1_000_000int);
        assert(d.1 == 0int);
    } else {
        assert(d.0 == 0int);
        assert(d.1 == 1_000_000int || d.1 == -1_000_000int);
    }
}

} // verus!
