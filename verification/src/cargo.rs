//! The cargo interaction state machine.
//!
//! The cargo is either `Free` — an independent dynamic body the physics
//! engine owns — or `Held` — kinematically pinned to the player with its
//! collision response switched off. Pickup, drop and throw are the edges;
//! attraction is a continuous two-body pull that never changes the state.
//! Every edge re-arms the single-shot cooldown, which gates only pickup;
//! a thrown-in-flight cargo is simply `Free` with a velocity. The machine
//! also owns the cargo's intended rigid-body mode and collision groups, so
//! the filtering the physics engine consumes always matches the state.

use crate::fx::{
    add_val, fx_add, fx_mul, fx_sub, len_sq_val, mul_val, sub_val, V3,
};
use crate::player::{Player, COOLDOWN_TIME, HEAD_OFFSET};
use vstd::arithmetic::div_mod::lemma_div_is_ordered;
use vstd::prelude::*;

verus! {

/// Collision-group bit of the player body.
pub const GROUP_PLAYER: u32 = 1;

/// Collision-group bit of the cargo body.
pub const GROUP_CARGO: u32 = 2;

/// Collision filter that admits every group.
pub const GROUPS_ALL: u32 = 0xFFFF_FFFF;

/// Collision filter that admits nothing.
pub const GROUPS_NONE: u32 = 0;

/// Factor applied to the player velocity on a drop: a soft toss.
pub const DROP_FACTOR: i64 = 100_000_000;

/// Factor applied to the player velocity on a throw.
pub const THROW_FACTOR: i64 = 80_000_000;

/// Throw strength along the camera forward without the Strength powerup.
pub const THROW_BASE: i64 = 10_000_000;

/// Throw strength along the camera forward with the Strength powerup.
pub const THROW_BOOSTED: i64 = 12_000_000;

/// Attraction pull constant without the Weight powerup.
pub const ATTRACT_BASE: i64 = 3_000;

/// Attraction pull constant with the Weight powerup.
pub const ATTRACT_BOOSTED: i64 = 4_000;

/// Gain applied to the tick duration inside the attraction pull.
pub const ATTRACT_GAIN: i64 = 100_000_000;

/// Fraction of the pull applied back onto the cargo body.
pub const ATTRACT_CARGO_SCALE: i64 = 200_000;

/// Forward component of the carry offset while held.
pub const HOLD_FORWARD: i64 = 1_200_000;

/// Upward component of the carry offset while held.
pub const HOLD_UP: i64 = 850_000;

/// Height of the cargo's spawn point above the level origin.
pub const CARGO_SPAWN_Y: i64 = 12_500_000;

#[derive(Clone, Copy, PartialEq, Eq, Structural, Debug)]
pub enum CargoState {
    Free,
    Held,
}

#[derive(Clone, Copy, PartialEq, Eq, Structural, Debug)]
pub enum BodyMode {
    Dynamic,
    Fixed,
}

#[derive(Clone, Copy, PartialEq, Eq, Structural, Debug)]
pub struct CollisionGroups {
    pub memberships: u32,
    pub filters: u32,
}

pub struct Cargo {
    pub state: CargoState,
    /// Rigid-body mode the physics engine is told to use.
    pub body: BodyMode,
    /// Collision groups the physics engine is told to filter with.
    pub groups: CollisionGroups,
    pub pos: V3,
    pub vel: V3,
    /// Rotation about the vertical axis, micro-radians.
    pub facing: i64,
}

#[derive(Clone, Copy, PartialEq, Eq, Structural, Debug)]
pub enum InteractionEvent {
    Idle,
    PickedUp,
    Dropped,
    Thrown,
    Attracted,
}

/// The body mode and collision filtering always agree with the interaction
/// state: a held cargo is fixed and collides with nothing; a free cargo is
/// dynamic and collides with everything.
pub open spec fn cargo_wf(c: Cargo) -> bool {
    &&& (c.state is Held <==> c.body is Fixed)
    &&& (c.state is Held ==> c.groups.memberships == GROUPS_NONE && c.groups.filters
        == GROUPS_NONE)
    &&& (c.state is Free ==> c.groups.memberships == GROUP_CARGO && c.groups.filters == GROUPS_ALL)
}

/// The single-shot cooldown after one tick: a monotonic decrement that
/// bottoms out at zero, where it counts as finished.
pub open spec fn tick_cooldown_spec(c: int, dt: int) -> int {
    if sub_val(c, dt) < 0 {
        0
    } else {
        sub_val(c, dt)
    }
}

/// Vector from the player's head point (one unit above the body origin) to
/// the cargo, componentwise.
pub open spec fn reach_dx(c: V3, p: V3) -> int {
    sub_val(c.x as int, p.x as int)
}

pub open spec fn reach_dy(c: V3, p: V3) -> int {
    sub_val(c.y as int, add_val(p.y as int, HEAD_OFFSET as int))
}

pub open spec fn reach_dz(c: V3, p: V3) -> int {
    sub_val(c.z as int, p.z as int)
}

/// Squared distance from the player's head point to the cargo.
pub open spec fn reach_dist_sq(c: V3, p: V3) -> int {
    len_sq_val(reach_dx(c, p), reach_dy(c, p), reach_dz(c, p))
}

/// Pickup demands the squared distance strictly below the squared range;
/// exactly at the threshold does not qualify.
pub open spec fn in_pickup_range(c: V3, p: V3, range: int) -> bool {
    reach_dist_sq(c, p) < mul_val(range, range)
}

/// Throw strength along the camera forward, modulated by Strength.
pub open spec fn throw_strength_spec(strength_boost: bool) -> int {
    if strength_boost {
        THROW_BOOSTED as int
    } else {
        THROW_BASE as int
    }
}

/// Magnitude of the attraction pull for one tick.
pub open spec fn attract_amt_spec(weight_boost: bool, dt: int) -> int {
    mul_val(
        if weight_boost {
            ATTRACT_BOOSTED as int
        } else {
            ATTRACT_BASE as int
        },
        mul_val(dt, ATTRACT_GAIN as int),
    )
}

impl Cargo {
    /// A freshly spawned cargo: free, dynamic, fully colliding, dropped in
    /// from above the level origin.
    pub fn spawn() -> (c: Cargo)
        ensures
            c.state is Free,
            c.body is Dynamic,
            c.groups.memberships == GROUP_CARGO,
            c.groups.filters == GROUPS_ALL,
            c.pos.x == 0 && c.pos.y == CARGO_SPAWN_Y && c.pos.z == 0,
            c.vel.x == 0 && c.vel.y == 0 && c.vel.z == 0,
            c.facing == 0,
            cargo_wf(c),
    {
        Cargo {
            state: CargoState::Free,
            body: BodyMode::Dynamic,
            groups: CollisionGroups { memberships: GROUP_CARGO, filters: GROUPS_ALL },
            pos: V3 { x: 0, y: CARGO_SPAWN_Y, z: 0 },
            vel: V3 { x: 0, y: 0, z: 0 },
            facing: 0,
        }
    }
}

/// One tick of the interaction machine. Ticks the cooldown, then takes at
/// most one edge: pickup when the action key is held, the cooldown has
/// finished and the cargo is strictly within pickup range; drop on the
/// action key's rising edge while held; throw while held when the throw key
/// is held, the launch guard is clear, and the player stands on ground that
/// is not the carried cargo itself. A free cargo out of reach is instead
/// pulled toward the player — and the player toward it — with no cooldown
/// gate. Every taken edge re-arms the cooldown.
pub fn interaction_step(
    player: &mut Player,
    cargo: &mut Cargo,
    player_pos: V3,
    cam_fwd: V3,
    action_held: bool,
    action_pressed: bool,
    throw_held: bool,
    grounded: bool,
    on_held_cargo: bool,
    weight_boost: bool,
    strength_boost: bool,
    dt: i64,
) -> (ev: InteractionEvent)
    requires
        dt >= 0,
        cargo_wf(*old(cargo)),
    ensures
        cargo_wf(*final(cargo)),
        ({
            let cd = tick_cooldown_spec(old(player).cooldown_left as int, dt as int);
            let range_hit = in_pickup_range(
                old(cargo).pos,
                player_pos,
                old(player).pickup_range as int,
            );
            let amt = attract_amt_spec(weight_boost, dt as int);
            let dx = reach_dx(old(cargo).pos, player_pos);
            let dy = reach_dy(old(cargo).pos, player_pos);
            let dz = reach_dz(old(cargo).pos, player_pos);
            &&& (ev is PickedUp <==> old(cargo).state is Free && action_held && cd == 0
                && range_hit)
            &&& (ev is Attracted <==> old(cargo).state is Free && action_held && !range_hit)
            &&& (ev is Dropped <==> old(cargo).state is Held && action_pressed)
            &&& (ev is Thrown <==> old(cargo).state is Held && !action_pressed && throw_held
                && !old(player).launched && grounded && !on_held_cargo)
            &&& final(player).cooldown_left as int == if ev is PickedUp || ev is Dropped
                || ev is Thrown {
                COOLDOWN_TIME as int
            } else {
                cd
            }
            &&& final(cargo).state == (if ev is PickedUp {
                CargoState::Held
            } else if ev is Dropped || ev is Thrown {
                CargoState::Free
            } else {
                old(cargo).state
            })
            &&& (ev is PickedUp ==> ({
                &&& final(cargo).body is Fixed
                &&& final(cargo).groups.memberships == GROUPS_NONE
                &&& final(cargo).groups.filters == GROUPS_NONE
                &&& final(cargo).vel == old(cargo).vel
            }))
            &&& (ev is Dropped ==> ({
                let pv = old(player).velocity;
                &&& final(cargo).body is Dynamic
                &&& final(cargo).groups.memberships == GROUP_CARGO
                &&& final(cargo).groups.filters == GROUPS_ALL
                &&& final(cargo).vel.x as int == mul_val(pv.x as int, DROP_FACTOR as int)
                &&& final(cargo).vel.y as int == mul_val(pv.y as int, DROP_FACTOR as int)
                &&& final(cargo).vel.z as int == mul_val(pv.z as int, DROP_FACTOR as int)
            }))
            &&& (ev is Thrown ==> ({
                let pv = old(player).velocity;
                let ts = throw_strength_spec(strength_boost);
                &&& final(cargo).body is Dynamic
                &&& final(cargo).groups.memberships == GROUP_CARGO
                &&& final(cargo).groups.filters == GROUPS_ALL
                &&& final(cargo).vel.x as int == add_val(
                    mul_val(pv.x as int, THROW_FACTOR as int),
                    mul_val(cam_fwd.x as int, ts),
                )
                &&& final(cargo).vel.y as int == add_val(
                    mul_val(pv.y as int, THROW_FACTOR as int),
                    mul_val(cam_fwd.y as int, ts),
                )
                &&& final(cargo).vel.z as int == add_val(
                    mul_val(pv.z as int, THROW_FACTOR as int),
                    mul_val(cam_fwd.z as int, ts),
                )
            }))
            &&& (ev is Attracted ==> ({
                let cv = old(cargo).vel;
                let pv = old(player).velocity;
                &&& final(cargo).body == old(cargo).body
                &&& final(cargo).groups == old(cargo).groups
                &&& final(cargo).vel.x as int == sub_val(
                    cv.x as int,
                    mul_val(mul_val(dx, amt), ATTRACT_CARGO_SCALE as int),
                )
                &&& final(cargo).vel.y as int == sub_val(
                    cv.y as int,
                    mul_val(mul_val(dy, amt), ATTRACT_CARGO_SCALE as int),
                )
                &&& final(cargo).vel.z as int == sub_val(
                    cv.z as int,
                    mul_val(mul_val(dz, amt), ATTRACT_CARGO_SCALE as int),
                )
                &&& final(player).velocity.x as int == add_val(pv.x as int, mul_val(dx, amt))
                &&& final(player).velocity.y as int == add_val(pv.y as int, mul_val(dy, amt))
                &&& final(player).velocity.z as int == add_val(pv.z as int, mul_val(dz, amt))
            }))
            &&& (ev is Idle ==> ({
                &&& final(cargo).body == old(cargo).body
                &&& final(cargo).groups == old(cargo).groups
                &&& final(cargo).vel == old(cargo).vel
            }))
            &&& (!(ev is Attracted) ==> final(player).velocity == old(player).velocity)
        }),
        final(cargo).pos == old(cargo).pos,
        final(cargo).facing == old(cargo).facing,
        final(player).launched == (old(player).launched || ev is Thrown),
        final(player).speed == old(player).speed,
        final(player).yaw == old(player).yaw,
        final(player).pitch == old(player).pitch,
        final(player).jump_strength == old(player).jump_strength,
        final(player).pickup_range == old(player).pickup_range,
{
    let ticked = fx_sub(player.cooldown_left, dt);
    let cd = if ticked < 0 {
        0
    } else {
        ticked
    };
    player.cooldown_left = cd;
    match cargo.state {
        CargoState::Free => {
            if action_held {
                let dx = fx_sub(cargo.pos.x, player_pos.x);
                let dy = fx_sub(cargo.pos.y, fx_add(player_pos.y, HEAD_OFFSET));
                let dz = fx_sub(cargo.pos.z, player_pos.z);
                let d2 = fx_add(fx_add(fx_mul(dx, dx), fx_mul(dy, dy)), fx_mul(dz, dz));
                let range2 = fx_mul(player.pickup_range, player.pickup_range);
                if cd == 0 && d2 < range2 {
                    cargo.state = CargoState::Held;
                    cargo.body = BodyMode::Fixed;
                    cargo.groups = CollisionGroups {
                        memberships: GROUPS_NONE,
                        filters: GROUPS_NONE,
                    };
                    player.cooldown_left = COOLDOWN_TIME;
                    InteractionEvent::PickedUp
                } else if d2 >= range2 {
                    let amt = fx_mul(
                        if weight_boost {
                            ATTRACT_BOOSTED
                        } else {
                            ATTRACT_BASE
                        },
                        fx_mul(dt, ATTRACT_GAIN),
                    );
                    cargo.vel = V3 {
                        x: fx_sub(cargo.vel.x, fx_mul(fx_mul(dx, amt), ATTRACT_CARGO_SCALE)),
                        y: fx_sub(cargo.vel.y, fx_mul(fx_mul(dy, amt), ATTRACT_CARGO_SCALE)),
                        z: fx_sub(cargo.vel.z, fx_mul(fx_mul(dz, amt), ATTRACT_CARGO_SCALE)),
                    };
                    player.velocity = V3 {
                        x: fx_add(player.velocity.x, fx_mul(dx, amt)),
                        y: fx_add(player.velocity.y, fx_mul(dy, amt)),
                        z: fx_add(player.velocity.z, fx_mul(dz, amt)),
                    };
                    InteractionEvent::Attracted
                } else {
                    InteractionEvent::Idle
                }
            } else {
                InteractionEvent::Idle
            }
        },
        CargoState::Held => {
            if action_pressed {
                cargo.state = CargoState::Free;
                cargo.body = BodyMode::Dynamic;
                cargo.groups = CollisionGroups { memberships: GROUP_CARGO, filters: GROUPS_ALL };
                cargo.vel = V3 {
                    x: fx_mul(player.velocity.x, DROP_FACTOR),
                    y: fx_mul(player.velocity.y, DROP_FACTOR),
                    z: fx_mul(player.velocity.z, DROP_FACTOR),
                };
                player.cooldown_left = COOLDOWN_TIME;
                InteractionEvent::Dropped
            } else if throw_held && !player.launched && grounded && !on_held_cargo {
                cargo.state = CargoState::Free;
                cargo.body = BodyMode::Dynamic;
                cargo.groups = CollisionGroups { memberships: GROUP_CARGO, filters: GROUPS_ALL };
                let strength = if strength_boost {
                    THROW_BOOSTED
                } else {
                    THROW_BASE
                };
                cargo.vel = V3 {
                    x: fx_add(fx_mul(player.velocity.x, THROW_FACTOR), fx_mul(cam_fwd.x, strength)),
                    y: fx_add(fx_mul(player.velocity.y, THROW_FACTOR), fx_mul(cam_fwd.y, strength)),
                    z: fx_add(fx_mul(player.velocity.z, THROW_FACTOR), fx_mul(cam_fwd.z, strength)),
                };
                player.cooldown_left = COOLDOWN_TIME;
                player.launched = true;
                InteractionEvent::Thrown
            } else {
                InteractionEvent::Idle
            }
        },
    }
}

/// While held, the cargo follows a fixed offset in front of and above the
/// player and faces with the player's yaw. The controller keeps the yaw as a
/// plain scalar, so the facing can be taken from it directly; re-deriving it
/// from the body's rotation instead would be discontinuous where the forward
/// vector's z-component flips sign and would need a discrete branch to
/// recover the angle.
pub fn follow_step(cargo: &mut Cargo, player_pos: V3, fwd: V3, yaw: i64)
    ensures
        old(cargo).state is Held ==> {
            &&& final(cargo).pos.x as int == add_val(
                player_pos.x as int,
                mul_val(fwd.x as int, HOLD_FORWARD as int),
            )
            &&& final(cargo).pos.y as int == add_val(
                player_pos.y as int,
                add_val(mul_val(fwd.y as int, HOLD_FORWARD as int), HOLD_UP as int),
            )
            &&& final(cargo).pos.z as int == add_val(
                player_pos.z as int,
                mul_val(fwd.z as int, HOLD_FORWARD as int),
            )
            &&& final(cargo).facing == yaw
        },
        old(cargo).state is Free ==> final(cargo).pos == old(cargo).pos && final(cargo).facing
            == old(cargo).facing,
        final(cargo).state == old(cargo).state,
        final(cargo).body == old(cargo).body,
        final(cargo).groups == old(cargo).groups,
        final(cargo).vel == old(cargo).vel,
{
    match cargo.state {
        CargoState::Held => {
            cargo.pos = V3 {
                x: fx_add(player_pos.x, fx_mul(fwd.x, HOLD_FORWARD)),
                y: fx_add(player_pos.y, fx_add(fx_mul(fwd.y, HOLD_FORWARD), HOLD_UP)),
                z: fx_add(player_pos.z, fx_mul(fwd.z, HOLD_FORWARD)),
            };
            cargo.facing = yaw;
        },
        CargoState::Free => (),
    }
}

/// The Strength law: for one player velocity and one camera orientation,
/// the throw strength granted by the Strength powerup strictly exceeds the
/// base throw strength, and along any camera-forward component pointing
/// positively the imparted velocity is at least as large.
pub proof fn lemma_strength_throw(pv: int, fc: int)
    ensures
        throw_strength_spec(true) > throw_strength_spec(false),
        fc >= 0 ==> add_val(
            mul_val(pv, THROW_FACTOR as int),
            mul_val(fc, throw_strength_spec(true)),
        ) >= add_val(mul_val(pv, THROW_FACTOR as int), mul_val(fc, throw_strength_spec(false))),
{
    if fc >= 0 {
        assert(fc * THROW_BOOSTED as int >= fc * THROW_BASE as int) by (nonlinear_arith)
            requires
                fc >= 0,
        ;
        lemma_div_is_ordered(
            fc * THROW_BASE as int,
            fc * THROW_BOOSTED as int,
            1_000_000int,
        );
        assert(mul_val(fc, throw_strength_spec(true)) >= mul_val(fc, throw_strength_spec(false)));
    }
}

} // verus!
