//! The simulation context and the fixed-order tick pipeline.
//!
//! One `SimState` holds everything the game is: the phase machine, the
//! run-wide progression, the entity registry, and the per-level state
//! (player, cargo, objective markers), present exactly while a level is
//! alive. Each tick runs one phase handler; within `Playing` the order is
//! fixed — look and movement, grounding, jump, cargo interaction, carry
//! follow, progression, help toggle — and a phase change is applied only at
//! the tick boundary, a reset request superseding the progression tracker's
//! own regenerate trigger. Leaving `Playing` destroys every transient
//! entity; `Progress` and the phase itself survive.

use crate::cargo::{
    attract_amt_spec, cargo_wf, follow_step, in_pickup_range, interaction_step, reach_dx,
    reach_dy, reach_dz, throw_strength_spec, tick_cooldown_spec, Cargo, InteractionEvent,
    ATTRACT_CARGO_SCALE, DROP_FACTOR, HOLD_FORWARD, HOLD_UP, THROW_FACTOR,
};
use crate::fx::{add_val, fx_add, fx_mul, fx_sub, len_sq_val, mul_val, sub_val, V3};
use crate::phase::{phase_tick_allowed, Phase};
use crate::player::{
    accel_x_spec, accel_z_spec, damp_factor_spec, look_delta_spec, move_factor_spec,
    neg_gravity_rate, pitch_ok, Player, COOLDOWN_TIME, DISPLACEMENT_GAIN,
};
use crate::progress::{
    progress_wf, record_objectives_spec, record_powerups_spec, Powerup, Progress,
};
use crate::scene::{
    lemma_markers_spec_len, markers_spec, node_decision, scene_ready, synthesize, SceneNode,
    SynthFault, MAX_PREPARE_TICKS, MIN_SCENE_DESCENDANTS,
};
use crate::world::{
    count_kind, lemma_filter_membership, lemma_live_records_no_kind, live_records, world_wf,
    EntityKind, Record, World,
};
use vstd::prelude::*;

verus! {

/// Squared delivery radius around an objective marker.
pub const OBJECTIVE_RADIUS_SQ: i64 = 25_000_000;

/// The delivery probe sits one unit above the cargo's origin.
pub const OBJECTIVE_PROBE_OFFSET: i64 = 1_000_000;

/// Height of the player's spawn point.
pub const PLAYER_SPAWN_Y: i64 = 12_000_000;

/// Forward offset of the player's spawn point.
pub const PLAYER_SPAWN_Z: i64 = 2_000_000;

/// An objective marker alive in the current level.
#[derive(Clone, Copy, PartialEq, Eq, Structural, Debug)]
pub struct Marker {
    pub id: u64,
    pub num: u32,
    pub pos: V3,
}

/// Everything scoped to one level instance.
pub struct Level {
    pub player: Player,
    pub player_id: u64,
    /// The player transform as last reported by the physics step.
    pub player_pos: V3,
    pub cargo: Cargo,
    pub cargo_id: u64,
    pub markers: Vec<Marker>,
    /// Ticks spent polling an incomplete scene graph.
    pub prepare_ticks: u32,
}

/// The whole simulation: phase, run-wide progression, entity registry, and
/// the level while one is alive.
pub struct SimState {
    pub phase: Phase,
    pub progress: Progress,
    pub world: World,
    pub level: Option<Level>,
}

/// The digital and pointer input sampled for one tick.
pub struct TickInput {
    pub dt: i64,
    pub look_dx: i64,
    pub look_dy: i64,
    pub forward_key: bool,
    pub back_key: bool,
    pub left_key: bool,
    pub right_key: bool,
    pub jump_key: bool,
    /// Pickup/interact key, level-held.
    pub action_held: bool,
    /// Pickup/interact key, rising edge this tick.
    pub action_pressed: bool,
    pub throw_key: bool,
    pub help_pressed: bool,
    pub reset_pressed: bool,
}

/// What the physics engine and the host's trigonometry report for one tick.
pub struct Feedback {
    pub grounded: bool,
    /// Whether the body stood on the carried cargo itself.
    pub on_held_cargo: bool,
    pub player_pos: V3,
    pub cargo_pos: V3,
    pub cargo_vel: V3,
    /// Horizontal forward basis derived from the yaw.
    pub fwd_x: i64,
    pub fwd_z: i64,
    /// Camera forward derived from yaw and pitch.
    pub cam_fwd: V3,
}

/// What one `Playing` tick hands back to the host.
#[derive(Clone, Copy, PartialEq, Eq, Structural, Debug)]
pub struct TickOutput {
    /// Displacement request for the character controller.
    pub displacement: V3,
    /// Which cargo interaction edge, if any, was taken.
    pub event: InteractionEvent,
    /// Whether an objective was newly completed this tick.
    pub completed: bool,
    /// Whether the tick ended by leaving `Playing` for `Preparing`.
    pub reset: bool,
}

/// What one `Preparing` tick did.
#[derive(Clone, Copy, PartialEq, Eq, Structural, Debug)]
pub enum PrepareStep {
    /// The level entities were just spawned; instantiation is in flight.
    SpawnedLevel,
    /// The scene graph is still incomplete; waited another tick.
    Waiting,
    /// Colliders were synthesized and play begins.
    Synthesized,
}

/// Why preparation failed for good.
#[derive(Clone, Copy, PartialEq, Eq, Structural, Debug)]
pub enum PrepareFault {
    /// The scene graph never reached its expected size: a diagnosable
    /// stall instead of a silent forever-wait.
    Stalled,
    /// A node of the snapshot cannot be set up.
    Node(SynthFault),
}

/// How many entities entering a level creates besides the markers.
pub const LEVEL_SPAWN_COUNT: usize = 8;

/// Whether a marker lies within delivery range of the cargo: squared
/// distance from one unit above the cargo to the marker, strictly below the
/// squared radius.
pub open spec fn objective_hit(m: Marker, cargo_pos: V3) -> bool {
    len_sq_val(
        sub_val(cargo_pos.x as int, m.pos.x as int),
        sub_val(
            add_val(cargo_pos.y as int, OBJECTIVE_PROBE_OFFSET as int),
            m.pos.y as int,
        ),
        sub_val(cargo_pos.z as int, m.pos.z as int),
    ) < OBJECTIVE_RADIUS_SQ as int
}

/// The completed-objective list after sweeping the markers in order.
pub open spec fn objectives_after(objs: Seq<u32>, markers: Seq<Marker>, cargo_pos: V3) -> Seq<u32>
    decreases markers.len(),
{
    if markers.len() == 0 {
        objs
    } else {
        let prev = objectives_after(objs, markers.drop_last(), cargo_pos);
        if objective_hit(markers.last(), cargo_pos) {
            record_objectives_spec(prev, markers.last().num)
        } else {
            prev
        }
    }
}

/// The granted-powerup list after sweeping the markers in order.
pub open spec fn powerups_after(
    objs: Seq<u32>,
    pows: Seq<Powerup>,
    markers: Seq<Marker>,
    cargo_pos: V3,
) -> Seq<Powerup>
    decreases markers.len(),
{
    if markers.len() == 0 {
        pows
    } else {
        let prev_objs = objectives_after(objs, markers.drop_last(), cargo_pos);
        let prev_pows = powerups_after(objs, pows, markers.drop_last(), cargo_pos);
        if objective_hit(markers.last(), cargo_pos) {
            record_powerups_spec(prev_objs, prev_pows, markers.last().num)
        } else {
            prev_pows
        }
    }
}

/// The standing invariant of the whole simulation: the registry is
/// well-formed; the progression carries no duplicate objective; a loading
/// game has no level and a playing game has one; the cargo's body mode and
/// collision filtering agree with its interaction state; the registry holds
/// exactly one cargo record and one player record while a level is alive
/// and none otherwise; every cargo and player record is transient; and
/// markers exist only once play has begun.
pub open spec fn sim_wf(s: SimState) -> bool {
    &&& world_wf(s.world)
    &&& progress_wf(s.progress)
    &&& (s.phase is Loading ==> s.level is None)
    &&& (s.phase is Playing ==> s.level is Some)
    &&& (s.level is Some ==> cargo_wf(s.level->Some_0.cargo))
    &&& count_kind(s.world.records@, EntityKind::Cargo) == (if s.level is Some {
        1int
    } else {
        0int
    })
    &&& count_kind(s.world.records@, EntityKind::PlayerBody) == (if s.level is Some {
        1int
    } else {
        0int
    })
    &&& (forall|i: int|
        0 <= i < s.world.records@.len() ==> (((#[trigger] s.world.records@[i]).kind
            is Cargo || s.world.records@[i].kind is PlayerBody)
            ==> s.world.records@[i].transient))
    &&& (s.phase is Preparing && s.level is Some ==> s.level->Some_0.markers@.len() == 0)
}

/// How many entities currently carry the held tag: the one cargo of the
/// level when its state is `Held`, nothing otherwise.
pub open spec fn held_count(s: SimState) -> int {
    if s.level is Some && s.level->Some_0.cargo.state is Held {
        1
    } else {
        0
    }
}

/// What entering a level sets up: the reference player tuning with the
/// cooldown armed and nothing accumulated, a free dynamic cargo at its
/// spawn point, no markers yet, the poll counter cleared, and the player at
/// the spawn transform.
pub open spec fn fresh_level(l: Level) -> bool {
    &&& l.player.speed == crate::player::BASE_SPEED
    &&& l.player.jump_strength == crate::player::JUMP_STRENGTH
    &&& l.player.pickup_range == crate::player::PICKUP_RANGE
    &&& l.player.cooldown_left == crate::player::COOLDOWN_TIME
    &&& l.player.velocity.x == 0 && l.player.velocity.y == 0 && l.player.velocity.z == 0
    &&& !l.player.launched
    &&& l.player.yaw == 0 && l.player.pitch == 0
    &&& l.cargo.state is Free
    &&& l.cargo.body is Dynamic
    &&& l.cargo.pos.x == 0 && l.cargo.pos.y == crate::cargo::CARGO_SPAWN_Y && l.cargo.pos.z == 0
    &&& l.cargo.vel.x == 0 && l.cargo.vel.y == 0 && l.cargo.vel.z == 0
    &&& l.cargo.facing == 0
    &&& l.markers@.len() == 0
    &&& l.prepare_ticks == 0
    &&& l.player_pos.x == 0 && l.player_pos.y == PLAYER_SPAWN_Y && l.player_pos.z
        == PLAYER_SPAWN_Z
}

/// The mutual-exclusivity law: in any well-formed simulation state, at most
/// one entity is tagged held, and the registry holds at most one cargo
/// record for it. The held tag is a state of the level's one cargo, and
/// every tick handler keeps `sim_wf`, so this holds along every tick
/// sequence.
pub proof fn lemma_single_held(s: SimState)
    requires
        sim_wf(s),
    ensures
        held_count(s) <= 1,
        count_kind(s.world.records@, EntityKind::Cargo) <= 1,
{
}

/// Sweeping markers only ever appends to the completed-objective list.
pub proof fn lemma_objectives_after_extends(objs: Seq<u32>, markers: Seq<Marker>, cargo_pos: V3)
    ensures
        objs.is_prefix_of(objectives_after(objs, markers, cargo_pos)),
        objectives_after(objs, markers, cargo_pos).len() >= objs.len(),
    decreases markers.len(),
{
    if markers.len() > 0 {
        lemma_objectives_after_extends(objs, markers.drop_last(), cargo_pos);
        let prev = objectives_after(objs, markers.drop_last(), cargo_pos);
        let out = objectives_after(objs, markers, cargo_pos);
        if objective_hit(markers.last(), cargo_pos) && !prev.contains(markers.last().num) {
            assert(out == prev.push(markers.last().num));
            assert(objs =~= out.subrange(0, objs.len() as int));
        }
    }
}

/// Sweeping markers only ever appends to the granted-powerup list.
pub proof fn lemma_powerups_after_extends(
    objs: Seq<u32>,
    pows: Seq<Powerup>,
    markers: Seq<Marker>,
    cargo_pos: V3,
)
    ensures
        pows.is_prefix_of(powerups_after(objs, pows, markers, cargo_pos)),
    decreases markers.len(),
{
    if markers.len() > 0 {
        lemma_powerups_after_extends(objs, pows, markers.drop_last(), cargo_pos);
        let prev_objs = objectives_after(objs, markers.drop_last(), cargo_pos);
        let prev = powerups_after(objs, pows, markers.drop_last(), cargo_pos);
        let out = powerups_after(objs, pows, markers, cargo_pos);
        if objective_hit(markers.last(), cargo_pos) {
            if out != prev {
                assert(pows =~= out.subrange(0, pows.len() as int));
            }
        }
    }
}

/// The progression tracker's sweep for one tick: while the cargo is free,
/// every not-yet-completed marker within delivery range is recorded, in
/// marker order, and its catalog powerup granted. Returns whether any new
/// completion happened.
#[verifier::loop_isolation(false)]
pub fn progression_step(
    progress: &mut Progress,
    markers: &Vec<Marker>,
    cargo_pos: V3,
    cargo_free: bool,
) -> (completed: bool)
    requires
        progress_wf(*old(progress)),
    ensures
        progress_wf(*final(progress)),
        final(progress).help == old(progress).help,
        cargo_free ==> final(progress).objectives@ == objectives_after(
            old(progress).objectives@,
            markers@,
            cargo_pos,
        ),
        cargo_free ==> final(progress).powerups@ == powerups_after(
            old(progress).objectives@,
            old(progress).powerups@,
            markers@,
            cargo_pos,
        ),
        !cargo_free ==> final(progress).objectives@ == old(progress).objectives@,
        !cargo_free ==> final(progress).powerups@ == old(progress).powerups@,
        old(progress).objectives@.is_prefix_of(final(progress).objectives@),
        old(progress).powerups@.is_prefix_of(final(progress).powerups@),
        completed == (final(progress).objectives@.len() > old(progress).objectives@.len()),
        !completed ==> final(progress).objectives@ == old(progress).objectives@,
        !completed ==> final(progress).powerups@ == old(progress).powerups@,
{
    if !cargo_free {
        proof {
            assert(old(progress).objectives@.is_prefix_of(progress.objectives@));
            assert(old(progress).powerups@.is_prefix_of(progress.powerups@));
        }
        return false;
    }
    let n = markers.len();
    let mut completed = false;
    let mut i: usize = 0;
    proof {
        assert(markers@.take(0) =~= Seq::<Marker>::empty());
    }
    while i < n
        invariant
            0 <= i <= n,
            progress.objectives@ == objectives_after(
                old(progress).objectives@,
                markers@.take(i as int),
                cargo_pos,
            ),
            progress.powerups@ == powerups_after(
                old(progress).objectives@,
                old(progress).powerups@,
                markers@.take(i as int),
                cargo_pos,
            ),
            progress.help == old(progress).help,
            progress_wf(*progress),
            completed == (progress.objectives@.len() > old(progress).objectives@.len()),
            !completed ==> progress.objectives@ == old(progress).objectives@
                && progress.powerups@ == old(progress).powerups@,
        decreases n - i,
    {
        proof {
            assert(markers@.take(i + 1).drop_last() =~= markers@.take(i as int));
            assert(markers@.take(i + 1).last() == markers@[i as int]);
            lemma_objectives_after_extends(
                old(progress).objectives@,
                markers@.take(i as int),
                cargo_pos,
            );
            lemma_objectives_after_extends(
                old(progress).objectives@,
                markers@.take(i + 1),
                cargo_pos,
            );
        }
        let m = markers[i];
        let dx = fx_sub(cargo_pos.x, m.pos.x);
        let dy = fx_sub(fx_add(cargo_pos.y, OBJECTIVE_PROBE_OFFSET), m.pos.y);
        let dz = fx_sub(cargo_pos.z, m.pos.z);
        let d2 = fx_add(fx_add(fx_mul(dx, dx), fx_mul(dy, dy)), fx_mul(dz, dz));
        if d2 < OBJECTIVE_RADIUS_SQ {
            let was_done = progress.objective_done(m.num);
            progress.record_objective(m.num);
            if !was_done {
                completed = true;
            }
        }
        i += 1;
    }
    proof {
        assert(markers@.take(n as int) == markers@);
        lemma_objectives_after_extends(old(progress).objectives@, markers@, cargo_pos);
        lemma_powerups_after_extends(
            old(progress).objectives@,
            old(progress).powerups@,
            markers@,
            cargo_pos,
        );
    }
    completed
}

impl SimState {
    /// A fresh process: loading assets, nothing delivered, no entities.
    pub fn new() -> (s: SimState)
        ensures
            s.phase is Loading,
            s.level is None,
            s.progress.objectives@ == Seq::<u32>::empty(),
            s.progress.powerups@ == Seq::<Powerup>::empty(),
            s.progress.help,
            s.world.records@ == Seq::<crate::world::Record>::empty(),
            sim_wf(s),
    {
        let s = SimState {
            phase: Phase::Loading,
            progress: Progress::new(),
            world: World::new(),
            level: None,
        };
        proof {
            crate::world::lemma_filter_none(
                s.world.records@,
                |r: crate::world::Record| r.kind == EntityKind::Cargo,
            );
            crate::world::lemma_filter_none(
                s.world.records@,
                |r: crate::world::Record| r.kind == EntityKind::PlayerBody,
            );
        }
        s
    }

    /// While assets load, nothing runs; once the collection is resident the
    /// phase moves to `Preparing`. Any other phase is untouched.
    pub fn tick_loading(&mut self, assets_ready: bool)
        requires
            sim_wf(*old(self)),
        ensures
            sim_wf(*final(self)),
            phase_tick_allowed(old(self).phase, final(self).phase),
            final(self).phase == (if old(self).phase is Loading && assets_ready {
                Phase::Preparing
            } else {
                old(self).phase
            }),
            final(self).progress == old(self).progress,
            final(self).world == old(self).world,
            final(self).level == old(self).level,
    {
        if self.phase == Phase::Loading && assets_ready {
            self.phase = Phase::Preparing;
        }
    }

    /// Entering a level: spawn the camera, light, scene root, player body,
    /// cargo, and UI entities, all tagged transient, and set up fresh
    /// player and cargo state. Run-wide progression is untouched.
    fn enter_level(&mut self)
        requires
            sim_wf(*old(self)),
            old(self).phase is Preparing,
            old(self).level is None,
            old(self).world.next_id as int + LEVEL_SPAWN_COUNT as int <= u64::MAX as int,
        ensures
            sim_wf(*final(self)),
            final(self).phase == old(self).phase,
            final(self).progress == old(self).progress,
            final(self).level is Some,
            fresh_level(final(self).level->Some_0),
            final(self).world.next_id == old(self).world.next_id + LEVEL_SPAWN_COUNT,
            final(self).world.records@.len() == old(self).world.records@.len()
                + LEVEL_SPAWN_COUNT,
            forall|j: int|
                0 <= j < old(self).world.records@.len() ==> final(self).world.records@[j]
                    == old(self).world.records@[j],
            forall|j: int|
                old(self).world.records@.len() <= j < final(self).world.records@.len() ==> (
                #[trigger] final(self).world.records@[j]).transient,
    {
        let _light = self.world.spawn(EntityKind::Light, true);
        let _root = self.world.spawn(EntityKind::SceneRoot, true);
        let cargo_id = self.world.spawn(EntityKind::Cargo, true);
        let player_id = self.world.spawn(EntityKind::PlayerBody, true);
        let _camera = self.world.spawn(EntityKind::Camera, true);
        let _status = self.world.spawn(EntityKind::UiPanel, true);
        let _hint = self.world.spawn(EntityKind::UiPanel, true);
        let _help = self.world.spawn(EntityKind::HelpPanel, true);
        self.level = Some(
            Level {
                player: Player::spawn(),
                player_id,
                player_pos: V3 { x: 0, y: PLAYER_SPAWN_Y, z: PLAYER_SPAWN_Z },
                cargo: Cargo::spawn(),
                cargo_id,
                markers: Vec::new(),
                prepare_ticks: 0,
            },
        );
        proof {
            assert(self.level->Some_0.markers@ =~= Seq::<Marker>::empty());
        }
    }

    /// One `Preparing` tick. With no level yet, the level entities are
    /// spawned and the scene instantiation begins. After that the scene
    /// graph is polled: while it holds too few descendants the tick is a
    /// no-op, until the wait exceeds its bound and is reported as a stall.
    /// Once ready, the snapshot is synthesized: on success the objective
    /// markers are spawned and the phase moves to `Playing`; a node that
    /// cannot be set up fails preparation, naming the node.
    #[verifier::rlimit(100)]
    #[verifier::spinoff_prover]
    pub fn tick_prepare(&mut self, descendant_count: usize, nodes: &Vec<SceneNode>) -> (r: Result<
        PrepareStep,
        PrepareFault,
    >)
        requires
            sim_wf(*old(self)),
            old(self).phase is Preparing,
            old(self).world.next_id as int + LEVEL_SPAWN_COUNT as int + nodes@.len()
                <= u64::MAX as int,
        ensures
            sim_wf(*final(self)),
            phase_tick_allowed(old(self).phase, final(self).phase),
            final(self).progress == old(self).progress,
            (r == Ok::<PrepareStep, PrepareFault>(PrepareStep::SpawnedLevel) <==> old(self).level is None),
            (r == Ok::<PrepareStep, PrepareFault>(PrepareStep::Waiting) <==> old(self).level
                is Some && descendant_count < MIN_SCENE_DESCENDANTS
                && old(self).level->Some_0.prepare_ticks < MAX_PREPARE_TICKS),
            (r == Err::<PrepareStep, PrepareFault>(PrepareFault::Stalled) <==> old(self).level
                is Some && descendant_count < MIN_SCENE_DESCENDANTS
                && old(self).level->Some_0.prepare_ticks >= MAX_PREPARE_TICKS),
            (r == Ok::<PrepareStep, PrepareFault>(PrepareStep::Synthesized) <==> old(self).level
                is Some && descendant_count >= MIN_SCENE_DESCENDANTS && (forall|i: int|
                0 <= i < nodes@.len() ==> (#[trigger] node_decision(nodes@[i])) is Ok)),
            final(self).phase == (if r == Ok::<PrepareStep, PrepareFault>(
                PrepareStep::Synthesized,
            ) {
                Phase::Playing
            } else {
                Phase::Preparing
            }),
            r == Ok::<PrepareStep, PrepareFault>(PrepareStep::SpawnedLevel) ==> ({
                &&& final(self).level is Some
                &&& fresh_level(final(self).level->Some_0)
                &&& final(self).world.next_id == old(self).world.next_id + LEVEL_SPAWN_COUNT
                &&& final(self).world.records@.len() == old(self).world.records@.len()
                    + LEVEL_SPAWN_COUNT
                &&& (forall|j: int|
                    0 <= j < old(self).world.records@.len() ==> final(self).world.records@[j]
                        == old(self).world.records@[j])
                &&& (forall|j: int|
                    old(self).world.records@.len() <= j < final(self).world.records@.len() ==> (
                    #[trigger] final(self).world.records@[j]).transient)
            }),
            r == Ok::<PrepareStep, PrepareFault>(PrepareStep::Synthesized) ==> ({
                let l = final(self).level->Some_0;
                let ms = markers_spec(nodes@);
                &&& l.markers@.len() == ms.len()
                &&& (forall|i: int|
                    0 <= i < ms.len() ==> (#[trigger] l.markers@[i]).num == ms[i].num
                        && l.markers@[i].pos == ms[i].pos)
                &&& final(self).world.next_id as int == old(self).world.next_id as int
                    + ms.len()
                &&& final(self).world.records@.len() == old(self).world.records@.len()
                    + ms.len()
                &&& (forall|j: int|
                    0 <= j < old(self).world.records@.len() ==> final(self).world.records@[j]
                        == old(self).world.records@[j])
                &&& (forall|j: int|
                    old(self).world.records@.len() <= j < final(self).world.records@.len() ==> (
                    #[trigger] final(self).world.records@[j]).transient)
            }),
            r matches Err(PrepareFault::Node(f)) ==> ({
                &&& 0 <= f.index < nodes@.len()
                &&& node_decision(nodes@[f.index as int]) is Err
                &&& node_decision(nodes@[f.index as int])->Err_0 == f.kind
                &&& (forall|j: int|
                    0 <= j < f.index ==> (#[trigger] node_decision(nodes@[j])) is Ok)
            }),
            old(self).level is Some ==> ({
                let l0 = old(self).level->Some_0;
                let l1 = final(self).level->Some_0;
                &&& final(self).level is Some
                &&& l1.player == l0.player
                &&& l1.cargo == l0.cargo
                &&& l1.player_pos == l0.player_pos
                &&& l1.player_id == l0.player_id
                &&& l1.cargo_id == l0.cargo_id
                &&& l1.prepare_ticks == (if r == Ok::<PrepareStep, PrepareFault>(
                    PrepareStep::Waiting,
                ) {
                    (l0.prepare_ticks + 1) as u32
                } else {
                    l0.prepare_ticks
                })
                &&& (r != Ok::<PrepareStep, PrepareFault>(PrepareStep::Synthesized)
                    ==> l1.markers@ == l0.markers@)
            }),
            old(self).level is Some && r != Ok::<PrepareStep, PrepareFault>(
                PrepareStep::Synthesized,
            ) ==> final(self).world == old(self).world,
    {
        match self.level.take() {
            None => {
                self.enter_level();
                Ok(PrepareStep::SpawnedLevel)
            },
            Some(mut lvl) => {
                if !scene_ready(descendant_count) {
                    if lvl.prepare_ticks >= MAX_PREPARE_TICKS {
                        self.level = Some(lvl);
                        return Err(PrepareFault::Stalled);
                    }
                    lvl.prepare_ticks = lvl.prepare_ticks + 1;
                    self.level = Some(lvl);
                    return Ok(PrepareStep::Waiting);
                }
                match synthesize(nodes) {
                    Err(f) => {
                        self.level = Some(lvl);
                        Err(PrepareFault::Node(f))
                    },
                    Ok(plan) => {
                        proof {
                            lemma_markers_spec_len(nodes@);
                        }
                        let n = plan.markers.len();
                        let ghost pre_records = self.world.records@;
                        let mut i: usize = 0;
                        #[verifier::loop_isolation(false)]
                        while i < n
                            invariant
                                0 <= i <= n,
                                world_wf(self.world),
                                self.progress == old(self).progress,
                                self.phase == old(self).phase,
                                self.level is None,
                                lvl.player == old(self).level->Some_0.player,
                                lvl.cargo == old(self).level->Some_0.cargo,
                                lvl.player_pos == old(self).level->Some_0.player_pos,
                                lvl.player_id == old(self).level->Some_0.player_id,
                                lvl.cargo_id == old(self).level->Some_0.cargo_id,
                                lvl.prepare_ticks == old(self).level->Some_0.prepare_ticks,
                                self.world.next_id as int == old(self).world.next_id as int
                                    + i as int,
                                lvl.markers@.len() == i,
                                forall|j: int|
                                    0 <= j < i ==> (#[trigger] lvl.markers@[j]).num
                                        == plan.markers@[j].num && lvl.markers@[j].pos
                                        == plan.markers@[j].pos,
                                count_kind(self.world.records@, EntityKind::Cargo) == count_kind(
                                    pre_records,
                                    EntityKind::Cargo,
                                ),
                                count_kind(self.world.records@, EntityKind::PlayerBody)
                                    == count_kind(pre_records, EntityKind::PlayerBody),
                                self.world.records@.len() == pre_records.len() + i,
                                forall|j: int|
                                    0 <= j < pre_records.len() ==> self.world.records@[j]
                                        == pre_records[j],
                                forall|j: int|
                                    pre_records.len() <= j < self.world.records@.len() ==> (
                                    #[trigger] self.world.records@[j]).transient,
                            decreases n - i,
                        {
                            let m = plan.markers[i];
                            let id = self.world.spawn(EntityKind::ObjectiveMarker, true);
                            lvl.markers.push(Marker { id, num: m.num, pos: m.pos });
                            i += 1;
                        }
                        proof {
                            assert forall|j: int|
                                0 <= j < self.world.records@.len() implies ((((
                            #[trigger] self.world.records@[j]).kind is Cargo
                                || self.world.records@[j].kind is PlayerBody)
                                ==> self.world.records@[j].transient)) by {
                                if j < pre_records.len() {
                                    assert(self.world.records@[j] == pre_records[j]);
                                } else {
                                    assert(self.world.records@[j].transient);
                                }
                            }
                        }
                        self.level = Some(lvl);
                        self.phase = Phase::Playing;
                        Ok(PrepareStep::Synthesized)
                    },
                }
            },
        }
    }

    /// One `Playing` tick, in the fixed pipeline order: physics feedback is
    /// folded in, look and movement integrate into the velocity, grounding
    /// damps it, jump may fire, the cargo interaction machine takes at most
    /// one edge, a held cargo follows the player, the progression tracker
    /// sweeps the markers while the cargo is free, and the help toggle is
    /// applied. At the tick boundary — and only there — a reset request or
    /// a fresh completion leaves `Playing`: every transient entity is
    /// destroyed and the phase returns to `Preparing`, while `Progress`
    /// survives untouched by the teardown.
    #[verifier::rlimit(100)]
    #[verifier::spinoff_prover]
    pub fn tick_play(&mut self, input: &TickInput, fb: &Feedback) -> (out: TickOutput)
        requires
            sim_wf(*old(self)),
            old(self).phase is Playing,
            input.dt >= 0,
        ensures
            sim_wf(*final(self)),
            phase_tick_allowed(old(self).phase, final(self).phase),
            out.reset == (input.reset_pressed || out.completed),
            out.reset <==> final(self).phase is Preparing,
            !out.reset ==> final(self).phase is Playing,
            !out.reset ==> final(self).level is Some,
            !out.reset ==> final(self).world.records@ == old(self).world.records@,
            out.reset ==> final(self).level is None && final(self).world.records@
                == live_records(old(self).world.records@),
            out.reset ==> forall|i: int|
                0 <= i < final(self).world.records@.len() ==> !(#[trigger] final(self).world.records@[i]).transient,
            old(self).progress.objectives@.is_prefix_of(final(self).progress.objectives@),
            old(self).progress.powerups@.is_prefix_of(final(self).progress.powerups@),
            final(self).progress.help == (if input.help_pressed {
                !old(self).progress.help
            } else {
                old(self).progress.help
            }),
            out.completed == (final(self).progress.objectives@.len() > old(self).progress.objectives@.len()),
            ({
                let l0 = old(self).level->Some_0;
                let cd = tick_cooldown_spec(l0.player.cooldown_left as int, input.dt as int);
                let range_hit = in_pickup_range(
                    fb.cargo_pos,
                    fb.player_pos,
                    l0.player.pickup_range as int,
                );
                &&& (out.event is PickedUp <==> l0.cargo.state is Free && input.action_held && cd
                    == 0 && range_hit)
                &&& (out.event is Attracted <==> l0.cargo.state is Free && input.action_held
                    && !range_hit)
                &&& (out.event is Dropped <==> l0.cargo.state is Held && input.action_pressed)
                &&& (out.event is Thrown <==> l0.cargo.state is Held && !input.action_pressed
                    && input.throw_key && fb.grounded && !fb.on_held_cargo && !(l0.player.launched
                    && !fb.grounded))
            }),
            ({
                let l0 = old(self).level->Some_0;
                let boost = old(self).progress.powerups@.contains(Powerup::Speed);
                let carrying = l0.cargo.state is Held;
                let factor = move_factor_spec(l0.player.speed as int, boost, carrying);
                let ax = accel_x_spec(
                    input.forward_key,
                    input.back_key,
                    input.left_key,
                    input.right_key,
                    fb.fwd_x as int,
                    fb.fwd_z as int,
                    factor,
                );
                let az = accel_z_spec(
                    input.forward_key,
                    input.back_key,
                    input.left_key,
                    input.right_key,
                    fb.fwd_x as int,
                    fb.fwd_z as int,
                    factor,
                );
                let dt = input.dt as int;
                let gain = DISPLACEMENT_GAIN as int;
                &&& out.displacement.x as int == mul_val(
                    mul_val(add_val(l0.player.velocity.x as int, mul_val(ax, dt)), dt),
                    gain,
                )
                &&& out.displacement.y as int == mul_val(
                    mul_val(
                        add_val(l0.player.velocity.y as int, mul_val(neg_gravity_rate(), dt)),
                        dt,
                    ),
                    gain,
                )
                &&& out.displacement.z as int == mul_val(
                    mul_val(add_val(l0.player.velocity.z as int, mul_val(az, dt)), dt),
                    gain,
                )
            }),
            !out.reset ==> final(self).level->Some_0.markers@ == old(self).level->Some_0.markers@,
            final(self).world.next_id == old(self).world.next_id,
            !out.completed ==> final(self).progress.powerups@ == old(self).progress.powerups@,
            ({
                let l0 = old(self).level->Some_0;
                let pos_now = if l0.cargo.state is Free {
                    fb.cargo_pos
                } else {
                    l0.cargo.pos
                };
                let free_after = (l0.cargo.state is Free && !(out.event is PickedUp))
                    || out.event is Dropped || out.event is Thrown;
                &&& final(self).progress.objectives@ == (if free_after {
                    objectives_after(old(self).progress.objectives@, l0.markers@, pos_now)
                } else {
                    old(self).progress.objectives@
                })
                &&& final(self).progress.powerups@ == (if free_after {
                    powerups_after(
                        old(self).progress.objectives@,
                        old(self).progress.powerups@,
                        l0.markers@,
                        pos_now,
                    )
                } else {
                    old(self).progress.powerups@
                })
            }),
            !out.reset ==> ({
                let l0 = old(self).level->Some_0;
                let l1 = final(self).level->Some_0;
                let p0 = l0.player;
                let dt = input.dt as int;
                let yaw1 = add_val(p0.yaw as int, look_delta_spec(input.look_dx as int));
                let pitch_cand = add_val(p0.pitch as int, look_delta_spec(input.look_dy as int));
                let pitch1 = if pitch_ok(pitch_cand) {
                    pitch_cand
                } else {
                    p0.pitch as int
                };
                let boost = old(self).progress.powerups@.contains(Powerup::Speed);
                let carrying = l0.cargo.state is Held;
                let factor = move_factor_spec(p0.speed as int, boost, carrying);
                let ax = accel_x_spec(
                    input.forward_key,
                    input.back_key,
                    input.left_key,
                    input.right_key,
                    fb.fwd_x as int,
                    fb.fwd_z as int,
                    factor,
                );
                let az = accel_z_spec(
                    input.forward_key,
                    input.back_key,
                    input.left_key,
                    input.right_key,
                    fb.fwd_x as int,
                    fb.fwd_z as int,
                    factor,
                );
                let vmx = add_val(p0.velocity.x as int, mul_val(ax, dt));
                let vmy = add_val(p0.velocity.y as int, mul_val(neg_gravity_rate(), dt));
                let vmz = add_val(p0.velocity.z as int, mul_val(az, dt));
                let damp = damp_factor_spec(fb.grounded, carrying);
                let vdx = mul_val(vmx, damp);
                let vdy = if fb.grounded {
                    0int
                } else {
                    vmy
                };
                let vdz = mul_val(vmz, damp);
                let vjy = if input.jump_key && fb.grounded && !fb.on_held_cargo {
                    p0.jump_strength as int
                } else {
                    vdy
                };
                let pos_now = if l0.cargo.state is Free {
                    fb.cargo_pos
                } else {
                    l0.cargo.pos
                };
                let cv = if l0.cargo.state is Free {
                    fb.cargo_vel
                } else {
                    l0.cargo.vel
                };
                let weight = old(self).progress.powerups@.contains(Powerup::Weight);
                let strength = old(self).progress.powerups@.contains(Powerup::Strength);
                let amt = attract_amt_spec(weight, dt);
                let dxr = reach_dx(pos_now, fb.player_pos);
                let dyr = reach_dy(pos_now, fb.player_pos);
                let dzr = reach_dz(pos_now, fb.player_pos);
                let held_after = out.event is PickedUp || (l0.cargo.state is Held && !(out.event
                    is Dropped) && !(out.event is Thrown));
                &&& l1.player.yaw as int == yaw1
                &&& l1.player.pitch as int == pitch1
                &&& (out.event is Attracted ==> l1.player.velocity.x as int == add_val(
                    vdx,
                    mul_val(dxr, amt),
                ) && l1.player.velocity.y as int == add_val(vjy, mul_val(dyr, amt))
                    && l1.player.velocity.z as int == add_val(vdz, mul_val(dzr, amt)))
                &&& (!(out.event is Attracted) ==> l1.player.velocity.x as int == vdx
                    && l1.player.velocity.y as int == vjy && l1.player.velocity.z as int == vdz)
                &&& l1.player.cooldown_left as int == (if out.event is PickedUp || out.event
                    is Dropped || out.event is Thrown {
                    COOLDOWN_TIME as int
                } else {
                    tick_cooldown_spec(p0.cooldown_left as int, dt)
                })
                &&& l1.player.launched == ((p0.launched && !fb.grounded) || out.event is Thrown)
                &&& l1.player.speed == p0.speed
                &&& l1.player.jump_strength == p0.jump_strength
                &&& l1.player.pickup_range == p0.pickup_range
                &&& l1.player_pos == fb.player_pos
                &&& l1.player_id == l0.player_id
                &&& l1.cargo_id == l0.cargo_id
                &&& l1.prepare_ticks == l0.prepare_ticks
                &&& (l1.cargo.state is Held <==> held_after)
                &&& (held_after ==> l1.cargo.pos.x as int == add_val(
                    fb.player_pos.x as int,
                    mul_val(fb.fwd_x as int, HOLD_FORWARD as int),
                ) && l1.cargo.pos.y as int == add_val(
                    fb.player_pos.y as int,
                    add_val(mul_val(0int, HOLD_FORWARD as int), HOLD_UP as int),
                ) && l1.cargo.pos.z as int == add_val(
                    fb.player_pos.z as int,
                    mul_val(fb.fwd_z as int, HOLD_FORWARD as int),
                ) && l1.cargo.facing as int == yaw1)
                &&& (!held_after ==> l1.cargo.pos == pos_now && l1.cargo.facing
                    == l0.cargo.facing)
                &&& (out.event is PickedUp || out.event is Idle ==> l1.cargo.vel == cv)
                &&& (out.event is Dropped ==> l1.cargo.vel.x as int == mul_val(
                    vdx,
                    DROP_FACTOR as int,
                ) && l1.cargo.vel.y as int == mul_val(vjy, DROP_FACTOR as int)
                    && l1.cargo.vel.z as int == mul_val(vdz, DROP_FACTOR as int))
                &&& (out.event is Thrown ==> l1.cargo.vel.x as int == add_val(
                    mul_val(vdx, THROW_FACTOR as int),
                    mul_val(fb.cam_fwd.x as int, throw_strength_spec(strength)),
                ) && l1.cargo.vel.y as int == add_val(
                    mul_val(vjy, THROW_FACTOR as int),
                    mul_val(fb.cam_fwd.y as int, throw_strength_spec(strength)),
                ) && l1.cargo.vel.z as int == add_val(
                    mul_val(vdz, THROW_FACTOR as int),
                    mul_val(fb.cam_fwd.z as int, throw_strength_spec(strength)),
                ))
                &&& (out.event is Attracted ==> l1.cargo.vel.x as int == sub_val(
                    cv.x as int,
                    mul_val(mul_val(dxr, amt), ATTRACT_CARGO_SCALE as int),
                ) && l1.cargo.vel.y as int == sub_val(
                    cv.y as int,
                    mul_val(mul_val(dyr, amt), ATTRACT_CARGO_SCALE as int),
                ) && l1.cargo.vel.z as int == sub_val(
                    cv.z as int,
                    mul_val(mul_val(dzr, amt), ATTRACT_CARGO_SCALE as int),
                ))
            }),
    {
        let mut lvl = self.level.take().unwrap();
        lvl.player_pos = fb.player_pos;
        let cargo_free_in = match lvl.cargo.state {
            crate::cargo::CargoState::Free => true,
            crate::cargo::CargoState::Held => false,
        };
        if cargo_free_in {
            lvl.cargo.pos = fb.cargo_pos;
            lvl.cargo.vel = fb.cargo_vel;
        }
        lvl.player.look_step(input.look_dx, input.look_dy);
        let boost = self.progress.has_powerup(Powerup::Speed);
        let carrying = !cargo_free_in;
        let disp = lvl.player.movement_step(
            input.forward_key,
            input.back_key,
            input.left_key,
            input.right_key,
            fb.fwd_x,
            fb.fwd_z,
            boost,
            carrying,
            input.dt,
        );
        lvl.player.damping_step(fb.grounded, carrying);
        lvl.player.jump_step(input.jump_key, fb.grounded, fb.on_held_cargo);
        let weight_boost = self.progress.has_powerup(Powerup::Weight);
        let strength_boost = self.progress.has_powerup(Powerup::Strength);
        let ev = interaction_step(
            &mut lvl.player,
            &mut lvl.cargo,
            lvl.player_pos,
            fb.cam_fwd,
            input.action_held,
            input.action_pressed,
            input.throw_key,
            fb.grounded,
            fb.on_held_cargo,
            weight_boost,
            strength_boost,
            input.dt,
        );
        follow_step(
            &mut lvl.cargo,
            lvl.player_pos,
            V3 { x: fb.fwd_x, y: 0, z: fb.fwd_z },
            lvl.player.yaw,
        );
        let cargo_free_now = match lvl.cargo.state {
            crate::cargo::CargoState::Free => true,
            crate::cargo::CargoState::Held => false,
        };
        let completed = progression_step(
            &mut self.progress,
            &lvl.markers,
            lvl.cargo.pos,
            cargo_free_now,
        );
        if input.help_pressed {
            self.progress.toggle_help();
        }
        let reset = input.reset_pressed || completed;
        if reset {
            self.world.despawn_transient();
            self.phase = Phase::Preparing;
            proof {
                lemma_live_records_no_kind(old(self).world.records@, EntityKind::Cargo);
                lemma_live_records_no_kind(old(self).world.records@, EntityKind::PlayerBody);
                lemma_filter_membership(old(self).world.records@, |r: Record| !r.transient);
                assert forall|i: int|
                    0 <= i < self.world.records@.len() implies ((((
                #[trigger] self.world.records@[i]).kind is Cargo
                    || self.world.records@[i].kind is PlayerBody)
                    ==> self.world.records@[i].transient)) by {
                    assert(!self.world.records@[i].transient);
                    assert(self.world.records@.contains(self.world.records@[i]));
                    assert(old(self).world.records@.contains(self.world.records@[i]));
                }
            }
        } else {
            self.level = Some(lvl);
        }
        TickOutput { displacement: disp, event: ev, completed, reset }
    }
}

} // verus!
