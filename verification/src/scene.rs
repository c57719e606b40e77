//! The collider synthesizer's decisions.
//!
//! While the phase machine sits in `Preparing`, the host polls the
//! instantiated scene graph — the loader gives no completion callback — and
//! hands a snapshot of its meshed descendants here. Once enough descendants
//! exist, every node is classified: the cargo's own scene is left dynamic
//! and only tagged transient, a node named `Objective` followed by a number
//! becomes an objective marker at that node's world position instead of a
//! collider, and every other meshed node gets a static triangle-mesh
//! collider derived from its geometry. Geometry that cannot yield a
//! collision shape, or an objective name whose number does not parse, is a
//! fatal setup error naming the offending node.

use crate::fx::V3;
use vstd::prelude::*;

verus! {

/// How many scene-graph descendants must exist before synthesis may run;
/// below this the instantiation is still in flight and the tick is a no-op.
pub const MIN_SCENE_DESCENDANTS: usize = 2;

/// How many ticks `Preparing` may poll an incomplete scene graph before the
/// wait is surfaced as a diagnosable stall instead of hanging silently.
pub const MAX_PREPARE_TICKS: u32 = 600;

/// What a node's name says about it.
#[derive(Clone, Copy, PartialEq, Eq, Structural, Debug)]
pub enum NameClass {
    /// No objective prefix: an ordinary scenery node.
    Plain,
    /// The objective prefix followed by a readable number.
    ObjectiveId(u32),
    /// The objective prefix followed by something that is not a number the
    /// id type can hold: a fatal naming error.
    Malformed,
}

/// What the synthesizer decides to do with one meshed descendant.
#[derive(Clone, Copy, PartialEq, Eq, Structural, Debug)]
pub enum NodeAction {
    /// Not a meshed node: nothing to do.
    Ignore,
    /// Part of the cargo's own scene: tag it transient, leave it dynamic.
    TagCargo,
    /// Spawn an objective marker with this id at the node's position.
    SpawnMarker(u32),
    /// Derive a static collider from the node's mesh.
    AttachCollider,
}

/// Why one node makes the whole preparation fail.
#[derive(Clone, Copy, PartialEq, Eq, Structural, Debug)]
pub enum NodeFault {
    /// The name carries the objective prefix but no readable number.
    BadObjectiveName,
    /// The mesh geometry cannot produce a collision shape.
    UnusableMesh,
}

/// A fatal setup error, naming the offending node in the snapshot.
#[derive(Clone, Copy, PartialEq, Eq, Structural, Debug)]
pub struct SynthFault {
    pub index: usize,
    pub kind: NodeFault,
}

/// One meshed descendant of the instantiated scene graph, as the host
/// reports it: its own name, the name of the scene root it belongs to,
/// whether it carries a visual mesh, whether that mesh can be turned into a
/// collision shape, and its world-space position.
pub struct SceneNode {
    pub name: Vec<u8>,
    pub root_name: Vec<u8>,
    pub has_mesh: bool,
    pub mesh_convertible: bool,
    pub world_pos: V3,
}

/// An objective marker to create.
#[derive(Clone, Copy, PartialEq, Eq, Structural, Debug)]
pub struct MarkerSpawn {
    pub num: u32,
    pub pos: V3,
}

/// Everything a successful synthesis pass asks the host and the simulation
/// to do: one action per snapshot node, and the markers to spawn.
pub struct SynthesisPlan {
    pub actions: Vec<NodeAction>,
    pub markers: Vec<MarkerSpawn>,
}

/// The byte string `Objective`.
pub open spec fn objective_prefix() -> Seq<u8> {
    seq![79u8, 98u8, 106u8, 101u8, 99u8, 116u8, 105u8, 118u8, 101u8]
}

/// The byte string `Anvil`, the name of the cargo's scene root.
pub open spec fn cargo_root_name() -> Seq<u8> {
    seq![65u8, 110u8, 118u8, 105u8, 108u8]
}

pub open spec fn has_objective_prefix(s: Seq<u8>) -> bool {
    s.len() >= 9 && s.subrange(0, 9) == objective_prefix()
}

pub open spec fn is_digit(b: u8) -> bool {
    48 <= b <= 57
}

pub open spec fn all_digits(s: Seq<u8>) -> bool {
    forall|i: int| 0 <= i < s.len() ==> is_digit(#[trigger] s[i])
}

/// The number a digit string denotes, most significant digit first.
pub open spec fn digits_val(s: Seq<u8>) -> int
    decreases s.len(),
{
    if s.len() == 0 {
        0
    } else {
        digits_val(s.drop_last()) * 10 + (s.last() - 48)
    }
}

/// How a node name is read: names without the objective prefix are plain
/// scenery; with the prefix, the remainder must be one or more digits
/// denoting a number the id type can hold, anything else being a fatal
/// naming error.
pub open spec fn classify_name_spec(s: Seq<u8>) -> NameClass {
    if !has_objective_prefix(s) {
        NameClass::Plain
    } else {
        let suf = s.subrange(9, s.len() as int);
        if suf.len() > 0 && all_digits(suf) && digits_val(suf) <= u32::MAX {
            NameClass::ObjectiveId(digits_val(suf) as u32)
        } else {
            NameClass::Malformed
        }
    }
}

/// The synthesizer's decision for one node.
pub open spec fn node_action_spec(name: Seq<u8>, root_name: Seq<u8>, has_mesh: bool, convertible: bool) -> Result<NodeAction, NodeFault> {
    if !has_mesh {
        Ok(NodeAction::Ignore)
    } else if root_name == cargo_root_name() {
        Ok(NodeAction::TagCargo)
    } else {
        match classify_name_spec(name) {
            NameClass::ObjectiveId(n) => Ok(NodeAction::SpawnMarker(n)),
            NameClass::Malformed => Err(NodeFault::BadObjectiveName),
            NameClass::Plain => if convertible {
                Ok(NodeAction::AttachCollider)
            } else {
                Err(NodeFault::UnusableMesh)
            },
        }
    }
}

pub open spec fn node_decision(n: SceneNode) -> Result<NodeAction, NodeFault> {
    node_action_spec(n.name@, n.root_name@, n.has_mesh, n.mesh_convertible)
}

/// The markers a snapshot prefix asks for, in snapshot order.
pub open spec fn markers_spec(nodes: Seq<SceneNode>) -> Seq<MarkerSpawn>
    decreases nodes.len(),
{
    if nodes.len() == 0 {
        Seq::empty()
    } else {
        let rest = markers_spec(nodes.drop_last());
        match node_decision(nodes.last()) {
            Ok(NodeAction::SpawnMarker(n)) => rest.push(
                MarkerSpawn { num: n, pos: nodes.last().world_pos },
            ),
            _ => rest,
        }
    }
}

/// A snapshot never asks for more markers than it has nodes.
pub proof fn lemma_markers_spec_len(nodes: Seq<SceneNode>)
    ensures
        markers_spec(nodes).len() <= nodes.len(),
    decreases nodes.len(),
{
    if nodes.len() > 0 {
        lemma_markers_spec_len(nodes.drop_last());
    }
}

/// Whether the polled scene graph has instantiated enough descendants for
/// synthesis to run.
pub fn scene_ready(descendant_count: usize) -> (r: bool)
    ensures
        r == (descendant_count >= MIN_SCENE_DESCENDANTS),
{
    descendant_count >= MIN_SCENE_DESCENDANTS
}

/// Read a node name. Returns `Plain` without the objective prefix;
/// otherwise the suffix must be one or more digits denoting a number that
/// fits the id type.
pub fn classify_name(name: &Vec<u8>) -> (r: NameClass)
    ensures
        r == classify_name_spec(name@),
{
    let n = name.len();
    if n < 9 {
        return NameClass::Plain;
    }
    let pfx = name[0] == 79u8 && name[1] == 98u8 && name[2] == 106u8 && name[3] == 101u8
        && name[4] == 99u8 && name[5] == 116u8 && name[6] == 105u8 && name[7] == 118u8
        && name[8] == 101u8;
    proof {
        if pfx {
            assert(name@.subrange(0, 9) =~= objective_prefix());
        } else {
            if name@.subrange(0, 9) == objective_prefix() {
                assert(name@[0] == objective_prefix()[0]) by {
                    assert(name@.subrange(0, 9)[0] == name@[0]);
                }
                assert(name@[1] == objective_prefix()[1]) by {
                    assert(name@.subrange(0, 9)[1] == name@[1]);
                }
                assert(name@[2] == objective_prefix()[2]) by {
                    assert(name@.subrange(0, 9)[2] == name@[2]);
                }
                assert(name@[3] == objective_prefix()[3]) by {
                    assert(name@.subrange(0, 9)[3] == name@[3]);
                }
                assert(name@[4] == objective_prefix()[4]) by {
                    assert(name@.subrange(0, 9)[4] == name@[4]);
                }
                assert(name@[5] == objective_prefix()[5]) by {
                    assert(name@.subrange(0, 9)[5] == name@[5]);
                }
                assert(name@[6] == objective_prefix()[6]) by {
                    assert(name@.subrange(0, 9)[6] == name@[6]);
                }
                assert(name@[7] == objective_prefix()[7]) by {
                    assert(name@.subrange(0, 9)[7] == name@[7]);
                }
                assert(name@[8] == objective_prefix()[8]) by {
                    assert(name@.subrange(0, 9)[8] == name@[8]);
                }
            }
        }
    }
    if !pfx {
        return NameClass::Plain;
    }
    if n == 9 {
        return NameClass::Malformed;
    }
    let mut acc: u64 = 0;
    let mut over = false;
    let mut i: usize = 9;
    proof {
        assert(name@.subrange(9, 9) =~= Seq::<u8>::empty());
    }
    #[verifier::loop_isolation(false)]
    while i < n
        invariant
            9 <= i <= n,
            all_digits(name@.subrange(9, i as int)),
            !over ==> acc as int == digits_val(name@.subrange(9, i as int)) && acc
                <= u32::MAX,
            over ==> digits_val(name@.subrange(9, i as int)) > u32::MAX,
        decreases n - i,
    {
        let b = name[i];
        if b < 48 || b > 57 {
            proof {
                assert(!is_digit(name@[i as int]));
                assert(name@.subrange(9, n as int)[i - 9] == name@[i as int]);
            }
            return NameClass::Malformed;
        }
        proof {
            assert(name@.subrange(9, i + 1).drop_last() =~= name@.subrange(9, i as int));
            assert(name@.subrange(9, i + 1).last() == name@[i as int]);
            assert forall|j: int| 0 <= j < i + 1 - 9 implies is_digit(
                #[trigger] name@.subrange(9, i + 1)[j],
            ) by {
                if j < i - 9 {
                    assert(name@.subrange(9, i + 1)[j] == name@.subrange(9, i as int)[j]);
                }
            }
        }
        if !over {
            acc = acc * 10 + ((b - 48) as u64);
            if acc > 0xFFFF_FFFF {
                over = true;
            }
        } else {
            proof {
                let cur = digits_val(name@.subrange(9, i as int));
                assert(cur * 10 > u32::MAX * 10) by (nonlinear_arith)
                    requires
                        cur > u32::MAX,
                ;
            }
        }
        i += 1;
    }
    proof {
        assert(name@.subrange(9, n as int) == name@.subrange(9, i as int));
    }
    if over {
        NameClass::Malformed
    } else {
        NameClass::ObjectiveId(acc as u32)
    }
}

/// Whether a scene-root name marks the cargo's own scene.
pub fn is_cargo_root(root_name: &Vec<u8>) -> (r: bool)
    ensures
        r == (root_name@ == cargo_root_name()),
{
    let hit = root_name.len() == 5 && root_name[0] == 65u8 && root_name[1] == 110u8
        && root_name[2] == 118u8 && root_name[3] == 105u8 && root_name[4] == 108u8;
    proof {
        if hit {
            assert(root_name@ =~= cargo_root_name());
        } else {
            if root_name@ == cargo_root_name() {
                assert(root_name@.len() == 5);
                assert(root_name@[0] == cargo_root_name()[0]);
                assert(root_name@[1] == cargo_root_name()[1]);
                assert(root_name@[2] == cargo_root_name()[2]);
                assert(root_name@[3] == cargo_root_name()[3]);
                assert(root_name@[4] == cargo_root_name()[4]);
            }
        }
    }
    hit
}

/// Decide what to do with one snapshot node.
pub fn classify_node(node: &SceneNode) -> (r: Result<NodeAction, NodeFault>)
    ensures
        r == node_decision(*node),
{
    if !node.has_mesh {
        return Ok(NodeAction::Ignore);
    }
    if is_cargo_root(&node.root_name) {
        return Ok(NodeAction::TagCargo);
    }
    match classify_name(&node.name) {
        NameClass::ObjectiveId(num) => Ok(NodeAction::SpawnMarker(num)),
        NameClass::Malformed => Err(NodeFault::BadObjectiveName),
        NameClass::Plain => {
            if node.mesh_convertible {
                Ok(NodeAction::AttachCollider)
            } else {
                Err(NodeFault::UnusableMesh)
            }
        },
    }
}

/// One full synthesis pass over a snapshot. Succeeds exactly when every
/// node classifies cleanly, returning each node's action and the markers to
/// spawn; otherwise reports the first offending node.
#[verifier::loop_isolation(false)]
pub fn synthesize(nodes: &Vec<SceneNode>) -> (r: Result<SynthesisPlan, SynthFault>)
    ensures
        (r is Ok <==> forall|i: int|
            0 <= i < nodes@.len() ==> (#[trigger] node_decision(nodes@[i])) is Ok),
        r is Ok ==> ({
            let plan = r->Ok_0;
            &&& plan.actions@.len() == nodes@.len()
            &&& forall|i: int|
                0 <= i < nodes@.len() ==> Ok::<NodeAction, NodeFault>(
                    #[trigger] plan.actions@[i],
                ) == node_decision(nodes@[i])
            &&& plan.markers@ == markers_spec(nodes@)
        }),
        r is Err ==> ({
            let f = r->Err_0;
            &&& 0 <= f.index < nodes@.len()
            &&& node_decision(nodes@[f.index as int]) is Err
            &&& node_decision(nodes@[f.index as int])->Err_0 == f.kind
            &&& forall|j: int|
                0 <= j < f.index ==> (#[trigger] node_decision(nodes@[j])) is Ok
        }),
{
    let n = nodes.len();
    let mut actions: Vec<NodeAction> = Vec::new();
    let mut markers: Vec<MarkerSpawn> = Vec::new();
    proof {
        assert(markers@ =~= markers_spec(nodes@.take(0)));
    }
    let mut i: usize = 0;
    while i < n
        invariant
            0 <= i <= n,
            actions@.len() == i,
            forall|j: int|
                0 <= j < i ==> Ok::<NodeAction, NodeFault>(#[trigger] actions@[j])
                    == node_decision(nodes@[j]),
            markers@ == markers_spec(nodes@.take(i as int)),
        decreases n - i,
    {
        proof {
            assert(nodes@.take(i + 1).drop_last() =~= nodes@.take(i as int));
            assert(nodes@.take(i + 1).last() == nodes@[i as int]);
        }
        let node = &nodes[i];
        match classify_node(node) {
            Ok(a) => {
                actions.push(a);
                match a {
                    NodeAction::SpawnMarker(num) => {
                        markers.push(MarkerSpawn { num, pos: node.world_pos });
                    },
                    _ => (),
                }
            },
            Err(kind) => {
                proof {
                    assert forall|j: int| 0 <= j < i implies (#[trigger] node_decision(
                        nodes@[j],
                    )) is Ok by {
                        assert(Ok::<NodeAction, NodeFault>(actions@[j]) == node_decision(
                            nodes@[j],
                        ));
                    }
                }
                return Err(SynthFault { index: i, kind });
            },
        }
        i += 1;
    }
    proof {
        assert(nodes@.take(n as int) == nodes@);
        assert forall|j: int| 0 <= j < nodes@.len() implies (#[trigger] node_decision(
            nodes@[j],
        )) is Ok by {
            assert(Ok::<NodeAction, NodeFault>(actions@[j]) == node_decision(nodes@[j]));
        }
    }
    Ok(SynthesisPlan { actions, markers })
}

} // verus!
