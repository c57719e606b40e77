//! The entity registry and the transient-tag discipline.
//!
//! The host engine owns the real scene graph; this registry is the
//! simulation's authoritative book of which logical entities exist, keyed by
//! ids the host mirrors. Every entity created while entering a level (light,
//! scene root, player body, cargo, camera, UI panels, objective markers) is
//! tagged transient; leaving play destroys exactly the transient records, in
//! one sweep, so nothing level-scoped leaks across a reset and nothing
//! run-scoped is lost.

use vstd::prelude::*;

verus! {

#[derive(Clone, Copy, PartialEq, Eq, Structural, Debug)]
pub enum EntityKind {
    Light,
    SceneRoot,
    PlayerBody,
    Cargo,
    Camera,
    UiPanel,
    HelpPanel,
    ObjectiveMarker,
}

#[derive(Clone, Copy, PartialEq, Eq, Structural, Debug)]
pub struct Record {
    pub id: u64,
    pub kind: EntityKind,
    pub transient: bool,
}

pub struct World {
    pub records: Vec<Record>,
    pub next_id: u64,
}

/// The records that survive a transient sweep.
pub open spec fn live_records(s: Seq<Record>) -> Seq<Record> {
    s.filter(|r: Record| !r.transient)
}

/// The records of one kind.
pub open spec fn of_kind(s: Seq<Record>, k: EntityKind) -> Seq<Record> {
    s.filter(|r: Record| r.kind == k)
}

pub open spec fn count_kind(s: Seq<Record>, k: EntityKind) -> int {
    of_kind(s, k).len() as int
}

/// Ids are strictly increasing along the registry and below `next_id`, so
/// every id is unique and `next_id` is always fresh.
pub open spec fn world_wf(w: World) -> bool {
    &&& forall|i: int| 0 <= i < w.records@.len() ==> (#[trigger] w.records@[i]).id < w.next_id
    &&& forall|i: int, j: int|
        0 <= i < j < w.records@.len() ==> w.records@[i].id < w.records@[j].id
}

/// Filtering a pushed sequence filters the prefix and then decides the
/// pushed element.
pub proof fn lemma_filter_push<A>(s: Seq<A>, x: A, p: spec_fn(A) -> bool)
    ensures
        s.push(x).filter(p) == if p(x) {
            s.filter(p).push(x)
        } else {
            s.filter(p)
        },
{
    reveal(Seq::filter);
    assert(s.push(x).drop_last() =~= s);
    assert(s.push(x).last() == x);
}

/// Every element of a filtered sequence is an element of the original.
pub proof fn lemma_filter_membership<A>(s: Seq<A>, p: spec_fn(A) -> bool)
    ensures
        forall|x: A| #[trigger] s.filter(p).contains(x) ==> s.contains(x),
    decreases s.len(),
{
    reveal(Seq::filter);
    if s.len() > 0 {
        lemma_filter_membership(s.drop_last(), p);
        assert forall|x: A| #[trigger] s.filter(p).contains(x) implies s.contains(x) by {
            let f = s.filter(p);
            let i = choose|i: int| 0 <= i < f.len() && f[i] == x;
            let sub = s.drop_last().filter(p);
            if p(s.last()) && i == f.len() - 1 {
                assert(s[s.len() - 1] == x);
            } else {
                assert(sub.contains(x));
                assert(s.drop_last().contains(x));
                let j = choose|j: int| 0 <= j < s.drop_last().len() && s.drop_last()[j] == x;
                assert(s[j] == x);
            }
        }
    }
}

/// If no element satisfies the predicate, the filtered sequence is empty.
pub proof fn lemma_filter_none<A>(s: Seq<A>, p: spec_fn(A) -> bool)
    requires
        forall|i: int| 0 <= i < s.len() ==> !p(#[trigger] s[i]),
    ensures
        s.filter(p).len() == 0,
    decreases s.len(),
{
    reveal(Seq::filter);
    if s.len() > 0 {
        assert(forall|i: int|
            0 <= i < s.drop_last().len() ==> !p(#[trigger] s.drop_last()[i]));
        lemma_filter_none(s.drop_last(), p);
        assert(!p(s[s.len() - 1]));
    }
}

impl World {
    pub fn new() -> (r: World)
        ensures
            r.records@ == Seq::<Record>::empty(),
            r.next_id == 0,
            world_wf(r),
    {
        let r = World { records: Vec::new(), next_id: 0 };
        proof {
            assert(r.records@ =~= Seq::<Record>::empty());
        }
        r
    }

    /// Create one entity and hand back its fresh id.
    pub fn spawn(&mut self, kind: EntityKind, transient: bool) -> (id: u64)
        requires
            world_wf(*old(self)),
            old(self).next_id < u64::MAX,
        ensures
            id == old(self).next_id,
            final(self).next_id == old(self).next_id + 1,
            final(self).records@ == old(self).records@.push(
                Record { id, kind, transient },
            ),
            world_wf(*final(self)),
            forall|k: EntityKind| #[trigger] count_kind(final(self).records@, k) == count_kind(
                old(self).records@,
                k,
            ) + if k == kind {
                1int
            } else {
                0int
            },
    {
        let id = self.next_id;
        self.records.push(Record { id, kind, transient });
        self.next_id = id + 1;
        proof {
            assert forall|k: EntityKind| #[trigger] count_kind(self.records@, k) == count_kind(
                old(self).records@,
                k,
            ) + (if k == kind {
                1int
            } else {
                0int
            }) by {
                lemma_filter_push(
                    old(self).records@,
                    Record { id, kind, transient },
                    |r: Record| r.kind == k,
                );
            }
        }
        id
    }

    /// Destroy every transient record, unconditionally, keeping the rest in
    /// order. Ids are never reused afterwards: `next_id` is untouched.
    #[verifier::loop_isolation(false)]
    pub fn despawn_transient(&mut self)
        requires
            world_wf(*old(self)),
        ensures
            final(self).records@ == live_records(old(self).records@),
            final(self).next_id == old(self).next_id,
            world_wf(*final(self)),
            forall|i: int|
                0 <= i < final(self).records@.len() ==> !(#[trigger] final(self).records@[i]).transient,
    {
        let ghost orig = self.records@;
        let ghost p = |r: Record| !r.transient;
        let n = self.records.len();
        let mut kept: Vec<Record> = Vec::new();
        proof {
            assert(orig.take(0).filter(p) =~= Seq::<Record>::empty());
            assert(kept@ =~= Seq::<Record>::empty());
        }
        let mut i: usize = 0;
        while i < n
            invariant
                n == self.records@.len(),
                self.records@ == orig,
                0 <= i <= n,
                kept@ == orig.take(i as int).filter(p),
            decreases n - i,
        {
            let r = self.records[i];
            proof {
                assert(orig.take(i + 1) =~= orig.take(i as int).push(orig[i as int]));
                lemma_filter_push(orig.take(i as int), orig[i as int], p);
            }
            if !r.transient {
                kept.push(r);
            }
            i += 1;
        }
        proof {
            assert(orig.take(n as int) =~= orig);
        }
        self.records = kept;
        proof {
            self.lemma_live_records_wf(orig, old(self).next_id);
            broadcast use Seq::lemma_filter_pred;

        }
    }

    proof fn lemma_live_records_wf(&self, orig: Seq<Record>, bound: u64)
        requires
            self.records@ == live_records(orig),
            forall|i: int| 0 <= i < orig.len() ==> (#[trigger] orig[i]).id < bound,
            forall|i: int, j: int| 0 <= i < j < orig.len() ==> orig[i].id < orig[j].id,
        ensures
            forall|i: int|
                0 <= i < self.records@.len() ==> (#[trigger] self.records@[i]).id < bound,
            forall|i: int, j: int|
                0 <= i < j < self.records@.len() ==> self.records@[i].id < self.records@[j].id,
    {
        lemma_filter_increasing(orig, |r: Record| !r.transient);
        lemma_filter_membership(orig, |r: Record| !r.transient);
        assert forall|i: int|
            0 <= i < self.records@.len() implies (#[trigger] self.records@[i]).id < bound by {
            assert(self.records@.contains(self.records@[i]));
            assert(orig.contains(self.records@[i]));
            let j = choose|j: int| 0 <= j < orig.len() && orig[j] == self.records@[i];
            assert(orig[j].id < bound);
        }
    }

    /// How many records of one kind exist.
    #[verifier::loop_isolation(false)]
    pub fn kind_count(&self, k: EntityKind) -> (r: usize)
        ensures
            r as int == count_kind(self.records@, k),
    {
        let ghost q = |r: Record| r.kind == k;
        let n = self.records.len();
        let mut c: usize = 0;
        proof {
            assert(self.records@.take(0).filter(q) =~= Seq::<Record>::empty());
        }
        let mut i: usize = 0;
        while i < n
            invariant
                n == self.records@.len(),
                0 <= i <= n,
                c as int == self.records@.take(i as int).filter(q).len(),
                c <= i,
            decreases n - i,
        {
            let r = self.records[i];
            proof {
                assert(self.records@.take(i + 1) =~= self.records@.take(i as int).push(
                    self.records@[i as int],
                ));
                lemma_filter_push(self.records@.take(i as int), self.records@[i as int], q);
            }
            if r.kind == k {
                c += 1;
            }
            i += 1;
        }
        proof {
            assert(self.records@.take(n as int) =~= self.records@);
        }
        c
    }

    /// How many transient records exist.
    #[verifier::loop_isolation(false)]
    pub fn transient_count(&self) -> (r: usize)
        ensures
            r as int == self.records@.filter(|rec: Record| rec.transient).len(),
    {
        let ghost q = |rec: Record| rec.transient;
        let n = self.records.len();
        let mut c: usize = 0;
        proof {
            assert(self.records@.take(0).filter(q) =~= Seq::<Record>::empty());
        }
        let mut i: usize = 0;
        while i < n
            invariant
                n == self.records@.len(),
                0 <= i <= n,
                c as int == self.records@.take(i as int).filter(q).len(),
                c <= i,
            decreases n - i,
        {
            let r = self.records[i];
            proof {
                assert(self.records@.take(i + 1) =~= self.records@.take(i as int).push(
                    self.records@[i as int],
                ));
                lemma_filter_push(self.records@.take(i as int), self.records@[i as int], q);
            }
            if r.transient {
                c += 1;
            }
            i += 1;
        }
        proof {
            assert(self.records@.take(n as int) =~= self.records@);
        }
        c
    }
}

/// Filtering preserves a strictly increasing id order.
pub proof fn lemma_filter_increasing(s: Seq<Record>, p: spec_fn(Record) -> bool)
    requires
        forall|i: int, j: int| 0 <= i < j < s.len() ==> s[i].id < s[j].id,
    ensures
        forall|i: int, j: int|
            0 <= i < j < s.filter(p).len() ==> s.filter(p)[i].id < s.filter(p)[j].id,
    decreases s.len(),
{
    reveal(Seq::filter);
    if s.len() > 0 {
        let sub = s.drop_last();
        assert(forall|i: int, j: int| 0 <= i < j < sub.len() ==> sub[i].id < sub[j].id);
        lemma_filter_increasing(sub, p);
        lemma_filter_membership(sub, p);
        let f = s.filter(p);
        let fsub = sub.filter(p);
        if p(s.last()) {
            assert(f == fsub.push(s.last()));
            assert forall|i: int, j: int| 0 <= i < j < f.len() implies f[i].id < f[j].id by {
                if j < f.len() - 1 {
                    assert(fsub[i].id < fsub[j].id);
                } else {
                    assert(f[i] == fsub[i]);
                    assert(fsub.contains(fsub[i]));
                    assert(sub.contains(fsub[i]));
                    let m = choose|m: int| 0 <= m < sub.len() && sub[m] == fsub[i];
                    assert(sub[m].id < s[s.len() - 1].id);
                }
            }
        }
    }
}

/// A kind whose records are all transient has none left after the
/// transient sweep.
pub proof fn lemma_live_records_no_kind(s: Seq<Record>, k: EntityKind)
    requires
        forall|i: int| 0 <= i < s.len() && (#[trigger] s[i]).kind == k ==> s[i].transient,
    ensures
        count_kind(live_records(s), k) == 0,
{
    let live = live_records(s);
    lemma_filter_membership(s, |r: Record| !r.transient);
    broadcast use Seq::lemma_filter_pred;

    assert forall|i: int| 0 <= i < live.len() implies (#[trigger] live[i]).kind != k by {
        assert(!live[i].transient);
        assert(live.contains(live[i]));
        assert(s.contains(live[i]));
        let j = choose|j: int| 0 <= j < s.len() && s[j] == live[i];
        assert(s[j].kind == k ==> s[j].transient);
    }
    lemma_filter_none(live, |r: Record| r.kind == k);
}

/// Destroying the transient records keeps exactly the non-transient ones:
/// no transient record survives, and every non-transient record does.
pub proof fn lemma_despawn_exact(s: Seq<Record>)
    ensures
        forall|i: int|
            0 <= i < live_records(s).len() ==> !(#[trigger] live_records(s)[i]).transient,
        forall|i: int|
            0 <= i < s.len() && !s[i].transient ==> live_records(s).contains(#[trigger] s[i]),
        forall|x: Record| #[trigger] live_records(s).contains(x) ==> s.contains(x),
{
    broadcast use Seq::lemma_filter_pred;
    broadcast use Seq::lemma_filter_contains;

    lemma_filter_membership(s, |r: Record| !r.transient);
}

} // verus!
