//! Run-wide progression: delivered objectives, granted powerups, help panel.
//!
//! `Progress` outlives any single level instance: it survives every reset and
//! level regenerate, and only a process restart clears it. Completed
//! objective ids are kept in completion order and never duplicated; powerups
//! are kept in grant order and may repeat if regranted. The powerup catalog
//! is a fixed mapping from objective id to the powerup it awards.

use vstd::prelude::*;

verus! {

/// A lasting gameplay modifier granted by a delivery.
#[derive(Clone, Copy, PartialEq, Eq, Structural, Debug)]
pub enum Powerup {
    /// Raises the throw impulse.
    Strength,
    /// Strengthens the attraction pull on the cargo.
    Weight,
    /// Raises the movement speed multiplier.
    Speed,
}

/// How many objectives a level carries.
pub const TOTAL_OBJECTIVES: usize = 3;

pub struct Progress {
    /// Completed objective ids, in completion order, without duplicates.
    pub objectives: Vec<u32>,
    /// Granted powerups, in grant order.
    pub powerups: Vec<Powerup>,
    /// Whether the help panel is shown.
    pub help: bool,
}

/// The fixed objective-to-powerup catalog.
pub open spec fn catalog_spec(num: u32) -> Option<Powerup> {
    if num == 0 {
        Some(Powerup::Weight)
    } else if num == 1 {
        Some(Powerup::Strength)
    } else if num == 2 {
        Some(Powerup::Speed)
    } else {
        None
    }
}

pub open spec fn no_dups(s: Seq<u32>) -> bool {
    forall|i: int, j: int| 0 <= i < j < s.len() ==> s[i] != s[j]
}

/// A well-formed progression never records an objective twice.
pub open spec fn progress_wf(p: Progress) -> bool {
    no_dups(p.objectives@)
}

/// What completing objective `num` does to the completed-id list.
pub open spec fn record_objectives_spec(objs: Seq<u32>, num: u32) -> Seq<u32> {
    if objs.contains(num) {
        objs
    } else {
        objs.push(num)
    }
}

/// What completing objective `num` does to the granted-powerup list.
pub open spec fn record_powerups_spec(objs: Seq<u32>, pows: Seq<Powerup>, num: u32) -> Seq<
    Powerup,
> {
    if objs.contains(num) {
        pows
    } else {
        match catalog_spec(num) {
            Some(p) => pows.push(p),
            None => pows,
        }
    }
}

impl Progress {
    /// A fresh run: nothing delivered, nothing granted, help shown.
    pub fn new() -> (r: Progress)
        ensures
            r.objectives@ == Seq::<u32>::empty(),
            r.powerups@ == Seq::<Powerup>::empty(),
            r.help,
            progress_wf(r),
    {
        let r = Progress { objectives: Vec::new(), powerups: Vec::new(), help: true };
        proof {
            assert(r.objectives@ =~= Seq::<u32>::empty());
            assert(r.powerups@ =~= Seq::<Powerup>::empty());
        }
        r
    }

    /// Whether powerup `p` has been granted (at least once).
    pub fn has_powerup(&self, p: Powerup) -> (r: bool)
        ensures
            r == self.powerups@.contains(p),
    {
        let n = self.powerups.len();
        let mut i: usize = 0;
        while i < n
            invariant
                n == self.powerups@.len(),
                0 <= i <= n,
                forall|j: int| 0 <= j < i ==> self.powerups@[j] != p,
            decreases n - i,
        {
            if self.powerups[i] == p {
                return true;
            }
            i += 1;
        }
        false
    }

    /// Whether objective `num` has already been completed.
    pub fn objective_done(&self, num: u32) -> (r: bool)
        ensures
            r == self.objectives@.contains(num),
    {
        let n = self.objectives.len();
        let mut i: usize = 0;
        while i < n
            invariant
                n == self.objectives@.len(),
                0 <= i <= n,
                forall|j: int| 0 <= j < i ==> self.objectives@[j] != num,
            decreases n - i,
        {
            if self.objectives[i] == num {
                return true;
            }
            i += 1;
        }
        false
    }

    /// The powerup the catalog awards for objective `num`, if any.
    pub fn powerup_for(num: u32) -> (r: Option<Powerup>)
        ensures
            r == catalog_spec(num),
    {
        if num == 0 {
            Some(Powerup::Weight)
        } else if num == 1 {
            Some(Powerup::Strength)
        } else if num == 2 {
            Some(Powerup::Speed)
        } else {
            None
        }
    }

    /// Record a completed delivery: append the id unless it is already
    /// present, and grant the catalog powerup for a first completion.
    pub fn record_objective(&mut self, num: u32)
        ensures
            final(self).objectives@ == record_objectives_spec(old(self).objectives@, num),
            final(self).powerups@ == record_powerups_spec(
                old(self).objectives@,
                old(self).powerups@,
                num,
            ),
            final(self).help == old(self).help,
            progress_wf(*old(self)) ==> progress_wf(*final(self)),
    {
        if self.objective_done(num) {
            return ;
        }
        self.objectives.push(num);
        match Progress::powerup_for(num) {
            Some(p) => self.powerups.push(p),
            None => (),
        }
    }

    /// Flip the help panel visibility.
    pub fn toggle_help(&mut self)
        ensures
            final(self).help == !old(self).help,
            final(self).objectives@ == old(self).objectives@,
            final(self).powerups@ == old(self).powerups@,
    {
        self.help = !self.help;
    }

    /// How many objectives have been delivered.
    pub fn delivered_count(&self) -> (r: usize)
        ensures
            r == self.objectives@.len(),
    {
        self.objectives.len()
    }

    /// Whether every objective of the run has been delivered.
    pub fn all_delivered(&self) -> (r: bool)
        ensures
            r == (self.objectives@.len() == TOTAL_OBJECTIVES),
    {
        self.objectives.len() == TOTAL_OBJECTIVES
    }
}

/// Completing an objective grows the completed list by one exactly when the
/// id is new, keeps it duplicate-free, and a repeat completion (the cargo
/// lingering in a delivered zone) changes nothing at all.
pub proof fn lemma_record_objective_count(objs: Seq<u32>, num: u32)
    ensures
        record_objectives_spec(objs, num).len() == if objs.contains(num) {
            objs.len()
        } else {
            (objs.len() + 1) as nat
        },
        no_dups(objs) ==> no_dups(record_objectives_spec(objs, num)),
        objs.contains(num) ==> record_objectives_spec(objs, num) == objs,
{
    if !objs.contains(num) {
        let r = objs.push(num);
        if no_dups(objs) {
            assert forall|i: int, j: int| 0 <= i < j < r.len() implies r[i] != r[j] by {
                if j == objs.len() {
                    assert(objs[i] == r[i]);
                    assert(objs.contains(objs[i]));
                }
            }
        }
    }
}

/// Recording the same objective a second time is a no-op: both the
/// completed-id list and the granted-powerup list stay as they were.
pub proof fn lemma_record_objective_idempotent(objs: Seq<u32>, pows: Seq<Powerup>, num: u32)
    ensures
        record_objectives_spec(record_objectives_spec(objs, num), num) == record_objectives_spec(
            objs,
            num,
        ),
        record_powerups_spec(
            record_objectives_spec(objs, num),
            record_powerups_spec(objs, pows, num),
            num,
        ) == record_powerups_spec(objs, pows, num),
{
    let o1 = record_objectives_spec(objs, num);
    if objs.contains(num) {
        assert(o1.contains(num));
    } else {
        assert(o1[objs.len() as int] == num);
        assert(o1.contains(num));
    }
}

} // verus!
