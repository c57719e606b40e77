//! The three-state game phase machine.
//!
//! `Loading` waits for the asset collection, `Preparing` waits for the scene
//! graph to instantiate and for colliders to be synthesized, `Playing` runs
//! the gameplay tick. The only legal transitions are Loading to Preparing,
//! Preparing to Playing, and Playing back to Preparing (reset or level
//! regenerate). Phase changes are applied at tick boundaries, never mid-tick.

use vstd::prelude::*;

verus! {

#[derive(Clone, Copy, PartialEq, Eq, Structural, Debug)]
pub enum Phase {
    Loading,
    Preparing,
    Playing,
}

/// Which phase changes the machine admits.
pub open spec fn phase_step_allowed(from: Phase, to: Phase) -> bool {
    ||| (from is Loading && to is Preparing)
    ||| (from is Preparing && to is Playing)
    ||| (from is Playing && to is Preparing)
}

/// Reflexive closure of `phase_step_allowed`: what a single tick may do to
/// the phase (stay put, or take one legal step).
pub open spec fn phase_tick_allowed(from: Phase, to: Phase) -> bool {
    from == to || phase_step_allowed(from, to)
}

} // verus!
