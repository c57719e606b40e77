//! A verified core for a first-person fetch-and-deliver game.
//!
//! The player roams a static city, picks up a single heavy cargo, carries or
//! throws it, and delivers it to numbered objective zones that grant lasting
//! powerups. This crate holds the stateful heart of that game: the
//! scene-readiness / game-phase state machine, the kinematic player
//! controller, the cargo interaction state machine, and the progression
//! tracker. Rendering, audio, input devices and the rigid-body engine are
//! external collaborators; the host feeds their per-tick observations in as
//! plain values and carries the decisions back out.

pub mod cargo;
pub mod fx;
pub mod phase;
pub mod player;
pub mod progress;
pub mod scene;
pub mod sim;
pub mod world;
