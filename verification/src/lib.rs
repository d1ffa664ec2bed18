//! Core simulation of the hostile adversaries in a top-down survival game:
//! stat tables, the spawner, the four behaviour state machines, movement,
//! projectile and contact combat with chain strikes, and death payouts.
//!
//! All spatial quantities are integers: positions and distances are measured
//! in milliunits (one thousandth of a world unit), speeds in milliunits per
//! second, and time in milliseconds. Probabilities are per-mille values.

use vstd::prelude::*;

pub mod behavior;
pub mod charger;
pub mod combat;
pub mod death;
pub mod difficulty;
pub mod geom;
pub mod movement;
pub mod ranged;
pub(crate) mod rng;
pub mod skirmisher;
pub mod spawner;
pub mod stats;
pub mod summoner;
pub mod timer;
pub mod world;

verus! {

/// One world unit expressed in milliunits.
pub const MILLI: i64 = 1000;

/// Clamp bound for world coordinates, in milliunits.
pub const WORLD_LIMIT: i64 = 0x4000_0000_0000;

} // verus!
