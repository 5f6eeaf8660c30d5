//! A verified 2D platformer movement controller.
//!
//! The controller is a per-tick state machine for a player entity: grounded
//! detection from shape-cast hits, coyote-time jumping with a jump-hold
//! extension window and jump abort, horizontal acceleration with a
//! direction-reversal braking penalty, gravity-scale switching between ground
//! and air, a cooldown-gated attack with knockback, and a dampening stage
//! that decays horizontal velocity. The host (physics engine, input mapper,
//! renderer) hands in plain values each tick and consumes the mutated state.
//!
//! All quantities are integers: simulation time in milliseconds, velocities
//! in pixels per second, surface normals in thousandths of a unit vector.

pub mod config;
pub mod state;
pub mod grounded;
pub mod resolver;
pub mod dampening;
pub mod tick;
pub mod camera;
pub mod laws;
pub mod input;

use vstd::prelude::*;

verus! {

/// `v` clamped to the closed interval from `lo` to `hi`.
pub open spec fn clip(v: int, lo: int, hi: int) -> int {
    if v < lo {
        lo
    } else if v > hi {
        hi
    } else {
        v
    }
}

/// Absolute value of a machine integer, as a mathematical integer.
pub open spec fn mag(v: i64) -> int {
    if v < 0 {
        -v
    } else {
        v as int
    }
}

} // verus!
