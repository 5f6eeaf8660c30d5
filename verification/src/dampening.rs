//! The dampening stage, run last in every tick: a grounded player without
//! horizontal input this tick stops outright; otherwise horizontal velocity
//! decays by a factor proportional to the dampening factor and the tick
//! duration. This
//! is the only place horizontal velocity decays without active input.

use vstd::prelude::*;

use crate::config::DT_LIMIT;
use crate::mag;
use crate::state::Player;

verus! {

/// Largest horizontal speed the decay arithmetic accepts.
pub const DAMP_VEL_LIMIT: i64 = 9_000_000_000_000;

/// Decay rate in parts per million per tick: the dampening factor times the
/// decay coefficient (150 per mille per second) times the tick duration in
/// milliseconds.
pub open spec fn decay_ppm(factor: u32, dt: u64) -> int {
    factor * 150 * dt
}

/// The fraction of horizontal velocity that survives the tick, in parts per
/// million. A decay rate of a million or more stops the player outright.
pub open spec fn keep_ppm(factor: u32, dt: u64) -> int {
    if decay_ppm(factor, dt) >= 1_000_000 {
        0
    } else {
        1_000_000 - decay_ppm(factor, dt)
    }
}

/// Transition of the dampening stage. Grounded and idle means an instant
/// stop; otherwise the magnitude of the horizontal velocity shrinks to the
/// surviving fraction, rounded toward zero, keeping its sign.
pub open spec fn dampening_step(p: Player, dt: u64) -> Player {
    if p.grounded && !p.moving {
        Player { vx: 0, ..p }
    } else {
        let kept = mag(p.vx) * keep_ppm(p.dampening.0, dt) / 1_000_000;
        Player { vx: (if p.vx < 0 { -kept } else { kept }) as i64, ..p }
    }
}

/// Applies the dampening stage. Only the horizontal velocity changes, and
/// its magnitude never grows.
pub fn movement_dampening_system(p: &mut Player, dt: u64)
    requires
        dt <= DT_LIMIT,
        old(p).dampening_wf(),
        -DAMP_VEL_LIMIT <= old(p).vx <= DAMP_VEL_LIMIT,
    ensures
        *final(p) == dampening_step(*old(p), dt),
        mag(final(p).vx) <= mag(old(p).vx),
{
    if p.grounded && !p.moving {
        p.vx = 0;
    } else {
        let scaled_factor: u64 = (p.dampening.0 as u64) * 150;
        assert(scaled_factor * dt <= 1_500_000_000) by (nonlinear_arith)
            requires
                scaled_factor <= 1_500_000,
                dt <= 1_000,
        ;
        let rate: u64 = scaled_factor * dt;
        assert(rate == decay_ppm(p.dampening.0, dt));
        let keep: u64 = if rate >= 1_000_000 {
            0
        } else {
            1_000_000 - rate
        };
        let magnitude: u64 = if p.vx < 0 {
            (-p.vx) as u64
        } else {
            p.vx as u64
        };
        assert(magnitude * keep <= 9_000_000_000_000_000_000
            && magnitude * keep / 1_000_000 <= magnitude) by (nonlinear_arith)
            requires
                magnitude <= 9_000_000_000_000,
                keep <= 1_000_000,
        ;
        let kept = magnitude * keep / 1_000_000;
        p.vx = if p.vx < 0 {
            -(kept as i64)
        } else {
            kept as i64
        };
    }
}

} // verus!
