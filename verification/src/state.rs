//! Per-entity state of the controlled player and the movement intents it
//! consumes. The grounded, moving and attacking tags are explicit fields
//! rather than dynamically attached markers, since the state space is small
//! and fixed.

use vstd::prelude::*;

use crate::config::{MovementConfig, VEL_LIMIT};

verus! {

/// A direction handed in with a horizontal intent. Components are -1, 0 or 1.
#[derive(Clone, Copy, PartialEq, Eq, Structural, Debug)]
pub struct Direction {
    pub x: i64,
    pub y: i64,
}

impl Direction {
    /// A unit-ish input direction: each component is a sign.
    pub open spec fn wf(self) -> bool {
        &&& -1 <= self.x <= 1
        &&& -1 <= self.y <= 1
    }
}

/// An abstract movement intent for one tick, as the input mapper produces it.
#[derive(Clone, Copy, PartialEq, Eq, Structural, Debug)]
pub enum MovementAction {
    /// Accelerate in the given direction.
    Horizontal(Direction),
    /// Press of the jump input.
    Jump,
    /// Release of the jump input.
    JumpAbort,
    /// Press of the attack input.
    Attack,
}

impl MovementAction {
    /// Any direction carried by the intent is unit-ish.
    pub open spec fn wf(self) -> bool {
        match self {
            MovementAction::Horizontal(d) => d.wf(),
            _ => true,
        }
    }
}

/// Which way the player sprite faces; attacks are cast this way.
#[derive(Clone, Copy, PartialEq, Eq, Structural, Debug)]
pub enum Facing {
    Left,
    Right,
}

impl Facing {
    /// The sign of the facing direction on the x axis.
    pub open spec fn sign(self) -> int {
        match self {
            Facing::Left => -1,
            Facing::Right => 1,
        }
    }
}

/// Animation-state hint the controller emits for the renderer.
#[derive(Clone, Copy, PartialEq, Eq, Structural, Debug)]
pub enum AnimationHint {
    Idle,
    Run,
    Airborne,
    Attack,
}

/// Jump bookkeeping: charges spent since the last landing and the clocks the
/// coyote and jump-hold windows are measured against.
#[derive(Clone, Copy, PartialEq, Eq, Structural, Debug)]
pub struct JumpState {
    /// Jump charges used since the player last landed.
    pub used: u32,
    /// When the player last left the ground by jumping (or bumped a ceiling);
    /// `None` until the first jump.
    pub left_ground_at: Option<u64>,
    /// When the player last stood on the ground; `None` before the first
    /// contact, treated as infinitely long ago.
    pub last_grounded_time: Option<u64>,
}

/// Attack bookkeeping: the running attack, if any, and the cooldown clock.
#[derive(Clone, Copy, PartialEq, Eq, Structural, Debug)]
pub struct PlayerActionTracker {
    /// When the running attack started; `Some` exactly while attacking.
    pub attack_started_at: Option<u64>,
    /// When the last attack started; `None` before the first attack, treated
    /// as infinitely long ago.
    pub last_attack_at: Option<u64>,
}

/// How strongly horizontal velocity decays without input, in arbitrary
/// dampening units (the canonical rule set uses 15).
#[derive(Clone, Copy, PartialEq, Eq, Structural, Debug)]
pub struct MovementDampeningFactor(pub u32);

/// The controlled player entity: velocity, gravity scale, the tag states and
/// the jump and attack bookkeeping. Mutated in place once per tick.
#[derive(Clone, Copy, PartialEq, Eq, Structural, Debug)]
pub struct Player {
    /// Horizontal velocity in pixels per second; positive is rightward.
    pub vx: i64,
    /// Vertical velocity in pixels per second; positive is upward.
    pub vy: i64,
    /// Multiplier on ambient gravity, handed to the physics integrator.
    pub gravity_scale: i64,
    /// Whether the player stands on a walkable floor this tick.
    pub grounded: bool,
    /// Whether a horizontal intent was received this tick; cleared otherwise.
    pub moving: bool,
    pub facing: Facing,
    pub animation: AnimationHint,
    pub jump: JumpState,
    pub actions: PlayerActionTracker,
    pub dampening: MovementDampeningFactor,
}

impl Player {
    /// The player is attacking while an attack start time is recorded.
    pub open spec fn is_attacking(self) -> bool {
        self.actions.attack_started_at is Some
    }

    /// Velocities are small enough for the tick's fixed-point arithmetic.
    pub open spec fn vel_wf(self) -> bool {
        &&& -VEL_LIMIT <= self.vx <= VEL_LIMIT
        &&& -VEL_LIMIT <= self.vy <= VEL_LIMIT
    }

    /// Every recorded timestamp lies at or before the given clock reading.
    /// The simulation clock is monotone, so each tick may assume this.
    pub open spec fn times_le(self, now: u64) -> bool {
        &&& (self.jump.left_ground_at matches Some(t) ==> t <= now)
        &&& (self.jump.last_grounded_time matches Some(t) ==> t <= now)
        &&& (self.actions.attack_started_at matches Some(t) ==> t <= now)
        &&& (self.actions.last_attack_at matches Some(t) ==> t <= now)
    }

    /// The dampening factor stays in the range the decay arithmetic needs.
    pub open spec fn dampening_wf(self) -> bool {
        self.dampening.0 <= 10_000
    }

    /// Everything a tick requires of the incoming state.
    pub open spec fn wf(self, now: u64) -> bool {
        &&& self.vel_wf()
        &&& self.times_le(now)
        &&& self.dampening_wf()
    }

    /// A freshly spawned player: at rest, airborne, facing right, no charges
    /// spent, no contact or attack recorded, and the canonical dampening
    /// factor.
    pub fn spawn() -> (p: Player)
        ensures
            p.vx == 0 && p.vy == 0,
            p.gravity_scale == 1,
            !p.grounded && !p.moving && !p.is_attacking(),
            p.facing == Facing::Right,
            p.animation == AnimationHint::Idle,
            p.jump.used == 0,
            p.jump.left_ground_at is None,
            p.jump.last_grounded_time is None,
            p.actions.last_attack_at is None,
            p.dampening.0 == 15,
            forall|now: u64| p.wf(now),
    {
        Player {
            vx: 0,
            vy: 0,
            gravity_scale: 1,
            grounded: false,
            moving: false,
            facing: Facing::Right,
            animation: AnimationHint::Idle,
            jump: JumpState { used: 0, left_ground_at: None, last_grounded_time: None },
            actions: PlayerActionTracker { attack_started_at: None, last_attack_at: None },
            dampening: MovementDampeningFactor(15),
        }
    }
}

} // verus!
