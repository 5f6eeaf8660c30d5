//! The movement resolver: per-intent transition rules for horizontal
//! acceleration, jumping (grounded, coyote and jump-hold), jump abort and the
//! cooldown-gated attack. Each rule exists twice: as a spec function giving
//! the mathematical transition, and as an executable function proved to
//! implement it exactly.

use vstd::prelude::*;

use crate::clip;
use crate::config::{MovementConfig, DT_LIMIT, PERMILLE};
use crate::state::{
    AnimationHint, Direction, Facing, JumpState, Player, PlayerActionTracker,
};

verus! {

/// Velocity bound under which the per-intent arithmetic cannot overflow,
/// even after a long run of intents in one tick.
pub const VEL_FOLD_LIMIT: i64 = 4_000_000_000_000;

/// A velocity step from one horizontal intent never exceeds this
/// (acceleration, tick duration and braking factor are all bounded).
pub const STEP_LIMIT: i64 = 1_000_000_000;

/// The player left the ground recently enough that a jump is still accepted
/// as if grounded. An unrecorded grounding time counts as infinitely long
/// ago.
pub open spec fn coyote_ok(p: Player, now: u64, cfg: MovementConfig) -> bool {
    p.jump.last_grounded_time matches Some(t) && now - t <= cfg.coyote_time_ms
}

/// The jump-hold extension window is still open: holding the jump input
/// re-launches while it lasts.
pub open spec fn hold_ok(p: Player, now: u64, cfg: MovementConfig) -> bool {
    p.jump.left_ground_at matches Some(t) && now - t < cfg.jump_hold_ms
}

/// A jump intent is honoured when grounded, within the coyote window with no
/// charge spent, or within the jump-hold window.
pub open spec fn jump_permitted(p: Player, now: u64, cfg: MovementConfig) -> bool {
    ||| p.grounded
    ||| (coyote_ok(p, now, cfg) && p.jump.used == 0)
    ||| hold_ok(p, now, cfg)
}

/// The attack cooldown has passed. An unrecorded last attack counts as
/// infinitely long ago.
pub open spec fn attack_ready(p: Player, now: u64, cfg: MovementConfig) -> bool {
    match p.actions.last_attack_at {
        Some(t) => now - t >= cfg.attack_cooldown_ms,
        None => true,
    }
}

/// The velocity change of one horizontal intent: acceleration times tick
/// duration, amplified by the braking multiplier on a direction reversal,
/// in thousandths (the tick duration is in milliseconds).
pub open spec fn accel_step(reverse: bool, dt: u64, cfg: MovementConfig) -> int {
    cfg.acceleration * dt * (if reverse { cfg.fall_gravity } else { 1 }) / (PERMILLE as int)
}

/// The intent direction strictly opposes the current horizontal motion.
pub open spec fn reverses(vx: i64, d: Direction) -> bool {
    (vx > 0 && d.x < 0) || (vx < 0 && d.x > 0)
}

/// Transition of a horizontal intent: accelerate in the given direction
/// (with the reversal penalty), clamp the horizontal speed, face the
/// direction moved in, and show the run animation when grounded.
pub open spec fn horizontal_step(p: Player, d: Direction, dt: u64, cfg: MovementConfig) -> Player {
    let step = accel_step(reverses(p.vx, d), dt, cfg);
    Player {
        vx: clip(p.vx + d.x * step, -cfg.max_speed as int, cfg.max_speed as int) as i64,
        vy: (p.vy + d.y * step) as i64,
        facing: if d.x < 0 { Facing::Left } else { Facing::Right },
        animation: if p.grounded { AnimationHint::Run } else { p.animation },
        ..p
    }
}

/// Transition of a jump intent. A permitted jump launches at the configured
/// speed, restores normal gravity and spends a charge; leaving the ground
/// (grounded or coyote jump) also starts the jump-hold clock. A denied jump
/// changes nothing.
pub open spec fn jump_step(p: Player, now: u64, cfg: MovementConfig) -> Player {
    if p.grounded || (coyote_ok(p, now, cfg) && p.jump.used == 0) {
        Player {
            vy: cfg.jump_speed,
            gravity_scale: 1,
            jump: JumpState {
                used: (p.jump.used + 1) as u32,
                left_ground_at: Some(now),
                ..p.jump
            },
            ..p
        }
    } else if hold_ok(p, now, cfg) {
        Player {
            vy: cfg.jump_speed,
            gravity_scale: 1,
            jump: JumpState { used: (p.jump.used + 1) as u32, ..p.jump },
            ..p
        }
    } else {
        p
    }
}

/// Transition of a jump abort: within the abort window the gravity scale
/// switches to the fall multiplier, cutting the jump short; outside it,
/// nothing changes.
pub open spec fn jump_abort_step(p: Player, now: u64, cfg: MovementConfig) -> Player {
    if p.jump.left_ground_at matches Some(t) && now - t < cfg.jump_abort_ms {
        Player { gravity_scale: cfg.fall_gravity, ..p }
    } else {
        p
    }
}

/// Transition of a ready attack's start: both attack clocks are set and the
/// attack animation begins. The attack ray is cast by the physics
/// collaborator afterwards.
pub open spec fn attack_begin_step(p: Player, now: u64) -> Player {
    Player {
        actions: PlayerActionTracker {
            attack_started_at: Some(now),
            last_attack_at: Some(now),
        },
        animation: AnimationHint::Attack,
        ..p
    }
}

/// Transition on the attack ray's report: more than one hit means something
/// solid beyond the caster itself was struck, and a fixed knockback impulse
/// pushes against the facing direction and upward.
pub open spec fn attack_hits_step(p: Player, hit_count: u64, cfg: MovementConfig) -> Player {
    if hit_count > 1 {
        Player {
            vx: (p.vx - p.facing.sign() * cfg.kickback_x) as i64,
            vy: (p.vy + cfg.kickback_y) as i64,
            ..p
        }
    } else {
        p
    }
}

/// Accelerates in the given direction, with the braking penalty on a
/// direction reversal, clamps the horizontal speed and turns the player.
pub fn apply_horizontal(p: &mut Player, d: Direction, dt: u64, cfg: &MovementConfig)
    requires
        cfg.wf(),
        d.wf(),
        dt <= DT_LIMIT,
        -VEL_FOLD_LIMIT <= old(p).vx <= VEL_FOLD_LIMIT,
        -VEL_FOLD_LIMIT <= old(p).vy <= VEL_FOLD_LIMIT,
    ensures
        *final(p) == horizontal_step(*old(p), d, dt, *cfg),
        -cfg.max_speed <= final(p).vx <= cfg.max_speed,
        old(p).vy - STEP_LIMIT <= final(p).vy <= old(p).vy + STEP_LIMIT,
{
    let reverse = (p.vx > 0 && d.x < 0) || (p.vx < 0 && d.x > 0);
    let factor: u64 = if reverse {
        cfg.fall_gravity as u64
    } else {
        1
    };
    let accel: u64 = cfg.acceleration as u64;
    assert(accel * dt <= 1_000_000_000 && accel * dt * factor <= 1_000_000_000_000)
        by (nonlinear_arith)
        requires
            accel <= 1_000_000,
            dt <= 1_000,
            factor <= 1_000,
    ;
    let step = (accel * dt * factor / (PERMILLE as u64)) as i64;
    assert(step == accel_step(reverse, dt, *cfg));
    assert(0 <= step <= STEP_LIMIT);

    assert(-step <= d.x * step <= step) by (nonlinear_arith)
        requires
            -1 <= d.x <= 1,
            step >= 0,
    ;
    let dvx = d.x * step;
    let nx = p.vx + dvx;
    p.vx = if nx < -cfg.max_speed {
        -cfg.max_speed
    } else if nx > cfg.max_speed {
        cfg.max_speed
    } else {
        nx
    };
    assert(-step <= d.y * step <= step) by (nonlinear_arith)
        requires
            -1 <= d.y <= 1,
            step >= 0,
    ;
    let dvy = d.y * step;
    p.vy = p.vy + dvy;
    p.facing = if d.x < 0 {
        Facing::Left
    } else {
        Facing::Right
    };
    if p.grounded {
        p.animation = AnimationHint::Run;
    }
}

/// Honours or denies a jump intent as `jump_step` prescribes.
pub fn apply_jump(p: &mut Player, now: u64, cfg: &MovementConfig)
    requires
        cfg.wf(),
        old(p).times_le(now),
        old(p).jump.used < u32::MAX,
    ensures
        *final(p) == jump_step(*old(p), now, *cfg),
{
    let coyote = match p.jump.last_grounded_time {
        Some(t) => now - t <= cfg.coyote_time_ms,
        None => false,
    };
    if p.grounded || (coyote && p.jump.used == 0) {
        p.vy = cfg.jump_speed;
        p.gravity_scale = 1;
        p.jump.used = p.jump.used + 1;
        p.jump.left_ground_at = Some(now);
    } else {
        let hold = match p.jump.left_ground_at {
            Some(t) => now - t < cfg.jump_hold_ms,
            None => false,
        };
        if hold {
            p.vy = cfg.jump_speed;
            p.gravity_scale = 1;
            p.jump.used = p.jump.used + 1;
        }
    }
}

/// Cuts a running jump short within the abort window by switching to fall
/// gravity.
pub fn apply_jump_abort(p: &mut Player, now: u64, cfg: &MovementConfig)
    requires
        cfg.wf(),
        old(p).times_le(now),
    ensures
        *final(p) == jump_abort_step(*old(p), now, *cfg),
{
    let abort = match p.jump.left_ground_at {
        Some(t) => now - t < cfg.jump_abort_ms,
        None => false,
    };
    if abort {
        p.gravity_scale = cfg.fall_gravity;
    }
}

/// Starts an attack if the cooldown has passed. Returns whether the attack
/// began; exactly then the caller must cast the attack ray in the facing
/// direction and hand the hit count to `apply_attack_hits`. On cooldown the
/// intent is a no-op and no ray is cast.
pub fn try_begin_attack(p: &mut Player, now: u64, cfg: &MovementConfig) -> (began: bool)
    requires
        cfg.wf(),
        old(p).times_le(now),
    ensures
        began == attack_ready(*old(p), now, *cfg),
        began ==> *final(p) == attack_begin_step(*old(p), now),
        !began ==> *final(p) == *old(p),
{
    let ready = match p.actions.last_attack_at {
        Some(t) => now - t >= cfg.attack_cooldown_ms,
        None => true,
    };
    if ready {
        p.actions.last_attack_at = Some(now);
        p.actions.attack_started_at = Some(now);
        p.animation = AnimationHint::Attack;
    }
    ready
}

/// Applies the attack ray's report: a wall hit (more than one hit) knocks
/// the player back against its facing direction. Returns whether the impact
/// effect (camera shake) should fire.
pub fn apply_attack_hits(p: &mut Player, hit_count: u64, cfg: &MovementConfig) -> (shake: bool)
    requires
        cfg.wf(),
        -VEL_FOLD_LIMIT <= old(p).vx <= VEL_FOLD_LIMIT,
        -VEL_FOLD_LIMIT <= old(p).vy <= VEL_FOLD_LIMIT,
    ensures
        *final(p) == attack_hits_step(*old(p), hit_count, *cfg),
        shake == (hit_count > 1),
        old(p).vx - cfg.kickback_x <= final(p).vx <= old(p).vx + cfg.kickback_x,
        old(p).vy <= final(p).vy <= old(p).vy + cfg.kickback_y,
{
    if hit_count > 1 {
        match p.facing {
            Facing::Left => {
                p.vx = p.vx + cfg.kickback_x;
            },
            Facing::Right => {
                p.vx = p.vx - cfg.kickback_x;
            },
        }
        p.vy = p.vy + cfg.kickback_y;
        true
    } else {
        false
    }
}

} // verus!
