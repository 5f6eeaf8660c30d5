//! Per-tick orchestration. `player_control_system` applies the gravity-scale
//! policy and the vertical safety clamp, gates on a running attack, sets the
//! moving tag when a horizontal intent arrived and folds the tick's intents
//! through the resolver. `tick` runs
//! the whole stage order of one simulation step: grounded detection, the
//! head-bump probe, the control system, then the dampening stage.

use vstd::prelude::*;

use crate::clip;
use crate::config::{MovementConfig, DT_LIMIT, VEL_LIMIT};
use crate::dampening::{dampening_step, movement_dampening_system, DAMP_VEL_LIMIT};
use crate::grounded::{
    any_floor_contact, apply_ceiling_probe, ceiling_probe_step, grounded_step, grounded_system,
    ShapeHit,
};
use crate::resolver::{
    apply_attack_hits, apply_horizontal, apply_jump, apply_jump_abort, attack_begin_step,
    attack_hits_step, attack_ready, horizontal_step, jump_abort_step, jump_step,
    try_begin_attack,
};
use crate::state::{AnimationHint, MovementAction, Player, PlayerActionTracker};

verus! {

/// Most intents one tick accepts; keeps the folded velocity arithmetic in
/// range. Real input mappers produce a handful per tick.
pub const INTENTS_LIMIT: usize = 1000;

/// What the control system asks of its collaborators this tick.
#[derive(Clone, Copy, PartialEq, Eq, Structural, Debug)]
pub struct ControlEffects {
    /// An attack began: the attack ray was due and its report was consumed.
    pub cast_attack_ray: bool,
    /// An attack struck a wall: fire the impact effect.
    pub attack_shake: bool,
}

/// Effects of a whole tick, for the camera collaborator.
#[derive(Clone, Copy, PartialEq, Eq, Structural, Debug)]
pub struct TickEffects {
    /// The player slammed into the floor.
    pub landing_shake: bool,
    /// An attack struck a wall.
    pub attack_shake: bool,
}

/// Gravity-scale policy, applied before the intents every tick: normal
/// gravity on the ground, the elevated fall multiplier in the air.
pub open spec fn gravity_policy_step(p: Player, cfg: MovementConfig) -> Player {
    Player { gravity_scale: if p.grounded { 1 } else { cfg.fall_gravity }, ..p }
}

/// Vertical velocity safety clamp, applied before the intents every tick.
pub open spec fn clamp_vy_step(p: Player, cfg: MovementConfig) -> Player {
    Player { vy: clip(p.vy as int, -cfg.max_y_speed as int, cfg.max_y_speed as int) as i64, ..p }
}

/// A running attack clears itself once its duration has elapsed.
pub open spec fn attack_expire_step(p: Player, now: u64, cfg: MovementConfig) -> Player {
    if p.actions.attack_started_at matches Some(t) && now - t >= cfg.attack_duration_ms {
        Player {
            actions: PlayerActionTracker { attack_started_at: None, ..p.actions },
            animation: AnimationHint::Idle,
            ..p
        }
    } else {
        p
    }
}

/// Whether one intent makes the controller begin an attack (and hence ask
/// for the attack ray).
pub open spec fn intent_casts(p: Player, a: MovementAction, now: u64, cfg: MovementConfig) -> bool {
    a is Attack && attack_ready(p, now, cfg)
}

/// Transition of one intent. `attack_hits` is the hit count the attack ray
/// reports if — and only if — an attack begins on this intent.
pub open spec fn intent_step(
    p: Player,
    a: MovementAction,
    now: u64,
    dt: u64,
    attack_hits: u64,
    cfg: MovementConfig,
) -> Player {
    match a {
        MovementAction::Horizontal(d) => horizontal_step(p, d, dt, cfg),
        MovementAction::Jump => jump_step(p, now, cfg),
        MovementAction::JumpAbort => jump_abort_step(p, now, cfg),
        MovementAction::Attack => if attack_ready(p, now, cfg) {
            attack_hits_step(attack_begin_step(p, now), attack_hits, cfg)
        } else {
            p
        },
    }
}

/// The tick's intents folded through `intent_step`, in order.
pub open spec fn intents_fold(
    p: Player,
    s: Seq<MovementAction>,
    now: u64,
    dt: u64,
    attack_hits: u64,
    cfg: MovementConfig,
) -> Player
    decreases s.len(),
{
    if s.len() == 0 {
        p
    } else {
        intent_step(
            intents_fold(p, s.drop_last(), now, dt, attack_hits, cfg),
            s.last(),
            now,
            dt,
            attack_hits,
            cfg,
        )
    }
}

/// Whether some intent of the fold begins an attack.
pub open spec fn fold_casts(
    p: Player,
    s: Seq<MovementAction>,
    now: u64,
    dt: u64,
    attack_hits: u64,
    cfg: MovementConfig,
) -> bool
    decreases s.len(),
{
    if s.len() == 0 {
        false
    } else {
        ||| fold_casts(p, s.drop_last(), now, dt, attack_hits, cfg)
        ||| intent_casts(
            intents_fold(p, s.drop_last(), now, dt, attack_hits, cfg),
            s.last(),
            now,
            cfg,
        )
    }
}

/// Whether some attack of the fold strikes a wall (more than one ray hit).
pub open spec fn fold_shakes(
    p: Player,
    s: Seq<MovementAction>,
    now: u64,
    dt: u64,
    attack_hits: u64,
    cfg: MovementConfig,
) -> bool
    decreases s.len(),
{
    if s.len() == 0 {
        false
    } else {
        ||| fold_shakes(p, s.drop_last(), now, dt, attack_hits, cfg)
        ||| (intent_casts(
            intents_fold(p, s.drop_last(), now, dt, attack_hits, cfg),
            s.last(),
            now,
            cfg,
        ) && attack_hits > 1)
    }
}

/// Some intent of the tick is a horizontal one.
pub open spec fn has_horizontal(s: Seq<MovementAction>) -> bool {
    exists|i: int| 0 <= i < s.len() && (#[trigger] s[i]) is Horizontal
}

/// The state the intents are folded from: gravity policy and vertical clamp
/// applied, the moving tag set to whether a horizontal intent arrived this
/// tick and cleared otherwise.
pub open spec fn control_prelude(
    p: Player,
    s: Seq<MovementAction>,
    cfg: MovementConfig,
) -> Player {
    Player { moving: has_horizontal(s), ..clamp_vy_step(gravity_policy_step(p, cfg), cfg) }
}

/// Transition of the control system for one tick. While an attack animation
/// runs, intents are skipped (the attack may expire); otherwise the intents
/// are folded in order.
pub open spec fn control_step(
    p: Player,
    s: Seq<MovementAction>,
    now: u64,
    dt: u64,
    attack_hits: u64,
    cfg: MovementConfig,
) -> Player {
    let pc = clamp_vy_step(gravity_policy_step(p, cfg), cfg);
    if pc.is_attacking() {
        attack_expire_step(pc, now, cfg)
    } else {
        intents_fold(control_prelude(p, s, cfg), s, now, dt, attack_hits, cfg)
    }
}

/// Whether the control system begins an attack this tick.
pub open spec fn control_casts(
    p: Player,
    s: Seq<MovementAction>,
    now: u64,
    dt: u64,
    attack_hits: u64,
    cfg: MovementConfig,
) -> bool {
    !p.is_attacking() && fold_casts(control_prelude(p, s, cfg), s, now, dt, attack_hits, cfg)
}

/// Whether the control system's attack strikes a wall this tick.
pub open spec fn control_shakes(
    p: Player,
    s: Seq<MovementAction>,
    now: u64,
    dt: u64,
    attack_hits: u64,
    cfg: MovementConfig,
) -> bool {
    !p.is_attacking() && fold_shakes(control_prelude(p, s, cfg), s, now, dt, attack_hits, cfg)
}

/// Consumes the tick's intent stream: applies the gravity policy and the
/// vertical safety clamp, skips intents while an attack animation runs, and
/// otherwise resolves each intent in order.
///
/// `attack_hits` is the report of the attack ray for this tick; it is
/// consulted only if an attack begins, which `cast_attack_ray` then says.
/// Supplying the count up front is sound as long as the facing the host cast
/// along is the facing at the attack intent — which holds whenever the tick
/// carries at most one input source's intents, since each source orders its
/// horizontal intent before its attack. A host merging several sources,
/// where a later horizontal intent could flip the facing first, should drive
/// the resolver itself through `try_begin_attack` and `apply_attack_hits`
/// and cast the ray at that moment.
pub fn player_control_system(
    p: &mut Player,
    intents: &Vec<MovementAction>,
    now: u64,
    dt: u64,
    attack_hits: u64,
    cfg: &MovementConfig,
) -> (fx: ControlEffects)
    requires
        cfg.wf(),
        old(p).wf(now),
        dt <= DT_LIMIT,
        intents@.len() <= INTENTS_LIMIT,
        forall|i: int| 0 <= i < intents@.len() ==> (#[trigger] intents@[i]).wf(),
        old(p).jump.used + intents@.len() <= u32::MAX,
    ensures
        *final(p) == control_step(*old(p), intents@, now, dt, attack_hits, *cfg),
        fx.cast_attack_ray == control_casts(*old(p), intents@, now, dt, attack_hits, *cfg),
        fx.attack_shake == control_shakes(*old(p), intents@, now, dt, attack_hits, *cfg),
        final(p).times_le(now),
        final(p).dampening == old(p).dampening,
        -DAMP_VEL_LIMIT <= final(p).vx <= DAMP_VEL_LIMIT,
{
    if p.grounded {
        p.gravity_scale = 1;
    } else {
        p.gravity_scale = cfg.fall_gravity;
    }
    if p.vy < -cfg.max_y_speed {
        p.vy = -cfg.max_y_speed;
    } else if p.vy > cfg.max_y_speed {
        p.vy = cfg.max_y_speed;
    }
    assert(*p == clamp_vy_step(gravity_policy_step(*old(p), *cfg), *cfg));

    let fx = ControlEffects { cast_attack_ray: false, attack_shake: false };
    match p.actions.attack_started_at {
        Some(started) => {
            if now - started >= cfg.attack_duration_ms {
                p.actions.attack_started_at = None;
                p.animation = AnimationHint::Idle;
            }
            return fx;
        },
        None => {},
    }

    let mut any_horizontal = false;
    let mut k: usize = 0;
    while k < intents.len()
        invariant
            0 <= k <= intents@.len(),
            any_horizontal == exists|j: int| 0 <= j < k && (#[trigger] intents@[j]) is Horizontal,
        decreases intents@.len() - k,
    {
        match intents[k] {
            MovementAction::Horizontal(_) => {
                assert(intents@[k as int] is Horizontal);
                any_horizontal = true;
            },
            _ => {},
        }
        k = k + 1;
    }
    p.moving = any_horizontal;
    let ghost start = *p;
    assert(start == control_prelude(*old(p), intents@, *cfg));

    let mut fx = fx;
    let mut i: usize = 0;
    while i < intents.len()
        invariant
            cfg.wf(),
            dt <= DT_LIMIT,
            0 <= i <= intents@.len(),
            intents@.len() <= INTENTS_LIMIT,
            forall|j: int| 0 <= j < intents@.len() ==> (#[trigger] intents@[j]).wf(),
            start.jump.used + intents@.len() <= u32::MAX,
            *p == intents_fold(start, intents@.take(i as int), now, dt, attack_hits, *cfg),
            fx.cast_attack_ray == fold_casts(
                start,
                intents@.take(i as int),
                now,
                dt,
                attack_hits,
                *cfg,
            ),
            fx.attack_shake == fold_shakes(
                start,
                intents@.take(i as int),
                now,
                dt,
                attack_hits,
                *cfg,
            ),
            p.times_le(now),
            p.dampening == start.dampening,
            p.jump.used <= start.jump.used + i,
            -VEL_LIMIT - cfg.kickback_x <= p.vx <= VEL_LIMIT + cfg.kickback_x,
            (p.actions.last_attack_at matches Some(t) && t == now)
                || (-VEL_LIMIT <= p.vx <= VEL_LIMIT),
            -cfg.max_y_speed - i * 1_000_000_000 <= p.vy
                <= cfg.max_y_speed + i * 1_000_000_000,
        decreases intents@.len() - i,
    {
        let a = intents[i];
        match a {
            MovementAction::Horizontal(d) => {
                apply_horizontal(p, d, dt, cfg);
            },
            MovementAction::Jump => {
                apply_jump(p, now, cfg);
            },
            MovementAction::JumpAbort => {
                apply_jump_abort(p, now, cfg);
            },
            MovementAction::Attack => {
                let began = try_begin_attack(p, now, cfg);
                if began {
                    fx.cast_attack_ray = true;
                    let wall_hit = apply_attack_hits(p, attack_hits, cfg);
                    if wall_hit {
                        fx.attack_shake = true;
                    }
                }
            },
        }
        proof {
            assert(intents@.take(i + 1).drop_last() =~= intents@.take(i as int));
            assert(intents@.take(i + 1).last() == intents@[i as int]);
        }
        i = i + 1;
    }
    proof {
        assert(intents@.take(intents@.len() as int) =~= intents@);
    }
    fx
}

/// Landing impact this tick: floor contact while descending near the maximum
/// fall speed.
pub open spec fn tick_landing_shake(
    p: Player,
    hits: Seq<ShapeHit>,
    cfg: MovementConfig,
) -> bool {
    any_floor_contact(hits, cfg) && 3 * p.vy <= -2 * cfg.max_y_speed
}

/// The state the control system sees: grounded detection applied, then the
/// head-bump probe where the detector asked for it.
pub open spec fn detect_step(
    p: Player,
    hits: Seq<ShapeHit>,
    ceiling: Seq<u64>,
    now: u64,
    cfg: MovementConfig,
) -> Player {
    let pg = grounded_step(p, hits, now, cfg);
    if !any_floor_contact(hits, cfg) && p.vy > 0 {
        ceiling_probe_step(pg, ceiling, now, cfg)
    } else {
        pg
    }
}

/// Transition of one whole simulation tick, in stage order: grounded
/// detection, head-bump probe, control system, dampening stage.
pub open spec fn tick_step(
    p: Player,
    hits: Seq<ShapeHit>,
    ceiling: Seq<u64>,
    s: Seq<MovementAction>,
    now: u64,
    dt: u64,
    attack_hits: u64,
    cfg: MovementConfig,
) -> Player {
    dampening_step(
        control_step(detect_step(p, hits, ceiling, now, cfg), s, now, dt, attack_hits, cfg),
        dt,
    )
}

/// Runs one simulation tick on the player.
///
/// The physics collaborator supplies the downward shape-cast hits, the
/// distances of the upward head-bump ray (consulted only when the detector
/// asks) and the hit count of the attack ray (consulted only when an attack
/// begins); the input mapper supplies the tick's intents. On the attack ray's
/// pre-supplied hit count, see `player_control_system`: with intents merged
/// from several input sources, drive the stages and the per-intent resolver
/// calls one by one instead.
pub fn tick(
    p: &mut Player,
    hits: &Vec<ShapeHit>,
    ceiling: &Vec<u64>,
    intents: &Vec<MovementAction>,
    now: u64,
    dt: u64,
    attack_hits: u64,
    cfg: &MovementConfig,
) -> (fx: TickEffects)
    requires
        cfg.wf(),
        old(p).wf(now),
        dt <= DT_LIMIT,
        intents@.len() <= INTENTS_LIMIT,
        forall|i: int| 0 <= i < intents@.len() ==> (#[trigger] intents@[i]).wf(),
        old(p).jump.used + intents@.len() <= u32::MAX,
    ensures
        *final(p) == tick_step(
            *old(p),
            hits@,
            ceiling@,
            intents@,
            now,
            dt,
            attack_hits,
            *cfg,
        ),
        fx.landing_shake == tick_landing_shake(*old(p), hits@, *cfg),
        fx.attack_shake == control_shakes(
            detect_step(*old(p), hits@, ceiling@, now, *cfg),
            intents@,
            now,
            dt,
            attack_hits,
            *cfg,
        ),
        final(p).times_le(now),
{
    let out = grounded_system(p, hits, now, cfg);
    if out.probe_ceiling {
        apply_ceiling_probe(p, ceiling, now, cfg);
    }
    assert(*p == detect_step(*old(p), hits@, ceiling@, now, *cfg));
    assert(p.jump.used <= old(p).jump.used);
    let cfx = player_control_system(p, intents, now, dt, attack_hits, cfg);
    movement_dampening_system(p, dt);
    TickEffects { landing_shake: out.landing_shake, attack_shake: cfx.attack_shake }
}

} // verus!
