//! Laws of the controller: the guarantees that relate several transitions,
//! stated over the spec functions of the other modules and proved once and
//! for all. Each executable function is proved equal to its spec transition,
//! so these laws carry over to the running code.

use vstd::prelude::*;

use crate::config::{MovementConfig, DT_LIMIT};
use crate::dampening::dampening_step;
use crate::grounded::ShapeHit;
use crate::resolver::{
    accel_step, attack_ready, horizontal_step, jump_abort_step, jump_permitted, jump_step,
    reverses,
};
use crate::state::{Direction, MovementAction, Player};
use crate::tick::{
    clamp_vy_step, control_prelude, control_step, detect_step, gravity_policy_step,
    has_horizontal, intent_casts, intent_step, intents_fold, tick_step,
};

verus! {

/// A tick that ends grounded and without a movement intent stops the player
/// outright: the dampening stage zeroes the horizontal velocity.
pub proof fn lemma_grounded_idle_stops(
    p: Player,
    hits: Seq<ShapeHit>,
    ceiling: Seq<u64>,
    s: Seq<MovementAction>,
    now: u64,
    dt: u64,
    attack_hits: u64,
    cfg: MovementConfig,
)
    ensures
        ({
            let resolved = control_step(
                detect_step(p, hits, ceiling, now, cfg),
                s,
                now,
                dt,
                attack_hits,
                cfg,
            );
            resolved.grounded && !resolved.moving
                ==> tick_step(p, hits, ceiling, s, now, dt, attack_hits, cfg).vx == 0
        }),
{
}

/// A jump issued while grounded with no charge spent launches at the
/// configured speed, restores normal gravity, spends the single charge and
/// starts the jump-hold clock now.
pub proof fn lemma_grounded_jump(p: Player, now: u64, cfg: MovementConfig)
    requires
        p.grounded,
        p.jump.used == 0,
    ensures
        jump_step(p, now, cfg).vy == cfg.jump_speed,
        jump_step(p, now, cfg).gravity_scale == 1,
        jump_step(p, now, cfg).jump.used == 1,
        jump_step(p, now, cfg).jump.left_ground_at == Some(now),
{
}

/// A grounded jump resolved by a whole control tick: when the tick's intent
/// stream is a single jump press, issued while grounded with no charge spent
/// and no attack running, the control system launches the player at the
/// configured speed with normal gravity, one spent charge, the jump-hold
/// clock at now — and, lacking a horizontal intent, clears the moving tag.
/// The dampening stage that follows touches none of these fields.
pub proof fn lemma_grounded_jump_in_control(
    p: Player,
    now: u64,
    dt: u64,
    attack_hits: u64,
    cfg: MovementConfig,
)
    requires
        p.grounded,
        !p.is_attacking(),
        p.jump.used == 0,
    ensures
        ({
            let q = control_step(p, seq![MovementAction::Jump], now, dt, attack_hits, cfg);
            &&& q.vy == cfg.jump_speed
            &&& q.gravity_scale == 1
            &&& q.jump.used == 1
            &&& q.jump.left_ground_at == Some(now)
            &&& !q.moving
        }),
{
    let s: Seq<MovementAction> = seq![MovementAction::Jump];
    let start = control_prelude(p, s, cfg);
    assert(!has_horizontal(s));
    assert(s.drop_last().len() == 0);
    assert(intents_fold(start, s.drop_last(), now, dt, attack_hits, cfg) == start);
    assert(s.last() == MovementAction::Jump);
}

/// Coyote jump: a player who was grounded a moment ago, is airborne now and
/// has spent no charge still gets the launch, as long as the coyote window
/// has not passed.
pub proof fn lemma_coyote_jump(p: Player, left_at: u64, now: u64, cfg: MovementConfig)
    requires
        !p.grounded,
        p.jump.used == 0,
        p.jump.last_grounded_time == Some(left_at),
        now - left_at <= cfg.coyote_time_ms,
    ensures
        jump_step(p, now, cfg).vy == cfg.jump_speed,
        jump_step(p, now, cfg).jump.used == 1,
{
}

/// Coyote jump denied: once the coyote window has passed (and no jump-hold
/// clock is running), the jump intent changes nothing.
pub proof fn lemma_coyote_jump_denied(p: Player, left_at: u64, now: u64, cfg: MovementConfig)
    requires
        !p.grounded,
        p.jump.used == 0,
        p.jump.last_grounded_time == Some(left_at),
        now - left_at > cfg.coyote_time_ms,
        p.jump.left_ground_at is None,
    ensures
        jump_step(p, now, cfg) == p,
{
}

/// A jump intent has an effect exactly when it is permitted: grounded, in
/// the coyote window with no charge spent, or in the jump-hold window. A
/// denied jump leaves the player untouched; a permitted one always spends a
/// charge.
pub proof fn lemma_jump_exactly_when_permitted(p: Player, now: u64, cfg: MovementConfig)
    requires
        p.jump.used < u32::MAX,
    ensures
        jump_permitted(p, now, cfg) <==> jump_step(p, now, cfg) != p,
{
    if jump_permitted(p, now, cfg) {
        assert(jump_step(p, now, cfg).jump.used != p.jump.used);
    }
}

/// A jump abort within the abort window switches to the elevated fall
/// gravity; outside the window it changes nothing at all.
pub proof fn lemma_jump_abort_window(p: Player, now: u64, cfg: MovementConfig)
    ensures
        (p.jump.left_ground_at matches Some(t) && now - t < cfg.jump_abort_ms)
            ==> jump_abort_step(p, now, cfg).gravity_scale == cfg.fall_gravity,
        !(p.jump.left_ground_at matches Some(t) && now - t < cfg.jump_abort_ms)
            ==> jump_abort_step(p, now, cfg) == p,
{
}

/// Reversing direction brakes harder than starting from rest: with rightward
/// velocity, one leftward intent changes the horizontal speed by strictly
/// more than one rightward intent changes it from a standstill, because of
/// the braking multiplier.
pub proof fn lemma_reversal_brakes_harder(p: Player, dt: u64, cfg: MovementConfig)
    requires
        cfg.wf(),
        dt <= DT_LIMIT,
        0 < p.vx <= cfg.max_speed,
        cfg.acceleration * dt >= 1000,
    ensures
        ({
            let braked = horizontal_step(p, Direction { x: -1i64, y: 0i64 }, dt, cfg);
            let from_rest = horizontal_step(
                Player { vx: 0, ..p },
                Direction { x: 1i64, y: 0i64 },
                dt,
                cfg,
            );
            p.vx - braked.vx > from_rest.vx - 0
        }),
{
    let m = cfg.acceleration * dt;
    let plain = m / 1000;
    let amplified = m * cfg.fall_gravity / 1000;
    assert(amplified >= 2 * plain && plain >= 1) by (nonlinear_arith)
        requires
            m >= 1000,
            cfg.fall_gravity >= 2,
            plain == m / 1000,
            amplified == m * cfg.fall_gravity / 1000,
    ;
}

/// Attack cooldown: an attack issued before the cooldown has passed is a
/// complete no-op — the state keeps, no attack clock is touched, and no
/// attack ray is cast.
pub proof fn lemma_attack_cooldown_noop(
    p: Player,
    last: u64,
    now: u64,
    dt: u64,
    attack_hits: u64,
    cfg: MovementConfig,
)
    requires
        p.actions.last_attack_at == Some(last),
        now - last < cfg.attack_cooldown_ms,
    ensures
        !attack_ready(p, now, cfg),
        !intent_casts(p, MovementAction::Attack, now, cfg),
        intent_step(p, MovementAction::Attack, now, dt, attack_hits, cfg) == p,
{
}

/// Folding intents keeps the vertical speed within the clamp, provided no
/// intent pushes vertically: horizontal intents stay horizontal and no
/// attack lands a knockback (at most one ray hit).
proof fn lemma_fold_vy_bounded(
    p: Player,
    s: Seq<MovementAction>,
    now: u64,
    dt: u64,
    attack_hits: u64,
    cfg: MovementConfig,
)
    requires
        cfg.wf(),
        -cfg.max_y_speed <= p.vy <= cfg.max_y_speed,
        forall|i: int| 0 <= i < s.len()
            ==> ((#[trigger] s[i]) matches MovementAction::Horizontal(d) ==> d.y == 0),
        attack_hits <= 1,
    ensures
        -cfg.max_y_speed <= intents_fold(p, s, now, dt, attack_hits, cfg).vy
            <= cfg.max_y_speed,
    decreases s.len(),
{
    if s.len() > 0 {
        lemma_fold_vy_bounded(p, s.drop_last(), now, dt, attack_hits, cfg);
        let q = intents_fold(p, s.drop_last(), now, dt, attack_hits, cfg);
        assert(s[s.len() - 1] == s.last());
        match s.last() {
            MovementAction::Horizontal(d) => {
                assert(d.y * accel_step(reverses(q.vx, d), dt, cfg) == 0);
            },
            _ => {},
        }
    }
}

/// The vertical speed never exceeds the configured clamp after a tick, for
/// an arbitrary incoming state and an arbitrary sequence of intents — as
/// long as no intent pushes vertically: every horizontal intent has a zero
/// vertical component, and no attack lands a knockback this tick.
pub proof fn lemma_tick_vy_clamped(
    p: Player,
    hits: Seq<ShapeHit>,
    ceiling: Seq<u64>,
    s: Seq<MovementAction>,
    now: u64,
    dt: u64,
    attack_hits: u64,
    cfg: MovementConfig,
)
    requires
        cfg.wf(),
        forall|i: int| 0 <= i < s.len()
            ==> ((#[trigger] s[i]) matches MovementAction::Horizontal(d) ==> d.y == 0),
        attack_hits <= 1,
    ensures
        -cfg.max_y_speed <= tick_step(p, hits, ceiling, s, now, dt, attack_hits, cfg).vy
            <= cfg.max_y_speed,
{
    let detected = detect_step(p, hits, ceiling, now, cfg);
    let resolved = control_step(detected, s, now, dt, attack_hits, cfg);
    let clamped = clamp_vy_step(gravity_policy_step(detected, cfg), cfg);
    assert(-cfg.max_y_speed <= clamped.vy <= cfg.max_y_speed);
    if !clamped.is_attacking() {
        lemma_fold_vy_bounded(control_prelude(detected, s, cfg), s, now, dt, attack_hits, cfg);
    }
    assert(dampening_step(resolved, dt).vy == resolved.vy);
}

} // verus!
