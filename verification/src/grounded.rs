//! Grounded detection. Once per tick the physics collaborator shape-casts
//! downward from the player and hands in the hit records; the detector
//! decides floor contact, maintains the grounded tag and the coyote clock,
//! and asks for a head-bump probe or an impact effect where needed.

use vstd::prelude::*;

use crate::config::MovementConfig;
use crate::state::{AnimationHint, JumpState, Player};

verus! {

/// One shape-cast hit record, as the physics collaborator reports it.
/// The contact point is relative to the caster's origin; normal components
/// are in thousandths of a unit vector.
#[derive(Clone, Copy, PartialEq, Eq, Structural, Debug)]
pub struct ShapeHit {
    /// Vertical offset of the contact point from the caster's origin.
    pub point_y: i64,
    /// Distance travelled by the cast shape before hitting.
    pub distance: u64,
    /// Vertical component of the surface normal on the cast shape.
    pub normal1_y: i64,
    /// Vertical component of the surface normal on the hit surface.
    pub normal2_y: i64,
}

/// What the detector asks of its collaborators this tick.
#[derive(Clone, Copy, PartialEq, Eq, Structural, Debug)]
pub struct GroundedOutcome {
    /// The player slammed into the floor fast enough for an impact effect
    /// (for example a camera shake).
    pub landing_shake: bool,
    /// The player is airborne and moving upward: cast the head-bump ray and
    /// hand its hits to `apply_ceiling_probe`.
    pub probe_ceiling: bool,
}

/// A hit counts as floor contact when it lies below the caster, within the
/// probe distance, and both normals are near-vertical.
pub open spec fn floor_contact(h: ShapeHit, cfg: MovementConfig) -> bool {
    &&& h.point_y < 0
    &&& h.distance <= cfg.ground_probe_distance
    &&& h.normal1_y >= cfg.floor_normal_min
    &&& h.normal2_y <= -cfg.floor_normal_min
}

/// Some hit of the tick counts as floor contact.
pub open spec fn any_floor_contact(hits: Seq<ShapeHit>, cfg: MovementConfig) -> bool {
    exists|i: int| 0 <= i < hits.len() && floor_contact(hits[i], cfg)
}

/// Some head-bump ray hit is strictly within the ceiling probe distance.
pub open spec fn any_ceiling_hit(distances: Seq<u64>, cfg: MovementConfig) -> bool {
    exists|i: int| 0 <= i < distances.len() && distances[i] < cfg.ceiling_probe_distance
}

/// State transition of the grounded detector.
///
/// On floor contact the coyote clock is refreshed; the grounded tag is
/// committed only when the player is not still descending (avoids flicker
/// during penetration resolution), and landing resets the jump charges and
/// the jump-hold clock. Without floor contact the grounded tag is removed.
/// The animation hint follows, unless an attack animation is running.
pub open spec fn grounded_step(
    p: Player,
    hits: Seq<ShapeHit>,
    now: u64,
    cfg: MovementConfig,
) -> Player {
    if any_floor_contact(hits, cfg) {
        let touched = Player {
            jump: JumpState { last_grounded_time: Some(now), ..p.jump },
            animation: if p.is_attacking() { p.animation } else { AnimationHint::Idle },
            ..p
        };
        if p.vy >= 0 {
            Player {
                grounded: true,
                jump: JumpState { used: 0, left_ground_at: None, ..touched.jump },
                ..touched
            }
        } else {
            touched
        }
    } else {
        Player {
            grounded: false,
            animation: if p.is_attacking() { p.animation } else { AnimationHint::Airborne },
            ..p
        }
    }
}

/// State transition of the head-bump probe: a ceiling found close overhead is
/// treated like having just left the ground, so the downward arc re-enables
/// the jump mechanics promptly.
pub open spec fn ceiling_probe_step(
    p: Player,
    distances: Seq<u64>,
    now: u64,
    cfg: MovementConfig,
) -> Player {
    if any_ceiling_hit(distances, cfg) {
        Player { jump: JumpState { left_ground_at: Some(now), ..p.jump }, ..p }
    } else {
        p
    }
}

/// Consumes the tick's shape-cast hits: updates the grounded tag, the coyote
/// clock, the jump charges and the animation hint, and reports whether an
/// impact effect or a head-bump probe is wanted.
pub fn grounded_system(
    p: &mut Player,
    hits: &Vec<ShapeHit>,
    now: u64,
    cfg: &MovementConfig,
) -> (out: GroundedOutcome)
    requires
        old(p).wf(now),
        cfg.wf(),
    ensures
        *final(p) == grounded_step(*old(p), hits@, now, *cfg),
        final(p).wf(now),
        out.landing_shake == (any_floor_contact(hits@, *cfg) && 3 * old(p).vy
            <= -2 * cfg.max_y_speed),
        out.probe_ceiling == (!any_floor_contact(hits@, *cfg) && old(p).vy > 0),
{
    let mut contact = false;
    let mut i: usize = 0;
    while i < hits.len()
        invariant
            cfg.wf(),
            0 <= i <= hits@.len(),
            contact == exists|j: int| 0 <= j < i && floor_contact(hits@[j], *cfg),
        decreases hits@.len() - i,
    {
        let h = hits[i];
        if h.point_y < 0 && h.distance <= cfg.ground_probe_distance
            && h.normal1_y >= cfg.floor_normal_min && h.normal2_y <= -cfg.floor_normal_min {
            assert(floor_contact(hits@[i as int], *cfg));
            contact = true;
        }
        i = i + 1;
    }
    assert(contact == any_floor_contact(hits@, *cfg));

    let mut out = GroundedOutcome { landing_shake: false, probe_ceiling: false };
    if contact {
        p.jump.last_grounded_time = Some(now);
        if !p.actions.attack_started_at.is_some() {
            p.animation = AnimationHint::Idle;
        }
        if p.vy >= 0 {
            p.grounded = true;
            p.jump.used = 0;
            p.jump.left_ground_at = None;
        }
        if 3 * p.vy <= -2 * cfg.max_y_speed {
            out.landing_shake = true;
        }
    } else {
        if p.vy > 0 {
            out.probe_ceiling = true;
        }
        p.grounded = false;
        if !p.actions.attack_started_at.is_some() {
            p.animation = AnimationHint::Airborne;
        }
    }
    out
}

/// Consumes the distances the head-bump ray reported, where the detector
/// asked for the probe: a close ceiling restarts the jump-hold clock.
pub fn apply_ceiling_probe(
    p: &mut Player,
    distances: &Vec<u64>,
    now: u64,
    cfg: &MovementConfig,
)
    requires
        old(p).wf(now),
        cfg.wf(),
    ensures
        *final(p) == ceiling_probe_step(*old(p), distances@, now, *cfg),
        final(p).wf(now),
{
    let mut bumped = false;
    let mut i: usize = 0;
    while i < distances.len()
        invariant
            0 <= i <= distances@.len(),
            bumped == exists|j: int| 0 <= j < i && distances@[j] < cfg.ceiling_probe_distance,
        decreases distances@.len() - i,
    {
        if distances[i] < cfg.ceiling_probe_distance {
            assert(distances@[i as int] < cfg.ceiling_probe_distance);
            bumped = true;
        }
        i = i + 1;
    }
    if bumped {
        p.jump.left_ground_at = Some(now);
    }
}

} // verus!
