//! Compile-time tunable constants of the movement controller, gathered in a
//! configuration record so that contracts can speak about them symbolically.

use vstd::prelude::*;

verus! {

/// Largest velocity magnitude (pixels per second) the controller accepts from
/// the physics integrator. A bound is needed so that the fixed-point
/// arithmetic of the tick stays inside `i64`.
pub const VEL_LIMIT: i64 = 1_000_000_000;

/// Largest tick duration (milliseconds) the controller accepts.
pub const DT_LIMIT: u64 = 1_000;

/// Largest tunable constant magnitude admitted by `MovementConfig::wf`.
pub const CONFIG_LIMIT: i64 = 1_000_000;

/// Scale of fractional constants: a value of 1000 stands for 1.0.
/// Surface normals, the dampening decay and the camera track factor are
/// expressed in thousandths.
pub const PERMILLE: i64 = 1000;

/// Tunable constants of the movement controller.
///
/// Velocities and accelerations are in pixels per second (squared), windows
/// and cooldowns in milliseconds, distances in pixels, normal components in
/// thousandths of a unit vector.
pub struct MovementConfig {
    /// Horizontal speed clamp applied after a horizontal intent.
    pub max_speed: i64,
    /// Vertical speed clamp applied at the start of every tick.
    pub max_y_speed: i64,
    /// Horizontal acceleration in pixels per second squared.
    pub acceleration: i64,
    /// Vertical launch speed set by a permitted jump.
    pub jump_speed: i64,
    /// Gravity-scale multiplier while airborne; doubles as the braking
    /// multiplier on a horizontal direction reversal.
    pub fall_gravity: i64,
    /// Grace window after leaving the ground during which a jump is still
    /// accepted as if grounded.
    pub coyote_time_ms: u64,
    /// Window after leaving the ground during which holding jump re-launches.
    pub jump_hold_ms: u64,
    /// Window after leaving the ground during which a jump abort switches to
    /// fall gravity.
    pub jump_abort_ms: u64,
    /// Minimum time between two attacks.
    pub attack_cooldown_ms: u64,
    /// Time until the attacking state clears itself.
    pub attack_duration_ms: u64,
    /// Length of the attack ray cast, handed to the physics collaborator.
    pub attack_ray_length: u64,
    /// Knockback applied against the facing direction when an attack ray
    /// reports a wall hit.
    pub kickback_x: i64,
    /// Upward knockback applied when an attack ray reports a wall hit.
    pub kickback_y: i64,
    /// A shape-cast hit at most this far away can count as floor contact.
    pub ground_probe_distance: u64,
    /// A head-bump ray hit strictly closer than this counts as a ceiling.
    pub ceiling_probe_distance: u64,
    /// Smallest vertical normal component (in thousandths) of a walkable
    /// floor surface.
    pub floor_normal_min: i64,
}

impl MovementConfig {
    /// Well-formedness: every constant is in the range the integer
    /// arithmetic of the tick needs, fall gravity exceeds the normal scale,
    /// and a jump launch never breaks the vertical speed clamp.
    pub open spec fn wf(self) -> bool {
        &&& 0 < self.max_speed <= CONFIG_LIMIT
        &&& 0 < self.jump_speed <= self.max_y_speed <= CONFIG_LIMIT
        &&& 0 <= self.acceleration <= CONFIG_LIMIT
        &&& 2 <= self.fall_gravity <= PERMILLE
        &&& 0 < self.coyote_time_ms
        &&& 0 < self.jump_hold_ms
        &&& 0 < self.jump_abort_ms
        &&& 0 < self.attack_cooldown_ms
        &&& 0 < self.attack_duration_ms
        &&& 0 <= self.kickback_x <= CONFIG_LIMIT
        &&& 0 <= self.kickback_y <= CONFIG_LIMIT
        &&& 0 < self.floor_normal_min <= PERMILLE
    }

    /// The canonical rule set: a 16-pixel tile grid, a 350 px/s jump, tenfold
    /// fall gravity, a 200 ms coyote window, a 250 ms jump-hold window, a
    /// 300 ms abort window and a half-second attack cooldown.
    pub fn standard() -> (cfg: MovementConfig)
        ensures
            cfg.wf(),
            cfg.max_speed == 320,
            cfg.max_y_speed == 512,
            cfg.acceleration == 1200,
            cfg.jump_speed == 350,
            cfg.fall_gravity == 10,
            cfg.coyote_time_ms == 200,
            cfg.jump_hold_ms == 250,
            cfg.jump_abort_ms == 300,
            cfg.attack_cooldown_ms == 500,
            cfg.attack_duration_ms == 60,
            cfg.attack_ray_length == 10,
            cfg.kickback_x == 150,
            cfg.kickback_y == 250,
            cfg.ground_probe_distance == 18,
            cfg.ceiling_probe_distance == 18,
            cfg.floor_normal_min == 950,
    {
        MovementConfig {
            max_speed: 320,
            max_y_speed: 512,
            acceleration: 1200,
            jump_speed: 350,
            fall_gravity: 10,
            coyote_time_ms: 200,
            jump_hold_ms: 250,
            jump_abort_ms: 300,
            attack_cooldown_ms: 500,
            attack_duration_ms: 60,
            attack_ray_length: 10,
            kickback_x: 150,
            kickback_y: 250,
            ground_probe_distance: 18,
            ceiling_probe_distance: 18,
            floor_normal_min: 950,
        }
    }
}

} // verus!
