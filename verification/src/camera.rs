//! Pixel-camera tracking: the camera chases a track point derived from the
//! followed entity, with a horizontal dead zone whose pull grows with the
//! distance, and a two-speed vertical dead zone.

use vstd::prelude::*;

use crate::clip;
use crate::config::DT_LIMIT;

verus! {

/// Vertical camera speed inside the near zone, in pixels per second.
pub const CAMERA_TRACK_SPEED: u64 = 200;

/// Camera speed in the far zone (and the full-window horizontal speed), in
/// pixels per second.
pub const CAMERA_TRACK_SPEED_FAST: u64 = 1000;

/// How much of the tracked entity's horizontal velocity leads the track
/// point, in thousandths.
pub const SPEED_CAMERA_TRACK_FACTOR: i64 = 0;

/// Largest camera or track-point coordinate the step arithmetic accepts.
pub const POS_LIMIT: i64 = 1_000_000_000_000;

/// A camera position on the 2D plane, in pixels.
#[derive(Clone, Copy, PartialEq, Eq, Structural, Debug)]
pub struct CameraPosition {
    pub x: i64,
    pub y: i64,
}

/// The point the camera chases: the tracked entity's position, led by its
/// horizontal velocity according to the track factor.
pub open spec fn camera_track_point(x: i64, y: i64, vx: i64) -> (int, int) {
    (x + vx * SPEED_CAMERA_TRACK_FACTOR / 1000, y as int)
}

/// Horizontal camera movement for one tick, given the signed distance to the
/// track point: nothing within 30 pixels; beyond that, the fast track speed
/// scaled by how far the distance sits in the 30-to-150 pixel window.
pub open spec fn camera_step_x(dx: int, dt: u64) -> int {
    if dx >= 30 {
        CAMERA_TRACK_SPEED_FAST * (clip(dx, 30, 150) - 30) * dt / 120_000
    } else if dx <= -30 {
        -(CAMERA_TRACK_SPEED_FAST * (clip(-dx, 30, 150) - 30) * dt / 120_000)
    } else {
        0
    }
}

/// Vertical camera movement for one tick, given the signed distance to the
/// track point: nothing within 30 pixels, the slow track speed up to 100
/// pixels, the fast track speed beyond.
pub open spec fn camera_step_y(dy: int, dt: u64) -> int {
    if dy >= 100 {
        CAMERA_TRACK_SPEED_FAST * dt / 1000
    } else if dy <= -100 {
        -(CAMERA_TRACK_SPEED_FAST * dt / 1000)
    } else if dy >= 30 {
        CAMERA_TRACK_SPEED * dt / 1000
    } else if dy <= -30 {
        -(CAMERA_TRACK_SPEED * dt / 1000)
    } else {
        0
    }
}

/// Transition of the camera for one tick chasing the track point of an
/// entity at (`x`, `y`) with horizontal velocity `vx`.
pub open spec fn camera_track_step(cam: CameraPosition, x: i64, y: i64, vx: i64, dt: u64)
    -> CameraPosition {
    let (tx, ty) = camera_track_point(x, y, vx);
    CameraPosition {
        x: (cam.x + camera_step_x(tx - cam.x, dt)) as i64,
        y: (cam.y + camera_step_y(ty - cam.y, dt)) as i64,
    }
}

/// The track point of an entity at (`x`, `y`) moving horizontally at `vx`.
pub fn calculate_camera_track_point(x: i64, y: i64, vx: i64) -> (r: CameraPosition)
    requires
        -POS_LIMIT <= x <= POS_LIMIT,
        -POS_LIMIT <= vx <= POS_LIMIT,
    ensures
        (r.x as int, r.y as int) == camera_track_point(x, y, vx),
{
    CameraPosition { x: x + vx * SPEED_CAMERA_TRACK_FACTOR / 1000, y }
}

/// Moves the camera one tick toward the tracked entity, with the dead zones
/// and two-speed pull of `camera_track_step`.
pub fn camera_track_system(cam: &mut CameraPosition, x: i64, y: i64, vx: i64, dt: u64)
    requires
        dt <= DT_LIMIT,
        -POS_LIMIT <= old(cam).x <= POS_LIMIT,
        -POS_LIMIT <= old(cam).y <= POS_LIMIT,
        -POS_LIMIT <= x <= POS_LIMIT,
        -POS_LIMIT <= y <= POS_LIMIT,
        -POS_LIMIT <= vx <= POS_LIMIT,
    ensures
        *final(cam) == camera_track_step(*old(cam), x, y, vx, dt),
{
    let track = calculate_camera_track_point(x, y, vx);
    let dx = track.x - cam.x;
    let dy = track.y - cam.y;

    if dx >= 30 || dx <= -30 {
        let adx = if dx < 0 {
            -dx
        } else {
            dx
        };
        let window = if adx > 150 {
            120
        } else {
            adx - 30
        };
        assert(window == clip(adx as int, 30, 150) - 30);
        assert(CAMERA_TRACK_SPEED_FAST * (window as u64) * dt <= 120_000_000)
            by (nonlinear_arith)
            requires
                0 <= window <= 120,
                dt <= 1_000,
        ;
        let pull = CAMERA_TRACK_SPEED_FAST * (window as u64) * dt / 120_000;
        if dx < 0 {
            cam.x = cam.x - (pull as i64);
        } else {
            cam.x = cam.x + (pull as i64);
        }
    }

    let ady = if dy < 0 {
        -dy
    } else {
        dy
    };
    if ady >= 100 {
        let pull = CAMERA_TRACK_SPEED_FAST * dt / 1000;
        if dy < 0 {
            cam.y = cam.y - (pull as i64);
        } else {
            cam.y = cam.y + (pull as i64);
        }
    } else if ady >= 30 {
        let pull = CAMERA_TRACK_SPEED * dt / 1000;
        if dy < 0 {
            cam.y = cam.y - (pull as i64);
        } else {
            cam.y = cam.y + (pull as i64);
        }
    }
}

} // verus!
