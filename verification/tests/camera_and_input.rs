use platformer_controller::camera::{
    calculate_camera_track_point, camera_track_system, CameraPosition,
};
use platformer_controller::input::{gamepad_input_system, keyboard_input_system};
use platformer_controller::state::{Direction, Facing, MovementAction, Player};

#[test]
fn track_point_is_entity_position() {
    let r = calculate_camera_track_point(40, -25, 300);
    assert_eq!(r.x, 40);
    assert_eq!(r.y, -25);
}

#[test]
fn camera_rests_inside_dead_zone() {
    let mut cam = CameraPosition { x: 0, y: 0 };
    camera_track_system(&mut cam, 20, 25, 0, 16);
    assert_eq!(cam.x, 0);
    assert_eq!(cam.y, 0);
}

#[test]
fn camera_pulls_fully_beyond_window() {
    let mut cam = CameraPosition { x: 0, y: 0 };
    camera_track_system(&mut cam, 200, 0, 0, 16);
    // full window: 1000 px/s for 16 ms
    assert_eq!(cam.x, 16);
}

#[test]
fn camera_pull_scales_inside_window() {
    let mut cam = CameraPosition { x: 0, y: 0 };
    camera_track_system(&mut cam, 90, 0, 0, 16);
    // half window: 1000 * 60/120 px/s for 16 ms
    assert_eq!(cam.x, 8);
}

#[test]
fn camera_pulls_leftward_too() {
    let mut cam = CameraPosition { x: 100, y: 0 };
    camera_track_system(&mut cam, -100, 0, 0, 16);
    assert_eq!(cam.x, 84);
}

#[test]
fn camera_vertical_two_speeds() {
    let mut cam = CameraPosition { x: 0, y: 0 };
    camera_track_system(&mut cam, 0, 50, 0, 16);
    // near zone: 200 px/s for 16 ms
    assert_eq!(cam.y, 3);

    let mut far = CameraPosition { x: 0, y: 0 };
    camera_track_system(&mut far, 0, 150, 0, 16);
    // far zone: 1000 px/s for 16 ms
    assert_eq!(far.y, 16);

    let mut down = CameraPosition { x: 0, y: 0 };
    camera_track_system(&mut down, 0, -150, 0, 16);
    assert_eq!(down.y, -16);
}

#[test]
fn keyboard_maps_every_button() {
    let intents = keyboard_input_system(true, true, false, true, true);
    assert_eq!(
        intents,
        vec![
            MovementAction::Attack,
            MovementAction::Horizontal(Direction { x: 1, y: 0 }),
            MovementAction::Jump,
            MovementAction::JumpAbort,
        ]
    );
}

#[test]
fn keyboard_rightward_wins_over_leftward() {
    let intents = keyboard_input_system(false, true, true, false, false);
    assert_eq!(intents, vec![MovementAction::Horizontal(Direction { x: 1, y: 0 })]);
}

#[test]
fn keyboard_leftward_alone() {
    let intents = keyboard_input_system(false, false, true, false, false);
    assert_eq!(intents, vec![MovementAction::Horizontal(Direction { x: -1, y: 0 })]);
}

#[test]
fn idle_keyboard_maps_to_nothing() {
    let intents = keyboard_input_system(false, false, false, false, false);
    assert!(intents.is_empty());
}

#[test]
fn gamepad_agrees_with_keyboard() {
    let a = gamepad_input_system(true, false, true, true, false);
    let b = keyboard_input_system(true, false, true, true, false);
    assert_eq!(a, b);
}

#[test]
fn spawned_player_defaults() {
    let p = Player::spawn();
    assert_eq!(p.vx, 0);
    assert_eq!(p.vy, 0);
    assert_eq!(p.gravity_scale, 1);
    assert!(!p.grounded);
    assert!(!p.moving);
    assert_eq!(p.facing, Facing::Right);
    assert_eq!(p.jump.used, 0);
    assert_eq!(p.jump.last_grounded_time, None);
    assert_eq!(p.jump.left_ground_at, None);
    assert_eq!(p.actions.attack_started_at, None);
    assert_eq!(p.actions.last_attack_at, None);
    assert_eq!(p.dampening.0, 15);
}
