use platformer_controller::config::MovementConfig;
use platformer_controller::resolver::apply_horizontal;
use platformer_controller::state::{AnimationHint, Direction, Facing, Player};

#[test]
fn accelerate_from_rest_exact() {
    let cfg = MovementConfig::standard();
    let mut p = Player::spawn();
    apply_horizontal(&mut p, Direction { x: 1, y: 0 }, 16, &cfg);
    assert_eq!(p.vx, 19);
    assert_eq!(p.vy, 0);
    assert_eq!(p.facing, Facing::Right);
}

#[test]
fn reversal_brakes_with_amplified_step() {
    let cfg = MovementConfig::standard();
    let mut p = Player::spawn();
    p.vx = 100;
    apply_horizontal(&mut p, Direction { x: -1, y: 0 }, 16, &cfg);
    assert_eq!(p.vx, 100 - 192);
    assert_eq!(p.facing, Facing::Left);
}

#[test]
fn same_direction_keeps_plain_step() {
    let cfg = MovementConfig::standard();
    let mut p = Player::spawn();
    p.vx = 100;
    apply_horizontal(&mut p, Direction { x: 1, y: 0 }, 16, &cfg);
    assert_eq!(p.vx, 119);
}

#[test]
fn horizontal_speed_clamps_to_max() {
    let cfg = MovementConfig::standard();
    let mut p = Player::spawn();
    p.vx = 320;
    apply_horizontal(&mut p, Direction { x: 1, y: 0 }, 16, &cfg);
    assert_eq!(p.vx, 320);
}

#[test]
fn reversal_clamps_to_negative_max() {
    let cfg = MovementConfig::standard();
    let mut p = Player::spawn();
    p.vx = 5;
    apply_horizontal(&mut p, Direction { x: -1, y: 0 }, 1000, &cfg);
    // amplified step 1200 * 1000 * 10 / 1000 = 12000 pushes far past the clamp
    assert_eq!(p.vx, -320);
}

#[test]
fn grounded_horizontal_shows_run_animation() {
    let cfg = MovementConfig::standard();
    let mut p = Player::spawn();
    p.grounded = true;
    apply_horizontal(&mut p, Direction { x: 1, y: 0 }, 16, &cfg);
    assert_eq!(p.animation, AnimationHint::Run);
}

#[test]
fn airborne_horizontal_keeps_animation() {
    let cfg = MovementConfig::standard();
    let mut p = Player::spawn();
    p.animation = AnimationHint::Airborne;
    apply_horizontal(&mut p, Direction { x: 1, y: 0 }, 16, &cfg);
    assert_eq!(p.animation, AnimationHint::Airborne);
}

#[test]
fn vertical_component_moves_vy_unclamped() {
    let cfg = MovementConfig::standard();
    let mut p = Player::spawn();
    apply_horizontal(&mut p, Direction { x: 0, y: 1 }, 16, &cfg);
    assert_eq!(p.vx, 0);
    assert_eq!(p.vy, 19);
    assert_eq!(p.facing, Facing::Right);
}
