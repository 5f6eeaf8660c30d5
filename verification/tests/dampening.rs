use platformer_controller::config::MovementConfig;
use platformer_controller::dampening::movement_dampening_system;
use platformer_controller::grounded::ShapeHit;
use platformer_controller::state::{Direction, MovementAction, MovementDampeningFactor, Player};
use platformer_controller::tick::tick;

#[test]
fn grounded_idle_stops_outright() {
    let mut p = Player::spawn();
    p.grounded = true;
    p.moving = false;
    p.vx = 150;
    movement_dampening_system(&mut p, 16);
    assert_eq!(p.vx, 0);
}

#[test]
fn airborne_decay_exact_value() {
    let mut p = Player::spawn();
    p.vx = 1000;
    movement_dampening_system(&mut p, 16);
    // survives 1_000_000 - 15 * 150 * 16 = 964_000 parts per million
    assert_eq!(p.vx, 964);
}

#[test]
fn decay_keeps_sign_on_leftward_motion() {
    let mut p = Player::spawn();
    p.vx = -1000;
    movement_dampening_system(&mut p, 16);
    assert_eq!(p.vx, -964);
}

#[test]
fn moving_grounded_player_still_decays() {
    let mut p = Player::spawn();
    p.grounded = true;
    p.moving = true;
    p.vx = 1000;
    movement_dampening_system(&mut p, 16);
    assert_eq!(p.vx, 964);
}

#[test]
fn overwhelming_decay_stops_outright() {
    let mut p = Player::spawn();
    p.dampening = MovementDampeningFactor(10_000);
    p.vx = 1000;
    movement_dampening_system(&mut p, 1000);
    assert_eq!(p.vx, 0);
}

#[test]
fn vertical_velocity_untouched() {
    let mut p = Player::spawn();
    p.vx = 1000;
    p.vy = -77;
    movement_dampening_system(&mut p, 16);
    assert_eq!(p.vy, -77);
}

#[test]
fn idle_grounded_tick_stops_player() {
    let cfg = MovementConfig::standard();
    let mut p = Player::spawn();
    p.vx = 250;
    let hits = vec![ShapeHit { point_y: -15, distance: 10, normal1_y: 1000, normal2_y: -1000 }];
    let ceiling: Vec<u64> = Vec::new();
    let intents: Vec<MovementAction> = Vec::new();
    tick(&mut p, &hits, &ceiling, &intents, 500, 16, 0, &cfg);
    assert!(p.grounded);
    assert!(!p.moving);
    assert_eq!(p.vx, 0);
}

#[test]
fn jump_only_tick_clears_moving_and_stops() {
    let cfg = MovementConfig::standard();
    let mut p = Player::spawn();
    p.grounded = true;
    p.vx = 200;
    let hits = vec![ShapeHit { point_y: -15, distance: 10, normal1_y: 1000, normal2_y: -1000 }];
    let ceiling: Vec<u64> = Vec::new();
    let intents = vec![MovementAction::Jump];
    tick(&mut p, &hits, &ceiling, &intents, 500, 16, 0, &cfg);
    // a jump press is no horizontal input: the grounded player stops outright
    assert!(!p.moving);
    assert_eq!(p.vx, 0);
    assert_eq!(p.vy, 350);
}

#[test]
fn attack_only_tick_clears_moving() {
    let cfg = MovementConfig::standard();
    let mut p = Player::spawn();
    p.grounded = true;
    p.vx = 200;
    let hits = vec![ShapeHit { point_y: -15, distance: 10, normal1_y: 1000, normal2_y: -1000 }];
    let ceiling: Vec<u64> = Vec::new();
    let intents = vec![MovementAction::Attack];
    tick(&mut p, &hits, &ceiling, &intents, 500, 16, 1, &cfg);
    assert!(!p.moving);
    assert_eq!(p.vx, 0);
}

#[test]
fn moving_tick_keeps_momentum() {
    let cfg = MovementConfig::standard();
    let mut p = Player::spawn();
    let hits = vec![ShapeHit { point_y: -15, distance: 10, normal1_y: 1000, normal2_y: -1000 }];
    let ceiling: Vec<u64> = Vec::new();
    let intents = vec![MovementAction::Horizontal(Direction { x: 1, y: 0 })];
    tick(&mut p, &hits, &ceiling, &intents, 500, 16, 0, &cfg);
    assert!(p.moving);
    // accelerated to 19, then decayed: 19 * 964_000 / 1_000_000 = 18
    assert_eq!(p.vx, 18);
}

#[test]
fn tick_clamps_runaway_fall_speed() {
    let cfg = MovementConfig::standard();
    let mut p = Player::spawn();
    p.vy = -90_000;
    let hits: Vec<ShapeHit> = Vec::new();
    let ceiling: Vec<u64> = Vec::new();
    let intents: Vec<MovementAction> = Vec::new();
    tick(&mut p, &hits, &ceiling, &intents, 500, 16, 0, &cfg);
    assert_eq!(p.vy, -512);
    assert_eq!(p.gravity_scale, 10);

    p.vy = 90_000;
    tick(&mut p, &hits, &ceiling, &intents, 516, 16, 0, &cfg);
    assert_eq!(p.vy, 512);
}
