use platformer_controller::config::MovementConfig;
use platformer_controller::resolver::{apply_attack_hits, try_begin_attack};
use platformer_controller::state::{AnimationHint, Facing, MovementAction, Player};
use platformer_controller::tick::player_control_system;

#[test]
fn attack_on_cooldown_is_noop() {
    let cfg = MovementConfig::standard();
    let mut p = Player::spawn();
    p.actions.last_attack_at = Some(900);
    let began = try_begin_attack(&mut p, 1000, &cfg);
    assert!(!began);
    assert_eq!(p.actions.attack_started_at, None);
    assert_eq!(p.actions.last_attack_at, Some(900));
}

#[test]
fn attack_after_cooldown_begins() {
    let cfg = MovementConfig::standard();
    let mut p = Player::spawn();
    p.actions.last_attack_at = Some(400);
    let began = try_begin_attack(&mut p, 1000, &cfg);
    assert!(began);
    assert_eq!(p.actions.attack_started_at, Some(1000));
    assert_eq!(p.actions.last_attack_at, Some(1000));
    assert_eq!(p.animation, AnimationHint::Attack);
}

#[test]
fn first_attack_is_always_ready() {
    let cfg = MovementConfig::standard();
    let mut p = Player::spawn();
    let began = try_begin_attack(&mut p, 10, &cfg);
    assert!(began);
    assert_eq!(p.actions.attack_started_at, Some(10));
}

#[test]
fn wall_hit_kicks_back_against_facing() {
    let cfg = MovementConfig::standard();
    let mut p = Player::spawn();
    p.facing = Facing::Right;
    let shake = apply_attack_hits(&mut p, 2, &cfg);
    assert!(shake);
    assert_eq!(p.vx, -150);
    assert_eq!(p.vy, 250);
}

#[test]
fn wall_hit_facing_left_kicks_right() {
    let cfg = MovementConfig::standard();
    let mut p = Player::spawn();
    p.facing = Facing::Left;
    let shake = apply_attack_hits(&mut p, 2, &cfg);
    assert!(shake);
    assert_eq!(p.vx, 150);
}

#[test]
fn single_hit_is_self_hit_no_kickback() {
    let cfg = MovementConfig::standard();
    let mut p = Player::spawn();
    let shake = apply_attack_hits(&mut p, 1, &cfg);
    assert!(!shake);
    assert_eq!(p.vx, 0);
    assert_eq!(p.vy, 0);
}

#[test]
fn cooldown_attack_casts_no_ray_in_control() {
    let cfg = MovementConfig::standard();
    let mut p = Player::spawn();
    p.actions.last_attack_at = Some(900);
    let intents = vec![MovementAction::Attack];
    let fx = player_control_system(&mut p, &intents, 1000, 16, 2, &cfg);
    assert!(!fx.cast_attack_ray);
    assert!(!fx.attack_shake);
    assert_eq!(p.actions.attack_started_at, None);
    assert_eq!(p.vx, 0);
}

#[test]
fn ready_attack_casts_and_shakes_on_wall() {
    let cfg = MovementConfig::standard();
    let mut p = Player::spawn();
    let intents = vec![MovementAction::Attack];
    let fx = player_control_system(&mut p, &intents, 1000, 16, 2, &cfg);
    assert!(fx.cast_attack_ray);
    assert!(fx.attack_shake);
    assert_eq!(p.actions.attack_started_at, Some(1000));
    assert_eq!(p.vx, -150);
}

#[test]
fn second_attack_same_tick_is_noop() {
    let cfg = MovementConfig::standard();
    let mut p = Player::spawn();
    let intents = vec![MovementAction::Attack, MovementAction::Attack];
    let fx = player_control_system(&mut p, &intents, 1000, 16, 2, &cfg);
    assert!(fx.cast_attack_ray);
    // only one kickback was applied
    assert_eq!(p.vx, -150);
    assert_eq!(p.vy, 250);
}

#[test]
fn running_attack_skips_intents_and_expires() {
    let cfg = MovementConfig::standard();
    let mut p = Player::spawn();
    p.actions.attack_started_at = Some(960);
    p.actions.last_attack_at = Some(960);
    let intents = vec![MovementAction::Jump];
    player_control_system(&mut p, &intents, 1000, 16, 0, &cfg);
    // still within the attack duration: the jump was ignored
    assert_eq!(p.vy, 0);
    assert_eq!(p.jump.used, 0);
    assert_eq!(p.actions.attack_started_at, Some(960));

    player_control_system(&mut p, &intents, 1030, 16, 0, &cfg);
    // the attack expired this tick, but intents were still skipped
    assert_eq!(p.actions.attack_started_at, None);
    assert_eq!(p.animation, AnimationHint::Idle);
    assert_eq!(p.vy, 0);
}
