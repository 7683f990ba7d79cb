//! Entity-level behaviour: bullets, enemies, explosions, the player.
//!
//! Coordinates are in subpixels (1000 per screen pixel) and frame times
//! in milliseconds, so `1.0 s` of the pixel world is `dt = 1000` here
//! and `100.0 px` is `100_000`.

use bumblebees::constants::{BASE_WIDTH_INCREASE, BULLET_SPEED, DEFENDER_LINE};
use bumblebees::units::{SCREEN_HEIGHT, SCREEN_WIDTH};
use bumblebees::{Bullet, Enemy, EnemyType, Explosion, Player};

#[test]
fn test_bullet_out_of_bounds() {
    let bullet = Bullet::new(100_000, -10_000);
    assert!(bullet.is_out_of_bounds());
}

#[test]
fn test_bullet_in_bounds() {
    let bullet = Bullet::new(100_000, 100_000);
    assert!(!bullet.is_out_of_bounds());
}

#[test]
fn test_bullet_movement() {
    let mut bullet = Bullet::new(100_000, 200_000);
    bullet.update(1000); // 1 second

    // Should have moved up by BULLET_SPEED pixels
    assert_eq!(bullet.y, 200_000 - (BULLET_SPEED as i64) * 1000);
    assert_eq!(bullet.x, 100_000); // X should not change
}

#[test]
fn test_bullet_out_of_bounds_left() {
    let bullet = Bullet::new(-10_000, 100_000);
    assert!(bullet.is_out_of_bounds());
}

#[test]
fn test_bullet_out_of_bounds_right() {
    let bullet = Bullet::new(SCREEN_WIDTH + 10_000, 100_000);
    assert!(bullet.is_out_of_bounds());
}

#[test]
fn test_bullet_within_bounds_center() {
    let bullet = Bullet::new(SCREEN_WIDTH / 2, SCREEN_HEIGHT / 2);
    assert!(!bullet.is_out_of_bounds());
}

#[test]
fn test_defender_line_breach() {
    let enemy = Enemy::new(
        100_000,
        SCREEN_HEIGHT - DEFENDER_LINE + 10_000,
        1,
        EnemyType::Standard,
    );
    assert!(enemy.has_breached_defender_line());
}

#[test]
fn test_no_defender_line_breach() {
    let enemy = Enemy::new(
        100_000,
        SCREEN_HEIGHT - DEFENDER_LINE - 10_000,
        1,
        EnemyType::Standard,
    );
    assert!(!enemy.has_breached_defender_line());
}

#[test]
fn test_enemy_update_moves_along_direction() {
    let mut right = Enemy::new(100_000, 50_000, 1, EnemyType::Standard);
    right.update(150, 100); // 150 px/s for 0.1 s
    assert_eq!(right.x, 115_000);
    assert_eq!(right.y, 50_000);

    let mut left = Enemy::new(100_000, 50_000, -1, EnemyType::Standard);
    left.update(150, 100);
    assert_eq!(left.x, 85_000);
}

#[test]
fn test_enemy_take_damage() {
    let mut tank = Enemy::new(0, 0, 1, EnemyType::Tank);
    assert_eq!(tank.health, 3);
    assert!(!tank.take_damage());
    assert!(!tank.take_damage());
    assert!(tank.take_damage());
    assert!(tank.is_destroyed());
}

#[test]
fn test_explosion_creation() {
    let explosion = Explosion::new(100_000, 200_000);
    assert_eq!(explosion.x, 100_000);
    assert_eq!(explosion.y, 200_000);
    assert_eq!(explosion.current_frame, 0);
    assert!(!explosion.finished);
}

#[test]
fn test_explosion_frame_progression() {
    let mut explosion = Explosion::new(0, 0);

    // First frame
    assert_eq!(explosion.current_frame, 0);

    // After 0.1 seconds, should be on frame 1
    explosion.update(100);
    assert_eq!(explosion.current_frame, 1);
    assert!(!explosion.finished);

    // After another 0.1 seconds, should be on frame 2
    explosion.update(100);
    assert_eq!(explosion.current_frame, 2);
    assert!(!explosion.finished);

    // After another 0.1 seconds, should be finished
    explosion.update(100);
    assert!(explosion.finished);
}

#[test]
fn test_explosion_doesnt_update_when_finished() {
    let mut explosion = Explosion::new(0, 0);

    // Complete the animation by updating multiple times
    explosion.update(100); // frame 0 -> 1
    explosion.update(100); // frame 1 -> 2
    explosion.update(100); // frame 2 -> 3 (finished)
    assert!(explosion.finished);
    let frame_before = explosion.current_frame;

    // Try to update again
    explosion.update(100);
    assert_eq!(explosion.current_frame, frame_before);
}

#[test]
fn test_player_clamping_left_boundary() {
    let mut player = Player::new();
    player.x = -10_000;
    player.clamp_position();
    assert_eq!(player.x, player.base_width / 2);
}

#[test]
fn test_player_clamping_right_boundary() {
    let mut player = Player::new();
    player.x = SCREEN_WIDTH + 100_000;
    player.clamp_position();
    assert_eq!(player.x, SCREEN_WIDTH - player.base_width / 2);
}

#[test]
fn test_player_within_boundaries() {
    let mut player = Player::new();
    let original_x = player.x;
    player.clamp_position();
    assert_eq!(player.x, original_x);
}

#[test]
fn test_available_shots_increase() {
    let mut player = Player::new();
    assert_eq!(player.available_shots, 1);

    // Test upgrades up to the limit of 3 shots
    for i in 2..=3 {
        player.upgrade();
        assert_eq!(player.available_shots, i);
    }

    // Test that further upgrades don't increase beyond 3
    player.upgrade(); // 4th upgrade - should not increase
    assert_eq!(player.available_shots, 3);
    player.upgrade(); // 5th upgrade - should not increase
    assert_eq!(player.available_shots, 3);
}

#[test]
fn test_base_width_increase() {
    let mut player = Player::new();
    let initial_width = player.base_width;

    // Test width increases up to 3 upgrades (2 increases from initial)
    for i in 1..=2 {
        player.upgrade();
        assert_eq!(player.base_width, initial_width + i * BASE_WIDTH_INCREASE);
    }

    // Test that further upgrades don't increase width beyond the maximum
    let max_width = player.base_width;
    player.upgrade(); // 3rd upgrade - should not increase
    assert_eq!(player.base_width, max_width);
    player.upgrade(); // 4th upgrade - should not increase
    assert_eq!(player.base_width, max_width);
}

#[test]
fn test_player_reset() {
    let mut player = Player::new();
    player.x = 200_000;
    player.base_width = 100_000;
    player.available_shots = 5;

    player.reset();

    assert_eq!(player.x, SCREEN_WIDTH / 2);
    assert_eq!(player.base_width, 50_000);
    assert_eq!(player.available_shots, 1);
}

#[test]
fn test_player_shoot_multiple_shots() {
    let mut player = Player::new();
    player.upgrade(); // Now has 2 shots
    player.upgrade(); // Now has 3 shots

    let mut bullets = Vec::new();
    player.shoot(&mut bullets);
    assert_eq!(bullets.len(), 3);

    // Check bullet positions are spread across player width
    assert_eq!(
        bullets[0].x,
        player.x - player.base_width / 2 + player.base_width / 4
    );
    assert_eq!(bullets[1].x, player.x);
    assert_eq!(
        bullets[2].x,
        player.x + player.base_width / 2 - player.base_width / 4
    );
}

#[test]
fn test_player_position_clamping_extremes() {
    let mut player = Player::new();

    // Test extreme left
    player.x = -1_000_000;
    player.clamp_position();
    assert_eq!(player.x, player.base_width / 2);

    // Test extreme right
    player.x = 2_000_000;
    player.clamp_position();
    assert_eq!(player.x, SCREEN_WIDTH - player.base_width / 2);
}

#[test]
fn test_player_movement() {
    let mut player = Player::new();
    let start = player.x;
    player.move_left(100, 300); // 300 px/s for 0.1 s
    assert_eq!(player.x, start - 30_000);
    player.move_right(100, 300);
    assert_eq!(player.x, start);
}
