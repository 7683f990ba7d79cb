//! The game state machine: transitions, frame updates, descent
//! coordination, wave progression and reset.

use bumblebees::constants::{
    DESCENT_STEP, INITIAL_ENEMY_SPEED, POINTS_PER_ENEMY, SPEED_INCREASE_PER_WAVE,
};
use bumblebees::{Bullet, Enemy, EnemyType, Game, GameState};

#[test]
fn test_game_state_transitions() {
    // Test game state enum values
    assert_eq!(GameState::Menu as u8, 0);
    assert_eq!(GameState::Playing as u8, 1);
    assert_eq!(GameState::GameOver as u8, 2);
}

#[test]
fn test_enemy_speed_increase() {
    let initial_speed = INITIAL_ENEMY_SPEED;
    let wave_2_speed = initial_speed + SPEED_INCREASE_PER_WAVE;
    let wave_3_speed = wave_2_speed + SPEED_INCREASE_PER_WAVE;

    assert_eq!(wave_2_speed, 170);
    assert_eq!(wave_3_speed, 190);
}

#[test]
fn test_score_calculation() {
    let enemies_destroyed = 5;
    let score = enemies_destroyed * POINTS_PER_ENEMY;
    assert_eq!(score, 50);
}

#[test]
fn test_new_game_starts_in_menu() {
    let game = Game::new();
    assert_eq!(game.state, GameState::Menu);
    assert_eq!(game.wave_number, 1);
    assert_eq!(game.score, 0);
    assert_eq!(game.enemies.len(), 50);
    assert!(game.bullets.is_empty());
}

#[test]
fn test_start_game_requires_name() {
    let mut game = Game::new();
    game.start_game();
    assert_eq!(game.state, GameState::Menu); // no name, nothing happens

    game.player_name = String::from("AB");
    game.start_game();
    assert_eq!(game.state, GameState::Playing);
    assert_eq!(game.wave_number, 1);
    assert_eq!(game.score, 0);
}

#[test]
fn test_menu_freezes_entities() {
    let mut game = Game::new();
    let x0 = game.enemies[0].x;
    game.update(100);
    assert_eq!(game.state, GameState::Menu);
    assert_eq!(game.enemies[0].x, x0);
    assert_eq!(game.score, 0);
}

#[test]
fn test_shoot_only_while_playing() {
    let mut game = Game::new();
    game.shoot();
    assert!(game.bullets.is_empty()); // menu: no shots

    game.player_name = String::from("AB");
    game.start_game();
    game.shoot();
    assert_eq!(game.bullets.len(), 1);
}

#[test]
fn test_update_bullets_prunes_off_screen() {
    let mut game = Game::new();
    game.bullets = vec![Bullet::new(100_000, 500_000), Bullet::new(100_000, 10_000)];
    game.update_bullets(100); // each moves up by 70_000
    assert_eq!(game.bullets.len(), 1);
    assert_eq!(game.bullets[0].y, 430_000);
}

#[test]
fn test_edge_reversal_and_descent() {
    // A formation advancing right reaches the edge margin: the next
    // update reverses every direction, clamps back inside the margin,
    // and schedules a fixed descent step, which then drains by
    // descent_speed * dt per frame to exactly zero before horizontal
    // movement resumes.
    let mut game = Game::new();
    game.player_name = String::from("AB");
    game.state = GameState::Playing;
    game.enemies = vec![Enemy::new(1_000_000, 100_000, 1, EnemyType::Standard)];
    game.enemy_speed = 150;

    game.update(100); // moves to 1_015_000, past the margin at 1_004_000
    assert_eq!(game.enemies[0].direction, -1);
    assert_eq!(game.enemies[0].x, 1_004_000);
    assert_eq!(game.enemies[0].y, 100_000);
    assert_eq!(game.descent_distance, DESCENT_STEP);

    // Four frames at 100 px/s for 0.1 s each drain 10_000 subpixels per
    // frame; x never moves while the descent is pending.
    for frame in 1..=4 {
        game.update(100);
        assert_eq!(game.enemies[0].x, 1_004_000);
        assert_eq!(game.enemies[0].y, 100_000 + frame * 10_000);
        assert_eq!(game.descent_distance, DESCENT_STEP - frame * 10_000);
    }
    assert_eq!(game.descent_distance, 0);

    // Horizontal movement resumes, leftward, with y frozen again.
    game.update(100);
    assert_eq!(game.enemies[0].x, 1_004_000 - 15_000);
    assert_eq!(game.enemies[0].y, 140_000);
}

#[test]
fn test_descent_exclusivity() {
    // While a descent is pending no x changes; while it is not, no y
    // changes.
    let mut game = Game::new();
    game.player_name = String::from("AB");
    game.state = GameState::Playing;
    game.enemies = vec![
        Enemy::new(500_000, 100_000, 1, EnemyType::Standard),
        Enemy::new(400_000, 150_000, -1, EnemyType::Standard),
    ];
    game.descent_distance = 25_000;

    game.update(100);
    assert_eq!(game.enemies[0].x, 500_000);
    assert_eq!(game.enemies[1].x, 400_000);
    assert_eq!(game.enemies[0].y, 110_000);
    assert_eq!(game.enemies[1].y, 160_000);

    game.descent_distance = 0;
    let y0 = game.enemies[0].y;
    let y1 = game.enemies[1].y;
    game.update(100);
    assert_eq!(game.enemies[0].y, y0);
    assert_eq!(game.enemies[1].y, y1);
    assert_ne!(game.enemies[0].x, 500_000);
}

#[test]
fn test_partial_descent_never_overshoots() {
    // The last descent frame is capped at the remaining distance.
    let mut game = Game::new();
    game.player_name = String::from("AB");
    game.state = GameState::Playing;
    game.enemies = vec![Enemy::new(500_000, 100_000, 1, EnemyType::Standard)];
    game.descent_distance = 4_000; // less than one frame's 10_000

    game.update(100);
    assert_eq!(game.descent_distance, 0);
    assert_eq!(game.enemies[0].y, 104_000);
}

#[test]
fn test_wave_clear_advances_wave() {
    // An emptied formation brings the next wave: wave number up by one,
    // enemy speed up by the fixed delta, player upgraded, and a fresh
    // non-empty formation.
    let mut game = Game::new();
    game.player_name = String::from("AB");
    game.start_game();
    game.enemies = Vec::new();

    game.update(100);
    assert_eq!(game.wave_number, 2);
    assert_eq!(game.enemy_speed, INITIAL_ENEMY_SPEED + SPEED_INCREASE_PER_WAVE);
    assert_eq!(game.player.available_shots, 2);
    assert!(!game.enemies.is_empty());
    assert_eq!(game.state, GameState::Playing);
}

#[test]
fn test_breach_ends_game_and_saves_score() {
    let mut game = Game::new();
    game.player_name = String::from("AB");
    game.state = GameState::Playing;
    game.score = 1200;
    game.enemies = vec![Enemy::new(500_000, 480_000, 1, EnemyType::Standard)];

    game.update(100);
    assert_eq!(game.state, GameState::GameOver);
    let top = game.highscore_manager.get_top_scores(5);
    assert_eq!(top.len(), 1);
    assert_eq!(top[0].name, "AB");
    assert_eq!(top[0].score, 1200);

    // A later frame in the terminal state changes nothing.
    let y = game.enemies[0].y;
    game.update(100);
    assert_eq!(game.state, GameState::GameOver);
    assert_eq!(game.enemies[0].y, y);
}

#[test]
fn test_collision_scoring_through_update() {
    // One frame in which a bullet reaches a one-hit enemy: the enemy is
    // removed, the bullet consumed, the variant's points scored, and an
    // explosion spawned.
    let mut game = Game::new();
    game.player_name = String::from("AB");
    game.state = GameState::Playing;
    game.enemies = vec![Enemy::new(300_000, 200_000, 1, EnemyType::Fast)];
    game.descent_distance = 25_000; // keep x fixed this frame
    game.bullets = vec![Bullet::new(300_000, 210_000 + 70_000)];

    game.update(100); // bullet moves up 70_000 to 210_000, within radius
    assert_eq!(game.score, 20);
    assert_eq!(game.bullets.len(), 0);
    assert_eq!(game.explosions.len(), 1);
    // The cleared formation brings wave two immediately.
    assert_eq!(game.wave_number, 2);
}

#[test]
fn test_reset_idempotent() {
    // Two resets in a row leave exactly the state one reset leaves.
    let mut game = Game::new();
    game.player_name = String::from("AB");
    game.start_game();
    game.score = 500;
    game.update(100);
    game.reset();

    let player = game.player.clone();
    let enemies: Vec<(i64, i64, i64)> =
        game.enemies.iter().map(|e| (e.x, e.y, e.direction)).collect();
    let (wave, score, speed, descent, state) = (
        game.wave_number,
        game.score,
        game.enemy_speed,
        game.descent_distance,
        game.state,
    );
    let name = game.player_name.clone();
    let bullets = game.bullets.len();

    game.reset();
    assert_eq!(game.player, player);
    let enemies2: Vec<(i64, i64, i64)> =
        game.enemies.iter().map(|e| (e.x, e.y, e.direction)).collect();
    assert_eq!(enemies2, enemies);
    assert_eq!(game.wave_number, wave);
    assert_eq!(game.score, score);
    assert_eq!(game.enemy_speed, speed);
    assert_eq!(game.descent_distance, descent);
    assert_eq!(game.state, state);
    assert_eq!(game.player_name, name);
    assert_eq!(game.bullets.len(), bullets);
}

#[test]
fn test_save_and_return_to_menu() {
    let mut game = Game::new();
    game.player_name = String::from("AB");
    game.state = GameState::GameOver;
    game.score = 900;

    game.save_and_return_to_menu();
    assert_eq!(game.state, GameState::Menu);
    assert_eq!(game.score, 0);
    assert_eq!(game.wave_number, 1);
    assert!(game.player_name.is_empty());
    let top = game.highscore_manager.get_top_scores(5);
    assert_eq!(top.len(), 1);
    assert_eq!(top[0].score, 900);
}
