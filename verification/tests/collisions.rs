//! Collision resolution: hits, damage, removal and score attribution.
//!
//! Coordinates are in subpixels (1000 per screen pixel).

use bumblebees::{check_collision, process_collisions, Bullet, Enemy, EnemyType};

#[test]
fn test_bullet_collision_detection() {
    let enemy = Enemy::new(100_000, 200_000, 1, EnemyType::Standard);
    let bullet = Bullet::new(105_000, 205_000);
    assert!(check_collision(&bullet, &enemy));
}

#[test]
fn test_bullet_no_collision() {
    let enemy = Enemy::new(100_000, 200_000, 1, EnemyType::Standard);
    let bullet = Bullet::new(150_000, 250_000);
    assert!(!check_collision(&bullet, &enemy));
}

#[test]
fn test_collision_boundary_is_strict() {
    // Exactly one collision radius apart: the boundary case misses.
    let enemy = Enemy::new(120_000, 200_000, 1, EnemyType::Standard);
    let at_radius = Bullet::new(100_000, 200_000);
    assert!(!check_collision(&at_radius, &enemy));

    // One subpixel closer hits.
    let just_inside = Bullet::new(100_001, 200_000);
    assert!(check_collision(&just_inside, &enemy));
}

#[test]
fn test_process_collisions() {
    let mut enemies = vec![
        Enemy::new(100_000, 200_000, 1, EnemyType::Standard),
        Enemy::new(200_000, 200_000, 1, EnemyType::Standard),
        Enemy::new(300_000, 200_000, 1, EnemyType::Standard),
    ];
    let mut bullets = vec![
        Bullet::new(105_000, 205_000), // Should hit first enemy
    ];
    let mut destroyed_info = Vec::new();

    process_collisions(&mut enemies, &mut bullets, &mut destroyed_info);
    assert_eq!(destroyed_info.len(), 1);
    assert_eq!(enemies.len(), 2);
    assert_eq!(bullets.len(), 0); // Bullet should be removed
    assert_eq!(destroyed_info[0], (100_000, 200_000, 10)); // x, y, points
}

#[test]
fn test_lethal_hit_at_same_position() {
    // A one-hit enemy and a bullet at exactly its position.
    let mut enemies = vec![Enemy::new(100_000, 200_000, 1, EnemyType::Standard)];
    let mut bullets = vec![Bullet::new(100_000, 200_000)];
    let mut destroyed_info = Vec::new();

    process_collisions(&mut enemies, &mut bullets, &mut destroyed_info);
    assert_eq!(enemies.len(), 0);
    assert_eq!(bullets.len(), 0);
    assert_eq!(destroyed_info, vec![(100_000, 200_000, 10)]);
}

#[test]
fn test_multiple_bullets_one_enemy() {
    let mut enemies = vec![Enemy::new(100_000, 200_000, 1, EnemyType::Standard)];
    let mut bullets = vec![
        Bullet::new(95_000, 195_000),  // Should hit
        Bullet::new(105_000, 205_000), // Would also hit, but enemy removed by first bullet
    ];
    let mut destroyed_info = Vec::new();

    process_collisions(&mut enemies, &mut bullets, &mut destroyed_info);
    assert_eq!(destroyed_info.len(), 1); // Only one enemy destroyed
    assert_eq!(enemies.len(), 0);
    assert_eq!(bullets.len(), 1); // Only one bullet removed (first hit)
}

#[test]
fn test_tank_multi_hit() {
    let mut enemies = vec![Enemy::new(100_000, 200_000, 1, EnemyType::Tank)];
    let mut bullets = vec![
        Bullet::new(105_000, 205_000), // First hit
    ];
    let mut destroyed_info = Vec::new();

    // First hit - Tank takes damage but survives (3 -> 2 health)
    process_collisions(&mut enemies, &mut bullets, &mut destroyed_info);
    assert_eq!(destroyed_info.len(), 0); // Not destroyed yet
    assert_eq!(enemies.len(), 1); // Still alive
    assert_eq!(enemies[0].health, 2); // Health reduced
    assert_eq!(bullets.len(), 0); // Bullet consumed

    // Second hit
    bullets.push(Bullet::new(105_000, 205_000));
    process_collisions(&mut enemies, &mut bullets, &mut destroyed_info);
    assert_eq!(destroyed_info.len(), 0); // Still not destroyed
    assert_eq!(enemies[0].health, 1); // Health reduced again

    // Third hit - Tank destroyed
    bullets.push(Bullet::new(105_000, 205_000));
    process_collisions(&mut enemies, &mut bullets, &mut destroyed_info);
    assert_eq!(destroyed_info.len(), 1); // Now destroyed!
    assert_eq!(enemies.len(), 0);
    assert_eq!(destroyed_info[0].2, 50); // Tank worth 50 points
}

#[test]
fn test_no_collisions() {
    let mut enemies = vec![Enemy::new(100_000, 200_000, 1, EnemyType::Standard)];
    let mut bullets = vec![Bullet::new(200_000, 300_000)]; // Far away
    let mut destroyed_info = Vec::new();

    process_collisions(&mut enemies, &mut bullets, &mut destroyed_info);
    assert_eq!(destroyed_info.len(), 0);
    assert_eq!(enemies.len(), 1);
    assert_eq!(bullets.len(), 1); // Bullet should remain
}

#[test]
fn test_empty_inputs() {
    let mut enemies: Vec<Enemy> = vec![];
    let mut bullets: Vec<Bullet> = vec![];
    let mut destroyed_info = Vec::new();

    process_collisions(&mut enemies, &mut bullets, &mut destroyed_info);
    assert_eq!(destroyed_info.len(), 0);
    assert_eq!(enemies.len(), 0);
    assert_eq!(bullets.len(), 0);
}

#[test]
fn test_different_enemy_types_points() {
    let mut enemies = vec![
        Enemy::new(100_000, 200_000, 1, EnemyType::Standard), // 10 points
        Enemy::new(200_000, 200_000, 1, EnemyType::Fast),     // 20 points
        Enemy::new(300_000, 200_000, 1, EnemyType::Swooper),  // 30 points
    ];
    let mut bullets = vec![
        Bullet::new(105_000, 205_000),
        Bullet::new(205_000, 205_000),
        Bullet::new(305_000, 205_000),
    ];

    let mut destroyed_info = Vec::new();
    process_collisions(&mut enemies, &mut bullets, &mut destroyed_info);
    assert_eq!(destroyed_info.len(), 3);

    // Check points are correct
    let points: Vec<u32> = destroyed_info.iter().map(|(_, _, p)| *p).collect();
    assert!(points.contains(&10));
    assert!(points.contains(&20));
    assert!(points.contains(&30));
}

#[test]
fn test_collision_conservation_counts() {
    // Destroyed enemies and consumed bullets never exceed what was there.
    let mut enemies = vec![
        Enemy::new(100_000, 200_000, 1, EnemyType::Standard),
        Enemy::new(102_000, 202_000, 1, EnemyType::Standard),
        Enemy::new(500_000, 200_000, 1, EnemyType::Tank),
    ];
    let mut bullets = vec![
        Bullet::new(100_000, 200_000),
        Bullet::new(101_000, 201_000),
        Bullet::new(500_000, 200_000),
        Bullet::new(900_000, 500_000),
    ];
    let mut destroyed_info = Vec::new();

    process_collisions(&mut enemies, &mut bullets, &mut destroyed_info);
    assert!(destroyed_info.len() <= 3);
    assert!(enemies.len() <= 3);
    assert!(bullets.len() <= 4);
    // Two standard enemies destroyed by the first two bullets; the tank
    // survives one hit; the stray bullet survives.
    assert_eq!(destroyed_info.len(), 2);
    assert_eq!(enemies.len(), 1);
    assert_eq!(enemies[0].health, 2);
    assert_eq!(bullets.len(), 1);
    for (x, y, points) in destroyed_info {
        assert!((x, y, points) == (100_000, 200_000, 10) || (x, y, points) == (102_000, 202_000, 10));
    }
}
