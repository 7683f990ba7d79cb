//! Wave generation: formation shapes, variant mix, determinism.

use bumblebees::wave::{generate_grid_formation, SCATTERED_COUNT};
use bumblebees::{generate_wave, EnemyType};

#[test]
fn test_generate_wave_1_grid() {
    let enemies = generate_wave(1);
    // Wave 1: Grid formation (5 rows x 10 columns = 50)
    assert_eq!(enemies.len(), 50);
    // Wave 1 only has Standard enemies
    assert!(enemies.iter().all(|e| e.enemy_type == EnemyType::Standard));
}

#[test]
fn test_generate_wave_2_v_shape() {
    let enemies = generate_wave(2);
    // Wave 2: V-shape formation
    assert!(enemies.len() > 0);
    // Wave 2 introduces Fast enemies
    assert!(enemies.iter().any(|e| e.enemy_type == EnemyType::Fast));
}

#[test]
fn test_generate_wave_3_diamond() {
    let enemies = generate_wave(3);
    // Wave 3: Diamond formation (1+3+5+7+5+3+1 = 25 enemies)
    assert_eq!(enemies.len(), 25);
    // Wave 3 introduces Tank enemies
    assert!(enemies.iter().any(|e| e.enemy_type == EnemyType::Tank));
}

#[test]
fn test_generate_wave_4_scattered() {
    let enemies = generate_wave(4);
    // Wave 4: Scattered formation (35 enemies)
    assert_eq!(enemies.len(), 35);
    // Wave 4 introduces Swooper enemies
    assert!(enemies.iter().any(|e| e.enemy_type == EnemyType::Swooper));
}

#[test]
fn test_enemy_types_progressive() {
    // Wave 1: Standard only
    let wave1 = generate_wave(1);
    assert!(wave1.iter().all(|e| e.enemy_type == EnemyType::Standard));

    // Wave 2: Standard + Fast
    let wave2 = generate_wave(2);
    let types2: Vec<_> = wave2.iter().map(|e| e.enemy_type).collect();
    assert!(types2.contains(&EnemyType::Standard) || types2.contains(&EnemyType::Fast));

    // Wave 3: Can include Tank
    let wave3 = generate_wave(3);
    let types3: Vec<_> = wave3.iter().map(|e| e.enemy_type).collect();
    assert!(
        types3.contains(&EnemyType::Standard)
            || types3.contains(&EnemyType::Tank)
            || types3.contains(&EnemyType::Fast)
    );
}

#[test]
fn test_grid_formation_positions() {
    let enemies = generate_grid_formation(1);
    assert_eq!(enemies.len(), 50);

    // Check first enemy position (top-left)
    assert_eq!(enemies[0].x, 242_000);
    assert_eq!(enemies[0].y, 50_000);

    // Check spacing
    assert_eq!(enemies[1].x, 242_000);
    assert_eq!(enemies[1].y, 100_000);
}

#[test]
fn test_enemy_positions_in_wave() {
    let enemies = generate_wave(1);

    // Check first enemy position (centered at top)
    assert_eq!(enemies[0].x, 242_000);
    assert_eq!(enemies[0].y, 50_000);

    // Check enemy spacing
    assert_eq!(enemies[1].x, 242_000); // Same column
    assert_eq!(enemies[1].y, 100_000); // Next row

    // With 5 rows, enemies[5] is the first enemy of the second column
    assert_eq!(enemies[5].x, 302_000); // Next column
    assert_eq!(enemies[5].y, 50_000); // First row
}

#[test]
fn test_formation_cycle() {
    // Formations cycle: Grid (1), V (2), Diamond (3), Scattered (4), repeat
    let wave5 = generate_wave(5);
    let wave1 = generate_wave(1);
    // Wave 5 should be same formation as wave 1 (Grid)
    assert_eq!(wave5.len(), wave1.len());
}

#[test]
fn test_enemy_health_initialization() {
    let enemies = generate_wave(3);
    for enemy in enemies {
        match enemy.enemy_type {
            EnemyType::Standard | EnemyType::Fast | EnemyType::Swooper => {
                assert_eq!(enemy.health, 1);
            }
            EnemyType::Tank => {
                assert_eq!(enemy.health, 3);
            }
        }
    }
}

#[test]
fn test_grid_identical_across_calls() {
    // Two generations with the same wave number give identical grids.
    let a = generate_wave(1);
    let b = generate_wave(1);
    assert_eq!(a.len(), b.len());
    for (x, y) in a.iter().zip(b.iter()) {
        assert_eq!(x.x, y.x);
        assert_eq!(x.y, y.y);
        assert_eq!(x.direction, y.direction);
        assert_eq!(x.enemy_type, y.enemy_type);
    }
}

#[test]
fn test_scattered_deterministic_and_in_bounds() {
    // The scattered pattern is seeded by the wave number: two calls
    // agree, and every enemy lies inside the stated band.
    let a = generate_wave(4);
    let b = generate_wave(4);
    assert_eq!(a.len(), SCATTERED_COUNT);
    for (x, y) in a.iter().zip(b.iter()) {
        assert_eq!(x.x, y.x);
        assert_eq!(x.y, y.y);
        assert_eq!(x.direction, y.direction);
    }
    for e in &a {
        assert!(e.x >= 100_000 && e.x < 924_000);
        assert!(e.y >= 60_000 && e.y < 260_000);
        assert!(e.direction == 1 || e.direction == -1);
    }
    // Different waves are seeded differently, so the layouts differ
    // somewhere (with overwhelming likelihood for these two seeds).
    let c = generate_wave(8);
    assert!(a.iter().zip(c.iter()).any(|(p, q)| p.x != q.x || p.y != q.y));
}

#[test]
fn test_grid_rows_alternate_direction() {
    let enemies = generate_grid_formation(1);
    for (k, e) in enemies.iter().enumerate() {
        let row = k % 5;
        if row % 2 == 0 {
            assert_eq!(e.direction, 1);
        } else {
            assert_eq!(e.direction, -1);
        }
    }
}
