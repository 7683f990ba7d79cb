//! Wave generation: builds the enemy formation for a given wave number.
//!
//! Formations cycle with the wave number: grid, V-shape, diamond, then a
//! seeded scattered pattern.  Enemy variants are introduced progressively
//! as the waves advance; the variant of each slot is a pure function of
//! its row (or slot) and the wave number.

use vstd::prelude::*;

use crate::enemy::{Enemy, EnemyType};
use crate::rng::{rng_below, rng_from_seed};

verus! {

/// Number of rows in the grid formation.
pub const GRID_ROWS: usize = 5;

/// Number of columns in the grid formation.
pub const GRID_COLUMNS: usize = 10;

/// Number of enemies in the scattered formation.
pub const SCATTERED_COUNT: usize = 35;

/// The enemy variant for a grid row: fast enemies on the top row from
/// wave two, tanks on row three from wave three, swoopers on row four
/// from wave four, standard otherwise.
pub open spec fn spec_enemy_type_for_row(row: int, wave: u32) -> EnemyType {
    if row == 0 {
        if wave >= 2 {
            EnemyType::Fast
        } else {
            EnemyType::Standard
        }
    } else if row == 1 || row == 2 {
        EnemyType::Standard
    } else if row == 3 {
        if wave >= 3 {
            EnemyType::Tank
        } else {
            EnemyType::Standard
        }
    } else if row == 4 && wave >= 4 {
        EnemyType::Swooper
    } else {
        EnemyType::Standard
    }
}

/// Get the enemy variant for a formation row, for variety across waves.
pub fn get_enemy_type_for_row(row: usize, wave: u32) -> (t: EnemyType)
    ensures
        t == spec_enemy_type_for_row(row as int, wave),
{
    match row {
        0 => {
            if wave >= 2 {
                EnemyType::Fast
            } else {
                EnemyType::Standard
            }
        },
        1 | 2 => EnemyType::Standard,
        3 => {
            if wave >= 3 {
                EnemyType::Tank
            } else {
                EnemyType::Standard
            }
        },
        _ => {
            if wave >= 4 && row == 4 {
                EnemyType::Swooper
            } else {
                EnemyType::Standard
            }
        },
    }
}

/// The enemy in slot `k` of the grid formation: column `k / 5`, row
/// `k % 5`, sixty pixels between columns, fifty between rows, the grid
/// centred horizontally, rows alternating initial direction.
pub open spec fn spec_grid_enemy(wave: u32, k: int) -> Enemy {
    let col = k / 5;
    let row = k % 5;
    let t = spec_enemy_type_for_row(row, wave);
    Enemy {
        x: (242_000 + col * 60_000) as i64,
        y: (50_000 + row * 50_000) as i64,
        direction: if row % 2 == 0 {
            1i64
        } else {
            -1i64
        },
        enemy_type: t,
        health: t.spec_initial_health(),
    }
}

/// The whole grid formation for a wave: fifty enemies, column-major.
pub open spec fn spec_grid_formation(wave: u32) -> Seq<Enemy> {
    Seq::new(50, |k: int| spec_grid_enemy(wave, k))
}

/// Generate the classic grid formation for a wave.
pub fn generate_grid_formation(wave: u32) -> (enemies: Vec<Enemy>)
    ensures
        enemies@ == spec_grid_formation(wave),
        enemies@.len() == 50,
        forall|k: int| 0 <= k < enemies@.len() ==> (#[trigger] enemies@[k]).wf(),
{
    let mut enemies: Vec<Enemy> = Vec::new();
    let mut i: usize = 0;
    while i < GRID_COLUMNS
        invariant
            0 <= i <= GRID_COLUMNS,
            enemies@.len() == 5 * i,
            forall|k: int| 0 <= k < enemies@.len() ==> enemies@[k] == spec_grid_enemy(wave, k),
            forall|k: int| 0 <= k < enemies@.len() ==> (#[trigger] enemies@[k]).wf(),
        decreases GRID_COLUMNS - i,
    {
        let mut j: usize = 0;
        while j < GRID_ROWS
            invariant
                0 <= i < GRID_COLUMNS,
                0 <= j <= GRID_ROWS,
                enemies@.len() == 5 * i + j,
                forall|k: int| 0 <= k < enemies@.len() ==> enemies@[k] == spec_grid_enemy(wave, k),
                forall|k: int| 0 <= k < enemies@.len() ==> (#[trigger] enemies@[k]).wf(),
            decreases GRID_ROWS - j,
        {
            let direction: i64 = if j % 2 == 0 {
                1
            } else {
                -1
            };
            let enemy_type = get_enemy_type_for_row(j, wave);
            let e = Enemy::new(
                242_000 + (i as i64) * 60_000,
                50_000 + (j as i64) * 50_000,
                direction,
                enemy_type,
            );
            proof {
                let k = 5 * i + j;
                assert(k / 5 == i && k % 5 == j) by (nonlinear_arith)
                    requires
                        0 <= j < 5,
                        0 <= i,
                        k == 5 * i + j,
                ;
                assert(e == spec_grid_enemy(wave, k as int));
            }
            enemies.push(e);
            j = j + 1;
        }
        i = i + 1;
    }
    proof {
        assert(enemies@ =~= spec_grid_formation(wave));
    }
    enemies
}

/// The left arm of one V-shape row: enemies stepping out to the left,
/// all moving left.
pub open spec fn spec_v_left(wave: u32, row: int) -> Seq<Enemy> {
    Seq::new(
        (row + 1) as nat,
        |i: int|
            Enemy {
                x: (512_000 - row * 40_000 - i * 55_000) as i64,
                y: (80_000 + row * 45_000) as i64,
                direction: -1i64,
                enemy_type: spec_enemy_type_for_row(row, wave),
                health: spec_enemy_type_for_row(row, wave).spec_initial_health(),
            },
    )
}

/// The right arm of one V-shape row: mirrored, all moving right.
pub open spec fn spec_v_right(wave: u32, row: int) -> Seq<Enemy> {
    Seq::new(
        (row + 1) as nat,
        |i: int|
            Enemy {
                x: (512_000 + row * 40_000 + i * 55_000) as i64,
                y: (80_000 + row * 45_000) as i64,
                direction: 1i64,
                enemy_type: spec_enemy_type_for_row(row, wave),
                health: spec_enemy_type_for_row(row, wave).spec_initial_health(),
            },
    )
}

/// The first `r` rows of the V-shape formation, left arm before right arm.
pub open spec fn spec_v_rows(wave: u32, r: int) -> Seq<Enemy>
    decreases r,
{
    if r <= 0 {
        Seq::empty()
    } else {
        spec_v_rows(wave, r - 1) + spec_v_left(wave, r - 1) + spec_v_right(wave, r - 1)
    }
}

/// The whole V-shape formation: seven rows widening downward.
pub open spec fn spec_v_formation(wave: u32) -> Seq<Enemy> {
    spec_v_rows(wave, 7)
}

/// Generate the V-shaped formation for a wave.
pub fn generate_v_formation(wave: u32) -> (enemies: Vec<Enemy>)
    ensures
        enemies@ == spec_v_formation(wave),
        enemies@.len() == 56,
        forall|k: int| 0 <= k < enemies@.len() ==> (#[trigger] enemies@[k]).wf(),
{
    let mut enemies: Vec<Enemy> = Vec::new();
    let mut row: usize = 0;
    while row < 7
        invariant
            0 <= row <= 7,
            enemies@ == spec_v_rows(wave, row as int),
            enemies@.len() == row * (row + 1),
            forall|k: int| 0 <= k < enemies@.len() ==> (#[trigger] enemies@[k]).wf(),
        decreases 7 - row,
    {
        let ghost rows_before = enemies@;
        let y: i64 = 80_000 + (row as i64) * 45_000;
        let offset: i64 = (row as i64) * 40_000;
        let enemy_type = get_enemy_type_for_row(row, wave);

        let mut i: usize = 0;
        while i <= row
            invariant
                0 <= row < 7,
                0 <= i <= row + 1,
                y == 80_000 + row * 45_000,
                offset == row * 40_000,
                enemy_type == spec_enemy_type_for_row(row as int, wave),
                enemies@ == rows_before + spec_v_left(wave, row as int).subrange(0, i as int),
                forall|k: int| 0 <= k < enemies@.len() ==> (#[trigger] enemies@[k]).wf(),
            decreases row + 1 - i,
        {
            let e = Enemy::new(512_000 - offset - (i as i64) * 55_000, y, -1, enemy_type);
            proof {
                assert(e == spec_v_left(wave, row as int)[i as int]);
                assert(spec_v_left(wave, row as int).subrange(0, i as int + 1) =~= spec_v_left(
                    wave,
                    row as int,
                ).subrange(0, i as int).push(e));
            }
            enemies.push(e);
            i = i + 1;
        }
        proof {
            assert(spec_v_left(wave, row as int).subrange(0, row as int + 1) =~= spec_v_left(
                wave,
                row as int,
            ));
        }

        let ghost with_left = enemies@;
        let mut i: usize = 0;
        while i <= row
            invariant
                0 <= row < 7,
                0 <= i <= row + 1,
                y == 80_000 + row * 45_000,
                offset == row * 40_000,
                enemy_type == spec_enemy_type_for_row(row as int, wave),
                with_left == rows_before + spec_v_left(wave, row as int),
                enemies@ == with_left + spec_v_right(wave, row as int).subrange(0, i as int),
                forall|k: int| 0 <= k < enemies@.len() ==> (#[trigger] enemies@[k]).wf(),
            decreases row + 1 - i,
        {
            let e = Enemy::new(512_000 + offset + (i as i64) * 55_000, y, 1, enemy_type);
            proof {
                assert(e == spec_v_right(wave, row as int)[i as int]);
                assert(spec_v_right(wave, row as int).subrange(0, i as int + 1) =~= spec_v_right(
                    wave,
                    row as int,
                ).subrange(0, i as int).push(e));
            }
            enemies.push(e);
            i = i + 1;
        }
        proof {
            assert(spec_v_right(wave, row as int).subrange(0, row as int + 1) =~= spec_v_right(
                wave,
                row as int,
            ));
            assert(enemies@ == spec_v_rows(wave, row as int + 1));
            assert((row + 1) * (row + 2) == row * (row + 1) + 2 * (row + 1)) by (nonlinear_arith);
        }
        row = row + 1;
    }
    enemies
}

/// How many enemies stand in row `r` of the diamond formation.
pub open spec fn spec_diamond_count(r: int) -> int {
    if r == 0 || r == 6 {
        1
    } else if r == 1 || r == 5 {
        3
    } else if r == 2 || r == 4 {
        5
    } else if r == 3 {
        7
    } else {
        0
    }
}

/// One row of the diamond formation, horizontally centred.
pub open spec fn spec_diamond_row(wave: u32, r: int) -> Seq<Enemy> {
    Seq::new(
        spec_diamond_count(r) as nat,
        |i: int|
            Enemy {
                x: (512_000 - (spec_diamond_count(r) - 1) * 30_000 + i * 60_000) as i64,
                y: (100_000 + r * 40_000) as i64,
                direction: if r % 2 == 0 {
                    1i64
                } else {
                    -1i64
                },
                enemy_type: spec_enemy_type_for_row(r, wave),
                health: spec_enemy_type_for_row(r, wave).spec_initial_health(),
            },
    )
}

/// The first `r` rows of the diamond formation.
pub open spec fn spec_diamond_rows(wave: u32, r: int) -> Seq<Enemy>
    decreases r,
{
    if r <= 0 {
        Seq::empty()
    } else {
        spec_diamond_rows(wave, r - 1) + spec_diamond_row(wave, r - 1)
    }
}

/// The whole diamond formation: rows expanding then contracting.
pub open spec fn spec_diamond_formation(wave: u32) -> Seq<Enemy> {
    spec_diamond_rows(wave, 7)
}

fn diamond_count(r: usize) -> (c: usize)
    ensures
        c == spec_diamond_count(r as int),
{
    if r == 0 || r == 6 {
        1
    } else if r == 1 || r == 5 {
        3
    } else if r == 2 || r == 4 {
        5
    } else if r == 3 {
        7
    } else {
        0
    }
}

/// Generate the diamond formation for a wave.
pub fn generate_diamond_formation(wave: u32) -> (enemies: Vec<Enemy>)
    ensures
        enemies@ == spec_diamond_formation(wave),
        enemies@.len() == 25,
        forall|k: int| 0 <= k < enemies@.len() ==> (#[trigger] enemies@[k]).wf(),
{
    let mut enemies: Vec<Enemy> = Vec::new();
    let mut row_idx: usize = 0;
    while row_idx < 7
        invariant
            0 <= row_idx <= 7,
            enemies@ == spec_diamond_rows(wave, row_idx as int),
            forall|k: int| 0 <= k < enemies@.len() ==> (#[trigger] enemies@[k]).wf(),
        decreases 7 - row_idx,
    {
        let ghost rows_before = enemies@;
        let count = diamond_count(row_idx);
        let y: i64 = 100_000 + (row_idx as i64) * 40_000;
        let start_x: i64 = 512_000 - (count as i64 - 1) * 30_000;
        let direction: i64 = if row_idx % 2 == 0 {
            1
        } else {
            -1
        };
        let enemy_type = get_enemy_type_for_row(row_idx, wave);

        let mut i: usize = 0;
        while i < count
            invariant
                0 <= row_idx < 7,
                0 <= i <= count,
                count == spec_diamond_count(row_idx as int),
                y == 100_000 + row_idx * 40_000,
                start_x == 512_000 - (count - 1) * 30_000,
                direction == (if row_idx % 2 == 0 {
                    1int
                } else {
                    -1int
                }),
                enemy_type == spec_enemy_type_for_row(row_idx as int, wave),
                enemies@ == rows_before + spec_diamond_row(wave, row_idx as int).subrange(
                    0,
                    i as int,
                ),
                forall|k: int| 0 <= k < enemies@.len() ==> (#[trigger] enemies@[k]).wf(),
            decreases count - i,
        {
            let e = Enemy::new(start_x + (i as i64) * 60_000, y, direction, enemy_type);
            proof {
                assert(e == spec_diamond_row(wave, row_idx as int)[i as int]);
                assert(spec_diamond_row(wave, row_idx as int).subrange(0, i as int + 1)
                    =~= spec_diamond_row(wave, row_idx as int).subrange(0, i as int).push(e));
            }
            enemies.push(e);
            i = i + 1;
        }
        proof {
            assert(spec_diamond_row(wave, row_idx as int).subrange(
                0,
                spec_diamond_count(row_idx as int),
            ) =~= spec_diamond_row(wave, row_idx as int));
            assert(enemies@ == spec_diamond_rows(wave, row_idx as int + 1));
        }
        row_idx = row_idx + 1;
    }
    proof {
        assert(enemies@.len() == 25) by {
            reveal_with_fuel(spec_diamond_rows, 8);
        }
    }
    enemies
}

/// The enemy variant for slot `i` of the scattered formation: a mix keyed
/// by the slot number, gated by the wave number.
pub open spec fn spec_scattered_type(i: int, wave: u32) -> EnemyType {
    let m = i % 7;
    if m == 0 && wave >= 2 {
        EnemyType::Fast
    } else if (m == 1 || m == 2) && wave >= 3 {
        EnemyType::Tank
    } else if m == 3 && wave >= 4 {
        EnemyType::Swooper
    } else {
        EnemyType::Standard
    }
}

/// Generate the scattered formation: thirty-five enemies at wave-seeded
/// pseudo-random positions in the upper play field.
///
/// The variant mix is a pure function of slot and wave; positions and
/// directions come from a generator seeded with the wave number, so the
/// guarantees here are the ones that hold of every outcome: every enemy
/// lies inside the stated band.
pub fn generate_scattered_formation(wave: u32) -> (enemies: Vec<Enemy>)
    ensures
        enemies@.len() == 35,
        forall|k: int| 0 <= k < enemies@.len() ==> (#[trigger] enemies@[k]).wf(),
        forall|k: int|
            0 <= k < enemies@.len() ==> 100_000 <= (#[trigger] enemies@[k]).x < 924_000 && 60_000
                <= enemies@[k].y < 260_000,
        forall|k: int|
            0 <= k < enemies@.len() ==> (#[trigger] enemies@[k]).enemy_type == spec_scattered_type(
                k,
                wave,
            ) && enemies@[k].health == enemies@[k].enemy_type.spec_initial_health(),
{
    let mut enemies: Vec<Enemy> = Vec::new();
    let mut rng = rng_from_seed(wave as u64);
    let mut i: usize = 0;
    while i < SCATTERED_COUNT
        invariant
            0 <= i <= SCATTERED_COUNT,
            enemies@.len() == i,
            forall|k: int| 0 <= k < enemies@.len() ==> (#[trigger] enemies@[k]).wf(),
            forall|k: int|
                0 <= k < enemies@.len() ==> 100_000 <= (#[trigger] enemies@[k]).x < 924_000
                    && 60_000 <= enemies@[k].y < 260_000,
            forall|k: int|
                0 <= k < enemies@.len() ==> (#[trigger] enemies@[k]).enemy_type
                    == spec_scattered_type(k, wave) && enemies@[k].health
                    == enemies@[k].enemy_type.spec_initial_health(),
        decreases SCATTERED_COUNT - i,
    {
        let x = rng_below(&mut rng, 100_000, 924_000);
        let y = rng_below(&mut rng, 60_000, 260_000);
        let coin = rng_below(&mut rng, 0, 2);
        let direction: i64 = if coin == 1 {
            1
        } else {
            -1
        };

        let m = i % 7;
        let enemy_type = if m == 0 && wave >= 2 {
            EnemyType::Fast
        } else if (m == 1 || m == 2) && wave >= 3 {
            EnemyType::Tank
        } else if m == 3 && wave >= 4 {
            EnemyType::Swooper
        } else {
            EnemyType::Standard
        };
        proof {
            assert(enemy_type == spec_scattered_type(i as int, wave));
        }
        enemies.push(Enemy::new(x, y, direction, enemy_type));
        i = i + 1;
    }
    enemies
}

/// Formation invariant: every formation pattern is non-empty and of
/// fixed size — the grid always holds its five rows by ten columns — and
/// the grid's positions and directions depend only on the slot, never on
/// the wave number.  Together with `generate_wave`'s contract this pins
/// the whole grid formation to the wave number: two calls with the same
/// wave produce identical grids.
pub proof fn lemma_formation_invariant(w1: u32, w2: u32)
    ensures
        spec_grid_formation(w1).len() == 50,
        spec_v_formation(w1).len() == 56,
        spec_diamond_formation(w1).len() == 25,
        forall|k: int|
            0 <= k < 50 ==> {
                &&& (#[trigger] spec_grid_formation(w1)[k]).x == spec_grid_formation(w2)[k].x
                &&& spec_grid_formation(w1)[k].y == spec_grid_formation(w2)[k].y
                &&& spec_grid_formation(w1)[k].direction == spec_grid_formation(w2)[k].direction
            },
{
    assert(spec_v_formation(w1).len() == 56) by {
        reveal_with_fuel(spec_v_rows, 8);
    }
    assert(spec_diamond_formation(w1).len() == 25) by {
        reveal_with_fuel(spec_diamond_rows, 8);
    }
}

/// Generate the enemies for a wave: formations cycle grid, V-shape,
/// diamond, scattered with the wave number; the result is never empty.
pub fn generate_wave(wave: u32) -> (enemies: Vec<Enemy>)
    ensures
        enemies@.len() > 0,
        forall|k: int| 0 <= k < enemies@.len() ==> (#[trigger] enemies@[k]).wf(),
        wave % 4 == 1 ==> enemies@ == spec_grid_formation(wave),
        wave % 4 == 2 ==> enemies@ == spec_v_formation(wave),
        wave % 4 == 3 ==> enemies@ == spec_diamond_formation(wave),
        wave % 4 == 0 ==> enemies@.len() == 35 && forall|k: int|
            0 <= k < enemies@.len() ==> (#[trigger] enemies@[k]).enemy_type == spec_scattered_type(
                k,
                wave,
            ),
{
    let m = wave % 4;
    if m == 1 {
        generate_grid_formation(wave)
    } else if m == 2 {
        generate_v_formation(wave)
    } else if m == 3 {
        generate_diamond_formation(wave)
    } else {
        generate_scattered_formation(wave)
    }
}

} // verus!
