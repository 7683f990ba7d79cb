//! Wave/descent coordination: the formation's horizontal sweep, edge
//! reversal, and timed vertical descent.
//!
//! The formation is in one of two modes, decided by the remaining descent
//! distance: while it is positive the formation only descends, and while
//! it is zero the formation only sweeps horizontally.  The frame any
//! enemy reaches the edge it is moving toward, every direction reverses,
//! overshooting enemies are clamped back inside the margin, and a fixed
//! descent step is scheduled.  Horizontal and vertical movement are
//! mutually exclusive within a frame: `advance_formation`'s contract
//! states that no x coordinate changes while descent is pending and no y
//! coordinate changes while it is not.

use vstd::prelude::*;

use crate::constants::{DESCENT_STEP, EDGE_MARGIN};
use crate::enemy::Enemy;
use crate::units::{clip, step_len, POS_LIMIT, SCREEN_WIDTH};
use crate::units::step_subpixels;

verus! {

/// How far the formation drops this frame and what descent remains:
/// the frame's potential descent, capped so the fixed step is never
/// overshot.
pub open spec fn spec_descent_step(d: int, descent_speed: u32, dt: u32) -> (int, int) {
    let step = step_len(descent_speed, dt);
    if step >= d {
        (d, 0)
    } else {
        (step, d - step)
    }
}

/// An enemy after one frame of the horizontal sweep.
pub open spec fn spec_swept_enemy(e: Enemy, speed: u32, dt: u32) -> Enemy {
    Enemy { x: e.spec_moved_x(speed, dt), ..e }
}

/// The formation after one frame of the horizontal sweep.
pub open spec fn spec_swept(es: Seq<Enemy>, speed: u32, dt: u32) -> Seq<Enemy> {
    Seq::new(es.len(), |i: int| spec_swept_enemy(es[i], speed, dt))
}

/// True when some enemy has reached the edge it is moving toward.
pub open spec fn spec_any_at_edge(es: Seq<Enemy>) -> bool {
    exists|i: int| 0 <= i < es.len() && (#[trigger] es[i]).spec_at_facing_edge()
}

/// True when some enemy has breached the defender line.
pub open spec fn spec_any_breached(es: Seq<Enemy>) -> bool {
    exists|i: int| 0 <= i < es.len() && (#[trigger] es[i]).spec_has_breached_defender_line()
}

/// An x coordinate pulled back inside the screen margins.
pub open spec fn spec_clamp_margin(x: int) -> int {
    if x < EDGE_MARGIN {
        EDGE_MARGIN as int
    } else if x > SCREEN_WIDTH - EDGE_MARGIN {
        SCREEN_WIDTH - EDGE_MARGIN
    } else {
        x
    }
}

/// An enemy at the moment of edge reversal: direction flipped, position
/// clamped back inside the margin.
pub open spec fn spec_reversed_enemy(e: Enemy) -> Enemy {
    Enemy {
        x: spec_clamp_margin(e.x as int) as i64,
        direction: if e.direction == 1 {
            -1i64
        } else {
            1i64
        },
        ..e
    }
}

/// The formation at the moment of edge reversal.
pub open spec fn spec_reversed(es: Seq<Enemy>) -> Seq<Enemy> {
    Seq::new(es.len(), |i: int| spec_reversed_enemy(es[i]))
}

/// The formation and remaining descent after one frame: the descent
/// branch while descent is pending, the sweep-and-maybe-reverse branch
/// otherwise.
pub open spec fn spec_formation_step(
    es: Seq<Enemy>,
    dd: int,
    descent_speed: u32,
    enemy_speed: u32,
    dt: u32,
) -> (Seq<Enemy>, int) {
    if dd > 0 {
        let (drop, rem) = spec_descent_step(dd, descent_speed, dt);
        (Seq::new(es.len(), |i: int| Enemy { y: clip(es[i].y + drop) as i64, ..es[i] }), rem)
    } else {
        let moved = spec_swept(es, enemy_speed, dt);
        if spec_any_at_edge(moved) {
            (spec_reversed(moved), DESCENT_STEP as int)
        } else {
            (moved, 0)
        }
    }
}

/// Check whether any enemy has breached the defender line.
pub fn any_breached(enemies: &Vec<Enemy>) -> (r: bool)
    ensures
        r == spec_any_breached(enemies@),
{
    let mut i: usize = 0;
    while i < enemies.len()
        invariant
            0 <= i <= enemies@.len(),
            forall|k: int|
                0 <= k < i ==> !(#[trigger] enemies@[k]).spec_has_breached_defender_line(),
        decreases enemies@.len() - i,
    {
        if enemies[i].has_breached_defender_line() {
            return true;
        }
        i = i + 1;
    }
    false
}

/// Advance the formation by one frame.
///
/// While `descent_distance` is positive the whole formation descends by
/// the frame's potential descent — capped at the remaining distance, so
/// the fixed step is never overshot — and no x coordinate or direction
/// changes.  Otherwise the formation sweeps horizontally, and the frame
/// any enemy reaches its facing edge all directions reverse, overshooting
/// enemies are clamped back inside the margin, and a full descent step is
/// scheduled; no y coordinate changes in this mode.
pub fn advance_formation(
    enemies: &mut Vec<Enemy>,
    descent_distance: &mut i64,
    descent_speed: u32,
    enemy_speed: u32,
    dt: u32,
)
    requires
        forall|k: int| 0 <= k < old(enemies)@.len() ==> (#[trigger] old(enemies)@[k]).wf(),
        0 <= *old(descent_distance) <= POS_LIMIT,
    ensures
        final(enemies)@.len() == old(enemies)@.len(),
        forall|k: int| 0 <= k < final(enemies)@.len() ==> (#[trigger] final(enemies)@[k]).wf(),
        0 <= *final(descent_distance) <= POS_LIMIT,
        (final(enemies)@, *final(descent_distance) as int) == spec_formation_step(
            old(enemies)@,
            *old(descent_distance) as int,
            descent_speed,
            enemy_speed,
            dt,
        ),
// While descending: y advances by the capped step, nothing else moves.
        *old(descent_distance) > 0 ==> {
            let (drop, rem) = spec_descent_step(
                *old(descent_distance) as int,
                descent_speed,
                dt,
            );
            &&& *final(descent_distance) == rem
            &&& forall|k: int|
                0 <= k < old(enemies)@.len() ==> final(enemies)@[k] == (Enemy {
                    y: clip(old(enemies)@[k].y + drop) as i64,
                    ..old(enemies)@[k]
                })
        },
        *old(descent_distance) > 0 ==> forall|k: int|
            0 <= k < old(enemies)@.len() ==> (#[trigger] final(enemies)@[k]).x
                == old(enemies)@[k].x && final(enemies)@[k].direction
                == old(enemies)@[k].direction,
// While sweeping: x advances, with a coordinated reversal at the edge;
// no y coordinate changes.
        *old(descent_distance) == 0 ==> {
            let moved = spec_swept(old(enemies)@, enemy_speed, dt);
            if spec_any_at_edge(moved) {
                &&& final(enemies)@ == spec_reversed(moved)
                &&& *final(descent_distance) == DESCENT_STEP
            } else {
                &&& final(enemies)@ == moved
                &&& *final(descent_distance) == 0
            }
        },
        *old(descent_distance) == 0 ==> forall|k: int|
            0 <= k < old(enemies)@.len() ==> (#[trigger] final(enemies)@[k]).y
                == old(enemies)@[k].y,
{
    let ghost es0 = enemies@;
    if *descent_distance > 0 {
        let step = step_subpixels(descent_speed, dt);
        let drop: i64 = if step >= *descent_distance {
            *descent_distance
        } else {
            step
        };
        let mut i: usize = 0;
        while i < enemies.len()
            invariant
                0 <= i <= enemies@.len(),
                enemies@.len() == es0.len(),
                0 <= drop <= POS_LIMIT,
                forall|k: int| 0 <= k < es0.len() ==> (#[trigger] es0[k]).wf(),
                forall|k: int|
                    0 <= k < i ==> enemies@[k] == (Enemy {
                        y: clip(es0[k].y + drop) as i64,
                        ..es0[k]
                    }),
                forall|k: int| i <= k < es0.len() ==> enemies@[k] == es0[k],
            decreases enemies@.len() - i,
        {
            let mut e = enemies[i];
            e.move_down(drop);
            enemies[i] = e;
            i = i + 1;
        }
        if step >= *descent_distance {
            *descent_distance = 0;
        } else {
            *descent_distance = *descent_distance - step;
        }
    } else {
        let mut i: usize = 0;
        while i < enemies.len()
            invariant
                0 <= i <= enemies@.len(),
                enemies@.len() == es0.len(),
                forall|k: int| 0 <= k < es0.len() ==> (#[trigger] es0[k]).wf(),
                forall|k: int| 0 <= k < i ==> enemies@[k] == spec_swept_enemy(es0[k], enemy_speed, dt),
                forall|k: int| i <= k < es0.len() ==> enemies@[k] == es0[k],
            decreases enemies@.len() - i,
        {
            let mut e = enemies[i];
            e.update(enemy_speed, dt);
            enemies[i] = e;
            i = i + 1;
        }
        proof {
            assert(enemies@ =~= spec_swept(es0, enemy_speed, dt));
        }
        let ghost moved = enemies@;

        let mut edge_reached = false;
        let mut j: usize = 0;
        while j < enemies.len()
            invariant_except_break
                0 <= j <= enemies@.len(),
                enemies@ == moved,
                !edge_reached,
                forall|k: int| 0 <= k < j ==> !(#[trigger] enemies@[k]).spec_at_facing_edge(),
            ensures
                enemies@ == moved,
                edge_reached == spec_any_at_edge(moved),
            decreases enemies@.len() - j,
        {
            if enemies[j].at_facing_edge() {
                edge_reached = true;
                break ;
            }
            j = j + 1;
        }

        if edge_reached {
            let mut i: usize = 0;
            while i < enemies.len()
                invariant
                    0 <= i <= enemies@.len(),
                    enemies@.len() == moved.len(),
                    forall|k: int| 0 <= k < moved.len() ==> (#[trigger] moved[k]).wf(),
                    forall|k: int| 0 <= k < i ==> enemies@[k] == spec_reversed_enemy(moved[k]),
                    forall|k: int| i <= k < moved.len() ==> enemies@[k] == moved[k],
                decreases enemies@.len() - i,
            {
                let e = enemies[i];
                let new_x: i64 = if e.x < EDGE_MARGIN {
                    EDGE_MARGIN
                } else if e.x > SCREEN_WIDTH - EDGE_MARGIN {
                    SCREEN_WIDTH - EDGE_MARGIN
                } else {
                    e.x
                };
                let new_direction: i64 = if e.direction == 1 {
                    -1
                } else {
                    1
                };
                enemies[i] = Enemy {
                    x: new_x,
                    y: e.y,
                    direction: new_direction,
                    enemy_type: e.enemy_type,
                    health: e.health,
                };
                i = i + 1;
            }
            proof {
                assert(enemies@ =~= spec_reversed(moved));
            }
            *descent_distance = DESCENT_STEP;
        }
    }
}

} // verus!
