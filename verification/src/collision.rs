//! Collision resolution between bullets and the enemy formation.
//!
//! Each bullet scans the formation for the first enemy within the
//! collision radius that has not already been destroyed this pass.  A hit
//! consumes the bullet and damages that enemy; an enemy whose hit points
//! reach zero is recorded as `(x, y, points)` and removed at the end of
//! the pass together with all consumed bullets.  The whole pass is
//! modelled by [`spec_resolve`], which the executable resolver matches
//! exactly.

use vstd::prelude::*;

use crate::bullet::Bullet;
use crate::constants::COLLISION_RADIUS_SQ;
use crate::enemy::Enemy;
use crate::units::in_band;

verus! {

/// A destroyed enemy's position and point value: `(x, y, points)`.
pub type DestroyedRecord = (i64, i64, u32);

/// Squared distance between a bullet and an enemy, in squared subpixels.
pub open spec fn sq_dist(b: Bullet, e: Enemy) -> int {
    (e.x - b.x) * (e.x - b.x) + (e.y - b.y) * (e.y - b.y)
}

/// A bullet hits an enemy exactly when their squared distance is strictly
/// below the squared collision radius.
pub open spec fn spec_hits(b: Bullet, e: Enemy) -> bool {
    sq_dist(b, e) < COLLISION_RADIUS_SQ
}

/// Check whether a bullet collides with an enemy, by squared distances.
pub fn check_collision(bullet: &Bullet, enemy: &Enemy) -> (r: bool)
    requires
        bullet.wf(),
        in_band(enemy.x),
        in_band(enemy.y),
    ensures
        r == spec_hits(*bullet, *enemy),
{
    let dx = enemy.x - bullet.x;
    let dy = enemy.y - bullet.y;
    proof {
        assert(dx * dx <= 4_000_000_000_000_000_000 && dx * dx >= 0) by (nonlinear_arith)
            requires
                -2_000_000_000 <= dx <= 2_000_000_000,
        ;
        assert(dy * dy <= 4_000_000_000_000_000_000 && dy * dy >= 0) by (nonlinear_arith)
            requires
                -2_000_000_000 <= dy <= 2_000_000_000,
        ;
    }
    dx * dx + dy * dy < COLLISION_RADIUS_SQ
}

/// The enemy after one bullet's damage: one hit point fewer, never below
/// zero; everything else unchanged.
pub open spec fn spec_damaged(e: Enemy) -> Enemy {
    Enemy { health: e.spec_damaged_health(), ..e }
}

/// The index of the first enemy at or after `j` that is still alive and
/// within collision radius of `b`, if any.
pub open spec fn find_hit(b: Bullet, es: Seq<Enemy>, j: int) -> Option<int>
    decreases es.len() - j,
{
    if j < 0 || j >= es.len() {
        None
    } else if !es[j].spec_is_destroyed() && spec_hits(b, es[j]) {
        Some(j)
    } else {
        find_hit(b, es, j + 1)
    }
}

/// What `Vec::swap_remove` leaves behind: the last element moved into
/// slot `idx`, then the sequence shortened by one.
pub open spec fn seq_swap_remove<T>(s: Seq<T>, idx: int) -> Seq<T> {
    s.update(idx, s.last()).drop_last()
}

/// The collision pass, one bullet at a time, starting at bullet `idx`
/// with the records `d` already accumulated.
///
/// A bullet whose first live hit exists consumes the bullet
/// (`swap_remove`, as the resolver removes it) and damages that enemy;
/// if the enemy's hit points reach zero its original position and point
/// value are appended to the records.  A bullet that hits nothing
/// survives and the pass moves on.  Destroyed enemies stay in the
/// sequence with zero health; the caller filters them out afterwards.
pub open spec fn spec_resolve(
    bs: Seq<Bullet>,
    es: Seq<Enemy>,
    idx: int,
    d: Seq<DestroyedRecord>,
) -> (Seq<Bullet>, Seq<Enemy>, Seq<DestroyedRecord>)
    decreases bs.len() - idx,
{
    if idx < 0 || idx >= bs.len() {
        (bs, es, d)
    } else {
        match find_hit(bs[idx], es, 0) {
            Option::None => spec_resolve(bs, es, idx + 1, d),
            Option::Some(j) => {
                let e = es[j];
                let e2 = spec_damaged(e);
                let d2 = if e2.health == 0 {
                    d.push((e.x, e.y, e.enemy_type.spec_points()))
                } else {
                    d
                };
                spec_resolve(seq_swap_remove(bs, idx), es.update(j, e2), idx, d2)
            },
        }
    }
}

/// The enemies that survive a pass: those with hit points left.
pub open spec fn spec_live(es: Seq<Enemy>) -> Seq<Enemy> {
    es.filter(|e: Enemy| !e.spec_is_destroyed())
}

/// How many enemies of a formation are still alive.
pub open spec fn num_alive(es: Seq<Enemy>) -> int
    decreases es.len(),
{
    if es.len() == 0 {
        0
    } else {
        num_alive(es.drop_last()) + if !es.last().spec_is_destroyed() {
            1int
        } else {
            0int
        }
    }
}

proof fn lemma_num_alive_bounds(es: Seq<Enemy>)
    ensures
        0 <= num_alive(es) <= es.len(),
    decreases es.len(),
{
    if es.len() > 0 {
        lemma_num_alive_bounds(es.drop_last());
    }
}

proof fn lemma_num_alive_update(es: Seq<Enemy>, j: int, e2: Enemy)
    requires
        0 <= j < es.len(),
    ensures
        num_alive(es.update(j, e2)) == num_alive(es) - (if !es[j].spec_is_destroyed() {
            1int
        } else {
            0int
        }) + (if !e2.spec_is_destroyed() {
            1int
        } else {
            0int
        }),
    decreases es.len(),
{
    let es2 = es.update(j, e2);
    if j == es.len() - 1 {
        assert(es2.drop_last() =~= es.drop_last());
    } else {
        assert(es2.drop_last() =~= es.drop_last().update(j, e2));
        lemma_num_alive_update(es.drop_last(), j, e2);
    }
}

proof fn lemma_find_hit_some(b: Bullet, es: Seq<Enemy>, i: int, j: int)
    requires
        find_hit(b, es, i) == Some(j),
    ensures
        i <= j < es.len(),
        !es[j].spec_is_destroyed(),
        spec_hits(b, es[j]),
    decreases es.len() - i,
{
    if !(i < 0 || i >= es.len()) && !(!es[i].spec_is_destroyed() && spec_hits(b, es[i])) {
        lemma_find_hit_some(b, es, i + 1, j);
    }
}

proof fn lemma_resolve_props(bs: Seq<Bullet>, es: Seq<Enemy>, idx: int, d: Seq<DestroyedRecord>)
    ensures
        ({
            let r = spec_resolve(bs, es, idx, d);
            &&& r.1.len() == es.len()
            &&& r.0.len() <= bs.len()
            &&& d.len() <= r.2.len()
            &&& forall|k: int| 0 <= k < d.len() ==> r.2[k] == d[k]
            &&& r.2.len() - d.len() <= num_alive(es)
            &&& forall|j: int|
                0 <= j < es.len() ==> ((#[trigger] r.1[j]).x == es[j].x && r.1[j].y == es[j].y
                    && r.1[j].enemy_type == es[j].enemy_type && r.1[j].health <= es[j].health)
            &&& forall|k: int|
                d.len() <= k < r.2.len() ==> exists|j: int|
                    0 <= j < es.len() && (#[trigger] r.2[k]).0 == es[j].x && r.2[k].1 == es[j].y
                        && r.2[k].2 == es[j].enemy_type.spec_points()
        }),
    decreases bs.len() - idx,
{
    lemma_num_alive_bounds(es);
    if idx < 0 || idx >= bs.len() {
    } else {
        match find_hit(bs[idx], es, 0) {
            Option::None => {
                lemma_resolve_props(bs, es, idx + 1, d);
            },
            Option::Some(j) => {
                lemma_find_hit_some(bs[idx], es, 0, j);
                let e = es[j];
                let e2 = spec_damaged(e);
                let es2 = es.update(j, e2);
                let d2 = if e2.health == 0 {
                    d.push((e.x, e.y, e.enemy_type.spec_points()))
                } else {
                    d
                };
                let bs2 = seq_swap_remove(bs, idx);
                lemma_num_alive_update(es, j, e2);
                lemma_resolve_props(bs2, es2, idx, d2);
                let r = spec_resolve(bs, es, idx, d);
                assert(r == spec_resolve(bs2, es2, idx, d2));
                assert forall|k: int| 0 <= k < d.len() implies r.2[k] == d[k] by {
                    assert(r.2[k] == d2[k]);
                }
                if e2.health == 0 {
                    assert(d2.len() == d.len() + 1);
                    assert(num_alive(es2) == num_alive(es) - 1);
                    assert(r.2.len() - d.len() <= num_alive(es));
                } else {
                    assert(num_alive(es2) == num_alive(es));
                }
                assert forall|k: int| d.len() <= k < r.2.len() implies exists|jj: int|
                    0 <= jj < es.len() && (#[trigger] r.2[k]).0 == es[jj].x && r.2[k].1 == es[jj].y
                        && r.2[k].2 == es[jj].enemy_type.spec_points() by {
                    if k < d2.len() {
                        assert(r.2[k] == d2[k]);
                        assert(d2[k] == (e.x, e.y, e.enemy_type.spec_points()));
                        assert(0 <= j < es.len() && r.2[k].0 == es[j].x && r.2[k].1 == es[j].y
                            && r.2[k].2 == es[j].enemy_type.spec_points());
                    } else {
                        let jj = choose|jj: int|
                            0 <= jj < es2.len() && (#[trigger] r.2[k]).0 == es2[jj].x && r.2[k].1
                                == es2[jj].y && r.2[k].2 == es2[jj].enemy_type.spec_points();
                        assert(0 <= jj < es.len() && r.2[k].0 == es[jj].x && r.2[k].1 == es[jj].y
                            && r.2[k].2 == es[jj].enemy_type.spec_points());
                    }
                }
            },
        }
    }
}

/// Conservation under collision: one pass never destroys more enemies
/// than the formation held, never consumes more bullets than were live,
/// keeps every surviving enemy's identity intact, and attributes each
/// destroyed record to an original enemy's position and variant point
/// value.
pub proof fn lemma_collision_conservation(bs: Seq<Bullet>, es: Seq<Enemy>)
    ensures
        ({
            let r = spec_resolve(bs, es, 0, Seq::empty());
            &&& r.1.len() == es.len()
            &&& spec_live(r.1).len() <= es.len()
            &&& r.2.len() <= es.len()
            &&& r.0.len() <= bs.len()
            &&& forall|k: int|
                0 <= k < r.2.len() ==> exists|j: int|
                    0 <= j < es.len() && (#[trigger] r.2[k]).0 == es[j].x && r.2[k].1 == es[j].y
                        && r.2[k].2 == es[j].enemy_type.spec_points()
        }),
{
    let r = spec_resolve(bs, es, 0, Seq::empty());
    lemma_resolve_props(bs, es, 0, Seq::empty());
    lemma_num_alive_bounds(es);
    r.1.lemma_filter_len(|e: Enemy| !e.spec_is_destroyed());
}

/// Process collisions between bullets and enemies.
///
/// Damages enemies hit by bullets, removes consumed bullets and destroyed
/// enemies, and fills `destroyed_info` with one `(x, y, points)` record
/// per enemy destroyed this pass.  Empty bullet or enemy collections are
/// no-ops.
pub fn process_collisions(
    enemies: &mut Vec<Enemy>,
    bullets: &mut Vec<Bullet>,
    destroyed_info: &mut Vec<DestroyedRecord>,
)
    requires
        forall|k: int| 0 <= k < old(enemies)@.len() ==> (#[trigger] old(enemies)@[k]).wf(),
        forall|k: int| 0 <= k < old(bullets)@.len() ==> (#[trigger] old(bullets)@[k]).wf(),
    ensures
        ({
            let r = spec_resolve(old(bullets)@, old(enemies)@, 0, Seq::empty());
            &&& final(bullets)@ == r.0
            &&& final(destroyed_info)@ == r.2
            &&& final(enemies)@ == spec_live(r.1)
        }),
        forall|k: int| 0 <= k < final(enemies)@.len() ==> (#[trigger] final(enemies)@[k]).wf(),
        forall|k: int| 0 <= k < final(bullets)@.len() ==> (#[trigger] final(bullets)@[k]).wf(),
{
    destroyed_info.clear();
    let ghost target = spec_resolve(bullets@, enemies@, 0, Seq::empty());

    let mut bullet_idx: usize = 0;
    while bullet_idx < bullets.len()
        invariant
            bullet_idx <= bullets@.len(),
            spec_resolve(bullets@, enemies@, bullet_idx as int, destroyed_info@) == target,
            forall|k: int| 0 <= k < enemies@.len() ==> (#[trigger] enemies@[k]).wf(),
            forall|k: int| 0 <= k < bullets@.len() ==> (#[trigger] bullets@[k]).wf(),
        decreases bullets@.len() - bullet_idx,
    {
        let b = bullets[bullet_idx];

        let mut j: usize = 0;
        let mut hit = false;
        while j < enemies.len()
            invariant_except_break
                0 <= j <= enemies@.len(),
                !hit,
                find_hit(b, enemies@, j as int) == find_hit(b, enemies@, 0),
                forall|k: int| 0 <= k < enemies@.len() ==> (#[trigger] enemies@[k]).wf(),
                b.wf(),
            ensures
                hit ==> j < enemies@.len() && find_hit(b, enemies@, 0) == Some(j as int),
                !hit ==> find_hit(b, enemies@, 0) is None,
                forall|k: int| 0 <= k < enemies@.len() ==> (#[trigger] enemies@[k]).wf(),
            decreases enemies@.len() - j,
        {
            if !enemies[j].is_destroyed() && check_collision(&b, &enemies[j]) {
                hit = true;
                break ;
            }
            j = j + 1;
        }

        if hit {
            let ghost bs0 = bullets@;
            let ghost es0 = enemies@;
            let ghost d0 = destroyed_info@;
            let mut e = enemies[j];
            let destroyed = e.take_damage();
            proof {
                assert(e == spec_damaged(es0[j as int]));
            }
            enemies[j] = e;
            if destroyed {
                destroyed_info.push((e.x, e.y, e.enemy_type.points()));
            }
            bullets.swap_remove(bullet_idx);
            proof {
                assert(enemies@ == es0.update(j as int, spec_damaged(es0[j as int])));
                assert(bullets@ == seq_swap_remove(bs0, bullet_idx as int));
                assert(spec_resolve(bs0, es0, bullet_idx as int, d0) == spec_resolve(
                    bullets@,
                    enemies@,
                    bullet_idx as int,
                    destroyed_info@,
                ));
            }
        } else {
            bullet_idx = bullet_idx + 1;
        }
    }

    let mut kept: Vec<Enemy> = Vec::new();
    let mut i: usize = 0;
    proof {
        reveal(Seq::filter);
        assert(enemies@.subrange(0, 0int).filter(|e: Enemy| !e.spec_is_destroyed())
            =~= Seq::<Enemy>::empty());
    }
    while i < enemies.len()
        invariant
            0 <= i <= enemies@.len(),
            kept@ == enemies@.subrange(0, i as int).filter(|e: Enemy| !e.spec_is_destroyed()),
            forall|k: int| 0 <= k < enemies@.len() ==> (#[trigger] enemies@[k]).wf(),
            forall|k: int| 0 <= k < kept@.len() ==> (#[trigger] kept@[k]).wf(),
        decreases enemies@.len() - i,
    {
        proof {
            reveal(Seq::filter);
            assert(enemies@.subrange(0, i as int + 1).drop_last() =~= enemies@.subrange(
                0,
                i as int,
            ));
            assert(enemies@.subrange(0, i as int + 1).last() == enemies@[i as int]);
        }
        if !enemies[i].is_destroyed() {
            kept.push(enemies[i]);
        }
        i = i + 1;
    }
    proof {
        assert(enemies@.subrange(0, enemies@.len() as int) =~= enemies@);
    }
    *enemies = kept;
}

} // verus!
