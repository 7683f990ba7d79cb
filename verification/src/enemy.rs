//! Enemy entity: position, per-row movement direction, variant and health.

use vstd::prelude::*;

use crate::constants::{DEFENDER_LINE, EDGE_MARGIN};
use crate::units::{clip, in_band, step_len, SCREEN_HEIGHT, SCREEN_WIDTH};
use crate::units::{clip_pos, step_subpixels};

verus! {

/// Enemy variant: decides starting hit points and point value.
#[derive(Debug, Clone, Copy, PartialEq, Eq, Structural)]
pub enum EnemyType {
    /// Ordinary enemy: one hit point, ten points.
    Standard,
    /// Fast enemy: one hit point, twenty points.
    Fast,
    /// Tank enemy: three hit points, fifty points.
    Tank,
    /// Swooper enemy: one hit point, thirty points.
    Swooper,
}

impl EnemyType {
    /// Points awarded when an enemy of this variant is destroyed.
    pub open spec fn spec_points(self) -> u32 {
        match self {
            EnemyType::Standard => 10u32,
            EnemyType::Fast => 20u32,
            EnemyType::Tank => 50u32,
            EnemyType::Swooper => 30u32,
        }
    }

    /// Hit points an enemy of this variant starts with.
    pub open spec fn spec_initial_health(self) -> u32 {
        match self {
            EnemyType::Tank => 3u32,
            _ => 1u32,
        }
    }

    /// Points awarded when an enemy of this variant is destroyed.
    #[verifier::when_used_as_spec(spec_points)]
    pub fn points(self) -> (r: u32)
        ensures
            r == self.spec_points(),
    {
        match self {
            EnemyType::Standard => 10,
            EnemyType::Fast => 20,
            EnemyType::Tank => 50,
            EnemyType::Swooper => 30,
        }
    }

    /// Hit points an enemy of this variant starts with.
    #[verifier::when_used_as_spec(spec_initial_health)]
    pub fn initial_health(self) -> (r: u32)
        ensures
            r == self.spec_initial_health(),
    {
        match self {
            EnemyType::Tank => 3,
            _ => 1,
        }
    }
}

/// An enemy of the active formation.
///
/// Enemies sweep horizontally in their own direction, descend as a group
/// after reaching a screen edge, and end the game if they breach the
/// defender line.
#[derive(Debug, Clone, Copy, PartialEq, Eq, Structural)]
pub struct Enemy {
    /// X position in subpixels.
    pub x: i64,
    /// Y position in subpixels.
    pub y: i64,
    /// Movement direction: `1` moves right, `-1` moves left.
    pub direction: i64,
    /// Variant, deciding point value and starting hit points.
    pub enemy_type: EnemyType,
    /// Remaining hit points; the enemy is destroyed at zero.
    pub health: u32,
}

impl Enemy {
    /// Positions are stored clipped and the direction is a unit sign.
    pub open spec fn wf(self) -> bool {
        &&& in_band(self.x)
        &&& in_band(self.y)
        &&& self.direction == 1 || self.direction == -1
    }

    /// The direction sign a constructor stores for a requested direction.
    pub open spec fn spec_norm_direction(direction: i64) -> i64 {
        if direction < 0 { -1i64 } else { 1i64 }
    }

    /// Create a new enemy at the given position.
    ///
    /// The position is clipped into the representable coordinate band, the
    /// direction is reduced to its sign (non-negative counts as right), and
    /// health starts at the variant's full hit points.
    pub fn new(x: i64, y: i64, direction: i64, enemy_type: EnemyType) -> (e: Enemy)
        ensures
            e.x == clip(x as int),
            e.y == clip(y as int),
            e.direction == Self::spec_norm_direction(direction),
            e.enemy_type == enemy_type,
            e.health == enemy_type.spec_initial_health(),
            e.wf(),
    {
        Enemy {
            x: clip_pos(x),
            y: clip_pos(y),
            direction: if direction < 0 { -1 } else { 1 },
            enemy_type,
            health: enemy_type.initial_health(),
        }
    }

    /// Where a horizontal sweep moves this enemy in one frame.
    pub open spec fn spec_moved_x(self, speed: u32, dt: u32) -> i64 {
        clip(self.x + self.direction * step_len(speed, dt)) as i64
    }

    /// Advance the enemy horizontally by one frame in its own direction.
    pub fn update(&mut self, speed: u32, dt: u32)
        requires
            old(self).wf(),
        ensures
            final(self).x == old(self).spec_moved_x(speed, dt),
            final(self).y == old(self).y,
            final(self).direction == old(self).direction,
            final(self).enemy_type == old(self).enemy_type,
            final(self).health == old(self).health,
            final(self).wf(),
    {
        let step = step_subpixels(speed, dt);
        self.x = clip_pos(self.x + self.direction * step);
    }

    /// Move the enemy down by `dist` subpixels (clipped).
    pub fn move_down(&mut self, dist: i64)
        requires
            old(self).wf(),
            0 <= dist <= crate::units::POS_LIMIT,
        ensures
            final(self).y == clip(old(self).y + dist),
            final(self).x == old(self).x,
            final(self).direction == old(self).direction,
            final(self).enemy_type == old(self).enemy_type,
            final(self).health == old(self).health,
            final(self).wf(),
    {
        self.y = clip_pos(self.y + dist);
    }

    /// True when the enemy is past the defender line near the screen bottom.
    pub open spec fn spec_has_breached_defender_line(self) -> bool {
        self.y > SCREEN_HEIGHT - DEFENDER_LINE
    }

    /// Check whether the enemy has breached the defender line (game over).
    pub fn has_breached_defender_line(&self) -> (r: bool)
        ensures
            r == self.spec_has_breached_defender_line(),
    {
        self.y > SCREEN_HEIGHT - DEFENDER_LINE
    }

    /// True when the enemy has reached the edge it is moving toward.
    pub open spec fn spec_at_facing_edge(self) -> bool {
        ||| self.direction > 0 && self.x >= SCREEN_WIDTH - EDGE_MARGIN
        ||| self.direction < 0 && self.x <= EDGE_MARGIN
    }

    /// Check whether the enemy has reached the edge it is moving toward.
    pub fn at_facing_edge(&self) -> (r: bool)
        ensures
            r == self.spec_at_facing_edge(),
    {
        (self.direction > 0 && self.x >= SCREEN_WIDTH - EDGE_MARGIN) || (self.direction < 0
            && self.x <= EDGE_MARGIN)
    }

    /// True when the enemy has no hit points left.
    pub open spec fn spec_is_destroyed(self) -> bool {
        self.health == 0
    }

    /// Check whether the enemy is destroyed.
    pub fn is_destroyed(&self) -> (r: bool)
        ensures
            r == self.spec_is_destroyed(),
    {
        self.health == 0
    }

    /// The hit points left after one hit.
    pub open spec fn spec_damaged_health(self) -> u32 {
        if self.health > 0 { (self.health - 1) as u32 } else { 0u32 }
    }

    /// Apply one bullet's damage; report whether the enemy is now destroyed.
    pub fn take_damage(&mut self) -> (destroyed: bool)
        ensures
            final(self).health == old(self).spec_damaged_health(),
            destroyed == (final(self).health == 0),
            final(self).x == old(self).x,
            final(self).y == old(self).y,
            final(self).direction == old(self).direction,
            final(self).enemy_type == old(self).enemy_type,
            old(self).wf() ==> final(self).wf(),
    {
        if self.health > 0 {
            self.health = self.health - 1;
        }
        self.health == 0
    }
}

} // verus!
