//! Bullet entity: fired by the player, moves straight up.

use vstd::prelude::*;

use crate::constants::BULLET_SPEED;
use crate::units::{clip, in_band, step_len, SCREEN_WIDTH};
use crate::units::{clip_pos, step_subpixels};

verus! {

/// A bullet fired by the player.
///
/// Bullets move upward at a constant speed until they hit an enemy or
/// leave the screen.
#[derive(Debug, Clone, Copy, PartialEq, Eq, Structural)]
pub struct Bullet {
    /// X position in subpixels.
    pub x: i64,
    /// Y position in subpixels.
    pub y: i64,
}

impl Bullet {
    /// Positions are stored clipped.
    pub open spec fn wf(self) -> bool {
        in_band(self.x) && in_band(self.y)
    }

    /// Create a new bullet at the given position (clipped into the
    /// representable coordinate band).
    pub fn new(x: i64, y: i64) -> (b: Bullet)
        ensures
            b.x == clip(x as int),
            b.y == clip(y as int),
            b.wf(),
    {
        Bullet { x: clip_pos(x), y: clip_pos(y) }
    }

    /// Where one frame moves this bullet: straight up, no horizontal drift.
    pub open spec fn spec_moved_y(self, dt: u32) -> i64 {
        clip(self.y - step_len(BULLET_SPEED, dt)) as i64
    }

    /// Advance the bullet by one frame.
    pub fn update(&mut self, dt: u32)
        requires
            old(self).wf(),
        ensures
            final(self).y == old(self).spec_moved_y(dt),
            final(self).x == old(self).x,
            final(self).wf(),
    {
        let step = step_subpixels(BULLET_SPEED, dt);
        self.y = clip_pos(self.y - step);
    }

    /// True when the bullet is outside the screen: past the top edge or
    /// beyond either side.
    pub open spec fn spec_is_out_of_bounds(self) -> bool {
        self.y < 0 || self.x < 0 || self.x > SCREEN_WIDTH
    }

    /// Check whether the bullet has left the screen.
    pub fn is_out_of_bounds(&self) -> (r: bool)
        ensures
            r == self.spec_is_out_of_bounds(),
    {
        self.y < 0 || self.x < 0 || self.x > SCREEN_WIDTH
    }
}

} // verus!
