//! Player entity: paddle position, upgrade level, and bullet spawning.

use vstd::prelude::*;

use crate::bullet::Bullet;
use crate::constants::{BASE_WIDTH_INCREASE, MAX_SHOTS, PLAYER_START_WIDTH};
use crate::units::{clip, in_band, step_len, POS_LIMIT, SCREEN_HEIGHT, SCREEN_WIDTH};
use crate::units::{clip_pos, step_subpixels};

verus! {

/// X position the player starts at: the screen's centre, in subpixels.
pub const PLAYER_START_X: i64 = 512_000;

/// Y position of the player (and of freshly fired bullets), in subpixels.
pub const PLAYER_Y: i64 = 525_000;

/// Height of the player's paddle, in subpixels.
pub const PLAYER_HEIGHT: i64 = 20_000;

/// The player's paddle.
///
/// The paddle moves horizontally, fires bullets, and is upgraded with
/// more firepower and a wider base after each cleared wave.
#[derive(Debug, Clone, PartialEq, Eq, Structural)]
pub struct Player {
    /// X position of the paddle's centre, in subpixels.
    pub x: i64,
    /// Width of the paddle's base, in subpixels.
    pub base_width: i64,
    /// Bullets fired per trigger pull.
    pub available_shots: u32,
}

impl Player {
    /// The position is in the representable band and the width non-negative.
    pub open spec fn wf(self) -> bool {
        &&& in_band(self.x)
        &&& 0 <= self.base_width <= POS_LIMIT
    }

    /// The paddle's starting state: centred, narrow, a single shot.
    pub open spec fn spec_initial() -> Player {
        Player { x: PLAYER_START_X, base_width: PLAYER_START_WIDTH, available_shots: 1u32 }
    }

    /// Create a new player at the default starting position.
    pub fn new() -> (p: Player)
        ensures
            p == Self::spec_initial(),
            p.wf(),
    {
        Player { x: PLAYER_START_X, base_width: PLAYER_START_WIDTH, available_shots: 1 }
    }

    /// `x` clamped to keep the whole base on screen: at least half the base
    /// from either edge.
    pub open spec fn spec_clamped_x(x: int, base_width: int) -> int {
        let lo = base_width / 2;
        let hi = SCREEN_WIDTH - base_width / 2;
        if x < lo {
            lo
        } else if x > hi {
            hi
        } else {
            x
        }
    }

    /// Clamp the paddle to the screen boundaries.
    pub fn clamp_position(&mut self)
        requires
            old(self).wf(),
        ensures
            final(self).x == Self::spec_clamped_x(old(self).x as int, old(self).base_width as int),
            final(self).base_width == old(self).base_width,
            final(self).available_shots == old(self).available_shots,
            final(self).wf(),
    {
        let lo = self.base_width / 2;
        let hi = SCREEN_WIDTH - self.base_width / 2;
        if self.x < lo {
            self.x = lo;
        } else if self.x > hi {
            self.x = hi;
        }
    }

    /// Where one leftward frame moves the paddle: speed times time, then
    /// clamped to the screen.
    pub open spec fn spec_moved_left_x(self, dt: u32, speed: u32) -> int {
        Self::spec_clamped_x(clip(self.x - step_len(speed, dt)), self.base_width as int)
    }

    /// Where one rightward frame moves the paddle.
    pub open spec fn spec_moved_right_x(self, dt: u32, speed: u32) -> int {
        Self::spec_clamped_x(clip(self.x + step_len(speed, dt)), self.base_width as int)
    }

    /// Move the paddle left for one frame, clamped to the screen.
    pub fn move_left(&mut self, dt: u32, speed: u32)
        requires
            old(self).wf(),
        ensures
            final(self).x == old(self).spec_moved_left_x(dt, speed),
            final(self).base_width == old(self).base_width,
            final(self).available_shots == old(self).available_shots,
            final(self).wf(),
    {
        let step = step_subpixels(speed, dt);
        self.x = clip_pos(self.x - step);
        self.clamp_position();
    }

    /// Move the paddle right for one frame, clamped to the screen.
    pub fn move_right(&mut self, dt: u32, speed: u32)
        requires
            old(self).wf(),
        ensures
            final(self).x == old(self).spec_moved_right_x(dt, speed),
            final(self).base_width == old(self).base_width,
            final(self).available_shots == old(self).available_shots,
            final(self).wf(),
    {
        let step = step_subpixels(speed, dt);
        self.x = clip_pos(self.x + step);
        self.clamp_position();
    }

    /// The gap between neighbouring shots: the base split into
    /// `available_shots + 1` even parts.
    pub open spec fn spec_shot_offset(self) -> int {
        self.base_width as int / (self.available_shots + 1)
    }

    /// The bullet spawned in slot `i` (zero-based) of a trigger pull:
    /// spread evenly across the base, all at the player's fixed height.
    pub open spec fn spec_shot_bullet(self, i: int) -> Bullet {
        Bullet {
            x: clip(self.x - self.base_width / 2 + self.spec_shot_offset() * (i + 1)) as i64,
            y: PLAYER_Y,
        }
    }

    /// Fire `available_shots` bullets evenly spaced across the base,
    /// pushing them into the provided buffer.
    pub fn shoot(&self, out: &mut Vec<Bullet>)
        requires
            self.wf(),
        ensures
            final(out)@.len() == old(out)@.len() + self.available_shots,
            forall|k: int|
                0 <= k < old(out)@.len() ==> final(out)@[k] == old(out)@[k],
            forall|i: int|
                0 <= i < self.available_shots ==> final(out)@[old(out)@.len() + i]
                    == self.spec_shot_bullet(i),
    {
        let shots = self.available_shots;
        let offset: i64 = self.base_width / (shots as i64 + 1);
        let half: i64 = self.base_width / 2;
        proof {
            vstd::arithmetic::div_mod::lemma_remainder_lower(
                self.base_width as int,
                shots as int + 1,
            );
        }
        let ghost start_len = out@.len();
        let mut i: u32 = 0;
        while i < shots
            invariant
                self.wf(),
                0 <= i <= shots,
                shots == self.available_shots,
                offset == self.spec_shot_offset(),
                half == self.base_width as int / 2,
                0 <= offset,
                self.base_width as int / (shots as int + 1) * (shots as int + 1)
                    <= self.base_width,
                out@.len() == start_len + i,
                forall|k: int| 0 <= k < start_len ==> out@[k] == old(out)@[k],
                forall|j: int| 0 <= j < i ==> out@[start_len + j] == self.spec_shot_bullet(j),
            decreases shots - i,
        {
            proof {
                assert(offset * (i as int + 1) <= offset * (shots as int + 1)) by (nonlinear_arith)
                    requires
                        0 <= offset,
                        i as int + 1 <= shots as int + 1,
                ;
                assert(offset * (i as int + 1) >= 0) by (nonlinear_arith)
                    requires
                        0 <= offset,
                        0 <= i as int + 1,
                ;
            }
            let bullet_x = self.x - half + offset * (i as i64 + 1);
            out.push(Bullet::new(bullet_x, PLAYER_Y));
            i = i + 1;
        }
    }

    /// The state one upgrade step leaves the paddle in: one more shot and a
    /// wider base, until the shot cap; a no-op at the cap.
    pub open spec fn spec_upgraded(self) -> Player {
        if self.available_shots < MAX_SHOTS {
            Player {
                x: self.x,
                base_width: clip(self.base_width + BASE_WIDTH_INCREASE) as i64,
                available_shots: (self.available_shots + 1) as u32,
            }
        } else {
            self
        }
    }

    /// Upgrade the paddle with one more shot and a wider base, capped at
    /// `MAX_SHOTS`; upgrades beyond the cap are no-ops.
    pub fn upgrade(&mut self)
        requires
            old(self).wf(),
        ensures
            *final(self) == old(self).spec_upgraded(),
            final(self).wf(),
    {
        if self.available_shots < MAX_SHOTS {
            self.available_shots = self.available_shots + 1;
            self.base_width = clip_pos(self.base_width + BASE_WIDTH_INCREASE);
        }
    }

    /// Restore the paddle to its starting state.
    pub fn reset(&mut self)
        ensures
            *final(self) == Self::spec_initial(),
            final(self).wf(),
    {
        self.x = PLAYER_START_X;
        self.base_width = PLAYER_START_WIDTH;
        self.available_shots = 1;
    }

    /// The paddle's fixed Y position, in subpixels.
    pub fn y(&self) -> (r: i64)
        ensures
            r == PLAYER_Y,
    {
        PLAYER_Y
    }

    /// The paddle's height, in subpixels.
    pub fn height(&self) -> (r: i64)
        ensures
            r == PLAYER_HEIGHT,
    {
        PLAYER_HEIGHT
    }
}

} // verus!
