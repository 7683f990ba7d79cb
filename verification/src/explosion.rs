//! Explosion animation state, advanced by the simulation and drawn by
//! the presentation layer.

use vstd::prelude::*;

use crate::units::{clip, in_band, spec_sat_add_u32};
use crate::units::{clamp_dt_ms, clip_pos};

verus! {

/// How long each explosion frame is shown, in milliseconds.
pub const EXPLOSION_FRAME_MS: u32 = 100;

/// How many frames an explosion animation has.
pub const EXPLOSION_FRAMES: usize = 3;

/// A short stop-motion explosion left where an enemy was destroyed.
#[derive(Debug, Clone, Copy, PartialEq, Eq, Structural)]
pub struct Explosion {
    /// X position in subpixels.
    pub x: i64,
    /// Y position in subpixels.
    pub y: i64,
    /// Current frame index.
    pub current_frame: usize,
    /// Time accumulated toward the next frame switch, in milliseconds.
    pub frame_timer: u32,
    /// How long each frame is displayed, in milliseconds.
    pub frame_duration: u32,
    /// Total number of frames.
    pub total_frames: usize,
    /// Whether the animation has finished.
    pub finished: bool,
}

impl Explosion {
    /// Create a new explosion centred at the given position.
    pub fn new(x: i64, y: i64) -> (e: Explosion)
        ensures
            e.x == clip(x as int),
            e.y == clip(y as int),
            e.current_frame == 0,
            e.frame_timer == 0,
            e.frame_duration == EXPLOSION_FRAME_MS,
            e.total_frames == EXPLOSION_FRAMES,
            !e.finished,
            in_band(e.x) && in_band(e.y),
    {
        Explosion {
            x: clip_pos(x),
            y: clip_pos(y),
            current_frame: 0,
            frame_timer: 0,
            frame_duration: EXPLOSION_FRAME_MS,
            total_frames: EXPLOSION_FRAMES,
            finished: false,
        }
    }

    /// The explosion one frame later: the timer accumulates until a
    /// frame's duration has passed, then the next frame starts; after the
    /// last frame the animation is finished and never changes again.
    pub open spec fn spec_updated(self, dt: u32) -> Explosion {
        if self.finished {
            self
        } else {
            let t = spec_sat_add_u32(self.frame_timer, (if dt > crate::units::MAX_FRAME_MS {
                crate::units::MAX_FRAME_MS
            } else {
                dt
            }));
            if t >= self.frame_duration {
                let cf = if self.current_frame == usize::MAX {
                    usize::MAX
                } else {
                    (self.current_frame + 1) as usize
                };
                Explosion {
                    frame_timer: 0u32,
                    current_frame: cf,
                    finished: cf >= self.total_frames,
                    ..self
                }
            } else {
                Explosion { frame_timer: t, ..self }
            }
        }
    }

    /// Advance the explosion animation by one frame time.
    pub fn update(&mut self, dt: u32)
        ensures
            *final(self) == old(self).spec_updated(dt),
    {
        if self.finished {
            return ;
        }
        let dtc = clamp_dt_ms(dt);
        let t = if self.frame_timer > u32::MAX - dtc {
            u32::MAX
        } else {
            self.frame_timer + dtc
        };
        if t >= self.frame_duration {
            self.frame_timer = 0;
            if self.current_frame < usize::MAX {
                self.current_frame = self.current_frame + 1;
            }
            if self.current_frame >= self.total_frames {
                self.finished = true;
            }
        } else {
            self.frame_timer = t;
        }
    }

    /// Check whether the animation is complete.
    pub fn is_finished(&self) -> (r: bool)
        ensures
            r == self.finished,
    {
        self.finished
    }
}

} // verus!
