//! Fixed-point units and screen geometry.
//!
//! Coordinates are stored in subpixels (`SUBPIXELS_PER_PIXEL` per screen
//! pixel) as `i64`, speeds in whole pixels per second as `u32`, and frame
//! times in milliseconds as `u32`.  With these units a frame's movement is
//! exactly `speed * dt` subpixels, with no rounding.
//!
//! Every stored coordinate is kept inside `[-POS_LIMIT, POS_LIMIT]` by
//! clipping on construction and after each move; the limit is generous
//! (one thousand screen widths) and exists only so that squared distances
//! fit in `i64`.  Frame times are clamped to `MAX_FRAME_MS` and speeds to
//! `MAX_SPEED`, the simulation's totalisation of absurd inputs: a frame
//! loop never panics, it saturates.

use vstd::prelude::*;

verus! {

/// Subpixels per screen pixel.
pub const SUBPIXELS_PER_PIXEL: i64 = 1000;

/// Screen width in subpixels (1024 pixels).
pub const SCREEN_WIDTH: i64 = 1_024_000;

/// Screen height in subpixels (575 pixels).
pub const SCREEN_HEIGHT: i64 = 575_000;

/// Largest coordinate magnitude the simulation stores.
pub const POS_LIMIT: i64 = 1_000_000_000;

/// Largest frame time an update accepts, in milliseconds.
pub const MAX_FRAME_MS: u32 = 1000;

/// Largest speed an update accepts, in pixels per second.
pub const MAX_SPEED: u32 = 1_000_000;

/// `a + b`, saturating at the top of `u32`.
pub open spec fn spec_sat_add_u32(a: u32, b: u32) -> u32 {
    if a + b > u32::MAX { u32::MAX } else { (a + b) as u32 }
}

/// A coordinate clipped into the representable band.
pub open spec fn clip(v: int) -> int {
    if v > POS_LIMIT { POS_LIMIT as int } else if v < -POS_LIMIT { -(POS_LIMIT as int) } else { v }
}

/// A frame time clamped to at most `MAX_FRAME_MS`.
pub open spec fn clamp_dt(dt: u32) -> int {
    if dt > MAX_FRAME_MS { MAX_FRAME_MS as int } else { dt as int }
}

/// A speed clamped to at most `MAX_SPEED`.
pub open spec fn clamp_speed(speed: u32) -> int {
    if speed > MAX_SPEED { MAX_SPEED as int } else { speed as int }
}

/// True of every stored coordinate.
pub open spec fn in_band(v: i64) -> bool {
    -POS_LIMIT <= v <= POS_LIMIT
}

pub(crate) fn clip_pos(v: i64) -> (r: i64)
    ensures
        r == clip(v as int),
        in_band(r),
{
    if v > POS_LIMIT {
        POS_LIMIT
    } else if v < -POS_LIMIT {
        -POS_LIMIT
    } else {
        v
    }
}

pub(crate) fn clamp_dt_ms(dt: u32) -> (r: u32)
    ensures
        r == clamp_dt(dt),
        r <= MAX_FRAME_MS,
{
    if dt > MAX_FRAME_MS {
        MAX_FRAME_MS
    } else {
        dt
    }
}

pub(crate) fn clamp_speed_pps(speed: u32) -> (r: u32)
    ensures
        r == clamp_speed(speed),
        r <= MAX_SPEED,
{
    if speed > MAX_SPEED {
        MAX_SPEED
    } else {
        speed
    }
}

/// One frame's movement in subpixels: clamped speed times clamped time.
pub open spec fn step_len(speed: u32, dt: u32) -> int {
    clamp_speed(speed) * clamp_dt(dt)
}

pub(crate) proof fn lemma_step_len_bounds(speed: u32, dt: u32)
    ensures
        0 <= step_len(speed, dt) <= POS_LIMIT,
{
    assert(clamp_speed(speed) <= MAX_SPEED as int);
    assert(clamp_dt(dt) <= MAX_FRAME_MS as int);
    assert(clamp_speed(speed) * clamp_dt(dt) <= MAX_SPEED as int * MAX_FRAME_MS as int) by (nonlinear_arith)
        requires
            0 <= clamp_speed(speed) <= MAX_SPEED as int,
            0 <= clamp_dt(dt) <= MAX_FRAME_MS as int,
    ;
    assert(clamp_speed(speed) * clamp_dt(dt) >= 0) by (nonlinear_arith)
        requires
            0 <= clamp_speed(speed),
            0 <= clamp_dt(dt),
    ;
}

/// One frame's movement, computed exactly in `i64`.
pub(crate) fn step_subpixels(speed: u32, dt: u32) -> (r: i64)
    ensures
        r == step_len(speed, dt),
        0 <= r <= POS_LIMIT,
{
    let s = clamp_speed_pps(speed) as i64;
    let t = clamp_dt_ms(dt) as i64;
    proof {
        lemma_step_len_bounds(speed, dt);
    }
    s * t
}

} // verus!
