//! Gameplay constants.
//!
//! Distances are in subpixels (1000 per screen pixel), speeds in pixels
//! per second, point values in points.

use vstd::prelude::*;

verus! {

/// Player movement speed in pixels per second.
pub const PLAYER_SPEED: u32 = 300;

/// Bullet movement speed in pixels per second.
pub const BULLET_SPEED: u32 = 700;

/// Enemy movement speed on the first wave, in pixels per second.
pub const INITIAL_ENEMY_SPEED: u32 = 150;

/// Distance from the bottom of the screen to the defender line, in subpixels.
pub const DEFENDER_LINE: i64 = 100_000;

/// Collision radius between a bullet and an enemy, in subpixels.
pub const COLLISION_RADIUS: i64 = 20_000;

/// Squared collision radius, in squared subpixels.
pub const COLLISION_RADIUS_SQ: i64 = 400_000_000;

/// Points awarded for destroying one standard enemy.
pub const POINTS_PER_ENEMY: u32 = 10;

/// Enemy speed increase per cleared wave, in pixels per second.
pub const SPEED_INCREASE_PER_WAVE: u32 = 20;

/// Player base-width increase per upgrade, in subpixels.
pub const BASE_WIDTH_INCREASE: i64 = 20_000;

/// Player base width at the start of a game, in subpixels.
pub const PLAYER_START_WIDTH: i64 = 50_000;

/// Most bullets the player can fire per trigger pull.
pub const MAX_SHOTS: u32 = 3;

/// Margin from either screen edge at which the formation reverses, in subpixels.
pub const EDGE_MARGIN: i64 = 20_000;

/// Vertical distance of one formation descent, in subpixels.
pub const DESCENT_STEP: i64 = 40_000;

/// Speed of the formation's descent, in pixels per second.
pub const DESCENT_SPEED: u32 = 100;

} // verus!
