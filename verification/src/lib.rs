//! Simulation core of a fixed-formation arcade shooter.
//!
//! The library owns the authoritative game state, advances it once per
//! frame, resolves combat between player bullets and the enemy formation,
//! and governs progression between waves until the terminal loss condition.
//!
//! All geometry is fixed-point: coordinates are measured in subpixels
//! (1000 subpixels per screen pixel), speeds in pixels per second, and
//! frame times in milliseconds, so that one frame's movement is exactly
//! `speed * dt` subpixels.

use vstd::prelude::*;

pub mod bullet;
pub mod collision;
pub mod constants;
pub mod enemy;
pub mod explosion;
pub mod formation;
pub mod game;
pub mod highscore;
pub mod player;
mod rng;
pub mod units;
pub mod wave;

pub use bullet::Bullet;
pub use collision::check_collision;
pub use collision::process_collisions;
pub use enemy::Enemy;
pub use enemy::EnemyType;
pub use explosion::Explosion;
pub use game::Game;
pub use game::GameState;
pub use highscore::HighscoreEntry;
pub use highscore::HighscoreManager;
pub use player::Player;
pub use wave::generate_wave;
pub use wave::get_enemy_type_for_row;

verus! {

} // verus!
