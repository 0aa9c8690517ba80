//! Deterministic simulation core of a side-scrolling platformer.
//!
//! All quantities are fixed-point integers: lengths in thousandths of a
//! pixel, speeds in thousandths of a pixel per second, times in
//! microseconds. Every sum saturates, so no step of the simulation can
//! leave the range of its numbers.
//!
//! Nothing in this crate draws, decodes pictures or polls a device.
//! Callers hand in the player's intent, the timing of the sprite files and
//! the text of the tile maps, and read back positions and which clip to
//! show how far in. Where the simulation
//! needs a sine, it says of what and is handed the value: the wave of a
//! wandering enemy (`enemies::Enemy::wander_argument`), and the point a
//! swing on the lasso reaches (`player::Player::swing_turn`).
//!
//! A frame of the whole game is `game::Game::update`.

pub mod assets;
pub mod bosses;
pub mod enemies;
pub mod fixed;
pub mod game;
pub mod horses;
pub mod player;
pub mod projectiles;
pub mod tower;
pub mod utils;
