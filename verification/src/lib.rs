//! A verified core for a tile-based side-scrolling action game.
//!
//! The crate holds the rules of the game as plain data and functions: the
//! tile map, box overlap and wall correction, the player's movement, the
//! weapons, the enemies' behaviour and the progression through scenes. Each
//! function states what it computes in its contract, and Verus proves it.
//!
//! Lengths, positions and speeds are integers counted in millionths of a
//! world unit, so that every formula of the game is exact.

pub mod geometry;
pub mod tilemap;
pub mod timer;
pub mod contact;
pub mod player;
pub mod weapon;
pub mod enemy;
mod random;
pub mod consts;
pub mod scene;
pub mod game;
pub mod screen;
