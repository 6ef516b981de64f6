//! Gameplay rules of a small 2D platformer: the per-tick motion intent that
//! the player's keys produce, and the physical policy given to the player,
//! the obstacle and every piece of tile geometry that a loaded map yields.

pub mod bodies;
pub mod controls;
