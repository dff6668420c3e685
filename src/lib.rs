//! A vertically scrolling river-raid simulation: terrain generation,
//! scrolling, and the rules that resolve collisions between the craft,
//! the river banks, enemies, bullets and fuel pickups.

pub mod entities;
mod random;
pub mod world;
pub mod rules;
pub mod resolve;
pub mod parallel;
pub mod terrain;
pub mod scroll;
pub mod play;
pub mod laws;
