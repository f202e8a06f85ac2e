//! Fixed-point player-movement logic for a WASD-controlled character.
//!
//! Positions, velocities and scales are held in thousandths of a metre so
//! that every step of the movement arithmetic is exact integer arithmetic.

pub mod accumulate_input;
pub mod math;
pub mod player;
