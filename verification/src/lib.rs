//! Flight dynamics, terrain and collision rules of a lunar-lander game for a
//! console with a screen of 160 by 160 pixels, verified with Verus.
//!
//! Every quantity is a fixed-point number, an `i64` that counts millionths:
//! positions in pixels, velocities in pixels per frame, angles in radians.
//! The arithmetic saturates and rounds toward zero, so that each function is
//! defined on every input and its contract says exactly what it returns.
//!
//! The crate draws nothing, plays nothing and reads no buttons. A function
//! that belongs to a frame returns the drawing commands of that frame as
//! plain values. The noise field of the terrain is sampled by the caller, in
//! floating point, and handed over as millionths.

pub mod fixed;
pub mod trig;
pub mod gfx;
pub mod polygon;
pub mod noise;
pub mod particle;
pub mod ship;
pub mod surface;
pub mod game;
