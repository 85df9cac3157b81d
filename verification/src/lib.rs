//! Encounter core of an arcade catching game: a spawn-pattern generator
//! that places enemy crabs, an age-driven appearance model for them, and
//! a particle simulation for catch effects.
//!
//! Everything is computed in fixed-point integer arithmetic so that the
//! behaviour can be stated and proved exactly:
//! - lengths, positions, speeds and sizes are milli-units (1000 = 1 unit);
//! - times are milliseconds;
//! - ratios and particle colour channels are milli-scaled (0..=1000);
//! - angles are whole degrees (a full turn is 360), with sine and cosine
//!   taken from a tabulated fixed-point unit circle.

pub mod enemies;
pub mod geom;
pub mod levels;
pub mod particles;
pub mod rng;
pub mod spawnings;
pub mod trig;

pub use geom::{Rgb, Vec2};
