//! A kinematic single-track car model in fixed-point arithmetic.
//!
//! The per-tick update of speed and steering, the construction checks on a car's
//! parameters, and the world-bound clamp on its position. Lengths are micro-units,
//! angles micro-radians, time microseconds.
pub mod fixed;
pub mod laws;
pub mod vehicle;
pub mod world;

pub use fixed::clamp;
pub use vehicle::{Car, ConfigError, InputIntent, DEFAULT_MAX_STEERING, STEERING_LIMIT, STEER_RATE};
pub use world::{Position, World};
