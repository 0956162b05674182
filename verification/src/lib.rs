//! A verified jump-kinematics and orientable-gravity model for 2D platformer
//! motion.
//!
//! The library derives physically consistent motion constants (gravity
//! magnitudes, initial jump speed) from designer-facing parameters (desired
//! jump height, jump distance, horizontal speed), and simulates a player's
//! motion under a gravity vector whose direction can itself rotate at runtime.
//!
//! All quantities are exact rational numbers, so every kinematic identity in
//! the contracts holds exactly rather than within a floating-point epsilon.

pub mod errors;
pub mod frame;
pub mod motion;
pub mod profile;
pub mod rat;
pub mod state;
pub mod vec2;
