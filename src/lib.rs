//! Player controller logic for a 3D scene: orbit camera, movement intent,
//! camera follow and the player's spawn configuration.
//!
//! All quantities are exact fixed-point integers:
//! - angles in units of 1e-10 radian,
//! - lengths in micrometres, velocities in micrometres per second,
//! - frame time in microseconds,
//! - mouse motion in thousandths of a pixel.
pub mod movement;
pub mod orbit;
pub mod player;
