//! Closed-loop fan control in integer arithmetic.
//!
//! Temperatures are counted in thousandths of a degree Celsius, duty cycles in
//! millionths of a full cycle, time in nanoseconds and fan speed in thousandths
//! of a revolution per minute, so every rule of the controller is exact.

pub mod control;
pub mod curve;
pub mod estimator;
pub mod failure;
pub mod sensor;
pub mod shared;
