//! Servo control on top of a PWM timer: derivation of the timer parameters
//! from a modulation frequency, the mapping between angle and duty cycle, and
//! position-tracked motion primitives. The hardware itself is reached through
//! callbacks supplied by the caller, so that every decision taken here is
//! checked against its contract.
pub mod config;
pub mod model;
pub mod servo;
pub mod builder;
pub mod laws;

pub use builder::ServoBuilder;
pub use config::{derive_period, HardwareError, PwmConfig, ServoError, PWM_DIVIDER};
pub use servo::Servo;
