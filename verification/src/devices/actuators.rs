//! Actuators.
pub mod dummy;
