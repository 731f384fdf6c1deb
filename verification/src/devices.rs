//! Devices that come with the runtime.
pub mod actuators;
pub mod sensors;
