//! The three capabilities that devices offer to the controller: a sensor is
//! read, an actuator executes a command, a communicator sends a payload.
//!
//! The traits promise nothing about what a device answers: the controller is
//! verified for every answer.
pub mod actuator;
pub mod communicator;
pub mod sensor;
