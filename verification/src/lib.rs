//! A small device-orchestration runtime for always-on nodes.
//!
//! A controller owns an ordered list of sensors, an optional ordered list of
//! actuators and one communicator. In every cycle it reads each sensor in
//! turn, hands every value it obtained to the communicator and then to each
//! actuator, and keeps going whatever any single device answers.
//!
//! - [`types`]: the payload that travels from the sensors to the other
//!   devices.
//! - [`traits`]: the three capabilities a device can offer.
//! - [`cycle`]: the order of the device calls in a cycle, as a state machine,
//!   and what is proved of every cycle.
//! - [`runtime`]: the controller, which follows that state machine and
//!   returns the calls it made.
//! - [`devices`], [`drivers`]: what the bundled devices make of the raw
//!   signals of their inputs.
//!
//! The library neither sleeps nor touches files or pins: the program around
//! it reads the raw signals, pauses between two cycles and prints what
//! failed.
pub mod cycle;
pub mod devices;
pub mod drivers;
pub mod runtime;
pub mod traits;
pub mod types;
