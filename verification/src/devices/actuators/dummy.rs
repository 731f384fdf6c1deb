//! An actuator that does nothing.
use crate::traits::actuator::{Actuator, ActuatorError};
use crate::types::SensorOutput;
use vstd::prelude::*;

verus! {

/// An actuator without any effect: it takes every command and reports
/// success. It stands in where a controller needs an actuator and no device
/// is attached.
#[derive(Debug, Clone, Copy, PartialEq, Eq, Structural)]
pub struct DummyActuator;

impl DummyActuator {
    pub fn new() -> (actuator: Self)
        ensures
            actuator == DummyActuator,
    {
        DummyActuator
    }
}

impl Actuator for DummyActuator {
    /// Succeeds on every variant of the command and leaves the actuator as
    /// it was.
    fn execute(&mut self, _command: SensorOutput) -> (outcome: Result<(), ActuatorError>)
        ensures
            outcome is Ok,
            *final(self) == *old(self),
    {
        Ok(())
    }
}

} // verus!
