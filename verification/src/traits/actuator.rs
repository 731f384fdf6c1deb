//! The capability of executing a command.
use crate::types::SensorOutput;
use vstd::prelude::*;

verus! {

/// An action could not be dispatched; the text says why.
#[derive(Debug, PartialEq, Eq)]
pub struct ActuatorError {
    pub message: String,
}

impl Clone for ActuatorError {
    /// A copy with the same text.
    fn clone(&self) -> (copy: Self)
        ensures
            copy == *self,
    {
        ActuatorError { message: self.message.clone() }
    }
}

/// A device that acts on the values the sensors produce.
///
/// An actuator has to tolerate every variant of [`SensorOutput`] and gives
/// each its own meaning, which may be to ignore it.
pub trait Actuator: Send {
    /// Dispatches the action for `command`. Success means dispatched, not
    /// physically confirmed.
    fn execute(&mut self, command: SensorOutput) -> Result<(), ActuatorError>;
}

} // verus!
