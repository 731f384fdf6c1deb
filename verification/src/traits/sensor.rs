//! The capability of being read.
use crate::types::SensorOutput;
use vstd::prelude::*;

verus! {

/// Why a sensor gave no value.
#[derive(Debug, PartialEq, Eq)]
pub enum SensorError {
    /// The underlying signal could not be obtained or interpreted; the text
    /// says why.
    ReadError(String),
}

impl Clone for SensorError {
    /// A copy with the same text.
    fn clone(&self) -> (copy: Self)
        ensures
            copy == *self,
    {
        match self {
            SensorError::ReadError(message) => SensorError::ReadError(message.clone()),
        }
    }
}

/// A device bound to one physical or simulated input.
///
/// A sensor is built once and read repeatedly. `read` may block on the
/// underlying input but has to return promptly: it runs inline in the
/// polling cycle.
pub trait Sensor: Send {
    /// The latest measurement, or the reason why there is none.
    fn read(&mut self) -> Result<SensorOutput, SensorError>;
}

} // verus!
