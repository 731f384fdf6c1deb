//! The digital output of a rain module.
use crate::drivers::gpio::Level;
use crate::traits::sensor::SensorError;
use crate::types::{SensorOutput, Value};
use vstd::prelude::*;
use vstd::string::*;

verus! {

/// The text of a wet reading.
pub open spec fn wet_text() -> Seq<char> {
    "HÚMEDO"@
}

/// The text of a dry reading.
pub open spec fn dry_text() -> Seq<char> {
    "SECO"@
}

/// What precedes the driver's message in the error of a pin that could not
/// be claimed.
pub open spec fn init_prefix() -> Seq<char> {
    "gpio init: "@
}

/// A rain module wired to one input pin.
///
/// Many modules pull their output low when they are wet (active low);
/// `active_low` says which of the two levels means water.
#[derive(Debug, Clone, Copy, PartialEq, Eq, Structural)]
pub struct RainSensor {
    pub pin_number: u8,
    pub active_low: bool,
}

impl RainSensor {
    /// A sensor on the pin with BCM number `pin`, where `gpio` is what
    /// claiming that pin as an input gave: nothing, or the driver's message.
    /// The message comes back as a read error that names the step.
    pub fn new(pin: u8, active_low: bool, gpio: Result<(), String>) -> (made: Result<
        Self,
        SensorError,
    >)
        ensures
            match gpio {
                Ok(_) => made == Ok::<Self, SensorError>(
                    RainSensor { pin_number: pin, active_low },
                ),
                Err(message) => made matches Err(SensorError::ReadError(text)) && text@
                    == init_prefix() + message@,
            },
    {
        match gpio {
            Ok(_) => Ok(RainSensor { pin_number: pin, active_low }),
            Err(message) => {
                let text = String::from_str("gpio init: ").concat(message.as_str());
                Err(SensorError::ReadError(text))
            },
        }
    }

    /// Whether `level` on the pin means water: the low level on an
    /// active-low module, the high level on the others.
    pub fn is_wet(&self, level: Level) -> (wet: bool)
        ensures
            wet == (self.active_low != (level is High)),
    {
        let raw_high = level.is_high();
        if self.active_low {
            !raw_high
        } else {
            raw_high
        }
    }

    /// The reading for `level` on the pin: the text for wet or the text for
    /// dry.
    pub fn reading(&self, level: Level) -> (output: SensorOutput)
        ensures
            output@ == Value::Text(
                if self.active_low != (level is High) {
                    wet_text()
                } else {
                    dry_text()
                },
            ),
    {
        if self.is_wet(level) {
            SensorOutput::Text(String::from_str("HÚMEDO"))
        } else {
            SensorOutput::Text(String::from_str("SECO"))
        }
    }
}

} // verus!
