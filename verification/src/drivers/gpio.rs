//! The logic level of a digital input pin.
use vstd::prelude::*;

verus! {

/// The physical level of a pin.
#[derive(Debug, Clone, Copy, PartialEq, Eq, Structural)]
pub enum Level {
    Low,
    High,
}

impl Level {
    /// `true` for the high level, `false` for the low one.
    pub fn is_high(self) -> (high: bool)
        ensures
            high == (self is High),
    {
        match self {
            Level::High => true,
            Level::Low => false,
        }
    }
}

} // verus!
