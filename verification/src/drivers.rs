//! What the runtime reads from hardware, as plain values.
pub mod gpio;
