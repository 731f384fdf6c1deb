//! Sensors: what each of them makes of the raw signal of its input.
pub mod rain;
pub mod temperature;
