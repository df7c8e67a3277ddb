//! Sensor drivers.
pub mod si7021;
