//! Drivers for external devices attached to the MCU's peripherals.
pub mod display;
pub mod sensor;
