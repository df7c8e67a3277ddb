//! Logic of the minimal Bluetooth application: event decoding, advertising set-up
//! decisions, stack pumping and the blocking delay arithmetic.
pub mod ble_app;
pub mod ble_runtime;
pub mod delay;
