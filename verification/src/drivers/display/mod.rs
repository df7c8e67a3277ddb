//! Display drivers.
pub mod memlcd;
