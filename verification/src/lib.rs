//! BME280 temperature / pressure / humidity sensor driver logic, plus the
//! integer parts of an HSV colour conversion.
//!
//! The driver is written as a pair of state machines (initialisation and
//! measurement) that decide which register transfer comes next; the bus
//! transfers and the waiting themselves are performed by the caller.

pub mod bits;
pub mod bme280;
pub mod calibration;
pub mod compensation;
pub mod protocol;
pub mod utils;
