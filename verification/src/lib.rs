//! Protocol codec for the Si7021 humidity and temperature sensor.
//!
//! The crate turns the bytes that the sensor sends into humidity, temperature
//! and serial number, checks their checksums, and reads and changes the bit
//! fields of the two configuration registers. It also lays down which bus
//! transactions each accessor of the sensor consists of, without carrying
//! any of them out: that is left to the caller's transport.

pub mod checksum;
pub mod error;
pub mod humidity;
pub mod register;
pub mod sample;
pub mod serial_number;
pub mod session;
pub mod temperature;

pub use crate::error::Error;
pub use crate::register::MeasurementResolution;
pub use crate::session::{HeaterPower, Si7021};
