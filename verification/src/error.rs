//! The ways in which an accessor of the sensor can fail.

use vstd::prelude::*;

verus! {

/// Why an accessor gave no value. `E` is the transport's own error type.
#[derive(Debug, PartialEq)]
pub enum Error<E> {
    /// The bus transaction failed; the transport's error is passed on as it came.
    I2c(E),
    /// The checksum byte of a transfer does not match its data bytes.
    ChecksumFailure,
    /// The sensor holds no temperature of an earlier humidity measurement.
    NoPreviousHumidityMeasurement,
    /// The heater level asked for does not fit the four bits of its register.
    InvalidHeaterLevel,
}

} // verus!
