//! Decoding of a relative humidity measurement.

use crate::checksum::Crc8;
use crate::error::Error;
use crate::sample::{raw_sample, read_u16_be, sample_checksum_ok};
use core::marker::PhantomData;
use vstd::prelude::*;

verus! {

/// The sensor's conversion formula for a raw sample, in hundredths of a
/// percent of relative humidity, before it is limited to the valid range.
pub open spec fn humidity_formula(raw: int) -> int {
    (12500 * raw) / 65536 - 600
}

/// Relative humidity in hundredths of a percent for a raw sample: the
/// conversion formula, held to the range from 0 to 10000.
pub open spec fn relative_humidity(raw: int) -> int {
    let value = humidity_formula(raw);
    if value > 10000 {
        10000
    } else if value < 0 {
        0
    } else {
        value
    }
}

/// What a three-byte humidity transfer decodes to. The humidity fits the
/// result type, as `lemma_relative_humidity_clamped` shows.
pub open spec fn decode_humidity<E>(buf: Seq<u8>) -> Result<i32, Error<E>> {
    if sample_checksum_ok(buf) {
        Ok(relative_humidity(raw_sample(buf)) as i32)
    } else {
        Err(Error::ChecksumFailure)
    }
}

/// Whatever the raw sample, the humidity lies between 0 and 10000; it is the
/// formula's value wherever that lies in this range, and the nearer end of the
/// range wherever it does not.
pub proof fn lemma_relative_humidity_clamped(raw: int)
    ensures
        0 <= relative_humidity(raw) <= 10000,
        0 <= humidity_formula(raw) <= 10000 ==> relative_humidity(raw) == humidity_formula(raw),
        humidity_formula(raw) > 10000 ==> relative_humidity(raw) == 10000,
        humidity_formula(raw) < 0 ==> relative_humidity(raw) == 0,
{
}

/// A humidity transfer whose checksum byte has been replaced by another value
/// is rejected, whatever it decoded to before.
pub proof fn lemma_corrupted_humidity_rejected<E>(buf: Seq<u8>, byte: u8)
    requires
        buf.len() == 3,
        sample_checksum_ok(buf),
        byte != buf[2],
    ensures
        decode_humidity::<E>(buf.update(2, byte)) == Err::<i32, Error<E>>(Error::ChecksumFailure),
{
    crate::sample::lemma_corrupted_checksum_fails(buf, byte);
}

/// The three bytes of one humidity transfer: the sample, most significant
/// byte first, and its checksum.
pub struct Humidity<E> {
    buffer: [u8; 3],
    _marker: PhantomData<E>,
}

impl<E> View for Humidity<E> {
    type V = Seq<u8>;

    /// The bytes of the transfer, in the order they arrived.
    closed spec fn view(&self) -> Seq<u8> {
        self.buffer@
    }
}

impl<E> Humidity<E> {
    /// A humidity transfer has three bytes.
    pub proof fn lemma_view_len(&self)
        ensures
            self@.len() == 3,
    {
    }

    /// An empty transfer: three zero bytes.
    pub fn new() -> (humidity: Self)
        ensures
            humidity@ == seq![0u8, 0u8, 0u8],
    {
        Humidity { buffer: [0; 3], _marker: PhantomData }
    }

    /// The whole transfer, for the transport to fill.
    pub fn buf(&mut self) -> (buf: &mut [u8])
        ensures
            buf@ == old(self)@,
            buf@.len() == 3,
            final(self)@ == final(buf)@,
            final(self)@.len() == 3,
    {
        &mut self.buffer
    }

    /// Checks the transfer and converts its sample to relative humidity in
    /// hundredths of a percent.
    pub fn humidity(&self) -> (result: Result<i32, Error<E>>)
        ensures
            result == decode_humidity::<E>(self@),
    {
        let mut crc = Crc8::default();
        if crc.update(&self.buffer[0..2]) != self.buffer[2] {
            return Err(Error::ChecksumFailure);
        }
        let raw: i32 = read_u16_be(&self.buffer) as i32;
        let val: i32 = (12500 * raw) / 65536 - 600;
        Ok(
            if val > 10000 {
                10000
            } else if val < 0 {
                0
            } else {
                val
            },
        )
    }
}

} // verus!
