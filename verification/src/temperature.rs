//! Decoding of a temperature measurement, either one of its own or the one
//! that the sensor took along with its last humidity measurement.

use crate::checksum::Crc8;
use crate::error::Error;
use crate::sample::{raw_sample, read_u16_be, sample_checksum_ok};
use core::marker::PhantomData;
use vstd::prelude::*;

verus! {

/// Temperature in hundredths of a degree Celsius for a raw sample.
pub open spec fn celsius(raw: int) -> int {
    (17572 * raw) / 65536 - 4685
}

/// What the two data bytes of a temperature transfer decode to, no checksum
/// looked at. Two zero bytes are the sensor's way of saying that it has made
/// no humidity measurement yet. The temperature fits the result type, as
/// `lemma_celsius_range` shows.
pub open spec fn decode_temperature_nocrc<E>(buf: Seq<u8>) -> Result<i32, Error<E>> {
    if buf[0] == 0 && buf[1] == 0 {
        Err(Error::NoPreviousHumidityMeasurement)
    } else {
        Ok(celsius(raw_sample(buf)) as i32)
    }
}

/// What a three-byte temperature transfer decodes to.
pub open spec fn decode_temperature<E>(buf: Seq<u8>) -> Result<i32, Error<E>> {
    if sample_checksum_ok(buf) {
        decode_temperature_nocrc(buf)
    } else {
        Err(Error::ChecksumFailure)
    }
}

/// The temperature of any sixteen-bit sample lies between -46.85 and
/// 128.86 degrees, so it is not limited any further.
pub proof fn lemma_celsius_range(raw: int)
    requires
        0 <= raw <= 0xffff,
    ensures
        -4685 <= celsius(raw) <= 12886,
{
}

/// A temperature transfer whose checksum byte has been replaced by another
/// value is rejected, whatever it decoded to before.
pub proof fn lemma_corrupted_temperature_rejected<E>(buf: Seq<u8>, byte: u8)
    requires
        buf.len() == 3,
        sample_checksum_ok(buf),
        byte != buf[2],
    ensures
        decode_temperature::<E>(buf.update(2, byte)) == Err::<i32, Error<E>>(
            Error::ChecksumFailure,
        ),
{
    crate::sample::lemma_corrupted_checksum_fails(buf, byte);
}

/// The bytes of one temperature transfer: the sample, most significant byte
/// first, and its checksum where the transfer carries one.
pub struct Temperature<E> {
    buffer: [u8; 3],
    _marker: PhantomData<E>,
}

impl<E> View for Temperature<E> {
    type V = Seq<u8>;

    /// The three bytes of the transfer. The third is left as it was by a
    /// transfer without checksum.
    closed spec fn view(&self) -> Seq<u8> {
        self.buffer@
    }
}

impl<E> Temperature<E> {
    /// A temperature transfer has three bytes, with or without checksum.
    pub proof fn lemma_view_len(&self)
        ensures
            self@.len() == 3,
    {
    }

    /// An empty transfer: three zero bytes.
    pub fn new() -> (temperature: Self)
        ensures
            temperature@ == seq![0u8, 0u8, 0u8],
    {
        Temperature { buffer: [0; 3], _marker: PhantomData }
    }

    /// The whole transfer, for the transport to fill.
    pub fn buf(&mut self) -> (buf: &mut [u8])
        ensures
            buf@ == old(self)@,
            buf@.len() == 3,
            final(self)@ == final(buf)@,
            final(self)@.len() == 3,
    {
        &mut self.buffer
    }

    /// The two data bytes only, for a transfer that carries no checksum.
    pub fn buf_nocrc(&mut self) -> (buf: &mut [u8])
        ensures
            buf@ == old(self)@.subrange(0, 2),
            buf@.len() == 2,
            final(self)@ == final(buf)@ + old(self)@.subrange(2, 3),
            final(self)@.len() == 3,
    {
        let whole: &mut [u8] = &mut self.buffer;
        let (data, _checksum) = whole.split_at_mut(2);
        data
    }

    /// Checks the transfer and converts its sample to a temperature in
    /// hundredths of a degree Celsius.
    pub fn temperature(&self) -> (result: Result<i32, Error<E>>)
        ensures
            result == decode_temperature::<E>(self@),
    {
        let mut crc = Crc8::default();
        if crc.update(&self.buffer[0..2]) != self.buffer[2] {
            return Err(Error::ChecksumFailure);
        }
        self.temperature_nocrc()
    }

    /// Converts the sample to a temperature in hundredths of a degree
    /// Celsius without looking at the checksum byte.
    pub fn temperature_nocrc(&self) -> (result: Result<i32, Error<E>>)
        ensures
            result == decode_temperature_nocrc::<E>(self@),
    {
        if self.buffer[0] == 0x00 && self.buffer[1] == 0x00 {
            return Err(Error::NoPreviousHumidityMeasurement);
        }
        let raw: i32 = read_u16_be(&self.buffer) as i32;
        Ok((17572 * raw) / 65536 - 4685)
    }
}

} // verus!
