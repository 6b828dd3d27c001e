//! Decoding of the sensor's 64-bit electronic serial number, which comes in
//! two transfers with a checksum each.
//!
//! Only the checksum that ends each transfer is checked, over the four data
//! bytes of that transfer. Bytes 1, 3 and 5 of the first transfer and byte 2
//! of the second carry checksums of their own, which are not checked: a
//! transfer that is wrong in one of them alone is accepted.

use crate::checksum::{crc8, Crc8};
use crate::error::Error;
use core::marker::PhantomData;
use vstd::prelude::*;

verus! {

/// The data bytes of the first transfer, which holds bytes 0 to 7 of the
/// buffer. The bytes between them are not looked at.
pub open spec fn serial_group_a(buf: Seq<u8>) -> Seq<u8> {
    seq![buf[0], buf[2], buf[4], buf[6]]
}

/// The data bytes of the second transfer, which holds bytes 8 to 13 of the
/// buffer. The byte between them is not looked at.
pub open spec fn serial_group_b(buf: Seq<u8>) -> Seq<u8> {
    seq![buf[8], buf[9], buf[11], buf[12]]
}

/// Whether the last byte of the first transfer is the checksum of its four
/// data bytes.
pub open spec fn serial_group_a_ok(buf: Seq<u8>) -> bool {
    crc8(0, serial_group_a(buf)) == buf[7]
}

/// Whether the last byte of the second transfer is the checksum of its four
/// data bytes.
pub open spec fn serial_group_b_ok(buf: Seq<u8>) -> bool {
    crc8(0, serial_group_b(buf)) == buf[13]
}

/// The number that four bytes hold, most significant byte first.
pub open spec fn be_u32(bytes: Seq<u8>) -> int {
    bytes[0] * 0x100_0000 + bytes[1] * 0x1_0000 + bytes[2] * 0x100 + bytes[3]
}

/// The serial number that the buffer holds: the first transfer's data bytes
/// are its upper 32 bits, the second's its lower 32 bits.
pub open spec fn serial_value(buf: Seq<u8>) -> int {
    be_u32(serial_group_a(buf)) * 0x1_0000_0000 + be_u32(serial_group_b(buf))
}

/// What the fourteen bytes of the two serial number transfers decode to. The
/// serial number fits the result type, as `lemma_serial_value_range` shows.
pub open spec fn decode_serial_number<E>(buf: Seq<u8>) -> Result<u64, Error<E>> {
    if serial_group_a_ok(buf) && serial_group_b_ok(buf) {
        Ok(serial_value(buf) as u64)
    } else {
        Err(Error::ChecksumFailure)
    }
}

/// Eight bytes, each shifted to its place and joined by bitwise or, make the
/// number that they spell most significant byte first.
proof fn lemma_shifted_bytes(b7: u8, b6: u8, b5: u8, b4: u8, b3: u8, b2: u8, b1: u8, b0: u8)
    by (bit_vector)
    ensures
        (b7 as u64) << 56 | (b6 as u64) << 48 | (b5 as u64) << 40 | (b4 as u64) << 32 | (b3 as u64)
            << 24 | (b2 as u64) << 16 | (b1 as u64) << 8 | b0 as u64 == (b7 * 0x100_0000 + b6
            * 0x1_0000 + b5 * 0x100 + b4) * 0x1_0000_0000 + (b3 * 0x100_0000 + b2 * 0x1_0000 + b1
            * 0x100 + b0),
{
}

/// A serial number takes 64 bits.
pub proof fn lemma_serial_value_range(buf: Seq<u8>)
    ensures
        0 <= serial_value(buf) <= u64::MAX,
{
}

/// The bytes in between the data bytes do not matter: whatever stands at
/// position 1, 3, 5 or 10, the transfers decode to the same.
pub proof fn lemma_serial_number_skips<E>(buf: Seq<u8>, at: int, byte: u8)
    requires
        buf.len() == 14,
        at == 1 || at == 3 || at == 5 || at == 10,
    ensures
        decode_serial_number::<E>(buf.update(at, byte)) == decode_serial_number::<E>(buf),
{
}

/// Serial number transfers of which either checksum byte has been replaced by
/// another value are rejected, whatever they decoded to before.
pub proof fn lemma_corrupted_serial_number_rejected<E>(buf: Seq<u8>, at: int, byte: u8)
    requires
        buf.len() == 14,
        serial_group_a_ok(buf),
        serial_group_b_ok(buf),
        at == 7 || at == 13,
        byte != buf[at],
    ensures
        decode_serial_number::<E>(buf.update(at, byte)) == Err::<u64, Error<E>>(
            Error::ChecksumFailure,
        ),
{
}

/// The fourteen bytes of the two serial number transfers: eight of the
/// first, then six of the second.
pub struct SerialNumber<E> {
    buffer: [u8; 14],
    _marker: PhantomData<E>,
}

impl<E> View for SerialNumber<E> {
    type V = Seq<u8>;

    /// The bytes of both transfers, in the order they arrived.
    closed spec fn view(&self) -> Seq<u8> {
        self.buffer@
    }
}

impl<E> SerialNumber<E> {
    /// The two serial number transfers have fourteen bytes together.
    pub proof fn lemma_view_len(&self)
        ensures
            self@.len() == 14,
    {
    }

    /// Empty transfers: fourteen zero bytes.
    pub fn new() -> (serial_number: Self)
        ensures
            serial_number@ == Seq::new(14, |i: int| 0u8),
    {
        SerialNumber { buffer: [0; 14], _marker: PhantomData }
    }

    /// The eight bytes of the first transfer, for the transport to fill.
    pub fn buf_id1(&mut self) -> (buf: &mut [u8])
        ensures
            buf@ == old(self)@.subrange(0, 8),
            buf@.len() == 8,
            final(self)@ == final(buf)@ + old(self)@.subrange(8, 14),
            final(self)@.len() == 14,
    {
        let whole: &mut [u8] = &mut self.buffer;
        let (first, _second) = whole.split_at_mut(8);
        first
    }

    /// The six bytes of the second transfer, for the transport to fill.
    pub fn buf_id2(&mut self) -> (buf: &mut [u8])
        ensures
            buf@ == old(self)@.subrange(8, 14),
            buf@.len() == 6,
            final(self)@ == old(self)@.subrange(0, 8) + final(buf)@,
            final(self)@.len() == 14,
    {
        let whole: &mut [u8] = &mut self.buffer;
        let (_first, second) = whole.split_at_mut(8);
        second
    }

    /// Checks both transfers and puts their data bytes together.
    pub fn serial_number(&self) -> (result: Result<u64, Error<E>>)
        ensures
            result == decode_serial_number::<E>(self@),
    {
        let mut crc = Crc8::default();
        let (sna_3, sna_2, sna_1, sna_0, crc_a) = (
            self.buffer[0],
            self.buffer[2],
            self.buffer[4],
            self.buffer[6],
            self.buffer[7],
        );
        let group_a: [u8; 4] = [sna_3, sna_2, sna_1, sna_0];
        if crc.update(&group_a) != crc_a {
            return Err(Error::ChecksumFailure);
        }
        let mut crc = Crc8::default();
        let (snb_3, snb_2, snb_1, snb_0, crc_b) = (
            self.buffer[8],
            self.buffer[9],
            self.buffer[11],
            self.buffer[12],
            self.buffer[13],
        );
        let group_b: [u8; 4] = [snb_3, snb_2, snb_1, snb_0];
        if crc.update(&group_b) != crc_b {
            return Err(Error::ChecksumFailure);
        }
        proof {
            lemma_shifted_bytes(sna_3, sna_2, sna_1, sna_0, snb_3, snb_2, snb_1, snb_0);
        }
        Ok(
            (sna_3 as u64) << 56 | (sna_2 as u64) << 48 | (sna_1 as u64) << 40 | (sna_0 as u64)
                << 32 | (snb_3 as u64) << 24 | (snb_2 as u64) << 16 | (snb_1 as u64) << 8
                | snb_0 as u64,
        )
    }
}

} // verus!
