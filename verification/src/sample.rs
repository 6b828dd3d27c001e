//! The shape that humidity and temperature samples share on the wire: two
//! data bytes, most significant first, followed by one checksum byte.

use crate::checksum::crc8;
use byteorder::{BigEndian, ByteOrder};
use vstd::prelude::*;

verus! {

/// The 16-bit sample that the first two bytes of `buf` hold, most significant
/// byte first.
pub open spec fn raw_sample(buf: Seq<u8>) -> int {
    buf[0] * 256 + buf[1]
}

/// Whether the third byte of `buf` is the checksum of its first two.
pub open spec fn sample_checksum_ok(buf: Seq<u8>) -> bool {
    crc8(0, buf.subrange(0, 2)) == buf[2]
}

/// A sample takes sixteen bits.
pub proof fn lemma_raw_sample_range(buf: Seq<u8>)
    ensures
        0 <= raw_sample(buf) <= 0xffff,
{
}

/// The checksum test reads the data bytes and the checksum byte only as they
/// stand: a buffer that passes no longer does once its checksum byte is
/// replaced by any other value.
pub proof fn lemma_corrupted_checksum_fails(buf: Seq<u8>, byte: u8)
    requires
        buf.len() == 3,
        sample_checksum_ok(buf),
        byte != buf[2],
    ensures
        !sample_checksum_ok(buf.update(2, byte)),
{
    assert(buf.update(2, byte).subrange(0, 2) =~= buf.subrange(0, 2));
}

/// Reads the first two bytes of `buf` as an unsigned number, most significant
/// byte first, by `byteorder::BigEndian::read_u16`. That function panics on
/// fewer than two bytes, which the precondition leaves out; bytes after the
/// second are not looked at.
#[verifier::external_body]
pub(crate) fn read_u16_be(buf: &[u8]) -> (raw: u16)
    requires
        buf@.len() >= 2,
    ensures
        raw == raw_sample(buf@),
{
    BigEndian::read_u16(buf)
}

} // verus!
