//! The sensor's 8-bit checksum: a cyclic redundancy check with generator
//! polynomial x^8 + x^5 + x^4 + 1, register initialised to zero, bytes
//! absorbed most significant bit first.

use vstd::prelude::*;

verus! {

/// The generator polynomial without its leading term.
pub const POLYNOMIAL: u8 = 0x31;

/// The checksum register after one shift step: the register moves left by one
/// bit, and the polynomial is folded in when the bit shifted out was set.
pub open spec fn crc8_shift(crc: u8) -> u8 {
    if crc & 0x80 == 0 {
        crc << 1
    } else {
        (crc << 1) ^ POLYNOMIAL
    }
}

/// The checksum register after `n` successive shift steps.
pub open spec fn crc8_shifts(crc: u8, n: nat) -> u8
    decreases n,
{
    if n == 0 {
        crc
    } else {
        crc8_shift(crc8_shifts(crc, (n - 1) as nat))
    }
}

/// The checksum register after absorbing one byte: the byte is folded into
/// the register, which then takes eight shift steps.
pub open spec fn crc8_absorb(crc: u8, byte: u8) -> u8 {
    crc8_shifts(crc ^ byte, 8)
}

/// The checksum register after absorbing `bytes` in order, starting from `crc`.
pub open spec fn crc8(crc: u8, bytes: Seq<u8>) -> u8
    decreases bytes.len(),
{
    if bytes.len() == 0 {
        crc
    } else {
        crc8_absorb(crc8(crc, bytes.drop_last()), bytes.last())
    }
}

/// Absorbing a message in two parts, the second continuing from the register
/// the first one left, gives the register of the whole message.
pub proof fn lemma_crc8_concat(crc: u8, head: Seq<u8>, tail: Seq<u8>)
    ensures
        crc8(crc8(crc, head), tail) == crc8(crc, head + tail),
    decreases tail.len(),
{
    if tail.len() > 0 {
        lemma_crc8_concat(crc, head, tail.drop_last());
        assert((head + tail).drop_last() =~= head + tail.drop_last());
    }
}

/// A running checksum over the bytes fed to it so far.
pub struct Crc8 {
    crc: u8,
}

impl View for Crc8 {
    type V = u8;

    /// The current value of the checksum register.
    closed spec fn view(&self) -> u8 {
        self.crc
    }
}

impl Default for Crc8 {
    /// A checksum over no bytes: the register is zero.
    fn default() -> (crc: Self)
        ensures
            crc@ == 0,
    {
        Crc8 { crc: 0 }
    }
}

impl Crc8 {
    /// Absorbs `input` into the running checksum and returns the register.
    pub fn update(&mut self, input: &[u8]) -> (crc: u8)
        ensures
            final(self)@ == crc8(old(self)@, input@),
            crc == final(self)@,
    {
        let mut i: usize = 0;
        while i < input.len()
            invariant
                i <= input@.len(),
                self@ == crc8(old(self)@, input@.take(i as int)),
            decreases input@.len() - i,
        {
            self.crc = self.crc ^ input[i];
            let mut bit: u8 = 0;
            while bit < 8
                invariant
                    bit <= 8,
                    i < input@.len(),
                    self@ == crc8_shifts(
                        crc8(old(self)@, input@.take(i as int)) ^ input@[i as int],
                        bit as nat,
                    ),
                decreases 8 - bit,
            {
                if self.crc & 0x80 == 0 {
                    self.crc = self.crc << 1;
                } else {
                    self.crc = (self.crc << 1) ^ POLYNOMIAL;
                }
                bit = bit + 1;
            }
            proof {
                assert(input@.take(i + 1).drop_last() =~= input@.take(i as int));
            }
            i = i + 1;
        }
        proof {
            assert(input@.take(i as int) =~= input@);
        }
        self.crc
    }
}

} // verus!
