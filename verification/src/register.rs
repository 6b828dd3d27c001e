//! The sensor's two configuration registers. User register 1 holds the
//! measurement resolution in bits 0 and 7 and the heater switch in bit 2; the
//! heater control register holds the heater level in its low four bits. All
//! other bits are reserved and pass through every change untouched.

use crate::error::Error;
use core::marker::PhantomData;
use vstd::prelude::*;

verus! {

/// How finely the sensor resolves humidity and temperature.
#[derive(Debug, PartialEq, Eq, Clone, Copy)]
pub enum MeasurementResolution {
    /// Bits 7 and 0 of user register 1 both clear.
    Rh12Temp14,
    /// Bit 7 clear, bit 0 set.
    Rh8Temp12,
    /// Bit 7 set, bit 0 clear.
    Rh10Temp10,
    /// Bits 7 and 0 both set.
    Rh11Temp11,
}

/// The bits of user register 1 that stand for a resolution.
pub open spec fn resolution_bits(resolution: MeasurementResolution) -> u8 {
    match resolution {
        MeasurementResolution::Rh12Temp14 => 0x00,
        MeasurementResolution::Rh8Temp12 => 0x01,
        MeasurementResolution::Rh10Temp10 => 0x80,
        MeasurementResolution::Rh11Temp11 => 0x81,
    }
}

/// The resolution that user register 1 selects.
pub open spec fn resolution_of(user: u8) -> MeasurementResolution {
    let bits = user & 0x81;
    if bits == 0x00 {
        MeasurementResolution::Rh12Temp14
    } else if bits == 0x01 {
        MeasurementResolution::Rh8Temp12
    } else if bits == 0x80 {
        MeasurementResolution::Rh10Temp10
    } else {
        MeasurementResolution::Rh11Temp11
    }
}

/// User register 1 with another resolution selected.
pub open spec fn with_resolution(user: u8, resolution: MeasurementResolution) -> u8 {
    (user & 0x7e) | resolution_bits(resolution)
}

/// Whether user register 1 has the heater switched on.
pub open spec fn heater_enabled(user: u8) -> bool {
    user & 0x04 != 0
}

/// User register 1 with the heater switched on or off.
pub open spec fn with_heater_enabled(user: u8, on: bool) -> u8 {
    (user & 0xfb) | if on {
        0x04u8
    } else {
        0x00u8
    }
}

/// The heater level that the heater control register holds.
pub open spec fn heater_level_of(heater: u8) -> u8 {
    heater & 0x0f
}

/// The heater control register with another heater level.
pub open spec fn with_heater_level(heater: u8, level: u8) -> u8 {
    (heater & 0xf0) | level
}

/// The resolution field has no fifth value: whatever user register 1 holds,
/// bits 0 and 7 spell one of the four patterns.
pub proof fn lemma_resolution_bits_of(user: u8)
    ensures
        resolution_bits(resolution_of(user)) == user & 0x81,
{
    let bits = user & 0x81;
    assert(bits == 0x00 || bits == 0x01 || bits == 0x80 || bits == 0x81) by (bit_vector)
        requires
            bits == user & 0x81,
    ;
}

/// Bits put into the places that `keep` leaves out are read back from
/// there, and the bits that `keep` holds stay as they were.
proof fn lemma_put_bits(register: u8, keep: u8, bits: u8)
    by (bit_vector)
    requires
        bits & keep == 0,
    ensures
        ((register & keep) | bits) & !keep == bits,
        ((register & keep) | bits) & keep == register & keep,
{
}

/// A resolution written to user register 1 is the one read back, and the
/// write changes no bit but 0 and 7.
pub proof fn lemma_resolution_round_trip(user: u8, resolution: MeasurementResolution)
    ensures
        resolution_of(with_resolution(user, resolution)) == resolution,
        with_resolution(user, resolution) & 0x7e == user & 0x7e,
{
    assert(!0x7eu8 == 0x81 && 0x00u8 & 0x7e == 0 && 0x01u8 & 0x7e == 0 && 0x80u8 & 0x7e == 0
        && 0x81u8 & 0x7e == 0) by (bit_vector);
    lemma_put_bits(user, 0x7e, resolution_bits(resolution));
}

/// The heater switch written to user register 1 is the one read back, and
/// the write changes no bit but 2.
pub proof fn lemma_heater_enabled_round_trip(user: u8, on: bool)
    ensures
        heater_enabled(with_heater_enabled(user, on)) == on,
        with_heater_enabled(user, on) & 0xfb == user & 0xfb,
{
    assert(!0xfbu8 == 0x04 && 0x04u8 & 0xfb == 0 && 0x00u8 & 0xfb == 0) by (bit_vector);
    lemma_put_bits(user, 0xfb, if on { 0x04u8 } else { 0x00u8 });
}

/// A heater level from 0 to 15 written to the heater control register is the
/// one read back, and the write changes none of the high four bits.
pub proof fn lemma_heater_level_round_trip(heater: u8, level: u8)
    requires
        level <= 0x0f,
    ensures
        heater_level_of(with_heater_level(heater, level)) == level,
        with_heater_level(heater, level) & 0xf0 == heater & 0xf0,
{
    assert(!0xf0u8 == 0x0f && level & 0xf0 == 0) by (bit_vector)
        requires
            level <= 0x0f,
    ;
    lemma_put_bits(heater, 0xf0, level);
}

/// The two changes that touch user register 1 do not disturb each other:
/// selecting a resolution leaves the heater switch alone, and switching the
/// heater leaves the resolution alone.
pub proof fn lemma_user_register_fields_independent(
    user: u8,
    resolution: MeasurementResolution,
    on: bool,
)
    ensures
        heater_enabled(with_resolution(user, resolution)) == heater_enabled(user),
        resolution_of(with_heater_enabled(user, on)) == resolution_of(user),
{
    let selected = with_resolution(user, resolution);
    let switched = with_heater_enabled(user, on);
    lemma_resolution_round_trip(user, resolution);
    lemma_heater_enabled_round_trip(user, on);
    assert(selected & 0x04 == user & 0x04) by (bit_vector)
        requires
            selected & 0x7e == user & 0x7e,
    ;
    assert(switched & 0x81 == user & 0x81) by (bit_vector)
        requires
            switched & 0xfb == user & 0xfb,
    ;
}

impl MeasurementResolution {
    /// The bits of user register 1 that stand for this resolution.
    pub fn bits(&self) -> (bits: u8)
        ensures
            bits == resolution_bits(*self),
    {
        match self {
            MeasurementResolution::Rh12Temp14 => 0x00,
            MeasurementResolution::Rh8Temp12 => 0x01,
            MeasurementResolution::Rh10Temp10 => 0x80,
            MeasurementResolution::Rh11Temp11 => 0x81,
        }
    }
}

/// The contents of user register 1 and of the heater control register, as
/// last read from the sensor and changed since.
pub struct UserHeaterRegister<E> {
    register: [u8; 2],
    _marker: PhantomData<E>,
}

impl<E> View for UserHeaterRegister<E> {
    type V = Seq<u8>;

    /// The two bytes held: user register 1, then the heater control register.
    closed spec fn view(&self) -> Seq<u8> {
        self.register@
    }
}

impl<E> UserHeaterRegister<E> {
    /// Two bytes are held, one for each register.
    pub proof fn lemma_view_len(&self)
        ensures
            self@.len() == 2,
    {
    }

    /// The byte held for user register 1.
    pub open spec fn user(&self) -> u8 {
        self@[0]
    }

    /// The byte held for the heater control register.
    pub open spec fn heater(&self) -> u8 {
        self@[1]
    }

    /// Both registers zero.
    pub fn new() -> (registers: Self)
        ensures
            registers@ == seq![0u8, 0u8],
    {
        UserHeaterRegister { register: [0; 2], _marker: PhantomData }
    }

    /// The byte of user register 1, for the transport to fill or to send.
    pub fn buf_user(&mut self) -> (buf: &mut [u8])
        ensures
            buf@ == seq![old(self).user()],
            final(self)@.len() == 2,
            final(self)@ == final(buf)@ + seq![old(self).heater()],
    {
        let whole: &mut [u8] = &mut self.register;
        let (user, _heater) = whole.split_at_mut(1);
        user
    }

    /// The byte of the heater control register, for the transport to fill or
    /// to send.
    pub fn buf_heater(&mut self) -> (buf: &mut [u8])
        ensures
            buf@ == seq![old(self).heater()],
            final(self)@.len() == 2,
            final(self)@ == seq![old(self).user()] + final(buf)@,
    {
        let whole: &mut [u8] = &mut self.register;
        let (_user, heater) = whole.split_at_mut(1);
        heater
    }

    /// The resolution that user register 1 selects.
    pub fn measurement_resolution(&self) -> (resolution: MeasurementResolution)
        ensures
            resolution == resolution_of(self.user()),
    {
        let bits: u8 = self.register[0] & 0x81;
        if bits == 0x00 {
            MeasurementResolution::Rh12Temp14
        } else if bits == 0x01 {
            MeasurementResolution::Rh8Temp12
        } else if bits == 0x80 {
            MeasurementResolution::Rh10Temp10
        } else {
            MeasurementResolution::Rh11Temp11
        }
    }

    /// Selects another resolution in user register 1.
    pub fn set_measurement_resolution(&mut self, measurement_resolution: MeasurementResolution)
        ensures
            final(self).user() == with_resolution(old(self).user(), measurement_resolution),
            final(self).heater() == old(self).heater(),
    {
        self.register[0] = (self.register[0] & 0x7e) | measurement_resolution.bits();
    }

    /// Whether user register 1 has the heater switched on.
    pub fn heater_on(&self) -> (on: bool)
        ensures
            on == heater_enabled(self.user()),
    {
        self.register[0] & 0x04 > 0
    }

    /// Switches the heater on or off in user register 1.
    pub fn set_heater_state(&mut self, on: bool)
        ensures
            final(self).user() == with_heater_enabled(old(self).user(), on),
            final(self).heater() == old(self).heater(),
    {
        self.register[0] = (self.register[0] & 0xfb) | if on {
            0x04
        } else {
            0x00
        };
    }

    /// The heater level that the heater control register holds.
    pub fn heater_level(&self) -> (level: u8)
        ensures
            level == heater_level_of(self.heater()),
    {
        self.register[1] & 0x0f
    }

    /// Puts another heater level into the heater control register. A level
    /// above 15 is refused, and both registers stay as they were.
    pub fn set_heater_level(&mut self, heater_level: u8) -> (result: Result<(), Error<E>>)
        ensures
            heater_level <= 0x0f ==> result == Ok::<(), Error<E>>(()) && final(self).heater()
                == with_heater_level(old(self).heater(), heater_level),
            heater_level > 0x0f ==> result == Err::<(), Error<E>>(Error::InvalidHeaterLevel)
                && final(self).heater() == old(self).heater(),
            final(self).user() == old(self).user(),
    {
        if heater_level > 0x0f {
            return Err(Error::InvalidHeaterLevel);
        }
        self.register[1] = (self.register[1] & 0xf0) | heater_level;
        Ok(())
    }
}

} // verus!
