//! The conversation with the sensor, one bus transaction at a time.
//!
//! A session never touches the bus. Starting an accessor yields the first
//! transaction to carry out; handing back what the transaction brought yields
//! the next one, or the accessor's result. What is asked for after which
//! replies is laid down by [`script`], and the session is proved to follow it.

use crate::error::Error;
use crate::humidity::{decode_humidity, Humidity};
use crate::register::{
    heater_enabled, heater_level_of, resolution_of, with_heater_enabled, with_heater_level,
    with_resolution, MeasurementResolution, UserHeaterRegister,
};
use crate::serial_number::{decode_serial_number, SerialNumber};
use crate::temperature::{decode_temperature, decode_temperature_nocrc, Temperature};
use core::marker::PhantomData;
use vstd::prelude::*;
use vstd::slice::slice_to_vec;

verus! {

/// A heater level, from 0 to 15.
pub type HeaterPower = u8;

/// The sensor's bus address.
pub const ADDRESS: u8 = 0x40;

/// Measure relative humidity, holding the bus until the sample is ready.
pub const MEASURE_HUMIDITY_HOLD: [u8; 1] = [0xe5];

/// Measure temperature, holding the bus until the sample is ready.
pub const MEASURE_TEMPERATURE_HOLD: [u8; 1] = [0xe3];

/// Read the temperature taken along with the last humidity measurement.
pub const READ_TEMPERATURE_FROM_HUMIDITY_MEASUREMENT: [u8; 1] = [0xe0];

/// Reset the sensor.
pub const RESET: [u8; 1] = [0xfe];

/// Write user register 1.
pub const WRITE_USER_REGISTER1: [u8; 1] = [0xe6];

/// Read user register 1.
pub const READ_USER_REGISTER1: [u8; 1] = [0xe7];

/// Write the heater control register.
pub const WRITE_HEATER_REGISTER: [u8; 1] = [0x51];

/// Read the heater control register.
pub const READ_HEATER_REGISTER: [u8; 1] = [0x11];

/// Read the first half of the electronic serial number.
pub const READ_ELECTRONIC_ID1: [u8; 2] = [0xfa, 0x0f];

/// Read the second half of the electronic serial number.
pub const READ_ELECTRONIC_ID2: [u8; 2] = [0xfc, 0xc9];

/// Read the firmware revision.
pub const READ_FIRMWARE_REVISION: [u8; 2] = [0x84, 0xb8];

/// What an accessor of the sensor can be asked to do.
#[derive(Debug, PartialEq, Eq, Clone, Copy)]
pub enum Operation {
    /// Measure relative humidity.
    Humidity,
    /// Read the temperature taken along with the last humidity measurement.
    TemperatureRhMeasurement,
    /// Measure temperature.
    Temperature,
    /// Read the electronic serial number.
    SerialNumber,
    /// Read the firmware revision.
    FirmwareRevision,
    /// Reset the sensor.
    Reset,
    /// Read the measurement resolution.
    MeasurementResolution,
    /// Select another measurement resolution.
    SetMeasurementResolution(MeasurementResolution),
    /// Read whether the heater is on, and at which level.
    Heater,
    /// Switch the heater on at a level, or off.
    SetHeater(Option<HeaterPower>),
}

/// One bus transaction for the transport to carry out.
#[derive(Debug, PartialEq, Eq)]
pub enum Action {
    /// Write `command` to the device at `address`, then read `len` bytes from it.
    WriteRead { address: u8, command: Vec<u8>, len: usize },
    /// Write `bytes` to the device at `address`.
    Write { address: u8, bytes: Vec<u8> },
}

/// An [`Action`] as contracts see it.
pub enum ActionView {
    WriteRead { address: u8, command: Seq<u8>, len: nat },
    Write { address: u8, bytes: Seq<u8> },
}

impl View for Action {
    type V = ActionView;

    open spec fn view(&self) -> ActionView {
        match self {
            Action::WriteRead { address, command, len } => ActionView::WriteRead {
                address: *address,
                command: command@,
                len: *len as nat,
            },
            Action::Write { address, bytes } => ActionView::Write {
                address: *address,
                bytes: bytes@,
            },
        }
    }
}

/// What a bus transaction brought.
#[derive(Debug, PartialEq)]
pub enum Event<E> {
    /// The bytes read by a write-then-read transaction.
    Read(Vec<u8>),
    /// A write transaction went through.
    Written,
    /// The transport failed.
    Failed(E),
}

/// The value that a finished accessor hands out.
#[derive(Debug, PartialEq, Eq, Clone, Copy)]
pub enum Reading {
    /// Relative humidity in hundredths of a percent.
    Humidity(i32),
    /// Temperature in hundredths of a degree Celsius.
    Temperature(i32),
    /// The electronic serial number.
    SerialNumber(u64),
    /// The firmware revision.
    FirmwareRevision(u8),
    /// The measurement resolution in force.
    MeasurementResolution(MeasurementResolution),
    /// The heater level, or `None` with the heater off.
    Heater(Option<HeaterPower>),
    /// Nothing to hand out: the sensor took the command.
    Complete,
}

/// How an accessor goes on: with one more bus transaction, or with its result.
#[derive(Debug, PartialEq)]
pub enum Step<E> {
    /// The transaction to carry out next.
    Transfer(Action),
    /// The accessor's result. Nothing more is to be done.
    Done(Result<Reading, Error<E>>),
}

/// A [`Step`] as contracts see it.
pub enum StepView<E> {
    Transfer(ActionView),
    Done(Result<Reading, Error<E>>),
}

impl<E> View for Step<E> {
    type V = StepView<E>;

    open spec fn view(&self) -> StepView<E> {
        match self {
            Step::Transfer(action) => StepView::Transfer(action@),
            Step::Done(result) => StepView::Done(*result),
        }
    }
}

/// The step that asks for a write of `command` followed by a read of `len` bytes.
pub open spec fn ask_read<E>(command: Seq<u8>, len: nat) -> StepView<E> {
    StepView::Transfer(ActionView::WriteRead { address: ADDRESS, command, len })
}

/// The step that asks for a write of `bytes`.
pub open spec fn ask_write<E>(bytes: Seq<u8>) -> StepView<E> {
    StepView::Transfer(ActionView::Write { address: ADDRESS, bytes })
}

/// The step that ends an accessor with what a decoder made of a transfer.
pub open spec fn finish<T, E>(decoded: Result<T, Error<E>>, reading: spec_fn(T) -> Reading)
    -> StepView<E> {
    StepView::Done(
        match decoded {
            Ok(value) => Ok(reading(value)),
            Err(error) => Err(error),
        },
    )
}

/// What an accessor does once the transactions it asked for so far have
/// brought `replies`, the bytes read by each in turn (none for a write).
///
/// Every accessor asks for its transactions one after the other and ends with
/// the first it has no need of. Switching the heater off touches user
/// register 1 alone; switching it on at a level touches the heater control
/// register too. A heater level above 15 ends `set_heater` before anything is
/// put on the bus.
pub open spec fn script<E>(operation: Operation, replies: Seq<Seq<u8>>) -> StepView<E> {
    let done = replies.len();
    match operation {
        Operation::Humidity => if done == 0 {
            ask_read(MEASURE_HUMIDITY_HOLD@, 3)
        } else {
            finish(decode_humidity::<E>(replies[0]), |value: i32| Reading::Humidity(value))
        },
        Operation::TemperatureRhMeasurement => if done == 0 {
            ask_read(READ_TEMPERATURE_FROM_HUMIDITY_MEASUREMENT@, 2)
        } else {
            finish(
                decode_temperature_nocrc::<E>(replies[0]),
                |value: i32| Reading::Temperature(value),
            )
        },
        Operation::Temperature => if done == 0 {
            ask_read(MEASURE_TEMPERATURE_HOLD@, 3)
        } else {
            finish(decode_temperature::<E>(replies[0]), |value: i32| Reading::Temperature(value))
        },
        Operation::SerialNumber => if done == 0 {
            ask_read(READ_ELECTRONIC_ID1@, 8)
        } else if done == 1 {
            ask_read(READ_ELECTRONIC_ID2@, 6)
        } else {
            finish(
                decode_serial_number::<E>(replies[0] + replies[1]),
                |value: u64| Reading::SerialNumber(value),
            )
        },
        Operation::FirmwareRevision => if done == 0 {
            ask_read(READ_FIRMWARE_REVISION@, 1)
        } else {
            StepView::Done(Ok(Reading::FirmwareRevision(replies[0][0])))
        },
        Operation::Reset => if done == 0 {
            ask_write(RESET@)
        } else {
            StepView::Done(Ok(Reading::Complete))
        },
        Operation::MeasurementResolution => if done == 0 {
            ask_read(READ_USER_REGISTER1@, 1)
        } else {
            StepView::Done(Ok(Reading::MeasurementResolution(resolution_of(replies[0][0]))))
        },
        Operation::SetMeasurementResolution(resolution) => if done == 0 {
            ask_read(READ_USER_REGISTER1@, 1)
        } else if done == 1 {
            ask_write(WRITE_USER_REGISTER1@.push(with_resolution(replies[0][0], resolution)))
        } else {
            StepView::Done(Ok(Reading::Complete))
        },
        Operation::Heater => if done == 0 {
            ask_read(READ_USER_REGISTER1@, 1)
        } else if !heater_enabled(replies[0][0]) {
            StepView::Done(Ok(Reading::Heater(None)))
        } else if done == 1 {
            ask_read(READ_HEATER_REGISTER@, 1)
        } else {
            StepView::Done(Ok(Reading::Heater(Some(heater_level_of(replies[1][0])))))
        },
        Operation::SetHeater(None) => if done == 0 {
            ask_read(READ_USER_REGISTER1@, 1)
        } else if done == 1 {
            ask_write(WRITE_USER_REGISTER1@.push(with_heater_enabled(replies[0][0], false)))
        } else {
            StepView::Done(Ok(Reading::Complete))
        },
        Operation::SetHeater(Some(level)) => if level > 0x0f {
            StepView::Done(Err(Error::InvalidHeaterLevel))
        } else if done == 0 {
            ask_read(READ_USER_REGISTER1@, 1)
        } else if done == 1 {
            ask_read(READ_HEATER_REGISTER@, 1)
        } else if done == 2 {
            ask_write(WRITE_USER_REGISTER1@.push(with_heater_enabled(replies[0][0], true)))
        } else if done == 3 {
            ask_write(WRITE_HEATER_REGISTER@.push(with_heater_level(replies[1][0], level)))
        } else {
            StepView::Done(Ok(Reading::Complete))
        },
    }
}

/// Whether `reading` is of the kind that `operation` hands out.
pub open spec fn reading_of(operation: Operation, reading: Reading) -> bool {
    match operation {
        Operation::Humidity => reading is Humidity,
        Operation::TemperatureRhMeasurement => reading is Temperature,
        Operation::Temperature => reading is Temperature,
        Operation::SerialNumber => reading is SerialNumber,
        Operation::FirmwareRevision => reading is FirmwareRevision,
        Operation::Reset => reading is Complete,
        Operation::MeasurementResolution => reading is MeasurementResolution,
        Operation::SetMeasurementResolution(_) => reading is Complete,
        Operation::Heater => reading is Heater,
        Operation::SetHeater(_) => reading is Complete,
    }
}

/// No accessor asks for more than four transactions.
pub proof fn lemma_script_ends<E>(operation: Operation, replies: Seq<Seq<u8>>)
    requires
        replies.len() >= 4,
    ensures
        script::<E>(operation, replies) is Done,
{
}

/// An accessor that ends well hands out a reading of its own kind, and one
/// that ends badly never blames the transport: a transport error comes from a
/// failed transaction alone.
pub proof fn lemma_script_result<E>(operation: Operation, replies: Seq<Seq<u8>>)
    ensures
        script::<E>(operation, replies) matches StepView::Done(Ok(reading)) ==> reading_of(
            operation,
            reading,
        ),
        script::<E>(operation, replies) matches StepView::Done(Err(error)) ==> !(error is I2c),
{
}

/// A heater level above 15 is refused whatever has come before: no
/// transaction is ever asked for on its account.
pub proof fn lemma_invalid_heater_level_refused<E>(level: HeaterPower, replies: Seq<Seq<u8>>)
    requires
        level > 0x0f,
    ensures
        script::<E>(Operation::SetHeater(Some(level)), replies) == StepView::<E>::Done(
            Err(Error::InvalidHeaterLevel),
        ),
{
}

/// The byte that `set_measurement_resolution` writes back selects the
/// resolution asked for and differs from the byte read in bits 0 and 7 at most.
pub proof fn lemma_set_measurement_resolution_write<E>(resolution: MeasurementResolution, user: u8)
    ensures
        ({
            let written = with_resolution(user, resolution);
            &&& script::<E>(Operation::SetMeasurementResolution(resolution), seq![seq![user]])
                == ask_write::<E>(seq![0xe6u8, written])
            &&& resolution_of(written) == resolution
            &&& written & 0x7e == user & 0x7e
        }),
{
    crate::register::lemma_resolution_round_trip(user, resolution);
    assert(WRITE_USER_REGISTER1@.push(with_resolution(user, resolution)) =~= seq![
        0xe6u8,
        with_resolution(user, resolution),
    ]);
}

/// Switching the heater off is one read and one write of user register 1:
/// the byte written back has the heater off and differs from the byte read in
/// bit 2 at most. The heater control register is neither read nor written.
pub proof fn lemma_set_heater_off<E>(user: u8)
    ensures
        ({
            let written = with_heater_enabled(user, false);
            &&& script::<E>(Operation::SetHeater(None), Seq::empty()) == ask_read::<E>(
                seq![0xe7u8],
                1,
            )
            &&& script::<E>(Operation::SetHeater(None), seq![seq![user]]) == ask_write::<E>(
                seq![0xe6u8, written],
            )
            &&& script::<E>(Operation::SetHeater(None), seq![seq![user], Seq::empty()])
                == StepView::<E>::Done(Ok(Reading::Complete))
            &&& !heater_enabled(written)
            &&& written & 0xfb == user & 0xfb
        }),
{
    crate::register::lemma_heater_enabled_round_trip(user, false);
    assert(READ_USER_REGISTER1@ =~= seq![0xe7u8]);
    assert(WRITE_USER_REGISTER1@.push(with_heater_enabled(user, false)) =~= seq![
        0xe6u8,
        with_heater_enabled(user, false),
    ]);
}

/// The bytes that switching the heater on at a level writes back, user
/// register 1 first: the heater is on, the level is the one given, and no
/// other bit differs from the bytes read.
pub proof fn lemma_set_heater_on_writes<E>(level: HeaterPower, user: u8, heater: u8)
    requires
        level <= 0x0f,
    ensures
        ({
            let replies = seq![seq![user], seq![heater]];
            let user_written = with_heater_enabled(user, true);
            let heater_written = with_heater_level(heater, level);
            &&& script::<E>(Operation::SetHeater(Some(level)), replies) == ask_write::<E>(
                seq![0xe6u8, user_written],
            )
            &&& script::<E>(Operation::SetHeater(Some(level)), replies.push(Seq::empty()))
                == ask_write::<E>(seq![0x51u8, heater_written])
            &&& heater_enabled(user_written)
            &&& user_written & 0xfb == user & 0xfb
            &&& heater_level_of(heater_written) == level
            &&& heater_written & 0xf0 == heater & 0xf0
        }),
{
    crate::register::lemma_heater_enabled_round_trip(user, true);
    crate::register::lemma_heater_level_round_trip(heater, level);
    assert(WRITE_USER_REGISTER1@.push(with_heater_enabled(user, true)) =~= seq![
        0xe6u8,
        with_heater_enabled(user, true),
    ]);
    assert(WRITE_HEATER_REGISTER@.push(with_heater_level(heater, level)) =~= seq![
        0x51u8,
        with_heater_level(heater, level),
    ]);
}

/// Whether `event` is something that carrying out `action` can bring: a
/// failure, or as many bytes as a read asked for, or the end of a write.
pub open spec fn answers<E>(action: ActionView, event: Event<E>) -> bool {
    match event {
        Event::Failed(_) => true,
        Event::Read(bytes) => action matches ActionView::WriteRead { len, .. } && bytes@.len()
            == len,
        Event::Written => action is Write,
    }
}

/// The bytes that a transaction which went through has read.
pub open spec fn reply_of<E>(event: Event<E>) -> Seq<u8> {
    match event {
        Event::Read(bytes) => bytes@,
        _ => Seq::empty(),
    }
}

/// Copies `bytes` into a buffer of the same length.
fn fill(buf: &mut [u8], bytes: &[u8])
    requires
        old(buf)@.len() == bytes@.len(),
    ensures
        final(buf)@ == bytes@,
{
    let mut i: usize = 0;
    while i < bytes.len()
        invariant
            i <= bytes@.len(),
            buf@.len() == bytes@.len(),
            forall|j: int| 0 <= j < i ==> buf@[j] == bytes@[j],
        decreases bytes@.len() - i,
    {
        buf[i] = bytes[i];
        i = i + 1;
    }
}

/// The step that asks for a write of `command` followed by a read of `len` bytes.
fn read_step<E>(command: &[u8], len: usize) -> (step: Step<E>)
    ensures
        step@ == ask_read::<E>(command@, len as nat),
{
    Step::Transfer(Action::WriteRead { address: ADDRESS, command: slice_to_vec(command), len })
}

/// The step that asks for a write of `command` alone.
fn command_step<E>(command: &[u8]) -> (step: Step<E>)
    ensures
        step@ == ask_write::<E>(command@),
{
    Step::Transfer(Action::Write { address: ADDRESS, bytes: slice_to_vec(command) })
}

/// The step that asks for a write of `command` followed by `value`.
fn write_step<E>(command: &[u8], value: u8) -> (step: Step<E>)
    ensures
        step@ == ask_write::<E>(command@.push(value)),
{
    let mut bytes = slice_to_vec(command);
    bytes.push(value);
    Step::Transfer(Action::Write { address: ADDRESS, bytes })
}

/// How many bytes the transaction of `step` reads, if it reads any.
fn read_len<E>(step: &Step<E>) -> (len: Option<usize>)
    ensures
        expects(step@, len),
{
    match step {
        Step::Transfer(Action::WriteRead { len, .. }) => Some(*len),
        _ => None,
    }
}

/// Whether `expect` is the number of bytes that the transaction of `step`
/// reads: none for a write, and none where the accessor is done.
spec fn expects<E>(step: StepView<E>, expect: Option<usize>) -> bool {
    match step {
        StepView::Transfer(ActionView::WriteRead { len, .. }) => expect == Some(len as usize)
            && len <= usize::MAX,
        _ => expect is None,
    }
}

/// Whether `bytes` are what the transaction of `step` reads where it goes
/// through: as many as a read asked for, and none for a write.
spec fn brings<E>(step: StepView<E>, bytes: Seq<u8>) -> bool {
    match step {
        StepView::Transfer(ActionView::WriteRead { len, .. }) => bytes.len() == len,
        StepView::Transfer(ActionView::Write { .. }) => bytes.len() == 0,
        StepView::Done(_) => false,
    }
}

/// Whether `kept` holds of the replies so far what the steps still to come need.
spec fn keeps(operation: Operation, replies: Seq<Seq<u8>>, kept: Seq<u8>) -> bool {
    match operation {
        Operation::SerialNumber => replies.len() == 1 ==> kept == replies[0] && kept.len() == 8,
        Operation::SetHeater(Some(level)) => {
            &&& replies.len() == 1 ==> kept.len() == 1 && kept[0] == replies[0][0]
            &&& replies.len() == 2 ==> kept.len() == 1 && kept[0] == with_heater_level(
                replies[1][0],
                level,
            )
        },
        _ => true,
    }
}

/// A session with the sensor: the accessor under way, if any, and how far it
/// has come. `E` is the transport's error type.
pub struct Si7021<E> {
    /// The accessor under way.
    pending: Option<Operation>,
    /// How many of its transactions have gone through.
    phase: u8,
    /// How many bytes the transaction asked for last reads, if it reads any.
    expect: Option<usize>,
    /// The bytes of earlier replies that the steps still to come need.
    kept: Vec<u8>,
    /// What the transactions that have gone through have read.
    replies: Ghost<Seq<Seq<u8>>>,
    _marker: PhantomData<E>,
}

/// A [`Si7021`] as contracts see it.
pub struct SessionView {
    /// The accessor under way, if any.
    pub operation: Option<Operation>,
    /// What the transactions of the accessor under way have read so far, in
    /// their order; nothing with no accessor under way.
    pub replies: Seq<Seq<u8>>,
}

impl SessionView {
    /// The session with no accessor under way.
    pub open spec fn idle() -> SessionView {
        SessionView { operation: None, replies: Seq::empty() }
    }
}

impl<E> View for Si7021<E> {
    type V = SessionView;

    closed spec fn view(&self) -> SessionView {
        SessionView { operation: self.pending, replies: self.replies@ }
    }
}

impl<E> Si7021<E> {
    /// With an accessor under way the session waits for the outcome of the
    /// transaction that the script asks for after the replies so far, and it
    /// has kept of them what the script will ask for later.
    #[verifier::type_invariant]
    spec fn inv(&self) -> bool {
        match self.pending {
            None => self.replies@.len() == 0,
            Some(operation) => {
                &&& self.phase == self.replies@.len()
                &&& script::<E>(operation, self.replies@) is Transfer
                &&& expects(script::<E>(operation, self.replies@), self.expect)
                &&& keeps(operation, self.replies@, self.kept@)
            },
        }
    }

    /// The accessor under way, if any.
    pub open spec fn operation(&self) -> Option<Operation> {
        self@.operation
    }

    /// What the transactions of the accessor under way have read so far.
    pub open spec fn replies(&self) -> Seq<Seq<u8>> {
        self@.replies
    }

    /// The transaction whose outcome the session waits for, if any.
    pub open spec fn awaited(&self) -> Option<ActionView> {
        match self.operation() {
            Some(operation) => match script::<E>(operation, self.replies()) {
                StepView::Transfer(action) => Some(action),
                StepView::Done(_) => None,
            },
            None => None,
        }
    }

    /// Whether `event` is a possible outcome of the transaction that the
    /// session waits for.
    pub open spec fn accepts(&self, event: Event<E>) -> bool {
        self.awaited() matches Some(action) && answers(action, event)
    }

    /// Whether the session stands where `operation` does after `replies`,
    /// having handed out `step`: the step is the script's, and the accessor
    /// is under way exactly as long as the script asks for a transaction.
    pub open spec fn follows(
        &self,
        operation: Operation,
        replies: Seq<Seq<u8>>,
        step: Step<E>,
    ) -> bool {
        &&& step@ == script::<E>(operation, replies)
        &&& match step {
            Step::Transfer(_) => self@ == (SessionView { operation: Some(operation), replies }),
            Step::Done(_) => self@ == SessionView::idle(),
        }
    }

    /// A session with no accessor under way.
    pub fn new() -> (session: Self)
        ensures
            session@ == SessionView::idle(),
    {
        Si7021 {
            pending: None,
            phase: 0,
            expect: None,
            kept: Vec::new(),
            replies: Ghost(Seq::empty()),
            _marker: PhantomData,
        }
    }

    /// Takes note of the step that `operation` goes on with after `replies`.
    fn settle(
        &mut self,
        operation: Operation,
        phase: u8,
        kept: Vec<u8>,
        step: &Step<E>,
        Ghost(replies): Ghost<Seq<Seq<u8>>>,
    )
        requires
            phase == replies.len(),
            step@ == script::<E>(operation, replies),
            keeps(operation, replies, kept@),
        ensures
            final(self).follows(operation, replies, *step),
    {
        match step {
            Step::Transfer(_) => {
                *self = Si7021 {
                    pending: Some(operation),
                    phase,
                    expect: read_len(step),
                    kept,
                    replies: Ghost(replies),
                    _marker: PhantomData,
                };
            },
            Step::Done(_) => {
                *self = Si7021::new();
            },
        }
    }

    /// What `operation` goes on with once the transaction it asked for after
    /// `before` has brought `bytes`, and what is to be kept for later steps.
    fn next(
        operation: Operation,
        phase: u8,
        kept: &Vec<u8>,
        bytes: Vec<u8>,
        Ghost(before): Ghost<Seq<Seq<u8>>>,
    ) -> (next: (Step<E>, Vec<u8>))
        requires
            phase == before.len(),
            brings(script::<E>(operation, before), bytes@),
            keeps(operation, before, kept@),
        ensures
            next.0@ == script::<E>(operation, before.push(bytes@)),
            keeps(operation, before.push(bytes@), next.1@),
    {
        match operation {
            Operation::Humidity => {
                let mut humidity: Humidity<E> = Humidity::new();
                fill(humidity.buf(), bytes.as_slice());
                let step = match humidity.humidity() {
                    Ok(value) => Step::Done(Ok(Reading::Humidity(value))),
                    Err(error) => Step::Done(Err(error)),
                };
                (step, Vec::new())
            },
            Operation::TemperatureRhMeasurement => {
                let mut temperature: Temperature<E> = Temperature::new();
                fill(temperature.buf_nocrc(), bytes.as_slice());
                let step = match temperature.temperature_nocrc() {
                    Ok(value) => Step::Done(Ok(Reading::Temperature(value))),
                    Err(error) => Step::Done(Err(error)),
                };
                (step, Vec::new())
            },
            Operation::Temperature => {
                let mut temperature: Temperature<E> = Temperature::new();
                fill(temperature.buf(), bytes.as_slice());
                let step = match temperature.temperature() {
                    Ok(value) => Step::Done(Ok(Reading::Temperature(value))),
                    Err(error) => Step::Done(Err(error)),
                };
                (step, Vec::new())
            },
            Operation::SerialNumber => {
                if phase == 0 {
                    (read_step(&READ_ELECTRONIC_ID2, 6), bytes)
                } else {
                    let mut serial_number: SerialNumber<E> = SerialNumber::new();
                    fill(serial_number.buf_id1(), kept.as_slice());
                    fill(serial_number.buf_id2(), bytes.as_slice());
                    let step = match serial_number.serial_number() {
                        Ok(value) => Step::Done(Ok(Reading::SerialNumber(value))),
                        Err(error) => Step::Done(Err(error)),
                    };
                    (step, Vec::new())
                }
            },
            Operation::FirmwareRevision => {
                (Step::Done(Ok(Reading::FirmwareRevision(bytes[0]))), Vec::new())
            },
            Operation::Reset => { (Step::Done(Ok(Reading::Complete)), Vec::new()) },
            Operation::MeasurementResolution => {
                let mut registers: UserHeaterRegister<E> = UserHeaterRegister::new();
                fill(registers.buf_user(), bytes.as_slice());
                (
                    Step::Done(
                        Ok(Reading::MeasurementResolution(registers.measurement_resolution())),
                    ),
                    Vec::new(),
                )
            },
            Operation::SetMeasurementResolution(measurement_resolution) => {
                if phase == 0 {
                    let mut registers: UserHeaterRegister<E> = UserHeaterRegister::new();
                    fill(registers.buf_user(), bytes.as_slice());
                    registers.set_measurement_resolution(measurement_resolution);
                    (write_step(&WRITE_USER_REGISTER1, registers.buf_user()[0]), Vec::new())
                } else {
                    (Step::Done(Ok(Reading::Complete)), Vec::new())
                }
            },
            Operation::Heater => {
                let mut registers: UserHeaterRegister<E> = UserHeaterRegister::new();
                if phase == 0 {
                    fill(registers.buf_user(), bytes.as_slice());
                    if registers.heater_on() {
                        (read_step(&READ_HEATER_REGISTER, 1), Vec::new())
                    } else {
                        (Step::Done(Ok(Reading::Heater(None))), Vec::new())
                    }
                } else {
                    fill(registers.buf_heater(), bytes.as_slice());
                    (Step::Done(Ok(Reading::Heater(Some(registers.heater_level())))), Vec::new())
                }
            },
            Operation::SetHeater(None) => {
                if phase == 0 {
                    let mut registers: UserHeaterRegister<E> = UserHeaterRegister::new();
                    fill(registers.buf_user(), bytes.as_slice());
                    registers.set_heater_state(false);
                    (write_step(&WRITE_USER_REGISTER1, registers.buf_user()[0]), Vec::new())
                } else {
                    (Step::Done(Ok(Reading::Complete)), Vec::new())
                }
            },
            Operation::SetHeater(Some(level)) => {
                if phase == 0 {
                    (read_step(&READ_HEATER_REGISTER, 1), bytes)
                } else if phase == 1 {
                    let mut registers: UserHeaterRegister<E> = UserHeaterRegister::new();
                    fill(registers.buf_user(), kept.as_slice());
                    fill(registers.buf_heater(), bytes.as_slice());
                    match registers.set_heater_level(level) {
                        Ok(()) => {},
                        Err(error) => {
                            return (Step::Done(Err(error)), Vec::new());
                        },
                    }
                    registers.set_heater_state(true);
                    let user: u8 = registers.buf_user()[0];
                    let heater: u8 = registers.buf_heater()[0];
                    (write_step(&WRITE_USER_REGISTER1, user), vec![heater])
                } else if phase == 2 {
                    (write_step(&WRITE_HEATER_REGISTER, kept[0]), Vec::new())
                } else {
                    (Step::Done(Ok(Reading::Complete)), Vec::new())
                }
            },
        }
    }

    /// Starts `operation`, dropping whatever accessor was under way.
    pub fn start(&mut self, operation: Operation) -> (step: Step<E>)
        ensures
            final(self).follows(operation, Seq::empty(), step),
    {
        let step = match operation {
            Operation::Humidity => read_step(&MEASURE_HUMIDITY_HOLD, 3),
            Operation::TemperatureRhMeasurement => read_step(
                &READ_TEMPERATURE_FROM_HUMIDITY_MEASUREMENT,
                2,
            ),
            Operation::Temperature => read_step(&MEASURE_TEMPERATURE_HOLD, 3),
            Operation::SerialNumber => read_step(&READ_ELECTRONIC_ID1, 8),
            Operation::FirmwareRevision => read_step(&READ_FIRMWARE_REVISION, 1),
            Operation::Reset => command_step(&RESET),
            Operation::MeasurementResolution => read_step(&READ_USER_REGISTER1, 1),
            Operation::SetMeasurementResolution(_) => read_step(&READ_USER_REGISTER1, 1),
            Operation::Heater => read_step(&READ_USER_REGISTER1, 1),
            Operation::SetHeater(heater_power) => {
                let mut registers: UserHeaterRegister<E> = UserHeaterRegister::new();
                let checked = match heater_power {
                    Some(level) => registers.set_heater_level(level),
                    None => Ok(()),
                };
                match checked {
                    Ok(()) => read_step(&READ_USER_REGISTER1, 1),
                    Err(error) => Step::Done(Err(error)),
                }
            },
        };
        self.settle(operation, 0, Vec::new(), &step, Ghost(Seq::empty()));
        step
    }

    /// Starts a humidity measurement. The reading is in hundredths of a
    /// percent of relative humidity.
    pub fn humidity(&mut self) -> (step: Step<E>)
        ensures
            final(self).follows(Operation::Humidity, Seq::empty(), step),
    {
        self.start(Operation::Humidity)
    }

    /// Starts the read of the temperature that the sensor took along with its
    /// last humidity measurement. The reading is in hundredths of a degree
    /// Celsius.
    pub fn temperature_rh_measurement(&mut self) -> (step: Step<E>)
        ensures
            final(self).follows(Operation::TemperatureRhMeasurement, Seq::empty(), step),
    {
        self.start(Operation::TemperatureRhMeasurement)
    }

    /// Starts a temperature measurement. The reading is in hundredths of a
    /// degree Celsius.
    pub fn temperature(&mut self) -> (step: Step<E>)
        ensures
            final(self).follows(Operation::Temperature, Seq::empty(), step),
    {
        self.start(Operation::Temperature)
    }

    /// Starts the read of the electronic serial number.
    pub fn serial_number(&mut self) -> (step: Step<E>)
        ensures
            final(self).follows(Operation::SerialNumber, Seq::empty(), step),
    {
        self.start(Operation::SerialNumber)
    }

    /// Starts the read of the firmware revision.
    pub fn firmware_revision(&mut self) -> (step: Step<E>)
        ensures
            final(self).follows(Operation::FirmwareRevision, Seq::empty(), step),
    {
        self.start(Operation::FirmwareRevision)
    }

    /// Starts a reset of the sensor.
    pub fn reset(&mut self) -> (step: Step<E>)
        ensures
            final(self).follows(Operation::Reset, Seq::empty(), step),
    {
        self.start(Operation::Reset)
    }

    /// Starts the read of the measurement resolution.
    pub fn measurement_resolution(&mut self) -> (step: Step<E>)
        ensures
            final(self).follows(Operation::MeasurementResolution, Seq::empty(), step),
    {
        self.start(Operation::MeasurementResolution)
    }

    /// Starts the change to another measurement resolution: user register 1
    /// is read, and written back with bits 0 and 7 changed.
    pub fn set_measurement_resolution(&mut self, measurement_resolution: MeasurementResolution)
        -> (step: Step<E>)
        ensures
            final(self).follows(
                Operation::SetMeasurementResolution(measurement_resolution),
                Seq::empty(),
                step,
            ),
    {
        self.start(Operation::SetMeasurementResolution(measurement_resolution))
    }

    /// Starts the read of the heater's state: user register 1 is read, and
    /// the heater control register after it where the heater is on.
    pub fn heater(&mut self) -> (step: Step<E>)
        ensures
            final(self).follows(Operation::Heater, Seq::empty(), step),
    {
        self.start(Operation::Heater)
    }

    /// Starts switching the heater on at a level, or off. With a level both
    /// registers are read, then written back one after the other, user
    /// register 1 first. With none user register 1 alone is read and written
    /// back, and the heater control register is left alone. A level above 15
    /// is refused at once.
    pub fn set_heater(&mut self, heater_power: Option<HeaterPower>) -> (step: Step<E>)
        ensures
            final(self).follows(Operation::SetHeater(heater_power), Seq::empty(), step),
    {
        self.start(Operation::SetHeater(heater_power))
    }

    /// Takes what the transaction asked for last has brought, and goes on
    /// with the accessor under way.
    ///
    /// A failure of the transport ends the accessor with that failure. Any
    /// other event that answers the transaction moves the accessor one step
    /// along its script. An event that does not answer it, or comes with no
    /// accessor under way, is refused: the result is `None` and the session
    /// stays as it was.
    pub fn advance(&mut self, event: Event<E>) -> (step: Option<Step<E>>)
        ensures
            old(self).accepts(event) ==> match event {
                Event::Failed(error) => {
                    &&& step matches Some(ended)
                    &&& ended@ == StepView::<E>::Done(Err(Error::I2c(error)))
                    &&& final(self)@ == SessionView::idle()
                },
                _ => {
                    &&& step matches Some(next)
                    &&& final(self).follows(
                        old(self).operation().unwrap(),
                        old(self).replies().push(reply_of(event)),
                        next,
                    )
                },
            },
            !old(self).accepts(event) ==> step is None && final(self)@ == old(self)@,
    {
        proof {
            use_type_invariant(&*self);
        }
        let operation = match self.pending {
            Some(operation) => operation,
            None => {
                return None;
            },
        };
        let bytes: Vec<u8> = match event {
            Event::Failed(error) => {
                *self = Si7021::new();
                return Some(Step::Done(Err(Error::I2c(error))));
            },
            Event::Read(bytes) => {
                match self.expect {
                    Some(len) => {
                        if bytes.len() != len {
                            return None;
                        }
                    },
                    None => {
                        return None;
                    },
                }
                bytes
            },
            Event::Written => {
                if self.expect.is_some() {
                    return None;
                }
                Vec::new()
            },
        };
        let ghost replies = self.replies@.push(bytes@);
        let (step, kept) = Self::next(operation, self.phase, &self.kept, bytes, Ghost(self.replies@));
        self.settle(operation, self.phase + 1, kept, &step, Ghost(replies));
        Some(step)
    }
}

} // verus!
