use si7021_hal::session::{Action, Event, Operation, Reading, Step};
use si7021_hal::{Error, MeasurementResolution, Si7021};
use std::io::ErrorKind;

/// The error of the bus that stands in for the sensor.
#[derive(Debug, PartialEq)]
enum MockError {
    Io(ErrorKind),
}

/// One transaction that the bus expects, with the bytes it answers a read by.
struct Transaction {
    expected: Action,
    response: Vec<u8>,
    error: Option<MockError>,
}

impl Transaction {
    fn write_read(address: u8, command: Vec<u8>, response: Vec<u8>) -> Self {
        let expected = Action::WriteRead { address, command, len: response.len() };
        Transaction { expected, response, error: None }
    }

    fn write(address: u8, bytes: Vec<u8>) -> Self {
        Transaction { expected: Action::Write { address, bytes }, response: vec![], error: None }
    }

    fn with_error(mut self, error: MockError) -> Self {
        self.error = Some(error);
        self
    }
}

/// A bus that answers the transactions it expects, in their order, and
/// panics on any other.
struct Mock {
    expected: std::vec::IntoIter<Transaction>,
    done: usize,
}

impl Mock {
    fn new(expected: Vec<Transaction>) -> Self {
        Mock { expected: expected.into_iter(), done: 0 }
    }

    /// Carries out the transactions that the session asks for until the
    /// accessor is done.
    fn run(
        &mut self,
        session: &mut Si7021<MockError>,
        first: Step<MockError>,
    ) -> Result<Reading, Error<MockError>> {
        let mut step = first;
        loop {
            let action = match step {
                Step::Done(result) => return result,
                Step::Transfer(action) => action,
            };
            let transaction = self.expected.next().expect("no transaction expected");
            assert_eq!(action, transaction.expected);
            self.done += 1;
            let event = match (transaction.error, action) {
                (Some(error), _) => Event::Failed(error),
                (None, Action::WriteRead { .. }) => Event::Read(transaction.response),
                (None, Action::Write { .. }) => Event::Written,
            };
            step = session.advance(event).expect("the event answers the transaction");
        }
    }
}

#[test]
fn get_temperature() {
    let mut bus = Mock::new(vec![Transaction::write_read(
        0x40,
        vec![0xe3],
        vec![0x66, 0x4c, 0x4f],
    )]);
    let mut si7021 = Si7021::new();

    let first = si7021.temperature();
    let temperature = bus.run(&mut si7021, first);
    assert!(temperature.is_ok());
    assert_eq!(temperature.unwrap(), Reading::Temperature(2336));
}

#[test]
fn get_temperature_crc_failure() {
    let mut bus = Mock::new(vec![Transaction::write_read(
        0x40,
        vec![0xe3],
        vec![0x66, 0x4c, 0xff],
    )]);
    let mut si7021 = Si7021::new();

    let first = si7021.temperature();
    let temperature = bus.run(&mut si7021, first);
    assert!(temperature.is_err());
    assert_eq!(temperature.unwrap_err(), Error::ChecksumFailure);
}

#[test]
fn get_humdity_and_temperature() {
    let mut bus = Mock::new(vec![
        Transaction::write_read(0x40, vec![0xe5], vec![0xa1, 0xa6, 0x51]),
        Transaction::write_read(0x40, vec![0xe0], vec![0x66, 0x44]),
    ]);
    let mut si7021 = Si7021::new();

    let first = si7021.humidity();
    let humidity = bus.run(&mut si7021, first);
    assert!(humidity.is_ok());
    assert_eq!(humidity.unwrap(), Reading::Humidity(7292));

    let first = si7021.temperature_rh_measurement();
    let temperature = bus.run(&mut si7021, first);
    assert!(temperature.is_ok());
    assert_eq!(temperature.unwrap(), Reading::Temperature(2334));
}

#[test]
fn get_humdity_crc_failure() {
    let mut bus = Mock::new(vec![Transaction::write_read(
        0x40,
        vec![0xe5],
        vec![0xa1, 0xa6, 0xff],
    )]);
    let mut si7021 = Si7021::new();

    let first = si7021.humidity();
    let humidity = bus.run(&mut si7021, first);
    assert!(humidity.is_err());
    assert_eq!(humidity.unwrap_err(), Error::ChecksumFailure);
}

#[test]
fn get_humidity_temperature_without_humidity_measurement() {
    let mut bus = Mock::new(vec![Transaction::write_read(0x40, vec![0xe0], vec![0x00, 0x00])]);
    let mut si7021 = Si7021::new();

    let first = si7021.temperature_rh_measurement();
    let temperature = bus.run(&mut si7021, first);
    assert!(temperature.is_err());
    assert_eq!(temperature.unwrap_err(), Error::NoPreviousHumidityMeasurement);
}

#[test]
fn get_serial_number() {
    let mut bus = Mock::new(vec![
        Transaction::write_read(
            0x40,
            vec![0xfa, 0x0f],
            vec![0x84, 0xbe, 0x2c, 0x5b, 0xf9, 0x9e, 0xb1, 0xa8],
        ),
        Transaction::write_read(0x40, vec![0xfc, 0xc9], vec![0x15, 0xff, 0xb5, 0xff, 0xff, 0xcb]),
    ]);
    let mut si7021 = Si7021::new();

    let first = si7021.serial_number();
    let serial_number = bus.run(&mut si7021, first);
    assert!(serial_number.is_ok());
    assert_eq!(serial_number.unwrap(), Reading::SerialNumber(0x842cf9b115ffffff));
}

#[test]
fn get_serial_number_crc_failure_id1() {
    let mut bus = Mock::new(vec![
        Transaction::write_read(
            0x40,
            vec![0xfa, 0x0f],
            vec![0x84, 0xbe, 0x2c, 0x5b, 0xf9, 0x9e, 0xb1, 0xff],
        ),
        Transaction::write_read(0x40, vec![0xfc, 0xc9], vec![0x15, 0xff, 0xb5, 0xff, 0xff, 0xcb]),
    ]);
    let mut si7021 = Si7021::new();

    let first = si7021.serial_number();
    let serial_number = bus.run(&mut si7021, first);
    assert!(serial_number.is_err());
    assert_eq!(serial_number.unwrap_err(), Error::ChecksumFailure);
}

#[test]
fn get_serial_number_crc_failure_id2() {
    let mut bus = Mock::new(vec![
        Transaction::write_read(
            0x40,
            vec![0xfa, 0x0f],
            vec![0x84, 0xbe, 0x2c, 0x5b, 0xf9, 0x9e, 0xb1, 0xa8],
        ),
        Transaction::write_read(0x40, vec![0xfc, 0xc9], vec![0x15, 0xff, 0xb5, 0xff, 0xff, 0xff]),
    ]);
    let mut si7021 = Si7021::new();

    let first = si7021.serial_number();
    let serial_number = bus.run(&mut si7021, first);
    assert!(serial_number.is_err());
    assert_eq!(serial_number.unwrap_err(), Error::ChecksumFailure);
}

#[test]
fn get_firmware_revision() {
    let mut bus = Mock::new(vec![Transaction::write_read(0x40, vec![0x84, 0xb8], vec![0x20])]);
    let mut si7021 = Si7021::new();

    let first = si7021.firmware_revision();
    let firmware_revision = bus.run(&mut si7021, first);
    assert!(firmware_revision.is_ok());
    assert_eq!(firmware_revision.unwrap(), Reading::FirmwareRevision(0x20));
}

#[test]
fn get_firmware_revision_i2c_error() {
    let mut bus = Mock::new(vec![Transaction::write_read(0x40, vec![0x84, 0xb8], vec![0x20])
        .with_error(MockError::Io(ErrorKind::Other))]);
    let mut si7021 = Si7021::new();

    let first = si7021.firmware_revision();
    let firmware_revision = bus.run(&mut si7021, first);
    assert!(firmware_revision.is_err());
    assert_eq!(firmware_revision.unwrap_err(), Error::I2c(MockError::Io(ErrorKind::Other)));
}

#[test]
fn reset() {
    let mut bus = Mock::new(vec![Transaction::write(0x40, vec![0xfe])]);
    let mut si7021 = Si7021::new();

    let first = si7021.reset();
    let reset = bus.run(&mut si7021, first);
    assert!(reset.is_ok());
}

#[test]
fn set_measurement_resolution() {
    // Fill reserved bits with 1 and ensure they're written back
    let mut bus = Mock::new(vec![
        Transaction::write_read(0x40, vec![0xe7], vec![0xff]),
        Transaction::write(0x40, vec![0xe6, 0x7e]),
    ]);
    let mut si7021 = Si7021::new();

    let first = si7021.set_measurement_resolution(MeasurementResolution::Rh12Temp14);
    let measurement_resolution = bus.run(&mut si7021, first);
    assert!(measurement_resolution.is_ok());
}

#[test]
fn get_measurement_resolution() {
    let mut bus = Mock::new(vec![Transaction::write_read(0x40, vec![0xe7], vec![0x01])]);
    let mut si7021 = Si7021::new();

    let first = si7021.measurement_resolution();
    let measurement_resolution = bus.run(&mut si7021, first);
    assert!(measurement_resolution.is_ok());
    assert_eq!(
        measurement_resolution.unwrap(),
        Reading::MeasurementResolution(MeasurementResolution::Rh8Temp12)
    );
}

#[test]
fn get_heater_off() {
    let mut bus = Mock::new(vec![Transaction::write_read(0x40, vec![0xe7], vec![0x11])]);
    let mut si7021 = Si7021::new();

    let first = si7021.heater();
    let heater = bus.run(&mut si7021, first);
    assert!(heater.is_ok());
    assert_eq!(heater.unwrap(), Reading::Heater(None));
}

#[test]
fn get_heater_on() {
    let mut bus = Mock::new(vec![
        Transaction::write_read(0x40, vec![0xe7], vec![0x04]),
        Transaction::write_read(0x40, vec![0x11], vec![0x0a]),
    ]);
    let mut si7021 = Si7021::new();

    let first = si7021.heater();
    let heater = bus.run(&mut si7021, first);
    assert!(heater.is_ok());
    assert_eq!(heater.unwrap(), Reading::Heater(Some(0x0a)));
}

#[test]
fn set_heater_off() {
    // Fill reserved bits with 1 and ensure they're written back
    let mut bus = Mock::new(vec![
        Transaction::write_read(0x40, vec![0xe7], vec![0xff]),
        Transaction::write(0x40, vec![0xe6, 0xfb]),
    ]);
    let mut si7021 = Si7021::new();

    let first = si7021.set_heater(None);
    let heater = bus.run(&mut si7021, first);
    assert!(heater.is_ok());
    assert_eq!(bus.done, 2);
}

#[test]
fn set_heater_on() {
    // Fill reserved bits with 1 and ensure they're written back
    let mut bus = Mock::new(vec![
        Transaction::write_read(0x40, vec![0xe7], vec![0xfb]),
        Transaction::write_read(0x40, vec![0x11], vec![0xf0]),
        Transaction::write(0x40, vec![0xe6, 0xff]),
        Transaction::write(0x40, vec![0x51, 0xfa]),
    ]);
    let mut si7021 = Si7021::new();

    let first = si7021.set_heater(Some(0x0a));
    let heater = bus.run(&mut si7021, first);
    assert!(heater.is_ok());
    assert_eq!(bus.done, 4);
}

#[test]
fn set_heater_invalid_power() {
    // Fill reserved bits with 1 and ensure they're written back
    let mut bus = Mock::new(vec![
        Transaction::write_read(0x40, vec![0xe7], vec![0xfb]),
        Transaction::write_read(0x40, vec![0x11], vec![0xf0]),
    ]);
    let mut si7021 = Si7021::new();

    let first = si7021.set_heater(Some(0xf0));
    let heater = bus.run(&mut si7021, first);
    assert!(heater.is_err());
    assert_eq!(heater.unwrap_err(), Error::InvalidHeaterLevel);
}

fn read(command: Vec<u8>, len: usize) -> Step<MockError> {
    Step::Transfer(Action::WriteRead { address: 0x40, command, len })
}

fn write(bytes: Vec<u8>) -> Step<MockError> {
    Step::Transfer(Action::Write { address: 0x40, bytes })
}

#[test]
fn accessors_start_with_their_commands() {
    let mut si7021 = Si7021::<MockError>::new();
    assert_eq!(si7021.humidity(), read(vec![0xe5], 3));
    assert_eq!(si7021.temperature(), read(vec![0xe3], 3));
    assert_eq!(si7021.temperature_rh_measurement(), read(vec![0xe0], 2));
    assert_eq!(si7021.serial_number(), read(vec![0xfa, 0x0f], 8));
    assert_eq!(si7021.firmware_revision(), read(vec![0x84, 0xb8], 1));
    assert_eq!(si7021.reset(), write(vec![0xfe]));
    assert_eq!(si7021.measurement_resolution(), read(vec![0xe7], 1));
    assert_eq!(
        si7021.set_measurement_resolution(MeasurementResolution::Rh10Temp10),
        read(vec![0xe7], 1)
    );
    assert_eq!(si7021.heater(), read(vec![0xe7], 1));
    assert_eq!(si7021.set_heater(None), read(vec![0xe7], 1));
    assert_eq!(si7021.set_heater(Some(0x0f)), read(vec![0xe7], 1));
}

#[test]
fn start_is_what_the_accessors_do() {
    let mut si7021 = Si7021::<MockError>::new();
    assert_eq!(si7021.start(Operation::Humidity), read(vec![0xe5], 3));
    assert_eq!(si7021.start(Operation::Reset), write(vec![0xfe]));
    assert_eq!(
        si7021.start(Operation::SetHeater(Some(0x10))),
        Step::Done(Err(Error::InvalidHeaterLevel))
    );
}

#[test]
fn serial_number_reads_the_second_half_after_the_first() {
    let mut si7021 = Si7021::<MockError>::new();
    assert_eq!(si7021.serial_number(), read(vec![0xfa, 0x0f], 8));
    assert_eq!(
        si7021.advance(Event::Read(vec![0x84, 0xbe, 0x2c, 0x5b, 0xf9, 0x9e, 0xb1, 0xa8])),
        Some(read(vec![0xfc, 0xc9], 6))
    );
    assert_eq!(
        si7021.advance(Event::Read(vec![0x15, 0xff, 0xb5, 0xff, 0xff, 0xcb])),
        Some(Step::Done(Ok(Reading::SerialNumber(0x842cf9b115ffffff))))
    );
}

#[test]
fn set_measurement_resolution_writes_back_what_it_read() {
    let cases = [
        (0x00, MeasurementResolution::Rh11Temp11, 0x81),
        (0x7e, MeasurementResolution::Rh8Temp12, 0x7f),
        (0xbb, MeasurementResolution::Rh12Temp14, 0x3a),
        (0x3a, MeasurementResolution::Rh10Temp10, 0xba),
    ];
    for (user, resolution, written) in cases {
        let mut si7021 = Si7021::<MockError>::new();
        assert_eq!(si7021.set_measurement_resolution(resolution), read(vec![0xe7], 1));
        assert_eq!(si7021.advance(Event::Read(vec![user])), Some(write(vec![0xe6, written])));
        assert_eq!(si7021.advance(Event::Written), Some(Step::Done(Ok(Reading::Complete))));
    }
}

#[test]
fn set_heater_level_from_zero_to_fifteen() {
    for level in 0..=0x0fu8 {
        let mut si7021 = Si7021::<MockError>::new();
        assert_eq!(si7021.set_heater(Some(level)), read(vec![0xe7], 1));
        assert_eq!(si7021.advance(Event::Read(vec![0x3a])), Some(read(vec![0x11], 1)));
        assert_eq!(si7021.advance(Event::Read(vec![0xc5])), Some(write(vec![0xe6, 0x3e])));
        assert_eq!(si7021.advance(Event::Written), Some(write(vec![0x51, 0xc0 | level])));
        assert_eq!(si7021.advance(Event::Written), Some(Step::Done(Ok(Reading::Complete))));
    }
}

#[test]
fn set_heater_level_above_fifteen_puts_nothing_on_the_bus() {
    for level in 0x10..=0xffu8 {
        let mut bus = Mock::new(vec![]);
        let mut si7021 = Si7021::new();
        let first = si7021.set_heater(Some(level));
        assert_eq!(bus.run(&mut si7021, first), Err(Error::InvalidHeaterLevel));
        assert_eq!(bus.done, 0);
    }
}

#[test]
fn transport_failure_ends_the_accessor_where_it_stands() {
    // The user register has been written when the write of the heater
    // register fails: nothing is taken back and nothing is tried again.
    let mut bus = Mock::new(vec![
        Transaction::write_read(0x40, vec![0xe7], vec![0xfb]),
        Transaction::write_read(0x40, vec![0x11], vec![0xf0]),
        Transaction::write(0x40, vec![0xe6, 0xff]),
        Transaction::write(0x40, vec![0x51, 0xfa]).with_error(MockError::Io(ErrorKind::TimedOut)),
    ]);
    let mut si7021 = Si7021::new();
    let first = si7021.set_heater(Some(0x0a));
    assert_eq!(
        bus.run(&mut si7021, first),
        Err(Error::I2c(MockError::Io(ErrorKind::TimedOut)))
    );
    assert_eq!(bus.done, 4);
    assert_eq!(si7021.advance(Event::Written), None);

    let mut bus = Mock::new(vec![
        Transaction::write_read(0x40, vec![0xfa, 0x0f], vec![0; 8])
            .with_error(MockError::Io(ErrorKind::Other)),
        Transaction::write_read(0x40, vec![0xfc, 0xc9], vec![0; 6]),
    ]);
    let first = si7021.serial_number();
    assert_eq!(bus.run(&mut si7021, first), Err(Error::I2c(MockError::Io(ErrorKind::Other))));
    assert_eq!(bus.done, 1);
}

#[test]
fn events_that_answer_nothing_are_refused() {
    let mut si7021 = Si7021::<MockError>::new();
    // No accessor is under way.
    assert_eq!(si7021.advance(Event::Written), None);
    assert_eq!(si7021.advance(Event::Read(vec![0x00])), None);
    assert_eq!(si7021.advance(Event::Failed(MockError::Io(ErrorKind::Other))), None);

    // A read is under way: too few bytes, too many, or none at all.
    assert_eq!(si7021.humidity(), read(vec![0xe5], 3));
    assert_eq!(si7021.advance(Event::Read(vec![0xa1, 0xa6])), None);
    assert_eq!(si7021.advance(Event::Read(vec![0xa1, 0xa6, 0x51, 0x00])), None);
    assert_eq!(si7021.advance(Event::Written), None);
    // The accessor is still where it was.
    assert_eq!(
        si7021.advance(Event::Read(vec![0xa1, 0xa6, 0x51])),
        Some(Step::Done(Ok(Reading::Humidity(7292))))
    );
    // And over once it is done.
    assert_eq!(si7021.advance(Event::Read(vec![0xa1, 0xa6, 0x51])), None);

    // A write is under way.
    assert_eq!(si7021.reset(), write(vec![0xfe]));
    assert_eq!(si7021.advance(Event::Read(vec![])), None);
    assert_eq!(si7021.advance(Event::Written), Some(Step::Done(Ok(Reading::Complete))));
}

#[test]
fn starting_an_accessor_drops_the_one_under_way() {
    let mut si7021 = Si7021::<MockError>::new();
    assert_eq!(si7021.serial_number(), read(vec![0xfa, 0x0f], 8));
    assert_eq!(si7021.advance(Event::Read(vec![0; 8])), Some(read(vec![0xfc, 0xc9], 6)));
    assert_eq!(si7021.firmware_revision(), read(vec![0x84, 0xb8], 1));
    assert_eq!(si7021.advance(Event::Read(vec![0; 6])), None);
    assert_eq!(
        si7021.advance(Event::Read(vec![0xff])),
        Some(Step::Done(Ok(Reading::FirmwareRevision(0xff))))
    );
}

#[test]
fn heater_level_is_read_only_with_the_heater_on() {
    for user in 0..=0xffu8 {
        let mut si7021 = Si7021::<MockError>::new();
        assert_eq!(si7021.heater(), read(vec![0xe7], 1));
        let next = si7021.advance(Event::Read(vec![user]));
        if user & 0x04 == 0 {
            assert_eq!(next, Some(Step::Done(Ok(Reading::Heater(None)))));
        } else {
            assert_eq!(next, Some(read(vec![0x11], 1)));
            assert_eq!(
                si7021.advance(Event::Read(vec![0xa7])),
                Some(Step::Done(Ok(Reading::Heater(Some(0x07)))))
            );
        }
    }
}

#[test]
fn set_heater_off_leaves_the_heater_register_alone() {
    for user in 0..=0xffu8 {
        let mut si7021 = Si7021::<MockError>::new();
        assert_eq!(si7021.set_heater(None), read(vec![0xe7], 1));
        assert_eq!(
            si7021.advance(Event::Read(vec![user])),
            Some(write(vec![0xe6, user & 0xfb]))
        );
        assert_eq!(si7021.advance(Event::Written), Some(Step::Done(Ok(Reading::Complete))));
        assert_eq!(si7021.advance(Event::Written), None);
    }
}

#[test]
fn set_heater_off_ends_with_a_failed_write() {
    let mut bus = Mock::new(vec![
        Transaction::write_read(0x40, vec![0xe7], vec![0x04]),
        Transaction::write(0x40, vec![0xe6, 0x00]).with_error(MockError::Io(ErrorKind::Other)),
    ]);
    let mut si7021 = Si7021::new();
    let first = si7021.set_heater(None);
    assert_eq!(bus.run(&mut si7021, first), Err(Error::I2c(MockError::Io(ErrorKind::Other))));
    assert_eq!(bus.done, 2);
}
