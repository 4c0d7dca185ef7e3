use embedded_hal::i2c::ErrorKind;
use embedded_hal_mock::eh1::i2c::{Mock as I2cMock, Transaction as I2cTransaction};
use sensirion_slf::command::Command;
use sensirion_slf::driver::{write_frame, SensorError, SLF3S};

#[test]
fn frame_without_argument_is_the_command_code() {
    assert_eq!(write_frame(Command::StopContinuousMeasurment, None), Ok(vec![0x3F, 0xF9]));
}

#[test]
fn frame_with_argument_carries_its_crc() {
    assert_eq!(
        write_frame(Command::ContinuousMeasurementWater, Some(&[0xBE, 0xEF])),
        Ok(vec![0x36, 0x08, 0xBE, 0xEF, 0x92])
    );
}

#[test]
fn frame_with_wrong_argument_length_is_refused() {
    assert_eq!(
        write_frame(Command::ContinuousMeasurementWater, Some(&[0xBE])),
        Err(SensorError::IncorrectDataLength)
    );
    assert_eq!(
        write_frame(Command::ContinuousMeasurementWater, Some(&[])),
        Err(SensorError::IncorrectDataLength)
    );
    assert_eq!(
        write_frame(Command::ContinuousMeasurementWater, Some(&[1, 2, 3])),
        Err(SensorError::IncorrectDataLength)
    );
}

#[test]
fn reset_frame_is_the_single_command_byte() {
    assert_eq!(write_frame(Command::GeneralCallReset, None), Ok(vec![0x06]));
}

#[test]
fn reset_goes_to_the_general_call_address() {
    let expectations = [I2cTransaction::write(0x00, vec![0x06])];
    let mut bus = I2cMock::new(&expectations);
    let mut sensor = SLF3S::new(bus.clone());
    assert_eq!(sensor.write(Command::GeneralCallReset, None), Ok(()));
    bus.done();
}

#[test]
fn error_message() {
    assert_eq!(SensorError::IncorrectDataLength.message(), "Incorrect data len");
}

#[test]
fn write_sends_the_command_to_the_sensor_address() {
    let expectations = [I2cTransaction::write(0x61, vec![0x36, 0x15])];
    let mut bus = I2cMock::new(&expectations);
    let mut sensor = SLF3S::new(bus.clone());
    assert_eq!(sensor.write(Command::ContinuousMeasurementIsopropylAlcohol, None), Ok(()));
    bus.done();
}

#[test]
fn write_sends_the_argument_and_its_crc() {
    let expectations = [I2cTransaction::write(0x61, vec![0x36, 0x08, 0xBE, 0xEF, 0x92])];
    let mut bus = I2cMock::new(&expectations);
    let mut sensor = SLF3S::new(bus.clone());
    assert_eq!(sensor.write(Command::ContinuousMeasurementWater, Some(&[0xBE, 0xEF])), Ok(()));
    bus.done();
}

#[test]
fn write_with_wrong_argument_length_sends_nothing() {
    let expectations: [I2cTransaction; 0] = [];
    let mut bus = I2cMock::new(&expectations);
    let mut sensor = SLF3S::new(bus.clone());
    assert_eq!(
        sensor.write(Command::ContinuousMeasurementWater, Some(&[0xBE, 0xEF, 0x00])),
        Err(SensorError::IncorrectDataLength)
    );
    bus.done();
}

#[test]
fn write_ignores_a_missing_acknowledge() {
    let expectations =
        [I2cTransaction::write(0x61, vec![0x3F, 0xF9]).with_error(ErrorKind::Other)];
    let mut bus = I2cMock::new(&expectations);
    let mut sensor = SLF3S::new(bus.clone());
    assert_eq!(sensor.write(Command::StopContinuousMeasurment, None), Ok(()));
    bus.done();
}

#[test]
fn read_sends_the_command_then_returns_the_device_bytes() {
    let expectations = [
        I2cTransaction::write(0x61, vec![0xE1, 0x02]),
        I2cTransaction::read(0x61, vec![0x07, 0x03, 0x5A]),
    ];
    let mut bus = I2cMock::new(&expectations);
    let mut sensor = SLF3S::new(bus.clone());
    let data: [u8; 3] = sensor.read(Command::ReadProductIdentifier64).unwrap();
    assert_eq!(data, [0x07, 0x03, 0x5A]);
    bus.done();
}

#[test]
fn read_of_nothing_only_sends_the_command() {
    let expectations = [
        I2cTransaction::write(0x61, vec![0x36, 0x7C]),
        I2cTransaction::read(0x61, vec![]),
    ];
    let mut bus = I2cMock::new(&expectations);
    let mut sensor = SLF3S::new(bus.clone());
    let data: [u8; 0] = sensor.read(Command::ReadProductIdentifier32).unwrap();
    assert_eq!(data, []);
    bus.done();
}

#[test]
fn read_of_product_identifier() {
    let expectations = [
        I2cTransaction::write(0x61, vec![0x36, 0x7C]),
        I2cTransaction::read(0x61, vec![0x12, 0x34, 0x56]),
    ];
    let mut bus = I2cMock::new(&expectations);
    let mut sensor = SLF3S::new(bus.clone());
    let data: Result<[u8; 3], SensorError> = sensor.read(Command::ReadProductIdentifier32);
    assert_eq!(data, Ok([0x12, 0x34, 0x56]));
    bus.done();
}

#[test]
fn read_succeeds_when_the_device_does_not_answer() {
    let expectations = [
        I2cTransaction::write(0x61, vec![0x36, 0x7C]),
        I2cTransaction::read(0x61, vec![0x12, 0x34]).with_error(ErrorKind::Other),
    ];
    let mut bus = I2cMock::new(&expectations);
    let mut sensor = SLF3S::new(bus.clone());
    let data: Result<[u8; 2], SensorError> = sensor.read(Command::ReadProductIdentifier32);
    assert!(data.is_ok());
    bus.done();
}
