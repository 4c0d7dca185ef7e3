//! The SLF3S driver: frames commands and hands them to an I2C bus.

use vstd::prelude::*;
use embedded_hal::i2c::I2c;

use crate::bus::{BusTransfer, I2cBus};
use crate::command::{be_bytes, command_code, Command};
use crate::crc8::{compute_crc8, crc8, crc8_residue_is_zero};

verus! {

/// I2C address of the SLF3S sensors.
pub const ADDRESS: u8 = 0x61;

/// Flag or-ed into the address of a transfer to the sensor.
pub const WRITE_FLAG: u8 = 0x00;

/// Flag or-ed into the address of a transfer from the sensor.
pub const READ_FLAG: u8 = 0x01;

/// The general call address of I2C, on which the sensor listens for a reset.
pub const GENERAL_CALL_ADDRESS: u8 = 0x00;

/// Errors of the driver.
#[derive(Clone, Copy, Debug, PartialEq, Eq, Structural)]
pub enum SensorError {
    /// The argument of a command was not two bytes long.
    IncorrectDataLength,
}

impl SensorError {
    /// Human-readable description of the error.
    pub fn message(&self) -> (text: &'static str)
        ensures
            text@ == "Incorrect data len"@,
    {
        match self {
            SensorError::IncorrectDataLength => "Incorrect data len",
        }
    }
}

/// The address a command is written to: the general call address for the
/// reset, which the sensor takes from any device on the bus, the sensor's own
/// address for every other command.
pub open spec fn command_address(command: Command) -> u8 {
    if command == Command::GeneralCallReset {
        GENERAL_CALL_ADDRESS
    } else {
        ADDRESS
    }
}

/// The bytes that open the frame of `command`: the reset is a single 8-bit
/// command byte (the general call header is the address itself), every
/// other command its 16-bit code, big endian.
pub open spec fn command_bytes(command: Command) -> Seq<u8> {
    if command == Command::GeneralCallReset {
        seq![(command_code(command) % 256) as u8]
    } else {
        be_bytes(command_code(command))
    }
}

/// The bytes sent for `command`: its command bytes followed, when there is
/// an argument, by the two argument bytes and their CRC-8. `None` when the
/// argument is not two bytes long.
pub open spec fn command_frame(command: Command, data: Option<Seq<u8>>) -> Option<Seq<u8>> {
    match data {
        None => Some(command_bytes(command)),
        Some(d) => if d.len() == 2 {
            Some(command_bytes(command) + d + seq![crc8(d)])
        } else {
            None
        },
    }
}

/// How every frame is laid out. A command other than the reset opens with
/// its 16-bit code, high byte first, and goes to the sensor's address 0x61;
/// the reset is the single byte 0x06 on the general call address 0x00. An
/// argument follows the command with its CRC-8. Without an argument the
/// frame is the command alone, which is what `read` sends before reading.
pub proof fn frames_open_with_the_code_big_endian(command: Command, data: Seq<u8>)
    ensures
        command_frame(command, None) == Some(command_bytes(command)),
        command != Command::GeneralCallReset ==> {
            &&& command_bytes(command).len() == 2
            &&& command_bytes(command)[0] as int * 256 + command_bytes(command)[1] as int
                == command_code(command) as int
            &&& command_address(command) == 0x61
        },
        command == Command::GeneralCallReset ==> command_bytes(command) == seq![0x06u8]
            && command_address(command) == 0x00,
        data.len() == 2 ==> command_frame(command, Some(data)) == Some(
            command_bytes(command) + data + seq![crc8(data)],
        ),
{
    if command == Command::GeneralCallReset {
        assert(command_bytes(command) =~= seq![0x06u8]);
    }
}

/// The argument as a sequence of bytes.
pub open spec fn data_view(data: Option<&[u8]>) -> Option<Seq<u8>> {
    match data {
        None => None,
        Some(d) => Some(d@),
    }
}

/// Builds the bytes to write for `command` with its optional argument.
pub fn write_frame(command: Command, data: Option<&[u8]>) -> (frame: Result<Vec<u8>, SensorError>)
    ensures
        match frame {
            Ok(f) => command_frame(command, data_view(data)) == Some(f@),
            Err(e) => command_frame(command, data_view(data)) is None
                && e == SensorError::IncorrectDataLength,
        },
{
    let code: [u8; 2] = command.to_be_bytes();
    let mut sent: Vec<u8> = Vec::new();
    if !matches!(command, Command::GeneralCallReset) {
        sent.push(code[0]);
    }
    sent.push(code[1]);
    assert(sent@ =~= command_bytes(command));
    match data {
        Some(data) => {
            if data.len() != 2 {
                return Err(SensorError::IncorrectDataLength);
            }
            sent.push(data[0]);
            sent.push(data[1]);
            sent.push(compute_crc8(data));
            assert(sent@ =~= command_bytes(command) + data@ + seq![crc8(data@)]);
        },
        None => {},
    }
    Ok(sent)
}

/// A frame that carries an argument protects it: its last three bytes, the
/// argument followed by its checksum, pass the CRC check, and the CRC-8 over
/// those three bytes is zero.
pub proof fn argument_frames_are_self_checking(command: Command, data: Seq<u8>)
    requires
        data.len() == 2,
    ensures
        command_frame(command, Some(data)) matches Some(frame) && {
            let k = command_bytes(command).len() as int;
            &&& frame.len() == k + 3
            &&& frame.subrange(k, k + 2) == data
            &&& crc8(frame.subrange(k, k + 2)) == frame[k + 2]
            &&& crc8(frame.subrange(k, k + 3)) == 0
        },
{
    let frame = command_frame(command, Some(data)).unwrap();
    let k = command_bytes(command).len() as int;
    assert(frame.subrange(k, k + 2) =~= data);
    assert(frame.subrange(k, k + 3) =~= data.push(crc8(data)));
    crc8_residue_is_zero(data);
}

/// Driver of an SLF3S sensor on the I2C bus `I2C`.
pub struct SLF3S<I2C> {
    i2c: I2cBus<I2C>,
}

impl<I2C> SLF3S<I2C> {
    /// The transfers this driver made on its bus, oldest first.
    pub closed spec fn transfers(&self) -> Seq<BusTransfer> {
        self.i2c.transfers()
    }

    /// The bus the driver talks through.
    pub closed spec fn bus(&self) -> I2C {
        self.i2c.device()
    }
}

impl<I2C: I2c> SLF3S<I2C> {
    /// A driver talking through `i2c`; nothing is sent yet.
    pub fn new(i2c: I2C) -> (sensor: Self)
        ensures
            sensor.bus() == i2c,
            sensor.transfers() == Seq::<BusTransfer>::empty(),
    {
        Self { i2c: I2cBus::new(i2c) }
    }

    /// Sends `command`, then reads `DATA_SIZE` bytes from the sensor into a
    /// buffer of zeros and returns the buffer.
    pub fn read<const DATA_SIZE: usize>(&mut self, command: Command) -> (data: Result<
        [u8; DATA_SIZE],
        SensorError,
    >)
        ensures
            data matches Ok(d) && final(self).transfers() == old(self).transfers().push(
                BusTransfer::Write {
                    address: command_address(command),
                    bytes: command_bytes(command),
                },
            ).push(
                BusTransfer::Read {
                    address: ADDRESS,
                    handed: Seq::new(DATA_SIZE as nat, |i: int| 0u8),
                    bytes: d@,
                },
            ),
    {
        self.write(command, None)?;
        let mut data: [u8; DATA_SIZE] = [0; DATA_SIZE];
        assert(data@ =~= Seq::new(DATA_SIZE as nat, |i: int| 0u8));
        let address: u8 = ADDRESS | READ_FLAG;
        assert(address == ADDRESS) by (bit_vector)
            requires
                address == 0x61u8 | 0x01u8,
        ;
        let _acknowledged: bool = self.i2c.read(address, &mut data);
        Ok(data)
    }

    /// Sends `command` with its optional two-byte argument, followed by the
    /// argument's CRC-8. Fails, sending nothing, when the argument is not two
    /// bytes long. The reset goes, as a single byte, to the general call
    /// address; every other command to the sensor's address.
    pub fn write(&mut self, command: Command, data: Option<&[u8]>) -> (result: Result<
        (),
        SensorError,
    >)
        ensures
            result is Err <==> command_frame(command, data_view(data)) is None,
            result matches Err(e) ==> e == SensorError::IncorrectDataLength
                && final(self).transfers() == old(self).transfers(),
            result is Ok ==> final(self).transfers() == old(self).transfers().push(
                BusTransfer::Write {
                    address: command_address(command),
                    bytes: command_frame(command, data_view(data)).unwrap(),
                },
            ),
    {
        let sent: Vec<u8> = match write_frame(command, data) {
            Ok(frame) => frame,
            Err(err) => return Err(err),
        };
        let address: u8 = if matches!(command, Command::GeneralCallReset) {
            GENERAL_CALL_ADDRESS
        } else {
            let address: u8 = ADDRESS | WRITE_FLAG;
            assert(address == ADDRESS) by (bit_vector)
                requires
                    address == 0x61u8 | 0x00u8,
            ;
            address
        };
        let _acknowledged: bool = self.i2c.write(address, sent.as_slice());
        Ok(())
    }
}

} // verus!
