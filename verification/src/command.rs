//! Commands of the SLF3S sensors and their encoding on the wire.

use vstd::prelude::*;

verus! {

/// According to https://sensirion.com/media/documents/C4F8D965/66F56F53/LQ_DS_SLF3S-0600F_Datasheet.pdf
#[derive(Clone, Copy, Debug, PartialEq, Eq, Structural)]
pub enum Command {
    /// This command starts the continuous measurement
    /// mode for H2O. Outputs are the liquid flow rate, the
    /// sensor’s temperature and the signaling flags.
    ContinuousMeasurementWater,
    /// This command starts the continuous measurement
    /// mode for IPA. Outputs are the liquid flow rate, the
    /// sensor’s temperature and the signaling flags.
    ContinuousMeasurementIsopropylAlcohol,
    /// This command stops the continuous measurement and
    /// puts the sensor in idle mode. After it receives the stop
    /// command, the sensor needs up to 0.5 ms to power
    /// down the heater, enter idle mode and be receptive for a
    /// new command.
    StopContinuousMeasurment,
    /// This sequence resets the sensor with a separate reset
    /// block, which is as much as possible detached from the
    /// rest of the system on chip.
    /// **Note that the I2C address is 0x00, which is the general call
    /// address, and that the command is 8-bit**, i.e., the soft reset
    /// command must not be preceded by an I2C write header.
    /// The reset is implemented according to the I2C
    /// specification
    GeneralCallReset,
    ReadProductIdentifier32,
    ReadProductIdentifier64,
}

/// The 16-bit code of each command, as given in the datasheet.
pub open spec fn command_code(command: Command) -> u16 {
    match command {
        Command::ContinuousMeasurementWater => 0x3608,
        Command::ContinuousMeasurementIsopropylAlcohol => 0x3615,
        Command::StopContinuousMeasurment => 0x3FF9,
        Command::GeneralCallReset => 0x0006,
        Command::ReadProductIdentifier32 => 0x367C,
        Command::ReadProductIdentifier64 => 0xE102,
    }
}

/// Big-endian representation of a 16-bit value: high byte first.
pub open spec fn be_bytes(value: u16) -> Seq<u8> {
    seq![(value / 256) as u8, (value % 256) as u8]
}

impl Command {
    /// The 16-bit code of the command.
    pub fn code(&self) -> (code: u16)
        ensures
            code == command_code(*self),
    {
        match self {
            Command::ContinuousMeasurementWater => 0x3608,
            Command::ContinuousMeasurementIsopropylAlcohol => 0x3615,
            Command::StopContinuousMeasurment => 0x3FF9,
            Command::GeneralCallReset => 0x0006,
            Command::ReadProductIdentifier32 => 0x367C,
            Command::ReadProductIdentifier64 => 0xE102,
        }
    }

    /// Returns a big endian byte representation of the command.
    pub fn to_be_bytes(&self) -> (bytes: [u8; 2])
        ensures
            bytes@ == be_bytes(command_code(*self)),
            bytes[0] as int * 256 + bytes[1] as int == command_code(*self) as int,
    {
        let code: u16 = self.code();
        let high: u8 = (code >> 8u16) as u8;
        let low: u8 = (code & 0xFFu16) as u8;
        assert(high == code / 256 && low == code % 256) by (bit_vector)
            requires
                high == (code >> 8u16) as u8,
                low == (code & 0xFFu16) as u8,
        ;
        let bytes: [u8; 2] = [high, low];
        assert(bytes@ =~= be_bytes(code));
        bytes
    }
}

/// Each command has its own encoding on the wire: two different commands
/// never produce the same pair of bytes.
pub proof fn command_encoding_is_injective(a: Command, b: Command)
    requires
        be_bytes(command_code(a)) == be_bytes(command_code(b)),
    ensures
        a == b,
{
    let ba = be_bytes(command_code(a));
    let bb = be_bytes(command_code(b));
    assert(ba[0] == bb[0] && ba[1] == bb[1]);
}

} // verus!
