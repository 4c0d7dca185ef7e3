//! Verified core of a driver for the Sensirion SLF3S liquid flow sensors.
//!
//! The sensor speaks I2C: every command is a 16-bit code sent big endian,
//! optionally followed by a two-byte argument protected by a CRC-8
//! (Sensirion's CRC-8/NRSC-5 variant).

pub mod bus;
pub mod command;
pub mod crc8;
pub mod driver;
pub mod sensor;
pub mod identifier;
