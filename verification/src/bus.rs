//! An embedded-hal I2C bus together with the record of every transfer made
//! on it. Only the two transfer methods below, which make the calls, add to
//! the record.

use vstd::prelude::*;
use embedded_hal::i2c::I2c;

verus! {

/// One transfer made on the bus.
pub enum BusTransfer {
    /// `bytes` handed to `I2c::write` for the device at `address`.
    Write { address: u8, bytes: Seq<u8> },
    /// `I2c::read` from the device at `address`; `handed` is what the buffer
    /// held when it was handed to the call, `bytes` what it held after.
    Read { address: u8, handed: Seq<u8>, bytes: Seq<u8> },
}

/// An I2C bus and the transfers made on it so far, oldest first.
pub struct I2cBus<I2C> {
    i2c: I2C,
    transfers: Ghost<Seq<BusTransfer>>,
}

impl<I2C> I2cBus<I2C> {
    /// The transfers made on the bus so far, oldest first.
    pub closed spec fn transfers(&self) -> Seq<BusTransfer> {
        self.transfers@
    }

    /// The bus the transfers are made on.
    pub closed spec fn device(&self) -> I2C {
        self.i2c
    }
}

impl<I2C: I2c> I2cBus<I2C> {
    /// `i2c`, with no transfer made on it yet.
    pub(crate) fn new(i2c: I2C) -> (bus: Self)
        ensures
            bus.device() == i2c,
            bus.transfers() == Seq::<BusTransfer>::empty(),
    {
        Self { i2c: i2c, transfers: Ghost(Seq::empty()) }
    }

    /// Calls `I2c::write` of embedded-hal on the bus with `address` and
    /// `bytes`, and returns whether it succeeded (the device acknowledged).
    /// The contract claims only that this one write, with these arguments,
    /// was made; whether the device acknowledged and what it does with the
    /// bytes is not stated.
    #[verifier::external_body]
    pub(crate) fn write(&mut self, address: u8, bytes: &[u8]) -> (acknowledged: bool)
        ensures
            final(self).transfers() == old(self).transfers().push(
                BusTransfer::Write { address: address, bytes: bytes@ },
            ),
    {
        self.i2c.write(address, bytes).is_ok()
    }

    /// Calls `I2c::read` of embedded-hal on the bus with `address` and
    /// `buffer`, and returns whether it succeeded. The contract claims that
    /// this one read was made, with the buffer as it was handed over, and
    /// that the buffer keeps its length; which bytes the device sent (and,
    /// when the read fails, how many of them were stored) is not stated: the
    /// record holds whatever the buffer holds afterwards.
    #[verifier::external_body]
    pub(crate) fn read(&mut self, address: u8, buffer: &mut [u8]) -> (acknowledged: bool)
        ensures
            final(buffer)@.len() == old(buffer)@.len(),
            final(self).transfers() == old(self).transfers().push(
                BusTransfer::Read {
                    address: address,
                    handed: old(buffer)@,
                    bytes: final(buffer)@,
                },
            ),
    {
        self.i2c.read(address, buffer).is_ok()
    }
}

} // verus!
