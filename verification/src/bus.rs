//! The bus transport the driver runs on, and the record of what was asked of
//! it.

use vstd::prelude::*;

verus! {

/// A blocking two-wire bus with 7-bit addressing.
///
/// Nothing is assumed of an implementation: what the driver proves holds
/// over every bus, whatever it answers.
pub trait Bus {
    /// Error the bus reports.
    type Error;

    /// Writes `bytes` to the device at `address`.
    fn write(&mut self, address: u8, bytes: &[u8]) -> Result<(), Self::Error>;

    /// Writes `bytes` to the device at `address`, then reads from it until
    /// `buffer` is full, in a single transaction.
    fn write_read(&mut self, address: u8, bytes: &[u8], buffer: &mut [u8]) -> Result<
        (),
        Self::Error,
    >;
}

/// What the driver asks of the bus in one transaction.
pub enum Request {
    /// A write of `bytes` to `device`.
    Write { device: u8, bytes: Seq<u8> },
    /// A write of `bytes` to `device`, followed in the same transaction by a
    /// read that fills a buffer of `len` bytes.
    WriteRead { device: u8, bytes: Seq<u8>, len: nat },
}

/// One transaction as it took place: the request, what the bus answered, and
/// the read buffer as the bus left it (empty for a plain write).
pub struct Exchange<E> {
    pub request: Request,
    pub outcome: Result<(), E>,
    pub received: Seq<u8>,
}

/// Errors of the driver.
#[derive(Debug)]
pub enum Error<I> {
    /// I2C bus error
    I2C(I),
    /// Connection error (device not found)
    Conn,
    /// Address error (invalid or out of bounds)
    Address,
    /// Port error (invalid or out of bounds)
    Port,
}

/// What the driver returns for an answer of the bus: success as it is, a
/// failure as `Error::I2C` around the error of the bus.
pub open spec fn bus_result<I>(outcome: Result<(), I>) -> Result<(), Error<I>> {
    match outcome {
        Ok(_) => Ok(()),
        Err(e) => Err(Error::I2C(e)),
    }
}

impl<I> Error<I> {
    /// Turns the answer of the bus into the result of the driver.
    pub fn from_bus(outcome: Result<(), I>) -> (result: Result<(), Error<I>>)
        ensures
            result == bus_result(outcome),
    {
        match outcome {
            Ok(_) => Ok(()),
            Err(e) => Err(Error::I2C(e)),
        }
    }
}

} // verus!
