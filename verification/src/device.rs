//! The device handle: the operations of the driver on a bus.

use crate::bus::{bus_result, Bus, Error, Exchange, Request};
use crate::framing::{
    array_read_fits, clear_lock_bit, device_address, fill_frame, fits_array, fits_id_page,
    fits_page, frame, id_access_fits, lock_frame, offset_prefix, page_offset, page_write_fits,
    put_offset, select_device, without_lock_bit, Dest, LOCK_ADDRESS, LOCK_COMMAND, PAGE_SIZE,
};
use vstd::prelude::*;

verus! {

/// Typestate struct for M24C64-D
pub struct IdentificationPage;

/// Typestate struct for M24C64
pub struct NoIdentificationPage;

/// M24C64 configuration
///
/// Only configures the I2C address of the device
pub struct Config {
    /// Chip enable address
    ///
    /// # Note
    ///
    /// This is only for the last three bits of the address, meaning E2, E1, E0 in the datasheet.
    /// E.g. if E2 = 1, E1 = 1, E0 = 0, use `0b110`. The rest of the address will be filled
    /// automatically, based on context
    pub address: u8,
}

impl Default for Config {
    fn default() -> (config: Self)
        ensures
            config.address == 0,
    {
        Config { address: 0 }
    }
}

/// M24C64 driver
pub struct M24C64<I2C: Bus, F> {
    // Device family. M24C64 (no Identification page) or M24C64D (with Identification page)
    _device_family: F,
    /// Device configuration
    config: Config,
    /// The bus the device sits on
    i2c: I2C,
    /// Command buffer
    cmd_buf: [u8; 34],
    /// Every transaction made on the bus so far, oldest first
    exchanges: Ghost<Seq<Exchange<I2C::Error>>>,
}

impl<I2C: Bus> M24C64<I2C, NoIdentificationPage> {
    /// Create a new instance of the M24C64 driver
    /// # Arguments
    ///
    /// * `i2c` - the bus
    /// * `config` - The M24C64 `Config` device configuration struct
    ///
    /// Nothing is sent on the bus.
    pub fn new(i2c: I2C, config: Config) -> (device: Self)
        ensures
            device.bus() == i2c,
            device.chip_select() == config.address,
            device.scratch() == Seq::new(34, |i: int| 0u8),
            device.history() == Seq::<Exchange<I2C::Error>>::empty(),
    {
        let device = M24C64 {
            _device_family: NoIdentificationPage,
            config,
            i2c,
            cmd_buf: [0;34],
            exchanges: Ghost(Seq::empty()),
        };
        assert(device.cmd_buf@ =~= Seq::new(34, |i: int| 0u8));
        device
    }
}

impl<I2C: Bus, F> M24C64<I2C, F> {
    /// The chip-enable bits the handle was configured with.
    pub closed spec fn chip_select(&self) -> u8 {
        self.config.address
    }

    /// The bus as the handle holds it.
    pub closed spec fn bus(&self) -> I2C {
        self.i2c
    }

    /// Contents of the command buffer.
    pub closed spec fn scratch(&self) -> Seq<u8> {
        self.cmd_buf@
    }

    /// Every transaction the handle has made on its bus, oldest first.
    pub closed spec fn history(&self) -> Seq<Exchange<I2C::Error>> {
        self.exchanges@
    }

    /// Since `before`, the handle has made exactly one transaction, which
    /// carried `request`, and its configuration is as it was.
    pub open spec fn performed(&self, before: Self, request: Request) -> bool {
        &&& self.chip_select() == before.chip_select()
        &&& self.history().len() == before.history().len() + 1
        &&& self.history().drop_last() == before.history()
        &&& self.history().last().request == request
    }

    /// Create an instance of the M24C64-D device family type
    ///
    /// The M24C64-D offers an additional page, named the Identification Page (32 byte).
    /// The Identification Page can be used to store sensitive application parameters which can be
    /// (later) permanently locked in Read-only mode
    ///
    /// The new handle holds the same bus and configuration; nothing is sent.
    pub fn with_id_page(self) -> (device: M24C64<I2C, IdentificationPage>)
        ensures
            device.bus() == self.bus(),
            device.chip_select() == self.chip_select(),
            device.scratch() == self.scratch(),
            device.history() == self.history(),
    {
        M24C64 {
            _device_family: IdentificationPage,
            config: self.config,
            i2c: self.i2c,
            cmd_buf: self.cmd_buf,
            exchanges: self.exchanges,
        }
    }

    // Warning! Does not check for page wraps
    fn write_raw(&mut self, dest: Dest, address: usize, bytes: &[u8]) -> (result: Result<
        (),
        Error<I2C::Error>,
    >)
        requires
            bytes@.len() <= 32,
        ensures
            final(self).performed(
                *old(self),
                Request::Write {
                    device: device_address(old(self).chip_select(), dest),
                    bytes: frame(address as int, bytes@),
                },
            ),
            final(self).history().last().received == Seq::<u8>::empty(),
            result == bus_result(final(self).history().last().outcome),
    {
        let len = fill_frame(&mut self.cmd_buf, address, bytes);
        let device = select_device(self.config.address, dest);
        let ghost sent = self.cmd_buf@.subrange(0, len as int);
        let outcome = self.i2c.write(device, &self.cmd_buf[0..len]);
        proof {
            let exchange = Exchange {
                request: Request::Write { device, bytes: sent },
                outcome,
                received: Seq::<u8>::empty(),
            };
            assert(self.exchanges@.push(exchange).drop_last() =~= self.exchanges@);
            self.exchanges@ = self.exchanges@.push(exchange);
        }
        Error::from_bus(outcome)
    }

    fn read_raw(&mut self, dest: Dest, address: usize, bytes: &mut [u8]) -> (result: Result<
        (),
        Error<I2C::Error>,
    >)
        ensures
            final(self).performed(
                *old(self),
                Request::WriteRead {
                    device: device_address(old(self).chip_select(), dest),
                    bytes: offset_prefix(address as int),
                    len: old(bytes)@.len(),
                },
            ),
            final(self).history().last().received == final(bytes)@,
            result == bus_result(final(self).history().last().outcome),
    {
        put_offset(&mut self.cmd_buf, address);
        let device = select_device(self.config.address, dest);
        let ghost sent = self.cmd_buf@.subrange(0, 2);
        let ghost len = bytes@.len();
        let outcome = self.i2c.write_read(device, &self.cmd_buf[0..2], bytes);
        proof {
            let exchange = Exchange {
                request: Request::WriteRead { device, bytes: sent, len },
                outcome,
                received: bytes@,
            };
            assert(self.exchanges@.push(exchange).drop_last() =~= self.exchanges@);
            self.exchanges@ = self.exchanges@.push(exchange);
        }
        Error::from_bus(outcome)
    }

    /// Write exactly 32 bytes to a page
    ///
    /// One write transaction to the memory array, at the first byte of
    /// `page`; the result is the answer of the bus.
    pub fn write_page(&mut self, page: u8, bytes: &[u8; 32]) -> (result: Result<
        (),
        Error<I2C::Error>,
    >)
        ensures
            final(self).performed(
                *old(self),
                Request::Write {
                    device: device_address(old(self).chip_select(), Dest::Memory),
                    bytes: frame(page_offset(page), bytes@),
                },
            ),
            final(self).history().last().received == Seq::<u8>::empty(),
            result == bus_result(final(self).history().last().outcome),
    {
        let address: usize = page as usize * PAGE_SIZE;
        self.write_raw(Dest::Memory, address, bytes)
    }

    /// Write bytes to an arbitrary location in memory
    ///
    /// Note: Checks whether buffer will fit on page and will **not** wrap
    ///
    /// A write that would leave the page of `address` is refused with
    /// `Error::Address` before anything is sent. Any other write is one
    /// transaction to the memory array, and the result is the answer of the
    /// bus; the end of the array is not checked.
    pub fn write(&mut self, address: usize, bytes: &[u8]) -> (result: Result<
        (),
        Error<I2C::Error>,
    >)
        ensures
            !fits_page(address as int, bytes@.len() as int) ==> {
                &&& result == Err::<(), Error<I2C::Error>>(Error::Address)
                &&& *final(self) == *old(self)
            },
            fits_page(address as int, bytes@.len() as int) ==> {
                &&& final(self).performed(
                    *old(self),
                    Request::Write {
                        device: device_address(old(self).chip_select(), Dest::Memory),
                        bytes: frame(address as int, bytes@),
                    },
                )
                &&& final(self).history().last().received == Seq::<u8>::empty()
                &&& result == bus_result(final(self).history().last().outcome)
            },
    {
        if !page_write_fits(address, bytes.len()) {
            return Err(Error::Address);
        }
        self.write_raw(Dest::Memory, address, bytes)
    }

    /// Read exactly one page into a buffer
    ///
    /// One write-then-read transaction with the memory array, from the first
    /// byte of `page`; the result is the answer of the bus, and `bytes` is
    /// as the bus left it.
    pub fn read_page(&mut self, page: u8, bytes: &mut [u8; 32]) -> (result: Result<
        (),
        Error<I2C::Error>,
    >)
        ensures
            final(self).performed(
                *old(self),
                Request::WriteRead {
                    device: device_address(old(self).chip_select(), Dest::Memory),
                    bytes: offset_prefix(page_offset(page)),
                    len: 32,
                },
            ),
            final(self).history().last().received == final(bytes)@,
            result == bus_result(final(self).history().last().outcome),
    {
        let address: usize = page as usize * PAGE_SIZE;
        self.read_raw(Dest::Memory, address, bytes)
    }

    /// Read a memory location into a buffer until it is full
    ///
    /// Note: Checks whether address is out of bounds and will **not** wrap
    ///
    /// A read that would pass the end of the array is refused with
    /// `Error::Address` before anything is sent, and `bytes` is untouched.
    /// Any other read, across pages or not, is one write-then-read
    /// transaction with the memory array; the result is the answer of the
    /// bus, and `bytes` is as the bus left it.
    pub fn read(&mut self, address: usize, bytes: &mut [u8]) -> (result: Result<
        (),
        Error<I2C::Error>,
    >)
        ensures
            !fits_array(address as int, old(bytes)@.len() as int) ==> {
                &&& result == Err::<(), Error<I2C::Error>>(Error::Address)
                &&& *final(self) == *old(self)
                &&& final(bytes)@ == old(bytes)@
            },
            fits_array(address as int, old(bytes)@.len() as int) ==> {
                &&& final(self).performed(
                    *old(self),
                    Request::WriteRead {
                        device: device_address(old(self).chip_select(), Dest::Memory),
                        bytes: offset_prefix(address as int),
                        len: old(bytes)@.len(),
                    },
                )
                &&& final(self).history().last().received == final(bytes)@
                &&& result == bus_result(final(self).history().last().outcome)
            },
    {
        if !array_read_fits(address, bytes.len()) {
            return Err(Error::Address);
        }
        self.read_raw(Dest::Memory, address, bytes)
    }
}

impl<I2C: Bus> M24C64<I2C, IdentificationPage> {
    /// Write bytes to an arbitrary location on the Identification page
    ///
    /// Note: Checks whether buffer will fit on page and will **not** wrap
    ///
    /// A write that would pass the end of the page is refused with
    /// `Error::Address` before anything is sent. Any other write is one
    /// transaction to the identification page at `address` with bit 10
    /// cleared, so it is never the lock command; the result is the answer of
    /// the bus.
    pub fn write_id(&mut self, address: usize, bytes: &[u8]) -> (result: Result<
        (),
        Error<I2C::Error>,
    >)
        ensures
            !fits_id_page(address as int, bytes@.len() as int) ==> {
                &&& result == Err::<(), Error<I2C::Error>>(Error::Address)
                &&& *final(self) == *old(self)
            },
            fits_id_page(address as int, bytes@.len() as int) ==> {
                &&& final(self).performed(
                    *old(self),
                    Request::Write {
                        device: device_address(old(self).chip_select(), Dest::Identification),
                        bytes: frame(without_lock_bit(address) as int, bytes@),
                    },
                )
                &&& without_lock_bit(address) == address
                &&& final(self).history().last().received == Seq::<u8>::empty()
                &&& result == bus_result(final(self).history().last().outcome)
            },
    {
        if !id_access_fits(address, bytes.len()) {
            return Err(Error::Address);
        }
        // Unset address bit 10
        let address = clear_lock_bit(address);
        self.write_raw(Dest::Identification, address, bytes)
    }

    /// Write exactly 32 bytes to the Identification page
    ///
    /// One write transaction to the identification page, at offset 0; the
    /// result is the answer of the bus.
    pub fn write_id_page(&mut self, bytes: &[u8; 32]) -> (result: Result<
        (),
        Error<I2C::Error>,
    >)
        ensures
            final(self).performed(
                *old(self),
                Request::Write {
                    device: device_address(old(self).chip_select(), Dest::Identification),
                    bytes: frame(0, bytes@),
                },
            ),
            final(self).history().last().received == Seq::<u8>::empty(),
            result == bus_result(final(self).history().last().outcome),
    {
        self.write_raw(Dest::Identification, 0, bytes)
    }

    /// Permanently locks the Identification page (this makes it read-only)
    ///
    /// One write transaction to the identification page: the lock command,
    /// at the offset with bit 10 set. Nothing of the handle's state decides
    /// it; the result is the answer of the bus.
    pub fn lock_id_page(&mut self) -> (result: Result<(), Error<I2C::Error>>)
        ensures
            final(self).performed(
                *old(self),
                Request::Write {
                    device: device_address(old(self).chip_select(), Dest::Identification),
                    bytes: lock_frame(),
                },
            ),
            final(self).history().last().received == Seq::<u8>::empty(),
            result == bus_result(final(self).history().last().outcome),
    {
        // Set data bit 1 to `1` at the offset that has bit 10 set
        let command: [u8; 1] = [LOCK_COMMAND];
        proof {
            assert(frame(LOCK_ADDRESS as int, command@) =~= lock_frame());
        }
        self.write_raw(Dest::Identification, LOCK_ADDRESS, &command)
    }

    /// Read a location on the Identification page into a buffer until it is full
    ///
    /// Note: Checks whether address is out of bounds and will **not** wrap
    ///
    /// A read that would pass the end of the page is refused with
    /// `Error::Address` before anything is sent, and `bytes` is untouched.
    /// Any other read is one write-then-read transaction with the
    /// identification page; the result is the answer of the bus, and `bytes`
    /// is as the bus left it.
    pub fn read_id(&mut self, address: usize, bytes: &mut [u8]) -> (result: Result<
        (),
        Error<I2C::Error>,
    >)
        ensures
            !fits_id_page(address as int, old(bytes)@.len() as int) ==> {
                &&& result == Err::<(), Error<I2C::Error>>(Error::Address)
                &&& *final(self) == *old(self)
                &&& final(bytes)@ == old(bytes)@
            },
            fits_id_page(address as int, old(bytes)@.len() as int) ==> {
                &&& final(self).performed(
                    *old(self),
                    Request::WriteRead {
                        device: device_address(old(self).chip_select(), Dest::Identification),
                        bytes: offset_prefix(address as int),
                        len: old(bytes)@.len(),
                    },
                )
                &&& final(self).history().last().received == final(bytes)@
                &&& result == bus_result(final(self).history().last().outcome)
            },
    {
        if !id_access_fits(address, bytes.len()) {
            return Err(Error::Address);
        }
        self.read_raw(Dest::Identification, address, bytes)
    }

    /// Read the whole Identification page into a buffer
    ///
    /// One write-then-read transaction with the identification page, from
    /// offset 0; the result is the answer of the bus, and `bytes` is as the
    /// bus left it.
    pub fn read_id_page(&mut self, bytes: &mut [u8; 32]) -> (result: Result<
        (),
        Error<I2C::Error>,
    >)
        ensures
            final(self).performed(
                *old(self),
                Request::WriteRead {
                    device: device_address(old(self).chip_select(), Dest::Identification),
                    bytes: offset_prefix(0),
                    len: 32,
                },
            ),
            final(self).history().last().received == final(bytes)@,
            result == bus_result(final(self).history().last().outcome),
    {
        self.read_raw(Dest::Identification, 0, bytes)
    }
}

} // verus!
