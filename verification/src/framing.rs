//! Address translation and command framing.
//!
//! Every bus transaction of the driver starts with a two-byte, big-endian
//! offset and is directed at a device address that combines the chip-enable
//! bits with a selector for the destination region. This module holds that
//! logic as pure functions, together with the bounds rules of each region.

use vstd::prelude::*;

verus! {

/// Bytes in one page of the memory array, and in the identification page.
pub const PAGE_SIZE: usize = 32;

/// 256 pages containing 32 bytes
pub const ADDRESS_LAST: usize = 256 * 32;

/// Bytes the command buffer holds: a two-byte offset and one page.
pub const FRAME_CAPACITY: usize = 34;

/// Device-select bits of the memory array.
pub const MEMORY_SELECT: u8 = 0x0a;

/// Device-select bits of the identification page.
pub const IDENTIFICATION_SELECT: u8 = 0x0b;

/// Offset whose bit 10 is set: a write there locks the identification page.
pub const LOCK_ADDRESS: usize = 0x400;

/// Data byte of the lock command (data bit 1 set).
pub const LOCK_COMMAND: u8 = 0x02;

/// Destination region of a transaction.
#[derive(Clone, Copy, Debug, PartialEq, Eq, Structural)]
pub enum Dest {
    /// The memory array: 256 pages of 32 bytes.
    Memory,
    /// The identification page: 32 bytes.
    Identification,
}

/// Device-select bits of a region.
pub open spec fn select_bits(dest: Dest) -> u8 {
    match dest {
        Dest::Memory => MEMORY_SELECT,
        Dest::Identification => IDENTIFICATION_SELECT,
    }
}

/// Bus address of a region on the chip strapped to `chip_select`.
pub open spec fn device_address(chip_select: u8, dest: Dest) -> u8 {
    chip_select | select_bits(dest)
}

/// The two bytes that open every transaction: the low sixteen bits of
/// `offset`, high byte first.
pub open spec fn offset_prefix(offset: int) -> Seq<u8> {
    seq![((offset / 256) % 256) as u8, (offset % 256) as u8]
}

/// The bytes of a write transaction: the offset, then the payload.
pub open spec fn frame(offset: int, payload: Seq<u8>) -> Seq<u8> {
    offset_prefix(offset) + payload
}

/// The bytes of the lock command: the offset with bit 10 set, then the data
/// byte with bit 1 set.
pub open spec fn lock_frame() -> Seq<u8> {
    seq![0x04u8, 0x00u8, 0x02u8]
}

/// Offset of the first byte of a page of the memory array.
pub open spec fn page_offset(page: u8) -> int {
    page * 32
}

/// A write of `len` bytes at `offset` stays inside the page that holds `offset`.
pub open spec fn fits_page(offset: int, len: int) -> bool {
    offset % 32 + len <= 32
}

/// A read of `len` bytes at `offset` stays inside the memory array.
pub open spec fn fits_array(offset: int, len: int) -> bool {
    offset + len <= 8192
}

/// An access of `len` bytes at `offset` stays inside the identification page.
pub open spec fn fits_id_page(offset: int, len: int) -> bool {
    offset + len <= 32
}

/// `offset` with bit 10, the bit that addresses the lock command, cleared.
pub open spec fn without_lock_bit(offset: usize) -> usize {
    offset & !0x400usize
}

/// Computes the bus address of `dest` on the chip strapped to `chip_select`.
pub fn select_device(chip_select: u8, dest: Dest) -> (device: u8)
    ensures
        device == device_address(chip_select, dest),
{
    match dest {
        Dest::Memory => chip_select | MEMORY_SELECT,
        Dest::Identification => chip_select | IDENTIFICATION_SELECT,
    }
}

/// Decides whether a write of `len` bytes at `offset` stays inside one page.
pub fn page_write_fits(offset: usize, len: usize) -> (fits: bool)
    ensures
        fits == fits_page(offset as int, len as int),
{
    let start: usize = offset % PAGE_SIZE;
    len <= PAGE_SIZE - start
}

/// Decides whether a read of `len` bytes at `offset` stays inside the memory
/// array.
pub fn array_read_fits(offset: usize, len: usize) -> (fits: bool)
    ensures
        fits == fits_array(offset as int, len as int),
{
    offset <= ADDRESS_LAST && len <= ADDRESS_LAST - offset
}

/// Decides whether an access of `len` bytes at `offset` stays inside the
/// identification page.
pub fn id_access_fits(offset: usize, len: usize) -> (fits: bool)
    ensures
        fits == fits_id_page(offset as int, len as int),
{
    offset <= PAGE_SIZE && len <= PAGE_SIZE - offset
}

/// Clears bit 10 of `offset`, so that the result never addresses the lock
/// command.
pub fn clear_lock_bit(offset: usize) -> (cleared: usize)
    ensures
        cleared == without_lock_bit(offset),
        cleared <= offset,
        offset < LOCK_ADDRESS ==> cleared == offset,
{
    assert((offset & !0x400usize) <= offset) by (bit_vector);
    assert(offset < 0x400usize ==> (offset & !0x400usize) == offset) by (bit_vector);
    offset & !0x400
}

/// Writes the offset prefix into the first two bytes of `buf`.
pub fn put_offset(buf: &mut [u8; 34], offset: usize)
    ensures
        final(buf)@.subrange(0, 2) == offset_prefix(offset as int),
        forall|i: int| 2 <= i < 34 ==> final(buf)@[i] == old(buf)@[i],
{
    let high: usize = (offset >> 8) & 0xff;
    let low: usize = offset & 0xff;
    assert(((offset >> 8) & 0xff) == (offset / 256) % 256) by (bit_vector);
    assert((offset & 0xff) == offset % 256) by (bit_vector);
    buf[0] = high as u8;
    buf[1] = low as u8;
    assert(buf@.subrange(0, 2) =~= offset_prefix(offset as int));
}

/// Lays out a write transaction in `buf`: the offset prefix, then `payload`.
/// Returns the length of the frame; the bytes behind it stay as they were.
pub fn fill_frame(buf: &mut [u8; 34], offset: usize, payload: &[u8]) -> (len: usize)
    requires
        payload@.len() <= 32,
    ensures
        len == payload@.len() + 2,
        final(buf)@.subrange(0, len as int) == frame(offset as int, payload@),
        forall|i: int| len <= i < 34 ==> final(buf)@[i] == old(buf)@[i],
{
    put_offset(buf, offset);
    let n: usize = payload.len();
    let mut i: usize = 0;
    while i < n
        invariant
            n == payload@.len(),
            n <= 32,
            i <= n,
            buf@.subrange(0, 2) == offset_prefix(offset as int),
            forall|k: int| 0 <= k < i ==> buf@[k + 2] == payload@[k],
            forall|k: int| i + 2 <= k < 34 ==> buf@[k] == old(buf)@[k],
        decreases n - i,
    {
        buf[i + 2] = payload[i];
        assert(buf@.subrange(0, 2) =~= offset_prefix(offset as int));
        i += 1;
    }
    assert(buf@.subrange(0, n + 2) =~= frame(offset as int, payload@)) by {
        assert forall|k: int| 0 <= k < n + 2 implies buf@.subrange(0, n + 2)[k] == frame(
            offset as int,
            payload@,
        )[k] by {
            if k < 2 {
                assert(buf@.subrange(0, 2)[k] == offset_prefix(offset as int)[k]);
            } else {
                assert(buf@[(k - 2) + 2] == payload@[k - 2]);
            }
        }
    }
    n + 2
}

} // verus!
