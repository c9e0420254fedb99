//! A model of the memory array behind the bus, and what the driver's
//! transactions mean for it.
//!
//! The driver never sees the array: it only frames transactions. The model
//! says how a chip that keeps its array faithfully answers them, so that the
//! frames of the write and read operations can be held against each other.

use crate::bus::{Exchange, Request};
use crate::framing::{
    fits_array, fits_page, frame, lock_frame, offset_prefix, page_offset, without_lock_bit,
};
use vstd::prelude::*;

verus! {

/// The offset that a two-byte prefix stands for, high byte first.
pub open spec fn decode_offset(prefix: Seq<u8>) -> int {
    prefix[0] * 256 + prefix[1]
}

/// `array` with `data` stored from `offset` on.
pub open spec fn store(array: Seq<u8>, offset: int, data: Seq<u8>) -> Seq<u8> {
    Seq::new(
        array.len(),
        |i: int|
            if offset <= i < offset + data.len() {
                data[i - offset]
            } else {
                array[i]
            },
    )
}

/// The array after the chip has taken `request`: a write stores its payload
/// at the offset its first two bytes give, a read leaves the array alone.
pub open spec fn after(array: Seq<u8>, request: Request) -> Seq<u8> {
    match request {
        Request::Write { bytes, .. } => store(
            array,
            decode_offset(bytes.subrange(0, 2)),
            bytes.subrange(2, bytes.len() as int),
        ),
        Request::WriteRead { .. } => array,
    }
}

/// What the chip puts into the read buffer for `request`: the bytes of the
/// array from the offset on, as many as the buffer holds.
pub open spec fn answer(array: Seq<u8>, request: Request) -> Seq<u8> {
    match request {
        Request::Write { .. } => Seq::empty(),
        Request::WriteRead { bytes, len, .. } => array.subrange(
            decode_offset(bytes),
            decode_offset(bytes) + len,
        ),
    }
}

/// The bus carried `exchange` to a chip holding `array` without fault: it
/// reported success, and the read buffer holds the chip's answer.
pub open spec fn faithful<E>(array: Seq<u8>, exchange: Exchange<E>) -> bool {
    &&& exchange.outcome is Ok
    &&& exchange.received == answer(array, exchange.request)
}

/// An offset below 2^16 is recovered from its prefix.
pub proof fn lemma_prefix_decodes(offset: int)
    requires
        0 <= offset < 0x1_0000,
    ensures
        offset_prefix(offset).len() == 2,
        decode_offset(offset_prefix(offset)) == offset,
{
}

/// A whole page never fails a bounds rule: from its first byte, 32 bytes stay
/// inside the page and inside the array.
pub proof fn lemma_page_fits(page: u8)
    ensures
        fits_page(page_offset(page), 32),
        fits_array(page_offset(page), 32),
{
}

/// A write that is accepted touches one page only: its first and its last
/// byte lie in the same page.
pub proof fn lemma_accepted_write_stays_in_page(offset: int, len: int)
    requires
        0 <= offset,
        0 < len,
        fits_page(offset, len),
    ensures
        (offset + len - 1) / 32 == offset / 32,
{
}

/// Bytes written inside the array are read back from the same offset, and
/// the bytes around them stay as they were.
pub proof fn lemma_read_back(array: Seq<u8>, device: u8, offset: int, data: Seq<u8>)
    requires
        array.len() == 8192,
        0 <= offset,
        fits_array(offset, data.len() as int),
    ensures
        ({
            let write = Request::Write { device, bytes: frame(offset, data) };
            let read = Request::WriteRead {
                device,
                bytes: offset_prefix(offset),
                len: data.len(),
            };
            &&& after(array, write).len() == array.len()
            &&& answer(after(array, write), read) == data
            &&& forall|i: int|
                0 <= i < 8192 && !(offset <= i < offset + data.len()) ==> after(array, write)[i]
                    == array[i]
        }),
{
    let bytes = frame(offset, data);
    lemma_prefix_decodes(offset);
    assert(bytes.subrange(0, 2) =~= offset_prefix(offset));
    assert(bytes.subrange(2, bytes.len() as int) =~= data);
    let stored = store(array, offset, data);
    assert(stored.subrange(offset, offset + data.len()) =~= data);
}

/// Writing a page and reading it back yields the bytes written, on a bus
/// that carries both transactions to the chip without fault.
///
/// `first` is the exchange of `write_page(page, data)` and `second` that of
/// the `read_page(page, ..)` behind it; what the read leaves in its buffer is
/// `second.received`.
pub proof fn lemma_page_round_trip<E>(
    array: Seq<u8>,
    device: u8,
    page: u8,
    data: Seq<u8>,
    first: Exchange<E>,
    second: Exchange<E>,
)
    requires
        array.len() == 8192,
        data.len() == 32,
        first.request == (Request::Write { device, bytes: frame(page_offset(page), data) }),
        second.request == (Request::WriteRead {
            device,
            bytes: offset_prefix(page_offset(page)),
            len: 32,
        }),
        faithful(array, first),
        faithful(after(array, first.request), second),
    ensures
        second.received == data,
{
    lemma_read_back(array, device, page_offset(page), data);
}

/// No offset with bit 10 cleared frames like the lock command: a write to
/// the identification page never has the prefix of the lock address,
/// whatever offset it was given.
pub proof fn lemma_cleared_offset_never_locks(offset: usize, payload: Seq<u8>)
    ensures
        offset_prefix(without_lock_bit(offset) as int) != lock_frame().subrange(0, 2),
        frame(without_lock_bit(offset) as int, payload) != lock_frame(),
{
    let cleared = without_lock_bit(offset);
    assert(((offset & !0x400usize) / 256) % 256 != 4) by (bit_vector);
    assert(offset_prefix(cleared as int)[0] != 4u8);
    assert(lock_frame().subrange(0, 2)[0] == 4u8);
    assert(frame(cleared as int, payload)[0] == offset_prefix(cleared as int)[0]);
    assert(lock_frame()[0] == 4u8);
}

} // verus!
