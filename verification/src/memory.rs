//! Bounds-checked access to the guest's linear memory.
//!
//! The memory is a byte slice borrowed from the instance for one operation.
//! Every access names its offset and fails with
//! [`MarshalError::OutOfBounds`] where it would leave the slice.

use crate::error::MarshalError;
use byteorder::ByteOrder;
use byteorder::LittleEndian;
use vstd::prelude::*;
use vstd::slice::slice_subrange;
use vstd::slice::slice_to_vec;

verus! {

/// The `len` bytes at offset `at` lie inside `heap`.
pub open spec fn in_bounds(heap: Seq<u8>, at: int, len: int) -> bool {
    0 <= at && 0 <= len && at + len <= heap.len()
}

/// The 16-bit number whose little-endian bytes `b` starts with.
pub open spec fn u16_le(b: Seq<u8>) -> u16
    recommends
        b.len() >= 2,
{
    (b[0] as int + 0x100 * (b[1] as int)) as u16
}

/// The 32-bit number whose little-endian bytes `b` starts with.
pub open spec fn u32_le(b: Seq<u8>) -> u32
    recommends
        b.len() >= 4,
{
    (b[0] as int + 0x100 * (b[1] as int) + 0x1_0000 * (b[2] as int) + 0x100_0000 * (
    b[3] as int)) as u32
}

/// The four little-endian bytes of `n`.
pub open spec fn u32_le_bytes(n: u32) -> Seq<u8> {
    seq![
        (n as int % 0x100) as u8,
        (n as int / 0x100 % 0x100) as u8,
        (n as int / 0x1_0000 % 0x100) as u8,
        (n as int / 0x100_0000) as u8,
    ]
}

/// The 16-bit little-endian number at offset `at` of `heap`.
pub open spec fn u16_at(heap: Seq<u8>, at: int) -> u16
    recommends
        in_bounds(heap, at, 2),
{
    u16_le(heap.subrange(at, at + 2))
}

/// The 32-bit little-endian number at offset `at` of `heap`.
pub open spec fn u32_at(heap: Seq<u8>, at: int) -> u32
    recommends
        in_bounds(heap, at, 4),
{
    u32_le(heap.subrange(at, at + 4))
}

/// `heap` with `data` laid over it from offset `at` on.
pub open spec fn overlay(heap: Seq<u8>, at: int, data: Seq<u8>) -> Seq<u8>
    recommends
        in_bounds(heap, at, data.len() as int),
{
    Seq::new(
        heap.len(),
        |i: int|
            if at <= i < at + data.len() {
                data[i - at]
            } else {
                heap[i]
            },
    )
}

/// `heap` with the little-endian bytes of `n` at offset `at`.
pub open spec fn with_u32(heap: Seq<u8>, at: int, n: u32) -> Seq<u8>
    recommends
        in_bounds(heap, at, 4),
{
    overlay(heap, at, u32_le_bytes(n))
}

/// Reading back the little-endian bytes of a number gives the number.
pub proof fn lemma_u32_le_round_trip(n: u32)
    ensures
        u32_le(u32_le_bytes(n)) == n,
{
}

/// What was laid over a heap is read back from the same place.
pub proof fn lemma_overlay_same(heap: Seq<u8>, at: int, data: Seq<u8>)
    requires
        in_bounds(heap, at, data.len() as int),
    ensures
        overlay(heap, at, data).len() == heap.len(),
        overlay(heap, at, data).subrange(at, at + data.len()) == data,
{
    assert(overlay(heap, at, data).subrange(at, at + data.len()) =~= data);
}

/// Laying data over a heap leaves every range that it does not touch as it
/// was.
pub proof fn lemma_overlay_other(heap: Seq<u8>, at: int, data: Seq<u8>, from: int, len: int)
    requires
        in_bounds(heap, at, data.len() as int),
        in_bounds(heap, from, len),
        from + len <= at || at + data.len() <= from,
    ensures
        overlay(heap, at, data).subrange(from, from + len) == heap.subrange(from, from + len),
{
    assert(overlay(heap, at, data).subrange(from, from + len) =~= heap.subrange(from, from + len));
}

/// Calls `byteorder::LittleEndian::read_u16`, which panics on fewer than two
/// bytes and otherwise returns the number whose low byte is `buf[0]` and
/// whose high byte is `buf[1]`.
#[verifier::external_body]
fn le_read_u16(buf: &[u8]) -> (n: u16)
    requires
        buf@.len() >= 2,
    ensures
        n == u16_le(buf@),
{
    LittleEndian::read_u16(buf)
}

/// Calls `byteorder::LittleEndian::read_u32`, which panics on fewer than
/// four bytes and otherwise returns the number that the first four bytes of
/// `buf` spell, lowest byte first.
#[verifier::external_body]
fn le_read_u32(buf: &[u8]) -> (n: u32)
    requires
        buf@.len() >= 4,
    ensures
        n == u32_le(buf@),
{
    LittleEndian::read_u32(buf)
}

/// Calls `byteorder::LittleEndian::write_u32` on the part of `heap` that
/// starts at `at`. It panics where fewer than four bytes are left there;
/// otherwise it stores the four bytes of `n`, lowest first, and touches
/// nothing else.
#[verifier::external_body]
fn le_write_u32(heap: &mut [u8], at: usize, n: u32)
    requires
        at + 4 <= old(heap)@.len(),
    ensures
        final(heap)@ == with_u32(old(heap)@, at as int, n),
{
    LittleEndian::write_u32(&mut heap[at..], n)
}

/// Whether `len` bytes at offset `at` lie inside `heap`.
pub fn check_bounds(heap: &[u8], at: u64, len: u64) -> (ok: bool)
    ensures
        ok == in_bounds(heap@, at as int, len as int),
        heap@.len() <= usize::MAX,
{
    let size: u64 = heap.len() as u64;
    at <= size && len <= size - at
}

/// Reads the 16-bit little-endian number at offset `at`.
pub fn read_u16(heap: &[u8], at: u64) -> (r: Result<u16, MarshalError>)
    ensures
        in_bounds(heap@, at as int, 2) ==> r == Ok::<u16, MarshalError>(u16_at(heap@, at as int)),
        !in_bounds(heap@, at as int, 2) ==> r == Err::<u16, MarshalError>(
            MarshalError::OutOfBounds,
        ),
{
    if !check_bounds(heap, at, 2) {
        return Err(MarshalError::OutOfBounds);
    }
    let from: usize = at as usize;
    Ok(le_read_u16(slice_subrange(heap, from, from + 2)))
}

/// Reads the 32-bit little-endian number at offset `at`.
pub fn read_u32(heap: &[u8], at: u64) -> (r: Result<u32, MarshalError>)
    ensures
        in_bounds(heap@, at as int, 4) ==> r == Ok::<u32, MarshalError>(u32_at(heap@, at as int)),
        !in_bounds(heap@, at as int, 4) ==> r == Err::<u32, MarshalError>(
            MarshalError::OutOfBounds,
        ),
{
    if !check_bounds(heap, at, 4) {
        return Err(MarshalError::OutOfBounds);
    }
    let from: usize = at as usize;
    Ok(le_read_u32(slice_subrange(heap, from, from + 4)))
}

/// Copies the `len` bytes at offset `at` out of the heap.
pub fn read_bytes(heap: &[u8], at: u64, len: u64) -> (r: Result<Vec<u8>, MarshalError>)
    ensures
        in_bounds(heap@, at as int, len as int) ==> r is Ok && r->Ok_0@ == heap@.subrange(
            at as int,
            at + len,
        ),
        !in_bounds(heap@, at as int, len as int) ==> r == Err::<Vec<u8>, MarshalError>(
            MarshalError::OutOfBounds,
        ),
{
    if !check_bounds(heap, at, len) {
        return Err(MarshalError::OutOfBounds);
    }
    let from: usize = at as usize;
    let to: usize = (at + len) as usize;
    Ok(slice_to_vec(slice_subrange(heap, from, to)))
}

/// Stores `n` as four little-endian bytes at offset `at`. Out of bounds, the
/// heap is left as it was.
pub fn write_u32(heap: &mut [u8], at: u64, n: u32) -> (r: Result<(), MarshalError>)
    ensures
        in_bounds(old(heap)@, at as int, 4) ==> r == Ok::<(), MarshalError>(()) && final(heap)@
            == with_u32(old(heap)@, at as int, n),
        !in_bounds(old(heap)@, at as int, 4) ==> r == Err::<(), MarshalError>(
            MarshalError::OutOfBounds,
        ) && final(heap)@ == old(heap)@,
{
    if !check_bounds(heap, at, 4) {
        return Err(MarshalError::OutOfBounds);
    }
    le_write_u32(heap, at as usize, n);
    Ok(())
}

/// Copies `data` into the heap from offset `at` on. Out of bounds, the heap
/// is left as it was.
pub fn write_bytes(heap: &mut [u8], at: u64, data: &[u8]) -> (r: Result<(), MarshalError>)
    ensures
        in_bounds(old(heap)@, at as int, data@.len() as int) ==> r == Ok::<(), MarshalError>(())
            && final(heap)@ == overlay(old(heap)@, at as int, data@),
        !in_bounds(old(heap)@, at as int, data@.len() as int) ==> r == Err::<(), MarshalError>(
            MarshalError::OutOfBounds,
        ) && final(heap)@ == old(heap)@,
{
    if !check_bounds(heap, at, data.len() as u64) {
        return Err(MarshalError::OutOfBounds);
    }
    let ghost before = heap@;
    let from: usize = at as usize;
    let mut i: usize = 0;
    while i < data.len()
        invariant
            i <= data@.len(),
            from == at,
            heap@.len() == before.len(),
            before.len() <= usize::MAX,
            in_bounds(before, at as int, data@.len() as int),
            heap@ == overlay(before, at as int, data@.take(i as int)),
        decreases data@.len() - i,
    {
        heap[from + i] = data[i];
        i = i + 1;
        proof {
            assert(heap@ =~= overlay(before, at as int, data@.take(i as int)));
        }
    }
    proof {
        assert(data@.take(i as int) =~= data@);
    }
    Ok(())
}

} // verus!
