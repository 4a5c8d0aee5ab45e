//! Byte arrays in the guest's heap: a TypedArray object that views an
//! ArrayBuffer.
//!
//! A TypedArray is twelve bytes: the offset of its buffer, the view's
//! offset inside the buffer's data, and the view's length, each a 32-bit
//! little-endian number. An ArrayBuffer is its data's length, four bytes
//! of padding, and the data.

use crate::error::MarshalError;
use crate::layout::GuestPtr;
use crate::memory::check_bounds;
use crate::memory::in_bounds;
use crate::memory::lemma_overlay_other;
use crate::memory::lemma_overlay_same;
use crate::memory::lemma_u32_le_round_trip;
use crate::memory::overlay;
use crate::memory::read_bytes;
use crate::memory::read_u32;
use crate::memory::u32_at;
use crate::memory::u32_le_bytes;
use crate::memory::with_u32;
use crate::memory::write_bytes;
use crate::memory::write_u32;
use vstd::prelude::*;

verus! {

/// A heap has room for a TypedArray at `ptr` and for an ArrayBuffer of
/// `len` data bytes at `buf`.
pub open spec fn byte_array_fits(heap: Seq<u8>, ptr: int, buf: int, len: int) -> bool {
    in_bounds(heap, ptr, 12) && in_bounds(heap, buf, 8 + len)
}

/// The TypedArray at `ptr` and the ArrayBuffer of `len` data bytes at `buf`
/// share no byte.
pub open spec fn byte_array_apart(ptr: int, buf: int, len: int) -> bool {
    ptr + 12 <= buf || buf + 8 + len <= ptr
}

/// The heap once a byte array holding `data` has been written into `heap`:
/// first the three fields of the TypedArray at `ptr`, then the ArrayBuffer
/// at `buf`.
pub open spec fn byte_array_image(heap: Seq<u8>, ptr: int, buf: int, data: Seq<u8>) -> Seq<u8>
    recommends
        byte_array_fits(heap, ptr, buf, data.len() as int),
{
    let h1 = with_u32(heap, ptr, buf as u32);
    let h2 = with_u32(h1, ptr + 4, 0);
    let h3 = with_u32(h2, ptr + 8, data.len() as u32);
    let h4 = with_u32(h3, buf, data.len() as u32);
    let h5 = with_u32(h4, buf + 4, 0);
    overlay(h5, buf + 8, data)
}

/// What reading the byte array at `ptr` gives: the bytes that the view
/// covers, or the reason why there are none.
pub open spec fn byte_slice_at(heap: Seq<u8>, ptr: int) -> Result<Seq<u8>, MarshalError> {
    if !in_bounds(heap, ptr, 12) {
        Err(MarshalError::OutOfBounds)
    } else {
        let buf = u32_at(heap, ptr) as int;
        let offset = u32_at(heap, ptr + 4) as int;
        let len = u32_at(heap, ptr + 8) as int;
        if !in_bounds(heap, buf, 4) {
            Err(MarshalError::OutOfBounds)
        } else if (u32_at(heap, buf) as int) < offset + len {
            Err(MarshalError::HeapInconsistency)
        } else if !in_bounds(heap, buf + 8 + offset, len) {
            Err(MarshalError::OutOfBounds)
        } else {
            Ok(heap.subrange(buf + 8 + offset, buf + 8 + offset + len))
        }
    }
}

/// Writes `data` into the heap as a byte array: the TypedArray at `ptr`,
/// with offset 0 and the length of `data`, and its ArrayBuffer at `buf`.
///
/// Nothing is written unless everything fits: data longer than a 32-bit
/// length is `InvalidInput`, an object that would leave the heap is
/// `OutOfBounds`, and in both cases the heap stays as it was.
pub fn write_byte_array(heap: &mut [u8], ptr: GuestPtr, buf: GuestPtr, data: &[u8]) -> (r: Result<
    (),
    MarshalError,
>)
    ensures
        data@.len() > u32::MAX ==> r == Err::<(), MarshalError>(MarshalError::InvalidInput)
            && final(heap)@ == old(heap)@,
        data@.len() <= u32::MAX && !byte_array_fits(
            old(heap)@,
            ptr as int,
            buf as int,
            data@.len() as int,
        ) ==> r == Err::<(), MarshalError>(MarshalError::OutOfBounds) && final(heap)@ == old(
            heap,
        )@,
        data@.len() <= u32::MAX && byte_array_fits(
            old(heap)@,
            ptr as int,
            buf as int,
            data@.len() as int,
        ) ==> r == Ok::<(), MarshalError>(()) && final(heap)@ == byte_array_image(
            old(heap)@,
            ptr as int,
            buf as int,
            data@,
        ),
{
    if data.len() > 0xffff_ffff {
        return Err(MarshalError::InvalidInput);
    }
    let len: u32 = data.len() as u32;
    if !check_bounds(heap, ptr as u64, 12) || !check_bounds(heap, buf as u64, 8 + len as u64) {
        return Err(MarshalError::OutOfBounds);
    }
    let _ = write_u32(heap, ptr as u64, buf);
    let _ = write_u32(heap, ptr as u64 + 4, 0);
    let _ = write_u32(heap, ptr as u64 + 8, len);
    let _ = write_u32(heap, buf as u64, len);
    let _ = write_u32(heap, buf as u64 + 4, 0);
    let _ = write_bytes(heap, buf as u64 + 8, data);
    Ok(())
}

/// Reads the bytes that the TypedArray at `ptr` views.
///
/// A buffer that declares fewer bytes than the view's offset and length
/// cover is `HeapInconsistency`; the bytes are never cut short to fit.
pub fn get_byte_slice(heap: &[u8], ptr: GuestPtr) -> (r: Result<Vec<u8>, MarshalError>)
    ensures
        match byte_slice_at(heap@, ptr as int) {
            Ok(bytes) => r is Ok && r->Ok_0@ == bytes,
            Err(e) => r == Err::<Vec<u8>, MarshalError>(e),
        },
{
    let buf: u32 = read_u32(heap, ptr as u64)?;
    let offset: u32 = read_u32(heap, ptr as u64 + 4)?;
    let len: u32 = read_u32(heap, ptr as u64 + 8)?;
    let declared: u32 = read_u32(heap, buf as u64)?;
    if (declared as u64) < offset as u64 + len as u64 {
        return Err(MarshalError::HeapInconsistency);
    }
    read_bytes(heap, buf as u64 + 8 + offset as u64, len as u64)
}

/// A buffer that declares fewer bytes than the view's offset and length
/// cover is never read: the result is `HeapInconsistency`, whatever the
/// heap holds at the place where the view points.
pub proof fn lemma_short_buffer_is_inconsistent(heap: Seq<u8>, ptr: GuestPtr)
    requires
        in_bounds(heap, ptr as int, 12),
        in_bounds(heap, u32_at(heap, ptr as int) as int, 4),
        u32_at(heap, u32_at(heap, ptr as int) as int) < u32_at(heap, ptr + 4) + u32_at(
            heap,
            ptr + 8,
        ),
    ensures
        byte_slice_at(heap, ptr as int) == Err::<Seq<u8>, MarshalError>(
            MarshalError::HeapInconsistency,
        ),
{
}

/// A byte array that is read successfully is never cut short: its bytes
/// are as many as the view's length field says.
pub proof fn lemma_byte_slice_has_view_length(heap: Seq<u8>, ptr: GuestPtr)
    requires
        byte_slice_at(heap, ptr as int) is Ok,
    ensures
        byte_slice_at(heap, ptr as int)->Ok_0.len() == u32_at(heap, ptr + 8),
{
}

/// An empty byte array has a view of length 0 over a buffer that declares
/// 0 bytes, and reads back as no bytes.
pub proof fn lemma_empty_byte_array(heap: Seq<u8>, ptr: GuestPtr, buf: GuestPtr)
    requires
        byte_array_fits(heap, ptr as int, buf as int, 0),
        byte_array_apart(ptr as int, buf as int, 0),
    ensures
        byte_slice_at(byte_array_image(heap, ptr as int, buf as int, Seq::empty()), ptr as int)
            == Ok::<Seq<u8>, MarshalError>(Seq::empty()),
        u32_at(byte_array_image(heap, ptr as int, buf as int, Seq::empty()), ptr + 8) == 0,
{
    lemma_byte_array_round_trip(heap, ptr, buf, Seq::empty());
    lemma_byte_slice_has_view_length(
        byte_array_image(heap, ptr as int, buf as int, Seq::empty()),
        ptr,
    );
}

/// A number stored in a heap is read back from the same offset.
pub proof fn lemma_with_u32_same(heap: Seq<u8>, at: int, n: u32)
    requires
        in_bounds(heap, at, 4),
    ensures
        with_u32(heap, at, n).len() == heap.len(),
        u32_at(with_u32(heap, at, n), at) == n,
{
    lemma_overlay_same(heap, at, u32_le_bytes(n));
    lemma_u32_le_round_trip(n);
}

/// A number stored in a heap leaves the numbers beside it as they were.
pub proof fn lemma_with_u32_other(heap: Seq<u8>, at: int, n: u32, from: int)
    requires
        in_bounds(heap, at, 4),
        in_bounds(heap, from, 4),
        from + 4 <= at || at + 4 <= from,
    ensures
        u32_at(with_u32(heap, at, n), from) == u32_at(heap, from),
{
    lemma_overlay_other(heap, at, u32_le_bytes(n), from, 4);
}

/// Reading a byte array that was just written gives back the data:
/// wherever the two objects fit into the heap and share no byte,
/// `get_byte_slice` on the heap that `write_byte_array` left returns `data`.
pub proof fn lemma_byte_array_round_trip(heap: Seq<u8>, ptr: GuestPtr, buf: GuestPtr, data: Seq<u8>)
    requires
        data.len() <= u32::MAX,
        byte_array_fits(heap, ptr as int, buf as int, data.len() as int),
        byte_array_apart(ptr as int, buf as int, data.len() as int),
    ensures
        byte_slice_at(byte_array_image(heap, ptr as int, buf as int, data), ptr as int) == Ok::<
            Seq<u8>,
            MarshalError,
        >(data),
{
    let p = ptr as int;
    let b = buf as int;
    let len = data.len() as u32;
    let h1 = with_u32(heap, p, buf);
    let h2 = with_u32(h1, p + 4, 0);
    let h3 = with_u32(h2, p + 8, len);
    let h4 = with_u32(h3, b, len);
    let h5 = with_u32(h4, b + 4, 0);
    let h6 = overlay(h5, b + 8, data);
    lemma_with_u32_same(heap, p, buf);
    lemma_with_u32_same(h1, p + 4, 0);
    lemma_with_u32_same(h2, p + 8, len);
    lemma_with_u32_same(h3, b, len);
    lemma_with_u32_same(h4, b + 4, 0);
    lemma_overlay_same(h5, b + 8, data);
    // the TypedArray's fields survive every later write
    lemma_with_u32_other(h1, p + 4, 0, p);
    lemma_with_u32_other(h2, p + 8, len, p);
    lemma_with_u32_other(h2, p + 8, len, p + 4);
    lemma_with_u32_other(h3, b, len, p);
    lemma_with_u32_other(h3, b, len, p + 4);
    lemma_with_u32_other(h3, b, len, p + 8);
    lemma_with_u32_other(h4, b + 4, 0, p);
    lemma_with_u32_other(h4, b + 4, 0, p + 4);
    lemma_with_u32_other(h4, b + 4, 0, p + 8);
    lemma_with_u32_other(h4, b + 4, 0, b);
    lemma_overlay_other(h5, b + 8, data, p, 4);
    lemma_overlay_other(h5, b + 8, data, p + 4, 4);
    lemma_overlay_other(h5, b + 8, data, p + 8, 4);
    lemma_overlay_other(h5, b + 8, data, b, 4);
    assert(u32_at(h6, p) == buf);
    assert(u32_at(h6, p + 4) == 0);
    assert(u32_at(h6, p + 8) == len);
    assert(u32_at(h6, b) == len);
}

} // verus!
