//! Object layouts of the AssemblyScript heap and the size classes of its
//! memory manager.

use vstd::prelude::*;

verus! {

/// An offset into the guest's linear memory.
pub type GuestPtr = u32;

/// A number of bytes in the guest's linear memory.
pub type GuestSize = u32;

/// Bytes that an ArrayBuffer holds in front of its data.
pub const BUFFER_HEADER_SIZE: u32 = 8;

/// Bytes of a TypedArray object.
pub const TYPED_ARRAY_SIZE: u32 = 12;

/// The longest byte slice whose backing buffer still has a size class that
/// a `GuestSize` can hold.
pub const MAX_SLICE_LEN: u32 = 0x7fff_fff8;

/// `p` is a power of two.
pub open spec fn is_pow2(p: int) -> bool
    decreases p,
{
    if p <= 0 {
        false
    } else if p == 1 {
        true
    } else {
        p % 2 == 0 && is_pow2(p / 2)
    }
}

/// `p` is the smallest power of two that is at least `need`.
pub open spec fn is_size_class(p: int, need: int) -> bool {
    &&& is_pow2(p)
    &&& p >= need
    &&& forall|q: int| #[trigger] is_pow2(q) && q >= need ==> p <= q
}

/// Two powers of two are never closer than a factor of two: below `p` the
/// largest one is `p / 2`.
pub proof fn lemma_pow2_gap(q: int, p: int)
    requires
        is_pow2(q),
        is_pow2(p),
        q < p,
    ensures
        2 * q <= p,
    decreases q,
{
    if q > 1 {
        lemma_pow2_gap(q / 2, p / 2);
    }
}

/// A power of two whose half is below `need` is the size class of `need`.
pub proof fn lemma_size_class(p: int, need: int)
    requires
        is_pow2(p),
        p >= need,
        p == 1 || p / 2 < need,
    ensures
        is_size_class(p, need),
{
    assert forall|q: int| #[trigger] is_pow2(q) && q >= need implies p <= q by {
        if q < p {
            lemma_pow2_gap(q, p);
        }
    }
}

/// The buffer of an empty slice is its header alone: eight bytes.
pub proof fn lemma_empty_size_class()
    ensures
        is_size_class(8, 0 + BUFFER_HEADER_SIZE),
{
    assert(is_pow2(8)) by {
        reveal_with_fuel(is_pow2, 5);
    }
    lemma_size_class(8, 8);
}

/// A size class is unique.
pub proof fn lemma_size_class_unique(p: int, q: int, need: int)
    requires
        is_size_class(p, need),
        is_size_class(q, need),
    ensures
        p == q,
{
}

/// The number of bytes to request from the guest's allocator for the
/// ArrayBuffer that backs `slice`: the smallest power of two that holds the
/// buffer's header and the data.
pub fn array_buffer_size(slice: &[u8]) -> (size: GuestSize)
    requires
        slice@.len() <= MAX_SLICE_LEN,
    ensures
        is_size_class(size as int, slice@.len() + BUFFER_HEADER_SIZE),
{
    let need: u64 = slice.len() as u64 + BUFFER_HEADER_SIZE as u64;
    let mut size: u32 = BUFFER_HEADER_SIZE;
    proof {
        assert(is_pow2(8)) by {
            reveal_with_fuel(is_pow2, 5);
        }
    }
    while (size as u64) < need
        invariant
            need == slice@.len() + 8,
            need <= 0x8000_0000,
            8 <= size <= 0x8000_0000,
            is_pow2(size as int),
            size == 8 || (size / 2) < need,
        decreases 0x1_0000_0000 - size,
    {
        proof {
            assert(is_pow2(0x8000_0000)) by {
                reveal_with_fuel(is_pow2, 33);
            }
            lemma_pow2_gap(size as int, 0x8000_0000);
        }
        size = size * 2;
    }
    proof {
        lemma_size_class(size as int, need as int);
    }
    size
}

/// The size of the ArrayBuffer that backs `slice`, or `None` where the
/// slice is so long that no `GuestSize` holds its size class.
pub fn checked_array_buffer_size(slice: &[u8]) -> (size: Option<GuestSize>)
    ensures
        slice@.len() <= MAX_SLICE_LEN ==> size.is_some() && is_size_class(
            size.unwrap() as int,
            slice@.len() + BUFFER_HEADER_SIZE,
        ),
        slice@.len() > MAX_SLICE_LEN ==> size.is_none(),
{
    if slice.len() > MAX_SLICE_LEN as usize {
        None
    } else {
        Some(array_buffer_size(slice))
    }
}

} // verus!
