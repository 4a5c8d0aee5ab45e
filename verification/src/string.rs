//! Strings in the guest's heap: a 32-bit count of UTF-16 code units and the
//! units themselves, little-endian, with no terminator.
//!
//! Decoding is lenient: a surrogate without its partner becomes U+FFFD, so
//! a string that lies inside the heap always decodes.

use crate::error::MarshalError;
use crate::layout::GuestPtr;
use crate::memory::check_bounds;
use crate::memory::in_bounds;
use crate::memory::read_u16;
use crate::memory::read_u32;
use crate::memory::u16_at;
use crate::memory::u32_at;
use vstd::prelude::*;

verus! {

/// U+FFFD, which stands in for a code unit that cannot be decoded.
pub const REPLACEMENT_CHARACTER: char = '\u{FFFD}';

/// `u` is the first half of a surrogate pair.
pub open spec fn is_high_surrogate(u: u16) -> bool {
    0xD800 <= u <= 0xDBFF
}

/// `u` is the second half of a surrogate pair.
pub open spec fn is_low_surrogate(u: u16) -> bool {
    0xDC00 <= u <= 0xDFFF
}

/// The character that the pair of `high` and `low` encodes.
pub open spec fn pair_char(high: u16, low: u16) -> char
    recommends
        is_high_surrogate(high),
        is_low_surrogate(low),
{
    (0x1_0000 + (high - 0xD800) * 0x400 + (low - 0xDC00)) as char
}

/// The lenient decoding of UTF-16: a unit outside the surrogate range is
/// its own character, a high surrogate directly followed by a low one is
/// the character of the pair, and any other surrogate is U+FFFD.
pub open spec fn decode_utf16_lossy(units: Seq<u16>) -> Seq<char>
    decreases units.len(),
{
    if units.len() == 0 {
        Seq::empty()
    } else if !is_high_surrogate(units[0]) && !is_low_surrogate(units[0]) {
        seq![units[0] as char] + decode_utf16_lossy(units.skip(1))
    } else if is_high_surrogate(units[0]) && units.len() >= 2 && is_low_surrogate(units[1]) {
        seq![pair_char(units[0], units[1])] + decode_utf16_lossy(units.skip(2))
    } else {
        seq![REPLACEMENT_CHARACTER] + decode_utf16_lossy(units.skip(1))
    }
}

/// The `count` code units of the string object at `ptr`.
pub open spec fn string_units(heap: Seq<u8>, ptr: int, count: int) -> Seq<u16>
    recommends
        in_bounds(heap, ptr + 4, 2 * count),
{
    Seq::new(count as nat, |i: int| u16_at(heap, ptr + 4 + 2 * i))
}

/// The code units of the string object at `ptr`, or `OutOfBounds` where the
/// count or the units that it announces leave the heap.
pub open spec fn units_at(heap: Seq<u8>, ptr: int) -> Result<Seq<u16>, MarshalError> {
    if !in_bounds(heap, ptr, 4) {
        Err(MarshalError::OutOfBounds)
    } else if !in_bounds(heap, ptr + 4, 2 * (u32_at(heap, ptr) as int)) {
        Err(MarshalError::OutOfBounds)
    } else {
        Ok(string_units(heap, ptr, u32_at(heap, ptr) as int))
    }
}

/// The string that the object at `ptr` holds.
pub open spec fn string_at(heap: Seq<u8>, ptr: int) -> Result<Seq<char>, MarshalError> {
    match units_at(heap, ptr) {
        Ok(units) => Ok(decode_utf16_lossy(units)),
        Err(e) => Err(e),
    }
}

/// Calls `char::from_u32`, which gives the character with the scalar value
/// `n`, and `None` for a surrogate or a number above U+10FFFF.
#[verifier::external_body]
fn scalar_to_char(n: u32) -> (c: Option<char>)
    ensures
        n <= 0xD7FF || 0xE000 <= n <= 0x10_FFFF ==> c == Some(n as char),
        !(n <= 0xD7FF || 0xE000 <= n <= 0x10_FFFF) ==> c.is_none(),
{
    char::from_u32(n)
}

/// Calls `String::from_iter` on the characters of `chars`: the string that
/// holds them in their order.
#[verifier::external_body]
fn string_of_chars(chars: &Vec<char>) -> (s: String)
    ensures
        s@ == chars@,
{
    String::from_iter(chars.iter())
}

/// The character with scalar value `n`, or U+FFFD where there is none.
fn char_or_replacement(n: u32) -> (c: char)
    ensures
        n <= 0xD7FF || 0xE000 <= n <= 0x10_FFFF ==> c == n as char,
        !(n <= 0xD7FF || 0xE000 <= n <= 0x10_FFFF) ==> c == REPLACEMENT_CHARACTER,
{
    match scalar_to_char(n) {
        Some(c) => c,
        None => REPLACEMENT_CHARACTER,
    }
}

/// Reads the code units of the string object at `ptr`.
pub fn read_units(heap: &[u8], ptr: GuestPtr) -> (r: Result<Vec<u16>, MarshalError>)
    ensures
        match units_at(heap@, ptr as int) {
            Ok(units) => r is Ok && r->Ok_0@ == units,
            Err(e) => r == Err::<Vec<u16>, MarshalError>(e),
        },
{
    let count: u32 = read_u32(heap, ptr as u64)?;
    let first: u64 = ptr as u64 + 4;
    if !check_bounds(heap, first, 2 * (count as u64)) {
        return Err(MarshalError::OutOfBounds);
    }
    let mut units: Vec<u16> = Vec::new();
    let mut i: u32 = 0;
    while i < count
        invariant
            i <= count,
            first == ptr + 4,
            in_bounds(heap@, first as int, 2 * (count as int)),
            units@ == string_units(heap@, ptr as int, i as int),
        decreases count - i,
    {
        match read_u16(heap, first + 2 * (i as u64)) {
            Ok(unit) => {
                units.push(unit);
            },
            Err(e) => {
                return Err(e);
            },
        }
        i = i + 1;
        proof {
            assert(units@ =~= string_units(heap@, ptr as int, i as int));
        }
    }
    Ok(units)
}

/// Decodes UTF-16 leniently; it never fails.
pub fn decode_units(units: &[u16]) -> (chars: Vec<char>)
    ensures
        chars@ == decode_utf16_lossy(units@),
{
    let mut chars: Vec<char> = Vec::new();
    let mut i: usize = 0;
    proof {
        assert(units@.skip(0) =~= units@);
    }
    while i < units.len()
        invariant
            i <= units@.len(),
            decode_utf16_lossy(units@) == chars@ + decode_utf16_lossy(units@.skip(i as int)),
        decreases units@.len() - i,
    {
        let ghost rest = units@.skip(i as int);
        let ghost done = chars@;
        let unit: u16 = units[i];
        let mut step: usize = 1;
        let c: char;
        if unit < 0xD800 || unit > 0xDFFF {
            c = char_or_replacement(unit as u32);
        } else if unit <= 0xDBFF && i + 1 < units.len() && 0xDC00 <= units[i + 1] && units[i + 1]
            <= 0xDFFF {
            let low: u16 = units[i + 1];
            c = char_or_replacement(
                0x1_0000 + (unit as u32 - 0xD800) * 0x400 + (low as u32 - 0xDC00),
            );
            step = 2;
        } else {
            c = REPLACEMENT_CHARACTER;
        }
        chars.push(c);
        i = i + step;
        proof {
            assert(rest[0] == unit);
            assert(rest.skip(step as int) =~= units@.skip(i as int));
            assert(chars@ =~= done + seq![c]);
            assert(decode_utf16_lossy(rest) == seq![c] + decode_utf16_lossy(
                rest.skip(step as int),
            ));
            assert(done + (seq![c] + decode_utf16_lossy(rest.skip(step as int))) =~= (done
                + seq![c]) + decode_utf16_lossy(rest.skip(step as int)));
        }
    }
    proof {
        assert(units@.skip(i as int) =~= Seq::<u16>::empty());
        assert(chars@ + Seq::<char>::empty() =~= chars@);
    }
    chars
}

/// Reads the string object at `ptr` into a host string.
///
/// It fails only where the object leaves the heap; ill-formed UTF-16 is
/// decoded with U+FFFD in place of each stray surrogate.
pub fn get_string(heap: &[u8], ptr: GuestPtr) -> (r: Result<String, MarshalError>)
    ensures
        match string_at(heap@, ptr as int) {
            Ok(text) => r is Ok && r->Ok_0@ == text,
            Err(e) => r == Err::<String, MarshalError>(e),
        },
{
    let units: Vec<u16> = read_units(heap, ptr)?;
    let chars: Vec<char> = decode_units(units.as_slice());
    Ok(string_of_chars(&chars))
}

/// A low surrogate that no high surrogate precedes becomes U+FFFD, and
/// the units on both sides of it decode as they would alone.
pub proof fn lemma_decode_stray_low_surrogate(before: Seq<u16>, low: u16, after: Seq<u16>)
    requires
        is_low_surrogate(low),
        before.len() == 0 || !is_high_surrogate(before.last()),
    ensures
        decode_utf16_lossy(before + seq![low] + after) == decode_utf16_lossy(before)
            + seq![REPLACEMENT_CHARACTER] + decode_utf16_lossy(after),
    decreases before.len(),
{
    let all = before + seq![low] + after;
    if before.len() == 0 {
        assert(all.skip(1) =~= after);
        assert(decode_utf16_lossy(before) =~= Seq::<char>::empty());
        assert(decode_utf16_lossy(all) =~= decode_utf16_lossy(before)
            + seq![REPLACEMENT_CHARACTER] + decode_utf16_lossy(after));
    } else {
        let paired = is_high_surrogate(before[0]) && before.len() >= 2 && is_low_surrogate(
            before[1],
        );
        let step: int = if paired {
            2
        } else {
            1
        };
        let rest = before.skip(step);
        assert(all[0] == before[0]);
        assert(all[1] == if before.len() >= 2 {
            before[1]
        } else {
            low
        });
        assert(all.skip(step) =~= rest + seq![low] + after);
        if rest.len() > 0 {
            assert(rest.last() == before.last());
        }
        lemma_decode_stray_low_surrogate(rest, low, after);
        let head = decode_utf16_lossy(before).take(1);
        assert(decode_utf16_lossy(before) =~= head + decode_utf16_lossy(rest));
        assert(decode_utf16_lossy(all) =~= head + decode_utf16_lossy(all.skip(step)));
        assert(decode_utf16_lossy(all) =~= decode_utf16_lossy(before)
            + seq![REPLACEMENT_CHARACTER] + decode_utf16_lossy(after));
    }
}

/// Where no unit is a high surrogate, nothing is paired: the decoded text
/// has one character for each unit, U+FFFD for each low surrogate and the
/// unit's own character for every other unit.
pub proof fn lemma_decode_without_pairs(units: Seq<u16>)
    requires
        forall|i: int| 0 <= i < units.len() ==> !is_high_surrogate(#[trigger] units[i]),
    ensures
        decode_utf16_lossy(units).len() == units.len(),
        forall|i: int|
            0 <= i < units.len() ==> #[trigger] decode_utf16_lossy(units)[i] == if is_low_surrogate(
                units[i],
            ) {
                REPLACEMENT_CHARACTER
            } else {
                units[i] as char
            },
    decreases units.len(),
{
    if units.len() > 0 {
        let rest = units.skip(1);
        lemma_decode_without_pairs(rest);
        assert forall|i: int| 0 <= i < units.len() implies #[trigger] decode_utf16_lossy(units)[i]
            == if is_low_surrogate(units[i]) {
            REPLACEMENT_CHARACTER
        } else {
            units[i] as char
        } by {
            if i > 0 {
                assert(rest[i - 1] == units[i]);
                assert(decode_utf16_lossy(units)[i] == decode_utf16_lossy(rest)[i - 1]);
            }
        }
    }
}

} // verus!
