//! The ways in which marshaling can fail.

use vstd::prelude::*;

verus! {

/// Why an operation on the guest's memory did not complete.
#[derive(Clone, Copy, Debug, PartialEq, Eq, Structural)]
pub enum MarshalError {
    /// The caller's data cannot be represented in a 32-bit guest.
    InvalidInput,
    /// An access fell outside the guest's current linear memory.
    OutOfBounds,
    /// A buffer declares fewer bytes than a view into it covers.
    HeapInconsistency,
}

} // verus!
