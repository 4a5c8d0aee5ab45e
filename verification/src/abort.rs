//! The guest's abort notification.
//!
//! A guest that cannot continue calls the host with the offsets of two
//! string objects, a message and a file name, and a line and a column. The
//! guest's state may be damaged at that point, so the strings are decoded
//! on a best effort and the numbers are passed on as they came.

use crate::layout::GuestPtr;
use crate::string::get_string;
use crate::string::string_at;
use vstd::prelude::*;
use vstd::string::StringExecFns;

verus! {

/// What a guest reported when it aborted.
#[derive(Clone, Debug)]
pub struct GuestAbort {
    /// The guest's message, or the placeholder.
    pub message: String,
    /// The guest's source file, or the placeholder.
    pub file: String,
    /// The line in that file.
    pub line: u32,
    /// The column in that line.
    pub col: u32,
}

/// The text that stands in for a string that could not be read.
pub open spec fn placeholder() -> Seq<char> {
    "<unreadable>"@
}

/// The string at `ptr` where there is one, the placeholder otherwise.
pub open spec fn text_or_placeholder(heap: Seq<u8>, ptr: int) -> Seq<char> {
    match string_at(heap, ptr) {
        Ok(text) => text,
        Err(_) => placeholder(),
    }
}

/// Reads the string at `ptr`, falling back to the placeholder where the
/// object leaves the heap.
pub fn read_diagnostic(heap: &[u8], ptr: GuestPtr) -> (text: String)
    ensures
        text@ == text_or_placeholder(heap@, ptr as int),
{
    match get_string(heap, ptr) {
        Ok(text) => text,
        Err(_) => String::from_str("<unreadable>"),
    }
}

/// Collects what the guest said about its abort. It never fails: the line
/// and the column are kept; each string is decoded where it can be.
pub fn abort_report(heap: &[u8], msg_ptr: GuestPtr, file_ptr: GuestPtr, line: u32, col: u32) -> (r:
    GuestAbort)
    ensures
        r.message@ == text_or_placeholder(heap@, msg_ptr as int),
        r.file@ == text_or_placeholder(heap@, file_ptr as int),
        r.line == line,
        r.col == col,
{
    GuestAbort {
        message: read_diagnostic(heap, msg_ptr),
        file: read_diagnostic(heap, file_ptr),
        line,
        col,
    }
}

} // verus!
