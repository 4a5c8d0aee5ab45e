//! Marshaling against a running Lucet instance.
//!
//! The instance lends its linear memory as a byte slice, and allocates
//! through the guest's own `memory.allocate` export.

use crate::abort::GuestAbort;
use crate::error::MarshalError;
use crate::layout::checked_array_buffer_size;
use crate::layout::GuestPtr;
use crate::layout::GuestSize;
use crate::layout::MAX_SLICE_LEN;
use crate::layout::TYPED_ARRAY_SIZE;
use crate::string::string_at;
use crate::typed_array::byte_array_fits;
use crate::typed_array::byte_array_image;
use crate::typed_array::byte_slice_at;
use crate::typed_array::write_byte_array;
use lucet_runtime::InstanceHandle;
use lucet_runtime::Val;
use vstd::prelude::*;

verus! {

/// `lucet_runtime::InstanceHandle`, the owner of one instance. Nothing in
/// it is read here but its linear memory.
#[verifier::external_type_specification]
#[verifier::external_body]
pub struct ExInstanceHandle(lucet_runtime::InstanceHandle);

/// `lucet_runtime::Error`, the engine's own error, carried through unread.
#[verifier::external_type_specification]
#[verifier::external_body]
pub struct ExEngineError(lucet_runtime::Error);

/// Why an operation that runs guest code did not complete.
#[derive(Debug)]
pub enum GuestCallError {
    /// The marshaling itself failed.
    Marshal(MarshalError),
    /// The guest called the host's abort notification.
    Aborted(GuestAbort),
    /// The engine could not run the export, or the guest trapped, ran out
    /// of time or yielded; the engine's error is passed on as it came.
    Engine(lucet_runtime::Error),
}

/// The bytes of an instance's linear memory.
pub uninterp spec fn heap_bytes(inst: InstanceHandle) -> Seq<u8>;

/// Calls `Instance::heap`, which lends the instance's linear memory.
#[verifier::external_body]
fn instance_heap(inst: &InstanceHandle) -> (heap: &[u8])
    ensures
        heap@ == heap_bytes(*inst),
{
    inst.heap()
}

/// Calls `Instance::heap_mut`, which lends the instance's linear memory for
/// writing: what the borrower leaves in the slice is the instance's memory
/// afterwards.
#[verifier::external_body]
fn instance_heap_mut(inst: &mut InstanceHandle) -> (heap: &mut [u8])
    ensures
        heap@ == heap_bytes(*old(inst)),
        final(heap)@ == heap_bytes(*final(inst)),
{
    inst.heap_mut()
}

/// Calls `Instance::run` on the export `name` with the one argument `arg`,
/// then `RunResult::returned` and the conversion of the returned value to
/// `u32`. A guest pointer is handed over as the 32-bit integer that it is.
/// The guest's code decides what comes back and what the memory holds
/// afterwards, so nothing is claimed of either.
#[verifier::external_body]
fn run_export(inst: &mut InstanceHandle, name: &str, arg: u32) -> (r: Result<
    u32,
    lucet_runtime::Error,
>) {
    let ran = inst.run(name, &[Val::U32(arg)])?;
    let value = ran.returned()?;
    Ok(u32::from(value))
}

/// Looks into an engine error for the report that it carries:
/// `TerminationDetails::provided_details` of `Error::RuntimeTerminated`,
/// downcast to `GuestAbort`. The outcome is named, not described.
#[verifier::external_body]
fn provided_abort(err: &lucet_runtime::Error) -> (abort: Option<GuestAbort>)
    ensures
        abort == carried_abort(*err),
{
    match err {
        lucet_runtime::Error::RuntimeTerminated(details) => {
            details.provided_details()?.downcast_ref::<GuestAbort>().cloned()
        },
        _ => None,
    }
}

/// The error to surface for a failed run: the guest's abort where the run
/// ended in one, the engine's error unchanged otherwise.
pub fn surface(err: lucet_runtime::Error, abort: Option<GuestAbort>) -> (r: GuestCallError)
    ensures
        r == match abort {
            Some(report) => GuestCallError::Aborted(report),
            None => GuestCallError::Engine(err),
        },
{
    match abort {
        Some(report) => GuestCallError::Aborted(report),
        None => GuestCallError::Engine(err),
    }
}

/// Sorts a failed run: the guest's abort where the engine's error carries
/// its report, the engine's error unchanged otherwise.
pub fn classify(err: lucet_runtime::Error) -> (r: GuestCallError)
    ensures
        r == classified(err),
{
    let abort = provided_abort(&err);
    surface(err, abort)
}

/// Runs the export `name` on one 32-bit argument and returns its 32-bit
/// result. A failure is never a marshaling error: it is the guest's abort
/// or the engine's own error.
pub fn call_export(inst: &mut InstanceHandle, name: &str, arg: u32) -> (r: Result<
    u32,
    GuestCallError,
>)
    ensures
        r matches Err(e) ==> e is Aborted || e is Engine,
{
    let ran = run_export(inst, name, arg);
    settle(ran)
}

/// Exchange of byte arrays and strings with an AssemblyScript guest.
pub trait AssemblyScript {
    /// The guest's linear memory.
    spec fn memory(&self) -> Seq<u8>;

    /// Allocates a byte array in the guest, copies `slice` into it and
    /// returns the offset of its TypedArray.
    ///
    /// A slice whose buffer has no 32-bit size class is refused before the
    /// guest is touched. On success the guest's memory is some memory in
    /// which both objects fit, with the byte array written into it.
    fn put_byte_slice(&mut self, slice: &[u8]) -> (r: Result<GuestPtr, GuestCallError>)
        ensures
            slice@.len() > MAX_SLICE_LEN ==> r == Err::<GuestPtr, GuestCallError>(
                GuestCallError::Marshal(MarshalError::InvalidInput),
            ) && final(self).memory() == old(self).memory(),
            r matches Ok(ptr) ==> exists|before: Seq<u8>, buf: GuestPtr|
                byte_array_fits(before, ptr as int, buf as int, slice@.len() as int)
                    && final(self).memory() == #[trigger] byte_array_image(
                    before,
                    ptr as int,
                    buf as int,
                    slice@,
                ),
            r matches Err(GuestCallError::Marshal(e)) ==> if slice@.len() > MAX_SLICE_LEN {
                e == MarshalError::InvalidInput
            } else {
                e == MarshalError::OutOfBounds
            },
    ;

    /// Reads the bytes that the TypedArray at `ptr` views.
    fn get_byte_slice(&self, ptr: GuestPtr) -> (r: Result<Vec<u8>, MarshalError>)
        ensures
            match byte_slice_at(self.memory(), ptr as int) {
                Ok(bytes) => r is Ok && r->Ok_0@ == bytes,
                Err(e) => r == Err::<Vec<u8>, MarshalError>(e),
            },
    ;

    /// Reads the string object at `ptr`, with U+FFFD for each stray
    /// surrogate.
    fn get_string(&self, ptr: GuestPtr) -> (r: Result<String, MarshalError>)
        ensures
            match string_at(self.memory(), ptr as int) {
                Ok(text) => r is Ok && r->Ok_0@ == text,
                Err(e) => r == Err::<String, MarshalError>(e),
            },
    ;
}

/// Requests `size` bytes from the guest's allocator.
pub fn allocate(inst: &mut InstanceHandle, size: GuestSize) -> (r: Result<GuestPtr, GuestCallError>)
    ensures
        r matches Err(e) ==> e is Aborted || e is Engine,
{
    call_export(inst, "memory.allocate", size)
}

/// Hands `data` to the export `name` as a byte array and reads the string
/// whose offset the export returns.
///
/// Data that is too long is refused before the guest is touched. The
/// guest's code decides the rest; a string that comes back is the one that
/// the guest's memory holds at some offset when the call is over.
pub fn call_with_bytes(inst: &mut InstanceHandle, name: &str, data: &[u8]) -> (r: Result<
    String,
    GuestCallError,
>)
    ensures
        data@.len() > MAX_SLICE_LEN ==> r == Err::<String, GuestCallError>(
            GuestCallError::Marshal(MarshalError::InvalidInput),
        ) && heap_bytes(*final(inst)) == heap_bytes(*old(inst)),
        r matches Ok(text) ==> exists|ptr: GuestPtr| #[trigger]
            string_at(heap_bytes(*final(inst)), ptr as int) == Ok::<Seq<char>, MarshalError>(
                text@,
            ),
        r matches Err(GuestCallError::Marshal(e)) ==> if data@.len() > MAX_SLICE_LEN {
            e == MarshalError::InvalidInput
        } else {
            e == MarshalError::OutOfBounds
        },
{
    let input: GuestPtr = inst.put_byte_slice(data)?;
    let output: GuestPtr = call_export(inst, name, input)?;
    match inst.get_string(output) {
        Ok(text) => Ok(text),
        Err(e) => Err(GuestCallError::Marshal(e)),
    }
}

impl AssemblyScript for InstanceHandle {
    open spec fn memory(&self) -> Seq<u8> {
        heap_bytes(*self)
    }

    fn put_byte_slice(&mut self, slice: &[u8]) -> (r: Result<GuestPtr, GuestCallError>) {
        let size: GuestSize = match checked_array_buffer_size(slice) {
            Some(size) => size,
            None => {
                return Err(GuestCallError::Marshal(MarshalError::InvalidInput));
            },
        };
        let ptr: GuestPtr = allocate(self, TYPED_ARRAY_SIZE)?;
        let buf: GuestPtr = allocate(self, size)?;
        let ghost before = heap_bytes(*self);
        let heap = instance_heap_mut(self);
        match write_byte_array(heap, ptr, buf, slice) {
            Ok(()) => {
                proof {
                    assert(heap_bytes(*self) == byte_array_image(
                        before,
                        ptr as int,
                        buf as int,
                        slice@,
                    ));
                }
                Ok(ptr)
            },
            Err(e) => Err(GuestCallError::Marshal(e)),
        }
    }

    fn get_byte_slice(&self, ptr: GuestPtr) -> (r: Result<Vec<u8>, MarshalError>) {
        crate::typed_array::get_byte_slice(instance_heap(self), ptr)
    }

    fn get_string(&self, ptr: GuestPtr) -> (r: Result<String, MarshalError>) {
        crate::string::get_string(instance_heap(self), ptr)
    }
}

/// The report that an engine error carries: the `GuestAbort` that the
/// abort notification provided when it terminated the run, `None` for
/// every other error.
pub uninterp spec fn carried_abort(err: lucet_runtime::Error) -> Option<GuestAbort>;

/// What a failed run surfaces as: the report where the engine's error
/// carries one, the engine's error itself otherwise.
pub open spec fn classified(err: lucet_runtime::Error) -> GuestCallError {
    match carried_abort(err) {
        Some(report) => GuestCallError::Aborted(report),
        None => GuestCallError::Engine(err),
    }
}

/// What a run of an export comes to.
pub open spec fn settled(ran: Result<u32, lucet_runtime::Error>) -> Result<u32, GuestCallError> {
    match ran {
        Ok(value) => Ok(value),
        Err(err) => Err(classified(err)),
    }
}

/// Turns what the engine returned for a run into the caller's result: the
/// returned number as it came, a failure sorted into abort or engine error.
pub fn settle(ran: Result<u32, lucet_runtime::Error>) -> (r: Result<u32, GuestCallError>)
    ensures
        r == settled(ran),
{
    match ran {
        Ok(value) => Ok(value),
        Err(err) => Err(classify(err)),
    }
}

} // verus!
