use lucet_runtime::TerminationDetails;
use sha512_lucet::abort::GuestAbort;
use sha512_lucet::error::MarshalError;
use sha512_lucet::instance::allocate;
use sha512_lucet::instance::call_export;
use sha512_lucet::instance::call_with_bytes;
use sha512_lucet::instance::classify;
use sha512_lucet::instance::settle;
use sha512_lucet::instance::AssemblyScript;
use sha512_lucet::instance::surface;
use sha512_lucet::instance::GuestCallError;

fn report() -> GuestAbort {
    GuestAbort {
        message: String::from("index out of range"),
        file: String::from("sha512.ts"),
        line: 42,
        col: 7,
    }
}

#[test]
fn abort_is_surfaced_with_line_and_column() {
    let err = lucet_runtime::Error::RuntimeTerminated(TerminationDetails::provide(report()));
    match classify(err) {
        GuestCallError::Aborted(found) => {
            assert_eq!(found.message, "index out of range");
            assert_eq!(found.file, "sha512.ts");
            assert_eq!(found.line, 42);
            assert_eq!(found.col, 7);
        }
        other => panic!("not an abort: {:?}", other),
    }
}

#[test]
fn other_terminations_stay_engine_errors() {
    let foreign =
        lucet_runtime::Error::RuntimeTerminated(TerminationDetails::provide(String::from("x")));
    assert!(matches!(
        classify(foreign),
        GuestCallError::Engine(lucet_runtime::Error::RuntimeTerminated(_))
    ));
    assert!(matches!(
        classify(lucet_runtime::Error::RuntimeTerminated(TerminationDetails::Signal)),
        GuestCallError::Engine(lucet_runtime::Error::RuntimeTerminated(TerminationDetails::Signal))
    ));
    assert!(matches!(
        classify(lucet_runtime::Error::InstanceNotReturned),
        GuestCallError::Engine(lucet_runtime::Error::InstanceNotReturned)
    ));
}

#[test]
fn surface_prefers_the_abort() {
    assert!(matches!(
        surface(lucet_runtime::Error::InstanceNotReturned, Some(report())),
        GuestCallError::Aborted(GuestAbort { line: 42, col: 7, .. })
    ));
    assert!(matches!(
        surface(lucet_runtime::Error::InstanceNotYielded, None),
        GuestCallError::Engine(lucet_runtime::Error::InstanceNotYielded)
    ));
}

fn instance_with(heap: &[u8]) -> lucet_runtime::InstanceHandle {
    let module = lucet_runtime_internals::module::MockModuleBuilder::new()
        .with_initial_heap(heap)
        .build();
    let limits = lucet_runtime::Limits {
        heap_address_space_size: 8 * 1024 * 1024,
        ..lucet_runtime::Limits::default()
    };
    let region = lucet_runtime::MmapRegion::create(1, &limits).expect("a region");
    lucet_runtime::Region::new_instance(&*region, module).expect("an instance")
}

fn heap_with_objects() -> Vec<u8> {
    let mut heap = vec![0u8; 8];
    // a string object at 8
    heap.extend_from_slice(&[5, 0, 0, 0, 0x68, 0, 0x65, 0, 0x6c, 0, 0x6c, 0, 0x6f, 0]);
    heap.extend_from_slice(&[0, 0]);
    // a byte array at 24 over a buffer at 36
    heap.extend_from_slice(&[36, 0, 0, 0, 1, 0, 0, 0, 2, 0, 0, 0]);
    heap.extend_from_slice(&[3, 0, 0, 0, 0, 0, 0, 0, 7, 8, 9]);
    heap
}

#[test]
fn instance_memory_is_read_for_strings() {
    let inst = instance_with(&heap_with_objects());
    assert_eq!(AssemblyScript::get_string(&inst, 8), Ok(String::from("hello")));
    assert_eq!(AssemblyScript::get_string(&inst, 0), Ok(String::new()));
    assert_eq!(
        AssemblyScript::get_string(&inst, u32::MAX),
        Err(MarshalError::OutOfBounds)
    );
}

#[test]
fn instance_memory_is_read_for_byte_arrays() {
    let inst = instance_with(&heap_with_objects());
    assert_eq!(AssemblyScript::get_byte_slice(&inst, 24), Ok(vec![8, 9]));
    assert_eq!(
        AssemblyScript::get_byte_slice(&inst, u32::MAX - 4),
        Err(MarshalError::OutOfBounds)
    );
}

#[test]
fn guest_without_an_allocator_is_an_engine_error() {
    let mut inst = instance_with(&heap_with_objects());
    assert!(matches!(allocate(&mut inst, 12), Err(GuestCallError::Engine(_))));
    assert!(matches!(
        AssemblyScript::put_byte_slice(&mut inst, b"abc"),
        Err(GuestCallError::Engine(_))
    ));
    assert!(matches!(
        call_with_bytes(&mut inst, "sha512", b"abc"),
        Err(GuestCallError::Engine(_))
    ));
    assert!(matches!(
        call_export(&mut inst, "sha512", 24),
        Err(GuestCallError::Engine(_))
    ));
    // nothing was written on the way
    assert_eq!(AssemblyScript::get_string(&inst, 8), Ok(String::from("hello")));
}

#[test]
fn slice_without_a_size_class_is_invalid_input() {
    let mut inst = instance_with(&heap_with_objects());
    let data = vec![0u8; 0x7fff_fff9];
    assert!(matches!(
        AssemblyScript::put_byte_slice(&mut inst, &data),
        Err(GuestCallError::Marshal(MarshalError::InvalidInput))
    ));
    assert!(matches!(
        call_with_bytes(&mut inst, "sha512", &data),
        Err(GuestCallError::Marshal(MarshalError::InvalidInput))
    ));
    assert_eq!(AssemblyScript::get_string(&inst, 8), Ok(String::from("hello")));
}

#[test]
fn returned_number_is_kept() {
    assert!(matches!(settle(Ok(7)), Ok(7)));
    assert!(matches!(settle(Ok(u32::MAX)), Ok(u32::MAX)));
}

#[test]
fn failed_run_is_sorted() {
    let aborted = lucet_runtime::Error::RuntimeTerminated(TerminationDetails::provide(report()));
    match settle(Err(aborted)) {
        Err(GuestCallError::Aborted(found)) => {
            assert_eq!(found.message, "index out of range");
            assert_eq!(found.file, "sha512.ts");
            assert_eq!(found.line, 42);
            assert_eq!(found.col, 7);
        }
        other => panic!("not an abort: {:?}", other),
    }
    assert!(matches!(
        settle(Err(lucet_runtime::Error::InstanceNotReturned)),
        Err(GuestCallError::Engine(lucet_runtime::Error::InstanceNotReturned))
    ));
}
