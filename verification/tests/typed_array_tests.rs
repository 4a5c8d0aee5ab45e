use sha512_lucet::error::MarshalError;
use sha512_lucet::layout::array_buffer_size;
use sha512_lucet::typed_array::get_byte_slice;
use sha512_lucet::typed_array::write_byte_array;

#[test]
fn byte_array_layout_is_exact() {
    let mut heap = vec![0xeeu8; 40];
    assert_eq!(write_byte_array(&mut heap, 4, 20, b"abc"), Ok(()));
    let mut expected = vec![0xeeu8; 40];
    expected[4..16].copy_from_slice(&[20, 0, 0, 0, 0, 0, 0, 0, 3, 0, 0, 0]);
    expected[20..31].copy_from_slice(&[3, 0, 0, 0, 0, 0, 0, 0, b'a', b'b', b'c']);
    assert_eq!(heap, expected);
}

#[test]
fn written_byte_array_reads_back() {
    let data: Vec<u8> = (0u8..=255).collect();
    let mut heap = vec![0u8; 1024];
    assert_eq!(write_byte_array(&mut heap, 700, 16, &data), Ok(()));
    assert_eq!(get_byte_slice(&heap, 700), Ok(data));
}

#[test]
fn empty_byte_array() {
    let size = array_buffer_size(&[]);
    assert_eq!(size, 8);
    let mut heap = vec![0xeeu8; 12 + size as usize];
    assert_eq!(write_byte_array(&mut heap, 0, 12, &[]), Ok(()));
    assert_eq!(&heap[8..12], &[0, 0, 0, 0]);
    assert_eq!(&heap[12..20], &[0, 0, 0, 0, 0, 0, 0, 0]);
    assert_eq!(get_byte_slice(&heap, 0), Ok(vec![]));
}

#[test]
fn byte_array_that_does_not_fit_is_not_written() {
    let mut heap = vec![7u8; 24];
    assert_eq!(write_byte_array(&mut heap, 16, 0, b"ab"), Err(MarshalError::OutOfBounds));
    assert_eq!(write_byte_array(&mut heap, 0, 12, b"abcde"), Err(MarshalError::OutOfBounds));
    assert_eq!(heap, vec![7u8; 24]);
    assert_eq!(write_byte_array(&mut heap, 0, 12, b"abcd"), Ok(()));
}

fn object(buf: u32, offset: u32, len: u32, declared: u32, data: &[u8]) -> Vec<u8> {
    let mut heap = Vec::new();
    heap.extend_from_slice(&buf.to_le_bytes());
    heap.extend_from_slice(&offset.to_le_bytes());
    heap.extend_from_slice(&len.to_le_bytes());
    heap.extend_from_slice(&declared.to_le_bytes());
    heap.extend_from_slice(&[0, 0, 0, 0]);
    heap.extend_from_slice(data);
    heap
}

#[test]
fn view_with_an_offset() {
    let heap = object(12, 2, 3, 6, &[10, 11, 12, 13, 14, 15]);
    assert_eq!(get_byte_slice(&heap, 0), Ok(vec![12, 13, 14]));
}

#[test]
fn short_buffer_is_heap_inconsistency() {
    let heap = object(12, 2, 5, 6, &[10, 11, 12, 13, 14, 15, 16, 17]);
    assert_eq!(get_byte_slice(&heap, 0), Err(MarshalError::HeapInconsistency));
    let heap = object(12, 0, 4, 3, &[1, 2, 3, 4]);
    assert_eq!(get_byte_slice(&heap, 0), Err(MarshalError::HeapInconsistency));
    let heap = object(12, u32::MAX, u32::MAX, u32::MAX, &[1, 2, 3, 4]);
    assert_eq!(get_byte_slice(&heap, 0), Err(MarshalError::HeapInconsistency));
}

#[test]
fn view_outside_the_heap_is_out_of_bounds() {
    let heap = object(12, 0, 4, 4, &[1, 2, 3]);
    assert_eq!(get_byte_slice(&heap, 0), Err(MarshalError::OutOfBounds));
    let heap = object(400, 0, 0, 0, &[]);
    assert_eq!(get_byte_slice(&heap, 0), Err(MarshalError::OutOfBounds));
    assert_eq!(get_byte_slice(&heap, 9), Err(MarshalError::OutOfBounds));
    assert_eq!(get_byte_slice(&heap, u32::MAX), Err(MarshalError::OutOfBounds));
}
