use wasmrs_wasmtime::guest_memory::{region_bounds, write_bytes_to_memory, write_frame, write_frame_bytes};

#[test]
fn write_copies_at_start() {
    let mut memory = vec![9u8; 10];
    let res = write_bytes_to_memory(&mut memory, &[1, 2, 3], 4, 5);
    assert_eq!(res, 3);
    assert_eq!(memory, vec![9, 9, 9, 9, 1, 2, 3, 9, 9, 9]);
}

#[test]
fn write_keeps_to_receive_buffer() {
    let mut memory = vec![0u8; 10];
    let res = write_bytes_to_memory(&mut memory, &[1, 2, 3], 0, 2);
    assert_eq!(res, 2);
    assert_eq!(memory, vec![1, 2, 0, 0, 0, 0, 0, 0, 0, 0]);
}

#[test]
fn write_keeps_to_memory() {
    let mut memory = vec![0u8; 10];
    let res = write_bytes_to_memory(&mut memory, &[1, 2, 3], 8, 100);
    assert_eq!(res, 2);
    assert_eq!(memory, vec![0, 0, 0, 0, 0, 0, 0, 0, 1, 2]);
}

#[test]
fn write_past_memory_writes_nothing() {
    let mut memory = vec![0u8; 4];
    assert_eq!(write_bytes_to_memory(&mut memory, &[1, 2], 9, 100), 0);
    assert_eq!(memory, vec![0u8; 4]);
}

#[test]
fn write_reaching_end_of_memory() {
    let mut memory = vec![0u8; 5];
    assert_eq!(write_bytes_to_memory(&mut memory, &[4, 5], 3, 2), 2);
    assert_eq!(memory, vec![0, 0, 0, 4, 5]);
}

#[test]
fn write_frame_bytes_writes_prefixed_frame() {
    let mut memory = vec![0u8; 16];
    let res = write_frame_bytes(&mut memory, &[0xaa, 0xbb], 2, 8);
    assert_eq!(res, 5);
    assert_eq!(&memory[..8], &[0, 0, 0, 0, 2, 0xaa, 0xbb, 0]);
}

#[test]
fn write_frame_bytes_counts_the_prefix_against_the_buffer() {
    let mut memory = vec![0u8; 16];
    let res = write_frame_bytes(&mut memory, &[1, 2, 3], 0, 5);
    assert_eq!(res, 5);
    assert_eq!(&memory[..6], &[0, 0, 3, 1, 2, 0]);
}

#[test]
fn write_frame_bytes_into_empty_receive_buffer() {
    let mut memory = vec![7u8; 4];
    assert_eq!(write_frame_bytes(&mut memory, &[1], 0, 0), 0);
    assert_eq!(memory, vec![7u8; 4]);
}

#[test]
fn write_frame_encodes_and_writes() {
    let payload = wasmrs::RawPayload::new(bytes::Bytes::from_static(b"m"), bytes::Bytes::from_static(b"data"));
    let frame = wasmrs::Frame::new_payload(3, payload, 0);
    let encoded = frame.clone().encode();
    let mut memory = vec![0u8; 256];
    let res = write_frame(&mut memory, frame, 10, 200);
    assert_eq!(res, encoded.len() as i32 + 3);
    assert_eq!(memory[12] as usize, encoded.len());
    assert_eq!(&memory[13..13 + encoded.len()], &encoded[..]);
}

#[test]
fn region_bounds_cases() {
    assert_eq!(region_bounds(10, 2, 3), Some((2, 5)));
    assert_eq!(region_bounds(10, 8, 2), Some((8, 10)));
    assert_eq!(region_bounds(10, 8, 3), None);
    assert_eq!(region_bounds(10, 11, 0), None);
    assert_eq!(region_bounds(0, 0, 0), Some((0, 0)));
}
