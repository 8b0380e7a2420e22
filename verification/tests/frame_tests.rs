use wasmrs_wasmtime::frame::{encoded_frame_buffer, frame_buffer};

#[test]
fn frame_buffer_prefixes_length() {
    let buffer = frame_buffer(&[1, 2, 3, 4]);
    assert_eq!(buffer, vec![0, 0, 4, 1, 2, 3, 4]);
}

#[test]
fn frame_buffer_of_empty_frame() {
    assert_eq!(frame_buffer(&[]), vec![0, 0, 0]);
}

#[test]
fn frame_buffer_length_is_big_endian() {
    let frame = vec![7u8; 0x01_02_03];
    let buffer = frame_buffer(&frame);
    assert_eq!(&buffer[..3], &[0x01, 0x02, 0x03]);
    assert_eq!(&buffer[3..], &frame[..]);
}

#[test]
fn frame_buffer_reads_back_with_read_frame() {
    let frame: Vec<u8> = (0..=255u8).collect();
    let buffer = frame_buffer(&frame);
    let read = wasmrs::util::read_frame(&buffer[..]).unwrap();
    assert_eq!(&read[..], &frame[..]);
}

#[test]
fn frame_buffer_keeps_low_bits_of_long_lengths() {
    let frame = vec![0u8; 0x100_0001];
    let buffer = frame_buffer(&frame);
    assert_eq!(&buffer[..3], &[0, 0, 1]);
    assert_eq!(buffer.len(), frame.len() + 3);
}

#[test]
fn encoded_frame_buffer_prefixes_the_encoding() {
    let payload = wasmrs::RawPayload::new(bytes::Bytes::from_static(b"md"), bytes::Bytes::from_static(b"hello"));
    let frame = wasmrs::Frame::new_request_response(1, payload, 0);
    let encoded = frame.clone().encode();
    let buffer = encoded_frame_buffer(frame);
    assert_eq!(buffer.len(), encoded.len() + 3);
    assert_eq!(&buffer[3..], &encoded[..]);
    assert_eq!(buffer[2] as usize, encoded.len());
}
