//! The node codec and navigator on raw buffers, including every failure.

use device_path::chain_byte_length;
use device_path::encode_node;
use device_path::next;
use device_path::read_header;
use device_path::walk;
use device_path::DevicePathError;
use device_path::tags::DeviceType;

#[test]
fn read_header_truncated() {
    let buf: Vec<u8> = vec![1, 1, 6];
    assert_eq!(read_header(&buf, 0), Err(DevicePathError::TruncatedHeader));
    let buf: Vec<u8> = vec![1, 1, 6, 0, 9, 9];
    assert_eq!(read_header(&buf, 3), Err(DevicePathError::TruncatedHeader));
    assert_eq!(read_header(&buf, usize::MAX), Err(DevicePathError::TruncatedHeader));
}

#[test]
fn read_header_invalid_length() {
    // A total length below the header's own 4 bytes is malformed.
    let buf: Vec<u8> = vec![1, 1, 3, 0];
    assert_eq!(read_header(&buf, 0), Err(DevicePathError::InvalidLength));
    let buf: Vec<u8> = vec![1, 1, 0, 0];
    assert_eq!(read_header(&buf, 0), Err(DevicePathError::InvalidLength));
}

#[test]
fn read_header_reads_little_endian_length() {
    let mut buf: Vec<u8> = Vec::new();
    let payload: Vec<u8> = vec![7; 300];
    encode_node(&mut buf, DeviceType::Messaging, 24, &payload).unwrap();
    // 4 + 300 = 304 = 0x0130, little-endian 0x30 then 0x01.
    assert_eq!(buf[2], 0x30);
    assert_eq!(buf[3], 0x01);
    let h = read_header(&buf, 0).unwrap();
    assert_eq!(h.length, 304);
    assert_eq!(h.len(), 304);
}

#[test]
fn encode_node_rejects_oversized_payload() {
    let mut buf: Vec<u8> = Vec::new();
    let payload: Vec<u8> = vec![0; 65532];
    assert_eq!(
        encode_node(&mut buf, DeviceType::Messaging, 24, &payload),
        Err(DevicePathError::PayloadTooLarge)
    );
    assert!(buf.is_empty());
    // One byte less fits the 16-bit budget.
    let payload: Vec<u8> = vec![0; 65531];
    assert_eq!(encode_node(&mut buf, DeviceType::Messaging, 24, &payload), Ok(()));
    assert_eq!(buf.len(), 65535);
}

#[test]
fn next_stops_at_end_entire() {
    let buf: Vec<u8> = vec![0x7f, 0xff, 4, 0];
    assert_eq!(next(&buf, 0), Ok(None));
}

#[test]
fn next_continues_past_instance_separator() {
    let buf: Vec<u8> = vec![0x7f, 0x01, 4, 0, 0x7f, 0xff, 4, 0];
    assert_eq!(next(&buf, 0), Ok(Some(4)));
    assert_eq!(next(&buf, 4), Ok(None));
}

#[test]
fn end_with_unknown_subtype_ends_traversal() {
    // An End node whose sub-type is neither EndInstance nor EndEntire ends
    // traversal like the terminator does.
    let buf: Vec<u8> = vec![0x7f, 0x33, 4, 0, 1, 1, 6, 0, 0, 0];
    assert_eq!(next(&buf, 0), Ok(None));
    assert_eq!(walk(&buf, 0), Ok(vec![0]));
}

#[test]
fn traversal_skips_unknown_major_types() {
    // A node with major type 0x30 is outside the taxonomy, but its length
    // prefix still says where the next node starts.
    let buf: Vec<u8> = vec![0x30, 0x07, 7, 0, 9, 9, 9, 0x7f, 0xff, 4, 0];
    assert_eq!(next(&buf, 0), Ok(Some(7)));
    assert_eq!(walk(&buf, 0), Ok(vec![0, 7]));
    assert_eq!(chain_byte_length(&buf, 0), Ok(11));
}

#[test]
fn walk_reports_truncation_mid_chain() {
    // The second node declares 12 bytes but only 6 remain.
    let buf: Vec<u8> = vec![1, 1, 6, 0, 0, 3, 2, 1, 12, 0, 0, 0];
    assert_eq!(walk(&buf, 0), Err(DevicePathError::TruncatedHeader));
    assert_eq!(chain_byte_length(&buf, 0), Err(DevicePathError::TruncatedHeader));
}

#[test]
fn walk_reports_invalid_length_mid_chain() {
    let buf: Vec<u8> = vec![1, 1, 6, 0, 0, 3, 2, 1, 2, 0, 0, 0];
    assert_eq!(walk(&buf, 0), Err(DevicePathError::InvalidLength));
    assert_eq!(chain_byte_length(&buf, 0), Err(DevicePathError::InvalidLength));
}

#[test]
fn walk_from_nonzero_offset() {
    // Traversal is restartable from any node offset.
    let buf: Vec<u8> = vec![1, 1, 6, 0, 0, 3, 0x7f, 0xff, 4, 0];
    assert_eq!(walk(&buf, 0), Ok(vec![0, 6]));
    assert_eq!(walk(&buf, 6), Ok(vec![6]));
    assert_eq!(chain_byte_length(&buf, 0), Ok(10));
    assert_eq!(chain_byte_length(&buf, 6), Ok(4));
}

#[test]
fn walk_on_empty_buffer_fails() {
    let buf: Vec<u8> = Vec::new();
    assert_eq!(walk(&buf, 0), Err(DevicePathError::TruncatedHeader));
}
