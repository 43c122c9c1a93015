use frame_bucket::frame::{FrameError, TimestampedFrame, V2_MARKER};

#[test]
fn roundtrip_jpeg_v1() {
    let frame = TimestampedFrame::new(vec![0xFF, 0xD8, 0xFF, 0xE0], 1708300000000, 42);
    let bytes = frame.serialize();
    let decoded = TimestampedFrame::deserialize(&bytes).unwrap();
    assert_eq!(decoded.captured_at_ms, 1708300000000);
    assert_eq!(decoded.seq, 42);
    assert_eq!(decoded.jpeg_data().unwrap(), &[0xFF, 0xD8, 0xFF, 0xE0]);
    assert!(decoded.h264_data().is_none());
}

#[test]
fn roundtrip_h264_v2() {
    let h264 = vec![0x00, 0x00, 0x00, 0x01, 0x65, 0xAA, 0xBB];
    let frame = TimestampedFrame::new_h264(h264.clone(), 5, 1708300000000, 99);
    let bytes = frame.serialize();
    assert_eq!(bytes[0], V2_MARKER);
    let decoded = TimestampedFrame::deserialize(&bytes).unwrap();
    assert_eq!(decoded.captured_at_ms, 1708300000000);
    assert_eq!(decoded.seq, 99);
    assert_eq!(decoded.h264_data().unwrap(), &h264);
    assert!(decoded.is_keyframe());
    assert!(decoded.jpeg_data().is_none());
}

#[test]
fn h264_p_frame_not_keyframe() {
    let frame = TimestampedFrame::new_h264(vec![0x00, 0x01], 1, 1000, 1);
    assert!(!frame.is_keyframe());
}

#[test]
fn deserialize_too_short() {
    let result = TimestampedFrame::deserialize(&[0; 10]);
    assert!(result.is_err());
}

#[test]
fn v1_wire_layout_is_big_endian() {
    let frame = TimestampedFrame::new(vec![9], 0x0102030405060708, 0x1112131415161718);
    assert_eq!(
        frame.serialize(),
        vec![1, 2, 3, 4, 5, 6, 7, 8, 0x11, 0x12, 0x13, 0x14, 0x15, 0x16, 0x17, 0x18, 9]
    );
}

#[test]
fn v2_wire_layout_carries_length() {
    let frame = TimestampedFrame::new_h264(vec![0xAA, 0xBB], 1, 1, 2);
    let bytes = frame.serialize();
    assert_eq!(bytes.len(), 24);
    assert_eq!(&bytes[0..2], &[0x02, 0x01]);
    assert_eq!(&bytes[18..22], &[0, 0, 0, 2]);
    assert_eq!(&bytes[22..], &[0xAA, 0xBB]);
}

#[test]
fn auto_detect_v2_marker_decodes_h264() {
    let mut bytes = vec![0x02, 0x05];
    bytes.extend_from_slice(&1000i64.to_be_bytes());
    bytes.extend_from_slice(&7u64.to_be_bytes());
    bytes.extend_from_slice(&3u32.to_be_bytes());
    bytes.extend_from_slice(&[0, 0, 1]);
    let f = TimestampedFrame::deserialize(&bytes).unwrap();
    assert!(f.is_keyframe());
    assert_eq!(f.h264_data().unwrap(), &[0, 0, 1]);
    assert_eq!(f.captured_at_ms, 1000);
    assert_eq!(f.seq, 7);
}

#[test]
fn auto_detect_zero_first_byte_decodes_jpeg() {
    let mut bytes = vec![0x00, 0x00];
    bytes.extend_from_slice(&[0, 0, 0x01, 0x8D, 0xB6, 0x00]);
    bytes.extend_from_slice(&5u64.to_be_bytes());
    bytes.extend_from_slice(&[0xFF, 0xD8]);
    let f = TimestampedFrame::deserialize(&bytes).unwrap();
    assert_eq!(f.jpeg_data().unwrap(), &[0xFF, 0xD8]);
    assert_eq!(f.seq, 5);
    assert!(f.h264_data().is_none());
}

#[test]
fn too_short_errors_name_sizes() {
    assert_eq!(
        TimestampedFrame::deserialize(&[]).unwrap_err(),
        FrameError::TooShort { got: 0, expected: 16 }
    );
    assert_eq!(
        TimestampedFrame::deserialize(&[2, 1, 0]).unwrap_err(),
        FrameError::TooShort { got: 3, expected: 22 }
    );
    let mut bytes = vec![2u8; 18];
    bytes.extend_from_slice(&[0, 0, 0, 10]);
    assert_eq!(
        TimestampedFrame::deserialize(&bytes).unwrap_err(),
        FrameError::TooShort { got: 22, expected: 32 }
    );
}

#[test]
fn payload_accessors() {
    let f = TimestampedFrame::new_h264(vec![1, 2, 3], 1, 0, 0);
    assert_eq!(f.payload_size(), 3);
    assert_eq!(f.payload_bytes(), &[1, 2, 3]);
    let j = TimestampedFrame::new(vec![4], 0, 0);
    assert_eq!(j.payload_size(), 1);
    assert_eq!(j.payload_bytes(), &[4]);
}

#[test]
fn object_key_jpeg() {
    let frame = TimestampedFrame::new(vec![], 1708300000000, 7);
    let key = frame.object_key("frames/");
    assert!(key.starts_with("frames/"));
    assert!(key.ends_with("_000007.jpg"));
}

#[test]
fn object_key_h264() {
    let frame = TimestampedFrame::new_h264(vec![], 5, 1708300000000, 7);
    let key = frame.object_key("frames/");
    assert!(key.ends_with("_000007.h264"));
}

#[test]
fn object_key_exact() {
    let frame = TimestampedFrame::new(vec![], 1708300000000, 1234567);
    assert_eq!(frame.object_key("f/"), "f/2024-02-18/20240218T234640000Z_1234567.jpg");
}
