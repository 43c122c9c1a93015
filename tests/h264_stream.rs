use frame_bucket::h264::{detect_nal_type, payload_offset, PesAssembler, TsSync};

#[test]
fn detect_idr_nal() {
    let data = [0x00, 0x00, 0x00, 0x01, 0x65, 0xAA, 0xBB];
    assert_eq!(detect_nal_type(&data), 5);
}

#[test]
fn detect_non_idr_nal() {
    let data = [0x00, 0x00, 0x01, 0x41, 0xCC];
    assert_eq!(detect_nal_type(&data), 1);
}

#[test]
fn detect_sps_then_idr() {
    let data = [
        0x00, 0x00, 0x00, 0x01, 0x67, 0x42, 0x00, 0x00, 0x00, 0x01, 0x65, 0xAA,
    ];
    assert_eq!(detect_nal_type(&data), 5);
}

#[test]
fn detect_empty_data() {
    assert_eq!(detect_nal_type(&[]), 0);
}

#[test]
fn detect_short_start_code_and_fallback() {
    assert_eq!(detect_nal_type(&[0x00, 0x00, 0x01, 0x41]), 1);
    assert_eq!(detect_nal_type(&[0x00, 0x00, 0x01, 0x67, 0x00, 0x00, 0x01, 0x68]), 7);
}

#[test]
fn detect_leading_type_zero_is_kept() {
    assert_eq!(detect_nal_type(&[0x00, 0x00, 0x01, 0x00, 0x00, 0x00, 0x01, 0x07]), 0);
}

#[test]
fn payload_offset_with_and_without_adaptation() {
    let mut p = [0u8; 188];
    p[4] = 7;
    assert_eq!(payload_offset(&p, 0x01), 4);
    assert_eq!(payload_offset(&p, 0x03), 12);
    assert_eq!(payload_offset(&p, 0x02), 12);
}

fn ts_packet(pid: u16, pusi: bool, payload: &[u8]) -> Vec<u8> {
    let mut p = vec![0x47, ((pid >> 8) as u8 & 0x1F) | if pusi { 0x40 } else { 0 }, pid as u8, 0x10];
    p.extend_from_slice(payload);
    p.resize(188, 0xFF);
    p
}

fn pes_start(es: &[u8]) -> Vec<u8> {
    let mut v = vec![0x00, 0x00, 0x01, 0xE0, 0x00, 0x00, 0x80, 0x00, 0x00];
    v.extend_from_slice(es);
    v
}

#[test]
fn assembler_emits_previous_unit_on_next_pes() {
    let mut a = PesAssembler::new();
    assert!(a.push_ts_packet(&ts_packet(0, true, &[1, 2, 3])).is_none());
    assert!(a.push_ts_packet(&ts_packet(0x100, true, &pes_start(&[0, 0, 0, 1, 0x65]))).is_none());
    assert!(a.push_ts_packet(&ts_packet(0x100, false, &[0xAB])).is_none());
    let au = a.push_ts_packet(&ts_packet(0x100, true, &pes_start(&[0, 0, 1, 0x41]))).unwrap();
    assert_eq!(&au[..5], &[0, 0, 0, 1, 0x65]);
    assert_eq!(au.len(), (184 - 9) + 184);
    assert_eq!(detect_nal_type(&au), 5);
}

#[test]
fn assembler_ignores_other_pids_and_bad_sync() {
    let mut a = PesAssembler::new();
    assert!(a.push_ts_packet(&ts_packet(0x100, true, &pes_start(&[0, 0, 1, 0x41]))).is_none());
    assert!(a.push_ts_packet(&ts_packet(0x200, true, &pes_start(&[0, 0, 1, 0x65]))).is_none());
    let mut bad = ts_packet(0x100, true, &pes_start(&[0, 0, 1, 0x65]));
    bad[0] = 0x00;
    assert!(a.push_ts_packet(&bad).is_none());
    let au = a.push_ts_packet(&ts_packet(0x100, true, &pes_start(&[0, 0, 1, 0x41]))).unwrap();
    assert_eq!(&au[..4], &[0, 0, 1, 0x41]);
}

#[test]
fn ts_sync_realigns_and_handles_chunks() {
    let mut stream = vec![0x00, 0x11, 0x47, 0x22];
    for pid in [0x100u16, 0x101, 0x102] {
        stream.extend(ts_packet(pid, false, &[pid as u8]));
    }
    let mut s = TsSync::new();
    let packets = s.push(&stream);
    assert_eq!(packets.len(), 3);
    assert_eq!(packets[0][2], 0x00);
    assert_eq!(packets[0][4], 0x00);
    assert_eq!(packets[2][4], 0x02);
    let aligned = stream[4..].to_vec();
    for chunk_len in [1usize, 7, 100, 188, 1000] {
        let mut s = TsSync::new();
        let mut packets = Vec::new();
        for c in aligned.chunks(chunk_len) {
            packets.extend(s.push(c));
        }
        assert_eq!(packets.len(), 3, "chunk length {}", chunk_len);
        assert_eq!(packets[1][4], 0x01);
    }
}
