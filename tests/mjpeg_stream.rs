use frame_bucket::mjpeg::MjpegParser;

fn sample_stream() -> Vec<u8> {
    let mut s = Vec::new();
    s.extend_from_slice(b"preamble junk --fr");
    s.extend_from_slice(b"--frame\r\nContent-Type: image/jpeg\r\n\r\n");
    s.extend_from_slice(&[0xFF, 0xD8, 1, 2, 3, 0xFF, 0xD9]);
    s.extend_from_slice(b"\r\n--frame\r\nContent-Type: image/jpeg\r\n\r\n");
    s.extend_from_slice(&[0xFF, 0xD8, 0x0D, 0x0A, 4, 0xFF, 0xD9]);
    s.extend_from_slice(b"\r\n--frame\r\n\r\n");
    s.extend_from_slice(b"\r\n--frame\r\nX: y\r\n\r\n");
    s.extend_from_slice(&[7, 7, 7]);
    s.extend_from_slice(b"--frame\r\n\r\n");
    s.extend_from_slice(&[8]);
    s
}

fn expected() -> Vec<Vec<u8>> {
    vec![
        vec![0xFF, 0xD8, 1, 2, 3, 0xFF, 0xD9],
        vec![0xFF, 0xD8, 0x0D, 0x0A, 4, 0xFF, 0xD9],
        vec![7, 7, 7],
    ]
}

fn feed(chunk_len: usize) -> Vec<Vec<u8>> {
    let mut p = MjpegParser::new();
    let mut out = Vec::new();
    for c in sample_stream().chunks(chunk_len) {
        out.extend(p.push(c));
    }
    out
}

#[test]
fn whole_stream_yields_frames_in_order() {
    assert_eq!(feed(10_000), expected());
}

#[test]
fn byte_at_a_time_yields_same_frames() {
    assert_eq!(feed(1), expected());
}

#[test]
fn every_chunk_size_yields_same_frames() {
    for n in 1..40 {
        assert_eq!(feed(n), expected(), "chunk size {}", n);
    }
}

#[test]
fn no_boundary_yields_nothing() {
    let mut p = MjpegParser::new();
    for _ in 0..1000 {
        assert!(p.push(b"no marker in here at all ").is_empty());
    }
}
