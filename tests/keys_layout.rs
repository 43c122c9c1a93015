use frame_bucket::keys::{active_segment_key, idle_jpeg_key, parse_start_ms_from_key};

#[test]
fn test_key_format() {
    let start = 1739871000000i64;
    let end = start + 60_000;

    let k = idle_jpeg_key("frames/", "reachy-001", start, end);
    assert!(k.ends_with(".jpg"), "idle jpeg key should end with .jpg");
    assert!(k.contains("reachy-001/camera/"), "should have robot/camera path");

    let k2 = active_segment_key("frames/", "reachy-001", start, end);
    assert!(k2.ends_with(".mp4"), "active key should end with .mp4");

    let date_part = &k[..k.rfind('/').unwrap()];
    let date_part2 = &k2[..k2.rfind('/').unwrap()];
    assert_eq!(date_part, date_part2, "idle and active share the same date dir");
}

#[test]
fn key_exact_text() {
    let k = idle_jpeg_key("frames/", "reachy-001", 1739871000000, 1739871060123);
    assert_eq!(
        k,
        "frames/reachy-001/camera/2025-02-18/20250218T093000000Z_20250218T093100123Z.jpg"
    );
}

#[test]
fn start_ms_read_back_from_key() {
    for start in [0i64, 1739871000000, 1739871060123, 4102444800999] {
        let k = active_segment_key("p/", "r/x_y", start, start + 5);
        assert_eq!(parse_start_ms_from_key(&k), Some(start));
    }
}

#[test]
fn unparsable_keys() {
    assert_eq!(parse_start_ms_from_key("a/b/short_x.jpg"), None);
    assert_eq!(parse_start_ms_from_key("a/b/2025021XT093000000Z_y.jpg"), None);
}

#[test]
fn keys_sort_by_start() {
    let a = active_segment_key("p/", "r", 1739871000000, 1739871001000);
    let b = idle_jpeg_key("p/", "r", 1739871000001, 1739871000002);
    assert!(a < b);
}
