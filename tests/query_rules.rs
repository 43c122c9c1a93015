use frame_bucket::query::{
    bus_message_key, clip_members, manifest_key, media_url, safe_collection_name, segment_limit,
    unique_segment_ids, ClipError, ReconnectBackoff,
};

#[test]
fn limits_default_and_cap() {
    assert_eq!(segment_limit(None, 100), 100);
    assert_eq!(segment_limit(Some(5), 100), 5);
    assert_eq!(segment_limit(Some(5000), 100), 1000);
    assert_eq!(segment_limit(None, 500), 500);
}

#[test]
fn manifest_names() {
    assert_eq!(safe_collection_name("my clips/day 1"), "my_clips-day_1");
    assert_eq!(manifest_key("r1", "c 1/a", 10, -20), "r1/c_1-a/10_-20.json");
}

#[test]
fn urls_and_bus_keys() {
    assert_eq!(media_url("http://h:9000", "b", "k/x.mp4"), "http://h:9000/b/k/x.mp4");
    assert_eq!(bus_message_key("reachy-001", 1708300000000), "reachy-001:1708300000000");
    assert_eq!(bus_message_key("r", -5), "r:-5");
}

#[test]
fn clip_keeps_only_existing_segments() {
    assert_eq!(clip_members(&vec![10, 11], &vec![true, false]), Ok(vec![10]));
    assert_eq!(clip_members(&vec![], &vec![]), Err(ClipError::NoSegmentIds));
    assert_eq!(clip_members(&vec![3, 4], &vec![false, false]), Err(ClipError::NoValidSegments));
}

#[test]
fn download_counts_each_segment_once() {
    let ids = unique_segment_ids(&vec![vec![1, 2, 2], vec![], vec![3, 1]]);
    assert_eq!(ids, vec![1, 2, 3]);
    assert!(unique_segment_ids(&vec![]).is_empty());
}

#[test]
fn reconnect_backoff_doubles_and_resets() {
    let mut b = ReconnectBackoff::new();
    let waits: Vec<u64> = (0..6).map(|_| b.after_attempt(false)).collect();
    assert_eq!(waits, vec![2, 4, 8, 16, 30, 30]);
    assert_eq!(b.after_attempt(true), 2);
    assert_eq!(b.after_attempt(false), 4);
}

#[test]
fn h264_idle_marker() {
    assert_eq!(frame_bucket::query::idle_marker_key(1000, 1900), "idle:1000/1900");
}
