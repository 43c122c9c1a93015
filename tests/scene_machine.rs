use frame_bucket::scene::{Observation, RecordingStateMachine, Scene, SceneParams, Step};

fn params() -> SceneParams {
    SceneParams {
        phash_threshold: 26,
        active_to_idle_consecutive_frames: 5,
        segment_duration_ms: 60_000,
    }
}

fn grey_hash() -> Vec<bool> {
    vec![false; 256]
}

fn busy_hash(i: usize) -> Vec<bool> {
    (0..256).map(|k| (k + i) % 2 == 0).collect()
}

fn jpeg(ts: i64, now: u64, hash: Vec<bool>) -> Observation {
    Observation { captured_at_ms: ts, now_ms: now, payload: vec![ts as u8], scene: Scene::Jpeg { hash } }
}

fn h264(ts: i64, now: u64, active: bool, quiet: bool) -> Observation {
    Observation { captured_at_ms: ts, now_ms: now, payload: vec![1], scene: Scene::H264 { active, quiet } }
}

#[test]
fn identical_frames_stay_idle() {
    let mut m = RecordingStateMachine::new(params());
    assert!(matches!(m.process_frame(jpeg(1000, 0, grey_hash())), Step::Started));
    for i in 1..10 {
        assert!(matches!(m.process_frame(jpeg(1000 + 100 * i, 0, grey_hash())), Step::StillIdle));
    }
    assert!(!m.is_active());
}

#[test]
fn jpeg_idle_active_idle_scenario() {
    let mut m = RecordingStateMachine::new(params());
    let mut steps = Vec::new();
    for i in 0..10 {
        steps.push(m.process_frame(jpeg(1000 + 100 * i, i as u64, grey_hash())));
    }
    for i in 0..10 {
        steps.push(m.process_frame(jpeg(2000 + 100 * i, 100 + i as u64, busy_hash(i as usize))));
    }
    for i in 0..5 {
        steps.push(m.process_frame(jpeg(3000 + 100 * i, 200 + i as u64, grey_hash())));
    }
    let idle: Vec<_> = steps
        .iter()
        .filter_map(|s| match s {
            Step::BeginActive { idle } => Some((idle.start_ms, idle.end_ms, idle.is_h264)),
            _ => None,
        })
        .collect();
    assert_eq!(idle, vec![(1000, 1900, false)]);
    let settled: Vec<_> = steps
        .iter()
        .filter_map(|s| match s {
            Step::Settle { start_ms, end_ms } => Some((*start_ms, *end_ms)),
            _ => None,
        })
        .collect();
    assert!(settled.is_empty());
    assert!(m.is_active());
    match m.process_frame(jpeg(3500, 300, grey_hash())) {
        Step::Settle { start_ms, end_ms } => assert_eq!((start_ms, end_ms), (2000, 3500)),
        _ => panic!("expected the segment to settle"),
    }
    assert!(!m.is_active());
    assert!(matches!(m.process_frame(jpeg(3600, 301, grey_hash())), Step::StillIdle));
}

#[test]
fn dissimilar_frame_resets_quiet_count() {
    let mut m = RecordingStateMachine::new(params());
    m.process_frame(h264(0, 0, false, false));
    assert!(matches!(m.process_frame(h264(1, 1, true, false)), Step::BeginActive { .. }));
    for t in 2..6 {
        assert!(matches!(m.process_frame(h264(t, t as u64, false, true)), Step::Continue));
    }
    assert!(matches!(m.process_frame(h264(6, 6, true, false)), Step::Continue));
    for t in 7..11 {
        assert!(matches!(m.process_frame(h264(t, t as u64, false, true)), Step::Continue));
    }
    match m.process_frame(h264(11, 11, false, true)) {
        Step::Settle { start_ms, end_ms } => assert_eq!((start_ms, end_ms), (1, 11)),
        _ => panic!("expected the segment to settle"),
    }
}

#[test]
fn deadline_rolls_segment() {
    let mut m = RecordingStateMachine::new(params());
    m.process_frame(h264(0, 0, false, false));
    m.process_frame(h264(10, 1_000, true, false));
    assert!(matches!(m.process_frame(h264(20, 60_999, true, false)), Step::Continue));
    match m.process_frame(h264(30, 61_000, true, false)) {
        Step::Roll { start_ms, end_ms } => assert_eq!((start_ms, end_ms), (10, 30)),
        _ => panic!("expected a roll"),
    }
    assert!(m.is_active());
    match m.process_frame(h264(40, 121_000, true, false)) {
        Step::Roll { start_ms, end_ms } => assert_eq!((start_ms, end_ms), (30, 40)),
        _ => panic!("expected a second roll"),
    }
}

#[test]
fn encoder_failure_returns_to_idle() {
    let mut m = RecordingStateMachine::new(params());
    m.process_frame(h264(0, 0, false, false));
    m.process_frame(h264(5, 5, true, false));
    assert!(m.is_active());
    m.on_encoder_failed(h264(5, 5, true, false));
    assert!(!m.is_active());
    assert!(matches!(m.process_frame(h264(6, 6, false, true)), Step::StillIdle));
}
