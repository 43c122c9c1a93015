use frame_bucket::eviction::{
    archive_status, content_type_for_key, eviction_limits, eviction_status, store_status,
    ArchiveStatus, EvictAction, EvictionBatch, EvictionError, EvictionState, EvictionStatus,
    FailureAction, StoreStatus, TickPlan,
};

const GIB: u64 = 1 << 30;

#[test]
fn eviction_crosses_threshold_scenario() {
    let limits = eviction_limits(1_000_000_000, 800_000_000, 0, 2);
    let state = EvictionState::new(0, 0);
    let session = 2048u64 * 512 * 1024;
    assert_eq!(session, GIB);
    assert_eq!(state.plan_tick(limits, session), TickPlan::Evict { target_bytes: 800_000_000 });
    let n = 600usize;
    let mut b = EvictionBatch::new(vec![512 * 1024; n], vec![true; n], &state, session, 800_000_000);
    let mut archived = 0;
    loop {
        match b.next_action() {
            EvictAction::Archive { .. } => {
                b.on_archived(Ok(()));
                archived += 1;
            }
            EvictAction::Delete { .. } => b.on_deleted(true),
            EvictAction::Done => break,
        }
    }
    assert_eq!(b.result(), Ok(523));
    assert_eq!(archived, 523);
}

#[test]
fn failed_upload_keeps_object_and_stops() {
    let state = EvictionState::new(100, 2);
    let mut b = EvictionBatch::new(vec![50, 50], vec![false, false], &state, 0, 10);
    assert_eq!(b.next_action(), EvictAction::Archive { index: 0 });
    b.on_archived(Err(EvictionError::Upload("down".to_string())));
    assert_eq!(b.next_action(), EvictAction::Done);
    assert_eq!(b.result(), Err(EvictionError::Upload("down".to_string())));
}

#[test]
fn fallback_counts_each_deletion() {
    let limits = eviction_limits(100, 80, 0, 2);
    let mut state = EvictionState::new(200, 4);
    assert_eq!(state.on_batch_failed(limits), FailureAction::Retry);
    assert_eq!(state.on_batch_failed(limits), FailureAction::EnterFallback);
    assert!(state.fallback_mode);
    assert_eq!(state.plan_tick(limits, 0), TickPlan::FallbackEvict { target_bytes: 80 });
    let mut b = EvictionBatch::new(vec![50, 50, 50, 50], vec![false; 4], &state, 0, 80);
    assert_eq!(b.next_action(), EvictAction::Delete { index: 0 });
    b.on_deleted(true);
    b.on_deleted(false);
    b.on_deleted(true);
    assert_eq!(b.next_action(), EvictAction::Delete { index: 3 });
    b.on_deleted(true);
    assert_eq!(b.next_action(), EvictAction::Done);
    state.absorb_batch(&b);
    assert_eq!(b.result(), Ok(3));
    assert_eq!(state.objects_deleted_without_backup, 3);
    assert_eq!(state.baseline_bytes, 50);
    state.on_health_check(true);
    assert!(!state.fallback_mode);
    assert_eq!(state.consecutive_failures, 0);
}

#[test]
fn backoff_after_three_failures() {
    let limits = eviction_limits(100, 80, 0, 10);
    let mut state = EvictionState::new(0, 0);
    assert_eq!(state.on_batch_failed(limits), FailureAction::Retry);
    assert_eq!(state.on_batch_failed(limits), FailureAction::Retry);
    assert_eq!(state.on_batch_failed(limits), FailureAction::Backoff);
    state.on_batch_ok(3);
    assert_eq!(state.consecutive_failures, 0);
    assert_eq!(state.upload_successes, 3);
    assert_eq!(state.upload_failures, 3);
}

#[test]
fn fallback_limits_follow_the_gap() {
    let l = eviction_limits(100, 80, 150, 3);
    assert_eq!(l.fallback_threshold_bytes, 150);
    assert_eq!(l.fallback_target_bytes, 130);
    let l2 = eviction_limits(100, 80, 0, 3);
    assert_eq!(l2.fallback_threshold_bytes, 100);
    assert_eq!(l2.fallback_target_bytes, 80);
}

#[test]
fn empty_batch_is_done_at_once() {
    let state = EvictionState::new(500, 1);
    let b = EvictionBatch::new(vec![], vec![], &state, 0, 10);
    assert_eq!(b.next_action(), EvictAction::Done);
    assert_eq!(b.result(), Ok(0));
}

#[test]
fn health_labels() {
    assert_eq!(eviction_status(true, true), EvictionStatus::Fallback);
    assert_eq!(eviction_status(false, true), EvictionStatus::Evicting);
    assert_eq!(eviction_status(false, false), EvictionStatus::Idle);
    assert_eq!(archive_status(false, 3), ArchiveStatus::Degraded);
    assert_eq!(archive_status(true, 0), ArchiveStatus::Unavailable);
    assert_eq!(archive_status(false, 2), ArchiveStatus::Healthy);
    assert_eq!(store_status(101, 100), StoreStatus::Critical);
    assert_eq!(store_status(81, 100), StoreStatus::Pressure);
    assert_eq!(store_status(80, 100), StoreStatus::Healthy);
}

#[test]
fn content_types() {
    assert_eq!(content_type_for_key("a/b.mp4"), "video/mp4");
    assert_eq!(content_type_for_key("a/b.jpg"), "image/jpeg");
}

#[test]
fn failed_local_delete_is_not_counted() {
    let state = EvictionState::new(0, 0);
    let mut b = EvictionBatch::new(vec![100], vec![true], &state, 100, 10);
    assert_eq!(b.next_action(), EvictAction::Archive { index: 0 });
    b.on_archived(Ok(()));
    assert_eq!(b.next_action(), EvictAction::Delete { index: 0 });
    b.on_deleted(false);
    assert_eq!(b.next_action(), EvictAction::Done);
    assert_eq!(b.result(), Ok(0));
}
