//! Decisions of the eviction loop that keeps the local store under its threshold.
//!
//! Each tick the loop asks [`EvictionState::plan_tick`] whether to evict. A batch
//! is driven by an [`EvictionBatch`]: the caller asks [`EvictionBatch::next_action`]
//! what to do with which listed object, does it (GET and archive PUT, or local
//! DELETE) and reports the outcome. Outside fallback mode an object is deleted only
//! after its archive PUT succeeded; in fallback mode objects are deleted without
//! backup and counted.

use vstd::prelude::*;
use vstd::string::StrSliceExecFns;

verus! {

/// Byte limits of the store, and when to give up on the archive.
#[derive(Debug, Clone, Copy, PartialEq, Eq, Structural)]
pub struct EvictionLimits {
    pub threshold_bytes: u64,
    pub target_bytes: u64,
    pub fallback_threshold_bytes: u64,
    pub fallback_target_bytes: u64,
    pub fallback_after_failures: u32,
}

/// Limits from the configured byte counts. A fallback threshold of 0 means the
/// normal threshold; the fallback target lies as far below the fallback threshold
/// as the target lies below the threshold.
pub fn eviction_limits(
    threshold_bytes: u64,
    target_bytes: u64,
    fallback_threshold_bytes: u64,
    fallback_after_failures: u32,
) -> (r: EvictionLimits)
    ensures
        r.threshold_bytes == threshold_bytes,
        r.target_bytes == target_bytes,
        r.fallback_threshold_bytes == if fallback_threshold_bytes > 0 {
            fallback_threshold_bytes
        } else {
            threshold_bytes
        },
        r.fallback_target_bytes == sat_sub(
            r.fallback_threshold_bytes,
            sat_sub(threshold_bytes, target_bytes),
        ),
        r.fallback_after_failures == fallback_after_failures,
{
    let fb = if fallback_threshold_bytes > 0 {
        fallback_threshold_bytes
    } else {
        threshold_bytes
    };
    EvictionLimits {
        threshold_bytes,
        target_bytes,
        fallback_threshold_bytes: fb,
        fallback_target_bytes: fb.saturating_sub(threshold_bytes.saturating_sub(target_bytes)),
        fallback_after_failures,
    }
}

pub open spec fn sat_sub(a: u64, b: u64) -> u64 {
    if a >= b {
        (a - b) as u64
    } else {
        0
    }
}

pub open spec fn sat_add(a: u64, b: u64) -> u64 {
    if a as int + b as int > u64::MAX {
        u64::MAX
    } else {
        (a + b) as u64
    }
}

/// Error of a batch: an object could not be read from the store or archived.
#[derive(Debug, Clone, PartialEq, Eq)]
pub enum EvictionError {
    Download(String),
    Upload(String),
}

fn copy_error(e: &EvictionError) -> (r: EvictionError)
    ensures
        r == *e,
{
    match e {
        EvictionError::Download(m) => EvictionError::Download(m.clone()),
        EvictionError::Upload(m) => EvictionError::Upload(m.clone()),
    }
}

/// What a tick does.
#[derive(Debug, Clone, Copy, PartialEq, Eq, Structural)]
pub enum TickPlan {
    /// Under the active threshold: nothing to do.
    Idle,
    /// Archive and delete the oldest objects down to `target_bytes`.
    Evict { target_bytes: u64 },
    /// Delete the oldest objects, without backup, down to `target_bytes`.
    FallbackEvict { target_bytes: u64 },
}

/// What the loop does after a failed batch.
#[derive(Debug, Clone, Copy, PartialEq, Eq, Structural)]
pub enum FailureAction {
    Retry,
    /// Three failures in a row: pause before the next tick.
    Backoff,
    /// Too many failures: switch to delete-only fallback mode.
    EnterFallback,
}

/// Counters and mode of the eviction loop.
#[derive(Debug, Clone, Copy, PartialEq, Eq, Structural)]
pub struct EvictionState {
    pub consecutive_failures: u32,
    pub fallback_mode: bool,
    /// Bytes and objects that were in the store when the process started and are still there.
    pub baseline_bytes: u64,
    pub baseline_objects: u64,
    pub objects_deleted_without_backup: u64,
    pub upload_successes: u64,
    pub upload_failures: u64,
}

impl EvictionState {
    /// State at startup, from a scan of the store.
    pub fn new(baseline_bytes: u64, baseline_objects: u64) -> (r: Self)
        ensures
            r == (EvictionState {
                consecutive_failures: 0,
                fallback_mode: false,
                baseline_bytes,
                baseline_objects,
                objects_deleted_without_backup: 0,
                upload_successes: 0,
                upload_failures: 0,
            }),
    {
        EvictionState {
            consecutive_failures: 0,
            fallback_mode: false,
            baseline_bytes,
            baseline_objects,
            objects_deleted_without_backup: 0,
            upload_successes: 0,
            upload_failures: 0,
        }
    }

    /// Bytes in the store: the baseline plus this session's objects.
    pub fn total_bytes(&self, session_bytes: u64) -> (r: u64)
        ensures
            r == sat_add(self.baseline_bytes, session_bytes),
    {
        self.baseline_bytes.saturating_add(session_bytes)
    }

    /// The threshold in force: the fallback one in fallback mode.
    pub fn active_threshold(&self, limits: EvictionLimits) -> (r: u64)
        ensures
            r == if self.fallback_mode {
                limits.fallback_threshold_bytes
            } else {
                limits.threshold_bytes
            },
    {
        if self.fallback_mode {
            limits.fallback_threshold_bytes
        } else {
            limits.threshold_bytes
        }
    }

    /// Whether a tick evicts, and how: only when the total is over the threshold in force.
    pub fn plan_tick(&self, limits: EvictionLimits, session_bytes: u64) -> (r: TickPlan)
        ensures
            sat_add(self.baseline_bytes, session_bytes) <= (if self.fallback_mode {
                limits.fallback_threshold_bytes
            } else {
                limits.threshold_bytes
            }) ==> r == TickPlan::Idle,
            sat_add(self.baseline_bytes, session_bytes) > (if self.fallback_mode {
                limits.fallback_threshold_bytes
            } else {
                limits.threshold_bytes
            }) ==> r == if self.fallback_mode {
                TickPlan::FallbackEvict { target_bytes: limits.fallback_target_bytes }
            } else {
                TickPlan::Evict { target_bytes: limits.target_bytes }
            },
    {
        let total = self.total_bytes(session_bytes);
        if total > self.active_threshold(limits) {
            if self.fallback_mode {
                TickPlan::FallbackEvict { target_bytes: limits.fallback_target_bytes }
            } else {
                TickPlan::Evict { target_bytes: limits.target_bytes }
            }
        } else {
            TickPlan::Idle
        }
    }

    /// Takes over the baseline and loss counter that a batch ended with.
    pub fn absorb_batch(&mut self, batch: &EvictionBatch)
        ensures
            final(self).baseline_bytes == batch.baseline_bytes(),
            final(self).baseline_objects == batch.baseline_objects(),
            final(self).objects_deleted_without_backup == batch.lost(),
            final(self).consecutive_failures == old(self).consecutive_failures,
            final(self).fallback_mode == old(self).fallback_mode,
            final(self).upload_successes == old(self).upload_successes,
            final(self).upload_failures == old(self).upload_failures,
    {
        self.baseline_bytes = batch.baseline_bytes;
        self.baseline_objects = batch.baseline_objects;
        self.objects_deleted_without_backup = batch.lost;
    }

    /// A normal batch archived `count` objects: the failure streak ends.
    pub fn on_batch_ok(&mut self, count: u64)
        ensures
            *final(self) == (EvictionState {
                consecutive_failures: 0,
                upload_successes: sat_add(old(self).upload_successes, count),
                ..*old(self)
            }),
    {
        self.upload_successes = self.upload_successes.saturating_add(count);
        self.consecutive_failures = 0;
    }

    /// A normal batch failed: one more failure; fallback mode once the streak
    /// reaches `fallback_after_failures`, else a pause from three failures on.
    pub fn on_batch_failed(&mut self, limits: EvictionLimits) -> (r: FailureAction)
        ensures
            final(self).consecutive_failures == if old(self).consecutive_failures == u32::MAX {
                u32::MAX
            } else {
                (old(self).consecutive_failures + 1) as u32
            },
            final(self).upload_failures == sat_add(old(self).upload_failures, 1),
            final(self).baseline_bytes == old(self).baseline_bytes,
            final(self).baseline_objects == old(self).baseline_objects,
            final(self).objects_deleted_without_backup == old(self).objects_deleted_without_backup,
            final(self).upload_successes == old(self).upload_successes,
            final(self).consecutive_failures >= limits.fallback_after_failures ==> r
                == FailureAction::EnterFallback && final(self).fallback_mode,
            final(self).consecutive_failures < limits.fallback_after_failures ==> final(self).fallback_mode == old(self).fallback_mode,
            final(self).consecutive_failures < limits.fallback_after_failures ==> r == (if final(self).consecutive_failures >= 3 {
                FailureAction::Backoff
            } else {
                FailureAction::Retry
            }),
    {
        self.consecutive_failures = self.consecutive_failures.saturating_add(1);
        self.upload_failures = self.upload_failures.saturating_add(1);
        if self.consecutive_failures >= limits.fallback_after_failures {
            self.fallback_mode = true;
            FailureAction::EnterFallback
        } else if self.consecutive_failures >= 3 {
            FailureAction::Backoff
        } else {
            FailureAction::Retry
        }
    }

    /// Outcome of the periodic archive health check made in fallback mode: a
    /// success restores normal mode and clears the failure streak.
    pub fn on_health_check(&mut self, ok: bool)
        ensures
            ok ==> *final(self) == (EvictionState {
                fallback_mode: false,
                consecutive_failures: 0,
                ..*old(self)
            }),
            !ok ==> *final(self) == *old(self),
    {
        if ok {
            self.fallback_mode = false;
            self.consecutive_failures = 0;
        }
    }
}

/// One object listed for eviction.
#[derive(Debug, Clone)]
pub struct Candidate {
    pub key: String,
    pub size_bytes: u64,
    pub start_ms: i64,
    /// Whether the object was stored by this process (and so is counted in the
    /// session index rather than in the baseline).
    pub in_session: bool,
}

/// What the caller does next in a batch.
#[derive(Debug, Clone, Copy, PartialEq, Eq, Structural)]
pub enum EvictAction {
    /// GET candidate `index` from the store and PUT it to the archive.
    Archive { index: usize },
    /// DELETE candidate `index` from the store.
    Delete { index: usize },
    /// The batch is over.
    Done,
}

#[derive(Debug, Clone, Copy, PartialEq, Eq, Structural)]
pub enum Phase {
    /// Candidate `pos` has not been touched.
    Fresh,
    /// Candidate `pos` is safely in the archive.
    Archived,
    /// The batch is over.
    Finished,
}

/// One eviction batch over the oldest listed objects.
pub struct EvictionBatch {
    sizes: Vec<u64>,
    in_session: Vec<bool>,
    pos: usize,
    phase: Phase,
    fallback: bool,
    target_bytes: u64,
    baseline_bytes: u64,
    baseline_objects: u64,
    session_bytes: u64,
    evicted: u64,
    lost: u64,
    lost_at_start: u64,
    total_at_start: u64,
    baseline_at_start: u64,
    session_at_start: u64,
    shrunk: bool,
    failure: Option<EvictionError>,
}

impl EvictionBatch {
    pub closed spec fn pos(&self) -> nat {
        self.pos as nat
    }

    pub closed spec fn len(&self) -> nat {
        self.sizes@.len()
    }

    pub closed spec fn flags_len(&self) -> nat {
        self.in_session@.len()
    }

    pub closed spec fn size_at(&self, i: int) -> u64 {
        self.sizes@[i]
    }

    pub closed spec fn session_at(&self, i: int) -> bool {
        self.in_session@[i]
    }

    pub closed spec fn phase(&self) -> Phase {
        self.phase
    }

    pub closed spec fn is_fallback(&self) -> bool {
        self.fallback
    }

    pub closed spec fn target(&self) -> u64 {
        self.target_bytes
    }

    pub closed spec fn baseline_bytes(&self) -> u64 {
        self.baseline_bytes
    }

    pub closed spec fn baseline_objects(&self) -> u64 {
        self.baseline_objects
    }

    pub closed spec fn session_bytes(&self) -> u64 {
        self.session_bytes
    }

    pub closed spec fn evicted(&self) -> u64 {
        self.evicted
    }

    pub closed spec fn lost(&self) -> u64 {
        self.lost
    }

    pub closed spec fn lost_at_start(&self) -> u64 {
        self.lost_at_start
    }

    pub closed spec fn total_at_start(&self) -> u64 {
        self.total_at_start
    }

    pub closed spec fn baseline_at_start(&self) -> u64 {
        self.baseline_at_start
    }

    pub closed spec fn session_at_start(&self) -> u64 {
        self.session_at_start
    }

    /// Whether every listed object has a positive size.
    pub open spec fn all_positive(&self) -> bool {
        forall|i: int| 0 <= i < self.len() ==> self.size_at(i) > 0
    }

    /// Whether the accounts at the start held at least the listed objects' bytes:
    /// the baseline those not stored by this process, the session the others.
    pub open spec fn covered(&self) -> bool {
        pending_bytes(self, false, 0) <= self.baseline_at_start() && pending_bytes(self, true, 0)
            <= self.session_at_start()
    }

    /// Whether some eviction of this batch lowered the accounted bytes.
    pub closed spec fn shrunk(&self) -> bool {
        self.shrunk
    }

    pub closed spec fn failure(&self) -> Option<EvictionError> {
        self.failure
    }

    /// Bytes in the store as the batch accounts them.
    pub open spec fn total(&self) -> int {
        self.baseline_bytes() + self.session_bytes()
    }

    /// The batch's invariant.
    pub open spec fn wf(&self) -> bool {
        &&& self.pos() <= self.len()
        &&& self.flags_len() == self.len()
        &&& self.lost_at_start() + self.len() <= u64::MAX
        &&& self.pos() == self.len() ==> self.phase() == Phase::Finished
        &&& self.evicted() <= self.pos()
        &&& self.total() <= self.total_at_start()
        &&& self.shrunk() ==> self.total() < self.total_at_start()
        &&& self.total_at_start() == self.baseline_at_start() + self.session_at_start()
        &&& self.covered() ==> pending_bytes(self, false, self.pos() as int) <= self.baseline_bytes()
            && pending_bytes(self, true, self.pos() as int) <= self.session_bytes()
        &&& self.covered() && self.all_positive() && self.evicted() > 0 ==> self.shrunk()
        &&& self.is_fallback() ==> self.lost() == self.lost_at_start() + self.evicted()
        &&& !self.is_fallback() ==> self.lost() == self.lost_at_start()
        &&& self.failure() is Some ==> self.phase() == Phase::Finished && !self.is_fallback()
    }

    /// A batch over candidates with the given sizes and session flags, with the
    /// counters of the loop it belongs to.
    pub fn new(
        sizes: Vec<u64>,
        in_session: Vec<bool>,
        state: &EvictionState,
        session_bytes: u64,
        target_bytes: u64,
    ) -> (r: Self)
        requires
            sizes@.len() == in_session@.len(),
            state.baseline_bytes as int + session_bytes as int <= u64::MAX,
            state.objects_deleted_without_backup as int + sizes@.len() <= u64::MAX,
        ensures
            r.wf(),
            r.len() == sizes@.len(),
            forall|i: int| 0 <= i < sizes@.len() ==> r.size_at(i) == sizes@[i] && r.session_at(i)
                == in_session@[i],
            r.pos() == 0,
            r.phase() == if sizes@.len() == 0 {
                Phase::Finished
            } else {
                Phase::Fresh
            },
            r.is_fallback() == state.fallback_mode,
            r.target() == target_bytes,
            r.baseline_bytes() == state.baseline_bytes,
            r.baseline_objects() == state.baseline_objects,
            r.session_bytes() == session_bytes,
            r.evicted() == 0,
            r.lost() == state.objects_deleted_without_backup,
            r.lost_at_start() == state.objects_deleted_without_backup,
            r.total() == r.total_at_start(),
            r.baseline_at_start() == state.baseline_bytes,
            r.session_at_start() == session_bytes,
            !r.shrunk(),
            r.failure() is None,
    {
        let n = sizes.len();
        EvictionBatch {
            sizes,
            in_session,
            pos: 0,
            phase: if n == 0 {
                Phase::Finished
            } else {
                Phase::Fresh
            },
            fallback: state.fallback_mode,
            target_bytes,
            baseline_bytes: state.baseline_bytes,
            baseline_objects: state.baseline_objects,
            session_bytes,
            evicted: 0,
            lost: state.objects_deleted_without_backup,
            lost_at_start: state.objects_deleted_without_backup,
            total_at_start: state.baseline_bytes + session_bytes,
            baseline_at_start: state.baseline_bytes,
            session_at_start: session_bytes,
            shrunk: false,
            failure: None,
        }
    }

    /// The next thing to do. A DELETE is asked for only in fallback mode or once
    /// the object's archive PUT succeeded.
    pub fn next_action(&self) -> (r: EvictAction)
        requires
            self.wf(),
        ensures
            self.phase() == Phase::Finished <==> r == EvictAction::Done,
            r matches EvictAction::Delete { index } ==> index == self.pos() && (self.is_fallback()
                || self.phase() == Phase::Archived),
            r matches EvictAction::Archive { index } ==> index == self.pos() && !self.is_fallback()
                && self.phase() == Phase::Fresh,
            self.phase() == Phase::Archived ==> r == (EvictAction::Delete { index: self.pos() as usize }),
            self.phase() == Phase::Fresh ==> r == if self.is_fallback() {
                EvictAction::Delete { index: self.pos() as usize }
            } else {
                EvictAction::Archive { index: self.pos() as usize }
            },
    {
        match self.phase {
            Phase::Finished => EvictAction::Done,
            Phase::Archived => EvictAction::Delete { index: self.pos },
            Phase::Fresh => if self.fallback {
                EvictAction::Delete { index: self.pos }
            } else {
                EvictAction::Archive { index: self.pos }
            },
        }
    }

    /// Outcome of the GET and archive PUT of the current object. A failure ends
    /// the batch with that error and keeps the object.
    pub fn on_archived(&mut self, outcome: Result<(), EvictionError>)
        requires
            old(self).wf(),
            !old(self).is_fallback(),
            old(self).phase() == Phase::Fresh,
        ensures
            final(self).wf(),
            match outcome {
                Ok(()) => final(self).phase() == Phase::Archived && final(self).failure() is None,
                Err(e) => final(self).phase() == Phase::Finished && final(self).failure() == Some(
                    e,
                ),
            },
            final(self).pos() == old(self).pos(),
            final(self).total() == old(self).total(),
            final(self).evicted() == old(self).evicted(),
            final(self).lost() == old(self).lost(),
            final(self).is_fallback() == old(self).is_fallback(),
            final(self).total_at_start() == old(self).total_at_start(),
            final(self).lost_at_start() == old(self).lost_at_start(),
            final(self).shrunk() == old(self).shrunk(),
            final(self).baseline_at_start() == old(self).baseline_at_start(),
            final(self).session_at_start() == old(self).session_at_start(),
            final(self).baseline_bytes() == old(self).baseline_bytes(),
            final(self).baseline_objects() == old(self).baseline_objects(),
            final(self).session_bytes() == old(self).session_bytes(),
            final(self).len() == old(self).len(),
            forall|i: int| 0 <= i < old(self).len() ==> final(self).size_at(i) == old(self).size_at(i)
                && final(self).session_at(i) == old(self).session_at(i),
            final(self).target() == old(self).target(),
    {
        match outcome {
            Ok(()) => {
                self.phase = Phase::Archived;
            },
            Err(e) => {
                self.phase = Phase::Finished;
                self.failure = Some(e);
            },
        }
        proof {
            lemma_pending_same(&*old(self), &*self, false, 0);
            lemma_pending_same(&*old(self), &*self, true, 0);
            lemma_pending_same(&*old(self), &*self, false, self.pos as int);
            lemma_pending_same(&*old(self), &*self, true, self.pos as int);
            assert(self.covered() == old(self).covered());
            lemma_same_sizes_positive(&*old(self), &*self);
        }
    }

    /// Outcome of the local DELETE of the current object (archived first, outside
    /// fallback mode). An object whose DELETE succeeded leaves the accounts (the
    /// baseline, or the session when this process stored it) and counts as
    /// evicted, and in fallback mode as lost. An object whose DELETE failed is
    /// still in the store: it is skipped and the accounts stay as they were. The
    /// batch ends once the total is below the target or the list is done.
    pub fn on_deleted(&mut self, ok: bool)
        requires
            old(self).wf(),
            old(self).phase() == Phase::Archived || (old(self).phase() == Phase::Fresh && old(self).is_fallback()),
        ensures
            final(self).wf(),
            final(self).is_fallback() == old(self).is_fallback(),
            final(self).total_at_start() == old(self).total_at_start(),
            final(self).baseline_at_start() == old(self).baseline_at_start(),
            final(self).session_at_start() == old(self).session_at_start(),
            final(self).lost_at_start() == old(self).lost_at_start(),
            final(self).failure() is None,
            final(self).pos() == old(self).pos() + 1,
            final(self).shrunk() == (old(self).shrunk() || final(self).total() < old(self).total()),
            final(self).len() == old(self).len(),
            forall|i: int| 0 <= i < old(self).len() ==> final(self).size_at(i) == old(self).size_at(i)
                && final(self).session_at(i) == old(self).session_at(i),
            final(self).target() == old(self).target(),
            ({
                let size = old(self).size_at(old(self).pos() as int);
                let session = old(self).session_at(old(self).pos() as int);
                &&& final(self).evicted() == old(self).evicted() + if ok {
                    1int
                } else {
                    0int
                }
                &&& ok && !session ==> final(self).baseline_bytes() == sat_sub(old(self).baseline_bytes(), size)
                    && final(self).baseline_objects() == sat_sub(old(self).baseline_objects(), 1)
                    && final(self).session_bytes() == old(self).session_bytes()
                &&& ok && session ==> final(self).session_bytes() == sat_sub(old(self).session_bytes(), size)
                    && final(self).baseline_bytes() == old(self).baseline_bytes()
                    && final(self).baseline_objects() == old(self).baseline_objects()
                &&& !ok ==> final(self).baseline_bytes() == old(self).baseline_bytes()
                    && final(self).baseline_objects() == old(self).baseline_objects()
                    && final(self).session_bytes() == old(self).session_bytes()
                &&& final(self).phase() == if ok && final(self).total() < old(self).target() {
                    Phase::Finished
                } else if old(self).pos() + 1 == old(self).len() {
                    Phase::Finished
                } else {
                    Phase::Fresh
                }
            }),
    {
        let base0 = self.baseline_bytes;
        let sess0 = self.session_bytes;
        let i = self.pos;
        let n = self.sizes.len();
        assert(i < n);
        let size = self.sizes[i];
        if ok {
            if self.in_session[i] {
                self.session_bytes = self.session_bytes.saturating_sub(size);
            } else {
                self.baseline_bytes = self.baseline_bytes.saturating_sub(size);
                self.baseline_objects = self.baseline_objects.saturating_sub(1);
            }
            self.evicted = self.evicted + 1;
            if self.fallback {
                self.lost = self.lost + 1;
            }
        }
        self.pos = i + 1;
        self.shrunk = self.shrunk || self.baseline_bytes < base0 || self.session_bytes < sess0;
        let below = ok && (self.baseline_bytes as u128 + self.session_bytes as u128)
            < self.target_bytes as u128;
        if below || self.pos == self.sizes.len() {
            self.phase = Phase::Finished;
        } else {
            self.phase = Phase::Fresh;
        }
        proof {
            lemma_pending_same(&*old(self), &*self, false, 0);
            lemma_pending_same(&*old(self), &*self, true, 0);
            lemma_pending_same(&*old(self), &*self, false, i as int);
            lemma_pending_same(&*old(self), &*self, true, i as int);
            lemma_pending_same(&*old(self), &*self, false, i + 1);
            lemma_pending_same(&*old(self), &*self, true, i + 1);
            lemma_pending_nonneg(&*self, false, i + 1);
            lemma_pending_nonneg(&*self, true, i + 1);
            let o = &*old(self);
            assert(self.covered() == o.covered());
            lemma_same_sizes_positive(o, &*self);
            assert(pending_bytes(o, false, i as int) == (if !o.session_at(i as int) {
                size as int
            } else {
                0
            }) + pending_bytes(o, false, i + 1));
            assert(pending_bytes(o, true, i as int) == (if o.session_at(i as int) {
                size as int
            } else {
                0
            }) + pending_bytes(o, true, i + 1));
            if self.covered() && self.all_positive() && ok {
                assert(size > 0);
                assert(self.total() < o.total());
            }
        }
    }

    /// The batch's result once it is over: the number of objects evicted, or the
    /// error that stopped it.
    pub fn result(&self) -> (r: Result<u64, EvictionError>)
        requires
            self.wf(),
        ensures
            match self.failure() {
                Some(e) => r == Err::<u64, EvictionError>(e),
                None => r == Ok::<u64, EvictionError>(self.evicted()),
            },
            r matches Ok(n) && n >= 1 && self.all_positive() && self.covered() ==> self.total()
                < self.total_at_start(),
    {
        match &self.failure {
            Some(e) => Err(copy_error(e)),
            None => Ok(self.evicted),
        }
    }
}

/// Bytes of the objects from `from` on that are (`session`) or are not stored by
/// this process.
pub open spec fn pending_bytes(b: &EvictionBatch, session: bool, from: int) -> int
    decreases b.len() - from,
{
    if from < 0 || from >= b.len() {
        0
    } else {
        (if b.session_at(from) == session {
            b.size_at(from) as int
        } else {
            0
        }) + pending_bytes(b, session, from + 1)
    }
}

proof fn lemma_pending_same(a: &EvictionBatch, b: &EvictionBatch, session: bool, from: int)
    requires
        a.len() == b.len(),
        forall|i: int| 0 <= i < a.len() ==> a.size_at(i) == b.size_at(i) && a.session_at(i)
            == b.session_at(i),
    ensures
        pending_bytes(a, session, from) == pending_bytes(b, session, from),
    decreases a.len() - from,
{
    if 0 <= from < a.len() {
        lemma_pending_same(a, b, session, from + 1);
    }
}

proof fn lemma_same_sizes_positive(a: &EvictionBatch, b: &EvictionBatch)
    requires
        a.len() == b.len(),
        forall|i: int| 0 <= i < a.len() ==> a.size_at(i) == b.size_at(i),
    ensures
        a.all_positive() == b.all_positive(),
{
    if a.all_positive() {
        assert forall|i: int| 0 <= i < b.len() implies b.size_at(i) > 0 by {
            assert(a.size_at(i) > 0);
        }
    }
    if b.all_positive() {
        assert forall|i: int| 0 <= i < a.len() implies a.size_at(i) > 0 by {
            assert(b.size_at(i) > 0);
        }
    }
}

proof fn lemma_pending_nonneg(b: &EvictionBatch, session: bool, from: int)
    ensures
        pending_bytes(b, session, from) >= 0,
    decreases b.len() - from,
{
    if 0 <= from < b.len() {
        lemma_pending_nonneg(b, session, from + 1);
    }
}

/// A successful batch that evicted at least one object, all listed objects
/// having a positive size and the accounts at the start covering them, leaves
/// the store's total strictly below where it began.
pub proof fn lemma_successful_batch_shrinks(b: &EvictionBatch)
    requires
        b.wf(),
        b.failure() is None,
        b.evicted() >= 1,
        b.all_positive(),
        b.covered(),
    ensures
        b.total() < b.total_at_start(),
{
}

/// However a batch goes, the store's total as it accounts it never exceeds the
/// total when the batch began (each removal lowers it: see `on_deleted`).
pub proof fn lemma_batch_never_grows(b: &EvictionBatch)
    requires
        b.wf(),
    ensures
        b.total() <= b.total_at_start(),
{
}

/// A batch that evicted an object of positive size whose bytes were still
/// counted (in the baseline, or in the session once its deletion succeeded)
/// leaves the store's total strictly below where it began.
pub proof fn lemma_batch_shrinks(b: &EvictionBatch)
    requires
        b.wf(),
        b.shrunk(),
    ensures
        b.total() < b.total_at_start(),
{
}

/// In fallback mode the loss counter grows by exactly the number of objects deleted.
pub proof fn lemma_fallback_counts_losses(b: &EvictionBatch)
    requires
        b.wf(),
        b.is_fallback(),
    ensures
        b.lost() == b.lost_at_start() + b.evicted(),
{
}

/// Labels of the health report.
#[derive(Debug, Clone, Copy, PartialEq, Eq, Structural)]
pub enum EvictionStatus {
    Idle,
    Evicting,
    Fallback,
}

#[derive(Debug, Clone, Copy, PartialEq, Eq, Structural)]
pub enum ArchiveStatus {
    Healthy,
    Degraded,
    Unavailable,
}

#[derive(Debug, Clone, Copy, PartialEq, Eq, Structural)]
pub enum StoreStatus {
    Healthy,
    Pressure,
    Critical,
}

/// The eviction label: fallback, else evicting while over the threshold, else idle.
pub fn eviction_status(fallback_mode: bool, is_evicting: bool) -> (r: EvictionStatus)
    ensures
        r == if fallback_mode {
            EvictionStatus::Fallback
        } else if is_evicting {
            EvictionStatus::Evicting
        } else {
            EvictionStatus::Idle
        },
{
    if fallback_mode {
        EvictionStatus::Fallback
    } else if is_evicting {
        EvictionStatus::Evicting
    } else {
        EvictionStatus::Idle
    }
}

/// The archive label: unavailable in fallback mode, degraded from three failures on.
pub fn archive_status(fallback_mode: bool, consecutive_failures: u32) -> (r: ArchiveStatus)
    ensures
        r == if fallback_mode {
            ArchiveStatus::Unavailable
        } else if consecutive_failures >= 3 {
            ArchiveStatus::Degraded
        } else {
            ArchiveStatus::Healthy
        },
{
    if fallback_mode {
        ArchiveStatus::Unavailable
    } else if consecutive_failures >= 3 {
        ArchiveStatus::Degraded
    } else {
        ArchiveStatus::Healthy
    }
}

/// The store label by usage of the threshold: critical above 100%, under
/// pressure above 80%, else healthy (a zero threshold reads as 0% usage).
pub fn store_status(total_bytes: u64, threshold_bytes: u64) -> (r: StoreStatus)
    ensures
        r == if threshold_bytes == 0 {
            StoreStatus::Healthy
        } else if total_bytes > threshold_bytes {
            StoreStatus::Critical
        } else if 5 * (total_bytes as int) > 4 * (threshold_bytes as int) {
            StoreStatus::Pressure
        } else {
            StoreStatus::Healthy
        },
{
    if threshold_bytes == 0 {
        StoreStatus::Healthy
    } else if total_bytes > threshold_bytes {
        StoreStatus::Critical
    } else if 5 * (total_bytes as u128) > 4 * (threshold_bytes as u128) {
        StoreStatus::Pressure
    } else {
        StoreStatus::Healthy
    }
}

/// Content type of an archived object, from its key's extension.
pub fn content_type_for_key(key: &str) -> (r: &'static str)
    ensures
        r@ == if ends_with_mp4(key@) {
            "video/mp4"@
        } else {
            "image/jpeg"@
        },
{
    let n = key.unicode_len();
    if n >= 4 && key.get_char(n - 4) == '.' && key.get_char(n - 3) == 'm' && key.get_char(n - 2)
        == 'p' && key.get_char(n - 1) == '4' {
        "video/mp4"
    } else {
        "image/jpeg"
    }
}

pub open spec fn ends_with_mp4(k: Seq<char>) -> bool {
    k.len() >= 4 && k[k.len() - 4] == '.' && k[k.len() - 3] == 'm' && k[k.len() - 2] == 'p' && k[k.len()
        - 1] == '4'
}

} // verus!
