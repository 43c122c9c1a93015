//! The scene state machine: idle and active periods of one robot's stream.
//!
//! The machine decides; its caller acts. For each frame the caller passes the
//! frame's timestamp, a monotonic clock reading, the payload and the detector's
//! verdict (an aHash for JPEG; the frame-size detector's `active` and `quiet`
//! for H.264), and gets back a [`Step`] saying what to do with the encoder, the
//! local store and the index. If the encoder cannot be started or fed, the
//! caller reports it with [`RecordingStateMachine::on_encoder_failed`].

use vstd::prelude::*;

use crate::phash::{hamming, hamming_distance};

verus! {

/// What the detector says of one frame.
#[derive(Debug, Clone)]
pub enum Scene {
    /// A JPEG frame with its aHash.
    Jpeg { hash: Vec<bool> },
    /// An H.264 frame: `active` is the size detector's motion verdict, `quiet`
    /// whether the frame is small enough to count towards settling.
    H264 { active: bool, quiet: bool },
}

/// One frame as the machine sees it.
#[derive(Debug, Clone)]
pub struct Observation {
    pub captured_at_ms: i64,
    /// Reading of a monotonic clock, in milliseconds.
    pub now_ms: u64,
    pub payload: Vec<u8>,
    pub scene: Scene,
}

/// Settings of the machine.
#[derive(Debug, Clone, Copy, PartialEq, Eq, Structural)]
pub struct SceneParams {
    /// Largest Hamming distance at which two aHashes count as the same scene.
    pub phash_threshold: u32,
    /// Consecutive quiet frames that end an active period.
    pub active_to_idle_consecutive_frames: u32,
    /// Length of one active segment on the monotonic clock.
    pub segment_duration_ms: u64,
}

/// An idle period to be recorded.
#[derive(Debug, Clone)]
pub struct IdleRecord {
    pub start_ms: i64,
    pub end_ms: i64,
    /// The period's first frame (a JPEG to store, or H.264 bytes that are not stored).
    pub payload: Vec<u8>,
    pub is_h264: bool,
}

/// What the caller does with a frame.
#[derive(Debug, Clone)]
pub enum Step {
    /// First frame: it opens an idle period.
    Started,
    /// The scene is unchanged: the idle period now ends at this frame.
    StillIdle,
    /// The scene changed: record `idle`, then start an encoder and push this frame.
    BeginActive { idle: IdleRecord },
    /// The segment reached its deadline: finish it over `[start_ms, end_ms]`,
    /// then start a new encoder and push this frame.
    Roll { start_ms: i64, end_ms: i64 },
    /// Push this frame to the encoder.
    Continue,
    /// Push this frame, then finish the segment over `[start_ms, end_ms]`;
    /// the frame opens a new idle period.
    Settle { start_ms: i64, end_ms: i64 },
}

/// The machine's mode.
#[derive(Debug)]
pub enum RecordingState {
    Idle {
        initial_payload: Vec<u8>,
        is_h264: bool,
        initial_hash: Option<Vec<bool>>,
        idle_start_ms: i64,
        last_similar_ms: i64,
    },
    Active {
        is_h264: bool,
        segment_deadline_ms: u64,
        segment_start_ms: i64,
        last_frame_hash: Option<Vec<bool>>,
        consecutive_idle_count: u32,
    },
}

pub enum SceneView {
    Jpeg(Seq<bool>),
    H264 { active: bool, quiet: bool },
}

pub struct ObsView {
    pub ts: i64,
    pub now: u64,
    pub payload: Seq<u8>,
    pub scene: SceneView,
}

pub enum ModeView {
    Idle { payload: Seq<u8>, is_h264: bool, hash: Option<Seq<bool>>, start: i64, last: i64 },
    Active { is_h264: bool, deadline: u64, start: i64, last_hash: Option<Seq<bool>>, count: u32 },
}

pub enum StepView {
    Started,
    StillIdle,
    BeginActive { start: i64, end: i64, payload: Seq<u8>, is_h264: bool },
    Roll { start: i64, end: i64 },
    Continue,
    Settle { start: i64, end: i64 },
}

pub open spec fn opt_hash(h: Option<Vec<bool>>) -> Option<Seq<bool>> {
    match h {
        Some(v) => Some(v@),
        None => None,
    }
}

impl View for Scene {
    type V = SceneView;

    open spec fn view(&self) -> SceneView {
        match self {
            Scene::Jpeg { hash } => SceneView::Jpeg(hash@),
            Scene::H264 { active, quiet } => SceneView::H264 { active: *active, quiet: *quiet },
        }
    }
}

impl View for Observation {
    type V = ObsView;

    open spec fn view(&self) -> ObsView {
        ObsView {
            ts: self.captured_at_ms,
            now: self.now_ms,
            payload: self.payload@,
            scene: self.scene@,
        }
    }
}

impl View for RecordingState {
    type V = ModeView;

    open spec fn view(&self) -> ModeView {
        match self {
            RecordingState::Idle {
                initial_payload,
                is_h264,
                initial_hash,
                idle_start_ms,
                last_similar_ms,
            } => ModeView::Idle {
                payload: initial_payload@,
                is_h264: *is_h264,
                hash: opt_hash(*initial_hash),
                start: *idle_start_ms,
                last: *last_similar_ms,
            },
            RecordingState::Active {
                is_h264,
                segment_deadline_ms,
                segment_start_ms,
                last_frame_hash,
                consecutive_idle_count,
            } => ModeView::Active {
                is_h264: *is_h264,
                deadline: *segment_deadline_ms,
                start: *segment_start_ms,
                last_hash: opt_hash(*last_frame_hash),
                count: *consecutive_idle_count,
            },
        }
    }
}

impl View for Step {
    type V = StepView;

    open spec fn view(&self) -> StepView {
        match self {
            Step::Started => StepView::Started,
            Step::StillIdle => StepView::StillIdle,
            Step::BeginActive { idle } => StepView::BeginActive {
                start: idle.start_ms,
                end: idle.end_ms,
                payload: idle.payload@,
                is_h264: idle.is_h264,
            },
            Step::Roll { start_ms, end_ms } => StepView::Roll { start: *start_ms, end: *end_ms },
            Step::Continue => StepView::Continue,
            Step::Settle { start_ms, end_ms } => StepView::Settle { start: *start_ms, end: *end_ms },
        }
    }
}

pub open spec fn opt_mode(s: Option<RecordingState>) -> Option<ModeView> {
    match s {
        Some(m) => Some(m@),
        None => None,
    }
}

/// The scene descriptor a frame leaves behind (JPEG frames only).
pub open spec fn scene_hash(sc: SceneView) -> Option<Seq<bool>> {
    match sc {
        SceneView::Jpeg(h) => Some(h),
        SceneView::H264 { .. } => None,
    }
}

pub open spec fn is_h264_scene(sc: SceneView) -> bool {
    sc is H264
}

/// Whether a frame shows the same scene as the reference hash (JPEG), or the
/// size detector sees no motion (H.264).
pub open spec fn same_scene(p: SceneParams, reference: Option<Seq<bool>>, sc: SceneView) -> bool {
    match sc {
        SceneView::Jpeg(h) => match reference {
            Some(r) => hamming_distance(r, h) as u32 <= p.phash_threshold,
            None => false,
        },
        SceneView::H264 { active, .. } => !active,
    }
}

/// Whether a frame counts towards settling an active period.
pub open spec fn quiet_frame(p: SceneParams, previous: Option<Seq<bool>>, sc: SceneView) -> bool {
    match sc {
        SceneView::Jpeg(h) => match previous {
            Some(r) => hamming_distance(r, h) as u32 <= p.phash_threshold,
            None => false,
        },
        SceneView::H264 { quiet, .. } => quiet,
    }
}

/// An idle period opened by frame `o`.
pub open spec fn baseline(o: ObsView) -> ModeView {
    ModeView::Idle {
        payload: o.payload,
        is_h264: is_h264_scene(o.scene),
        hash: scene_hash(o.scene),
        start: o.ts,
        last: o.ts,
    }
}

pub open spec fn deadline_after(now: u64, d: u64) -> u64 {
    if now as int + d as int > u64::MAX {
        u64::MAX
    } else {
        (now + d) as u64
    }
}

/// A segment opened by frame `o`.
pub open spec fn fresh_active(p: SceneParams, o: ObsView) -> ModeView {
    ModeView::Active {
        is_h264: is_h264_scene(o.scene),
        deadline: deadline_after(o.now, p.segment_duration_ms),
        start: o.ts,
        last_hash: scene_hash(o.scene),
        count: 0,
    }
}

/// One transition: the next mode and what the caller does.
pub open spec fn scene_step(p: SceneParams, s: Option<ModeView>, o: ObsView) -> (
    Option<ModeView>,
    StepView,
) {
    match s {
        None => (Some(baseline(o)), StepView::Started),
        Some(ModeView::Idle { payload, is_h264, hash, start, last }) => {
            if same_scene(p, hash, o.scene) {
                (
                    Some(ModeView::Idle { payload, is_h264, hash, start, last: o.ts }),
                    StepView::StillIdle,
                )
            } else {
                (
                    Some(fresh_active(p, o)),
                    StepView::BeginActive { start, end: last, payload, is_h264 },
                )
            }
        },
        Some(ModeView::Active { is_h264, deadline, start, last_hash, count }) => {
            if o.now >= deadline {
                (Some(fresh_active(p, o)), StepView::Roll { start, end: o.ts })
            } else if quiet_frame(p, last_hash, o.scene) {
                if count as int + 1 >= p.active_to_idle_consecutive_frames {
                    (Some(baseline(o)), StepView::Settle { start, end: o.ts })
                } else {
                    (
                        Some(
                            ModeView::Active {
                                is_h264,
                                deadline,
                                start,
                                last_hash: scene_hash(o.scene),
                                count: (count + 1) as u32,
                            },
                        ),
                        StepView::Continue,
                    )
                }
            } else {
                (
                    Some(
                        ModeView::Active {
                            is_h264,
                            deadline,
                            start,
                            last_hash: scene_hash(o.scene),
                            count: 0,
                        },
                    ),
                    StepView::Continue,
                )
            }
        },
    }
}

/// The mode after frames `obs` and the steps taken, in order.
pub open spec fn scene_run(p: SceneParams, s: Option<ModeView>, obs: Seq<ObsView>) -> (
    Option<ModeView>,
    Seq<StepView>,
)
    decreases obs.len(),
{
    if obs.len() == 0 {
        (s, Seq::empty())
    } else {
        let (s1, steps) = scene_run(p, s, obs.drop_last());
        let (s2, st) = scene_step(p, s1, obs.last());
        (s2, steps.push(st))
    }
}

/// Frames that all show the same scene as an idle period's reference keep the
/// machine idle: the period's start, payload and reference are unchanged, it
/// now ends at the last frame, and every step is `StillIdle`.
pub proof fn lemma_similar_frames_stay_idle(
    p: SceneParams,
    payload: Seq<u8>,
    is_h264: bool,
    hash: Option<Seq<bool>>,
    start: i64,
    last: i64,
    obs: Seq<ObsView>,
)
    requires
        obs.len() > 0,
        forall|i: int| 0 <= i < obs.len() ==> same_scene(p, hash, #[trigger] obs[i].scene),
    ensures
        scene_run(p, Some(ModeView::Idle { payload, is_h264, hash, start, last }), obs) == (
        Some(ModeView::Idle { payload, is_h264, hash, start, last: obs.last().ts }),
        Seq::new(obs.len(), |i: int| StepView::StillIdle)),
    decreases obs.len(),
{
    let s0 = Some(ModeView::Idle { payload, is_h264, hash, start, last });
    assert(same_scene(p, hash, obs[obs.len() - 1].scene));
    if obs.len() == 1 {
        assert(obs.drop_last() =~= Seq::<ObsView>::empty());
        assert(scene_run(p, s0, obs.drop_last()) == (s0, Seq::<StepView>::empty()));
        assert(Seq::<StepView>::empty().push(StepView::StillIdle) =~= Seq::new(
            1,
            |i: int| StepView::StillIdle,
        ));
    } else {
        let pre = obs.drop_last();
        assert forall|i: int| 0 <= i < pre.len() implies same_scene(p, hash, #[trigger] pre[i].scene) by {
            assert(pre[i] == obs[i]);
        }
        lemma_similar_frames_stay_idle(p, payload, is_h264, hash, start, last, pre);
        assert(same_scene(p, hash, obs[obs.len() - 1].scene));
        assert(Seq::new(pre.len(), |i: int| StepView::StillIdle).push(StepView::StillIdle) =~= Seq::new(
            obs.len(),
            |i: int| StepView::StillIdle,
        ));
    }
}

/// From no state, `k` frames of one scene followed by a frame of another give
/// exactly one idle period, `[ts_0, ts_{k-1}]`, recorded at the last frame, and
/// the machine turns active on that frame.
pub proof fn lemma_change_after_idle_run(p: SceneParams, obs: Seq<ObsView>, k: int)
    requires
        1 <= k,
        obs.len() == k + 1,
        forall|i: int|
            1 <= i < k ==> same_scene(p, scene_hash(obs[0].scene), #[trigger] obs[i].scene),
        !same_scene(p, scene_hash(obs[0].scene), obs[k].scene),
    ensures
        ({
            let (s, steps) = scene_run(p, None, obs);
            &&& s == Some(fresh_active(p, obs[k]))
            &&& steps.len() == k + 1
            &&& steps[0] == StepView::Started
            &&& forall|i: int| 1 <= i < k ==> steps[i] == StepView::StillIdle
            &&& steps[k] == (StepView::BeginActive {
                start: obs[0].ts,
                end: obs[k - 1].ts,
                payload: obs[0].payload,
                is_h264: is_h264_scene(obs[0].scene),
            })
        }),
{
    let o0 = obs[0];
    let first = seq![o0];
    assert(first.drop_last() =~= Seq::<ObsView>::empty());
    let s1 = scene_run(p, None, first);
    assert(scene_run(p, None, first.drop_last()) == (None::<ModeView>, Seq::<StepView>::empty()));
    assert(first.last() == o0);
    assert(Seq::<StepView>::empty().push(StepView::Started) =~= seq![StepView::Started]);
    assert(s1 == (Some(baseline(o0)), seq![StepView::Started]));
    let mid = obs.subrange(1, k);
    if k > 1 {
        assert forall|i: int| 0 <= i < mid.len() implies same_scene(
            p,
            scene_hash(o0.scene),
            #[trigger] mid[i].scene,
        ) by {
            assert(mid[i] == obs[i + 1]);
        }
        lemma_similar_frames_stay_idle(
            p,
            o0.payload,
            is_h264_scene(o0.scene),
            scene_hash(o0.scene),
            o0.ts,
            o0.ts,
            mid,
        );
    }
    lemma_run_split(p, None, first, mid);
    assert(first + mid =~= obs.subrange(0, k));
    let before = obs.subrange(0, k);
    assert(obs.drop_last() =~= before);
    let (sk, steps_k) = scene_run(p, None, before);
    if k > 1 {
        assert(sk == Some(
            ModeView::Idle {
                payload: o0.payload,
                is_h264: is_h264_scene(o0.scene),
                hash: scene_hash(o0.scene),
                start: o0.ts,
                last: mid.last().ts,
            },
        ));
        assert(mid.last() == obs[k - 1]);
    } else {
        assert(before =~= first);
    }
    assert(obs.last() == obs[k]);
}

/// Running `a` then `b` is running `a + b`.
pub proof fn lemma_run_split(p: SceneParams, s: Option<ModeView>, a: Seq<ObsView>, b: Seq<ObsView>)
    ensures
        scene_run(p, s, a + b) == ({
            let (s1, st1) = scene_run(p, s, a);
            let (s2, st2) = scene_run(p, s1, b);
            (s2, st1 + st2)
        }),
    decreases b.len(),
{
    if b.len() == 0 {
        assert(a + b =~= a);
        assert(scene_run(p, s, a).1 + Seq::<StepView>::empty() =~= scene_run(p, s, a).1);
    } else {
        assert((a + b).drop_last() =~= a + b.drop_last());
        assert((a + b).last() == b.last());
        lemma_run_split(p, s, a, b.drop_last());
        let (s1, st1) = scene_run(p, s, a);
        let (t1, u1) = scene_run(p, s1, b.drop_last());
        let (t2, u2) = scene_step(p, t1, b.last());
        assert(st1 + u1.push(u2) =~= (st1 + u1).push(u2));
    }
}

/// An active segment that meets `active_to_idle_consecutive_frames` quiet frames
/// in a row, before its deadline, ends exactly once, at the last of them, and the
/// machine turns idle with that frame as its reference.
pub proof fn lemma_quiet_run_settles(
    p: SceneParams,
    is_h264: bool,
    deadline: u64,
    start: i64,
    last_hash: Option<Seq<bool>>,
    obs: Seq<ObsView>,
)
    requires
        p.active_to_idle_consecutive_frames >= 1,
        obs.len() == p.active_to_idle_consecutive_frames,
        forall|i: int| 0 <= i < obs.len() ==> (#[trigger] obs[i]).now < deadline,
        quiet_frame(p, last_hash, obs[0].scene),
        forall|i: int|
            1 <= i < obs.len() ==> quiet_frame(p, scene_hash(obs[i - 1].scene), #[trigger] obs[i].scene),
    ensures
        ({
            let (s, steps) = scene_run(
                p,
                Some(ModeView::Active { is_h264, deadline, start, last_hash, count: 0 }),
                obs,
            );
            &&& s == Some(baseline(obs.last()))
            &&& steps.len() == obs.len()
            &&& forall|i: int| 0 <= i < obs.len() - 1 ==> steps[i] == StepView::Continue
            &&& steps[obs.len() - 1] == (StepView::Settle { start, end: obs.last().ts })
        }),
{
    let s0 = Some(ModeView::Active { is_h264, deadline, start, last_hash, count: 0 });
    let n = obs.len() as int;
    lemma_quiet_prefix(p, is_h264, deadline, start, last_hash, obs, n - 1);
    assert(obs.subrange(0, n - 1) =~= obs.drop_last());
}

proof fn lemma_quiet_prefix(
    p: SceneParams,
    is_h264: bool,
    deadline: u64,
    start: i64,
    last_hash: Option<Seq<bool>>,
    obs: Seq<ObsView>,
    j: int,
)
    requires
        0 <= j < obs.len(),
        obs.len() == p.active_to_idle_consecutive_frames,
        forall|i: int| 0 <= i < obs.len() ==> (#[trigger] obs[i]).now < deadline,
        quiet_frame(p, last_hash, obs[0].scene),
        forall|i: int|
            1 <= i < obs.len() ==> quiet_frame(p, scene_hash(obs[i - 1].scene), #[trigger] obs[i].scene),
    ensures
        ({
            let (s, steps) = scene_run(
                p,
                Some(ModeView::Active { is_h264, deadline, start, last_hash, count: 0 }),
                obs.subrange(0, j),
            );
            &&& s == Some(
                ModeView::Active {
                    is_h264,
                    deadline,
                    start,
                    last_hash: if j == 0 {
                        last_hash
                    } else {
                        scene_hash(obs[j - 1].scene)
                    },
                    count: j as u32,
                },
            )
            &&& steps =~= Seq::new(j as nat, |i: int| StepView::Continue)
        }),
    decreases j,
{
    if j > 0 {
        lemma_quiet_prefix(p, is_h264, deadline, start, last_hash, obs, j - 1);
        assert(obs.subrange(0, j).drop_last() =~= obs.subrange(0, j - 1));
        assert(obs.subrange(0, j).last() == obs[j - 1]);
        assert(obs[j - 1].now < deadline);
        if j - 1 >= 1 {
            assert(quiet_frame(p, scene_hash(obs[j - 2].scene), obs[j - 1].scene));
        }
    } else {
        assert(obs.subrange(0, 0) =~= Seq::<ObsView>::empty());
    }
}

/// At the deadline the current segment ends at this frame and a new one starts
/// with it, in the same step.
pub proof fn lemma_deadline_rolls(p: SceneParams, m: ModeView, o: ObsView)
    requires
        m matches ModeView::Active { deadline, .. } && o.now >= deadline,
    ensures
        scene_step(p, Some(m), o) == (Some(fresh_active(p, o)), StepView::Roll {
            start: m->Active_start,
            end: o.ts,
        }),
{
}

/// The scene state machine of one robot.
pub struct RecordingStateMachine {
    state: Option<RecordingState>,
    params: SceneParams,
}

fn clone_hash(h: &Vec<bool>) -> (r: Vec<bool>)
    ensures
        r@ == h@,
{
    let mut out: Vec<bool> = Vec::new();
    let mut i: usize = 0;
    while i < h.len()
        invariant
            i <= h@.len(),
            out@ == h@.subrange(0, i as int),
        decreases h@.len() - i,
    {
        out.push(h[i]);
        i = i + 1;
        assert(h@.subrange(0, i as int) =~= h@.subrange(0, i - 1).push(h@[i - 1]));
    }
    assert(h@.subrange(0, h@.len() as int) =~= h@);
    out
}

fn hash_of(sc: &Scene) -> (r: Option<Vec<bool>>)
    ensures
        opt_hash(r) == scene_hash(sc@),
{
    match sc {
        Scene::Jpeg { hash } => Some(clone_hash(hash)),
        Scene::H264 { .. } => None,
    }
}

fn is_h264(sc: &Scene) -> (r: bool)
    ensures
        r == is_h264_scene(sc@),
{
    match sc {
        Scene::Jpeg { .. } => false,
        Scene::H264 { .. } => true,
    }
}

fn same_as(p: SceneParams, reference: &Option<Vec<bool>>, sc: &Scene) -> (r: bool)
    ensures
        r == same_scene(p, opt_hash(*reference), sc@),
{
    match sc {
        Scene::Jpeg { hash } => match reference {
            Some(h) => hamming(h.as_slice(), hash.as_slice()) <= p.phash_threshold,
            None => false,
        },
        Scene::H264 { active, .. } => !*active,
    }
}

fn quiet(p: SceneParams, previous: &Option<Vec<bool>>, sc: &Scene) -> (r: bool)
    ensures
        r == quiet_frame(p, opt_hash(*previous), sc@),
{
    match sc {
        Scene::Jpeg { hash } => match previous {
            Some(h) => hamming(h.as_slice(), hash.as_slice()) <= p.phash_threshold,
            None => false,
        },
        Scene::H264 { quiet, .. } => *quiet,
    }
}

fn baseline_of(o: Observation) -> (r: RecordingState)
    ensures
        r@ == baseline(o@),
{
    let h = hash_of(&o.scene);
    let v = is_h264(&o.scene);
    RecordingState::Idle {
        initial_payload: o.payload,
        is_h264: v,
        initial_hash: h,
        idle_start_ms: o.captured_at_ms,
        last_similar_ms: o.captured_at_ms,
    }
}

fn active_of(p: SceneParams, o: &Observation) -> (r: RecordingState)
    ensures
        r@ == fresh_active(p, o@),
{
    RecordingState::Active {
        is_h264: is_h264(&o.scene),
        segment_deadline_ms: o.now_ms.saturating_add(p.segment_duration_ms),
        segment_start_ms: o.captured_at_ms,
        last_frame_hash: hash_of(&o.scene),
        consecutive_idle_count: 0,
    }
}

impl RecordingStateMachine {
    pub closed spec fn params(&self) -> SceneParams {
        self.params
    }

    pub closed spec fn mode(&self) -> Option<ModeView> {
        opt_mode(self.state)
    }

    /// A machine that has seen no frame.
    pub fn new(params: SceneParams) -> (r: Self)
        ensures
            r.params() == params,
            r.mode() is None,
    {
        RecordingStateMachine { state: None, params }
    }

    /// Processes one frame.
    pub fn process_frame(&mut self, o: Observation) -> (r: Step)
        ensures
            final(self).params() == old(self).params(),
            (final(self).mode(), r@) == scene_step(old(self).params(), old(self).mode(), o@),
    {
        let p = self.params;
        let mut cur: Option<RecordingState> = None;
        std::mem::swap(&mut cur, &mut self.state);
        match cur {
            None => {
                self.state = Some(baseline_of(o));
                Step::Started
            },
            Some(
                RecordingState::Idle {
                    initial_payload,
                    is_h264,
                    initial_hash,
                    idle_start_ms,
                    last_similar_ms,
                },
            ) => {
                if same_as(p, &initial_hash, &o.scene) {
                    self.state = Some(
                        RecordingState::Idle {
                            initial_payload,
                            is_h264,
                            initial_hash,
                            idle_start_ms,
                            last_similar_ms: o.captured_at_ms,
                        },
                    );
                    Step::StillIdle
                } else {
                    self.state = Some(active_of(p, &o));
                    Step::BeginActive {
                        idle: IdleRecord {
                            start_ms: idle_start_ms,
                            end_ms: last_similar_ms,
                            payload: initial_payload,
                            is_h264,
                        },
                    }
                }
            },
            Some(
                RecordingState::Active {
                    is_h264,
                    segment_deadline_ms,
                    segment_start_ms,
                    last_frame_hash,
                    consecutive_idle_count,
                },
            ) => {
                if o.now_ms >= segment_deadline_ms {
                    self.state = Some(active_of(p, &o));
                    Step::Roll { start_ms: segment_start_ms, end_ms: o.captured_at_ms }
                } else if quiet(p, &last_frame_hash, &o.scene) {
                    if consecutive_idle_count as u64 + 1 >= p.active_to_idle_consecutive_frames as u64 {
                        let end_ms = o.captured_at_ms;
                        self.state = Some(baseline_of(o));
                        Step::Settle { start_ms: segment_start_ms, end_ms }
                    } else {
                        self.state = Some(
                            RecordingState::Active {
                                is_h264,
                                segment_deadline_ms,
                                segment_start_ms,
                                last_frame_hash: hash_of(&o.scene),
                                consecutive_idle_count: consecutive_idle_count + 1,
                            },
                        );
                        Step::Continue
                    }
                } else {
                    self.state = Some(
                        RecordingState::Active {
                            is_h264,
                            segment_deadline_ms,
                            segment_start_ms,
                            last_frame_hash: hash_of(&o.scene),
                            consecutive_idle_count: 0,
                        },
                    );
                    Step::Continue
                }
            },
        }
    }

    /// The encoder could not be started or fed with frame `o`: the machine turns
    /// idle with `o` as the reference of a new idle period.
    pub fn on_encoder_failed(&mut self, o: Observation)
        ensures
            final(self).params() == old(self).params(),
            final(self).mode() == Some(baseline(o@)),
    {
        self.state = Some(baseline_of(o));
    }

    /// Whether the machine is in an active period.
    pub fn is_active(&self) -> (r: bool)
        ensures
            r == (self.mode() matches Some(ModeView::Active { .. })),
    {
        match &self.state {
            Some(RecordingState::Active { .. }) => true,
            _ => false,
        }
    }
}

} // verus!
