//! A run of a finished pipeline, as a state machine: each step takes the caller's report
//! of the last action and answers with the next action. Stages run in order, each one
//! through its own phases; a stage that completes updates the context and the next one
//! begins in the same step.

use vstd::prelude::*;
use crate::pipeline::context::Context;
use crate::pipeline::stage::{event_fits, Action, ActionView, Event, EventView, FrameSource, Outcome, Phase, StageKind, StepResult};
use crate::pipeline::stages::ensure_raw::LoadRawData;
use crate::pipeline::stages::expand_dataset::ExpandDataset;
use crate::pipeline::stages::filters::{begin_filter, filter_begin, filter_next, filter_selects, next_filter};
use crate::pipeline::stages::load_from_postgres::LoadFromPostgres;
use crate::pipeline::stages::load_from_s3::LoadFromS3;
use crate::pipeline::stages::persist_postgres::PersistPostgres;
use crate::pipeline::stages::persist_s3::PersistS3;

verus! {

/// The state of a run.
pub struct RunView<Frame> {
    pub stages: Seq<StageKind>,
    /// The stage running, or the number of stages once all completed.
    pub index: int,
    pub phase: Phase,
    /// The frame the current stage is working on.
    pub working: Option<Frame>,
    /// True once the run finished or stopped.
    pub over: bool,
}

/// Phases in which the stage holds the frame it is working on.
pub open spec fn holds_frame(phase: Phase) -> bool {
    phase == Phase::RawCsvWrite || phase == Phase::RawPreview || phase == Phase::RawParquetWrite
        || phase == Phase::Expand || phase == Phase::LargeCsvWrite || phase == Phase::LargeParquetWrite
        || phase == Phase::LargePreview || phase == Phase::FilterPreview
}

impl<Frame> RunView<Frame> {
    pub open spec fn wf(self) -> bool {
        &&& 0 <= self.index <= self.stages.len()
        &&& !self.over ==> self.index < self.stages.len()
        &&& !self.over && holds_frame(self.phase) ==> self.working is Some
    }

    /// The run can take `e` now.
    pub open spec fn ready(self, e: EventView<Frame>) -> bool {
        self.wf() && !self.over && event_fits(self.phase, e)
    }
}

/// How stage `kind` begins.
pub open spec fn stage_begin<Frame, Pool, Client>(kind: StageKind, ctx: Context<Frame, Pool, Client>) -> Outcome<Frame, Pool, Client> {
    match kind {
        StageKind::LoadRawData => LoadRawData::spec_begin(ctx),
        StageKind::ExpandDataset => ExpandDataset::spec_begin(ctx),
        StageKind::PersistPostgres => PersistPostgres::spec_begin(ctx),
        StageKind::PersistS3 => PersistS3::spec_begin(ctx),
        StageKind::LoadFromPostgres => LoadFromPostgres::spec_begin(ctx),
        StageKind::LoadFromS3 => LoadFromS3::spec_begin(ctx),
        StageKind::SimpleFilter => filter_begin(true, ctx),
        StageKind::ComplexFilter => filter_begin(false, ctx),
    }
}

/// How stage `kind` takes an event in `phase`.
pub open spec fn stage_next<Frame, Pool, Client>(
    kind: StageKind,
    phase: Phase,
    working: Option<Frame>,
    ctx: Context<Frame, Pool, Client>,
    e: EventView<Frame>,
) -> Outcome<Frame, Pool, Client> {
    match kind {
        StageKind::LoadRawData => LoadRawData::spec_next(phase, working, ctx, e),
        StageKind::ExpandDataset => ExpandDataset::spec_next(phase, working, ctx, e),
        StageKind::PersistPostgres => PersistPostgres::spec_next(phase, working, ctx, e),
        StageKind::PersistS3 => PersistS3::spec_next(phase, working, ctx, e),
        StageKind::LoadFromPostgres => LoadFromPostgres::spec_next(phase, working, ctx, e),
        StageKind::LoadFromS3 => LoadFromS3::spec_next(phase, working, ctx, e),
        StageKind::SimpleFilter => filter_next(true, phase, working, ctx, e),
        StageKind::ComplexFilter => filter_next(false, phase, working, ctx, e),
    }
}

/// The state after beginning the stage at `v.index`.
pub open spec fn begin_at<Frame, Pool, Client>(v: RunView<Frame>, ctx: Context<Frame, Pool, Client>) -> (RunView<Frame>, Context<Frame, Pool, Client>, ActionView) {
    match stage_begin(v.stages[v.index], ctx) {
        Outcome::Continue(ph, w, a) => (RunView { phase: ph, working: w, ..v }, ctx, a),
        Outcome::Stop(a) => (RunView { over: true, ..v }, ctx, a),
        Outcome::Complete(c) => (RunView { over: true, ..v }, c, ActionView::Fail(None)),
    }
}

/// The state after the stage at `v.index` completed with context `c`: the next stage
/// begins, or the run finishes after the last one.
pub open spec fn advance<Frame, Pool, Client>(v: RunView<Frame>, c: Context<Frame, Pool, Client>) -> (RunView<Frame>, Context<Frame, Pool, Client>, ActionView) {
    let w = RunView { index: v.index + 1, phase: Phase::Start, working: None, ..v };
    if w.index >= v.stages.len() {
        (RunView { over: true, ..w }, c, ActionView::Finished)
    } else {
        begin_at(w, c)
    }
}

/// One step of a run: the next state, context and action after event `e`.
pub open spec fn run_next<Frame, Pool, Client>(
    v: RunView<Frame>,
    ctx: Context<Frame, Pool, Client>,
    e: EventView<Frame>,
) -> (RunView<Frame>, Context<Frame, Pool, Client>, ActionView) {
    if v.phase == Phase::Start {
        begin_at(v, ctx)
    } else {
        match stage_next(v.stages[v.index], v.phase, v.working, ctx, e) {
            Outcome::Continue(ph, w, a) => (RunView { phase: ph, working: w, ..v }, ctx, a),
            Outcome::Stop(a) => (RunView { over: true, working: None, ..v }, ctx, a),
            Outcome::Complete(c) => advance(v, c),
        }
    }
}

/// The frame that an action names is at hand: the stage's working frame, or the raw
/// or expanded frame of the context.
pub open spec fn frame_available<Frame, Pool, Client>(a: ActionView, v: RunView<Frame>, ctx: Context<Frame, Pool, Client>) -> bool {
    match a.frame_source() {
        Some(FrameSource::Working) => v.working is Some,
        Some(FrameSource::Raw) => ctx.raw_frame is Some,
        Some(FrameSource::Expanded) => ctx.expanded_frame is Some,
        None => true,
    }
}

/// A run of a finished pipeline.
pub struct PipelineRun<Frame> {
    stages: Vec<StageKind>,
    index: usize,
    phase: Phase,
    working: Option<Frame>,
    over: bool,
}

impl<Frame> PipelineRun<Frame> {
    pub closed spec fn view(&self) -> RunView<Frame> {
        RunView {
            stages: self.stages@,
            index: self.index as int,
            phase: self.phase,
            working: self.working,
            over: self.over,
        }
    }

    pub(crate) fn new(stages: Vec<StageKind>) -> (r: Self)
        ensures
            r@ == run_start::<Frame>(stages@),
            r@.stages == stages@,
            r@.index == 0,
            r@.phase == Phase::Start,
            r@.working is None,
            r@.over == (stages@.len() == 0),
            r@.wf(),
    {
        let over = stages.len() == 0;
        PipelineRun { stages, index: 0, phase: Phase::Start, working: None, over }
    }

    /// Whether the run can take `e` now: it is not over and `e` is what the current
    /// phase waits for.
    pub fn accepts(&self, e: &Event<Frame>) -> (r: bool)
        ensures
            r == self@.ready(e.view()),
    {
        if self.index > self.stages.len() || (!self.over && self.index >= self.stages.len()) {
            return false;
        }
        if !self.over && holds_frame_exec(self.phase) && self.working.is_none() {
            return false;
        }
        if self.over {
            return false;
        }
        match self.phase {
            Phase::Start => matches!(e, Event::Begin),
            Phase::LargeCheck => matches!(e, Event::Exists(_)),
            Phase::Shorten | Phase::FilterApply => matches!(e, Event::Frame(_)),
            Phase::RawCsvRead | Phase::RawDownload | Phase::Expand | Phase::LargeRead | Phase::PgQuery
            | Phase::S3Download => matches!(e, Event::Frame(_) | Event::Failed),
            Phase::PgTableCheck | Phase::S3ObjectCheck => matches!(e, Event::Exists(_) | Event::Failed),
            Phase::PgCount => matches!(e, Event::Count(_) | Event::Failed),
            Phase::S3List => matches!(e, Event::Names(_) | Event::Failed),
            _ => matches!(e, Event::Done | Event::Failed),
        }
    }

    /// True once the run finished or stopped.
    pub fn is_over(&self) -> (r: bool)
        ensures
            r == self@.over,
    {
        self.over
    }

    /// The stage running, while the run is not over.
    pub fn current_stage(&self) -> (r: Option<StageKind>)
        ensures
            !self@.over && 0 <= self@.index < self@.stages.len() ==> r == Some(self@.stages[self@.index]),
            self@.over || !(0 <= self@.index < self@.stages.len()) ==> r is None,
    {
        if !self.over && self.index < self.stages.len() {
            Some(self.stages[self.index])
        } else {
            None
        }
    }

    /// The frame the current stage is working on.
    pub fn working_frame(&self) -> (r: Option<&Frame>)
        ensures
            r matches Some(f) ==> self@.working == Some(*f),
            r is None ==> self@.working is None,
    {
        match &self.working {
            Some(f) => Some(f),
            None => None,
        }
    }

    fn begin_current<Pool, Client>(&mut self, ctx: &mut Context<Frame, Pool, Client>) -> (a: Action)
        requires
            old(self)@.index < old(self)@.stages.len(),
            !old(self)@.over,
        ensures
            (final(self)@, *final(ctx), a.view()) == begin_at(old(self)@, *old(ctx)),
            a matches Action::Filter(_, e) ==> filter_selects(final(self)@.stages[final(self)@.index] == StageKind::SimpleFilter, e),
    {
        let kind = self.stages[self.index];
        let r = match kind {
            StageKind::LoadRawData => LoadRawData::begin(ctx),
            StageKind::ExpandDataset => ExpandDataset::begin(ctx),
            StageKind::PersistPostgres => PersistPostgres::begin(ctx),
            StageKind::PersistS3 => PersistS3::begin(ctx),
            StageKind::LoadFromPostgres => LoadFromPostgres::begin(ctx),
            StageKind::LoadFromS3 => LoadFromS3::begin(ctx),
            StageKind::SimpleFilter => begin_filter(true, ctx),
            StageKind::ComplexFilter => begin_filter(false, ctx),
        };
        match r {
            StepResult::Continue(ph, w, a) => {
                self.phase = ph;
                self.working = w;
                a
            },
            StepResult::Stop(a) => {
                self.over = true;
                a
            },
            StepResult::Complete => {
                self.over = true;
                Action::Fail(None)
            },
        }
    }

    /// Takes the caller's report of the last action and answers with the next action.
    pub fn step<Pool, Client>(&mut self, ctx: &mut Context<Frame, Pool, Client>, event: Event<Frame>) -> (a: Action)
        requires
            old(self)@.ready(event.view()),
        ensures
            final(self)@.wf(),
            (final(self)@, *final(ctx), a.view()) == run_next(old(self)@, *old(ctx), event.view()),
            frame_available(a.view(), final(self)@, *final(ctx)),
            a matches Action::Filter(_, e) ==> filter_selects(final(self)@.stages[final(self)@.index] == StageKind::SimpleFilter, e),
    {
        proof {
            lemma_step_keeps_wf(self@, *ctx, event.view());
        }
        if self.phase == Phase::Start {
            return self.begin_current(ctx);
        }
        let kind = self.stages[self.index];
        let n = self.stages.len();
        let i = self.index;
        assert(i < n);
        let mut working: Option<Frame> = None;
        std::mem::swap(&mut working, &mut self.working);
        let r = match kind {
            StageKind::LoadRawData => LoadRawData::next(self.phase, working, ctx, event),
            StageKind::ExpandDataset => ExpandDataset::next(self.phase, working, ctx, event),
            StageKind::PersistPostgres => PersistPostgres::next(self.phase, working, ctx, event),
            StageKind::PersistS3 => PersistS3::next(self.phase, working, ctx, event),
            StageKind::LoadFromPostgres => LoadFromPostgres::next(self.phase, working, ctx, event),
            StageKind::LoadFromS3 => LoadFromS3::next(self.phase, working, ctx, event),
            StageKind::SimpleFilter => next_filter(true, self.phase, working, ctx, event),
            StageKind::ComplexFilter => next_filter(false, self.phase, working, ctx, event),
        };
        match r {
            StepResult::Continue(ph, w, a) => {
                self.phase = ph;
                self.working = w;
                a
            },
            StepResult::Stop(a) => {
                self.over = true;
                a
            },
            StepResult::Complete => {
                self.index = i + 1;
                self.phase = Phase::Start;
                self.working = None;
                if self.index >= n {
                    self.over = true;
                    Action::Finished
                } else {
                    self.begin_current(ctx)
                }
            },
        }
    }
}

fn holds_frame_exec(phase: Phase) -> (r: bool)
    ensures
        r == holds_frame(phase),
{
    phase == Phase::RawCsvWrite || phase == Phase::RawPreview || phase == Phase::RawParquetWrite
        || phase == Phase::Expand || phase == Phase::LargeCsvWrite || phase == Phase::LargeParquetWrite
        || phase == Phase::LargePreview || phase == Phase::FilterPreview
}

/// Every step keeps a run well formed, and every frame an action names is at hand.
pub proof fn lemma_step_keeps_wf<Frame, Pool, Client>(v: RunView<Frame>, ctx: Context<Frame, Pool, Client>, e: EventView<Frame>)
    requires
        v.ready(e),
    ensures
        run_next(v, ctx, e).0.wf(),
        frame_available(run_next(v, ctx, e).2, run_next(v, ctx, e).0, run_next(v, ctx, e).1),
{
}

/// The context fields that configure a run.
pub open spec fn same_configuration<Frame, Pool, Client>(a: Context<Frame, Pool, Client>, b: Context<Frame, Pool, Client>) -> bool {
    &&& a.args == b.args
    &&& a.dataset_config == b.dataset_config
    &&& a.db_pool == b.db_pool
    &&& a.pg_conn == b.pg_conn
    &&& a.s3_client == b.s3_client
    &&& a.s3_config == b.s3_config
    &&& a.table_name == b.table_name
    &&& a.bucket_name == b.bucket_name
    &&& a.cache_dir == b.cache_dir
}

/// A run changes only the frames of the context: its arguments, configuration,
/// connections, names and cache directory stay as they were.
pub proof fn lemma_run_changes_only_frames<Frame, Pool, Client>(v: RunView<Frame>, ctx: Context<Frame, Pool, Client>, e: EventView<Frame>)
    requires
        v.ready(e),
    ensures
        same_configuration(run_next(v, ctx, e).1, ctx),
{
}

/// Stages run in the order of the pipeline, one after the other: a step stays in the
/// current stage or moves to the next one, and the run finishes exactly when the last
/// stage has completed.
pub proof fn lemma_stages_run_in_order<Frame, Pool, Client>(v: RunView<Frame>, ctx: Context<Frame, Pool, Client>, e: EventView<Frame>)
    requires
        v.ready(e),
    ensures
        run_next(v, ctx, e).0.stages == v.stages,
        run_next(v, ctx, e).0.index == v.index || run_next(v, ctx, e).0.index == v.index + 1,
        run_next(v, ctx, e).2 == ActionView::Finished <==> run_next(v, ctx, e).0.index == v.stages.len(),
{
}

/// A run that has stopped takes no more events.
pub proof fn lemma_stop_is_final<Frame, Pool, Client>(v: RunView<Frame>, ctx: Context<Frame, Pool, Client>, e: EventView<Frame>, e2: EventView<Frame>)
    requires
        v.ready(e),
        run_next(v, ctx, e).2 is Fail || run_next(v, ctx, e).2 is Panic || run_next(v, ctx, e).2 is Finished,
    ensures
        !run_next(v, ctx, e).0.ready(e2),
{
}

/// A fresh run of `stages`.
pub open spec fn run_start<Frame>(stages: Seq<StageKind>) -> RunView<Frame> {
    RunView { stages, index: 0, phase: Phase::Start, working: None, over: stages.len() == 0 }
}

/// One step of a run, as the runs over many events see it: `run_next`, kept folded so
/// that a proof about a whole run unfolds it only where it asks to.
#[verifier::opaque]
pub open spec fn run_step<Frame, Pool, Client>(
    v: RunView<Frame>,
    ctx: Context<Frame, Pool, Client>,
    e: EventView<Frame>,
) -> (RunView<Frame>, Context<Frame, Pool, Client>, ActionView) {
    run_next(v, ctx, e)
}

/// What one step does, for the proofs about whole runs.
pub proof fn lemma_run_step<Frame, Pool, Client>(v: RunView<Frame>, ctx: Context<Frame, Pool, Client>, e: EventView<Frame>)
    requires
        v.ready(e),
    ensures
        run_step(v, ctx, e) == run_next(v, ctx, e),
        run_step(v, ctx, e).0.wf(),
        run_step(v, ctx, e).0.stages == v.stages,
        run_step(v, ctx, e).0.index == v.index || run_step(v, ctx, e).0.index == v.index + 1,
        run_step(v, ctx, e).2 is Finished <==> run_step(v, ctx, e).0.index == v.stages.len(),
        same_configuration(run_step(v, ctx, e).1, ctx),
        ends_run(run_step(v, ctx, e).2) ==> forall|e2: EventView<Frame>| !(#[trigger] run_step(v, ctx, e).0.ready(e2)),
{
    reveal(run_step);
    lemma_stages_run_in_order(v, ctx, e);
    lemma_step_keeps_wf(v, ctx, e);
    lemma_run_changes_only_frames(v, ctx, e);
    assert forall|e2: EventView<Frame>| ends_run(run_step(v, ctx, e).2) implies !(#[trigger] run_step(v, ctx, e).0.ready(e2)) by {
        if ends_run(run_step(v, ctx, e).2) {
            lemma_stop_is_final(v, ctx, e, e2);
        }
    }
}

/// The state and context after the run has taken the events `es` in turn.
pub open spec fn run_after<Frame, Pool, Client>(
    v: RunView<Frame>,
    ctx: Context<Frame, Pool, Client>,
    es: Seq<EventView<Frame>>,
) -> (RunView<Frame>, Context<Frame, Pool, Client>)
    decreases es.len(),
{
    if es.len() == 0 {
        (v, ctx)
    } else {
        let before = run_after(v, ctx, es.drop_last());
        let r = run_step(before.0, before.1, es.last());
        (r.0, r.1)
    }
}

/// The action the run answers to the `i`-th event of `es`.
pub open spec fn run_action<Frame, Pool, Client>(
    v: RunView<Frame>,
    ctx: Context<Frame, Pool, Client>,
    es: Seq<EventView<Frame>>,
    i: int,
) -> ActionView {
    let before = run_after(v, ctx, es.take(i));
    run_step(before.0, before.1, es[i]).2
}

/// Every event of `es` is one the run can take in the state it has reached.
pub open spec fn valid_run<Frame, Pool, Client>(
    v: RunView<Frame>,
    ctx: Context<Frame, Pool, Client>,
    es: Seq<EventView<Frame>>,
) -> bool {
    forall|i: int| 0 <= i < es.len() ==> (#[trigger] run_after(v, ctx, es.take(i))).0.ready(es[i])
}

/// An action after which the run takes nothing more.
pub open spec fn ends_run(a: ActionView) -> bool {
    a is Fail || a is Panic || a is Finished
}

/// What a whole run satisfies, stated over the prefixes of its events.
pub open spec fn run_in_order<Frame, Pool, Client>(
    v: RunView<Frame>,
    ctx: Context<Frame, Pool, Client>,
    es: Seq<EventView<Frame>>,
) -> bool {
    &&& forall|i: int, j: int| 0 <= i <= j <= es.len() ==> {
        let a = #[trigger] run_after(v, ctx, es.take(i)).0.index;
        let b = #[trigger] run_after(v, ctx, es.take(j)).0.index;
        a <= b <= a + (j - i)
    }
    &&& forall|i: int| 0 <= i < es.len() - 1 ==> !ends_run(#[trigger] run_action(v, ctx, es, i))
    &&& forall|i: int| 0 <= i < es.len() ==> (#[trigger] run_action(v, ctx, es, i) is Finished
        <==> run_after(v, ctx, es.take(i + 1)).0.index == v.stages.len())
    &&& run_after(v, ctx, es).0.stages == v.stages
    &&& run_after(v, ctx, es).0.wf()
    &&& same_configuration(run_after(v, ctx, es).1, ctx)
}

proof fn lemma_valid_run_prefix<Frame, Pool, Client>(
    v: RunView<Frame>,
    ctx: Context<Frame, Pool, Client>,
    es: Seq<EventView<Frame>>,
)
    requires
        valid_run(v, ctx, es),
        es.len() > 0,
    ensures
        valid_run(v, ctx, es.drop_last()),
{
    let front = es.drop_last();
    assert forall|i: int| 0 <= i < front.len() implies (#[trigger] run_after(v, ctx, front.take(i))).0.ready(front[i]) by {
        assert(front.take(i) =~= es.take(i));
        assert(run_after(v, ctx, es.take(i)).0.ready(es[i]));
    }
}

/// The law of a whole run: the stages run one after the other, in the pipeline's order,
/// each at most once; a failure, a panic or the end of the run is the last thing the
/// run answers; the run finishes exactly when the last stage has completed; and the
/// configuration of the context is handed unchanged from stage to stage.
pub proof fn lemma_whole_run_in_order<Frame, Pool, Client>(
    v: RunView<Frame>,
    ctx: Context<Frame, Pool, Client>,
    es: Seq<EventView<Frame>>,
)
    requires
        v.wf(),
        valid_run(v, ctx, es),
    ensures
        run_in_order(v, ctx, es),
    decreases es.len(),
{
    if es.len() == 0 {
        assert forall|i: int, j: int| 0 <= i <= j <= es.len() implies {
            let a = #[trigger] run_after(v, ctx, es.take(i)).0.index;
            let b = #[trigger] run_after(v, ctx, es.take(j)).0.index;
            a <= b <= a + (j - i)
        } by {
            assert(es.take(i) =~= es);
            assert(es.take(j) =~= es);
        }
    } else {
        let n = es.len() - 1;
        let front = es.drop_last();
        lemma_valid_run_prefix(v, ctx, es);
        lemma_whole_run_in_order(v, ctx, front);
        assert(es.take(n) =~= front);
        assert(es.take(n + 1) =~= es);
        let before = run_after(v, ctx, front);
        assert(before.0.ready(es[n]));
        lemma_run_step(before.0, before.1, es[n]);
        assert forall|i: int| 0 <= i <= n implies #[trigger] es.take(i) == front.take(i) by {
            assert(es.take(i) =~= front.take(i));
        }
        assert forall|i: int, j: int| 0 <= i <= j <= es.len() implies {
            let a = #[trigger] run_after(v, ctx, es.take(i)).0.index;
            let b = #[trigger] run_after(v, ctx, es.take(j)).0.index;
            a <= b <= a + (j - i)
        } by {
            if j <= n {
                assert(es.take(i) == front.take(i));
                assert(es.take(j) == front.take(j));
                let a = run_after(v, ctx, front.take(i)).0.index;
                let b = run_after(v, ctx, front.take(j)).0.index;
                assert(a <= b <= a + (j - i));
            } else if i < j {
                assert(es.take(i) == front.take(i));
                assert(es.drop_last() =~= front);
                assert(front.take(n) =~= front);
                let a = run_after(v, ctx, front.take(i)).0.index;
                let b = run_after(v, ctx, front.take(n)).0.index;
                assert(a <= b <= a + (n - i));
                assert(run_after(v, ctx, es).0 == run_step(before.0, before.1, es[n]).0);
            }
        }
        assert forall|i: int| 0 <= i < es.len() implies (#[trigger] run_action(v, ctx, es, i) is Finished
            <==> run_after(v, ctx, es.take(i + 1)).0.index == v.stages.len()) by {
            if i < n {
                assert(es.take(i) == front.take(i));
                assert(es.take(i + 1) == front.take(i + 1));
                assert(run_action(v, ctx, es, i) == run_action(v, ctx, front, i));
            } else {
                assert(es.take(i) =~= front);
            }
        }
        assert forall|i: int| 0 <= i < es.len() - 1 implies !ends_run(#[trigger] run_action(v, ctx, es, i)) by {
            assert(es.take(i) == front.take(i));
            assert(run_action(v, ctx, es, i) == run_action(v, ctx, front, i));
            if i == n - 1 {
                let prev = run_after(v, ctx, front.take(i));
                assert(front.take(i) =~= front.drop_last());
                assert(front.drop_last().push(front[i]) =~= front);
                assert(prev.0.ready(front[i]));
                lemma_run_step(prev.0, prev.1, front[i]);
                assert(run_after(v, ctx, front).0 == run_step(prev.0, prev.1, front[i]).0);
                if ends_run(run_action(v, ctx, front, i)) {
                    assert(!run_after(v, ctx, front).0.ready(es[n]));
                }
            }
        }
    }
}

} // verus!
