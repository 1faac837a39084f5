//! A pipeline is a sequence of stages, built in a fixed order that the types enforce:
//! the raw and expanded datasets first, then the stores they are persisted to, then the
//! stores they are read back from and the filters. The type states are markers; the
//! stages themselves are kept as a list whose order is part of the pipeline's invariant.

pub mod context;
pub mod stages;
pub mod stage;
pub mod run;
pub mod rerun;

use vstd::prelude::*;
use std::marker::PhantomData;
use crate::data::DataStore;
use crate::errors::{BuildErrorView, PipelineBuildError, PipelineValidationError};
use crate::pipeline::run::PipelineRun;
use crate::pipeline::stage::{Stage, StageKind};
use crate::pipeline::stages::ensure_raw::LoadRawData;
use crate::pipeline::stages::expand_dataset::ExpandDataset;
use crate::pipeline::stages::filters::{ComplexDataFilter, SimpleDataFilter};
use crate::pipeline::stages::load_from_postgres::LoadFromPostgres;
use crate::pipeline::stages::load_from_s3::LoadFromS3;
use crate::pipeline::stages::persist_postgres::PersistPostgres;
use crate::pipeline::stages::persist_s3::PersistS3;

verus! {

/// The empty list of configured stores.
pub struct Nil;

/// A store `Head` in front of the list `Tail`.
pub struct Cons<Head, Tail>(PhantomData<(Head, Tail)>);

/// Store marker: Postgres.
pub struct Postgres;

/// Store marker: S3.
pub struct S3;

/// Index marker: the first element of a list.
pub struct Here;

/// Index marker: an element further down a list.
pub struct There<Index>(PhantomData<Index>);

/// `T` is in the type-level list, at the position that `Index` names.
trait Contains<T, Index> {}

impl<T, Tail> Contains<T, Here> for Cons<T, Tail> {}

impl<T, Head, Tail, Index> Contains<T, There<Index>> for Cons<Head, Tail> where Tail: Contains<T, Index> {}

/// Builder state: nothing added yet.
pub struct Start;

/// Builder state: adding persistence stages for `Stores`.
pub struct PersistState<Stores>(PhantomData<Stores>);

/// Builder state: adding retrieval and filter stages for `Stores`.
pub struct LoadState<Stores>(PhantomData<Stores>);

/// Builder state: finished and ready to run.
pub struct Compete;

/// How far a builder state is along the build: 0 before anything, 1 while persisting,
/// 2 while retrieving and filtering, 3 when finished.
pub trait PipelineState {
    spec fn level() -> int;
}

impl PipelineState for Start {
    open spec fn level() -> int {
        0
    }
}

impl<Stores> PipelineState for PersistState<Stores> {
    open spec fn level() -> int {
        1
    }
}

impl<Stores> PipelineState for LoadState<Stores> {
    open spec fn level() -> int {
        2
    }
}

impl PipelineState for Compete {
    open spec fn level() -> int {
        3
    }
}

/// The order of a pipeline's stages: the raw load and the expansion first, every
/// persistence stage before any retrieval or filter stage.
pub open spec fn pipeline_order(s: Seq<StageKind>) -> bool {
    &&& s.len() >= 2
    &&& s[0] == StageKind::LoadRawData
    &&& s[1] == StageKind::ExpandDataset
    &&& forall|i: int| 2 <= i < s.len() ==> #[trigger] s[i].group() >= 1
    &&& forall|i: int, j: int| 0 <= i <= j < s.len() ==> #[trigger] s[i].group() <= #[trigger] s[j].group()
}

/// At least one stage reads the dataset back from a store.
pub open spec fn has_retrieval(s: Seq<StageKind>) -> bool {
    exists|i: int| 0 <= i < s.len() && #[trigger] s[i].is_retrieval()
}

/// A pipeline of stages, in the builder state `State`.
pub struct Pipeline<State: PipelineState> {
    stages: Vec<StageKind>,
    state: PhantomData<State>,
}

impl<State: PipelineState> Pipeline<State> {
    #[verifier::type_invariant]
    spec fn inv(self) -> bool {
        &&& pipeline_order(self.stages@)
        &&& forall|i: int| 0 <= i < self.stages@.len() ==> #[trigger] self.stages@[i].group() <= State::level()
        &&& State::level() >= 2 ==> has_retrieval(self.stages@)
    }

    /// The stages in the order they run.
    pub closed spec fn stages(&self) -> Seq<StageKind> {
        self.stages@
    }

    /// The stages in the order they run.
    pub fn stage_kinds(&self) -> (r: Vec<StageKind>)
        ensures
            r@ == self.stages(),
            pipeline_order(r@),
    {
        proof {
            use_type_invariant(self);
        }
        self.stages.clone()
    }
}

impl Pipeline<Start> {
    /// A pipeline that loads the raw dataset and expands it, ready for persistence stages.
    pub fn builder() -> (r: Pipeline<PersistState<Nil>>)
        ensures
            r.stages() == seq![StageKind::LoadRawData, StageKind::ExpandDataset],
    {
        let stages = vec![LoadRawData.kind(), ExpandDataset.kind()];
        Pipeline { stages, state: PhantomData }
    }
}

impl<Stores> Pipeline<PersistState<Stores>> {
    /// Adds persistence to Postgres.
    pub fn with_postgres_persistence(self) -> (r: Pipeline<PersistState<Cons<Postgres, Stores>>>)
        ensures
            r.stages() == self.stages().push(StageKind::PersistPostgres),
            pipeline_order(r.stages()),
    {
        self.add_persistence_stage(PersistPostgres)
    }

    /// Adds persistence to S3.
    pub fn with_s3_persistence(self) -> (r: Pipeline<PersistState<Cons<S3, Stores>>>)
        ensures
            r.stages() == self.stages().push(StageKind::PersistS3),
            pipeline_order(r.stages()),
    {
        self.add_persistence_stage(PersistS3)
    }

    fn add_persistence_stage<S: Stage, Store>(self, store: S) -> (r: Pipeline<PersistState<Cons<Store, Stores>>>)
        requires
            store.spec_kind().group() == 1,
        ensures
            r.stages() == self.stages().push(store.spec_kind()),
            pipeline_order(r.stages()),
    {
        proof {
            use_type_invariant(&self);
        }
        let mut stages = self.stages;
        let ghost before = stages@;
        stages.push(store.kind());
        proof {
            assert forall|i: int| 0 <= i < stages@.len() implies #[trigger] stages@[i].group() <= 1 by {
                if i < before.len() {
                    assert(stages@[i] == before[i]);
                }
            }
            assert forall|i: int, j: int| 0 <= i <= j < stages@.len() implies #[trigger] stages@[i].group() <= #[trigger] stages@[j].group() by {
                if j < before.len() {
                    assert(stages@[i] == before[i]);
                    assert(stages@[j] == before[j]);
                } else if i < before.len() {
                    assert(stages@[i] == before[i]);
                }
            }
            assert forall|i: int| 2 <= i < stages@.len() implies #[trigger] stages@[i].group() >= 1 by {
                if i < before.len() {
                    assert(stages@[i] == before[i]);
                }
            }
        }
        Pipeline { stages, state: PhantomData }
    }

    /// Adds retrieval from Postgres; no persistence stage can follow.
    pub fn with_postgres_retrieval(self) -> (r: Pipeline<LoadState<Cons<Postgres, Stores>>>)
        ensures
            r.stages() == self.stages().push(StageKind::LoadFromPostgres),
            pipeline_order(r.stages()),
    {
        proof {
            use_type_invariant(&self);
        }
        add_load_stage(self.stages, LoadFromPostgres)
    }

    /// Adds retrieval from S3; no persistence stage can follow.
    pub fn with_s3_retrieval(self) -> (r: Pipeline<LoadState<Cons<S3, Stores>>>)
        ensures
            r.stages() == self.stages().push(StageKind::LoadFromS3),
            pipeline_order(r.stages()),
    {
        proof {
            use_type_invariant(&self);
        }
        add_load_stage(self.stages, LoadFromS3)
    }
}

impl<Stores> Pipeline<LoadState<Cons<S3, Stores>>> {
    /// Adds retrieval from Postgres after retrieval from S3.
    pub fn with_postgres_retrieval(self) -> (r: Pipeline<LoadState<Cons<Postgres, Cons<S3, Stores>>>>)
        ensures
            r.stages() == self.stages().push(StageKind::LoadFromPostgres),
            pipeline_order(r.stages()),
    {
        proof {
            use_type_invariant(&self);
        }
        add_load_stage(self.stages, LoadFromPostgres)
    }
}

impl<Stores> Pipeline<LoadState<Cons<Postgres, Stores>>> {
    /// Adds retrieval from S3 after retrieval from Postgres.
    pub fn with_s3_retrieval(self) -> (r: Pipeline<LoadState<Cons<S3, Cons<Postgres, Stores>>>>)
        ensures
            r.stages() == self.stages().push(StageKind::LoadFromS3),
            pipeline_order(r.stages()),
    {
        proof {
            use_type_invariant(&self);
        }
        add_load_stage(self.stages, LoadFromS3)
    }
}

/// Appends a retrieval or filter stage to stages in persistence or retrieval order.
fn add_load_stage<S: Stage, Store, Stores>(stages: Vec<StageKind>, stage: S) -> (r: Pipeline<LoadState<Cons<Store, Stores>>>)
    requires
        pipeline_order(stages@),
        forall|i: int| 0 <= i < stages@.len() ==> #[trigger] stages@[i].group() <= 2,
        stage.spec_kind().is_retrieval(),
    ensures
        r.stages() == stages@.push(stage.spec_kind()),
        pipeline_order(r.stages()),
{
    push_late_stage(stages, stage)
}

fn push_late_stage<S: Stage, NewState: PipelineState>(mut stages: Vec<StageKind>, stage: S) -> (r: Pipeline<NewState>)
    requires
        pipeline_order(stages@),
        forall|i: int| 0 <= i < stages@.len() ==> #[trigger] stages@[i].group() <= 2,
        stage.spec_kind().group() == 2,
        NewState::level() == 2,
        NewState::level() >= 2 ==> has_retrieval(stages@) || stage.spec_kind().is_retrieval(),
    ensures
        r.stages() == stages@.push(stage.spec_kind()),
        pipeline_order(r.stages()),
{
    let ghost before = stages@;
    stages.push(stage.kind());
    proof {
        assert forall|i: int| 0 <= i < stages@.len() implies #[trigger] stages@[i].group() <= 2 by {
            if i < before.len() {
                assert(stages@[i] == before[i]);
            }
        }
        assert forall|i: int, j: int| 0 <= i <= j < stages@.len() implies #[trigger] stages@[i].group() <= #[trigger] stages@[j].group() by {
            if j < before.len() {
                assert(stages@[i] == before[i]);
                assert(stages@[j] == before[j]);
            } else if i < before.len() {
                assert(stages@[i] == before[i]);
            }
        }
        assert forall|i: int| 2 <= i < stages@.len() implies #[trigger] stages@[i].group() >= 1 by {
            if i < before.len() {
                assert(stages@[i] == before[i]);
            }
        }
        if has_retrieval(before) {
            let k = choose|k: int| 0 <= k < before.len() && #[trigger] before[k].is_retrieval();
            assert(stages@[k] == before[k]);
        } else {
            assert(stages@[stages@.len() - 1].is_retrieval());
        }
    }
    Pipeline { stages, state: PhantomData }
}

impl<Stores> Pipeline<LoadState<Stores>> {
    /// Adds the simple filter of the expanded frame.
    pub fn with_simple_filter_data(self) -> (r: Pipeline<LoadState<Stores>>)
        ensures
            r.stages() == self.stages().push(StageKind::SimpleFilter),
            pipeline_order(r.stages()),
    {
        proof {
            use_type_invariant(&self);
        }
        push_late_stage(self.stages, SimpleDataFilter)
    }

    /// Adds the compound filter of the expanded frame.
    pub fn with_complex_filter_data(self) -> (r: Pipeline<LoadState<Stores>>)
        ensures
            r.stages() == self.stages().push(StageKind::ComplexFilter),
            pipeline_order(r.stages()),
    {
        proof {
            use_type_invariant(&self);
        }
        push_late_stage(self.stages, ComplexDataFilter)
    }

    /// Finalises the pipeline for execution: it loads and expands the dataset, persists
    /// it, then reads it back at least once.
    pub fn finish(self) -> (r: Pipeline<Compete>)
        ensures
            r.stages() == self.stages(),
            pipeline_order(r.stages()),
            has_retrieval(r.stages()),
    {
        proof {
            use_type_invariant(&self);
        }
        Pipeline { stages: self.stages, state: PhantomData }
    }
}

/// The stage that persists to `store`.
pub open spec fn persist_kind(store: DataStore) -> StageKind {
    match store {
        DataStore::Postgres => StageKind::PersistPostgres,
        DataStore::S3 => StageKind::PersistS3,
    }
}

/// The stage that retrieves from `store`.
pub open spec fn load_kind(store: DataStore) -> StageKind {
    match store {
        DataStore::Postgres => StageKind::LoadFromPostgres,
        DataStore::S3 => StageKind::LoadFromS3,
    }
}

pub open spec fn has_stage(s: Seq<StageKind>, k: StageKind) -> bool {
    s.contains(k)
}

/// Why stages `s` cannot serve a run that loads from `args_store`, in this order: no
/// store is persisted to; a store is read from that is not persisted to; the store
/// named on the command line is not read from.
pub open spec fn spec_validation_errors(s: Seq<StageKind>, args_store: DataStore) -> Seq<BuildErrorView> {
    let persists_any = has_stage(s, StageKind::PersistPostgres) || has_stage(s, StageKind::PersistS3);
    let loads_unpersisted = (has_stage(s, StageKind::LoadFromPostgres) && !has_stage(s, StageKind::PersistPostgres))
        || (has_stage(s, StageKind::LoadFromS3) && !has_stage(s, StageKind::PersistS3));
    (if !persists_any { seq![BuildErrorView::AtLeastOnePersistStageMustBeSpecified] } else { Seq::empty() })
        + (if loads_unpersisted { seq![BuildErrorView::PersistAndLoadStoresMustBeTheSame] } else { Seq::empty() })
        + (if !has_stage(s, load_kind(args_store)) {
            seq![BuildErrorView::ArgsLoadStoreNotAvailable(args_store.spec_name())]
        } else {
            Seq::empty()
        })
}

fn contains_stage(stages: &Vec<StageKind>, k: StageKind) -> (r: bool)
    ensures
        r == has_stage(stages@, k),
{
    let mut i: usize = 0;
    while i < stages.len()
        invariant
            i <= stages.len(),
            forall|j: int| 0 <= j < i ==> stages@[j] != k,
        decreases stages.len() - i,
    {
        if stages[i] == k {
            assert(stages@[i as int] == k);
            return true;
        }
        i = i + 1;
    }
    false
}

impl Pipeline<Compete> {
    /// Checks the pipeline against the store chosen on the command line: something must
    /// be persisted, only persisted stores may be read back, and the chosen store must be
    /// read back. Every failed check is reported.
    pub fn validate(&self, args_store: DataStore) -> (r: Result<(), PipelineValidationError>)
        ensures
            r is Ok <==> spec_validation_errors(self.stages(), args_store).len() == 0,
            r matches Err(e) ==> e.errors@.map_values(|x: PipelineBuildError| x.view())
                == spec_validation_errors(self.stages(), args_store),
    {
        let pg_persist = contains_stage(&self.stages, StageKind::PersistPostgres);
        let s3_persist = contains_stage(&self.stages, StageKind::PersistS3);
        let pg_load = contains_stage(&self.stages, StageKind::LoadFromPostgres);
        let s3_load = contains_stage(&self.stages, StageKind::LoadFromS3);
        let args_load = match args_store {
            DataStore::Postgres => pg_load,
            DataStore::S3 => s3_load,
        };
        let mut errors: Vec<PipelineBuildError> = Vec::new();
        if !(pg_persist || s3_persist) {
            errors.push(PipelineBuildError::AtLeastOnePersistStageMustBeSpecified);
        }
        if (pg_load && !pg_persist) || (s3_load && !s3_persist) {
            errors.push(PipelineBuildError::PersistAndLoadStoresMustBeTheSame);
        }
        if !args_load {
            errors.push(PipelineBuildError::ArgsLoadStoreNotAvailable(args_store.name()));
        }
        assert(errors@.map_values(|x: PipelineBuildError| x.view()) =~= spec_validation_errors(self.stages(), args_store));
        if errors.len() == 0 {
            Ok(())
        } else {
            Err(PipelineValidationError { errors })
        }
    }

    /// Starts a run of the stages in order; the caller drives it with `PipelineRun::step`.
    pub fn run<Frame>(self) -> (r: PipelineRun<Frame>)
        ensures
            r@.stages == self.stages(),
            r@.index == 0,
            r@.phase == crate::pipeline::stage::Phase::Start,
            !r@.over,
            r@.wf(),
    {
        proof {
            use_type_invariant(&self);
        }
        PipelineRun::new(self.stages)
    }
}

} // verus!
