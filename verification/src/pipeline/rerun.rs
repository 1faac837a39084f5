//! What a run does when everything it would build is already there: a second run after
//! a successful one reads what the first one left and rebuilds nothing.

use vstd::prelude::*;
use crate::pipeline::context::Context;
use crate::pipeline::run::{lemma_run_step, run_action, run_after, run_start, run_step, valid_run, RunView};
use crate::pipeline::stage::{ActionView, EventView, Phase, StageKind};
use crate::pipeline::stages::persist_postgres::CENSUS_ROW_COUNT;

verus! {

/// The phases a run passes through when it builds nothing.
pub open spec fn warm_phase(p: Phase) -> bool {
    ||| p == Phase::Start
    ||| p == Phase::RawDir
    ||| p == Phase::RawCsvRead
    ||| p == Phase::RawPreview
    ||| p == Phase::RawParquetWrite
    ||| p == Phase::LargeCheck
    ||| p == Phase::LargeRead
    ||| p == Phase::LargePreview
    ||| p == Phase::FilterApply
    ||| p == Phase::FilterPreview
    ||| p == Phase::PgTableCheck
    ||| p == Phase::PgCount
    ||| p == Phase::S3List
    ||| p == Phase::S3ObjectCheck
    ||| p == Phase::PgQuery
    ||| p == Phase::S3Download
}

/// An action that builds or rebuilds something a previous run leaves behind: the raw
/// download and its CSV, the shortened and expanded dataset and its files, the census
/// table, the bucket and the uploaded object.
pub open spec fn rebuilds(a: ActionView) -> bool {
    ||| a is DownloadCsv
    ||| a is WriteCsv
    ||| a is ShortenColumns
    ||| a is ExpandRows
    ||| a is ExecuteSql
    ||| a is LoadIntoTable
    ||| a is CreateBucket
    ||| a is UploadFile
}

/// The report a caller gives when a previous run succeeded: nothing fails, the raw CSV
/// reads, the expanded parquet file exists, the census table exists with all its rows,
/// the bucket is listed and the object is in it.
pub open spec fn warm_event<Frame, Pool, Client>(phase: Phase, ctx: Context<Frame, Pool, Client>, e: EventView<Frame>) -> bool {
    &&& !(e is Failed)
    &&& (phase == Phase::RawCsvRead ==> e is Frame)
    &&& (phase == Phase::LargeCheck ==> e == EventView::<Frame>::Exists(true))
    &&& (phase == Phase::PgTableCheck ==> e == EventView::<Frame>::Exists(true))
    &&& (phase == Phase::PgCount ==> (e matches EventView::Count(n) && n >= CENSUS_ROW_COUNT))
    &&& (phase == Phase::S3List ==> (e matches EventView::Names(ns) && ns.contains(ctx.spec_bucket())))
    &&& (phase == Phase::S3ObjectCheck ==> e == EventView::<Frame>::Exists(true))
}

/// One step of a run with a warm report asks for no rebuild and stays among the warm
/// phases.
pub proof fn lemma_warm_step<Frame, Pool, Client>(v: RunView<Frame>, ctx: Context<Frame, Pool, Client>, e: EventView<Frame>)
    requires
        v.ready(e),
        warm_phase(v.phase),
        warm_event(v.phase, ctx, e),
    ensures
        !rebuilds(run_step(v, ctx, e).2),
        warm_phase(run_step(v, ctx, e).0.phase),
{
    lemma_run_step(v, ctx, e);
}

/// Every event of `es` is a warm report in the state the run has reached.
pub open spec fn warm_run<Frame, Pool, Client>(
    v: RunView<Frame>,
    ctx: Context<Frame, Pool, Client>,
    es: Seq<EventView<Frame>>,
) -> bool {
    forall|i: int| 0 <= i < es.len() ==> {
        let before = #[trigger] run_after(v, ctx, es.take(i));
        warm_event(before.0.phase, before.1, es[i])
    }
}

proof fn lemma_warm_run_phases<Frame, Pool, Client>(
    v: RunView<Frame>,
    ctx: Context<Frame, Pool, Client>,
    es: Seq<EventView<Frame>>,
)
    requires
        warm_phase(v.phase),
        valid_run(v, ctx, es),
        warm_run(v, ctx, es),
    ensures
        warm_phase(run_after(v, ctx, es).0.phase),
        forall|i: int| 0 <= i < es.len() ==> !rebuilds(#[trigger] run_action(v, ctx, es, i)),
    decreases es.len(),
{
    if es.len() > 0 {
        let n = es.len() - 1;
        let front = es.drop_last();
        assert forall|i: int| 0 <= i <= n implies #[trigger] es.take(i) == front.take(i) by {
            assert(es.take(i) =~= front.take(i));
        }
        assert forall|i: int| 0 <= i < front.len() implies (#[trigger] run_after(v, ctx, front.take(i))).0.ready(front[i]) by {
            assert(es.take(i) == front.take(i));
            assert(run_after(v, ctx, es.take(i)).0.ready(es[i]));
        }
        assert forall|i: int| 0 <= i < front.len() implies {
            let before = #[trigger] run_after(v, ctx, front.take(i));
            warm_event(before.0.phase, before.1, front[i])
        } by {
            assert(es.take(i) == front.take(i));
            let before = run_after(v, ctx, es.take(i));
            assert(warm_event(before.0.phase, before.1, es[i]));
        }
        lemma_warm_run_phases(v, ctx, front);
        assert(front.take(n) =~= front);
        let before = run_after(v, ctx, front);
        assert(es.take(n) == front);
        assert(before.0.ready(es[n]));
        assert(warm_event(before.0.phase, before.1, es[n]));
        lemma_warm_step(before.0, before.1, es[n]);
        assert(es.drop_last() =~= front);
        assert forall|i: int| 0 <= i < es.len() implies !rebuilds(#[trigger] run_action(v, ctx, es, i)) by {
            if i < n {
                assert(run_action(v, ctx, es, i) == run_action(v, ctx, front, i));
            }
        }
    }
}

/// The law of a second run: when every report says that what a previous successful run
/// left is still there (the raw CSV reads, the expanded parquet file exists, the census
/// table holds all its rows, the bucket and the object exist) and nothing fails, the
/// run asks for no download, no CSV write, no reshaping or expansion of the data, no
/// statement on the database, no load into a table, no new bucket and no upload.
pub proof fn lemma_second_run_rebuilds_nothing<Frame, Pool, Client>(
    stages: Seq<StageKind>,
    ctx: Context<Frame, Pool, Client>,
    es: Seq<EventView<Frame>>,
)
    requires
        valid_run(run_start::<Frame>(stages), ctx, es),
        warm_run(run_start::<Frame>(stages), ctx, es),
    ensures
        forall|i: int| 0 <= i < es.len() ==> !rebuilds(#[trigger] run_action(run_start::<Frame>(stages), ctx, es, i)),
{
    lemma_warm_run_phases(run_start::<Frame>(stages), ctx, es);
}

} // verus!
