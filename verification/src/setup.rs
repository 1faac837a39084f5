//! The full ingestion run: the fixed connection settings, the pipeline it runs, the
//! context it runs on, and the plan of steps around the pipeline that the command-line
//! flags decide.

use vstd::prelude::*;
use crate::cli::Args;
use crate::data::blob::S3Config;
use crate::data::rdbms::{drop_table_query, lemma_census_is_valid_table_name, spec_drop_table_query, spec_invalid_table_message, valid_table_name, PostgresConn};
use crate::pipeline::context::Context;
use crate::pipeline::stage::StageKind;
use crate::pipeline::stages::DatasetConfig;
use crate::data::DataStore;
use crate::pipeline::{has_stage, load_kind, pipeline_order, spec_validation_errors, Compete, Pipeline};
use crate::text::owned;

verus! {

pub open spec fn is_default_postgres_conn(c: PostgresConn) -> bool {
    &&& c.user@ == "postgres"@
    &&& c.password@ == "postgres"@
    &&& c.host@ == "localhost"@
    &&& c.port == 6543
    &&& c.database@ == "dair"@
}

pub open spec fn is_default_s3_config(c: S3Config) -> bool {
    &&& c.region@ == "eu-west-1"@
    &&& c.url@ == "http://127.0.0.1:9000"@
    &&& c.username@ == "minioadmin"@
    &&& c.password@ == "minioadmin"@
}

/// The local Postgres the run loads into (port 6543, database `dair`).
pub fn default_postgres_conn() -> (r: PostgresConn)
    ensures
        is_default_postgres_conn(r),
{
    PostgresConn {
        user: owned("postgres"),
        password: owned("postgres"),
        host: owned("localhost"),
        port: 6543,
        database: owned("dair"),
    }
}

/// The local MinIO the run uploads to.
pub fn default_s3_config() -> (r: S3Config)
    ensures
        is_default_s3_config(r),
{
    S3Config {
        region: owned("eu-west-1"),
        url: owned("http://127.0.0.1:9000"),
        username: owned("minioadmin"),
        password: owned("minioadmin"),
    }
}

/// The pipeline of the full run: load and expand, persist to Postgres and S3, read back
/// from the store chosen on the command line, then both filters. It passes validation
/// for that store.
pub fn census_pipeline(load_store: DataStore) -> (r: Pipeline<Compete>)
    ensures
        r.stages() == seq![
            StageKind::LoadRawData,
            StageKind::ExpandDataset,
            StageKind::PersistPostgres,
            StageKind::PersistS3,
            load_kind(load_store),
            StageKind::SimpleFilter,
            StageKind::ComplexFilter,
        ],
        pipeline_order(r.stages()),
        spec_validation_errors(r.stages(), load_store).len() == 0,
{
    let persisted = Pipeline::builder().with_postgres_persistence().with_s3_persistence();
    let r = match load_store {
        DataStore::Postgres => persisted
            .with_postgres_retrieval()
            .with_simple_filter_data()
            .with_complex_filter_data()
            .finish(),
        DataStore::S3 => persisted
            .with_s3_retrieval()
            .with_simple_filter_data()
            .with_complex_filter_data()
            .finish(),
    };
    proof {
        let s = r.stages();
        assert(s[2] == StageKind::PersistPostgres);
        assert(s[3] == StageKind::PersistS3);
        assert(s[4] == load_kind(load_store));
        assert(has_stage(s, StageKind::PersistPostgres));
        assert(has_stage(s, StageKind::PersistS3));
        assert(has_stage(s, load_kind(load_store)));
    }
    r
}

/// The context of the full run: the data directory as cache, the pool, the client, the
/// default connection settings, and `census` as table and bucket.
pub fn census_context<Frame, Pool, Client>(args: &Args, current_dir: &str, pool: Pool, client: Client) -> (r: Result<Context<Frame, Pool, Client>, String>)
    ensures
        r matches Ok(c) && {
            &&& c.args == *args
            &&& c.dataset_config.expanded_dir_name@ == "large"@
            &&& c.dataset_config.filename@ == "census.parquet"@
            &&& c.cache_dir@ == args.spec_data_path(current_dir@)
            &&& c.db_pool == Some(pool)
            &&& c.s3_client == Some(client)
            &&& c.s3_config matches Some(s) && is_default_s3_config(s)
            &&& c.pg_conn matches Some(p) && is_default_postgres_conn(p)
            &&& c.table_name matches Some(t) && t@ == "census"@
            &&& c.bucket_name matches Some(b) && b@ == "census"@
            &&& c.raw_frame is None
            &&& c.expanded_frame is None
            &&& c.simple_filter_frame is None
            &&& c.complex_filter_frame is None
        },
{
    let dataset_config = DatasetConfig::default();
    let cache_dir = args.get_data_path(current_dir);
    Context::builder(args, dataset_config, current_dir)
        .with_cache_dir(cache_dir)
        .with_db_pool(pool)
        .with_s3_config(default_s3_config())
        .with_s3_client(client)
        .with_pg_conn(default_postgres_conn())
        .with_table_name(owned("census"))
        .with_bucket_name(owned("census"))
        .build()
}

/// A step of the full run.
pub enum RunStep {
    /// Open a pool of this many connections to the database at this connection string.
    Connect(String, u32),
    /// Execute this statement.
    ExecuteSql(String),
    /// Build the context of the run (see `census_context`).
    BuildContext,
    /// Delete every object of this bucket, then the bucket.
    DeleteBucket(String),
    /// Run the census pipeline (see `census_pipeline`) on the context.
    RunPipeline,
    /// List the objects of this bucket.
    ListObjects(String),
    /// Stop the run with this error.
    Fail(String),
}

pub enum RunStepView {
    Connect(Seq<char>, nat),
    ExecuteSql(Seq<char>),
    BuildContext,
    DeleteBucket(Seq<char>),
    RunPipeline,
    ListObjects(Seq<char>),
    Fail(Seq<char>),
}

impl RunStep {
    pub open spec fn view(&self) -> RunStepView {
        match self {
            RunStep::Connect(u, n) => RunStepView::Connect(u@, *n as nat),
            RunStep::ExecuteSql(q) => RunStepView::ExecuteSql(q@),
            RunStep::BuildContext => RunStepView::BuildContext,
            RunStep::DeleteBucket(b) => RunStepView::DeleteBucket(b@),
            RunStep::RunPipeline => RunStepView::RunPipeline,
            RunStep::ListObjects(b) => RunStepView::ListObjects(b@),
            RunStep::Fail(m) => RunStepView::Fail(m@),
        }
    }
}

pub open spec fn steps_view(s: Seq<RunStep>) -> Seq<RunStepView> {
    s.map_values(|x: RunStep| x.view())
}

/// Connect; drop the census table when asked to; build the context; delete the bucket
/// when asked to; run the pipeline; list what the bucket holds.
pub open spec fn spec_run_plan(args: Args, connection: Seq<char>) -> Seq<RunStepView> {
    let connect = seq![RunStepView::Connect(connection, 20)];
    let tail = seq![RunStepView::BuildContext]
        + (if args.delete_bucket { seq![RunStepView::DeleteBucket("census"@)] } else { Seq::empty() })
        + seq![RunStepView::RunPipeline, RunStepView::ListObjects("census"@)];
    if args.delete_table {
        if valid_table_name("census"@) {
            connect + seq![RunStepView::ExecuteSql(spec_drop_table_query("census"@))] + tail
        } else {
            connect + seq![RunStepView::Fail(spec_invalid_table_message("census"@))]
        }
    } else {
        connect + tail
    }
}

/// The run plan follows the flags: the census table is dropped right after connecting
/// only when asked to, the bucket deleted after the context is built only when asked to,
/// and otherwise the run only connects, builds the context, runs the pipeline and lists
/// the bucket.
pub proof fn lemma_run_plan_follows_flags(args: Args, connection: Seq<char>)
    ensures
        spec_run_plan(args, connection) == seq![RunStepView::Connect(connection, 20)]
            + (if args.delete_table { seq![RunStepView::ExecuteSql(spec_drop_table_query("census"@))] } else { Seq::empty() })
            + seq![RunStepView::BuildContext]
            + (if args.delete_bucket { seq![RunStepView::DeleteBucket("census"@)] } else { Seq::empty() })
            + seq![RunStepView::RunPipeline, RunStepView::ListObjects("census"@)],
{
    lemma_census_is_valid_table_name();
    let tail = seq![RunStepView::BuildContext]
        + (if args.delete_bucket { seq![RunStepView::DeleteBucket("census"@)] } else { Seq::empty() })
        + seq![RunStepView::RunPipeline, RunStepView::ListObjects("census"@)];
    let drop = if args.delete_table { seq![RunStepView::ExecuteSql(spec_drop_table_query("census"@))] } else { Seq::<RunStepView>::empty() };
    assert(spec_run_plan(args, connection) =~= seq![RunStepView::Connect(connection, 20)] + drop + tail);
    assert(seq![RunStepView::Connect(connection, 20)] + drop + tail =~= seq![RunStepView::Connect(connection, 20)] + drop
        + seq![RunStepView::BuildContext]
        + (if args.delete_bucket { seq![RunStepView::DeleteBucket("census"@)] } else { Seq::empty() })
        + seq![RunStepView::RunPipeline, RunStepView::ListObjects("census"@)]);
}

/// The steps of the full run for these arguments.
pub fn run_plan(args: &Args) -> (r: Vec<RunStep>)
    ensures
        steps_view(r@) == spec_run_plan(*args, default_postgres_conn_string()),
{
    let conn = default_postgres_conn();
    let uri = conn.get_db_connection_string();
    let mut steps: Vec<RunStep> = Vec::new();
    steps.push(RunStep::Connect(uri, 20));
    if args.delete_table {
        match drop_table_query("census") {
            Ok(q) => steps.push(RunStep::ExecuteSql(q)),
            Err(m) => {
                steps.push(RunStep::Fail(m));
                assert(steps_view(steps@) =~= spec_run_plan(*args, default_postgres_conn_string()));
                return steps;
            },
        }
    }
    steps.push(RunStep::BuildContext);
    if args.delete_bucket {
        steps.push(RunStep::DeleteBucket(owned("census")));
    }
    steps.push(RunStep::RunPipeline);
    steps.push(RunStep::ListObjects(owned("census")));
    assert(steps_view(steps@) =~= spec_run_plan(*args, default_postgres_conn_string()));
    steps
}

/// The connection string of the default database.
pub open spec fn default_postgres_conn_string() -> Seq<char> {
    "postgresql://"@ + "postgres"@ + ":"@ + "postgres"@ + "@"@ + "localhost"@ + ":"@
        + crate::data::rdbms::decimal(6543) + "/"@ + "dair"@
}

/// The step after step `i` of a plan of `len` steps: the next one when step `i`
/// succeeded and is not the last, none otherwise.
pub open spec fn spec_next_step(len: nat, i: int, succeeded: bool) -> Option<int> {
    if succeeded && i + 1 < len { Some(i + 1) } else { None }
}

/// The step to perform after step `index` of a plan of `len` steps ended, successfully
/// or not: a failed step ends the run, as does the last one.
pub fn next_step(len: usize, index: usize, succeeded: bool) -> (r: Option<usize>)
    requires
        index < len,
    ensures
        r matches Some(j) ==> spec_next_step(len as nat, index as int, succeeded) == Some(j as int),
        r is None ==> spec_next_step(len as nat, index as int, succeeded) is None,
{
    if succeeded && index + 1 < len { Some(index + 1) } else { None }
}

/// The step a run of a plan of `len` steps is at after the outcomes `os` of the steps
/// performed so far (true for success), or none once it has ended.
pub open spec fn step_reached(len: nat, os: Seq<bool>) -> Option<int>
    decreases os.len(),
{
    if os.len() == 0 {
        if len > 0 { Some(0) } else { None }
    } else {
        match step_reached(len, os.drop_last()) {
            Some(i) => spec_next_step(len, i, os.last()),
            None => None,
        }
    }
}

/// A step of the plan runs only when every step before it succeeded: after the outcomes
/// `os`, the run is at step `os.len()`, and only if each of them was a success.
pub proof fn lemma_step_runs_only_after_successes(len: nat, os: Seq<bool>)
    ensures
        step_reached(len, os) matches Some(i) ==> i == os.len() && i < len && forall|j: int| 0 <= j < os.len() ==> #[trigger] os[j],
    decreases os.len(),
{
    if os.len() > 0 {
        lemma_step_runs_only_after_successes(len, os.drop_last());
        if step_reached(len, os) is Some {
            assert forall|j: int| 0 <= j < os.len() implies #[trigger] os[j] by {
                if j < os.len() - 1 {
                    assert(os.drop_last()[j] == os[j]);
                }
            }
        }
    }
}

/// A failed step ends the run: once any step has failed, no later step runs.
pub proof fn lemma_failure_ends_run(len: nat, os: Seq<bool>, j: int)
    requires
        0 <= j < os.len(),
        !os[j],
    ensures
        step_reached(len, os) is None,
{
    lemma_step_runs_only_after_successes(len, os);
}

/// The run plan begins by connecting to the database; when that connection fails, no
/// table is dropped, no bucket deleted, no context built and no pipeline run.
pub proof fn lemma_failed_connection_runs_nothing_else(args: Args, connection: Seq<char>, os: Seq<bool>)
    requires
        os.len() > 0,
        !os[0],
    ensures
        spec_run_plan(args, connection)[0] == RunStepView::Connect(connection, 20),
        step_reached(spec_run_plan(args, connection).len(), os) is None,
{
    lemma_run_plan_follows_flags(args, connection);
    lemma_failure_ends_run(spec_run_plan(args, connection).len(), os, 0);
}

} // verus!
