//! The state that flows through the pipeline, and its builder.

use vstd::prelude::*;
use crate::cli::Args;
use crate::data::blob::S3Config;
use crate::data::rdbms::PostgresConn;
use crate::paths::{join_path, spec_join};
use crate::pipeline::stages::DatasetConfig;
use crate::text::{concat2, owned};

verus! {

/// The state container that flows through the pipeline. `Frame` is the dataframe type,
/// `Pool` the database pool and `Client` the object-storage client that the caller
/// works with; the pipeline only looks at whether they are there.
pub struct Context<Frame, Pool, Client> {
    pub args: Args,
    pub dataset_config: DatasetConfig,
    pub raw_frame: Option<Frame>,
    pub expanded_frame: Option<Frame>,
    pub simple_filter_frame: Option<Frame>,
    pub complex_filter_frame: Option<Frame>,
    pub db_pool: Option<Pool>,
    pub pg_conn: Option<PostgresConn>,
    pub s3_client: Option<Client>,
    pub s3_config: Option<S3Config>,
    pub table_name: Option<String>,
    pub bucket_name: Option<String>,
    pub cache_dir: String,
}

impl<Frame, Pool, Client> Context<Frame, Pool, Client> {
    /// A context with nothing but the arguments, the dataset configuration and the data
    /// directory as cache directory.
    pub fn _from_args(args: &Args, dataset_config: DatasetConfig, current_dir: &str) -> (r: Result<Self, String>)
        ensures
            r matches Ok(c) && c == (Context::<Frame, Pool, Client> {
                args: *args,
                dataset_config,
                raw_frame: None,
                expanded_frame: None,
                simple_filter_frame: None,
                complex_filter_frame: None,
                db_pool: None,
                pg_conn: None,
                s3_client: None,
                s3_config: None,
                table_name: None,
                bucket_name: None,
                cache_dir: c.cache_dir,
            }) && c.cache_dir@ == args.spec_data_path(current_dir@),
    {
        let cache_dir = args.get_data_path(current_dir);
        Ok(Context {
            args: args.clone(),
            dataset_config,
            raw_frame: None,
            expanded_frame: None,
            simple_filter_frame: None,
            complex_filter_frame: None,
            db_pool: None,
            pg_conn: None,
            s3_client: None,
            s3_config: None,
            table_name: None,
            bucket_name: None,
            cache_dir,
        })
    }

    /// A builder seeded with the arguments, the dataset configuration and the data
    /// directory as cache directory.
    pub fn builder(args: &Args, dataset_config: DatasetConfig, current_dir: &str) -> (r: ContextBuilder<Frame, Pool, Client>)
        ensures
            r.args == *args,
            r.dataset_config == dataset_config,
            r.is_empty(),
            r.cache_dir matches Some(d) && d@ == args.spec_data_path(current_dir@),
    {
        ContextBuilder::new(args.clone(), dataset_config, current_dir)
    }

    pub open spec fn spec_raw_dir(&self) -> Seq<char> {
        spec_join(self.cache_dir@, "raw"@)
    }

    pub open spec fn spec_large_dir(&self) -> Seq<char> {
        spec_join(self.cache_dir@, "large"@)
    }

    /// The raw data directory under the cache directory.
    pub fn raw_dir(&self) -> (r: String)
        ensures
            r@ == self.spec_raw_dir(),
    {
        join_path(self.cache_dir.as_str(), "raw")
    }

    /// The expanded data directory under the cache directory.
    pub fn large_dir(&self) -> (r: String)
        ensures
            r@ == self.spec_large_dir(),
    {
        join_path(self.cache_dir.as_str(), "large")
    }

    /// The bucket the pipeline works with: the configured one, `census` by default.
    pub open spec fn spec_bucket(&self) -> Seq<char> {
        match self.bucket_name {
            Some(b) => b@,
            None => "census"@,
        }
    }

    pub fn bucket(&self) -> (r: String)
        ensures
            r@ == self.spec_bucket(),
    {
        match &self.bucket_name {
            Some(b) => b.clone(),
            None => owned("census"),
        }
    }
}

/// How a frame of the context is summarised: by its schema when it is there.
pub open spec fn frame_summary<Frame>(frame: Option<Frame>, schema: Seq<char>) -> Seq<char> {
    if frame is Some { "LazyFrame schema: "@ + schema } else { "None"@ }
}

fn frame_summary_text<Frame>(frame: &Option<Frame>, schema: &str) -> (r: String)
    ensures
        r@ == frame_summary(*frame, schema@),
{
    if frame.is_some() {
        concat2("LazyFrame schema: ", schema)
    } else {
        owned("None")
    }
}

impl<Frame, Pool, Client> Context<Frame, Pool, Client> {
    pub open spec fn spec_summary(&self, raw_schema: Seq<char>, expanded_schema: Seq<char>, pool_debug: Seq<char>) -> Seq<char> {
        "Args: "@ + self.args.spec_debug() + ", Raw Frame: "@ + frame_summary(self.raw_frame, raw_schema)
            + ", Expanded Frame: "@ + frame_summary(self.expanded_frame, expanded_schema) + ", DB Pool: "@
            + pool_debug + ", Cache Dir: "@ + self.cache_dir@
    }

    /// A one-line description of the context that shows the frames by their schemas
    /// (`raw_schema` and `expanded_schema`, the debug forms of the schemas of the raw and
    /// expanded frames, used only when the frame is there) rather than their contents;
    /// `pool_debug` is the debug form of the database pool.
    pub fn summary_text(&self, raw_schema: &str, expanded_schema: &str, pool_debug: &str) -> (r: String)
        ensures
            r@ == self.spec_summary(raw_schema@, expanded_schema@, pool_debug@),
            self.args.plain_paths() ==> r@ == "Args: "@ + self.args.spec_debug_plain() + ", Raw Frame: "@
                + frame_summary(self.raw_frame, raw_schema@) + ", Expanded Frame: "@
                + frame_summary(self.expanded_frame, expanded_schema@) + ", DB Pool: "@ + pool_debug@
                + ", Cache Dir: "@ + self.cache_dir@,
    {
        let mut s = owned("Args: ");
        let a = self.args.debug_text();
        s.append(a.as_str());
        s.append(", Raw Frame: ");
        let raw = frame_summary_text(&self.raw_frame, raw_schema);
        s.append(raw.as_str());
        s.append(", Expanded Frame: ");
        let expanded = frame_summary_text(&self.expanded_frame, expanded_schema);
        s.append(expanded.as_str());
        s.append(", DB Pool: ");
        s.append(pool_debug);
        s.append(", Cache Dir: ");
        s.append(self.cache_dir.as_str());
        s
    }
}

/// Builder of a context, with the optional connections and configuration added one by one.
pub struct ContextBuilder<Frame, Pool, Client> {
    pub args: Args,
    pub dataset_config: DatasetConfig,
    pub raw_frame: Option<Frame>,
    pub expanded_frame: Option<Frame>,
    pub db_pool: Option<Pool>,
    pub pg_conn: Option<PostgresConn>,
    pub s3_client: Option<Client>,
    pub s3_config: Option<S3Config>,
    pub table_name: Option<String>,
    pub bucket_name: Option<String>,
    pub cache_dir: Option<String>,
}

impl<Frame, Pool, Client> ContextBuilder<Frame, Pool, Client> {
    /// Nothing but the arguments, configuration and cache directory is set.
    pub open spec fn is_empty(&self) -> bool {
        &&& self.raw_frame is None
        &&& self.expanded_frame is None
        &&& self.db_pool is None
        &&& self.pg_conn is None
        &&& self.s3_client is None
        &&& self.s3_config is None
        &&& self.table_name is None
        &&& self.bucket_name is None
    }

    /// A builder with the data directory of `args` as cache directory and nothing else.
    pub fn new(args: Args, dataset_config: DatasetConfig, current_dir: &str) -> (r: Self)
        ensures
            r.args == args,
            r.dataset_config == dataset_config,
            r.is_empty(),
            r.cache_dir matches Some(d) && d@ == args.spec_data_path(current_dir@),
    {
        let cache_dir = args.get_data_path(current_dir);
        ContextBuilder {
            args,
            dataset_config,
            raw_frame: None,
            expanded_frame: None,
            db_pool: None,
            pg_conn: None,
            s3_client: None,
            s3_config: None,
            table_name: None,
            bucket_name: None,
            cache_dir: Some(cache_dir),
        }
    }

    pub fn _with_raw_frame(self, raw_frame: Frame) -> (r: Self)
        ensures
            r == (ContextBuilder { raw_frame: Some(raw_frame), ..self }),
            r == self.apply(Setter::RawFrame(raw_frame)),
    {
        ContextBuilder { raw_frame: Some(raw_frame), ..self }
    }

    pub fn _with_expanded_frame(self, expanded_frame: Frame) -> (r: Self)
        ensures
            r == (ContextBuilder { expanded_frame: Some(expanded_frame), ..self }),
            r == self.apply(Setter::ExpandedFrame(expanded_frame)),
    {
        ContextBuilder { expanded_frame: Some(expanded_frame), ..self }
    }

    pub fn with_db_pool(self, db_pool: Pool) -> (r: Self)
        ensures
            r == (ContextBuilder { db_pool: Some(db_pool), ..self }),
            r == self.apply(Setter::DbPool(db_pool)),
    {
        ContextBuilder { db_pool: Some(db_pool), ..self }
    }

    pub fn with_pg_conn(self, pg_conn: PostgresConn) -> (r: Self)
        ensures
            r == (ContextBuilder { pg_conn: Some(pg_conn), ..self }),
            r == self.apply(Setter::PgConn(pg_conn)),
    {
        ContextBuilder { pg_conn: Some(pg_conn), ..self }
    }

    pub fn with_s3_client(self, s3_client: Client) -> (r: Self)
        ensures
            r == (ContextBuilder { s3_client: Some(s3_client), ..self }),
            r == self.apply(Setter::S3Client(s3_client)),
    {
        ContextBuilder { s3_client: Some(s3_client), ..self }
    }

    pub fn with_s3_config(self, s3_config: S3Config) -> (r: Self)
        ensures
            r == (ContextBuilder { s3_config: Some(s3_config), ..self }),
            r == self.apply(Setter::S3Config(s3_config)),
    {
        ContextBuilder { s3_config: Some(s3_config), ..self }
    }

    pub fn with_table_name(self, table_name: String) -> (r: Self)
        ensures
            r == (ContextBuilder { table_name: Some(table_name), ..self }),
            r == self.apply(Setter::TableName(table_name)),
    {
        ContextBuilder { table_name: Some(table_name), ..self }
    }

    pub fn with_bucket_name(self, bucket_name: String) -> (r: Self)
        ensures
            r == (ContextBuilder { bucket_name: Some(bucket_name), ..self }),
            r == self.apply(Setter::BucketName(bucket_name)),
    {
        ContextBuilder { bucket_name: Some(bucket_name), ..self }
    }

    pub fn with_cache_dir(self, cache_dir: String) -> (r: Self)
        ensures
            r == (ContextBuilder { cache_dir: Some(cache_dir), ..self }),
            r == self.apply(Setter::CacheDir(cache_dir)),
    {
        ContextBuilder { cache_dir: Some(cache_dir), ..self }
    }

    pub open spec fn spec_build(self) -> Context<Frame, Pool, Client> {
        Context {
            args: self.args,
            dataset_config: self.dataset_config,
            raw_frame: self.raw_frame,
            expanded_frame: self.expanded_frame,
            simple_filter_frame: None,
            complex_filter_frame: None,
            db_pool: self.db_pool,
            pg_conn: self.pg_conn,
            s3_client: self.s3_client,
            s3_config: self.s3_config,
            table_name: self.table_name,
            bucket_name: self.bucket_name,
            cache_dir: self.cache_dir.unwrap(),
        }
    }

    /// The context with everything set so far; refused when no cache directory is set.
    pub fn build(self) -> (r: Result<Context<Frame, Pool, Client>, String>)
        ensures
            r is Ok <==> self.cache_dir is Some,
            r matches Ok(c) ==> c == self.spec_build(),
            r matches Err(m) ==> m@ == "Cache directory must be provided "@,
    {
        let ghost me = self;
        match self.cache_dir {
            None => Err(owned("Cache directory must be provided ")),
            Some(cache_dir) => Ok(Context {
                args: self.args,
                dataset_config: self.dataset_config,
                raw_frame: self.raw_frame,
                expanded_frame: self.expanded_frame,
                simple_filter_frame: None,
                complex_filter_frame: None,
                db_pool: self.db_pool,
                pg_conn: self.pg_conn,
                s3_client: self.s3_client,
                s3_config: self.s3_config,
                table_name: self.table_name,
                bucket_name: self.bucket_name,
                cache_dir,
            }),
        }
    }
}

/// One call of a builder setter, with its argument.
pub enum Setter<Frame, Pool, Client> {
    RawFrame(Frame),
    ExpandedFrame(Frame),
    DbPool(Pool),
    PgConn(PostgresConn),
    S3Client(Client),
    S3Config(S3Config),
    TableName(String),
    BucketName(String),
    CacheDir(String),
}

impl<Frame, Pool, Client> ContextBuilder<Frame, Pool, Client> {
    /// The builder after one setter call: what the `with_*` methods return.
    pub open spec fn apply(self, s: Setter<Frame, Pool, Client>) -> Self {
        match s {
            Setter::RawFrame(f) => ContextBuilder { raw_frame: Some(f), ..self },
            Setter::ExpandedFrame(f) => ContextBuilder { expanded_frame: Some(f), ..self },
            Setter::DbPool(p) => ContextBuilder { db_pool: Some(p), ..self },
            Setter::PgConn(c) => ContextBuilder { pg_conn: Some(c), ..self },
            Setter::S3Client(c) => ContextBuilder { s3_client: Some(c), ..self },
            Setter::S3Config(c) => ContextBuilder { s3_config: Some(c), ..self },
            Setter::TableName(t) => ContextBuilder { table_name: Some(t), ..self },
            Setter::BucketName(b) => ContextBuilder { bucket_name: Some(b), ..self },
            Setter::CacheDir(d) => ContextBuilder { cache_dir: Some(d), ..self },
        }
    }

    /// The builder after the setter calls `ss`, in turn.
    pub open spec fn apply_all(self, ss: Seq<Setter<Frame, Pool, Client>>) -> Self
        decreases ss.len(),
    {
        if ss.len() == 0 {
            self
        } else {
            self.apply_all(ss.drop_last()).apply(ss.last())
        }
    }
}

/// The argument of the last call in `ss` that `pick` selects, if any.
pub open spec fn last_set<Frame, Pool, Client, T>(
    ss: Seq<Setter<Frame, Pool, Client>>,
    pick: spec_fn(Setter<Frame, Pool, Client>) -> Option<T>,
) -> Option<T>
    decreases ss.len(),
{
    if ss.len() == 0 {
        None
    } else if pick(ss.last()) is Some {
        pick(ss.last())
    } else {
        last_set(ss.drop_last(), pick)
    }
}

/// `value` when set, else `fallback`.
pub open spec fn or_keep<T>(value: Option<T>, fallback: Option<T>) -> Option<T> {
    if value is Some { value } else { fallback }
}

/// The law of the builder: after any sequence of setter calls, each field holds the
/// argument of the last call that set it, or what it held before when no call did; the
/// arguments and dataset configuration stay as they were.
pub proof fn lemma_builder_last_value_wins<Frame, Pool, Client>(
    b: ContextBuilder<Frame, Pool, Client>,
    ss: Seq<Setter<Frame, Pool, Client>>,
)
    ensures
        b.apply_all(ss).args == b.args,
        b.apply_all(ss).dataset_config == b.dataset_config,
        b.apply_all(ss).raw_frame == or_keep(last_set(ss, |s: Setter<Frame, Pool, Client>| match s { Setter::RawFrame(f) => Some(f), _ => None }), b.raw_frame),
        b.apply_all(ss).expanded_frame == or_keep(last_set(ss, |s: Setter<Frame, Pool, Client>| match s { Setter::ExpandedFrame(f) => Some(f), _ => None }), b.expanded_frame),
        b.apply_all(ss).db_pool == or_keep(last_set(ss, |s: Setter<Frame, Pool, Client>| match s { Setter::DbPool(p) => Some(p), _ => None }), b.db_pool),
        b.apply_all(ss).pg_conn == or_keep(last_set(ss, |s: Setter<Frame, Pool, Client>| match s { Setter::PgConn(c) => Some(c), _ => None }), b.pg_conn),
        b.apply_all(ss).s3_client == or_keep(last_set(ss, |s: Setter<Frame, Pool, Client>| match s { Setter::S3Client(c) => Some(c), _ => None }), b.s3_client),
        b.apply_all(ss).s3_config == or_keep(last_set(ss, |s: Setter<Frame, Pool, Client>| match s { Setter::S3Config(c) => Some(c), _ => None }), b.s3_config),
        b.apply_all(ss).table_name == or_keep(last_set(ss, |s: Setter<Frame, Pool, Client>| match s { Setter::TableName(t) => Some(t), _ => None }), b.table_name),
        b.apply_all(ss).bucket_name == or_keep(last_set(ss, |s: Setter<Frame, Pool, Client>| match s { Setter::BucketName(n) => Some(n), _ => None }), b.bucket_name),
        b.apply_all(ss).cache_dir == or_keep(last_set(ss, |s: Setter<Frame, Pool, Client>| match s { Setter::CacheDir(d) => Some(d), _ => None }), b.cache_dir),
    decreases ss.len(),
{
    if ss.len() > 0 {
        lemma_builder_last_value_wins(b, ss.drop_last());
    }
}

/// A cache directory once set stays set, whatever setters follow, so a builder made by
/// `new` always builds.
pub proof fn lemma_cache_dir_stays_set<Frame, Pool, Client>(
    b: ContextBuilder<Frame, Pool, Client>,
    ss: Seq<Setter<Frame, Pool, Client>>,
)
    requires
        b.cache_dir is Some,
    ensures
        b.apply_all(ss).cache_dir is Some,
    decreases ss.len(),
{
    if ss.len() > 0 {
        lemma_cache_dir_stays_set(b, ss.drop_last());
    }
}

/// The law of a builder made by `new`: after any sequence of setter calls it builds,
/// and the context holds the arguments and dataset configuration it was made with, each
/// optional field the argument of the last call that set it (none when no call did), no
/// filtered frames, and as cache directory the last one set, or the data directory.
pub proof fn lemma_builder_from_new_builds_last_values<Frame, Pool, Client>(
    b: ContextBuilder<Frame, Pool, Client>,
    data_dir: Seq<char>,
    ss: Seq<Setter<Frame, Pool, Client>>,
)
    requires
        b.is_empty(),
        b.cache_dir matches Some(d) && d@ == data_dir,
    ensures
        b.apply_all(ss).cache_dir is Some,
        b.apply_all(ss).spec_build() == (Context::<Frame, Pool, Client> {
            args: b.args,
            dataset_config: b.dataset_config,
            raw_frame: last_set(ss, |s: Setter<Frame, Pool, Client>| match s { Setter::RawFrame(f) => Some(f), _ => None }),
            expanded_frame: last_set(ss, |s: Setter<Frame, Pool, Client>| match s { Setter::ExpandedFrame(f) => Some(f), _ => None }),
            simple_filter_frame: None,
            complex_filter_frame: None,
            db_pool: last_set(ss, |s: Setter<Frame, Pool, Client>| match s { Setter::DbPool(p) => Some(p), _ => None }),
            pg_conn: last_set(ss, |s: Setter<Frame, Pool, Client>| match s { Setter::PgConn(c) => Some(c), _ => None }),
            s3_client: last_set(ss, |s: Setter<Frame, Pool, Client>| match s { Setter::S3Client(c) => Some(c), _ => None }),
            s3_config: last_set(ss, |s: Setter<Frame, Pool, Client>| match s { Setter::S3Config(c) => Some(c), _ => None }),
            table_name: last_set(ss, |s: Setter<Frame, Pool, Client>| match s { Setter::TableName(t) => Some(t), _ => None }),
            bucket_name: last_set(ss, |s: Setter<Frame, Pool, Client>| match s { Setter::BucketName(n) => Some(n), _ => None }),
            cache_dir: or_keep(last_set(ss, |s: Setter<Frame, Pool, Client>| match s { Setter::CacheDir(d) => Some(d), _ => None }), b.cache_dir).unwrap(),
        }),
        b.apply_all(ss).spec_build().cache_dir@ == match last_set(ss, |s: Setter<Frame, Pool, Client>| match s { Setter::CacheDir(d) => Some(d), _ => None }) {
            Some(d) => d@,
            None => data_dir,
        },
{
    lemma_builder_last_value_wins(b, ss);
    lemma_cache_dir_stays_set(b, ss);
}

} // verus!
