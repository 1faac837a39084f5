//! The stages of a pipeline and the conversation between a running pipeline and the
//! caller: the actions it asks for and the events the caller reports back.

use vstd::prelude::*;
use crate::data::etl::{selection_view, ColumnSelection};
use crate::data::expr::Expr;
use crate::pipeline::context::Context;

verus! {

/// The kinds of stage a pipeline is made of.
#[derive(PartialEq, Eq, Structural, Clone, Copy, Debug)]
pub enum StageKind {
    LoadRawData,
    ExpandDataset,
    PersistPostgres,
    PersistS3,
    LoadFromPostgres,
    LoadFromS3,
    SimpleFilter,
    ComplexFilter,
}

impl StageKind {
    pub open spec fn spec_name(self) -> Seq<char> {
        match self {
            StageKind::LoadRawData => "load_raw_data"@,
            StageKind::ExpandDataset => "expand_dataset"@,
            StageKind::PersistPostgres => "persist_postgres"@,
            StageKind::PersistS3 => "persist_s3"@,
            StageKind::LoadFromPostgres => "load_from_postgres"@,
            StageKind::LoadFromS3 => "load_from_s3"@,
            StageKind::SimpleFilter => "simple_filter"@,
            StageKind::ComplexFilter => "complex_filter"@,
        }
    }

    /// The name the stage is logged under.
    pub fn name(&self) -> (r: &'static str)
        ensures
            r@ == self.spec_name(),
    {
        match self {
            StageKind::LoadRawData => "load_raw_data",
            StageKind::ExpandDataset => "expand_dataset",
            StageKind::PersistPostgres => "persist_postgres",
            StageKind::PersistS3 => "persist_s3",
            StageKind::LoadFromPostgres => "load_from_postgres",
            StageKind::LoadFromS3 => "load_from_s3",
            StageKind::SimpleFilter => "simple_filter",
            StageKind::ComplexFilter => "complex_filter",
        }
    }

    /// Where the stage sits in a pipeline: preparing the dataset (0), persisting it (1),
    /// or retrieving and filtering it (2).
    pub open spec fn group(self) -> int {
        match self {
            StageKind::LoadRawData | StageKind::ExpandDataset => 0,
            StageKind::PersistPostgres | StageKind::PersistS3 => 1,
            _ => 2,
        }
    }

    pub open spec fn is_retrieval(self) -> bool {
        self == StageKind::LoadFromPostgres || self == StageKind::LoadFromS3
    }
}

/// A stage of the pipeline.
pub trait Stage {
    spec fn spec_kind(&self) -> StageKind;

    /// The name the stage is logged under.
    fn name(&self) -> (r: &'static str)
        ensures
            r@ == self.spec_kind().spec_name();

    /// The kind of this stage.
    fn kind(&self) -> (r: StageKind)
        ensures
            r == self.spec_kind();
}

/// Which frame an action works on.
#[derive(PartialEq, Eq, Structural, Clone, Copy, Debug)]
pub enum FrameSource {
    /// The frame the current stage is working on.
    Working,
    /// The raw frame of the context.
    Raw,
    /// The expanded frame of the context.
    Expanded,
}

/// What the caller reports after performing an action.
pub enum Event<Frame> {
    /// Start the run.
    Begin,
    /// The action finished.
    Done,
    /// The action failed; its error is the error of the run unless the pipeline recovers.
    Failed,
    /// The frame the action produced.
    Frame(Frame),
    /// Whether the thing asked about exists.
    Exists(bool),
    /// The number of rows asked for.
    Count(i64),
    /// The names asked for.
    Names(Vec<String>),
}

pub enum EventView<Frame> {
    Begin,
    Done,
    Failed,
    Frame(Frame),
    Exists(bool),
    Count(int),
    Names(Seq<Seq<char>>),
}

impl<Frame> Event<Frame> {
    pub open spec fn view(self) -> EventView<Frame> {
        match self {
            Event::Begin => EventView::Begin,
            Event::Done => EventView::Done,
            Event::Failed => EventView::Failed,
            Event::Frame(f) => EventView::Frame(f),
            Event::Exists(b) => EventView::Exists(b),
            Event::Count(n) => EventView::Count(n as int),
            Event::Names(v) => EventView::Names(v.deep_view()),
        }
    }
}

/// What a running pipeline asks the caller to do.
pub enum Action {
    /// Create this directory and its parents.
    CreateDirAll(String),
    /// Read the CSV file at this path into a frame.
    TryReadCsv(String),
    /// Download the CSV at this URL into a frame.
    DownloadCsv(String),
    /// Write the frame as CSV to this path.
    WriteCsv(FrameSource, String),
    /// Write the frame as parquet to this path.
    WriteParquet(FrameSource, String),
    /// Show the first rows of the frame.
    Preview(FrameSource),
    /// Report whether a file exists at this path.
    FileExists(String),
    /// Read the parquet file at this path into a frame.
    ReadParquet(String),
    /// Project the frame onto these columns, each renamed to its alias.
    ShortenColumns(FrameSource, Vec<ColumnSelection>),
    /// Add the synthetic income and weight columns, then repeat the rows this many times.
    ExpandRows(FrameSource, usize),
    /// Keep the rows of the frame on which the expression is true.
    Filter(FrameSource, Expr),
    /// Report whether this table exists in the public schema.
    TableExists(String),
    /// Run this counting query and report the count.
    CountRows(String),
    /// Execute this statement.
    ExecuteSql(String),
    /// Stream the frame into this table.
    LoadIntoTable(FrameSource, String),
    /// Report the names of the buckets.
    ListBuckets,
    /// Create this bucket.
    CreateBucket(String),
    /// Report whether the object with this key exists in this bucket.
    ObjectExists(String, String),
    /// Upload the local file at this path to this bucket under this key.
    UploadFile(String, String, String),
    /// Run this query against the database at this connection string.
    QueryPostgres(String, String),
    /// Download the object with this key from this bucket into a frame.
    DownloadFromS3(String, String),
    /// The pipeline has finished.
    Finished,
    /// The pipeline failed: with the error of the failed action, or with this message.
    Fail(Option<String>),
    /// The pipeline cannot go on and the program is to stop with this message.
    Panic(String),
}

pub enum ActionView {
    CreateDirAll(Seq<char>),
    TryReadCsv(Seq<char>),
    DownloadCsv(Seq<char>),
    WriteCsv(FrameSource, Seq<char>),
    WriteParquet(FrameSource, Seq<char>),
    Preview(FrameSource),
    FileExists(Seq<char>),
    ReadParquet(Seq<char>),
    ShortenColumns(FrameSource, Seq<(Seq<char>, Seq<char>)>),
    ExpandRows(FrameSource, nat),
    /// The filter's expression is described by the stage that asks for it.
    Filter(FrameSource),
    TableExists(Seq<char>),
    CountRows(Seq<char>),
    ExecuteSql(Seq<char>),
    LoadIntoTable(FrameSource, Seq<char>),
    ListBuckets,
    CreateBucket(Seq<char>),
    ObjectExists(Seq<char>, Seq<char>),
    UploadFile(Seq<char>, Seq<char>, Seq<char>),
    QueryPostgres(Seq<char>, Seq<char>),
    DownloadFromS3(Seq<char>, Seq<char>),
    Finished,
    Fail(Option<Seq<char>>),
    Panic(Seq<char>),
}

impl Action {
    pub open spec fn view(&self) -> ActionView {
        match self {
            Action::CreateDirAll(p) => ActionView::CreateDirAll(p@),
            Action::TryReadCsv(p) => ActionView::TryReadCsv(p@),
            Action::DownloadCsv(u) => ActionView::DownloadCsv(u@),
            Action::WriteCsv(s, p) => ActionView::WriteCsv(*s, p@),
            Action::WriteParquet(s, p) => ActionView::WriteParquet(*s, p@),
            Action::Preview(s) => ActionView::Preview(*s),
            Action::FileExists(p) => ActionView::FileExists(p@),
            Action::ReadParquet(p) => ActionView::ReadParquet(p@),
            Action::ShortenColumns(s, c) => ActionView::ShortenColumns(
                *s,
                c@.map_values(|x: ColumnSelection| selection_view(x)),
            ),
            Action::ExpandRows(s, n) => ActionView::ExpandRows(*s, *n as nat),
            Action::Filter(s, _) => ActionView::Filter(*s),
            Action::TableExists(t) => ActionView::TableExists(t@),
            Action::CountRows(q) => ActionView::CountRows(q@),
            Action::ExecuteSql(q) => ActionView::ExecuteSql(q@),
            Action::LoadIntoTable(s, t) => ActionView::LoadIntoTable(*s, t@),
            Action::ListBuckets => ActionView::ListBuckets,
            Action::CreateBucket(b) => ActionView::CreateBucket(b@),
            Action::ObjectExists(b, k) => ActionView::ObjectExists(b@, k@),
            Action::UploadFile(p, b, k) => ActionView::UploadFile(p@, b@, k@),
            Action::QueryPostgres(u, q) => ActionView::QueryPostgres(u@, q@),
            Action::DownloadFromS3(b, k) => ActionView::DownloadFromS3(b@, k@),
            Action::Finished => ActionView::Finished,
            Action::Fail(m) => ActionView::Fail(match m {
                Some(s) => Some(s@),
                None => None,
            }),
            Action::Panic(m) => ActionView::Panic(m@),
        }
    }
}

impl ActionView {
    /// The frame the action works on, if any.
    pub open spec fn frame_source(self) -> Option<FrameSource> {
        match self {
            ActionView::WriteCsv(s, _) => Some(s),
            ActionView::WriteParquet(s, _) => Some(s),
            ActionView::Preview(s) => Some(s),
            ActionView::ShortenColumns(s, _) => Some(s),
            ActionView::ExpandRows(s, _) => Some(s),
            ActionView::Filter(s) => Some(s),
            ActionView::LoadIntoTable(s, _) => Some(s),
            _ => None,
        }
    }
}

/// Where the current stage stands.
#[derive(PartialEq, Eq, Structural, Clone, Copy, Debug)]
pub enum Phase {
    /// The stage has not started.
    Start,
    RawDir,
    RawCsvRead,
    RawDownload,
    RawCsvWrite,
    RawPreview,
    RawParquetWrite,
    LargeCheck,
    LargeDir,
    Shorten,
    Expand,
    LargeCsvWrite,
    LargeParquetWrite,
    LargeRead,
    LargePreview,
    FilterApply,
    FilterPreview,
    PgTableCheck,
    PgCount,
    PgDrop,
    PgLoad,
    S3List,
    S3Create,
    S3ObjectCheck,
    S3Upload,
    PgQuery,
    S3Download,
}

/// The kind of event a phase waits for.
pub open spec fn event_fits<Frame>(phase: Phase, e: EventView<Frame>) -> bool {
    match phase {
        Phase::Start => e is Begin,
        Phase::LargeCheck => e is Exists,
        Phase::Shorten | Phase::FilterApply => e is Frame,
        Phase::RawCsvRead | Phase::RawDownload | Phase::Expand | Phase::LargeRead | Phase::PgQuery
        | Phase::S3Download => e is Frame || e is Failed,
        Phase::PgTableCheck | Phase::S3ObjectCheck => e is Exists || e is Failed,
        Phase::PgCount => e is Count || e is Failed,
        Phase::S3List => e is Names || e is Failed,
        _ => e is Done || e is Failed,
    }
}

/// What a stage does with an event: ask for the next action, finish with an updated
/// context, or stop the pipeline with a final action.
pub enum Outcome<Frame, Pool, Client> {
    Continue(Phase, Option<Frame>, ActionView),
    Complete(Context<Frame, Pool, Client>),
    Stop(ActionView),
}

/// The executable form of an outcome; a completed stage has already updated the context.
pub enum StepResult<Frame> {
    Continue(Phase, Option<Frame>, Action),
    Complete,
    Stop(Action),
}

/// `r` carries out `o` on a context that went from `before` to `after`.
pub open spec fn realizes<Frame, Pool, Client>(
    r: StepResult<Frame>,
    before: Context<Frame, Pool, Client>,
    after: Context<Frame, Pool, Client>,
    o: Outcome<Frame, Pool, Client>,
) -> bool {
    match o {
        Outcome::Continue(ph, w, a) => r matches StepResult::Continue(ph2, w2, a2)
            && ph2 == ph && w2 == w && a2.view() == a && after == before,
        Outcome::Complete(c) => r is Complete && after == c,
        Outcome::Stop(a) => r matches StepResult::Stop(a2) && a2.view() == a && after == before,
    }
}

} // verus!
