//! Census ingestion pipeline: the decisions, queries, paths and plans behind the
//! pipeline that downloads the ONS census teaching sample, expands it, persists it to
//! Postgres and object storage, and reads it back.
//!
//! Everything that talks to the outside world (files, HTTP, Postgres, S3, dataframes)
//! is driven by the caller, which performs the actions that the state machines of this
//! crate ask for and hands back what happened.

mod text;
pub mod paths;
pub mod data;
pub mod cli;
pub mod errors;
pub mod pipeline;
pub mod setup;

pub use crate::cli::Args;
pub use crate::data::DataStore;
pub use crate::data::blob::{MultipartUpload, S3Config};
pub use crate::data::rdbms::{PostgresConn, TableLoad};
pub use crate::errors::{PipelineBuildError, PipelineValidationError};
pub use crate::paths::join_path;
pub use crate::pipeline::context::{Context, ContextBuilder};
pub use crate::pipeline::run::PipelineRun;
pub use crate::pipeline::stage::{Action, Event, FrameSource, Stage, StageKind};
pub use crate::pipeline::stages::DatasetConfig;
pub use crate::pipeline::stages::ensure_raw::LoadRawData;
pub use crate::pipeline::stages::expand_dataset::ExpandDataset;
pub use crate::pipeline::stages::filters::{ComplexDataFilter, SimpleDataFilter};
pub use crate::pipeline::stages::load_from_postgres::LoadFromPostgres;
pub use crate::pipeline::stages::load_from_s3::LoadFromS3;
pub use crate::pipeline::stages::persist_postgres::PersistPostgres;
pub use crate::pipeline::stages::persist_s3::PersistS3;
pub use crate::pipeline::{Compete, Cons, Here, LoadState, Nil, PersistState, Pipeline, Postgres, S3, Start, There};
