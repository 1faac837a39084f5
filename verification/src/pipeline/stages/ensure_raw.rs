//! Stage that makes sure the raw census sample is at hand: read from the local CSV
//! when present, otherwise downloaded and saved, then archived as parquet.

use vstd::prelude::*;
use crate::data::etl::RAW_URL;
use crate::paths::{join_path, spec_join};
use crate::pipeline::context::Context;
use crate::pipeline::stage::{realizes, Action, ActionView, Event, EventView, FrameSource, Outcome, Phase, Stage, StageKind, StepResult};
use crate::text::owned;

verus! {

pub struct LoadRawData;

impl Stage for LoadRawData {
    open spec fn spec_kind(&self) -> StageKind {
        StageKind::LoadRawData
    }

    fn name(&self) -> (r: &'static str) {
        "load_raw_data"
    }

    fn kind(&self) -> (r: StageKind) {
        StageKind::LoadRawData
    }
}

pub open spec fn raw_dir<Frame, Pool, Client>(ctx: Context<Frame, Pool, Client>) -> Seq<char> {
    spec_join(ctx.cache_dir@, "raw"@)
}

pub open spec fn raw_csv<Frame, Pool, Client>(ctx: Context<Frame, Pool, Client>) -> Seq<char> {
    spec_join(raw_dir(ctx), "census.csv"@)
}

pub open spec fn raw_parquet<Frame, Pool, Client>(ctx: Context<Frame, Pool, Client>) -> Seq<char> {
    spec_join(raw_dir(ctx), "census.parquet"@)
}

impl LoadRawData {
    pub open spec fn spec_begin<Frame, Pool, Client>(ctx: Context<Frame, Pool, Client>) -> Outcome<Frame, Pool, Client> {
        Outcome::Continue(Phase::RawDir, None, ActionView::CreateDirAll(raw_dir(ctx)))
    }

    /// Create the raw directory; read the local CSV, or download it and save it when the
    /// read fails; preview; archive as parquet; keep the frame as the raw frame.
    pub open spec fn spec_next<Frame, Pool, Client>(
        phase: Phase,
        working: Option<Frame>,
        ctx: Context<Frame, Pool, Client>,
        e: EventView<Frame>,
    ) -> Outcome<Frame, Pool, Client> {
        match (phase, e) {
            (Phase::RawCsvRead, EventView::Failed) =>
                Outcome::Continue(Phase::RawDownload, working, ActionView::DownloadCsv(RAW_URL@)),
            (_, EventView::Failed) => Outcome::Stop(ActionView::Fail(None)),
            (Phase::RawDir, EventView::Done) =>
                Outcome::Continue(Phase::RawCsvRead, working, ActionView::TryReadCsv(raw_csv(ctx))),
            (Phase::RawCsvRead, EventView::Frame(f)) =>
                Outcome::Continue(Phase::RawPreview, Some(f), ActionView::Preview(FrameSource::Working)),
            (Phase::RawDownload, EventView::Frame(f)) =>
                Outcome::Continue(Phase::RawCsvWrite, Some(f), ActionView::WriteCsv(FrameSource::Working, raw_csv(ctx))),
            (Phase::RawCsvWrite, EventView::Done) =>
                Outcome::Continue(Phase::RawPreview, working, ActionView::Preview(FrameSource::Working)),
            (Phase::RawPreview, EventView::Done) =>
                Outcome::Continue(Phase::RawParquetWrite, working, ActionView::WriteParquet(FrameSource::Working, raw_parquet(ctx))),
            (Phase::RawParquetWrite, EventView::Done) => Outcome::Complete(Context { raw_frame: working, ..ctx }),
            _ => Outcome::Stop(ActionView::Fail(None)),
        }
    }

    pub(crate) fn begin<Frame, Pool, Client>(ctx: &Context<Frame, Pool, Client>) -> (r: StepResult<Frame>)
        ensures
            realizes(r, *ctx, *ctx, Self::spec_begin(*ctx)),
    {
        let dir = join_path(ctx.cache_dir.as_str(), "raw");
        StepResult::Continue(Phase::RawDir, None, Action::CreateDirAll(dir))
    }

    pub(crate) fn next<Frame, Pool, Client>(
        phase: Phase,
        working: Option<Frame>,
        ctx: &mut Context<Frame, Pool, Client>,
        e: Event<Frame>,
    ) -> (r: StepResult<Frame>)
        ensures
            realizes(r, *old(ctx), *final(ctx), Self::spec_next(phase, working, *old(ctx), e.view())),
    {
        let dir = join_path(ctx.cache_dir.as_str(), "raw");
        match (phase, e) {
            (Phase::RawCsvRead, Event::Failed) =>
                StepResult::Continue(Phase::RawDownload, working, Action::DownloadCsv(owned(RAW_URL))),
            (_, Event::Failed) => StepResult::Stop(Action::Fail(None)),
            (Phase::RawDir, Event::Done) =>
                StepResult::Continue(Phase::RawCsvRead, working, Action::TryReadCsv(join_path(dir.as_str(), "census.csv"))),
            (Phase::RawCsvRead, Event::Frame(f)) =>
                StepResult::Continue(Phase::RawPreview, Some(f), Action::Preview(FrameSource::Working)),
            (Phase::RawDownload, Event::Frame(f)) => StepResult::Continue(
                Phase::RawCsvWrite,
                Some(f),
                Action::WriteCsv(FrameSource::Working, join_path(dir.as_str(), "census.csv")),
            ),
            (Phase::RawCsvWrite, Event::Done) =>
                StepResult::Continue(Phase::RawPreview, working, Action::Preview(FrameSource::Working)),
            (Phase::RawPreview, Event::Done) => StepResult::Continue(
                Phase::RawParquetWrite,
                working,
                Action::WriteParquet(FrameSource::Working, join_path(dir.as_str(), "census.parquet")),
            ),
            (Phase::RawParquetWrite, Event::Done) => {
                ctx.raw_frame = working;
                StepResult::Complete
            },
            _ => StepResult::Stop(Action::Fail(None)),
        }
    }
}

/// The sample is downloaded only when reading the local CSV failed, and a local CSV
/// that reads is used as it is: previewed and archived, never downloaded or rewritten.
/// A downloaded sample is saved where the read looked for it, for the next run.
pub proof fn lemma_local_csv_is_reused<Frame, Pool, Client>(
    phase: Phase,
    working: Option<Frame>,
    ctx: Context<Frame, Pool, Client>,
    e: EventView<Frame>,
    f: Frame,
)
    ensures
        LoadRawData::spec_next(phase, working, ctx, e) matches Outcome::Continue(_, _, a) && a is DownloadCsv
            ==> phase == Phase::RawCsvRead && e is Failed,
        LoadRawData::spec_next(Phase::RawCsvRead, working, ctx, EventView::Frame(f))
            == Outcome::<Frame, Pool, Client>::Continue(Phase::RawPreview, Some(f), ActionView::Preview(FrameSource::Working)),
        LoadRawData::spec_next(Phase::RawDir, working, ctx, EventView::Done)
            == Outcome::<Frame, Pool, Client>::Continue(Phase::RawCsvRead, working, ActionView::TryReadCsv(raw_csv(ctx))),
        LoadRawData::spec_next(Phase::RawDownload, working, ctx, EventView::Frame(f))
            == Outcome::<Frame, Pool, Client>::Continue(Phase::RawCsvWrite, Some(f), ActionView::WriteCsv(FrameSource::Working, raw_csv(ctx))),
{
}

/// The law of the raw stage: the frame that was read from `raw/census.csv`, or
/// downloaded from the ONS sample's address and saved there, is the one previewed,
/// archived to `raw/census.parquet` and kept as the context's raw frame.
pub proof fn lemma_raw_frame_is_archived_and_kept<Frame, Pool, Client>(
    f: Frame,
    working: Option<Frame>,
    ctx: Context<Frame, Pool, Client>,
)
    ensures
        LoadRawData::spec_begin(ctx) == Outcome::<Frame, Pool, Client>::Continue(
            Phase::RawDir, None, ActionView::CreateDirAll(spec_join(ctx.cache_dir@, "raw"@))),
        LoadRawData::spec_next(Phase::RawDir, working, ctx, EventView::Done) == Outcome::<Frame, Pool, Client>::Continue(
            Phase::RawCsvRead, working, ActionView::TryReadCsv(spec_join(spec_join(ctx.cache_dir@, "raw"@), "census.csv"@))),
        LoadRawData::spec_next(Phase::RawCsvRead, working, ctx, EventView::Failed) == Outcome::<Frame, Pool, Client>::Continue(
            Phase::RawDownload, working, ActionView::DownloadCsv(RAW_URL@)),
        LoadRawData::spec_next(Phase::RawCsvRead, working, ctx, EventView::Frame(f))
            == Outcome::<Frame, Pool, Client>::Continue(Phase::RawPreview, Some(f), ActionView::Preview(FrameSource::Working)),
        LoadRawData::spec_next(Phase::RawDownload, working, ctx, EventView::Frame(f)) == Outcome::<Frame, Pool, Client>::Continue(
            Phase::RawCsvWrite, Some(f), ActionView::WriteCsv(FrameSource::Working, spec_join(spec_join(ctx.cache_dir@, "raw"@), "census.csv"@))),
        LoadRawData::spec_next(Phase::RawCsvWrite, Some(f), ctx, EventView::Done)
            == Outcome::<Frame, Pool, Client>::Continue(Phase::RawPreview, Some(f), ActionView::Preview(FrameSource::Working)),
        LoadRawData::spec_next(Phase::RawPreview, Some(f), ctx, EventView::Done) == Outcome::<Frame, Pool, Client>::Continue(
            Phase::RawParquetWrite, Some(f), ActionView::WriteParquet(FrameSource::Working, spec_join(spec_join(ctx.cache_dir@, "raw"@), "census.parquet"@))),
        LoadRawData::spec_next(Phase::RawParquetWrite, Some(f), ctx, EventView::Done)
            == Outcome::<Frame, Pool, Client>::Complete(Context { raw_frame: Some(f), ..ctx }),
{
}

} // verus!
