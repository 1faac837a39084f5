//! Stage that provides the expanded dataset: read back from the large parquet when it
//! exists, otherwise built from the raw frame (shortened names, synthetic columns,
//! repeated rows) and saved as CSV and parquet.

use vstd::prelude::*;
use crate::data::etl::{shorten_census_column_names, spec_census_columns};
use crate::data::synthesise::EXPANSION_TIMES;
use crate::paths::{join_path, spec_join};
use crate::pipeline::context::Context;
use crate::pipeline::stage::{realizes, Action, ActionView, Event, EventView, FrameSource, Outcome, Phase, Stage, StageKind, StepResult};
use crate::text::owned;

verus! {

pub struct ExpandDataset;

impl Stage for ExpandDataset {
    open spec fn spec_kind(&self) -> StageKind {
        StageKind::ExpandDataset
    }

    fn name(&self) -> (r: &'static str) {
        "expand_dataset"
    }

    fn kind(&self) -> (r: StageKind) {
        StageKind::ExpandDataset
    }
}

pub open spec fn large_dir<Frame, Pool, Client>(ctx: Context<Frame, Pool, Client>) -> Seq<char> {
    spec_join(ctx.cache_dir@, "large"@)
}

pub open spec fn large_parquet<Frame, Pool, Client>(ctx: Context<Frame, Pool, Client>) -> Seq<char> {
    spec_join(large_dir(ctx), "census.parquet"@)
}

pub open spec fn large_csv<Frame, Pool, Client>(ctx: Context<Frame, Pool, Client>) -> Seq<char> {
    spec_join(large_dir(ctx), "census.csv"@)
}

impl ExpandDataset {
    pub open spec fn spec_begin<Frame, Pool, Client>(ctx: Context<Frame, Pool, Client>) -> Outcome<Frame, Pool, Client> {
        Outcome::Continue(Phase::LargeCheck, None, ActionView::FileExists(large_parquet(ctx)))
    }

    /// With the large parquet present: read it and preview it. Otherwise: create the
    /// directory, shorten the raw frame's columns, expand it, save it as CSV and
    /// parquet, and preview it. The frame becomes the expanded frame.
    pub open spec fn spec_next<Frame, Pool, Client>(
        phase: Phase,
        working: Option<Frame>,
        ctx: Context<Frame, Pool, Client>,
        e: EventView<Frame>,
    ) -> Outcome<Frame, Pool, Client> {
        match (phase, e) {
            (_, EventView::Failed) => Outcome::Stop(ActionView::Fail(None)),
            (Phase::LargeCheck, EventView::Exists(false)) =>
                Outcome::Continue(Phase::LargeDir, working, ActionView::CreateDirAll(large_dir(ctx))),
            (Phase::LargeCheck, EventView::Exists(true)) =>
                Outcome::Continue(Phase::LargeRead, working, ActionView::ReadParquet(large_parquet(ctx))),
            (Phase::LargeDir, EventView::Done) => if ctx.raw_frame is None {
                Outcome::Stop(ActionView::Fail(Some("Raw frame not found"@)))
            } else {
                Outcome::Continue(
                    Phase::Shorten,
                    working,
                    ActionView::ShortenColumns(FrameSource::Raw, spec_census_columns()),
                )
            },
            (Phase::Shorten, EventView::Frame(f)) =>
                Outcome::Continue(Phase::Expand, Some(f), ActionView::ExpandRows(FrameSource::Working, EXPANSION_TIMES as nat)),
            (Phase::Expand, EventView::Frame(f)) =>
                Outcome::Continue(Phase::LargeCsvWrite, Some(f), ActionView::WriteCsv(FrameSource::Working, large_csv(ctx))),
            (Phase::LargeCsvWrite, EventView::Done) =>
                Outcome::Continue(Phase::LargeParquetWrite, working, ActionView::WriteParquet(FrameSource::Working, large_parquet(ctx))),
            (Phase::LargeParquetWrite, EventView::Done) =>
                Outcome::Continue(Phase::LargePreview, working, ActionView::Preview(FrameSource::Working)),
            (Phase::LargeRead, EventView::Frame(f)) =>
                Outcome::Continue(Phase::LargePreview, Some(f), ActionView::Preview(FrameSource::Working)),
            (Phase::LargePreview, EventView::Done) => Outcome::Complete(Context { expanded_frame: working, ..ctx }),
            _ => Outcome::Stop(ActionView::Fail(None)),
        }
    }

    pub(crate) fn begin<Frame, Pool, Client>(ctx: &Context<Frame, Pool, Client>) -> (r: StepResult<Frame>)
        ensures
            realizes(r, *ctx, *ctx, Self::spec_begin(*ctx)),
    {
        let dir = join_path(ctx.cache_dir.as_str(), "large");
        StepResult::Continue(Phase::LargeCheck, None, Action::FileExists(join_path(dir.as_str(), "census.parquet")))
    }

    pub(crate) fn next<Frame, Pool, Client>(
        phase: Phase,
        working: Option<Frame>,
        ctx: &mut Context<Frame, Pool, Client>,
        e: Event<Frame>,
    ) -> (r: StepResult<Frame>)
        ensures
            realizes(r, *old(ctx), *final(ctx), Self::spec_next(phase, working, *old(ctx), e.view())),
    {
        let dir = join_path(ctx.cache_dir.as_str(), "large");
        match (phase, e) {
            (_, Event::Failed) => StepResult::Stop(Action::Fail(None)),
            (Phase::LargeCheck, Event::Exists(false)) =>
                StepResult::Continue(Phase::LargeDir, working, Action::CreateDirAll(dir)),
            (Phase::LargeCheck, Event::Exists(true)) =>
                StepResult::Continue(Phase::LargeRead, working, Action::ReadParquet(join_path(dir.as_str(), "census.parquet"))),
            (Phase::LargeDir, Event::Done) => if ctx.raw_frame.is_none() {
                StepResult::Stop(Action::Fail(Some(owned("Raw frame not found"))))
            } else {
                StepResult::Continue(
                    Phase::Shorten,
                    working,
                    Action::ShortenColumns(FrameSource::Raw, shorten_census_column_names()),
                )
            },
            (Phase::Shorten, Event::Frame(f)) =>
                StepResult::Continue(Phase::Expand, Some(f), Action::ExpandRows(FrameSource::Working, EXPANSION_TIMES)),
            (Phase::Expand, Event::Frame(f)) => StepResult::Continue(
                Phase::LargeCsvWrite,
                Some(f),
                Action::WriteCsv(FrameSource::Working, join_path(dir.as_str(), "census.csv")),
            ),
            (Phase::LargeCsvWrite, Event::Done) => StepResult::Continue(
                Phase::LargeParquetWrite,
                working,
                Action::WriteParquet(FrameSource::Working, join_path(dir.as_str(), "census.parquet")),
            ),
            (Phase::LargeParquetWrite, Event::Done) =>
                StepResult::Continue(Phase::LargePreview, working, Action::Preview(FrameSource::Working)),
            (Phase::LargeRead, Event::Frame(f)) =>
                StepResult::Continue(Phase::LargePreview, Some(f), Action::Preview(FrameSource::Working)),
            (Phase::LargePreview, Event::Done) => {
                ctx.expanded_frame = working;
                StepResult::Complete
            },
            _ => StepResult::Stop(Action::Fail(None)),
        }
    }
}

/// An expanded parquet already on disk is read back as it is: nothing is shortened,
/// expanded, created or written on that path.
pub proof fn lemma_existing_parquet_is_reused<Frame, Pool, Client>(
    working: Option<Frame>,
    ctx: Context<Frame, Pool, Client>,
    phase: Phase,
    e: EventView<Frame>,
)
    ensures
        ExpandDataset::spec_next(Phase::LargeCheck, working, ctx, EventView::Exists(true))
            == Outcome::<Frame, Pool, Client>::Continue(Phase::LargeRead, working, ActionView::ReadParquet(large_parquet(ctx))),
        (phase == Phase::LargeRead || phase == Phase::LargePreview) ==> match ExpandDataset::spec_next(phase, working, ctx, e) {
            Outcome::Continue(_, _, a) => a is Preview,
            _ => true,
        },
{
}

/// The law of a cold expansion: once the raw frame's columns are shortened, the shortened
/// frame is expanded a hundredfold, and the frame the expansion hands back, whatever it
/// is, is the one written to the large CSV file, then to the large parquet file, then
/// previewed, and finally kept as the context's expanded frame.
pub proof fn lemma_expanded_frame_is_written_and_kept<Frame, Pool, Client>(
    shortened: Frame,
    expanded: Frame,
    working: Option<Frame>,
    ctx: Context<Frame, Pool, Client>,
)
    ensures
        ExpandDataset::spec_next(Phase::Shorten, working, ctx, EventView::Frame(shortened))
            == Outcome::<Frame, Pool, Client>::Continue(Phase::Expand, Some(shortened), ActionView::ExpandRows(FrameSource::Working, 100)),
        ExpandDataset::spec_next(Phase::Expand, Some(shortened), ctx, EventView::Frame(expanded))
            == Outcome::<Frame, Pool, Client>::Continue(
                Phase::LargeCsvWrite, Some(expanded), ActionView::WriteCsv(FrameSource::Working, spec_join(large_dir(ctx), "census.csv"@))),
        ExpandDataset::spec_next(Phase::LargeCsvWrite, Some(expanded), ctx, EventView::Done)
            == Outcome::<Frame, Pool, Client>::Continue(
                Phase::LargeParquetWrite, Some(expanded), ActionView::WriteParquet(FrameSource::Working, spec_join(large_dir(ctx), "census.parquet"@))),
        ExpandDataset::spec_next(Phase::LargeParquetWrite, Some(expanded), ctx, EventView::Done)
            == Outcome::<Frame, Pool, Client>::Continue(Phase::LargePreview, Some(expanded), ActionView::Preview(FrameSource::Working)),
        ExpandDataset::spec_next(Phase::LargePreview, Some(expanded), ctx, EventView::Done)
            == Outcome::<Frame, Pool, Client>::Complete(Context { expanded_frame: Some(expanded), ..ctx }),
{
}

} // verus!
