//! Stage that reads the expanded dataset back from the bucket.

use vstd::prelude::*;
use crate::pipeline::context::Context;
use crate::pipeline::stage::{realizes, Action, ActionView, Event, EventView, FrameSource, Outcome, Phase, Stage, StageKind, StepResult};
use crate::text::owned;

verus! {

pub struct LoadFromS3;

impl Stage for LoadFromS3 {
    open spec fn spec_kind(&self) -> StageKind {
        StageKind::LoadFromS3
    }

    fn name(&self) -> (r: &'static str) {
        "load_from_s3"
    }

    fn kind(&self) -> (r: StageKind) {
        StageKind::LoadFromS3
    }
}

impl LoadFromS3 {
    /// Needs a client and a configuration; downloads the expanded dataset's key from the
    /// pipeline's bucket.
    pub open spec fn spec_begin<Frame, Pool, Client>(ctx: Context<Frame, Pool, Client>) -> Outcome<Frame, Pool, Client> {
        if ctx.s3_client is None {
            Outcome::Stop(ActionView::Fail(Some("S3 client not provided"@)))
        } else if ctx.s3_config is None {
            Outcome::Stop(ActionView::Fail(Some("S3 config not provided"@)))
        } else {
            Outcome::Continue(
                Phase::S3Download,
                None,
                ActionView::DownloadFromS3(ctx.spec_bucket(), ctx.dataset_config.spec_expanded_s3_key()),
            )
        }
    }

    /// The frame downloaded becomes the expanded frame.
    pub open spec fn spec_next<Frame, Pool, Client>(
        phase: Phase,
        working: Option<Frame>,
        ctx: Context<Frame, Pool, Client>,
        e: EventView<Frame>,
    ) -> Outcome<Frame, Pool, Client> {
        match (phase, e) {
            (Phase::S3Download, EventView::Frame(f)) => Outcome::Complete(Context { expanded_frame: Some(f), ..ctx }),
            _ => Outcome::Stop(ActionView::Fail(None)),
        }
    }

    pub(crate) fn begin<Frame, Pool, Client>(ctx: &Context<Frame, Pool, Client>) -> (r: StepResult<Frame>)
        ensures
            realizes(r, *ctx, *ctx, Self::spec_begin(*ctx)),
    {
        if ctx.s3_client.is_none() {
            return StepResult::Stop(Action::Fail(Some(owned("S3 client not provided"))));
        }
        let bucket = ctx.bucket();
        let key = ctx.dataset_config.expanded_s3_key();
        if ctx.s3_config.is_none() {
            return StepResult::Stop(Action::Fail(Some(owned("S3 config not provided"))));
        }
        StepResult::Continue(Phase::S3Download, None, Action::DownloadFromS3(bucket, key))
    }

    pub(crate) fn next<Frame, Pool, Client>(
        phase: Phase,
        working: Option<Frame>,
        ctx: &mut Context<Frame, Pool, Client>,
        e: Event<Frame>,
    ) -> (r: StepResult<Frame>)
        ensures
            realizes(r, *old(ctx), *final(ctx), Self::spec_next(phase, working, *old(ctx), e.view())),
    {
        match (phase, e) {
            (Phase::S3Download, Event::Frame(f)) => {
                ctx.expanded_frame = Some(f);
                StepResult::Complete
            },
            _ => StepResult::Stop(Action::Fail(None)),
        }
    }
}

/// The law of the S3 retrieval: with a client and its configuration, the stage downloads
/// the expanded dataset's object (`large/census.parquet` by default) from the context's
/// bucket, and the frame it hands back becomes the context's expanded frame.
pub proof fn lemma_downloaded_frame_is_kept<Frame, Pool, Client>(f: Frame, working: Option<Frame>, ctx: Context<Frame, Pool, Client>)
    ensures
        ctx.s3_client is Some && ctx.s3_config is Some ==> LoadFromS3::spec_begin(ctx) == Outcome::<Frame, Pool, Client>::Continue(
            Phase::S3Download, None, ActionView::DownloadFromS3(ctx.spec_bucket(),
                ctx.dataset_config.expanded_dir_name@ + "/"@ + ctx.dataset_config.filename@)),
        LoadFromS3::spec_next(Phase::S3Download, working, ctx, EventView::Frame(f))
            == Outcome::<Frame, Pool, Client>::Complete(Context { expanded_frame: Some(f), ..ctx }),
{
}

} // verus!
