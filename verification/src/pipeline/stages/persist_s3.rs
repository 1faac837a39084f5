//! Stage that makes sure the bucket holds the expanded parquet: the bucket is created
//! when missing and the file uploaded when the object is missing.

use vstd::prelude::*;
use crate::data::blob::contains_name;
use crate::paths::{join_path, spec_join};
use crate::pipeline::context::Context;
use crate::pipeline::stage::{realizes, Action, ActionView, Event, EventView, FrameSource, Outcome, Phase, Stage, StageKind, StepResult};
use crate::text::owned;

verus! {

pub struct PersistS3;

impl Stage for PersistS3 {
    open spec fn spec_kind(&self) -> StageKind {
        StageKind::PersistS3
    }

    fn name(&self) -> (r: &'static str) {
        "persist_s3"
    }

    fn kind(&self) -> (r: StageKind) {
        StageKind::PersistS3
    }
}

/// The object key of the expanded parquet in the bucket.
pub open spec fn census_object_key() -> Seq<char> {
    "large/census.parquet"@
}

impl PersistS3 {
    pub open spec fn spec_begin<Frame, Pool, Client>(ctx: Context<Frame, Pool, Client>) -> Outcome<Frame, Pool, Client> {
        if ctx.s3_client is None {
            Outcome::Stop(ActionView::Fail(Some("S3 client not found"@)))
        } else {
            Outcome::Continue(Phase::S3List, None, ActionView::ListBuckets)
        }
    }

    /// Create the bucket unless it is listed; upload the expanded parquet unless the
    /// object exists.
    pub open spec fn spec_next<Frame, Pool, Client>(
        phase: Phase,
        working: Option<Frame>,
        ctx: Context<Frame, Pool, Client>,
        e: EventView<Frame>,
    ) -> Outcome<Frame, Pool, Client> {
        let check = ActionView::ObjectExists(ctx.spec_bucket(), census_object_key());
        match (phase, e) {
            (_, EventView::Failed) => Outcome::Stop(ActionView::Fail(None)),
            (Phase::S3List, EventView::Names(names)) => if names.contains(ctx.spec_bucket()) {
                Outcome::Continue(Phase::S3ObjectCheck, working, check)
            } else {
                Outcome::Continue(Phase::S3Create, working, ActionView::CreateBucket(ctx.spec_bucket()))
            },
            (Phase::S3Create, EventView::Done) => Outcome::Continue(Phase::S3ObjectCheck, working, check),
            (Phase::S3ObjectCheck, EventView::Exists(true)) => Outcome::Complete(ctx),
            (Phase::S3ObjectCheck, EventView::Exists(false)) => Outcome::Continue(
                Phase::S3Upload,
                working,
                ActionView::UploadFile(spec_join(ctx.cache_dir@, census_object_key()), ctx.spec_bucket(), census_object_key()),
            ),
            (Phase::S3Upload, EventView::Done) => Outcome::Complete(ctx),
            _ => Outcome::Stop(ActionView::Fail(None)),
        }
    }

    pub(crate) fn begin<Frame, Pool, Client>(ctx: &Context<Frame, Pool, Client>) -> (r: StepResult<Frame>)
        ensures
            realizes(r, *ctx, *ctx, Self::spec_begin(*ctx)),
    {
        if ctx.s3_client.is_none() {
            return StepResult::Stop(Action::Fail(Some(owned("S3 client not found"))));
        }
        StepResult::Continue(Phase::S3List, None, Action::ListBuckets)
    }

    pub(crate) fn next<Frame, Pool, Client>(
        phase: Phase,
        working: Option<Frame>,
        ctx: &mut Context<Frame, Pool, Client>,
        e: Event<Frame>,
    ) -> (r: StepResult<Frame>)
        ensures
            realizes(r, *old(ctx), *final(ctx), Self::spec_next(phase, working, *old(ctx), e.view())),
    {
        let bucket = ctx.bucket();
        match (phase, e) {
            (_, Event::Failed) => StepResult::Stop(Action::Fail(None)),
            (Phase::S3List, Event::Names(names)) => if contains_name(&names, &bucket) {
                StepResult::Continue(Phase::S3ObjectCheck, working, Action::ObjectExists(bucket, owned("large/census.parquet")))
            } else {
                StepResult::Continue(Phase::S3Create, working, Action::CreateBucket(bucket))
            },
            (Phase::S3Create, Event::Done) =>
                StepResult::Continue(Phase::S3ObjectCheck, working, Action::ObjectExists(bucket, owned("large/census.parquet"))),
            (Phase::S3ObjectCheck, Event::Exists(true)) => StepResult::Complete,
            (Phase::S3ObjectCheck, Event::Exists(false)) => StepResult::Continue(
                Phase::S3Upload,
                working,
                Action::UploadFile(
                    join_path(ctx.cache_dir.as_str(), "large/census.parquet"),
                    bucket,
                    owned("large/census.parquet"),
                ),
            ),
            (Phase::S3Upload, Event::Done) => StepResult::Complete,
            _ => StepResult::Stop(Action::Fail(None)),
        }
    }
}

/// An object already in the bucket is not uploaded again, and a bucket that is listed is
/// not created again.
pub proof fn lemma_existing_object_is_kept<Frame, Pool, Client>(
    working: Option<Frame>,
    ctx: Context<Frame, Pool, Client>,
    names: Seq<Seq<char>>,
)
    ensures
        PersistS3::spec_next(Phase::S3ObjectCheck, working, ctx, EventView::Exists(true)) == Outcome::<Frame, Pool, Client>::Complete(ctx),
        names.contains(ctx.spec_bucket()) ==> PersistS3::spec_next(Phase::S3List, working, ctx, EventView::Names(names))
            == Outcome::<Frame, Pool, Client>::Continue(Phase::S3ObjectCheck, working, ActionView::ObjectExists(ctx.spec_bucket(), census_object_key())),
{
}

/// The law of the bucket check: the bucket is created exactly when the listing does not
/// name it, whatever else it lists; when it is listed, the object is checked at once.
pub proof fn lemma_unlisted_bucket_is_created<Frame, Pool, Client>(
    working: Option<Frame>,
    ctx: Context<Frame, Pool, Client>,
    names: Seq<Seq<char>>,
)
    ensures
        !names.contains(ctx.spec_bucket()) ==> PersistS3::spec_next(Phase::S3List, working, ctx, EventView::Names(names))
            == Outcome::<Frame, Pool, Client>::Continue(Phase::S3Create, working, ActionView::CreateBucket(ctx.spec_bucket())),
        names.contains(ctx.spec_bucket()) ==> PersistS3::spec_next(Phase::S3List, working, ctx, EventView::Names(names))
            == Outcome::<Frame, Pool, Client>::Continue(Phase::S3ObjectCheck, working, ActionView::ObjectExists(ctx.spec_bucket(), "large/census.parquet"@)),
        PersistS3::spec_next(Phase::S3List, working, ctx, EventView::Names(names)) matches Outcome::Continue(_, _, ActionView::CreateBucket(b))
            ==> b == ctx.spec_bucket() && !names.contains(b),
        ctx.bucket_name is None ==> ctx.spec_bucket() == "census"@,
{
}

/// The law of the upload: when the object is missing from the bucket, the local file
/// `large/census.parquet` under the cache directory is uploaded to the context's bucket
/// under the key `large/census.parquet`, and the stage completes once that is done.
pub proof fn lemma_missing_object_is_uploaded<Frame, Pool, Client>(working: Option<Frame>, ctx: Context<Frame, Pool, Client>)
    ensures
        PersistS3::spec_next(Phase::S3ObjectCheck, working, ctx, EventView::Exists(false)) == Outcome::<Frame, Pool, Client>::Continue(
            Phase::S3Upload, working,
            ActionView::UploadFile(spec_join(ctx.cache_dir@, "large/census.parquet"@), ctx.spec_bucket(), "large/census.parquet"@)),
        PersistS3::spec_next(Phase::S3Create, working, ctx, EventView::Done) == Outcome::<Frame, Pool, Client>::Continue(
            Phase::S3ObjectCheck, working, ActionView::ObjectExists(ctx.spec_bucket(), "large/census.parquet"@)),
        PersistS3::spec_next(Phase::S3Upload, working, ctx, EventView::Done) == Outcome::<Frame, Pool, Client>::Complete(ctx),
{
}

} // verus!
