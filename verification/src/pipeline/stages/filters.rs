//! Stages that filter the expanded frame: a simple and a compound selection of
//! residents, each kept in its own frame of the context.

use vstd::prelude::*;
use crate::data::expr::{complex_criteria, complex_filter_expr, keeps, lookup, simple_criteria, simple_filter_expr, Expr, ValueView};
use crate::pipeline::context::Context;
use crate::pipeline::stage::{realizes, Action, ActionView, Event, EventView, FrameSource, Outcome, Phase, Stage, StageKind, StepResult};
use crate::text::owned;

verus! {

pub struct SimpleDataFilter;

pub struct ComplexDataFilter;

impl Stage for SimpleDataFilter {
    open spec fn spec_kind(&self) -> StageKind {
        StageKind::SimpleFilter
    }

    fn name(&self) -> (r: &'static str) {
        "simple_filter"
    }

    fn kind(&self) -> (r: StageKind) {
        StageKind::SimpleFilter
    }
}

impl Stage for ComplexDataFilter {
    open spec fn spec_kind(&self) -> StageKind {
        StageKind::ComplexFilter
    }

    fn name(&self) -> (r: &'static str) {
        "complex_filter"
    }

    fn kind(&self) -> (r: StageKind) {
        StageKind::ComplexFilter
    }
}

/// The rows a filter stage keeps: the simple selection, or the compound one.
pub open spec fn filter_selects(simple: bool, e: Expr) -> bool {
    forall|row: Seq<(Seq<char>, ValueView)>| #[trigger] keeps(&e, row) <==> (
        if simple { simple_criteria(row) } else { complex_criteria(row) }
    )
}

pub open spec fn missing_frame_message(simple: bool) -> Seq<char> {
    if simple {
        "Expanded dataframe not in context for filter stage."@
    } else {
        "Expanded frame not in context for complex filter stage."@
    }
}

pub open spec fn filter_begin<Frame, Pool, Client>(simple: bool, ctx: Context<Frame, Pool, Client>) -> Outcome<Frame, Pool, Client> {
    if ctx.expanded_frame is None {
        Outcome::Stop(ActionView::Fail(Some(missing_frame_message(simple))))
    } else {
        Outcome::Continue(Phase::FilterApply, None, ActionView::Filter(FrameSource::Expanded))
    }
}

/// Filter the expanded frame, preview the result, and keep it in the stage's frame.
pub open spec fn filter_next<Frame, Pool, Client>(
    simple: bool,
    phase: Phase,
    working: Option<Frame>,
    ctx: Context<Frame, Pool, Client>,
    e: EventView<Frame>,
) -> Outcome<Frame, Pool, Client> {
    match (phase, e) {
        (_, EventView::Failed) => Outcome::Stop(ActionView::Fail(None)),
        (Phase::FilterApply, EventView::Frame(f)) =>
            Outcome::Continue(Phase::FilterPreview, Some(f), ActionView::Preview(FrameSource::Working)),
        (Phase::FilterPreview, EventView::Done) => if simple {
            Outcome::Complete(Context { simple_filter_frame: working, ..ctx })
        } else {
            Outcome::Complete(Context { complex_filter_frame: working, ..ctx })
        },
        _ => Outcome::Stop(ActionView::Fail(None)),
    }
}

pub(crate) fn begin_filter<Frame, Pool, Client>(simple: bool, ctx: &Context<Frame, Pool, Client>) -> (r: StepResult<Frame>)
    ensures
        realizes(r, *ctx, *ctx, filter_begin(simple, *ctx)),
        r matches StepResult::Continue(_, _, Action::Filter(_, e)) ==> filter_selects(simple, e),
{
    if ctx.expanded_frame.is_none() {
        let m = if simple {
            owned("Expanded dataframe not in context for filter stage.")
        } else {
            owned("Expanded frame not in context for complex filter stage.")
        };
        return StepResult::Stop(Action::Fail(Some(m)));
    }
    let e = if simple { simple_filter_expr() } else { complex_filter_expr() };
    StepResult::Continue(Phase::FilterApply, None, Action::Filter(FrameSource::Expanded, e))
}

pub(crate) fn next_filter<Frame, Pool, Client>(
    simple: bool,
    phase: Phase,
    working: Option<Frame>,
    ctx: &mut Context<Frame, Pool, Client>,
    e: Event<Frame>,
) -> (r: StepResult<Frame>)
    ensures
        realizes(r, *old(ctx), *final(ctx), filter_next(simple, phase, working, *old(ctx), e.view())),
{
    match (phase, e) {
        (_, Event::Failed) => StepResult::Stop(Action::Fail(None)),
        (Phase::FilterApply, Event::Frame(f)) =>
            StepResult::Continue(Phase::FilterPreview, Some(f), Action::Preview(FrameSource::Working)),
        (Phase::FilterPreview, Event::Done) => {
            if simple {
                ctx.simple_filter_frame = working;
            } else {
                ctx.complex_filter_frame = working;
            }
            StepResult::Complete
        },
        _ => StepResult::Stop(Action::Fail(None)),
    }
}

/// The law of the filter stages: each applies its filter to the expanded frame, and the
/// frame the filter hands back is previewed and kept, by the simple filter as the
/// context's simple filter frame, by the complex one as its complex filter frame.
pub proof fn lemma_filtered_frame_is_kept<Frame, Pool, Client>(
    simple: bool,
    f: Frame,
    working: Option<Frame>,
    ctx: Context<Frame, Pool, Client>,
)
    ensures
        ctx.expanded_frame is Some ==> filter_begin(simple, ctx)
            == Outcome::<Frame, Pool, Client>::Continue(Phase::FilterApply, None, ActionView::Filter(FrameSource::Expanded)),
        filter_next(simple, Phase::FilterApply, working, ctx, EventView::Frame(f))
            == Outcome::<Frame, Pool, Client>::Continue(Phase::FilterPreview, Some(f), ActionView::Preview(FrameSource::Working)),
        filter_next(true, Phase::FilterPreview, Some(f), ctx, EventView::Done)
            == Outcome::<Frame, Pool, Client>::Complete(Context { simple_filter_frame: Some(f), ..ctx }),
        filter_next(false, Phase::FilterPreview, Some(f), ctx, EventView::Done)
            == Outcome::<Frame, Pool, Client>::Complete(Context { complex_filter_frame: Some(f), ..ctx }),
{
}

/// The rows the two filters keep: the simple one, usual residents (keep type 1) of
/// London (E12000007) in age group 5 with a known income; the complex one, residents of
/// the North East (E12000001) in age group 6 or above and of the North West
/// (E12000002) below age group 6.
pub proof fn lemma_filters_keep_documented_rows(e: Expr, row: Seq<(Seq<char>, ValueView)>)
    ensures
        filter_selects(true, e) ==> (keeps(&e, row) <==> (
            lookup(row, "keep_type"@) == Some(ValueView::Int(1))
            && lookup(row, "region"@) == Some(ValueView::Str("E12000007"@))
            && lookup(row, "age_group"@) == Some(ValueView::Int(5))
            && (lookup(row, "income"@) matches Some(v) && !(v is Null)))),
        filter_selects(false, e) ==> (keeps(&e, row) <==> (
            (lookup(row, "region"@) == Some(ValueView::Str("E12000001"@))
                && (lookup(row, "age_group"@) matches Some(ValueView::Int(a)) && a >= 6))
            || (lookup(row, "region"@) == Some(ValueView::Str("E12000002"@))
                && (lookup(row, "age_group"@) matches Some(ValueView::Int(a)) && a < 6)))),
{
    if filter_selects(true, e) {
        assert(keeps(&e, row) <==> simple_criteria(row));
    }
    if filter_selects(false, e) {
        assert(keeps(&e, row) <==> complex_criteria(row));
    }
}

} // verus!
