//! Stage that makes sure the census table holds the expanded dataset: when it is
//! missing or short of rows, it is dropped and reloaded from the expanded frame.

use vstd::prelude::*;
use crate::data::rdbms::{count_query, drop_table_query, spec_count_query, spec_drop_table_query, spec_invalid_table_message, valid_table_name, lemma_census_is_valid_table_name};
use crate::pipeline::context::Context;
use crate::pipeline::stage::{realizes, Action, ActionView, Event, EventView, FrameSource, Outcome, Phase, Stage, StageKind, StepResult};
use crate::text::owned;

verus! {

pub struct PersistPostgres;

impl Stage for PersistPostgres {
    open spec fn spec_kind(&self) -> StageKind {
        StageKind::PersistPostgres
    }

    fn name(&self) -> (r: &'static str) {
        "persist_postgres"
    }

    fn kind(&self) -> (r: StageKind) {
        StageKind::PersistPostgres
    }
}

/// Rows of the census table once the expanded dataset is loaded.
pub const CENSUS_ROW_COUNT: i64 = 60435100;

impl PersistPostgres {
    pub open spec fn spec_begin<Frame, Pool, Client>(ctx: Context<Frame, Pool, Client>) -> Outcome<Frame, Pool, Client> {
        if ctx.db_pool is None {
            Outcome::Stop(ActionView::Fail(Some("Database pool not found"@)))
        } else {
            Outcome::Continue(Phase::PgTableCheck, None, ActionView::TableExists("census"@))
        }
    }

    /// What a row count of the census table leads to: a drop and reload when the table
    /// holds fewer rows than the full dataset, nothing otherwise.
    pub open spec fn spec_decide<Frame, Pool, Client>(
        count: int,
        working: Option<Frame>,
        ctx: Context<Frame, Pool, Client>,
    ) -> Outcome<Frame, Pool, Client> {
        if count < CENSUS_ROW_COUNT {
            if valid_table_name("census"@) {
                Outcome::Continue(Phase::PgDrop, working, ActionView::ExecuteSql(spec_drop_table_query("census"@)))
            } else {
                Outcome::Stop(ActionView::Fail(Some(spec_invalid_table_message("census"@))))
            }
        } else {
            Outcome::Complete(ctx)
        }
    }

    /// Count the rows of the census table (zero when it does not exist); when short,
    /// drop it and load the expanded frame into it.
    pub open spec fn spec_next<Frame, Pool, Client>(
        phase: Phase,
        working: Option<Frame>,
        ctx: Context<Frame, Pool, Client>,
        e: EventView<Frame>,
    ) -> Outcome<Frame, Pool, Client> {
        match (phase, e) {
            (_, EventView::Failed) => Outcome::Stop(ActionView::Fail(None)),
            (Phase::PgTableCheck, EventView::Exists(false)) => Self::spec_decide(0, working, ctx),
            (Phase::PgTableCheck, EventView::Exists(true)) => if valid_table_name("census"@) {
                Outcome::Continue(Phase::PgCount, working, ActionView::CountRows(spec_count_query("census"@)))
            } else {
                Outcome::Stop(ActionView::Fail(Some(spec_invalid_table_message("census"@))))
            },
            (Phase::PgCount, EventView::Count(n)) => Self::spec_decide(n, working, ctx),
            (Phase::PgDrop, EventView::Done) => if ctx.expanded_frame is None {
                Outcome::Stop(ActionView::Fail(Some("Expanded frame not found"@)))
            } else {
                Outcome::Continue(Phase::PgLoad, working, ActionView::LoadIntoTable(FrameSource::Expanded, "census"@))
            },
            (Phase::PgLoad, EventView::Done) => Outcome::Complete(ctx),
            _ => Outcome::Stop(ActionView::Fail(None)),
        }
    }

    pub(crate) fn begin<Frame, Pool, Client>(ctx: &Context<Frame, Pool, Client>) -> (r: StepResult<Frame>)
        ensures
            realizes(r, *ctx, *ctx, Self::spec_begin(*ctx)),
    {
        if ctx.db_pool.is_none() {
            return StepResult::Stop(Action::Fail(Some(owned("Database pool not found"))));
        }
        StepResult::Continue(Phase::PgTableCheck, None, Action::TableExists(owned("census")))
    }

    fn decide<Frame, Pool, Client>(count: i64, working: Option<Frame>, ctx: &Context<Frame, Pool, Client>) -> (r: StepResult<Frame>)
        ensures
            realizes(r, *ctx, *ctx, Self::spec_decide(count as int, working, *ctx)),
    {
        if count < CENSUS_ROW_COUNT {
            match drop_table_query("census") {
                Ok(q) => StepResult::Continue(Phase::PgDrop, working, Action::ExecuteSql(q)),
                Err(m) => StepResult::Stop(Action::Fail(Some(m))),
            }
        } else {
            StepResult::Complete
        }
    }

    pub(crate) fn next<Frame, Pool, Client>(
        phase: Phase,
        working: Option<Frame>,
        ctx: &mut Context<Frame, Pool, Client>,
        e: Event<Frame>,
    ) -> (r: StepResult<Frame>)
        ensures
            realizes(r, *old(ctx), *final(ctx), Self::spec_next(phase, working, *old(ctx), e.view())),
    {
        match (phase, e) {
            (_, Event::Failed) => StepResult::Stop(Action::Fail(None)),
            (Phase::PgTableCheck, Event::Exists(false)) => Self::decide(0, working, ctx),
            (Phase::PgTableCheck, Event::Exists(true)) => match count_query("census") {
                Ok(q) => StepResult::Continue(Phase::PgCount, working, Action::CountRows(q)),
                Err(m) => StepResult::Stop(Action::Fail(Some(m))),
            },
            (Phase::PgCount, Event::Count(n)) => Self::decide(n, working, ctx),
            (Phase::PgDrop, Event::Done) => if ctx.expanded_frame.is_none() {
                StepResult::Stop(Action::Fail(Some(owned("Expanded frame not found"))))
            } else {
                StepResult::Continue(Phase::PgLoad, working, Action::LoadIntoTable(FrameSource::Expanded, owned("census")))
            },
            (Phase::PgLoad, Event::Done) => StepResult::Complete,
            _ => StepResult::Stop(Action::Fail(None)),
        }
    }
}

/// The outcome asks to execute a statement.
pub open spec fn issues_sql<Frame, Pool, Client>(o: Outcome<Frame, Pool, Client>) -> bool {
    match o {
        Outcome::Continue(_, _, a) => a is ExecuteSql,
        _ => false,
    }
}

/// The event reports a count below `n`.
pub open spec fn count_below<Frame>(e: EventView<Frame>, n: int) -> bool {
    match e {
        EventView::Count(c) => c < n,
        _ => false,
    }
}

/// A census table that already holds the full dataset is left alone; the table is only
/// dropped when it is short, and only under a name made of alphanumeric characters and
/// underscores, which the census table's name is.
pub proof fn lemma_full_table_is_kept<Frame, Pool, Client>(
    count: int,
    working: Option<Frame>,
    ctx: Context<Frame, Pool, Client>,
    phase: Phase,
    e: EventView<Frame>,
)
    ensures
        count >= CENSUS_ROW_COUNT ==> PersistPostgres::spec_decide(count, working, ctx) == Outcome::<Frame, Pool, Client>::Complete(ctx),
        issues_sql(PersistPostgres::spec_next(phase, working, ctx, e)) ==> {
            &&& PersistPostgres::spec_next(phase, working, ctx, e) == Outcome::<Frame, Pool, Client>::Continue(
                Phase::PgDrop, working, ActionView::ExecuteSql(spec_drop_table_query("census"@)))
            &&& valid_table_name("census"@)
            &&& (phase == Phase::PgTableCheck || count_below(e, CENSUS_ROW_COUNT as int))
        },
        count < CENSUS_ROW_COUNT ==> PersistPostgres::spec_decide(count, working, ctx) == Outcome::<Frame, Pool, Client>::Continue(
            Phase::PgDrop, working, ActionView::ExecuteSql(spec_drop_table_query("census"@))),
{
    lemma_census_is_valid_table_name();
}

/// The law of the Postgres persistence: the census table is counted when it exists; a
/// table missing or holding fewer than 60,435,100 rows is dropped and the expanded frame
/// loaded into it, and a full one is left as it is.
pub proof fn lemma_short_table_is_reloaded<Frame, Pool, Client>(count: int, working: Option<Frame>, ctx: Context<Frame, Pool, Client>)
    ensures
        PersistPostgres::spec_next(Phase::PgTableCheck, working, ctx, EventView::Exists(true))
            == Outcome::<Frame, Pool, Client>::Continue(Phase::PgCount, working, ActionView::CountRows("SELECT COUNT(1) FROM census"@)),
        PersistPostgres::spec_next(Phase::PgTableCheck, working, ctx, EventView::Exists(false))
            == Outcome::<Frame, Pool, Client>::Continue(Phase::PgDrop, working, ActionView::ExecuteSql("drop table if exists census"@)),
        count < 60435100 ==> PersistPostgres::spec_next(Phase::PgCount, working, ctx, EventView::Count(count))
            == Outcome::<Frame, Pool, Client>::Continue(Phase::PgDrop, working, ActionView::ExecuteSql("drop table if exists census"@)),
        count >= 60435100 ==> PersistPostgres::spec_next(Phase::PgCount, working, ctx, EventView::Count(count))
            == Outcome::<Frame, Pool, Client>::Complete(ctx),
        ctx.expanded_frame is Some ==> PersistPostgres::spec_next(Phase::PgDrop, working, ctx, EventView::Done)
            == Outcome::<Frame, Pool, Client>::Continue(Phase::PgLoad, working, ActionView::LoadIntoTable(FrameSource::Expanded, "census"@)),
        PersistPostgres::spec_next(Phase::PgLoad, working, ctx, EventView::Done) == Outcome::<Frame, Pool, Client>::Complete(ctx),
{
    lemma_census_is_valid_table_name();
    reveal_strlit("SELECT COUNT(1) FROM ");
    reveal_strlit("SELECT COUNT(1) FROM census");
    reveal_strlit("drop table if exists ");
    reveal_strlit("drop table if exists census");
    reveal_strlit("census");
    assert(spec_count_query("census"@) =~= "SELECT COUNT(1) FROM census"@);
    assert(spec_drop_table_query("census"@) =~= "drop table if exists census"@);
}

} // verus!
