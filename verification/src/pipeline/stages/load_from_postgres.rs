//! Stage that reads the expanded dataset back from Postgres: the London residents
//! aged 15 and under, from the census table.

use vstd::prelude::*;
use crate::data::rdbms::{london_young_query, spec_london_young_query, PostgresConn};
use crate::pipeline::context::Context;
use crate::pipeline::stage::{realizes, Action, ActionView, Event, EventView, FrameSource, Outcome, Phase, Stage, StageKind, StepResult};
use crate::text::owned;

verus! {

pub struct LoadFromPostgres;

impl Stage for LoadFromPostgres {
    open spec fn spec_kind(&self) -> StageKind {
        StageKind::LoadFromPostgres
    }

    fn name(&self) -> (r: &'static str) {
        "load_from_postgres"
    }

    fn kind(&self) -> (r: StageKind) {
        StageKind::LoadFromPostgres
    }
}

impl LoadFromPostgres {
    /// Without connection parameters the program stops; otherwise the query runs against
    /// the database they name.
    pub open spec fn spec_begin<Frame, Pool, Client>(ctx: Context<Frame, Pool, Client>) -> Outcome<Frame, Pool, Client> {
        match ctx.pg_conn {
            None => Outcome::Stop(ActionView::Panic("Postgres connection not provided"@)),
            Some(conn) => Outcome::Continue(
                Phase::PgQuery,
                None,
                ActionView::QueryPostgres(conn.spec_connection_string(), spec_london_young_query("census"@)),
            ),
        }
    }

    /// The frame read back becomes the expanded frame.
    pub open spec fn spec_next<Frame, Pool, Client>(
        phase: Phase,
        working: Option<Frame>,
        ctx: Context<Frame, Pool, Client>,
        e: EventView<Frame>,
    ) -> Outcome<Frame, Pool, Client> {
        match (phase, e) {
            (Phase::PgQuery, EventView::Frame(f)) => Outcome::Complete(Context { expanded_frame: Some(f), ..ctx }),
            _ => Outcome::Stop(ActionView::Fail(None)),
        }
    }

    pub(crate) fn begin<Frame, Pool, Client>(ctx: &Context<Frame, Pool, Client>) -> (r: StepResult<Frame>)
        ensures
            realizes(r, *ctx, *ctx, Self::spec_begin(*ctx)),
    {
        match &ctx.pg_conn {
            None => StepResult::Stop(Action::Panic(owned("Postgres connection not provided"))),
            Some(conn) => StepResult::Continue(
                Phase::PgQuery,
                None,
                Action::QueryPostgres(conn.get_db_connection_string(), london_young_query("census")),
            ),
        }
    }

    pub(crate) fn next<Frame, Pool, Client>(
        phase: Phase,
        working: Option<Frame>,
        ctx: &mut Context<Frame, Pool, Client>,
        e: Event<Frame>,
    ) -> (r: StepResult<Frame>)
        ensures
            realizes(r, *old(ctx), *final(ctx), Self::spec_next(phase, working, *old(ctx), e.view())),
    {
        match (phase, e) {
            (Phase::PgQuery, Event::Frame(f)) => {
                ctx.expanded_frame = Some(f);
                StepResult::Complete
            },
            _ => StepResult::Stop(Action::Fail(None)),
        }
    }
}

/// The law of the Postgres retrieval: with a connection configured, the stage asks the
/// database at that connection for the London residents (region E12000007) in age group
/// 1 of the census table, and nothing else.
pub proof fn lemma_reads_young_londoners<Frame, Pool, Client>(ctx: Context<Frame, Pool, Client>, conn: PostgresConn)
    requires
        ctx.pg_conn == Some(conn),
    ensures
        LoadFromPostgres::spec_begin(ctx) == Outcome::<Frame, Pool, Client>::Continue(
            Phase::PgQuery,
            None,
            ActionView::QueryPostgres(
                conn.spec_connection_string(),
                "SELECT * FROM census WHERE region = 'E12000007' and age_group = 1"@,
            ),
        ),
{
    reveal_strlit("SELECT * FROM ");
    reveal_strlit("census");
    reveal_strlit(" WHERE region = 'E12000007' and age_group = 1");
    reveal_strlit("SELECT * FROM census WHERE region = 'E12000007' and age_group = 1");
    assert(spec_london_young_query("census"@) =~= "SELECT * FROM census WHERE region = 'E12000007' and age_group = 1"@);
}

/// The frame the Postgres query hands back becomes the context's expanded frame.
pub proof fn lemma_queried_frame_is_kept<Frame, Pool, Client>(f: Frame, working: Option<Frame>, ctx: Context<Frame, Pool, Client>)
    ensures
        LoadFromPostgres::spec_next(Phase::PgQuery, working, ctx, EventView::Frame(f))
            == Outcome::<Frame, Pool, Client>::Complete(Context { expanded_frame: Some(f), ..ctx }),
{
}

} // verus!
