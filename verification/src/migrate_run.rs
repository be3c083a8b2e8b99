//! A step of the migration of a table, and a step of a clean-up, from the first question to the
//! last statement.

use crate::migrate::{
    backfill_untracked_v2_pks, chunk_sql, chunk_fill_sql, chunk_table_sql, cleanup_recounted, cleanup_tables_chunk, count_left, count_left_sql, count_rows, count_rows_sql, delete_chunk,
    delete_chunk_sql, drop_metadata, drop_metadata_sql, migrate_v1_to_v2_chunk, migration_chunk_rows,
    migration_chunk_steps, untracked_sql, ChunkEnd, CleanupEnd, RecountEnd,
    CHUNK_DROP_SQL, CHUNK_MAX_KEY_SQL, CLEANUP_BEGIN_SQL, CLEANUP_END_SQL, CLEANUP_UNDO_SQL, MIGRATION_BEGIN_SQL,
    MIGRATION_END_SQL, MIGRATION_UNDO_SQL,
};
use crate::pack_columns::{ColumnValue, Val};
use crate::result_code::{ResultCode, Stepped};
use crate::statement::{bound, no_values, one, plain, push_plain, push_statement, sqls, two, Sql, Statement};
use crate::steps::{fail, finish, statement, Act, Action, Ev, Event};
use crate::tableinfo::TableInfo;
use crate::text::texts;
use crate::util::{table_key, CLEAR_MASTER_KEY_SQL, GET_MASTER_VALUE_SQL, SET_MASTER_VALUE_SQL};
use vstd::prelude::*;
use vstd::string::*;

verus! {

// ---------------------------------------------------------------------------
// Settings
// ---------------------------------------------------------------------------
/// Reads a setting.
pub open spec fn get_key(key: Seq<char>) -> Sql {
    bound(GET_MASTER_VALUE_SQL@, seq![Val::Text(key)])
}

/// Writes a setting.
pub open spec fn set_key(key: Seq<char>, value: i64) -> Sql {
    bound(SET_MASTER_VALUE_SQL@, seq![Val::Text(key), Val::Integer(value)])
}

/// Deletes a setting.
pub open spec fn clear_key(key: Seq<char>) -> Sql {
    bound(CLEAR_MASTER_KEY_SQL@, seq![Val::Text(key)])
}

pub(crate) fn ask_key(key: String) -> (r: Action)
    ensures
        r@ == Act::AskInt(get_key(key@)),
{
    Action::AskInt(statement(GET_MASTER_VALUE_SQL.to_owned(), one(ColumnValue::Text(key))))
}

fn push_set(plan: &mut Vec<Statement>, key: String, value: i64)
    ensures
        sqls(final(plan)@) == sqls(old(plan)@).push(set_key(key@, value)),
{
    push_statement(
        plan,
        SET_MASTER_VALUE_SQL.to_owned(),
        two(ColumnValue::Text(key), ColumnValue::Integer(value)),
    );
}

fn push_clear(plan: &mut Vec<Statement>, key: String)
    ensures
        sqls(final(plan)@) == sqls(old(plan)@).push(clear_key(key@)),
{
    push_statement(plan, CLEAR_MASTER_KEY_SQL.to_owned(), one(ColumnValue::Text(key)));
}

fn empty_plan() -> (r: Vec<Statement>)
    ensures
        sqls(r@) == Seq::<Sql>::empty(),
{
    let plan: Vec<Statement> = Vec::new();
    assert(sqls(plan@) =~= seq![]);
    plan
}

/// Statements without parameters.
pub open spec fn plains(s: Seq<Seq<char>>) -> Seq<Sql> {
    s.map_values(|sql: Seq<char>| plain(sql))
}

fn as_plan(list: &[String]) -> (r: Vec<Statement>)
    ensures
        sqls(r@) == plains(texts(list@)),
{
    let mut plan = empty_plan();
    let mut i: usize = 0;
    assert(plains(texts(list@)).take(0) =~= seq![]);
    while i < list.len()
        invariant
            i <= list@.len(),
            sqls(plan@) == plains(texts(list@)).take(i as int),
        decreases list@.len() - i,
    {
        push_plain(&mut plan, list[i].clone());
        assert(plains(texts(list@)).take(i + 1) =~= plains(texts(list@)).take(i as int).push(
            plains(texts(list@))[i as int],
        ));
        i = i + 1;
    }
    assert(plains(texts(list@)).take(i as int) =~= plains(texts(list@)));
    plan
}

// ---------------------------------------------------------------------------
// Migration
// ---------------------------------------------------------------------------
/// How far a step of a migration has come.
#[derive(Clone, Copy, PartialEq, Eq, Structural, Debug)]
pub enum MigrateState {
    Start,
    /// It was asked how far the migration has come.
    Progress,
    /// The step was started.
    Begun { start: i64 },
    /// The estimate of the rows that are left was asked for.
    Estimate { start: i64 },
    /// The rows that are left were counted.
    Counted { start: i64 },
    /// The count was kept.
    Kept { start: i64, estimate: i64 },
    /// The rows of the step were chosen.
    Rows { estimate: i64 },
    /// The rows were migrated.
    Steps { estimate: i64, rows: i64 },
    /// The last of their keys was asked for.
    MaxKey { estimate: i64, rows: i64 },
    /// It was kept how far the migration has come.
    Advanced { estimate: i64, rows: i64 },
    /// The table of the rows was dropped.
    Dropped { estimate: i64, rows: i64 },
    /// The estimate was forgotten.
    Forgotten { rows: i64 },
    /// It was asked how far the migration has come, to count the rows that are left.
    Reached { rows: i64 },
    /// The rows that are left were counted again.
    Recounted { rows: i64 },
    /// The step was ended.
    Ended { rows: i64, left: i64 },
    /// Something failed, and the table of the rows was dropped.
    FailedDrop { code: ResultCode },
    /// Something failed, and the step was undone.
    Undone { code: ResultCode },
    /// All is done: how many rows the step has gone through, and how many are left.
    Over { rows: i64, left: i64 },
}

/// A step of the migration of a table.
#[derive(Clone, Copy)]
pub struct Migrate<'a> {
    pub t: &'a TableInfo,
    /// How many rows it may go through.
    pub chunk_size: i64,
    /// The time of the transaction.
    pub ts: i64,
    pub state: MigrateState,
}

impl<'a> Migrate<'a> {
    /// The key under which it is kept how far the migration has come.
    pub open spec fn progress_key(self) -> Seq<char> {
        "migration_v1_to_v2_migration_"@ + self.t.tbl_name@
    }

    /// The key under which the estimate of the rows that are left is kept.
    pub open spec fn estimate_key(self) -> Seq<char> {
        "migration_v1_to_v2_remaining_"@ + self.t.tbl_name@
    }

    /// All is done.
    pub open spec fn done(rows: i64, left: i64) -> (MigrateState, Act) {
        (MigrateState::Over { rows, left }, Act::Finish)
    }

    /// Gives up, with nothing to undo.
    pub open spec fn give_up(code: ResultCode) -> (MigrateState, Act) {
        (MigrateState::Over { rows: 0, left: 0 }, Act::Fail(code, None))
    }

    /// Drops the table of the rows, and then undoes the step.
    pub open spec fn undo(code: ResultCode) -> (MigrateState, Act) {
        (MigrateState::FailedDrop { code }, Act::Run(seq![plain(CHUNK_DROP_SQL@)], false))
    }

    /// Chooses the rows of the step.
    pub open spec fn choose_rows(self, start: i64, estimate: i64) -> (MigrateState, Act) {
        (
            MigrateState::Rows { estimate },
            Act::Count(
                plains(
                    seq![
                        CHUNK_DROP_SQL@,
                        chunk_table_sql(*self.t),
                        chunk_fill_sql(*self.t, start, self.chunk_size),
                    ],
                ),
            ),
        )
    }

    /// Drops the table of the rows.
    pub open spec fn drop_rows(estimate: i64, rows: i64) -> (MigrateState, Act) {
        (MigrateState::Dropped { estimate, rows }, Act::Run(seq![plain(CHUNK_DROP_SQL@)], false))
    }

    /// Ends the migration of the table.
    pub open spec fn complete(self, rows: i64) -> (MigrateState, Act) {
        (
            MigrateState::Ended { rows, left: 0 },
            Act::Run(
                seq![
                    plain(untracked_sql(*self.t)),
                    clear_key(self.progress_key()),
                    clear_key(self.estimate_key()),
                    plain(MIGRATION_END_SQL@),
                ],
                false,
            ),
        )
    }

    /// How it goes on once the rows of the step are migrated.
    pub open spec fn on_end(self, estimate: i64, rows: i64) -> (MigrateState, Act) {
        if rows == 0 {
            self.complete(0)
        } else if estimate - rows <= 0 {
            (MigrateState::Forgotten { rows }, Act::Run(seq![clear_key(self.estimate_key())], false))
        } else {
            (
                MigrateState::Ended { rows, left: (estimate - rows) as i64 },
                Act::Run(
                    seq![set_key(self.estimate_key(), (estimate - rows) as i64), plain(MIGRATION_END_SQL@)],
                    false,
                ),
            )
        }
    }

    /// How it goes on once the rows that are left were counted again.
    pub open spec fn on_recount(self, rows: i64, left: i64) -> (MigrateState, Act) {
        if left == 0 {
            self.complete(rows)
        } else {
            (MigrateState::Ended { rows, left }, Act::Run(seq![plain(MIGRATION_END_SQL@)], false))
        }
    }

    /// How it goes on. A failure while rows are migrated undoes the step.
    pub open spec fn next_of(self, ev: Ev) -> (MigrateState, Act) {
        match (self.state, ev) {
            (MigrateState::Start, Ev::Begin) => (
                MigrateState::Progress,
                Act::AskInt(get_key(self.progress_key())),
            ),
            (MigrateState::Progress, Ev::Int(Stepped::Row(start))) => (
                MigrateState::Begun { start },
                Act::Run(seq![plain(MIGRATION_BEGIN_SQL@)], false),
            ),
            (MigrateState::Progress, Ev::Int(Stepped::Done)) => Self::done(0, 0),
            (MigrateState::Begun { start }, Ev::Ran) => (
                MigrateState::Estimate { start },
                Act::AskInt(get_key(self.estimate_key())),
            ),
            (MigrateState::Estimate { start }, Ev::Int(Stepped::Row(n))) => self.choose_rows(start, n),
            (MigrateState::Estimate { start }, Ev::Int(Stepped::Done)) => (
                MigrateState::Counted { start },
                Act::AskInt(plain(count_left_sql(*self.t, start))),
            ),
            (MigrateState::Counted { start }, Ev::Int(Stepped::Row(n))) => (
                MigrateState::Kept { start, estimate: n },
                Act::Run(seq![set_key(self.estimate_key(), n)], false),
            ),
            (MigrateState::Kept { start, estimate }, Ev::Ran) => self.choose_rows(start, estimate),
            (MigrateState::Rows { estimate }, Ev::Int(Stepped::Row(rows))) => if rows == 0 {
                Self::drop_rows(estimate, 0)
            } else {
                (
                    MigrateState::Steps { estimate, rows },
                    Act::Run(plains(chunk_sql(*self.t, self.ts)), false),
                )
            },
            (MigrateState::Steps { estimate, rows }, Ev::Ran) => (
                MigrateState::MaxKey { estimate, rows },
                Act::AskInt(plain(CHUNK_MAX_KEY_SQL@)),
            ),
            (MigrateState::MaxKey { estimate, rows }, Ev::Int(Stepped::Row(last))) => (
                MigrateState::Advanced { estimate, rows },
                Act::Run(seq![set_key(self.progress_key(), last)], false),
            ),
            (MigrateState::Advanced { estimate, rows }, Ev::Ran) => Self::drop_rows(estimate, rows),
            (MigrateState::Dropped { estimate, rows }, _) => self.on_end(estimate, rows),
            (MigrateState::Forgotten { rows }, Ev::Ran) => (
                MigrateState::Reached { rows },
                Act::AskInt(get_key(self.progress_key())),
            ),
            (MigrateState::Reached { rows }, Ev::Int(Stepped::Row(last))) => (
                MigrateState::Recounted { rows },
                Act::AskInt(plain(count_left_sql(*self.t, last))),
            ),
            (MigrateState::Reached { rows }, Ev::Int(Stepped::Done)) => (
                MigrateState::Recounted { rows },
                Act::AskInt(plain(count_left_sql(*self.t, 0))),
            ),
            (MigrateState::Recounted { rows }, Ev::Int(Stepped::Row(left))) => self.on_recount(rows, left),
            (MigrateState::Ended { rows, left }, Ev::Ran) => Self::done(rows, left),
            (MigrateState::FailedDrop { code }, _) => (
                MigrateState::Undone { code },
                Act::Run(seq![plain(MIGRATION_UNDO_SQL@), plain(MIGRATION_END_SQL@)], false),
            ),
            (MigrateState::Undone { code }, _) => Self::give_up(code),
            (MigrateState::Rows { .. }, Ev::Int(Stepped::Other(rc))) => Self::undo(rc),
            (MigrateState::Rows { .. }, Ev::Failed(rc)) => Self::undo(rc),
            (MigrateState::Steps { .. }, Ev::Failed(rc)) => Self::undo(rc),
            (MigrateState::MaxKey { .. }, Ev::Int(Stepped::Other(rc))) => Self::undo(rc),
            (MigrateState::MaxKey { .. }, Ev::Failed(rc)) => Self::undo(rc),
            (MigrateState::Advanced { .. }, Ev::Failed(rc)) => Self::undo(rc),
            (_, Ev::Int(Stepped::Other(rc))) => Self::give_up(rc),
            (_, Ev::Failed(rc)) => Self::give_up(rc),
            _ => Self::give_up(ResultCode::MISUSE),
        }
    }

    /// The numbers of rows that the state holds are not negative, and can be taken from each other.
    pub open spec fn in_range(self) -> bool {
        match self.state {
            MigrateState::Steps { estimate, rows } => rows >= 0 && estimate - rows >= i64::MIN,
            MigrateState::MaxKey { estimate, rows } => rows >= 0 && estimate - rows >= i64::MIN,
            MigrateState::Advanced { estimate, rows } => rows >= 0 && estimate - rows >= i64::MIN,
            MigrateState::Dropped { estimate, rows } => rows >= 0 && estimate - rows >= i64::MIN,
            MigrateState::Forgotten { rows } => rows >= 0,
            MigrateState::Reached { rows } => rows >= 0,
            MigrateState::Recounted { rows } => rows >= 0,
            MigrateState::Ended { rows, .. } => rows >= 0,
            MigrateState::Over { rows, .. } => rows >= 0,
            _ => true,
        }
    }

    /// A number of rows that were changed is not negative, and can be taken from the estimate.
    pub open spec fn fits(self, ev: Ev) -> bool {
        match (self.state, ev) {
            (MigrateState::Rows { estimate }, Ev::Int(Stepped::Row(rows))) => rows >= 0 && estimate - rows
                >= i64::MIN,
            _ => true,
        }
    }

    /// Whether [`next`](Migrate::next) can take an event.
    pub fn can_take(&self, event: &Event) -> (r: bool)
        ensures
            r == self.fits(event@),
    {
        match (self.state, event) {
            (MigrateState::Rows { estimate }, Event::Int(Stepped::Row(rows))) => *rows >= 0 && estimate >= i64::MIN
                + *rows,
            _ => true,
        }
    }

    /// The start of a step of the migration of a table.
    pub fn new(t: &'a TableInfo, chunk_size: i64, ts: i64) -> (r: Migrate<'a>)
        ensures
            r == (Migrate { t, chunk_size, ts, state: MigrateState::Start }),
    {
        Migrate { t, chunk_size, ts, state: MigrateState::Start }
    }

    pub(crate) fn progress_name(&self) -> (r: String)
        ensures
            r@ == self.progress_key(),
    {
        table_key("migration_v1_to_v2_migration_", self.t.tbl_name.as_str())
    }

    pub(crate) fn estimate_name(&self) -> (r: String)
        ensures
            r@ == self.estimate_key(),
    {
        table_key("migration_v1_to_v2_remaining_", self.t.tbl_name.as_str())
    }

    fn stop(code: ResultCode) -> (r: (MigrateState, Action))
        ensures
            (r.0, r.1@) == Self::give_up(code),
    {
        (MigrateState::Over { rows: 0, left: 0 }, fail(code))
    }

    fn end(rows: i64, left: i64) -> (r: (MigrateState, Action))
        ensures
            (r.0, r.1@) == Self::done(rows, left),
    {
        (MigrateState::Over { rows, left }, finish())
    }

    pub(crate) fn run_one(sql: &str) -> (r: Action)
        ensures
            r@ == Act::Run(seq![plain(sql@)], false),
    {
        let mut plan = empty_plan();
        push_plain(&mut plan, sql.to_owned());
        assert(sqls(plan@) =~= seq![plain(sql@)]);
        Action::Run { plan, counts: false }
    }

    pub(crate) fn ask_plain(sql: String) -> (r: Action)
        ensures
            r@ == Act::AskInt(plain(sql@)),
    {
        Action::AskInt(statement(sql, no_values()))
    }

    pub(crate) fn run_clear(key: String) -> (r: Action)
        ensures
            r@ == Act::Run(seq![clear_key(key@)], false),
    {
        let mut plan = empty_plan();
        push_clear(&mut plan, key);
        assert(sqls(plan@) =~= seq![clear_key(key@)]);
        Action::Run { plan, counts: false }
    }

    fn run_set(key: String, value: i64) -> (r: Action)
        ensures
            r@ == Act::Run(seq![set_key(key@, value)], false),
    {
        let mut plan = empty_plan();
        push_set(&mut plan, key, value);
        assert(sqls(plan@) =~= seq![set_key(key@, value)]);
        Action::Run { plan, counts: false }
    }

    fn go_undo(code: ResultCode) -> (r: (MigrateState, Action))
        ensures
            (r.0, r.1@) == Self::undo(code),
    {
        (MigrateState::FailedDrop { code }, Self::run_one(CHUNK_DROP_SQL))
    }

    fn go_choose_rows(&self, start: i64, estimate: i64) -> (r: (MigrateState, Action))
        ensures
            (r.0, r.1@) == self.choose_rows(start, estimate),
    {
        let list = migration_chunk_rows(self.t, start, self.chunk_size);
        (MigrateState::Rows { estimate }, Action::Count(as_plan(list.as_slice())))
    }

    fn go_drop_rows(estimate: i64, rows: i64) -> (r: (MigrateState, Action))
        ensures
            (r.0, r.1@) == Self::drop_rows(estimate, rows),
    {
        (MigrateState::Dropped { estimate, rows }, Self::run_one(CHUNK_DROP_SQL))
    }

    fn go_complete(&self, rows: i64) -> (r: (MigrateState, Action))
        ensures
            (r.0, r.1@) == self.complete(rows),
    {
        let mut plan = empty_plan();
        push_plain(&mut plan, backfill_untracked_v2_pks(self.t));
        push_clear(&mut plan, self.progress_name());
        push_clear(&mut plan, self.estimate_name());
        push_plain(&mut plan, MIGRATION_END_SQL.to_owned());
        assert(sqls(plan@) =~= seq![
            plain(untracked_sql(*self.t)),
            clear_key(self.progress_key()),
            clear_key(self.estimate_key()),
            plain(MIGRATION_END_SQL@),
        ]);
        (MigrateState::Ended { rows, left: 0 }, Action::Run { plan, counts: false })
    }

    fn go_end(&self, estimate: i64, rows: i64) -> (r: (MigrateState, Action))
        requires
            rows >= 0,
            estimate - rows >= i64::MIN,
        ensures
            (r.0, r.1@) == self.on_end(estimate, rows),
    {
        match migrate_v1_to_v2_chunk(rows, estimate) {
            ChunkEnd::Complete => self.go_complete(0),
            ChunkEnd::Recount => {
                (MigrateState::Forgotten { rows }, Self::run_clear(self.estimate_name()))
            },
            ChunkEnd::Keep(left) => {
                let mut plan = empty_plan();
                push_set(&mut plan, self.estimate_name(), left);
                push_plain(&mut plan, MIGRATION_END_SQL.to_owned());
                assert(sqls(plan@) =~= seq![set_key(self.estimate_key(), left), plain(MIGRATION_END_SQL@)]);
                (MigrateState::Ended { rows, left }, Action::Run { plan, counts: false })
            },
        }
    }

    fn go_recount(&self, rows: i64, left: i64) -> (r: (MigrateState, Action))
        ensures
            (r.0, r.1@) == self.on_recount(rows, left),
    {
        if left == 0 {
            self.go_complete(rows)
        } else {
            (MigrateState::Ended { rows, left }, Self::run_one(MIGRATION_END_SQL))
        }
    }

    fn go(&self, event: Event) -> (r: (MigrateState, Action))
        requires
            self.in_range(),
            self.fits(event@),
        ensures
            (r.0, r.1@) == self.next_of(event@),
    {
        match (self.state, event) {
            (MigrateState::Start, Event::Begin) => (MigrateState::Progress, ask_key(self.progress_name())),
            (MigrateState::Progress, Event::Int(Stepped::Row(start))) => {
                (MigrateState::Begun { start }, Self::run_one(MIGRATION_BEGIN_SQL))
            },
            (MigrateState::Progress, Event::Int(Stepped::Done)) => Self::end(0, 0),
            (MigrateState::Begun { start }, Event::Ran) => {
                (MigrateState::Estimate { start }, ask_key(self.estimate_name()))
            },
            (MigrateState::Estimate { start }, Event::Int(Stepped::Row(n))) => self.go_choose_rows(start, n),
            (MigrateState::Estimate { start }, Event::Int(Stepped::Done)) => {
                (MigrateState::Counted { start }, Self::ask_plain(count_left(self.t, start)))
            },
            (MigrateState::Counted { start }, Event::Int(Stepped::Row(n))) => {
                (MigrateState::Kept { start, estimate: n }, Self::run_set(self.estimate_name(), n))
            },
            (MigrateState::Kept { start, estimate }, Event::Ran) => self.go_choose_rows(start, estimate),
            (MigrateState::Rows { estimate }, Event::Int(Stepped::Row(rows))) => if rows == 0 {
                Self::go_drop_rows(estimate, 0)
            } else {
                let list = migration_chunk_steps(self.t, self.ts);
                (
                    MigrateState::Steps { estimate, rows },
                    Action::Run { plan: as_plan(list.as_slice()), counts: false },
                )
            },
            (MigrateState::Steps { estimate, rows }, Event::Ran) => {
                (MigrateState::MaxKey { estimate, rows }, Self::ask_plain(CHUNK_MAX_KEY_SQL.to_owned()))
            },
            (MigrateState::MaxKey { estimate, rows }, Event::Int(Stepped::Row(last))) => {
                (MigrateState::Advanced { estimate, rows }, Self::run_set(self.progress_name(), last))
            },
            (MigrateState::Advanced { estimate, rows }, Event::Ran) => Self::go_drop_rows(estimate, rows),
            (MigrateState::Dropped { estimate, rows }, _) => self.go_end(estimate, rows),
            (MigrateState::Forgotten { rows }, Event::Ran) => {
                (MigrateState::Reached { rows }, ask_key(self.progress_name()))
            },
            (MigrateState::Reached { rows }, Event::Int(Stepped::Row(last))) => {
                (MigrateState::Recounted { rows }, Self::ask_plain(count_left(self.t, last)))
            },
            (MigrateState::Reached { rows }, Event::Int(Stepped::Done)) => {
                (MigrateState::Recounted { rows }, Self::ask_plain(count_left(self.t, 0)))
            },
            (MigrateState::Recounted { rows }, Event::Int(Stepped::Row(left))) => self.go_recount(rows, left),
            (MigrateState::Ended { rows, left }, Event::Ran) => Self::end(rows, left),
            (MigrateState::FailedDrop { code }, _) => {
                let mut plan = empty_plan();
                push_plain(&mut plan, MIGRATION_UNDO_SQL.to_owned());
                push_plain(&mut plan, MIGRATION_END_SQL.to_owned());
                assert(sqls(plan@) =~= seq![plain(MIGRATION_UNDO_SQL@), plain(MIGRATION_END_SQL@)]);
                (MigrateState::Undone { code }, Action::Run { plan, counts: false })
            },
            (MigrateState::Undone { code }, _) => Self::stop(code),
            (MigrateState::Rows { estimate: _ }, Event::Int(Stepped::Other(rc))) => Self::go_undo(rc),
            (MigrateState::Rows { estimate: _ }, Event::Failed(rc)) => Self::go_undo(rc),
            (MigrateState::Steps { estimate: _, rows: _ }, Event::Failed(rc)) => Self::go_undo(rc),
            (MigrateState::MaxKey { estimate: _, rows: _ }, Event::Int(Stepped::Other(rc))) => Self::go_undo(rc),
            (MigrateState::MaxKey { estimate: _, rows: _ }, Event::Failed(rc)) => Self::go_undo(rc),
            (MigrateState::Advanced { estimate: _, rows: _ }, Event::Failed(rc)) => Self::go_undo(rc),
            (_, Event::Int(Stepped::Other(rc))) => Self::stop(rc),
            (_, Event::Failed(rc)) => Self::stop(rc),
            _ => Self::stop(ResultCode::MISUSE),
        }
    }

    /// Goes on: `event` is what came of the last action.
    pub fn next(&mut self, event: Event) -> (r: Action)
        requires
            old(self).in_range(),
            old(self).fits(event@),
        ensures
            *final(self) == (Migrate { state: old(self).next_of(event@).0, ..*old(self) }),
            final(self).in_range(),
            r@ == old(self).next_of(event@).1,
    {
        let (state, action) = self.go(event);
        self.state = state;
        action
    }
}

/// A table that is not being migrated is left alone.
pub proof fn only_queued_tables_are_migrated(m: Migrate<'_>)
    requires
        m.state == MigrateState::Progress,
    ensures
        m.next_of(Ev::Int(Stepped::Done)) == (MigrateState::Over { rows: 0, left: 0 }, Act::Finish),
{
}

/// A failure while rows are migrated undoes the whole step before it is reported.
pub proof fn failed_steps_are_undone(m: Migrate<'_>, rc: ResultCode)
    requires
        m.state is Rows || m.state is Steps || m.state is MaxKey || m.state is Advanced,
    ensures
        m.next_of(Ev::Failed(rc)) == (
            MigrateState::FailedDrop { code: rc },
            Act::Run(seq![plain(CHUNK_DROP_SQL@)], false),
        ),
        forall|ev: Ev| (#[trigger] Migrate { state: MigrateState::FailedDrop { code: rc }, ..m }.next_of(ev)).1
            == Act::Run(seq![plain(MIGRATION_UNDO_SQL@), plain(MIGRATION_END_SQL@)], false),
        forall|ev: Ev| (#[trigger] Migrate { state: MigrateState::Undone { code: rc }, ..m }.next_of(ev)).1
            == Act::Fail(rc, None),
{
}

/// A failure outside the rows, where nothing is to be undone yet or any more, ends the step with
/// its code; but for that the chosen rows could not be dropped, which is passed over.
pub proof fn other_failures_end_the_step(m: Migrate<'_>, rc: ResultCode)
    requires
        !(m.state is Rows || m.state is Steps || m.state is MaxKey || m.state is Advanced),
        !(m.state is Dropped || m.state is FailedDrop || m.state is Undone),
    ensures
        m.next_of(Ev::Failed(rc)).1 == Act::Fail(rc, None),
        m.next_of(Ev::Int(Stepped::Other(rc))).1 == Act::Fail(rc, None),
{
}

/// What a step says is left, and keeps for the next one, is what was estimated to be left without
/// the rows that it has gone through, as long as that is more than nothing; else it is what was
/// counted. It ends with the rows that it has gone through.
pub proof fn steps_say_what_is_left(m: Migrate<'_>, estimate: i64, rows: i64, left: i64, ev: Ev)
    requires
        rows > 0,
        estimate - rows >= i64::MIN,
    ensures
        m.state == (MigrateState::Dropped { estimate, rows }) && estimate > rows ==> m.next_of(ev) == (
            MigrateState::Ended { rows, left: (estimate - rows) as i64 },
            Act::Run(
                seq![set_key(m.estimate_key(), (estimate - rows) as i64), plain(MIGRATION_END_SQL@)],
                false,
            ),
        ),
        m.state == (MigrateState::Recounted { rows }) && left != 0 ==> m.next_of(Ev::Int(Stepped::Row(left))) == (
            MigrateState::Ended { rows, left },
            Act::Run(seq![plain(MIGRATION_END_SQL@)], false),
        ),
        m.state == (MigrateState::Recounted { rows }) ==> (m.next_of(Ev::Int(Stepped::Row(0))).0 == (
        MigrateState::Ended { rows, left: 0 })),
        m.state == (MigrateState::Ended { rows, left }) ==> m.next_of(Ev::Ran) == (
            MigrateState::Over { rows, left },
            Act::Finish,
        ),
{
}

/// A step says that nothing is left exactly where all rows of the table are migrated: then rows
/// that were never tracked get live keys, and the migration of the table is forgotten.
pub proof fn nothing_left_means_done(m: Migrate<'_>, ev: Ev)
    requires
        m.in_range(),
        m.next_of(ev).0 is Ended,
    ensures
        m.next_of(ev).0->Ended_left == 0 <==> m.next_of(ev) == m.complete(m.next_of(ev).0->Ended_rows),
        m.complete(0).1 matches Act::Run(plan, _) && plan.contains(clear_key(m.progress_key())) && plan.contains(
            plain(untracked_sql(*m.t)),
        ),
{
    let plan = m.complete(0).1->Run_0;
    assert(plan[0] == plain(untracked_sql(*m.t)));
    assert(plan[1] == clear_key(m.progress_key()));
}

/// How far it is to the end of a step of a migration.
pub open spec fn migrate_distance(state: MigrateState) -> nat {
    match state {
        MigrateState::Start => 17,
        MigrateState::Progress => 16,
        MigrateState::Begun { .. } => 15,
        MigrateState::Estimate { .. } => 14,
        MigrateState::Counted { .. } => 13,
        MigrateState::Kept { .. } => 12,
        MigrateState::Rows { .. } => 11,
        MigrateState::Steps { .. } => 10,
        MigrateState::MaxKey { .. } => 9,
        MigrateState::Advanced { .. } => 8,
        MigrateState::Dropped { .. } => 7,
        MigrateState::Forgotten { .. } => 6,
        MigrateState::Reached { .. } => 5,
        MigrateState::Recounted { .. } => 4,
        MigrateState::FailedDrop { .. } => 3,
        MigrateState::Undone { .. } => 2,
        MigrateState::Ended { .. } => 1,
        MigrateState::Over { .. } => 0,
    }
}

/// A step of a migration comes to its end, whatever came of each action.
pub proof fn migration_step_ends(m: Migrate<'_>, ev: Ev)
    ensures
        m.next_of(ev).0 is Over || migrate_distance(m.next_of(ev).0) < migrate_distance(m.state),
        m.next_of(ev).0 is Over <==> m.next_of(ev).1 is Finish || m.next_of(ev).1 is Fail,
{
}

// ---------------------------------------------------------------------------
// Clean-up
// ---------------------------------------------------------------------------
/// How far a step of a clean-up has come.
#[derive(Clone, Copy, PartialEq, Eq, Structural, Debug)]
pub enum CleanState {
    Start,
    /// The step was started.
    Begun,
    /// The count that is kept was asked for.
    Total,
    /// The rows of the tables in front of the one with this index were counted.
    Counting { i: usize, sum: i64 },
    /// The count was kept.
    Kept { total: i64 },
    /// Rows were deleted from the tables in front of the one with this index.
    Deleting { i: usize, total: i64, deleted: i64 },
    /// The rows that are left were counted, in the tables in front of the one with this index.
    Recounting { i: usize, deleted: i64, sum: i64 },
    /// What is kept of the step was written.
    Written { left: i64 },
    /// The step was ended.
    Ended { left: i64 },
    /// Something failed, and the step was undone.
    Undone { code: ResultCode },
    /// All is done: how many rows are left.
    Over { left: i64 },
}

/// A step of the clean-up of the metadata of a table.
#[derive(Clone, Copy)]
pub struct Cleanup<'a> {
    pub table: &'a String,
    /// How many rows of each table of metadata may be deleted.
    pub chunk_size: i64,
    /// What the names of the tables of metadata end with.
    pub suffixes: &'a Vec<String>,
    pub state: CleanState,
}

impl<'a> Cleanup<'a> {
    /// The key under which the count is kept.
    pub open spec fn total_key(self) -> Seq<char> {
        "cleanup_remaining_"@ + self.table@
    }

    /// Ends the step.
    pub open spec fn end(left: i64) -> (CleanState, Act) {
        (CleanState::Ended { left }, Act::Run(seq![plain(CLEANUP_END_SQL@)], false))
    }

    /// Undoes the step.
    pub open spec fn undo(code: ResultCode) -> (CleanState, Act) {
        (CleanState::Undone { code }, Act::Run(seq![plain(CLEANUP_UNDO_SQL@)], false))
    }

    /// Gives up, with nothing to undo.
    pub open spec fn give_up(code: ResultCode) -> (CleanState, Act) {
        (CleanState::Over { left: 0 }, Act::Fail(code, None))
    }

    /// Counts the rows of the table of metadata with index `i`, and keeps the sum where all are
    /// counted.
    pub open spec fn count(self, i: int, sum: i64) -> (CleanState, Act) {
        if i < self.suffixes@.len() {
            (
                CleanState::Counting { i: i as usize, sum },
                Act::AskInt(plain(count_rows_sql(self.table@, self.suffixes@[i]@))),
            )
        } else {
            (CleanState::Kept { total: sum }, Act::Run(seq![set_key(self.total_key(), sum)], false))
        }
    }

    /// Deletes rows of the table of metadata with index `i`, and ends the step where rows were
    /// deleted from all.
    pub open spec fn delete(self, i: int, total: i64, deleted: i64) -> (CleanState, Act) {
        if i < self.suffixes@.len() {
            (
                CleanState::Deleting { i: i as usize, total, deleted },
                Act::Count(seq![plain(delete_chunk_sql(self.table@, self.suffixes@[i]@, self.chunk_size))]),
            )
        } else if deleted == 0 {
            self.drop_all()
        } else if total - deleted <= 0 {
            self.recount(0, deleted, 0)
        } else {
            Self::end((total - deleted) as i64)
        }
    }

    /// Counts the rows that are left in the table of metadata with index `i`, and ends the step
    /// where all are counted.
    pub open spec fn recount(self, i: int, deleted: i64, sum: i64) -> (CleanState, Act) {
        if i < self.suffixes@.len() {
            (
                CleanState::Recounting { i: i as usize, deleted, sum },
                Act::AskInt(plain(count_rows_sql(self.table@, self.suffixes@[i]@))),
            )
        } else if sum == 0 {
            self.drop_all()
        } else {
            (
                CleanState::Written { left: sum },
                Act::Run(seq![set_key(self.total_key(), (sum + deleted) as i64)], false),
            )
        }
    }

    /// The statements that drop the tables of metadata.
    pub open spec fn drops(self) -> Seq<Sql> {
        texts(self.suffixes@).map_values(|s: Seq<char>| plain(drop_metadata_sql(self.table@, s)))
    }

    /// Drops the tables of metadata, and forgets the count.
    pub open spec fn drop_all(self) -> (CleanState, Act) {
        (
            CleanState::Written { left: 0 },
            Act::Run(self.drops().push(clear_key(self.total_key())), false),
        )
    }

    /// How it goes on. A failure between the start of the step and its end undoes it.
    pub open spec fn next_of(self, ev: Ev) -> (CleanState, Act) {
        match (self.state, ev) {
            (CleanState::Start, Ev::Begin) => (
                CleanState::Begun,
                Act::Run(seq![plain(CLEANUP_BEGIN_SQL@)], false),
            ),
            (CleanState::Start, Ev::Failed(rc)) => Self::give_up(rc),
            (CleanState::Begun, Ev::Ran) => (CleanState::Total, Act::AskInt(get_key(self.total_key()))),
            (CleanState::Begun, Ev::Failed(rc)) => Self::give_up(rc),
            (CleanState::Total, Ev::Int(Stepped::Row(n))) => self.delete(0, n, 0),
            (CleanState::Total, Ev::Int(Stepped::Done)) => self.count(0, 0),
            (CleanState::Counting { i, sum }, Ev::Int(Stepped::Row(n))) => self.count(i + 1, (sum + n) as i64),
            (CleanState::Kept { total }, Ev::Ran) => self.delete(0, total, 0),
            (CleanState::Deleting { i, total, deleted }, Ev::Int(Stepped::Row(n))) => self.delete(
                i + 1,
                total,
                (deleted + n) as i64,
            ),
            (CleanState::Recounting { i, deleted, sum }, Ev::Int(Stepped::Row(n))) => self.recount(
                i + 1,
                deleted,
                (sum + n) as i64,
            ),
            (CleanState::Written { left }, Ev::Ran) => Self::end(left),
            (CleanState::Ended { left }, Ev::Ran) => (CleanState::Over { left }, Act::Finish),
            (CleanState::Ended { .. }, Ev::Failed(rc)) => Self::give_up(rc),
            (CleanState::Undone { .. }, Ev::Failed(rc)) => Self::give_up(rc),
            (CleanState::Undone { code }, _) => Self::give_up(code),
            (CleanState::Over { .. }, _) => Self::give_up(ResultCode::MISUSE),
            (_, Ev::Int(Stepped::Other(rc))) => Self::undo(rc),
            (_, Ev::Failed(rc)) => Self::undo(rc),
            _ => Self::undo(ResultCode::MISUSE),
        }
    }

    /// The state is at one of the tables of metadata, and its numbers can be taken from each other.
    pub open spec fn in_range(self) -> bool {
        match self.state {
            CleanState::Counting { i, .. } => i < self.suffixes@.len(),
            CleanState::Deleting { i, total, deleted } => i < self.suffixes@.len() && deleted >= 0 && total
                - deleted >= i64::MIN,
            CleanState::Recounting { i, deleted, sum } => i < self.suffixes@.len() && deleted >= 0 && sum >= 0
                && sum + deleted <= i64::MAX,
            _ => true,
        }
    }

    /// A number of rows is not negative, and can be added to those before it.
    pub open spec fn fits(self, ev: Ev) -> bool {
        match (self.state, ev) {
            (CleanState::Counting { sum, .. }, Ev::Int(Stepped::Row(n))) => i64::MIN <= sum + n <= i64::MAX,
            (CleanState::Deleting { total, deleted, .. }, Ev::Int(Stepped::Row(n))) => n >= 0 && deleted + n
                <= i64::MAX && total - (deleted + n) >= i64::MIN,
            (CleanState::Recounting { deleted, sum, .. }, Ev::Int(Stepped::Row(n))) => n >= 0 && sum + n + deleted
                <= i64::MAX,
            _ => true,
        }
    }

    /// Whether [`next`](Cleanup::next) can take an event.
    pub fn can_take(&self, event: &Event) -> (r: bool)
        requires
            self.in_range(),
        ensures
            r == self.fits(event@),
    {
        match (self.state, event) {
            (CleanState::Counting { i: _, sum }, Event::Int(Stepped::Row(n))) => if *n >= 0 {
                sum <= i64::MAX - *n
            } else {
                sum >= i64::MIN - *n
            },
            (CleanState::Deleting { i: _, total, deleted }, Event::Int(Stepped::Row(n))) => *n >= 0 && deleted
                <= i64::MAX - *n && total >= i64::MIN + (deleted + *n),
            (CleanState::Recounting { i: _, deleted, sum }, Event::Int(Stepped::Row(n))) => *n >= 0 && sum + deleted
                <= i64::MAX - *n,
            _ => true,
        }
    }

    /// The start of a step of the clean-up of the metadata of a table.
    pub fn new(table: &'a String, chunk_size: i64, suffixes: &'a Vec<String>) -> (r: Cleanup<'a>)
        ensures
            r == (Cleanup { table, chunk_size, suffixes, state: CleanState::Start }),
    {
        Cleanup { table, chunk_size, suffixes, state: CleanState::Start }
    }

    fn stop(code: ResultCode) -> (r: (CleanState, Action))
        ensures
            (r.0, r.1@) == Self::give_up(code),
    {
        (CleanState::Over { left: 0 }, fail(code))
    }

    fn go_end(left: i64) -> (r: (CleanState, Action))
        ensures
            (r.0, r.1@) == Self::end(left),
    {
        (CleanState::Ended { left }, Migrate::run_one(CLEANUP_END_SQL))
    }

    fn go_undo(code: ResultCode) -> (r: (CleanState, Action))
        ensures
            (r.0, r.1@) == Self::undo(code),
    {
        (CleanState::Undone { code }, Migrate::run_one(CLEANUP_UNDO_SQL))
    }

    fn total_name(&self) -> (r: String)
        ensures
            r@ == self.total_key(),
    {
        table_key("cleanup_remaining_", self.table.as_str())
    }

    fn go_count(&self, i: usize, sum: i64) -> (r: (CleanState, Action))
        ensures
            (r.0, r.1@) == self.count(i as int, sum),
    {
        if i < self.suffixes.len() {
            (
                CleanState::Counting { i, sum },
                Migrate::ask_plain(count_rows(self.table.as_str(), self.suffixes[i].as_str())),
            )
        } else {
            (CleanState::Kept { total: sum }, Migrate::run_set(self.total_name(), sum))
        }
    }

    fn go_drop_all(&self) -> (r: (CleanState, Action))
        ensures
            (r.0, r.1@) == self.drop_all(),
    {
        let mut plan = empty_plan();
        let mut i: usize = 0;
        assert(self.drops().take(0) =~= seq![]);
        while i < self.suffixes.len()
            invariant
                i <= self.suffixes@.len(),
                sqls(plan@) == self.drops().take(i as int),
            decreases self.suffixes@.len() - i,
        {
            push_plain(&mut plan, drop_metadata(self.table.as_str(), self.suffixes[i].as_str()));
            assert(self.drops().take(i + 1) =~= self.drops().take(i as int).push(self.drops()[i as int]));
            i = i + 1;
        }
        assert(self.drops().take(i as int) =~= self.drops());
        push_clear(&mut plan, self.total_name());
        (CleanState::Written { left: 0 }, Action::Run { plan, counts: false })
    }

    fn go_recount(&self, i: usize, deleted: i64, sum: i64) -> (r: (CleanState, Action))
        requires
            deleted >= 0,
            sum >= 0,
            sum + deleted <= i64::MAX,
        ensures
            (r.0, r.1@) == self.recount(i as int, deleted, sum),
    {
        if i < self.suffixes.len() {
            return (
                CleanState::Recounting { i, deleted, sum },
                Migrate::ask_plain(count_rows(self.table.as_str(), self.suffixes[i].as_str())),
            );
        }
        match cleanup_recounted(sum, deleted) {
            RecountEnd::Drop => self.go_drop_all(),
            RecountEnd::Keep { cache, left } => {
                (CleanState::Written { left }, Migrate::run_set(self.total_name(), cache))
            },
        }
    }

    fn go_delete(&self, i: usize, total: i64, deleted: i64) -> (r: (CleanState, Action))
        requires
            deleted >= 0,
            total - deleted >= i64::MIN,
        ensures
            (r.0, r.1@) == self.delete(i as int, total, deleted),
    {
        if i < self.suffixes.len() {
            let mut plan = empty_plan();
            push_plain(&mut plan, delete_chunk(self.table.as_str(), self.suffixes[i].as_str(), self.chunk_size));
            assert(sqls(plan@) =~= seq![
                plain(delete_chunk_sql(self.table@, self.suffixes@[i as int]@, self.chunk_size)),
            ]);
            return (CleanState::Deleting { i, total, deleted }, Action::Count(plan));
        }
        match cleanup_tables_chunk(total, deleted) {
            CleanupEnd::Drop => self.go_drop_all(),
            CleanupEnd::Recount => self.go_recount(0, deleted, 0),
            CleanupEnd::Left(left) => Self::go_end(left),
        }
    }

    fn go(&self, event: Event) -> (r: (CleanState, Action))
        requires
            self.in_range(),
            self.fits(event@),
        ensures
            (r.0, r.1@) == self.next_of(event@),
    {
        let count: usize = self.suffixes.len();
        assert(count == self.suffixes@.len());
        match (self.state, event) {
            (CleanState::Start, Event::Begin) => (CleanState::Begun, Migrate::run_one(CLEANUP_BEGIN_SQL)),
            (CleanState::Start, Event::Failed(rc)) => Self::stop(rc),
            (CleanState::Begun, Event::Ran) => (CleanState::Total, ask_key(self.total_name())),
            (CleanState::Begun, Event::Failed(rc)) => Self::stop(rc),
            (CleanState::Total, Event::Int(Stepped::Row(n))) => self.go_delete(0, n, 0),
            (CleanState::Total, Event::Int(Stepped::Done)) => self.go_count(0, 0),
            (CleanState::Counting { i, sum }, Event::Int(Stepped::Row(n))) => self.go_count(i + 1, sum + n),
            (CleanState::Kept { total }, Event::Ran) => self.go_delete(0, total, 0),
            (CleanState::Deleting { i, total, deleted }, Event::Int(Stepped::Row(n))) => self.go_delete(
                i + 1,
                total,
                deleted + n,
            ),
            (CleanState::Recounting { i, deleted, sum }, Event::Int(Stepped::Row(n))) => self.go_recount(
                i + 1,
                deleted,
                sum + n,
            ),
            (CleanState::Written { left }, Event::Ran) => Self::go_end(left),
            (CleanState::Ended { left }, Event::Ran) => (CleanState::Over { left }, finish()),
            (CleanState::Ended { left: _ }, Event::Failed(rc)) => Self::stop(rc),
            (CleanState::Undone { code: _ }, Event::Failed(rc)) => Self::stop(rc),
            (CleanState::Undone { code }, _) => Self::stop(code),
            (CleanState::Over { left: _ }, _) => Self::stop(ResultCode::MISUSE),
            (_, Event::Int(Stepped::Other(rc))) => Self::go_undo(rc),
            (_, Event::Failed(rc)) => Self::go_undo(rc),
            _ => Self::go_undo(ResultCode::MISUSE),
        }
    }

    /// Goes on: `event` is what came of the last action.
    pub fn next(&mut self, event: Event) -> (r: Action)
        requires
            old(self).in_range(),
            old(self).fits(event@),
        ensures
            *final(self) == (Cleanup { state: old(self).next_of(event@).0, ..*old(self) }),
            final(self).in_range(),
            r@ == old(self).next_of(event@).1,
    {
        let (state, action) = self.go(event);
        self.state = state;
        action
    }
}

/// A step leaves nothing only where it has dropped the tables of metadata.
pub proof fn empty_tables_are_dropped(c: Cleanup<'_>, ev: Ev)
    requires
        c.next_of(ev).0 matches CleanState::Written { left } && left == 0,
    ensures
        c.next_of(ev) == c.drop_all(),
{
}

/// How far it is to the end of a step of a clean-up.
pub open spec fn cleanup_distance(c: Cleanup<'_>) -> int {
    let n = c.suffixes@.len() as int;
    match c.state {
        CleanState::Start => 3 * n + 12,
        CleanState::Begun => 3 * n + 11,
        CleanState::Total => 3 * n + 10,
        CleanState::Counting { i, .. } => 3 * n + 9 - i,
        CleanState::Kept { .. } => 2 * n + 8,
        CleanState::Deleting { i, .. } => 2 * n + 7 - i,
        CleanState::Recounting { i, .. } => n + 6 - i,
        CleanState::Written { .. } => 4,
        CleanState::Ended { .. } => 3,
        CleanState::Undone { .. } => 2,
        CleanState::Over { .. } => 0,
    }
}

/// A step of a clean-up comes to its end, whatever came of each action.
pub proof fn cleanup_step_ends(c: Cleanup<'_>, ev: Ev)
    requires
        c.in_range(),
        c.suffixes@.len() < usize::MAX,
    ensures
        c.next_of(ev).0 is Over || 0 < cleanup_distance(Cleanup { state: c.next_of(ev).0, ..c })
            < cleanup_distance(c),
        c.next_of(ev).0 is Over <==> c.next_of(ev).1 is Finish || c.next_of(ev).1 is Fail,
{
}

} // verus!
