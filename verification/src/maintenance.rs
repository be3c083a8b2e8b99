//! A call of the maintenance: the clean-ups that are queued, then the migration of tables while
//! the budget lasts, and at last whether anything is left.

use crate::bootstrap_v2::{col_ids_sql, create_v2_tables, has_v2_sql, has_v2_tables, keep_signature_sql, tables_sql};
use crate::config::{queue_task, queued, work_of, ConfigTask, TaskWork, CLEANUP_PENDING_SQL, MIGRATION_PENDING_SQL};
use crate::migrate::{
    count_left, count_left_sql, process_cleanup_tasks, task_pattern, task_tables, v1_suffixes, v2_suffixes,
    Maintenance, TableTask, CLEANUP_BEGIN_SQL, MASTER_KEYS_LIKE_SQL,
};
use crate::migrate_run::{
    ask_key, cleanup_distance, cleanup_step_ends, clear_key, get_key, migrate_distance, migration_step_ends,
    set_key, CleanState, Cleanup, Migrate, MigrateState,
};
use crate::pack_columns::{signed, to_signed, ColumnValue, Val};
use crate::result_code::{ResultCode, Stepped};
use crate::statement::{bound, one, plain, Sql};
use crate::steps::{fail, finish, statement, Act, Action, Ev, Event};
use crate::tableinfo::{SchemaVersion, TableInfo};
use crate::text::texts;
use vstd::prelude::*;
use vstd::string::*;

verus! {

// ---------------------------------------------------------------------------
// The parts of a call
// ---------------------------------------------------------------------------
/// The metadata that a clean-up removes.
#[derive(Clone, Copy, PartialEq, Eq, Structural, Debug)]
pub enum Removed {
    /// Those of the first format.
    V1,
    /// Those of the second format.
    V2,
}

impl Removed {
    /// What the keys of the tasks begin with.
    pub open spec fn marker(self) -> Seq<char> {
        match self {
            Removed::V1 => "cleanup_v1_tables"@,
            Removed::V2 => "cleanup_v2_tables"@,
        }
    }

    fn marker_text(self) -> (r: &'static str)
        ensures
            r@ == self.marker(),
    {
        match self {
            Removed::V1 => "cleanup_v1_tables",
            Removed::V2 => "cleanup_v2_tables",
        }
    }
}

/// How far a call of the maintenance has come.
#[derive(Clone, Copy, PartialEq, Eq, Structural, Debug)]
pub enum UpkeepState {
    Start,
    /// The keys of the clean-ups were asked for.
    Keys { of: Removed },
    /// A step of the clean-up of a table is under way.
    Cleaning { of: Removed, i: usize, clean: CleanState },
    /// A clean-up is over, and its key was deleted.
    Cleared { of: Removed, i: usize },
    /// It was asked whether a table has metadata in the second format.
    HasV2 { i: usize },
    /// Metadata in the second format were created for a table.
    Created { i: usize },
    /// A step of the migration of a table is under way.
    Migrating { i: usize, chunk: MigrateState },
    /// It was asked how far the migration of a table has come, to count the rows that are left.
    Progress { i: usize },
    /// The estimate of the rows that are left was asked for.
    Estimate { i: usize, start: i64 },
    /// The rows that are left were counted.
    Counted { i: usize },
    /// It was asked how many clean-ups are left.
    CleanupsPending,
    /// It was asked how many migrations are left.
    MigrationsPending,
    /// All is done: how many rows are left.
    Over { left: i32 },
    /// Something failed.
    Failed { code: ResultCode },
}

/// A call of the maintenance.
pub struct Upkeep<'a> {
    /// The replicated tables.
    pub tables: &'a [TableInfo],
    /// How many rows of each table of metadata a clean-up may delete.
    pub chunk_size: i32,
    /// The time of the transaction.
    pub ts: i64,
    /// What the names of the tables of metadata in the first format end with.
    pub v1: Vec<String>,
    /// What the names of the tables of metadata in the second format end with.
    pub v2: Vec<String>,
    /// The tables whose metadata are being removed.
    pub names: Vec<String>,
    /// What may still be migrated, and what is left.
    pub m: Maintenance,
    pub state: UpkeepState,
}

/// How a call goes on: what is left by now, the state, and what to do.
pub type UpkeepNext = (Maintenance, UpkeepState, Act);

/// The first table from `i` on that has metadata in the first format, or the number of tables.
pub open spec fn next_old(tables: Seq<TableInfo>, i: int) -> int
    decreases tables.len() - i,
{
    if i < 0 || i >= tables.len() {
        tables.len() as int
    } else if tables[i].schema_version == SchemaVersion::V2 {
        next_old(tables, i + 1)
    } else {
        i
    }
}

/// The statements that create the metadata of a table in the second format.
pub open spec fn create_sql(t: TableInfo) -> Seq<Sql> {
    (tables_sql(t) + col_ids_sql(t)).push(keep_signature_sql(t))
}

impl<'a> Upkeep<'a> {
    /// What the names of the tables of metadata end with that a clean-up removes.
    pub open spec fn suffixes(self, of: Removed) -> Vec<String> {
        match of {
            Removed::V1 => self.v1,
            Removed::V2 => self.v2,
        }
    }

    /// A step of a clean-up.
    pub open spec fn cleanup(self, of: Removed, i: int, step: CleanState) -> Cleanup<'a> {
        Cleanup {
            table: &self.names@[i],
            chunk_size: self.chunk_size as i64,
            suffixes: &self.suffixes(of),
            state: step,
        }
    }

    /// A step of the migration of a table.
    pub open spec fn migration(self, i: int, step: MigrateState) -> Migrate<'a> {
        Migrate { t: &self.tables@[i], chunk_size: self.m.budget, ts: self.ts, state: step }
    }

    /// How a step of a clean-up goes on.
    #[verifier::opaque]
    pub open spec fn clean_step(self, of: Removed, i: int, clean: CleanState, ev: Ev) -> (CleanState, Act) {
        self.cleanup(of, i, clean).next_of(ev)
    }

    /// How a step of the migration of a table goes on.
    #[verifier::opaque]
    pub open spec fn chunk_step(self, i: int, chunk: MigrateState, ev: Ev) -> (MigrateState, Act) {
        self.migration(i, chunk).next_of(ev)
    }

    /// Something failed.
    pub open spec fn failed(self, code: ResultCode) -> UpkeepNext {
        (self.m, UpkeepState::Failed { code }, Act::Fail(code, None))
    }

    /// Asks for the clean-ups of one kind.
    pub open spec fn keys(m: Maintenance, of: Removed) -> UpkeepNext {
        (
            m,
            UpkeepState::Keys { of },
            Act::AskTexts(bound(MASTER_KEYS_LIKE_SQL@, seq![Val::Text(of.marker() + "_%"@)])),
        )
    }

    /// Goes on with clean-up `i` of `count`; the other clean-ups come next, and then the tables.
    pub open spec fn clean(self, m: Maintenance, of: Removed, i: int, count: int) -> UpkeepNext {
        if i < count {
            (
                m,
                UpkeepState::Cleaning { of, i: i as usize, clean: CleanState::Begun },
                Act::Run(seq![plain(CLEANUP_BEGIN_SQL@)], false),
            )
        } else if of == Removed::V1 {
            Self::keys(m, Removed::V2)
        } else {
            self.table(m, 0)
        }
    }

    /// Goes on with the tables from `i` on.
    pub open spec fn table(self, m: Maintenance, i: int) -> UpkeepNext {
        let j = next_old(self.tables@, i);
        if j < self.tables@.len() {
            (
                m,
                UpkeepState::HasV2 { i: j as usize },
                Act::AskInt(plain(has_v2_sql(self.tables@[j].tbl_name@))),
            )
        } else if m.remaining != 0 {
            (m, UpkeepState::Over { left: m.remaining }, Act::Finish)
        } else {
            (m, UpkeepState::CleanupsPending, Act::AskInt(plain(CLEANUP_PENDING_SQL@)))
        }
    }

    /// How it goes on with clean-up `i`. A clean-up that fails ends the call; one that leaves
    /// nothing is forgotten.
    pub open spec fn on_clean(self, of: Removed, i: int, inner: (CleanState, Act)) -> UpkeepNext {
        match inner.1 {
            Act::Finish => {
                let left = match inner.0 {
                    CleanState::Over { left } => left,
                    _ => 0i64,
                };
                if left == 0 {
                    (
                        self.m,
                        UpkeepState::Cleared { of, i: i as usize },
                        Act::Run(seq![clear_key(of.marker() + "_"@ + self.names@[i]@)], false),
                    )
                } else {
                    self.clean(self.m.with_left(left as int), of, i + 1, self.names@.len() as int)
                }
            },
            Act::Fail(code, _) => self.failed(code),
            act => (self.m, UpkeepState::Cleaning { of, i: i as usize, clean: inner.0 }, act),
        }
    }

    /// How it goes on with the migration of table `i`. One that fails is left for the next call,
    /// and counts as not done.
    pub open spec fn on_migrate(self, i: int, inner: (MigrateState, Act)) -> UpkeepNext {
        match inner.1 {
            Act::Finish => {
                let (rows, left) = match inner.0 {
                    MigrateState::Over { rows, left } => (rows, left),
                    _ => (0i64, 0i64),
                };
                self.table(self.m.with_chunk(rows as int, left as int), i + 1)
            },
            Act::Fail(_, _) => self.table(self.m.with_left(1), i + 1),
            act => (self.m, UpkeepState::Migrating { i: i as usize, chunk: inner.0 }, act),
        }
    }

    /// Starts with the migration of table `i`.
    pub open spec fn migrate(self, i: int) -> UpkeepNext {
        self.on_migrate(i, self.chunk_step(i, MigrateState::Start, Ev::Begin))
    }

    /// How it goes on once it is known whether a table has metadata in the second format.
    pub open spec fn on_has_v2(self, i: int, has_v2: bool) -> UpkeepNext {
        let t = self.tables@[i];
        match self.m.task(t.schema_version, has_v2) {
            TableTask::Skip => self.table(self.m, i + 1),
            TableTask::CountOnly => (
                self.m,
                UpkeepState::Progress { i: i as usize },
                Act::AskInt(get_key(self.migration(i, MigrateState::Start).progress_key())),
            ),
            TableTask::CreateAndMigrate => (
                self.m,
                UpkeepState::Created { i: i as usize },
                Act::Run(create_sql(t), false),
            ),
            TableTask::Migrate => self.migrate(i),
        }
    }

    /// Takes account of tasks that are left.
    pub open spec fn with_pending(self, n: i64) -> Maintenance {
        if n == 0 {
            self.m
        } else {
            self.m.with_left(n as int)
        }
    }

    /// How it goes on.
    pub open spec fn next_of(self, ev: Ev) -> UpkeepNext {
        match (self.state, ev) {
            (UpkeepState::Start, Ev::Begin) => Self::keys(self.m, Removed::V1),
            (UpkeepState::Keys { of }, Ev::Texts(keys)) => self.clean(
                self.m,
                of,
                0,
                task_tables(keys, of.marker() + "_"@).len() as int,
            ),
            (UpkeepState::Cleaning { of, i, clean }, _) => self.on_clean(
                of,
                i as int,
                self.clean_step(of, i as int, clean, ev),
            ),
            (UpkeepState::Cleared { of, i }, Ev::Ran) => self.clean(self.m, of, i + 1, self.names@.len() as int),
            (UpkeepState::HasV2 { i }, Ev::Int(Stepped::Row(_))) => self.on_has_v2(i as int, true),
            (UpkeepState::HasV2 { i }, Ev::Int(Stepped::Done)) => self.on_has_v2(i as int, false),
            (UpkeepState::Created { i }, Ev::Ran) => self.migrate(i as int),
            (UpkeepState::Migrating { i, chunk }, _) => self.on_migrate(
                i as int,
                self.chunk_step(i as int, chunk, ev),
            ),
            (UpkeepState::Progress { i }, Ev::Int(Stepped::Row(start))) => (
                self.m,
                UpkeepState::Estimate { i, start },
                Act::AskInt(get_key(self.migration(i as int, MigrateState::Start).estimate_key())),
            ),
            (UpkeepState::Progress { i }, Ev::Int(Stepped::Done)) => self.table(self.m, i + 1),
            (UpkeepState::Estimate { i, .. }, Ev::Int(Stepped::Row(n))) => self.table(
                self.m.with_left(n as int),
                i + 1,
            ),
            (UpkeepState::Estimate { i, start }, Ev::Int(Stepped::Done)) => (
                self.m,
                UpkeepState::Counted { i },
                Act::AskInt(plain(count_left_sql(self.tables@[i as int], start))),
            ),
            (UpkeepState::Counted { i }, Ev::Int(Stepped::Row(n))) => self.table(self.m.with_left(n as int), i + 1),
            (UpkeepState::Counted { i }, Ev::Int(Stepped::Done)) => self.table(self.m.with_left(0), i + 1),
            (UpkeepState::CleanupsPending, Ev::Int(Stepped::Row(n))) => (
                self.with_pending(n),
                UpkeepState::MigrationsPending,
                Act::AskInt(plain(MIGRATION_PENDING_SQL@)),
            ),
            (UpkeepState::MigrationsPending, Ev::Int(Stepped::Row(n))) => (
                self.with_pending(n),
                UpkeepState::Over { left: self.with_pending(n).remaining },
                Act::Finish,
            ),
            (_, Ev::Int(Stepped::Other(rc))) => self.failed(rc),
            (_, Ev::Failed(rc)) => self.failed(rc),
            _ => self.failed(ResultCode::MISUSE),
        }
    }

    /// How the tables follow whose metadata are being removed.
    pub open spec fn names_follow(self, ev: Ev, names: Vec<String>) -> bool {
        match (self.state, ev) {
            (UpkeepState::Keys { of }, Ev::Texts(keys)) => texts(names@) == task_tables(keys, of.marker() + "_"@),
            _ => names == self.names,
        }
    }

    /// Whether `next` is what becomes of the call with an event.
    pub open spec fn goes(self, ev: Ev, next: Upkeep<'a>) -> bool {
        &&& next.tables == self.tables
        &&& next.chunk_size == self.chunk_size
        &&& next.ts == self.ts
        &&& next.v1 == self.v1
        &&& next.v2 == self.v2
        &&& self.names_follow(ev, next.names)
        &&& next.m == self.next_of(ev).0
        &&& next.state == self.next_of(ev).1
    }

    /// The state is at one of the clean-ups, or of the tables; tables are migrated while the
    /// budget lasts.
    pub open spec fn in_range(self) -> bool {
        &&& texts(self.v1@) == seq!["__crsql_clock"@, "__crsql_pks"@]
        &&& texts(self.v2@) == seq![
            "__crsql_v2_col_map"@,
            "__crsql_v2_clock"@,
            "__crsql_v2_pks"@,
            "__crsql_v2_tombstones"@,
            "__crsql_v2_tombstone_pks"@,
        ]
        &&& forall|i: int|
            0 <= i < self.tables@.len() ==> {
                &&& (#[trigger] self.tables@[i]).skip_hash ==> self.tables@[i].pks@.len() > 0
                &&& self.tables@[i].non_pks@.len() <= i32::MAX
            }
        &&& match self.state {
            UpkeepState::Cleaning { of, i, clean } => i < self.names@.len() && self.cleanup(
                of,
                i as int,
                clean,
            ).in_range(),
            UpkeepState::Cleared { i, .. } => i < self.names@.len(),
            UpkeepState::HasV2 { i } => i < self.tables@.len(),
            UpkeepState::Created { i } => i < self.tables@.len() && self.m.budget > 0,
            UpkeepState::Migrating { i, chunk } => i < self.tables@.len() && self.m.budget > 0 && self.migration(
                i as int,
                chunk,
            ).in_range(),
            UpkeepState::Progress { i } => i < self.tables@.len(),
            UpkeepState::Estimate { i, .. } => i < self.tables@.len(),
            UpkeepState::Counted { i } => i < self.tables@.len(),
            _ => true,
        }
    }

    /// The states that lead on to a table, or to the end.
    pub open spec fn leads_on(self, state: UpkeepState) -> bool {
        match state {
            UpkeepState::HasV2 { i } => i < self.tables@.len(),
            UpkeepState::Over { .. } => true,
            UpkeepState::CleanupsPending => true,
            _ => false,
        }
    }

    /// The numbers of rows that the database gives fit those before them.
    pub open spec fn fits(self, ev: Ev) -> bool {
        match self.state {
            UpkeepState::Cleaning { of, i, clean } => self.cleanup(of, i as int, clean).fits(ev),
            UpkeepState::Migrating { i, chunk } => self.migration(i as int, chunk).fits(ev),
            _ => true,
        }
    }

    /// The start of a call for these tables: `m` is what [`Maintenance::incremental_maintenance`]
    /// gave, and `timestamp` is the time of the transaction.
    pub fn new(tables: &'a [TableInfo], m: Maintenance, chunk_size: i32, timestamp: u64) -> (r: Upkeep<'a>)
        requires
            forall|i: int|
                0 <= i < tables@.len() ==> {
                    &&& (#[trigger] tables@[i]).skip_hash ==> tables@[i].pks@.len() > 0
                    &&& tables@[i].non_pks@.len() <= i32::MAX
                },
        ensures
            r.tables == tables,
            r.chunk_size == chunk_size,
            r.ts == signed(timestamp as nat),
            r.names@ == Seq::<String>::empty(),
            r.m == m,
            r.state == UpkeepState::Start,
            r.in_range(),
    {
        Upkeep {
            tables,
            chunk_size,
            ts: to_signed(timestamp),
            v1: v1_suffixes(),
            v2: v2_suffixes(),
            names: Vec::new(),
            m,
            state: UpkeepState::Start,
        }
    }

    /// Whether [`next`](Upkeep::next) can take an event.
    pub fn can_take(&self, event: &Event) -> (r: bool)
        requires
            self.in_range(),
        ensures
            r == self.fits(event@),
    {
        match self.state {
            UpkeepState::Cleaning { of, i, clean } => {
                let suffixes = match of {
                    Removed::V1 => &self.v1,
                    Removed::V2 => &self.v2,
                };
                let chunk_size = self.chunk_size as i64;
                Cleanup { table: &self.names[i], chunk_size, suffixes, state: clean }.can_take(event)
            },
            UpkeepState::Migrating { i, chunk } => {
                Migrate { t: &self.tables[i], chunk_size: self.m.budget, ts: self.ts, state: chunk }.can_take(event)
            },
            _ => true,
        }
    }

    fn stop(&self, code: ResultCode) -> (r: (Maintenance, UpkeepState, Action))
        ensures
            (r.0, r.1, r.2@) == self.failed(code),
    {
        (self.m, UpkeepState::Failed { code }, fail(code))
    }

    fn go_keys(m: Maintenance, of: Removed) -> (r: (Maintenance, UpkeepState, Action))
        ensures
            (r.0, r.1, r.2@) == Self::keys(m, of),
    {
        let pattern = one(ColumnValue::Text(task_pattern(of.marker_text())));
        (m, UpkeepState::Keys { of }, Action::AskTexts(statement(MASTER_KEYS_LIKE_SQL.to_owned(), pattern)))
    }

    fn go_clean(&self, m: Maintenance, of: Removed, i: usize, count: usize) -> (r: (Maintenance, UpkeepState, Action))
        ensures
            (r.0, r.1, r.2@) == self.clean(m, of, i as int, count as int),
            match r.1 {
                UpkeepState::Cleaning { i, clean, .. } => i < count && clean == CleanState::Begun,
                UpkeepState::Keys { .. } => true,
                state => self.leads_on(state),
            },
    {
        if i < count {
            let begin = Migrate::run_one(CLEANUP_BEGIN_SQL);
            (m, UpkeepState::Cleaning { of, i, clean: CleanState::Begun }, begin)
        } else {
            match of {
                Removed::V1 => Self::go_keys(m, Removed::V2),
                Removed::V2 => self.go_table(m, 0),
            }
        }
    }

    fn go_table(&self, m: Maintenance, from: usize) -> (r: (Maintenance, UpkeepState, Action))
        requires
            from <= self.tables@.len(),
        ensures
            (r.0, r.1, r.2@) == self.table(m, from as int),
            self.leads_on(r.1),
    {
        let mut i: usize = from;
        while i < self.tables.len() && matches!(self.tables[i].schema_version, SchemaVersion::V2)
            invariant
                from <= i <= self.tables@.len(),
                next_old(self.tables@, from as int) == next_old(self.tables@, i as int),
            decreases self.tables@.len() - i,
        {
            i = i + 1;
        }
        if i < self.tables.len() {
            let ask = Migrate::ask_plain(has_v2_tables(self.tables[i].tbl_name.as_str()));
            (m, UpkeepState::HasV2 { i }, ask)
        } else if m.remaining != 0 {
            (m, UpkeepState::Over { left: m.remaining }, finish())
        } else {
            (m, UpkeepState::CleanupsPending, Migrate::ask_plain(CLEANUP_PENDING_SQL.to_owned()))
        }
    }

    fn go_cleaning(&self, of: Removed, i: usize, clean: CleanState, event: Event) -> (r: (
        Maintenance,
        UpkeepState,
        Action,
    ))
        requires
            self.in_range(),
            self.fits(event@),
            self.state == (UpkeepState::Cleaning { of, i, clean }),
        ensures
            (r.0, r.1, r.2@) == self.next_of(event@),
            match r.1 {
                UpkeepState::Cleaning { of, i, clean } => i < self.names@.len() && self.cleanup(
                    of,
                    i as int,
                    clean,
                ).in_range(),
                UpkeepState::Cleared { i, .. } => i < self.names@.len(),
                UpkeepState::Keys { .. } => true,
                UpkeepState::Failed { .. } => true,
                state => self.leads_on(state),
            },
    {
        reveal(Upkeep::clean_step);
        let count: usize = self.names.len();
        let suffixes = match of {
            Removed::V1 => &self.v1,
            Removed::V2 => &self.v2,
        };
        let mut c = Cleanup { table: &self.names[i], chunk_size: self.chunk_size as i64, suffixes, state: clean };
        let action = c.next(event);
        match action {
            Action::Stop(Ok(_)) => {
                let left: i64 = match c.state {
                    CleanState::Over { left } => left,
                    _ => 0,
                };
                if left == 0 {
                    let key = queue_task(of.marker_text(), self.names[i].as_str());
                    (self.m, UpkeepState::Cleared { of, i }, Migrate::run_clear(key))
                } else {
                    let mut m = self.m;
                    m.add_remaining(left);
                    self.go_clean(m, of, i + 1, count)
                }
            },
            Action::Stop(Err(e)) => self.stop(e.code),
            other => (self.m, UpkeepState::Cleaning { of, i, clean: c.state }, other),
        }
    }

    fn go_migrating(&self, i: usize, chunk: MigrateState, event: Event) -> (r: (Maintenance, UpkeepState, Action))
        requires
            i < self.tables@.len(),
            self.m.budget > 0,
            self.migration(i as int, chunk).in_range(),
            self.migration(i as int, chunk).fits(event@),
        ensures
            (r.0, r.1, r.2@) == self.on_migrate(i as int, self.chunk_step(i as int, chunk, event@)),
            match r.1 {
                UpkeepState::Migrating { i: at, chunk } => r.0 == self.m && at == i && self.migration(
                    i as int,
                    chunk,
                ).in_range(),
                state => self.leads_on(state),
            },
    {
        reveal(Upkeep::chunk_step);
        let mut step = Migrate { t: &self.tables[i], chunk_size: self.m.budget, ts: self.ts, state: chunk };
        let action = step.next(event);
        match action {
            Action::Stop(Ok(_)) => {
                let (rows, left): (i64, i64) = match step.state {
                    MigrateState::Over { rows, left } => (rows, left),
                    _ => (0, 0),
                };
                let mut m = self.m;
                m.after_chunk(rows, left);
                self.go_table(m, i + 1)
            },
            Action::Stop(Err(_)) => {
                let mut m = self.m;
                m.add_remaining(1);
                self.go_table(m, i + 1)
            },
            other => (self.m, UpkeepState::Migrating { i, chunk: step.state }, other),
        }
    }

    fn go_has_v2(&self, i: usize, has_v2: bool) -> (r: (Maintenance, UpkeepState, Action))
        requires
            self.in_range(),
            i < self.tables@.len(),
        ensures
            (r.0, r.1, r.2@) == self.on_has_v2(i as int, has_v2),
            match r.1 {
                UpkeepState::Created { i: at } => r.0 == self.m && at == i && self.m.budget > 0,
                UpkeepState::Migrating { i: at, chunk } => r.0 == self.m && at == i && self.m.budget > 0
                    && self.migration(i as int, chunk).in_range(),
                UpkeepState::Progress { i: at } => at == i,
                state => self.leads_on(state),
            },
    {
        let t = &self.tables[i];
        match self.m.table_task(t.schema_version, has_v2) {
            TableTask::Skip => self.go_table(self.m, i + 1),
            TableTask::CountOnly => {
                let step = Migrate::new(t, self.m.budget, self.ts);
                (self.m, UpkeepState::Progress { i }, ask_key(step.progress_name()))
            },
            TableTask::CreateAndMigrate => {
                let plan = create_v2_tables(t);
                (self.m, UpkeepState::Created { i }, Action::Run { plan, counts: false })
            },
            TableTask::Migrate => self.go_migrating(i, MigrateState::Start, Event::Begin),
        }
    }

    fn left_behind(&self, rows: i64, i: usize) -> (r: (Maintenance, UpkeepState, Action))
        requires
            i < self.tables@.len(),
        ensures
            (r.0, r.1, r.2@) == self.table(self.m.with_left(rows as int), i + 1),
            self.leads_on(r.1),
    {
        let count: usize = self.tables.len();
        assert(i < count);
        let mut m = self.m;
        m.add_remaining(rows);
        self.go_table(m, i + 1)
    }

    fn count_pending(&self, n: i64) -> (r: Maintenance)
        ensures
            r == self.with_pending(n),
    {
        let mut m = self.m;
        if n != 0 {
            m.add_remaining(n);
        }
        m
    }

    /// Goes on: `event` is what came of the last action.
    pub fn next(&mut self, event: Event) -> (r: Action)
        requires
            old(self).in_range(),
            old(self).fits(event@),
        ensures
            old(self).goes(event@, *final(self)),
            r@ == old(self).next_of(event@).2,
            final(self).in_range(),
    {
        let cleanups: usize = self.names.len();
        let tables: usize = self.tables.len();
        assert(tables == self.tables@.len());
        let (m, state, action) = match (self.state, event) {
            (UpkeepState::Start, Event::Begin) => Self::go_keys(self.m, Removed::V1),
            (UpkeepState::Keys { of }, Event::Texts(keys)) => {
                let names = process_cleanup_tasks(keys.as_slice(), of.marker_text());
                assert(texts(names@).len() == names@.len());
                let next = self.go_clean(self.m, of, 0, names.len());
                self.names = names;
                next
            },
            (UpkeepState::Cleaning { of, i, clean }, event) => self.go_cleaning(of, i, clean, event),
            (UpkeepState::Cleared { of, i }, Event::Ran) => self.go_clean(self.m, of, i + 1, cleanups),
            (UpkeepState::HasV2 { i }, Event::Int(Stepped::Row(_))) => self.go_has_v2(i, true),
            (UpkeepState::HasV2 { i }, Event::Int(Stepped::Done)) => self.go_has_v2(i, false),
            (UpkeepState::Created { i }, Event::Ran) => self.go_migrating(i, MigrateState::Start, Event::Begin),
            (UpkeepState::Migrating { i, chunk }, event) => self.go_migrating(i, chunk, event),
            (UpkeepState::Progress { i }, Event::Int(Stepped::Row(start))) => {
                let step = Migrate::new(&self.tables[i], self.m.budget, self.ts);
                (self.m, UpkeepState::Estimate { i, start }, ask_key(step.estimate_name()))
            },
            (UpkeepState::Progress { i }, Event::Int(Stepped::Done)) => self.go_table(self.m, i + 1),
            (UpkeepState::Estimate { i, start: _ }, Event::Int(Stepped::Row(n))) => self.left_behind(n, i),
            (UpkeepState::Estimate { i, start }, Event::Int(Stepped::Done)) => {
                let count = count_left(&self.tables[i], start);
                (self.m, UpkeepState::Counted { i }, Migrate::ask_plain(count))
            },
            (UpkeepState::Counted { i }, Event::Int(Stepped::Row(n))) => self.left_behind(n, i),
            (UpkeepState::Counted { i }, Event::Int(Stepped::Done)) => self.left_behind(0, i),
            (UpkeepState::CleanupsPending, Event::Int(Stepped::Row(n))) => {
                let ask = Migrate::ask_plain(MIGRATION_PENDING_SQL.to_owned());
                (self.count_pending(n), UpkeepState::MigrationsPending, ask)
            },
            (UpkeepState::MigrationsPending, Event::Int(Stepped::Row(n))) => {
                let m = self.count_pending(n);
                (m, UpkeepState::Over { left: m.remaining }, finish())
            },
            (_, Event::Int(Stepped::Other(rc))) => self.stop(rc),
            (_, Event::Failed(rc)) => self.stop(rc),
            _ => self.stop(ResultCode::MISUSE),
        };
        self.m = m;
        self.state = state;
        action
    }
}

// ---------------------------------------------------------------------------
// What a call comes to
// ---------------------------------------------------------------------------
/// What a call gives back, by the state that it ends in: how many rows are left, -1 for an error.
pub open spec fn number_of(end: UpkeepState) -> i32 {
    match end {
        UpkeepState::Over { left } => left,
        _ => -1i32,
    }
}

/// What a call of the maintenance gives back, by the state that it ends in: how many rows are
/// left, 0 where nothing is, -1 for an error.
pub fn crsql_incremental_maintenance(end: UpkeepState) -> (r: i32)
    ensures
        r == number_of(end),
{
    match end {
        UpkeepState::Over { left } => left,
        _ => -1,
    }
}

/// Whether an event ends a part of the call with work left: a clean-up that leaves rows, the
/// migration of a table that leaves rows or fails, a table that is not migrated for now, or a
/// task that is still queued.
pub open spec fn leaves_work(u: Upkeep<'_>, ev: Ev) -> bool {
    match u.state {
        UpkeepState::Cleaning { of, i, clean } => {
            let inner = u.clean_step(of, i as int, clean, ev);
            inner.1 is Finish && (inner.0 matches CleanState::Over { left } && left != 0)
        },
        UpkeepState::Migrating { i, chunk } => {
            let inner = u.chunk_step(i as int, chunk, ev);
            inner.1 is Fail || (inner.1 is Finish && (inner.0 matches MigrateState::Over { left, .. } && left != 0))
        },
        UpkeepState::Estimate { .. } => ev matches Ev::Int(Stepped::Row(_)),
        UpkeepState::Counted { .. } => ev == Ev::Int(Stepped::Done) || ev matches Ev::Int(Stepped::Row(_)),
        UpkeepState::CleanupsPending => ev matches Ev::Int(Stepped::Row(n)) && n != 0,
        UpkeepState::MigrationsPending => ev matches Ev::Int(Stepped::Row(n)) && n != 0,
        _ => false,
    }
}

/// A call from its start, with what came of each of its actions.
pub open spec fn is_run<'a>(run: Seq<Upkeep<'a>>, evs: Seq<Ev>) -> bool {
    &&& run.len() == evs.len() + 1
    &&& run[0].state is Start
    &&& run[0].m.remaining == 0
    &&& forall|k: int| 0 <= k < evs.len() ==> (#[trigger] run[k]).goes(evs[k], run[k + 1])
}

/// What is left gets no less, an end says how much it is, and is not reached with nothing left
/// before the tasks that are still queued are counted.
spec fn keeps_count(before: Maintenance, next: UpkeepNext) -> bool {
    &&& next.0.remaining >= before.remaining
    &&& !(next.1 is MigrationsPending)
    &&& next.1 is CleanupsPending ==> next.2 == Act::AskInt(plain(CLEANUP_PENDING_SQL@))
    &&& next.1 matches UpkeepState::Over { left } ==> left == next.0.remaining && left != 0
}

proof fn lemma_with_left(m: Maintenance, rows: int)
    requires
        m.remaining >= 0,
    ensures
        m.with_left(rows).remaining >= 1,
        m.with_left(rows).remaining >= m.remaining,
{
}

proof fn lemma_table(u: Upkeep<'_>, before: Maintenance, m: Maintenance, i: int)
    requires
        m.remaining >= before.remaining,
    ensures
        u.table(m, i).0 == m,
        keeps_count(before, u.table(m, i)),
{
}

proof fn lemma_clean(u: Upkeep<'_>, before: Maintenance, m: Maintenance, of: Removed, i: int, count: int)
    requires
        m.remaining >= before.remaining,
    ensures
        u.clean(m, of, i, count).0 == m,
        keeps_count(before, u.clean(m, of, i, count)),
{
    lemma_table(u, before, m, 0);
}

proof fn lemma_on_clean(u: Upkeep<'_>, of: Removed, i: int, inner: (CleanState, Act))
    requires
        u.m.remaining >= 0,
    ensures
        keeps_count(u.m, u.on_clean(of, i, inner)),
        inner.1 is Finish && (inner.0 matches CleanState::Over { left } && left != 0) ==> u.on_clean(
            of,
            i,
            inner,
        ).0.remaining >= 1,
{
    if let CleanState::Over { left } = inner.0 {
        lemma_with_left(u.m, left as int);
        lemma_clean(u, u.m, u.m.with_left(left as int), of, i + 1, u.names@.len() as int);
    }
}

proof fn lemma_on_migrate(u: Upkeep<'_>, i: int, inner: (MigrateState, Act))
    requires
        u.m.remaining >= 0,
    ensures
        keeps_count(u.m, u.on_migrate(i, inner)),
        inner.1 is Fail || (inner.1 is Finish && (inner.0 matches MigrateState::Over { left, .. } && left != 0))
            ==> u.on_migrate(i, inner).0.remaining >= 1,
{
    lemma_with_left(u.m, 1);
    lemma_table(u, u.m, u.m.with_left(1), i + 1);
    lemma_table(u, u.m, u.m.with_chunk(0, 0), i + 1);
    if let MigrateState::Over { rows, left } = inner.0 {
        lemma_with_left(u.m, left as int);
        lemma_table(u, u.m, u.m.with_chunk(rows as int, left as int), i + 1);
    }
}

proof fn lemma_on_has_v2(u: Upkeep<'_>, i: int, has_v2: bool)
    requires
        u.m.remaining >= 0,
    ensures
        keeps_count(u.m, u.on_has_v2(i, has_v2)),
{
    lemma_table(u, u.m, u.m, i + 1);
    lemma_on_migrate(u, i, u.chunk_step(i, MigrateState::Start, Ev::Begin));
}

/// What is left never gets less, and work that is left counts for something.
proof fn lemma_step(u: Upkeep<'_>, ev: Ev)
    requires
        u.m.remaining >= 0,
    ensures
        !(u.state is CleanupsPending) && !(u.state is MigrationsPending) ==> keeps_count(u.m, u.next_of(ev)),
        u.next_of(ev).0.remaining >= u.m.remaining,
        leaves_work(u, ev) ==> u.next_of(ev).0.remaining >= 1,
        u.next_of(ev).1 matches UpkeepState::Over { left } ==> left == u.next_of(ev).0.remaining,
        u.next_of(ev).1 is MigrationsPending ==> u.next_of(ev).2 == Act::AskInt(plain(MIGRATION_PENDING_SQL@)),
        u.state is CleanupsPending ==> !(u.next_of(ev).1 is Over),
        u.state is CleanupsPending || u.state is MigrationsPending ==> !(u.next_of(ev).1 is CleanupsPending),
        u.state is MigrationsPending ==> !(u.next_of(ev).1 is MigrationsPending),
{
    match u.state {
        UpkeepState::Keys { of } => {
            if let Ev::Texts(keys) = ev {
                lemma_clean(u, u.m, u.m, of, 0, task_tables(keys, of.marker() + "_"@).len() as int);
            }
        },
        UpkeepState::Cleaning { of, i, clean } => {
            lemma_on_clean(u, of, i as int, u.clean_step(of, i as int, clean, ev));
        },
        UpkeepState::Cleared { of, i } => {
            lemma_clean(u, u.m, u.m, of, i + 1, u.names@.len() as int);
        },
        UpkeepState::HasV2 { i } => {
            lemma_on_has_v2(u, i as int, true);
            lemma_on_has_v2(u, i as int, false);
        },
        UpkeepState::Created { i } => {
            lemma_on_migrate(u, i as int, u.chunk_step(i as int, MigrateState::Start, Ev::Begin));
        },
        UpkeepState::Migrating { i, chunk } => {
            lemma_on_migrate(u, i as int, u.chunk_step(i as int, chunk, ev));
        },
        UpkeepState::Progress { i } => {
            lemma_table(u, u.m, u.m, i + 1);
        },
        UpkeepState::Estimate { i, .. } => {
            if let Ev::Int(Stepped::Row(n)) = ev {
                lemma_with_left(u.m, n as int);
                lemma_table(u, u.m, u.m.with_left(n as int), i + 1);
            }
        },
        UpkeepState::Counted { i } => {
            lemma_with_left(u.m, 0);
            lemma_table(u, u.m, u.m.with_left(0), i + 1);
            if let Ev::Int(Stepped::Row(n)) = ev {
                lemma_with_left(u.m, n as int);
                lemma_table(u, u.m, u.m.with_left(n as int), i + 1);
            }
        },
        _ => {},
    }
}

proof fn lemma_remaining<'a>(run: Seq<Upkeep<'a>>, evs: Seq<Ev>, i: int, j: int)
    requires
        is_run(run, evs),
        0 <= i <= j < run.len(),
    ensures
        0 <= run[i].m.remaining <= run[j].m.remaining,
    decreases j,
{
    if j > 0 {
        lemma_remaining(run, evs, 0, j - 1);
        lemma_step(run[j - 1], evs[j - 1]);
        assert(run[j - 1].goes(evs[j - 1], run[j - 1 + 1]));
        if i < j {
            lemma_remaining(run, evs, i, j - 1);
        }
    }
}

/// A call gives 0 back only where all maintenance is complete: no clean-up and no migration that
/// it went through has left anything or failed, and the two last questions, how many clean-ups
/// and how many migrations are still queued, were both answered with none.
pub proof fn zero_means_complete<'a>(run: Seq<Upkeep<'a>>, evs: Seq<Ev>)
    requires
        is_run(run, evs),
        number_of(run.last().state) == 0,
    ensures
        forall|k: int| 0 <= k < evs.len() ==> !leaves_work(#[trigger] run[k], evs[k]),
        ({
            let n = evs.len() as int;
            &&& n >= 3
            &&& run[n - 3].next_of(evs[n - 3]).2 == Act::AskInt(plain(CLEANUP_PENDING_SQL@))
            &&& evs[n - 2] == Ev::Int(Stepped::Row(0))
            &&& run[n - 2].next_of(evs[n - 2]).2 == Act::AskInt(plain(MIGRATION_PENDING_SQL@))
            &&& evs[n - 1] == Ev::Int(Stepped::Row(0))
        }),
{
    let n = evs.len() as int;
    assert(n >= 1);
    lemma_remaining(run, evs, 0, n - 1);
    lemma_step(run[n - 1], evs[n - 1]);
    assert(run[n - 1].goes(evs[n - 1], run[n - 1 + 1]));
    assert(run[n].m.remaining == 0);
    assert forall|k: int| 0 <= k < evs.len() implies !leaves_work(#[trigger] run[k], evs[k]) by {
        lemma_remaining(run, evs, 0, k);
        lemma_remaining(run, evs, k + 1, n);
        lemma_step(run[k], evs[k]);
        assert(run[k].goes(evs[k], run[k + 1]));
    }
    assert(run[n - 1].state is MigrationsPending);
    assert(!leaves_work(run[n - 1], evs[n - 1]));
    lemma_remaining(run, evs, 0, n - 2);
    lemma_step(run[n - 2], evs[n - 2]);
    assert(run[n - 2].goes(evs[n - 2], run[n - 2 + 1]));
    assert(!leaves_work(run[n - 2], evs[n - 2]));
    lemma_remaining(run, evs, 0, n - 3);
    lemma_step(run[n - 3], evs[n - 3]);
    assert(run[n - 3].goes(evs[n - 3], run[n - 3 + 1]));
}

/// A call gives -1 back exactly where it has not come to its end without an error: what is left
/// is never a negative number.
pub proof fn only_errors_are_negative<'a>(run: Seq<Upkeep<'a>>, evs: Seq<Ev>)
    requires
        is_run(run, evs),
    ensures
        number_of(run.last().state) >= 0 <==> run.last().state is Over,
        number_of(run.last().state) == -1 <==> !(run.last().state is Over),
{
    let n = evs.len() as int;
    if n > 0 {
        lemma_remaining(run, evs, 0, n - 1);
        lemma_step(run[n - 1], evs[n - 1]);
        assert(run[n - 1].goes(evs[n - 1], run[n - 1 + 1]));
    }
}

/// A table whose migration fails does not stop the call, and costs nothing of the budget; but it
/// counts as not done.
pub proof fn failed_tables_are_counted(u: Upkeep<'_>, ev: Ev)
    requires
        u.m.remaining >= 0,
        u.state matches UpkeepState::Migrating { i, chunk } && u.chunk_step(i as int, chunk, ev).1 is Fail,
    ensures
        u.state matches UpkeepState::Migrating { i, chunk } && u.next_of(ev) == u.table(u.m.with_left(1), i + 1),
        u.next_of(ev).0.budget == u.m.budget,
        u.next_of(ev).0.remaining >= 1,
        !(u.next_of(ev).1 is Failed),
{
}

/// The key of a clean-up is deleted only once its step has left nothing.
pub proof fn cleanups_are_forgotten_when_done(u: Upkeep<'_>, ev: Ev)
    requires
        u.next_of(ev).1 is Cleared,
    ensures
        u.state matches UpkeepState::Cleaning { of, i, clean } && {
            let inner = u.clean_step(of, i as int, clean, ev);
            &&& inner.1 is Finish
            &&& inner.0 matches CleanState::Over { left } ==> left == 0
            &&& u.next_of(ev).2 == Act::Run(seq![clear_key(of.marker() + "_"@ + u.names@[i as int]@)], false)
        },
{
}

/// What a change of settings queues is what the maintenance finds: the keys of clean-ups begin as
/// it looks for them, and that of a migration is the one by which the table is migrated.
pub proof fn queued_tasks_are_found(m: Migrate<'_>)
    ensures
        work_of(ConfigTask::QueueV1Cleanup) == TaskWork::Queue("__crsql_clock"@, Removed::V1.marker()),
        work_of(ConfigTask::QueueV2Cleanup) == TaskWork::Queue("__crsql_v2_clock"@, Removed::V2.marker()),
        work_of(ConfigTask::QueueMigration) matches TaskWork::Queue(_, prefix) && queued(
            prefix,
            m.t.tbl_name@,
        ) == set_key(m.progress_key(), 0),
{
    reveal_strlit("migration_v1_to_v2_migration");
    reveal_strlit("migration_v1_to_v2_migration_");
    reveal_strlit("_");
    assert("migration_v1_to_v2_migration"@ + "_"@ =~= "migration_v1_to_v2_migration_"@);
}

/// How far it is to the end of a call: the parts that are still to come, the clean-ups or tables
/// of the part that it is in, and the steps of the one that it is at.
pub open spec fn upkeep_distance(u: Upkeep<'_>) -> (int, int, int) {
    let names = u.names@.len() as int;
    let tables = u.tables@.len() as int;
    match u.state {
        UpkeepState::Start => (8, 0, 0),
        UpkeepState::Keys { of } => (if of == Removed::V1 { 7 } else { 5 }, 0, 0),
        UpkeepState::Cleaning { of, i, clean } => (
            if of == Removed::V1 { 6 } else { 4 },
            names - i,
            1 + cleanup_distance(u.cleanup(of, i as int, clean)),
        ),
        UpkeepState::Cleared { of, i } => (if of == Removed::V1 { 6 } else { 4 }, names - i, 0),
        UpkeepState::HasV2 { i } => (3, tables - i, 20),
        UpkeepState::Created { i } => (3, tables - i, 19),
        UpkeepState::Migrating { i, chunk } => (3, tables - i, migrate_distance(chunk) as int),
        UpkeepState::Progress { i } => (3, tables - i, 3),
        UpkeepState::Estimate { i, .. } => (3, tables - i, 2),
        UpkeepState::Counted { i } => (3, tables - i, 1),
        UpkeepState::CleanupsPending => (2, 0, 0),
        UpkeepState::MigrationsPending => (1, 0, 0),
        UpkeepState::Over { .. } => (0, 0, 0),
        UpkeepState::Failed { .. } => (0, 0, 0),
    }
}

/// Whether a distance is less than another one.
pub open spec fn nearer(a: (int, int, int), b: (int, int, int)) -> bool {
    ||| a.0 < b.0
    ||| a.0 == b.0 && a.1 < b.1
    ||| a.0 == b.0 && a.1 == b.1 && a.2 < b.2
}

proof fn lemma_next_old(tables: Seq<TableInfo>, i: int)
    requires
        0 <= i <= tables.len(),
    ensures
        i <= next_old(tables, i) <= tables.len(),
    decreases tables.len() - i,
{
    if i < tables.len() {
        lemma_next_old(tables, i + 1);
    }
}

proof fn lemma_clean_nearer(u: Upkeep<'_>, of: Removed, i: usize, clean: CleanState, ev: Ev)
    requires
        u.in_range(),
        u.state == (UpkeepState::Cleaning { of, i, clean }),
    ensures
        ({
            let inner = u.clean_step(of, i as int, clean, ev);
            let then = cleanup_distance(u.cleanup(of, i as int, inner.0));
            &&& inner.1 is Finish || inner.1 is Fail || 0 <= then < cleanup_distance(u.cleanup(of, i as int, clean))
            &&& 0 <= cleanup_distance(u.cleanup(of, i as int, clean))
        }),
{
    reveal(Upkeep::clean_step);
    assert(texts(u.v1@).len() == u.v1@.len());
    assert(texts(u.v2@).len() == u.v2@.len());
    let c = u.cleanup(of, i as int, clean);
    cleanup_step_ends(c, ev);
    assert(u.cleanup(of, i as int, c.next_of(ev).0) == (Cleanup { state: c.next_of(ev).0, ..c }));
}

proof fn lemma_chunk_nearer(u: Upkeep<'_>, i: int, chunk: MigrateState, ev: Ev)
    ensures
        ({
            let inner = u.chunk_step(i, chunk, ev);
            inner.1 is Finish || inner.1 is Fail || migrate_distance(inner.0) < migrate_distance(chunk)
        }),
{
    reveal(Upkeep::chunk_step);
    migration_step_ends(u.migration(i, chunk), ev);
}

/// A call comes to its end, whatever came of each action: clean-ups of the first format come
/// before those of the second, and these before the tables, each part in its order.
pub proof fn maintenance_ends<'a>(u: Upkeep<'a>, ev: Ev, next: Upkeep<'a>)
    requires
        u.in_range(),
        u.goes(ev, next),
    ensures
        next.state is Over || next.state is Failed || nearer(upkeep_distance(next), upkeep_distance(u)),
        next.state is Over || next.state is Failed <==> u.next_of(ev).2 is Finish || u.next_of(ev).2 is Fail,
{
    lemma_next_old(u.tables@, 0);
    assert(u.names.len() == u.names@.len());
    assert(u.tables.len() == u.tables@.len());
    match u.state {
        UpkeepState::Cleaning { of, i, clean } => {
            lemma_clean_nearer(u, of, i, clean, ev);
            let inner = u.clean_step(of, i as int, clean, ev);
            assert(next.cleanup(of, i as int, inner.0) == u.cleanup(of, i as int, inner.0));
        },
        UpkeepState::HasV2 { i } => {
            lemma_next_old(u.tables@, i + 1);
            lemma_chunk_nearer(u, i as int, MigrateState::Start, Ev::Begin);
        },
        UpkeepState::Created { i } => {
            lemma_next_old(u.tables@, i + 1);
            lemma_chunk_nearer(u, i as int, MigrateState::Start, Ev::Begin);
        },
        UpkeepState::Migrating { i, chunk } => {
            lemma_next_old(u.tables@, i + 1);
            lemma_chunk_nearer(u, i as int, chunk, ev);
        },
        UpkeepState::Progress { i } => {
            lemma_next_old(u.tables@, i + 1);
        },
        UpkeepState::Estimate { i, .. } => {
            lemma_next_old(u.tables@, i + 1);
        },
        UpkeepState::Counted { i } => {
            lemma_next_old(u.tables@, i + 1);
        },
        _ => {},
    }
}

} // verus!
