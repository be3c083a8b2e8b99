//! What a clean-up and a call of the maintenance come to over all their steps: every table of
//! metadata, every clean-up and every replicated table has its turn.

use crate::bootstrap_v2::{has_v2_sql, keep_signature_sql, pk_signature, tables_sql};
use crate::config::{CLEANUP_PENDING_SQL, CLEAR_MIGRATION_SQL, MIGRATION_PENDING_SQL};
use crate::maintenance::{create_sql, next_old, Removed, Upkeep, UpkeepNext, UpkeepState};
use crate::migrate::{
    chunk_fill_sql, chunk_sql, chunk_table_sql, count_left_sql, count_rows_sql, delete_chunk_sql, drop_metadata_sql,
    task_tables, untracked_sql, Maintenance, CHUNK_DROP_SQL, CHUNK_MAX_KEY_SQL, CLEANUP_BEGIN_SQL, CLEANUP_END_SQL,
    CLEANUP_UNDO_SQL, MASTER_KEYS_LIKE_SQL, MIGRATION_BEGIN_SQL, MIGRATION_END_SQL,
};
use crate::migrate_run::{clear_key, get_key, set_key, CleanState, Cleanup, Migrate, MigrateState};
use crate::pack_columns::Val;
use crate::result_code::{ResultCode, Stepped};
use crate::statement::{bound, plain};
use crate::steps::{Act, Ev};
use crate::tableinfo::{SchemaVersion, TableInfo};
use vstd::prelude::*;
use vstd::string::*;

verus! {

// ---------------------------------------------------------------------------
// Clean-ups
// ---------------------------------------------------------------------------
impl<'a> Cleanup<'a> {
    /// The same clean-up, as far as that state.
    pub open spec fn at(self, state: CleanState) -> Cleanup<'a> {
        Cleanup { state, ..self }
    }

    /// The clean-up after numbers of rows were handed back, one after the other.
    pub open spec fn told(self, ns: Seq<i64>) -> Cleanup<'a>
        decreases ns.len(),
    {
        if ns.len() == 0 {
            self
        } else {
            let before = self.told(ns.drop_last());
            before.at(before.next_of(Ev::Int(Stepped::Row(ns.last()))).0)
        }
    }

    /// What is done once the last of the numbers is handed back.
    pub open spec fn reply(self, ns: Seq<i64>) -> Act {
        self.told(ns.drop_last()).next_of(Ev::Int(Stepped::Row(ns.last()))).1
    }
}

/// The sum of numbers.
pub open spec fn sum_of(ns: Seq<i64>) -> int
    decreases ns.len(),
{
    if ns.len() == 0 {
        0
    } else {
        sum_of(ns.drop_last()) + ns.last()
    }
}

/// Numbers of rows, whose sum can be held.
pub open spec fn are_counts(ns: Seq<i64>) -> bool {
    &&& forall|k: int| 0 <= k < ns.len() ==> #[trigger] ns[k] >= 0
    &&& sum_of(ns) <= i64::MAX
}

proof fn lemma_counts_front(ns: Seq<i64>)
    requires
        ns.len() > 0,
        are_counts(ns),
    ensures
        are_counts(ns.drop_last()),
        0 <= sum_of(ns.drop_last()) <= sum_of(ns),
    decreases ns.len(),
{
    let front = ns.drop_last();
    assert(ns[ns.len() - 1] >= 0);
    assert forall|k: int| 0 <= k < front.len() implies #[trigger] front[k] >= 0 by {
        assert(front[k] == ns[k]);
    }
    if front.len() > 0 {
        lemma_counts_front(front);
    }
}

proof fn lemma_deleting(c: Cleanup<'_>, total: i64, ns: Seq<i64>)
    requires
        c.state == (CleanState::Deleting { i: 0, total, deleted: 0 }),
        ns.len() < c.suffixes@.len(),
        are_counts(ns),
    ensures
        c.told(ns) == c.at(CleanState::Deleting { i: ns.len() as usize, total, deleted: sum_of(ns) as i64 }),
        ns.len() > 0 ==> c.reply(ns) == Act::Count(
            seq![plain(delete_chunk_sql(c.table@, c.suffixes@[ns.len() as int]@, c.chunk_size))],
        ),
    decreases ns.len(),
{
    assert(c.suffixes.len() == c.suffixes@.len());
    if ns.len() > 0 {
        lemma_counts_front(ns);
        lemma_deleting(c, total, ns.drop_last());
    } else {
        assert(c.told(ns) == c);
    }
}

/// A step of a clean-up deletes some rows of each table of metadata, in their order. Where it found
/// none to delete in any of them, all of the tables are dropped, and the count of rows is
/// forgotten; where all that were counted are gone, what is left is counted again, from the first
/// table on; and else what is left is the count without the rows that were deleted.
pub proof fn every_table_loses_rows(c: Cleanup<'_>, total: i64, ns: Seq<i64>)
    requires
        c.state == (CleanState::Deleting { i: 0, total, deleted: 0 }),
        0 < ns.len() == c.suffixes@.len(),
        are_counts(ns),
        total - sum_of(ns) >= i64::MIN,
    ensures
        forall|k: int|
            0 < k < ns.len() ==> #[trigger] c.reply(ns.take(k)) == Act::Count(
                seq![plain(delete_chunk_sql(c.table@, c.suffixes@[k]@, c.chunk_size))],
            ),
        sum_of(ns) == 0 ==> (c.reply(ns) matches Act::Run(plan, _) && {
            &&& plan.len() == c.suffixes@.len() + 1
            &&& forall|k: int|
                0 <= k < c.suffixes@.len() ==> #[trigger] plan[k] == plain(drop_metadata_sql(c.table@, c.suffixes@[k]@))
            &&& plan.last() == clear_key("cleanup_remaining_"@ + c.table@)
            &&& c.told(ns).state == (CleanState::Written { left: 0 })
        }),
        0 < sum_of(ns) && total <= sum_of(ns) ==> c.reply(ns) == Act::AskInt(
            plain(count_rows_sql(c.table@, c.suffixes@[0]@)),
        ) && c.told(ns).state == (CleanState::Recounting { i: 0, deleted: sum_of(ns) as i64, sum: 0 }),
        0 < sum_of(ns) < total ==> c.reply(ns) == Act::Run(seq![plain(CLEANUP_END_SQL@)], false) && c.told(ns).state
            == (CleanState::Ended { left: (total - sum_of(ns)) as i64 }),
{
    assert(c.suffixes.len() == c.suffixes@.len());
    lemma_counts_front(ns);
    assert forall|k: int| 0 < k < ns.len() implies #[trigger] c.reply(ns.take(k)) == Act::Count(
        seq![plain(delete_chunk_sql(c.table@, c.suffixes@[k]@, c.chunk_size))],
    ) by {
        lemma_counts_take(ns, k);
        lemma_deleting(c, total, ns.take(k));
    }
    lemma_deleting(c, total, ns.drop_last());
    if sum_of(ns) == 0 {
        let plan = c.reply(ns)->Run_0;
        assert(c.told(ns.drop_last()).drops() =~= c.drops());
        assert forall|k: int| 0 <= k < c.suffixes@.len() implies #[trigger] plan[k] == plain(
            drop_metadata_sql(c.table@, c.suffixes@[k]@),
        ) by {
            assert(c.drops()[k] == plain(drop_metadata_sql(c.table@, c.suffixes@[k]@)));
        }
    }
}

proof fn lemma_counts_take(ns: Seq<i64>, k: int)
    requires
        are_counts(ns),
        0 <= k <= ns.len(),
    ensures
        are_counts(ns.take(k)),
    decreases ns.len() - k,
{
    if k == ns.len() {
        assert(ns.take(k) =~= ns);
    } else {
        lemma_counts_take(ns, k + 1);
        assert(ns.take(k + 1).drop_last() =~= ns.take(k));
        lemma_counts_front(ns.take(k + 1));
    }
}

proof fn lemma_counting(c: Cleanup<'_>, ns: Seq<i64>)
    requires
        c.state == (CleanState::Counting { i: 0, sum: 0 }),
        ns.len() < c.suffixes@.len(),
        are_counts(ns),
    ensures
        c.told(ns) == c.at(CleanState::Counting { i: ns.len() as usize, sum: sum_of(ns) as i64 }),
        ns.len() > 0 ==> c.reply(ns) == Act::AskInt(plain(count_rows_sql(c.table@, c.suffixes@[ns.len() as int]@))),
    decreases ns.len(),
{
    assert(c.suffixes.len() == c.suffixes@.len());
    if ns.len() > 0 {
        lemma_counts_front(ns);
        lemma_counting(c, ns.drop_last());
    } else {
        assert(c.told(ns) == c);
    }
}

/// The first step of a clean-up counts the rows of all tables of metadata, keeps the sum, and then
/// deletes from the first table on.
pub proof fn all_rows_are_counted_first(c: Cleanup<'_>, ns: Seq<i64>)
    requires
        c.state is Total,
        0 < ns.len() == c.suffixes@.len(),
        are_counts(ns),
    ensures
        ({
            let start = c.next_of(Ev::Int(Stepped::Done));
            let first = c.at(start.0);
            let end = first.told(ns);
            let next = end.next_of(Ev::Ran);
            &&& start.1 == Act::AskInt(plain(count_rows_sql(c.table@, c.suffixes@[0]@)))
            &&& forall|k: int|
                0 < k < ns.len() ==> #[trigger] first.reply(ns.take(k)) == Act::AskInt(
                    plain(count_rows_sql(c.table@, c.suffixes@[k]@)),
                )
            &&& first.reply(ns) == Act::Run(
                seq![set_key("cleanup_remaining_"@ + c.table@, sum_of(ns) as i64)],
                false,
            )
            &&& next.0 == (CleanState::Deleting { i: 0, total: sum_of(ns) as i64, deleted: 0 })
            &&& next.1 == Act::Count(seq![plain(delete_chunk_sql(c.table@, c.suffixes@[0]@, c.chunk_size))])
        }),
{
    assert(c.suffixes.len() == c.suffixes@.len());
    let first = c.at(c.next_of(Ev::Int(Stepped::Done)).0);
    lemma_counts_front(ns);
    assert forall|k: int| 0 < k < ns.len() implies #[trigger] first.reply(ns.take(k)) == Act::AskInt(
        plain(count_rows_sql(c.table@, c.suffixes@[k]@)),
    ) by {
        lemma_counts_take(ns, k);
        lemma_counting(first, ns.take(k));
    }
    lemma_counting(first, ns.drop_last());
}

proof fn lemma_recounting(c: Cleanup<'_>, deleted: i64, ns: Seq<i64>)
    requires
        c.state == (CleanState::Recounting { i: 0, deleted, sum: 0 }),
        ns.len() < c.suffixes@.len(),
        are_counts(ns),
    ensures
        c.told(ns) == c.at(CleanState::Recounting { i: ns.len() as usize, deleted, sum: sum_of(ns) as i64 }),
        ns.len() > 0 ==> c.reply(ns) == Act::AskInt(plain(count_rows_sql(c.table@, c.suffixes@[ns.len() as int]@))),
    decreases ns.len(),
{
    assert(c.suffixes.len() == c.suffixes@.len());
    if ns.len() > 0 {
        lemma_counts_front(ns);
        lemma_recounting(c, deleted, ns.drop_last());
    } else {
        assert(c.told(ns) == c);
    }
}

/// Where rows came in between, the tables are kept: all of them are counted again, the new count,
/// with the rows that this step deleted, replaces the old one, and what is left is what was
/// counted. Only where nothing is left in any table are they dropped.
pub proof fn late_rows_are_kept(c: Cleanup<'_>, deleted: i64, ns: Seq<i64>)
    requires
        c.state == (CleanState::Recounting { i: 0, deleted, sum: 0 }),
        0 < ns.len() == c.suffixes@.len(),
        are_counts(ns),
        deleted >= 0,
        sum_of(ns) + deleted <= i64::MAX,
    ensures
        forall|k: int|
            0 < k < ns.len() ==> #[trigger] c.reply(ns.take(k)) == Act::AskInt(
                plain(count_rows_sql(c.table@, c.suffixes@[k]@)),
            ),
        sum_of(ns) > 0 ==> {
            &&& c.reply(ns) == Act::Run(
                seq![set_key("cleanup_remaining_"@ + c.table@, (sum_of(ns) + deleted) as i64)],
                false,
            )
            &&& c.told(ns).state == (CleanState::Written { left: sum_of(ns) as i64 })
        },
        sum_of(ns) == 0 ==> (c.reply(ns) matches Act::Run(plan, _) && {
            &&& plan.len() == c.suffixes@.len() + 1
            &&& forall|k: int|
                0 <= k < c.suffixes@.len() ==> #[trigger] plan[k] == plain(drop_metadata_sql(c.table@, c.suffixes@[k]@))
            &&& plan.last() == clear_key("cleanup_remaining_"@ + c.table@)
            &&& c.told(ns).state == (CleanState::Written { left: 0 })
        }),
{
    assert(c.suffixes.len() == c.suffixes@.len());
    lemma_counts_front(ns);
    assert forall|k: int| 0 < k < ns.len() implies #[trigger] c.reply(ns.take(k)) == Act::AskInt(
        plain(count_rows_sql(c.table@, c.suffixes@[k]@)),
    ) by {
        lemma_counts_take(ns, k);
        lemma_recounting(c, deleted, ns.take(k));
    }
    lemma_recounting(c, deleted, ns.drop_last());
    if sum_of(ns) == 0 {
        let plan = c.reply(ns)->Run_0;
        assert(c.told(ns.drop_last()).drops() =~= c.drops());
        assert forall|k: int| 0 <= k < c.suffixes@.len() implies #[trigger] plan[k] == plain(
            drop_metadata_sql(c.table@, c.suffixes@[k]@),
        ) by {
            assert(c.drops()[k] == plain(drop_metadata_sql(c.table@, c.suffixes@[k]@)));
        }
    }
}

/// A step of a clean-up starts by itself, looks for the count that is kept, and goes on from it
/// where there is one; and it ends with what it left.
pub proof fn cleanups_start_and_end(c: Cleanup<'_>, n: i64, left: i64)
    requires
        c.suffixes@.len() > 0,
    ensures
        c.state is Start ==> {
            let a = c.next_of(Ev::Begin);
            let b = c.at(a.0).next_of(Ev::Ran);
            let d = c.at(b.0).next_of(Ev::Int(Stepped::Row(n)));
            &&& a.1 == Act::Run(seq![plain(CLEANUP_BEGIN_SQL@)], false)
            &&& b.1 == Act::AskInt(get_key("cleanup_remaining_"@ + c.table@))
            &&& b.0 is Total
            &&& d.1 == Act::Count(seq![plain(delete_chunk_sql(c.table@, c.suffixes@[0]@, c.chunk_size))])
            &&& d.0 == (CleanState::Deleting { i: 0, total: n, deleted: 0 })
        },
        c.state == (CleanState::Written { left }) ==> c.next_of(Ev::Ran) == (
            CleanState::Ended { left },
            Act::Run(seq![plain(CLEANUP_END_SQL@)], false),
        ),
        c.state == (CleanState::Ended { left }) ==> c.next_of(Ev::Ran) == (CleanState::Over { left }, Act::Finish),
{
}

/// A failure after the start of a step undoes the step, and then ends it with the code of the
/// failure.
pub proof fn failed_cleanups_are_undone(c: Cleanup<'_>, rc: ResultCode)
    ensures
        c.state is Total || c.state is Counting || c.state is Kept || c.state is Deleting || c.state is Recounting
            || c.state is Written ==> {
            let a = c.next_of(Ev::Failed(rc));
            let b = c.next_of(Ev::Int(Stepped::Other(rc)));
            &&& a == b
            &&& a.1 == Act::Run(seq![plain(CLEANUP_UNDO_SQL@)], false)
            &&& c.at(a.0).next_of(Ev::Ran).1 == Act::Fail(rc, None)
        },
        c.state is Start || c.state is Begun || c.state is Ended || c.state is Undone ==> c.next_of(Ev::Failed(rc)).1
            == Act::Fail(rc, None),
{
}

// ---------------------------------------------------------------------------
// Calls of the maintenance
// ---------------------------------------------------------------------------
/// Whether a call goes on with clean-up `i` of one kind, or, where there is none, with what comes
/// after all of that kind: the clean-ups of the other kind, and then the tables.
pub open spec fn goes_on_cleaning(u: Upkeep<'_>, next: UpkeepNext, of: Removed, i: int, count: int) -> bool {
    if i < count {
        &&& next.1 == (UpkeepState::Cleaning { of, i: i as usize, clean: CleanState::Begun })
        &&& next.2 == Act::Run(seq![plain(CLEANUP_BEGIN_SQL@)], false)
    } else if of == Removed::V1 {
        &&& next.1 == (UpkeepState::Keys { of: Removed::V2 })
        &&& next.2 == Act::AskTexts(bound(MASTER_KEYS_LIKE_SQL@, seq![Val::Text("cleanup_v2_tables"@ + "_%"@)]))
    } else {
        goes_on_with_tables(u, next, 0)
    }
}

/// Whether a call goes on with the first table from `i` on that has metadata in the first format.
/// Where there is none, it ends with what is left or, where nothing is, asks for the clean-ups that
/// are.
pub open spec fn goes_on_with_tables(u: Upkeep<'_>, next: UpkeepNext, i: int) -> bool {
    if forall|j: int| i <= j < u.tables@.len() ==> (#[trigger] u.tables@[j]).schema_version == SchemaVersion::V2 {
        if next.0.remaining != 0 {
            next.1 == (UpkeepState::Over { left: next.0.remaining }) && next.2 is Finish
        } else {
            next.1 is CleanupsPending && next.2 == Act::AskInt(plain(CLEANUP_PENDING_SQL@))
        }
    } else {
        &&& next.1 matches UpkeepState::HasV2 { i: k }
        &&& i <= k < u.tables@.len()
        &&& u.tables@[k as int].schema_version != SchemaVersion::V2
        &&& forall|j: int| i <= j < k ==> (#[trigger] u.tables@[j]).schema_version == SchemaVersion::V2
        &&& next.2 == Act::AskInt(plain(has_v2_sql(u.tables@[k as int].tbl_name@)))
    }
}

proof fn lemma_next_old(tables: Seq<TableInfo>, i: int)
    requires
        0 <= i <= tables.len(),
    ensures
        i <= next_old(tables, i) <= tables.len(),
        forall|j: int|
            i <= j < next_old(tables, i) ==> (#[trigger] tables[j]).schema_version == SchemaVersion::V2,
        next_old(tables, i) < tables.len() ==> tables[next_old(tables, i)].schema_version != SchemaVersion::V2,
    decreases tables.len() - i,
{
    if i < tables.len() {
        lemma_next_old(tables, i + 1);
    }
}

proof fn lemma_table(u: Upkeep<'_>, m: Maintenance, i: int)
    requires
        0 <= i <= u.tables@.len(),
    ensures
        goes_on_with_tables(u, u.table(m, i), i),
        u.table(m, i).0 == m,
{
    assert(u.tables.len() == u.tables@.len());
    lemma_next_old(u.tables@, i);
    let k = next_old(u.tables@, i);
    if k < u.tables@.len() {
        assert(u.tables@[k].schema_version != SchemaVersion::V2);
    }
}

/// The clean-ups of the first format come first, then those of the second, and then the tables.
/// Each clean-up has its turn: the next one follows where one is over or its step is, and a
/// clean-up that is over is forgotten first.
pub proof fn every_cleanup_has_its_turn(u: Upkeep<'_>, of: Removed, i: usize, clean: CleanState, ev: Ev, keys: Seq<Seq<char>>)
    requires
        i < u.names@.len(),
    ensures
        u.state is Start ==> u.next_of(Ev::Begin).2 == Act::AskTexts(
            bound(MASTER_KEYS_LIKE_SQL@, seq![Val::Text("cleanup_v1_tables"@ + "_%"@)]),
        ) && u.next_of(Ev::Begin).1 == (UpkeepState::Keys { of: Removed::V1 }) && u.next_of(Ev::Begin).0 == u.m,
        u.state == (UpkeepState::Keys { of }) ==> goes_on_cleaning(
            u,
            u.next_of(Ev::Texts(keys)),
            of,
            0,
            task_tables(keys, of.marker() + "_"@).len() as int,
        ) && u.next_of(Ev::Texts(keys)).0 == u.m,
        u.state == (UpkeepState::Cleared { of, i }) ==> goes_on_cleaning(
            u,
            u.next_of(Ev::Ran),
            of,
            i + 1,
            u.names@.len() as int,
        ) && u.next_of(Ev::Ran).0 == u.m,
        u.state == (UpkeepState::Cleaning { of, i, clean }) ==> ({
            let inner = u.cleanup(of, i as int, clean).next_of(ev);
            let next = u.next_of(ev);
            let left = match inner.0 {
                CleanState::Over { left } => left,
                _ => 0i64,
            };
            &&& inner.1 is Finish && left == 0 ==> {
                &&& next.0 == u.m
                &&& next.1 == (UpkeepState::Cleared { of, i })
                &&& next.2 == Act::Run(seq![clear_key(of.marker() + "_"@ + u.names@[i as int]@)], false)
            }
            &&& inner.1 is Finish && left != 0 ==> {
                &&& next.0 == u.m.with_left(left as int)
                &&& goes_on_cleaning(u, next, of, i + 1, u.names@.len() as int)
            }
            &&& inner.1 matches Act::Fail(code, _) ==> next.2 == Act::Fail(code, None) && next.1
                == (UpkeepState::Failed { code })
            &&& !(inner.1 is Finish) && !(inner.1 is Fail) ==> next.2 == inner.1 && next.1 == (UpkeepState::Cleaning {
                of,
                i,
                clean: inner.0,
            }) && next.0 == u.m
        }),
{
    reveal(Upkeep::clean_step);
    assert(u.names.len() == u.names@.len());
    lemma_table(u, u.m, 0);
    if let UpkeepState::Cleaning { of, i, clean } = u.state {
        let inner = u.cleanup(of, i as int, clean).next_of(ev);
        if let CleanState::Over { left } = inner.0 {
            lemma_table(u, u.m.with_left(left as int), 0);
        }
    }
}

/// Each table with metadata in the first format has its turn: it is migrated while the budget
/// lasts, metadata in the second format being created for it where it has none; without a budget
/// the rows that it has left are counted, where it has metadata in the second format, and it is
/// passed over where it has none.
pub proof fn every_table_has_its_turn(u: Upkeep<'_>, i: usize, has_v2: bool, n: i64)
    requires
        u.state == (UpkeepState::HasV2 { i }),
        i < u.tables@.len(),
        u.tables@[i as int].schema_version != SchemaVersion::V2,
    ensures
        ({
            let next = u.next_of(
                Ev::Int(
                    if has_v2 {
                        Stepped::Row(n)
                    } else {
                        Stepped::Done
                    },
                ),
            );
            &&& u.m.budget <= 0 && !has_v2 ==> goes_on_with_tables(u, next, i + 1) && next.0 == u.m
            &&& u.m.budget <= 0 && has_v2 ==> next == (
                u.m,
                UpkeepState::Progress { i },
                Act::AskInt(get_key(u.migration(i as int, MigrateState::Start).progress_key())),
            )
            &&& u.m.budget > 0 && !has_v2 ==> next == (
                u.m,
                UpkeepState::Created { i },
                Act::Run(create_sql(u.tables@[i as int]), false),
            )
            &&& u.m.budget > 0 && has_v2 ==> migrates(
                u,
                next,
                i,
                u.migration(i as int, MigrateState::Start).next_of(Ev::Begin),
            )
        }),
{
    reveal(Upkeep::chunk_step);
    assert(u.tables.len() == u.tables@.len());
    lemma_table(u, u.m, i + 1);
    lemma_migrates(u, i, u.migration(i as int, MigrateState::Start).next_of(Ev::Begin));
}

/// Whether a call goes on with a step of the migration of table `i` or, where that is over, with
/// the tables behind it: the rows that it has gone through are taken from the budget, and those
/// that are left are added to what is left. A migration that fails counts for one row.
pub open spec fn migrates(u: Upkeep<'_>, next: UpkeepNext, i: usize, inner: (MigrateState, Act)) -> bool {
    let (rows, left) = match inner.0 {
        MigrateState::Over { rows, left } => (rows as int, left as int),
        _ => (0int, 0int),
    };
    &&& inner.1 is Finish ==> {
        &&& goes_on_with_tables(u, next, i + 1)
        &&& next.0.budget == (u.m.budget - rows) as i64
        &&& left == 0 ==> next.0.remaining == u.m.remaining
        &&& left != 0 ==> next.0.remaining == u.m.with_left(left).remaining
    }
    &&& inner.1 is Fail ==> goes_on_with_tables(u, next, i + 1) && next.0 == u.m.with_left(1)
    &&& !(inner.1 is Finish) && !(inner.1 is Fail) ==> next == (
        u.m,
        UpkeepState::Migrating { i, chunk: inner.0 },
        inner.1,
    )
}

proof fn lemma_migrates(u: Upkeep<'_>, i: usize, inner: (MigrateState, Act))
    requires
        i < u.tables@.len(),
    ensures
        migrates(u, u.on_migrate(i as int, inner), i, inner),
{
    let (rows, left) = match inner.0 {
        MigrateState::Over { rows, left } => (rows as int, left as int),
        _ => (0int, 0int),
    };
    lemma_table(u, u.m.with_chunk(rows, left), i + 1);
    lemma_table(u, u.m.with_left(1), i + 1);
}

/// A table whose metadata were created is migrated, and a migration goes on until its step is over.
pub proof fn migrations_go_on(u: Upkeep<'_>, i: usize, chunk: MigrateState, ev: Ev)
    requires
        i < u.tables@.len(),
    ensures
        u.state == (UpkeepState::Created { i }) ==> migrates(
            u,
            u.next_of(Ev::Ran),
            i,
            u.migration(i as int, MigrateState::Start).next_of(Ev::Begin),
        ),
        u.state == (UpkeepState::Migrating { i, chunk }) ==> migrates(
            u,
            u.next_of(ev),
            i,
            u.migration(i as int, chunk).next_of(ev),
        ),
{
    reveal(Upkeep::chunk_step);
    lemma_migrates(u, i, u.migration(i as int, MigrateState::Start).next_of(Ev::Begin));
    lemma_migrates(u, i, u.migration(i as int, chunk).next_of(ev));
}

/// Without a budget, a table whose migration is not under way counts for nothing. One whose
/// migration is counts for the rows that were estimated or, where there is no estimate, for those
/// behind its progress.
pub proof fn rows_that_wait_are_counted(u: Upkeep<'_>, i: usize, start: i64, n: i64)
    requires
        u.state == (UpkeepState::Progress { i }),
        i < u.tables@.len(),
    ensures
        ({
            let idle = u.next_of(Ev::Int(Stepped::Done));
            let a = u.next_of(Ev::Int(Stepped::Row(start)));
            let asked = Upkeep { state: a.1, ..u };
            let estimated = asked.next_of(Ev::Int(Stepped::Row(n)));
            let b = asked.next_of(Ev::Int(Stepped::Done));
            let counting = Upkeep { state: b.1, ..u };
            let counted = counting.next_of(Ev::Int(Stepped::Row(n)));
            &&& goes_on_with_tables(u, idle, i + 1)
            &&& idle.0 == u.m
            &&& a.0 == u.m
            &&& a.2 == Act::AskInt(get_key(u.migration(i as int, MigrateState::Start).estimate_key()))
            &&& goes_on_with_tables(u, estimated, i + 1)
            &&& estimated.0 == u.m.with_left(n as int)
            &&& b.0 == u.m
            &&& b.2 == Act::AskInt(plain(count_left_sql(u.tables@[i as int], start)))
            &&& goes_on_with_tables(u, counted, i + 1)
            &&& counted.0 == u.m.with_left(n as int)
        }),
{
    lemma_table(u, u.m, i + 1);
    lemma_table(u, u.m.with_left(n as int), i + 1);
    let a = u.next_of(Ev::Int(Stepped::Row(start)));
    let asked = Upkeep { state: a.1, ..u };
    let b = asked.next_of(Ev::Int(Stepped::Done));
    let counting = Upkeep { state: b.1, ..u };
    lemma_table(asked, u.m.with_left(n as int), i + 1);
    lemma_table(counting, u.m.with_left(n as int), i + 1);
}

/// At last the clean-ups and the migrations that are left are counted, and the sum is what is left.
pub proof fn pending_tasks_are_counted(u: Upkeep<'_>, cleanups: i64, migrations: i64)
    requires
        u.state is CleanupsPending,
        u.m.remaining == 0,
        0 <= cleanups,
        0 <= migrations,
        cleanups + migrations <= i32::MAX,
    ensures
        ({
            let a = u.next_of(Ev::Int(Stepped::Row(cleanups)));
            let b = Upkeep { m: a.0, state: a.1, ..u }.next_of(Ev::Int(Stepped::Row(migrations)));
            &&& a.2 == Act::AskInt(plain(MIGRATION_PENDING_SQL@))
            &&& b.2 is Finish
            &&& b.1 == (UpkeepState::Over { left: (cleanups + migrations) as i32 })
        }),
{
}

/// Work that is left adds to what is left, for one row at least, and never goes over what can be
/// told; and a step of a migration takes from the budget what it has gone through, and nothing
/// else.
pub proof fn work_left_adds_up(m: Maintenance, rows: int, processed: int, left: int)
    requires
        m.remaining >= 0,
    ensures
        m.with_left(rows).remaining > 0,
        m.with_left(rows).budget == m.budget,
        1 <= rows && m.remaining + rows <= i32::MAX ==> m.with_left(rows).remaining == m.remaining + rows,
        rows < 1 && m.remaining < i32::MAX ==> m.with_left(rows).remaining == m.remaining + 1,
        1 <= rows && m.remaining + rows > i32::MAX ==> m.with_left(rows).remaining == i32::MAX,
        m.remaining <= m.with_left(rows).remaining,
        m.with_chunk(processed, 0).remaining == m.remaining,
        left != 0 ==> m.with_chunk(processed, left).remaining == m.with_left(left).remaining,
        i64::MIN <= m.budget - processed <= i64::MAX ==> m.with_chunk(processed, left).budget == m.budget - processed,
{
}

proof fn lemma_cleanup_pending()
    ensures
        CLEANUP_PENDING_SQL@ == "SELECT count(*) FROM crsql_master WHERE key LIKE '"@ + "cleanup_v1_tables"@ + "_%' OR key LIKE '"@ + "cleanup_v2_tables"@ + "_%'\0"@,
{
    reveal_strlit("SELECT count(*) FROM crsql_master WHERE key LIKE 'cleanup_v1_tables_%' OR key LIKE 'cleanup_v2_tables_%'\0");
    reveal_strlit("SELECT count(*) FROM crsql_master WHERE key LIKE '");
    assert("SELECT count(*) FROM crsql_master WHERE key LIKE '"@ =~= seq!['S', 'E', 'L', 'E', 'C', 'T', ' ', 'c', 'o', 'u', 'n', 't', '(', '*', ')', ' ', 'F', 'R', 'O', 'M', ' ', 'c', 'r', 's', 'q', 'l', '_', 'm', 'a', 's', 't', 'e', 'r', ' ', 'W', 'H', 'E', 'R', 'E', ' ', 'k', 'e', 'y', ' ', 'L', 'I', 'K', 'E', ' ', '\'']);
    reveal_strlit("cleanup_v1_tables");
    assert("cleanup_v1_tables"@ =~= seq!['c', 'l', 'e', 'a', 'n', 'u', 'p', '_', 'v', '1', '_', 't', 'a', 'b', 'l', 'e', 's']);
    reveal_strlit("_%' OR key LIKE '");
    assert("_%' OR key LIKE '"@ =~= seq!['_', '%', '\'', ' ', 'O', 'R', ' ', 'k', 'e', 'y', ' ', 'L', 'I', 'K', 'E', ' ', '\'']);
    reveal_strlit("cleanup_v2_tables");
    assert("cleanup_v2_tables"@ =~= seq!['c', 'l', 'e', 'a', 'n', 'u', 'p', '_', 'v', '2', '_', 't', 'a', 'b', 'l', 'e', 's']);
    reveal_strlit("_%'\0");
    assert("_%'\0"@ =~= seq!['_', '%', '\'', '\0']);
    assert("SELECT count(*) FROM crsql_master WHERE key LIKE 'cleanup_v1_tables_%' OR key LIKE 'cleanup_v2_tables_%'\0"@ =~= "SELECT count(*) FROM crsql_master WHERE key LIKE '"@ + "cleanup_v1_tables"@ + "_%' OR key LIKE '"@ + "cleanup_v2_tables"@ + "_%'\0"@);
}

proof fn lemma_migration_pending()
    ensures
        MIGRATION_PENDING_SQL@ == "SELECT count(*) FROM crsql_master WHERE key LIKE '"@ + "migration_v1_to_v2_migration_"@ + "%'\0"@,
{
    reveal_strlit("SELECT count(*) FROM crsql_master WHERE key LIKE 'migration_v1_to_v2_migration_%'\0");
    reveal_strlit("SELECT count(*) FROM crsql_master WHERE key LIKE '");
    assert("SELECT count(*) FROM crsql_master WHERE key LIKE '"@ =~= seq!['S', 'E', 'L', 'E', 'C', 'T', ' ', 'c', 'o', 'u', 'n', 't', '(', '*', ')', ' ', 'F', 'R', 'O', 'M', ' ', 'c', 'r', 's', 'q', 'l', '_', 'm', 'a', 's', 't', 'e', 'r', ' ', 'W', 'H', 'E', 'R', 'E', ' ', 'k', 'e', 'y', ' ', 'L', 'I', 'K', 'E', ' ', '\'']);
    reveal_strlit("migration_v1_to_v2_migration_");
    assert("migration_v1_to_v2_migration_"@ =~= seq!['m', 'i', 'g', 'r', 'a', 't', 'i', 'o', 'n', '_', 'v', '1', '_', 't', 'o', '_', 'v', '2', '_', 'm', 'i', 'g', 'r', 'a', 't', 'i', 'o', 'n', '_']);
    reveal_strlit("%'\0");
    assert("%'\0"@ =~= seq!['%', '\'', '\0']);
    assert("SELECT count(*) FROM crsql_master WHERE key LIKE 'migration_v1_to_v2_migration_%'\0"@ =~= "SELECT count(*) FROM crsql_master WHERE key LIKE '"@ + "migration_v1_to_v2_migration_"@ + "%'\0"@);
}

proof fn lemma_clear_migration()
    ensures
        CLEAR_MIGRATION_SQL@ == "DELETE FROM crsql_master WHERE key LIKE '"@ + "migration_v1_to_v2_migration_"@ + "%' OR key LIKE '"@ + "migration_v1_to_v2_remaining_"@ + "%'"@,
{
    reveal_strlit("DELETE FROM crsql_master WHERE key LIKE 'migration_v1_to_v2_migration_%' OR key LIKE 'migration_v1_to_v2_remaining_%'");
    reveal_strlit("DELETE FROM crsql_master WHERE key LIKE '");
    assert("DELETE FROM crsql_master WHERE key LIKE '"@ =~= seq!['D', 'E', 'L', 'E', 'T', 'E', ' ', 'F', 'R', 'O', 'M', ' ', 'c', 'r', 's', 'q', 'l', '_', 'm', 'a', 's', 't', 'e', 'r', ' ', 'W', 'H', 'E', 'R', 'E', ' ', 'k', 'e', 'y', ' ', 'L', 'I', 'K', 'E', ' ', '\'']);
    reveal_strlit("migration_v1_to_v2_migration_");
    assert("migration_v1_to_v2_migration_"@ =~= seq!['m', 'i', 'g', 'r', 'a', 't', 'i', 'o', 'n', '_', 'v', '1', '_', 't', 'o', '_', 'v', '2', '_', 'm', 'i', 'g', 'r', 'a', 't', 'i', 'o', 'n', '_']);
    reveal_strlit("%' OR key LIKE '");
    assert("%' OR key LIKE '"@ =~= seq!['%', '\'', ' ', 'O', 'R', ' ', 'k', 'e', 'y', ' ', 'L', 'I', 'K', 'E', ' ', '\'']);
    reveal_strlit("migration_v1_to_v2_remaining_");
    assert("migration_v1_to_v2_remaining_"@ =~= seq!['m', 'i', 'g', 'r', 'a', 't', 'i', 'o', 'n', '_', 'v', '1', '_', 't', 'o', '_', 'v', '2', '_', 'r', 'e', 'm', 'a', 'i', 'n', 'i', 'n', 'g', '_']);
    reveal_strlit("%'");
    assert("%'"@ =~= seq!['%', '\'']);
    assert("DELETE FROM crsql_master WHERE key LIKE 'migration_v1_to_v2_migration_%' OR key LIKE 'migration_v1_to_v2_remaining_%'"@ =~= "DELETE FROM crsql_master WHERE key LIKE '"@ + "migration_v1_to_v2_migration_"@ + "%' OR key LIKE '"@ + "migration_v1_to_v2_remaining_"@ + "%'"@);
}

/// The tasks that are counted, and those that are forgotten, are those whose keys the maintenance
/// works by: clean-ups of both formats, and migrations by their progress and their estimates.
pub proof fn tasks_are_counted_by_their_keys(m: Migrate<'_>)
    ensures
        CLEANUP_PENDING_SQL@ == "SELECT count(*) FROM crsql_master WHERE key LIKE '"@ + Removed::V1.marker() + "_%' OR key LIKE '"@
            + Removed::V2.marker() + "_%'\0"@,
        MIGRATION_PENDING_SQL@ == "SELECT count(*) FROM crsql_master WHERE key LIKE '"@ + "migration_v1_to_v2_migration_"@
            + "%'\0"@,
        CLEAR_MIGRATION_SQL@ == "DELETE FROM crsql_master WHERE key LIKE '"@ + "migration_v1_to_v2_migration_"@
            + "%' OR key LIKE '"@ + "migration_v1_to_v2_remaining_"@ + "%'"@,
        m.progress_key() == "migration_v1_to_v2_migration_"@ + m.t.tbl_name@,
        m.estimate_key() == "migration_v1_to_v2_remaining_"@ + m.t.tbl_name@,
{
    lemma_cleanup_pending();
    lemma_migration_pending();
    lemma_clear_migration();
}

/// An event that does not fit what was asked for is a misuse: it undoes a step that was started,
/// and ends all else.
pub proof fn unexpected_events_are_misuse(c: Cleanup<'_>, m: Migrate<'_>, texts: Seq<Seq<char>>)
    ensures
        c.state is Start || c.state is Total || c.state is Counting || c.state is Kept || c.state is Deleting
            || c.state is Recounting || c.state is Written || c.state is Begun || c.state is Ended ==> {
            let a = c.next_of(Ev::Texts(texts));
            &&& a.1 == Act::Run(seq![plain(CLEANUP_UNDO_SQL@)], false)
            &&& c.at(a.0).next_of(Ev::Ran).1 == Act::Fail(ResultCode::MISUSE, None)
        },
        c.state is Over ==> c.next_of(Ev::Texts(texts)).1 == Act::Fail(ResultCode::MISUSE, None),
        !(m.state is Dropped || m.state is FailedDrop || m.state is Undone) ==> m.next_of(Ev::Texts(texts)).1 == Act::Fail(
            ResultCode::MISUSE,
            None,
        ),
{
}

/// A failure outside a clean-up and a migration ends a call with its code. That something was run
/// is a misuse where nothing was to be.
pub proof fn failed_calls_end(u: Upkeep<'_>, rc: ResultCode)
    requires
        !(u.state is Cleaning),
        !(u.state is Migrating),
    ensures
        u.next_of(Ev::Failed(rc)).2 == Act::Fail(rc, None),
        u.next_of(Ev::Failed(rc)).1 == (UpkeepState::Failed { code: rc }),
        u.next_of(Ev::Int(Stepped::Other(rc))).2 == Act::Fail(rc, None),
        u.next_of(Ev::Failed(rc)).0 == u.m,
        u.next_of(Ev::Ran).2 is Fail <==> !(u.state is Cleared) && !(u.state is Created),
{
    if let UpkeepState::Created { i } = u.state {
        reveal(Upkeep::chunk_step);
    }
}

/// A clean-up is about the table of its name, and removes the metadata of its kind; a migration is
/// about the table at its place, and may go through as many rows as the budget has left.
pub proof fn steps_are_about_their_tables(u: Upkeep<'_>, i: int, clean: CleanState, chunk: MigrateState)
    ensures
        u.cleanup(Removed::V1, i, clean).suffixes == u.v1,
        u.cleanup(Removed::V2, i, clean).suffixes == u.v2,
        forall|of: Removed| #![trigger u.cleanup(of, i, clean)]
            u.cleanup(of, i, clean).table == u.names@[i] && u.cleanup(of, i, clean).chunk_size == u.chunk_size
                && u.cleanup(of, i, clean).state == clean,
        *u.migration(i, chunk).t == u.tables@[i],
        u.migration(i, chunk).chunk_size == u.m.budget,
        u.migration(i, chunk).ts == u.ts,
        u.migration(i, chunk).state == chunk,
        Removed::V1.marker() == "cleanup_v1_tables"@,
        Removed::V2.marker() == "cleanup_v2_tables"@,
{
}

/// Metadata in the second format are created with the ids of all columns outside the primary key,
/// from 0 on in their order, and the shape of the primary key last.
pub proof fn metadata_are_created_whole(t: TableInfo, i: int)
    requires
        0 <= i < t.non_pks@.len() <= i32::MAX,
    ensures
        ({
            let plan = create_sql(t);
            let n = tables_sql(t).len();
            &&& plan.len() == n + t.non_pks@.len() + 1
            &&& plan[n + i].binds == seq![Val::Integer(i as i64), Val::Text(t.non_pks@[i].name@)]
            &&& plan.last() == keep_signature_sql(t)
            &&& plan.last().binds == seq![Val::Text("v2_pks_"@ + t.tbl_name@), Val::Text(pk_signature(t))]
            &&& tables_sql(t).len() == 8 + (if t.skip_hash && t.key_is_rowid {
                -1int
            } else {
                0
            }) + (if t.skip_hash {
                0int
            } else {
                1
            })
        }),
{
}

/// A step of a migration that found no rows ends the migration: rows that were never tracked get
/// their live keys, and both of its keys are forgotten. So does one after which nothing is left
/// when the rows are counted again, which happens where the estimate is used up: it is forgotten,
/// and the rows behind the progress are counted.
pub proof fn migrations_end_whole(m: Migrate<'_>, estimate: i64, rows: i64, last: i64, ev: Ev)
    requires
        m.state == (MigrateState::Dropped { estimate, rows }),
        rows >= 0,
        estimate - rows >= i64::MIN,
    ensures
        ({
            let ended = Act::Run(
                seq![
                    plain(untracked_sql(*m.t)),
                    clear_key("migration_v1_to_v2_migration_"@ + m.t.tbl_name@),
                    clear_key("migration_v1_to_v2_remaining_"@ + m.t.tbl_name@),
                    plain(MIGRATION_END_SQL@),
                ],
                false,
            );
            let a = m.next_of(ev);
            let b = Migrate { state: a.0, ..m }.next_of(Ev::Ran);
            let asked = Migrate { state: b.0, ..m };
            let c = asked.next_of(Ev::Int(Stepped::Row(last)));
            let none = asked.next_of(Ev::Int(Stepped::Done));
            let d = Migrate { state: c.0, ..m }.next_of(Ev::Int(Stepped::Row(0)));
            &&& rows == 0 ==> a == (MigrateState::Ended { rows: 0, left: 0 }, ended)
            &&& rows > 0 && estimate <= rows ==> {
                &&& a.1 == Act::Run(seq![clear_key("migration_v1_to_v2_remaining_"@ + m.t.tbl_name@)], false)
                &&& b.1 == Act::AskInt(get_key("migration_v1_to_v2_migration_"@ + m.t.tbl_name@))
                &&& c.1 == Act::AskInt(plain(count_left_sql(*m.t, last)))
                &&& none.1 == Act::AskInt(plain(count_left_sql(*m.t, 0)))
                &&& d == (MigrateState::Ended { rows, left: 0 }, ended)
            }
        }),
{
}

/// A step of a migration goes through its rows in this order: they are chosen behind the progress,
/// migrated, the progress goes on to the last of them, and the table of them is dropped.
pub proof fn migrations_go_through_their_rows(m: Migrate<'_>, start: i64, estimate: i64, rows: i64, last: i64)
    requires
        m.state is Start,
        rows > 0,
        estimate - rows >= i64::MIN,
    ensures
        ({
            let a = m.next_of(Ev::Begin);
            let b = Migrate { state: a.0, ..m }.next_of(Ev::Int(Stepped::Row(start)));
            let c = Migrate { state: b.0, ..m }.next_of(Ev::Ran);
            let d = Migrate { state: c.0, ..m }.next_of(Ev::Int(Stepped::Row(estimate)));
            let e = Migrate { state: d.0, ..m }.next_of(Ev::Int(Stepped::Row(rows)));
            let none = Migrate { state: d.0, ..m }.next_of(Ev::Int(Stepped::Row(0)));
            let f = Migrate { state: e.0, ..m }.next_of(Ev::Ran);
            let g = Migrate { state: f.0, ..m }.next_of(Ev::Int(Stepped::Row(last)));
            let h = Migrate { state: g.0, ..m }.next_of(Ev::Ran);
            let count = Migrate { state: c.0, ..m }.next_of(Ev::Int(Stepped::Done));
            let kept = Migrate { state: count.0, ..m }.next_of(Ev::Int(Stepped::Row(estimate)));
            &&& a.1 == Act::AskInt(get_key(m.progress_key()))
            &&& b.1 == Act::Run(seq![plain(MIGRATION_BEGIN_SQL@)], false)
            &&& c.1 == Act::AskInt(get_key(m.estimate_key()))
            &&& count.1 == Act::AskInt(plain(count_left_sql(*m.t, start)))
            &&& kept.1 == Act::Run(seq![set_key(m.estimate_key(), estimate)], false)
            &&& Migrate { state: kept.0, ..m }.next_of(Ev::Ran) == d
            &&& d.1 matches Act::Count(plan)
            &&& plan.len() == 3
            &&& plan[0] == plain(CHUNK_DROP_SQL@)
            &&& plan[1] == plain(chunk_table_sql(*m.t))
            &&& plan[2] == plain(chunk_fill_sql(*m.t, start, m.chunk_size))
            &&& e.1 matches Act::Run(steps, _)
            &&& steps.len() == chunk_sql(*m.t, m.ts).len()
            &&& forall|k: int| 0 <= k < steps.len() ==> #[trigger] steps[k] == plain(chunk_sql(*m.t, m.ts)[k])
            &&& f.1 == Act::AskInt(plain(CHUNK_MAX_KEY_SQL@))
            &&& g.1 == Act::Run(seq![set_key(m.progress_key(), last)], false)
            &&& h.1 == Act::Run(seq![plain(CHUNK_DROP_SQL@)], false)
            &&& h.0 == (MigrateState::Dropped { estimate, rows })
            &&& none.1 == h.1
            &&& none.0 == (MigrateState::Dropped { estimate, rows: 0 })
        }),
{
}

} // verus!
