//! What a step of a migration does to the metadata of a table: it goes on behind the rows that are
//! migrated, and no row is left behind.

use crate::migrate::{
    chunk_clocks_sql, chunk_fill_sql, chunk_pks_sql, chunk_row_clocks_sql, chunk_sql, chunk_table_sql,
    chunk_tomb_pks_sql, chunk_tombs_sql, count_left_sql, untracked_sql, CHUNK_DROP_SQL, CHUNK_MAX_KEY_SQL,
    MIGRATION_BEGIN_SQL, MIGRATION_END_SQL,
};
use crate::migrate_run::{Migrate, MigrateState};
use crate::pack_columns::Val;
use crate::result_code::Stepped;
use crate::statement::{bound, plain, Sql};
use crate::steps::{Act, Ev};
use crate::tableinfo::TableInfo;
use crate::util::{CLEAR_MASTER_KEY_SQL, GET_MASTER_VALUE_SQL, SET_MASTER_VALUE_SQL};
use vstd::prelude::*;
use vstd::string::*;

verus! {

/// The metadata of a table that is being migrated.
pub struct Moving {
    /// The keys of the rows that have metadata in the first format.
    pub keys: Set<i64>,
    /// The key up to which the migration has come, while it is under way.
    pub progress: Option<i64>,
    /// The estimate of the rows that are left.
    pub estimate: Option<i64>,
    /// The rows that are migrated together.
    pub chosen: Set<i64>,
    /// The rows whose live keys were created, where they live.
    pub live: Set<i64>,
    /// The rows whose tombstones were created, where they are dead.
    pub tombs: Set<i64>,
    /// The rows whose primary keys were kept, where they are dead.
    pub kept: Set<i64>,
    /// The rows whose clocks were copied.
    pub clocks: Set<i64>,
    /// Whether rows without metadata have live keys.
    pub covered: bool,
}

/// The keys behind `start`.
pub open spec fn behind(keys: Set<i64>, start: i64) -> Set<i64> {
    keys.filter(|k: i64| k > start)
}

/// The first `n` keys behind `start`.
pub open spec fn first_behind(keys: Set<i64>, start: i64, n: i64) -> Set<i64> {
    keys.filter(|k: i64| k > start && keys.filter(|j: i64| start < j < k).len() < n)
}

impl Moving {
    /// Whether a row is migrated.
    pub open spec fn migrated(self, t: TableInfo, key: i64) -> bool {
        &&& self.live.contains(key)
        &&& self.tombs.contains(key)
        &&& self.clocks.contains(key)
        &&& !t.skip_hash ==> self.kept.contains(key)
    }

    /// All rows up to the one that the migration has come to are migrated.
    pub open spec fn in_order(self, t: TableInfo) -> bool {
        self.progress matches Some(p) ==> forall|k: int| self.up_to(k, p) ==> self.migrated(t, k as i64)
    }

    /// Whether `k` is the key of a row at or in front of `p`.
    pub open spec fn up_to(self, k: int, p: i64) -> bool {
        i64::MIN <= k <= p && self.keys.contains(k as i64)
    }
}

/// What the statements of a migration do.
pub type Effect = spec_fn(Moving, Sql) -> Moving;

/// The statements of a migration do what they say; clocks are found by live keys.
pub open spec fn does_as_told(effect: Effect, t: TableInfo) -> bool {
    let progress = Val::Text("migration_v1_to_v2_migration_"@ + t.tbl_name@);
    let estimate = Val::Text("migration_v1_to_v2_remaining_"@ + t.tbl_name@);
    &&& forall|d: Moving, binds: Seq<Val>|
        binds.len() == 2 && binds[0] == progress && binds[1] is Integer ==> #[trigger] effect(
            d,
            bound(SET_MASTER_VALUE_SQL@, binds),
        ) == (Moving { progress: Some(binds[1]->Integer_0), ..d })
    &&& forall|d: Moving, binds: Seq<Val>|
        binds.len() == 2 && binds[0] == estimate && binds[1] is Integer ==> #[trigger] effect(
            d,
            bound(SET_MASTER_VALUE_SQL@, binds),
        ) == (Moving { estimate: Some(binds[1]->Integer_0), ..d })
    &&& forall|d: Moving, binds: Seq<Val>|
        binds == seq![progress] ==> #[trigger] effect(d, bound(CLEAR_MASTER_KEY_SQL@, binds)) == (Moving {
            progress: None,
            ..d
        })
    &&& forall|d: Moving, binds: Seq<Val>|
        binds == seq![estimate] ==> #[trigger] effect(d, bound(CLEAR_MASTER_KEY_SQL@, binds)) == (Moving {
            estimate: None,
            ..d
        })
    &&& forall|d: Moving| #[trigger] effect(d, plain(CHUNK_DROP_SQL@)) == d
    &&& forall|d: Moving| #[trigger] effect(d, plain(chunk_table_sql(t))) == (Moving { chosen: Set::empty(), ..d })
    &&& forall|d: Moving, start: i64, n: i64| #[trigger]
        effect(d, plain(chunk_fill_sql(t, start, n))) == (Moving { chosen: first_behind(d.keys, start, n), ..d })
    &&& forall|d: Moving| #[trigger]
        effect(d, plain(chunk_pks_sql(t))) == (Moving { live: d.live.union(d.chosen), ..d })
    &&& forall|d: Moving, ts: i64| #[trigger]
        effect(d, plain(chunk_tombs_sql(t, ts))) == (Moving { tombs: d.tombs.union(d.chosen), ..d })
    &&& forall|d: Moving| #[trigger]
        effect(d, plain(chunk_tomb_pks_sql(t))) == (Moving { kept: d.kept.union(d.chosen), ..d })
    &&& t.non_pks@.len() > 0 ==> forall|d: Moving, ts: i64| #[trigger]
        effect(d, plain(chunk_clocks_sql(t, ts))) == (Moving {
            clocks: d.clocks.union(d.chosen.intersect(d.live)),
            ..d
        })
    &&& t.non_pks@.len() == 0 ==> forall|d: Moving, ts: i64| #[trigger]
        effect(d, plain(chunk_row_clocks_sql(t, ts))) == (Moving {
            clocks: d.clocks.union(d.chosen.intersect(d.live)),
            ..d
        })
    &&& forall|d: Moving| #[trigger] effect(d, plain(untracked_sql(t))) == (Moving { covered: true, ..d })
    &&& forall|d: Moving| #[trigger] effect(d, plain(MIGRATION_BEGIN_SQL@)) == d
    &&& forall|d: Moving| #[trigger] effect(d, plain(MIGRATION_END_SQL@)) == d
}

/// The metadata once the statements of a plan were run, one after the other.
pub open spec fn after_plan(effect: Effect, d: Moving, plan: Seq<Sql>) -> Moving
    decreases plan.len(),
{
    if plan.len() == 0 {
        d
    } else {
        effect(after_plan(effect, d, plan.drop_last()), plan.last())
    }
}

/// The metadata once an action was performed.
pub open spec fn after_act(effect: Effect, d: Moving, act: Act) -> Moving {
    match act {
        Act::Run(plan, _) => after_plan(effect, d, plan),
        Act::Count(plan) => after_plan(effect, d, plan),
        _ => d,
    }
}

/// Whether an event is what the database answers to an action; `after` are the metadata once it
/// was performed.
pub open spec fn answers(t: TableInfo, d: Moving, act: Act, after: Moving, ev: Ev) -> bool {
    let progress = Val::Text("migration_v1_to_v2_migration_"@ + t.tbl_name@);
    let estimate = Val::Text("migration_v1_to_v2_remaining_"@ + t.tbl_name@);
    &&& act == Act::AskInt(bound(GET_MASTER_VALUE_SQL@, seq![progress])) ==> ev == Ev::Int(
        match d.progress { Some(p) => Stepped::Row(p), None => Stepped::Done },
    )
    &&& act == Act::AskInt(bound(GET_MASTER_VALUE_SQL@, seq![estimate])) ==> ev == Ev::Int(
        match d.estimate { Some(n) => Stepped::Row(n), None => Stepped::Done },
    )
    &&& forall|start: i64|
        act == Act::AskInt(plain(#[trigger] count_left_sql(t, start))) ==> ev == Ev::Int(
            Stepped::Row(behind(d.keys, start).len() as i64),
        )
    &&& act == Act::AskInt(plain(CHUNK_MAX_KEY_SQL@)) ==> (ev matches Ev::Int(Stepped::Row(last))
        && d.chosen.contains(last) && (forall|k: i64| #[trigger] d.chosen.contains(k) ==> k <= last))
    &&& act is Count ==> ev == Ev::Int(Stepped::Row(after.chosen.len() as i64))
    &&& act is Run ==> ev == Ev::Ran
}

/// A step of a migration from its start, with what came of each of its actions, and the metadata
/// after each.
pub open spec fn is_migrate_run<'a>(run: Seq<Migrate<'a>>, dbs: Seq<Moving>, evs: Seq<Ev>, effect: Effect) -> bool {
    &&& run.len() == evs.len() + 1
    &&& dbs.len() == evs.len()
    &&& evs.len() > 0
    &&& run[0].state is Start
    &&& evs[0] == Ev::Begin
    &&& forall|k: int|
        0 <= k < evs.len() ==> (#[trigger] run[k + 1]) == (Migrate { state: run[k].next_of(evs[k]).0, ..run[k] })
    &&& forall|k: int|
        0 < k < evs.len() ==> #[trigger] dbs[k] == after_act(effect, dbs[k - 1], run[k - 1].next_of(evs[k - 1]).1)
    &&& forall|k: int|
        0 < k < evs.len() ==> answers(
            *run[0].t,
            dbs[k - 1],
            run[k - 1].next_of(evs[k - 1]).1,
            dbs[k],
            #[trigger] evs[k],
        )
}

// ---------------------------------------------------------------------------
// Keys
// ---------------------------------------------------------------------------
/// Where there are keys behind another one, the first of them is chosen.
proof fn lemma_first_is_chosen(keys: Set<i64>, start: i64, n: i64, k: i64)
    requires
        keys.finite(),
        n > 0,
        keys.contains(k),
        k > start,
    ensures
        first_behind(keys, start, n).len() > 0,
        first_behind(keys, start, n).finite(),
    decreases keys.filter(|j: i64| start < j < k).len(),
{
    let between = keys.filter(|j: i64| start < j < k);
    let first = first_behind(keys, start, n);
    assert(first.finite()) by {
        assert(first.subset_of(keys));
        vstd::set_lib::lemma_set_subset_finite(keys, first);
    }
    if between.len() == 0 {
        assert(first.contains(k));
        if first.len() == 0 {
            first.lemma_len0_is_empty();
        }
    } else {
        vstd::set_lib::lemma_set_subset_finite(keys, between);
        let j = between.choose();
        assert(between.contains(j));
        let less = keys.filter(|i: i64| start < i < j);
        assert(less.subset_of(between.remove(j)));
        vstd::set_lib::lemma_len_subset(less, between.remove(j));
        lemma_first_is_chosen(keys, start, n, j);
    }
}

/// What is chosen lies behind the start, and is chosen without gaps.
proof fn lemma_no_gaps(keys: Set<i64>, start: i64, n: i64, k: i64, last: i64)
    requires
        keys.finite(),
        first_behind(keys, start, n).contains(last),
        keys.contains(k),
        start < k <= last,
    ensures
        first_behind(keys, start, n).contains(k),
{
    let a = keys.filter(|j: i64| start < j < k);
    let b = keys.filter(|j: i64| start < j < last);
    assert(a.subset_of(b));
    vstd::set_lib::lemma_set_subset_finite(keys, b);
    vstd::set_lib::lemma_len_subset(a, b);
}

/// Nothing is chosen exactly where nothing is behind the start.
proof fn lemma_nothing_chosen(keys: Set<i64>, start: i64, n: i64)
    requires
        keys.finite(),
        n > 0,
    ensures
        first_behind(keys, start, n).finite(),
        first_behind(keys, start, n).len() <= keys.len(),
        behind(keys, start).finite(),
        behind(keys, start).len() <= keys.len(),
        first_behind(keys, start, n).len() == 0 <==> forall|k: i64| #[trigger] keys.contains(k) ==> k <= start,
        behind(keys, start).len() == 0 <==> forall|k: i64| #[trigger] keys.contains(k) ==> k <= start,
{
    let first = first_behind(keys, start, n);
    let rest = behind(keys, start);
    vstd::set_lib::lemma_set_subset_finite(keys, first);
    vstd::set_lib::lemma_set_subset_finite(keys, rest);
    vstd::set_lib::lemma_len_subset(first, keys);
    vstd::set_lib::lemma_len_subset(rest, keys);
    if first.len() == 0 {
        assert forall|k: i64| #[trigger] keys.contains(k) implies k <= start by {
            if k > start {
                lemma_first_is_chosen(keys, start, n, k);
            }
        }
    }
    if rest.len() == 0 {
        rest.lemma_len0_is_empty();
        assert forall|k: i64| #[trigger] keys.contains(k) implies k <= start by {
            if k > start {
                assert(rest.contains(k));
            }
        }
    }
    if forall|k: i64| #[trigger] keys.contains(k) ==> k <= start {
        assert(first =~= Set::empty());
        assert(rest =~= Set::empty());
    }
}

// ---------------------------------------------------------------------------
// Steps
// ---------------------------------------------------------------------------
proof fn lemma_after_push(effect: Effect, d: Moving, plan: Seq<Sql>, sql: Sql)
    ensures
        after_plan(effect, d, plan.push(sql)) == effect(after_plan(effect, d, plan), sql),
{
    assert(plan.push(sql).drop_last() =~= plan);
}

proof fn lemma_four(effect: Effect, d: Moving, a: Sql, b: Sql, c: Sql, e: Sql)
    ensures
        after_plan(effect, d, seq![a]) == effect(d, a),
        after_plan(effect, d, seq![a, b]) == effect(effect(d, a), b),
        after_plan(effect, d, seq![a, b, c]) == effect(effect(effect(d, a), b), c),
        after_plan(effect, d, seq![a, b, c, e]) == effect(effect(effect(effect(d, a), b), c), e),
{
    let none: Seq<Sql> = seq![];
    lemma_after_push(effect, d, none, a);
    lemma_after_push(effect, d, none.push(a), b);
    lemma_after_push(effect, d, none.push(a).push(b), c);
    lemma_after_push(effect, d, none.push(a).push(b).push(c), e);
    assert(seq![a] =~= none.push(a));
    assert(seq![a, b] =~= none.push(a).push(b));
    assert(seq![a, b, c] =~= none.push(a).push(b).push(c));
    assert(seq![a, b, c, e] =~= none.push(a).push(b).push(c).push(e));
}

/// The metadata differ in the estimate, and in what is chosen, alone.
spec fn alike(a: Moving, b: Moving) -> bool {
    b == (Moving { estimate: b.estimate, chosen: b.chosen, ..a })
}

/// No row in front of `p` is lost: rows that were migrated still are, and all up to `p` are.
spec fn up_to_date(t: TableInfo, first: Moving, d: Moving, p: i64) -> bool {
    &&& d.keys == first.keys
    &&& d.covered == first.covered
    &&& forall|k: i64| #[trigger] first.migrated(t, k) ==> d.migrated(t, k)
    &&& forall|k: i64| #[trigger] d.keys.contains(k) && k <= p ==> d.migrated(t, k)
}

/// The rows of the step are those behind the key to which the migration had come.
spec fn chosen_ok(m: Migrate<'_>, first: Moving, d: Moving, rows: i64) -> bool {
    &&& d.chosen == first_behind(first.keys, first.progress.unwrap(), m.chunk_size)
    &&& rows == d.chosen.len()
}

/// How far a migration has come once its step is over: behind where it was, if rows were left.
spec fn advanced(m: Migrate<'_>, first: Moving, d: Moving, rows: i64) -> bool {
    let p = first.progress.unwrap();
    &&& d.progress is Some
    &&& up_to_date(*m.t, first, d, d.progress.unwrap())
    &&& rows == 0 ==> d.progress == Some(p) && forall|k: i64| #[trigger] d.keys.contains(k) ==> k <= p
    &&& rows != 0 ==> rows > 0 && d.progress.unwrap() > p
}

/// How far a step has come.
spec fn on_the_way(effect: Effect, m: Migrate<'_>, first: Moving, d: Moving, act: Act) -> bool {
    let t = *m.t;
    let p = first.progress.unwrap();
    let after = after_act(effect, d, act);
    let ask_progress = Act::AskInt(
        bound(GET_MASTER_VALUE_SQL@, seq![Val::Text("migration_v1_to_v2_migration_"@ + t.tbl_name@)]),
    );
    let ask_estimate = Act::AskInt(
        bound(GET_MASTER_VALUE_SQL@, seq![Val::Text("migration_v1_to_v2_remaining_"@ + t.tbl_name@)]),
    );
    match m.state {
        MigrateState::Start => d == first,
        MigrateState::Progress => d == first && act == ask_progress,
        MigrateState::Begun { start } => first.progress == Some(start) && act is Run && alike(first, after),
        MigrateState::Estimate { start } => first.progress == Some(start) && alike(first, d) && act == ask_estimate,
        MigrateState::Counted { start } => first.progress == Some(start) && alike(first, d) && act == Act::AskInt(
            plain(count_left_sql(t, start)),
        ),
        MigrateState::Kept { start, .. } => first.progress == Some(start) && act is Run && alike(first, after),
        MigrateState::Rows { .. } => first.progress is Some && act is Count && alike(first, after) && after.chosen
            == first_behind(first.keys, p, m.chunk_size),
        MigrateState::Steps { rows, .. } => first.progress is Some && act is Run && rows > 0 && chosen_ok(
            m,
            first,
            after,
            rows,
        ) && after.progress == first.progress && up_to_date(t, first, after, p) && (forall|k: i64| #[trigger]
            after.chosen.contains(k) ==> after.migrated(t, k)),
        MigrateState::MaxKey { rows, .. } => first.progress is Some && act == Act::AskInt(plain(CHUNK_MAX_KEY_SQL@))
            && rows > 0 && chosen_ok(m, first, d, rows) && d.progress == first.progress && up_to_date(t, first, d, p)
            && (forall|k: i64| #[trigger] d.chosen.contains(k) ==> d.migrated(t, k)),
        MigrateState::Advanced { rows, .. } => first.progress is Some && act is Run && rows > 0 && advanced(
            m,
            first,
            after,
            rows,
        ),
        MigrateState::Dropped { rows, .. } => first.progress is Some && act is Run && advanced(m, first, after, rows),
        MigrateState::Forgotten { rows } => first.progress is Some && act is Run && rows > 0 && advanced(
            m,
            first,
            after,
            rows,
        ),
        MigrateState::Reached { rows } => first.progress is Some && act == ask_progress && rows > 0 && advanced(
            m,
            first,
            d,
            rows,
        ),
        MigrateState::Recounted { rows } => first.progress is Some && rows > 0 && advanced(m, first, d, rows) && act
            == Act::AskInt(plain(count_left_sql(t, d.progress.unwrap()))),
        MigrateState::Ended { rows, left } => first.progress is Some && act is Run && ended(m, first, after, rows, left),
        MigrateState::Over { rows, left } => act == Act::Finish && if first.progress is Some {
            ended(m, first, d, rows, left)
        } else {
            d == first && rows == 0 && left == 0
        },
        _ => false,
    }
}

/// What a step leaves: either all rows are migrated and the migration is over, or it has gone on
/// behind where it was, and all rows up to where it is are migrated.
pub open spec fn ended(m: Migrate<'_>, first: Moving, d: Moving, rows: i64, left: i64) -> bool {
    let t = *m.t;
    &&& d.keys == first.keys
    &&& forall|k: i64| #[trigger] first.migrated(t, k) ==> d.migrated(t, k)
    &&& left == 0 <==> d.progress is None
    &&& d.progress is None ==> d.covered && d.estimate is None && forall|k: i64| #[trigger]
        d.keys.contains(k) ==> d.migrated(t, k)
    &&& d.progress matches Some(now) ==> now > first.progress.unwrap() && rows > 0 && forall|k: i64| #[trigger]
        d.keys.contains(k) && k <= now ==> d.migrated(t, k)
}

/// The statements that migrate the rows of a step.
proof fn lemma_chunk(effect: Effect, m: Migrate<'_>, d: Moving)
    requires
        does_as_told(effect, *m.t),
    ensures
        ({
            let after = after_plan(effect, d, crate::migrate_run::plains(chunk_sql(*m.t, m.ts)));
            &&& after.chosen == d.chosen
            &&& after.keys == d.keys
            &&& after.progress == d.progress
            &&& after.estimate == d.estimate
            &&& after.covered == d.covered
            &&& forall|k: i64| #[trigger] d.migrated(*m.t, k) ==> after.migrated(*m.t, k)
            &&& forall|k: i64| #[trigger] after.chosen.contains(k) ==> after.migrated(*m.t, k)
        }),
{
    let t = *m.t;
    let plan = crate::migrate_run::plains(chunk_sql(t, m.ts));
    let clocks = if t.non_pks@.len() > 0 {
        plain(chunk_clocks_sql(t, m.ts))
    } else {
        plain(chunk_row_clocks_sql(t, m.ts))
    };
    let pks = plain(chunk_pks_sql(t));
    let tombs = plain(chunk_tombs_sql(t, m.ts));
    let kept = plain(chunk_tomb_pks_sql(t));
    if t.skip_hash {
        assert(plan =~= seq![pks, tombs, clocks]);
        lemma_four(effect, d, pks, tombs, clocks, clocks);
    } else {
        assert(plan =~= seq![pks, tombs, kept, clocks]);
        lemma_four(effect, d, pks, tombs, kept, clocks);
    }
}

/// Choosing the rows of a step.
proof fn lemma_choose(effect: Effect, m: Migrate<'_>, first: Moving, d: Moving, start: i64, estimate: i64)
    requires
        does_as_told(effect, *m.t),
        alike(first, d),
        first.progress == Some(start),
    ensures
        on_the_way(
            effect,
            Migrate { state: m.choose_rows(start, estimate).0, ..m },
            first,
            d,
            m.choose_rows(start, estimate).1,
        ),
{
    let plan = m.choose_rows(start, estimate).1->Count_0;
    lemma_four(effect, d, plan[0], plan[1], plan[2], plan[2]);
    assert(plan =~= seq![plan[0], plan[1], plan[2]]);
    assert(plan[2] == plain(chunk_fill_sql(*m.t, start, m.chunk_size)));
}

/// Ending the migration of a table.
proof fn lemma_complete(effect: Effect, m: Migrate<'_>, first: Moving, d: Moving, rows: i64)
    requires
        does_as_told(effect, *m.t),
        first.progress is Some,
        d.progress is Some,
        up_to_date(*m.t, first, d, d.progress.unwrap()),
        forall|k: i64| #[trigger] d.keys.contains(k) ==> k <= d.progress.unwrap(),
    ensures
        on_the_way(effect, Migrate { state: m.complete(rows).0, ..m }, first, d, m.complete(rows).1),
{
    let plan = m.complete(rows).1->Run_0;
    lemma_four(effect, d, plan[0], plan[1], plan[2], plan[3]);
    assert(plan =~= seq![plan[0], plan[1], plan[2], plan[3]]);
    assert(plan[1].binds =~= seq![Val::Text("migration_v1_to_v2_migration_"@ + m.t.tbl_name@)]);
    assert(plan[2].binds =~= seq![Val::Text("migration_v1_to_v2_remaining_"@ + m.t.tbl_name@)]);
    let end = after_plan(effect, d, plan);
    assert(end == (Moving { covered: true, progress: None, estimate: None, ..d }));
    assert forall|k: i64| #[trigger] end.keys.contains(k) implies end.migrated(*m.t, k) by {
        assert(d.keys.contains(k));
        assert(d.migrated(*m.t, k));
    }
    assert forall|k: i64| #[trigger] first.migrated(*m.t, k) implies end.migrated(*m.t, k) by {
        assert(d.migrated(*m.t, k));
    }
}

proof fn lemma_step(effect: Effect, m: Migrate<'_>, first: Moving, d: Moving, act: Act, ev: Ev)
    requires
        does_as_told(effect, *m.t),
        first.keys.finite(),
        first.keys.len() <= i64::MAX,
        first.in_order(*m.t),
        m.chunk_size > 0,
        on_the_way(effect, m, first, d, act),
        !(m.state is Over),
        m.state is Start ==> ev == Ev::Begin && act == Act::Finish,
        !(m.state is Start) ==> answers(*m.t, d, act, after_act(effect, d, act), ev),
    ensures
        on_the_way(
            effect,
            Migrate { state: m.next_of(ev).0, ..m },
            first,
            after_act(effect, d, act),
            m.next_of(ev).1,
        ),
        !(m.next_of(ev).0 is Start),
{
    let t = *m.t;
    let after = after_act(effect, d, act);
    let next = m.next_of(ev);
    let drop = plain(CHUNK_DROP_SQL@);
    if first.progress is Some {
        let p = first.progress.unwrap();
        lemma_nothing_chosen(first.keys, p, m.chunk_size);
        assert forall|k: i64| #[trigger] first.keys.contains(k) && k <= p implies first.migrated(t, k) by {
            assert(first.up_to(k as int, p));
        }
    }
    match m.state {
        MigrateState::Start => {
            assert(next.1->AskInt_0.binds =~= seq![Val::Text("migration_v1_to_v2_migration_"@ + t.tbl_name@)]);
        },
        MigrateState::Progress => {
            let begin = plain(MIGRATION_BEGIN_SQL@);
            lemma_four(effect, d, begin, begin, begin, begin);
        },
        MigrateState::Begun { start } => {
            assert(next.1->AskInt_0.binds =~= seq![Val::Text("migration_v1_to_v2_remaining_"@ + t.tbl_name@)]);
        },
        MigrateState::Estimate { start } => {
            if let Ev::Int(Stepped::Row(n)) = ev {
                lemma_choose(effect, m, first, d, start, n);
            }
        },
        MigrateState::Counted { start } => {
            let plan = next.1->Run_0;
            lemma_four(effect, d, plan[0], plan[0], plan[0], plan[0]);
            assert(plan =~= seq![plan[0]]);
        },
        MigrateState::Kept { start, estimate } => {
            lemma_choose(effect, m, first, after, start, estimate);
        },
        MigrateState::Rows { estimate } => {
            lemma_chunk(effect, m, after);
            lemma_four(effect, after, drop, drop, drop, drop);
            let p = first.progress.unwrap();
            assert forall|k: i64| #[trigger] first.migrated(t, k) implies after.migrated(t, k) by {}
            let moved = after_plan(effect, after, crate::migrate_run::plains(chunk_sql(t, m.ts)));
            assert forall|k: i64| #[trigger] first.migrated(t, k) implies moved.migrated(t, k) by {
                assert(after.migrated(t, k));
            }
            assert forall|k: i64| #[trigger] moved.keys.contains(k) && k <= p implies moved.migrated(t, k) by {
                assert(first.keys.contains(k));
                assert(first.migrated(t, k));
            }
        },
        MigrateState::Steps { estimate, rows } => {},
        MigrateState::MaxKey { estimate, rows } => {
            let p = first.progress.unwrap();
            let plan = next.1->Run_0;
            lemma_four(effect, d, plan[0], plan[0], plan[0], plan[0]);
            assert(plan =~= seq![plan[0]]);
            let last = ev->Int_0->Row_0;
            let end = after_plan(effect, d, plan);
            assert(plan[0].binds[0] == Val::Text("migration_v1_to_v2_migration_"@ + t.tbl_name@));
            assert(end == (Moving { progress: Some(last), ..d }));
            assert forall|k: i64| #[trigger] first.migrated(t, k) implies end.migrated(t, k) by {
                assert(d.migrated(t, k));
            }
            assert forall|k: i64| #[trigger] end.keys.contains(k) && k <= last implies end.migrated(t, k) by {
                assert(d.keys.contains(k));
                if k > p {
                    lemma_no_gaps(first.keys, p, m.chunk_size, k, last);
                    assert(d.chosen.contains(k));
                }
                assert(d.migrated(t, k));
            }
        },
        MigrateState::Advanced { estimate, rows } => {
            lemma_four(effect, after, drop, drop, drop, drop);
        },
        MigrateState::Dropped { estimate, rows } => {
            if rows == 0 {
                lemma_complete(effect, m, first, after, 0);
            } else {
                let plan = next.1->Run_0;
                if estimate - rows <= 0 {
                    lemma_four(effect, after, plan[0], plan[0], plan[0], plan[0]);
                    assert(plan =~= seq![plan[0]]);
                    assert(plan[0].binds =~= seq![Val::Text("migration_v1_to_v2_remaining_"@ + t.tbl_name@)]);
                    let end = after_plan(effect, after, plan);
                    assert(end == (Moving { estimate: None, ..after }));
                    lemma_alike(m, first, after, end, rows);
                } else {
                    lemma_four(effect, after, plan[0], plan[1], plan[1], plan[1]);
                    assert(plan =~= seq![plan[0], plan[1]]);
                    let end = after_plan(effect, after, plan);
                    assert(plan[0].binds[0] == Val::Text("migration_v1_to_v2_remaining_"@ + t.tbl_name@));
                    assert(end == (Moving { estimate: Some((estimate - rows) as i64), ..after }));
                    lemma_alike(m, first, after, end, rows);
                }
            }
        },
        MigrateState::Forgotten { rows } => {
            assert(next.1->AskInt_0.binds =~= seq![Val::Text("migration_v1_to_v2_migration_"@ + t.tbl_name@)]);
        },
        MigrateState::Reached { rows } => {},
        MigrateState::Recounted { rows } => {
            let now = d.progress.unwrap();
            lemma_nothing_chosen(d.keys, now, m.chunk_size);
            if behind(d.keys, now).len() == 0 {
                lemma_complete(effect, m, first, d, rows);
            } else {
                let end = plain(MIGRATION_END_SQL@);
                lemma_four(effect, d, end, end, end, end);
            }
        },
        MigrateState::Ended { rows, left } => {},
        _ => {},
    }
}

/// The estimate says nothing of the rows.
proof fn lemma_alike(m: Migrate<'_>, first: Moving, d: Moving, e: Moving, rows: i64)
    requires
        advanced(m, first, d, rows),
        e == (Moving { estimate: e.estimate, ..d }),
    ensures
        advanced(m, first, e, rows),
{
    assert forall|k: i64| #[trigger] first.migrated(*m.t, k) implies e.migrated(*m.t, k) by {
        assert(d.migrated(*m.t, k));
    }
    assert forall|k: i64| #[trigger] e.keys.contains(k) && k <= e.progress.unwrap() implies e.migrated(*m.t, k) by {
        assert(d.keys.contains(k));
        assert(d.migrated(*m.t, k));
    }
}

proof fn lemma_run<'a>(run: Seq<Migrate<'a>>, dbs: Seq<Moving>, evs: Seq<Ev>, effect: Effect, k: int)
    requires
        is_migrate_run(run, dbs, evs, effect),
        does_as_told(effect, *run[0].t),
        dbs[0].keys.finite(),
        dbs[0].keys.len() <= i64::MAX,
        dbs[0].in_order(*run[0].t),
        run[0].chunk_size > 0,
        0 < k < run.len(),
        forall|j: int| 0 <= j < k ==> !((#[trigger] run[j]).state is Over),
    ensures
        run[k] == (Migrate { state: run[k].state, ..run[0] }),
        on_the_way(effect, run[k], dbs[0], dbs[k - 1], run[k - 1].next_of(evs[k - 1]).1),
        !(run[k].state is Start),
    decreases k,
{
    let m = run[k - 1];
    assert(run[k - 1 + 1] == (Migrate { state: m.next_of(evs[k - 1]).0, ..m }));
    if k > 1 {
        lemma_run(run, dbs, evs, effect, k - 1);
        let act = run[k - 2].next_of(evs[k - 2]).1;
        assert(dbs[k - 1] == after_act(effect, dbs[k - 1 - 1], run[k - 1 - 1].next_of(evs[k - 1 - 1]).1));
        assert(answers(*run[0].t, dbs[k - 1 - 1], run[k - 1 - 1].next_of(evs[k - 1 - 1]).1, dbs[k - 1], evs[k - 1]));
        lemma_step(effect, m, dbs[0], dbs[k - 2], act, evs[k - 1]);
    } else {
        lemma_step(effect, m, dbs[0], dbs[0], Act::Finish, evs[0]);
    }
}

/// A step of a migration loses no row, where the database answers as it has to and the statements
/// do what they say, and does not fail. It goes on behind the key to which the migration has come:
/// the rows that are chosen are those behind it, whether the rows that are left were counted or
/// estimated. All rows up to the key that is kept are migrated, and it is above the one before; the
/// migration is over, and the step says that nothing is left, only once all rows are migrated. A
/// table that is not queued stays as it is.
pub proof fn no_row_is_left_behind<'a>(run: Seq<Migrate<'a>>, dbs: Seq<Moving>, evs: Seq<Ev>, effect: Effect)
    requires
        is_migrate_run(run, dbs, evs, effect),
        does_as_told(effect, *run[0].t),
        dbs[0].keys.finite(),
        dbs[0].keys.len() <= i64::MAX,
        dbs[0].in_order(*run[0].t),
        run[0].chunk_size > 0,
        forall|k: int| 0 <= k < run.len() - 1 ==> !((#[trigger] run[k]).state is Over),
        run.last().state is Over,
    ensures
        run[run.len() - 2].next_of(evs.last()).1 == Act::Finish,
        dbs[0].progress is None ==> dbs.last() == dbs[0],
        dbs[0].progress is Some ==> ended(
            run[0],
            dbs[0],
            dbs.last(),
            run.last().state->Over_rows,
            run.last().state->Over_left,
        ),
        dbs.last().in_order(*run[0].t),
{
    let last = run.len() - 1;
    lemma_run(run, dbs, evs, effect, last);
    let d = dbs.last();
    if let Some(p) = d.progress {
        assert forall|k: int| d.up_to(k, p) implies d.migrated(*run[0].t, k as i64) by {
            assert(d.keys.contains(k as i64));
            if dbs[0].progress is None {
                assert(dbs[0].up_to(k, p));
            }
        }
    }
}

/// The statement that chooses the rows of a step says, at its end, behind which key they are, in
/// which order they come, and how many they may be.
pub proof fn chunks_say_where_they_start(t: TableInfo, start: i64, n: i64)
    ensures
        ({
            let all = chunk_fill_sql(t, start, n);
            let end = crate::text::decimal_of(start as int) + "
             ORDER BY p.__crsql_key LIMIT "@ + crate::text::decimal_of(n as int);
            all.len() >= end.len() && all.skip(all.len() - end.len()) == end
        }),
{
    let all = chunk_fill_sql(t, start, n);
    let end = crate::text::decimal_of(start as int) + "
             ORDER BY p.__crsql_key LIMIT "@ + crate::text::decimal_of(n as int);
    assert(all.skip(all.len() - end.len()) =~= end);
}

} // verus!
