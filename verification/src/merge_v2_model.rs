//! What merging a change does to a row that has metadata in the second format: the answers of the
//! database decide, and the statements that are run leave the row as it has to be.

use crate::cell::cell_of;
use crate::changes_vtab_write::{new_row_plan, AliveStep, CellView, CellWrite};
use crate::merge_v2::{CellsState, DeleteState, RowRef, V2Cells, V2Delete};
use crate::pack_columns::{vals, Val};
use crate::result_code::Stepped;
use crate::statement::{bound, unnoticed, Sql};
use crate::steps::{Act, Ev};
use crate::tableinfo::TableInfo;
use crate::v2_stmts::{
    base_delete_nonrowid_sql, base_delete_rowid_sql, base_insert_sql, base_update_sql, clock_delete_range_sql,
    clock_merge_upsert_sql, clock_zero_fill_sql, col_id_lookup_sql, lookup_row_state_sql, pk_lookup_by_key_sql,
    pks_delete_sql, table_pks_insert_sql, tomb_delete_sql, tomb_pks_delete_sql, tomb_pks_insert_sql, tomb_upsert_sql,
};
use vstd::prelude::*;

verus! {

// ---------------------------------------------------------------------------
// Rows
// ---------------------------------------------------------------------------
/// A row, and its metadata in the second format.
pub struct V2Row {
    /// Whether the row is in its table.
    pub present: bool,
    /// What the cells hold that were written.
    pub values: Map<Seq<char>, Val>,
    /// The live key of the row and its causal length, while it lives.
    pub live: Option<(i64, i64)>,
    /// The causal length of its tombstone, where there is one.
    pub tomb: Option<i64>,
    /// The versions of the cells that have clocks, by the ids of their columns, and the numbers of
    /// the sites that wrote them.
    pub clocks: Map<i64, (i64, i64)>,
}

impl V2Row {
    /// A row that does not live is not in its table, and has no clocks; one that lives has no
    /// tombstone.
    pub open spec fn wf(self) -> bool {
        &&& self.live is Some ==> self.tomb is None && self.live.unwrap().1 > 0
        &&& self.live is None ==> !self.present && self.values == Map::<Seq<char>, Val>::empty() && self.clocks
            == Map::<i64, (i64, i64)>::empty()
        &&& self.tomb is Some ==> self.tomb.unwrap() > 0
    }

    /// The causal length of the row, 0 where nothing is known of it.
    pub open spec fn cl(self) -> i64 {
        match (self.live, self.tomb) {
            (Some((_, cl)), _) => cl,
            (None, Some(cl)) => cl,
            (None, None) => 0i64,
        }
    }

    /// What is found of the row.
    pub open spec fn found(self) -> Option<(Option<i64>, i64)> {
        match (self.live, self.tomb) {
            (Some((key, cl)), _) => Some((Some(key), cl)),
            (None, Some(cl)) => Some((None, cl)),
            (None, None) => None,
        }
    }
}

/// What the database knows beside the row.
pub struct V2Facts {
    /// The ids of the columns that have one.
    pub ids: Map<Seq<char>, i64>,
    /// The columns to which a write wins over one of the same version.
    pub ties: Set<Seq<char>>,
    /// The rowid that a row gets that is inserted.
    pub rowid: i64,
    /// The live key that a row gets.
    pub new_key: i64,
    /// The number of the site of the change, 0 for a change without one.
    pub ordinal: i64,
    /// The primary key of the row.
    pub pks: Seq<Val>,
}

/// What the statements on a row do; the event is what they give.
pub type Effect = spec_fn(V2Row, Sql, Ev) -> V2Row;

/// The parameter by which a row is known.
pub open spec fn known_by(row: RowRef<'_>) -> Val {
    if row.t.skip_hash {
        vals(row.pks@)[0]
    } else {
        Val::Blob(row.hashed_pk@)
    }
}

/// The parameters by which the row is found in its table.
pub open spec fn found_by(t: TableInfo, key: i64, pks: Seq<Val>) -> Seq<Val> {
    if t.key_is_rowid {
        seq![Val::Integer(key)]
    } else {
        pks
    }
}

/// The clocks of a row that was made anew: all cells have one, at version zero.
pub open spec fn filled(f: V2Facts) -> Map<i64, (i64, i64)> {
    Map::new(
        |id: i64| exists|name: Seq<char>| #[trigger] f.ids.contains_key(name) && f.ids[name] == id,
        |id: i64| (0i64, f.ordinal),
    )
}

/// The statements that remove a row, and its metadata, do what they say.
pub open spec fn removes(effect: Effect, row: RowRef<'_>, f: V2Facts) -> bool {
    let t = *row.t;
    &&& forall|r: V2Row, binds: Seq<Val>, ev: Ev|
        r.live is Some && binds == seq![
            Val::Integer(r.live.unwrap().0 << 12u32),
            Val::Integer(cell_of(r.live.unwrap().0, 4095)),
        ] ==> #[trigger] effect(r, bound(clock_delete_range_sql(t), binds), ev) == (V2Row { clocks: Map::empty(), ..r })
    &&& forall|r: V2Row, binds: Seq<Val>, ev: Ev|
        r.live is Some && binds == seq![Val::Integer(r.live.unwrap().0)] ==> #[trigger] effect(
            r,
            bound(pks_delete_sql(t), binds),
            ev,
        ) == (V2Row { live: None, ..r })
    &&& forall|r: V2Row, binds: Seq<Val>, ev: Ev|
        #[trigger] effect(r, unnoticed(base_delete_rowid_sql(t), binds), ev) == (V2Row {
            present: false,
            values: Map::empty(),
            ..r
        })
    &&& forall|r: V2Row, ev: Ev| #[trigger]
        effect(r, unnoticed(base_delete_nonrowid_sql(t), f.pks), ev) == (V2Row {
            present: false,
            values: Map::empty(),
            ..r
        })
}

/// The statements on tombstones do what they say.
pub open spec fn buries(effect: Effect, row: RowRef<'_>) -> bool {
    let t = *row.t;
    &&& forall|r: V2Row, binds: Seq<Val>, ev: Ev|
        binds == seq![known_by(row)] ==> #[trigger] effect(r, bound(tomb_delete_sql(t), binds), ev) == (V2Row {
            tomb: None,
            ..r
        })
    &&& forall|r: V2Row, binds: Seq<Val>, ev: Ev| #[trigger] effect(r, bound(tomb_pks_delete_sql(t), binds), ev) == r
    &&& forall|r: V2Row, binds: Seq<Val>, ev: Ev| #[trigger] effect(r, bound(tomb_pks_insert_sql(t), binds), ev) == r
    &&& forall|r: V2Row, merge_equal: i32, binds: Seq<Val>, ev: Ev|
        binds.len() >= 6 && binds[3] == known_by(row) && binds[4] is Integer ==> #[trigger] effect(
            r,
            bound(tomb_upsert_sql(t, merge_equal), binds),
            ev,
        ) == (if r.tomb is Some && r.tomb.unwrap() > binds[4]->Integer_0 {
            r
        } else {
            V2Row { tomb: Some(binds[4]->Integer_0), ..r }
        })
}

/// The row once the statements of a plan were run, one after the other.
pub open spec fn after_plan(effect: Effect, r: V2Row, plan: Seq<Sql>) -> V2Row
    decreases plan.len(),
{
    if plan.len() == 0 {
        r
    } else {
        effect(after_plan(effect, r, plan.drop_last()), plan.last(), Ev::Ran)
    }
}

/// The row once an action was performed, and the event came of it.
pub open spec fn after_act(effect: Effect, r: V2Row, act: Act, ev: Ev) -> V2Row {
    match act {
        Act::Run(plan, _) => after_plan(effect, r, plan),
        Act::AskInt(sql) => effect(r, sql, ev),
        _ => r,
    }
}

proof fn lemma_after_push(effect: Effect, r: V2Row, plan: Seq<Sql>, sql: Sql)
    ensures
        after_plan(effect, r, plan.push(sql)) == effect(after_plan(effect, r, plan), sql, Ev::Ran),
{
    assert(plan.push(sql).drop_last() =~= plan);
}

/// Removing a row that lives.
proof fn lemma_nuke(effect: Effect, row: RowRef<'_>, f: V2Facts, r: V2Row, pks: Seq<Val>)
    requires
        removes(effect, row, f),
        r.live is Some,
        pks == f.pks,
    ensures
        after_plan(effect, r, crate::changes_vtab_write::nuke_row_plan(*row.t, r.live.unwrap().0, pks)) == (V2Row {
            present: false,
            values: Map::empty(),
            live: None,
            clocks: Map::empty(),
            ..r
        }),
{
    let t = *row.t;
    let key = r.live.unwrap().0;
    let plan = crate::changes_vtab_write::nuke_row_plan(t, key, pks);
    let none: Seq<Sql> = seq![];
    lemma_after_push(effect, r, none, plan[0]);
    lemma_after_push(effect, r, none.push(plan[0]), plan[1]);
    lemma_after_push(effect, r, none.push(plan[0]).push(plan[1]), plan[2]);
    assert(plan =~= none.push(plan[0]).push(plan[1]).push(plan[2]));
    assert(plan[0].binds =~= seq![Val::Integer(key << 12u32), Val::Integer(cell_of(key, 4095))]);
    assert(plan[1].binds =~= seq![Val::Integer(key)]);
}

// ---------------------------------------------------------------------------
// Deletions
// ---------------------------------------------------------------------------
/// Whether an event is what the database answers to an action of a deletion.
pub open spec fn delete_answers(d: V2Delete<'_>, f: V2Facts, r: V2Row, act: Act, ev: Ev) -> bool {
    let t = *d.row.t;
    &&& act == Act::AskState(bound(lookup_row_state_sql(t), seq![known_by(d.row), known_by(d.row)])) ==> ev
        == Ev::State(r.found())
    &&& act == Act::AskOrdinal ==> ev == Ev::Int(Stepped::Row(f.ordinal))
    &&& r.live is Some && act == Act::AskPks(
        bound(pk_lookup_by_key_sql(t), seq![Val::Integer(r.live.unwrap().0)]),
    ) ==> ev == Ev::Pks(Some(f.pks))
    &&& act is Run ==> ev == Ev::Ran
}

/// A deletion from its start, with what came of each of its actions, and the row after each.
pub open spec fn is_delete_run<'a>(
    run: Seq<V2Delete<'a>>,
    rows: Seq<V2Row>,
    evs: Seq<Ev>,
    f: V2Facts,
    effect: Effect,
) -> bool {
    &&& run.len() == evs.len() + 1
    &&& rows.len() == evs.len()
    &&& evs.len() > 0
    &&& run[0].state is Start
    &&& evs[0] == Ev::Begin
    &&& forall|k: int|
        0 <= k < evs.len() ==> (#[trigger] run[k + 1]) == (V2Delete { state: run[k].next_of(evs[k]).0, ..run[k] })
    &&& forall|k: int|
        0 < k < evs.len() ==> delete_answers(run[0], f, rows[k - 1], run[k - 1].next_of(evs[k - 1]).1, #[trigger] evs[k])
    &&& forall|k: int|
        0 < k < evs.len() ==> #[trigger] rows[k] == after_act(
            effect,
            rows[k - 1],
            run[k - 1].next_of(evs[k - 1]).1,
            evs[k],
        )
}

/// The row as a deletion has to leave it.
pub open spec fn deleted_row(d: V2Delete<'_>, r: V2Row) -> V2Row {
    if d.cl < r.cl() || (d.row.t.skip_hash && d.is_hash_tombstone) {
        r
    } else {
        V2Row { present: false, values: Map::empty(), live: None, tomb: Some(d.cl), clocks: Map::empty() }
    }
}

/// How far a deletion has come with its row.
spec fn delete_on_the_way(d: V2Delete<'_>, f: V2Facts, first: V2Row, r: V2Row, act: Act) -> bool {
    let t = *d.row.t;
    let dead_before = !(d.row.t.skip_hash && d.is_hash_tombstone);
    match d.state {
        DeleteState::Start => r == first,
        DeleteState::State => dead_before && r == first && act == Act::AskState(
            bound(lookup_row_state_sql(t), seq![known_by(d.row), known_by(d.row)]),
        ),
        DeleteState::Ordinal { key, cl } => dead_before && r == first && act == Act::AskOrdinal && d.cl >= cl && cl
            == first.cl() && key == (match first.live { Some((k, _)) => Some(k), None => None }),
        DeleteState::Tombstone { key } => dead_before && d.cl >= first.cl() && r == first && act is Run && key == (
        match first.live { Some((k, _)) => Some(k), None => None }) && (forall|effect: Effect|
            buries(effect, d.row) ==> after_plan(effect, r, act->Run_0) == #[trigger] tombed(effect, first, d.cl)),
        DeleteState::Pks { live } => dead_before && d.cl >= first.cl() && first.live is Some && live
            == first.live.unwrap().0 && r == (V2Row { tomb: Some(d.cl), ..first }) && act == Act::AskPks(
            bound(pk_lookup_by_key_sql(t), seq![Val::Integer(live)]),
        ),
        DeleteState::Bury => dead_before && d.cl >= first.cl() && first.live is Some && r == (V2Row {
            tomb: Some(d.cl),
            ..first
        }) && act is Run && (forall|effect: Effect|
            buries(effect, d.row) && removes(effect, d.row, f) ==> after_plan(effect, r, act->Run_0)
                == #[trigger] gone(effect, d.cl)),
        DeleteState::Over => act == Act::Finish && r == deleted_row(d, first),
    }
}

/// The row with a tombstone.
spec fn tombed(effect: Effect, first: V2Row, cl: i64) -> V2Row {
    V2Row { tomb: Some(cl), ..first }
}

/// The row once only its tombstone is left.
spec fn gone(effect: Effect, cl: i64) -> V2Row {
    V2Row { present: false, values: Map::empty(), live: None, tomb: Some(cl), clocks: Map::empty() }
}

proof fn lemma_merge_tomb(d: V2Delete<'_>, f: V2Facts, first: V2Row, ordinal: i64)
    requires
        first.wf(),
        d.cl >= first.cl(),
        !(d.row.t.skip_hash && d.is_hash_tombstone),
    ensures
        ({
            let key = match first.live { Some((k, _)) => Some(k), None => None };
            let next = d.merge(key, first.cl(), ordinal);
            delete_on_the_way(V2Delete { state: next.0, ..d }, f, first, first, next.1)
        }),
{
    let key = match first.live { Some((k, _)) => Some(k), None => None };
    let next = d.merge(key, first.cl(), ordinal);
    let plan = next.1->Run_0;
    assert forall|effect: Effect| buries(effect, d.row) implies after_plan(effect, first, plan) == #[trigger] tombed(
        effect,
        first,
        d.cl,
    ) by {
        let none: Seq<Sql> = seq![];
        lemma_after_push(effect, first, none, plan[0]);
        assert(plan =~= none.push(plan[0]));
    }
}

proof fn lemma_delete_step(effect: Effect, d: V2Delete<'_>, f: V2Facts, first: V2Row, r: V2Row, act: Act, ev: Ev)
    requires
        first.wf(),
        removes(effect, d.row, f),
        buries(effect, d.row),
        delete_on_the_way(d, f, first, r, act),
        !(d.state is Over),
        d.state is Start ==> ev == Ev::Begin && act == Act::Finish,
        !(d.state is Start) ==> delete_answers(d, f, r, act, ev),
    ensures
        ({
            let next = d.next_of(ev);
            delete_on_the_way(V2Delete { state: next.0, ..d }, f, first, after_act(effect, r, act, ev), next.1)
        }),
        !(d.next_of(ev).0 is Start),
{
    let t = *d.row.t;
    let next = d.next_of(ev);
    match d.state {
        DeleteState::Start => {
            assert(d.row.state_sql().binds =~= seq![known_by(d.row), known_by(d.row)]);
        },
        DeleteState::State => {
            if d.cl >= first.cl() {
                lemma_merge_tomb(d, f, first, 0);
            }
        },
        DeleteState::Ordinal { key, cl } => {
            lemma_merge_tomb(d, f, first, f.ordinal);
        },
        DeleteState::Tombstone { key } => {
            assert(after_plan(effect, r, act->Run_0) == tombed(effect, first, d.cl));
        },
        DeleteState::Pks { live } => {
            let plan = next.1->Run_0;
            assert forall|e: Effect| buries(e, d.row) && removes(e, d.row, f) implies after_plan(e, r, plan)
                == #[trigger] gone(e, d.cl) by {
                lemma_bury(e, d.row, f, r, live);
            }
        },
        DeleteState::Bury => {
            assert(after_plan(effect, r, act->Run_0) == gone(effect, d.cl));
        },
        _ => {},
    }
}

proof fn lemma_bury(effect: Effect, row: RowRef<'_>, f: V2Facts, r: V2Row, key: i64)
    requires
        buries(effect, row),
        removes(effect, row, f),
        r.live is Some,
        key == r.live.unwrap().0,
    ensures
        after_plan(effect, r, crate::changes_vtab_write::bury_plan(*row.t, key, f.pks, row.hashed_pk@)) == (V2Row {
            present: false,
            values: Map::empty(),
            live: None,
            clocks: Map::empty(),
            ..r
        }),
{
    let t = *row.t;
    let nuke = crate::changes_vtab_write::nuke_row_plan(t, key, f.pks);
    let plan = crate::changes_vtab_write::bury_plan(t, key, f.pks, row.hashed_pk@);
    lemma_nuke(effect, row, f, r, f.pks);
    if !t.skip_hash && f.pks.len() > 0 {
        let keep = plan[0];
        let none: Seq<Sql> = seq![];
        lemma_after_push(effect, r, none, keep);
        lemma_after_push(effect, r, none.push(keep), nuke[0]);
        lemma_after_push(effect, r, none.push(keep).push(nuke[0]), nuke[1]);
        lemma_after_push(effect, r, none.push(keep).push(nuke[0]).push(nuke[1]), nuke[2]);
        assert(plan =~= none.push(keep).push(nuke[0]).push(nuke[1]).push(nuke[2]));
        lemma_after_push(effect, r, none, nuke[0]);
        lemma_after_push(effect, r, none.push(nuke[0]), nuke[1]);
        lemma_after_push(effect, r, none.push(nuke[0]).push(nuke[1]), nuke[2]);
        assert(nuke =~= none.push(nuke[0]).push(nuke[1]).push(nuke[2]));
    } else {
        assert(plan =~= nuke);
    }
}

proof fn lemma_delete_run<'a>(
    run: Seq<V2Delete<'a>>,
    rows: Seq<V2Row>,
    evs: Seq<Ev>,
    f: V2Facts,
    effect: Effect,
    k: int,
)
    requires
        is_delete_run(run, rows, evs, f, effect),
        rows[0].wf(),
        removes(effect, run[0].row, f),
        buries(effect, run[0].row),
        0 < k < run.len(),
        forall|j: int| 0 <= j < k ==> !((#[trigger] run[j]).state is Over),
    ensures
        run[k] == (V2Delete { state: run[k].state, ..run[0] }),
        delete_on_the_way(run[k], f, rows[0], rows[k - 1], run[k - 1].next_of(evs[k - 1]).1),
        !(run[k].state is Start),
    decreases k,
{
    let d = run[k - 1];
    assert(run[k - 1 + 1] == (V2Delete { state: d.next_of(evs[k - 1]).0, ..d }));
    if k > 1 {
        lemma_delete_run(run, rows, evs, f, effect, k - 1);
        let act = run[k - 2].next_of(evs[k - 2]).1;
        assert(delete_answers(run[0], f, rows[k - 1 - 1], run[k - 1 - 1].next_of(evs[k - 1 - 1]).1, evs[k - 1]));
        assert(rows[k - 1] == after_act(effect, rows[k - 1 - 1], act, evs[k - 1]));
        lemma_delete_step(effect, d, f, rows[0], rows[k - 2], act, evs[k - 1]);
    } else {
        lemma_delete_step(effect, d, f, rows[0], rows[0], Act::Finish, evs[0]);
    }
}

/// A deletion in the second format does to its row what the order of lives asks for, and does not
/// fail, where the database answers as it has to and the statements do what they say: one from an
/// older life leaves the row as it is, and so does one that knows its row by a hash, where rows are
/// known by their primary keys; any other leaves a tombstone at its causal length, and nothing else
/// of the row.
pub proof fn deletion_leaves_a_tombstone<'a>(
    run: Seq<V2Delete<'a>>,
    rows: Seq<V2Row>,
    evs: Seq<Ev>,
    f: V2Facts,
    effect: Effect,
)
    requires
        is_delete_run(run, rows, evs, f, effect),
        rows[0].wf(),
        removes(effect, run[0].row, f),
        buries(effect, run[0].row),
        forall|k: int| 0 <= k < run.len() - 1 ==> !((#[trigger] run[k]).state is Over),
        run.last().state is Over,
    ensures
        run[run.len() - 2].next_of(evs.last()).1 == Act::Finish,
        rows.last() == deleted_row(run[0], rows[0]),
        rows.last().wf() || run[0].cl <= 0,
{
    lemma_delete_run(run, rows, evs, f, effect, run.len() - 1);
}

// ---------------------------------------------------------------------------
// Cells
// ---------------------------------------------------------------------------
/// The statements that create a row, and write its cells, do what they say.
pub open spec fn creates(effect: Effect, c: V2Cells<'_>, f: V2Facts) -> bool {
    let t = *c.row.t;
    let pks = vals(c.row.pks@);
    let hash = if t.skip_hash { Seq::<Val>::empty() } else { seq![Val::Blob(c.row.hashed_pk@)] };
    &&& forall|r: V2Row, ev: Ev| #[trigger]
        effect(r, unnoticed(base_insert_sql(t), pks), ev) == (V2Row { present: true, ..r })
    &&& forall|r: V2Row, binds: Seq<Val>, key: i64|
        binds == (if t.key_is_rowid { seq![Val::Integer(f.rowid)] } else { pks }) + hash + seq![Val::Integer(c.cl)]
            ==> #[trigger] effect(r, bound(table_pks_insert_sql(t), binds), Ev::Int(Stepped::Row(key))) == (V2Row {
            live: Some((key, c.cl)),
            ..r
        })
    &&& forall|r: V2Row, binds: Seq<Val>, ev: Ev|
        r.live is Some && binds == seq![
            Val::Integer(r.live.unwrap().0 << 12u32),
            Val::Integer(f.ordinal),
            Val::Integer(c.db_vrsn),
        ] ==> #[trigger] effect(r, bound(clock_zero_fill_sql(t), binds), ev) == (V2Row { clocks: filled(f), ..r })
    &&& forall|r: V2Row, binds: Seq<Val>, ev: Ev| #[trigger] effect(r, bound(col_id_lookup_sql(t), binds), ev) == r
    &&& forall|r: V2Row, i: int, binds: Seq<Val>, ev: Ev|
        is_clock_of(c, f, r, i, binds) ==> #[trigger] effect(
            r,
            bound(clock_merge_upsert_sql(t, c.cells@[i].col_name@), binds),
            ev,
        ) == (if ev matches Ev::Int(Stepped::Row(_)) {
            V2Row { clocks: r.clocks.insert(f.ids[c.cells@[i].col_name@], (c.cells@[i].col_vrsn, f.ordinal)), ..r }
        } else {
            r
        })
    &&& forall|r: V2Row, name: Seq<char>, ev: Ev, binds: Seq<Val>|
        r.live is Some && binds == seq![binds[0]] + found_by(t, r.live.unwrap().0, pks) ==> #[trigger] effect(
            r,
            unnoticed(base_update_sql(t, name), binds),
            ev,
        ) == (V2Row { values: r.values.insert(name, binds[0]), ..r })
}

/// Whether parameters are those with which the clock of cell `i` of a change is merged.
pub open spec fn is_clock_of(c: V2Cells<'_>, f: V2Facts, r: V2Row, i: int, binds: Seq<Val>) -> bool {
    let cell = c.cells@[i];
    &&& 0 <= i < c.cells@.len()
    &&& r.live is Some
    &&& f.ids.contains_key(cell.col_name@)
    &&& binds.len() >= 9
    &&& binds[0] == Val::Integer(cell_of(r.live.unwrap().0, f.ids[cell.col_name@]))
    &&& binds[1] == Val::Integer(cell.col_vrsn)
    &&& binds[2] == Val::Integer(f.ordinal)
    &&& binds[3] == Val::Integer(c.db_vrsn)
    &&& binds[4] == Val::Integer(cell.seq)
    &&& binds[5] == Val::Integer(c.ts)
    &&& binds[6] == cell.val@
    &&& binds[binds.len() - 2] == Val::Blob(c.site_id@)
    &&& binds[binds.len() - 1] == Val::Integer(c.merge_equal as i64)
}

/// Whether a write to the column `name` wins in a row: where its cell has no clock, by its version,
/// or else by its value and its site.
pub open spec fn cell_wins(f: V2Facts, r: V2Row, name: Seq<char>, version: i64) -> bool {
    let id = f.ids[name];
    ||| !r.clocks.contains_key(id)
    ||| version > r.clocks[id].0
    ||| version == r.clocks[id].0 && f.ties.contains(name)
}

/// Whether an event is what the database answers to an action.
pub open spec fn cells_answers(c: V2Cells<'_>, f: V2Facts, r: V2Row, act: Act, ev: Ev) -> bool {
    let t = *c.row.t;
    &&& act == Act::AskState(bound(lookup_row_state_sql(t), seq![known_by(c.row), known_by(c.row)])) ==> ev
        == Ev::State(r.found())
    &&& act == Act::AskOrdinal ==> ev == Ev::Int(Stepped::Row(f.ordinal))
    &&& act == Act::AskRowid ==> ev == Ev::Int(Stepped::Row(f.rowid))
    &&& act matches Act::AskInt(sql) ==> (sql.sql == table_pks_insert_sql(t) ==> ev == Ev::Int(
        Stepped::Row(f.new_key),
    ))
    &&& forall|i: int|
        0 <= i < c.cells@.len() && act == Act::AskInt(
            bound(col_id_lookup_sql(t), seq![Val::Text(#[trigger] c.cells@[i].col_name@)]),
        ) ==> ev == Ev::Int(
            if f.ids.contains_key(c.cells@[i].col_name@) {
                Stepped::Row(f.ids[c.cells@[i].col_name@])
            } else {
                Stepped::Done
            },
        )
    &&& forall|i: int, binds: Seq<Val>|
        is_clock_of(c, f, r, i, binds) && act == Act::AskInt(
            #[trigger] bound(clock_merge_upsert_sql(t, c.cells@[i].col_name@), binds),
        ) ==> if cell_wins(f, r, c.cells@[i].col_name@, c.cells@[i].col_vrsn) {
            ev matches Ev::Int(Stepped::Row(_))
        } else {
            ev == Ev::Int(Stepped::Done)
        }
    &&& act is Run ==> ev == Ev::Ran
}

/// What is known of the columns fits the table: a column that has an id is one of the table.
pub open spec fn cells_ok(c: V2Cells<'_>, f: V2Facts) -> bool {
    &&& forall|i: int|
        0 <= i < c.cells@.len() && f.ids.contains_key(#[trigger] c.cells@[i].col_name@)
            ==> c.row.t.non_pk_col(c.cells@[i].col_name@) is Some
    &&& c.cl > 0
    &&& c.site_id@.len() == 0 ==> f.ordinal == 0
    &&& f.pks == vals(c.row.pks@)
}

/// The row once a cell was merged.
pub open spec fn with_cell(f: V2Facts, r: V2Row, cell: CellView) -> V2Row {
    if f.ids.contains_key(cell.col_name) && cell_wins(f, r, cell.col_name, cell.col_vrsn) {
        V2Row {
            clocks: r.clocks.insert(f.ids[cell.col_name], (cell.col_vrsn, f.ordinal)),
            values: r.values.insert(cell.col_name, cell.val),
            ..r
        }
    } else {
        r
    }
}

/// The row once the first `n` cells of a change were merged, one after the other.
pub open spec fn with_cells(cells: Seq<CellWrite>, f: V2Facts, r: V2Row, n: int) -> V2Row
    decreases n,
{
    if n <= 0 {
        r
    } else {
        with_cell(f, with_cells(cells, f, r, n - 1), cells[n - 1]@)
    }
}

/// The row at the life of a change: as it is where it is in that life, else made anew.
pub open spec fn in_life(cl: i64, f: V2Facts, r: V2Row) -> V2Row {
    if cl == r.cl() {
        r
    } else {
        V2Row {
            present: true,
            values: Map::empty(),
            live: Some((f.new_key, cl)),
            tomb: None,
            clocks: filled(f),
        }
    }
}

/// The row as the merge of a change has to leave it.
pub open spec fn written_row(c: V2Cells<'_>, f: V2Facts, r: V2Row) -> V2Row {
    if c.cl < r.cl() {
        r
    } else {
        with_cells(c.cells@, f, in_life(c.cl, f, r), c.cells@.len() as int)
    }
}

/// A merge from its start, with what came of each of its actions, and the row after each.
pub open spec fn is_cells_run<'a>(
    run: Seq<V2Cells<'a>>,
    rows: Seq<V2Row>,
    evs: Seq<Ev>,
    f: V2Facts,
    effect: Effect,
) -> bool {
    &&& run.len() == evs.len() + 1
    &&& rows.len() == evs.len()
    &&& evs.len() > 0
    &&& run[0].state is Start
    &&& evs[0] == Ev::Begin
    &&& forall|k: int|
        0 <= k < evs.len() ==> (#[trigger] run[k + 1]) == (V2Cells { state: run[k].next_of(evs[k]).0, ..run[k] })
    &&& forall|k: int|
        0 < k < evs.len() ==> cells_answers(run[0], f, rows[k - 1], run[k - 1].next_of(evs[k - 1]).1, #[trigger] evs[k])
    &&& forall|k: int|
        0 < k < evs.len() ==> #[trigger] rows[k] == after_act(
            effect,
            rows[k - 1],
            run[k - 1].next_of(evs[k - 1]).1,
            evs[k],
        )
}

/// The row that is being merged into, once `n` cells were.
spec fn so_far(c: V2Cells<'_>, f: V2Facts, first: V2Row, n: int) -> V2Row {
    with_cells(c.cells@, f, in_life(c.cl, f, first), n)
}

/// Merging cells leaves the life of the row as it is.
proof fn lemma_live_stays(cells: Seq<CellWrite>, f: V2Facts, r: V2Row, n: int)
    ensures
        with_cells(cells, f, r, n).live == r.live,
    decreases n,
{
    if n > 0 {
        lemma_live_stays(cells, f, r, n - 1);
    }
}

/// The row without what there was of an older life, but in its table.
spec fn bare(first: V2Row) -> V2Row {
    V2Row { present: true, values: Map::empty(), live: None, tomb: None, clocks: Map::empty() }
}

/// How far a merge has come with its row.
spec fn cells_on_the_way(effect: Effect, c: V2Cells<'_>, f: V2Facts, first: V2Row, r: V2Row, act: Act) -> bool {
    let t = *c.row.t;
    let pks = vals(c.row.pks@);
    let base = in_life(c.cl, f, first);
    let n = c.cells@.len();
    match c.state {
        CellsState::Start => r == first,
        CellsState::Ordinal => r == first && act == Act::AskOrdinal,
        CellsState::State { ordinal } => r == first && ordinal == f.ordinal && act == Act::AskState(
            bound(lookup_row_state_sql(t), seq![known_by(c.row), known_by(c.row)]),
        ),
        CellsState::NewRow { ordinal } => ordinal == f.ordinal && c.cl > first.cl() && act is Run && after_plan(
            effect,
            r,
            act->Run_0,
        ) == bare(first),
        CellsState::Rowid { ordinal } => ordinal == f.ordinal && c.cl > first.cl() && r == bare(first) && act
            == Act::AskRowid,
        CellsState::NewKey { ordinal } => ordinal == f.ordinal && c.cl > first.cl() && r == bare(first) && act
            == Act::AskInt(c.row.new_key_sql(f.rowid, c.cl)),
        CellsState::Fill { ordinal, key } => ordinal == f.ordinal && c.cl > first.cl() && key == f.new_key && act is Run
            && after_plan(effect, r, act->Run_0) == base,
        CellsState::ColId { ordinal, key, i } => ordinal == f.ordinal && c.cl >= first.cl() && i < n && r == so_far(
            c,
            f,
            first,
            i as int,
        ) && base.live is Some && key == base.live.unwrap().0 && act == Act::AskInt(
            bound(col_id_lookup_sql(t), seq![Val::Text(c.cells@[i as int].col_name@)]),
        ),
        CellsState::Clock { ordinal, key, i } => ordinal == f.ordinal && c.cl >= first.cl() && i < n && r == so_far(
            c,
            f,
            first,
            i as int,
        ) && base.live is Some && key == base.live.unwrap().0 && f.ids.contains_key(c.cells@[i as int].col_name@)
            && exists|binds: Seq<Val>|
            is_clock_of(c, f, r, i as int, binds) && act == Act::AskInt(
                #[trigger] bound(clock_merge_upsert_sql(t, c.cells@[i as int].col_name@), binds),
            ),
        CellsState::Write { ordinal, key, i } => ordinal == f.ordinal && c.cl >= first.cl() && i < n && base.live is Some
            && key == base.live.unwrap().0 && act is Run && after_plan(effect, r, act->Run_0) == so_far(
            c,
            f,
            first,
            i + 1,
        ),
        CellsState::Over => act == Act::Finish && r == written_row(c, f, first),
    }
}

/// Going on with a cell.
proof fn lemma_next_cell(effect: Effect, c: V2Cells<'_>, f: V2Facts, first: V2Row, i: int, key: i64)
    requires
        0 <= i <= c.cells@.len() <= usize::MAX,
        c.cl >= first.cl(),
        in_life(c.cl, f, first).live is Some,
        key == in_life(c.cl, f, first).live.unwrap().0,
    ensures
        ({
            let next = c.cell(f.ordinal, key, i);
            cells_on_the_way(effect, V2Cells { state: next.0, ..c }, f, first, so_far(c, f, first, i), next.1)
        }),
        !(c.cell(f.ordinal, key, i).0 is Start),
{
}

/// Making room for a row, and inserting it.
proof fn lemma_new_row(effect: Effect, c: V2Cells<'_>, f: V2Facts, first: V2Row)
    requires
        first.wf(),
        cells_ok(c, f),
        creates(effect, c, f),
        removes(effect, c.row, f),
        buries(effect, c.row),
        c.cl > first.cl(),
    ensures
        after_plan(
            effect,
            first,
            new_row_plan(*c.row.t, c.alive_step(first.found()), vals(c.row.pks@), c.row.hashed_pk@),
        ) == bare(first),
        !(c.alive_step(first.found()) is Stale),
        !(c.alive_step(first.found()) is There),
{
    let t = *c.row.t;
    let pks = vals(c.row.pks@);
    let insert = unnoticed(base_insert_sql(t), pks);
    let none: Seq<Sql> = seq![];
    match c.alive_step(first.found()) {
        AliveStep::Replace(key) => {
            let nuke = crate::changes_vtab_write::nuke_row_plan(t, key, pks);
            lemma_nuke(effect, c.row, f, first, pks);
            lemma_after_push(effect, first, nuke, insert);
        },
        AliveStep::Revive => {
            let plan = crate::changes_vtab_write::nuke_tombstone_plan(t, pks, c.row.hashed_pk@);
            assert(plan[0].binds =~= seq![known_by(c.row)]);
            lemma_after_push(effect, first, none, plan[0]);
            if t.skip_hash {
                assert(plan =~= none.push(plan[0]));
            } else {
                lemma_after_push(effect, first, none.push(plan[0]), plan[1]);
                assert(plan =~= none.push(plan[0]).push(plan[1]));
            }
            lemma_after_push(effect, first, plan, insert);
        },
        AliveStep::Create => {
            lemma_after_push(effect, first, none, insert);
            assert(seq![insert] =~= none.push(insert));
        },
        _ => {},
    }
}

proof fn lemma_cells_step(effect: Effect, c: V2Cells<'_>, f: V2Facts, first: V2Row, r: V2Row, act: Act, ev: Ev)
    requires
        first.wf(),
        c.cells@.len() <= usize::MAX,
        cells_ok(c, f),
        creates(effect, c, f),
        removes(effect, c.row, f),
        buries(effect, c.row),
        cells_on_the_way(effect, c, f, first, r, act),
        !(c.state is Over),
        c.cl == first.cl() ==> first.live is Some,
        c.state is Start ==> ev == Ev::Begin && act == Act::Finish,
        !(c.state is Start) ==> cells_answers(c, f, r, act, ev),
    ensures
        ({
            let next = c.next_of(ev);
            cells_on_the_way(effect, V2Cells { state: next.0, ..c }, f, first, after_act(effect, r, act, ev), next.1)
        }),
        !(c.next_of(ev).0 is Start),
{
    let t = *c.row.t;
    let pks = vals(c.row.pks@);
    let next = c.next_of(ev);
    let none: Seq<Sql> = seq![];
    match c.state {
        CellsState::Start => {
            assert(c.row.state_sql().binds =~= seq![known_by(c.row), known_by(c.row)]);
        },
        CellsState::Ordinal => {
            assert(c.row.state_sql().binds =~= seq![known_by(c.row), known_by(c.row)]);
        },
        CellsState::State { ordinal } => {
            if c.cl > first.cl() {
                lemma_new_row(effect, c, f, first);
            } else if c.cl == first.cl() {
                lemma_next_cell(effect, c, f, first, 0, first.live.unwrap().0);
            }
        },
        CellsState::NewRow { ordinal } => {},
        CellsState::Rowid { ordinal } => {},
        CellsState::NewKey { ordinal } => {
            let sql = c.row.new_key_sql(f.rowid, c.cl);
            let hash = if t.skip_hash { Seq::<Val>::empty() } else { seq![Val::Blob(c.row.hashed_pk@)] };
            assert(sql.binds =~= (if t.key_is_rowid { seq![Val::Integer(f.rowid)] } else { pks }) + hash + seq![
                Val::Integer(c.cl),
            ]);
            assert(ev == Ev::Int(Stepped::Row(f.new_key)));
            let now = after_act(effect, r, act, ev);
            assert(now == (V2Row { live: Some((f.new_key, c.cl)), ..bare(first) }));
            let plan = next.1->Run_0;
            lemma_after_push(effect, now, none, plan[0]);
            assert(plan =~= none.push(plan[0]));
            assert(plan[0].binds =~= seq![
                Val::Integer(f.new_key << 12u32),
                Val::Integer(f.ordinal),
                Val::Integer(c.db_vrsn),
            ]);
        },
        CellsState::Fill { ordinal, key } => {
            lemma_next_cell(effect, c, f, first, 0, key);
        },
        CellsState::ColId { ordinal, key, i } => {
            let name = c.cells@[i as int].col_name@;
            lemma_live_stays(c.cells@, f, in_life(c.cl, f, first), i as int);
            assert(after_act(effect, r, act, ev) == r);
            if f.ids.contains_key(name) {
                let sql = next.1->AskInt_0;
                assert(next.0 == (CellsState::Clock { ordinal, key, i }));
                assert(is_clock_of(c, f, r, i as int, sql.binds));
                assert(next.1 == Act::AskInt(bound(clock_merge_upsert_sql(t, name), sql.binds)));
            } else {
                lemma_next_cell(effect, c, f, first, i + 1, key);
            }
        },
        CellsState::Clock { ordinal, key, i } => {
            let cell = c.cells@[i as int];
            let name = cell.col_name@;
            let binds = choose|binds: Seq<Val>|
                is_clock_of(c, f, r, i as int, binds) && act == Act::AskInt(
                    #[trigger] bound(clock_merge_upsert_sql(t, c.cells@[i as int].col_name@), binds),
                );
            lemma_live_stays(c.cells@, f, in_life(c.cl, f, first), i as int);
            let now = after_act(effect, r, act, ev);
            assert(now == effect(r, bound(clock_merge_upsert_sql(t, name), binds), ev));
            if cell_wins(f, r, name, cell.col_vrsn) {
                let plan = next.1->Run_0;
                lemma_after_push(effect, now, none, plan[0]);
                assert(plan =~= none.push(plan[0]));
                assert(plan[0].binds =~= seq![cell.val@] + found_by(t, key, pks));
            } else {
                lemma_next_cell(effect, c, f, first, i + 1, key);
            }
        },
        CellsState::Write { ordinal, key, i } => {
            lemma_next_cell(effect, c, f, first, i + 1, key);
        },
        _ => {},
    }
}

proof fn lemma_cells_run<'a>(
    run: Seq<V2Cells<'a>>,
    rows: Seq<V2Row>,
    evs: Seq<Ev>,
    f: V2Facts,
    effect: Effect,
    k: int,
)
    requires
        is_cells_run(run, rows, evs, f, effect),
        rows[0].wf(),
        run[0].cells@.len() <= usize::MAX,
        cells_ok(run[0], f),
        run[0].cl == rows[0].cl() ==> rows[0].live is Some,
        creates(effect, run[0], f),
        removes(effect, run[0].row, f),
        buries(effect, run[0].row),
        0 < k < run.len(),
        forall|j: int| 0 <= j < k ==> !((#[trigger] run[j]).state is Over),
    ensures
        run[k] == (V2Cells { state: run[k].state, ..run[0] }),
        cells_on_the_way(effect, run[k], f, rows[0], rows[k - 1], run[k - 1].next_of(evs[k - 1]).1),
        !(run[k].state is Start),
    decreases k,
{
    let c = run[k - 1];
    assert(run[k - 1 + 1] == (V2Cells { state: c.next_of(evs[k - 1]).0, ..c }));
    if k > 1 {
        lemma_cells_run(run, rows, evs, f, effect, k - 1);
        let act = run[k - 2].next_of(evs[k - 2]).1;
        assert(cells_answers(run[0], f, rows[k - 1 - 1], run[k - 1 - 1].next_of(evs[k - 1 - 1]).1, evs[k - 1]));
        assert(rows[k - 1] == after_act(effect, rows[k - 1 - 1], act, evs[k - 1]));
        lemma_same_change(effect, run[0], c, f, rows[0], rows[k - 2], act, evs[k - 1]);
        lemma_cells_step(effect, c, f, rows[0], rows[k - 2], act, evs[k - 1]);
    } else {
        lemma_cells_step(effect, c, f, rows[0], rows[0], Act::Finish, evs[0]);
    }
}

/// What is said of a change does not depend on how far its merge has come.
proof fn lemma_same_change<'a>(
    effect: Effect,
    a: V2Cells<'a>,
    b: V2Cells<'a>,
    f: V2Facts,
    first: V2Row,
    r: V2Row,
    act: Act,
    ev: Ev,
)
    requires
        b == (V2Cells { state: b.state, ..a }),
    ensures
        creates(effect, a, f) ==> creates(effect, b, f),
        cells_ok(a, f) ==> cells_ok(b, f),
        cells_answers(a, f, r, act, ev) ==> cells_answers(b, f, r, act, ev),
        written_row(a, f, first) == written_row(b, f, first),
{
    assert forall|row: V2Row, i: int, binds: Seq<Val>| is_clock_of(b, f, row, i, binds) implies is_clock_of(
        a,
        f,
        row,
        i,
        binds,
    ) by {}
}

/// Merging the cells of a change in the second format does to its row what the order of lives and
/// of writes asks for, and does not fail, where the database answers as it has to and the
/// statements do what they say. A change from an older life leaves the row as it is. One from a
/// newer life makes the row anew, in that life, with clocks at version zero and nothing of what was
/// there before. Then every cell of the change has its turn, whatever became of those before it: it
/// is written, with its clock, exactly where it wins over the clock that is there.
pub proof fn merge_writes_all_winners<'a>(
    run: Seq<V2Cells<'a>>,
    rows: Seq<V2Row>,
    evs: Seq<Ev>,
    f: V2Facts,
    effect: Effect,
)
    requires
        is_cells_run(run, rows, evs, f, effect),
        rows[0].wf(),
        run[0].cells@.len() <= usize::MAX,
        cells_ok(run[0], f),
        run[0].cl == rows[0].cl() ==> rows[0].live is Some,
        creates(effect, run[0], f),
        removes(effect, run[0].row, f),
        buries(effect, run[0].row),
        forall|k: int| 0 <= k < run.len() - 1 ==> !((#[trigger] run[k]).state is Over),
        run.last().state is Over,
    ensures
        run[run.len() - 2].next_of(evs.last()).1 == Act::Finish,
        rows.last() == written_row(run[0], f, rows[0]),
{
    let last = run.len() - 1;
    lemma_cells_run(run, rows, evs, f, effect, last);
    lemma_same_change(effect, run[0], run[last], f, rows[0], rows[0], Act::Finish, Ev::Ran);
}

} // verus!
