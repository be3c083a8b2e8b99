//! What merging a change does to a row that has metadata in the first format: the answers of the
//! database decide, and the statements that are run leave the row as it has to be.

use crate::changes_vtab_write::Change;
use crate::consts::{DELETE_SENTINEL, INSERT_SENTINEL};
use crate::converge::{RowChange, RowClock};
use crate::merge_order::{bytes_gt, Write};
use crate::merge_v1::{V1Merge, V1State};
use crate::pack_columns::{vals, Val};
use crate::result_code::Stepped;
use crate::statement::{bound, unnoticed, Sql};
use crate::steps::{Act, Ev};
use crate::tableinfo::TableInfo;
use vstd::prelude::*;
use vstd::string::*;

verus! {

/// A row, and its metadata in the first format.
pub struct V1Row {
    /// Whether the row is in its table.
    pub present: bool,
    /// What the cells hold that were written.
    pub values: Map<Seq<char>, Val>,
    /// The version of the sentinel, where there is one.
    pub sentinel: Option<i64>,
    /// The versions of the cells that have clocks, and the numbers of the sites that wrote them.
    pub clocks: Map<Seq<char>, (i64, Val)>,
}

/// What the statements on a row do.
pub type Effect = spec_fn(V1Row, Sql) -> V1Row;

/// The cells of a row count for nothing: their clocks are at version zero.
pub open spec fn zeroed(clocks: Map<Seq<char>, (i64, Val)>) -> Map<Seq<char>, (i64, Val)> {
    clocks.map_values(|c: (i64, Val)| (0i64, c.1))
}

/// The statements on a row of a table do what they say.
pub open spec fn does_as_told(effect: Effect, t: TableInfo, key: i64, pks: Seq<Val>) -> bool {
    &&& forall|r: V1Row, binds: Seq<Val>|
        binds.len() == 7 && binds[0] == Val::Integer(key) && binds[1] is Text && binds[2] is Integer
            ==> #[trigger] effect(r, bound(t.set_winner_clock_sql(), binds)) == (if binds[1] == Val::Text("-1"@) {
            V1Row { sentinel: Some(binds[2]->Integer_0), ..r }
        } else {
            V1Row { clocks: r.clocks.insert(binds[1]->Text_0, (binds[2]->Integer_0, binds[5])), ..r }
        })
    &&& forall|r: V1Row| #[trigger] effect(r, unnoticed(t.merge_delete_sql(), pks)) == (V1Row {
            present: false,
            values: Map::empty(),
            ..r
        })
    &&& forall|r: V1Row, binds: Seq<Val>|
        binds == seq![Val::Integer(key)] ==> #[trigger] effect(r, bound(t.merge_delete_drop_clocks_sql(), binds))
            == (V1Row { clocks: Map::empty(), ..r })
    &&& forall|r: V1Row| #[trigger] effect(r, unnoticed(t.merge_pk_only_insert_sql(), pks)) == (V1Row {
            present: true,
            ..r
        })
    &&& forall|r: V1Row, binds: Seq<Val>|
        binds == seq![Val::Integer(key)] ==> #[trigger] effect(r, bound(t.zero_clocks_on_resurrect_sql(), binds))
            == (V1Row { clocks: zeroed(r.clocks), ..r })
    &&& forall|r: V1Row, i: int, new: Val, set: Val|
        0 <= i < t.non_pks@.len() ==> #[trigger] effect(
            r,
            unnoticed(t.non_pks@[i].merge_insert_sql(t), pks.push(new).push(set)),
        ) == (V1Row {
            present: true,
            values: r.values.insert(t.non_pks@[i].name@, if r.present { set } else { new }),
            ..r
        })
}

/// The row once the statements of a plan were run, one after the other.
pub open spec fn after_plan(effect: Effect, r: V1Row, plan: Seq<Sql>) -> V1Row
    decreases plan.len(),
{
    if plan.len() == 0 {
        r
    } else {
        effect(after_plan(effect, r, plan.drop_last()), plan.last())
    }
}

/// The row once an action was performed.
pub open spec fn after_act(effect: Effect, r: V1Row, act: Act) -> V1Row {
    match act {
        Act::Run(plan, _) => after_plan(effect, r, plan),
        _ => r,
    }
}

/// What the database knows of the row that a change is about.
pub struct V1Facts {
    /// The key of the row, which it gets where it has none.
    pub key: i64,
    /// The causal length of the row, 0 where it is not known.
    pub cl: i64,
    pub row: V1Row,
    /// How the value of the change compares with the one that its cell holds.
    pub order: i32,
    /// The site that last wrote the cell, or deleted the row.
    pub site: Seq<u8>,
    /// The number of the site of the change.
    pub ordinal: i64,
}

/// Whether an event is what the database answers to an action.
pub open spec fn answers(m: V1Merge<'_>, f: V1Facts, act: Act, ev: Ev) -> bool {
    let t = *m.t;
    let cell = seq![Val::Integer(f.key), Val::Text(m.c.cid@)];
    &&& act == Act::AskInt(bound(t.select_key_sql(), vals(m.pks@))) ==> ev == Ev::Int(Stepped::Row(f.key)) || ev
        == Ev::Int(Stepped::Done)
    &&& act == Act::AskInt(bound(t.insert_key_sql(), vals(m.pks@))) ==> ev == Ev::Int(Stepped::Row(f.key))
    &&& act == Act::AskInt(bound(t.local_cl_sql(), seq![Val::Integer(f.key), Val::Integer(f.key)])) ==> ev
        == Ev::Int(Stepped::Row(f.cl)) || (f.cl == 0 && ev == Ev::Int(Stepped::Done))
    &&& act == Act::AskInt(bound(t.col_version_sql(), cell)) ==> ev == Ev::Int(
        if f.row.clocks.contains_key(m.c.cid@) {
            Stepped::Row(f.row.clocks[m.c.cid@].0)
        } else {
            Stepped::Done
        },
    )
    &&& forall|i: int|
        0 <= i < t.non_pks@.len() && t.non_pks@[i].name@ == m.c.cid@ && act == Act::AskOrder(
            bound(#[trigger] t.non_pks@[i].curr_value_sql(t), vals(m.pks@)),
        ) ==> ev == Ev::Order(Some(f.order))
    &&& act == Act::AskSite(bound(t.col_site_id_sql(), cell)) ==> ev == Ev::Site(Some(f.site))
    &&& act == Act::AskOrdinal ==> ev == Ev::Int(Stepped::Row(f.ordinal))
    &&& act is Run ==> ev == Ev::Ran
}

/// A merge from its start, with what came of each of its actions, and the row after each.
pub open spec fn is_v1_run<'a>(
    run: Seq<V1Merge<'a>>,
    rows: Seq<V1Row>,
    evs: Seq<Ev>,
    f: V1Facts,
    effect: Effect,
) -> bool {
    &&& run.len() == evs.len() + 1
    &&& rows.len() == run.len()
    &&& evs.len() > 0
    &&& run[0].state is Start
    &&& rows[0] == f.row
    &&& evs[0] == Ev::Begin
    &&& forall|k: int|
        0 <= k < evs.len() ==> (#[trigger] run[k + 1]) == (V1Merge { state: run[k].next_of(evs[k]).0, ..run[k] })
    &&& forall|k: int|
        0 <= k < evs.len() ==> (#[trigger] rows[k + 1]) == after_act(effect, rows[k], run[k].next_of(evs[k]).1)
    &&& forall|k: int|
        0 < k < evs.len() ==> answers(run[0], f, run[k - 1].next_of(evs[k - 1]).1, #[trigger] evs[k])
}

/// What is known of the row fits together: what is cached is so, and the cell that is written is
/// a column of the table.
pub open spec fn facts_ok(m: V1Merge<'_>, f: V1Facts) -> bool {
    &&& f.cl >= 0
    &&& m.t.cl_cache@.contains_key(f.key) ==> m.t.cl_cache@[f.key] == f.cl
    &&& m.c.cl >= 1
    &&& m.c.cid@ != "-1"@ ==> m.t.non_pk_col(m.c.cid@) is Some
}

/// Whether a write to a cell that has a clock wins: by its version, then by its value, and then,
/// where equal values are told apart, by its site.
pub open spec fn beats(m: V1Merge<'_>, f: V1Facts) -> bool {
    let version = f.row.clocks[m.c.cid@].0;
    ||| m.c.col_vrsn > version
    ||| m.c.col_vrsn == version && f.order > 0
    ||| m.c.col_vrsn == version && f.order == 0 && m.merge_equal == 1 && bytes_gt(m.c.site_id@, f.site)
}

/// The number that a clock has for the site of the change.
pub open spec fn site_of(c: Change, ordinal: i64) -> Val {
    if c.site_id@.len() > 0 {
        Val::Integer(ordinal)
    } else {
        Val::Null
    }
}

/// The row as a merge has to leave it.
pub open spec fn merged_row(m: V1Merge<'_>, f: V1Facts) -> V1Row {
    let c = *m.c;
    let r = f.row;
    let site = site_of(c, f.ordinal);
    let whole = c.cid@ == "-1"@;
    let written = V1Row {
        present: true,
        values: r.values.insert(c.cid@, c.val@),
        clocks: r.clocks.insert(c.cid@, (c.col_vrsn, site)),
        ..r
    };
    if c.cl < f.cl {
        r
    } else if c.cl % 2 == 0 {
        if c.cl > f.cl {
            V1Row { present: false, values: Map::empty(), sentinel: Some(c.col_vrsn), clocks: Map::empty() }
        } else if m.merge_equal == 1 && bytes_gt(c.site_id@, f.site) {
            if whole {
                V1Row { sentinel: Some(c.col_vrsn), ..r }
            } else {
                V1Row { clocks: r.clocks.insert(c.cid@, (c.col_vrsn, site)), ..r }
            }
        } else {
            r
        }
    } else if whole {
        if c.cl > f.cl {
            V1Row { present: true, sentinel: Some(c.col_vrsn), clocks: zeroed(r.clocks), ..r }
        } else {
            r
        }
    } else if c.cl > f.cl && (f.cl > 0 || c.cl > 1) {
        V1Row { sentinel: Some(c.cl), clocks: zeroed(r.clocks).insert(c.cid@, (c.col_vrsn, site)), ..written }
    } else if c.cl > f.cl || !r.clocks.contains_key(c.cid@) || beats(m, f) {
        written
    } else {
        r
    }
}

/// How far a merge has come with its row.
spec fn on_the_way(m: V1Merge<'_>, f: V1Facts, r: V1Row, act: Act) -> bool {
    let c = *m.c;
    let cell = seq![Val::Integer(f.key), Val::Text(c.cid@)];
    let t = *m.t;
    let compared = c.cl == f.cl && c.cl % 2 == 1 && c.cid@ != "-1"@;
    match m.state {
        V1State::Start => r == f.row,
        V1State::Key => r == f.row && act == Act::AskInt(bound(t.select_key_sql(), vals(m.pks@))),
        V1State::NewKey => r == f.row && act == Act::AskInt(bound(t.insert_key_sql(), vals(m.pks@))),
        V1State::Cl { key } => r == f.row && key == f.key && act == Act::AskInt(
            bound(t.local_cl_sql(), seq![Val::Integer(f.key), Val::Integer(f.key)]),
        ),
        V1State::Version { key, cl } => r == f.row && key == f.key && cl == f.cl && compared && act == Act::AskInt(
            bound(t.col_version_sql(), cell),
        ),
        V1State::Value { key, cl } => r == f.row && key == f.key && cl == f.cl && compared
            && f.row.clocks.contains_key(c.cid@) && c.col_vrsn == f.row.clocks[c.cid@].0 && act == Act::AskOrder(
            bound(t.non_pks@[t.non_pk_col(c.cid@).unwrap()].curr_value_sql(t), vals(m.pks@)),
        ),
        V1State::Site { key, cl } => r == f.row && key == f.key && cl == f.cl && m.merge_equal == 1 && act
            == Act::AskSite(bound(t.col_site_id_sql(), cell)) && ((compared && f.row.clocks.contains_key(c.cid@)
            && c.col_vrsn == f.row.clocks[c.cid@].0 && f.order == 0) || (c.cl == f.cl && c.cl % 2 == 0)),
        V1State::Ordinal { key, cl } => r == f.row && key == f.key && cl == f.cl && act == Act::AskOrdinal
            && takes(m, f) && c.site_id@.len() > 0,
        V1State::First { key, cl, ordinal } => key == f.key && cl == f.cl && act is Run && takes(m, f) && r
            == first_row(m, f) && site_val(ordinal) == site_of(c, f.ordinal) && (c.cl > f.cl && (c.cl % 2 == 0
            || c.cid@ == "-1"@ || f.cl > 0 || c.cl > 1)),
        V1State::Last { cl } => cl == f.cl && act is Run && r == merged_row(m, f),
        V1State::Over { .. } => act == Act::Finish && r == merged_row(m, f),
    }
}

spec fn site_val(ordinal: Option<i64>) -> Val {
    match ordinal {
        Some(n) => Val::Integer(n),
        None => Val::Null,
    }
}

/// Whether a change is taken over.
spec fn takes(m: V1Merge<'_>, f: V1Facts) -> bool {
    let c = *m.c;
    if c.cl > f.cl {
        true
    } else if c.cl < f.cl {
        false
    } else if c.cl % 2 == 0 {
        m.merge_equal == 1 && bytes_gt(c.site_id@, f.site)
    } else {
        c.cid@ != "-1"@ && (!f.row.clocks.contains_key(c.cid@) || beats(m, f))
    }
}

/// The row once it was deleted, or created, where it had to be.
spec fn first_row(m: V1Merge<'_>, f: V1Facts) -> V1Row {
    let c = *m.c;
    let r = f.row;
    if c.cl % 2 == 0 {
        V1Row { present: false, values: Map::empty(), sentinel: Some(c.col_vrsn), clocks: Map::empty() }
    } else {
        V1Row {
            present: true,
            sentinel: Some(if c.cid@ == "-1"@ { c.col_vrsn } else { c.cl }),
            clocks: zeroed(r.clocks),
            ..r
        }
    }
}

proof fn lemma_three(effect: Effect, r: V1Row, a: Sql, b: Sql, c: Sql)
    ensures
        after_plan(effect, r, seq![a, b, c]) == effect(effect(effect(r, a), b), c),
        after_plan(effect, r, seq![a, b]) == effect(effect(r, a), b),
        after_plan(effect, r, seq![a]) == effect(r, a),
{
    reveal_with_fuel(after_plan, 4);
    assert(seq![a, b, c].drop_last() =~= seq![a, b]);
    assert(seq![a, b].drop_last() =~= seq![a]);
    assert(seq![a].drop_last() =~= seq![]);
}

/// The statements of a delete.
proof fn lemma_delete(effect: Effect, m: V1Merge<'_>, f: V1Facts, ordinal: Option<i64>)
    requires
        does_as_told(effect, *m.t, f.key, vals(m.pks@)),
        m.c.cl > f.cl,
        m.c.cl % 2 == 0,
        facts_ok(m, f),
    ensures
        m.after_ordinal(f.key, f.cl, ordinal).0 == (V1State::First { key: f.key, cl: f.cl, ordinal }),
        m.after_ordinal(f.key, f.cl, ordinal).1 is Run,
        after_act(effect, f.row, m.after_ordinal(f.key, f.cl, ordinal).1) == first_row(m, f),
        m.after_first(f.key, f.cl, ordinal).0 is Over,
        m.after_first(f.key, f.cl, ordinal).1 == Act::Finish,
{
    let plan = crate::changes_vtab_write::delete_plan(
        *m.t,
        f.key,
        vals(m.pks@),
        crate::changes_vtab_write::stamp_of(*m.c, ordinal),
    );
    assert(DELETE_SENTINEL@ == "-1"@);
    lemma_three(effect, f.row, plan[0], plan[1], plan[2]);
    assert(plan =~= seq![plan[0], plan[1], plan[2]]);
    assert(plan[2].binds =~= seq![Val::Integer(f.key)]);
}

/// The statements that create a row.
proof fn lemma_create(effect: Effect, m: V1Merge<'_>, f: V1Facts, ordinal: Option<i64>)
    requires
        does_as_told(effect, *m.t, f.key, vals(m.pks@)),
        m.c.cl > f.cl,
        m.c.cl % 2 == 1,
        m.c.cid@ == "-1"@ || f.cl > 0 || m.c.cl > 1,
        facts_ok(m, f),
    ensures
        m.after_ordinal(f.key, f.cl, ordinal).0 == (V1State::First { key: f.key, cl: f.cl, ordinal }),
        m.after_ordinal(f.key, f.cl, ordinal).1 is Run,
        after_act(effect, f.row, m.after_ordinal(f.key, f.cl, ordinal).1) == first_row(m, f),
{
    let stamp = crate::changes_vtab_write::stamp_of(*m.c, ordinal);
    let v = if m.c.cid@ == "-1"@ { m.c.col_vrsn } else { m.c.cl };
    let plan = crate::changes_vtab_write::sentinel_plan(
        *m.t,
        f.key,
        vals(m.pks@),
        crate::changes_vtab_write::Stamp { col_vrsn: v, ..stamp },
    );
    assert(INSERT_SENTINEL@ == "-1"@);
    lemma_three(effect, f.row, plan[0], plan[1], plan[2]);
    assert(plan =~= seq![plan[0], plan[1], plan[2]]);
    assert(plan[1].binds =~= seq![Val::Integer(f.key)]);
}

/// The statements that write a cell.
proof fn lemma_write(effect: Effect, m: V1Merge<'_>, f: V1Facts, ordinal: Option<i64>, r: V1Row)
    requires
        does_as_told(effect, *m.t, f.key, vals(m.pks@)),
        takes(m, f),
        m.c.cl % 2 == 1,
        m.c.cid@ != "-1"@,
        facts_ok(m, f),
        site_val(ordinal) == site_of(*m.c, f.ordinal),
        r == (if m.c.cl > f.cl && (f.cl > 0 || m.c.cl > 1) {
            first_row(m, f)
        } else {
            f.row
        }),
    ensures
        m.write(f.key, f.cl, ordinal).0 == (V1State::Last { cl: f.cl }),
        m.write(f.key, f.cl, ordinal).1 is Run,
        after_act(effect, r, m.write(f.key, f.cl, ordinal).1) == merged_row(m, f),
{
    let t = *m.t;
    let stamp = crate::changes_vtab_write::stamp_of(*m.c, ordinal);
    crate::tableinfo::position_is_first(t.non_pk_names(), m.c.cid@);
    let i = t.non_pk_col(m.c.cid@).unwrap();
    let plan = crate::changes_vtab_write::cell_plan(t, f.key, vals(m.pks@), i, m.c.val@, stamp);
    assert(INSERT_SENTINEL@ == "-1"@);
    assert(t.non_pk_names()[i] == t.non_pks@[i].name@);
    lemma_three(effect, r, plan[0], plan[1], plan[1]);
    assert(plan =~= seq![plan[0], plan[1]]);
    let end = after_plan(effect, r, plan);
    assert(end.values =~= merged_row(m, f).values);
    assert(end.clocks =~= merged_row(m, f).clocks);
}

/// The statement that takes over the deletion of a row that is deleted.
proof fn lemma_tie(effect: Effect, m: V1Merge<'_>, f: V1Facts, ordinal: Option<i64>)
    requires
        does_as_told(effect, *m.t, f.key, vals(m.pks@)),
        takes(m, f),
        m.c.cl == f.cl,
        m.c.cl % 2 == 0,
        facts_ok(m, f),
        site_val(ordinal) == site_of(*m.c, f.ordinal),
    ensures
        m.after_ordinal(f.key, f.cl, ordinal) == m.write(f.key, f.cl, ordinal),
        m.write(f.key, f.cl, ordinal).0 == (V1State::Last { cl: f.cl }),
        m.write(f.key, f.cl, ordinal).1 is Run,
        after_act(effect, f.row, m.write(f.key, f.cl, ordinal).1) == merged_row(m, f),
{
    let stamp = crate::changes_vtab_write::stamp_of(*m.c, ordinal);
    let st = crate::changes_vtab_write::winner_clock(*m.t, f.key, m.c.cid@, stamp);
    assert(INSERT_SENTINEL@ == "-1"@);
    lemma_three(effect, f.row, st, st, st);
    assert(st.binds[1] == Val::Text("-1"@) <==> m.c.cid@ == "-1"@);
}

/// Taking a change over, once the number of its site is known.
proof fn lemma_after_ordinal(effect: Effect, m: V1Merge<'_>, f: V1Facts, ordinal: Option<i64>)
    requires
        does_as_told(effect, *m.t, f.key, vals(m.pks@)),
        takes(m, f),
        facts_ok(m, f),
        site_val(ordinal) == site_of(*m.c, f.ordinal),
    ensures
        ({
            let next = m.after_ordinal(f.key, f.cl, ordinal);
            on_the_way(V1Merge { state: next.0, ..m }, f, after_act(effect, f.row, next.1), next.1)
        }),
{
    if m.c.cl % 2 == 0 {
        if m.c.cl > f.cl {
            lemma_delete(effect, m, f, ordinal);
        } else {
            lemma_tie(effect, m, f, ordinal);
        }
    } else if m.c.cl > f.cl && (m.c.cid@ == "-1"@ || f.cl > 0 || m.c.cl > 1) {
        lemma_create(effect, m, f, ordinal);
    } else {
        assert(INSERT_SENTINEL@ == "-1"@);
        lemma_write(effect, m, f, ordinal, f.row);
    }
}

proof fn lemma_take_over(effect: Effect, m: V1Merge<'_>, f: V1Facts)
    requires
        does_as_told(effect, *m.t, f.key, vals(m.pks@)),
        takes(m, f),
        facts_ok(m, f),
    ensures
        ({
            let next = m.take_over(f.key, f.cl);
            on_the_way(V1Merge { state: next.0, ..m }, f, after_act(effect, f.row, next.1), next.1)
        }),
{
    if m.c.site_id@.len() == 0 {
        lemma_after_ordinal(effect, m, f, None);
    }
}

/// Deciding by the causal length.
proof fn lemma_after_cl(effect: Effect, m: V1Merge<'_>, f: V1Facts)
    requires
        does_as_told(effect, *m.t, f.key, vals(m.pks@)),
        facts_ok(m, f),
    ensures
        ({
            let next = m.after_cl(f.key, f.cl);
            on_the_way(V1Merge { state: next.0, ..m }, f, after_act(effect, f.row, next.1), next.1)
        }),
{
    assert(INSERT_SENTINEL@ == "-1"@);
    if takes(m, f) {
        lemma_take_over(effect, m, f);
    }
}

/// One step of a merge.
proof fn lemma_v1_step(effect: Effect, m: V1Merge<'_>, f: V1Facts, r: V1Row, act: Act, ev: Ev)
    requires
        does_as_told(effect, *m.t, f.key, vals(m.pks@)),
        facts_ok(m, f),
        on_the_way(m, f, r, act),
        !(m.state is Over),
        m.state is Start ==> ev == Ev::Begin,
        !(m.state is Start) ==> answers(m, f, act, ev),
    ensures
        ({
            let next = m.next_of(ev);
            on_the_way(V1Merge { state: next.0, ..m }, f, after_act(effect, r, next.1), next.1)
        }),
        !(m.next_of(ev).0 is Start),
{
    assert(INSERT_SENTINEL@ == "-1"@);
    crate::tableinfo::position_is_first(m.t.non_pk_names(), m.c.cid@);
    match m.state {
        V1State::Key => {
            lemma_after_cl(effect, m, f);
        },
        V1State::NewKey => {
            lemma_after_cl(effect, m, f);
        },
        V1State::Cl { key } => {
            lemma_after_cl(effect, m, f);
        },
        V1State::Version { key, cl } => {
            if takes(m, f) {
                lemma_take_over(effect, m, f);
            }
        },
        V1State::Value { key, cl } => {
            let i = m.t.non_pk_col(m.c.cid@).unwrap();
            assert(m.t.non_pk_names()[i] == m.t.non_pks@[i].name@);
            assert(ev == Ev::Order(Some(f.order)));
            if takes(m, f) {
                lemma_take_over(effect, m, f);
            }
        },
        V1State::Site { key, cl } => {
            if takes(m, f) {
                lemma_take_over(effect, m, f);
            }
        },
        V1State::Ordinal { key, cl } => {
            lemma_after_ordinal(effect, m, f, Some(f.ordinal));
        },
        V1State::First { key, cl, ordinal } => {
            if m.c.cl % 2 == 0 {
                lemma_delete(effect, m, f, ordinal);
            } else if m.c.cid@ != "-1"@ {
                lemma_write(effect, m, f, ordinal, r);
            }
        },
        _ => {},
    }
}

proof fn lemma_v1_run<'a>(
    run: Seq<V1Merge<'a>>,
    rows: Seq<V1Row>,
    evs: Seq<Ev>,
    f: V1Facts,
    effect: Effect,
    k: int,
)
    requires
        is_v1_run(run, rows, evs, f, effect),
        does_as_told(effect, *run[0].t, f.key, vals(run[0].pks@)),
        facts_ok(run[0], f),
        0 < k < run.len(),
        forall|j: int| 0 <= j < k ==> !((#[trigger] run[j]).state is Over),
    ensures
        run[k] == (V1Merge { state: run[k].state, ..run[0] }),
        on_the_way(run[k], f, rows[k], run[k - 1].next_of(evs[k - 1]).1),
        !(run[k].state is Start),
    decreases k,
{
    let m = run[k - 1];
    assert(run[k - 1 + 1] == (V1Merge { state: m.next_of(evs[k - 1]).0, ..m }));
    assert(rows[k - 1 + 1] == after_act(effect, rows[k - 1], m.next_of(evs[k - 1]).1));
    if k > 1 {
        lemma_v1_run(run, rows, evs, f, effect, k - 1);
        let act = run[k - 2].next_of(evs[k - 2]).1;
        assert(answers(run[0], f, run[k - 1 - 1].next_of(evs[k - 1 - 1]).1, evs[k - 1]));
        assert(!(m.state is Start));
        lemma_v1_step(effect, m, f, rows[k - 1], act, evs[k - 1]);
    } else {
        lemma_v1_step(effect, m, f, rows[0], Act::Finish, evs[0]);
    }
}

/// A merge in the first format does to its row what the order of lives and of writes asks for, and
/// does not fail, where the database answers as it has to and the statements do what they say. A
/// change from an older life leaves the row as it is. A deletion from a newer life deletes the
/// row with all its clocks; a second deletion of one life changes no more than its own clock. A
/// row as a whole is created at the life of the change, and what its cells held before counts for
/// nothing. A cell is written, with its clock, where the change is from a newer life, where the
/// cell has no clock yet, or where the change wins over it by its version, its value or its site;
/// else the row stays as it is. No other cell changes within one life.
pub proof fn merge_leaves_the_right_row<'a>(
    run: Seq<V1Merge<'a>>,
    rows: Seq<V1Row>,
    evs: Seq<Ev>,
    f: V1Facts,
    effect: Effect,
)
    requires
        is_v1_run(run, rows, evs, f, effect),
        does_as_told(effect, *run[0].t, f.key, vals(run[0].pks@)),
        facts_ok(run[0], f),
        forall|k: int| 0 <= k < run.len() - 1 ==> !((#[trigger] run[k]).state is Over),
        run.last().state is Over,
    ensures
        rows.last() == merged_row(run[0], f),
        run[run.len() - 2].next_of(evs.last()).1 == Act::Finish,
{
    lemma_v1_run(run, rows, evs, f, effect, run.len() - 1);
}

/// The clocks of a row say what is known of it: a clock at version zero counts for nothing.
pub open spec fn stands_for(m: V1Merge<'_>, f: V1Facts, row: RowClock, write: Write) -> bool {
    let cid = m.c.cid@;
    &&& row.wf()
    &&& row.cl == f.cl
    &&& forall|name: Seq<char>|
        #[trigger] row.cells.contains_key(name) <==> f.row.clocks.contains_key(name) && f.row.clocks[name].0 > 0
    &&& forall|name: Seq<char>|
        row.cells.contains_key(name) ==> (#[trigger] row.cells[name]).version == f.row.clocks[name].0
    &&& forall|name: Seq<char>| #[trigger] f.row.clocks.contains_key(name) ==> f.row.clocks[name].0 >= 0
    &&& write.version == m.c.col_vrsn
    &&& write.version > 0
    &&& write.site == m.c.site_id@
    &&& row.cells.contains_key(cid) ==> {
        &&& f.order > 0 <==> write.value > row.cells[cid].value
        &&& f.order == 0 <==> write.value == row.cells[cid].value
        &&& f.site == row.cells[cid].site
    }
}

/// What a merge leaves is what a site has to know of the row by the order of lives and of writes:
/// the cells that count are those, at those versions. So sites whose merges leave the right rows
/// agree.
pub proof fn merges_follow_the_order_of_writes(m: V1Merge<'_>, f: V1Facts, row: RowClock, write: Write)
    requires
        facts_ok(m, f),
        stands_for(m, f, row, write),
        m.c.cid@ != "-1"@,
    ensures
        ({
            let left = merged_row(m, f).clocks;
            let known = row.after(RowChange { cl: m.c.cl as int, cell: Some((m.c.cid@, write)) }, m.merge_equal == 1);
            m.c.cl % 2 == 1 ==> forall|name: Seq<char>|
                {
                    &&& #[trigger] known.cells.contains_key(name) <==> left.contains_key(name) && left[name].0 > 0
                    &&& known.cells.contains_key(name) ==> known.cells[name].version == left[name].0
                }
        }),
        m.c.cl % 2 == 0 && m.c.cl > f.cl ==> row.after(
            RowChange { cl: m.c.cl as int, cell: Some((m.c.cid@, write)) },
            m.merge_equal == 1,
        ).cells == Map::<Seq<char>, Write>::empty() && merged_row(m, f).clocks == Map::<Seq<char>, (i64, Val)>::empty(),
{
    let left = merged_row(m, f).clocks;
    let known = row.after(RowChange { cl: m.c.cl as int, cell: Some((m.c.cid@, write)) }, m.merge_equal == 1);
    if m.c.cl % 2 == 1 {
        assert forall|name: Seq<char>|
            {
                &&& #[trigger] known.cells.contains_key(name) <==> left.contains_key(name) && left[name].0 > 0
                &&& known.cells.contains_key(name) ==> known.cells[name].version == left[name].0
            } by {
            assert(row.cells.contains_key(name) <==> f.row.clocks.contains_key(name) && f.row.clocks[name].0 > 0);
            assert(row.cells.contains_key(m.c.cid@) <==> f.row.clocks.contains_key(m.c.cid@)
                && f.row.clocks[m.c.cid@].0 > 0);
            if row.cells.contains_key(name) {
                assert(row.cells[name].version == f.row.clocks[name].0);
            }
            if row.cells.contains_key(m.c.cid@) {
                assert(row.cells[m.c.cid@].version == f.row.clocks[m.c.cid@].0);
            }
        }
    }
}

} // verus!
