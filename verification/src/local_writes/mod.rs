//! Writes that are made here, as the triggers of replicated tables see them.

pub mod after_insert;
pub mod insert_laws;
pub mod insert_run;
pub mod v2;

use crate::ext_data::ExtData;
use crate::pack_columns::{vals, ColumnValue, Val};
use crate::statement::{bound, no_values, push_statement, push_value, push_values, sqls, Sql, Statement};
use crate::steps::statement;
use crate::tableinfo::TableInfo;
use vstd::prelude::*;

verus! {

/// Takes the next position in the version of the transaction, and counts it.
pub fn bump_seq(ext: &mut ExtData) -> (r: i32)
    requires
        old(ext).seq < i32::MAX,
    ensures
        r == old(ext).seq,
        *final(ext) == (ExtData { seq: (old(ext).seq + 1) as i32, ..*old(ext) }),
{
    let seq: i32 = ext.seq;
    ext.seq = seq + 1;
    seq
}

/// The statement that marks a row without columns outside its primary key as created, in the
/// first format; it gives the causal length of the row back.
pub fn mark_new_pk_row_created(t: &TableInfo, key: i64, db_version: i64, seq: i32, ts: &str) -> (r: Statement)
    ensures
        r@ == bound(
            t.mark_locally_created_sql(),
            seq![Val::Integer(key), Val::Integer(db_version), Val::Integer(seq as i64), Val::Text(ts@)],
        ),
{
    let mut binds = no_values();
    push_value(&mut binds, ColumnValue::Integer(key));
    push_value(&mut binds, ColumnValue::Integer(db_version));
    push_value(&mut binds, ColumnValue::Integer(seq as i64));
    push_value(&mut binds, ColumnValue::Text(ts.to_owned()));
    assert(vals(binds@) =~= seq![
        Val::Integer(key),
        Val::Integer(db_version),
        Val::Integer(seq as i64),
        Val::Text(ts@),
    ]);
    statement(t.get_mark_locally_created_stmt(), binds)
}

/// The parameters of the clocks of cells, in the first format: each cell takes a position of its
/// own, from `seq` on.
pub open spec fn inserted_binds(
    names: Seq<Seq<char>>,
    key: i64,
    db_version: i64,
    seq: int,
    ts: Seq<char>,
) -> Seq<Val>
    decreases names.len(),
{
    if names.len() == 0 {
        seq![]
    } else {
        inserted_binds(names.drop_last(), key, db_version, seq, ts) + seq![
            Val::Integer(key),
            Val::Text(names.last()),
            Val::Integer(db_version),
            Val::Integer((seq + names.len() - 1) as i64),
            Val::Text(ts),
        ]
    }
}

/// Takes the version of a cell one up, in the first format.
pub open spec fn bumped_cell(t: TableInfo, name: Seq<char>, key: i64, db_version: i64, seq: int, ts: Seq<char>) -> Sql {
    bound(
        t.update_clock_sql(),
        seq![
            Val::Integer(db_version),
            Val::Integer(seq as i64),
            Val::Text(ts),
            Val::Integer(key),
            Val::Text(name),
        ],
    )
}

/// Creates the clock of a cell, in the first format.
pub open spec fn new_cell(t: TableInfo, name: Seq<char>, key: i64, db_version: i64, seq: int, ts: Seq<char>) -> Sql {
    bound(
        t.insert_clock_sql(),
        seq![
            Val::Integer(key),
            Val::Text(name),
            Val::Integer(db_version),
            Val::Integer(seq as i64),
            Val::Text(ts),
        ],
    )
}

/// The statements that take the versions of all cells of a row one up, each at a position of its
/// own, from `seq` on.
pub open spec fn bumped_cells(t: TableInfo, key: i64, db_version: i64, seq: int, ts: Seq<char>) -> Seq<Sql> {
    Seq::new(
        t.non_pk_names().len(),
        |i: int| bumped_cell(t, t.non_pk_names()[i], key, db_version, seq + i, ts),
    )
}

/// The statements that create the clocks of those of the first `n` cells that had none: `changed`
/// says how many clocks the update of each cell has changed. A cell keeps the position that its
/// update had.
pub open spec fn missing_cells(
    t: TableInfo,
    key: i64,
    db_version: i64,
    seq: int,
    ts: Seq<char>,
    changed: Seq<i64>,
    n: int,
) -> Seq<Sql>
    decreases n,
{
    if n <= 0 {
        seq![]
    } else {
        let before = missing_cells(t, key, db_version, seq, ts, changed, n - 1);
        if changed[n - 1] == 0 {
            before.push(new_cell(t, t.non_pk_names()[n - 1], key, db_version, seq + n - 1, ts))
        } else {
            before
        }
    }
}

/// Whether no cell had a clock.
pub open spec fn none_changed(changed: Seq<i64>) -> bool {
    forall|i: int| 0 <= i < changed.len() ==> #[trigger] changed[i] == 0
}

/// The statements that create the clocks of the cells that had none: a single one where none had.
pub open spec fn rest_of_cells(
    t: TableInfo,
    key: i64,
    db_version: i64,
    seq: int,
    ts: Seq<char>,
    changed: Seq<i64>,
) -> Seq<Sql> {
    if none_changed(changed) && t.non_pks@.len() > 0 {
        seq![bound(t.combo_insert_clock_sql(), inserted_binds(t.non_pk_names(), key, db_version, seq, ts))]
    } else {
        missing_cells(t, key, db_version, seq, ts, changed, t.non_pks@.len() as int)
    }
}

/// The statements, to be run in their order, that take the versions of the cells of a row that was
/// inserted one up, in the first format, where they have clocks. How many clocks each of them
/// changes is what [`mark_locally_inserted`] asks for.
pub fn update_inserted_clocks(ext: &mut ExtData, t: &TableInfo, key: i64, db_version: i64, ts: &str) -> (r: Vec<
    Statement,
>)
    requires
        old(ext).seq + t.non_pks@.len() <= i32::MAX,
    ensures
        sqls(r@) == bumped_cells(*t, key, db_version, old(ext).seq as int, ts@),
        *final(ext) == (ExtData { seq: (old(ext).seq + t.non_pks@.len()) as i32, ..*old(ext) }),
{
    let ghost first = ext.seq as int;
    let ghost all = bumped_cells(*t, key, db_version, first, ts@);
    let mut plan: Vec<Statement> = Vec::new();
    let mut i: usize = 0;
    assert(sqls(plan@) =~= all.take(0));
    while i < t.non_pks.len()
        invariant
            i <= t.non_pks@.len(),
            first == old(ext).seq,
            first + t.non_pks@.len() <= i32::MAX,
            all == bumped_cells(*t, key, db_version, first, ts@),
            *ext == (ExtData { seq: (first + i) as i32, ..*old(ext) }),
            sqls(plan@) == all.take(i as int),
        decreases t.non_pks@.len() - i,
    {
        let seq: i32 = bump_seq(ext);
        let mut binds = no_values();
        push_value(&mut binds, ColumnValue::Integer(db_version));
        push_value(&mut binds, ColumnValue::Integer(seq as i64));
        push_value(&mut binds, ColumnValue::Text(ts.to_owned()));
        push_value(&mut binds, ColumnValue::Integer(key));
        push_value(&mut binds, ColumnValue::Text(t.non_pks[i].name.clone()));
        assert(t.non_pk_names()[i as int] == t.non_pks@[i as int].name@);
        assert(vals(binds@) =~= all[i as int].binds);
        push_statement(&mut plan, t.get_update_clock_stmt(), binds);
        assert(all.take(i + 1) =~= all.take(i as int).push(all[i as int]));
        i = i + 1;
    }
    assert(all.take(i as int) =~= all);
    plan
}

fn none_was_changed(changed: &[i64]) -> (r: bool)
    ensures
        r == none_changed(changed@),
{
    let mut i: usize = 0;
    while i < changed.len()
        invariant
            i <= changed@.len(),
            forall|j: int| 0 <= j < i ==> #[trigger] changed@[j] == 0,
        decreases changed@.len() - i,
    {
        if changed[i] != 0 {
            assert(changed@[i as int] != 0);
            return false;
        }
        i = i + 1;
    }
    true
}

fn cell_binds(t: &TableInfo, i: usize, key: i64, db_version: i64, seq: i32, ts: &str) -> (r: Vec<ColumnValue>)
    requires
        i < t.non_pks@.len(),
    ensures
        vals(r@) == new_cell(*t, t.non_pk_names()[i as int], key, db_version, seq as int, ts@).binds,
{
    let mut binds = no_values();
    push_value(&mut binds, ColumnValue::Integer(key));
    push_value(&mut binds, ColumnValue::Text(t.non_pks[i].name.clone()));
    push_value(&mut binds, ColumnValue::Integer(db_version));
    push_value(&mut binds, ColumnValue::Integer(seq as i64));
    push_value(&mut binds, ColumnValue::Text(ts.to_owned()));
    assert(t.non_pk_names()[i as int] == t.non_pks@[i as int].name@);
    assert(vals(binds@) =~= new_cell(*t, t.non_pk_names()[i as int], key, db_version, seq as int, ts@).binds);
    binds
}

fn all_cell_binds(t: &TableInfo, key: i64, db_version: i64, seq: i32, ts: &str) -> (r: Vec<ColumnValue>)
    requires
        seq + t.non_pks@.len() <= i32::MAX,
    ensures
        vals(r@) == inserted_binds(t.non_pk_names(), key, db_version, seq as int, ts@),
{
    let mut binds = no_values();
    let mut i: usize = 0;
    let mut at: i32 = seq;
    assert(t.non_pk_names().take(0) =~= seq![]);
    while i < t.non_pks.len()
        invariant
            i <= t.non_pks@.len(),
            seq + t.non_pks@.len() <= i32::MAX,
            at == seq + i,
            vals(binds@) == inserted_binds(t.non_pk_names().take(i as int), key, db_version, seq as int, ts@),
        decreases t.non_pks@.len() - i,
    {
        let ghost now = t.non_pk_names().take(i + 1);
        assert(now.drop_last() =~= t.non_pk_names().take(i as int));
        assert(now.last() == t.non_pk_names()[i as int]);
        let cell = cell_binds(t, i, key, db_version, at, ts);
        push_values(&mut binds, cell.as_slice());
        at = at + 1;
        i = i + 1;
    }
    assert(t.non_pk_names().take(i as int) =~= t.non_pk_names());
    binds
}

/// The statements, to be run in their order, that create the clocks of the cells of a row that was
/// inserted, in the first format, where they have none: `changed` says how many clocks each
/// statement of [`update_inserted_clocks`] has changed, and `seq` is the position that the first of
/// them had. Where no cell has a clock, a single statement creates all of them.
pub fn mark_locally_inserted(t: &TableInfo, key: i64, db_version: i64, seq: i32, ts: &str, changed: &[i64]) -> (r: Vec<
    Statement,
>)
    requires
        changed@.len() == t.non_pks@.len(),
        seq + t.non_pks@.len() <= i32::MAX,
    ensures
        sqls(r@) == rest_of_cells(*t, key, db_version, seq as int, ts@, changed@),
{
    let mut plan: Vec<Statement> = Vec::new();
    assert(sqls(plan@) =~= seq![]);
    if none_was_changed(changed) && t.non_pks.len() > 0 {
        push_statement(&mut plan, t.get_combo_insert_clock_stmt(), all_cell_binds(t, key, db_version, seq, ts));
        assert(sqls(plan@) =~= rest_of_cells(*t, key, db_version, seq as int, ts@, changed@));
        return plan;
    }
    let mut i: usize = 0;
    let mut at: i32 = seq;
    while i < t.non_pks.len()
        invariant
            i <= t.non_pks@.len(),
            changed@.len() == t.non_pks@.len(),
            seq + t.non_pks@.len() <= i32::MAX,
            at == seq + i,
            sqls(plan@) == missing_cells(*t, key, db_version, seq as int, ts@, changed@, i as int),
        decreases t.non_pks@.len() - i,
    {
        if changed[i] == 0 {
            push_statement(
                &mut plan,
                t.get_insert_clock_stmt(),
                cell_binds(t, i, key, db_version, at, ts),
            );
        }
        at = at + 1;
        i = i + 1;
    }
    plan
}

/// Every cell of a row that was inserted gets a clock at its position, in one way: by its update,
/// where that has changed a clock, and else by a statement that creates it. Where no update has
/// changed a clock, the single statement creates all of them at the positions of their updates.
pub proof fn each_cell_gets_a_clock(
    t: TableInfo,
    key: i64,
    db_version: i64,
    seq: int,
    ts: Seq<char>,
    changed: Seq<i64>,
    i: int,
)
    requires
        changed.len() == t.non_pks@.len(),
        0 <= i < changed.len(),
        0 <= seq,
        seq + changed.len() <= i32::MAX,
    ensures
        none_changed(changed) ==> inserted_binds(t.non_pk_names(), key, db_version, seq, ts).subrange(
            5 * i,
            5 * i + 5,
        ) == new_cell(t, t.non_pk_names()[i], key, db_version, seq + i, ts).binds,
        !none_changed(changed) ==> (rest_of_cells(t, key, db_version, seq, ts, changed).contains(
            new_cell(t, t.non_pk_names()[i], key, db_version, seq + i, ts),
        ) <==> changed[i] == 0),
{
    if none_changed(changed) {
        lemma_inserted_at(t.non_pk_names(), key, db_version, seq, ts, i);
    } else {
        lemma_missing_at(t, key, db_version, seq, ts, changed, changed.len() as int, i);
    }
}

/// The parameters of cell `i` stand at their place among those of all cells.
pub(crate) proof fn lemma_inserted_at(names: Seq<Seq<char>>, key: i64, db_version: i64, seq: int, ts: Seq<char>, i: int)
    requires
        0 <= i < names.len(),
    ensures
        inserted_binds(names, key, db_version, seq, ts).len() == 5 * names.len(),
        inserted_binds(names, key, db_version, seq, ts).subrange(5 * i, 5 * i + 5) == seq![
            Val::Integer(key),
            Val::Text(names[i]),
            Val::Integer(db_version),
            Val::Integer((seq + i) as i64),
            Val::Text(ts),
        ],
    decreases names.len(),
{
    let all = inserted_binds(names, key, db_version, seq, ts);
    let front = inserted_binds(names.drop_last(), key, db_version, seq, ts);
    if names.len() > 1 {
        lemma_inserted_at(names.drop_last(), key, db_version, seq, ts, 0);
    } else {
        assert(front.len() == 0);
    }
    let last = seq![
        Val::Integer(key),
        Val::Text(names.last()),
        Val::Integer(db_version),
        Val::Integer((seq + names.len() - 1) as i64),
        Val::Text(ts),
    ];
    assert(all == front + last);
    if i < names.len() - 1 {
        lemma_inserted_at(names.drop_last(), key, db_version, seq, ts, i);
        assert(all.subrange(5 * i, 5 * i + 5) =~= front.subrange(5 * i, 5 * i + 5));
    } else {
        assert(all.subrange(5 * i, 5 * i + 5) =~= last);
    }
}

/// The clock of cell `i` is created among those of the first `n` exactly where it had none.
proof fn lemma_missing_at(
    t: TableInfo,
    key: i64,
    db_version: i64,
    seq: int,
    ts: Seq<char>,
    changed: Seq<i64>,
    n: int,
    i: int,
)
    requires
        changed.len() == t.non_pks@.len(),
        0 <= n <= changed.len(),
        0 <= i < changed.len(),
        0 <= seq,
        seq + changed.len() <= i32::MAX,
    ensures
        missing_cells(t, key, db_version, seq, ts, changed, n).contains(
            new_cell(t, t.non_pk_names()[i], key, db_version, seq + i, ts),
        ) <==> i < n && changed[i] == 0,
    decreases n,
{
    let wanted = new_cell(t, t.non_pk_names()[i], key, db_version, seq + i, ts);
    let all = missing_cells(t, key, db_version, seq, ts, changed, n);
    if n > 0 {
        let before = missing_cells(t, key, db_version, seq, ts, changed, n - 1);
        lemma_missing_at(t, key, db_version, seq, ts, changed, n - 1, i);
        if changed[n - 1] == 0 {
            let last = new_cell(t, t.non_pk_names()[n - 1], key, db_version, seq + n - 1, ts);
            assert(all == before.push(last));
            assert(last.binds[3] == Val::Integer((seq + n - 1) as i64));
            assert(wanted.binds[3] == Val::Integer((seq + i) as i64));
            if before.contains(wanted) {
                let k = choose|k: int| 0 <= k < before.len() && before[k] == wanted;
                assert(all[k] == wanted);
            }
            if i == n - 1 {
                assert(all[before.len() as int] == wanted);
            }
            if all.contains(wanted) {
                let k = choose|k: int| 0 <= k < all.len() && all[k] == wanted;
                if k < before.len() {
                    assert(before[k] == wanted);
                }
            }
        }
    }
}

} // verus!
