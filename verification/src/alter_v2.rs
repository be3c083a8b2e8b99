//! Metadata in the second format after a table was altered.

use crate::bootstrap_v2::{compute_pk_signature, pk_signature, signature_ignores_order, typed_names};
use crate::pack_columns::{vals, ColumnValue, Val};
use crate::result_code::ResultCode;
use crate::statement::{bound, one, push_statement, sqls, Sql, Statement};
use crate::tableinfo::{SchemaVersion, TableInfo};
use crate::text::same;
use crate::util::{binding_list, escape_ident, repeat_part, repeated};
use vstd::prelude::*;
use vstd::string::*;

verus! {

/// What to do about the metadata of a table that was altered.
#[derive(Clone, Copy, PartialEq, Eq, Structural, Debug)]
pub enum AlterStep {
    /// The table is not known.
    Fail(ResultCode),
    /// The table has no metadata in the second format.
    Nothing,
    /// The primary key has changed: drop the metadata, and create and fill them anew.
    Recreate,
    /// Give new columns their ids, and forget dropped ones.
    SyncColumns,
}

/// Whether a table has metadata in the second format.
pub open spec fn has_v2(version: SchemaVersion) -> bool {
    version == SchemaVersion::V2 || version == SchemaVersion::V2AndV1
}

/// Whether a primary key has changed: its shape was kept, and is another now.
pub open spec fn pk_changed(t: TableInfo, stored: Option<Seq<char>>) -> bool {
    match stored {
        Some(s) => s != pk_signature(t),
        None => false,
    }
}

/// Whether the primary key has changed, with the shape that was kept, if any.
pub fn check_pk_changed_v2(t: &TableInfo, stored: Option<&str>) -> (r: bool)
    ensures
        r == pk_changed(*t, match stored { Some(s) => Some(s@), None => None }),
{
    match stored {
        Some(s) => !same(s, compute_pk_signature(t).as_str()),
        None => false,
    }
}

/// What to do about the metadata of a table that was altered, with the shape of the
/// primary key that was kept, if any.
pub open spec fn alter_step(t: Option<TableInfo>, stored: Option<Seq<char>>) -> AlterStep {
    match t {
        None => AlterStep::Fail(ResultCode::ERROR),
        Some(info) => if !has_v2(info.schema_version) {
            AlterStep::Nothing
        } else if pk_changed(info, stored) {
            AlterStep::Recreate
        } else {
            AlterStep::SyncColumns
        },
    }
}

/// Metadata are created anew exactly where they are there and the primary key has another shape
/// than the one that was kept when they were created; where its columns were only listed in another
/// order, they are not. A table without metadata in the second format is left alone.
pub proof fn metadata_outlive_alterations(t: TableInfo, earlier: TableInfo, stored: Option<Seq<char>>)
    ensures
        t.schema_version == SchemaVersion::V1 ==> alter_step(Some(t), stored) == AlterStep::Nothing,
        t.schema_version != SchemaVersion::V1 ==> {
            &&& alter_step(Some(t), stored) == AlterStep::Recreate <==> (stored is Some && stored != Some(
                pk_signature(t),
            ))
            &&& alter_step(Some(t), stored) == AlterStep::SyncColumns <==> (stored is None || stored == Some(
                pk_signature(t),
            ))
        },
        t.schema_version != SchemaVersion::V1 && earlier.key_is_rowid == t.key_is_rowid && typed_names(
            earlier.pks@,
        ).to_multiset() == typed_names(t.pks@).to_multiset() ==> alter_step(Some(t), Some(pk_signature(earlier)))
            == AlterStep::SyncColumns,
        alter_step(None, stored) is Fail,
{
    if earlier.key_is_rowid == t.key_is_rowid && typed_names(earlier.pks@).to_multiset() == typed_names(
        t.pks@,
    ).to_multiset() {
        signature_ignores_order(earlier, t);
    }
}

/// What to do about the metadata of a table that was altered, with the shape of the
/// primary key that was kept, if any.
pub fn compact_post_alter_v2(t: Option<&TableInfo>, stored: Option<&str>) -> (r: AlterStep)
    ensures
        r == alter_step(
            match t {
                Some(info) => Some(*info),
                None => None,
            },
            match stored {
                Some(s) => Some(s@),
                None => None,
            },
        ),
{
    match t {
        None => AlterStep::Fail(ResultCode::ERROR),
        Some(info) => {
            let v2: bool = matches!(info.schema_version, SchemaVersion::V2) || matches!(
                info.schema_version,
                SchemaVersion::V2AndV1
            );
            if !v2 {
                AlterStep::Nothing
            } else if check_pk_changed_v2(info, stored) {
                AlterStep::Recreate
            } else {
                AlterStep::SyncColumns
            }
        },
    }
}

/// The query for the ids and names of the columns that have ids.
pub open spec fn col_map_select_sql(t: TableInfo) -> Seq<char> {
    "SELECT col_id, col_name FROM \""@ + t.table() + "__crsql_v2_col_map\"\0"@
}

/// The query for the ids and names of the columns that have ids.
pub fn col_map_sql(t: &TableInfo) -> (r: String)
    ensures
        r@ == col_map_select_sql(*t),
{
    "SELECT col_id, col_name FROM \"".to_owned()
        .concat(escape_ident(t.tbl_name.as_str()).as_str())
        .concat("__crsql_v2_col_map\"\0")
}

/// Deletes the ids of columns.
pub open spec fn col_map_delete_sql(t: TableInfo, n: nat) -> Seq<char> {
    "DELETE FROM \""@ + t.table() + "__crsql_v2_col_map\" WHERE col_id IN ("@ + repeated(n, "?"@) + ")\0"@
}

/// Deletes the ids of columns.
fn col_map_delete_sql_text(t: &TableInfo, n: usize) -> (r: String)
    ensures
        r@ == col_map_delete_sql(*t, n as nat),
{
    "DELETE FROM \"".to_owned()
        .concat(escape_ident(t.tbl_name.as_str()).as_str())
        .concat("__crsql_v2_col_map\" WHERE col_id IN (")
        .concat(binding_list(n).as_str())
        .concat(")\0")
}

/// Makes the clocks of a column those of the row as a whole.
pub open spec fn clock_move_sql(t: TableInfo) -> Seq<char> {
    "UPDATE \""@ + t.table() + "__crsql_v2_clock\" SET cell_key = cell_key & ~4095 WHERE cell_key & 4095 = ?\0"@
}

/// Makes the clocks of a column those of the row as a whole.
fn clock_move_sql_text(t: &TableInfo) -> (r: String)
    ensures
        r@ == clock_move_sql(*t),
{
    "UPDATE \"".to_owned()
        .concat(escape_ident(t.tbl_name.as_str()).as_str())
        .concat("__crsql_v2_clock\" SET cell_key = cell_key & ~4095 WHERE cell_key & 4095 = ?\0")
}

/// Deletes the clocks of columns.
pub open spec fn clock_delete_sql(t: TableInfo, n: nat) -> Seq<char> {
    "DELETE FROM \""@ + t.table() + "__crsql_v2_clock\" WHERE cell_key & 4095 IN ("@ + repeated(n, "?"@) + ")\0"@
}

/// Deletes the clocks of columns.
fn clock_delete_sql_text(t: &TableInfo, n: usize) -> (r: String)
    ensures
        r@ == clock_delete_sql(*t, n as nat),
{
    "DELETE FROM \"".to_owned()
        .concat(escape_ident(t.tbl_name.as_str()).as_str())
        .concat("__crsql_v2_clock\" WHERE cell_key & 4095 IN (")
        .concat(binding_list(n).as_str())
        .concat(")\0")
}

/// Gives columns their ids.
pub open spec fn col_map_add_sql(t: TableInfo, n: nat) -> Seq<char> {
    "INSERT INTO \""@ + t.table() + "__crsql_v2_col_map\" (col_id, col_name) VALUES "@ + repeated(n, "(?, ?)"@) + "\0"@
}

/// Gives columns their ids.
fn col_map_add_sql_text(t: &TableInfo, n: usize) -> (r: String)
    ensures
        r@ == col_map_add_sql(*t, n as nat),
{
    "INSERT INTO \"".to_owned()
        .concat(escape_ident(t.tbl_name.as_str()).as_str())
        .concat("__crsql_v2_col_map\" (col_id, col_name) VALUES ")
        .concat(repeat_part(n, "(?, ?)").as_str())
        .concat("\0")
}

// ---------------------------------------------------------------------------
// Ids of columns
// ---------------------------------------------------------------------------
/// A column that has an id.
pub struct ColId {
    pub col_id: i64,
    pub col_name: String,
}

/// The names of columns that have ids.
pub open spec fn id_names(s: Seq<ColId>) -> Seq<Seq<char>> {
    s.map_values(|c: ColId| c.col_name@)
}

/// The ids of those columns that are, or are not, among `current`.
pub open spec fn ids_where(existing: Seq<ColId>, current: Seq<Seq<char>>, there: bool) -> Seq<i64>
    decreases existing.len(),
{
    if existing.len() == 0 {
        seq![]
    } else if current.contains(existing.last().col_name@) == there {
        ids_where(existing.drop_last(), current, there).push(existing.last().col_id)
    } else {
        ids_where(existing.drop_last(), current, there)
    }
}

/// The columns that have no id yet.
pub open spec fn new_names(current: Seq<Seq<char>>, known: Seq<Seq<char>>) -> Seq<Seq<char>>
    decreases current.len(),
{
    if current.len() == 0 {
        seq![]
    } else if known.contains(current.last()) {
        new_names(current.drop_last(), known)
    } else {
        new_names(current.drop_last(), known).push(current.last())
    }
}

/// Whether `n` is the least number from `from` on that is not in use.
pub open spec fn first_free(used: Seq<i64>, from: int, n: int) -> bool {
    &&& from <= n
    &&& !in_use(used, n)
    &&& forall|m: int| from <= m < n ==> in_use(used, m)
}

/// Whether a number is in use.
pub open spec fn in_use(used: Seq<i64>, n: int) -> bool {
    exists|i: int| 0 <= i < used.len() && #[trigger] used[i] == n
}

/// Whether new columns have the least ids that are free, in their order.
pub open spec fn ids_assigned(used: Seq<i64>, ids: Seq<i64>) -> bool {
    forall|k: int| 0 <= k < ids.len() ==> #[trigger] assigned_at(used, ids, k)
}

/// Whether a new column has the least id that is free and above that of the new column
/// in front of it.
pub open spec fn assigned_at(used: Seq<i64>, ids: Seq<i64>, k: int) -> bool {
    first_free(used, if k == 0 { 0 } else { ids[k - 1] + 1 }, ids[k] as int)
}

/// Integers as parameters.
pub open spec fn int_vals(ids: Seq<i64>) -> Seq<Val> {
    ids.map_values(|i: i64| Val::Integer(i))
}

/// Ids and names as parameters, in turn.
pub open spec fn id_name_vals(ids: Seq<i64>, names: Seq<Seq<char>>) -> Seq<Val>
    decreases ids.len(),
{
    if ids.len() == 0 || names.len() == 0 {
        seq![]
    } else {
        id_name_vals(ids.drop_last(), names.drop_last()).push(Val::Integer(ids.last())).push(
            Val::Text(names.last()),
        )
    }
}

/// The dropped columns whose clocks are deleted: all, but where no column is left, one of
/// them gives its clocks to the row as a whole.
pub open spec fn forgotten(t: TableInfo, dropped: Seq<i64>) -> Seq<i64> {
    if t.non_pks@.len() == 0 && dropped.len() > 0 {
        dropped.drop_last()
    } else {
        dropped
    }
}

/// The statements that bring the ids of columns up to date: those of dropped columns go,
/// and their clocks; new columns get ids. Clocks move to the row as a whole only once those
/// that were at its place are deleted.
pub open spec fn sync_sql(t: TableInfo, dropped: Seq<i64>, ids: Seq<i64>, names: Seq<Seq<char>>) -> Seq<Sql> {
    let gone = forgotten(t, dropped);
    (if dropped.len() > 0 {
        seq![bound(col_map_delete_sql(t, dropped.len()), int_vals(dropped))]
    } else {
        seq![]
    }) + (if gone.len() > 0 {
        seq![bound(clock_delete_sql(t, gone.len()), int_vals(gone))]
    } else {
        seq![]
    }) + (if t.non_pks@.len() == 0 && dropped.len() > 0 && dropped.last() != 0 {
        seq![bound(clock_move_sql(t), seq![Val::Integer(dropped.last())])]
    } else {
        seq![]
    }) + (if ids.len() > 0 {
        seq![bound(col_map_add_sql(t, ids.len()), id_name_vals(ids, names))]
    } else {
        seq![]
    })
}

fn is_current(t: &TableInfo, name: &str) -> (r: bool)
    ensures
        r == t.non_pk_names().contains(name@),
{
    let mut i: usize = 0;
    while i < t.non_pks.len()
        invariant
            i <= t.non_pks@.len(),
            forall|j: int| 0 <= j < i ==> t.non_pk_names()[j] != name@,
        decreases t.non_pks@.len() - i,
    {
        if same(t.non_pks[i].name.as_str(), name) {
            assert(t.non_pk_names()[i as int] == name@);
            return true;
        }
        i = i + 1;
    }
    false
}

fn is_known(existing: &[ColId], name: &str) -> (r: bool)
    ensures
        r == id_names(existing@).contains(name@),
{
    let mut i: usize = 0;
    while i < existing.len()
        invariant
            i <= existing@.len(),
            forall|j: int| 0 <= j < i ==> id_names(existing@)[j] != name@,
        decreases existing@.len() - i,
    {
        if same(existing[i].col_name.as_str(), name) {
            assert(id_names(existing@)[i as int] == name@);
            return true;
        }
        i = i + 1;
    }
    false
}

fn ids_of(t: &TableInfo, existing: &[ColId], there: bool) -> (r: Vec<i64>)
    ensures
        r@ == ids_where(existing@, t.non_pk_names(), there),
        r@.len() <= existing@.len(),
{
    let mut r: Vec<i64> = Vec::new();
    let mut i: usize = 0;
    assert(existing@.take(0) =~= seq![]);
    while i < existing.len()
        invariant
            i <= existing@.len(),
            r@ == ids_where(existing@.take(i as int), t.non_pk_names(), there),
            r@.len() <= i,
        decreases existing@.len() - i,
    {
        assert(existing@.take(i + 1).drop_last() =~= existing@.take(i as int));
        if is_current(t, existing[i].col_name.as_str()) == there {
            r.push(existing[i].col_id);
        }
        i = i + 1;
    }
    assert(existing@.take(i as int) =~= existing@);
    r
}

fn used_contains(used: &[i64], n: i64) -> (r: bool)
    ensures
        r == in_use(used@, n as int),
{
    let mut i: usize = 0;
    while i < used.len()
        invariant
            i <= used@.len(),
            forall|j: int| 0 <= j < i ==> used@[j] != n,
        decreases used@.len() - i,
    {
        if used[i] == n {
            assert(used@[i as int] == n);
            return true;
        }
        i = i + 1;
    }
    false
}

/// Numbers below `n` that are all in one of two lists are no more than the lists hold.
proof fn lemma_pigeonhole(used: Seq<i64>, ids: Seq<i64>, n: nat)
    requires
        forall|m: int| 0 <= m < n ==> in_use(used, m) || in_use(ids, m),
    ensures
        n <= used.len() + ids.len(),
{
    let both = (used + ids).map_values(|i: i64| i as int);
    let range = vstd::set_lib::set_int_range(0, n as int);
    vstd::set_lib::lemma_int_range(0, n as int);
    assert(range.subset_of(both.to_set())) by {
        assert forall|m: int| range.contains(m) implies both.to_set().contains(m) by {
            if in_use(used, m) {
                let i = choose|i: int| 0 <= i < used.len() && #[trigger] used[i] == m;
                assert(both[i] == m);
            } else {
                let i = choose|i: int| 0 <= i < ids.len() && #[trigger] ids[i] == m;
                assert(both[used.len() + i] == m);
            }
        }
    }
    vstd::set_lib::lemma_len_subset(range, both.to_set());
    both.lemma_cardinality_of_set();
}

fn assign_ids(t: &TableInfo, existing: &[ColId], used: &[i64]) -> (r: (Vec<i64>, Vec<ColumnValue>))
    requires
        used@.len() + t.non_pks@.len() < i64::MAX,
    ensures
        ids_assigned(used@, r.0@),
        r.0@.len() == new_names(t.non_pk_names(), id_names(existing@)).len(),
        vals(r.1@) == id_name_vals(r.0@, new_names(t.non_pk_names(), id_names(existing@))),
{
    let mut ids: Vec<i64> = Vec::new();
    let mut binds: Vec<ColumnValue> = Vec::new();
    let mut next: i64 = 0;
    let mut i: usize = 0;
    let ghost known = id_names(existing@);
    assert(t.non_pk_names().take(0) =~= seq![]);
    assert(vals(binds@) =~= seq![]);
    while i < t.non_pks.len()
        invariant
            i <= t.non_pks@.len(),
            known == id_names(existing@),
            used@.len() + t.non_pks@.len() < i64::MAX,
            ids@.len() <= i,
            ids@.len() == new_names(t.non_pk_names().take(i as int), known).len(),
            vals(binds@) == id_name_vals(ids@, new_names(t.non_pk_names().take(i as int), known)),
            ids_assigned(used@, ids@),
            next == (if ids@.len() == 0 { 0 } else { ids@.last() + 1 }),
            next >= 0,
            forall|m: int| 0 <= m < next ==> in_use(used@, m) || in_use(ids@, m),
        decreases t.non_pks@.len() - i,
    {
        let ghost now = t.non_pk_names().take(i + 1);
        assert(now.drop_last() =~= t.non_pk_names().take(i as int));
        assert(now.last() == t.non_pks@[i as int].name@);
        if !is_known(existing, t.non_pks[i].name.as_str()) {
            let ghost from = next as int;
            proof {
                lemma_pigeonhole(used@, ids@, next as nat);
            }
            while used_contains(used, next)
                invariant
                    from <= next,
                    from == (if ids@.len() == 0 { 0 } else { ids@.last() + 1 }),
                    ids@.len() <= i < t.non_pks@.len(),
                    used@.len() + t.non_pks@.len() < i64::MAX,
                    0 <= next <= used@.len() + ids@.len(),
                    forall|m: int| from <= m < next ==> in_use(used@, m),
                    forall|m: int| 0 <= m < next ==> in_use(used@, m) || in_use(ids@, m),
                decreases used@.len() + ids@.len() - next,
            {
                proof {
                    assert forall|m: int| 0 <= m < next + 1 implies in_use(used@, m) || in_use(ids@, m) by {}
                    lemma_pigeonhole(used@, ids@, (next + 1) as nat);
                }
                next = next + 1;
            }
            let ghost old_ids = ids@;
            let ghost old_binds = vals(binds@);
            ids.push(next);
            binds.push(ColumnValue::Integer(next));
            binds.push(ColumnValue::Text(t.non_pks[i].name.clone()));
            proof {
                assert(vals(binds@) =~= old_binds.push(Val::Integer(next)).push(
                    Val::Text(t.non_pks@[i as int].name@),
                ));
                assert(ids@.drop_last() =~= old_ids);
                assert(new_names(now, known).drop_last() =~= new_names(now.drop_last(), known));
                assert forall|k: int| 0 <= k < ids@.len() implies #[trigger] assigned_at(used@, ids@, k) by {
                    if k < old_ids.len() {
                        assert(assigned_at(used@, old_ids, k));
                    }
                }
                assert forall|m: int| 0 <= m < next + 1 implies in_use(used@, m) || in_use(ids@, m) by {
                    if m == next {
                        assert(ids@[ids@.len() - 1] == m);
                    } else if in_use(old_ids, m) {
                        let k = choose|k: int| 0 <= k < old_ids.len() && #[trigger] old_ids[k] == m;
                        assert(ids@[k] == m);
                    }
                }
            }
            next = next + 1;
        }
        i = i + 1;
    }
    assert(t.non_pk_names().take(i as int) =~= t.non_pk_names());
    (ids, binds)
}

fn bind_ids(ids: &[i64]) -> (r: Vec<ColumnValue>)
    ensures
        vals(r@) == int_vals(ids@),
{
    let mut r: Vec<ColumnValue> = Vec::new();
    let mut i: usize = 0;
    while i < ids.len()
        invariant
            i <= ids@.len(),
            r@.len() == i,
            forall|j: int| 0 <= j < i ==> (#[trigger] r@[j])@ == Val::Integer(ids@[j]),
        decreases ids@.len() - i,
    {
        r.push(ColumnValue::Integer(ids[i]));
        i = i + 1;
    }
    assert(vals(r@) =~= int_vals(ids@));
    r
}

/// The statements, to be run in their order, that bring the ids of a table's columns up
/// to date, with the columns that have ids. New columns get the least ids that no
/// column that stays has.
pub fn sync_col_map_v2(t: &TableInfo, existing: &[ColId]) -> (r: Vec<Statement>)
    requires
        existing@.len() + t.non_pks@.len() < i64::MAX,
    ensures
        exists|ids: Seq<i64>|
            {
                &&& #[trigger] ids_assigned(ids_where(existing@, t.non_pk_names(), true), ids)
                &&& ids.len() == new_names(t.non_pk_names(), id_names(existing@)).len()
                &&& sqls(r@) == sync_sql(
                    *t,
                    ids_where(existing@, t.non_pk_names(), false),
                    ids,
                    new_names(t.non_pk_names(), id_names(existing@)),
                )
            },
{
    let mut plan: Vec<Statement> = Vec::new();
    assert(sqls(plan@) =~= seq![]);
    let mut dropped = ids_of(t, existing, false);
    let ghost all_dropped = dropped@;
    let mut moved: i64 = 0;
    if dropped.len() > 0 {
        push_statement(&mut plan, col_map_delete_sql_text(t, dropped.len()), bind_ids(dropped.as_slice()));
        if t.non_pks.len() == 0 {
            moved = dropped[dropped.len() - 1];
            dropped.pop();
        }
    }
    assert(dropped@ =~= forgotten(*t, all_dropped));
    if dropped.len() > 0 {
        push_statement(&mut plan, clock_delete_sql_text(t, dropped.len()), bind_ids(dropped.as_slice()));
    }
    if moved != 0 {
        push_statement(&mut plan, clock_move_sql_text(t), one(ColumnValue::Integer(moved)));
    }
    let used = ids_of(t, existing, true);
    let (ids, binds) = assign_ids(t, existing, used.as_slice());
    if ids.len() > 0 {
        push_statement(&mut plan, col_map_add_sql_text(t, ids.len()), binds);
    }
    proof {
        assert(sqls(plan@) =~= sync_sql(
            *t,
            all_dropped,
            ids@,
            new_names(t.non_pk_names(), id_names(existing@)),
        ));
    }
    plan
}

/// Where no column is left, the clocks of the last of the dropped columns are kept, as those of
/// the row as a whole: they are not among those that are deleted, and where they have to move, they
/// do so after all others are gone.
pub proof fn last_clocks_are_kept(t: TableInfo, dropped: Seq<i64>)
    requires
        t.non_pks@.len() == 0,
        dropped.len() > 0,
        forall|i: int, j: int| 0 <= i < j < dropped.len() ==> dropped[i] != dropped[j],
    ensures
        !forgotten(t, dropped).contains(dropped.last()),
        dropped.last() != 0 ==> sync_sql(t, dropped, seq![], seq![]).last() == bound(
            clock_move_sql(t),
            seq![Val::Integer(dropped.last())],
        ),
{
    let gone = forgotten(t, dropped);
    if gone.contains(dropped.last()) {
        let i = choose|i: int| 0 <= i < gone.len() && gone[i] == dropped.last();
        assert(dropped[i] == dropped[dropped.len() - 1]);
    }
}

/// There is one way only to give new columns the least ids that are free.
pub proof fn ids_are_determined(used: Seq<i64>, a: Seq<i64>, b: Seq<i64>)
    requires
        ids_assigned(used, a),
        ids_assigned(used, b),
        a.len() == b.len(),
    ensures
        a == b,
    decreases a.len(),
{
    if a.len() > 0 {
        let n = a.len() - 1;
        assert forall|k: int| 0 <= k < n implies #[trigger] assigned_at(used, a.drop_last(), k) by {
            assert(assigned_at(used, a, k));
        }
        assert forall|k: int| 0 <= k < n implies #[trigger] assigned_at(used, b.drop_last(), k) by {
            assert(assigned_at(used, b, k));
        }
        ids_are_determined(used, a.drop_last(), b.drop_last());
        assert(n > 0 ==> a[n - 1] == a.drop_last()[n - 1] && b[n - 1] == b.drop_last()[n - 1]);
        assert(assigned_at(used, a, n));
        assert(assigned_at(used, b, n));
        assert(a[n] == b[n]);
        assert(a =~= a.drop_last().push(a[n]));
        assert(b =~= b.drop_last().push(b[n]));
    } else {
        assert(a =~= b);
    }
}

/// The ids of new columns differ from each other and from those in use, so that no two
/// columns of a table share a cell.
pub proof fn new_ids_are_fresh(used: Seq<i64>, ids: Seq<i64>)
    requires
        ids_assigned(used, ids),
    ensures
        forall|k: int| 0 <= k < ids.len() ==> !in_use(used, #[trigger] ids[k] as int),
        forall|j: int, k: int| 0 <= j < k < ids.len() ==> ids[j] < ids[k],
        forall|k: int| 0 <= k < ids.len() ==> #[trigger] ids[k] >= 0,
    decreases ids.len(),
{
    if ids.len() > 0 {
        let n = ids.len() - 1;
        let front = ids.drop_last();
        assert forall|k: int| 0 <= k < n implies #[trigger] assigned_at(used, front, k) by {
            assert(assigned_at(used, ids, k));
        }
        new_ids_are_fresh(used, front);
        assert(assigned_at(used, ids, n));
        assert forall|k: int| 0 <= k < ids.len() implies !in_use(used, #[trigger] ids[k] as int) by {
            if k < n {
                assert(front[k] == ids[k]);
            }
        }
        assert forall|j: int, k: int| 0 <= j < k < ids.len() implies ids[j] < ids[k] by {
            assert(front[j] == ids[j]);
            if k < n {
                assert(front[k] == ids[k]);
            } else if j < n - 1 {
                assert(front[j] < front[n - 1]);
            }
        }
        assert forall|k: int| 0 <= k < ids.len() implies #[trigger] ids[k] >= 0 by {
            if k < n {
                assert(front[k] == ids[k]);
            } else if n > 0 {
                assert(front[n - 1] >= 0);
            }
        }
    }
}

/// Where no column has an id, new columns get the ids from 0 on: the first one takes the place of
/// the row as a whole.
pub proof fn first_columns_count_from_zero(ids: Seq<i64>, k: int)
    requires
        ids_assigned(seq![], ids),
        0 <= k < ids.len(),
    ensures
        ids[k] == k,
    decreases k,
{
    assert(assigned_at(seq![], ids, k));
    let from: int = if k == 0 { 0 } else { ids[k - 1] + 1 };
    if k > 0 {
        first_columns_count_from_zero(ids, k - 1);
    }
    if from < ids[k] {
        assert(in_use(seq![], from));
    }
}

/// The ids that are kept are those of the columns that are still there, and the ids that go are
/// those of all others.
pub proof fn ids_go_with_their_columns(existing: Seq<ColId>, current: Seq<Seq<char>>, there: bool, id: i64)
    ensures
        ids_where(existing, current, there).contains(id) <==> exists|i: int|
            0 <= i < existing.len() && (#[trigger] existing[i]).col_id == id && current.contains(existing[i].col_name@)
                == there,
        ids_where(existing, current, true).len() + ids_where(existing, current, false).len() == existing.len(),
    decreases existing.len(),
{
    if existing.len() > 0 {
        let front = existing.drop_last();
        ids_go_with_their_columns(front, current, there, id);
        let all = ids_where(existing, current, there);
        let before = ids_where(front, current, there);
        let last = existing.last();
        if current.contains(last.col_name@) == there {
            assert(all == before.push(last.col_id));
            if before.contains(id) {
                let k = choose|k: int| 0 <= k < before.len() && before[k] == id;
                assert(all[k] == id);
            }
            if last.col_id == id {
                assert(all[before.len() as int] == id);
            }
            if all.contains(id) {
                let k = choose|k: int| 0 <= k < all.len() && all[k] == id;
                if k < before.len() {
                    assert(before[k] == id);
                }
            }
        }
        if exists|i: int|
            0 <= i < existing.len() && (#[trigger] existing[i]).col_id == id && current.contains(existing[i].col_name@)
                == there {
            let i = choose|i: int|
                0 <= i < existing.len() && (#[trigger] existing[i]).col_id == id && current.contains(
                    existing[i].col_name@,
                ) == there;
            if i < front.len() {
                assert(front[i] == existing[i]);
            }
        }
        if all.contains(id) {
            if before.contains(id) {
                let i = choose|i: int|
                    0 <= i < front.len() && (#[trigger] front[i]).col_id == id && current.contains(front[i].col_name@)
                        == there;
                assert(existing[i] == front[i]);
            } else {
                assert(existing[existing.len() - 1].col_id == id);
            }
        }
    }
}

/// New columns are those that are there and have no id.
pub proof fn new_columns_have_no_id(current: Seq<Seq<char>>, known: Seq<Seq<char>>, name: Seq<char>)
    ensures
        new_names(current, known).contains(name) <==> current.contains(name) && !known.contains(name),
    decreases current.len(),
{
    if current.len() > 0 {
        let front = current.drop_last();
        new_columns_have_no_id(front, known, name);
        let all = new_names(current, known);
        let before = new_names(front, known);
        if front.contains(name) {
            let k = choose|k: int| 0 <= k < front.len() && front[k] == name;
            assert(current[k] == name);
        }
        if current.contains(name) && name != current.last() {
            let k = choose|k: int| 0 <= k < current.len() && current[k] == name;
            assert(front[k] == name);
        }
        if current.last() == name {
            assert(current[current.len() - 1] == name);
        }
        if !known.contains(current.last()) {
            assert(all == before.push(current.last()));
            if before.contains(name) {
                let k = choose|k: int| 0 <= k < before.len() && before[k] == name;
                assert(all[k] == name);
            }
            if current.last() == name {
                assert(all[before.len() as int] == name);
            }
            if all.contains(name) {
                let k = choose|k: int| 0 <= k < all.len() && all[k] == name;
                if k < before.len() {
                    assert(before[k] == name);
                }
            }
        }
    }
}

/// While a table has columns outside its primary key, the clocks of exactly its dropped columns are
/// deleted, with their ids, and none are moved. Where nothing was dropped nothing is deleted, and
/// where nothing is new nothing is added.
pub proof fn dropped_columns_lose_their_clocks(t: TableInfo, dropped: Seq<i64>, ids: Seq<i64>, names: Seq<Seq<char>>)
    ensures
        t.non_pks@.len() > 0 && dropped.len() > 0 ==> {
            let plan = sync_sql(t, dropped, ids, names);
            &&& plan[0] == bound(col_map_delete_sql(t, dropped.len()), int_vals(dropped))
            &&& plan[1] == bound(clock_delete_sql(t, dropped.len()), int_vals(dropped))
            &&& plan.len() == (if ids.len() > 0 {
                3int
            } else {
                2
            })
        },
        dropped.len() == 0 ==> sync_sql(t, dropped, ids, names).len() == (if ids.len() > 0 {
            1int
        } else {
            0
        }),
        ids.len() > 0 ==> sync_sql(t, dropped, ids, names).last() == bound(
            col_map_add_sql(t, ids.len()),
            id_name_vals(ids, names),
        ),
{
}

/// The parameters of new columns are their ids and names in turn, each name behind its id.
pub proof fn new_columns_are_named(ids: Seq<i64>, names: Seq<Seq<char>>, i: int)
    requires
        ids.len() == names.len(),
        0 <= i < ids.len(),
    ensures
        id_name_vals(ids, names).len() == 2 * ids.len(),
        id_name_vals(ids, names)[2 * i] == Val::Integer(ids[i]),
        id_name_vals(ids, names)[2 * i + 1] == Val::Text(names[i]),
    decreases ids.len(),
{
    let front = id_name_vals(ids.drop_last(), names.drop_last());
    if ids.len() > 1 {
        new_columns_are_named(ids.drop_last(), names.drop_last(), if i < ids.len() - 1 { i } else { 0 });
    } else {
        assert(front =~= seq![]);
    }
}

} // verus!
