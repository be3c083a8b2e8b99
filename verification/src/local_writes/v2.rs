//! Metadata in the second format for writes that are made here.

use crate::cell::{cell_key, cell_key_base, cell_key_end, cell_of};
use crate::config::ensure_timestamp;
use crate::consts::CRSQL_COL_ID_MASK;
use crate::ext_data::ExtData;
use crate::force_update::is_alive;
use crate::hash_pk::{hash_pk_values, pk_hash};
use crate::pack_columns::{pack, signed, to_signed, vals, ColumnValue, Val};
use crate::statement::{
    blob, bound, no_values, one, push_statement, push_value, push_values, sqls, two, Sql, Statement,
};
use crate::tableinfo::TableInfo;
use crate::v2_stmts::{
    clock_delete_range_sql, clock_delete_range_text, clock_insert_sql, clock_insert_text, clock_upsert_sql,
    clock_upsert_text, lookup_row_state_sql, lookup_row_state_text, pks_delete_sql, pks_delete_text,
    table_pks_insert_sql, table_pks_insert_text, tomb_delete_sql, tomb_delete_text, tomb_insert_sql,
    tomb_insert_text, tomb_pks_delete_sql, tomb_pks_delete_text, tomb_pks_insert_sql, tomb_pks_insert_text,
};
use vstd::prelude::*;
use vstd::string::*;

verus! {

// ---------------------------------------------------------------------------
// Rows
// ---------------------------------------------------------------------------
/// The state of a row.
#[derive(Clone, Copy, PartialEq, Eq, Structural, Debug)]
pub enum RowState {
    /// It lives: its key and its causal length.
    Alive(i64, i64),
    /// It is dead: its causal length.
    Dead(i64),
    NotFound,
}

/// The hash by which a row is known; none where rows are known by their primary keys.
pub open spec fn local_hash(t: TableInfo, pks: Seq<Val>) -> Option<Seq<u8>> {
    if t.skip_hash {
        None
    } else {
        Some(pk_hash(pack(pks)))
    }
}

/// The bytes of a hash, where there is one.
pub open spec fn hash_bytes(hash: Option<Vec<u8>>) -> Option<Seq<u8>> {
    match hash {
        Some(h) => Some(h@),
        None => None,
    }
}

/// The hash by which a row is known; none where rows are known by their primary keys.
pub fn compute_hashed_pk(t: &TableInfo, pks: &[ColumnValue]) -> (r: Result<Option<Vec<u8>>, &'static str>)
    ensures
        r matches Ok(hash) && hash_bytes(hash) == local_hash(*t, vals(pks@)),
{
    if t.skip_hash {
        return Ok(None);
    }
    match hash_pk_values(pks) {
        Ok(hash) => Ok(Some(hash)),
        Err(_) => Err("failed to hash PK values"),
    }
}

/// The parameter by which a row is found: its hash, where it has one, else its primary key.
pub open spec fn row_id_by(hash: Option<Seq<u8>>, pks: Seq<Val>) -> Val {
    match hash {
        Some(h) => Val::Blob(h),
        None => pks[0],
    }
}

/// The parameter by which a row is found.
pub open spec fn local_row_id(t: TableInfo, pks: Seq<Val>) -> Val {
    row_id_by(local_hash(t, pks), pks)
}

fn row_id_of(pks: &[ColumnValue], hash: &Option<Vec<u8>>) -> (r: ColumnValue)
    requires
        hash is None ==> pks@.len() > 0,
    ensures
        r@ == row_id_by(hash_bytes(*hash), vals(pks@)),
{
    match hash {
        Some(h) => blob(h.as_slice()),
        None => {
            let v = pks[0].clone();
            assert(v@ == vals(pks@)[0]);
            v
        },
    }
}

fn empty_plan() -> (r: Vec<Statement>)
    ensures
        sqls(r@) == Seq::<Sql>::empty(),
{
    let plan: Vec<Statement> = Vec::new();
    assert(sqls(plan@) =~= seq![]);
    plan
}

/// The statement that finds the state of a row, which is asked for by its hash, where it has
/// one, or else by its primary key, in both parts of the statement.
pub fn bind_row_state_lookup(t: &TableInfo, pks: &[ColumnValue], hash: &Option<Vec<u8>>) -> (r: Vec<Statement>)
    requires
        hash is None ==> pks@.len() > 0,
    ensures
        sqls(r@) == seq![
            bound(
                lookup_row_state_sql(*t),
                seq![
                    row_id_by(hash_bytes(*hash), vals(pks@)),
                    row_id_by(hash_bytes(*hash), vals(pks@)),
                ],
            ),
        ],
{
    let mut plan = empty_plan();
    push_statement(&mut plan, lookup_row_state_text(t), two(row_id_of(pks, hash), row_id_of(pks, hash)));
    assert(sqls(plan@) =~= seq![
        bound(
            lookup_row_state_sql(*t),
            seq![row_id_by(hash_bytes(*hash), vals(pks@)), row_id_by(hash_bytes(*hash), vals(pks@))],
        ),
    ]);
    plan
}

/// The statement that finds the state of a row by its primary key.
pub fn ask_row_state(t: &TableInfo, pks: &[ColumnValue]) -> (r: Result<Vec<Statement>, &'static str>)
    requires
        t.skip_hash ==> pks@.len() > 0,
    ensures
        r matches Ok(plan) && sqls(plan@) == seq![
            bound(
                lookup_row_state_sql(*t),
                seq![local_row_id(*t, vals(pks@)), local_row_id(*t, vals(pks@))],
            ),
        ],
{
    match compute_hashed_pk(t, pks) {
        Ok(hash) => Ok(bind_row_state_lookup(t, pks, &hash)),
        Err(msg) => Err(msg),
    }
}

/// The state of a row, from what was found: a key, which a dead row has not, and a causal
/// length.
pub fn lookup_row_state(found: Option<(Option<i64>, i64)>) -> (r: RowState)
    ensures
        r == match found {
            Some((Some(key), cl)) => RowState::Alive(key, cl),
            Some((None, cl)) => RowState::Dead(cl),
            None => RowState::NotFound,
        },
{
    match found {
        Some((Some(key), cl)) => RowState::Alive(key, cl),
        Some((None, cl)) => RowState::Dead(cl),
        None => RowState::NotFound,
    }
}

/// The time of the transaction, or none.
pub open spec fn write_time(ext: ExtData) -> Option<int> {
    if ext.timestamp != 0 {
        Some(signed(ext.timestamp as nat))
    } else if ext.default_timestamp != 0 {
        Some(signed(ext.default_timestamp as nat))
    } else {
        None
    }
}

/// The state of a connection once a write has taken the time of the transaction.
pub open spec fn timed(ext: ExtData) -> ExtData {
    if ext.timestamp != 0 {
        ext
    } else {
        ExtData { timestamp: ext.default_timestamp, ..ext }
    }
}

fn take_time(ext: &mut ExtData, missing: &str) -> (r: Result<i64, String>)
    ensures
        match write_time(*old(ext)) {
            Some(ts) => r matches Ok(got) && got == ts && *final(ext) == timed(*old(ext)),
            None => (r matches Err(msg) && msg@ == missing@) && *final(ext) == *old(ext),
        },
{
    match ensure_timestamp(ext) {
        Ok(ts) => Ok(to_signed(ts)),
        Err(_) => Err(missing.to_owned()),
    }
}

/// The time of an insert; an error where the transaction has none.
pub fn insert_time(ext: &mut ExtData) -> (r: Result<i64, String>)
    ensures
        match write_time(*old(ext)) {
            Some(ts) => r matches Ok(got) && got == ts && *final(ext) == timed(*old(ext)),
            None => (r matches Err(msg) && msg@ == "v2_after_insert: timestamp not set — call crsql_set_ts() first or set default-ts"@)
                && *final(ext) == *old(ext),
        },
{
    take_time(ext, "v2_after_insert: timestamp not set — call crsql_set_ts() first or set default-ts")
}

/// The time of an update; an error where the transaction has none.
pub fn update_time(ext: &mut ExtData) -> (r: Result<i64, String>)
    ensures
        match write_time(*old(ext)) {
            Some(ts) => r matches Ok(got) && got == ts && *final(ext) == timed(*old(ext)),
            None => (r matches Err(msg) && msg@ == "v2_after_update: timestamp not set — call crsql_set_ts() first or set default-ts"@)
                && *final(ext) == *old(ext),
        },
{
    take_time(ext, "v2_after_update: timestamp not set — call crsql_set_ts() first or set default-ts")
}

/// The time of a delete; an error where the transaction has none.
pub fn delete_time(ext: &mut ExtData) -> (r: Result<i64, String>)
    ensures
        match write_time(*old(ext)) {
            Some(ts) => r matches Ok(got) && got == ts && *final(ext) == timed(*old(ext)),
            None => (r matches Err(msg) && msg@ == "v2_after_delete: timestamp not set — call crsql_set_ts() first or set default-ts"@)
                && *final(ext) == *old(ext),
        },
{
    take_time(ext, "v2_after_delete: timestamp not set — call crsql_set_ts() first or set default-ts")
}

// ---------------------------------------------------------------------------
// Inserts
// ---------------------------------------------------------------------------
/// The causal length of a row before it is inserted.
pub open spec fn cl_before(state: RowState) -> int {
    match state {
        RowState::Alive(_, cl) => cl as int,
        RowState::Dead(cl) => cl as int,
        RowState::NotFound => 0,
    }
}

/// The number that identifies the live key of a row whose key is its rowid: an integer primary
/// key is the rowid.
pub open spec fn rowid_value(t: TableInfo, pks: Seq<Val>, rowid: Option<i64>) -> Option<Val> {
    if t.has_integer_pk {
        Some(pks[0])
    } else {
        match rowid {
            Some(id) => Some(Val::Integer(id)),
            None => None,
        }
    }
}

/// The parameters with which a live key is created, but for the causal length, with the hash of
/// the row, where it has one.
pub open spec fn key_binds_by(t: TableInfo, pks: Seq<Val>, rowid: Option<i64>, hash: Option<Seq<u8>>) -> Option<
    Seq<Val>,
> {
    let key = if t.key_is_rowid {
        match rowid_value(t, pks, rowid) {
            Some(id) => Some(seq![id]),
            None => None,
        }
    } else {
        Some(pks)
    };
    match (key, hash) {
        (Some(k), Some(h)) => Some(k.push(Val::Blob(h))),
        (Some(k), None) => Some(k),
        (None, _) => None,
    }
}

/// The parameters with which a live key is created, but for the causal length.
pub open spec fn local_key_binds(t: TableInfo, pks: Seq<Val>, rowid: Option<i64>) -> Option<Seq<Val>> {
    key_binds_by(t, pks, rowid, local_hash(t, pks))
}

/// The parameters with which a live key is created, but for the causal length; an error where
/// the rowid is needed and missing.
pub fn bind_pks_insert(t: &TableInfo, pks: &[ColumnValue], hash: &Option<Vec<u8>>, rowid: Option<i64>) -> (r: Result<
    Vec<ColumnValue>,
    String,
>)
    requires
        pks@.len() > 0,
    ensures
        match key_binds_by(*t, vals(pks@), rowid, hash_bytes(*hash)) {
            Some(wanted) => r matches Ok(binds) && vals(binds@) == wanted,
            None => r matches Err(msg) && msg@ == "rowid-key table missing rowid for pks_insert"@,
        },
{
    let mut binds = no_values();
    if t.key_is_rowid {
        if t.has_integer_pk {
            assert(pks@[0]@ == vals(pks@)[0]);
            push_value(&mut binds, pks[0].clone());
            assert(vals(binds@) =~= seq![vals(pks@)[0]]);
        } else {
            match rowid {
                Some(id) => {
                    push_value(&mut binds, ColumnValue::Integer(id));
                    assert(vals(binds@) =~= seq![Val::Integer(id)]);
                },
                None => return Err("rowid-key table missing rowid for pks_insert".to_owned()),
            }
        }
    } else {
        push_values(&mut binds, pks);
        assert(vals(binds@) =~= vals(pks@));
    }
    match hash {
        Some(h) => push_value(&mut binds, blob(h.as_slice())),
        None => {},
    }
    Ok(binds)
}

/// How a row that was inserted is given metadata.
pub struct InsertPlan {
    /// The statements, to be run in their order, that remove its tombstone, if it has one.
    pub revive: Vec<Statement>,
    /// The statement that creates its live key, and gives it back.
    pub create: Statement,
    pub cl: i64,
}

/// The statements that remove the tombstone of a row.
pub open spec fn revive_plan(t: TableInfo, pks: Seq<Val>) -> Seq<Sql> {
    seq![bound(tomb_delete_sql(t), seq![local_row_id(t, pks)])] + (if t.skip_hash {
        seq![]
    } else {
        seq![bound(tomb_pks_delete_sql(t), seq![Val::Blob(pk_hash(pack(pks)))])]
    })
}

/// How a row that was inserted is given metadata, by its state. A row that lives already is an
/// error. A row that was dead takes one position more, as its deletion did.
pub fn v2_after_insert(
    ext: &mut ExtData,
    t: &TableInfo,
    pks: &[ColumnValue],
    rowid: Option<i64>,
    state: RowState,
) -> (r: Result<InsertPlan, String>)
    requires
        pks@.len() > 0,
        old(ext).seq < i32::MAX,
        cl_before(state) < i64::MAX,
    ensures
        if state is Alive {
            &&& r matches Err(msg)
            &&& msg@
                == "v2_after_insert: row already alive in v2_pks — recursive_triggers may be disabled or data is corrupt"@
            &&& *final(ext) == *old(ext)
        } else {
            &&& *final(ext) == (if cl_before(state) > 0 {
                ExtData { seq: (old(ext).seq + 1) as i32, ..*old(ext) }
            } else {
                *old(ext)
            })
            &&& match local_key_binds(*t, vals(pks@), rowid) {
                Some(key) => {
                    &&& r matches Ok(plan)
                    &&& plan.cl == cl_before(state) + 1
                    &&& sqls(plan.revive@) == if cl_before(state) > 0 {
                        revive_plan(*t, vals(pks@))
                    } else {
                        seq![]
                    }
                    &&& plan.create@ == bound(table_pks_insert_sql(*t), key.push(Val::Integer(plan.cl)))
                },
                None => r matches Err(msg) && msg@ == "rowid-key table missing rowid for pks_insert"@,
            }
        },
{
    let cl: i64 = match state {
        RowState::Alive(_, _) => {
            return Err(
                "v2_after_insert: row already alive in v2_pks — recursive_triggers may be disabled or data is corrupt".to_owned(),
            );
        },
        RowState::Dead(cl) => cl,
        RowState::NotFound => 0,
    };
    let hash = match compute_hashed_pk(t, pks) {
        Ok(hash) => hash,
        Err(msg) => return Err(msg.to_owned()),
    };
    let mut revive = empty_plan();
    if cl > 0 {
        let _ = crate::local_writes::bump_seq(ext);
        push_statement(&mut revive, tomb_delete_text(t), one(row_id_of(pks, &hash)));
        match &hash {
            Some(h) => push_statement(&mut revive, tomb_pks_delete_text(t), one(blob(h.as_slice()))),
            None => {},
        }
        assert(sqls(revive@) =~= revive_plan(*t, vals(pks@)));
    }
    let mut binds = match bind_pks_insert(t, pks, &hash, rowid) {
        Ok(binds) => binds,
        Err(msg) => return Err(msg),
    };
    push_value(&mut binds, ColumnValue::Integer(cl + 1));
    let create = Statement { sql: table_pks_insert_text(t), binds, sync: false };
    Ok(InsertPlan { revive, create, cl: cl + 1 })
}

/// The statement that creates the clock of a cell.
pub open spec fn new_clock(t: TableInfo, key: i64, col_id: i64, db_version: i64, seq: int, ts: i64) -> Sql {
    bound(
        clock_insert_sql(t),
        seq![
            Val::Integer(cell_of(key, col_id)),
            Val::Integer(db_version),
            Val::Integer(seq as i64),
            Val::Integer(ts),
        ],
    )
}

/// The ids of the columns of a row whose cells get clocks: that of the row as a whole, where it
/// has no columns outside its primary key.
pub open spec fn clock_columns(t: TableInfo, col_ids: Seq<i64>) -> Seq<i64> {
    if t.non_pks@.len() == 0 {
        seq![0i64]
    } else {
        col_ids
    }
}

/// The statements that create the clocks of a row, each with a position of its own.
pub open spec fn new_clocks(t: TableInfo, key: i64, ids: Seq<i64>, db_version: i64, seq: int, ts: i64) -> Seq<Sql> {
    Seq::new(ids.len(), |i: int| new_clock(t, key, ids[i], db_version, seq + i, ts))
}

/// The statements, to be run in their order, that create the clocks of a row that was inserted,
/// with the ids of all columns of its table.
pub fn write_clock_entries(
    ext: &mut ExtData,
    t: &TableInfo,
    key: i64,
    col_ids: &[i64],
    db_version: i64,
    ts: i64,
) -> (r: Vec<Statement>)
    requires
        old(ext).seq + col_ids@.len() < i32::MAX,
    ensures
        sqls(r@) == new_clocks(
            *t,
            key,
            clock_columns(*t, col_ids@),
            db_version,
            old(ext).seq as int,
            ts,
        ),
        *final(ext) == (ExtData {
            seq: (old(ext).seq + clock_columns(*t, col_ids@).len()) as i32,
            ..*old(ext)
        }),
{
    let whole: Vec<i64> = vec![0];
    let ids: &[i64] = if t.non_pks.len() == 0 {
        whole.as_slice()
    } else {
        col_ids
    };
    let ghost wanted = clock_columns(*t, col_ids@);
    assert(ids@ =~= wanted);
    let ghost all = new_clocks(*t, key, wanted, db_version, old(ext).seq as int, ts);
    let mut plan = empty_plan();
    let mut i: usize = 0;
    assert(all.take(0) =~= seq![]);
    while i < ids.len()
        invariant
            i <= ids@.len(),
            ids@ == wanted,
            old(ext).seq + ids@.len() <= i32::MAX,
            all == new_clocks(*t, key, wanted, db_version, old(ext).seq as int, ts),
            sqls(plan@) == all.take(i as int),
            *ext == (ExtData { seq: (old(ext).seq + i) as i32, ..*old(ext) }),
        decreases ids@.len() - i,
    {
        let seq: i32 = crate::local_writes::bump_seq(ext);
        let mut binds = no_values();
        push_value(&mut binds, ColumnValue::Integer(cell_key(key, ids[i])));
        push_value(&mut binds, ColumnValue::Integer(db_version));
        push_value(&mut binds, ColumnValue::Integer(seq as i64));
        push_value(&mut binds, ColumnValue::Integer(ts));
        assert(vals(binds@) =~= all[i as int].binds);
        push_statement(&mut plan, clock_insert_text(t), binds);
        assert(all.take(i + 1) =~= all.take(i as int).push(all[i as int]));
        i = i + 1;
    }
    assert(all.take(i as int) =~= all);
    plan
}

// ---------------------------------------------------------------------------
// Updates
// ---------------------------------------------------------------------------
/// Why a row cannot be updated, by its state.
pub open spec fn update_error(state: RowState) -> Option<Seq<char>> {
    match state {
        RowState::Alive(_, _) => None,
        RowState::Dead(_) => Some("row is dead (in tombstones) — cannot update a deleted row"@),
        RowState::NotFound => Some("row not found in v2_pks for update"@),
    }
}

/// The key of a row that was updated: it has to live.
pub fn updated_key(state: RowState) -> (r: Result<i64, String>)
    ensures
        match update_error(state) {
            Some(why) => r matches Err(msg) && msg@ == why,
            None => r matches Ok(key) && state matches RowState::Alive(k, _) && k == key,
        },
{
    match state {
        RowState::Alive(key, _) => Ok(key),
        RowState::Dead(_) => Err("row is dead (in tombstones) — cannot update a deleted row".to_owned()),
        RowState::NotFound => Err("row not found in v2_pks for update".to_owned()),
    }
}

/// The name of a column that was changed, by its place among those outside the primary key.
pub fn changed_column(t: &TableInfo, col_idx: usize) -> (r: Result<&str, String>)
    ensures
        if col_idx < t.non_pks@.len() {
            r matches Ok(name) && name@ == t.non_pks@[col_idx as int].name@
        } else {
            r matches Err(msg) && msg@ == "changed column index out of range"@
        },
{
    if col_idx < t.non_pks.len() {
        Ok(t.non_pks[col_idx].name.as_str())
    } else {
        Err("changed column index out of range".to_owned())
    }
}

/// The id of a column that was changed; an error where it has none.
pub fn changed_col_id(col_name: &str, found: Option<i64>) -> (r: Result<i64, String>)
    ensures
        match found {
            Some(id) => r matches Ok(got) && got == id,
            None => r matches Err(msg) && msg@ == "no col_id in v2_col_map for column "@ + col_name@,
        },
{
    match found {
        Some(id) => Ok(id),
        None => Err("no col_id in v2_col_map for column ".to_owned().concat(col_name)),
    }
}

/// The statement that takes the version of a cell one up.
pub open spec fn bumped_clock(t: TableInfo, key: i64, col_id: i64, db_version: i64, seq: int, ts: i64) -> Sql {
    bound(
        clock_upsert_sql(t),
        seq![
            Val::Integer(cell_of(key, col_id)),
            Val::Integer(cell_of(key, col_id)),
            Val::Integer(db_version),
            Val::Integer(seq as i64),
            Val::Integer(ts),
        ],
    )
}

/// The statements that take the versions of cells one up, each with a position of its own.
pub open spec fn bumped_clocks(t: TableInfo, key: i64, ids: Seq<i64>, db_version: i64, seq: int, ts: i64) -> Seq<
    Sql,
> {
    Seq::new(ids.len(), |i: int| bumped_clock(t, key, ids[i], db_version, seq + i, ts))
}

/// The statements, to be run in their order, that take the versions of the cells of a row that
/// were changed one up, by the ids of their columns.
pub fn v2_after_update(
    ext: &mut ExtData,
    t: &TableInfo,
    key: i64,
    col_ids: &[i64],
    db_version: i64,
    ts: i64,
) -> (r: Vec<Statement>)
    requires
        old(ext).seq + col_ids@.len() <= i32::MAX,
    ensures
        sqls(r@) == bumped_clocks(*t, key, col_ids@, db_version, old(ext).seq as int, ts),
        *final(ext) == (ExtData { seq: (old(ext).seq + col_ids@.len()) as i32, ..*old(ext) }),
{
    let ghost all = bumped_clocks(*t, key, col_ids@, db_version, old(ext).seq as int, ts);
    let mut plan = empty_plan();
    let mut i: usize = 0;
    assert(all.take(0) =~= seq![]);
    while i < col_ids.len()
        invariant
            i <= col_ids@.len(),
            old(ext).seq + col_ids@.len() <= i32::MAX,
            all == bumped_clocks(*t, key, col_ids@, db_version, old(ext).seq as int, ts),
            sqls(plan@) == all.take(i as int),
            *ext == (ExtData { seq: (old(ext).seq + i) as i32, ..*old(ext) }),
        decreases col_ids@.len() - i,
    {
        let seq: i32 = crate::local_writes::bump_seq(ext);
        let cell: i64 = cell_key(key, col_ids[i]);
        let mut binds = no_values();
        push_value(&mut binds, ColumnValue::Integer(cell));
        push_value(&mut binds, ColumnValue::Integer(cell));
        push_value(&mut binds, ColumnValue::Integer(db_version));
        push_value(&mut binds, ColumnValue::Integer(seq as i64));
        push_value(&mut binds, ColumnValue::Integer(ts));
        assert(vals(binds@) =~= all[i as int].binds);
        push_statement(&mut plan, clock_upsert_text(t), binds);
        assert(all.take(i + 1) =~= all.take(i as int).push(all[i as int]));
        i = i + 1;
    }
    assert(all.take(i as int) =~= all);
    plan
}

// ---------------------------------------------------------------------------
// Deletes
// ---------------------------------------------------------------------------
/// The statements that turn a row into a tombstone: its live key and its clocks go, and its
/// primary key is kept where rows are known by hashes.
pub open spec fn delete_plan(
    t: TableInfo,
    pks: Seq<Val>,
    key: i64,
    cl: int,
    db_version: i64,
    seq: int,
    ts: i64,
) -> Seq<Sql> {
    seq![
        bound(pks_delete_sql(t), seq![Val::Integer(key)]),
        bound(
            clock_delete_range_sql(t),
            seq![Val::Integer(key << 12u32), Val::Integer(cell_of(key, CRSQL_COL_ID_MASK))],
        ),
        bound(
            tomb_insert_sql(t),
            seq![
                Val::Integer(0i64),
                Val::Integer(db_version),
                Val::Integer(seq as i64),
                local_row_id(t, pks),
                Val::Integer(cl as i64),
                Val::Integer(ts),
            ],
        ),
    ] + (if t.skip_hash {
        seq![]
    } else {
        seq![bound(tomb_pks_insert_sql(t), seq![Val::Blob(pk_hash(pack(pks)))] + pks)]
    })
}

/// The statements that turn a row that was deleted into a tombstone, by its state: none for a row
/// that does not live.
pub open spec fn deletion(t: TableInfo, pks: Seq<Val>, state: RowState, db_version: i64, seq: int, ts: i64) -> Seq<Sql> {
    match state {
        RowState::Alive(key, cl) => delete_plan(t, pks, key, cl + 1, db_version, seq, ts),
        _ => seq![],
    }
}

/// How many positions the deletion of a row takes.
pub open spec fn deletion_positions(state: RowState) -> int {
    if state is Alive {
        1
    } else {
        0
    }
}

/// The statements, to be run in their order, that turn a row that was deleted into a tombstone,
/// by its state. For a row that does not live there is nothing to do.
pub fn v2_after_delete(
    ext: &mut ExtData,
    t: &TableInfo,
    pks: &[ColumnValue],
    state: RowState,
    db_version: i64,
    ts: i64,
) -> (r: Result<Vec<Statement>, &'static str>)
    requires
        t.skip_hash ==> pks@.len() > 0,
        old(ext).seq < i32::MAX,
        cl_before(state) < i64::MAX,
    ensures
        r matches Ok(plan) && sqls(plan@) == deletion(*t, vals(pks@), state, db_version, old(ext).seq as int, ts),
        *final(ext) == (ExtData { seq: (old(ext).seq + deletion_positions(state)) as i32, ..*old(ext) }),
{
    let mut plan = empty_plan();
    let (key, cl) = match state {
        RowState::Alive(key, cl) => (key, cl),
        _ => return Ok(plan),
    };
    let hash = match compute_hashed_pk(t, pks) {
        Ok(hash) => hash,
        Err(msg) => return Err(msg),
    };
    let seq: i32 = crate::local_writes::bump_seq(ext);
    push_statement(&mut plan, pks_delete_text(t), one(ColumnValue::Integer(key)));
    push_statement(
        &mut plan,
        clock_delete_range_text(t),
        two(ColumnValue::Integer(cell_key_base(key)), ColumnValue::Integer(cell_key_end(key))),
    );
    let mut binds = no_values();
    push_value(&mut binds, ColumnValue::Integer(0));
    push_value(&mut binds, ColumnValue::Integer(db_version));
    push_value(&mut binds, ColumnValue::Integer(seq as i64));
    push_value(&mut binds, row_id_of(pks, &hash));
    push_value(&mut binds, ColumnValue::Integer(cl + 1));
    push_value(&mut binds, ColumnValue::Integer(ts));
    assert(vals(binds@) =~= seq![
        Val::Integer(0i64),
        Val::Integer(db_version),
        Val::Integer(seq as i64),
        local_row_id(*t, vals(pks@)),
        Val::Integer((cl + 1) as i64),
        Val::Integer(ts),
    ]);
    push_statement(&mut plan, tomb_insert_text(t), binds);
    match &hash {
        Some(h) => {
            let mut kept = one(blob(h.as_slice()));
            push_values(&mut kept, pks);
            push_statement(&mut plan, tomb_pks_insert_text(t), kept);
        },
        None => {},
    }
    assert(sqls(plan@) =~= delete_plan(
        *t,
        vals(pks@),
        key,
        cl + 1,
        db_version,
        old(ext).seq as int,
        ts,
    ));
    Ok(plan)
}

/// Whether the causal length of a row fits its state: odd while it lives, even while it is
/// dead.
pub open spec fn state_ok(state: RowState) -> bool {
    match state {
        RowState::Alive(_, cl) => is_alive(cl as int) && cl > 0,
        RowState::Dead(cl) => !is_alive(cl as int) && cl > 0,
        RowState::NotFound => true,
    }
}

/// A row that is inserted here lives, and one that is deleted here is dead: each takes its
/// causal length one up, so that an insert after a delete, or a delete after an insert, wins
/// over what was there.
pub proof fn local_writes_alternate(state: RowState, key: i64)
    requires
        state_ok(state),
        cl_before(state) + 2 <= i64::MAX,
    ensures
        ({
            let next = (cl_before(state) + 1) as i64;
            &&& !(state is Alive) ==> state_ok(RowState::Alive(key, next))
            &&& state is Alive ==> state_ok(RowState::Dead(next))
            &&& next > cl_before(state)
        }),
{
}

/// No two clocks that a write creates have the same position.
pub proof fn positions_differ(t: TableInfo, key: i64, ids: Seq<i64>, db_version: i64, seq: int, ts: i64, i: int, j: int)
    requires
        0 <= seq,
        seq + ids.len() <= i32::MAX,
        0 <= i < j < ids.len(),
    ensures
        new_clocks(t, key, ids, db_version, seq, ts)[i].binds[2] != new_clocks(
            t,
            key,
            ids,
            db_version,
            seq,
            ts,
        )[j].binds[2],
        bumped_clocks(t, key, ids, db_version, seq, ts)[i].binds[3] != bumped_clocks(
            t,
            key,
            ids,
            db_version,
            seq,
            ts,
        )[j].binds[3],
{
}

/// A row that lives and is deleted here takes one position, and leaves the tombstone that a row
/// leaves which was found dead in the first format, at the next causal length, of the site here,
/// which is even; its live key and its clocks go. A row that does not live is left as it is.
pub proof fn deleted_rows_leave_tombstones(
    t: TableInfo,
    pks: Seq<Val>,
    state: RowState,
    db_version: i64,
    seq: i32,
    ts: i64,
)
    requires
        state_ok(state),
        cl_before(state) < i64::MAX,
    ensures
        ({
            let plan = deletion(t, pks, state, db_version, seq as int, ts);
            &&& state matches RowState::Alive(key, cl) ==> {
                &&& plan.len() >= 3
                &&& plan[0] == bound(pks_delete_sql(t), seq![Val::Integer(key)])
                &&& plan[1].sql == clock_delete_range_sql(t)
                &&& plan[1].binds == seq![Val::Integer(cell_of(key, 0)), Val::Integer(cell_of(key, 4095))]
                &&& plan.skip(2) == crate::changes_vtab_write::hydrate_dead_plan(
                    t,
                    pks,
                    pk_hash(pack(pks)),
                    (cl + 1) as i64,
                    0,
                    db_version,
                    seq as i64,
                    ts,
                )
                &&& plan[2].binds == seq![
                    Val::Integer(0),
                    Val::Integer(db_version),
                    Val::Integer(seq as i64),
                    local_row_id(t, pks),
                    Val::Integer((cl + 1) as i64),
                    Val::Integer(ts),
                ]
                &&& (cl + 1) % 2 == 0
                &&& deletion_positions(state) == 1
            }
            &&& !(state is Alive) ==> plan.len() == 0 && deletion_positions(state) == 0
        }),
{
    let plan = deletion(t, pks, state, db_version, seq as int, ts);
    if let RowState::Alive(key, cl) = state {
        assert(plan.skip(2) =~= crate::changes_vtab_write::hydrate_dead_plan(
            t,
            pks,
            pk_hash(pack(pks)),
            (cl + 1) as i64,
            0,
            db_version,
            seq as i64,
            ts,
        ));
        assert(key << 12u32 == (key << 12u32) | 0i64) by (bit_vector);
    }
}

/// The time of a write is that of the transaction, or else the one for transactions without a time;
/// once a write has taken it, the transaction has it.
pub proof fn writes_take_the_time_of_the_transaction(ext: ExtData)
    ensures
        write_time(ext) is None <==> ext.timestamp == 0 && ext.default_timestamp == 0,
        ext.timestamp != 0 ==> write_time(ext) == Some(signed(ext.timestamp as nat)) && timed(ext) == ext,
        ext.timestamp == 0 && ext.default_timestamp != 0 ==> write_time(ext) == Some(
            signed(ext.default_timestamp as nat),
        ),
        write_time(timed(ext)) == write_time(ext),
        write_time(ext) is Some ==> timed(ext).timestamp != 0,
        timed(timed(ext)) == timed(ext),
        timed(ext).timestamp == crate::changes_vtab_write::tx_time(ext),
        timed(ext) == (ExtData { timestamp: timed(ext).timestamp, ..ext }),
{
}

/// Only a row that lives can be updated.
pub proof fn only_living_rows_are_updated(state: RowState)
    ensures
        update_error(state) is None <==> state is Alive,
{
}

} // verus!
