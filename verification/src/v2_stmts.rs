//! The statements on the metadata of a table in the second format.
//!
//! Each table has a clock for each of its cells, a list of live keys with their causal
//! lengths, and a list of tombstones. A cell is known by a number: the key of its row
//! and, in the low bits, the id of its column.

use crate::result_code::ResultCode;
use crate::tableinfo::{names, ColumnInfo, SchemaVersion, TableInfo};
use crate::text::{push_part, same, texts};
use crate::util::{binding_list, column_list, escape_ident, escaped, ident_list, repeated};
use vstd::prelude::*;
use vstd::string::*;

verus! {

// ---------------------------------------------------------------------------
// Pieces
// ---------------------------------------------------------------------------
/// The columns of a primary key.
pub open spec fn pk_cols_text(pk_names: Seq<Seq<char>>) -> Seq<char> {
    ident_list(pk_names, "\""@, "\""@, ", "@)
}

/// The condition that a primary key is a list of parameters.
pub open spec fn pk_where_text(pk_names: Seq<Seq<char>>) -> Seq<char> {
    ident_list(pk_names, "\""@, "\" = ?"@, " AND "@)
}

/// The columns of a primary key, and as many parameters.
pub fn pk_cols_and_values(pks: &[ColumnInfo]) -> (r: (String, String))
    ensures
        r.0@ == pk_cols_text(names(pks@)),
        r.1@ == repeated(pks@.len(), "?"@),
{
    (column_list(pks, "\"", "\"", ", "), binding_list(pks.len()))
}

/// The condition that a primary key is a list of parameters.
pub fn pk_where(pks: &[ColumnInfo]) -> (r: String)
    ensures
        r@ == pk_where_text(names(pks@)),
{
    column_list(pks, "\"", "\" = ?", " AND ")
}

/// Creates a live key at the causal length `cl_expr`, and gives it back.
pub open spec fn pks_insert_sql(
    skip_hash: bool,
    key_is_rowid: bool,
    escaped: Seq<char>,
    pk_cols: Seq<char>,
    pk_values: Seq<char>,
    cl_expr: Seq<char>,
) -> Seq<char> {
    if skip_hash && key_is_rowid {
        "INSERT INTO \""@ + escaped + "__crsql_v2_pks\" (__crsql_key, cl) VALUES (?, "@ + cl_expr + ") RETURNING __crsql_key"@
    } else if skip_hash {
        "INSERT INTO \""@ + escaped + "__crsql_v2_pks\" ("@ + pk_cols + ", cl) VALUES ("@ + pk_values + ", "@ + cl_expr + ") RETURNING __crsql_key"@
    } else if key_is_rowid {
        "INSERT INTO \""@ + escaped + "__crsql_v2_pks\" (__crsql_key, hashed_pk, cl) VALUES (?, ?, "@ + cl_expr + ") RETURNING __crsql_key"@
    } else {
        "INSERT INTO \""@ + escaped + "__crsql_v2_pks\" ("@ + pk_cols + ", hashed_pk, cl) VALUES ("@ + pk_values + ", ?, "@ + cl_expr + ") RETURNING __crsql_key"@
    }
}

/// Creates a live key at the causal length `cl_expr`, and gives it back.
pub fn v2_pks_insert_sql(
    skip_hash: bool,
    key_is_rowid: bool,
    escaped: &str,
    pk_cols: &str,
    pk_values: &str,
    cl_expr: &str,
) -> (r: String)
    ensures
        r@ == pks_insert_sql(skip_hash, key_is_rowid, escaped@, pk_cols@, pk_values@, cl_expr@),
{
    if skip_hash && key_is_rowid {
        "INSERT INTO \"".to_owned()
            .concat(escaped)
            .concat("__crsql_v2_pks\" (__crsql_key, cl) VALUES (?, ")
            .concat(cl_expr)
            .concat(") RETURNING __crsql_key")
    } else if skip_hash {
        "INSERT INTO \"".to_owned()
            .concat(escaped)
            .concat("__crsql_v2_pks\" (")
            .concat(pk_cols)
            .concat(", cl) VALUES (")
            .concat(pk_values)
            .concat(", ")
            .concat(cl_expr)
            .concat(") RETURNING __crsql_key")
    } else if key_is_rowid {
        "INSERT INTO \"".to_owned()
            .concat(escaped)
            .concat("__crsql_v2_pks\" (__crsql_key, hashed_pk, cl) VALUES (?, ?, ")
            .concat(cl_expr)
            .concat(") RETURNING __crsql_key")
    } else {
        "INSERT INTO \"".to_owned()
            .concat(escaped)
            .concat("__crsql_v2_pks\" (")
            .concat(pk_cols)
            .concat(", hashed_pk, cl) VALUES (")
            .concat(pk_values)
            .concat(", ?, ")
            .concat(cl_expr)
            .concat(") RETURNING __crsql_key")
    }
}

/// Creates a live key of a table at a causal length, and gives it back.
pub open spec fn table_pks_insert_sql(t: TableInfo) -> Seq<char> {
    pks_insert_sql(
        t.skip_hash,
        t.key_is_rowid,
        t.table(),
        pk_cols_text(t.pk_names()),
        repeated(t.pk_names().len(), "?"@),
        "?"@,
    )
}

/// Creates a live key of a table at a causal length, and gives it back.
pub fn table_pks_insert_text(t: &TableInfo) -> (r: String)
    ensures
        r@ == table_pks_insert_sql(*t),
{
    let (pk_cols, pk_values) = pk_cols_and_values(t.pks.as_slice());
    v2_pks_insert_sql(
        t.skip_hash,
        t.key_is_rowid,
        escape_ident(t.tbl_name.as_str()).as_str(),
        pk_cols.as_str(),
        pk_values.as_str(),
        "?",
    )
}

// ---------------------------------------------------------------------------
// Statements
// ---------------------------------------------------------------------------
/// The column of the tombstones by which a row is found.
pub open spec fn pk_col_name(t: TableInfo) -> Seq<char> {
    if t.skip_hash {
        t.skip_hash_pk_col@
    } else {
        "hashed_pk"@
    }
}

/// The column of the tombstones by which a row is found.
fn pk_col(t: &TableInfo) -> (r: String)
    ensures
        r@ == pk_col_name(*t),
{
    if t.skip_hash {
        t.skip_hash_pk_col.as_str().to_owned()
    } else {
        "hashed_pk".to_owned()
    }
}

/// The condition on a tombstone that it is that of a row.
pub open spec fn tomb_where(t: TableInfo) -> Seq<char> {
    if t.skip_hash {
        "\""@ + t.skip_hash_pk_col@ + "\" = ?"@
    } else {
        "hashed_pk = ?"@
    }
}

/// The condition on a tombstone that it is that of a row.
fn tomb_where_text(t: &TableInfo) -> (r: String)
    ensures
        r@ == tomb_where(*t),
{
    if t.skip_hash {
        "\"".to_owned()
            .concat(t.skip_hash_pk_col.as_str())
            .concat("\" = ?")
    } else {
        "hashed_pk = ?".to_owned()
    }
}

/// When a tombstone that is merged replaces the one that is there.
pub open spec fn merge_where(t: TableInfo, merge_equal: i32) -> Seq<char> {
    if merge_equal == 1 {
        "WHERE excluded.cl > \""@ + t.table() + "__crsql_v2_tombstones\".cl OR (excluded.cl = \""@ + t.table() + "__crsql_v2_tombstones\".cl AND ? > (SELECT site_id FROM crsql_site_id WHERE ordinal = \""@ + t.table() + "__crsql_v2_tombstones\".site_id))"@
    } else {
        "WHERE excluded.cl > \""@ + t.table() + "__crsql_v2_tombstones\".cl"@
    }
}

/// When a tombstone that is merged replaces the one that is there.
fn merge_where_text(t: &TableInfo, merge_equal: i32) -> (r: String)
    ensures
        r@ == merge_where(*t, merge_equal),
{
    if merge_equal == 1 {
        "WHERE excluded.cl > \"".to_owned()
            .concat(escape_ident(t.tbl_name.as_str()).as_str())
            .concat("__crsql_v2_tombstones\".cl OR (excluded.cl = \"")
            .concat(escape_ident(t.tbl_name.as_str()).as_str())
            .concat("__crsql_v2_tombstones\".cl AND ? > (SELECT site_id FROM crsql_site_id WHERE ordinal = \"")
            .concat(escape_ident(t.tbl_name.as_str()).as_str())
            .concat("__crsql_v2_tombstones\".site_id))")
    } else {
        "WHERE excluded.cl > \"".to_owned()
            .concat(escape_ident(t.tbl_name.as_str()).as_str())
            .concat("__crsql_v2_tombstones\".cl")
    }
}

/// Finds the state of a row: its key and causal length where it lives, its causal length alone
/// where it is dead.
pub open spec fn lookup_row_state_sql(t: TableInfo) -> Seq<char> {
    if t.skip_hash && t.has_integer_pk && t.key_is_rowid {
        "SELECT __crsql_key, cl FROM \""@ + t.table() + "__crsql_v2_pks\" WHERE __crsql_key = ? UNION ALL SELECT NULL, cl FROM \""@ + t.table() + "__crsql_v2_tombstones\" WHERE \""@ + t.skip_hash_pk_col@ + "\" = ? LIMIT 1"@
    } else if t.skip_hash && t.key_is_rowid {
        "SELECT v2p.__crsql_key, v2p.cl FROM \""@ + t.table() + "__crsql_v2_pks\" v2p JOIN \""@ + t.table() + "\" mt ON mt.\""@ + escaped(t.rowid_alias@) + "\" = v2p.__crsql_key WHERE mt.\""@ + t.skip_hash_pk_col@ + "\" = ? UNION ALL SELECT NULL, t.cl FROM \""@ + t.table() + "__crsql_v2_tombstones\" t WHERE t.\""@ + t.skip_hash_pk_col@ + "\" = ? LIMIT 1"@
    } else if t.skip_hash {
        "SELECT __crsql_key, cl FROM \""@ + t.table() + "__crsql_v2_pks\" WHERE \""@ + t.skip_hash_pk_col@ + "\" = ? UNION ALL SELECT NULL, cl FROM \""@ + t.table() + "__crsql_v2_tombstones\" WHERE \""@ + t.skip_hash_pk_col@ + "\" = ? LIMIT 1"@
    } else {
        "SELECT __crsql_key, cl FROM \""@ + t.table() + "__crsql_v2_pks\" WHERE hashed_pk = ? UNION ALL SELECT NULL, cl FROM \""@ + t.table() + "__crsql_v2_tombstones\" WHERE hashed_pk = ? LIMIT 1"@
    }
}

/// Finds the state of a row: its key and causal length where it lives, its causal length alone
/// where it is dead.
pub fn lookup_row_state_text(t: &TableInfo) -> (r: String)
    ensures
        r@ == lookup_row_state_sql(*t),
{
    if t.skip_hash && t.has_integer_pk && t.key_is_rowid {
        "SELECT __crsql_key, cl FROM \"".to_owned()
            .concat(escape_ident(t.tbl_name.as_str()).as_str())
            .concat("__crsql_v2_pks\" WHERE __crsql_key = ? UNION ALL SELECT NULL, cl FROM \"")
            .concat(escape_ident(t.tbl_name.as_str()).as_str())
            .concat("__crsql_v2_tombstones\" WHERE \"")
            .concat(t.skip_hash_pk_col.as_str())
            .concat("\" = ? LIMIT 1")
    } else if t.skip_hash && t.key_is_rowid {
        "SELECT v2p.__crsql_key, v2p.cl FROM \"".to_owned()
            .concat(escape_ident(t.tbl_name.as_str()).as_str())
            .concat("__crsql_v2_pks\" v2p JOIN \"")
            .concat(escape_ident(t.tbl_name.as_str()).as_str())
            .concat("\" mt ON mt.\"")
            .concat(escape_ident(t.rowid_alias.as_str()).as_str())
            .concat("\" = v2p.__crsql_key WHERE mt.\"")
            .concat(t.skip_hash_pk_col.as_str())
            .concat("\" = ? UNION ALL SELECT NULL, t.cl FROM \"")
            .concat(escape_ident(t.tbl_name.as_str()).as_str())
            .concat("__crsql_v2_tombstones\" t WHERE t.\"")
            .concat(t.skip_hash_pk_col.as_str())
            .concat("\" = ? LIMIT 1")
    } else if t.skip_hash {
        "SELECT __crsql_key, cl FROM \"".to_owned()
            .concat(escape_ident(t.tbl_name.as_str()).as_str())
            .concat("__crsql_v2_pks\" WHERE \"")
            .concat(t.skip_hash_pk_col.as_str())
            .concat("\" = ? UNION ALL SELECT NULL, cl FROM \"")
            .concat(escape_ident(t.tbl_name.as_str()).as_str())
            .concat("__crsql_v2_tombstones\" WHERE \"")
            .concat(t.skip_hash_pk_col.as_str())
            .concat("\" = ? LIMIT 1")
    } else {
        "SELECT __crsql_key, cl FROM \"".to_owned()
            .concat(escape_ident(t.tbl_name.as_str()).as_str())
            .concat("__crsql_v2_pks\" WHERE hashed_pk = ? UNION ALL SELECT NULL, cl FROM \"")
            .concat(escape_ident(t.tbl_name.as_str()).as_str())
            .concat("__crsql_v2_tombstones\" WHERE hashed_pk = ? LIMIT 1")
    }
}

/// Deletes a live key.
pub open spec fn pks_delete_sql(t: TableInfo) -> Seq<char> {
    "DELETE FROM \""@ + t.table() + "__crsql_v2_pks\" WHERE __crsql_key = ?"@
}

/// Deletes a live key.
pub fn pks_delete_text(t: &TableInfo) -> (r: String)
    ensures
        r@ == pks_delete_sql(*t),
{
    "DELETE FROM \"".to_owned()
        .concat(escape_ident(t.tbl_name.as_str()).as_str())
        .concat("__crsql_v2_pks\" WHERE __crsql_key = ?")
}

/// Deletes a tombstone.
pub open spec fn tomb_delete_sql(t: TableInfo) -> Seq<char> {
    "DELETE FROM \""@ + t.table() + "__crsql_v2_tombstones\" WHERE "@ + tomb_where(t)
}

/// Deletes a tombstone.
pub fn tomb_delete_text(t: &TableInfo) -> (r: String)
    ensures
        r@ == tomb_delete_sql(*t),
{
    "DELETE FROM \"".to_owned()
        .concat(escape_ident(t.tbl_name.as_str()).as_str())
        .concat("__crsql_v2_tombstones\" WHERE ")
        .concat(tomb_where_text(t).as_str())
}

/// Writes a tombstone.
pub open spec fn tomb_insert_sql(t: TableInfo) -> Seq<char> {
    "INSERT OR REPLACE INTO \""@ + t.table() + "__crsql_v2_tombstones\" (site_id, db_version, seq, \""@ + pk_col_name(t) + "\", cl, ts) VALUES (?, ?, ?, ?, ?, ?)"@
}

/// Writes a tombstone.
pub fn tomb_insert_text(t: &TableInfo) -> (r: String)
    ensures
        r@ == tomb_insert_sql(*t),
{
    "INSERT OR REPLACE INTO \"".to_owned()
        .concat(escape_ident(t.tbl_name.as_str()).as_str())
        .concat("__crsql_v2_tombstones\" (site_id, db_version, seq, \"")
        .concat(pk_col(t).as_str())
        .concat("\", cl, ts) VALUES (?, ?, ?, ?, ?, ?)")
}

/// Merges a tombstone.
pub open spec fn tomb_upsert_sql(t: TableInfo, merge_equal: i32) -> Seq<char> {
    if t.skip_hash {
        "INSERT INTO \""@ + t.table() + "__crsql_v2_tombstones\" (site_id, db_version, seq, \""@ + pk_col_name(t) + "\", cl, ts) VALUES (?, ?, ?, ?, ?, ?) ON CONFLICT(\""@ + pk_col_name(t) + "\") DO UPDATE SET site_id = excluded.site_id, db_version = excluded.db_version, seq = excluded.seq, cl = excluded.cl, ts = excluded.ts "@ + merge_where(t, merge_equal)
    } else {
        "INSERT INTO \""@ + t.table() + "__crsql_v2_tombstones\" (site_id, db_version, seq, hashed_pk, cl, ts) VALUES (?, ?, ?, ?, ?, ?) ON CONFLICT(hashed_pk) DO UPDATE SET site_id = excluded.site_id, db_version = excluded.db_version, seq = excluded.seq, cl = excluded.cl, ts = excluded.ts "@ + merge_where(t, merge_equal)
    }
}

/// Merges a tombstone.
pub fn tomb_upsert_text(t: &TableInfo, merge_equal: i32) -> (r: String)
    ensures
        r@ == tomb_upsert_sql(*t, merge_equal),
{
    if t.skip_hash {
        "INSERT INTO \"".to_owned()
            .concat(escape_ident(t.tbl_name.as_str()).as_str())
            .concat("__crsql_v2_tombstones\" (site_id, db_version, seq, \"")
            .concat(pk_col(t).as_str())
            .concat("\", cl, ts) VALUES (?, ?, ?, ?, ?, ?) ON CONFLICT(\"")
            .concat(pk_col(t).as_str())
            .concat("\") DO UPDATE SET site_id = excluded.site_id, db_version = excluded.db_version, seq = excluded.seq, cl = excluded.cl, ts = excluded.ts ")
            .concat(merge_where_text(t, merge_equal).as_str())
    } else {
        "INSERT INTO \"".to_owned()
            .concat(escape_ident(t.tbl_name.as_str()).as_str())
            .concat("__crsql_v2_tombstones\" (site_id, db_version, seq, hashed_pk, cl, ts) VALUES (?, ?, ?, ?, ?, ?) ON CONFLICT(hashed_pk) DO UPDATE SET site_id = excluded.site_id, db_version = excluded.db_version, seq = excluded.seq, cl = excluded.cl, ts = excluded.ts ")
            .concat(merge_where_text(t, merge_equal).as_str())
    }
}

/// Deletes the primary key of a tombstone.
pub open spec fn tomb_pks_delete_sql(t: TableInfo) -> Seq<char> {
    "DELETE FROM \""@ + t.table() + "__crsql_v2_tombstone_pks\" WHERE hashed_pk = ?"@
}

/// Deletes the primary key of a tombstone.
pub fn tomb_pks_delete_text(t: &TableInfo) -> (r: String)
    ensures
        r@ == tomb_pks_delete_sql(*t),
{
    "DELETE FROM \"".to_owned()
        .concat(escape_ident(t.tbl_name.as_str()).as_str())
        .concat("__crsql_v2_tombstone_pks\" WHERE hashed_pk = ?")
}

/// Writes the primary key of a tombstone.
pub open spec fn tomb_pks_insert_sql(t: TableInfo) -> Seq<char> {
    "INSERT OR REPLACE INTO \""@ + t.table() + "__crsql_v2_tombstone_pks\" (hashed_pk, "@ + pk_cols_text(t.pk_names()) + ") VALUES (?, "@ + repeated(t.pk_names().len(), "?"@) + ")"@
}

/// Writes the primary key of a tombstone.
pub fn tomb_pks_insert_text(t: &TableInfo) -> (r: String)
    ensures
        r@ == tomb_pks_insert_sql(*t),
{
    "INSERT OR REPLACE INTO \"".to_owned()
        .concat(escape_ident(t.tbl_name.as_str()).as_str())
        .concat("__crsql_v2_tombstone_pks\" (hashed_pk, ")
        .concat(pk_cols_and_values(t.pks.as_slice()).0.as_str())
        .concat(") VALUES (?, ")
        .concat(pk_cols_and_values(t.pks.as_slice()).1.as_str())
        .concat(")")
}

/// Creates the clock of a cell.
pub open spec fn clock_insert_sql(t: TableInfo) -> Seq<char> {
    "INSERT OR REPLACE INTO \""@ + t.table() + "__crsql_v2_clock\" (cell_key, col_version, site_id, db_version, seq, ts) VALUES (?, 1, 0, ?, ?, ?)"@
}

/// Creates the clock of a cell.
pub fn clock_insert_text(t: &TableInfo) -> (r: String)
    ensures
        r@ == clock_insert_sql(*t),
{
    "INSERT OR REPLACE INTO \"".to_owned()
        .concat(escape_ident(t.tbl_name.as_str()).as_str())
        .concat("__crsql_v2_clock\" (cell_key, col_version, site_id, db_version, seq, ts) VALUES (?, 1, 0, ?, ?, ?)")
}

/// Takes the version of a cell one up, or creates its clock.
pub open spec fn clock_upsert_sql(t: TableInfo) -> Seq<char> {
    "INSERT OR REPLACE INTO \""@ + t.table() + "__crsql_v2_clock\" (cell_key, col_version, site_id, db_version, seq, ts) VALUES (?, COALESCE((SELECT col_version + 1 FROM \""@ + t.table() + "__crsql_v2_clock\" WHERE cell_key = ?), 1), 0, ?, ?, ?)"@
}

/// Takes the version of a cell one up, or creates its clock.
pub fn clock_upsert_text(t: &TableInfo) -> (r: String)
    ensures
        r@ == clock_upsert_sql(*t),
{
    "INSERT OR REPLACE INTO \"".to_owned()
        .concat(escape_ident(t.tbl_name.as_str()).as_str())
        .concat("__crsql_v2_clock\" (cell_key, col_version, site_id, db_version, seq, ts) VALUES (?, COALESCE((SELECT col_version + 1 FROM \"")
        .concat(escape_ident(t.tbl_name.as_str()).as_str())
        .concat("__crsql_v2_clock\" WHERE cell_key = ?), 1), 0, ?, ?, ?)")
}

/// Deletes the clocks of the cells in a range.
pub open spec fn clock_delete_range_sql(t: TableInfo) -> Seq<char> {
    "DELETE FROM \""@ + t.table() + "__crsql_v2_clock\" WHERE cell_key >= ? AND cell_key <= ?"@
}

/// Deletes the clocks of the cells in a range.
pub fn clock_delete_range_text(t: &TableInfo) -> (r: String)
    ensures
        r@ == clock_delete_range_sql(*t),
{
    "DELETE FROM \"".to_owned()
        .concat(escape_ident(t.tbl_name.as_str()).as_str())
        .concat("__crsql_v2_clock\" WHERE cell_key >= ? AND cell_key <= ?")
}

/// Creates clocks at version zero for all cells of a row.
pub open spec fn clock_zero_fill_sql(t: TableInfo) -> Seq<char> {
    "INSERT INTO \""@ + t.table() + "__crsql_v2_clock\" (cell_key, col_version, site_id, db_version, seq, ts) SELECT ? + col_id, 0, ?, ?, 0, crsql_get_ts() FROM \""@ + t.table() + "__crsql_v2_col_map\""@
}

/// Creates clocks at version zero for all cells of a row.
pub fn clock_zero_fill_text(t: &TableInfo) -> (r: String)
    ensures
        r@ == clock_zero_fill_sql(*t),
{
    "INSERT INTO \"".to_owned()
        .concat(escape_ident(t.tbl_name.as_str()).as_str())
        .concat("__crsql_v2_clock\" (cell_key, col_version, site_id, db_version, seq, ts) SELECT ? + col_id, 0, ?, ?, 0, crsql_get_ts() FROM \"")
        .concat(escape_ident(t.tbl_name.as_str()).as_str())
        .concat("__crsql_v2_col_map\"")
}

/// Finds the id of a column.
pub open spec fn col_id_lookup_sql(t: TableInfo) -> Seq<char> {
    "SELECT col_id FROM \""@ + t.table() + "__crsql_v2_col_map\" WHERE col_name = ?"@
}

/// Finds the id of a column.
pub fn col_id_lookup_text(t: &TableInfo) -> (r: String)
    ensures
        r@ == col_id_lookup_sql(*t),
{
    "SELECT col_id FROM \"".to_owned()
        .concat(escape_ident(t.tbl_name.as_str()).as_str())
        .concat("__crsql_v2_col_map\" WHERE col_name = ?")
}

/// Finds the ids of all columns.
pub open spec fn col_ids_all_sql(t: TableInfo) -> Seq<char> {
    "SELECT col_id FROM \""@ + t.table() + "__crsql_v2_col_map\" ORDER BY col_id"@
}

/// Finds the ids of all columns.
pub fn col_ids_all_text(t: &TableInfo) -> (r: String)
    ensures
        r@ == col_ids_all_sql(*t),
{
    "SELECT col_id FROM \"".to_owned()
        .concat(escape_ident(t.tbl_name.as_str()).as_str())
        .concat("__crsql_v2_col_map\" ORDER BY col_id")
}

/// Inserts a row by its primary key.
pub open spec fn base_insert_sql(t: TableInfo) -> Seq<char> {
    "INSERT INTO \""@ + t.table() + "\" ("@ + pk_cols_text(t.pk_names()) + ") VALUES ("@ + repeated(t.pk_names().len(), "?"@) + ")"@
}

/// Inserts a row by its primary key.
pub fn base_insert_text(t: &TableInfo) -> (r: String)
    ensures
        r@ == base_insert_sql(*t),
{
    "INSERT INTO \"".to_owned()
        .concat(escape_ident(t.tbl_name.as_str()).as_str())
        .concat("\" (")
        .concat(pk_cols_and_values(t.pks.as_slice()).0.as_str())
        .concat(") VALUES (")
        .concat(pk_cols_and_values(t.pks.as_slice()).1.as_str())
        .concat(")")
}

/// Deletes a row by its rowid.
pub open spec fn base_delete_rowid_sql(t: TableInfo) -> Seq<char> {
    "DELETE FROM \""@ + t.table() + "\" WHERE \""@ + escaped(t.rowid_alias@) + "\" = ?"@
}

/// Deletes a row by its rowid.
pub fn base_delete_rowid_text(t: &TableInfo) -> (r: String)
    ensures
        r@ == base_delete_rowid_sql(*t),
{
    "DELETE FROM \"".to_owned()
        .concat(escape_ident(t.tbl_name.as_str()).as_str())
        .concat("\" WHERE \"")
        .concat(escape_ident(t.rowid_alias.as_str()).as_str())
        .concat("\" = ?")
}

/// Deletes a row by its primary key.
pub open spec fn base_delete_nonrowid_sql(t: TableInfo) -> Seq<char> {
    "DELETE FROM \""@ + t.table() + "\" WHERE "@ + pk_where_text(t.pk_names())
}

/// Deletes a row by its primary key.
pub fn base_delete_nonrowid_text(t: &TableInfo) -> (r: String)
    ensures
        r@ == base_delete_nonrowid_sql(*t),
{
    "DELETE FROM \"".to_owned()
        .concat(escape_ident(t.tbl_name.as_str()).as_str())
        .concat("\" WHERE ")
        .concat(pk_where(t.pks.as_slice()).as_str())
}

/// Finds the rowid of a row.
pub open spec fn base_lookup_rowid_sql(t: TableInfo) -> Seq<char> {
    "SELECT \""@ + escaped(t.rowid_alias@) + "\" FROM \""@ + t.table() + "\" WHERE "@ + pk_where_text(t.pk_names())
}

/// Finds the rowid of a row.
pub fn base_lookup_rowid_text(t: &TableInfo) -> (r: String)
    ensures
        r@ == base_lookup_rowid_sql(*t),
{
    "SELECT \"".to_owned()
        .concat(escape_ident(t.rowid_alias.as_str()).as_str())
        .concat("\" FROM \"")
        .concat(escape_ident(t.tbl_name.as_str()).as_str())
        .concat("\" WHERE ")
        .concat(pk_where(t.pks.as_slice()).as_str())
}

/// Finds the primary key of a row by its key.
pub open spec fn pk_lookup_by_key_sql(t: TableInfo) -> Seq<char> {
    if t.key_is_rowid {
        "SELECT "@ + ident_list(t.pk_names(), ""@, ""@, ", "@) + " FROM \""@ + t.table() + "\" WHERE \""@ + escaped(t.rowid_alias@) + "\" = ?"@
    } else {
        "SELECT "@ + ident_list(t.pk_names(), ""@, ""@, ", "@) + " FROM \""@ + t.table() + "__crsql_v2_pks\" WHERE __crsql_key = ?"@
    }
}

/// Finds the primary key of a row by its key.
pub fn pk_lookup_by_key_text(t: &TableInfo) -> (r: String)
    ensures
        r@ == pk_lookup_by_key_sql(*t),
{
    if t.key_is_rowid {
        "SELECT ".to_owned()
            .concat(column_list(t.pks.as_slice(), "", "", ", ").as_str())
            .concat(" FROM \"")
            .concat(escape_ident(t.tbl_name.as_str()).as_str())
            .concat("\" WHERE \"")
            .concat(escape_ident(t.rowid_alias.as_str()).as_str())
            .concat("\" = ?")
    } else {
        "SELECT ".to_owned()
            .concat(column_list(t.pks.as_slice(), "", "", ", ").as_str())
            .concat(" FROM \"")
            .concat(escape_ident(t.tbl_name.as_str()).as_str())
            .concat("__crsql_v2_pks\" WHERE __crsql_key = ?")
    }
}

/// Finds the causal length in the sentinel of a row, in the first format.
pub open spec fn v1_sentinel_lookup_sql(t: TableInfo) -> Seq<char> {
    "SELECT col_version FROM \""@ + t.table() + "__crsql_clock\" WHERE key = ? AND col_name = '-1'"@
}

/// Finds the causal length in the sentinel of a row, in the first format.
pub fn v1_sentinel_lookup_text(t: &TableInfo) -> (r: String)
    ensures
        r@ == v1_sentinel_lookup_sql(*t),
{
    "SELECT col_version FROM \"".to_owned()
        .concat(escape_ident(t.tbl_name.as_str()).as_str())
        .concat("__crsql_clock\" WHERE key = ? AND col_name = '-1'")
}

/// Looks whether a row has a clock in the first format.
pub open spec fn v1_any_clock_lookup_sql(t: TableInfo) -> Seq<char> {
    "SELECT 1 FROM \""@ + t.table() + "__crsql_clock\" WHERE key = ? LIMIT 1"@
}

/// Looks whether a row has a clock in the first format.
pub fn v1_any_clock_lookup_text(t: &TableInfo) -> (r: String)
    ensures
        r@ == v1_any_clock_lookup_sql(*t),
{
    "SELECT 1 FROM \"".to_owned()
        .concat(escape_ident(t.tbl_name.as_str()).as_str())
        .concat("__crsql_clock\" WHERE key = ? LIMIT 1")
}

/// Finds who wrote the sentinel of a row, and when, in the first format.
pub open spec fn v1_sentinel_detail_sql(t: TableInfo) -> Seq<char> {
    "SELECT site_id, db_version, seq, ts FROM \""@ + t.table() + "__crsql_clock\" WHERE key = ? AND col_name = '-1'"@
}

/// Finds who wrote the sentinel of a row, and when, in the first format.
pub fn v1_sentinel_detail_text(t: &TableInfo) -> (r: String)
    ensures
        r@ == v1_sentinel_detail_sql(*t),
{
    "SELECT site_id, db_version, seq, ts FROM \"".to_owned()
        .concat(escape_ident(t.tbl_name.as_str()).as_str())
        .concat("__crsql_clock\" WHERE key = ? AND col_name = '-1'")
}

/// Deletes the clocks of a row in the first format.
pub open spec fn v1_clock_delete_sql(t: TableInfo) -> Seq<char> {
    "DELETE FROM \""@ + t.table() + "__crsql_clock\" WHERE key = ?"@
}

/// Deletes the clocks of a row in the first format.
pub fn v1_clock_delete_text(t: &TableInfo) -> (r: String)
    ensures
        r@ == v1_clock_delete_sql(*t),
{
    "DELETE FROM \"".to_owned()
        .concat(escape_ident(t.tbl_name.as_str()).as_str())
        .concat("__crsql_clock\" WHERE key = ?")
}

/// Writes the sentinel of a live row in the first format.
pub open spec fn v1_sentinel_insert_alive_sql(t: TableInfo) -> Seq<char> {
    "INSERT INTO \""@ + t.table() + "__crsql_clock\" (key, col_name, col_version, db_version, seq, site_id, ts) SELECT ?, '-1', ?, db_version, seq, site_id, CASE WHEN ts > 0 THEN ts ELSE ? END FROM (SELECT site_id, db_version, seq, ts FROM \""@ + t.table() + "__crsql_v2_clock\" WHERE cell_key = ?) LIMIT 1"@
}

/// Writes the sentinel of a live row in the first format.
pub fn v1_sentinel_insert_alive_text(t: &TableInfo) -> (r: String)
    ensures
        r@ == v1_sentinel_insert_alive_sql(*t),
{
    "INSERT INTO \"".to_owned()
        .concat(escape_ident(t.tbl_name.as_str()).as_str())
        .concat("__crsql_clock\" (key, col_name, col_version, db_version, seq, site_id, ts) SELECT ?, '-1', ?, db_version, seq, site_id, CASE WHEN ts > 0 THEN ts ELSE ? END FROM (SELECT site_id, db_version, seq, ts FROM \"")
        .concat(escape_ident(t.tbl_name.as_str()).as_str())
        .concat("__crsql_v2_clock\" WHERE cell_key = ?) LIMIT 1")
}

/// Writes the sentinel of a dead row in the first format.
pub open spec fn v1_sentinel_insert_dead_sql(t: TableInfo) -> Seq<char> {
    "INSERT INTO \""@ + t.table() + "__crsql_clock\" (key, col_name, col_version, db_version, seq, site_id, ts) SELECT ?, '-1', ?, db_version, seq, site_id, CASE WHEN ts > 0 THEN ts ELSE ? END FROM (SELECT site_id, db_version, seq, ts FROM \""@ + t.table() + "__crsql_v2_tombstones\" WHERE "@ + tomb_where(t) + ") LIMIT 1"@
}

/// Writes the sentinel of a dead row in the first format.
pub fn v1_sentinel_insert_dead_text(t: &TableInfo) -> (r: String)
    ensures
        r@ == v1_sentinel_insert_dead_sql(*t),
{
    "INSERT INTO \"".to_owned()
        .concat(escape_ident(t.tbl_name.as_str()).as_str())
        .concat("__crsql_clock\" (key, col_name, col_version, db_version, seq, site_id, ts) SELECT ?, '-1', ?, db_version, seq, site_id, CASE WHEN ts > 0 THEN ts ELSE ? END FROM (SELECT site_id, db_version, seq, ts FROM \"")
        .concat(escape_ident(t.tbl_name.as_str()).as_str())
        .concat("__crsql_v2_tombstones\" WHERE ")
        .concat(tomb_where_text(t).as_str())
        .concat(") LIMIT 1")
}

/// Copies the clocks of a row to the first format.
pub open spec fn v1_clock_copy_sql(t: TableInfo) -> Seq<char> {
    "INSERT INTO \""@ + t.table() + "__crsql_clock\" (key, col_name, col_version, db_version, seq, site_id, ts) SELECT ?, m.col_name, c.col_version, c.db_version, c.seq, c.site_id, CASE WHEN c.ts > 0 THEN c.ts ELSE ? END FROM \""@ + t.table() + "__crsql_v2_clock\" c JOIN \""@ + t.table() + "__crsql_v2_col_map\" m ON (c.cell_key & ?) = m.col_id WHERE c.cell_key >= ? AND c.cell_key <= ?"@
}

/// Copies the clocks of a row to the first format.
pub fn v1_clock_copy_text(t: &TableInfo) -> (r: String)
    ensures
        r@ == v1_clock_copy_sql(*t),
{
    "INSERT INTO \"".to_owned()
        .concat(escape_ident(t.tbl_name.as_str()).as_str())
        .concat("__crsql_clock\" (key, col_name, col_version, db_version, seq, site_id, ts) SELECT ?, m.col_name, c.col_version, c.db_version, c.seq, c.site_id, CASE WHEN c.ts > 0 THEN c.ts ELSE ? END FROM \"")
        .concat(escape_ident(t.tbl_name.as_str()).as_str())
        .concat("__crsql_v2_clock\" c JOIN \"")
        .concat(escape_ident(t.tbl_name.as_str()).as_str())
        .concat("__crsql_v2_col_map\" m ON (c.cell_key & ?) = m.col_id WHERE c.cell_key >= ? AND c.cell_key <= ?")
}

/// Copies the clocks of a row from the first format.
pub open spec fn hydrate_clock_copy_sql(t: TableInfo) -> Seq<char> {
    "INSERT INTO \""@ + t.table() + "__crsql_v2_clock\" (cell_key, col_version, site_id, db_version, seq, ts) SELECT (? << 12 | m.col_id), c.col_version, c.site_id, c.db_version, c.seq, CASE WHEN c.ts > 0 THEN c.ts ELSE ? END FROM \""@ + t.table() + "__crsql_clock\" c JOIN \""@ + t.table() + "__crsql_v2_col_map\" m ON c.col_name = m.col_name WHERE c.key = ?"@
}

/// Copies the clocks of a row from the first format.
pub fn hydrate_clock_copy_text(t: &TableInfo) -> (r: String)
    ensures
        r@ == hydrate_clock_copy_sql(*t),
{
    "INSERT INTO \"".to_owned()
        .concat(escape_ident(t.tbl_name.as_str()).as_str())
        .concat("__crsql_v2_clock\" (cell_key, col_version, site_id, db_version, seq, ts) SELECT (? << 12 | m.col_id), c.col_version, c.site_id, c.db_version, c.seq, CASE WHEN c.ts > 0 THEN c.ts ELSE ? END FROM \"")
        .concat(escape_ident(t.tbl_name.as_str()).as_str())
        .concat("__crsql_clock\" c JOIN \"")
        .concat(escape_ident(t.tbl_name.as_str()).as_str())
        .concat("__crsql_v2_col_map\" m ON c.col_name = m.col_name WHERE c.key = ?")
}

/// Finds the primary key of a dead row by its hash.
pub open spec fn lookup_pks_tomb_sql(t: TableInfo) -> Seq<char> {
    "SELECT "@ + ident_list(t.pk_names(), ""@, ""@, ", "@) + " FROM \""@ + t.table() + "__crsql_v2_tombstone_pks\" WHERE hashed_pk = ?"@
}

/// Finds the primary key of a dead row by its hash.
pub fn lookup_pks_tomb_text(t: &TableInfo) -> (r: String)
    ensures
        r@ == lookup_pks_tomb_sql(*t),
{
    "SELECT ".to_owned()
        .concat(column_list(t.pks.as_slice(), "", "", ", ").as_str())
        .concat(" FROM \"")
        .concat(escape_ident(t.tbl_name.as_str()).as_str())
        .concat("__crsql_v2_tombstone_pks\" WHERE hashed_pk = ?")
}

/// Finds the primary key of a live row by its hash.
pub open spec fn lookup_pks_alive_sql(t: TableInfo) -> Seq<char> {
    if t.key_is_rowid {
        "SELECT "@ + ident_list(t.pk_names(), "t."@, ""@, ", "@) + " FROM \""@ + t.table() + "__crsql_v2_pks\" p JOIN \""@ + t.table() + "\" t ON t.\""@ + escaped(t.rowid_alias@) + "\" = p.__crsql_key WHERE p.hashed_pk = ?"@
    } else {
        "SELECT "@ + ident_list(t.pk_names(), ""@, ""@, ", "@) + " FROM \""@ + t.table() + "__crsql_v2_pks\" WHERE hashed_pk = ?"@
    }
}

/// Finds the primary key of a live row by its hash.
pub fn lookup_pks_alive_text(t: &TableInfo) -> (r: String)
    ensures
        r@ == lookup_pks_alive_sql(*t),
{
    if t.key_is_rowid {
        "SELECT ".to_owned()
            .concat(column_list(t.pks.as_slice(), "t.", "", ", ").as_str())
            .concat(" FROM \"")
            .concat(escape_ident(t.tbl_name.as_str()).as_str())
            .concat("__crsql_v2_pks\" p JOIN \"")
            .concat(escape_ident(t.tbl_name.as_str()).as_str())
            .concat("\" t ON t.\"")
            .concat(escape_ident(t.rowid_alias.as_str()).as_str())
            .concat("\" = p.__crsql_key WHERE p.hashed_pk = ?")
    } else {
        "SELECT ".to_owned()
            .concat(column_list(t.pks.as_slice(), "", "", ", ").as_str())
            .concat(" FROM \"")
            .concat(escape_ident(t.tbl_name.as_str()).as_str())
            .concat("__crsql_v2_pks\" WHERE hashed_pk = ?")
    }
}

/// Finds the value that a cell has.
pub open spec fn current_value_sql(t: TableInfo, col: Seq<char>) -> Seq<char> {
    if t.key_is_rowid {
        "SELECT \""@ + escaped(col) + "\" FROM \""@ + t.table() + "\" WHERE \""@ + escaped(t.rowid_alias@) + "\" = ?"@
    } else {
        "SELECT \""@ + escaped(col) + "\" FROM \""@ + t.table() + "\" WHERE "@ + pk_where_text(t.pk_names())
    }
}

/// Finds the value that a cell has.
pub fn current_value_text(t: &TableInfo, col: &str) -> (r: String)
    ensures
        r@ == current_value_sql(*t, col@),
{
    if t.key_is_rowid {
        "SELECT \"".to_owned()
            .concat(escape_ident(col).as_str())
            .concat("\" FROM \"")
            .concat(escape_ident(t.tbl_name.as_str()).as_str())
            .concat("\" WHERE \"")
            .concat(escape_ident(t.rowid_alias.as_str()).as_str())
            .concat("\" = ?")
    } else {
        "SELECT \"".to_owned()
            .concat(escape_ident(col).as_str())
            .concat("\" FROM \"")
            .concat(escape_ident(t.tbl_name.as_str()).as_str())
            .concat("\" WHERE ")
            .concat(pk_where(t.pks.as_slice()).as_str())
    }
}

/// Merges the clock of a cell: it is replaced where the change has the higher version, or the same
/// version and wins otherwise.
pub open spec fn clock_merge_upsert_sql(t: TableInfo, col: Seq<char>) -> Seq<char> {
    "INSERT INTO \""@ + t.table() + "__crsql_v2_clock\" (cell_key, col_version, site_id, db_version, seq, ts) VALUES (?, ?, ?, ?, ?, ?) ON CONFLICT(cell_key) DO UPDATE SET col_version = excluded.col_version, site_id = excluded.site_id, db_version = excluded.db_version, seq = excluded.seq, ts = excluded.ts WHERE excluded.col_version > col_version OR (excluded.col_version = col_version AND crsql_change_wins(?, ("@ + current_value_sql(t, col) + "), ? > (SELECT site_id FROM crsql_site_id WHERE ordinal = \""@ + t.table() + "__crsql_v2_clock\".site_id), ?)) RETURNING cell_key"@
}

/// Merges the clock of a cell: it is replaced where the change has the higher version, or the same
/// version and wins otherwise.
pub fn clock_merge_upsert_text(t: &TableInfo, col: &str) -> (r: String)
    ensures
        r@ == clock_merge_upsert_sql(*t, col@),
{
    "INSERT INTO \"".to_owned()
        .concat(escape_ident(t.tbl_name.as_str()).as_str())
        .concat("__crsql_v2_clock\" (cell_key, col_version, site_id, db_version, seq, ts) VALUES (?, ?, ?, ?, ?, ?) ON CONFLICT(cell_key) DO UPDATE SET col_version = excluded.col_version, site_id = excluded.site_id, db_version = excluded.db_version, seq = excluded.seq, ts = excluded.ts WHERE excluded.col_version > col_version OR (excluded.col_version = col_version AND crsql_change_wins(?, (")
        .concat(current_value_text(t, col).as_str())
        .concat("), ? > (SELECT site_id FROM crsql_site_id WHERE ordinal = \"")
        .concat(escape_ident(t.tbl_name.as_str()).as_str())
        .concat("__crsql_v2_clock\".site_id), ?)) RETURNING cell_key")
}

/// Writes the value of a cell.
pub open spec fn base_update_sql(t: TableInfo, col: Seq<char>) -> Seq<char> {
    if t.key_is_rowid {
        "UPDATE \""@ + t.table() + "\" SET \""@ + escaped(col) + "\" = ? WHERE \""@ + escaped(t.rowid_alias@) + "\" = ?"@
    } else {
        "UPDATE \""@ + t.table() + "\" SET \""@ + escaped(col) + "\" = ? WHERE "@ + pk_where_text(t.pk_names())
    }
}

/// Writes the value of a cell.
pub fn base_update_text(t: &TableInfo, col: &str) -> (r: String)
    ensures
        r@ == base_update_sql(*t, col@),
{
    if t.key_is_rowid {
        "UPDATE \"".to_owned()
            .concat(escape_ident(t.tbl_name.as_str()).as_str())
            .concat("\" SET \"")
            .concat(escape_ident(col).as_str())
            .concat("\" = ? WHERE \"")
            .concat(escape_ident(t.rowid_alias.as_str()).as_str())
            .concat("\" = ?")
    } else {
        "UPDATE \"".to_owned()
            .concat(escape_ident(t.tbl_name.as_str()).as_str())
            .concat("\" SET \"")
            .concat(escape_ident(col).as_str())
            .concat("\" = ? WHERE ")
            .concat(pk_where(t.pks.as_slice()).as_str())
    }
}

/// The statements on the metadata of one table.
pub struct V2Stmts {
    lookup_row_state: String,
    pks_insert: String,
    pks_delete: String,
    tomb_delete: String,
    tomb_insert: String,
    tomb_upsert: String,
    clock_insert: String,
    clock_upsert: String,
    clock_delete_range: String,
    clock_zero_fill: String,
    col_id_lookup: String,
    col_ids_all: String,
    base_insert: String,
    base_delete_rowid: String,
    pk_lookup_by_key: String,
    tomb_pks_delete: Option<String>,
    tomb_pks_insert: Option<String>,
    base_delete_nonrowid: Option<String>,
    base_lookup_rowid: Option<String>,
    v1_sentinel_lookup: Option<String>,
    v1_any_clock_lookup: Option<String>,
    v1_sentinel_detail: Option<String>,
    v1_clock_delete: Option<String>,
    v1_sentinel_insert_alive: Option<String>,
    v1_sentinel_insert_dead: Option<String>,
    v1_clock_copy: Option<String>,
    hydrate_clock_copy: Option<String>,
    lookup_pks_tomb: Option<String>,
    lookup_pks_alive: Option<String>,
    /// The names of the columns outside the primary key.
    columns: Vec<String>,
    /// The merge of the clock of a cell, for each column.
    clock_merge_upserts: Vec<String>,
    /// The write of the value of a cell, for each column.
    base_updates: Vec<String>,
    merge_equal: i32,
}

/// What each statement does for a column, over all columns.
pub open spec fn per_column(t: TableInfo, sql: spec_fn(Seq<char>) -> Seq<char>) -> Seq<Seq<char>> {
    t.non_pk_names().map_values(sql)
}

/// A statement that is there.
pub open spec fn is_text(stmt: Option<String>, there: bool, sql: Seq<char>) -> bool {
    match stmt {
        Some(s) => there && s@ == sql,
        None => !there,
    }
}

impl V2Stmts {
    /// Whether these are the statements of a table. Those on hashes are there where rows
    /// are known by hashes, those on the first format where the table has metadata in
    /// both.
    pub closed spec fn prepared_for(self, t: TableInfo, merge_equal: i32) -> bool {
        let has_v1 = t.schema_version == SchemaVersion::V2AndV1;
        &&& self.lookup_row_state@ == lookup_row_state_sql(t)
        &&& self.pks_insert@ == table_pks_insert_sql(t)
        &&& self.pks_delete@ == pks_delete_sql(t)
        &&& self.tomb_delete@ == tomb_delete_sql(t)
        &&& self.tomb_insert@ == tomb_insert_sql(t)
        &&& self.tomb_upsert@ == tomb_upsert_sql(t, merge_equal)
        &&& self.clock_insert@ == clock_insert_sql(t)
        &&& self.clock_upsert@ == clock_upsert_sql(t)
        &&& self.clock_delete_range@ == clock_delete_range_sql(t)
        &&& self.clock_zero_fill@ == clock_zero_fill_sql(t)
        &&& self.col_id_lookup@ == col_id_lookup_sql(t)
        &&& self.col_ids_all@ == col_ids_all_sql(t)
        &&& self.base_insert@ == base_insert_sql(t)
        &&& self.base_delete_rowid@ == base_delete_rowid_sql(t)
        &&& self.pk_lookup_by_key@ == pk_lookup_by_key_sql(t)
        &&& is_text(self.tomb_pks_delete, !t.skip_hash, tomb_pks_delete_sql(t))
        &&& is_text(self.tomb_pks_insert, !t.skip_hash, tomb_pks_insert_sql(t))
        &&& is_text(self.base_delete_nonrowid, !t.key_is_rowid, base_delete_nonrowid_sql(t))
        &&& is_text(self.base_lookup_rowid, t.key_is_rowid, base_lookup_rowid_sql(t))
        &&& is_text(self.v1_sentinel_lookup, has_v1, v1_sentinel_lookup_sql(t))
        &&& is_text(self.v1_any_clock_lookup, has_v1, v1_any_clock_lookup_sql(t))
        &&& is_text(self.v1_sentinel_detail, has_v1, v1_sentinel_detail_sql(t))
        &&& is_text(self.v1_clock_delete, has_v1, v1_clock_delete_sql(t))
        &&& is_text(self.v1_sentinel_insert_alive, has_v1, v1_sentinel_insert_alive_sql(t))
        &&& is_text(self.v1_sentinel_insert_dead, has_v1, v1_sentinel_insert_dead_sql(t))
        &&& is_text(self.v1_clock_copy, has_v1, v1_clock_copy_sql(t))
        &&& is_text(self.hydrate_clock_copy, has_v1, hydrate_clock_copy_sql(t))
        &&& is_text(self.lookup_pks_tomb, !t.skip_hash, lookup_pks_tomb_sql(t))
        &&& is_text(self.lookup_pks_alive, !t.skip_hash, lookup_pks_alive_sql(t))
        &&& texts(self.columns@) == t.non_pk_names()
        &&& texts(self.clock_merge_upserts@) == per_column(t, |col| clock_merge_upsert_sql(t, col))
        &&& texts(self.base_updates@) == per_column(t, |col| base_update_sql(t, col))
        &&& self.merge_equal == merge_equal
    }

    /// The statements of a table. `merge_equal` says whether equal tombstones are told
    /// apart by their sites.
    pub fn prepare(t: &TableInfo, merge_equal: i32) -> (r: V2Stmts)
        ensures
            r.prepared_for(*t, merge_equal),
    {
        let has_v1: bool = matches!(t.schema_version, SchemaVersion::V2AndV1);
        let mut columns: Vec<String> = Vec::new();
        let mut clock_merge_upserts: Vec<String> = Vec::new();
        let mut base_updates: Vec<String> = Vec::new();
        let mut i: usize = 0;
        let ghost merges = per_column(*t, |col| clock_merge_upsert_sql(*t, col));
        let ghost updates = per_column(*t, |col| base_update_sql(*t, col));
        while i < t.non_pks.len()
            invariant
                i <= t.non_pks@.len(),
                merges == per_column(*t, |col| clock_merge_upsert_sql(*t, col)),
                updates == per_column(*t, |col| base_update_sql(*t, col)),
                texts(columns@) =~= t.non_pk_names().take(i as int),
                texts(clock_merge_upserts@) =~= merges.take(i as int),
                texts(base_updates@) =~= updates.take(i as int),
            decreases t.non_pks@.len() - i,
        {
            let name = t.non_pks[i].name.as_str();
            push_part(&mut columns, name.to_owned());
            push_part(&mut clock_merge_upserts, clock_merge_upsert_text(t, name));
            push_part(&mut base_updates, base_update_text(t, name));
            i = i + 1;
        }
        assert(texts(columns@) =~= t.non_pk_names());
        assert(texts(clock_merge_upserts@) =~= merges);
        assert(texts(base_updates@) =~= updates);
        V2Stmts {
            lookup_row_state: lookup_row_state_text(t),
            pks_insert: table_pks_insert_text(t),
            pks_delete: pks_delete_text(t),
            tomb_delete: tomb_delete_text(t),
            tomb_insert: tomb_insert_text(t),
            tomb_upsert: tomb_upsert_text(t, merge_equal),
            clock_insert: clock_insert_text(t),
            clock_upsert: clock_upsert_text(t),
            clock_delete_range: clock_delete_range_text(t),
            clock_zero_fill: clock_zero_fill_text(t),
            col_id_lookup: col_id_lookup_text(t),
            col_ids_all: col_ids_all_text(t),
            base_insert: base_insert_text(t),
            base_delete_rowid: base_delete_rowid_text(t),
            pk_lookup_by_key: pk_lookup_by_key_text(t),
            tomb_pks_delete: if !t.skip_hash {
                Some(tomb_pks_delete_text(t))
            } else {
                None
            },
            tomb_pks_insert: if !t.skip_hash {
                Some(tomb_pks_insert_text(t))
            } else {
                None
            },
            base_delete_nonrowid: if !t.key_is_rowid {
                Some(base_delete_nonrowid_text(t))
            } else {
                None
            },
            base_lookup_rowid: if t.key_is_rowid {
                Some(base_lookup_rowid_text(t))
            } else {
                None
            },
            v1_sentinel_lookup: if has_v1 {
                Some(v1_sentinel_lookup_text(t))
            } else {
                None
            },
            v1_any_clock_lookup: if has_v1 {
                Some(v1_any_clock_lookup_text(t))
            } else {
                None
            },
            v1_sentinel_detail: if has_v1 {
                Some(v1_sentinel_detail_text(t))
            } else {
                None
            },
            v1_clock_delete: if has_v1 {
                Some(v1_clock_delete_text(t))
            } else {
                None
            },
            v1_sentinel_insert_alive: if has_v1 {
                Some(v1_sentinel_insert_alive_text(t))
            } else {
                None
            },
            v1_sentinel_insert_dead: if has_v1 {
                Some(v1_sentinel_insert_dead_text(t))
            } else {
                None
            },
            v1_clock_copy: if has_v1 {
                Some(v1_clock_copy_text(t))
            } else {
                None
            },
            hydrate_clock_copy: if has_v1 {
                Some(hydrate_clock_copy_text(t))
            } else {
                None
            },
            lookup_pks_tomb: if !t.skip_hash {
                Some(lookup_pks_tomb_text(t))
            } else {
                None
            },
            lookup_pks_alive: if !t.skip_hash {
                Some(lookup_pks_alive_text(t))
            } else {
                None
            },
            columns,
            clock_merge_upserts,
            base_updates,
            merge_equal,
        }
    }

    /// Finds the state of a row: its key and causal length where it lives, its causal length alone
    /// where it is dead.
    pub fn lookup_row_state(&self) -> (r: &str)
        ensures
            forall|t: TableInfo, m: i32| #[trigger] self.prepared_for(t, m) ==> r@ == lookup_row_state_sql(t),
    {
        self.lookup_row_state.as_str()
    }

    /// Creates a live key, and gives it back.
    pub fn pks_insert(&self) -> (r: &str)
        ensures
            forall|t: TableInfo, m: i32| #[trigger] self.prepared_for(t, m) ==> r@ == table_pks_insert_sql(t),
    {
        self.pks_insert.as_str()
    }

    /// Deletes a live key.
    pub fn pks_delete(&self) -> (r: &str)
        ensures
            forall|t: TableInfo, m: i32| #[trigger] self.prepared_for(t, m) ==> r@ == pks_delete_sql(t),
    {
        self.pks_delete.as_str()
    }

    /// Deletes a tombstone.
    pub fn tomb_delete(&self) -> (r: &str)
        ensures
            forall|t: TableInfo, m: i32| #[trigger] self.prepared_for(t, m) ==> r@ == tomb_delete_sql(t),
    {
        self.tomb_delete.as_str()
    }

    /// Writes a tombstone.
    pub fn tomb_insert(&self) -> (r: &str)
        ensures
            forall|t: TableInfo, m: i32| #[trigger] self.prepared_for(t, m) ==> r@ == tomb_insert_sql(t),
    {
        self.tomb_insert.as_str()
    }

    /// Merges a tombstone.
    pub fn tomb_upsert(&self) -> (r: &str)
        ensures
            forall|t: TableInfo, m: i32| #[trigger] self.prepared_for(t, m) ==> r@ == tomb_upsert_sql(t, m),
    {
        self.tomb_upsert.as_str()
    }

    /// Creates the clock of a cell.
    pub fn clock_insert(&self) -> (r: &str)
        ensures
            forall|t: TableInfo, m: i32| #[trigger] self.prepared_for(t, m) ==> r@ == clock_insert_sql(t),
    {
        self.clock_insert.as_str()
    }

    /// Takes the version of a cell one up, or creates its clock.
    pub fn clock_upsert(&self) -> (r: &str)
        ensures
            forall|t: TableInfo, m: i32| #[trigger] self.prepared_for(t, m) ==> r@ == clock_upsert_sql(t),
    {
        self.clock_upsert.as_str()
    }

    /// Deletes the clocks of the cells in a range.
    pub fn clock_delete_range(&self) -> (r: &str)
        ensures
            forall|t: TableInfo, m: i32| #[trigger] self.prepared_for(t, m) ==> r@ == clock_delete_range_sql(t),
    {
        self.clock_delete_range.as_str()
    }

    /// Creates clocks at version zero for all cells of a row.
    pub fn clock_zero_fill(&self) -> (r: &str)
        ensures
            forall|t: TableInfo, m: i32| #[trigger] self.prepared_for(t, m) ==> r@ == clock_zero_fill_sql(t),
    {
        self.clock_zero_fill.as_str()
    }

    /// Finds the id of a column.
    pub fn col_id_lookup(&self) -> (r: &str)
        ensures
            forall|t: TableInfo, m: i32| #[trigger] self.prepared_for(t, m) ==> r@ == col_id_lookup_sql(t),
    {
        self.col_id_lookup.as_str()
    }

    /// Finds the ids of all columns.
    pub fn col_ids_all(&self) -> (r: &str)
        ensures
            forall|t: TableInfo, m: i32| #[trigger] self.prepared_for(t, m) ==> r@ == col_ids_all_sql(t),
    {
        self.col_ids_all.as_str()
    }

    /// Inserts a row by its primary key.
    pub fn base_insert(&self) -> (r: &str)
        ensures
            forall|t: TableInfo, m: i32| #[trigger] self.prepared_for(t, m) ==> r@ == base_insert_sql(t),
    {
        self.base_insert.as_str()
    }

    /// Deletes a row by its rowid.
    pub fn base_delete_rowid(&self) -> (r: &str)
        ensures
            forall|t: TableInfo, m: i32| #[trigger] self.prepared_for(t, m) ==> r@ == base_delete_rowid_sql(t),
    {
        self.base_delete_rowid.as_str()
    }

    /// Finds the primary key of a row by its key.
    pub fn pk_lookup_by_key(&self) -> (r: &str)
        ensures
            forall|t: TableInfo, m: i32| #[trigger] self.prepared_for(t, m) ==> r@ == pk_lookup_by_key_sql(t),
    {
        self.pk_lookup_by_key.as_str()
    }

    /// Deletes the primary key of a tombstone.
    pub fn tomb_pks_delete(&self) -> (r: Result<&str, ResultCode>)
        ensures
            forall|t: TableInfo, m: i32| #[trigger]
                self.prepared_for(t, m) ==> stmt_is(r, !t.skip_hash, tomb_pks_delete_sql(t)),
    {
        text_or_error(&self.tomb_pks_delete)
    }

    /// Writes the primary key of a tombstone.
    pub fn tomb_pks_insert(&self) -> (r: Result<&str, ResultCode>)
        ensures
            forall|t: TableInfo, m: i32| #[trigger]
                self.prepared_for(t, m) ==> stmt_is(r, !t.skip_hash, tomb_pks_insert_sql(t)),
    {
        text_or_error(&self.tomb_pks_insert)
    }

    /// Deletes a row by its primary key.
    pub fn base_delete_nonrowid(&self) -> (r: Result<&str, ResultCode>)
        ensures
            forall|t: TableInfo, m: i32| #[trigger]
                self.prepared_for(t, m) ==> stmt_is(r, !t.key_is_rowid, base_delete_nonrowid_sql(t)),
    {
        text_or_error(&self.base_delete_nonrowid)
    }

    /// Finds the rowid of a row.
    pub fn base_lookup_rowid(&self) -> (r: Result<&str, ResultCode>)
        ensures
            forall|t: TableInfo, m: i32| #[trigger]
                self.prepared_for(t, m) ==> stmt_is(r, t.key_is_rowid, base_lookup_rowid_sql(t)),
    {
        text_or_error(&self.base_lookup_rowid)
    }

    /// Finds the causal length in the sentinel of a row, in the first format.
    pub fn v1_sentinel_lookup(&self) -> (r: Result<&str, ResultCode>)
        ensures
            forall|t: TableInfo, m: i32| #[trigger]
                self.prepared_for(t, m) ==> stmt_is(r, t.schema_version == SchemaVersion::V2AndV1, v1_sentinel_lookup_sql(t)),
    {
        text_or_error(&self.v1_sentinel_lookup)
    }

    /// Looks whether a row has a clock in the first format.
    pub fn v1_any_clock_lookup(&self) -> (r: Result<&str, ResultCode>)
        ensures
            forall|t: TableInfo, m: i32| #[trigger]
                self.prepared_for(t, m) ==> stmt_is(r, t.schema_version == SchemaVersion::V2AndV1, v1_any_clock_lookup_sql(t)),
    {
        text_or_error(&self.v1_any_clock_lookup)
    }

    /// Finds who wrote the sentinel of a row, and when, in the first format.
    pub fn v1_sentinel_detail(&self) -> (r: Result<&str, ResultCode>)
        ensures
            forall|t: TableInfo, m: i32| #[trigger]
                self.prepared_for(t, m) ==> stmt_is(r, t.schema_version == SchemaVersion::V2AndV1, v1_sentinel_detail_sql(t)),
    {
        text_or_error(&self.v1_sentinel_detail)
    }

    /// Deletes the clocks of a row in the first format.
    pub fn v1_clock_delete(&self) -> (r: Result<&str, ResultCode>)
        ensures
            forall|t: TableInfo, m: i32| #[trigger]
                self.prepared_for(t, m) ==> stmt_is(r, t.schema_version == SchemaVersion::V2AndV1, v1_clock_delete_sql(t)),
    {
        text_or_error(&self.v1_clock_delete)
    }

    /// Writes the sentinel of a live row in the first format.
    pub fn v1_sentinel_insert_alive(&self) -> (r: Result<&str, ResultCode>)
        ensures
            forall|t: TableInfo, m: i32| #[trigger]
                self.prepared_for(t, m) ==> stmt_is(r, t.schema_version == SchemaVersion::V2AndV1, v1_sentinel_insert_alive_sql(t)),
    {
        text_or_error(&self.v1_sentinel_insert_alive)
    }

    /// Writes the sentinel of a dead row in the first format.
    pub fn v1_sentinel_insert_dead(&self) -> (r: Result<&str, ResultCode>)
        ensures
            forall|t: TableInfo, m: i32| #[trigger]
                self.prepared_for(t, m) ==> stmt_is(r, t.schema_version == SchemaVersion::V2AndV1, v1_sentinel_insert_dead_sql(t)),
    {
        text_or_error(&self.v1_sentinel_insert_dead)
    }

    /// Copies the clocks of a row to the first format.
    pub fn v1_clock_copy(&self) -> (r: Result<&str, ResultCode>)
        ensures
            forall|t: TableInfo, m: i32| #[trigger]
                self.prepared_for(t, m) ==> stmt_is(r, t.schema_version == SchemaVersion::V2AndV1, v1_clock_copy_sql(t)),
    {
        text_or_error(&self.v1_clock_copy)
    }

    /// Copies the clocks of a row from the first format.
    pub fn hydrate_clock_copy(&self) -> (r: Result<&str, ResultCode>)
        ensures
            forall|t: TableInfo, m: i32| #[trigger]
                self.prepared_for(t, m) ==> stmt_is(r, t.schema_version == SchemaVersion::V2AndV1, hydrate_clock_copy_sql(t)),
    {
        text_or_error(&self.hydrate_clock_copy)
    }

    /// Finds the primary key of a dead row by its hash.
    pub fn lookup_pks_tomb(&self) -> (r: Result<&str, ResultCode>)
        ensures
            forall|t: TableInfo, m: i32| #[trigger]
                self.prepared_for(t, m) ==> stmt_is(r, !t.skip_hash, lookup_pks_tomb_sql(t)),
    {
        text_or_error(&self.lookup_pks_tomb)
    }

    /// Finds the primary key of a live row by its hash.
    pub fn lookup_pks_alive(&self) -> (r: Result<&str, ResultCode>)
        ensures
            forall|t: TableInfo, m: i32| #[trigger]
                self.prepared_for(t, m) ==> stmt_is(r, !t.skip_hash, lookup_pks_alive_sql(t)),
    {
        text_or_error(&self.lookup_pks_alive)
    }

    /// The merge of the clock of a cell in this column; an error where there is no such
    /// column.
    pub fn clock_merge_upsert(&self, col_name: &str) -> (r: Result<&str, ResultCode>)
        ensures
            forall|t: TableInfo, m: i32| #[trigger]
                self.prepared_for(t, m) ==> stmt_is(
                    r,
                    t.non_pk_names().contains(col_name@),
                    clock_merge_upsert_sql(t, col_name@),
                ),
    {
        let r = find_text(&self.columns, &self.clock_merge_upserts, col_name);
        proof {
            assert forall|t: TableInfo, m: i32| #[trigger] self.prepared_for(t, m) implies stmt_is(
                r,
                t.non_pk_names().contains(col_name@),
                clock_merge_upsert_sql(t, col_name@),
            ) by {
                lemma_found(self.columns@, self.clock_merge_upserts@, t, |col| clock_merge_upsert_sql(t, col), col_name@, r);
            }
        }
        r
    }

    /// The write of the value of a cell in this column; an error where there is no such
    /// column.
    pub fn base_update(&self, col_name: &str) -> (r: Result<&str, ResultCode>)
        ensures
            forall|t: TableInfo, m: i32| #[trigger]
                self.prepared_for(t, m) ==> stmt_is(
                    r,
                    t.non_pk_names().contains(col_name@),
                    base_update_sql(t, col_name@),
                ),
    {
        let r = find_text(&self.columns, &self.base_updates, col_name);
        proof {
            assert forall|t: TableInfo, m: i32| #[trigger] self.prepared_for(t, m) implies stmt_is(
                r,
                t.non_pk_names().contains(col_name@),
                base_update_sql(t, col_name@),
            ) by {
                lemma_found(self.columns@, self.base_updates@, t, |col| base_update_sql(t, col), col_name@, r);
            }
        }
        r
    }

    /// The `merge_equal` that the statements were made with.
    pub fn merge_equal(&self) -> (r: i32)
        ensures
            forall|t: TableInfo, m: i32| #[trigger] self.prepared_for(t, m) ==> r == m,
    {
        self.merge_equal
    }
}

/// Whether a statement that was asked for is `sql`, or there is none and that is an
/// error.
pub open spec fn stmt_is(r: Result<&str, ResultCode>, there: bool, sql: Seq<char>) -> bool {
    match r {
        Ok(s) => there && s@ == sql,
        Err(e) => !there && e == ResultCode::ERROR,
    }
}

fn text_or_error(stmt: &Option<String>) -> (r: Result<&str, ResultCode>)
    ensures
        match *stmt {
            Some(s) => r matches Ok(t) && t@ == s@,
            None => r matches Err(e) && e == ResultCode::ERROR,
        },
{
    match stmt {
        Some(s) => Ok(s.as_str()),
        None => Err(ResultCode::ERROR),
    }
}

/// The statement of the first column with this name.
spec fn found(columns: Seq<String>, stmts: Seq<String>, name: Seq<char>, r: Result<&str, ResultCode>) -> bool {
    match r {
        Ok(s) => exists|i: int|
            0 <= i < columns.len() && i < stmts.len() && #[trigger] columns[i]@ == name && s@ == stmts[i]@,
        Err(e) => e == ResultCode::ERROR && (columns.len() == stmts.len() ==> forall|i: int|
            0 <= i < columns.len() ==> #[trigger] columns[i]@ != name),
    }
}

fn find_text<'a>(columns: &Vec<String>, stmts: &'a Vec<String>, name: &str) -> (r: Result<&'a str, ResultCode>)
    ensures
        found(columns@, stmts@, name@, r),
{
    let mut i: usize = 0;
    while i < columns.len() && i < stmts.len()
        invariant
            i <= columns@.len(),
            i <= stmts@.len(),
            forall|j: int| 0 <= j < i ==> #[trigger] columns@[j]@ != name@,
        decreases columns@.len() - i,
    {
        if same(columns[i].as_str(), name) {
            assert(columns@[i as int]@ == name@);
            return Ok(stmts[i].as_str());
        }
        i = i + 1;
    }
    Err(ResultCode::ERROR)
}

proof fn lemma_found(
    columns: Seq<String>,
    stmts: Seq<String>,
    t: TableInfo,
    sql: spec_fn(Seq<char>) -> Seq<char>,
    name: Seq<char>,
    r: Result<&str, ResultCode>,
)
    requires
        texts(columns) == t.non_pk_names(),
        texts(stmts) == per_column(t, sql),
        found(columns, stmts, name, r),
    ensures
        stmt_is(r, t.non_pk_names().contains(name), sql(name)),
{
    assert(columns.len() == stmts.len()) by {
        assert(texts(columns).len() == texts(stmts).len());
    }
    match r {
        Ok(s) => {
            let i = choose|i: int|
                0 <= i < columns.len() && i < stmts.len() && #[trigger] columns[i]@ == name && s@ == stmts[i]@;
            assert(texts(columns)[i] == name);
            assert(texts(stmts)[i] == sql(t.non_pk_names()[i]));
        },
        Err(_) => {
            if t.non_pk_names().contains(name) {
                let i = choose|i: int| 0 <= i < t.non_pk_names().len() && t.non_pk_names()[i] == name;
                assert(texts(columns)[i] == columns[i]@);
            }
        },
    }
}

impl TableInfo {
    /// The statements on the metadata of the table: those that are there, or new ones
    /// where there are none, or none for this `merge_equal`.
    pub fn get_v2_stmts(&self, cached: Option<V2Stmts>, merge_equal: i32) -> (r: V2Stmts)
        requires
            cached matches Some(stmts) ==> exists|m: i32| #[trigger] stmts.prepared_for(*self, m),
        ensures
            r.prepared_for(*self, merge_equal),
    {
        match cached {
            Some(stmts) => if stmts.merge_equal() != merge_equal {
                V2Stmts::prepare(self, merge_equal)
            } else {
                stmts
            },
            None => V2Stmts::prepare(self, merge_equal),
        }
    }
}

} // verus!
