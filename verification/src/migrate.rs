//! Moving metadata from the first format to the second, and dropping those that are no
//! longer needed, in small steps.

use crate::changes_vtab_read::{column_pair_list, ident_pair_list};
use crate::config::ensure_timestamp;
use crate::ext_data::ExtData;
use crate::result_code::ResultCode;
use crate::tableinfo::{SchemaVersion, TableInfo};
use crate::text::{decimal, decimal_of, from_chars, push_part, texts, to_chars};
use crate::util::{as_identifier_list, escape_ident, escaped, identifier_text};
use crate::v2_stmts::{pk_cols_and_values, pk_cols_text};
use vstd::prelude::*;
use vstd::slice::slice_subrange;
use vstd::string::*;

verus! {

// ---------------------------------------------------------------------------
// Statements
// ---------------------------------------------------------------------------
/// The join with the live keys, by the primary key `pk_cols` or by its hash.
pub open spec fn pks_join(t: TableInfo, pk_cols: Seq<char>) -> Seq<char> {
    if t.skip_hash && t.key_is_rowid {
        "JOIN \""@ + t.table() + "\" b ON b.\""@ + t.skip_hash_pk_col@ + "\" = "@ + pk_cols + "
             JOIN \""@ + t.table() + "__crsql_v2_pks\" vp ON vp.__crsql_key = b.\""@ + escaped(t.rowid_alias@) + "\""@
    } else if t.skip_hash {
        "JOIN \""@ + t.table() + "__crsql_v2_pks\" vp ON vp.\""@ + t.skip_hash_pk_col@ + "\" = "@ + pk_cols
    } else {
        "JOIN \""@ + t.table() + "__crsql_v2_pks\" vp ON vp.hashed_pk = crsql_hash_pk("@ + pk_cols + ")"@
    }
}

/// The join with the live keys, by the primary key `pk_cols` or by its hash.
pub fn v2_pks_join_clause(t: &TableInfo, pk_cols: &str) -> (r: String)
    ensures
        r@ == pks_join(*t, pk_cols@),
{
    if t.skip_hash && t.key_is_rowid {
        "JOIN \"".to_owned()
            .concat(escape_ident(t.tbl_name.as_str()).as_str())
            .concat("\" b ON b.\"")
            .concat(t.skip_hash_pk_col.as_str())
            .concat("\" = ")
            .concat(pk_cols)
            .concat("
             JOIN \"")
            .concat(escape_ident(t.tbl_name.as_str()).as_str())
            .concat("__crsql_v2_pks\" vp ON vp.__crsql_key = b.\"")
            .concat(escape_ident(t.rowid_alias.as_str()).as_str())
            .concat("\"")
    } else if t.skip_hash {
        "JOIN \"".to_owned()
            .concat(escape_ident(t.tbl_name.as_str()).as_str())
            .concat("__crsql_v2_pks\" vp ON vp.\"")
            .concat(t.skip_hash_pk_col.as_str())
            .concat("\" = ")
            .concat(pk_cols)
    } else {
        "JOIN \"".to_owned()
            .concat(escape_ident(t.tbl_name.as_str()).as_str())
            .concat("__crsql_v2_pks\" vp ON vp.hashed_pk = crsql_hash_pk(")
            .concat(pk_cols)
            .concat(")")
    }
}

/// A part that is there where rows are known by hashes.
pub open spec fn hash_part(skip_hash: bool, part: Seq<char>) -> Seq<char> {
    if skip_hash {
        seq![]
    } else {
        part
    }
}

fn hash_part_text(skip_hash: bool, part: &str) -> (r: String)
    ensures
        r@ == hash_part(skip_hash, part@),
{
    if skip_hash {
        String::new()
    } else {
        part.to_owned()
    }
}

/// Counts the rows that are still to be migrated, from those behind `start_key` on.
pub open spec fn count_left_sql(t: TableInfo, start_key: i64) -> Seq<char> {
    "SELECT count(*) FROM \""@ + t.table() + "__crsql_pks\" WHERE __crsql_key > "@ + decimal_of(start_key as int) + "\0"@
}

/// Counts the rows that are still to be migrated, from those behind `start_key` on.
pub fn count_left(t: &TableInfo, start_key: i64) -> (r: String)
    ensures
        r@ == count_left_sql(*t, start_key),
{
    "SELECT count(*) FROM \"".to_owned()
        .concat(escape_ident(t.tbl_name.as_str()).as_str())
        .concat("__crsql_pks\" WHERE __crsql_key > ")
        .concat(decimal(start_key).as_str())
        .concat("\0")
}

/// Creates the table of the rows that are migrated together.
pub open spec fn chunk_table_sql(t: TableInfo) -> Seq<char> {
    "CREATE TEMP TABLE migration_chunk (
               __crsql_key INTEGER PRIMARY KEY,
               "@ + pk_cols_text(t.pk_names()) + ",
               sentinel_version INTEGER,
               sentinel_site_id INTEGER,
               sentinel_db_version INTEGER,
               sentinel_seq INTEGER,
               sentinel_ts TEXT,
               is_alive INTEGER"@ + hash_part(t.skip_hash, ", hashed_pk BLOB"@) + "
             )"@
}

/// Creates the table of the rows that are migrated together.
fn chunk_table_text(t: &TableInfo) -> (r: String)
    ensures
        r@ == chunk_table_sql(*t),
{
    "CREATE TEMP TABLE migration_chunk (
               __crsql_key INTEGER PRIMARY KEY,
               ".to_owned()
        .concat(pk_cols_and_values(t.pks.as_slice()).0.as_str())
        .concat(",
               sentinel_version INTEGER,
               sentinel_site_id INTEGER,
               sentinel_db_version INTEGER,
               sentinel_seq INTEGER,
               sentinel_ts TEXT,
               is_alive INTEGER")
        .concat(hash_part_text(t.skip_hash, ", hashed_pk BLOB").as_str())
        .concat("
             )")
}

/// Fills the table of the rows that are migrated together, with what their sentinels say.
pub open spec fn chunk_fill_sql(t: TableInfo, start_key: i64, chunk_size: i64) -> Seq<char> {
    "INSERT INTO temp.migration_chunk
             SELECT p.__crsql_key, "@ + ident_pair_list(t.pk_names(), "p.\""@, "\" as \""@, "\""@, ", "@) + ",
               s.col_version as sentinel_version, s.site_id as sentinel_site_id,
               s.db_version as sentinel_db_version, s.seq as sentinel_seq,
               s.ts as sentinel_ts,
               CASE WHEN s.col_version IS NULL OR s.col_version % 2 != 0 THEN 1 ELSE 0 END as is_alive
               "@ + hash_part(t.skip_hash, ", crsql_hash_pk("@ + identifier_text(t.pk_names(), "p."@) + ") as hashed_pk"@) + "
             FROM \""@ + t.table() + "__crsql_pks\" p
             LEFT JOIN \""@ + t.table() + "__crsql_clock\" s
               ON p.__crsql_key = s.key AND s.col_name = '-1'
             WHERE p.__crsql_key > "@ + decimal_of(start_key as int) + "
             ORDER BY p.__crsql_key LIMIT "@ + decimal_of(chunk_size as int)
}

/// Fills the table of the rows that are migrated together, with what their sentinels say.
fn chunk_fill_text(t: &TableInfo, start_key: i64, chunk_size: i64) -> (r: String)
    ensures
        r@ == chunk_fill_sql(*t, start_key, chunk_size),
{
    "INSERT INTO temp.migration_chunk
             SELECT p.__crsql_key, ".to_owned()
        .concat(column_pair_list(t.pks.as_slice(), "p.\"", "\" as \"", "\"", ", ").as_str())
        .concat(",
               s.col_version as sentinel_version, s.site_id as sentinel_site_id,
               s.db_version as sentinel_db_version, s.seq as sentinel_seq,
               s.ts as sentinel_ts,
               CASE WHEN s.col_version IS NULL OR s.col_version % 2 != 0 THEN 1 ELSE 0 END as is_alive
               ")
        .concat(hash_part_text(t.skip_hash, ", crsql_hash_pk(".to_owned().concat(as_identifier_list(t.pks.as_slice(), Some("p.")).as_str()).concat(") as hashed_pk").as_str()).as_str())
        .concat("
             FROM \"")
        .concat(escape_ident(t.tbl_name.as_str()).as_str())
        .concat("__crsql_pks\" p
             LEFT JOIN \"")
        .concat(escape_ident(t.tbl_name.as_str()).as_str())
        .concat("__crsql_clock\" s
               ON p.__crsql_key = s.key AND s.col_name = '-1'
             WHERE p.__crsql_key > ")
        .concat(decimal(start_key).as_str())
        .concat("
             ORDER BY p.__crsql_key LIMIT ")
        .concat(decimal(chunk_size).as_str())
}

/// The columns of a live key.
pub open spec fn live_key_columns(t: TableInfo) -> Seq<char> {
    if t.skip_hash && t.key_is_rowid {
        "__crsql_key, cl"@
    } else if t.skip_hash {
        pk_cols_text(t.pk_names()) + ", cl"@
    } else if t.key_is_rowid {
        "__crsql_key, hashed_pk, cl"@
    } else {
        pk_cols_text(t.pk_names()) + ", hashed_pk, cl"@
    }
}

/// The columns of a live key.
fn live_key_columns_text(t: &TableInfo) -> (r: String)
    ensures
        r@ == live_key_columns(*t),
{
    if t.skip_hash && t.key_is_rowid {
        "__crsql_key, cl".to_owned()
    } else if t.skip_hash {
        pk_cols_and_values(t.pks.as_slice()).0.as_str().to_owned().concat(", cl")
    } else if t.key_is_rowid {
        "__crsql_key, hashed_pk, cl".to_owned()
    } else {
        pk_cols_and_values(t.pks.as_slice()).0.as_str().to_owned().concat(", hashed_pk, cl")
    }
}

/// The live key of a row that is migrated.
pub open spec fn chunk_key(t: TableInfo) -> Seq<char> {
    if t.skip_hash && t.key_is_rowid {
        "b.rowid"@
    } else if t.skip_hash {
        identifier_text(t.pk_names(), "chunk."@)
    } else if t.key_is_rowid {
        "b.rowid, chunk.hashed_pk"@
    } else {
        identifier_text(t.pk_names(), "chunk."@) + ", chunk.hashed_pk"@
    }
}

/// The live key of a row that is migrated.
fn chunk_key_text(t: &TableInfo) -> (r: String)
    ensures
        r@ == chunk_key(*t),
{
    if t.skip_hash && t.key_is_rowid {
        "b.rowid".to_owned()
    } else if t.skip_hash {
        as_identifier_list(t.pks.as_slice(), Some("chunk.")).as_str().to_owned()
    } else if t.key_is_rowid {
        "b.rowid, chunk.hashed_pk".to_owned()
    } else {
        as_identifier_list(t.pks.as_slice(), Some("chunk.")).as_str().to_owned().concat(", chunk.hashed_pk")
    }
}

/// The join of the rows that are migrated with their table.
pub open spec fn chunk_base_join(t: TableInfo) -> Seq<char> {
    "JOIN \""@ + t.table() + "\" b ON "@ + ident_pair_list(t.pk_names(), "b.\""@, "\" = chunk.\""@, "\""@, " AND "@)
}

/// The join of the rows that are migrated with their table.
fn chunk_base_join_text(t: &TableInfo) -> (r: String)
    ensures
        r@ == chunk_base_join(*t),
{
    "JOIN \"".to_owned()
        .concat(escape_ident(t.tbl_name.as_str()).as_str())
        .concat("\" b ON ")
        .concat(column_pair_list(t.pks.as_slice(), "b.\"", "\" = chunk.\"", "\"", " AND ").as_str())
}

/// Creates the live keys of the rows that live.
pub open spec fn chunk_pks_sql(t: TableInfo) -> Seq<char> {
    "INSERT OR IGNORE INTO \""@ + t.table() + "__crsql_v2_pks\" ("@ + live_key_columns(t) + ")
             SELECT "@ + chunk_key(t) + ", COALESCE(chunk.sentinel_version, 1)
             FROM temp.migration_chunk chunk
             "@ + chunk_base_join(t) + "
             WHERE chunk.is_alive = 1"@
}

/// Creates the live keys of the rows that live.
fn chunk_pks_text(t: &TableInfo) -> (r: String)
    ensures
        r@ == chunk_pks_sql(*t),
{
    "INSERT OR IGNORE INTO \"".to_owned()
        .concat(escape_ident(t.tbl_name.as_str()).as_str())
        .concat("__crsql_v2_pks\" (")
        .concat(live_key_columns_text(t).as_str())
        .concat(")
             SELECT ")
        .concat(chunk_key_text(t).as_str())
        .concat(", COALESCE(chunk.sentinel_version, 1)
             FROM temp.migration_chunk chunk
             ")
        .concat(chunk_base_join_text(t).as_str())
        .concat("
             WHERE chunk.is_alive = 1")
}

/// The column by which a tombstone is found.
pub open spec fn tomb_column(t: TableInfo) -> Seq<char> {
    if t.skip_hash {
        "\""@ + t.skip_hash_pk_col@ + "\""@
    } else {
        "hashed_pk"@
    }
}

/// The column by which a tombstone is found.
fn tomb_column_text(t: &TableInfo) -> (r: String)
    ensures
        r@ == tomb_column(*t),
{
    if t.skip_hash {
        "\"".to_owned()
            .concat(t.skip_hash_pk_col.as_str())
            .concat("\"")
    } else {
        "hashed_pk".to_owned()
    }
}

/// The key of the tombstone of a row that is migrated.
pub open spec fn tomb_key(t: TableInfo) -> Seq<char> {
    if t.skip_hash {
        identifier_text(t.pk_names(), "chunk."@)
    } else {
        "chunk.hashed_pk"@
    }
}

/// The key of the tombstone of a row that is migrated.
fn tomb_key_text(t: &TableInfo) -> (r: String)
    ensures
        r@ == tomb_key(*t),
{
    if t.skip_hash {
        as_identifier_list(t.pks.as_slice(), Some("chunk.")).as_str().to_owned()
    } else {
        "chunk.hashed_pk".to_owned()
    }
}

/// Creates the tombstones of the rows that are dead.
pub open spec fn chunk_tombs_sql(t: TableInfo, ts: i64) -> Seq<char> {
    "INSERT OR IGNORE INTO \""@ + t.table() + "__crsql_v2_tombstones\"
             (site_id, db_version, seq, "@ + tomb_column(t) + ", cl, ts)
             SELECT chunk.sentinel_site_id, chunk.sentinel_db_version, chunk.sentinel_seq,
               "@ + tomb_key(t) + ", chunk.sentinel_version,
               CASE WHEN CAST(chunk.sentinel_ts AS INTEGER) > 0 THEN CAST(chunk.sentinel_ts AS INTEGER) ELSE "@ + decimal_of(ts as int) + " END
             FROM temp.migration_chunk chunk
             WHERE chunk.is_alive = 0"@
}

/// Creates the tombstones of the rows that are dead.
fn chunk_tombs_text(t: &TableInfo, ts: i64) -> (r: String)
    ensures
        r@ == chunk_tombs_sql(*t, ts),
{
    "INSERT OR IGNORE INTO \"".to_owned()
        .concat(escape_ident(t.tbl_name.as_str()).as_str())
        .concat("__crsql_v2_tombstones\"
             (site_id, db_version, seq, ")
        .concat(tomb_column_text(t).as_str())
        .concat(", cl, ts)
             SELECT chunk.sentinel_site_id, chunk.sentinel_db_version, chunk.sentinel_seq,
               ")
        .concat(tomb_key_text(t).as_str())
        .concat(", chunk.sentinel_version,
               CASE WHEN CAST(chunk.sentinel_ts AS INTEGER) > 0 THEN CAST(chunk.sentinel_ts AS INTEGER) ELSE ")
        .concat(decimal(ts).as_str())
        .concat(" END
             FROM temp.migration_chunk chunk
             WHERE chunk.is_alive = 0")
}

/// Keeps the primary keys of the rows that are dead.
pub open spec fn chunk_tomb_pks_sql(t: TableInfo) -> Seq<char> {
    "INSERT OR IGNORE INTO \""@ + t.table() + "__crsql_v2_tombstone_pks\" ("@ + pk_cols_text(t.pk_names()) + ", hashed_pk)
                 SELECT "@ + identifier_text(t.pk_names(), "chunk."@) + ", chunk.hashed_pk
                 FROM temp.migration_chunk chunk
                 WHERE chunk.is_alive = 0"@
}

/// Keeps the primary keys of the rows that are dead.
fn chunk_tomb_pks_text(t: &TableInfo) -> (r: String)
    ensures
        r@ == chunk_tomb_pks_sql(*t),
{
    "INSERT OR IGNORE INTO \"".to_owned()
        .concat(escape_ident(t.tbl_name.as_str()).as_str())
        .concat("__crsql_v2_tombstone_pks\" (")
        .concat(pk_cols_and_values(t.pks.as_slice()).0.as_str())
        .concat(", hashed_pk)
                 SELECT ")
        .concat(as_identifier_list(t.pks.as_slice(), Some("chunk.")).as_str())
        .concat(", chunk.hashed_pk
                 FROM temp.migration_chunk chunk
                 WHERE chunk.is_alive = 0")
}

/// The join of the rows that are migrated with their live keys.
pub open spec fn chunk_pks_join(t: TableInfo) -> Seq<char> {
    pks_join(t, identifier_text(t.pk_names(), "chunk."@))
}

/// The join of the rows that are migrated with their live keys.
fn chunk_pks_join_text(t: &TableInfo) -> (r: String)
    ensures
        r@ == chunk_pks_join(*t),
{
    v2_pks_join_clause(t, as_identifier_list(t.pks.as_slice(), Some("chunk.")).as_str())
}

/// Copies the clocks of the rows that live.
pub open spec fn chunk_clocks_sql(t: TableInfo, ts: i64) -> Seq<char> {
    "INSERT OR IGNORE INTO \""@ + t.table() + "__crsql_v2_clock\"
                 (cell_key, col_version, site_id, db_version, seq, ts)
                 SELECT (vp.__crsql_key << 12) | m.col_id,
                   c.col_version, c.site_id, c.db_version, c.seq,
                   CASE WHEN CAST(c.ts AS INTEGER) > 0 THEN CAST(c.ts AS INTEGER) ELSE "@ + decimal_of(ts as int) + " END
                 FROM \""@ + t.table() + "__crsql_clock\" c
                 JOIN temp.migration_chunk chunk
                   ON c.key = chunk.__crsql_key
                 "@ + chunk_pks_join(t) + "
                 JOIN \""@ + t.table() + "__crsql_v2_col_map\" m ON c.col_name = m.col_name
                 WHERE c.col_name != '-1' AND chunk.is_alive = 1"@
}

/// Copies the clocks of the rows that live.
fn chunk_clocks_text(t: &TableInfo, ts: i64) -> (r: String)
    ensures
        r@ == chunk_clocks_sql(*t, ts),
{
    "INSERT OR IGNORE INTO \"".to_owned()
        .concat(escape_ident(t.tbl_name.as_str()).as_str())
        .concat("__crsql_v2_clock\"
                 (cell_key, col_version, site_id, db_version, seq, ts)
                 SELECT (vp.__crsql_key << 12) | m.col_id,
                   c.col_version, c.site_id, c.db_version, c.seq,
                   CASE WHEN CAST(c.ts AS INTEGER) > 0 THEN CAST(c.ts AS INTEGER) ELSE ")
        .concat(decimal(ts).as_str())
        .concat(" END
                 FROM \"")
        .concat(escape_ident(t.tbl_name.as_str()).as_str())
        .concat("__crsql_clock\" c
                 JOIN temp.migration_chunk chunk
                   ON c.key = chunk.__crsql_key
                 ")
        .concat(chunk_pks_join_text(t).as_str())
        .concat("
                 JOIN \"")
        .concat(escape_ident(t.tbl_name.as_str()).as_str())
        .concat("__crsql_v2_col_map\" m ON c.col_name = m.col_name
                 WHERE c.col_name != '-1' AND chunk.is_alive = 1")
}

/// Creates the clocks of the rows that live as a whole, for a table without columns outside its
/// primary key.
pub open spec fn chunk_row_clocks_sql(t: TableInfo, ts: i64) -> Seq<char> {
    "INSERT OR IGNORE INTO \""@ + t.table() + "__crsql_v2_clock\"
                 (cell_key, col_version, site_id, db_version, seq, ts)
                 SELECT (vp.__crsql_key << 12) | 0,
                   COALESCE(chunk.sentinel_version, 1), COALESCE(chunk.sentinel_site_id, 0),
                   COALESCE(chunk.sentinel_db_version, 0), COALESCE(chunk.sentinel_seq, 0),
                   CASE WHEN CAST(COALESCE(chunk.sentinel_ts, '0') AS INTEGER) > 0 THEN CAST(chunk.sentinel_ts AS INTEGER) ELSE "@ + decimal_of(ts as int) + " END
                 FROM temp.migration_chunk chunk
                 "@ + chunk_pks_join(t) + "
                 WHERE chunk.is_alive = 1"@
}

/// Creates the clocks of the rows that live as a whole, for a table without columns outside its
/// primary key.
fn chunk_row_clocks_text(t: &TableInfo, ts: i64) -> (r: String)
    ensures
        r@ == chunk_row_clocks_sql(*t, ts),
{
    "INSERT OR IGNORE INTO \"".to_owned()
        .concat(escape_ident(t.tbl_name.as_str()).as_str())
        .concat("__crsql_v2_clock\"
                 (cell_key, col_version, site_id, db_version, seq, ts)
                 SELECT (vp.__crsql_key << 12) | 0,
                   COALESCE(chunk.sentinel_version, 1), COALESCE(chunk.sentinel_site_id, 0),
                   COALESCE(chunk.sentinel_db_version, 0), COALESCE(chunk.sentinel_seq, 0),
                   CASE WHEN CAST(COALESCE(chunk.sentinel_ts, '0') AS INTEGER) > 0 THEN CAST(chunk.sentinel_ts AS INTEGER) ELSE ")
        .concat(decimal(ts).as_str())
        .concat(" END
                 FROM temp.migration_chunk chunk
                 ")
        .concat(chunk_pks_join_text(t).as_str())
        .concat("
                 WHERE chunk.is_alive = 1")
}

/// The live key of a row that was never tracked, at causal length 1.
pub open spec fn untracked_key(t: TableInfo) -> Seq<char> {
    if t.skip_hash && t.key_is_rowid {
        "b.rowid, 1"@
    } else if t.skip_hash {
        identifier_text(t.pk_names(), "b."@) + ", 1"@
    } else if t.key_is_rowid {
        "b.rowid, crsql_hash_pk("@ + identifier_text(t.pk_names(), "b."@) + "), 1"@
    } else {
        identifier_text(t.pk_names(), "b."@) + ", crsql_hash_pk("@ + identifier_text(t.pk_names(), "b."@) + "), 1"@
    }
}

/// The live key of a row that was never tracked, at causal length 1.
fn untracked_key_text(t: &TableInfo) -> (r: String)
    ensures
        r@ == untracked_key(*t),
{
    if t.skip_hash && t.key_is_rowid {
        "b.rowid, 1".to_owned()
    } else if t.skip_hash {
        as_identifier_list(t.pks.as_slice(), Some("b.")).as_str().to_owned().concat(", 1")
    } else if t.key_is_rowid {
        "b.rowid, crsql_hash_pk(".to_owned()
            .concat(as_identifier_list(t.pks.as_slice(), Some("b.")).as_str())
            .concat("), 1")
    } else {
        as_identifier_list(t.pks.as_slice(), Some("b.")).as_str().to_owned()
            .concat(", crsql_hash_pk(")
            .concat(as_identifier_list(t.pks.as_slice(), Some("b.")).as_str())
            .concat("), 1")
    }
}

/// The condition that a live key is that of a row.
pub open spec fn untracked_where(t: TableInfo) -> Seq<char> {
    if t.skip_hash && t.key_is_rowid {
        "vp.__crsql_key = b.\""@ + escaped(t.rowid_alias@) + "\""@
    } else if t.skip_hash {
        "vp.\""@ + t.skip_hash_pk_col@ + "\" = b.\""@ + t.skip_hash_pk_col@ + "\""@
    } else {
        "vp.hashed_pk = crsql_hash_pk("@ + identifier_text(t.pk_names(), "b."@) + ")"@
    }
}

/// The condition that a live key is that of a row.
fn untracked_where_text(t: &TableInfo) -> (r: String)
    ensures
        r@ == untracked_where(*t),
{
    if t.skip_hash && t.key_is_rowid {
        "vp.__crsql_key = b.\"".to_owned()
            .concat(escape_ident(t.rowid_alias.as_str()).as_str())
            .concat("\"")
    } else if t.skip_hash {
        "vp.\"".to_owned()
            .concat(t.skip_hash_pk_col.as_str())
            .concat("\" = b.\"")
            .concat(t.skip_hash_pk_col.as_str())
            .concat("\"")
    } else {
        "vp.hashed_pk = crsql_hash_pk(".to_owned()
            .concat(as_identifier_list(t.pks.as_slice(), Some("b.")).as_str())
            .concat(")")
    }
}

/// Creates live keys for the rows that have none.
pub open spec fn untracked_sql(t: TableInfo) -> Seq<char> {
    "INSERT OR IGNORE INTO \""@ + t.table() + "__crsql_v2_pks\" ("@ + live_key_columns(t) + ")
         SELECT "@ + untracked_key(t) + "
         FROM \""@ + t.table() + "\" b
         WHERE NOT EXISTS (
           SELECT 1 FROM \""@ + t.table() + "__crsql_v2_pks\" vp
           WHERE "@ + untracked_where(t) + "
         )"@
}

/// Creates live keys for the rows that have none.
pub fn backfill_untracked_v2_pks(t: &TableInfo) -> (r: String)
    ensures
        r@ == untracked_sql(*t),
{
    "INSERT OR IGNORE INTO \"".to_owned()
        .concat(escape_ident(t.tbl_name.as_str()).as_str())
        .concat("__crsql_v2_pks\" (")
        .concat(live_key_columns_text(t).as_str())
        .concat(")
         SELECT ")
        .concat(untracked_key_text(t).as_str())
        .concat("
         FROM \"")
        .concat(escape_ident(t.tbl_name.as_str()).as_str())
        .concat("\" b
         WHERE NOT EXISTS (
           SELECT 1 FROM \"")
        .concat(escape_ident(t.tbl_name.as_str()).as_str())
        .concat("__crsql_v2_pks\" vp
           WHERE ")
        .concat(untracked_where_text(t).as_str())
        .concat("
         )")
}

/// Counts the rows of a table of metadata.
pub open spec fn count_rows_sql(table: Seq<char>, suffix: Seq<char>) -> Seq<char> {
    "SELECT count(*) FROM \""@ + escaped(table) + suffix + "\"\0"@
}

/// Counts the rows of a table of metadata.
pub fn count_rows(table: &str, suffix: &str) -> (r: String)
    ensures
        r@ == count_rows_sql(table@, suffix@),
{
    "SELECT count(*) FROM \"".to_owned()
        .concat(escape_ident(table).as_str())
        .concat(suffix)
        .concat("\"\0")
}

/// Deletes some rows of a table of metadata.
pub open spec fn delete_chunk_sql(table: Seq<char>, suffix: Seq<char>, chunk_size: i64) -> Seq<char> {
    "DELETE FROM \""@ + escaped(table) + suffix + "\" LIMIT "@ + decimal_of(chunk_size as int)
}

/// Deletes some rows of a table of metadata.
pub fn delete_chunk(table: &str, suffix: &str, chunk_size: i64) -> (r: String)
    ensures
        r@ == delete_chunk_sql(table@, suffix@, chunk_size),
{
    "DELETE FROM \"".to_owned()
        .concat(escape_ident(table).as_str())
        .concat(suffix)
        .concat("\" LIMIT ")
        .concat(decimal(chunk_size).as_str())
}

/// Drops a table of metadata.
pub open spec fn drop_metadata_sql(table: Seq<char>, suffix: Seq<char>) -> Seq<char> {
    "DROP TABLE IF EXISTS \""@ + escaped(table) + suffix + "\";"@
}

/// Drops a table of metadata.
pub fn drop_metadata(table: &str, suffix: &str) -> (r: String)
    ensures
        r@ == drop_metadata_sql(table@, suffix@),
{
    "DROP TABLE IF EXISTS \"".to_owned()
        .concat(escape_ident(table).as_str())
        .concat(suffix)
        .concat("\";")
}

/// Starts a step of a migration.
pub const MIGRATION_BEGIN_SQL: &'static str = "SAVEPOINT migration_chunk";

/// Ends a step of a migration.
pub const MIGRATION_END_SQL: &'static str = "RELEASE migration_chunk";

/// Undoes a step of a migration.
pub const MIGRATION_UNDO_SQL: &'static str = "ROLLBACK TO migration_chunk";

/// Drops the table of the rows that are migrated together.
pub const CHUNK_DROP_SQL: &'static str = "DROP TABLE IF EXISTS temp.migration_chunk";

/// Finds how far a step of a migration came.
pub const CHUNK_MAX_KEY_SQL: &'static str = "SELECT max(__crsql_key) FROM temp.migration_chunk\0";

/// Lists the keys that match a pattern.
pub const MASTER_KEYS_LIKE_SQL: &'static str = "SELECT key FROM crsql_master WHERE key LIKE ?\0";

/// Starts a step of a clean-up.
pub const CLEANUP_BEGIN_SQL: &'static str = "SAVEPOINT cleanup_chunk";

/// Ends a step of a clean-up.
pub const CLEANUP_END_SQL: &'static str = "RELEASE cleanup_chunk";

/// Undoes a step of a clean-up.
pub const CLEANUP_UNDO_SQL: &'static str = "ROLLBACK";

// ---------------------------------------------------------------------------
// Migration
// ---------------------------------------------------------------------------
/// The statements, to be run in their order, that choose the rows of a step of a migration;
/// the last one says how many there are.
pub fn migration_chunk_rows(t: &TableInfo, start_key: i64, chunk_size: i64) -> (r: Vec<String>)
    ensures
        texts(r@) == seq![
            "DROP TABLE IF EXISTS temp.migration_chunk"@,
            chunk_table_sql(*t),
            chunk_fill_sql(*t, start_key, chunk_size),
        ],
{
    let mut plan: Vec<String> = Vec::new();
    assert(texts(plan@) =~= seq![]);
    push_part(&mut plan, "DROP TABLE IF EXISTS temp.migration_chunk".to_owned());
    push_part(&mut plan, chunk_table_text(t));
    push_part(&mut plan, chunk_fill_text(t, start_key, chunk_size));
    assert(texts(plan@) =~= seq![
        "DROP TABLE IF EXISTS temp.migration_chunk"@,
        chunk_table_sql(*t),
        chunk_fill_sql(*t, start_key, chunk_size),
    ]);
    plan
}

/// The statements that migrate the rows of a step: live keys first, since clocks are found by
/// them.
pub open spec fn chunk_sql(t: TableInfo, ts: i64) -> Seq<Seq<char>> {
    seq![chunk_pks_sql(t), chunk_tombs_sql(t, ts)] + (if t.skip_hash {
        seq![]
    } else {
        seq![chunk_tomb_pks_sql(t)]
    }) + (if t.non_pks@.len() > 0 {
        seq![chunk_clocks_sql(t, ts)]
    } else {
        seq![chunk_row_clocks_sql(t, ts)]
    })
}

/// The statements, to be run in their order, that migrate the rows of a step: `ts` is the time
/// of the transaction.
pub fn migration_chunk_steps(t: &TableInfo, ts: i64) -> (r: Vec<String>)
    ensures
        texts(r@) == chunk_sql(*t, ts),
{
    let mut plan: Vec<String> = Vec::new();
    assert(texts(plan@) =~= seq![]);
    push_part(&mut plan, chunk_pks_text(t));
    push_part(&mut plan, chunk_tombs_text(t, ts));
    if !t.skip_hash {
        push_part(&mut plan, chunk_tomb_pks_text(t));
    }
    if t.non_pks.len() > 0 {
        push_part(&mut plan, chunk_clocks_text(t, ts));
    } else {
        push_part(&mut plan, chunk_row_clocks_text(t, ts));
    }
    assert(texts(plan@) =~= chunk_sql(*t, ts));
    plan
}

/// What to do at the end of a step of a migration.
#[derive(Clone, Copy, PartialEq, Eq, Structural, Debug)]
pub enum ChunkEnd {
    /// All rows of the table are migrated: give live keys to rows that were never tracked, and
    /// forget the migration.
    Complete,
    /// By the estimate all are: forget it, and count.
    Recount,
    /// Keep this as the estimate of the rows that are left.
    Keep(i64),
}

/// What to do at the end of a step of a migration that has gone through `processed` rows,
/// where `estimate` were left before it.
pub fn migrate_v1_to_v2_chunk(processed: i64, estimate: i64) -> (r: ChunkEnd)
    requires
        processed >= 0,
        estimate - processed >= i64::MIN,
    ensures
        r == (if processed == 0 {
            ChunkEnd::Complete
        } else if estimate - processed <= 0 {
            ChunkEnd::Recount
        } else {
            ChunkEnd::Keep((estimate - processed) as i64)
        }),
{
    let left: i64 = estimate - processed;
    if processed == 0 {
        ChunkEnd::Complete
    } else if left <= 0 {
        ChunkEnd::Recount
    } else {
        ChunkEnd::Keep(left)
    }
}

// ---------------------------------------------------------------------------
// Clean-up
// ---------------------------------------------------------------------------
/// What the names of the tables of metadata in the first format end with.
pub fn v1_suffixes() -> (r: Vec<String>)
    ensures
        texts(r@) == seq!["__crsql_clock"@, "__crsql_pks"@],
{
    let mut r: Vec<String> = Vec::new();
    assert(texts(r@) =~= seq![]);
    push_part(&mut r, "__crsql_clock".to_owned());
    push_part(&mut r, "__crsql_pks".to_owned());
    assert(texts(r@) =~= seq!["__crsql_clock"@, "__crsql_pks"@]);
    r
}

/// What the names of the tables of metadata in the second format end with.
pub fn v2_suffixes() -> (r: Vec<String>)
    ensures
        texts(r@) == seq![
            "__crsql_v2_col_map"@,
            "__crsql_v2_clock"@,
            "__crsql_v2_pks"@,
            "__crsql_v2_tombstones"@,
            "__crsql_v2_tombstone_pks"@,
        ],
{
    let mut r: Vec<String> = Vec::new();
    assert(texts(r@) =~= seq![]);
    push_part(&mut r, "__crsql_v2_col_map".to_owned());
    push_part(&mut r, "__crsql_v2_clock".to_owned());
    push_part(&mut r, "__crsql_v2_pks".to_owned());
    push_part(&mut r, "__crsql_v2_tombstones".to_owned());
    push_part(&mut r, "__crsql_v2_tombstone_pks".to_owned());
    assert(texts(r@) =~= seq![
        "__crsql_v2_col_map"@,
        "__crsql_v2_clock"@,
        "__crsql_v2_pks"@,
        "__crsql_v2_tombstones"@,
        "__crsql_v2_tombstone_pks"@,
    ]);
    r
}

/// The table that a key of the settings is about: what follows `prefix`.
pub open spec fn after_prefix(key: Seq<char>, prefix: Seq<char>) -> Option<Seq<char>> {
    if key.len() >= prefix.len() && key.take(prefix.len() as int) == prefix {
        Some(key.skip(prefix.len() as int))
    } else {
        None
    }
}

fn strip_prefix(key: &str, prefix: &str) -> (r: Option<String>)
    ensures
        match after_prefix(key@, prefix@) {
            Some(s) => r matches Some(t) && t@ == s,
            None => r is None,
        },
{
    let k = to_chars(key);
    let p = to_chars(prefix);
    if k.len() < p.len() {
        return None;
    }
    let mut i: usize = 0;
    while i < p.len()
        invariant
            i <= p@.len() <= k@.len(),
            k@ == key@,
            p@ == prefix@,
            forall|j: int| 0 <= j < i ==> k@[j] == p@[j],
        decreases p@.len() - i,
    {
        if k[i] != p[i] {
            assert(key@.take(prefix@.len() as int)[i as int] != prefix@[i as int]);
            return None;
        }
        i = i + 1;
    }
    assert(key@.take(prefix@.len() as int) =~= prefix@);
    let rest = slice_subrange(k.as_slice(), p.len(), k.len());
    assert(rest@ =~= key@.skip(prefix@.len() as int));
    Some(from_chars(rest))
}

/// The tables that keys of the settings are about.
pub open spec fn task_tables(keys: Seq<Seq<char>>, prefix: Seq<char>) -> Seq<Seq<char>>
    decreases keys.len(),
{
    if keys.len() == 0 {
        seq![]
    } else {
        match after_prefix(keys.last(), prefix) {
            Some(table) => task_tables(keys.drop_last(), prefix).push(table),
            None => task_tables(keys.drop_last(), prefix),
        }
    }
}

/// The pattern of the keys of the tasks of one kind.
pub fn task_pattern(marker_prefix: &str) -> (r: String)
    ensures
        r@ == marker_prefix@ + "_%"@,
{
    marker_prefix.to_owned().concat("_%")
}

/// The tables that there is a task of one kind for, from the keys that match its pattern.
pub fn process_cleanup_tasks(keys: &[String], marker_prefix: &str) -> (r: Vec<String>)
    ensures
        texts(r@) == task_tables(texts(keys@), marker_prefix@ + "_"@),
{
    let prefix = marker_prefix.to_owned().concat("_");
    let mut tables: Vec<String> = Vec::new();
    let mut i: usize = 0;
    assert(texts(keys@).take(0) =~= seq![]);
    assert(texts(tables@) =~= seq![]);
    while i < keys.len()
        invariant
            i <= keys@.len(),
            prefix@ == marker_prefix@ + "_"@,
            texts(tables@) == task_tables(texts(keys@).take(i as int), prefix@),
        decreases keys@.len() - i,
    {
        proof {
            let now = texts(keys@).take(i + 1);
            assert(now.drop_last() =~= texts(keys@).take(i as int));
            assert(now.last() == keys@[i as int]@);
        }
        match strip_prefix(keys[i].as_str(), prefix.as_str()) {
            Some(table) => push_part(&mut tables, table),
            None => {},
        }
        i = i + 1;
    }
    assert(texts(keys@).take(i as int) =~= texts(keys@));
    tables
}

/// What to do at the end of a step of a clean-up.
#[derive(Clone, Copy, PartialEq, Eq, Structural, Debug)]
pub enum CleanupEnd {
    /// The tables are empty: drop them, and forget the count.
    Drop,
    /// By the estimate the tables are empty: count.
    Recount,
    /// This many rows are left.
    Left(i64),
}

/// What to do at the end of a step of a clean-up that has deleted `deleted` rows, where
/// `cached_total` were there at first. Where no row was deleted from any table, all are empty.
pub open spec fn cleanup_end(cached_total: int, deleted: int) -> CleanupEnd {
    if deleted == 0 {
        CleanupEnd::Drop
    } else if cached_total - deleted <= 0 {
        CleanupEnd::Recount
    } else {
        CleanupEnd::Left((cached_total - deleted) as i64)
    }
}

/// What to do at the end of a step of a clean-up.
pub fn cleanup_tables_chunk(cached_total: i64, deleted: i64) -> (r: CleanupEnd)
    requires
        deleted >= 0,
        cached_total - deleted >= i64::MIN,
    ensures
        r == cleanup_end(cached_total as int, deleted as int),
{
    if deleted == 0 {
        return CleanupEnd::Drop;
    }
    let left: i64 = cached_total - deleted;
    if left <= 0 {
        CleanupEnd::Recount
    } else {
        CleanupEnd::Left(left)
    }
}

/// What to do once the rows that are left were counted.
#[derive(Clone, Copy, PartialEq, Eq, Structural, Debug)]
pub enum RecountEnd {
    /// The tables are empty: drop them, and forget the count.
    Drop,
    /// Keep `cache` for the count; `left` rows are left.
    Keep { cache: i64, left: i64 },
}

/// What to do once the rows that are left were counted, `actual` of them, after `deleted` were
/// deleted.
pub fn cleanup_recounted(actual: i64, deleted: i64) -> (r: RecountEnd)
    requires
        i64::MIN <= actual + deleted <= i64::MAX,
    ensures
        r == (if actual == 0 {
            RecountEnd::Drop
        } else {
            RecountEnd::Keep { cache: (actual + deleted) as i64, left: actual }
        }),
{
    if actual == 0 {
        RecountEnd::Drop
    } else {
        RecountEnd::Keep { cache: actual + deleted, left: actual }
    }
}

/// How many rows a step of a clean-up leaves; `actual` is the count that was made where one was
/// called for.
pub open spec fn cleanup_left(end: CleanupEnd, actual: int) -> int {
    match end {
        CleanupEnd::Drop => 0,
        CleanupEnd::Recount => actual,
        CleanupEnd::Left(n) => n as int,
    }
}

/// A step of a clean-up leaves nothing exactly where the tables are dropped.
pub proof fn nothing_left_means_dropped(cached_total: int, deleted: int, actual: int)
    requires
        actual >= 0,
        i64::MIN <= cached_total - deleted <= i64::MAX,
    ensures
        ({
            let end = cleanup_end(cached_total, deleted);
            cleanup_left(end, actual) == 0 <==> (end == CleanupEnd::Drop || (end == CleanupEnd::Recount
                && actual == 0))
        }),
{
}

// ---------------------------------------------------------------------------
// Maintenance
// ---------------------------------------------------------------------------
/// How far a call of the maintenance has come.
#[derive(Clone, Copy, PartialEq, Eq, Structural, Debug)]
pub struct Maintenance {
    /// How many rows may still be migrated.
    pub budget: i64,
    /// How many rows are left, of the tables that were gone through; 0 only where none are.
    pub remaining: i32,
}

/// What to do about a table.
#[derive(Clone, Copy, PartialEq, Eq, Structural, Debug)]
pub enum TableTask {
    /// Nothing: it has no metadata in the first format, or none in the second to count for.
    Skip,
    /// Find out how many of its rows are left.
    CountOnly,
    /// Create metadata in the second format, then migrate some of its rows.
    CreateAndMigrate,
    /// Migrate some of its rows.
    Migrate,
}

impl Maintenance {
    /// What to do about a table: it is migrated while the budget lasts, and else counted.
    pub open spec fn task(self, version: SchemaVersion, has_v2: bool) -> TableTask {
        if version == SchemaVersion::V2 {
            TableTask::Skip
        } else if self.budget <= 0 {
            if has_v2 {
                TableTask::CountOnly
            } else {
                TableTask::Skip
            }
        } else if has_v2 {
            TableTask::Migrate
        } else {
            TableTask::CreateAndMigrate
        }
    }

    /// The start of a call that may migrate `chunk_size` rows. A transaction without a time is
    /// an error.
    pub fn incremental_maintenance(ext: &mut ExtData, chunk_size: i32) -> (r: Result<Maintenance, ResultCode>)
        ensures
            old(ext).timestamp == 0 && old(ext).default_timestamp == 0 ==> r == Err::<Maintenance, ResultCode>(
                ResultCode::ERROR,
            ) && *final(ext) == *old(ext),
            old(ext).timestamp != 0 || old(ext).default_timestamp != 0 ==> {
                &&& r == Ok::<Maintenance, ResultCode>(
                    Maintenance { budget: chunk_size as i64, remaining: 0 },
                )
                &&& *final(ext) == (ExtData {
                    timestamp: if old(ext).timestamp != 0 {
                        old(ext).timestamp
                    } else {
                        old(ext).default_timestamp
                    },
                    ..*old(ext)
                })
            },
    {
        match ensure_timestamp(ext) {
            Ok(_) => Ok(Maintenance { budget: chunk_size as i64, remaining: 0 }),
            Err(_) => Err(ResultCode::ERROR),
        }
    }

    /// What to do about a table.
    pub fn table_task(&self, version: SchemaVersion, has_v2: bool) -> (r: TableTask)
        ensures
            r == self.task(version, has_v2),
    {
        if matches!(version, SchemaVersion::V2) {
            TableTask::Skip
        } else if self.budget <= 0 {
            if has_v2 {
                TableTask::CountOnly
            } else {
                TableTask::Skip
            }
        } else if has_v2 {
            TableTask::Migrate
        } else {
            TableTask::CreateAndMigrate
        }
    }

    /// Work is left, of about so many rows: it counts for one at least, and the number goes no
    /// further than it can.
    pub open spec fn with_left(self, rows: int) -> Maintenance {
        let sum = self.remaining + (if rows < 1 { 1 } else { rows });
        Maintenance { remaining: if sum > i32::MAX { i32::MAX } else { sum as i32 }, ..self }
    }

    /// A step of a migration has gone through `processed` rows, and `left` are left in the table.
    pub open spec fn with_chunk(self, processed: int, left: int) -> Maintenance {
        let m = if left == 0 { self } else { self.with_left(left) };
        Maintenance { budget: (self.budget - processed) as i64, ..m }
    }

    /// Takes account of work that is left, of about so many rows: that of a clean-up, or of a
    /// table that is not migrated for now, or whose migration failed.
    pub fn add_remaining(&mut self, rows: i64)
        ensures
            *final(self) == old(self).with_left(rows as int),
    {
        let more: i64 = if rows < 1 { 1 } else { rows };
        let room: i64 = i32::MAX as i64 - self.remaining as i64;
        if more > room {
            self.remaining = i32::MAX;
        } else {
            self.remaining = (self.remaining as i64 + more) as i32;
        }
    }

    /// Takes account of a step of a migration: `processed` rows were gone through, and `left`
    /// are left in the table.
    pub fn after_chunk(&mut self, processed: i64, left: i64)
        requires
            i64::MIN <= old(self).budget - processed <= i64::MAX,
        ensures
            *final(self) == old(self).with_chunk(processed as int, left as int),
    {
        if left != 0 {
            self.add_remaining(left);
        }
        self.budget = self.budget - processed;
    }
}

} // verus!
