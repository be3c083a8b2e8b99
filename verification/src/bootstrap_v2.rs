//! The tables that hold metadata in the second format.
//!
//! Each replicated table has five: the ids of its columns, the clocks of its cells, its
//! live keys, its tombstones, and, where rows are known by hashes, the primary keys of
//! its tombstones.

use crate::pack_columns::{ColumnValue, Val};
use crate::statement::{bound, one, plain, push_plain, push_statement, sqls, two, Sql, Statement};
use crate::tableinfo::{holds_int, is_int_type, names, ColumnInfo, TableInfo};
use crate::text::{join, joined, texts, uppercase_of};
use crate::util::{
    column_list, escape_ident, escape_ident_as_value, escaped, escaped_value, ident_list, table_key,
};
use vstd::prelude::*;
use vstd::relations::{sorted_by, total_ordering};
use vstd::string::*;

verus! {

// ---------------------------------------------------------------------------
// Statements
// ---------------------------------------------------------------------------
/// The type of a column that holds a primary key: a strict table takes anything in it,
/// unless the primary key is an integer.
pub open spec fn key_type(col_type: Seq<char>) -> Seq<char> {
    if holds_int(uppercase_of(col_type)) {
        "INTEGER"@
    } else {
        "ANY"@
    }
}

fn key_type_text(col_type: &str) -> (r: &'static str)
    ensures
        r@ == key_type(col_type@),
{
    if is_int_type(col_type) {
        "INTEGER"
    } else {
        "ANY"
    }
}

/// Columns that take anything.
pub open spec fn any_columns(names: Seq<Seq<char>>) -> Seq<char> {
    ident_list(names, "\""@, "\" ANY NOT NULL"@, ", "@)
}

fn any_columns_text(columns: &[ColumnInfo]) -> (r: String)
    ensures
        r@ == any_columns(names(columns@)),
{
    column_list(columns, "\"", "\" ANY NOT NULL", ", ")
}

/// Creates the table of column ids.
pub open spec fn col_map_sql(t: TableInfo) -> Seq<char> {
    "CREATE TABLE IF NOT EXISTS \""@ + t.table() + "__crsql_v2_col_map\" (
          col_id INTEGER PRIMARY KEY,
          col_name TEXT NOT NULL
        ) STRICT;"@
}

/// Creates the table of column ids.
fn col_map_sql_text(t: &TableInfo) -> (r: String)
    ensures
        r@ == col_map_sql(*t),
{
    "CREATE TABLE IF NOT EXISTS \"".to_owned()
        .concat(escape_ident(t.tbl_name.as_str()).as_str())
        .concat("__crsql_v2_col_map\" (
          col_id INTEGER PRIMARY KEY,
          col_name TEXT NOT NULL
        ) STRICT;")
}

/// Makes the names in the table of column ids unique.
pub open spec fn col_map_index_sql(t: TableInfo) -> Seq<char> {
    "CREATE UNIQUE INDEX IF NOT EXISTS \"idx_"@ + t.table() + "_v2_col_map_name\"
          ON \""@ + t.table() + "__crsql_v2_col_map\"(col_name);"@
}

/// Makes the names in the table of column ids unique.
fn col_map_index_sql_text(t: &TableInfo) -> (r: String)
    ensures
        r@ == col_map_index_sql(*t),
{
    "CREATE UNIQUE INDEX IF NOT EXISTS \"idx_".to_owned()
        .concat(escape_ident(t.tbl_name.as_str()).as_str())
        .concat("_v2_col_map_name\"
          ON \"")
        .concat(escape_ident(t.tbl_name.as_str()).as_str())
        .concat("__crsql_v2_col_map\"(col_name);")
}

/// Creates the table of clocks.
pub open spec fn clock_sql(t: TableInfo) -> Seq<char> {
    "CREATE TABLE IF NOT EXISTS \""@ + t.table() + "__crsql_v2_clock\" (
          cell_key INTEGER PRIMARY KEY,
          col_version INTEGER NOT NULL,
          site_id INTEGER NOT NULL,
          db_version INTEGER NOT NULL,
          seq INTEGER NOT NULL,
          ts INTEGER NOT NULL CHECK (ts > 0)
        ) STRICT;"@
}

/// Creates the table of clocks.
fn clock_sql_text(t: &TableInfo) -> (r: String)
    ensures
        r@ == clock_sql(*t),
{
    "CREATE TABLE IF NOT EXISTS \"".to_owned()
        .concat(escape_ident(t.tbl_name.as_str()).as_str())
        .concat("__crsql_v2_clock\" (
          cell_key INTEGER PRIMARY KEY,
          col_version INTEGER NOT NULL,
          site_id INTEGER NOT NULL,
          db_version INTEGER NOT NULL,
          seq INTEGER NOT NULL,
          ts INTEGER NOT NULL CHECK (ts > 0)
        ) STRICT;")
}

/// Orders the clocks as changes are handed out.
pub open spec fn clock_index_sql(t: TableInfo) -> Seq<char> {
    "CREATE INDEX IF NOT EXISTS \""@ + t.table() + "__crsql_v2_clock_feed_idx\"
          ON \""@ + t.table() + "__crsql_v2_clock\"(site_id, db_version, seq);"@
}

/// Orders the clocks as changes are handed out.
fn clock_index_sql_text(t: &TableInfo) -> (r: String)
    ensures
        r@ == clock_index_sql(*t),
{
    "CREATE INDEX IF NOT EXISTS \"".to_owned()
        .concat(escape_ident(t.tbl_name.as_str()).as_str())
        .concat("__crsql_v2_clock_feed_idx\"
          ON \"")
        .concat(escape_ident(t.tbl_name.as_str()).as_str())
        .concat("__crsql_v2_clock\"(site_id, db_version, seq);")
}

/// Creates the table of live keys. A key that is a rowid needs no copy of the primary key, and a
/// hash is kept where rows are known by hashes.
pub open spec fn pks_sql(t: TableInfo) -> Seq<char> {
    if t.skip_hash && t.key_is_rowid {
        "CREATE TABLE IF NOT EXISTS \""@ + t.table() + "__crsql_v2_pks\" (
                  __crsql_key INTEGER PRIMARY KEY,
                  cl INTEGER NOT NULL DEFAULT 1 CHECK (cl % 2 = 1)
                ) STRICT;"@
    } else if t.skip_hash {
        "CREATE TABLE IF NOT EXISTS \""@ + t.table() + "__crsql_v2_pks\" (
                  __crsql_key INTEGER PRIMARY KEY,
                  \""@ + escaped(t.pks@[0].name@) + "\" "@ + key_type(t.pks@[0].col_type@) + " NOT NULL,
                  cl INTEGER NOT NULL DEFAULT 1 CHECK (cl % 2 = 1)
                ) STRICT;"@
    } else if t.key_is_rowid {
        "CREATE TABLE IF NOT EXISTS \""@ + t.table() + "__crsql_v2_pks\" (
              __crsql_key INTEGER PRIMARY KEY,
              hashed_pk BLOB NOT NULL,
              cl INTEGER NOT NULL DEFAULT 1 CHECK (cl % 2 = 1)
            ) STRICT;"@
    } else {
        "CREATE TABLE IF NOT EXISTS \""@ + t.table() + "__crsql_v2_pks\" (
              __crsql_key INTEGER PRIMARY KEY,
              "@ + any_columns(t.pk_names()) + ",
              hashed_pk BLOB NOT NULL,
              cl INTEGER NOT NULL DEFAULT 1 CHECK (cl % 2 = 1)
            ) STRICT;"@
    }
}

/// Creates the table of live keys. A key that is a rowid needs no copy of the primary key, and a
/// hash is kept where rows are known by hashes.
fn pks_sql_text(t: &TableInfo) -> (r: String)
    requires
        t.skip_hash ==> t.pks@.len() > 0,
    ensures
        r@ == pks_sql(*t),
{
    if t.skip_hash && t.key_is_rowid {
        "CREATE TABLE IF NOT EXISTS \"".to_owned()
            .concat(escape_ident(t.tbl_name.as_str()).as_str())
            .concat("__crsql_v2_pks\" (
                  __crsql_key INTEGER PRIMARY KEY,
                  cl INTEGER NOT NULL DEFAULT 1 CHECK (cl % 2 = 1)
                ) STRICT;")
    } else if t.skip_hash {
        "CREATE TABLE IF NOT EXISTS \"".to_owned()
            .concat(escape_ident(t.tbl_name.as_str()).as_str())
            .concat("__crsql_v2_pks\" (
                  __crsql_key INTEGER PRIMARY KEY,
                  \"")
            .concat(escape_ident(t.pks[0].name.as_str()).as_str())
            .concat("\" ")
            .concat(key_type_text(t.pks[0].col_type.as_str()))
            .concat(" NOT NULL,
                  cl INTEGER NOT NULL DEFAULT 1 CHECK (cl % 2 = 1)
                ) STRICT;")
    } else if t.key_is_rowid {
        "CREATE TABLE IF NOT EXISTS \"".to_owned()
            .concat(escape_ident(t.tbl_name.as_str()).as_str())
            .concat("__crsql_v2_pks\" (
              __crsql_key INTEGER PRIMARY KEY,
              hashed_pk BLOB NOT NULL,
              cl INTEGER NOT NULL DEFAULT 1 CHECK (cl % 2 = 1)
            ) STRICT;")
    } else {
        "CREATE TABLE IF NOT EXISTS \"".to_owned()
            .concat(escape_ident(t.tbl_name.as_str()).as_str())
            .concat("__crsql_v2_pks\" (
              __crsql_key INTEGER PRIMARY KEY,
              ")
            .concat(any_columns_text(t.pks.as_slice()).as_str())
            .concat(",
              hashed_pk BLOB NOT NULL,
              cl INTEGER NOT NULL DEFAULT 1 CHECK (cl % 2 = 1)
            ) STRICT;")
    }
}

/// Makes the live keys unique by the primary key, or by its hash.
pub open spec fn pks_index_sql(t: TableInfo) -> Seq<char> {
    if t.skip_hash {
        "CREATE UNIQUE INDEX IF NOT EXISTS \"idx_"@ + t.table() + "_v2_pks_pk\"
                  ON \""@ + t.table() + "__crsql_v2_pks\"(\""@ + escaped(t.pks@[0].name@) + "\");"@
    } else {
        "CREATE UNIQUE INDEX IF NOT EXISTS \"idx_"@ + t.table() + "_v2_pks_hash\"
              ON \""@ + t.table() + "__crsql_v2_pks\"(hashed_pk);"@
    }
}

/// Makes the live keys unique by the primary key, or by its hash.
fn pks_index_sql_text(t: &TableInfo) -> (r: String)
    requires
        t.skip_hash ==> t.pks@.len() > 0,
    ensures
        r@ == pks_index_sql(*t),
{
    if t.skip_hash {
        "CREATE UNIQUE INDEX IF NOT EXISTS \"idx_".to_owned()
            .concat(escape_ident(t.tbl_name.as_str()).as_str())
            .concat("_v2_pks_pk\"
                  ON \"")
            .concat(escape_ident(t.tbl_name.as_str()).as_str())
            .concat("__crsql_v2_pks\"(\"")
            .concat(escape_ident(t.pks[0].name.as_str()).as_str())
            .concat("\");")
    } else {
        "CREATE UNIQUE INDEX IF NOT EXISTS \"idx_".to_owned()
            .concat(escape_ident(t.tbl_name.as_str()).as_str())
            .concat("_v2_pks_hash\"
              ON \"")
            .concat(escape_ident(t.tbl_name.as_str()).as_str())
            .concat("__crsql_v2_pks\"(hashed_pk);")
    }
}

/// Creates the table of tombstones.
pub open spec fn tombstones_sql(t: TableInfo) -> Seq<char> {
    if t.skip_hash {
        "CREATE TABLE IF NOT EXISTS \""@ + t.table() + "__crsql_v2_tombstones\" (
              site_id INTEGER NOT NULL,
              db_version INTEGER NOT NULL,
              seq INTEGER NOT NULL,
              \""@ + escaped(t.pks@[0].name@) + "\" "@ + key_type(t.pks@[0].col_type@) + " NOT NULL,
              cl INTEGER NOT NULL CHECK (cl % 2 = 0),
              ts INTEGER NOT NULL CHECK (ts > 0),
              PRIMARY KEY (site_id, db_version, seq)
            ) WITHOUT ROWID, STRICT;"@
    } else {
        "CREATE TABLE IF NOT EXISTS \""@ + t.table() + "__crsql_v2_tombstones\" (
              site_id INTEGER NOT NULL,
              db_version INTEGER NOT NULL,
              seq INTEGER NOT NULL,
              hashed_pk BLOB NOT NULL,
              cl INTEGER NOT NULL CHECK (cl % 2 = 0),
              ts INTEGER NOT NULL CHECK (ts > 0),
              PRIMARY KEY (site_id, db_version, seq)
            ) WITHOUT ROWID, STRICT;"@
    }
}

/// Creates the table of tombstones.
fn tombstones_sql_text(t: &TableInfo) -> (r: String)
    requires
        t.skip_hash ==> t.pks@.len() > 0,
    ensures
        r@ == tombstones_sql(*t),
{
    if t.skip_hash {
        "CREATE TABLE IF NOT EXISTS \"".to_owned()
            .concat(escape_ident(t.tbl_name.as_str()).as_str())
            .concat("__crsql_v2_tombstones\" (
              site_id INTEGER NOT NULL,
              db_version INTEGER NOT NULL,
              seq INTEGER NOT NULL,
              \"")
            .concat(escape_ident(t.pks[0].name.as_str()).as_str())
            .concat("\" ")
            .concat(key_type_text(t.pks[0].col_type.as_str()))
            .concat(" NOT NULL,
              cl INTEGER NOT NULL CHECK (cl % 2 = 0),
              ts INTEGER NOT NULL CHECK (ts > 0),
              PRIMARY KEY (site_id, db_version, seq)
            ) WITHOUT ROWID, STRICT;")
    } else {
        "CREATE TABLE IF NOT EXISTS \"".to_owned()
            .concat(escape_ident(t.tbl_name.as_str()).as_str())
            .concat("__crsql_v2_tombstones\" (
              site_id INTEGER NOT NULL,
              db_version INTEGER NOT NULL,
              seq INTEGER NOT NULL,
              hashed_pk BLOB NOT NULL,
              cl INTEGER NOT NULL CHECK (cl % 2 = 0),
              ts INTEGER NOT NULL CHECK (ts > 0),
              PRIMARY KEY (site_id, db_version, seq)
            ) WITHOUT ROWID, STRICT;")
    }
}

/// Makes the tombstones unique by the primary key, or by its hash.
pub open spec fn tombstones_index_sql(t: TableInfo) -> Seq<char> {
    if t.skip_hash {
        "CREATE UNIQUE INDEX IF NOT EXISTS \"idx_"@ + t.table() + "_v2_tombstones_pk\"
              ON \""@ + t.table() + "__crsql_v2_tombstones\"(\""@ + escaped(t.pks@[0].name@) + "\");"@
    } else {
        "CREATE UNIQUE INDEX IF NOT EXISTS \"idx_"@ + t.table() + "_v2_tombstones_hash\"
              ON \""@ + t.table() + "__crsql_v2_tombstones\"(hashed_pk);"@
    }
}

/// Makes the tombstones unique by the primary key, or by its hash.
fn tombstones_index_sql_text(t: &TableInfo) -> (r: String)
    requires
        t.skip_hash ==> t.pks@.len() > 0,
    ensures
        r@ == tombstones_index_sql(*t),
{
    if t.skip_hash {
        "CREATE UNIQUE INDEX IF NOT EXISTS \"idx_".to_owned()
            .concat(escape_ident(t.tbl_name.as_str()).as_str())
            .concat("_v2_tombstones_pk\"
              ON \"")
            .concat(escape_ident(t.tbl_name.as_str()).as_str())
            .concat("__crsql_v2_tombstones\"(\"")
            .concat(escape_ident(t.pks[0].name.as_str()).as_str())
            .concat("\");")
    } else {
        "CREATE UNIQUE INDEX IF NOT EXISTS \"idx_".to_owned()
            .concat(escape_ident(t.tbl_name.as_str()).as_str())
            .concat("_v2_tombstones_hash\"
              ON \"")
            .concat(escape_ident(t.tbl_name.as_str()).as_str())
            .concat("__crsql_v2_tombstones\"(hashed_pk);")
    }
}

/// Creates the table of the primary keys of tombstones.
pub open spec fn tombstone_pks_sql(t: TableInfo) -> Seq<char> {
    "CREATE TABLE IF NOT EXISTS \""@ + t.table() + "__crsql_v2_tombstone_pks\" (
              hashed_pk BLOB PRIMARY KEY,
              "@ + any_columns(t.pk_names()) + "
            ) WITHOUT ROWID, STRICT;"@
}

/// Creates the table of the primary keys of tombstones.
fn tombstone_pks_sql_text(t: &TableInfo) -> (r: String)
    ensures
        r@ == tombstone_pks_sql(*t),
{
    "CREATE TABLE IF NOT EXISTS \"".to_owned()
        .concat(escape_ident(t.tbl_name.as_str()).as_str())
        .concat("__crsql_v2_tombstone_pks\" (
              hashed_pk BLOB PRIMARY KEY,
              ")
        .concat(any_columns_text(t.pks.as_slice()).as_str())
        .concat("
            ) WITHOUT ROWID, STRICT;")
}

/// Gives a column an id, unless it is there.
pub open spec fn col_map_insert_sql(t: TableInfo) -> Seq<char> {
    "INSERT OR IGNORE INTO \""@ + t.table() + "__crsql_v2_col_map\" (col_id, col_name) VALUES (?, ?)"@
}

/// Gives a column an id, unless it is there.
fn col_map_insert_sql_text(t: &TableInfo) -> (r: String)
    ensures
        r@ == col_map_insert_sql(*t),
{
    "INSERT OR IGNORE INTO \"".to_owned()
        .concat(escape_ident(t.tbl_name.as_str()).as_str())
        .concat("__crsql_v2_col_map\" (col_id, col_name) VALUES (?, ?)")
}

/// The statements that create the tables.
pub open spec fn tables_sql(t: TableInfo) -> Seq<Sql> {
    seq![
        plain(col_map_sql(t)),
        plain(col_map_index_sql(t)),
        plain(clock_sql(t)),
        plain(clock_index_sql(t)),
        plain(pks_sql(t)),
    ] + (if t.skip_hash && t.key_is_rowid {
        seq![]
    } else {
        seq![plain(pks_index_sql(t))]
    }) + seq![plain(tombstones_sql(t)), plain(tombstones_index_sql(t))] + (if t.skip_hash {
        seq![]
    } else {
        seq![plain(tombstone_pks_sql(t))]
    })
}

/// The statements that give the columns outside the primary key their ids, from 0 on.
pub open spec fn col_ids_sql(t: TableInfo) -> Seq<Sql> {
    Seq::new(
        t.non_pks@.len(),
        |i: int|
            bound(
                col_map_insert_sql(t),
                seq![Val::Integer(i as i64), Val::Text(t.non_pks@[i].name@)],
            ),
    )
}

/// The statement that keeps the shape of the primary key.
pub open spec fn keep_signature_sql(t: TableInfo) -> Sql {
    bound(
        "INSERT OR REPLACE INTO crsql_master (key, value) VALUES (?, ?)"@,
        seq![Val::Text("v2_pks_"@ + t.tbl_name@), Val::Text(pk_signature(t))],
    )
}

/// The statements, to be run in their order, that give a table metadata in the second
/// format. Where no hashes are kept, the primary key is one column.
pub fn create_v2_tables(t: &TableInfo) -> (r: Vec<Statement>)
    requires
        t.skip_hash ==> t.pks@.len() > 0,
        t.non_pks@.len() <= i32::MAX,
    ensures
        sqls(r@) == (tables_sql(*t) + col_ids_sql(*t)).push(keep_signature_sql(*t)),
{
    let mut plan: Vec<Statement> = Vec::new();
    assert(sqls(plan@) =~= seq![]);
    push_plain(&mut plan, col_map_sql_text(t));
    push_plain(&mut plan, col_map_index_sql_text(t));
    push_plain(&mut plan, clock_sql_text(t));
    push_plain(&mut plan, clock_index_sql_text(t));
    push_plain(&mut plan, pks_sql_text(t));
    if !(t.skip_hash && t.key_is_rowid) {
        push_plain(&mut plan, pks_index_sql_text(t));
    }
    push_plain(&mut plan, tombstones_sql_text(t));
    push_plain(&mut plan, tombstones_index_sql_text(t));
    if !t.skip_hash {
        push_plain(&mut plan, tombstone_pks_sql_text(t));
    }
    assert(sqls(plan@) =~= tables_sql(*t));
    populate_col_map(t, &mut plan);
    let key = table_key("v2_pks_", t.tbl_name.as_str());
    let signature = compute_pk_signature(t);
    push_statement(
        &mut plan,
        "INSERT OR REPLACE INTO crsql_master (key, value) VALUES (?, ?)".to_owned(),
        two(ColumnValue::Text(key), ColumnValue::Text(signature)),
    );
    plan
}

fn populate_col_map(t: &TableInfo, plan: &mut Vec<Statement>)
    requires
        t.non_pks@.len() <= i32::MAX,
    ensures
        sqls(final(plan)@) == sqls(old(plan)@) + col_ids_sql(*t),
{
    let mut i: usize = 0;
    assert(sqls(plan@) + col_ids_sql(*t).take(0) =~= sqls(plan@));
    while i < t.non_pks.len()
        invariant
            i <= t.non_pks@.len() <= i32::MAX,
            sqls(plan@) == sqls(old(plan)@) + col_ids_sql(*t).take(i as int),
        decreases t.non_pks@.len() - i,
    {
        push_statement(
            plan,
            col_map_insert_sql_text(t),
            two(ColumnValue::Integer(i as i64), ColumnValue::Text(t.non_pks[i].name.clone())),
        );
        assert(col_ids_sql(*t).take(i + 1) =~= col_ids_sql(*t).take(i as int).push(
            col_ids_sql(*t)[i as int],
        ));
        assert(sqls(plan@) =~= sqls(old(plan)@) + col_ids_sql(*t).take(i + 1));
        i = i + 1;
    }
    assert(col_ids_sql(*t).take(i as int) =~= col_ids_sql(*t));
}

/// Drops a table of metadata.
pub open spec fn drop_table_sql(table: Seq<char>, suffix: Seq<char>) -> Seq<char> {
    "DROP TABLE IF EXISTS \""@ + escaped(table) + suffix + "\""@
}

/// Drops a table of metadata.
pub fn drop_table_text(table: &str, suffix: &str) -> (r: String)
    ensures
        r@ == drop_table_sql(table@, suffix@),
{
    "DROP TABLE IF EXISTS \"".to_owned()
        .concat(escape_ident(table).as_str())
        .concat(suffix)
        .concat("\"")
}

/// The statements, to be run in their order, that drop the metadata of a table in the
/// second format, and forget the shape of its primary key.
pub open spec fn drop_v2_sql(table: Seq<char>) -> Seq<Sql> {
    seq![
        plain(drop_table_sql(table, "__crsql_v2_col_map"@)),
        plain(drop_table_sql(table, "__crsql_v2_clock"@)),
        plain(drop_table_sql(table, "__crsql_v2_pks"@)),
        plain(drop_table_sql(table, "__crsql_v2_tombstones"@)),
        plain(drop_table_sql(table, "__crsql_v2_tombstone_pks"@)),
        bound(
            "DELETE FROM crsql_master WHERE key = ?"@,
            seq![Val::Text("v2_pks_"@ + table)],
        ),
    ]
}

/// The statements, to be run in their order, that drop the metadata of a table in the
/// second format.
pub fn drop_v2_tables(table: &str) -> (r: Vec<Statement>)
    ensures
        sqls(r@) == drop_v2_sql(table@),
{
    let mut plan: Vec<Statement> = Vec::new();
    assert(sqls(plan@) =~= seq![]);
    push_plain(&mut plan, drop_table_text(table, "__crsql_v2_col_map"));
    push_plain(&mut plan, drop_table_text(table, "__crsql_v2_clock"));
    push_plain(&mut plan, drop_table_text(table, "__crsql_v2_pks"));
    push_plain(&mut plan, drop_table_text(table, "__crsql_v2_tombstones"));
    push_plain(&mut plan, drop_table_text(table, "__crsql_v2_tombstone_pks"));
    let key = table_key("v2_pks_", table);
    push_statement(
        &mut plan,
        "DELETE FROM crsql_master WHERE key = ?".to_owned(),
        one(ColumnValue::Text(key)),
    );
    assert(sqls(plan@) =~= drop_v2_sql(table@));
    plan
}

/// The query whether a table has metadata in the second format: it gives a row where it has.
pub open spec fn has_v2_sql(table: Seq<char>) -> Seq<char> {
    "SELECT 1 FROM sqlite_master WHERE type = 'table' AND tbl_name = '"@ + escaped_value(table) + "__crsql_v2_clock'"@
}

/// The query whether a table has metadata in the second format: it gives a row where it has.
pub fn has_v2_tables(table: &str) -> (r: String)
    ensures
        r@ == has_v2_sql(table@),
{
    "SELECT 1 FROM sqlite_master WHERE type = 'table' AND tbl_name = '".to_owned()
        .concat(escape_ident_as_value(table).as_str())
        .concat("__crsql_v2_clock'")
}

// ---------------------------------------------------------------------------
// The shape of a primary key
// ---------------------------------------------------------------------------
/// Whether `a` comes before `b`, or is `b`, in the order of their characters.
pub open spec fn text_le(a: Seq<char>, b: Seq<char>) -> bool
    decreases a.len(),
{
    if a.len() == 0 {
        true
    } else if b.len() == 0 {
        false
    } else if a[0] != b[0] {
        a[0] < b[0]
    } else {
        text_le(a.skip(1), b.skip(1))
    }
}

/// `sorted` with `x` behind all that do not come after it.
pub open spec fn with_text(sorted: Seq<Seq<char>>, x: Seq<char>) -> Seq<Seq<char>>
    decreases sorted.len(),
{
    if sorted.len() == 0 || text_le(sorted.last(), x) {
        sorted.push(x)
    } else {
        with_text(sorted.drop_last(), x).push(sorted.last())
    }
}

/// The texts in the order of their characters.
pub open spec fn sorted_texts(s: Seq<Seq<char>>) -> Seq<Seq<char>>
    decreases s.len(),
{
    if s.len() == 0 {
        seq![]
    } else {
        with_text(sorted_texts(s.drop_last()), s.last())
    }
}

/// Each column with its type.
pub open spec fn typed_names(columns: Seq<ColumnInfo>) -> Seq<Seq<char>> {
    columns.map_values(|c: ColumnInfo| c.name@ + ":"@ + c.col_type@)
}

/// The shape of a primary key: whether rows are known by their rowids, and the columns
/// with their types, in an order that does not depend on that of the primary key.
pub open spec fn pk_signature(t: TableInfo) -> Seq<char> {
    (if t.key_is_rowid {
        "r"@
    } else {
        "n"@
    }) + ":"@ + joined(sorted_texts(typed_names(t.pks@)), ","@)
}

fn text_not_after(a: &str, b: &str) -> (r: bool)
    ensures
        r == text_le(a@, b@),
{
    let x = crate::text::to_chars(a);
    let y = crate::text::to_chars(b);
    let mut i: usize = 0;
    assert(x@.skip(0) =~= x@);
    assert(y@.skip(0) =~= y@);
    while i < x.len()
        invariant
            x@ == a@,
            y@ == b@,
            i <= x@.len(),
            i <= y@.len(),
            text_le(a@, b@) == text_le(x@.skip(i as int), y@.skip(i as int)),
        decreases x@.len() - i,
    {
        if i >= y.len() {
            return false;
        }
        if x[i] != y[i] {
            return x[i] < y[i];
        }
        assert(x@.skip(i as int).skip(1) =~= x@.skip(i + 1));
        assert(y@.skip(i as int).skip(1) =~= y@.skip(i + 1));
        i = i + 1;
    }
    true
}

proof fn lemma_with_text_at(sorted: Seq<Seq<char>>, x: Seq<char>, at: int)
    requires
        0 <= at <= sorted.len(),
        forall|i: int| at <= i < sorted.len() ==> !text_le(#[trigger] sorted[i], x),
        at > 0 ==> text_le(sorted[at - 1], x),
    ensures
        with_text(sorted, x) == sorted.insert(at, x),
    decreases sorted.len(),
{
    if sorted.len() == 0 || text_le(sorted.last(), x) {
        if at < sorted.len() {
            assert(!text_le(sorted[sorted.len() - 1], x));
        }
        assert(sorted.insert(at, x) =~= sorted.push(x));
    } else {
        lemma_with_text_at(sorted.drop_last(), x, at);
        assert(sorted.insert(at, x) =~= sorted.drop_last().insert(at, x).push(sorted.last()));
    }
}

fn insert_sorted(sorted: &mut Vec<String>, x: String)
    ensures
        texts(final(sorted)@) == with_text(texts(old(sorted)@), x@),
{
    let mut at: usize = sorted.len();
    while at > 0 && !text_not_after(sorted[at - 1].as_str(), x.as_str())
        invariant
            at <= sorted@.len(),
            forall|i: int| at <= i < sorted@.len() ==> !text_le(#[trigger] texts(sorted@)[i], x@),
        decreases at,
    {
        assert(texts(sorted@)[at - 1] == sorted@[at - 1]@);
        at = at - 1;
    }
    proof {
        if at > 0 {
            assert(texts(sorted@)[at - 1] == sorted@[at - 1]@);
        }
        lemma_with_text_at(texts(sorted@), x@, at as int);
    }
    let ghost before = sorted@;
    sorted.insert(at, x);
    assert(texts(sorted@) =~= texts(before).insert(at as int, x@));
}

/// The shape of a table's primary key, by which a change of it is noticed.
pub fn compute_pk_signature(t: &TableInfo) -> (r: String)
    ensures
        r@ == pk_signature(*t),
{
    let mut entries: Vec<String> = Vec::new();
    let mut i: usize = 0;
    assert(typed_names(t.pks@).take(0) =~= seq![]);
    assert(texts(entries@) =~= seq![]);
    while i < t.pks.len()
        invariant
            i <= t.pks@.len(),
            texts(entries@) == sorted_texts(typed_names(t.pks@).take(i as int)),
        decreases t.pks@.len() - i,
    {
        proof {
            let now = typed_names(t.pks@).take(i + 1);
            assert(now.drop_last() =~= typed_names(t.pks@).take(i as int));
        }
        insert_sorted(
            &mut entries,
            t.pks[i].name.as_str().to_owned().concat(":").concat(t.pks[i].col_type.as_str()),
        );
        i = i + 1;
    }
    assert(typed_names(t.pks@).take(i as int) =~= typed_names(t.pks@));
    let letter = if t.key_is_rowid {
        "r"
    } else {
        "n"
    };
    letter.to_owned().concat(":").concat(join(entries.as_slice(), ",").as_str())
}

proof fn lemma_text_le_total(a: Seq<char>, b: Seq<char>)
    ensures
        text_le(a, b) || text_le(b, a),
        text_le(a, b) && text_le(b, a) ==> a == b,
    decreases a.len(),
{
    if a.len() > 0 && b.len() > 0 {
        if a[0] == b[0] {
            lemma_text_le_total(a.skip(1), b.skip(1));
            assert(a =~= seq![a[0]] + a.skip(1));
            assert(b =~= seq![b[0]] + b.skip(1));
        }
    } else if a.len() == 0 && b.len() == 0 {
        assert(a =~= b);
    }
}

proof fn lemma_text_le_trans(a: Seq<char>, b: Seq<char>, c: Seq<char>)
    requires
        text_le(a, b),
        text_le(b, c),
    ensures
        text_le(a, c),
    decreases a.len(),
{
    if a.len() > 0 && b.len() > 0 && c.len() > 0 && a[0] == b[0] && b[0] == c[0] {
        lemma_text_le_trans(a.skip(1), b.skip(1), c.skip(1));
    }
}

proof fn lemma_text_order()
    ensures
        total_ordering(|a: Seq<char>, b: Seq<char>| text_le(a, b)),
{
    let leq = |a: Seq<char>, b: Seq<char>| text_le(a, b);
    assert forall|a: Seq<char>| #[trigger] leq(a, a) by {
        lemma_text_le_total(a, a);
    }
    assert forall|a: Seq<char>, b: Seq<char>| #[trigger] leq(a, b) && #[trigger] leq(b, a) implies a == b by {
        lemma_text_le_total(a, b);
    }
    assert forall|a: Seq<char>, b: Seq<char>, c: Seq<char>| #[trigger] leq(a, b) && #[trigger] leq(b, c) implies leq(
        a,
        c,
    ) by {
        lemma_text_le_trans(a, b, c);
    }
    assert forall|a: Seq<char>, b: Seq<char>| #[trigger] leq(a, b) || #[trigger] leq(b, a) by {
        lemma_text_le_total(a, b);
    }
}

proof fn lemma_with_text(sorted: Seq<Seq<char>>, x: Seq<char>)
    requires
        sorted_by(sorted, |a: Seq<char>, b: Seq<char>| text_le(a, b)),
    ensures
        sorted_by(with_text(sorted, x), |a: Seq<char>, b: Seq<char>| text_le(a, b)),
        with_text(sorted, x).to_multiset() =~= sorted.to_multiset().insert(x),
        forall|i: int| 0 <= i < with_text(sorted, x).len() ==> #[trigger] with_text(sorted, x)[i] == x
            || sorted.contains(with_text(sorted, x)[i]),
    decreases sorted.len(),
{
    broadcast use vstd::seq_lib::group_to_multiset_ensures;

    let leq = |a: Seq<char>, b: Seq<char>| text_le(a, b);
    let r = with_text(sorted, x);
    if sorted.len() == 0 || text_le(sorted.last(), x) {
        assert forall|i: int| 0 <= i < r.len() implies #[trigger] r[i] == x || sorted.contains(r[i]) by {
            if i < sorted.len() {
                assert(r[i] == sorted[i]);
            }
        }
        assert forall|i: int, j: int| 0 <= i < j < r.len() implies #[trigger] leq(r[i], r[j]) by {
            if j < sorted.len() {
                assert(leq(sorted[i], sorted[j]));
            } else {
                if i < sorted.len() - 1 {
                    assert(leq(sorted[i], sorted[sorted.len() - 1]));
                }
                lemma_text_le_total(sorted.last(), sorted.last());
                if i < sorted.len() - 1 {
                    lemma_text_le_trans(r[i], sorted.last(), x);
                }
            }
        }
    } else {
        let front = sorted.drop_last();
        assert(sorted_by(front, leq)) by {
            assert forall|i: int, j: int| 0 <= i < j < front.len() implies #[trigger] leq(front[i], front[j]) by {
                assert(leq(sorted[i], sorted[j]));
            }
        }
        lemma_with_text(front, x);
        let w = with_text(front, x);
        assert(sorted =~= front.push(sorted.last()));
        lemma_text_le_total(x, sorted.last());
        assert forall|i: int| 0 <= i < w.len() implies text_le(#[trigger] w[i], sorted.last()) by {
            if w[i] != x {
                assert(front.contains(w[i]));
                let k = choose|k: int| 0 <= k < front.len() && front[k] == w[i];
                assert(leq(sorted[k], sorted[sorted.len() - 1]));
            }
        }
        assert forall|i: int| 0 <= i < r.len() implies #[trigger] r[i] == x || sorted.contains(r[i]) by {
            if i < w.len() {
                assert(r[i] == w[i]);
                if w[i] != x {
                    assert(front.contains(w[i]));
                    let k = choose|k: int| 0 <= k < front.len() && front[k] == w[i];
                    assert(sorted[k] == w[i]);
                }
            } else {
                assert(sorted[sorted.len() - 1] == r[i]);
            }
        }
        assert forall|i: int, j: int| 0 <= i < j < r.len() implies #[trigger] leq(r[i], r[j]) by {
            if j < w.len() {
                assert(leq(w[i], w[j]));
            } else {
                assert(r[i] == w[i]);
            }
        }
    }
}

proof fn lemma_sorted_texts(s: Seq<Seq<char>>)
    ensures
        sorted_by(sorted_texts(s), |a: Seq<char>, b: Seq<char>| text_le(a, b)),
        sorted_texts(s).to_multiset() =~= s.to_multiset(),
    decreases s.len(),
{
    broadcast use vstd::seq_lib::group_to_multiset_ensures;

    if s.len() > 0 {
        lemma_sorted_texts(s.drop_last());
        lemma_with_text(sorted_texts(s.drop_last()), s.last());
        assert(s =~= s.drop_last().push(s.last()));
    } else {
        assert(sorted_texts(s) =~= s);
    }
}

/// The shape of a primary key does not depend on the order of its columns.
pub proof fn signature_ignores_order(a: TableInfo, b: TableInfo)
    requires
        a.key_is_rowid == b.key_is_rowid,
        typed_names(a.pks@).to_multiset() == typed_names(b.pks@).to_multiset(),
    ensures
        pk_signature(a) == pk_signature(b),
{
    let x = sorted_texts(typed_names(a.pks@));
    let y = sorted_texts(typed_names(b.pks@));
    lemma_sorted_texts(typed_names(a.pks@));
    lemma_sorted_texts(typed_names(b.pks@));
    lemma_text_order();
    vstd::seq_lib::lemma_sorted_unique(x, y, |a: Seq<char>, b: Seq<char>| text_le(a, b));
}

/// The shape of a primary key tells whether rows are known by their rowids, and, of a single
/// column, its name and its type as they are.
pub proof fn signatures_tell_key_modes(a: TableInfo, b: TableInfo)
    ensures
        pk_signature(a) == pk_signature(b) ==> a.key_is_rowid == b.key_is_rowid,
        a.pks@.len() == 1 ==> pk_signature(a) == (if a.key_is_rowid {
            "r:"@
        } else {
            "n:"@
        }) + a.pks@[0].name@ + ":"@ + a.pks@[0].col_type@,
{
    reveal_strlit("r");
    reveal_strlit("n");
    reveal_strlit(":");
    reveal_strlit("r:");
    reveal_strlit("n:");
    assert(pk_signature(a)[0] == (if a.key_is_rowid {
        'r'
    } else {
        'n'
    }));
    assert(pk_signature(b)[0] == (if b.key_is_rowid {
        'r'
    } else {
        'n'
    }));
    if a.pks@.len() == 1 {
        let one = a.pks@[0].name@ + ":"@ + a.pks@[0].col_type@;
        let listed = typed_names(a.pks@);
        assert(listed =~= seq![one]);
        assert(listed.drop_last() =~= seq![]);
        assert(sorted_texts(listed.drop_last()) =~= seq![]);
        assert(sorted_texts(listed) =~= seq![one]);
        assert(pk_signature(a) =~= (if a.key_is_rowid {
            "r:"@
        } else {
            "n:"@
        }) + a.pks@[0].name@ + ":"@ + a.pks@[0].col_type@);
    }
}

} // verus!
