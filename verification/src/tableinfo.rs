//! What is known of a replicated table, and the statements that keep its clocks.

use crate::config::{strip_suffix, stripped};
use crate::ext_data::ExtData;
use crate::result_code::{ResultCode, Stepped};
use crate::text::{push_part, same, texts, to_chars, to_uppercase, uppercase_of};
use crate::util::{
    as_identifier_list, binding_list, escape_ident, escape_ident_as_value, escaped, escaped_value,
    identifier_text, repeat_part, repeated, where_list, where_text,
};
use std::collections::BTreeMap;
use vstd::prelude::*;
use vstd::string::*;

verus! {

/// The most rows whose causal length is kept in memory for a table.
pub const MAX_CL_CACHE_SIZE: usize = 1500;

/// Which metadata a table has.
#[derive(Clone, Copy, PartialEq, Eq, Structural, Debug)]
pub enum SchemaVersion {
    V1,
    V2,
    V2AndV1,
}

/// A column of a table.
pub struct ColumnInfo {
    pub cid: i32,
    pub name: String,
    pub col_type: String,
    /// The position of the column in the primary key, from 1 on; 0 for the others.
    pub pk: i32,
}

impl Clone for ColumnInfo {
    fn clone(&self) -> (r: ColumnInfo)
        ensures
            r == *self,
    {
        ColumnInfo {
            cid: self.cid,
            name: self.name.clone(),
            col_type: self.col_type.clone(),
            pk: self.pk,
        }
    }
}

/// The names of columns.
pub open spec fn names(columns: Seq<ColumnInfo>) -> Seq<Seq<char>> {
    columns.map_values(|c: ColumnInfo| c.name@)
}

/// A cache of causal lengths that keeps one more; a full one is emptied first.
pub open spec fn cached(cache: Map<i64, i64>, key: i64, cl: i64) -> Map<i64, i64> {
    (if cache.len() >= MAX_CL_CACHE_SIZE {
        Map::<i64, i64>::empty()
    } else {
        cache
    }).insert(key, cl)
}

/// The last causal length that was kept of a row is found, whatever was in the cache; those of
/// other rows are as they were, or are forgotten all together; and the cache never grows over its
/// bound.
pub proof fn kept_causal_lengths_are_found(cache: Map<i64, i64>, key: i64, cl: i64, other: i64)
    requires
        cache.dom().finite(),
        cache.len() <= MAX_CL_CACHE_SIZE,
    ensures
        cached(cache, key, cl).contains_key(key),
        cached(cache, key, cl)[key] == cl,
        other != key && cached(cache, key, cl).contains_key(other) ==> cache.contains_key(other) && cached(cache, key, cl)[other]
            == cache[other],
        cache.len() < MAX_CL_CACHE_SIZE && other != key && cache.contains_key(other) ==> cached(cache, key, cl).contains_key(
            other,
        ),
        cached(cache, key, cl).dom().finite(),
        cached(cache, key, cl).len() <= MAX_CL_CACHE_SIZE,
{
}

/// A replicated table.
pub struct TableInfo {
    pub tbl_name: String,
    /// The columns of the primary key, in its order.
    pub pks: Vec<ColumnInfo>,
    pub non_pks: Vec<ColumnInfo>,
    pub schema_version: SchemaVersion,
    /// Whether the key of a row is its rowid.
    pub key_is_rowid: bool,
    /// Whether the primary key is an `INTEGER PRIMARY KEY`, which is the rowid.
    pub has_integer_pk: bool,
    /// The name by which the rowid can be read; empty where there is none.
    pub rowid_alias: String,
    /// Whether rows are known by their primary key, which is then a single column, and
    /// not by its hash.
    pub skip_hash: bool,
    /// The escaped name of the single primary key column, where `skip_hash` holds.
    pub skip_hash_pk_col: String,
    /// The causal lengths of rows, by their keys.
    pub cl_cache: BTreeMap<i64, i64>,
}

impl TableInfo {
    /// The name of the table, escaped.
    pub open spec fn table(self) -> Seq<char> {
        escaped(self.tbl_name@)
    }

    /// The names of the columns of the primary key.
    pub open spec fn pk_names(self) -> Seq<Seq<char>> {
        names(self.pks@)
    }

    /// The names of the other columns.
    pub open spec fn non_pk_names(self) -> Seq<Seq<char>> {
        names(self.non_pks@)
    }

    /// The cache of causal lengths is within its bound.
    pub open spec fn wf(self) -> bool {
        self.cl_cache@.dom().finite() && self.cl_cache@.len() <= MAX_CL_CACHE_SIZE
    }

    /// The causal length of a row, where it is in the cache.
    pub fn get_cl(&self, key: i64) -> (r: Option<&i64>)
        ensures
            match r {
                Some(cl) => self.cl_cache@.contains_key(key) && self.cl_cache@[key] == *cl,
                None => !self.cl_cache@.contains_key(key),
            },
    {
        self.cl_cache.get(&key)
    }

    /// Keeps the causal length of a row. A full cache is emptied first.
    pub fn set_cl(&mut self, key: i64, cl: i64)
        ensures
            final(self).cl_cache@ == cached(old(self).cl_cache@, key, cl),
            *final(self) == (TableInfo { cl_cache: final(self).cl_cache, ..*old(self) }),
            old(self).wf() ==> final(self).wf(),
    {
        if self.cl_cache.len() >= MAX_CL_CACHE_SIZE {
            self.cl_cache.clear();
        }
        self.cl_cache.insert(key, cl);
    }

    /// Empties the cache of causal lengths.
    pub fn clear_cl_cache(&mut self)
        ensures
            final(self).cl_cache@ == Map::<i64, i64>::empty(),
            *final(self) == (TableInfo { cl_cache: final(self).cl_cache, ..*old(self) }),
            final(self).wf(),
    {
        self.cl_cache.clear();
    }

    /// The first column that is not in the primary key and has this name.
    pub open spec fn non_pk_col(self, col_name: Seq<char>) -> Option<int> {
        position(self.non_pk_names(), col_name)
    }

    fn find_non_pk_col(&self, col_name: &str) -> (r: Result<&ColumnInfo, ResultCode>)
        ensures
            match self.non_pk_col(col_name@) {
                Some(i) => r matches Ok(c) && 0 <= i < self.non_pks@.len() && *c == self.non_pks@[i],
                None => r matches Err(e) && e == ResultCode::ERROR,
            },
    {
        let mut i: usize = 0;
        assert(self.non_pk_names().skip(0) =~= self.non_pk_names());
        while i < self.non_pks.len()
            invariant
                i <= self.non_pks@.len(),
                self.non_pk_col(col_name@) == (match position(
                    self.non_pk_names().skip(i as int),
                    col_name@,
                ) {
                    Some(j) => Some(i + j),
                    None => None,
                }),
            decreases self.non_pks@.len() - i,
        {
            if same(self.non_pks[i].name.as_str(), col_name) {
                return Ok(&self.non_pks[i]);
            }
            assert(self.non_pk_names().skip(i as int).skip(1) =~= self.non_pk_names().skip(i + 1));
            i = i + 1;
        }
        Err(ResultCode::ERROR)
    }

    /// Reads the value of a cell; an error where there is no such column.
    pub fn get_col_value_stmt(&self, col_name: &str) -> (r: Result<String, ResultCode>)
        ensures
            match self.non_pk_col(col_name@) {
                Some(i) => r matches Ok(sql) && sql@ == self.non_pks@[i].curr_value_sql(*self),
                None => r matches Err(e) && e == ResultCode::ERROR,
            },
    {
        match self.find_non_pk_col(col_name) {
            Ok(col) => Ok(col.get_curr_value_stmt(self)),
            Err(e) => Err(e),
        }
    }

    /// Writes the value of a cell; an error where there is no such column.
    pub fn get_merge_insert_stmt(&self, col_name: &str) -> (r: Result<String, ResultCode>)
        ensures
            match self.non_pk_col(col_name@) {
                Some(i) => r matches Ok(sql) && sql@ == self.non_pks@[i].merge_insert_sql(*self),
                None => r matches Err(e) && e == ResultCode::ERROR,
            },
    {
        match self.find_non_pk_col(col_name) {
            Ok(col) => Ok(col.get_merge_insert_stmt(self)),
            Err(e) => Err(e),
        }
    }

    /// Reads the value of a cell for a change; an error where there is no such column.
    pub fn get_row_patch_data_stmt(&self, col_name: &str) -> (r: Result<String, ResultCode>)
        ensures
            match self.non_pk_col(col_name@) {
                Some(i) => r matches Ok(sql) && sql@ == self.non_pks@[i].row_patch_data_sql(*self),
                None => r matches Err(e) && e == ResultCode::ERROR,
            },
    {
        match self.find_non_pk_col(col_name) {
            Ok(col) => Ok(col.get_row_patch_data_stmt(self)),
            Err(e) => Err(e),
        }
    }

    /// Finds the key of a row.
    pub open spec fn select_key_sql(self) -> Seq<char> {
        "SELECT __crsql_key FROM \""@ + self.table() + "__crsql_pks\" WHERE "@ + where_text(self.pk_names(), ""@)
    }

    /// Finds the key of a row.
    pub fn get_select_key_stmt(&self) -> (r: String)
        ensures
            r@ == self.select_key_sql(),
    {
        "SELECT __crsql_key FROM \"".to_owned()
            .concat(escape_ident(self.tbl_name.as_str()).as_str())
            .concat("__crsql_pks\" WHERE ")
            .concat(where_list(self.pks.as_slice(), None).as_str())
    }

    /// Creates the key of a row.
    pub open spec fn insert_key_sql(self) -> Seq<char> {
        "INSERT INTO \""@ + self.table() + "__crsql_pks\" ("@ + identifier_text(self.pk_names(), ""@) + ") VALUES ("@ + repeated(self.pk_names().len(), "?"@) + ") RETURNING __crsql_key"@
    }

    /// Creates the key of a row.
    pub fn get_insert_key_stmt(&self) -> (r: String)
        ensures
            r@ == self.insert_key_sql(),
    {
        "INSERT INTO \"".to_owned()
            .concat(escape_ident(self.tbl_name.as_str()).as_str())
            .concat("__crsql_pks\" (")
            .concat(as_identifier_list(self.pks.as_slice(), None).as_str())
            .concat(") VALUES (")
            .concat(binding_list(self.pks.len()).as_str())
            .concat(") RETURNING __crsql_key")
    }

    /// Creates the key of a row, unless it is there.
    pub open spec fn insert_or_ignore_returning_key_sql(self) -> Seq<char> {
        "INSERT OR IGNORE INTO \""@ + self.table() + "__crsql_pks\" ("@ + identifier_text(self.pk_names(), ""@) + ") VALUES ("@ + repeated(self.pk_names().len(), "?"@) + ") RETURNING __crsql_key"@
    }

    /// Creates the key of a row, unless it is there.
    pub fn get_insert_or_ignore_returning_key_stmt(&self) -> (r: String)
        ensures
            r@ == self.insert_or_ignore_returning_key_sql(),
    {
        "INSERT OR IGNORE INTO \"".to_owned()
            .concat(escape_ident(self.tbl_name.as_str()).as_str())
            .concat("__crsql_pks\" (")
            .concat(as_identifier_list(self.pks.as_slice(), None).as_str())
            .concat(") VALUES (")
            .concat(binding_list(self.pks.len()).as_str())
            .concat(") RETURNING __crsql_key")
    }

    /// Writes the clock of a cell that a merge has won.
    pub open spec fn set_winner_clock_sql(self) -> Seq<char> {
        "INSERT OR REPLACE INTO \""@ + self.table() + "__crsql_clock\"
              (key, col_name, col_version, db_version, seq, site_id, ts)
              VALUES (
                ?,
                ?,
                ?,
                ?,
                ?,
                ?,
                ?
              ) RETURNING key"@
    }

    /// Writes the clock of a cell that a merge has won.
    pub fn get_set_winner_clock_stmt(&self) -> (r: String)
        ensures
            r@ == self.set_winner_clock_sql(),
    {
        "INSERT OR REPLACE INTO \"".to_owned()
            .concat(escape_ident(self.tbl_name.as_str()).as_str())
            .concat("__crsql_clock\"
              (key, col_name, col_version, db_version, seq, site_id, ts)
              VALUES (
                ?,
                ?,
                ?,
                ?,
                ?,
                ?,
                ?
              ) RETURNING key")
    }

    /// Finds the causal length of a row: that of its sentinel, else 1 where it has a clock.
    pub open spec fn local_cl_sql(self) -> Seq<char> {
        "SELECT COALESCE(
                (SELECT col_version FROM \""@ + self.table() + "__crsql_clock\" WHERE key = ? AND col_name = '-1'),
                (SELECT 1 FROM \""@ + self.table() + "__crsql_clock\" WHERE key = ?)
              )"@
    }

    /// Finds the causal length of a row: that of its sentinel, else 1 where it has a clock.
    pub fn get_local_cl_stmt(&self) -> (r: String)
        ensures
            r@ == self.local_cl_sql(),
    {
        "SELECT COALESCE(
                (SELECT col_version FROM \"".to_owned()
            .concat(escape_ident(self.tbl_name.as_str()).as_str())
            .concat("__crsql_clock\" WHERE key = ? AND col_name = '-1'),
                (SELECT 1 FROM \"")
            .concat(escape_ident(self.tbl_name.as_str()).as_str())
            .concat("__crsql_clock\" WHERE key = ?)
              )")
    }

    /// Finds the version of a cell.
    pub open spec fn col_version_sql(self) -> Seq<char> {
        "SELECT col_version FROM \""@ + self.table() + "__crsql_clock\" WHERE key = ? AND col_name = ?"@
    }

    /// Finds the version of a cell.
    pub fn get_col_version_stmt(&self) -> (r: String)
        ensures
            r@ == self.col_version_sql(),
    {
        "SELECT col_version FROM \"".to_owned()
            .concat(escape_ident(self.tbl_name.as_str()).as_str())
            .concat("__crsql_clock\" WHERE key = ? AND col_name = ?")
    }

    /// Finds the site that last wrote a cell.
    pub open spec fn col_site_id_sql(self) -> Seq<char> {
        "SELECT site_id FROM crsql_site_id WHERE ordinal = (SELECT site_id FROM \""@ + self.table() + "__crsql_clock\" WHERE key = ? AND col_name = ?)"@
    }

    /// Finds the site that last wrote a cell.
    pub fn get_col_site_id_stmt(&self) -> (r: String)
        ensures
            r@ == self.col_site_id_sql(),
    {
        "SELECT site_id FROM crsql_site_id WHERE ordinal = (SELECT site_id FROM \"".to_owned()
            .concat(escape_ident(self.tbl_name.as_str()).as_str())
            .concat("__crsql_clock\" WHERE key = ? AND col_name = ?)")
    }

    /// Inserts a row by its primary key alone, unless it is there.
    pub open spec fn merge_pk_only_insert_sql(self) -> Seq<char> {
        "INSERT OR IGNORE INTO \""@ + self.table() + "\" ("@ + identifier_text(self.pk_names(), ""@) + ") VALUES ("@ + repeated(self.pk_names().len(), "?"@) + ")"@
    }

    /// Inserts a row by its primary key alone, unless it is there.
    pub fn get_merge_pk_only_insert_stmt(&self) -> (r: String)
        ensures
            r@ == self.merge_pk_only_insert_sql(),
    {
        "INSERT OR IGNORE INTO \"".to_owned()
            .concat(escape_ident(self.tbl_name.as_str()).as_str())
            .concat("\" (")
            .concat(as_identifier_list(self.pks.as_slice(), None).as_str())
            .concat(") VALUES (")
            .concat(binding_list(self.pks.len()).as_str())
            .concat(")")
    }

    /// Deletes a row.
    pub open spec fn merge_delete_sql(self) -> Seq<char> {
        "DELETE FROM \""@ + self.table() + "\" WHERE "@ + where_text(self.pk_names(), ""@)
    }

    /// Deletes a row.
    pub fn get_merge_delete_stmt(&self) -> (r: String)
        ensures
            r@ == self.merge_delete_sql(),
    {
        "DELETE FROM \"".to_owned()
            .concat(escape_ident(self.tbl_name.as_str()).as_str())
            .concat("\" WHERE ")
            .concat(where_list(self.pks.as_slice(), None).as_str())
    }

    /// Deletes the clocks of the cells of a row.
    pub open spec fn merge_delete_drop_clocks_sql(self) -> Seq<char> {
        "DELETE FROM \""@ + self.table() + "__crsql_clock\" WHERE key = ? AND col_name IS NOT '-1'"@
    }

    /// Deletes the clocks of the cells of a row.
    pub fn get_merge_delete_drop_clocks_stmt(&self) -> (r: String)
        ensures
            r@ == self.merge_delete_drop_clocks_sql(),
    {
        "DELETE FROM \"".to_owned()
            .concat(escape_ident(self.tbl_name.as_str()).as_str())
            .concat("__crsql_clock\" WHERE key = ? AND col_name IS NOT '-1'")
    }

    /// Sets the versions of the cells of a row to zero.
    pub open spec fn zero_clocks_on_resurrect_sql(self) -> Seq<char> {
        "UPDATE \""@ + self.table() + "__crsql_clock\" SET col_version = 0 WHERE key = ? AND col_name IS NOT '-1'"@
    }

    /// Sets the versions of the cells of a row to zero.
    pub fn get_zero_clocks_on_resurrect_stmt(&self) -> (r: String)
        ensures
            r@ == self.zero_clocks_on_resurrect_sql(),
    {
        "UPDATE \"".to_owned()
            .concat(escape_ident(self.tbl_name.as_str()).as_str())
            .concat("__crsql_clock\" SET col_version = 0 WHERE key = ? AND col_name IS NOT '-1'")
    }

    /// Marks a row as deleted here: its causal length goes one up.
    pub open spec fn mark_locally_deleted_sql(self) -> Seq<char> {
        "INSERT INTO \""@ + self.table() + "__crsql_clock\" (
            key,
            col_name,
            col_version,
            db_version,
            seq,
            site_id,
            ts
          ) SELECT
            ?,
            '-1',
            2,
            ?,
            ?,
            0,
            ? WHERE true
          ON CONFLICT DO UPDATE SET
            col_version = 1 + col_version,
            db_version = excluded.db_version,
            seq = excluded.seq,
            site_id = 0,
            ts = excluded.ts
          RETURNING col_version"@
    }

    /// Marks a row as deleted here: its causal length goes one up.
    pub fn get_mark_locally_deleted_stmt(&self) -> (r: String)
        ensures
            r@ == self.mark_locally_deleted_sql(),
    {
        "INSERT INTO \"".to_owned()
            .concat(escape_ident(self.tbl_name.as_str()).as_str())
            .concat("__crsql_clock\" (
            key,
            col_name,
            col_version,
            db_version,
            seq,
            site_id,
            ts
          ) SELECT
            ?,
            '-1',
            2,
            ?,
            ?,
            0,
            ? WHERE true
          ON CONFLICT DO UPDATE SET
            col_version = 1 + col_version,
            db_version = excluded.db_version,
            seq = excluded.seq,
            site_id = 0,
            ts = excluded.ts
          RETURNING col_version")
    }

    /// Moves the clocks of the cells of a row to another key.
    pub open spec fn move_non_sentinels_sql(self) -> Seq<char> {
        "UPDATE OR REPLACE \""@ + self.table() + "__crsql_clock\" SET key = ? WHERE key = ? AND col_name != '-1'"@
    }

    /// Moves the clocks of the cells of a row to another key.
    pub fn get_move_non_sentinels_stmt(&self) -> (r: String)
        ensures
            r@ == self.move_non_sentinels_sql(),
    {
        "UPDATE OR REPLACE \"".to_owned()
            .concat(escape_ident(self.tbl_name.as_str()).as_str())
            .concat("__crsql_clock\" SET key = ? WHERE key = ? AND col_name != '-1'")
    }

    /// Moves the clock of a cell to another key, one version up.
    pub open spec fn move_non_pk_col_sql(self) -> Seq<char> {
        "UPDATE OR REPLACE \""@ + self.table() + "__crsql_clock\" SET
                key = ?,
                db_version = ?,
                seq = ?,
                col_version = col_version + 1,
                site_id = 0,
                ts = ?
            WHERE
                key = ? AND col_name = ?"@
    }

    /// Moves the clock of a cell to another key, one version up.
    pub fn get_move_non_pk_col_stmt(&self) -> (r: String)
        ensures
            r@ == self.move_non_pk_col_sql(),
    {
        "UPDATE OR REPLACE \"".to_owned()
            .concat(escape_ident(self.tbl_name.as_str()).as_str())
            .concat("__crsql_clock\" SET
                key = ?,
                db_version = ?,
                seq = ?,
                col_version = col_version + 1,
                site_id = 0,
                ts = ?
            WHERE
                key = ? AND col_name = ?")
    }

    /// Marks a row as created here: its causal length goes to the next odd number.
    pub open spec fn mark_locally_created_sql(self) -> Seq<char> {
        "INSERT INTO \""@ + self.table() + "__crsql_clock\" (
                key,
                col_name,
                col_version,
                db_version,
                seq,
                site_id,
                ts
              ) SELECT
                ?,
                '-1',
                1,
                ?,
                ?,
                0,
                ? WHERE true
                ON CONFLICT DO UPDATE SET
                  col_version = CASE col_version % 2 WHEN 0 THEN col_version + 1 ELSE col_version + 2 END,
                  db_version = excluded.db_version,
                  seq = excluded.seq,
                  site_id = 0,
                  ts = excluded.ts
                  RETURNING col_version"@
    }

    /// Marks a row as created here: its causal length goes to the next odd number.
    pub fn get_mark_locally_created_stmt(&self) -> (r: String)
        ensures
            r@ == self.mark_locally_created_sql(),
    {
        "INSERT INTO \"".to_owned()
            .concat(escape_ident(self.tbl_name.as_str()).as_str())
            .concat("__crsql_clock\" (
                key,
                col_name,
                col_version,
                db_version,
                seq,
                site_id,
                ts
              ) SELECT
                ?,
                '-1',
                1,
                ?,
                ?,
                0,
                ? WHERE true
                ON CONFLICT DO UPDATE SET
                  col_version = CASE col_version % 2 WHEN 0 THEN col_version + 1 ELSE col_version + 2 END,
                  db_version = excluded.db_version,
                  seq = excluded.seq,
                  site_id = 0,
                  ts = excluded.ts
                  RETURNING col_version")
    }

    /// Creates the clocks of all cells of a row, those that are not there.
    pub open spec fn combo_insert_clock_sql(self) -> Seq<char> {
        "INSERT OR IGNORE INTO \""@ + self.table() + "__crsql_clock\" (
                    key, col_name, col_version, db_version, seq, site_id, ts
                ) VALUES "@ + repeated(self.non_pk_names().len(), "(?, ?, 1, ?, ?, 0, ?)"@) + ";"@
    }

    /// Creates the clocks of all cells of a row, those that are not there.
    pub fn get_combo_insert_clock_stmt(&self) -> (r: String)
        ensures
            r@ == self.combo_insert_clock_sql(),
    {
        "INSERT OR IGNORE INTO \"".to_owned()
            .concat(escape_ident(self.tbl_name.as_str()).as_str())
            .concat("__crsql_clock\" (
                    key, col_name, col_version, db_version, seq, site_id, ts
                ) VALUES ")
            .concat(repeat_part(self.non_pks.len(), "(?, ?, 1, ?, ?, 0, ?)").as_str())
            .concat(";")
    }

    /// Looks whether a cell has a clock.
    pub open spec fn select_clock_sql(self) -> Seq<char> {
        "SELECT 1 FROM \""@ + self.table() + "__crsql_clock\"
                    WHERE key = ? AND col_name = ? LIMIT 1;"@
    }

    /// Looks whether a cell has a clock.
    pub fn get_select_clock_stmt(&self) -> (r: String)
        ensures
            r@ == self.select_clock_sql(),
    {
        "SELECT 1 FROM \"".to_owned()
            .concat(escape_ident(self.tbl_name.as_str()).as_str())
            .concat("__crsql_clock\"
                    WHERE key = ? AND col_name = ? LIMIT 1;")
    }

    /// Creates the clock of a cell.
    pub open spec fn insert_clock_sql(self) -> Seq<char> {
        "INSERT INTO \""@ + self.table() + "__crsql_clock\" (
                    key, col_name, col_version, db_version, seq, site_id, ts
                ) VALUES (?, ?, 1, ?, ?, 0, ?);"@
    }

    /// Creates the clock of a cell.
    pub fn get_insert_clock_stmt(&self) -> (r: String)
        ensures
            r@ == self.insert_clock_sql(),
    {
        "INSERT INTO \"".to_owned()
            .concat(escape_ident(self.tbl_name.as_str()).as_str())
            .concat("__crsql_clock\" (
                    key, col_name, col_version, db_version, seq, site_id, ts
                ) VALUES (?, ?, 1, ?, ?, 0, ?);")
    }

    /// Takes the version of a cell one up.
    pub open spec fn update_clock_sql(self) -> Seq<char> {
        "UPDATE \""@ + self.table() + "__crsql_clock\"
                SET
                    col_version = col_version + 1,
                    db_version = ?,
                    seq = ?,
                    site_id = 0,
                    ts = ?
                WHERE key = ? AND col_name = ?;"@
    }

    /// Takes the version of a cell one up.
    pub fn get_update_clock_stmt(&self) -> (r: String)
        ensures
            r@ == self.update_clock_sql(),
    {
        "UPDATE \"".to_owned()
            .concat(escape_ident(self.tbl_name.as_str()).as_str())
            .concat("__crsql_clock\"
                SET
                    col_version = col_version + 1,
                    db_version = ?,
                    seq = ?,
                    site_id = 0,
                    ts = ?
                WHERE key = ? AND col_name = ?;")
    }

    /// Marks a row as created again here, where it has a sentinel.
    pub open spec fn maybe_mark_locally_reinserted_sql(self) -> Seq<char> {
        "UPDATE \""@ + self.table() + "__crsql_clock\" SET
                col_version = CASE col_version % 2 WHEN 0 THEN col_version + 1 ELSE col_version + 2 END,
                db_version = ?,
                seq = ?,
                site_id = 0,
                ts = ?
              WHERE key = ? AND col_name = ?
              RETURNING col_version"@
    }

    /// Marks a row as created again here, where it has a sentinel.
    pub fn get_maybe_mark_locally_reinserted_stmt(&self) -> (r: String)
        ensures
            r@ == self.maybe_mark_locally_reinserted_sql(),
    {
        "UPDATE \"".to_owned()
            .concat(escape_ident(self.tbl_name.as_str()).as_str())
            .concat("__crsql_clock\" SET
                col_version = CASE col_version % 2 WHEN 0 THEN col_version + 1 ELSE col_version + 2 END,
                db_version = ?,
                seq = ?,
                site_id = 0,
                ts = ?
              WHERE key = ? AND col_name = ?
              RETURNING col_version")
    }
}

/// Where `name` first occurs in `all`.
pub open spec fn position(all: Seq<Seq<char>>, name: Seq<char>) -> Option<int>
    decreases all.len(),
{
    if all.len() == 0 {
        None
    } else if all[0] == name {
        Some(0int)
    } else {
        match position(all.skip(1), name) {
            Some(i) => Some(i + 1),
            None => None,
        }
    }
}

/// A position that is found is one of the name, and no earlier one is.
pub proof fn position_is_first(all: Seq<Seq<char>>, name: Seq<char>)
    ensures
        match position(all, name) {
            Some(i) => 0 <= i < all.len() && all[i] == name && forall|j: int| 0 <= j < i ==> all[j] != name,
            None => !all.contains(name),
        },
    decreases all.len(),
{
    if all.len() > 0 && all[0] != name {
        position_is_first(all.skip(1), name);
        match position(all.skip(1), name) {
            Some(i) => {
                assert forall|j: int| 0 <= j < i + 1 implies all[j] != name by {
                    if j > 0 {
                        assert(all.skip(1)[j - 1] == all[j]);
                    }
                }
            },
            None => {
                assert forall|j: int| 0 <= j < all.len() implies all[j] != name by {
                    if j > 0 {
                        assert(all.skip(1)[j - 1] == all[j]);
                        assert(all.skip(1).contains(all[j]));
                    }
                }
            },
        }
    }
}

impl ColumnInfo {
    /// Reads the value of the cell.
    pub open spec fn curr_value_sql(self, tbl: TableInfo) -> Seq<char> {
        "SELECT \""@ + escaped(self.name@) + "\" FROM \""@ + tbl.table() + "\" WHERE "@ + where_text(tbl.pk_names(), ""@)
    }

    /// Reads the value of the cell.
    pub fn get_curr_value_stmt(&self, tbl_info: &TableInfo) -> (r: String)
        ensures
            r@ == self.curr_value_sql(*tbl_info),
    {
        "SELECT \"".to_owned()
            .concat(escape_ident(self.name.as_str()).as_str())
            .concat("\" FROM \"")
            .concat(escape_ident(tbl_info.tbl_name.as_str()).as_str())
            .concat("\" WHERE ")
            .concat(where_list(tbl_info.pks.as_slice(), None).as_str())
    }

    /// Writes the value of the cell, and the row where it is not there.
    pub open spec fn merge_insert_sql(self, tbl: TableInfo) -> Seq<char> {
        "INSERT INTO \""@ + tbl.table() + "\" ("@ + identifier_text(tbl.pk_names(), ""@) + ", \""@ + escaped(self.name@) + "\")
                VALUES ("@ + repeated(tbl.pk_names().len(), "?"@) + ", ?)
                ON CONFLICT DO UPDATE
                SET \""@ + escaped(self.name@) + "\" = ?"@
    }

    /// Writes the value of the cell, and the row where it is not there.
    pub fn get_merge_insert_stmt(&self, tbl_info: &TableInfo) -> (r: String)
        ensures
            r@ == self.merge_insert_sql(*tbl_info),
    {
        "INSERT INTO \"".to_owned()
            .concat(escape_ident(tbl_info.tbl_name.as_str()).as_str())
            .concat("\" (")
            .concat(as_identifier_list(tbl_info.pks.as_slice(), None).as_str())
            .concat(", \"")
            .concat(escape_ident(self.name.as_str()).as_str())
            .concat("\")
                VALUES (")
            .concat(binding_list(tbl_info.pks.len()).as_str())
            .concat(", ?)
                ON CONFLICT DO UPDATE
                SET \"")
            .concat(escape_ident(self.name.as_str()).as_str())
            .concat("\" = ?")
    }

    /// Reads the value of the cell for a change.
    pub open spec fn row_patch_data_sql(self, tbl: TableInfo) -> Seq<char> {
        "SELECT \""@ + escaped(self.name@) + "\" FROM \""@ + tbl.table() + "\" WHERE "@ + where_text(tbl.pk_names(), ""@) + "\0"@
    }

    /// Reads the value of the cell for a change.
    pub fn get_row_patch_data_stmt(&self, tbl_info: &TableInfo) -> (r: String)
        ensures
            r@ == self.row_patch_data_sql(*tbl_info),
    {
        "SELECT \"".to_owned()
            .concat(escape_ident(self.name.as_str()).as_str())
            .concat("\" FROM \"")
            .concat(escape_ident(tbl_info.tbl_name.as_str()).as_str())
            .concat("\" WHERE ")
            .concat(where_list(tbl_info.pks.as_slice(), None).as_str())
            .concat("\0")
    }
}

// ---------------------------------------------------------------------------
// Keys of rows
// ---------------------------------------------------------------------------
/// What to do about the key of a row.
#[derive(Clone, Copy, PartialEq, Eq, Structural, Debug)]
pub enum KeyStep {
    /// This is the key.
    Found(i64),
    /// Create the key.
    Create,
    /// Give up.
    Fail(ResultCode),
}

/// What to do about the key of a row that is inserted.
#[derive(Clone, Copy, PartialEq, Eq, Structural, Debug)]
pub enum InsertKeyStep {
    /// This is the key; it was not there before.
    Created(i64),
    /// The key is there: look it up.
    LookUp,
    /// Give up.
    Fail(ResultCode),
}

impl TableInfo {
    /// What to do about the key of a row, once
    /// [`get_select_key_stmt`](TableInfo::get_select_key_stmt) has run.
    pub fn get_or_create_key(selected: Stepped) -> (r: KeyStep)
        ensures
            r == match selected {
                Stepped::Row(key) => KeyStep::Found(key),
                Stepped::Done => KeyStep::Create,
                Stepped::Other(rc) => KeyStep::Fail(rc),
            },
    {
        match selected {
            Stepped::Row(key) => KeyStep::Found(key),
            Stepped::Done => KeyStep::Create,
            Stepped::Other(rc) => KeyStep::Fail(rc),
        }
    }

    /// As [`get_or_create_key`](TableInfo::get_or_create_key), for values as SQLite hands
    /// them over.
    pub fn get_or_create_key_via_raw_values(selected: Stepped) -> (r: KeyStep)
        ensures
            r == match selected {
                Stepped::Row(key) => KeyStep::Found(key),
                Stepped::Done => KeyStep::Create,
                Stepped::Other(rc) => KeyStep::Fail(rc),
            },
    {
        Self::get_or_create_key(selected)
    }

    /// The key that was created, once
    /// [`get_insert_key_stmt`](TableInfo::get_insert_key_stmt) has run.
    pub fn create_key(inserted: Stepped) -> (r: Result<i64, ResultCode>)
        ensures
            r == match inserted {
                Stepped::Row(key) => Ok::<i64, ResultCode>(key),
                Stepped::Done => Err(ResultCode::DONE),
                Stepped::Other(rc) => Err(rc),
            },
    {
        match inserted {
            Stepped::Row(key) => Ok(key),
            Stepped::Done => Err(ResultCode::DONE),
            Stepped::Other(rc) => Err(rc),
        }
    }

    /// What to do about the key of a row that is inserted, once
    /// [`get_insert_or_ignore_returning_key_stmt`](TableInfo::get_insert_or_ignore_returning_key_stmt)
    /// has run.
    pub fn get_or_create_key_for_insert(inserted: Stepped) -> (r: InsertKeyStep)
        ensures
            r == match inserted {
                Stepped::Row(key) => InsertKeyStep::Created(key),
                Stepped::Done => InsertKeyStep::LookUp,
                Stepped::Other(rc) => InsertKeyStep::Fail(rc),
            },
    {
        match inserted {
            Stepped::Row(key) => InsertKeyStep::Created(key),
            Stepped::Done => InsertKeyStep::LookUp,
            Stepped::Other(rc) => InsertKeyStep::Fail(rc),
        }
    }

    /// The key of an inserted row that was there before, once
    /// [`get_select_key_stmt`](TableInfo::get_select_key_stmt) has run: the key, behind
    /// the mark that it was there.
    pub fn found_key_for_insert(selected: Stepped) -> (r: Result<(bool, i64), ResultCode>)
        ensures
            r == match selected {
                Stepped::Row(key) => Ok::<(bool, i64), ResultCode>((true, key)),
                Stepped::Done => Err(ResultCode::DONE),
                Stepped::Other(rc) => Err(rc),
            },
    {
        match selected {
            Stepped::Row(key) => Ok((true, key)),
            Stepped::Done => Err(ResultCode::DONE),
            Stepped::Other(rc) => Err(rc),
        }
    }
}

// ---------------------------------------------------------------------------
// Which tables can be replicated
// ---------------------------------------------------------------------------
/// The query of a check on a table that is to be replicated.
pub open spec fn compat_query(check: int, table: Seq<char>) -> Seq<char> {
    if check == 0 {
        "SELECT count(*) FROM pragma_index_list('"@ + table + "')
            WHERE \"origin\" != 'pk' AND \"unique\" = 1"@
    } else if check == 1 {
        "SELECT count(*) FROM pragma_table_info('"@ + table + "')
        WHERE \"pk\" > 0 AND \"notnull\" > 0"@
    } else if check == 2 {
        "SELECT count(*) FROM pragma_table_info('"@ + table + "') WHERE \"pk\" > 0"@
    } else if check == 3 {
        "SELECT 1 FROM sqlite_master WHERE name = ? AND type = 'table' AND sql
            LIKE '%autoincrement%' limit 1"@
    } else if check == 4 {
        "SELECT count(*) FROM pragma_foreign_key_list('"@ + table + "')"@
    } else {
        "SELECT count(*) FROM pragma_table_xinfo('"@ + table + "')
        WHERE \"notnull\" = 1 AND \"dflt_value\" IS NULL AND \"pk\" = 0"@
    }
}

/// Why a table that fails a check cannot be replicated.
pub open spec fn compat_message(check: int, table: Seq<char>) -> Seq<char> {
    if check == 0 {
        "Table "@ + table + " has unique indices besidesthe primary key. This is not allowed for CRRs"@
    } else if check == 1 {
        "Table "@ + table + " has no primary key or primary key is nullable. CRRs must have a non nullable primary key"@
    } else if check == 2 {
        "Table "@ + table + " has composite primary key part of which is nullable. CRRs must have a non nullable primary key"@
    } else if check == 3 {
        table + " has auto-increment primary keys. This is likely a mistake as two concurrent nodes will assign unrelated rows the same primary key. Either use a primary key that represents the identity of your row or use a database friendly UUID such as UUIDv7"@
    } else if check == 4 {
        "Table "@ + table + " has checked foreign key constraints. CRRs may have foreign keys but must not have checked foreign key constraints as they can be violated by row level security or replication."@
    } else {
        "Table "@ + table + " has a NOT NULL column without a DEFAULT VALUE. This is not allowed as it prevents forwards and backwards compatibility between schema versions. Make the column nullable or assign a default value to it."@
    }
}

fn query_text(check: usize, table: &str) -> (r: String)
    ensures
        r@ == compat_query(check as int, table@),
{
    if check == 0 {
        "SELECT count(*) FROM pragma_index_list('".to_owned()
            .concat(table)
            .concat("')
            WHERE \"origin\" != 'pk' AND \"unique\" = 1")
    } else if check == 1 {
        "SELECT count(*) FROM pragma_table_info('".to_owned()
            .concat(table)
            .concat("')
        WHERE \"pk\" > 0 AND \"notnull\" > 0")
    } else if check == 2 {
        "SELECT count(*) FROM pragma_table_info('".to_owned()
            .concat(table)
            .concat("') WHERE \"pk\" > 0")
    } else if check == 3 {
        "SELECT 1 FROM sqlite_master WHERE name = ? AND type = 'table' AND sql
            LIKE '%autoincrement%' limit 1".to_owned()
    } else if check == 4 {
        "SELECT count(*) FROM pragma_foreign_key_list('".to_owned()
            .concat(table)
            .concat("')")
    } else {
        "SELECT count(*) FROM pragma_table_xinfo('".to_owned()
            .concat(table)
            .concat("')
        WHERE \"notnull\" = 1 AND \"dflt_value\" IS NULL AND \"pk\" = 0")
    }
}

fn message_text(check: usize, table: &str) -> (r: String)
    ensures
        r@ == compat_message(check as int, table@),
{
    if check == 0 {
        "Table ".to_owned()
            .concat(table)
            .concat(" has unique indices besidesthe primary key. This is not allowed for CRRs")
    } else if check == 1 {
        "Table ".to_owned()
            .concat(table)
            .concat(" has no primary key or primary key is nullable. CRRs must have a non nullable primary key")
    } else if check == 2 {
        "Table ".to_owned()
            .concat(table)
            .concat(" has composite primary key part of which is nullable. CRRs must have a non nullable primary key")
    } else if check == 3 {
        table.to_owned().concat(" has auto-increment primary keys. This is likely a mistake as two concurrent nodes will assign unrelated rows the same primary key. Either use a primary key that represents the identity of your row or use a database friendly UUID such as UUIDv7")
    } else if check == 4 {
        "Table ".to_owned()
            .concat(table)
            .concat(" has checked foreign key constraints. CRRs may have foreign keys but must not have checked foreign key constraints as they can be violated by row level security or replication.")
    } else {
        "Table ".to_owned()
            .concat(table)
            .concat(" has a NOT NULL column without a DEFAULT VALUE. This is not allowed as it prevents forwards and backwards compatibility between schema versions. Make the column nullable or assign a default value to it.")
    }
}

/// The number of checks.
pub const COMPAT_CHECKS: usize = 6;

/// Whether the answer to a check rules the table out. The checks are: no unique index
/// but the primary key; a primary key that is not null, all of it; no automatic
/// increment; no checked foreign keys; no column that has to be given a value.
pub open spec fn compat_fails(check: int, seen: Seq<i32>) -> bool {
    if check == 1 {
        seen[1] == 0
    } else if check == 2 {
        seen[2] != seen[1]
    } else {
        seen[check] != 0
    }
}

/// The first of the checks from `check` on that rules the table out.
pub open spec fn first_failure(check: int, seen: Seq<i32>) -> Option<int>
    decreases seen.len() - check,
{
    if check >= seen.len() {
        None
    } else if compat_fails(check, seen) {
        Some(check)
    } else {
        first_failure(check + 1, seen)
    }
}

/// How the checks on a table go on.
pub enum Compat {
    /// Run this query; where it gives no number but a row, or none, count that as one
    /// or zero.
    Ask(String),
    /// The table cannot be replicated, and why.
    No(String),
    /// The table can be replicated.
    Yes,
}

/// How the checks on a table go on, with the answers that the first of them gave.
pub fn is_table_compatible(table: &str, seen: &[i32]) -> (r: Compat)
    requires
        seen@.len() <= COMPAT_CHECKS,
    ensures
        match first_failure(0, seen@) {
            Some(check) => r matches Compat::No(msg) && msg@ == compat_message(check, table@),
            None => if seen@.len() == COMPAT_CHECKS {
                r is Yes
            } else {
                r matches Compat::Ask(sql) && sql@ == compat_query(seen@.len() as int, table@)
            },
        },
{
    let mut check: usize = 0;
    while check < seen.len()
        invariant
            check <= seen@.len() <= COMPAT_CHECKS,
            first_failure(0, seen@) == first_failure(check as int, seen@),
        decreases seen@.len() - check,
    {
        let fails: bool = if check == 1 {
            seen[1] == 0
        } else if check == 2 {
            seen[2] != seen[1]
        } else {
            seen[check] != 0
        };
        if fails {
            return Compat::No(message_text(check, table));
        }
        check = check + 1;
    }
    if check == COMPAT_CHECKS {
        Compat::Yes
    } else {
        Compat::Ask(query_text(check, table))
    }
}

// ---------------------------------------------------------------------------
// What the database says of a table
// ---------------------------------------------------------------------------
/// What was found about a table in the database.
pub struct Observed {
    /// The number of columns, as counted.
    pub columns_len: i32,
    /// The columns, as listed.
    pub columns: Vec<ColumnInfo>,
    /// Whether the table can be read by its rowid alias.
    pub alias_readable: bool,
    /// Whether the table has metadata in the second format.
    pub has_v2: bool,
    /// How many columns named `hashed_pk` the table of live keys has, where that could
    /// be asked.
    pub hashed_pk_count: Option<i32>,
    /// The number of columns of the table of live keys, where that could be asked.
    pub v2_pks_count: Option<i32>,
    /// What the settings say of `skip_hash`.
    pub persisted_skip_hash: Option<i32>,
    /// What the table's definition says of `skip_hash`.
    pub directive_skip_hash: Option<bool>,
    /// What the settings say of `use_rowid`.
    pub persisted_use_rowid: Option<i32>,
    /// What the table's definition says of `use_rowid`.
    pub directive_use_rowid: Option<bool>,
    /// Whether the table has metadata in the first format.
    pub has_v1: bool,
}

/// Calls `num_traits::ToPrimitive::to_usize` on an `i32`: the same number where it is
/// not negative, nothing where it is.
#[verifier::external_body]
fn to_usize(n: i32) -> (r: Option<usize>)
    ensures
        r matches Some(m) ==> m == n,
        r is Some <==> n >= 0,
{
    num_traits::ToPrimitive::to_usize(&n)
}

/// `sorted` with `c` behind all columns that are not behind it in the primary key.
pub open spec fn with_pk(sorted: Seq<ColumnInfo>, c: ColumnInfo) -> Seq<ColumnInfo>
    decreases sorted.len(),
{
    if sorted.len() == 0 || sorted.last().pk <= c.pk {
        sorted.push(c)
    } else {
        with_pk(sorted.drop_last(), c).push(sorted.last())
    }
}

/// The columns of the primary key, in its order.
pub open spec fn pks_of(columns: Seq<ColumnInfo>) -> Seq<ColumnInfo>
    decreases columns.len(),
{
    if columns.len() == 0 {
        seq![]
    } else if columns.last().pk > 0 {
        with_pk(pks_of(columns.drop_last()), columns.last())
    } else {
        pks_of(columns.drop_last())
    }
}

/// The columns outside the primary key.
pub open spec fn non_pks_of(columns: Seq<ColumnInfo>) -> Seq<ColumnInfo> {
    columns.filter(|c: ColumnInfo| c.pk <= 0)
}

proof fn lemma_with_pk(sorted: Seq<ColumnInfo>, c: ColumnInfo)
    requires
        forall|i: int, j: int| 0 <= i < j < sorted.len() ==> sorted[i].pk <= sorted[j].pk,
    ensures
        forall|i: int, j: int| 0 <= i < j < with_pk(sorted, c).len() ==> with_pk(sorted, c)[i].pk
            <= with_pk(sorted, c)[j].pk,
        with_pk(sorted, c).to_multiset() =~= sorted.to_multiset().insert(c),
        with_pk(sorted, c).len() == sorted.len() + 1,
        forall|i: int| 0 <= i < with_pk(sorted, c).len() ==> with_pk(sorted, c)[i] == c || sorted.contains(
            with_pk(sorted, c)[i],
        ),
    decreases sorted.len(),
{
    broadcast use vstd::seq_lib::group_to_multiset_ensures;

    if sorted.len() == 0 || sorted.last().pk <= c.pk {
        let r = sorted.push(c);
        assert forall|i: int| 0 <= i < r.len() implies r[i] == c || sorted.contains(r[i]) by {
            if i < sorted.len() {
                assert(r[i] == sorted[i]);
            }
        }
    } else {
        let front = sorted.drop_last();
        lemma_with_pk(front, c);
        let w = with_pk(front, c);
        let r = w.push(sorted.last());
        assert(sorted =~= front.push(sorted.last()));
        assert forall|i: int| 0 <= i < r.len() implies r[i] == c || sorted.contains(r[i]) by {
            if i < w.len() {
                assert(w[i] == c || front.contains(w[i]));
                if front.contains(w[i]) {
                    let k = choose|k: int| 0 <= k < front.len() && front[k] == w[i];
                    assert(sorted[k] == w[i]);
                }
            } else {
                assert(sorted[sorted.len() - 1] == r[i]);
            }
        }
        assert forall|i: int| 0 <= i < w.len() implies w[i].pk <= sorted.last().pk by {
            assert(w[i] == c || front.contains(w[i]));
            if front.contains(w[i]) {
                let k = choose|k: int| 0 <= k < front.len() && front[k] == w[i];
                assert(sorted[k] == w[i]);
            }
        }
    }
}

/// The primary key holds exactly the columns that are in it, in its order.
pub proof fn pks_are_sorted(columns: Seq<ColumnInfo>)
    ensures
        forall|i: int, j: int| 0 <= i < j < pks_of(columns).len() ==> pks_of(columns)[i].pk
            <= pks_of(columns)[j].pk,
        pks_of(columns).to_multiset() =~= columns.filter(|c: ColumnInfo| c.pk > 0).to_multiset(),
    decreases columns.len(),
{
    broadcast use vstd::seq_lib::group_to_multiset_ensures;

    let pred = |c: ColumnInfo| c.pk > 0;
    reveal(Seq::filter);
    if columns.len() > 0 {
        pks_are_sorted(columns.drop_last());
        if columns.last().pk > 0 {
            lemma_with_pk(pks_of(columns.drop_last()), columns.last());
        }
    } else {
        assert(pks_of(columns) =~= columns.filter(pred));
    }
}

proof fn lemma_with_pk_at(sorted: Seq<ColumnInfo>, c: ColumnInfo, at: int)
    requires
        0 <= at <= sorted.len(),
        forall|i: int| at <= i < sorted.len() ==> sorted[i].pk > c.pk,
        at > 0 ==> sorted[at - 1].pk <= c.pk,
    ensures
        with_pk(sorted, c) == sorted.insert(at, c),
    decreases sorted.len(),
{
    if sorted.len() == 0 || sorted.last().pk <= c.pk {
        assert(at == sorted.len());
        assert(sorted.insert(at, c) =~= sorted.push(c));
    } else {
        lemma_with_pk_at(sorted.drop_last(), c, at);
        assert(sorted.insert(at, c) =~= sorted.drop_last().insert(at, c).push(sorted.last()));
    }
}

fn split_columns(columns: &[ColumnInfo]) -> (r: (Vec<ColumnInfo>, Vec<ColumnInfo>))
    ensures
        r.0@ == pks_of(columns@),
        r.1@ == non_pks_of(columns@),
{
    let mut pks: Vec<ColumnInfo> = Vec::new();
    let mut non_pks: Vec<ColumnInfo> = Vec::new();
    let mut i: usize = 0;
    proof {
        reveal(Seq::filter);
        assert(columns@.take(0) =~= seq![]);
    }
    while i < columns.len()
        invariant
            i <= columns@.len(),
            pks@ == pks_of(columns@.take(i as int)),
            non_pks@ == non_pks_of(columns@.take(i as int)),
        decreases columns@.len() - i,
    {
        let c = columns[i].clone();
        proof {
            let now = columns@.take(i + 1);
            assert(now.drop_last() =~= columns@.take(i as int));
            assert(now.last() == c);
            reveal(Seq::filter);
        }
        if c.pk > 0 {
            let mut at: usize = pks.len();
            while at > 0 && pks[at - 1].pk > c.pk
                invariant
                    at <= pks@.len(),
                    forall|k: int| at <= k < pks@.len() ==> pks@[k].pk > c.pk,
                decreases at,
            {
                at = at - 1;
            }
            proof {
                lemma_with_pk_at(pks@, c, at as int);
            }
            pks.insert(at, c);
        } else {
            non_pks.push(c);
        }
        i = i + 1;
    }
    assert(columns@.take(i as int) =~= columns@);
    (pks, non_pks)
}

/// Whether one of the columns has this name.
pub open spec fn has_column(columns: Seq<ColumnInfo>, name: Seq<char>) -> bool {
    exists|i: int| 0 <= i < columns.len() && #[trigger] columns[i].name@ == name
}

fn has_name(columns: &[ColumnInfo], name: &str) -> (r: bool)
    ensures
        r == has_column(columns@, name@),
{
    let mut i: usize = 0;
    while i < columns.len()
        invariant
            i <= columns@.len(),
            forall|j: int| 0 <= j < i ==> #[trigger] columns@[j].name@ != name@,
        decreases columns@.len() - i,
    {
        if same(columns[i].name.as_str(), name) {
            assert(columns@[i as int].name@ == name@);
            return true;
        }
        i = i + 1;
    }
    false
}

/// The integer primary key, which stands for the rowid: the only column of the primary key, where
/// its type is `INTEGER`.
pub open spec fn integer_pk(pks: Seq<ColumnInfo>) -> Option<int> {
    if pks.len() == 1 && pks[0].col_type@ == "INTEGER"@ {
        Some(0)
    } else {
        None
    }
}

fn find_integer_pk(pks: &[ColumnInfo]) -> (r: Option<usize>)
    ensures
        match integer_pk(pks@) {
            Some(i) => r matches Some(j) && i == j && j < pks@.len(),
            None => r is None,
        },
{
    if pks.len() == 1 && same(pks[0].col_type.as_str(), "INTEGER") {
        Some(0)
    } else {
        None
    }
}

/// The name by which the rowid of a table can be read: its integer primary key, else
/// the first built-in name that no column has, else none.
pub open spec fn alias_of(columns: Seq<ColumnInfo>) -> Seq<char> {
    match integer_pk(pks_of(columns)) {
        Some(i) => pks_of(columns)[i].name@,
        None => if !has_column(columns, "rowid"@) {
            "rowid"@
        } else if !has_column(columns, "oid"@) {
            "oid"@
        } else if !has_column(columns, "_rowid_"@) {
            "_rowid_"@
        } else {
            seq![]
        },
    }
}

/// Whether a type, in upper case, holds `INT`.
pub open spec fn holds_int(upper: Seq<char>) -> bool {
    exists|i: int|
        0 <= i && i + 3 <= upper.len() && #[trigger] upper[i] == 'I' && upper[i + 1] == 'N' && upper[i + 2]
            == 'T'
}

/// Whether a type, in upper case, holds `INT`.
pub fn contains_int(upper: &str) -> (r: bool)
    ensures
        r == holds_int(upper@),
{
    let s = to_chars(upper);
    let mut i: usize = 0;
    while i < s.len() && s.len() - i >= 3
        invariant
            s@ == upper@,
            i <= s@.len(),
            forall|j: int| 0 <= j < i ==> !(#[trigger] upper@[j] == 'I' && upper@[j + 1] == 'N' && upper@[j + 2] == 'T'),
        decreases s@.len() - i,
    {
        if s[i] == 'I' && s[i + 1] == 'N' && s[i + 2] == 'T' {
            assert(upper@[i as int] == 'I');
            return true;
        }
        i = i + 1;
    }
    false
}

/// Whether a type stands for integers: `INT` is in its name, in any case.
pub fn is_int_type(col_type: &str) -> (r: bool)
    ensures
        r == holds_int(uppercase_of(col_type@)),
{
    contains_int(to_uppercase(col_type).as_str())
}

impl Observed {
    /// What was decided about `skip_hash`: by the metadata where they are there, else
    /// by the settings, else by the table's definition.
    pub open spec fn manual_skip_hash(self) -> Option<bool> {
        if self.has_v2 {
            match self.hashed_pk_count {
                Some(n) => Some(n == 0),
                None => None,
            }
        } else {
            match self.persisted_skip_hash {
                Some(v) => Some(v == 1),
                None => self.directive_skip_hash,
            }
        }
    }

    /// Whether rows are known by their primary key. With no decision about it, they
    /// are where the primary key is one column of integers; the metadata have the last
    /// word, and a primary key of several columns is never used in this way without
    /// them.
    pub open spec fn skip_hash(self) -> bool {
        let pks = pks_of(self.columns@);
        if self.has_v2 {
            self.manual_skip_hash() == Some(true)
        } else {
            match self.manual_skip_hash() {
                Some(explicit) => explicit && pks.len() == 1,
                None => pks.len() == 1 && holds_int(uppercase_of(pks[0].col_type@)),
            }
        }
    }

    /// Whether it was asked for that the key of a row is its rowid: in the settings, or else
    /// in the table's definition.
    pub open spec fn use_rowid(self) -> bool {
        match self.persisted_use_rowid {
            Some(v) => v == 1,
            None => self.directive_use_rowid == Some(true),
        }
    }

    /// Whether the key of a row is its rowid: read off the number of columns of the
    /// table of live keys where it is there, else only where that was asked for and the
    /// table has an integer primary key and a rowid.
    pub open spec fn key_is_rowid(self) -> bool {
        let asked = integer_pk(pks_of(self.columns@)) is Some && self.alias_readable && self.use_rowid();
        if self.has_v2 {
            match self.v2_pks_count {
                Some(n) => n == (if self.skip_hash() { 2i32 } else { 3i32 }),
                None => asked,
            }
        } else {
            asked
        }
    }

    /// Which metadata the table has.
    pub open spec fn schema_version(self) -> SchemaVersion {
        if self.has_v2 && self.has_v1 {
            SchemaVersion::V2AndV1
        } else if self.has_v2 {
            SchemaVersion::V2
        } else {
            SchemaVersion::V1
        }
    }

    fn decide_skip_hash(&self, pks: &[ColumnInfo]) -> (r: bool)
        requires
            pks@ == pks_of(self.columns@),
        ensures
            r == self.skip_hash(),
    {
        if self.has_v2 {
            match self.hashed_pk_count {
                Some(n) => n == 0,
                None => false,
            }
        } else {
            let manual: Option<bool> = match self.persisted_skip_hash {
                Some(v) => Some(v == 1),
                None => self.directive_skip_hash,
            };
            match manual {
                Some(explicit) => explicit && pks.len() == 1,
                None => pks.len() == 1 && is_int_type(pks[0].col_type.as_str()),
            }
        }
    }

    fn decide_key_is_rowid(&self, has_integer_pk: bool, skip_hash: bool) -> (r: bool)
        requires
            has_integer_pk == (integer_pk(pks_of(self.columns@)) is Some),
            skip_hash == self.skip_hash(),
        ensures
            r == self.key_is_rowid(),
    {
        let on: bool = match self.persisted_use_rowid {
            Some(v) => v == 1,
            None => match self.directive_use_rowid {
                Some(on) => on,
                None => false,
            },
        };
        let asked: bool = has_integer_pk && self.alias_readable && on;
        if self.has_v2 {
            match self.v2_pks_count {
                Some(n) => if skip_hash {
                    n == 2
                } else {
                    n == 3
                },
                None => asked,
            }
        } else {
            asked
        }
    }
}

/// Before there are metadata, rows are known by their primary key only where it is a single
/// column, and by their rowid only where that was asked for and the table has an integer
/// primary key.
pub proof fn key_modes_are_safe(seen: Observed)
    requires
        !seen.has_v2,
    ensures
        seen.skip_hash() ==> pks_of(seen.columns@).len() == 1,
        seen.key_is_rowid() ==> seen.use_rowid(),
        seen.key_is_rowid() ==> integer_pk(pks_of(seen.columns@)) is Some,
        seen.key_is_rowid() ==> pks_of(seen.columns@).len() == 1,
{
}

/// The name by which the rowid of a table with those columns can be read; empty where
/// there is none.
pub fn rowid_alias(columns: &[ColumnInfo]) -> (r: String)
    ensures
        r@ == alias_of(columns@),
{
    let (pks, _) = split_columns(columns);
    match find_integer_pk(pks.as_slice()) {
        Some(i) => pks[i].name.clone(),
        None => if !has_name(columns, "rowid") {
            "rowid".to_owned()
        } else if !has_name(columns, "oid") {
            "oid".to_owned()
        } else if !has_name(columns, "_rowid_") {
            "_rowid_".to_owned()
        } else {
            String::new()
        },
    }
}

/// What is known of a table, from what was found in the database. The counted number
/// of columns has to be that of the columns listed.
pub fn pull_table_info(table: &str, seen: Observed) -> (r: Result<TableInfo, String>)
    ensures
        seen.columns_len < 0 ==> (r matches Err(msg) && msg@ == "Failed to find columns for crr -- "@ + table@),
        seen.columns_len >= 0 && seen.columns_len != seen.columns@.len() ==> (r matches Err(msg) && msg@
            == "Number of fetched columns did not match expected number of columns"@),
        seen.columns_len == seen.columns@.len() ==> (r matches Ok(info) && {
            &&& info.tbl_name@ == table@
            &&& info.pks@ == pks_of(seen.columns@)
            &&& info.non_pks@ == non_pks_of(seen.columns@)
            &&& info.schema_version == seen.schema_version()
            &&& info.key_is_rowid == seen.key_is_rowid()
            &&& info.has_integer_pk == (integer_pk(pks_of(seen.columns@)) is Some)
            &&& info.rowid_alias@ == alias_of(seen.columns@)
            &&& info.skip_hash == seen.skip_hash()
            &&& info.skip_hash_pk_col@ == (if seen.skip_hash() && pks_of(seen.columns@).len() > 0 {
                escaped(pks_of(seen.columns@)[0].name@)
            } else {
                seq![]
            })
            &&& info.cl_cache@ == Map::<i64, i64>::empty()
            &&& info.wf()
        }),
{
    let columns_len: usize = match to_usize(seen.columns_len) {
        Some(n) => n,
        None => return Err("Failed to find columns for crr -- ".to_owned().concat(table)),
    };
    if seen.columns.len() != columns_len {
        return Err(
            "Number of fetched columns did not match expected number of columns".to_owned(),
        );
    }
    let alias = rowid_alias(seen.columns.as_slice());
    let (pks, non_pks) = split_columns(seen.columns.as_slice());
    let has_integer_pk: bool = find_integer_pk(pks.as_slice()).is_some();
    let skip_hash: bool = seen.decide_skip_hash(pks.as_slice());
    let key_is_rowid: bool = seen.decide_key_is_rowid(has_integer_pk, skip_hash);
    let skip_hash_pk_col = if skip_hash && pks.len() > 0 {
        escape_ident(pks[0].name.as_str())
    } else {
        String::new()
    };
    let schema_version = if seen.has_v2 && seen.has_v1 {
        SchemaVersion::V2AndV1
    } else if seen.has_v2 {
        SchemaVersion::V2
    } else {
        SchemaVersion::V1
    };
    Ok(
        TableInfo {
            tbl_name: table.to_owned(),
            pks,
            non_pks,
            schema_version,
            key_is_rowid,
            has_integer_pk,
            rowid_alias: alias,
            skip_hash,
            skip_hash_pk_col,
            cl_cache: BTreeMap::new(),
        },
    )
}

// ---------------------------------------------------------------------------
// Queries about tables
// ---------------------------------------------------------------------------
/// Counts the columns of a table.
pub open spec fn columns_count_sql(table: Seq<char>) -> Seq<char> {
    "SELECT count(*) FROM pragma_table_info('"@ + table + "')"@
}

/// Counts the columns of a table.
pub fn columns_count_query(table: &str) -> (r: String)
    ensures
        r@ == columns_count_sql(table@),
{
    "SELECT count(*) FROM pragma_table_info('".to_owned()
        .concat(table)
        .concat("')")
}

/// Lists the columns of a table.
pub open spec fn columns_sql(table: Seq<char>) -> Seq<char> {
    "SELECT \"cid\", \"name\", \"type\", \"pk\"
         FROM pragma_table_info('"@ + table + "') ORDER BY cid ASC"@
}

/// Lists the columns of a table.
pub fn columns_query(table: &str) -> (r: String)
    ensures
        r@ == columns_sql(table@),
{
    "SELECT \"cid\", \"name\", \"type\", \"pk\"
         FROM pragma_table_info('".to_owned()
        .concat(table)
        .concat("') ORDER BY cid ASC")
}

/// Tries to read a table by its rowid alias.
pub open spec fn alias_probe_sql(table: Seq<char>, alias: Seq<char>) -> Seq<char> {
    "SELECT \""@ + escaped(alias) + "\" FROM \""@ + escaped(table) + "\" LIMIT 0"@
}

/// Tries to read a table by its rowid alias.
pub fn alias_probe_query(table: &str, alias: &str) -> (r: String)
    ensures
        r@ == alias_probe_sql(table@, alias@),
{
    "SELECT \"".to_owned()
        .concat(escape_ident(alias).as_str())
        .concat("\" FROM \"")
        .concat(escape_ident(table).as_str())
        .concat("\" LIMIT 0")
}

/// Counts the columns of the table of live keys that hold hashes.
pub open spec fn hashed_pk_count_sql(table: Seq<char>) -> Seq<char> {
    "SELECT count(*) FROM pragma_table_info('"@ + escaped_value(table) + "__crsql_v2_pks') WHERE name = 'hashed_pk'"@
}

/// Counts the columns of the table of live keys that hold hashes.
pub fn hashed_pk_count_query(table: &str) -> (r: String)
    ensures
        r@ == hashed_pk_count_sql(table@),
{
    "SELECT count(*) FROM pragma_table_info('".to_owned()
        .concat(escape_ident_as_value(table).as_str())
        .concat("__crsql_v2_pks') WHERE name = 'hashed_pk'")
}

/// Counts the columns of the table of live keys.
pub open spec fn v2_pks_count_sql(table: Seq<char>) -> Seq<char> {
    "SELECT count(*) FROM pragma_table_info('"@ + escaped_value(table) + "__crsql_v2_pks')"@
}

/// Counts the columns of the table of live keys.
pub fn v2_pks_count_query(table: &str) -> (r: String)
    ensures
        r@ == v2_pks_count_sql(table@),
{
    "SELECT count(*) FROM pragma_table_info('".to_owned()
        .concat(escape_ident_as_value(table).as_str())
        .concat("__crsql_v2_pks')")
}

/// Looks whether a table has metadata in the first format.
pub open spec fn has_v1_sql(table: Seq<char>) -> Seq<char> {
    "SELECT 1 FROM sqlite_master WHERE type = 'table' AND tbl_name = '"@ + escaped_value(table) + "__crsql_clock'"@
}

/// Looks whether a table has metadata in the first format.
pub fn has_v1_query(table: &str) -> (r: String)
    ensures
        r@ == has_v1_sql(table@),
{
    "SELECT 1 FROM sqlite_master WHERE type = 'table' AND tbl_name = '".to_owned()
        .concat(escape_ident_as_value(table).as_str())
        .concat("__crsql_clock'")
}

/// The query for the tables of clocks in the first format.
pub const V1_CLOCK_TABLES_SQL: &'static str = "SELECT tbl_name FROM sqlite_master WHERE type='table' AND tbl_name LIKE '%__crsql_clock'";

/// The query for the tables of clocks in the second format.
pub const V2_CLOCK_TABLES_SQL: &'static str = "SELECT tbl_name FROM sqlite_master WHERE type='table' AND tbl_name LIKE '%__crsql_v2_clock'";

/// The table that a table of clocks belongs to.
pub open spec fn clock_owner(name: Seq<char>) -> Option<Seq<char>> {
    match stripped(name, "__crsql_v2_clock"@) {
        Some(base) => Some(base),
        None => stripped(name, "__crsql_clock"@),
    }
}

/// The tables that tables of clocks belong to, each once, in the order in which they
/// first occur.
pub open spec fn clock_owners(found: Seq<Seq<char>>) -> Seq<Seq<char>>
    decreases found.len(),
{
    if found.len() == 0 {
        seq![]
    } else {
        let before = clock_owners(found.drop_last());
        match clock_owner(found.last()) {
            Some(base) => if before.contains(base) {
                before
            } else {
                before.push(base)
            },
            None => before,
        }
    }
}

fn contains_text(all: &[String], name: &str) -> (r: bool)
    ensures
        r == texts(all@).contains(name@),
{
    let mut i: usize = 0;
    while i < all.len()
        invariant
            i <= all@.len(),
            forall|j: int| 0 <= j < i ==> texts(all@)[j] != name@,
        decreases all@.len() - i,
    {
        if same(all[i].as_str(), name) {
            assert(texts(all@)[i as int] == name@);
            return true;
        }
        i = i + 1;
    }
    false
}

/// The replicated tables, from the names of the tables of clocks: those of the first
/// format, then those of the second.
pub fn pull_all_table_infos(clock_table_names: &[String]) -> (r: Vec<String>)
    ensures
        texts(r@) == clock_owners(texts(clock_table_names@)),
{
    let mut tables: Vec<String> = Vec::new();
    let mut i: usize = 0;
    assert(texts(clock_table_names@).take(0) =~= seq![]);
    assert(texts(tables@) =~= seq![]);
    while i < clock_table_names.len()
        invariant
            i <= clock_table_names@.len(),
            texts(tables@) == clock_owners(texts(clock_table_names@).take(i as int)),
        decreases clock_table_names@.len() - i,
    {
        proof {
            let now = texts(clock_table_names@).take(i + 1);
            assert(now.drop_last() =~= texts(clock_table_names@).take(i as int));
            assert(now.last() == clock_table_names@[i as int]@);
        }
        let name = clock_table_names[i].as_str();
        let owner: Option<String> = match strip_suffix(name, "__crsql_v2_clock") {
            Some(base) => Some(base),
            None => strip_suffix(name, "__crsql_clock"),
        };
        match owner {
            Some(base) => {
                if !contains_text(tables.as_slice(), base.as_str()) {
                    push_part(&mut tables, base);
                }
            },
            None => {},
        }
        i = i + 1;
    }
    assert(texts(clock_table_names@).take(i as int) =~= texts(clock_table_names@));
    tables
}

/// No table is listed twice, and every table of clocks is that of a listed table.
pub proof fn clock_owners_complete(found: Seq<Seq<char>>)
    ensures
        clock_owners(found).no_duplicates(),
        forall|i: int|
            0 <= i < found.len() && clock_owner(#[trigger] found[i]) is Some ==> clock_owners(found).contains(
                clock_owner(found[i]).unwrap(),
            ),
    decreases found.len(),
{
    if found.len() > 0 {
        let front = found.drop_last();
        clock_owners_complete(front);
        let before = clock_owners(front);
        let all = clock_owners(found);
        assert forall|x: Seq<char>| before.contains(x) implies all.contains(x) by {
            let k = choose|k: int| 0 <= k < before.len() && before[k] == x;
            assert(all[k] == x);
        }
        assert forall|i: int| 0 <= i < found.len() && clock_owner(#[trigger] found[i]) is Some implies all.contains(
            clock_owner(found[i]).unwrap(),
        ) by {
            if i < front.len() {
                assert(front[i] == found[i]);
            } else if !before.contains(clock_owner(found[i]).unwrap()) {
                assert(all[all.len() - 1] == clock_owner(found[i]).unwrap());
            }
        }
    }
}

/// What to do about the known tables.
#[derive(Clone, Copy, PartialEq, Eq, Structural, Debug)]
pub enum InfosStep {
    /// They are known.
    Keep,
    /// It could not be seen whether the schema has changed.
    Fail(ResultCode),
    /// Read them, and mark them as known to the transaction.
    Pull,
    /// Mark them as known to the transaction.
    Mark,
}

/// What to do about the known tables.
pub open spec fn infos_step(ext: ExtData, schema_changed: int, known: int) -> InfosStep {
    if ext.updated_table_infos_this_tx == 1 {
        InfosStep::Keep
    } else if schema_changed < 0 {
        InfosStep::Fail(ResultCode::ERROR)
    } else if schema_changed > 0 || known == 0 {
        InfosStep::Pull
    } else {
        InfosStep::Mark
    }
}

/// What to do about the known tables: they are read again where the schema has changed,
/// or where none is known; once in a transaction is enough. `schema_changed` is
/// negative where that could not be seen.
pub fn crsql_ensure_table_infos_are_up_to_date(ext: &ExtData, schema_changed: i32, known: usize) -> (r: InfosStep)
    ensures
        r == infos_step(*ext, schema_changed as int, known as int),
{
    if ext.updated_table_infos_this_tx == 1 {
        InfosStep::Keep
    } else if schema_changed < 0 {
        InfosStep::Fail(ResultCode::ERROR)
    } else if schema_changed > 0 || known == 0 {
        InfosStep::Pull
    } else {
        InfosStep::Mark
    }
}

/// The known tables are those of the schema: a transaction that has not made sure of it reads them
/// where the schema has changed and where it knows none, never where neither holds, and fails where
/// it cannot tell. Once it has made sure it asks no more, until it is over.
pub proof fn tables_are_read_when_needed(ext: ExtData, schema_changed: int, known: int)
    requires
        known >= 0,
    ensures
        ext.updated_table_infos_this_tx != 1 ==> {
            &&& infos_step(ext, schema_changed, known) == InfosStep::Pull <==> schema_changed > 0 || (schema_changed == 0
                && known == 0)
            &&& infos_step(ext, schema_changed, known) == InfosStep::Mark <==> schema_changed == 0 && known > 0
            &&& infos_step(ext, schema_changed, known) is Fail <==> schema_changed < 0
        },
        infos_step(ExtData { updated_table_infos_this_tx: 1, ..ext }, schema_changed, known) == InfosStep::Keep,
        infos_step(crate::commit::after_tx(ext), schema_changed, known) != InfosStep::Keep,
{
}

/// A table can be replicated exactly where it has no unique index but its primary key, a primary
/// key, no nullable column in it, no automatic increment, no checked foreign keys, and no column
/// that has to be given a value. What is said of a table that cannot be is about the first of these
/// that does not hold.
pub proof fn tables_that_can_be_replicated(seen: Seq<i32>)
    requires
        seen.len() == 6,
    ensures
        first_failure(0, seen) is None <==> {
            &&& seen[0] == 0
            &&& seen[1] != 0
            &&& seen[2] == seen[1]
            &&& seen[3] == 0
            &&& seen[4] == 0
            &&& seen[5] == 0
        },
        first_failure(0, seen) == Some(0int) <==> seen[0] != 0,
        first_failure(0, seen) == Some(1int) <==> seen[0] == 0 && seen[1] == 0,
        first_failure(0, seen) == Some(2int) <==> seen[0] == 0 && seen[1] != 0 && seen[2] != seen[1],
        first_failure(0, seen) == Some(3int) <==> seen[0] == 0 && seen[1] != 0 && seen[2] == seen[1] && seen[3] != 0,
        first_failure(0, seen) == Some(4int) <==> seen[0] == 0 && seen[1] != 0 && seen[2] == seen[1] && seen[3] == 0
            && seen[4] != 0,
        first_failure(0, seen) == Some(5int) <==> seen[0] == 0 && seen[1] != 0 && seen[2] == seen[1] && seen[3] == 0
            && seen[4] == 0 && seen[5] != 0,
{
    reveal_with_fuel(first_failure, 7);
}

/// The checks on a table go on from the first answer to the last: as long as none rules it out, the
/// next one is asked.
pub proof fn checks_stop_at_the_first_failure(seen: Seq<i32>, more: i32)
    requires
        seen.len() < 6,
        first_failure(0, seen) is Some,
    ensures
        first_failure(0, seen.push(more)) == first_failure(0, seen),
{
    lemma_failure_stays(seen, more, 0);
}

proof fn lemma_failure_stays(seen: Seq<i32>, more: i32, check: int)
    requires
        0 <= check,
        first_failure(check, seen) is Some,
    ensures
        first_failure(check, seen.push(more)) == first_failure(check, seen),
    decreases seen.len() - check,
{
    let longer = seen.push(more);
    assert(forall|i: int| 0 <= i < seen.len() ==> longer[i] == seen[i]);
    if check < seen.len() {
        if check == 2 || check == 1 {
            assert(longer[1] == seen[1]);
        }
        assert(longer[check] == seen[check]);
        if !compat_fails(check, seen) {
            lemma_failure_stays(seen, more, check + 1);
        }
    }
}

/// The name of the rowid never is that of another column: it is the integer primary key, or a name
/// that no column has; and there is none only where columns have taken all three.
pub proof fn aliases_stand_for_rowids(columns: Seq<ColumnInfo>)
    ensures
        pks_of(columns).len() == 1 && pks_of(columns)[0].col_type@ == "INTEGER"@ ==> alias_of(columns) == pks_of(
            columns,
        )[0].name@,
        !(pks_of(columns).len() == 1 && pks_of(columns)[0].col_type@ == "INTEGER"@) ==> {
            &&& alias_of(columns).len() > 0 ==> !has_column(columns, alias_of(columns))
            &&& alias_of(columns).len() == 0 <==> has_column(columns, "rowid"@) && has_column(columns, "oid"@)
                && has_column(columns, "_rowid_"@)
            &&& !has_column(columns, "rowid"@) ==> alias_of(columns) == "rowid"@
        },
{
    reveal_strlit("rowid");
    reveal_strlit("oid");
    reveal_strlit("_rowid_");
}

/// A type stands for integers wherever `INT` stands in it, and not without it.
pub proof fn int_anywhere(before: Seq<char>, after: Seq<char>, other: Seq<char>)
    ensures
        holds_int(before + seq!['I', 'N', 'T'] + after),
        !other.contains('I') || !other.contains('N') || !other.contains('T') ==> !holds_int(other),
        other.len() < 3 ==> !holds_int(other),
{
    let all = before + seq!['I', 'N', 'T'] + after;
    assert(all[before.len() as int] == 'I');
    assert(all[before.len() as int + 1] == 'N');
    assert(all[before.len() as int + 2] == 'T');
}

/// Without metadata, rows are known without hashes where the settings say so or, where they say
/// nothing, the table's definition or, where that says nothing, where the primary key is of
/// integers; and always only where it is a single column. With metadata, they are where those hold
/// no hash.
pub proof fn hashes_are_skipped_when_told(seen: Observed)
    ensures
        !seen.has_v2 ==> (seen.skip_hash() <==> {
            &&& pks_of(seen.columns@).len() == 1
            &&& match (seen.persisted_skip_hash, seen.directive_skip_hash) {
                (Some(v), _) => v == 1,
                (None, Some(on)) => on,
                (None, None) => holds_int(uppercase_of(pks_of(seen.columns@)[0].col_type@)),
            }
        }),
        seen.has_v2 ==> (seen.skip_hash() <==> seen.hashed_pk_count == Some(0i32)),
        seen.schema_version() == SchemaVersion::V2 <==> seen.has_v2 && !seen.has_v1,
        seen.schema_version() == SchemaVersion::V2AndV1 <==> seen.has_v2 && seen.has_v1,
        seen.schema_version() == SchemaVersion::V1 <==> !seen.has_v2,
{
}

proof fn lemma_v1_clock_tables()
    ensures
        V1_CLOCK_TABLES_SQL@ == "SELECT tbl_name FROM sqlite_master WHERE type='table' AND tbl_name LIKE '%"@ + "__crsql_clock"@ + "'"@,
{
    reveal_strlit("SELECT tbl_name FROM sqlite_master WHERE type='table' AND tbl_name LIKE '%__crsql_clock'");
    reveal_strlit("SELECT tbl_name FROM sqlite_master WHERE type='table' AND tbl_name LIKE '%");
    assert("SELECT tbl_name FROM sqlite_master WHERE type='table' AND tbl_name LIKE '%"@ =~= seq!['S', 'E', 'L', 'E', 'C', 'T', ' ', 't', 'b', 'l', '_', 'n', 'a', 'm', 'e', ' ', 'F', 'R', 'O', 'M', ' ', 's', 'q', 'l', 'i', 't', 'e', '_', 'm', 'a', 's', 't', 'e', 'r', ' ', 'W', 'H', 'E', 'R', 'E', ' ', 't', 'y', 'p', 'e', '=', '\'', 't', 'a', 'b', 'l', 'e', '\'', ' ', 'A', 'N', 'D', ' ', 't', 'b', 'l', '_', 'n', 'a', 'm', 'e', ' ', 'L', 'I', 'K', 'E', ' ', '\'', '%']);
    reveal_strlit("__crsql_clock");
    assert("__crsql_clock"@ =~= seq!['_', '_', 'c', 'r', 's', 'q', 'l', '_', 'c', 'l', 'o', 'c', 'k']);
    reveal_strlit("'");
    assert("'"@ =~= seq!['\'']);
    assert("SELECT tbl_name FROM sqlite_master WHERE type='table' AND tbl_name LIKE '%__crsql_clock'"@ =~= "SELECT tbl_name FROM sqlite_master WHERE type='table' AND tbl_name LIKE '%"@ + "__crsql_clock"@ + "'"@);
}

proof fn lemma_v2_clock_tables()
    ensures
        V2_CLOCK_TABLES_SQL@ == "SELECT tbl_name FROM sqlite_master WHERE type='table' AND tbl_name LIKE '%"@ + "__crsql_v2_clock"@ + "'"@,
{
    reveal_strlit("SELECT tbl_name FROM sqlite_master WHERE type='table' AND tbl_name LIKE '%__crsql_v2_clock'");
    reveal_strlit("SELECT tbl_name FROM sqlite_master WHERE type='table' AND tbl_name LIKE '%");
    assert("SELECT tbl_name FROM sqlite_master WHERE type='table' AND tbl_name LIKE '%"@ =~= seq!['S', 'E', 'L', 'E', 'C', 'T', ' ', 't', 'b', 'l', '_', 'n', 'a', 'm', 'e', ' ', 'F', 'R', 'O', 'M', ' ', 's', 'q', 'l', 'i', 't', 'e', '_', 'm', 'a', 's', 't', 'e', 'r', ' ', 'W', 'H', 'E', 'R', 'E', ' ', 't', 'y', 'p', 'e', '=', '\'', 't', 'a', 'b', 'l', 'e', '\'', ' ', 'A', 'N', 'D', ' ', 't', 'b', 'l', '_', 'n', 'a', 'm', 'e', ' ', 'L', 'I', 'K', 'E', ' ', '\'', '%']);
    reveal_strlit("__crsql_v2_clock");
    assert("__crsql_v2_clock"@ =~= seq!['_', '_', 'c', 'r', 's', 'q', 'l', '_', 'v', '2', '_', 'c', 'l', 'o', 'c', 'k']);
    reveal_strlit("'");
    assert("'"@ =~= seq!['\'']);
    assert("SELECT tbl_name FROM sqlite_master WHERE type='table' AND tbl_name LIKE '%__crsql_v2_clock'"@ =~= "SELECT tbl_name FROM sqlite_master WHERE type='table' AND tbl_name LIKE '%"@ + "__crsql_v2_clock"@ + "'"@);
}

/// The tables of clocks that are looked for, in either format, are those that replicated tables are
/// told by.
pub proof fn tables_are_told_by_their_clocks(base: Seq<char>)
    ensures
        V1_CLOCK_TABLES_SQL@ == "SELECT tbl_name FROM sqlite_master WHERE type='table' AND tbl_name LIKE '%"@ + "__crsql_clock"@
            + "'"@,
        V2_CLOCK_TABLES_SQL@ == "SELECT tbl_name FROM sqlite_master WHERE type='table' AND tbl_name LIKE '%"@
            + "__crsql_v2_clock"@ + "'"@,
        clock_owner(base + "__crsql_clock"@) == Some(base),
        clock_owner(base + "__crsql_v2_clock"@) == Some(base),
{
    lemma_v1_clock_tables();
    lemma_v2_clock_tables();
    reveal_strlit("__crsql_clock");
    reveal_strlit("__crsql_v2_clock");
    let first = base + "__crsql_clock"@;
    let second = base + "__crsql_v2_clock"@;
    crate::text_laws::suffixes_come_off(base, "__crsql_clock"@, first);
    crate::text_laws::suffixes_come_off(base, "__crsql_v2_clock"@, first);
    if let Some(b) = stripped(first, "__crsql_v2_clock"@) {
        assert(first == b + "__crsql_v2_clock"@);
        let n = first.len() as int;
        assert(first[n - 7] == "__crsql_clock"@[6]);
        assert(first[n - 7] == "__crsql_v2_clock"@[9]);
    }
}

} // verus!
