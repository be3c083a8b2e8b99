use crsql::alter_v2::{check_pk_changed_v2, col_map_sql, compact_post_alter_v2, sync_col_map_v2, AlterStep, ColId};
use crsql::backfill_v2::{
    backfill_cells, backfill_table_v2, bind_pks, BackfillAction, BackfillEvent, BackfillRun, BackfillState,
};
use crsql::bootstrap_v2::{compute_pk_signature, create_v2_tables, drop_v2_tables, has_v2_tables};
use crsql::create_crr::{
    backfill_table_v2_failed, create_crr, create_crr_inner, create_triggers_failed, create_v2_tables_failed,
    crr_steps, get_metadata_write_version, has_triggers_text, rowid_range_text, stale_metadata, validate_rowid_range,
    CrrPlan, CrrStep, StaleStep,
};
use crsql::hash_pk::hash_pk_values;
use crsql::pack_columns::ColumnValue;
use crsql::result_code::ResultCode;
use crsql::tableinfo::{ColumnInfo, SchemaVersion, TableInfo};
use crsql::teardown::{remove_crr_clock_table_if_exists, remove_crr_triggers_if_exist};
use crsql::teardown_v2::remove_crr_v2_tables;
use std::collections::BTreeMap;

fn col(name: &str, col_type: &str) -> ColumnInfo {
    ColumnInfo { cid: 0, name: name.to_string(), col_type: col_type.to_string(), pk: 0 }
}

fn table(pks: &[(&str, &str)], key_is_rowid: bool, skip_hash: bool) -> TableInfo {
    TableInfo {
        tbl_name: "my\"tbl".to_string(),
        pks: pks.iter().map(|(name, ty)| col(name, ty)).collect(),
        non_pks: vec![col("x", "TEXT"), col("y\"z", "TEXT")],
        schema_version: SchemaVersion::V2,
        key_is_rowid,
        has_integer_pk: pks.len() == 1 && pks[0].1 == "INTEGER",
        rowid_alias: "rowid".to_string(),
        skip_hash,
        skip_hash_pk_col: if skip_hash { pks[0].0.to_string() } else { String::new() },
        cl_cache: BTreeMap::new(),
    }
}

fn text(s: &str) -> ColumnValue {
    ColumnValue::Text(s.to_string())
}

#[test]
fn metadata_tables_of_hashes() {
    let t = table(&[("a", "TEXT"), ("b\"c", "TEXT")], false, false);
    let plan = create_v2_tables(&t);
    let n = plan.len();
    assert_eq!(
        plan[..n - 3].iter().map(|s| s.sql.as_str()).collect::<Vec<_>>(),
        [
            "CREATE TABLE IF NOT EXISTS \"my\"\"tbl__crsql_v2_col_map\" (\n          col_id INTEGER PRIMARY KEY,\n          col_name TEXT NOT NULL\n        ) STRICT;",
            "CREATE UNIQUE INDEX IF NOT EXISTS \"idx_my\"\"tbl_v2_col_map_name\"\n          ON \"my\"\"tbl__crsql_v2_col_map\"(col_name);",
            "CREATE TABLE IF NOT EXISTS \"my\"\"tbl__crsql_v2_clock\" (\n          cell_key INTEGER PRIMARY KEY,\n          col_version INTEGER NOT NULL,\n          site_id INTEGER NOT NULL,\n          db_version INTEGER NOT NULL,\n          seq INTEGER NOT NULL,\n          ts INTEGER NOT NULL CHECK (ts > 0)\n        ) STRICT;",
            "CREATE INDEX IF NOT EXISTS \"my\"\"tbl__crsql_v2_clock_feed_idx\"\n          ON \"my\"\"tbl__crsql_v2_clock\"(site_id, db_version, seq);",
            "CREATE TABLE IF NOT EXISTS \"my\"\"tbl__crsql_v2_pks\" (\n              __crsql_key INTEGER PRIMARY KEY,\n              \"a\" ANY NOT NULL, \"b\"\"c\" ANY NOT NULL,\n              hashed_pk BLOB NOT NULL,\n              cl INTEGER NOT NULL DEFAULT 1 CHECK (cl % 2 = 1)\n            ) STRICT;",
            "CREATE UNIQUE INDEX IF NOT EXISTS \"idx_my\"\"tbl_v2_pks_hash\"\n              ON \"my\"\"tbl__crsql_v2_pks\"(hashed_pk);",
            "CREATE TABLE IF NOT EXISTS \"my\"\"tbl__crsql_v2_tombstones\" (\n              site_id INTEGER NOT NULL,\n              db_version INTEGER NOT NULL,\n              seq INTEGER NOT NULL,\n              hashed_pk BLOB NOT NULL,\n              cl INTEGER NOT NULL CHECK (cl % 2 = 0),\n              ts INTEGER NOT NULL CHECK (ts > 0),\n              PRIMARY KEY (site_id, db_version, seq)\n            ) WITHOUT ROWID, STRICT;",
            "CREATE UNIQUE INDEX IF NOT EXISTS \"idx_my\"\"tbl_v2_tombstones_hash\"\n              ON \"my\"\"tbl__crsql_v2_tombstones\"(hashed_pk);",
            "CREATE TABLE IF NOT EXISTS \"my\"\"tbl__crsql_v2_tombstone_pks\" (\n              hashed_pk BLOB PRIMARY KEY,\n              \"a\" ANY NOT NULL, \"b\"\"c\" ANY NOT NULL\n            ) WITHOUT ROWID, STRICT;",
        ]
    );
    assert!(plan[..n - 3].iter().all(|s| s.binds.is_empty() && !s.sync));
    assert_eq!(plan[n - 3].sql, "INSERT OR IGNORE INTO \"my\"\"tbl__crsql_v2_col_map\" (col_id, col_name) VALUES (?, ?)");
    assert_eq!(plan[n - 3].binds, [ColumnValue::Integer(0), text("x")]);
    assert_eq!(plan[n - 2].binds, [ColumnValue::Integer(1), text("y\"z")]);
    assert_eq!(plan[n - 1].sql, "INSERT OR REPLACE INTO crsql_master (key, value) VALUES (?, ?)");
    assert_eq!(plan[n - 1].binds, [text("v2_pks_my\"tbl"), text("n:a:TEXT,b\"c:TEXT")]);
}

#[test]
fn metadata_tables_of_hashes_by_rowid() {
    let t = table(&[("a", "INTEGER")], true, false);
    let plan = create_v2_tables(&t);
    let n = plan.len();
    assert_eq!(
        plan[..n - 3].iter().map(|s| s.sql.as_str()).collect::<Vec<_>>(),
        [
            "CREATE TABLE IF NOT EXISTS \"my\"\"tbl__crsql_v2_col_map\" (\n          col_id INTEGER PRIMARY KEY,\n          col_name TEXT NOT NULL\n        ) STRICT;",
            "CREATE UNIQUE INDEX IF NOT EXISTS \"idx_my\"\"tbl_v2_col_map_name\"\n          ON \"my\"\"tbl__crsql_v2_col_map\"(col_name);",
            "CREATE TABLE IF NOT EXISTS \"my\"\"tbl__crsql_v2_clock\" (\n          cell_key INTEGER PRIMARY KEY,\n          col_version INTEGER NOT NULL,\n          site_id INTEGER NOT NULL,\n          db_version INTEGER NOT NULL,\n          seq INTEGER NOT NULL,\n          ts INTEGER NOT NULL CHECK (ts > 0)\n        ) STRICT;",
            "CREATE INDEX IF NOT EXISTS \"my\"\"tbl__crsql_v2_clock_feed_idx\"\n          ON \"my\"\"tbl__crsql_v2_clock\"(site_id, db_version, seq);",
            "CREATE TABLE IF NOT EXISTS \"my\"\"tbl__crsql_v2_pks\" (\n              __crsql_key INTEGER PRIMARY KEY,\n              hashed_pk BLOB NOT NULL,\n              cl INTEGER NOT NULL DEFAULT 1 CHECK (cl % 2 = 1)\n            ) STRICT;",
            "CREATE UNIQUE INDEX IF NOT EXISTS \"idx_my\"\"tbl_v2_pks_hash\"\n              ON \"my\"\"tbl__crsql_v2_pks\"(hashed_pk);",
            "CREATE TABLE IF NOT EXISTS \"my\"\"tbl__crsql_v2_tombstones\" (\n              site_id INTEGER NOT NULL,\n              db_version INTEGER NOT NULL,\n              seq INTEGER NOT NULL,\n              hashed_pk BLOB NOT NULL,\n              cl INTEGER NOT NULL CHECK (cl % 2 = 0),\n              ts INTEGER NOT NULL CHECK (ts > 0),\n              PRIMARY KEY (site_id, db_version, seq)\n            ) WITHOUT ROWID, STRICT;",
            "CREATE UNIQUE INDEX IF NOT EXISTS \"idx_my\"\"tbl_v2_tombstones_hash\"\n              ON \"my\"\"tbl__crsql_v2_tombstones\"(hashed_pk);",
            "CREATE TABLE IF NOT EXISTS \"my\"\"tbl__crsql_v2_tombstone_pks\" (\n              hashed_pk BLOB PRIMARY KEY,\n              \"a\" ANY NOT NULL\n            ) WITHOUT ROWID, STRICT;",
        ]
    );
    assert!(plan[..n - 3].iter().all(|s| s.binds.is_empty() && !s.sync));
    assert_eq!(plan[n - 3].sql, "INSERT OR IGNORE INTO \"my\"\"tbl__crsql_v2_col_map\" (col_id, col_name) VALUES (?, ?)");
    assert_eq!(plan[n - 3].binds, [ColumnValue::Integer(0), text("x")]);
    assert_eq!(plan[n - 2].binds, [ColumnValue::Integer(1), text("y\"z")]);
    assert_eq!(plan[n - 1].sql, "INSERT OR REPLACE INTO crsql_master (key, value) VALUES (?, ?)");
    assert_eq!(plan[n - 1].binds, [text("v2_pks_my\"tbl"), text("r:a:INTEGER")]);
}

#[test]
fn metadata_tables_of_integers() {
    let t = table(&[("a", "bigint")], false, true);
    let plan = create_v2_tables(&t);
    let n = plan.len();
    assert_eq!(
        plan[..n - 3].iter().map(|s| s.sql.as_str()).collect::<Vec<_>>(),
        [
            "CREATE TABLE IF NOT EXISTS \"my\"\"tbl__crsql_v2_col_map\" (\n          col_id INTEGER PRIMARY KEY,\n          col_name TEXT NOT NULL\n        ) STRICT;",
            "CREATE UNIQUE INDEX IF NOT EXISTS \"idx_my\"\"tbl_v2_col_map_name\"\n          ON \"my\"\"tbl__crsql_v2_col_map\"(col_name);",
            "CREATE TABLE IF NOT EXISTS \"my\"\"tbl__crsql_v2_clock\" (\n          cell_key INTEGER PRIMARY KEY,\n          col_version INTEGER NOT NULL,\n          site_id INTEGER NOT NULL,\n          db_version INTEGER NOT NULL,\n          seq INTEGER NOT NULL,\n          ts INTEGER NOT NULL CHECK (ts > 0)\n        ) STRICT;",
            "CREATE INDEX IF NOT EXISTS \"my\"\"tbl__crsql_v2_clock_feed_idx\"\n          ON \"my\"\"tbl__crsql_v2_clock\"(site_id, db_version, seq);",
            "CREATE TABLE IF NOT EXISTS \"my\"\"tbl__crsql_v2_pks\" (\n                  __crsql_key INTEGER PRIMARY KEY,\n                  \"a\" INTEGER NOT NULL,\n                  cl INTEGER NOT NULL DEFAULT 1 CHECK (cl % 2 = 1)\n                ) STRICT;",
            "CREATE UNIQUE INDEX IF NOT EXISTS \"idx_my\"\"tbl_v2_pks_pk\"\n                  ON \"my\"\"tbl__crsql_v2_pks\"(\"a\");",
            "CREATE TABLE IF NOT EXISTS \"my\"\"tbl__crsql_v2_tombstones\" (\n              site_id INTEGER NOT NULL,\n              db_version INTEGER NOT NULL,\n              seq INTEGER NOT NULL,\n              \"a\" INTEGER NOT NULL,\n              cl INTEGER NOT NULL CHECK (cl % 2 = 0),\n              ts INTEGER NOT NULL CHECK (ts > 0),\n              PRIMARY KEY (site_id, db_version, seq)\n            ) WITHOUT ROWID, STRICT;",
            "CREATE UNIQUE INDEX IF NOT EXISTS \"idx_my\"\"tbl_v2_tombstones_pk\"\n              ON \"my\"\"tbl__crsql_v2_tombstones\"(\"a\");",
        ]
    );
    assert!(plan[..n - 3].iter().all(|s| s.binds.is_empty() && !s.sync));
    assert_eq!(plan[n - 3].sql, "INSERT OR IGNORE INTO \"my\"\"tbl__crsql_v2_col_map\" (col_id, col_name) VALUES (?, ?)");
    assert_eq!(plan[n - 3].binds, [ColumnValue::Integer(0), text("x")]);
    assert_eq!(plan[n - 2].binds, [ColumnValue::Integer(1), text("y\"z")]);
    assert_eq!(plan[n - 1].sql, "INSERT OR REPLACE INTO crsql_master (key, value) VALUES (?, ?)");
    assert_eq!(plan[n - 1].binds, [text("v2_pks_my\"tbl"), text("n:a:bigint")]);
}

#[test]
fn metadata_tables_of_any_type() {
    let t = table(&[("a", "TEXT")], false, true);
    let plan = create_v2_tables(&t);
    let n = plan.len();
    assert_eq!(
        plan[..n - 3].iter().map(|s| s.sql.as_str()).collect::<Vec<_>>(),
        [
            "CREATE TABLE IF NOT EXISTS \"my\"\"tbl__crsql_v2_col_map\" (\n          col_id INTEGER PRIMARY KEY,\n          col_name TEXT NOT NULL\n        ) STRICT;",
            "CREATE UNIQUE INDEX IF NOT EXISTS \"idx_my\"\"tbl_v2_col_map_name\"\n          ON \"my\"\"tbl__crsql_v2_col_map\"(col_name);",
            "CREATE TABLE IF NOT EXISTS \"my\"\"tbl__crsql_v2_clock\" (\n          cell_key INTEGER PRIMARY KEY,\n          col_version INTEGER NOT NULL,\n          site_id INTEGER NOT NULL,\n          db_version INTEGER NOT NULL,\n          seq INTEGER NOT NULL,\n          ts INTEGER NOT NULL CHECK (ts > 0)\n        ) STRICT;",
            "CREATE INDEX IF NOT EXISTS \"my\"\"tbl__crsql_v2_clock_feed_idx\"\n          ON \"my\"\"tbl__crsql_v2_clock\"(site_id, db_version, seq);",
            "CREATE TABLE IF NOT EXISTS \"my\"\"tbl__crsql_v2_pks\" (\n                  __crsql_key INTEGER PRIMARY KEY,\n                  \"a\" ANY NOT NULL,\n                  cl INTEGER NOT NULL DEFAULT 1 CHECK (cl % 2 = 1)\n                ) STRICT;",
            "CREATE UNIQUE INDEX IF NOT EXISTS \"idx_my\"\"tbl_v2_pks_pk\"\n                  ON \"my\"\"tbl__crsql_v2_pks\"(\"a\");",
            "CREATE TABLE IF NOT EXISTS \"my\"\"tbl__crsql_v2_tombstones\" (\n              site_id INTEGER NOT NULL,\n              db_version INTEGER NOT NULL,\n              seq INTEGER NOT NULL,\n              \"a\" ANY NOT NULL,\n              cl INTEGER NOT NULL CHECK (cl % 2 = 0),\n              ts INTEGER NOT NULL CHECK (ts > 0),\n              PRIMARY KEY (site_id, db_version, seq)\n            ) WITHOUT ROWID, STRICT;",
            "CREATE UNIQUE INDEX IF NOT EXISTS \"idx_my\"\"tbl_v2_tombstones_pk\"\n              ON \"my\"\"tbl__crsql_v2_tombstones\"(\"a\");",
        ]
    );
    assert!(plan[..n - 3].iter().all(|s| s.binds.is_empty() && !s.sync));
    assert_eq!(plan[n - 3].sql, "INSERT OR IGNORE INTO \"my\"\"tbl__crsql_v2_col_map\" (col_id, col_name) VALUES (?, ?)");
    assert_eq!(plan[n - 3].binds, [ColumnValue::Integer(0), text("x")]);
    assert_eq!(plan[n - 2].binds, [ColumnValue::Integer(1), text("y\"z")]);
    assert_eq!(plan[n - 1].sql, "INSERT OR REPLACE INTO crsql_master (key, value) VALUES (?, ?)");
    assert_eq!(plan[n - 1].binds, [text("v2_pks_my\"tbl"), text("n:a:TEXT")]);
}

#[test]
fn metadata_tables_of_rowids() {
    let t = table(&[("a", "INTEGER")], true, true);
    let plan = create_v2_tables(&t);
    let n = plan.len();
    assert_eq!(
        plan[..n - 3].iter().map(|s| s.sql.as_str()).collect::<Vec<_>>(),
        [
            "CREATE TABLE IF NOT EXISTS \"my\"\"tbl__crsql_v2_col_map\" (\n          col_id INTEGER PRIMARY KEY,\n          col_name TEXT NOT NULL\n        ) STRICT;",
            "CREATE UNIQUE INDEX IF NOT EXISTS \"idx_my\"\"tbl_v2_col_map_name\"\n          ON \"my\"\"tbl__crsql_v2_col_map\"(col_name);",
            "CREATE TABLE IF NOT EXISTS \"my\"\"tbl__crsql_v2_clock\" (\n          cell_key INTEGER PRIMARY KEY,\n          col_version INTEGER NOT NULL,\n          site_id INTEGER NOT NULL,\n          db_version INTEGER NOT NULL,\n          seq INTEGER NOT NULL,\n          ts INTEGER NOT NULL CHECK (ts > 0)\n        ) STRICT;",
            "CREATE INDEX IF NOT EXISTS \"my\"\"tbl__crsql_v2_clock_feed_idx\"\n          ON \"my\"\"tbl__crsql_v2_clock\"(site_id, db_version, seq);",
            "CREATE TABLE IF NOT EXISTS \"my\"\"tbl__crsql_v2_pks\" (\n                  __crsql_key INTEGER PRIMARY KEY,\n                  cl INTEGER NOT NULL DEFAULT 1 CHECK (cl % 2 = 1)\n                ) STRICT;",
            "CREATE TABLE IF NOT EXISTS \"my\"\"tbl__crsql_v2_tombstones\" (\n              site_id INTEGER NOT NULL,\n              db_version INTEGER NOT NULL,\n              seq INTEGER NOT NULL,\n              \"a\" INTEGER NOT NULL,\n              cl INTEGER NOT NULL CHECK (cl % 2 = 0),\n              ts INTEGER NOT NULL CHECK (ts > 0),\n              PRIMARY KEY (site_id, db_version, seq)\n            ) WITHOUT ROWID, STRICT;",
            "CREATE UNIQUE INDEX IF NOT EXISTS \"idx_my\"\"tbl_v2_tombstones_pk\"\n              ON \"my\"\"tbl__crsql_v2_tombstones\"(\"a\");",
        ]
    );
    assert!(plan[..n - 3].iter().all(|s| s.binds.is_empty() && !s.sync));
    assert_eq!(plan[n - 3].sql, "INSERT OR IGNORE INTO \"my\"\"tbl__crsql_v2_col_map\" (col_id, col_name) VALUES (?, ?)");
    assert_eq!(plan[n - 3].binds, [ColumnValue::Integer(0), text("x")]);
    assert_eq!(plan[n - 2].binds, [ColumnValue::Integer(1), text("y\"z")]);
    assert_eq!(plan[n - 1].sql, "INSERT OR REPLACE INTO crsql_master (key, value) VALUES (?, ?)");
    assert_eq!(plan[n - 1].binds, [text("v2_pks_my\"tbl"), text("r:a:INTEGER")]);
}

#[test]
fn dropping_metadata_tables() {
    let plan = drop_v2_tables("t\"");
    let sqls: Vec<&str> = plan.iter().map(|s| s.sql.as_str()).collect();
    assert_eq!(
        sqls,
        [
            "DROP TABLE IF EXISTS \"t\"\"__crsql_v2_col_map\"",
            "DROP TABLE IF EXISTS \"t\"\"__crsql_v2_clock\"",
            "DROP TABLE IF EXISTS \"t\"\"__crsql_v2_pks\"",
            "DROP TABLE IF EXISTS \"t\"\"__crsql_v2_tombstones\"",
            "DROP TABLE IF EXISTS \"t\"\"__crsql_v2_tombstone_pks\"",
            "DELETE FROM crsql_master WHERE key = ?",
        ]
    );
    assert_eq!(plan[5].binds, [text("v2_pks_t\"")]);
    let again = remove_crr_v2_tables("t\"");
    assert_eq!(again.iter().map(|s| s.sql.as_str()).collect::<Vec<_>>(), sqls);
    assert_eq!(
        has_v2_tables("t'"),
        "SELECT 1 FROM sqlite_master WHERE type = 'table' AND tbl_name = 't''__crsql_v2_clock'"
    );
}

#[test]
fn shape_of_a_primary_key() {
    let t = table(&[("b", "TEXT"), ("a", "INTEGER"), ("ab", "BLOB")], false, false);
    assert_eq!(compute_pk_signature(&t), "n:a:INTEGER,ab:BLOB,b:TEXT");
    let other = table(&[("ab", "BLOB"), ("b", "TEXT"), ("a", "INTEGER")], false, false);
    assert_eq!(compute_pk_signature(&other), compute_pk_signature(&t));
    assert_eq!(compute_pk_signature(&table(&[("a", "INTEGER")], true, false)), "r:a:INTEGER");
    assert!(!check_pk_changed_v2(&t, None));
    assert!(!check_pk_changed_v2(&t, Some("n:a:INTEGER,ab:BLOB,b:TEXT")));
    assert!(check_pk_changed_v2(&t, Some("n:a:INTEGER")));
}

#[test]
fn after_an_alteration() {
    let t = table(&[("a", "TEXT")], false, false);
    assert_eq!(compact_post_alter_v2(None, None), AlterStep::Fail(ResultCode::ERROR));
    assert_eq!(compact_post_alter_v2(Some(&t), None), AlterStep::SyncColumns);
    assert_eq!(compact_post_alter_v2(Some(&t), Some("n:a:TEXT")), AlterStep::SyncColumns);
    assert_eq!(compact_post_alter_v2(Some(&t), Some("n:b:TEXT")), AlterStep::Recreate);
    let mut v1 = table(&[("a", "TEXT")], false, false);
    v1.schema_version = SchemaVersion::V1;
    assert_eq!(compact_post_alter_v2(Some(&v1), Some("n:b:TEXT")), AlterStep::Nothing);
}

fn ids(list: &[(i64, &str)]) -> Vec<ColId> {
    list.iter().map(|(id, name)| ColId { col_id: *id, col_name: name.to_string() }).collect()
}

#[test]
fn ids_of_new_columns() {
    let mut t = table(&[("a", "TEXT")], false, false);
    t.non_pks = vec![col("x", ""), col("new1", ""), col("z", ""), col("new2", "")];
    let plan = sync_col_map_v2(&t, &ids(&[(0, "gone"), (1, "x"), (3, "z")]));
    assert_eq!(plan.len(), 3);
    assert_eq!(plan[0].sql, "DELETE FROM \"my\"\"tbl__crsql_v2_col_map\" WHERE col_id IN (?)\0");
    assert_eq!(plan[0].binds, [ColumnValue::Integer(0)]);
    assert_eq!(plan[1].sql, "DELETE FROM \"my\"\"tbl__crsql_v2_clock\" WHERE cell_key & 4095 IN (?)\0");
    assert_eq!(plan[1].binds, [ColumnValue::Integer(0)]);
    assert_eq!(
        plan[2].sql,
        "INSERT INTO \"my\"\"tbl__crsql_v2_col_map\" (col_id, col_name) VALUES (?, ?), (?, ?)\0"
    );
    assert_eq!(
        plan[2].binds,
        [ColumnValue::Integer(0), text("new1"), ColumnValue::Integer(2), text("new2")]
    );
    assert_eq!(col_map_sql(&t), "SELECT col_id, col_name FROM \"my\"\"tbl__crsql_v2_col_map\"\0");
    assert!(sync_col_map_v2(&t, &ids(&[(0, "x"), (1, "new1"), (2, "z"), (3, "new2")])).is_empty());
}

#[test]
fn the_first_column_takes_the_id_of_the_row() {
    let mut t = table(&[("a", "TEXT")], false, false);
    t.non_pks = vec![col("x", "")];
    let plan = sync_col_map_v2(&t, &[]);
    assert_eq!(plan.len(), 1);
    assert_eq!(plan[0].binds, [ColumnValue::Integer(0), text("x")]);
}

#[test]
fn the_last_column_leaves_its_clocks_to_the_row() {
    let mut t = table(&[("a", "TEXT")], false, false);
    t.non_pks = vec![];
    let plan = sync_col_map_v2(&t, &ids(&[(0, "x"), (2, "y")]));
    assert_eq!(plan.len(), 3);
    assert_eq!(plan[0].sql, "DELETE FROM \"my\"\"tbl__crsql_v2_col_map\" WHERE col_id IN (?, ?)\0");
    assert_eq!(
        plan[1].sql,
        "DELETE FROM \"my\"\"tbl__crsql_v2_clock\" WHERE cell_key & 4095 IN (?)\0"
    );
    assert_eq!(plan[1].binds, [ColumnValue::Integer(0)]);
    assert_eq!(
        plan[2].sql,
        "UPDATE \"my\"\"tbl__crsql_v2_clock\" SET cell_key = cell_key & ~4095 WHERE cell_key & 4095 = ?\0"
    );
    assert_eq!(plan[2].binds, [ColumnValue::Integer(2)]);
    let plan = sync_col_map_v2(&t, &ids(&[(0, "x")]));
    assert_eq!(plan.len(), 1);
}

#[test]
fn statements_of_a_backfill() {
    let two = [col("a", ""), col("b\"c", "")];
    let b = backfill_table_v2("my\"tbl", &two, &[col("x", "")], false, "", false, false, true).ok().unwrap();
    assert_eq!(b.read, "SELECT \"a\", \"b\"\"c\" FROM \"my\"\"tbl\" AS t1\n            EXCEPT SELECT \"a\", \"b\"\"c\" FROM \"my\"\"tbl__crsql_v2_pks\" AS t2");
    assert_eq!(b.insert_pks, "INSERT INTO \"my\"\"tbl__crsql_v2_pks\" (\"a\", \"b\"\"c\", hashed_pk, cl) VALUES (?, ?, ?, 1) RETURNING __crsql_key");
    assert_eq!(b.clock, "INSERT OR REPLACE INTO \"my\"\"tbl__crsql_v2_clock\" (cell_key, col_version, site_id, db_version, seq, ts) VALUES (?, 1, 0, crsql_next_db_version(), crsql_increment_and_get_seq(), crsql_get_ts())");
    assert_eq!(b.run, BackfillRun::new(false, false, false, 1));
    let b = backfill_table_v2("my\"tbl", &two, &[], true, "rowid", false, true, true).ok().unwrap();
    assert_eq!(b.read, "SELECT t1.\"rowid\", \"a\", \"b\"\"c\" FROM \"my\"\"tbl\" AS t1\n            WHERE t1.\"rowid\" NOT IN (SELECT __crsql_key FROM \"my\"\"tbl__crsql_v2_pks\")");
    assert_eq!(b.insert_pks, "INSERT INTO \"my\"\"tbl__crsql_v2_pks\" (__crsql_key, hashed_pk, cl) VALUES (?, ?, 1) RETURNING __crsql_key");
    assert_eq!(b.run, BackfillRun::new(true, false, true, 0));
    let b = backfill_table_v2("my\"tbl", &two, &[], true, "rowid", true, true, true).ok().unwrap();
    assert_eq!(b.insert_pks, "INSERT INTO \"my\"\"tbl__crsql_v2_pks\" (__crsql_key, cl) VALUES (?, 1) RETURNING __crsql_key");
    let b = backfill_table_v2("my\"tbl", &two, &[], false, "rowid", true, true, true).ok().unwrap();
    assert_eq!(b.insert_pks, "INSERT INTO \"my\"\"tbl__crsql_v2_pks\" (\"a\", \"b\"\"c\", cl) VALUES (?, ?, 1) RETURNING __crsql_key");
    assert_eq!(
        backfill_table_v2("t", &two, &[], false, "rowid", true, true, false).err(),
        Some(ResultCode::ERROR)
    );
}

#[test]
fn parameters_of_a_backfill() {
    let pks = || vec![text("k"), ColumnValue::Integer(4)];
    let hash = hash_pk_values(&pks()).unwrap();
    assert_eq!(bind_pks(false, true, 9, pks()), Ok(pks()));
    assert_eq!(bind_pks(true, true, 9, pks()), Ok(vec![ColumnValue::Integer(9)]));
    assert_eq!(
        bind_pks(true, false, 9, pks()),
        Ok(vec![ColumnValue::Integer(9), ColumnValue::Blob(hash.clone())])
    );
    assert_eq!(
        bind_pks(false, false, 9, pks()),
        Ok(vec![text("k"), ColumnValue::Integer(4), ColumnValue::Blob(hash)])
    );
    assert_eq!(backfill_cells(2, 3), [8192, 8193, 8194]);
    assert_eq!(backfill_cells(2, 0), [8192]);
}

#[test]
fn run_of_a_backfill() {
    let mut b = BackfillRun::new(true, true, false, 2);
    assert!(matches!(b.next(BackfillEvent::Begin), BackfillAction::Exec("SAVEPOINT backfill_v2")));
    assert!(matches!(b.next(BackfillEvent::Ran), BackfillAction::NextRow));
    match b.next(BackfillEvent::Row(5, vec![text("k")])) {
        BackfillAction::Insert(binds) => assert_eq!(binds, [ColumnValue::Integer(5)]),
        _ => panic!("no key"),
    }
    match b.next(BackfillEvent::Key(Some(5))) {
        BackfillAction::Clocks(cells) => assert_eq!(cells, [20480, 20481]),
        _ => panic!("no clocks"),
    }
    assert!(matches!(b.next(BackfillEvent::Ran), BackfillAction::NextRow));
    assert!(matches!(b.next(BackfillEvent::Row(6, vec![])), BackfillAction::Insert(_)));
    assert!(matches!(b.next(BackfillEvent::Key(None)), BackfillAction::NextRow));
    let mut failing = b;
    assert!(matches!(b.next(BackfillEvent::NoRow), BackfillAction::Exec("RELEASE backfill_v2")));
    assert!(matches!(b.next(BackfillEvent::Ran), BackfillAction::Stop(Ok(()))));
    assert_eq!(b.state, BackfillState::Over);
    assert!(matches!(
        failing.next(BackfillEvent::Failed(ResultCode::NOMEM)),
        BackfillAction::Exec("ROLLBACK")
    ));
    assert!(matches!(failing.next(BackfillEvent::Ran), BackfillAction::Stop(Err(ResultCode::NOMEM))));
    let mut bare = BackfillRun::new(true, true, true, 2);
    assert!(matches!(bare.next(BackfillEvent::Begin), BackfillAction::NextRow));
    assert!(matches!(
        bare.next(BackfillEvent::Failed(ResultCode::ERROR)),
        BackfillAction::Stop(Err(ResultCode::ERROR))
    ));
}

#[test]
fn plans_for_replicated_tables() {
    let mut t = table(&[("i\"d", "INTEGER")], false, false);
    let plan = create_crr_inner(&mut t, false, Some(true), Some(false), false, None, 2).ok().unwrap();
    let expected = CrrPlan {
        use_rowid: Some(1),
        skip_hash: None,
        check_rowids: true,
        create_v2: true,
        create_v1: true,
        backfill_v1: true,
        backfill_v2: true,
    };
    assert_eq!(plan, expected);
    assert!(t.key_is_rowid);
    let mut t = table(&[("i\"d", "INTEGER")], false, false);
    let plan = create_crr_inner(&mut t, false, None, Some(false), true, None, 3).ok().unwrap();
    let expected = CrrPlan {
        use_rowid: Some(0),
        skip_hash: Some(1),
        check_rowids: false,
        create_v2: true,
        create_v1: false,
        backfill_v1: false,
        backfill_v2: true,
    };
    assert_eq!(plan, expected);
    assert!(t.skip_hash && !t.key_is_rowid);
    assert_eq!(t.skip_hash_pk_col, "i\"\"d");
    let mut t = table(&[("a", "TEXT"), ("b", "TEXT")], false, false);
    let plan = create_crr_inner(&mut t, false, None, None, false, Some(true), 1).ok().unwrap();
    let expected = CrrPlan {
        use_rowid: None,
        skip_hash: Some(0),
        check_rowids: false,
        create_v2: false,
        create_v1: true,
        backfill_v1: true,
        backfill_v2: false,
    };
    assert_eq!(plan, expected);
}

#[test]
fn steps_of_a_plan() {
    let all = CrrPlan {
        use_rowid: Some(1),
        skip_hash: Some(0),
        check_rowids: true,
        create_v2: true,
        create_v1: true,
        backfill_v1: true,
        backfill_v2: true,
    };
    assert_eq!(
        crr_steps(all),
        [
            CrrStep::KeepUseRowid(1),
            CrrStep::KeepSkipHash(0),
            CrrStep::CheckRowids,
            CrrStep::CreateV2,
            CrrStep::CreateV1,
            CrrStep::RemoveTriggers,
            CrrStep::CreateTriggers,
            CrrStep::BackfillV1,
            CrrStep::BackfillV2,
        ]
    );
    let few = CrrPlan {
        use_rowid: None,
        skip_hash: None,
        check_rowids: false,
        create_v2: true,
        create_v1: false,
        backfill_v1: false,
        backfill_v2: true,
    };
    assert_eq!(
        crr_steps(few),
        [CrrStep::CreateV2, CrrStep::RemoveTriggers, CrrStep::CreateTriggers, CrrStep::BackfillV2]
    );
}

#[test]
fn tables_that_are_not_replicated() {
    let mut t = table(&[("a", "TEXT"), ("b", "TEXT")], false, false);
    let no = create_crr_inner(&mut t, false, Some(true), None, false, None, 1).err().unwrap();
    assert_eq!(
        no.message,
        "use_rowid=1 is only allowed on INTEGER PRIMARY KEY tables. Table 'my\"tbl' does not have an INTEGER PRIMARY KEY \u{2014} its implicit rowid is unstable under VACUUM and cannot be used as a persistent key."
    );
    assert_eq!(no.use_rowid, None);
    let no = create_crr_inner(&mut t, false, Some(false), None, true, None, 1).err().unwrap();
    assert_eq!(
        no.message,
        "skip_hash is only supported on tables with a single primary key column. Table 'my\"tbl' has 2 primary key columns."
    );
    assert_eq!(no.use_rowid, Some(0));
    let mut t = table(&[("a", "INTEGER")], false, false);
    let no = create_crr_inner(&mut t, true, Some(true), None, false, None, 1).err().unwrap();
    assert_eq!(
        no.message,
        "use_rowid=1 is not allowed on WITHOUT ROWID tables. Table 'my\"tbl' is WITHOUT ROWID \u{2014} it has no stable rowid to use as a key."
    );
}

#[test]
fn ranges_of_rowids() {
    assert_eq!(validate_rowid_range("t", 0, 0), Ok(()));
    assert_eq!(validate_rowid_range("t", (1 << 51) - 1, 0), Ok(()));
    assert_eq!(
        validate_rowid_range("t", 1 << 51, 3),
        Err("Table t has rowids outside the safe range [0, 2251799813685248). Found range [3, 2251799813685248]. cell_key = (rowid << 12) | col_id must fit in a signed INT64. Pass 'use_rowid=0' via schema directive or use a non-rowid key strategy.".to_string())
    );
    assert!(validate_rowid_range("t", 5, -1).is_err());
    assert_eq!(
        rowid_range_text("t\"", "rowid"),
        "SELECT max(\"rowid\"), min(\"rowid\") FROM \"t\"\"\""
    );
}

#[test]
fn parts_of_replication() {
    assert_eq!(create_crr(false, false), Err(ResultCode::ERROR));
    assert_eq!(create_crr(true, true), Ok(false));
    assert_eq!(create_crr(true, false), Ok(true));
    assert_eq!(get_metadata_write_version(None), 1);
    assert_eq!(get_metadata_write_version(Some(3)), 3);
    assert_eq!(stale_metadata(true, true, false), StaleStep::Keep);
    assert_eq!(stale_metadata(false, true, true), StaleStep::Keep);
    assert_eq!(stale_metadata(false, true, false), StaleStep::DropAndClear);
    assert_eq!(stale_metadata(false, false, true), StaleStep::ClearFlags);
    assert_eq!(
        has_triggers_text("t"),
        "SELECT 1 FROM sqlite_master WHERE type='trigger' AND tbl_name='t' AND name LIKE '%crsql%'"
    );
    assert_eq!(
        create_v2_tables_failed("t", true, false, "ERROR"),
        "create_v2_tables failed for t (key_is_rowid=true, skip_hash=false): ERROR"
    );
    assert_eq!(
        backfill_table_v2_failed("t", false, true, "ERROR"),
        "backfill_table_v2 failed for t (key_is_rowid=false, skip_hash=true): ERROR"
    );
    assert_eq!(create_triggers_failed("t", "NOMEM"), "create_triggers failed for t: NOMEM");
}

#[test]
fn taking_replication_off() {
    assert_eq!(
        remove_crr_clock_table_if_exists("t\""),
        ["DROP TABLE IF EXISTS \"t\"\"__crsql_clock\"", "DROP TABLE IF EXISTS \"t\"\"__crsql_pks\""]
    );
    assert_eq!(
        remove_crr_triggers_if_exist("t", &["a".to_string(), "b\"".to_string()]),
        [
            "DROP TRIGGER IF EXISTS \"t__crsql_itrig\"",
            "DROP TRIGGER IF EXISTS \"t__crsql_utrig\"",
            "DROP TRIGGER IF EXISTS \"t_a__crsql_utrig\"",
            "DROP TRIGGER IF EXISTS \"t_b\"\"__crsql_utrig\"",
            "DROP TRIGGER IF EXISTS \"t__crsql_dtrig\"",
        ]
    );
}
