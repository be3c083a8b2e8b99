use crsql::ext_data::ExtData;
use crsql::bootstrap_v2::{create_v2_tables, has_v2_tables};
use crsql::config::{CLEANUP_PENDING_SQL, MIGRATION_PENDING_SQL};
use crsql::maintenance::{crsql_incremental_maintenance, Upkeep, UpkeepState};
use crsql::migrate::{
    backfill_untracked_v2_pks, cleanup_recounted, cleanup_tables_chunk, count_left, count_rows,
    delete_chunk, drop_metadata, migrate_v1_to_v2_chunk, migration_chunk_rows,
    migration_chunk_steps, process_cleanup_tasks, task_pattern, v1_suffixes, v2_pks_join_clause,
    v2_suffixes, ChunkEnd, CleanupEnd, Maintenance, RecountEnd, TableTask,
};
use crsql::migrate_run::{Cleanup, CleanState, Migrate, MigrateState};
use crsql::pack_columns::ColumnValue;
use crsql::result_code::{ResultCode, Stepped};
use crsql::statement::Statement;
use crsql::steps::{Action, Event};
use crsql::tableinfo::{ColumnInfo, SchemaVersion, TableInfo};
use std::collections::BTreeMap;

fn ext() -> ExtData {
    ExtData {
        db_version: -1,
        pending_db_version: -1,
        seq: 0,
        updated_table_infos_this_tx: 0,
        pragma_schema_version_for_table_infos: -1,
        pragma_data_version: -1,
        checked_config_this_tx: 0,
        merge_equal_values: 0,
        metadata_write_version: 1,
        metadata_use_version: 1,
        sync_log_version: 1,
        timestamp: 0,
        default_timestamp: 0,
        force_update_mode: 0,
        rows_impacted: 0,
    }
}

fn col(name: &str) -> ColumnInfo {
    ColumnInfo { cid: 0, name: name.to_string(), col_type: String::new(), pk: 0 }
}

fn table(pks: &[&str], key_is_rowid: bool, skip_hash: bool, columns: bool) -> TableInfo {
    TableInfo {
        tbl_name: "my\"tbl".to_string(),
        pks: pks.iter().map(|n| col(n)).collect(),
        non_pks: if columns { vec![col("v")] } else { vec![] },
        schema_version: SchemaVersion::V2AndV1,
        key_is_rowid,
        has_integer_pk: key_is_rowid,
        rowid_alias: "rowid".to_string(),
        skip_hash,
        skip_hash_pk_col: if skip_hash { pks[0].to_string() } else { String::new() },
        cl_cache: BTreeMap::new(),
    }
}

#[test]
fn migration_statements_by_hash() {
    let t = table(&["a", "b\"c"], false, false, true);
    assert_eq!(
        migration_chunk_rows(&t, 7, 100),
        [
            "DROP TABLE IF EXISTS temp.migration_chunk",
            "CREATE TEMP TABLE migration_chunk (\n               __crsql_key INTEGER PRIMARY KEY,\n               \"a\", \"b\"\"c\",\n               sentinel_version INTEGER,\n               sentinel_site_id INTEGER,\n               sentinel_db_version INTEGER,\n               sentinel_seq INTEGER,\n               sentinel_ts TEXT,\n               is_alive INTEGER, hashed_pk BLOB\n             )",
            "INSERT INTO temp.migration_chunk\n             SELECT p.__crsql_key, p.\"a\" as \"a\", p.\"b\"\"c\" as \"b\"\"c\",\n               s.col_version as sentinel_version, s.site_id as sentinel_site_id,\n               s.db_version as sentinel_db_version, s.seq as sentinel_seq,\n               s.ts as sentinel_ts,\n               CASE WHEN s.col_version IS NULL OR s.col_version % 2 != 0 THEN 1 ELSE 0 END as is_alive\n               , crsql_hash_pk(p.\"a\",p.\"b\"\"c\") as hashed_pk\n             FROM \"my\"\"tbl__crsql_pks\" p\n             LEFT JOIN \"my\"\"tbl__crsql_clock\" s\n               ON p.__crsql_key = s.key AND s.col_name = '-1'\n             WHERE p.__crsql_key > 7\n             ORDER BY p.__crsql_key LIMIT 100",
        ]
    );
    assert_eq!(
        migration_chunk_steps(&t, 50),
        [
            "INSERT OR IGNORE INTO \"my\"\"tbl__crsql_v2_pks\" (\"a\", \"b\"\"c\", hashed_pk, cl)\n             SELECT chunk.\"a\",chunk.\"b\"\"c\", chunk.hashed_pk, COALESCE(chunk.sentinel_version, 1)\n             FROM temp.migration_chunk chunk\n             JOIN \"my\"\"tbl\" b ON b.\"a\" = chunk.\"a\" AND b.\"b\"\"c\" = chunk.\"b\"\"c\"\n             WHERE chunk.is_alive = 1",
            "INSERT OR IGNORE INTO \"my\"\"tbl__crsql_v2_tombstones\"\n             (site_id, db_version, seq, hashed_pk, cl, ts)\n             SELECT chunk.sentinel_site_id, chunk.sentinel_db_version, chunk.sentinel_seq,\n               chunk.hashed_pk, chunk.sentinel_version,\n               CASE WHEN CAST(chunk.sentinel_ts AS INTEGER) > 0 THEN CAST(chunk.sentinel_ts AS INTEGER) ELSE 50 END\n             FROM temp.migration_chunk chunk\n             WHERE chunk.is_alive = 0",
            "INSERT OR IGNORE INTO \"my\"\"tbl__crsql_v2_tombstone_pks\" (\"a\", \"b\"\"c\", hashed_pk)\n                 SELECT chunk.\"a\",chunk.\"b\"\"c\", chunk.hashed_pk\n                 FROM temp.migration_chunk chunk\n                 WHERE chunk.is_alive = 0",
            "INSERT OR IGNORE INTO \"my\"\"tbl__crsql_v2_clock\"\n                 (cell_key, col_version, site_id, db_version, seq, ts)\n                 SELECT (vp.__crsql_key << 12) | m.col_id,\n                   c.col_version, c.site_id, c.db_version, c.seq,\n                   CASE WHEN CAST(c.ts AS INTEGER) > 0 THEN CAST(c.ts AS INTEGER) ELSE 50 END\n                 FROM \"my\"\"tbl__crsql_clock\" c\n                 JOIN temp.migration_chunk chunk\n                   ON c.key = chunk.__crsql_key\n                 JOIN \"my\"\"tbl__crsql_v2_pks\" vp ON vp.hashed_pk = crsql_hash_pk(chunk.\"a\",chunk.\"b\"\"c\")\n                 JOIN \"my\"\"tbl__crsql_v2_col_map\" m ON c.col_name = m.col_name\n                 WHERE c.col_name != '-1' AND chunk.is_alive = 1",
        ]
    );
    assert_eq!(
        v2_pks_join_clause(&t, "chunk.\"a\",chunk.\"b\"\"c\""),
        "JOIN \"my\"\"tbl__crsql_v2_pks\" vp ON vp.hashed_pk = crsql_hash_pk(chunk.\"a\",chunk.\"b\"\"c\")"
    );
    assert_eq!(
        backfill_untracked_v2_pks(&t),
        "INSERT OR IGNORE INTO \"my\"\"tbl__crsql_v2_pks\" (\"a\", \"b\"\"c\", hashed_pk, cl)\n         SELECT b.\"a\",b.\"b\"\"c\", crsql_hash_pk(b.\"a\",b.\"b\"\"c\"), 1\n         FROM \"my\"\"tbl\" b\n         WHERE NOT EXISTS (\n           SELECT 1 FROM \"my\"\"tbl__crsql_v2_pks\" vp\n           WHERE vp.hashed_pk = crsql_hash_pk(b.\"a\",b.\"b\"\"c\")\n         )"
    );
}

#[test]
fn migration_statements_by_hash_and_rowid() {
    let t = table(&["a"], true, false, true);
    assert_eq!(
        migration_chunk_rows(&t, 7, 100),
        [
            "DROP TABLE IF EXISTS temp.migration_chunk",
            "CREATE TEMP TABLE migration_chunk (\n               __crsql_key INTEGER PRIMARY KEY,\n               \"a\",\n               sentinel_version INTEGER,\n               sentinel_site_id INTEGER,\n               sentinel_db_version INTEGER,\n               sentinel_seq INTEGER,\n               sentinel_ts TEXT,\n               is_alive INTEGER, hashed_pk BLOB\n             )",
            "INSERT INTO temp.migration_chunk\n             SELECT p.__crsql_key, p.\"a\" as \"a\",\n               s.col_version as sentinel_version, s.site_id as sentinel_site_id,\n               s.db_version as sentinel_db_version, s.seq as sentinel_seq,\n               s.ts as sentinel_ts,\n               CASE WHEN s.col_version IS NULL OR s.col_version % 2 != 0 THEN 1 ELSE 0 END as is_alive\n               , crsql_hash_pk(p.\"a\") as hashed_pk\n             FROM \"my\"\"tbl__crsql_pks\" p\n             LEFT JOIN \"my\"\"tbl__crsql_clock\" s\n               ON p.__crsql_key = s.key AND s.col_name = '-1'\n             WHERE p.__crsql_key > 7\n             ORDER BY p.__crsql_key LIMIT 100",
        ]
    );
    assert_eq!(
        migration_chunk_steps(&t, 50),
        [
            "INSERT OR IGNORE INTO \"my\"\"tbl__crsql_v2_pks\" (__crsql_key, hashed_pk, cl)\n             SELECT b.rowid, chunk.hashed_pk, COALESCE(chunk.sentinel_version, 1)\n             FROM temp.migration_chunk chunk\n             JOIN \"my\"\"tbl\" b ON b.\"a\" = chunk.\"a\"\n             WHERE chunk.is_alive = 1",
            "INSERT OR IGNORE INTO \"my\"\"tbl__crsql_v2_tombstones\"\n             (site_id, db_version, seq, hashed_pk, cl, ts)\n             SELECT chunk.sentinel_site_id, chunk.sentinel_db_version, chunk.sentinel_seq,\n               chunk.hashed_pk, chunk.sentinel_version,\n               CASE WHEN CAST(chunk.sentinel_ts AS INTEGER) > 0 THEN CAST(chunk.sentinel_ts AS INTEGER) ELSE 50 END\n             FROM temp.migration_chunk chunk\n             WHERE chunk.is_alive = 0",
            "INSERT OR IGNORE INTO \"my\"\"tbl__crsql_v2_tombstone_pks\" (\"a\", hashed_pk)\n                 SELECT chunk.\"a\", chunk.hashed_pk\n                 FROM temp.migration_chunk chunk\n                 WHERE chunk.is_alive = 0",
            "INSERT OR IGNORE INTO \"my\"\"tbl__crsql_v2_clock\"\n                 (cell_key, col_version, site_id, db_version, seq, ts)\n                 SELECT (vp.__crsql_key << 12) | m.col_id,\n                   c.col_version, c.site_id, c.db_version, c.seq,\n                   CASE WHEN CAST(c.ts AS INTEGER) > 0 THEN CAST(c.ts AS INTEGER) ELSE 50 END\n                 FROM \"my\"\"tbl__crsql_clock\" c\n                 JOIN temp.migration_chunk chunk\n                   ON c.key = chunk.__crsql_key\n                 JOIN \"my\"\"tbl__crsql_v2_pks\" vp ON vp.hashed_pk = crsql_hash_pk(chunk.\"a\")\n                 JOIN \"my\"\"tbl__crsql_v2_col_map\" m ON c.col_name = m.col_name\n                 WHERE c.col_name != '-1' AND chunk.is_alive = 1",
        ]
    );
    assert_eq!(
        v2_pks_join_clause(&t, "chunk.\"a\""),
        "JOIN \"my\"\"tbl__crsql_v2_pks\" vp ON vp.hashed_pk = crsql_hash_pk(chunk.\"a\")"
    );
    assert_eq!(
        backfill_untracked_v2_pks(&t),
        "INSERT OR IGNORE INTO \"my\"\"tbl__crsql_v2_pks\" (__crsql_key, hashed_pk, cl)\n         SELECT b.rowid, crsql_hash_pk(b.\"a\"), 1\n         FROM \"my\"\"tbl\" b\n         WHERE NOT EXISTS (\n           SELECT 1 FROM \"my\"\"tbl__crsql_v2_pks\" vp\n           WHERE vp.hashed_pk = crsql_hash_pk(b.\"a\")\n         )"
    );
}

#[test]
fn migration_statements_by_key() {
    let t = table(&["a"], false, true, true);
    assert_eq!(
        migration_chunk_rows(&t, 7, 100),
        [
            "DROP TABLE IF EXISTS temp.migration_chunk",
            "CREATE TEMP TABLE migration_chunk (\n               __crsql_key INTEGER PRIMARY KEY,\n               \"a\",\n               sentinel_version INTEGER,\n               sentinel_site_id INTEGER,\n               sentinel_db_version INTEGER,\n               sentinel_seq INTEGER,\n               sentinel_ts TEXT,\n               is_alive INTEGER\n             )",
            "INSERT INTO temp.migration_chunk\n             SELECT p.__crsql_key, p.\"a\" as \"a\",\n               s.col_version as sentinel_version, s.site_id as sentinel_site_id,\n               s.db_version as sentinel_db_version, s.seq as sentinel_seq,\n               s.ts as sentinel_ts,\n               CASE WHEN s.col_version IS NULL OR s.col_version % 2 != 0 THEN 1 ELSE 0 END as is_alive\n               \n             FROM \"my\"\"tbl__crsql_pks\" p\n             LEFT JOIN \"my\"\"tbl__crsql_clock\" s\n               ON p.__crsql_key = s.key AND s.col_name = '-1'\n             WHERE p.__crsql_key > 7\n             ORDER BY p.__crsql_key LIMIT 100",
        ]
    );
    assert_eq!(
        migration_chunk_steps(&t, 50),
        [
            "INSERT OR IGNORE INTO \"my\"\"tbl__crsql_v2_pks\" (\"a\", cl)\n             SELECT chunk.\"a\", COALESCE(chunk.sentinel_version, 1)\n             FROM temp.migration_chunk chunk\n             JOIN \"my\"\"tbl\" b ON b.\"a\" = chunk.\"a\"\n             WHERE chunk.is_alive = 1",
            "INSERT OR IGNORE INTO \"my\"\"tbl__crsql_v2_tombstones\"\n             (site_id, db_version, seq, \"a\", cl, ts)\n             SELECT chunk.sentinel_site_id, chunk.sentinel_db_version, chunk.sentinel_seq,\n               chunk.\"a\", chunk.sentinel_version,\n               CASE WHEN CAST(chunk.sentinel_ts AS INTEGER) > 0 THEN CAST(chunk.sentinel_ts AS INTEGER) ELSE 50 END\n             FROM temp.migration_chunk chunk\n             WHERE chunk.is_alive = 0",
            "INSERT OR IGNORE INTO \"my\"\"tbl__crsql_v2_clock\"\n                 (cell_key, col_version, site_id, db_version, seq, ts)\n                 SELECT (vp.__crsql_key << 12) | m.col_id,\n                   c.col_version, c.site_id, c.db_version, c.seq,\n                   CASE WHEN CAST(c.ts AS INTEGER) > 0 THEN CAST(c.ts AS INTEGER) ELSE 50 END\n                 FROM \"my\"\"tbl__crsql_clock\" c\n                 JOIN temp.migration_chunk chunk\n                   ON c.key = chunk.__crsql_key\n                 JOIN \"my\"\"tbl__crsql_v2_pks\" vp ON vp.\"a\" = chunk.\"a\"\n                 JOIN \"my\"\"tbl__crsql_v2_col_map\" m ON c.col_name = m.col_name\n                 WHERE c.col_name != '-1' AND chunk.is_alive = 1",
        ]
    );
    assert_eq!(
        v2_pks_join_clause(&t, "chunk.\"a\""),
        "JOIN \"my\"\"tbl__crsql_v2_pks\" vp ON vp.\"a\" = chunk.\"a\""
    );
    assert_eq!(
        backfill_untracked_v2_pks(&t),
        "INSERT OR IGNORE INTO \"my\"\"tbl__crsql_v2_pks\" (\"a\", cl)\n         SELECT b.\"a\", 1\n         FROM \"my\"\"tbl\" b\n         WHERE NOT EXISTS (\n           SELECT 1 FROM \"my\"\"tbl__crsql_v2_pks\" vp\n           WHERE vp.\"a\" = b.\"a\"\n         )"
    );
}

#[test]
fn migration_statements_by_rowid() {
    let t = table(&["a"], true, true, true);
    assert_eq!(
        migration_chunk_rows(&t, 7, 100),
        [
            "DROP TABLE IF EXISTS temp.migration_chunk",
            "CREATE TEMP TABLE migration_chunk (\n               __crsql_key INTEGER PRIMARY KEY,\n               \"a\",\n               sentinel_version INTEGER,\n               sentinel_site_id INTEGER,\n               sentinel_db_version INTEGER,\n               sentinel_seq INTEGER,\n               sentinel_ts TEXT,\n               is_alive INTEGER\n             )",
            "INSERT INTO temp.migration_chunk\n             SELECT p.__crsql_key, p.\"a\" as \"a\",\n               s.col_version as sentinel_version, s.site_id as sentinel_site_id,\n               s.db_version as sentinel_db_version, s.seq as sentinel_seq,\n               s.ts as sentinel_ts,\n               CASE WHEN s.col_version IS NULL OR s.col_version % 2 != 0 THEN 1 ELSE 0 END as is_alive\n               \n             FROM \"my\"\"tbl__crsql_pks\" p\n             LEFT JOIN \"my\"\"tbl__crsql_clock\" s\n               ON p.__crsql_key = s.key AND s.col_name = '-1'\n             WHERE p.__crsql_key > 7\n             ORDER BY p.__crsql_key LIMIT 100",
        ]
    );
    assert_eq!(
        migration_chunk_steps(&t, 50),
        [
            "INSERT OR IGNORE INTO \"my\"\"tbl__crsql_v2_pks\" (__crsql_key, cl)\n             SELECT b.rowid, COALESCE(chunk.sentinel_version, 1)\n             FROM temp.migration_chunk chunk\n             JOIN \"my\"\"tbl\" b ON b.\"a\" = chunk.\"a\"\n             WHERE chunk.is_alive = 1",
            "INSERT OR IGNORE INTO \"my\"\"tbl__crsql_v2_tombstones\"\n             (site_id, db_version, seq, \"a\", cl, ts)\n             SELECT chunk.sentinel_site_id, chunk.sentinel_db_version, chunk.sentinel_seq,\n               chunk.\"a\", chunk.sentinel_version,\n               CASE WHEN CAST(chunk.sentinel_ts AS INTEGER) > 0 THEN CAST(chunk.sentinel_ts AS INTEGER) ELSE 50 END\n             FROM temp.migration_chunk chunk\n             WHERE chunk.is_alive = 0",
            "INSERT OR IGNORE INTO \"my\"\"tbl__crsql_v2_clock\"\n                 (cell_key, col_version, site_id, db_version, seq, ts)\n                 SELECT (vp.__crsql_key << 12) | m.col_id,\n                   c.col_version, c.site_id, c.db_version, c.seq,\n                   CASE WHEN CAST(c.ts AS INTEGER) > 0 THEN CAST(c.ts AS INTEGER) ELSE 50 END\n                 FROM \"my\"\"tbl__crsql_clock\" c\n                 JOIN temp.migration_chunk chunk\n                   ON c.key = chunk.__crsql_key\n                 JOIN \"my\"\"tbl\" b ON b.\"a\" = chunk.\"a\"\n             JOIN \"my\"\"tbl__crsql_v2_pks\" vp ON vp.__crsql_key = b.\"rowid\"\n                 JOIN \"my\"\"tbl__crsql_v2_col_map\" m ON c.col_name = m.col_name\n                 WHERE c.col_name != '-1' AND chunk.is_alive = 1",
        ]
    );
    assert_eq!(
        v2_pks_join_clause(&t, "chunk.\"a\""),
        "JOIN \"my\"\"tbl\" b ON b.\"a\" = chunk.\"a\"\n             JOIN \"my\"\"tbl__crsql_v2_pks\" vp ON vp.__crsql_key = b.\"rowid\""
    );
    assert_eq!(
        backfill_untracked_v2_pks(&t),
        "INSERT OR IGNORE INTO \"my\"\"tbl__crsql_v2_pks\" (__crsql_key, cl)\n         SELECT b.rowid, 1\n         FROM \"my\"\"tbl\" b\n         WHERE NOT EXISTS (\n           SELECT 1 FROM \"my\"\"tbl__crsql_v2_pks\" vp\n           WHERE vp.__crsql_key = b.\"rowid\"\n         )"
    );
}

#[test]
fn migration_statements_of_bare_keys() {
    let t = table(&["a", "b\"c"], false, false, false);
    assert_eq!(
        migration_chunk_rows(&t, 7, 100),
        [
            "DROP TABLE IF EXISTS temp.migration_chunk",
            "CREATE TEMP TABLE migration_chunk (\n               __crsql_key INTEGER PRIMARY KEY,\n               \"a\", \"b\"\"c\",\n               sentinel_version INTEGER,\n               sentinel_site_id INTEGER,\n               sentinel_db_version INTEGER,\n               sentinel_seq INTEGER,\n               sentinel_ts TEXT,\n               is_alive INTEGER, hashed_pk BLOB\n             )",
            "INSERT INTO temp.migration_chunk\n             SELECT p.__crsql_key, p.\"a\" as \"a\", p.\"b\"\"c\" as \"b\"\"c\",\n               s.col_version as sentinel_version, s.site_id as sentinel_site_id,\n               s.db_version as sentinel_db_version, s.seq as sentinel_seq,\n               s.ts as sentinel_ts,\n               CASE WHEN s.col_version IS NULL OR s.col_version % 2 != 0 THEN 1 ELSE 0 END as is_alive\n               , crsql_hash_pk(p.\"a\",p.\"b\"\"c\") as hashed_pk\n             FROM \"my\"\"tbl__crsql_pks\" p\n             LEFT JOIN \"my\"\"tbl__crsql_clock\" s\n               ON p.__crsql_key = s.key AND s.col_name = '-1'\n             WHERE p.__crsql_key > 7\n             ORDER BY p.__crsql_key LIMIT 100",
        ]
    );
    assert_eq!(
        migration_chunk_steps(&t, 50),
        [
            "INSERT OR IGNORE INTO \"my\"\"tbl__crsql_v2_pks\" (\"a\", \"b\"\"c\", hashed_pk, cl)\n             SELECT chunk.\"a\",chunk.\"b\"\"c\", chunk.hashed_pk, COALESCE(chunk.sentinel_version, 1)\n             FROM temp.migration_chunk chunk\n             JOIN \"my\"\"tbl\" b ON b.\"a\" = chunk.\"a\" AND b.\"b\"\"c\" = chunk.\"b\"\"c\"\n             WHERE chunk.is_alive = 1",
            "INSERT OR IGNORE INTO \"my\"\"tbl__crsql_v2_tombstones\"\n             (site_id, db_version, seq, hashed_pk, cl, ts)\n             SELECT chunk.sentinel_site_id, chunk.sentinel_db_version, chunk.sentinel_seq,\n               chunk.hashed_pk, chunk.sentinel_version,\n               CASE WHEN CAST(chunk.sentinel_ts AS INTEGER) > 0 THEN CAST(chunk.sentinel_ts AS INTEGER) ELSE 50 END\n             FROM temp.migration_chunk chunk\n             WHERE chunk.is_alive = 0",
            "INSERT OR IGNORE INTO \"my\"\"tbl__crsql_v2_tombstone_pks\" (\"a\", \"b\"\"c\", hashed_pk)\n                 SELECT chunk.\"a\",chunk.\"b\"\"c\", chunk.hashed_pk\n                 FROM temp.migration_chunk chunk\n                 WHERE chunk.is_alive = 0",
            "INSERT OR IGNORE INTO \"my\"\"tbl__crsql_v2_clock\"\n                 (cell_key, col_version, site_id, db_version, seq, ts)\n                 SELECT (vp.__crsql_key << 12) | 0,\n                   COALESCE(chunk.sentinel_version, 1), COALESCE(chunk.sentinel_site_id, 0),\n                   COALESCE(chunk.sentinel_db_version, 0), COALESCE(chunk.sentinel_seq, 0),\n                   CASE WHEN CAST(COALESCE(chunk.sentinel_ts, '0') AS INTEGER) > 0 THEN CAST(chunk.sentinel_ts AS INTEGER) ELSE 50 END\n                 FROM temp.migration_chunk chunk\n                 JOIN \"my\"\"tbl__crsql_v2_pks\" vp ON vp.hashed_pk = crsql_hash_pk(chunk.\"a\",chunk.\"b\"\"c\")\n                 WHERE chunk.is_alive = 1",
        ]
    );
    assert_eq!(
        v2_pks_join_clause(&t, "chunk.\"a\",chunk.\"b\"\"c\""),
        "JOIN \"my\"\"tbl__crsql_v2_pks\" vp ON vp.hashed_pk = crsql_hash_pk(chunk.\"a\",chunk.\"b\"\"c\")"
    );
    assert_eq!(
        backfill_untracked_v2_pks(&t),
        "INSERT OR IGNORE INTO \"my\"\"tbl__crsql_v2_pks\" (\"a\", \"b\"\"c\", hashed_pk, cl)\n         SELECT b.\"a\",b.\"b\"\"c\", crsql_hash_pk(b.\"a\",b.\"b\"\"c\"), 1\n         FROM \"my\"\"tbl\" b\n         WHERE NOT EXISTS (\n           SELECT 1 FROM \"my\"\"tbl__crsql_v2_pks\" vp\n           WHERE vp.hashed_pk = crsql_hash_pk(b.\"a\",b.\"b\"\"c\")\n         )"
    );
}

#[test]
fn counting_and_deleting() {
    let t = table(&["a"], false, false, true);
    assert_eq!(count_left(&t, 7), "SELECT count(*) FROM \"my\"\"tbl__crsql_pks\" WHERE __crsql_key > 7\0");
    assert_eq!(count_left(&t, -7), "SELECT count(*) FROM \"my\"\"tbl__crsql_pks\" WHERE __crsql_key > -7\0");
    assert_eq!(count_rows("t\"", "__crsql_pks"), "SELECT count(*) FROM \"t\"\"__crsql_pks\"\0");
    assert_eq!(delete_chunk("t\"", "__crsql_pks", 5), "DELETE FROM \"t\"\"__crsql_pks\" LIMIT 5");
    assert_eq!(drop_metadata("t\"", "__crsql_pks"), "DROP TABLE IF EXISTS \"t\"\"__crsql_pks\";");
    assert_eq!(v1_suffixes(), ["__crsql_clock", "__crsql_pks"]);
    assert_eq!(v2_suffixes().len(), 5);
    assert_eq!(task_pattern("cleanup_v1_tables"), "cleanup_v1_tables_%");
    let keys = ["cleanup_v1_tables_a".to_string(), "cleanupxv1_tables_b".to_string(), "cleanup_v1_tables_".to_string()];
    assert_eq!(process_cleanup_tasks(&keys, "cleanup_v1_tables"), ["a", ""]);
}

#[test]
fn ends_of_steps() {
    assert_eq!(migrate_v1_to_v2_chunk(0, 5), ChunkEnd::Complete);
    assert_eq!(migrate_v1_to_v2_chunk(5, 5), ChunkEnd::Recount);
    assert_eq!(migrate_v1_to_v2_chunk(5, 4), ChunkEnd::Recount);
    assert_eq!(migrate_v1_to_v2_chunk(5, 9), ChunkEnd::Keep(4));
    assert_eq!(cleanup_tables_chunk(5, 0), CleanupEnd::Drop);
    assert_eq!(cleanup_tables_chunk(5, 5), CleanupEnd::Recount);
    assert_eq!(cleanup_tables_chunk(9, 5), CleanupEnd::Left(4));
    assert_eq!(cleanup_recounted(0, 5), RecountEnd::Drop);
    assert_eq!(cleanup_recounted(2, 5), RecountEnd::Keep { cache: 7, left: 2 });
}

#[test]
fn untracked_rows_are_found_by_escaped_names() {
    let mut t = table(&["a\"b"], false, true, true);
    t.skip_hash_pk_col = "a\"\"b".to_string();
    assert!(backfill_untracked_v2_pks(&t).contains("WHERE vp.\"a\"\"b\" = b.\"a\"\"b\""));
}

#[test]
fn maintenance() {
    let mut e = ext();
    assert_eq!(Maintenance::incremental_maintenance(&mut e, 10), Err(ResultCode::ERROR));
    e.default_timestamp = 5;
    let mut m = Maintenance::incremental_maintenance(&mut e, 10).unwrap();
    assert_eq!((m.budget, m.remaining, e.timestamp), (10, 0, 5));
    assert_eq!(m.table_task(SchemaVersion::V2, true), TableTask::Skip);
    assert_eq!(m.table_task(SchemaVersion::V1, false), TableTask::CreateAndMigrate);
    assert_eq!(m.table_task(SchemaVersion::V2AndV1, true), TableTask::Migrate);
    m.add_remaining(3);
    m.after_chunk(10, 4);
    assert_eq!((m.budget, m.remaining), (0, 7));
    assert_eq!(m.table_task(SchemaVersion::V2AndV1, true), TableTask::CountOnly);
    assert_eq!(m.table_task(SchemaVersion::V1, false), TableTask::Skip);
    m.after_chunk(2, 0);
    assert_eq!((m.budget, m.remaining), (-2, 7));
    m.add_remaining(0);
    m.add_remaining(-5);
    assert_eq!(m.remaining, 9);
    m.add_remaining(1 << 32);
    assert_eq!(m.remaining, i32::MAX);
    m.after_chunk(0, i64::MAX);
    assert_eq!(m.remaining, i32::MAX);
    assert_eq!(crsql_incremental_maintenance(UpkeepState::Over { left: 7 }), 7);
    assert_eq!(crsql_incremental_maintenance(UpkeepState::Failed { code: ResultCode::ERROR }), -1);
    assert_eq!(crsql_incremental_maintenance(UpkeepState::Start), -1);
}

fn text(s: &str) -> ColumnValue {
    ColumnValue::Text(s.to_string())
}

fn asked(action: Action) -> (String, Vec<ColumnValue>) {
    match action {
        Action::AskInt(s) => (s.sql, s.binds),
        _ => panic!("no question"),
    }
}

fn ran(action: Action) -> Vec<Statement> {
    match action {
        Action::Run { plan, counts: false } => plan,
        Action::Count(plan) => plan,
        _ => panic!("no plan"),
    }
}

fn sqls(plan: &[Statement]) -> Vec<&str> {
    plan.iter().map(|s| s.sql.as_str()).collect()
}

const GET: &str = "SELECT value FROM crsql_master WHERE key = ?";
const SET: &str = "INSERT OR REPLACE INTO crsql_master (key, value) VALUES (?, ?)";
const CLEAR: &str = "DELETE FROM crsql_master WHERE key = ?";
const DROP_ROWS: &str = "DROP TABLE IF EXISTS temp.migration_chunk";

fn row(n: i64) -> Event {
    Event::Int(Stepped::Row(n))
}

fn none() -> Event {
    Event::Int(Stepped::Done)
}

#[test]
fn step_of_a_migration() {
    let t = table(&["a"], false, false, true);
    let mut m = Migrate::new(&t, 100, 50);
    let (sql, binds) = asked(m.next(Event::Begin));
    assert_eq!((sql.as_str(), binds), (GET, vec![text("migration_v1_to_v2_migration_my\"tbl")]));
    assert_eq!(sqls(&ran(m.next(row(7)))), ["SAVEPOINT migration_chunk"]);
    let (sql, binds) = asked(m.next(Event::Ran));
    assert_eq!((sql.as_str(), binds), (GET, vec![text("migration_v1_to_v2_remaining_my\"tbl")]));
    assert_eq!(asked(m.next(none())).0, count_left(&t, 7));
    let plan = ran(m.next(row(150)));
    assert_eq!(sqls(&plan), [SET]);
    assert_eq!(
        plan[0].binds,
        [text("migration_v1_to_v2_remaining_my\"tbl"), ColumnValue::Integer(150)]
    );
    assert_eq!(sqls(&ran(m.next(Event::Ran))), migration_chunk_rows(&t, 7, 100));
    assert_eq!(sqls(&ran(m.next(row(100)))), migration_chunk_steps(&t, 50));
    assert_eq!(asked(m.next(Event::Ran)).0, "SELECT max(__crsql_key) FROM temp.migration_chunk\0");
    let plan = ran(m.next(row(120)));
    assert_eq!(
        plan[0].binds,
        [text("migration_v1_to_v2_migration_my\"tbl"), ColumnValue::Integer(120)]
    );
    assert_eq!(sqls(&ran(m.next(Event::Ran))), [DROP_ROWS]);
    let plan = ran(m.next(Event::Ran));
    assert_eq!(sqls(&plan), [SET, "RELEASE migration_chunk"]);
    assert_eq!(plan[0].binds[1], ColumnValue::Integer(50));
    assert!(matches!(m.next(Event::Ran), Action::Stop(Ok(()))));
    assert_eq!(m.state, MigrateState::Over { rows: 100, left: 50 });
}

#[test]
fn last_step_of_a_migration() {
    let t = table(&["a"], false, false, true);
    let at = |state| Migrate { t: &t, chunk_size: 100, ts: 50, state };
    let mut m = at(MigrateState::Dropped { estimate: 10, rows: 10 });
    let mut counted = {
        assert_eq!(sqls(&ran(m.next(Event::Failed(ResultCode::ERROR)))), [CLEAR]);
        assert_eq!(asked(m.next(Event::Ran)).0, GET);
        assert_eq!(asked(m.next(row(120))).0, count_left(&t, 120));
        m
    };
    let plan = ran(m.next(row(0)));
    assert_eq!(sqls(&plan)[0], backfill_untracked_v2_pks(&t));
    assert_eq!(sqls(&plan)[1..], [CLEAR, CLEAR, "RELEASE migration_chunk"]);
    assert!(matches!(m.next(Event::Ran), Action::Stop(Ok(()))));
    assert_eq!(m.state, MigrateState::Over { rows: 10, left: 0 });
    assert_eq!(sqls(&ran(counted.next(row(3)))), ["RELEASE migration_chunk"]);
    assert!(matches!(counted.next(Event::Ran), Action::Stop(Ok(()))));
    assert_eq!(counted.state, MigrateState::Over { rows: 10, left: 3 });
    let mut empty = at(MigrateState::Rows { estimate: 4 });
    assert_eq!(sqls(&ran(empty.next(row(0)))), [DROP_ROWS]);
    assert_eq!(ran(empty.next(Event::Ran)).len(), 4);
    let mut idle = at(MigrateState::Progress);
    assert!(matches!(idle.next(none()), Action::Stop(Ok(()))));
    assert_eq!(idle.state, MigrateState::Over { rows: 0, left: 0 });
}

#[test]
fn failed_step_of_a_migration() {
    let t = table(&["a"], false, false, true);
    let mut m = Migrate { t: &t, chunk_size: 100, ts: 50, state: MigrateState::Steps { estimate: 9, rows: 9 } };
    assert_eq!(sqls(&ran(m.next(Event::Failed(ResultCode::NOMEM)))), [DROP_ROWS]);
    assert_eq!(
        sqls(&ran(m.next(Event::Ran))),
        ["ROLLBACK TO migration_chunk", "RELEASE migration_chunk"]
    );
    match m.next(Event::Failed(ResultCode::ERROR)) {
        Action::Stop(Err(e)) => assert_eq!(e.code, ResultCode::NOMEM),
        _ => panic!("no failure"),
    }
    let mut early = Migrate { t: &t, chunk_size: 100, ts: 50, state: MigrateState::Begun { start: 1 } };
    match early.next(Event::Failed(ResultCode::ERROR)) {
        Action::Stop(Err(e)) => assert_eq!(e.code, ResultCode::ERROR),
        _ => panic!("no failure"),
    }
}

#[test]
fn step_of_a_clean_up() {
    let name = "t".to_string();
    let suffixes = v1_suffixes();
    let mut c = Cleanup::new(&name, 5, &suffixes);
    assert_eq!(sqls(&ran(c.next(Event::Begin))), ["SAVEPOINT cleanup_chunk"]);
    let (sql, binds) = asked(c.next(Event::Ran));
    assert_eq!((sql.as_str(), binds), (GET, vec![text("cleanup_remaining_t")]));
    assert_eq!(asked(c.next(none())).0, count_rows("t", "__crsql_clock"));
    assert_eq!(asked(c.next(row(6))).0, count_rows("t", "__crsql_pks"));
    let plan = ran(c.next(row(3)));
    assert_eq!(plan[0].binds, [text("cleanup_remaining_t"), ColumnValue::Integer(9)]);
    assert_eq!(sqls(&ran(c.next(Event::Ran))), [delete_chunk("t", "__crsql_clock", 5)]);
    assert_eq!(sqls(&ran(c.next(row(5)))), [delete_chunk("t", "__crsql_pks", 5)]);
    let mut over = c;
    assert_eq!(sqls(&ran(c.next(row(3)))), ["RELEASE cleanup_chunk"]);
    assert!(matches!(c.next(Event::Ran), Action::Stop(Ok(()))));
    assert_eq!(c.state, CleanState::Over { left: 1 });
    assert_eq!(asked(over.next(row(4))).0, count_rows("t", "__crsql_clock"));
    assert_eq!(asked(over.next(row(1))).0, count_rows("t", "__crsql_pks"));
    let plan = ran(over.next(row(1)));
    assert_eq!(plan[0].binds, [text("cleanup_remaining_t"), ColumnValue::Integer(11)]);
    assert_eq!(sqls(&ran(over.next(Event::Ran))), ["RELEASE cleanup_chunk"]);
    assert!(matches!(over.next(Event::Ran), Action::Stop(Ok(()))));
    assert_eq!(over.state, CleanState::Over { left: 2 });
}

#[test]
fn last_step_of_a_clean_up() {
    let name = "t".to_string();
    let suffixes = v1_suffixes();
    let mut c = Cleanup {
        table: &name,
        chunk_size: 5,
        suffixes: &suffixes,
        state: CleanState::Deleting { i: 1, total: 9, deleted: 0 },
    };
    let mut failing = c;
    let plan = ran(c.next(row(0)));
    assert_eq!(
        sqls(&plan),
        [
            drop_metadata("t", "__crsql_clock").as_str(),
            drop_metadata("t", "__crsql_pks").as_str(),
            CLEAR,
        ]
    );
    assert_eq!(sqls(&ran(c.next(Event::Ran))), ["RELEASE cleanup_chunk"]);
    c.next(Event::Ran);
    assert_eq!(c.state, CleanState::Over { left: 0 });
    assert_eq!(sqls(&ran(failing.next(Event::Failed(ResultCode::ABORT)))), ["ROLLBACK"]);
    match failing.next(Event::Ran) {
        Action::Stop(Err(e)) => assert_eq!(e.code, ResultCode::ABORT),
        _ => panic!("no failure"),
    }
}

fn listed(action: Action) -> (String, Vec<ColumnValue>) {
    match action {
        Action::AskTexts(s) => (s.sql, s.binds),
        _ => panic!("no list"),
    }
}

fn keys(names: &[&str]) -> Event {
    Event::Texts(names.iter().map(|n| n.to_string()).collect())
}

fn upkeep(tables: &[TableInfo], chunk_size: i32) -> Upkeep<'_> {
    let mut e = ExtData { timestamp: 50, ..ext() };
    let m = Maintenance::incremental_maintenance(&mut e, chunk_size).unwrap();
    let mut u = Upkeep::new(tables, m, chunk_size, e.timestamp);
    let (sql, binds) = listed(u.next(Event::Begin));
    assert_eq!(sql, "SELECT key FROM crsql_master WHERE key LIKE ?\0");
    assert_eq!(binds, [text("cleanup_v1_tables_%")]);
    u
}

/// Through the clean-ups, where there are none.
fn no_cleanups(u: &mut Upkeep<'_>) -> Action {
    assert_eq!(listed(u.next(keys(&[]))).1, [text("cleanup_v2_tables_%")]);
    u.next(keys(&[]))
}

#[test]
fn maintenance_with_nothing_to_do() {
    let mut only_v2 = table(&["a"], false, false, true);
    only_v2.schema_version = SchemaVersion::V2;
    let tables = [only_v2];
    let mut u = upkeep(&tables, 10);
    assert_eq!(asked(no_cleanups(&mut u)).0, CLEANUP_PENDING_SQL);
    assert_eq!(asked(u.next(row(0))).0, MIGRATION_PENDING_SQL);
    assert!(matches!(u.next(row(0)), Action::Stop(Ok(()))));
    assert_eq!(crsql_incremental_maintenance(u.state), 0);
}

#[test]
fn tasks_that_are_queued_are_not_done() {
    let mut u = upkeep(&[], 10);
    no_cleanups(&mut u);
    u.next(row(0));
    u.next(row(2));
    assert_eq!(crsql_incremental_maintenance(u.state), 2);
    let mut u = upkeep(&[], 10);
    no_cleanups(&mut u);
    u.next(row(3));
    u.next(row(2));
    assert_eq!(crsql_incremental_maintenance(u.state), 5);
}

#[test]
fn clean_ups_come_first() {
    let mut u = upkeep(&[], 5);
    let begin = u.next(keys(&["cleanup_v1_tables_foo", "other", "cleanup_v1_tables_bar"]));
    assert_eq!(sqls(&ran(begin)), ["SAVEPOINT cleanup_chunk"]);
    assert_eq!(u.names, ["foo", "bar"]);
    assert_eq!(asked(u.next(Event::Ran)).1, [text("cleanup_remaining_foo")]);
    assert_eq!(sqls(&ran(u.next(row(9)))), [delete_chunk("foo", "__crsql_clock", 5)]);
    assert_eq!(sqls(&ran(u.next(row(0)))), [delete_chunk("foo", "__crsql_pks", 5)]);
    assert_eq!(ran(u.next(row(0))).len(), 3);
    assert_eq!(sqls(&ran(u.next(Event::Ran))), ["RELEASE cleanup_chunk"]);
    let plan = ran(u.next(Event::Ran));
    assert_eq!(sqls(&plan), [CLEAR]);
    assert_eq!(plan[0].binds, [text("cleanup_v1_tables_foo")]);
    assert_eq!(sqls(&ran(u.next(Event::Ran))), ["SAVEPOINT cleanup_chunk"]);
    assert_eq!(asked(u.next(Event::Ran)).1, [text("cleanup_remaining_bar")]);
    u.next(row(9));
    u.next(row(5));
    assert_eq!(sqls(&ran(u.next(row(1)))), ["RELEASE cleanup_chunk"]);
    assert_eq!(listed(u.next(Event::Ran)).1, [text("cleanup_v2_tables_%")]);
    assert_eq!(u.m.remaining, 3);
    assert!(matches!(u.next(keys(&[])), Action::Stop(Ok(()))));
    assert_eq!(crsql_incremental_maintenance(u.state), 3);
}

#[test]
fn numbers_of_rows_that_fit() {
    let mut u = upkeep(&[], 5);
    u.next(keys(&["cleanup_v1_tables_foo"]));
    assert!(u.can_take(&Event::Ran));
    u.next(Event::Ran);
    u.next(row(9));
    assert!(u.can_take(&row(9)));
    assert!(!u.can_take(&row(-1)));
    u.next(row(1));
    assert!(!u.can_take(&row(i64::MAX)));
    assert!(u.can_take(&row(i64::MAX - 1)));
    let t = table(&["a"], false, false, true);
    let m = Migrate { t: &t, chunk_size: 9, ts: 50, state: MigrateState::Rows { estimate: -2 } };
    assert!(m.can_take(&row(i64::MAX - 1)));
    assert!(!m.can_take(&row(i64::MAX)) && !m.can_take(&row(-1)));
    let name = "t".to_string();
    let suffixes = v1_suffixes();
    let c = Cleanup { table: &name, chunk_size: 5, suffixes: &suffixes, state: CleanState::Counting { i: 0, sum: 1 } };
    assert!(c.can_take(&row(4)) && !c.can_take(&row(i64::MAX)));
}

#[test]
fn failed_clean_ups_end_the_call() {
    let mut u = upkeep(&[], 5);
    u.next(keys(&["cleanup_v1_tables_foo"]));
    u.next(Event::Ran);
    assert_eq!(sqls(&ran(u.next(Event::Failed(ResultCode::ABORT)))), ["ROLLBACK"]);
    match u.next(Event::Ran) {
        Action::Stop(Err(e)) => assert_eq!(e.code, ResultCode::ABORT),
        _ => panic!("no failure"),
    }
    assert_eq!(crsql_incremental_maintenance(u.state), -1);
}

#[test]
fn failed_migrations_are_counted() {
    let mut first = table(&["a"], false, false, true);
    first.tbl_name = "first".to_string();
    first.schema_version = SchemaVersion::V1;
    let mut second = table(&["a"], false, false, true);
    second.tbl_name = "second".to_string();
    let tables = [first, second];
    let mut u = upkeep(&tables, 10);
    assert_eq!(asked(no_cleanups(&mut u)).0, has_v2_tables("first"));
    let plan = ran(u.next(none()));
    assert_eq!(sqls(&plan), sqls(&create_v2_tables(&tables[0])));
    assert_eq!(asked(u.next(Event::Ran)).1, [text("migration_v1_to_v2_migration_first")]);
    assert_eq!(sqls(&ran(u.next(row(0)))), ["SAVEPOINT migration_chunk"]);
    let (sql, _) = asked(u.next(Event::Failed(ResultCode::ERROR)));
    assert_eq!(sql, has_v2_tables("second"));
    assert_eq!((u.m.budget, u.m.remaining), (10, 1));
    assert_eq!(asked(u.next(row(1))).1, [text("migration_v1_to_v2_migration_second")]);
    assert!(matches!(u.next(none()), Action::Stop(Ok(()))));
    assert_eq!(crsql_incremental_maintenance(u.state), 1);
}

#[test]
fn tables_beyond_the_budget_are_counted() {
    let tables = [table(&["a"], false, false, true)];
    for (estimate, counted, left) in [(Some(4), None, 4), (Some(0), None, 1), (None, Some(6), 6), (None, None, 1)] {
        let mut u = upkeep(&tables, 0);
        no_cleanups(&mut u);
        assert_eq!(asked(u.next(row(1))).1, [text("migration_v1_to_v2_migration_my\"tbl")]);
        assert_eq!(asked(u.next(row(7))).1, [text("migration_v1_to_v2_remaining_my\"tbl")]);
        match estimate {
            Some(n) => {
                u.next(row(n));
            }
            None => {
                assert_eq!(asked(u.next(none())).0, count_left(&tables[0], 7));
                u.next(counted.map_or(none(), row));
            }
        }
        assert_eq!(crsql_incremental_maintenance(u.state), left);
    }
    let mut u = upkeep(&tables, 0);
    no_cleanups(&mut u);
    u.next(row(1));
    assert_eq!(asked(u.next(none())).0, CLEANUP_PENDING_SQL);
    let mut u = upkeep(&tables, 0);
    no_cleanups(&mut u);
    assert_eq!(asked(u.next(none())).0, CLEANUP_PENDING_SQL);
}
