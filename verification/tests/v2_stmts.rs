use crsql::result_code::ResultCode;
use crsql::tableinfo::{ColumnInfo, SchemaVersion, TableInfo};
use crsql::v2_stmts::{pk_cols_and_values, v2_pks_insert_sql, V2Stmts};
use std::collections::BTreeMap;

fn col(name: &str, col_type: &str, pk: i32) -> ColumnInfo {
    ColumnInfo { cid: 0, name: name.to_string(), col_type: col_type.to_string(), pk }
}

fn table(pks: &[&str], version: SchemaVersion, rowid: bool, int_pk: bool, skip_hash: bool) -> TableInfo {
    TableInfo {
        tbl_name: "my\"tbl".to_string(),
        pks: pks.iter().map(|p| col(p, "INTEGER", 1)).collect(),
        non_pks: vec![col("x", "TEXT", 0), col("y\"z", "TEXT", 0)],
        schema_version: version,
        key_is_rowid: rowid,
        has_integer_pk: int_pk,
        rowid_alias: "ro\"w".to_string(),
        skip_hash,
        skip_hash_pk_col: if skip_hash { pks[0].to_string() } else { String::new() },
        cl_cache: BTreeMap::new(),
    }
}

#[test]
fn v2_statements_hash_both_formats() {
    let t = table(&["a", "b\"c"], SchemaVersion::V2AndV1, false, false, false);
    let s = V2Stmts::prepare(&t, 1);
    assert_eq!(s.lookup_row_state(), "SELECT __crsql_key, cl FROM \"my\"\"tbl__crsql_v2_pks\" WHERE hashed_pk = ? UNION ALL SELECT NULL, cl FROM \"my\"\"tbl__crsql_v2_tombstones\" WHERE hashed_pk = ? LIMIT 1");
    assert_eq!(s.pks_delete(), "DELETE FROM \"my\"\"tbl__crsql_v2_pks\" WHERE __crsql_key = ?");
    assert_eq!(s.tomb_delete(), "DELETE FROM \"my\"\"tbl__crsql_v2_tombstones\" WHERE hashed_pk = ?");
    assert_eq!(s.tomb_insert(), "INSERT OR REPLACE INTO \"my\"\"tbl__crsql_v2_tombstones\" (site_id, db_version, seq, \"hashed_pk\", cl, ts) VALUES (?, ?, ?, ?, ?, ?)");
    assert_eq!(s.tomb_upsert(), "INSERT INTO \"my\"\"tbl__crsql_v2_tombstones\" (site_id, db_version, seq, hashed_pk, cl, ts) VALUES (?, ?, ?, ?, ?, ?) ON CONFLICT(hashed_pk) DO UPDATE SET site_id = excluded.site_id, db_version = excluded.db_version, seq = excluded.seq, cl = excluded.cl, ts = excluded.ts WHERE excluded.cl > \"my\"\"tbl__crsql_v2_tombstones\".cl OR (excluded.cl = \"my\"\"tbl__crsql_v2_tombstones\".cl AND ? > (SELECT site_id FROM crsql_site_id WHERE ordinal = \"my\"\"tbl__crsql_v2_tombstones\".site_id))");
    assert_eq!(s.clock_insert(), "INSERT OR REPLACE INTO \"my\"\"tbl__crsql_v2_clock\" (cell_key, col_version, site_id, db_version, seq, ts) VALUES (?, 1, 0, ?, ?, ?)");
    assert_eq!(s.clock_upsert(), "INSERT OR REPLACE INTO \"my\"\"tbl__crsql_v2_clock\" (cell_key, col_version, site_id, db_version, seq, ts) VALUES (?, COALESCE((SELECT col_version + 1 FROM \"my\"\"tbl__crsql_v2_clock\" WHERE cell_key = ?), 1), 0, ?, ?, ?)");
    assert_eq!(s.clock_delete_range(), "DELETE FROM \"my\"\"tbl__crsql_v2_clock\" WHERE cell_key >= ? AND cell_key <= ?");
    assert_eq!(s.clock_zero_fill(), "INSERT INTO \"my\"\"tbl__crsql_v2_clock\" (cell_key, col_version, site_id, db_version, seq, ts) SELECT ? + col_id, 0, ?, ?, 0, crsql_get_ts() FROM \"my\"\"tbl__crsql_v2_col_map\"");
    assert_eq!(s.col_id_lookup(), "SELECT col_id FROM \"my\"\"tbl__crsql_v2_col_map\" WHERE col_name = ?");
    assert_eq!(s.col_ids_all(), "SELECT col_id FROM \"my\"\"tbl__crsql_v2_col_map\" ORDER BY col_id");
    assert_eq!(s.base_insert(), "INSERT INTO \"my\"\"tbl\" (\"a\", \"b\"\"c\") VALUES (?, ?)");
    assert_eq!(s.base_delete_rowid(), "DELETE FROM \"my\"\"tbl\" WHERE \"ro\"\"w\" = ?");
    assert_eq!(s.pk_lookup_by_key(), "SELECT a, b\"\"c FROM \"my\"\"tbl__crsql_v2_pks\" WHERE __crsql_key = ?");
    assert_eq!(s.pks_insert(), "INSERT INTO \"my\"\"tbl__crsql_v2_pks\" (\"a\", \"b\"\"c\", hashed_pk, cl) VALUES (?, ?, ?, ?) RETURNING __crsql_key");
    assert_eq!(s.tomb_pks_delete(), Ok("DELETE FROM \"my\"\"tbl__crsql_v2_tombstone_pks\" WHERE hashed_pk = ?"));
    assert_eq!(s.tomb_pks_insert(), Ok("INSERT OR REPLACE INTO \"my\"\"tbl__crsql_v2_tombstone_pks\" (hashed_pk, \"a\", \"b\"\"c\") VALUES (?, ?, ?)"));
    assert_eq!(s.base_delete_nonrowid(), Ok("DELETE FROM \"my\"\"tbl\" WHERE \"a\" = ? AND \"b\"\"c\" = ?"));
    assert_eq!(s.base_lookup_rowid(), Err(ResultCode::ERROR));
    assert_eq!(s.v1_sentinel_lookup(), Ok("SELECT col_version FROM \"my\"\"tbl__crsql_clock\" WHERE key = ? AND col_name = '-1'"));
    assert_eq!(s.v1_any_clock_lookup(), Ok("SELECT 1 FROM \"my\"\"tbl__crsql_clock\" WHERE key = ? LIMIT 1"));
    assert_eq!(s.v1_sentinel_detail(), Ok("SELECT site_id, db_version, seq, ts FROM \"my\"\"tbl__crsql_clock\" WHERE key = ? AND col_name = '-1'"));
    assert_eq!(s.v1_clock_delete(), Ok("DELETE FROM \"my\"\"tbl__crsql_clock\" WHERE key = ?"));
    assert_eq!(s.v1_sentinel_insert_alive(), Ok("INSERT INTO \"my\"\"tbl__crsql_clock\" (key, col_name, col_version, db_version, seq, site_id, ts) SELECT ?, '-1', ?, db_version, seq, site_id, CASE WHEN ts > 0 THEN ts ELSE ? END FROM (SELECT site_id, db_version, seq, ts FROM \"my\"\"tbl__crsql_v2_clock\" WHERE cell_key = ?) LIMIT 1"));
    assert_eq!(s.v1_sentinel_insert_dead(), Ok("INSERT INTO \"my\"\"tbl__crsql_clock\" (key, col_name, col_version, db_version, seq, site_id, ts) SELECT ?, '-1', ?, db_version, seq, site_id, CASE WHEN ts > 0 THEN ts ELSE ? END FROM (SELECT site_id, db_version, seq, ts FROM \"my\"\"tbl__crsql_v2_tombstones\" WHERE hashed_pk = ?) LIMIT 1"));
    assert_eq!(s.v1_clock_copy(), Ok("INSERT INTO \"my\"\"tbl__crsql_clock\" (key, col_name, col_version, db_version, seq, site_id, ts) SELECT ?, m.col_name, c.col_version, c.db_version, c.seq, c.site_id, CASE WHEN c.ts > 0 THEN c.ts ELSE ? END FROM \"my\"\"tbl__crsql_v2_clock\" c JOIN \"my\"\"tbl__crsql_v2_col_map\" m ON (c.cell_key & ?) = m.col_id WHERE c.cell_key >= ? AND c.cell_key <= ?"));
    assert_eq!(s.hydrate_clock_copy(), Ok("INSERT INTO \"my\"\"tbl__crsql_v2_clock\" (cell_key, col_version, site_id, db_version, seq, ts) SELECT (? << 12 | m.col_id), c.col_version, c.site_id, c.db_version, c.seq, CASE WHEN c.ts > 0 THEN c.ts ELSE ? END FROM \"my\"\"tbl__crsql_clock\" c JOIN \"my\"\"tbl__crsql_v2_col_map\" m ON c.col_name = m.col_name WHERE c.key = ?"));
    assert_eq!(s.lookup_pks_tomb(), Ok("SELECT a, b\"\"c FROM \"my\"\"tbl__crsql_v2_tombstone_pks\" WHERE hashed_pk = ?"));
    assert_eq!(s.lookup_pks_alive(), Ok("SELECT a, b\"\"c FROM \"my\"\"tbl__crsql_v2_pks\" WHERE hashed_pk = ?"));
    assert_eq!(s.clock_merge_upsert("x"), Ok("INSERT INTO \"my\"\"tbl__crsql_v2_clock\" (cell_key, col_version, site_id, db_version, seq, ts) VALUES (?, ?, ?, ?, ?, ?) ON CONFLICT(cell_key) DO UPDATE SET col_version = excluded.col_version, site_id = excluded.site_id, db_version = excluded.db_version, seq = excluded.seq, ts = excluded.ts WHERE excluded.col_version > col_version OR (excluded.col_version = col_version AND crsql_change_wins(?, (SELECT \"x\" FROM \"my\"\"tbl\" WHERE \"a\" = ? AND \"b\"\"c\" = ?), ? > (SELECT site_id FROM crsql_site_id WHERE ordinal = \"my\"\"tbl__crsql_v2_clock\".site_id), ?)) RETURNING cell_key"));
    assert_eq!(s.base_update("x"), Ok("UPDATE \"my\"\"tbl\" SET \"x\" = ? WHERE \"a\" = ? AND \"b\"\"c\" = ?"));
    assert_eq!(s.clock_merge_upsert("y\"z"), Ok("INSERT INTO \"my\"\"tbl__crsql_v2_clock\" (cell_key, col_version, site_id, db_version, seq, ts) VALUES (?, ?, ?, ?, ?, ?) ON CONFLICT(cell_key) DO UPDATE SET col_version = excluded.col_version, site_id = excluded.site_id, db_version = excluded.db_version, seq = excluded.seq, ts = excluded.ts WHERE excluded.col_version > col_version OR (excluded.col_version = col_version AND crsql_change_wins(?, (SELECT \"y\"\"z\" FROM \"my\"\"tbl\" WHERE \"a\" = ? AND \"b\"\"c\" = ?), ? > (SELECT site_id FROM crsql_site_id WHERE ordinal = \"my\"\"tbl__crsql_v2_clock\".site_id), ?)) RETURNING cell_key"));
    assert_eq!(s.base_update("y\"z"), Ok("UPDATE \"my\"\"tbl\" SET \"y\"\"z\" = ? WHERE \"a\" = ? AND \"b\"\"c\" = ?"));
    assert_eq!(s.clock_merge_upsert("nope"), Err(ResultCode::ERROR));
    assert_eq!(s.base_update("nope"), Err(ResultCode::ERROR));
    assert_eq!(s.merge_equal(), 1);
}

#[test]
fn v2_statements_rowid_hash() {
    let t = table(&["a", "b\"c"], SchemaVersion::V2, true, false, false);
    let s = V2Stmts::prepare(&t, 0);
    assert_eq!(s.lookup_row_state(), "SELECT __crsql_key, cl FROM \"my\"\"tbl__crsql_v2_pks\" WHERE hashed_pk = ? UNION ALL SELECT NULL, cl FROM \"my\"\"tbl__crsql_v2_tombstones\" WHERE hashed_pk = ? LIMIT 1");
    assert_eq!(s.pks_delete(), "DELETE FROM \"my\"\"tbl__crsql_v2_pks\" WHERE __crsql_key = ?");
    assert_eq!(s.tomb_delete(), "DELETE FROM \"my\"\"tbl__crsql_v2_tombstones\" WHERE hashed_pk = ?");
    assert_eq!(s.tomb_insert(), "INSERT OR REPLACE INTO \"my\"\"tbl__crsql_v2_tombstones\" (site_id, db_version, seq, \"hashed_pk\", cl, ts) VALUES (?, ?, ?, ?, ?, ?)");
    assert_eq!(s.tomb_upsert(), "INSERT INTO \"my\"\"tbl__crsql_v2_tombstones\" (site_id, db_version, seq, hashed_pk, cl, ts) VALUES (?, ?, ?, ?, ?, ?) ON CONFLICT(hashed_pk) DO UPDATE SET site_id = excluded.site_id, db_version = excluded.db_version, seq = excluded.seq, cl = excluded.cl, ts = excluded.ts WHERE excluded.cl > \"my\"\"tbl__crsql_v2_tombstones\".cl");
    assert_eq!(s.clock_insert(), "INSERT OR REPLACE INTO \"my\"\"tbl__crsql_v2_clock\" (cell_key, col_version, site_id, db_version, seq, ts) VALUES (?, 1, 0, ?, ?, ?)");
    assert_eq!(s.clock_upsert(), "INSERT OR REPLACE INTO \"my\"\"tbl__crsql_v2_clock\" (cell_key, col_version, site_id, db_version, seq, ts) VALUES (?, COALESCE((SELECT col_version + 1 FROM \"my\"\"tbl__crsql_v2_clock\" WHERE cell_key = ?), 1), 0, ?, ?, ?)");
    assert_eq!(s.clock_delete_range(), "DELETE FROM \"my\"\"tbl__crsql_v2_clock\" WHERE cell_key >= ? AND cell_key <= ?");
    assert_eq!(s.clock_zero_fill(), "INSERT INTO \"my\"\"tbl__crsql_v2_clock\" (cell_key, col_version, site_id, db_version, seq, ts) SELECT ? + col_id, 0, ?, ?, 0, crsql_get_ts() FROM \"my\"\"tbl__crsql_v2_col_map\"");
    assert_eq!(s.col_id_lookup(), "SELECT col_id FROM \"my\"\"tbl__crsql_v2_col_map\" WHERE col_name = ?");
    assert_eq!(s.col_ids_all(), "SELECT col_id FROM \"my\"\"tbl__crsql_v2_col_map\" ORDER BY col_id");
    assert_eq!(s.base_insert(), "INSERT INTO \"my\"\"tbl\" (\"a\", \"b\"\"c\") VALUES (?, ?)");
    assert_eq!(s.base_delete_rowid(), "DELETE FROM \"my\"\"tbl\" WHERE \"ro\"\"w\" = ?");
    assert_eq!(s.pk_lookup_by_key(), "SELECT a, b\"\"c FROM \"my\"\"tbl\" WHERE \"ro\"\"w\" = ?");
    assert_eq!(s.pks_insert(), "INSERT INTO \"my\"\"tbl__crsql_v2_pks\" (__crsql_key, hashed_pk, cl) VALUES (?, ?, ?) RETURNING __crsql_key");
    assert_eq!(s.tomb_pks_delete(), Ok("DELETE FROM \"my\"\"tbl__crsql_v2_tombstone_pks\" WHERE hashed_pk = ?"));
    assert_eq!(s.tomb_pks_insert(), Ok("INSERT OR REPLACE INTO \"my\"\"tbl__crsql_v2_tombstone_pks\" (hashed_pk, \"a\", \"b\"\"c\") VALUES (?, ?, ?)"));
    assert_eq!(s.base_delete_nonrowid(), Err(ResultCode::ERROR));
    assert_eq!(s.base_lookup_rowid(), Ok("SELECT \"ro\"\"w\" FROM \"my\"\"tbl\" WHERE \"a\" = ? AND \"b\"\"c\" = ?"));
    assert_eq!(s.v1_sentinel_lookup(), Err(ResultCode::ERROR));
    assert_eq!(s.v1_any_clock_lookup(), Err(ResultCode::ERROR));
    assert_eq!(s.v1_sentinel_detail(), Err(ResultCode::ERROR));
    assert_eq!(s.v1_clock_delete(), Err(ResultCode::ERROR));
    assert_eq!(s.v1_sentinel_insert_alive(), Err(ResultCode::ERROR));
    assert_eq!(s.v1_sentinel_insert_dead(), Err(ResultCode::ERROR));
    assert_eq!(s.v1_clock_copy(), Err(ResultCode::ERROR));
    assert_eq!(s.hydrate_clock_copy(), Err(ResultCode::ERROR));
    assert_eq!(s.lookup_pks_tomb(), Ok("SELECT a, b\"\"c FROM \"my\"\"tbl__crsql_v2_tombstone_pks\" WHERE hashed_pk = ?"));
    assert_eq!(s.lookup_pks_alive(), Ok("SELECT t.a, t.b\"\"c FROM \"my\"\"tbl__crsql_v2_pks\" p JOIN \"my\"\"tbl\" t ON t.\"ro\"\"w\" = p.__crsql_key WHERE p.hashed_pk = ?"));
    assert_eq!(s.clock_merge_upsert("x"), Ok("INSERT INTO \"my\"\"tbl__crsql_v2_clock\" (cell_key, col_version, site_id, db_version, seq, ts) VALUES (?, ?, ?, ?, ?, ?) ON CONFLICT(cell_key) DO UPDATE SET col_version = excluded.col_version, site_id = excluded.site_id, db_version = excluded.db_version, seq = excluded.seq, ts = excluded.ts WHERE excluded.col_version > col_version OR (excluded.col_version = col_version AND crsql_change_wins(?, (SELECT \"x\" FROM \"my\"\"tbl\" WHERE \"ro\"\"w\" = ?), ? > (SELECT site_id FROM crsql_site_id WHERE ordinal = \"my\"\"tbl__crsql_v2_clock\".site_id), ?)) RETURNING cell_key"));
    assert_eq!(s.base_update("x"), Ok("UPDATE \"my\"\"tbl\" SET \"x\" = ? WHERE \"ro\"\"w\" = ?"));
    assert_eq!(s.clock_merge_upsert("y\"z"), Ok("INSERT INTO \"my\"\"tbl__crsql_v2_clock\" (cell_key, col_version, site_id, db_version, seq, ts) VALUES (?, ?, ?, ?, ?, ?) ON CONFLICT(cell_key) DO UPDATE SET col_version = excluded.col_version, site_id = excluded.site_id, db_version = excluded.db_version, seq = excluded.seq, ts = excluded.ts WHERE excluded.col_version > col_version OR (excluded.col_version = col_version AND crsql_change_wins(?, (SELECT \"y\"\"z\" FROM \"my\"\"tbl\" WHERE \"ro\"\"w\" = ?), ? > (SELECT site_id FROM crsql_site_id WHERE ordinal = \"my\"\"tbl__crsql_v2_clock\".site_id), ?)) RETURNING cell_key"));
    assert_eq!(s.base_update("y\"z"), Ok("UPDATE \"my\"\"tbl\" SET \"y\"\"z\" = ? WHERE \"ro\"\"w\" = ?"));
    assert_eq!(s.clock_merge_upsert("nope"), Err(ResultCode::ERROR));
    assert_eq!(s.base_update("nope"), Err(ResultCode::ERROR));
    assert_eq!(s.merge_equal(), 0);
}

#[test]
fn v2_statements_skip_hash_integer_rowid() {
    let t = table(&["id"], SchemaVersion::V2AndV1, true, true, true);
    let s = V2Stmts::prepare(&t, 1);
    assert_eq!(s.lookup_row_state(), "SELECT __crsql_key, cl FROM \"my\"\"tbl__crsql_v2_pks\" WHERE __crsql_key = ? UNION ALL SELECT NULL, cl FROM \"my\"\"tbl__crsql_v2_tombstones\" WHERE \"id\" = ? LIMIT 1");
    assert_eq!(s.pks_delete(), "DELETE FROM \"my\"\"tbl__crsql_v2_pks\" WHERE __crsql_key = ?");
    assert_eq!(s.tomb_delete(), "DELETE FROM \"my\"\"tbl__crsql_v2_tombstones\" WHERE \"id\" = ?");
    assert_eq!(s.tomb_insert(), "INSERT OR REPLACE INTO \"my\"\"tbl__crsql_v2_tombstones\" (site_id, db_version, seq, \"id\", cl, ts) VALUES (?, ?, ?, ?, ?, ?)");
    assert_eq!(s.tomb_upsert(), "INSERT INTO \"my\"\"tbl__crsql_v2_tombstones\" (site_id, db_version, seq, \"id\", cl, ts) VALUES (?, ?, ?, ?, ?, ?) ON CONFLICT(\"id\") DO UPDATE SET site_id = excluded.site_id, db_version = excluded.db_version, seq = excluded.seq, cl = excluded.cl, ts = excluded.ts WHERE excluded.cl > \"my\"\"tbl__crsql_v2_tombstones\".cl OR (excluded.cl = \"my\"\"tbl__crsql_v2_tombstones\".cl AND ? > (SELECT site_id FROM crsql_site_id WHERE ordinal = \"my\"\"tbl__crsql_v2_tombstones\".site_id))");
    assert_eq!(s.clock_insert(), "INSERT OR REPLACE INTO \"my\"\"tbl__crsql_v2_clock\" (cell_key, col_version, site_id, db_version, seq, ts) VALUES (?, 1, 0, ?, ?, ?)");
    assert_eq!(s.clock_upsert(), "INSERT OR REPLACE INTO \"my\"\"tbl__crsql_v2_clock\" (cell_key, col_version, site_id, db_version, seq, ts) VALUES (?, COALESCE((SELECT col_version + 1 FROM \"my\"\"tbl__crsql_v2_clock\" WHERE cell_key = ?), 1), 0, ?, ?, ?)");
    assert_eq!(s.clock_delete_range(), "DELETE FROM \"my\"\"tbl__crsql_v2_clock\" WHERE cell_key >= ? AND cell_key <= ?");
    assert_eq!(s.clock_zero_fill(), "INSERT INTO \"my\"\"tbl__crsql_v2_clock\" (cell_key, col_version, site_id, db_version, seq, ts) SELECT ? + col_id, 0, ?, ?, 0, crsql_get_ts() FROM \"my\"\"tbl__crsql_v2_col_map\"");
    assert_eq!(s.col_id_lookup(), "SELECT col_id FROM \"my\"\"tbl__crsql_v2_col_map\" WHERE col_name = ?");
    assert_eq!(s.col_ids_all(), "SELECT col_id FROM \"my\"\"tbl__crsql_v2_col_map\" ORDER BY col_id");
    assert_eq!(s.base_insert(), "INSERT INTO \"my\"\"tbl\" (\"id\") VALUES (?)");
    assert_eq!(s.base_delete_rowid(), "DELETE FROM \"my\"\"tbl\" WHERE \"ro\"\"w\" = ?");
    assert_eq!(s.pk_lookup_by_key(), "SELECT id FROM \"my\"\"tbl\" WHERE \"ro\"\"w\" = ?");
    assert_eq!(s.pks_insert(), "INSERT INTO \"my\"\"tbl__crsql_v2_pks\" (__crsql_key, cl) VALUES (?, ?) RETURNING __crsql_key");
    assert_eq!(s.tomb_pks_delete(), Err(ResultCode::ERROR));
    assert_eq!(s.tomb_pks_insert(), Err(ResultCode::ERROR));
    assert_eq!(s.base_delete_nonrowid(), Err(ResultCode::ERROR));
    assert_eq!(s.base_lookup_rowid(), Ok("SELECT \"ro\"\"w\" FROM \"my\"\"tbl\" WHERE \"id\" = ?"));
    assert_eq!(s.v1_sentinel_lookup(), Ok("SELECT col_version FROM \"my\"\"tbl__crsql_clock\" WHERE key = ? AND col_name = '-1'"));
    assert_eq!(s.v1_any_clock_lookup(), Ok("SELECT 1 FROM \"my\"\"tbl__crsql_clock\" WHERE key = ? LIMIT 1"));
    assert_eq!(s.v1_sentinel_detail(), Ok("SELECT site_id, db_version, seq, ts FROM \"my\"\"tbl__crsql_clock\" WHERE key = ? AND col_name = '-1'"));
    assert_eq!(s.v1_clock_delete(), Ok("DELETE FROM \"my\"\"tbl__crsql_clock\" WHERE key = ?"));
    assert_eq!(s.v1_sentinel_insert_alive(), Ok("INSERT INTO \"my\"\"tbl__crsql_clock\" (key, col_name, col_version, db_version, seq, site_id, ts) SELECT ?, '-1', ?, db_version, seq, site_id, CASE WHEN ts > 0 THEN ts ELSE ? END FROM (SELECT site_id, db_version, seq, ts FROM \"my\"\"tbl__crsql_v2_clock\" WHERE cell_key = ?) LIMIT 1"));
    assert_eq!(s.v1_sentinel_insert_dead(), Ok("INSERT INTO \"my\"\"tbl__crsql_clock\" (key, col_name, col_version, db_version, seq, site_id, ts) SELECT ?, '-1', ?, db_version, seq, site_id, CASE WHEN ts > 0 THEN ts ELSE ? END FROM (SELECT site_id, db_version, seq, ts FROM \"my\"\"tbl__crsql_v2_tombstones\" WHERE \"id\" = ?) LIMIT 1"));
    assert_eq!(s.v1_clock_copy(), Ok("INSERT INTO \"my\"\"tbl__crsql_clock\" (key, col_name, col_version, db_version, seq, site_id, ts) SELECT ?, m.col_name, c.col_version, c.db_version, c.seq, c.site_id, CASE WHEN c.ts > 0 THEN c.ts ELSE ? END FROM \"my\"\"tbl__crsql_v2_clock\" c JOIN \"my\"\"tbl__crsql_v2_col_map\" m ON (c.cell_key & ?) = m.col_id WHERE c.cell_key >= ? AND c.cell_key <= ?"));
    assert_eq!(s.hydrate_clock_copy(), Ok("INSERT INTO \"my\"\"tbl__crsql_v2_clock\" (cell_key, col_version, site_id, db_version, seq, ts) SELECT (? << 12 | m.col_id), c.col_version, c.site_id, c.db_version, c.seq, CASE WHEN c.ts > 0 THEN c.ts ELSE ? END FROM \"my\"\"tbl__crsql_clock\" c JOIN \"my\"\"tbl__crsql_v2_col_map\" m ON c.col_name = m.col_name WHERE c.key = ?"));
    assert_eq!(s.lookup_pks_tomb(), Err(ResultCode::ERROR));
    assert_eq!(s.lookup_pks_alive(), Err(ResultCode::ERROR));
    assert_eq!(s.clock_merge_upsert("x"), Ok("INSERT INTO \"my\"\"tbl__crsql_v2_clock\" (cell_key, col_version, site_id, db_version, seq, ts) VALUES (?, ?, ?, ?, ?, ?) ON CONFLICT(cell_key) DO UPDATE SET col_version = excluded.col_version, site_id = excluded.site_id, db_version = excluded.db_version, seq = excluded.seq, ts = excluded.ts WHERE excluded.col_version > col_version OR (excluded.col_version = col_version AND crsql_change_wins(?, (SELECT \"x\" FROM \"my\"\"tbl\" WHERE \"ro\"\"w\" = ?), ? > (SELECT site_id FROM crsql_site_id WHERE ordinal = \"my\"\"tbl__crsql_v2_clock\".site_id), ?)) RETURNING cell_key"));
    assert_eq!(s.base_update("x"), Ok("UPDATE \"my\"\"tbl\" SET \"x\" = ? WHERE \"ro\"\"w\" = ?"));
    assert_eq!(s.clock_merge_upsert("y\"z"), Ok("INSERT INTO \"my\"\"tbl__crsql_v2_clock\" (cell_key, col_version, site_id, db_version, seq, ts) VALUES (?, ?, ?, ?, ?, ?) ON CONFLICT(cell_key) DO UPDATE SET col_version = excluded.col_version, site_id = excluded.site_id, db_version = excluded.db_version, seq = excluded.seq, ts = excluded.ts WHERE excluded.col_version > col_version OR (excluded.col_version = col_version AND crsql_change_wins(?, (SELECT \"y\"\"z\" FROM \"my\"\"tbl\" WHERE \"ro\"\"w\" = ?), ? > (SELECT site_id FROM crsql_site_id WHERE ordinal = \"my\"\"tbl__crsql_v2_clock\".site_id), ?)) RETURNING cell_key"));
    assert_eq!(s.base_update("y\"z"), Ok("UPDATE \"my\"\"tbl\" SET \"y\"\"z\" = ? WHERE \"ro\"\"w\" = ?"));
    assert_eq!(s.clock_merge_upsert("nope"), Err(ResultCode::ERROR));
    assert_eq!(s.base_update("nope"), Err(ResultCode::ERROR));
    assert_eq!(s.merge_equal(), 1);
}

#[test]
fn v2_statements_skip_hash_plain() {
    let t = table(&["id"], SchemaVersion::V2, false, false, true);
    let s = V2Stmts::prepare(&t, 0);
    assert_eq!(s.lookup_row_state(), "SELECT __crsql_key, cl FROM \"my\"\"tbl__crsql_v2_pks\" WHERE \"id\" = ? UNION ALL SELECT NULL, cl FROM \"my\"\"tbl__crsql_v2_tombstones\" WHERE \"id\" = ? LIMIT 1");
    assert_eq!(s.pks_delete(), "DELETE FROM \"my\"\"tbl__crsql_v2_pks\" WHERE __crsql_key = ?");
    assert_eq!(s.tomb_delete(), "DELETE FROM \"my\"\"tbl__crsql_v2_tombstones\" WHERE \"id\" = ?");
    assert_eq!(s.tomb_insert(), "INSERT OR REPLACE INTO \"my\"\"tbl__crsql_v2_tombstones\" (site_id, db_version, seq, \"id\", cl, ts) VALUES (?, ?, ?, ?, ?, ?)");
    assert_eq!(s.tomb_upsert(), "INSERT INTO \"my\"\"tbl__crsql_v2_tombstones\" (site_id, db_version, seq, \"id\", cl, ts) VALUES (?, ?, ?, ?, ?, ?) ON CONFLICT(\"id\") DO UPDATE SET site_id = excluded.site_id, db_version = excluded.db_version, seq = excluded.seq, cl = excluded.cl, ts = excluded.ts WHERE excluded.cl > \"my\"\"tbl__crsql_v2_tombstones\".cl");
    assert_eq!(s.clock_insert(), "INSERT OR REPLACE INTO \"my\"\"tbl__crsql_v2_clock\" (cell_key, col_version, site_id, db_version, seq, ts) VALUES (?, 1, 0, ?, ?, ?)");
    assert_eq!(s.clock_upsert(), "INSERT OR REPLACE INTO \"my\"\"tbl__crsql_v2_clock\" (cell_key, col_version, site_id, db_version, seq, ts) VALUES (?, COALESCE((SELECT col_version + 1 FROM \"my\"\"tbl__crsql_v2_clock\" WHERE cell_key = ?), 1), 0, ?, ?, ?)");
    assert_eq!(s.clock_delete_range(), "DELETE FROM \"my\"\"tbl__crsql_v2_clock\" WHERE cell_key >= ? AND cell_key <= ?");
    assert_eq!(s.clock_zero_fill(), "INSERT INTO \"my\"\"tbl__crsql_v2_clock\" (cell_key, col_version, site_id, db_version, seq, ts) SELECT ? + col_id, 0, ?, ?, 0, crsql_get_ts() FROM \"my\"\"tbl__crsql_v2_col_map\"");
    assert_eq!(s.col_id_lookup(), "SELECT col_id FROM \"my\"\"tbl__crsql_v2_col_map\" WHERE col_name = ?");
    assert_eq!(s.col_ids_all(), "SELECT col_id FROM \"my\"\"tbl__crsql_v2_col_map\" ORDER BY col_id");
    assert_eq!(s.base_insert(), "INSERT INTO \"my\"\"tbl\" (\"id\") VALUES (?)");
    assert_eq!(s.base_delete_rowid(), "DELETE FROM \"my\"\"tbl\" WHERE \"ro\"\"w\" = ?");
    assert_eq!(s.pk_lookup_by_key(), "SELECT id FROM \"my\"\"tbl__crsql_v2_pks\" WHERE __crsql_key = ?");
    assert_eq!(s.pks_insert(), "INSERT INTO \"my\"\"tbl__crsql_v2_pks\" (\"id\", cl) VALUES (?, ?) RETURNING __crsql_key");
    assert_eq!(s.tomb_pks_delete(), Err(ResultCode::ERROR));
    assert_eq!(s.tomb_pks_insert(), Err(ResultCode::ERROR));
    assert_eq!(s.base_delete_nonrowid(), Ok("DELETE FROM \"my\"\"tbl\" WHERE \"id\" = ?"));
    assert_eq!(s.base_lookup_rowid(), Err(ResultCode::ERROR));
    assert_eq!(s.v1_sentinel_lookup(), Err(ResultCode::ERROR));
    assert_eq!(s.v1_any_clock_lookup(), Err(ResultCode::ERROR));
    assert_eq!(s.v1_sentinel_detail(), Err(ResultCode::ERROR));
    assert_eq!(s.v1_clock_delete(), Err(ResultCode::ERROR));
    assert_eq!(s.v1_sentinel_insert_alive(), Err(ResultCode::ERROR));
    assert_eq!(s.v1_sentinel_insert_dead(), Err(ResultCode::ERROR));
    assert_eq!(s.v1_clock_copy(), Err(ResultCode::ERROR));
    assert_eq!(s.hydrate_clock_copy(), Err(ResultCode::ERROR));
    assert_eq!(s.lookup_pks_tomb(), Err(ResultCode::ERROR));
    assert_eq!(s.lookup_pks_alive(), Err(ResultCode::ERROR));
    assert_eq!(s.clock_merge_upsert("x"), Ok("INSERT INTO \"my\"\"tbl__crsql_v2_clock\" (cell_key, col_version, site_id, db_version, seq, ts) VALUES (?, ?, ?, ?, ?, ?) ON CONFLICT(cell_key) DO UPDATE SET col_version = excluded.col_version, site_id = excluded.site_id, db_version = excluded.db_version, seq = excluded.seq, ts = excluded.ts WHERE excluded.col_version > col_version OR (excluded.col_version = col_version AND crsql_change_wins(?, (SELECT \"x\" FROM \"my\"\"tbl\" WHERE \"id\" = ?), ? > (SELECT site_id FROM crsql_site_id WHERE ordinal = \"my\"\"tbl__crsql_v2_clock\".site_id), ?)) RETURNING cell_key"));
    assert_eq!(s.base_update("x"), Ok("UPDATE \"my\"\"tbl\" SET \"x\" = ? WHERE \"id\" = ?"));
    assert_eq!(s.clock_merge_upsert("y\"z"), Ok("INSERT INTO \"my\"\"tbl__crsql_v2_clock\" (cell_key, col_version, site_id, db_version, seq, ts) VALUES (?, ?, ?, ?, ?, ?) ON CONFLICT(cell_key) DO UPDATE SET col_version = excluded.col_version, site_id = excluded.site_id, db_version = excluded.db_version, seq = excluded.seq, ts = excluded.ts WHERE excluded.col_version > col_version OR (excluded.col_version = col_version AND crsql_change_wins(?, (SELECT \"y\"\"z\" FROM \"my\"\"tbl\" WHERE \"id\" = ?), ? > (SELECT site_id FROM crsql_site_id WHERE ordinal = \"my\"\"tbl__crsql_v2_clock\".site_id), ?)) RETURNING cell_key"));
    assert_eq!(s.base_update("y\"z"), Ok("UPDATE \"my\"\"tbl\" SET \"y\"\"z\" = ? WHERE \"id\" = ?"));
    assert_eq!(s.clock_merge_upsert("nope"), Err(ResultCode::ERROR));
    assert_eq!(s.base_update("nope"), Err(ResultCode::ERROR));
    assert_eq!(s.merge_equal(), 0);
}

#[test]
fn v2_statements_skip_hash_rowid_alias() {
    let t = table(&["id"], SchemaVersion::V2AndV1, true, false, true);
    let s = V2Stmts::prepare(&t, 0);
    assert_eq!(s.lookup_row_state(), "SELECT v2p.__crsql_key, v2p.cl FROM \"my\"\"tbl__crsql_v2_pks\" v2p JOIN \"my\"\"tbl\" mt ON mt.\"ro\"\"w\" = v2p.__crsql_key WHERE mt.\"id\" = ? UNION ALL SELECT NULL, t.cl FROM \"my\"\"tbl__crsql_v2_tombstones\" t WHERE t.\"id\" = ? LIMIT 1");
    assert_eq!(s.pks_delete(), "DELETE FROM \"my\"\"tbl__crsql_v2_pks\" WHERE __crsql_key = ?");
    assert_eq!(s.tomb_delete(), "DELETE FROM \"my\"\"tbl__crsql_v2_tombstones\" WHERE \"id\" = ?");
    assert_eq!(s.tomb_insert(), "INSERT OR REPLACE INTO \"my\"\"tbl__crsql_v2_tombstones\" (site_id, db_version, seq, \"id\", cl, ts) VALUES (?, ?, ?, ?, ?, ?)");
    assert_eq!(s.tomb_upsert(), "INSERT INTO \"my\"\"tbl__crsql_v2_tombstones\" (site_id, db_version, seq, \"id\", cl, ts) VALUES (?, ?, ?, ?, ?, ?) ON CONFLICT(\"id\") DO UPDATE SET site_id = excluded.site_id, db_version = excluded.db_version, seq = excluded.seq, cl = excluded.cl, ts = excluded.ts WHERE excluded.cl > \"my\"\"tbl__crsql_v2_tombstones\".cl");
    assert_eq!(s.clock_insert(), "INSERT OR REPLACE INTO \"my\"\"tbl__crsql_v2_clock\" (cell_key, col_version, site_id, db_version, seq, ts) VALUES (?, 1, 0, ?, ?, ?)");
    assert_eq!(s.clock_upsert(), "INSERT OR REPLACE INTO \"my\"\"tbl__crsql_v2_clock\" (cell_key, col_version, site_id, db_version, seq, ts) VALUES (?, COALESCE((SELECT col_version + 1 FROM \"my\"\"tbl__crsql_v2_clock\" WHERE cell_key = ?), 1), 0, ?, ?, ?)");
    assert_eq!(s.clock_delete_range(), "DELETE FROM \"my\"\"tbl__crsql_v2_clock\" WHERE cell_key >= ? AND cell_key <= ?");
    assert_eq!(s.clock_zero_fill(), "INSERT INTO \"my\"\"tbl__crsql_v2_clock\" (cell_key, col_version, site_id, db_version, seq, ts) SELECT ? + col_id, 0, ?, ?, 0, crsql_get_ts() FROM \"my\"\"tbl__crsql_v2_col_map\"");
    assert_eq!(s.col_id_lookup(), "SELECT col_id FROM \"my\"\"tbl__crsql_v2_col_map\" WHERE col_name = ?");
    assert_eq!(s.col_ids_all(), "SELECT col_id FROM \"my\"\"tbl__crsql_v2_col_map\" ORDER BY col_id");
    assert_eq!(s.base_insert(), "INSERT INTO \"my\"\"tbl\" (\"id\") VALUES (?)");
    assert_eq!(s.base_delete_rowid(), "DELETE FROM \"my\"\"tbl\" WHERE \"ro\"\"w\" = ?");
    assert_eq!(s.pk_lookup_by_key(), "SELECT id FROM \"my\"\"tbl\" WHERE \"ro\"\"w\" = ?");
    assert_eq!(s.pks_insert(), "INSERT INTO \"my\"\"tbl__crsql_v2_pks\" (__crsql_key, cl) VALUES (?, ?) RETURNING __crsql_key");
    assert_eq!(s.tomb_pks_delete(), Err(ResultCode::ERROR));
    assert_eq!(s.tomb_pks_insert(), Err(ResultCode::ERROR));
    assert_eq!(s.base_delete_nonrowid(), Err(ResultCode::ERROR));
    assert_eq!(s.base_lookup_rowid(), Ok("SELECT \"ro\"\"w\" FROM \"my\"\"tbl\" WHERE \"id\" = ?"));
    assert_eq!(s.v1_sentinel_lookup(), Ok("SELECT col_version FROM \"my\"\"tbl__crsql_clock\" WHERE key = ? AND col_name = '-1'"));
    assert_eq!(s.v1_any_clock_lookup(), Ok("SELECT 1 FROM \"my\"\"tbl__crsql_clock\" WHERE key = ? LIMIT 1"));
    assert_eq!(s.v1_sentinel_detail(), Ok("SELECT site_id, db_version, seq, ts FROM \"my\"\"tbl__crsql_clock\" WHERE key = ? AND col_name = '-1'"));
    assert_eq!(s.v1_clock_delete(), Ok("DELETE FROM \"my\"\"tbl__crsql_clock\" WHERE key = ?"));
    assert_eq!(s.v1_sentinel_insert_alive(), Ok("INSERT INTO \"my\"\"tbl__crsql_clock\" (key, col_name, col_version, db_version, seq, site_id, ts) SELECT ?, '-1', ?, db_version, seq, site_id, CASE WHEN ts > 0 THEN ts ELSE ? END FROM (SELECT site_id, db_version, seq, ts FROM \"my\"\"tbl__crsql_v2_clock\" WHERE cell_key = ?) LIMIT 1"));
    assert_eq!(s.v1_sentinel_insert_dead(), Ok("INSERT INTO \"my\"\"tbl__crsql_clock\" (key, col_name, col_version, db_version, seq, site_id, ts) SELECT ?, '-1', ?, db_version, seq, site_id, CASE WHEN ts > 0 THEN ts ELSE ? END FROM (SELECT site_id, db_version, seq, ts FROM \"my\"\"tbl__crsql_v2_tombstones\" WHERE \"id\" = ?) LIMIT 1"));
    assert_eq!(s.v1_clock_copy(), Ok("INSERT INTO \"my\"\"tbl__crsql_clock\" (key, col_name, col_version, db_version, seq, site_id, ts) SELECT ?, m.col_name, c.col_version, c.db_version, c.seq, c.site_id, CASE WHEN c.ts > 0 THEN c.ts ELSE ? END FROM \"my\"\"tbl__crsql_v2_clock\" c JOIN \"my\"\"tbl__crsql_v2_col_map\" m ON (c.cell_key & ?) = m.col_id WHERE c.cell_key >= ? AND c.cell_key <= ?"));
    assert_eq!(s.hydrate_clock_copy(), Ok("INSERT INTO \"my\"\"tbl__crsql_v2_clock\" (cell_key, col_version, site_id, db_version, seq, ts) SELECT (? << 12 | m.col_id), c.col_version, c.site_id, c.db_version, c.seq, CASE WHEN c.ts > 0 THEN c.ts ELSE ? END FROM \"my\"\"tbl__crsql_clock\" c JOIN \"my\"\"tbl__crsql_v2_col_map\" m ON c.col_name = m.col_name WHERE c.key = ?"));
    assert_eq!(s.lookup_pks_tomb(), Err(ResultCode::ERROR));
    assert_eq!(s.lookup_pks_alive(), Err(ResultCode::ERROR));
    assert_eq!(s.clock_merge_upsert("x"), Ok("INSERT INTO \"my\"\"tbl__crsql_v2_clock\" (cell_key, col_version, site_id, db_version, seq, ts) VALUES (?, ?, ?, ?, ?, ?) ON CONFLICT(cell_key) DO UPDATE SET col_version = excluded.col_version, site_id = excluded.site_id, db_version = excluded.db_version, seq = excluded.seq, ts = excluded.ts WHERE excluded.col_version > col_version OR (excluded.col_version = col_version AND crsql_change_wins(?, (SELECT \"x\" FROM \"my\"\"tbl\" WHERE \"ro\"\"w\" = ?), ? > (SELECT site_id FROM crsql_site_id WHERE ordinal = \"my\"\"tbl__crsql_v2_clock\".site_id), ?)) RETURNING cell_key"));
    assert_eq!(s.base_update("x"), Ok("UPDATE \"my\"\"tbl\" SET \"x\" = ? WHERE \"ro\"\"w\" = ?"));
    assert_eq!(s.clock_merge_upsert("y\"z"), Ok("INSERT INTO \"my\"\"tbl__crsql_v2_clock\" (cell_key, col_version, site_id, db_version, seq, ts) VALUES (?, ?, ?, ?, ?, ?) ON CONFLICT(cell_key) DO UPDATE SET col_version = excluded.col_version, site_id = excluded.site_id, db_version = excluded.db_version, seq = excluded.seq, ts = excluded.ts WHERE excluded.col_version > col_version OR (excluded.col_version = col_version AND crsql_change_wins(?, (SELECT \"y\"\"z\" FROM \"my\"\"tbl\" WHERE \"ro\"\"w\" = ?), ? > (SELECT site_id FROM crsql_site_id WHERE ordinal = \"my\"\"tbl__crsql_v2_clock\".site_id), ?)) RETURNING cell_key"));
    assert_eq!(s.base_update("y\"z"), Ok("UPDATE \"my\"\"tbl\" SET \"y\"\"z\" = ? WHERE \"ro\"\"w\" = ?"));
    assert_eq!(s.clock_merge_upsert("nope"), Err(ResultCode::ERROR));
    assert_eq!(s.base_update("nope"), Err(ResultCode::ERROR));
    assert_eq!(s.merge_equal(), 0);
}

#[test]
fn v2_statements_hash_rowid_both_formats() {
    let t = table(&["a", "b\"c"], SchemaVersion::V2AndV1, true, true, false);
    let s = V2Stmts::prepare(&t, 0);
    assert_eq!(s.lookup_row_state(), "SELECT __crsql_key, cl FROM \"my\"\"tbl__crsql_v2_pks\" WHERE hashed_pk = ? UNION ALL SELECT NULL, cl FROM \"my\"\"tbl__crsql_v2_tombstones\" WHERE hashed_pk = ? LIMIT 1");
    assert_eq!(s.pks_delete(), "DELETE FROM \"my\"\"tbl__crsql_v2_pks\" WHERE __crsql_key = ?");
    assert_eq!(s.tomb_delete(), "DELETE FROM \"my\"\"tbl__crsql_v2_tombstones\" WHERE hashed_pk = ?");
    assert_eq!(s.tomb_insert(), "INSERT OR REPLACE INTO \"my\"\"tbl__crsql_v2_tombstones\" (site_id, db_version, seq, \"hashed_pk\", cl, ts) VALUES (?, ?, ?, ?, ?, ?)");
    assert_eq!(s.tomb_upsert(), "INSERT INTO \"my\"\"tbl__crsql_v2_tombstones\" (site_id, db_version, seq, hashed_pk, cl, ts) VALUES (?, ?, ?, ?, ?, ?) ON CONFLICT(hashed_pk) DO UPDATE SET site_id = excluded.site_id, db_version = excluded.db_version, seq = excluded.seq, cl = excluded.cl, ts = excluded.ts WHERE excluded.cl > \"my\"\"tbl__crsql_v2_tombstones\".cl");
    assert_eq!(s.clock_insert(), "INSERT OR REPLACE INTO \"my\"\"tbl__crsql_v2_clock\" (cell_key, col_version, site_id, db_version, seq, ts) VALUES (?, 1, 0, ?, ?, ?)");
    assert_eq!(s.clock_upsert(), "INSERT OR REPLACE INTO \"my\"\"tbl__crsql_v2_clock\" (cell_key, col_version, site_id, db_version, seq, ts) VALUES (?, COALESCE((SELECT col_version + 1 FROM \"my\"\"tbl__crsql_v2_clock\" WHERE cell_key = ?), 1), 0, ?, ?, ?)");
    assert_eq!(s.clock_delete_range(), "DELETE FROM \"my\"\"tbl__crsql_v2_clock\" WHERE cell_key >= ? AND cell_key <= ?");
    assert_eq!(s.clock_zero_fill(), "INSERT INTO \"my\"\"tbl__crsql_v2_clock\" (cell_key, col_version, site_id, db_version, seq, ts) SELECT ? + col_id, 0, ?, ?, 0, crsql_get_ts() FROM \"my\"\"tbl__crsql_v2_col_map\"");
    assert_eq!(s.col_id_lookup(), "SELECT col_id FROM \"my\"\"tbl__crsql_v2_col_map\" WHERE col_name = ?");
    assert_eq!(s.col_ids_all(), "SELECT col_id FROM \"my\"\"tbl__crsql_v2_col_map\" ORDER BY col_id");
    assert_eq!(s.base_insert(), "INSERT INTO \"my\"\"tbl\" (\"a\", \"b\"\"c\") VALUES (?, ?)");
    assert_eq!(s.base_delete_rowid(), "DELETE FROM \"my\"\"tbl\" WHERE \"ro\"\"w\" = ?");
    assert_eq!(s.pk_lookup_by_key(), "SELECT a, b\"\"c FROM \"my\"\"tbl\" WHERE \"ro\"\"w\" = ?");
    assert_eq!(s.pks_insert(), "INSERT INTO \"my\"\"tbl__crsql_v2_pks\" (__crsql_key, hashed_pk, cl) VALUES (?, ?, ?) RETURNING __crsql_key");
    assert_eq!(s.tomb_pks_delete(), Ok("DELETE FROM \"my\"\"tbl__crsql_v2_tombstone_pks\" WHERE hashed_pk = ?"));
    assert_eq!(s.tomb_pks_insert(), Ok("INSERT OR REPLACE INTO \"my\"\"tbl__crsql_v2_tombstone_pks\" (hashed_pk, \"a\", \"b\"\"c\") VALUES (?, ?, ?)"));
    assert_eq!(s.base_delete_nonrowid(), Err(ResultCode::ERROR));
    assert_eq!(s.base_lookup_rowid(), Ok("SELECT \"ro\"\"w\" FROM \"my\"\"tbl\" WHERE \"a\" = ? AND \"b\"\"c\" = ?"));
    assert_eq!(s.v1_sentinel_lookup(), Ok("SELECT col_version FROM \"my\"\"tbl__crsql_clock\" WHERE key = ? AND col_name = '-1'"));
    assert_eq!(s.v1_any_clock_lookup(), Ok("SELECT 1 FROM \"my\"\"tbl__crsql_clock\" WHERE key = ? LIMIT 1"));
    assert_eq!(s.v1_sentinel_detail(), Ok("SELECT site_id, db_version, seq, ts FROM \"my\"\"tbl__crsql_clock\" WHERE key = ? AND col_name = '-1'"));
    assert_eq!(s.v1_clock_delete(), Ok("DELETE FROM \"my\"\"tbl__crsql_clock\" WHERE key = ?"));
    assert_eq!(s.v1_sentinel_insert_alive(), Ok("INSERT INTO \"my\"\"tbl__crsql_clock\" (key, col_name, col_version, db_version, seq, site_id, ts) SELECT ?, '-1', ?, db_version, seq, site_id, CASE WHEN ts > 0 THEN ts ELSE ? END FROM (SELECT site_id, db_version, seq, ts FROM \"my\"\"tbl__crsql_v2_clock\" WHERE cell_key = ?) LIMIT 1"));
    assert_eq!(s.v1_sentinel_insert_dead(), Ok("INSERT INTO \"my\"\"tbl__crsql_clock\" (key, col_name, col_version, db_version, seq, site_id, ts) SELECT ?, '-1', ?, db_version, seq, site_id, CASE WHEN ts > 0 THEN ts ELSE ? END FROM (SELECT site_id, db_version, seq, ts FROM \"my\"\"tbl__crsql_v2_tombstones\" WHERE hashed_pk = ?) LIMIT 1"));
    assert_eq!(s.v1_clock_copy(), Ok("INSERT INTO \"my\"\"tbl__crsql_clock\" (key, col_name, col_version, db_version, seq, site_id, ts) SELECT ?, m.col_name, c.col_version, c.db_version, c.seq, c.site_id, CASE WHEN c.ts > 0 THEN c.ts ELSE ? END FROM \"my\"\"tbl__crsql_v2_clock\" c JOIN \"my\"\"tbl__crsql_v2_col_map\" m ON (c.cell_key & ?) = m.col_id WHERE c.cell_key >= ? AND c.cell_key <= ?"));
    assert_eq!(s.hydrate_clock_copy(), Ok("INSERT INTO \"my\"\"tbl__crsql_v2_clock\" (cell_key, col_version, site_id, db_version, seq, ts) SELECT (? << 12 | m.col_id), c.col_version, c.site_id, c.db_version, c.seq, CASE WHEN c.ts > 0 THEN c.ts ELSE ? END FROM \"my\"\"tbl__crsql_clock\" c JOIN \"my\"\"tbl__crsql_v2_col_map\" m ON c.col_name = m.col_name WHERE c.key = ?"));
    assert_eq!(s.lookup_pks_tomb(), Ok("SELECT a, b\"\"c FROM \"my\"\"tbl__crsql_v2_tombstone_pks\" WHERE hashed_pk = ?"));
    assert_eq!(s.lookup_pks_alive(), Ok("SELECT t.a, t.b\"\"c FROM \"my\"\"tbl__crsql_v2_pks\" p JOIN \"my\"\"tbl\" t ON t.\"ro\"\"w\" = p.__crsql_key WHERE p.hashed_pk = ?"));
    assert_eq!(s.clock_merge_upsert("x"), Ok("INSERT INTO \"my\"\"tbl__crsql_v2_clock\" (cell_key, col_version, site_id, db_version, seq, ts) VALUES (?, ?, ?, ?, ?, ?) ON CONFLICT(cell_key) DO UPDATE SET col_version = excluded.col_version, site_id = excluded.site_id, db_version = excluded.db_version, seq = excluded.seq, ts = excluded.ts WHERE excluded.col_version > col_version OR (excluded.col_version = col_version AND crsql_change_wins(?, (SELECT \"x\" FROM \"my\"\"tbl\" WHERE \"ro\"\"w\" = ?), ? > (SELECT site_id FROM crsql_site_id WHERE ordinal = \"my\"\"tbl__crsql_v2_clock\".site_id), ?)) RETURNING cell_key"));
    assert_eq!(s.base_update("x"), Ok("UPDATE \"my\"\"tbl\" SET \"x\" = ? WHERE \"ro\"\"w\" = ?"));
    assert_eq!(s.clock_merge_upsert("y\"z"), Ok("INSERT INTO \"my\"\"tbl__crsql_v2_clock\" (cell_key, col_version, site_id, db_version, seq, ts) VALUES (?, ?, ?, ?, ?, ?) ON CONFLICT(cell_key) DO UPDATE SET col_version = excluded.col_version, site_id = excluded.site_id, db_version = excluded.db_version, seq = excluded.seq, ts = excluded.ts WHERE excluded.col_version > col_version OR (excluded.col_version = col_version AND crsql_change_wins(?, (SELECT \"y\"\"z\" FROM \"my\"\"tbl\" WHERE \"ro\"\"w\" = ?), ? > (SELECT site_id FROM crsql_site_id WHERE ordinal = \"my\"\"tbl__crsql_v2_clock\".site_id), ?)) RETURNING cell_key"));
    assert_eq!(s.base_update("y\"z"), Ok("UPDATE \"my\"\"tbl\" SET \"y\"\"z\" = ? WHERE \"ro\"\"w\" = ?"));
    assert_eq!(s.clock_merge_upsert("nope"), Err(ResultCode::ERROR));
    assert_eq!(s.base_update("nope"), Err(ResultCode::ERROR));
    assert_eq!(s.merge_equal(), 0);
}

#[test]
fn v2_statements_are_made_again_for_another_merge_equal() {
    let t = table(&["a", "b"], SchemaVersion::V2, false, false, false);
    let first = t.get_v2_stmts(None, 0);
    let same = t.get_v2_stmts(Some(first), 0);
    assert_eq!(same.merge_equal(), 0);
    let other = t.get_v2_stmts(Some(same), 1);
    assert_eq!(other.merge_equal(), 1);
    assert!(other.tomb_upsert().contains("AND ? > (SELECT site_id"));
}

#[test]
fn pks_insert_by_hand() {
    assert_eq!(
        v2_pks_insert_sql(false, false, "t", "\"a\", \"b\"", "?, ?", "7"),
        "INSERT INTO \"t__crsql_v2_pks\" (\"a\", \"b\", hashed_pk, cl) VALUES (?, ?, ?, 7) RETURNING __crsql_key"
    );
    assert_eq!(
        v2_pks_insert_sql(true, true, "t", "", "", "?"),
        "INSERT INTO \"t__crsql_v2_pks\" (__crsql_key, cl) VALUES (?, ?) RETURNING __crsql_key"
    );
    let (cols, values) = pk_cols_and_values(&[col("a", "", 1), col("b\"", "", 2)]);
    assert_eq!(cols, "\"a\", \"b\"\"\"");
    assert_eq!(values, "?, ?");
}
