use crsql::ext_data::ExtData;
use crsql::result_code::{ResultCode, Stepped};
use crsql::tableinfo::{
    alias_probe_query, columns_count_query, columns_query, crsql_ensure_table_infos_are_up_to_date, has_v1_query,
    hashed_pk_count_query, is_int_type, is_table_compatible, pull_all_table_infos, pull_table_info, rowid_alias,
    v2_pks_count_query, ColumnInfo, Compat, InfosStep, InsertKeyStep, KeyStep, Observed, SchemaVersion, TableInfo,
    MAX_CL_CACHE_SIZE,
};
use std::collections::BTreeMap;

fn col(cid: i32, name: &str, col_type: &str, pk: i32) -> ColumnInfo {
    ColumnInfo { cid, name: name.to_string(), col_type: col_type.to_string(), pk }
}

fn table() -> TableInfo {
    TableInfo {
        tbl_name: "my\"tbl".to_string(),
        pks: vec![col(0, "a", "TEXT", 1), col(1, "b\"c", "TEXT", 2)],
        non_pks: vec![col(2, "x", "TEXT", 0), col(3, "y\"z", "TEXT", 0)],
        schema_version: SchemaVersion::V1,
        key_is_rowid: false,
        has_integer_pk: false,
        rowid_alias: "rowid".to_string(),
        skip_hash: false,
        skip_hash_pk_col: String::new(),
        cl_cache: BTreeMap::new(),
    }
}

fn observed(columns: Vec<ColumnInfo>) -> Observed {
    Observed {
        columns_len: columns.len() as i32,
        columns,
        alias_readable: true,
        has_v2: false,
        hashed_pk_count: None,
        v2_pks_count: None,
        persisted_skip_hash: None,
        directive_skip_hash: None,
        persisted_use_rowid: None,
        directive_use_rowid: None,
        has_v1: true,
    }
}

#[test]
fn statements_of_a_table() {
    let t = table();
    assert_eq!(t.get_select_key_stmt(), "SELECT __crsql_key FROM \"my\"\"tbl__crsql_pks\" WHERE \"a\" IS ? AND \"b\"\"c\" IS ?");
    assert_eq!(t.get_insert_key_stmt(), "INSERT INTO \"my\"\"tbl__crsql_pks\" (\"a\",\"b\"\"c\") VALUES (?, ?) RETURNING __crsql_key");
    assert_eq!(t.get_insert_or_ignore_returning_key_stmt(), "INSERT OR IGNORE INTO \"my\"\"tbl__crsql_pks\" (\"a\",\"b\"\"c\") VALUES (?, ?) RETURNING __crsql_key");
    assert_eq!(t.get_set_winner_clock_stmt(), "INSERT OR REPLACE INTO \"my\"\"tbl__crsql_clock\"\n              (key, col_name, col_version, db_version, seq, site_id, ts)\n              VALUES (\n                ?,\n                ?,\n                ?,\n                ?,\n                ?,\n                ?,\n                ?\n              ) RETURNING key");
    assert_eq!(t.get_local_cl_stmt(), "SELECT COALESCE(\n                (SELECT col_version FROM \"my\"\"tbl__crsql_clock\" WHERE key = ? AND col_name = '-1'),\n                (SELECT 1 FROM \"my\"\"tbl__crsql_clock\" WHERE key = ?)\n              )");
    assert_eq!(t.get_col_version_stmt(), "SELECT col_version FROM \"my\"\"tbl__crsql_clock\" WHERE key = ? AND col_name = ?");
    assert_eq!(t.get_col_site_id_stmt(), "SELECT site_id FROM crsql_site_id WHERE ordinal = (SELECT site_id FROM \"my\"\"tbl__crsql_clock\" WHERE key = ? AND col_name = ?)");
    assert_eq!(t.get_merge_pk_only_insert_stmt(), "INSERT OR IGNORE INTO \"my\"\"tbl\" (\"a\",\"b\"\"c\") VALUES (?, ?)");
    assert_eq!(t.get_merge_delete_stmt(), "DELETE FROM \"my\"\"tbl\" WHERE \"a\" IS ? AND \"b\"\"c\" IS ?");
    assert_eq!(t.get_merge_delete_drop_clocks_stmt(), "DELETE FROM \"my\"\"tbl__crsql_clock\" WHERE key = ? AND col_name IS NOT '-1'");
    assert_eq!(t.get_zero_clocks_on_resurrect_stmt(), "UPDATE \"my\"\"tbl__crsql_clock\" SET col_version = 0 WHERE key = ? AND col_name IS NOT '-1'");
    assert_eq!(t.get_mark_locally_deleted_stmt(), "INSERT INTO \"my\"\"tbl__crsql_clock\" (\n            key,\n            col_name,\n            col_version,\n            db_version,\n            seq,\n            site_id,\n            ts\n          ) SELECT\n            ?,\n            '-1',\n            2,\n            ?,\n            ?,\n            0,\n            ? WHERE true\n          ON CONFLICT DO UPDATE SET\n            col_version = 1 + col_version,\n            db_version = excluded.db_version,\n            seq = excluded.seq,\n            site_id = 0,\n            ts = excluded.ts\n          RETURNING col_version");
    assert_eq!(t.get_move_non_sentinels_stmt(), "UPDATE OR REPLACE \"my\"\"tbl__crsql_clock\" SET key = ? WHERE key = ? AND col_name != '-1'");
    assert_eq!(t.get_move_non_pk_col_stmt(), "UPDATE OR REPLACE \"my\"\"tbl__crsql_clock\" SET\n                key = ?,\n                db_version = ?,\n                seq = ?,\n                col_version = col_version + 1,\n                site_id = 0,\n                ts = ?\n            WHERE\n                key = ? AND col_name = ?");
    assert_eq!(t.get_mark_locally_created_stmt(), "INSERT INTO \"my\"\"tbl__crsql_clock\" (\n                key,\n                col_name,\n                col_version,\n                db_version,\n                seq,\n                site_id,\n                ts\n              ) SELECT\n                ?,\n                '-1',\n                1,\n                ?,\n                ?,\n                0,\n                ? WHERE true\n                ON CONFLICT DO UPDATE SET\n                  col_version = CASE col_version % 2 WHEN 0 THEN col_version + 1 ELSE col_version + 2 END,\n                  db_version = excluded.db_version,\n                  seq = excluded.seq,\n                  site_id = 0,\n                  ts = excluded.ts\n                  RETURNING col_version");
    assert_eq!(t.get_combo_insert_clock_stmt(), "INSERT OR IGNORE INTO \"my\"\"tbl__crsql_clock\" (\n                    key, col_name, col_version, db_version, seq, site_id, ts\n                ) VALUES (?, ?, 1, ?, ?, 0, ?), (?, ?, 1, ?, ?, 0, ?);");
    assert_eq!(t.get_select_clock_stmt(), "SELECT 1 FROM \"my\"\"tbl__crsql_clock\"\n                    WHERE key = ? AND col_name = ? LIMIT 1;");
    assert_eq!(t.get_insert_clock_stmt(), "INSERT INTO \"my\"\"tbl__crsql_clock\" (\n                    key, col_name, col_version, db_version, seq, site_id, ts\n                ) VALUES (?, ?, 1, ?, ?, 0, ?);");
    assert_eq!(t.get_update_clock_stmt(), "UPDATE \"my\"\"tbl__crsql_clock\"\n                SET\n                    col_version = col_version + 1,\n                    db_version = ?,\n                    seq = ?,\n                    site_id = 0,\n                    ts = ?\n                WHERE key = ? AND col_name = ?;");
    assert_eq!(t.get_maybe_mark_locally_reinserted_stmt(), "UPDATE \"my\"\"tbl__crsql_clock\" SET\n                col_version = CASE col_version % 2 WHEN 0 THEN col_version + 1 ELSE col_version + 2 END,\n                db_version = ?,\n                seq = ?,\n                site_id = 0,\n                ts = ?\n              WHERE key = ? AND col_name = ?\n              RETURNING col_version");
    assert_eq!(t.get_col_value_stmt("y\"z"), Ok("SELECT \"y\"\"z\" FROM \"my\"\"tbl\" WHERE \"a\" IS ? AND \"b\"\"c\" IS ?".to_string()));
    assert_eq!(t.get_col_value_stmt("a"), Err(ResultCode::ERROR));
    assert_eq!(t.get_merge_insert_stmt("y\"z"), Ok("INSERT INTO \"my\"\"tbl\" (\"a\",\"b\"\"c\", \"y\"\"z\")\n                VALUES (?, ?, ?)\n                ON CONFLICT DO UPDATE\n                SET \"y\"\"z\" = ?".to_string()));
    assert_eq!(t.get_merge_insert_stmt("a"), Err(ResultCode::ERROR));
    assert_eq!(t.get_row_patch_data_stmt("y\"z"), Ok("SELECT \"y\"\"z\" FROM \"my\"\"tbl\" WHERE \"a\" IS ? AND \"b\"\"c\" IS ?\0".to_string()));
    assert_eq!(t.get_row_patch_data_stmt("a"), Err(ResultCode::ERROR));
}

#[test]
fn cache_of_causal_lengths() {
    let mut t = table();
    assert_eq!(t.get_cl(4), None);
    t.set_cl(4, 3);
    assert_eq!(t.get_cl(4), Some(&3));
    t.set_cl(4, 5);
    assert_eq!(t.get_cl(4), Some(&5));
    t.clear_cl_cache();
    assert_eq!(t.get_cl(4), None);
    for key in 0..MAX_CL_CACHE_SIZE as i64 {
        t.set_cl(key, 1);
    }
    assert_eq!(t.cl_cache.len(), MAX_CL_CACHE_SIZE);
    t.set_cl(-1, 7);
    assert_eq!(t.cl_cache.len(), 1);
    assert_eq!(t.get_cl(-1), Some(&7));
    assert_eq!(t.get_cl(0), None);
}

#[test]
fn keys_of_rows() {
    assert_eq!(TableInfo::get_or_create_key(Stepped::Row(4)), KeyStep::Found(4));
    assert_eq!(TableInfo::get_or_create_key(Stepped::Done), KeyStep::Create);
    assert_eq!(
        TableInfo::get_or_create_key_via_raw_values(Stepped::Other(ResultCode::NOMEM)),
        KeyStep::Fail(ResultCode::NOMEM)
    );
    assert_eq!(TableInfo::create_key(Stepped::Row(9)), Ok(9));
    assert_eq!(TableInfo::create_key(Stepped::Done), Err(ResultCode::DONE));
    assert_eq!(TableInfo::create_key(Stepped::Other(ResultCode::ERROR)), Err(ResultCode::ERROR));
    assert_eq!(TableInfo::get_or_create_key_for_insert(Stepped::Row(9)), InsertKeyStep::Created(9));
    assert_eq!(TableInfo::get_or_create_key_for_insert(Stepped::Done), InsertKeyStep::LookUp);
    assert_eq!(
        TableInfo::get_or_create_key_for_insert(Stepped::Other(ResultCode::ABORT)),
        InsertKeyStep::Fail(ResultCode::ABORT)
    );
    assert_eq!(TableInfo::found_key_for_insert(Stepped::Row(2)), Ok((true, 2)));
    assert_eq!(TableInfo::found_key_for_insert(Stepped::Done), Err(ResultCode::DONE));
}

fn refusal(seen: &[i32]) -> String {
    match is_table_compatible("t", seen) {
        Compat::No(message) => message,
        _ => panic!("not refused"),
    }
}

fn question(seen: &[i32]) -> String {
    match is_table_compatible("t", seen) {
        Compat::Ask(sql) => sql,
        _ => panic!("no question"),
    }
}

#[test]
fn compatible_tables() {
    assert_eq!(
        question(&[]),
        "SELECT count(*) FROM pragma_index_list('t')\n            WHERE \"origin\" != 'pk' AND \"unique\" = 1"
    );
    assert_eq!(
        question(&[0]),
        "SELECT count(*) FROM pragma_table_info('t')\n        WHERE \"pk\" > 0 AND \"notnull\" > 0"
    );
    assert_eq!(question(&[0, 2]), "SELECT count(*) FROM pragma_table_info('t') WHERE \"pk\" > 0");
    assert_eq!(
        question(&[0, 2, 2]),
        "SELECT 1 FROM sqlite_master WHERE name = ? AND type = 'table' AND sql\n            LIKE '%autoincrement%' limit 1"
    );
    assert_eq!(question(&[0, 2, 2, 0]), "SELECT count(*) FROM pragma_foreign_key_list('t')");
    assert_eq!(
        question(&[0, 2, 2, 0, 0]),
        "SELECT count(*) FROM pragma_table_xinfo('t')\n        WHERE \"notnull\" = 1 AND \"dflt_value\" IS NULL AND \"pk\" = 0"
    );
    assert!(matches!(is_table_compatible("t", &[0, 2, 2, 0, 0, 0]), Compat::Yes));
}

#[test]
fn incompatible_tables() {
    assert_eq!(refusal(&[1]), "Table t has unique indices besidesthe primary key. This is not allowed for CRRs");
    assert_eq!(
        refusal(&[0, 0]),
        "Table t has no primary key or primary key is nullable. CRRs must have a non nullable primary key"
    );
    assert_eq!(
        refusal(&[0, 1, 2]),
        "Table t has composite primary key part of which is nullable. CRRs must have a non nullable primary key"
    );
    assert!(refusal(&[0, 1, 1, 1]).starts_with("t has auto-increment primary keys. This is likely a mistake"));
    assert!(refusal(&[0, 1, 1, 0, 1]).starts_with("Table t has checked foreign key constraints."));
    assert!(refusal(&[0, 1, 1, 0, 0, 1]).starts_with("Table t has a NOT NULL column without a DEFAULT VALUE."));
}

#[test]
fn table_from_its_columns() {
    let columns = vec![col(0, "v", "TEXT", 0), col(1, "second", "TEXT", 2), col(2, "first", "TEXT", 1)];
    let t = pull_table_info("foo", observed(columns)).unwrap();
    assert_eq!(t.tbl_name, "foo");
    assert_eq!(t.pks.iter().map(|c| c.name.as_str()).collect::<Vec<_>>(), ["first", "second"]);
    assert_eq!(t.non_pks.iter().map(|c| c.name.as_str()).collect::<Vec<_>>(), ["v"]);
    assert_eq!(t.schema_version, SchemaVersion::V1);
    assert!(!t.key_is_rowid && !t.has_integer_pk && !t.skip_hash);
    assert_eq!(t.rowid_alias, "rowid");
    assert_eq!(t.skip_hash_pk_col, "");
    assert!(t.cl_cache.is_empty());
}

#[test]
fn tables_with_integer_keys() {
    let columns = || vec![col(0, "i\"d", "INTEGER", 1), col(1, "v", "TEXT", 0)];
    let t = pull_table_info("foo", observed(columns())).unwrap();
    assert!(t.has_integer_pk && !t.key_is_rowid && t.skip_hash);
    assert_eq!(t.skip_hash_pk_col, "i\"\"d");
    assert_eq!(t.rowid_alias, "i\"d");
    let seen = Observed { persisted_use_rowid: Some(1), ..observed(columns()) };
    assert!(pull_table_info("foo", seen).unwrap().key_is_rowid);
    let seen = Observed { directive_use_rowid: Some(true), ..observed(columns()) };
    assert!(pull_table_info("foo", seen).unwrap().key_is_rowid);
    let seen = Observed { directive_use_rowid: Some(false), ..observed(columns()) };
    assert!(!pull_table_info("foo", seen).unwrap().key_is_rowid);
    let seen = Observed { persisted_use_rowid: Some(0), directive_use_rowid: Some(true), ..observed(columns()) };
    assert!(!pull_table_info("foo", seen).unwrap().key_is_rowid);
    let seen = Observed { directive_use_rowid: Some(true), ..observed(vec![col(0, "a", "INT", 1)]) };
    assert!(!pull_table_info("foo", seen).unwrap().key_is_rowid);
    let seen = Observed { persisted_use_rowid: Some(1), alias_readable: false, ..observed(columns()) };
    assert!(!pull_table_info("foo", seen).unwrap().key_is_rowid);
    let seen = Observed { persisted_skip_hash: Some(0), directive_skip_hash: Some(true), ..observed(columns()) };
    let t = pull_table_info("foo", seen).unwrap();
    assert!(!t.skip_hash);
    assert_eq!(t.skip_hash_pk_col, "");
    let seen = Observed { directive_skip_hash: Some(false), ..observed(columns()) };
    assert!(!pull_table_info("foo", seen).unwrap().skip_hash);
    let seen = Observed { has_v2: true, hashed_pk_count: Some(0), v2_pks_count: Some(2), ..observed(columns()) };
    let t = pull_table_info("foo", seen).unwrap();
    assert!(t.skip_hash && t.key_is_rowid);
    let lower = vec![col(0, "id", "bigint", 1)];
    let t = pull_table_info("foo", observed(lower)).unwrap();
    assert!(t.skip_hash && !t.has_integer_pk);
    let two = vec![col(0, "a", "INTEGER", 1), col(1, "b", "INTEGER", 2)];
    let t = pull_table_info("foo", Observed { persisted_use_rowid: Some(1), ..observed(two.clone()) }).unwrap();
    assert!(!t.has_integer_pk && !t.key_is_rowid);
    assert_eq!(t.rowid_alias, "rowid");
    let seen = Observed { persisted_skip_hash: Some(1), ..observed(two) };
    assert!(!pull_table_info("foo", seen).unwrap().skip_hash);
    let seen = Observed { has_v2: true, has_v1: false, hashed_pk_count: Some(1), ..observed(columns()) };
    assert_eq!(pull_table_info("foo", seen).unwrap().schema_version, SchemaVersion::V2);
    let seen = Observed { has_v2: true, hashed_pk_count: Some(1), ..observed(columns()) };
    assert_eq!(pull_table_info("foo", seen).unwrap().schema_version, SchemaVersion::V2AndV1);
}

#[test]
fn tables_that_cannot_be_read() {
    let seen = Observed { columns_len: -1, ..observed(vec![]) };
    assert_eq!(pull_table_info("foo", seen).err(), Some("Failed to find columns for crr -- foo".to_string()));
    let seen = Observed { columns_len: 3, ..observed(vec![col(0, "a", "TEXT", 1)]) };
    assert_eq!(
        pull_table_info("foo", seen).err(),
        Some("Number of fetched columns did not match expected number of columns".to_string())
    );
}

#[test]
fn names_of_the_rowid() {
    assert_eq!(rowid_alias(&[col(0, "a", "TEXT", 1)]), "rowid");
    assert_eq!(rowid_alias(&[col(0, "rowid", "TEXT", 1)]), "oid");
    assert_eq!(rowid_alias(&[col(0, "rowid", "TEXT", 1), col(1, "oid", "TEXT", 0)]), "_rowid_");
    let all = [col(0, "rowid", "TEXT", 1), col(1, "oid", "TEXT", 0), col(2, "_rowid_", "TEXT", 0)];
    assert_eq!(rowid_alias(&all), "");
    assert_eq!(rowid_alias(&[col(0, "id", "INTEGER", 1)]), "id");
}

#[test]
fn integer_types() {
    assert!(is_int_type("INTEGER"));
    assert!(is_int_type("BigInt"));
    assert!(is_int_type("unsigned int"));
    assert!(!is_int_type("TEXT"));
    assert!(!is_int_type("in t"));
    assert!(!is_int_type(""));
}

#[test]
fn queries_about_tables() {
    assert_eq!(columns_count_query("t"), "SELECT count(*) FROM pragma_table_info('t')");
    assert_eq!(
        columns_query("t"),
        "SELECT \"cid\", \"name\", \"type\", \"pk\"\n         FROM pragma_table_info('t') ORDER BY cid ASC"
    );
    assert_eq!(alias_probe_query("t\"", "rowid"), "SELECT \"rowid\" FROM \"t\"\"\" LIMIT 0");
    assert_eq!(
        hashed_pk_count_query("t'"),
        "SELECT count(*) FROM pragma_table_info('t''__crsql_v2_pks') WHERE name = 'hashed_pk'"
    );
    assert_eq!(v2_pks_count_query("t'"), "SELECT count(*) FROM pragma_table_info('t''__crsql_v2_pks')");
    assert_eq!(
        has_v1_query("t'"),
        "SELECT 1 FROM sqlite_master WHERE type = 'table' AND tbl_name = 't''__crsql_clock'"
    );
}

#[test]
fn owners_of_clock_tables() {
    let found = ["a__crsql_clock", "b__crsql_clock", "b__crsql_v2_clock", "c__crsql_v2_clock", "d"];
    let found: Vec<String> = found.iter().map(|s| s.to_string()).collect();
    assert_eq!(pull_all_table_infos(&found), ["a", "b", "c"]);
}

#[test]
fn known_tables_are_read_once() {
    let ext = ExtData {
        db_version: -1,
        pending_db_version: -1,
        seq: 0,
        updated_table_infos_this_tx: 0,
        pragma_schema_version_for_table_infos: -1,
        pragma_data_version: -1,
        checked_config_this_tx: 0,
        merge_equal_values: 0,
        metadata_write_version: 1,
        metadata_use_version: 1,
        sync_log_version: 1,
        timestamp: 0,
        default_timestamp: 0,
        force_update_mode: 0,
        rows_impacted: 0,
    };
    assert_eq!(crsql_ensure_table_infos_are_up_to_date(&ext, 1, 3), InfosStep::Pull);
    assert_eq!(crsql_ensure_table_infos_are_up_to_date(&ext, 0, 0), InfosStep::Pull);
    assert_eq!(crsql_ensure_table_infos_are_up_to_date(&ext, 0, 3), InfosStep::Mark);
    assert_eq!(crsql_ensure_table_infos_are_up_to_date(&ext, -1, 3), InfosStep::Fail(ResultCode::ERROR));
    let ext = ExtData { updated_table_infos_this_tx: 1, ..ext };
    assert_eq!(crsql_ensure_table_infos_are_up_to_date(&ext, -1, 0), InfosStep::Keep);
}
