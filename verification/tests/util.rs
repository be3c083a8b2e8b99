use crsql::consts::ROWID_SLAB_SIZE;
use crsql::result_code::ResultCode;
use crsql::tableinfo::ColumnInfo;
use crsql::util::{
    as_identifier_list, binding_list, clear_all_per_table_master_keys, clear_crr_mode_flags, escape_ident,
    escape_ident_as_value, get_db_version_union_query, get_dflt_value, get_or_count, slab_rowid, unquote, where_list,
    CountStep,
};

fn cols(names: &[&str]) -> Vec<ColumnInfo> {
    names
        .iter()
        .map(|n| ColumnInfo { cid: 0, name: n.to_string(), col_type: String::new(), pk: 0 })
        .collect()
}

#[test]
fn test_slab_rowid() {
    let foo_slab = slab_rowid(0, 1);
    let bar_slab = slab_rowid(1, 2);
    let baz_slab = slab_rowid(2, 3);

    assert_eq!(foo_slab, 1);
    assert_eq!(bar_slab, 2 + ROWID_SLAB_SIZE);
    assert_eq!(baz_slab, 3 + ROWID_SLAB_SIZE * 2);
    assert_eq!(slab_rowid(0, ROWID_SLAB_SIZE), 0);
    assert_eq!(slab_rowid(0, ROWID_SLAB_SIZE + 1), 1);

    let foo_slab = slab_rowid(0, ROWID_SLAB_SIZE + 1);
    let bar_slab = slab_rowid(1, ROWID_SLAB_SIZE + 2);
    let baz_slab = slab_rowid(2, ROWID_SLAB_SIZE * 2 + 3);

    assert_eq!(foo_slab, 1);
    assert_eq!(bar_slab, 2 + ROWID_SLAB_SIZE);
    assert_eq!(baz_slab, 3 + ROWID_SLAB_SIZE * 2);
}

#[test]
fn test_get_db_version_union_query() {
    let tbl_names = vec!["foo".to_string(), "bar".to_string(), "baz".to_string()];
    let union = get_db_version_union_query(&tbl_names);
    assert_eq!(
        union,
        "SELECT max(version) as version FROM (SELECT max(db_version) as version FROM \"foo\" WHERE site_id = 0 UNION ALL SELECT max(db_version) as version FROM \"bar\" WHERE site_id = 0 UNION ALL SELECT max(db_version) as version FROM \"baz\" WHERE site_id = 0 UNION SELECT value as\n        version FROM crsql_master WHERE key = 'pre_compact_dbversion')"
    );
}

#[test]
fn test_get_db_version_union_query_empty() {
    // Empty table list: fallback to crsql_db_versions filtered by site_id
    let union = get_db_version_union_query(&[]);
    assert_eq!(union, "SELECT max(db_version) as version FROM crsql_db_versions WHERE site_id = ?");
}

#[test]
fn union_query_escapes_names() {
    let union = get_db_version_union_query(&["a\"b".to_string()]);
    assert_eq!(
        union,
        "SELECT max(version) as version FROM (SELECT max(db_version) as version FROM \"a\"\"b\" WHERE site_id = 0 UNION SELECT value as\n        version FROM crsql_master WHERE key = 'pre_compact_dbversion')"
    );
}

#[test]
fn slab_rowids_without_a_slab() {
    assert_eq!(slab_rowid(-1, 5), -1);
    assert_eq!(slab_rowid(i32::MAX, 5), -1);
    assert_ne!(slab_rowid(1, 7), slab_rowid(2, 7));
    assert_ne!(slab_rowid(1, 7), slab_rowid(1, 8));
}

#[test]
fn escaping_doubles_quotes() {
    assert_eq!(escape_ident("plain"), "plain");
    assert_eq!(escape_ident("a\"b\"\"c'"), "a\"\"b\"\"\"\"c'");
    assert_eq!(escape_ident_as_value("it's \"x\""), "it''s \"x\"");
    assert_eq!(escape_ident("h\u{e9}\u{1F600}"), "h\u{e9}\u{1F600}");
    assert_eq!(escape_ident("a\0b"), "");
    assert_eq!(escape_ident_as_value("a\0b"), "");
    assert_ne!(escape_ident("a\"b"), escape_ident("a\"\"b"));
}

#[test]
fn lists_of_columns() {
    let c = cols(&["a", "b\"c"]);
    assert_eq!(where_list(&c, None), "\"a\" IS ? AND \"b\"\"c\" IS ?");
    assert_eq!(where_list(&c, Some("t.")), "t.\"a\" IS ? AND t.\"b\"\"c\" IS ?");
    assert_eq!(as_identifier_list(&c, None), "\"a\",\"b\"\"c\"");
    assert_eq!(as_identifier_list(&c, Some("p.")), "p.\"a\",p.\"b\"\"c\"");
    assert_eq!(binding_list(0), "");
    assert_eq!(binding_list(1), "?");
    assert_eq!(binding_list(3), "?, ?, ?");
    assert_eq!(where_list(&[], None), "");
}

#[test]
fn default_values() {
    assert_eq!(unquote("'it''s'"), "it's");
    assert_eq!(unquote("\"a\"\"b\""), "a\"b");
    assert_eq!(unquote("12"), "12");
    assert_eq!(unquote("'"), "'");
    assert_eq!(unquote("'a\""), "'a\"");
    assert_eq!(get_dflt_value(None), Err(ResultCode::DONE));
    assert_eq!(get_dflt_value(Some((None, 0))), Ok(Some("NULL".to_string())));
    assert_eq!(get_dflt_value(Some((None, 1))), Ok(None));
    assert_eq!(get_dflt_value(Some((Some("'x'".to_string()), 1))), Ok(Some("x".to_string())));
    let text = "o'clock ''";
    let literal = format!("'{}'", escape_ident_as_value(text));
    assert_eq!(unquote(&literal), text);
}

#[test]
fn keys_of_settings() {
    assert_eq!(clear_crr_mode_flags("t"), ["use_rowid_t", "skip_hash_t", "v2_pks_t"]);
    assert_eq!(
        clear_all_per_table_master_keys("t"),
        [
            "use_rowid_t",
            "skip_hash_t",
            "v2_pks_t",
            "cleanup_v1_tables_t",
            "cleanup_v2_tables_t",
            "cleanup_remaining_t",
            "migration_v1_to_v2_migration_t",
            "migration_v1_to_v2_remaining_t"
        ]
    );
    assert_eq!(get_or_count(Some(4)), CountStep::Kept(4));
    assert_eq!(get_or_count(None), CountStep::Count);
}
