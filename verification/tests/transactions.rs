use crsql::cell::{cell_key, cell_key_base, cell_key_end};
use crsql::commit::{clear_caches, commit_or_rollback_reset, crsql_commit_hook, crsql_rollback_hook};
use crsql::db_version::{
    create_ordinal, fetch_db_version_from_storage, fill_db_version_if_needed, find_ordinal, insert_db_version,
    next_db_version, peek_next_db_version, recorded_db_version, set_pending_db_version, store_version, FillStep,
    SiteMap, SET_DB_VERSION_SQL,
};
use crsql::ext_data::ExtData;
use crsql::force_update::{
    current_cl, get_current_cl_for_key, get_forced_cl, get_forced_delete_cl, is_force_update_mode_enabled, odd, ClStep,
};
use crsql::is_crr::{has_no_crr_tables, is_crr, TriggerCheck};
use crsql::pack_columns::ColumnValue;
use crsql::result_code::{ResultCode, Stepped};
use crsql::site_version::insert_site_version;
use crsql::tableinfo::{SchemaVersion, TableInfo};
use std::collections::BTreeMap;

fn ext() -> ExtData {
    ExtData {
        db_version: -1,
        pending_db_version: -1,
        seq: 0,
        updated_table_infos_this_tx: 0,
        pragma_schema_version_for_table_infos: -1,
        pragma_data_version: -1,
        checked_config_this_tx: 0,
        merge_equal_values: 0,
        metadata_write_version: 1,
        metadata_use_version: 1,
        sync_log_version: 1,
        timestamp: 0,
        default_timestamp: 0,
        force_update_mode: 0,
        rows_impacted: 0,
    }
}

fn commit(e: &mut ExtData) -> ResultCode {
    crsql_commit_hook(e, &mut vec![], &mut SiteMap::new(), &mut SiteMap::new())
}

#[test]
fn a_transaction_has_one_version() {
    let mut e = ExtData { db_version: 4, ..ext() };
    assert_eq!(peek_next_db_version(&e), 5);
    assert_eq!(next_db_version(&e), (5, true));
    set_pending_db_version(&mut e, 5);
    assert_eq!(next_db_version(&e), (5, false));
    set_pending_db_version(&mut e, 9);
    assert_eq!(next_db_version(&e), (9, false));
    assert_eq!(commit(&mut e), ResultCode::OK);
    assert_eq!(e, ExtData { db_version: 9, ..ext() });
}

#[test]
fn ends_of_transactions() {
    let during = ExtData {
        db_version: 4,
        pending_db_version: 5,
        seq: 3,
        updated_table_infos_this_tx: 1,
        checked_config_this_tx: 1,
        timestamp: 12,
        ..ext()
    };
    let mut e = during;
    crsql_rollback_hook(&mut e, &mut vec![], &mut SiteMap::new(), &mut SiteMap::new());
    assert_eq!(e, ExtData { db_version: 4, ..ext() });
    let mut e = during;
    commit_or_rollback_reset(&mut e);
    assert_eq!(e, ExtData { db_version: 4, ..ext() });
    let mut e = ExtData { pending_db_version: -1, ..during };
    commit(&mut e);
    assert_eq!(e.db_version, 4);
}

#[test]
fn caches_end_with_a_transaction() {
    let mut t = TableInfo {
        tbl_name: "t".to_string(),
        pks: vec![],
        non_pks: vec![],
        schema_version: SchemaVersion::V1,
        key_is_rowid: false,
        has_integer_pk: false,
        rowid_alias: String::new(),
        skip_hash: false,
        skip_hash_pk_col: String::new(),
        cl_cache: BTreeMap::new(),
    };
    t.set_cl(1, 3);
    let mut tables = vec![t];
    let mut ordinals = SiteMap::new();
    let mut last = SiteMap::new();
    let mut e = ext();
    for end in 0..3 {
        tables[0].set_cl(1, 3);
        ordinals.record(&[1, 2], 7);
        last.record(&[1, 2], 70);
        match end {
            0 => clear_caches(&mut tables, &mut ordinals, &mut last),
            1 => crsql_rollback_hook(&mut e, &mut tables, &mut ordinals, &mut last),
            _ => assert_eq!(crsql_commit_hook(&mut e, &mut tables, &mut ordinals, &mut last), ResultCode::OK),
        }
        assert_eq!(tables[0].get_cl(1), None);
        assert_eq!(ordinals.get(&[1, 2]), None);
        assert_eq!(last.get(&[1, 2]), None);
    }
}

#[test]
fn version_of_the_database() {
    assert_eq!(fill_db_version_if_needed(&ext(), -1), FillStep::Fail);
    assert_eq!(fill_db_version_if_needed(&ext(), 0), FillStep::Fetch);
    let mut e = ExtData { db_version: 2, ..ext() };
    assert_eq!(fill_db_version_if_needed(&e, 0), FillStep::Keep);
    assert_eq!(fill_db_version_if_needed(&e, 1), FillStep::Fetch);
    assert_eq!(fetch_db_version_from_storage(&mut e, Stepped::Row(8), ""), Ok(()));
    assert_eq!(e.db_version, 8);
    assert_eq!(
        fetch_db_version_from_storage(&mut e, Stepped::Other(ResultCode::ERROR), "ERROR"),
        Err("failed to step db version stmt: ERROR".to_string())
    );
    assert_eq!(e.db_version, 8);
    assert_eq!(fetch_db_version_from_storage(&mut e, Stepped::Done, ""), Ok(()));
    assert_eq!(e.db_version, 0);
}

#[test]
fn versions_of_sites() {
    let mut last = SiteMap::new();
    assert!(insert_db_version(&last, &[1], 5));
    assert_eq!(recorded_db_version(&mut last, &[1], Stepped::Row(5)), None);
    assert!(!insert_db_version(&last, &[1], 5));
    assert!(insert_db_version(&last, &[1], 6));
    assert!(insert_db_version(&last, &[2], 1));
    assert_eq!(recorded_db_version(&mut last, &[1], Stepped::Done), None);
    assert_eq!(last.get(&[1]), Some(5));
    assert_eq!(recorded_db_version(&mut last, &[1], Stepped::Other(ResultCode::NOMEM)), Some(ResultCode::NOMEM));
    assert_eq!(last.get(&[1]), Some(5));
    last.record(&[1], 9);
    last.record(&[1, 0], 3);
    assert_eq!(last.get(&[1]), Some(9));
    assert_eq!(last.get(&[1, 0]), Some(3));
    assert!(!insert_site_version(&last, &[1], 9));
    assert!(insert_site_version(&last, &[3], 0));
}

#[test]
fn forced_causal_lengths() {
    assert!(!is_force_update_mode_enabled(&ext()));
    assert!(is_force_update_mode_enabled(&ExtData { force_update_mode: 1, ..ext() }));
    assert_eq!([0, 1, 2, 3, 4].map(get_forced_cl), [1, 3, 3, 5, 5]);
    assert_eq!([0, 1, 2, 3, 4].map(get_forced_delete_cl), [2, 2, 4, 4, 6]);
    assert!(odd(-1) && odd(3) && !odd(0) && !odd(-2));
    assert_eq!(get_forced_cl(get_forced_delete_cl(7)), 9);
}

#[test]
fn causal_length_of_a_row() {
    assert_eq!(get_current_cl_for_key(Some(&5)), ClStep::Found(5));
    assert_eq!(get_current_cl_for_key(None), ClStep::LookUp);
    assert_eq!(current_cl(Stepped::Row(3)), Ok(3));
    assert_eq!(current_cl(Stepped::Done), Ok(0));
    assert_eq!(current_cl(Stepped::Other(ResultCode::ERROR)), Err("failed to step local_cl_stmt"));
}

fn counted(check: TriggerCheck) -> String {
    match check {
        TriggerCheck::Count(name) => name,
        _ => panic!("no name"),
    }
}

#[test]
fn triggers_of_replicated_tables() {
    assert_eq!(counted(is_crr("t", &[])), "t__crsql_itrig");
    assert_eq!(counted(is_crr("t", &[1])), "t__crsql_utrig");
    assert_eq!(counted(is_crr("t", &[1, 1])), "t__crsql_dtrig");
    assert!(matches!(is_crr("t", &[1, 1, 1]), TriggerCheck::Yes));
    assert!(matches!(is_crr("t", &[1, 0]), TriggerCheck::No));
    assert_eq!(counted(has_no_crr_tables(&[])), "%__crsql_itrig");
    assert_eq!(counted(has_no_crr_tables(&[0, 0])), "%__crsql_dtrig");
    assert!(matches!(has_no_crr_tables(&[0, 0, 0]), TriggerCheck::Yes));
    assert!(matches!(has_no_crr_tables(&[0, 2]), TriggerCheck::No));
}

#[test]
fn cells() {
    assert_eq!(cell_key(1, 2), 4098);
    assert_eq!(cell_key_base(3), 12288);
    assert_eq!(cell_key_end(3), 16383);
    assert_eq!(cell_key(3, 4095) >> 12, 3);
    assert_eq!(cell_key(3, 4095) & 4095, 4095);
    assert!(cell_key_end(3) < cell_key_base(4));
}

#[test]
fn numbers_of_result_codes() {
    let codes = [
        (ResultCode::OK, 0),
        (ResultCode::ERROR, 1),
        (ResultCode::ABORT, 4),
        (ResultCode::NOMEM, 7),
        (ResultCode::MISUSE, 21),
        (ResultCode::ROW, 100),
        (ResultCode::DONE, 101),
    ];
    for (code, number) in codes {
        assert_eq!(code.code(), number);
    }
}

#[test]
fn statements_about_sites() {
    let site = ColumnValue::Blob(vec![1, 2]);
    let store = store_version(&[1, 2], 9);
    assert_eq!(store.sql, SET_DB_VERSION_SQL);
    assert_eq!(store.binds, [site.clone(), ColumnValue::Integer(9)]);
    assert_eq!(find_ordinal(&[1, 2]).sql, "SELECT ordinal FROM crsql_site_id WHERE site_id = ?");
    assert_eq!(find_ordinal(&[1, 2]).binds, [site.clone()]);
    assert_eq!(create_ordinal(&[1, 2]).sql, "INSERT INTO crsql_site_id (site_id) VALUES (?) RETURNING ordinal");
    assert_eq!(create_ordinal(&[1, 2]).binds, [site]);
}
