use crsql::config::{
    apply_config_changes_to_ext_data, apply_default_ts, ask_default_ts, config_check_needed, config_key,
    config_refresh_error, crsql_config_get, crsql_config_set, ensure_config_current, ensure_timestamp,
    find_tables_with_suffix, load_default_ts, low_32, master_exists, nth_setting, open_ext_data, persist_config,
    persist_failed, queue_task, queue_tasks, rollback_config_set, strip_suffix, tables_with_suffix_sql, task_outcome,
    task_step,
    validate_sync_log_transition, validate_use_version_transition, validate_write_version_transition, ConfigCheck,
    ConfigPlan, ConfigRead, ConfigTask, Setting, TaskStep, CLEANUP_PENDING_SQL, CLEAR_MIGRATION_SQL,
    MIGRATION_PENDING_SQL,
};
use crsql::ext_data::ExtData;
use crsql::pack_columns::ColumnValue;
use crsql::result_code::{ResultCode, Stepped};

fn ext() -> ExtData {
    ExtData {
        db_version: -1,
        pending_db_version: -1,
        seq: 0,
        updated_table_infos_this_tx: 0,
        pragma_schema_version_for_table_infos: -1,
        pragma_data_version: -1,
        checked_config_this_tx: 0,
        merge_equal_values: 0,
        metadata_write_version: 1,
        metadata_use_version: 1,
        sync_log_version: 1,
        timestamp: 0,
        default_timestamp: 0,
        force_update_mode: 0,
        rows_impacted: 0,
    }
}

fn refused(ext: &ExtData, name: &str, value: i64) -> String {
    match crsql_config_set(ext, name, value as i32, value) {
        ConfigPlan::Refused(message) => message,
        _ => panic!("not refused"),
    }
}

fn changed(ext: &ExtData, name: &str, value: i32) -> (Vec<ConfigTask>, Vec<(Setting, i32)>) {
    match crsql_config_set(ext, name, value, value as i64) {
        ConfigPlan::Change(tasks, changes) => (tasks, changes),
        _ => panic!("no change"),
    }
}

#[test]
fn write_version_forward() {
    let v1 = ext();
    assert_eq!(
        changed(&v1, "metadata-write-version", 2),
        (
            vec![ConfigTask::CleanupDone, ConfigTask::CreateV2Tables, ConfigTask::QueueMigration],
            vec![(Setting::MetadataWriteVersion, 2)]
        )
    );
    assert_eq!(
        changed(&v1, "metadata-write-version", 3),
        (
            vec![ConfigTask::NoCrrTables],
            vec![(Setting::MetadataWriteVersion, 3), (Setting::MetadataUseVersion, 2)]
        )
    );
    let both = ExtData { metadata_write_version: 2, ..v1 };
    assert_eq!(
        changed(&both, "metadata-write-version", 3),
        (
            vec![ConfigTask::CleanupDone, ConfigTask::MigrationDone, ConfigTask::QueueV1Cleanup],
            vec![(Setting::MetadataWriteVersion, 3), (Setting::MetadataUseVersion, 2)]
        )
    );
}

#[test]
fn write_version_back() {
    let both = ExtData { metadata_write_version: 2, metadata_use_version: 2, sync_log_version: 2, ..ext() };
    let (tasks, changes) = changed(&both, "metadata-write-version", 1);
    assert_eq!(
        tasks,
        [ConfigTask::CleanupDone, ConfigTask::ClearMigrationMarkers, ConfigTask::QueueV2Cleanup]
    );
    let mut after = both;
    apply_config_changes_to_ext_data(&mut after, &changes);
    assert_eq!(after, ext());
    let v2 = ExtData { metadata_write_version: 3, metadata_use_version: 2, ..ext() };
    assert_eq!(refused(&v2, "metadata-write-version", 1), "Invalid metadata-write-version transition");
    assert_eq!(refused(&v2, "metadata-write-version", 2), "Invalid metadata-write-version transition");
    assert_eq!(refused(&ext(), "metadata-write-version", 4), "Invalid metadata-write-version transition");
    assert_eq!(refused(&ext(), "metadata-write-version", 0), "Invalid metadata-write-version transition");
}

#[test]
fn use_version() {
    let both = ExtData { metadata_write_version: 2, ..ext() };
    assert_eq!(
        changed(&both, "metadata-use-version", 2),
        (vec![ConfigTask::UseMigrationDone], vec![(Setting::MetadataUseVersion, 2)])
    );
    assert!(refused(&ext(), "metadata-use-version", 2)
        .starts_with("Cannot set metadata-use-version to v2: requires metadata-write-version to be v2&v1 or v2 first"));
    let v2 = ExtData { metadata_write_version: 3, metadata_use_version: 2, ..ext() };
    assert_eq!(
        refused(&v2, "metadata-use-version", 1),
        "Cannot set metadata-use-version to v1: requires metadata-write-version to be v1 or v2&v1 first."
    );
    assert_eq!(refused(&v2, "metadata-use-version", 3), "Invalid metadata-use-version transition");
}

#[test]
fn sync_log_version() {
    let v2 = ExtData { metadata_write_version: 3, metadata_use_version: 2, ..ext() };
    assert_eq!(
        changed(&v2, "sync-log-version", 2),
        (vec![ConfigTask::SyncMigrationDone], vec![(Setting::SyncLogVersion, 2)])
    );
    assert!(refused(&ext(), "sync-log-version", 2)
        .starts_with("Cannot set sync-log-version to v2: requires metadata-use-version to be v2 first."));
    let odd = ExtData { metadata_use_version: 2, ..ext() };
    assert_eq!(
        refused(&odd, "sync-log-version", 2),
        "Cannot set sync-log-version to v2: requires metadata-write-version to be v2 or v2&v1."
    );
    let packed = ExtData { sync_log_version: 2, ..v2 };
    assert_eq!(
        refused(&packed, "sync-log-version", 1),
        "Cannot set sync-log-version to v1: requires metadata-use-version to be v1 first."
    );
    assert_eq!(refused(&packed, "sync-log-version", 3), "Invalid sync-log-version transition");
}

#[test]
fn other_settings() {
    assert_eq!(changed(&ext(), "merge-equal-values", 1), (vec![], vec![(Setting::MergeEqualValues, 1)]));
    assert!(matches!(crsql_config_set(&ext(), "default-ts", 0, 1 << 40), ConfigPlan::DefaultTs(ts, _) if ts == 1 << 40));
    assert_eq!(
        refused(&ext(), "default-ts", -1),
        "default-ts must be >= 0 (0 disables, >0 used when crsql_set_ts was not called)"
    );
    assert_eq!(refused(&ext(), "nonsense", 1), "Unknown setting name: nonsense");
    assert_eq!(config_key("sync-log-version"), "config.sync-log-version");
}

#[test]
fn storing_settings() {
    let (_, changes) = changed(&ext(), "metadata-write-version", 3);
    let raw = ColumnValue::Text("3".to_string());
    let plan = persist_config("metadata-write-version", raw, &changes);
    assert_eq!(plan.len(), 2);
    assert_eq!(plan[0].sql, "INSERT OR REPLACE INTO crsql_master VALUES (?, ?) RETURNING value");
    assert_eq!(
        plan[0].binds,
        [ColumnValue::Text("config.metadata-write-version".to_string()), ColumnValue::Text("3".to_string())]
    );
    assert_eq!(plan[1].sql, "INSERT OR REPLACE INTO crsql_master (key, value) VALUES (?, ?)");
    assert_eq!(
        plan[1].binds,
        [ColumnValue::Text("config.metadata-use-version".to_string()), ColumnValue::Integer(2)]
    );
    assert_eq!(persist_failed(0), "Could not persist config in database");
    assert_eq!(persist_failed(1), "Could not persist cascaded config in database");
}

#[test]
fn transitions() {
    assert!(validate_write_version_transition(1, 2));
    assert!(validate_write_version_transition(2, 2));
    assert!(!validate_write_version_transition(3, 1));
    assert!(validate_use_version_transition(1, 2, 3));
    assert!(!validate_use_version_transition(1, 2, 1));
    assert!(validate_sync_log_transition(1, 2, 2, 2));
    assert!(validate_sync_log_transition(2, 1, 1, 1));
    assert!(!validate_sync_log_transition(2, 1, 2, 3));
}

#[test]
fn outcomes_of_tasks() {
    assert_eq!(task_outcome(ConfigTask::CleanupDone, Ok(true)), None);
    assert_eq!(
        task_outcome(ConfigTask::CleanupDone, Ok(false)),
        Some(("Cannot transition metadata-write-version: cleanup tasks still pending".to_string(), 1))
    );
    assert_eq!(
        task_outcome(ConfigTask::NoCrrTables, Ok(false)).unwrap().0,
        "Cannot set metadata-write-version to v2 directly: existing CRR tables found. Migrate via v2&v1 first."
    );
    assert_eq!(
        task_outcome(ConfigTask::MigrationDone, Ok(false)).unwrap().0,
        "Cannot set metadata-write-version to v2: migration not complete for all tables"
    );
    assert_eq!(
        task_outcome(ConfigTask::UseMigrationDone, Ok(false)).unwrap().0,
        "Cannot set metadata-use-version to v2: migration not complete for all tables"
    );
    assert_eq!(
        task_outcome(ConfigTask::SyncMigrationDone, Ok(false)).unwrap().0,
        "Cannot set sync-log-version to v2: migration not complete for all tables"
    );
    assert_eq!(task_outcome(ConfigTask::QueueMigration, Ok(false)), None);
    let failures = [
        (ConfigTask::NoCrrTables, "Failed to check for existing CRR tables"),
        (ConfigTask::CleanupDone, "Failed to check cleanup status"),
        (ConfigTask::CreateV2Tables, "Failed to create V2 tables during transition"),
        (ConfigTask::QueueMigration, "Failed to queue migration tasks"),
        (ConfigTask::MigrationDone, "Failed to check migration status"),
        (ConfigTask::QueueV1Cleanup, "Failed to queue V1 cleanup tasks"),
        (ConfigTask::ClearMigrationMarkers, "Failed to clear migration markers"),
        (ConfigTask::QueueV2Cleanup, "Failed to queue V2 cleanup tasks"),
        (ConfigTask::UseMigrationDone, "Failed to check migration status"),
        (ConfigTask::SyncMigrationDone, "Failed to check migration status"),
    ];
    for (task, message) in failures {
        assert_eq!(task_outcome(task, Err(7)), Some((message.to_string(), 7)));
    }
}

#[test]
fn getting_settings() {
    let e = ExtData {
        merge_equal_values: 1,
        metadata_write_version: 3,
        metadata_use_version: 2,
        sync_log_version: 2,
        default_timestamp: 77,
        ..ext()
    };
    assert_eq!(crsql_config_get(&e, "merge-equal-values"), Ok(1));
    assert_eq!(crsql_config_get(&e, "metadata-write-version"), Ok(3));
    assert_eq!(crsql_config_get(&e, "metadata-use-version"), Ok(2));
    assert_eq!(crsql_config_get(&e, "sync-log-version"), Ok(2));
    assert_eq!(crsql_config_get(&e, "default-ts"), Ok(77));
    assert_eq!(crsql_config_get(&e, "x"), Err("Unknown setting name: x".to_string()));
}

#[test]
fn times() {
    let mut e = ext();
    assert_eq!(ensure_timestamp(&mut e), Err(()));
    e.default_timestamp = 9;
    assert_eq!(ensure_timestamp(&mut e), Ok(9));
    assert_eq!(e.timestamp, 9);
    e.default_timestamp = 10;
    assert_eq!(ensure_timestamp(&mut e), Ok(9));
}

#[test]
fn default_times_are_kept() {
    let mut e = ext();
    let (value, store) = match crsql_config_set(&e, "default-ts", 0, 1_700_000_000_000) {
        ConfigPlan::DefaultTs(value, store) => (value, store),
        _ => panic!("no time"),
    };
    assert_eq!(store.sql, "INSERT OR REPLACE INTO crsql_master (key, value) VALUES (?, ?)");
    let key = ColumnValue::Text("config.default-ts".to_string());
    assert_eq!(store.binds, [key.clone(), ColumnValue::Integer(1_700_000_000_000)]);
    apply_default_ts(&mut e, value);
    assert_eq!(e, ExtData { default_timestamp: 1_700_000_000_000, ..ext() });
    assert_eq!(crsql_config_get(&e, "default-ts"), Ok(1_700_000_000_000));
    let ask = ask_default_ts();
    assert_eq!(ask.sql, "SELECT value FROM crsql_master WHERE key = ?");
    assert_eq!(ask.binds, [key]);
    assert_eq!(open_ext_data(ConfigRead::Value(1_700_000_000_000)), e);
    assert_eq!(open_ext_data(ConfigRead::Missing), ext());
    assert_eq!(open_ext_data(ConfigRead::Failed), ext());
    load_default_ts(&mut e, ConfigRead::Missing);
    assert_eq!(e.default_timestamp, 1_700_000_000_000);
    load_default_ts(&mut e, ConfigRead::Value(0));
    assert_eq!(e, ext());
}

#[test]
fn undone_changes() {
    let mut e = ExtData { updated_table_infos_this_tx: 1, pragma_schema_version_for_table_infos: 8, ..ext() };
    rollback_config_set(&mut e);
    assert_eq!(e, ext());
}

#[test]
fn settings_of_other_connections() {
    let reads = [ConfigRead::Value(1), ConfigRead::Value(3), ConfigRead::Missing, ConfigRead::Value(2)];
    let mut e = ext();
    assert_eq!(ensure_config_current(&mut e, false, 1, &reads, ConfigRead::Value(60)), ConfigCheck::Known);
    let expected = ExtData {
        merge_equal_values: 1,
        metadata_write_version: 3,
        sync_log_version: 2,
        checked_config_this_tx: 1,
        default_timestamp: 60,
        ..ext()
    };
    assert_eq!(e, expected);
    let mut other = ext();
    assert_eq!(
        ensure_config_current(&mut other, false, 1, &reads, ConfigRead::Failed),
        ConfigCheck::DefaultTsNotRead
    );
    assert_eq!(other, ExtData { checked_config_this_tx: 0, default_timestamp: 0, ..expected });
    assert!(!config_check_needed(&e, false));
    assert!(config_check_needed(&e, true));
    let mut e = ext();
    assert_eq!(ensure_config_current(&mut e, true, 0, &[], ConfigRead::Missing), ConfigCheck::Known);
    assert_eq!(e, ext());
    assert_eq!(ensure_config_current(&mut e, false, -1, &[], ConfigRead::Missing), ConfigCheck::NoDataVersion);
    assert_eq!(e, ext());
    let reads = [ConfigRead::Value(1), ConfigRead::Failed, ConfigRead::Value(2), ConfigRead::Value(2)];
    assert_eq!(
        ensure_config_current(&mut e, false, 1, &reads, ConfigRead::Value(60)),
        ConfigCheck::NotRead(Setting::MetadataWriteVersion)
    );
    assert_eq!(e, ExtData { merge_equal_values: 1, ..ext() });
    assert_eq!(nth_setting(2), Setting::MetadataUseVersion);
    assert_eq!(low_32(-1), -1);
    assert_eq!(low_32(0x1_0000_0005), 5);
    assert_eq!(low_32(0x8000_0000), i32::MIN);
}

#[test]
fn error_of_a_refresh() {
    let e = ExtData { pragma_data_version: 4, checked_config_this_tx: 1, ..ext() };
    assert_eq!(
        config_refresh_error(&e, "read", Some("sync-log-version"), "ERROR", "no such table", true, "yes", "2"),
        "cr-sqlite config refresh failed: operation=read, key=sync-log-version, rc=ERROR, sqlite_error=no such table, autocommit=true, data_version=4, checked_this_tx=1, crsql_master=yes, table_infos=2, write_version=1, use_version=1, sync_log_version=1, merge_equal_values=0"
    );
    assert_eq!(master_exists(Stepped::Row(1)), "yes");
    assert_eq!(master_exists(Stepped::Done), "no");
    assert_eq!(master_exists(Stepped::Other(ResultCode::ERROR)), "error");
    assert!(config_refresh_error(&e, "read", None, "ERROR", "", false, "", "").contains("key=<none>, rc=ERROR"));
}

#[test]
fn work_of_tasks() {
    let queued = |task| match task_step(task) {
        TaskStep::Queue { suffix, prefix } => (suffix, prefix),
        _ => panic!("nothing is queued"),
    };
    assert_eq!(queued(ConfigTask::QueueMigration), ("__crsql_clock", "migration_v1_to_v2_migration"));
    assert_eq!(queued(ConfigTask::QueueV1Cleanup), ("__crsql_clock", "cleanup_v1_tables"));
    assert_eq!(queued(ConfigTask::QueueV2Cleanup), ("__crsql_v2_clock", "cleanup_v2_tables"));
    let counted = |task| match task_step(task) {
        TaskStep::NonePending { sql } => sql,
        _ => panic!("nothing is counted"),
    };
    assert_eq!(counted(ConfigTask::CleanupDone), CLEANUP_PENDING_SQL);
    for task in [ConfigTask::MigrationDone, ConfigTask::UseMigrationDone, ConfigTask::SyncMigrationDone] {
        assert_eq!(counted(task), MIGRATION_PENDING_SQL);
    }
    assert!(matches!(task_step(ConfigTask::NoCrrTables), TaskStep::NoCrrTables));
    assert!(matches!(
        task_step(ConfigTask::CreateV2Tables),
        TaskStep::CreateTables { suffix: "__crsql_clock" }
    ));
    assert!(matches!(
        task_step(ConfigTask::ClearMigrationMarkers),
        TaskStep::Run { sql: CLEAR_MIGRATION_SQL }
    ));
}

#[test]
fn tables_by_suffix() {
    assert_eq!(strip_suffix("foo__crsql_clock", "__crsql_clock"), Some("foo".to_string()));
    assert_eq!(strip_suffix("foo__crsql_pks", "__crsql_clock"), None);
    assert_eq!(strip_suffix("clock", "__crsql_clock"), None);
    assert_eq!(
        tables_with_suffix_sql("__crsql_clock"),
        "SELECT DISTINCT name FROM sqlite_master WHERE name LIKE '%__crsql_clock'\0"
    );
    let found = ["a__crsql_clock".to_string(), "bxxcrsql_clock".to_string(), "c__crsql_clock".to_string()];
    let plan = queue_tasks(&found, "__crsql_clock", "cleanup_v1_tables");
    assert_eq!(plan.len(), 2);
    assert_eq!(plan[1].sql, "INSERT OR REPLACE INTO crsql_master (key, value) VALUES (?, ?)");
    let key = ColumnValue::Text("cleanup_v1_tables_c".to_string());
    assert_eq!(plan[1].binds, [key, ColumnValue::Integer(0)]);
    assert_eq!(find_tables_with_suffix(&found, "__crsql_clock"), ["a", "c"]);
    assert_eq!(queue_task("cleanup_v1_tables", "foo"), "cleanup_v1_tables_foo");
}
