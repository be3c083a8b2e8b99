//! The settings of a connection, and the moves between formats of the metadata.
//!
//! Metadata move from the first format to the second in steps: first both are
//! written, then the second is read and handed out, then the first is dropped.

use crate::ext_data::ExtData;
use crate::result_code::Stepped;
use crate::pack_columns::{to_unsigned, ColumnValue, Val};
use crate::statement::{bound, one, push_statement, sqls, two, Sql, Statement};
use crate::steps::statement;
use crate::text::{decimal, decimal_of, push_part, same, texts, to_chars, from_chars};
use crate::util::{table_key, GET_MASTER_VALUE_SQL, SET_MASTER_VALUE_SQL};
use vstd::prelude::*;
use vstd::string::*;

verus! {

pub const MERGE_EQUAL_VALUES: &'static str = "merge-equal-values";

pub const METADATA_WRITE_VERSION: &'static str = "metadata-write-version";

pub const METADATA_USE_VERSION: &'static str = "metadata-use-version";

pub const SYNC_LOG_VERSION: &'static str = "sync-log-version";

pub const DEFAULT_TS: &'static str = "default-ts";

pub const METADATA_WRITE_VERSION_DEFAULT: i32 = 1;

pub const METADATA_USE_VERSION_DEFAULT: i32 = 1;

pub const SYNC_LOG_VERSION_DEFAULT: i32 = 1;

/// The first format is written.
pub const METADATA_VERSION_V1: i32 = 1;

/// Both formats are written.
pub const METADATA_VERSION_V2_AND_V1: i32 = 2;

/// The second format is written.
pub const METADATA_VERSION_V2: i32 = 3;

/// Starts a change of settings.
pub const CONFIG_BEGIN_SQL: &'static str = "SAVEPOINT config_set";

/// Ends a change of settings.
pub const CONFIG_END_SQL: &'static str = "RELEASE config_set";

/// Undoes a change of settings.
pub const CONFIG_UNDO_SQL: &'static str = "ROLLBACK TO config_set";

/// Writes a setting, and gives it back.
pub const INSERT_CONFIG_SQL: &'static str = "INSERT OR REPLACE INTO crsql_master VALUES (?, ?) RETURNING value";

/// Counts the tables that are still to be migrated.
pub const MIGRATION_PENDING_SQL: &'static str = "SELECT count(*) FROM crsql_master WHERE key LIKE 'migration_v1_to_v2_migration_%'\0";

/// Forgets the migration of all tables.
pub const CLEAR_MIGRATION_SQL: &'static str = "DELETE FROM crsql_master WHERE key LIKE 'migration_v1_to_v2_migration_%' OR key LIKE 'migration_v1_to_v2_remaining_%'";

/// Counts the tables that are still to be cleaned up.
pub const CLEANUP_PENDING_SQL: &'static str = "SELECT count(*) FROM crsql_master WHERE key LIKE 'cleanup_v1_tables_%' OR key LIKE 'cleanup_v2_tables_%'\0";

// ---------------------------------------------------------------------------
// Settings
// ---------------------------------------------------------------------------
/// A setting that is kept in the database.
#[derive(Clone, Copy, PartialEq, Eq, Structural, Debug)]
pub enum Setting {
    MergeEqualValues,
    MetadataWriteVersion,
    MetadataUseVersion,
    SyncLogVersion,
}

impl Setting {
    /// The name of the setting.
    pub open spec fn spec_name(self) -> Seq<char> {
        match self {
            Setting::MergeEqualValues => MERGE_EQUAL_VALUES@,
            Setting::MetadataWriteVersion => METADATA_WRITE_VERSION@,
            Setting::MetadataUseVersion => METADATA_USE_VERSION@,
            Setting::SyncLogVersion => SYNC_LOG_VERSION@,
        }
    }

    /// The name of the setting.
    pub fn name(self) -> (r: &'static str)
        ensures
            r@ == self.spec_name(),
    {
        match self {
            Setting::MergeEqualValues => MERGE_EQUAL_VALUES,
            Setting::MetadataWriteVersion => METADATA_WRITE_VERSION,
            Setting::MetadataUseVersion => METADATA_USE_VERSION,
            Setting::SyncLogVersion => SYNC_LOG_VERSION,
        }
    }

    /// The setting of that name.
    pub open spec fn spec_from_name(name: Seq<char>) -> Option<Setting> {
        if name == MERGE_EQUAL_VALUES@ {
            Some(Setting::MergeEqualValues)
        } else if name == METADATA_WRITE_VERSION@ {
            Some(Setting::MetadataWriteVersion)
        } else if name == METADATA_USE_VERSION@ {
            Some(Setting::MetadataUseVersion)
        } else if name == SYNC_LOG_VERSION@ {
            Some(Setting::SyncLogVersion)
        } else {
            None
        }
    }

    /// The setting of that name.
    pub fn from_name(name: &str) -> (r: Option<Setting>)
        ensures
            r == Self::spec_from_name(name@),
    {
        if same(name, MERGE_EQUAL_VALUES) {
            Some(Setting::MergeEqualValues)
        } else if same(name, METADATA_WRITE_VERSION) {
            Some(Setting::MetadataWriteVersion)
        } else if same(name, METADATA_USE_VERSION) {
            Some(Setting::MetadataUseVersion)
        } else if same(name, SYNC_LOG_VERSION) {
            Some(Setting::SyncLogVersion)
        } else {
            None
        }
    }

    /// The value that a connection has for the setting.
    pub open spec fn value_in(self, ext: ExtData) -> i32 {
        match self {
            Setting::MergeEqualValues => ext.merge_equal_values,
            Setting::MetadataWriteVersion => ext.metadata_write_version,
            Setting::MetadataUseVersion => ext.metadata_use_version,
            Setting::SyncLogVersion => ext.sync_log_version,
        }
    }

    /// The state of a connection with another value for the setting.
    pub open spec fn set_in(self, ext: ExtData, value: i32) -> ExtData {
        match self {
            Setting::MergeEqualValues => ExtData { merge_equal_values: value, ..ext },
            Setting::MetadataWriteVersion => ExtData { metadata_write_version: value, ..ext },
            Setting::MetadataUseVersion => ExtData { metadata_use_version: value, ..ext },
            Setting::SyncLogVersion => ExtData { sync_log_version: value, ..ext },
        }
    }
}

fn set_in(ext: &mut ExtData, setting: Setting, value: i32)
    ensures
        *final(ext) == setting.set_in(*old(ext), value),
{
    match setting {
        Setting::MergeEqualValues => ext.merge_equal_values = value,
        Setting::MetadataWriteVersion => ext.metadata_write_version = value,
        Setting::MetadataUseVersion => ext.metadata_use_version = value,
        Setting::SyncLogVersion => ext.sync_log_version = value,
    }
}

/// The key under which a setting is kept.
pub fn config_key(name: &str) -> (r: String)
    ensures
        r@ == "config."@ + name@,
{
    table_key("config.", name)
}

// ---------------------------------------------------------------------------
// Moves
// ---------------------------------------------------------------------------
/// Whether `metadata-write-version` may go from one value to another: forward, or back
/// from both formats to the first.
pub open spec fn write_move_ok(old: int, new: int) -> bool {
    ||| old == 1 && new == 2
    ||| old == 2 && new == 3
    ||| old == 2 && new == 1
    ||| old == 1 && new == 3
    ||| old == new
}

/// Whether `metadata-use-version` may go from one value to another: to a format that
/// is written.
pub open spec fn use_move_ok(old: int, new: int, write_version: int) -> bool {
    ||| old == 1 && new == 2 && (write_version == 3 || write_version == 2)
    ||| old == 2 && new == 1 && (write_version == 1 || write_version == 2)
    ||| old == new
}

/// Whether `sync-log-version` may go from one value to another: packed changes need the
/// second format to be read.
pub open spec fn sync_move_ok(old: int, new: int, use_version: int, write_version: int) -> bool {
    ||| old == 1 && new == 2 && use_version == 2 && (write_version == 3 || write_version == 2)
    ||| old == 2 && new == 1 && use_version == 1
    ||| old == new
}

/// Whether `metadata-write-version` may go from one value to another.
pub fn validate_write_version_transition(old: i32, new: i32) -> (r: bool)
    ensures
        r == write_move_ok(old as int, new as int),
{
    (old == METADATA_VERSION_V1 && new == METADATA_VERSION_V2_AND_V1) || (old
        == METADATA_VERSION_V2_AND_V1 && new == METADATA_VERSION_V2) || (old
        == METADATA_VERSION_V2_AND_V1 && new == METADATA_VERSION_V1) || (old == METADATA_VERSION_V1
        && new == METADATA_VERSION_V2) || old == new
}

/// Whether `metadata-use-version` may go from one value to another.
pub fn validate_use_version_transition(old: i32, new: i32, write_version: i32) -> (r: bool)
    ensures
        r == use_move_ok(old as int, new as int, write_version as int),
{
    if old == 1 && new == 2 {
        write_version == METADATA_VERSION_V2 || write_version == METADATA_VERSION_V2_AND_V1
    } else if old == 2 && new == 1 {
        write_version == METADATA_VERSION_V1 || write_version == METADATA_VERSION_V2_AND_V1
    } else {
        old == new
    }
}

/// Whether `sync-log-version` may go from one value to another.
pub fn validate_sync_log_transition(old: i32, new: i32, use_version: i32, write_version: i32) -> (r: bool)
    ensures
        r == sync_move_ok(old as int, new as int, use_version as int, write_version as int),
{
    if old == 1 && new == 2 {
        use_version == 2 && (write_version == METADATA_VERSION_V2 || write_version
            == METADATA_VERSION_V2_AND_V1)
    } else if old == 2 && new == 1 {
        use_version == 1
    } else {
        old == new
    }
}

/// Something that has to hold, or has to be done, before a setting changes.
#[derive(Clone, Copy, PartialEq, Eq, Structural, Debug)]
pub enum ConfigTask {
    /// No table is replicated.
    NoCrrTables,
    /// No clean-up is under way.
    CleanupDone,
    /// Create the metadata of the second format for all replicated tables.
    CreateV2Tables,
    /// Queue the migration of all replicated tables.
    QueueMigration,
    /// All tables are migrated.
    MigrationDone,
    /// Queue the removal of the metadata of the first format.
    QueueV1Cleanup,
    /// Forget the migration.
    ClearMigrationMarkers,
    /// Queue the removal of the metadata of the second format.
    QueueV2Cleanup,
    /// All tables are migrated, asked for `metadata-use-version`.
    UseMigrationDone,
    /// All tables are migrated, asked for `sync-log-version`.
    SyncMigrationDone,
}

/// How a task is done, or its question answered.
#[derive(Clone, Copy, Debug)]
pub enum TaskStep {
    /// Ask whether any table is replicated, as
    /// [`has_no_crr_tables`](crate::is_crr::has_no_crr_tables) says.
    NoCrrTables,
    /// Create the metadata of the second format for each table that has a table of metadata with
    /// this suffix, where it has none.
    CreateTables { suffix: &'static str },
    /// Queue a task for each table that has a table of metadata with this suffix, as
    /// [`queue_tasks`] says: its key begins with `prefix`.
    Queue { suffix: &'static str, prefix: &'static str },
    /// The answer is yes where this counts nothing.
    NonePending { sql: &'static str },
    /// Run this.
    Run { sql: &'static str },
}

/// How a task is done, or its question answered.
pub enum TaskWork {
    NoCrrTables,
    CreateTables(Seq<char>),
    Queue(Seq<char>, Seq<char>),
    NonePending(Seq<char>),
    Run(Seq<char>),
}

impl View for TaskStep {
    type V = TaskWork;

    open spec fn view(&self) -> TaskWork {
        match self {
            TaskStep::NoCrrTables => TaskWork::NoCrrTables,
            TaskStep::CreateTables { suffix } => TaskWork::CreateTables(suffix@),
            TaskStep::Queue { suffix, prefix } => TaskWork::Queue(suffix@, prefix@),
            TaskStep::NonePending { sql } => TaskWork::NonePending(sql@),
            TaskStep::Run { sql } => TaskWork::Run(sql@),
        }
    }
}

/// How a task is done: tables are migrated and lose the first format by its tables of clocks, and
/// lose the second by those of the second.
pub open spec fn work_of(task: ConfigTask) -> TaskWork {
    match task {
        ConfigTask::NoCrrTables => TaskWork::NoCrrTables,
        ConfigTask::CleanupDone => TaskWork::NonePending(CLEANUP_PENDING_SQL@),
        ConfigTask::CreateV2Tables => TaskWork::CreateTables("__crsql_clock"@),
        ConfigTask::QueueMigration => TaskWork::Queue("__crsql_clock"@, "migration_v1_to_v2_migration"@),
        ConfigTask::MigrationDone => TaskWork::NonePending(MIGRATION_PENDING_SQL@),
        ConfigTask::QueueV1Cleanup => TaskWork::Queue("__crsql_clock"@, "cleanup_v1_tables"@),
        ConfigTask::ClearMigrationMarkers => TaskWork::Run(CLEAR_MIGRATION_SQL@),
        ConfigTask::QueueV2Cleanup => TaskWork::Queue("__crsql_v2_clock"@, "cleanup_v2_tables"@),
        ConfigTask::UseMigrationDone => TaskWork::NonePending(MIGRATION_PENDING_SQL@),
        ConfigTask::SyncMigrationDone => TaskWork::NonePending(MIGRATION_PENDING_SQL@),
    }
}

/// How a task is done, or its question answered.
pub fn task_step(task: ConfigTask) -> (r: TaskStep)
    ensures
        r@ == work_of(task),
{
    match task {
        ConfigTask::NoCrrTables => TaskStep::NoCrrTables,
        ConfigTask::CleanupDone => TaskStep::NonePending { sql: CLEANUP_PENDING_SQL },
        ConfigTask::CreateV2Tables => TaskStep::CreateTables { suffix: "__crsql_clock" },
        ConfigTask::QueueMigration => {
            TaskStep::Queue { suffix: "__crsql_clock", prefix: "migration_v1_to_v2_migration" }
        },
        ConfigTask::MigrationDone => TaskStep::NonePending { sql: MIGRATION_PENDING_SQL },
        ConfigTask::QueueV1Cleanup => TaskStep::Queue { suffix: "__crsql_clock", prefix: "cleanup_v1_tables" },
        ConfigTask::ClearMigrationMarkers => TaskStep::Run { sql: CLEAR_MIGRATION_SQL },
        ConfigTask::QueueV2Cleanup => TaskStep::Queue { suffix: "__crsql_v2_clock", prefix: "cleanup_v2_tables" },
        ConfigTask::UseMigrationDone => TaskStep::NonePending { sql: MIGRATION_PENDING_SQL },
        ConfigTask::SyncMigrationDone => TaskStep::NonePending { sql: MIGRATION_PENDING_SQL },
    }
}

/// What is said where the answer to a task is no. A task that does something has no such
/// answer.
pub open spec fn refusal_of(task: ConfigTask) -> Option<Seq<char>> {
    match task {
        ConfigTask::NoCrrTables => Some("Cannot set metadata-write-version to v2 directly: existing CRR tables found. Migrate via v2&v1 first."@),
        ConfigTask::CleanupDone => Some("Cannot transition metadata-write-version: cleanup tasks still pending"@),
        ConfigTask::MigrationDone => Some("Cannot set metadata-write-version to v2: migration not complete for all tables"@),
        ConfigTask::UseMigrationDone => Some("Cannot set metadata-use-version to v2: migration not complete for all tables"@),
        ConfigTask::SyncMigrationDone => Some("Cannot set sync-log-version to v2: migration not complete for all tables"@),
        _ => None,
    }
}

/// What is said where a task fails.
pub open spec fn failure_of(task: ConfigTask) -> Seq<char> {
    match task {
        ConfigTask::NoCrrTables => "Failed to check for existing CRR tables"@,
        ConfigTask::CleanupDone => "Failed to check cleanup status"@,
        ConfigTask::CreateV2Tables => "Failed to create V2 tables during transition"@,
        ConfigTask::QueueMigration => "Failed to queue migration tasks"@,
        ConfigTask::MigrationDone => "Failed to check migration status"@,
        ConfigTask::QueueV1Cleanup => "Failed to queue V1 cleanup tasks"@,
        ConfigTask::ClearMigrationMarkers => "Failed to clear migration markers"@,
        ConfigTask::QueueV2Cleanup => "Failed to queue V2 cleanup tasks"@,
        ConfigTask::UseMigrationDone => "Failed to check migration status"@,
        ConfigTask::SyncMigrationDone => "Failed to check migration status"@,
    }
}

/// What has to hold and to be done before `metadata-write-version` goes from one value
/// to another. Straight to the second format it goes only where nothing is
/// replicated; otherwise all clean-up has to be over, the second format is created
/// before it is written, and the first is dropped only once all is migrated.
pub open spec fn write_tasks(old: int, new: int) -> Seq<ConfigTask> {
    if old == 1 && new == 3 {
        seq![ConfigTask::NoCrrTables]
    } else if old == 1 && new == 2 {
        seq![ConfigTask::CleanupDone, ConfigTask::CreateV2Tables, ConfigTask::QueueMigration]
    } else if new == 3 {
        seq![ConfigTask::CleanupDone, ConfigTask::MigrationDone, ConfigTask::QueueV1Cleanup]
    } else if old == 2 && new == 1 {
        seq![ConfigTask::CleanupDone, ConfigTask::ClearMigrationMarkers, ConfigTask::QueueV2Cleanup]
    } else {
        seq![ConfigTask::CleanupDone]
    }
}

/// The settings that change with `metadata-write-version`: a format that is no longer
/// written is no longer read.
pub open spec fn write_changes(new: i32) -> Seq<(Setting, i32)> {
    if new == 1 {
        seq![
            (Setting::MetadataWriteVersion, new),
            (Setting::MetadataUseVersion, 1i32),
            (Setting::SyncLogVersion, 1i32),
        ]
    } else if new == 3 {
        seq![(Setting::MetadataWriteVersion, new), (Setting::MetadataUseVersion, 2i32)]
    } else {
        seq![(Setting::MetadataWriteVersion, new)]
    }
}

/// What comes of a request to set a setting.
pub enum Request {
    /// It is refused, and why.
    Refused(Seq<char>),
    /// The time for transactions without one is this; it is kept in the database too.
    DefaultTs(u64),
    /// These tasks have to succeed, in this order; then these settings change. The
    /// first of them is the one that was asked for.
    Change(Seq<ConfigTask>, Seq<(Setting, i32)>),
}

/// Why `metadata-use-version` does not go from one value to another.
pub open spec fn use_refusal(old: int, new: int) -> Seq<char> {
    if old == 1 && new == 2 {
        "Cannot set metadata-use-version to v2: requires metadata-write-version to be v2&v1 or v2 first, and all V1→V2 migrations must be complete. Run crsql_incremental_maintenance() until it returns 0."@
    } else if old == 2 && new == 1 {
        "Cannot set metadata-use-version to v1: requires metadata-write-version to be v1 or v2&v1 first."@
    } else {
        "Invalid metadata-use-version transition"@
    }
}

/// Why `sync-log-version` does not go from one value to another.
pub open spec fn sync_refusal(old: int, new: int, use_version: int) -> Seq<char> {
    if old == 1 && new == 2 && use_version != 2 {
        "Cannot set sync-log-version to v2: requires metadata-use-version to be v2 first. Run crsql_incremental_maintenance() to complete V1→V2 migration, then set metadata-use-version to 2."@
    } else if old == 1 && new == 2 {
        "Cannot set sync-log-version to v2: requires metadata-write-version to be v2 or v2&v1."@
    } else if old == 2 && new == 1 {
        "Cannot set sync-log-version to v1: requires metadata-use-version to be v1 first."@
    } else {
        "Invalid sync-log-version transition"@
    }
}

/// What comes of a request to set the setting `name`. The value is given as an integer
/// of 32 bits and as one of 64.
pub open spec fn request(ext: ExtData, name: Seq<char>, value: i32, wide: i64) -> Request {
    if name == DEFAULT_TS@ {
        if wide < 0 {
            Request::Refused(
                "default-ts must be >= 0 (0 disables, >0 used when crsql_set_ts was not called)"@,
            )
        } else {
            Request::DefaultTs(wide as u64)
        }
    } else {
        match Setting::spec_from_name(name) {
            None => Request::Refused("Unknown setting name: "@ + name),
            Some(Setting::MergeEqualValues) => Request::Change(seq![], seq![(Setting::MergeEqualValues, value)]),
            Some(Setting::MetadataWriteVersion) => {
                let old = ext.metadata_write_version;
                if !write_move_ok(old as int, value as int) {
                    Request::Refused("Invalid metadata-write-version transition"@)
                } else {
                    Request::Change(write_tasks(old as int, value as int), write_changes(value))
                }
            },
            Some(Setting::MetadataUseVersion) => {
                let old = ext.metadata_use_version;
                if !use_move_ok(old as int, value as int, ext.metadata_write_version as int) {
                    Request::Refused(use_refusal(old as int, value as int))
                } else {
                    Request::Change(
                        if value == 2 { seq![ConfigTask::UseMigrationDone] } else { seq![] },
                        seq![(Setting::MetadataUseVersion, value)],
                    )
                }
            },
            Some(Setting::SyncLogVersion) => {
                let old = ext.sync_log_version;
                let use_version = ext.metadata_use_version as int;
                if !sync_move_ok(old as int, value as int, use_version, ext.metadata_write_version as int) {
                    Request::Refused(sync_refusal(old as int, value as int, use_version))
                } else {
                    Request::Change(
                        if value == 2 { seq![ConfigTask::SyncMigrationDone] } else { seq![] },
                        seq![(Setting::SyncLogVersion, value)],
                    )
                }
            },
        }
    }
}

/// What is to be done to set a setting.
pub enum ConfigPlan {
    /// Refuse, and say why.
    Refused(String),
    /// Store this for the time of transactions without one, by this statement, and where that
    /// succeeds take it over.
    DefaultTs(u64, Statement),
    /// Do these tasks in this order, and where all succeed store these settings and
    /// apply them.
    Change(Vec<ConfigTask>, Vec<(Setting, i32)>),
}

impl ConfigPlan {
    /// What the plan makes of the request.
    pub open spec fn is_for(self, request: Request) -> bool {
        match (self, request) {
            (ConfigPlan::Refused(msg), Request::Refused(why)) => msg@ == why,
            (ConfigPlan::DefaultTs(ts, store), Request::DefaultTs(value)) => ts == value && store@
                == stored_default_ts(value),
            (ConfigPlan::Change(tasks, changes), Request::Change(needed, wanted)) => tasks@ == needed && changes@
                == wanted,
            _ => false,
        }
    }
}

fn plan_tasks(old: i32, new: i32) -> (r: Vec<ConfigTask>)
    ensures
        r@ == write_tasks(old as int, new as int),
{
    let mut tasks: Vec<ConfigTask> = Vec::new();
    if old == METADATA_VERSION_V1 && new == METADATA_VERSION_V2 {
        tasks.push(ConfigTask::NoCrrTables);
    } else {
        tasks.push(ConfigTask::CleanupDone);
        if new == METADATA_VERSION_V2_AND_V1 && old == METADATA_VERSION_V1 {
            tasks.push(ConfigTask::CreateV2Tables);
            tasks.push(ConfigTask::QueueMigration);
        }
        if new == METADATA_VERSION_V2 {
            tasks.push(ConfigTask::MigrationDone);
            tasks.push(ConfigTask::QueueV1Cleanup);
        }
        if new == METADATA_VERSION_V1 && old == METADATA_VERSION_V2_AND_V1 {
            tasks.push(ConfigTask::ClearMigrationMarkers);
            tasks.push(ConfigTask::QueueV2Cleanup);
        }
    }
    assert(tasks@ =~= write_tasks(old as int, new as int));
    tasks
}

fn plan_changes(new: i32) -> (r: Vec<(Setting, i32)>)
    ensures
        r@ == write_changes(new),
{
    let mut changes: Vec<(Setting, i32)> = Vec::new();
    changes.push((Setting::MetadataWriteVersion, new));
    if new == METADATA_VERSION_V1 {
        changes.push((Setting::MetadataUseVersion, 1));
        changes.push((Setting::SyncLogVersion, 1));
    } else if new == METADATA_VERSION_V2 {
        changes.push((Setting::MetadataUseVersion, 2));
    }
    assert(changes@ =~= write_changes(new));
    changes
}

fn one_change(setting: Setting, value: i32) -> (r: Vec<(Setting, i32)>)
    ensures
        r@ == seq![(setting, value)],
{
    let mut changes: Vec<(Setting, i32)> = Vec::new();
    changes.push((setting, value));
    assert(changes@ =~= seq![(setting, value)]);
    changes
}

fn tasks_if(needed: bool, task: ConfigTask) -> (r: Vec<ConfigTask>)
    ensures
        r@ == if needed { seq![task] } else { seq![] },
{
    let mut tasks: Vec<ConfigTask> = Vec::new();
    if needed {
        tasks.push(task);
    }
    assert(tasks@ =~= if needed { seq![task] } else { seq![] });
    tasks
}

/// What is to be done to set the setting `name`. The value is given as an integer of 32
/// bits and as one of 64.
pub fn crsql_config_set(ext: &ExtData, name: &str, value: i32, wide: i64) -> (r: ConfigPlan)
    ensures
        r.is_for(request(*ext, name@, value, wide)),
{
    if same(name, DEFAULT_TS) {
        if wide < 0 {
            return ConfigPlan::Refused(
                "default-ts must be >= 0 (0 disables, >0 used when crsql_set_ts was not called)".to_owned(),
            );
        }
        return ConfigPlan::DefaultTs(wide as u64, persist_default_ts(wide as u64));
    }
    match Setting::from_name(name) {
        None => ConfigPlan::Refused("Unknown setting name: ".to_owned().concat(name)),
        Some(Setting::MergeEqualValues) => {
            ConfigPlan::Change(
                tasks_if(false, ConfigTask::CleanupDone),
                one_change(Setting::MergeEqualValues, value),
            )
        },
        Some(Setting::MetadataWriteVersion) => {
            let old: i32 = ext.metadata_write_version;
            if !validate_write_version_transition(old, value) {
                return ConfigPlan::Refused("Invalid metadata-write-version transition".to_owned());
            }
            ConfigPlan::Change(plan_tasks(old, value), plan_changes(value))
        },
        Some(Setting::MetadataUseVersion) => {
            let old: i32 = ext.metadata_use_version;
            if !validate_use_version_transition(old, value, ext.metadata_write_version) {
                let msg = if old == 1 && value == 2 {
                    "Cannot set metadata-use-version to v2: requires metadata-write-version to be v2&v1 or v2 first, and all V1→V2 migrations must be complete. Run crsql_incremental_maintenance() until it returns 0."
                } else if old == 2 && value == 1 {
                    "Cannot set metadata-use-version to v1: requires metadata-write-version to be v1 or v2&v1 first."
                } else {
                    "Invalid metadata-use-version transition"
                };
                return ConfigPlan::Refused(msg.to_owned());
            }
            ConfigPlan::Change(
                tasks_if(value == 2, ConfigTask::UseMigrationDone),
                one_change(Setting::MetadataUseVersion, value),
            )
        },
        Some(Setting::SyncLogVersion) => {
            let old: i32 = ext.sync_log_version;
            let use_version: i32 = ext.metadata_use_version;
            if !validate_sync_log_transition(old, value, use_version, ext.metadata_write_version) {
                let msg = if old == 1 && value == 2 {
                    if use_version != 2 {
                        "Cannot set sync-log-version to v2: requires metadata-use-version to be v2 first. Run crsql_incremental_maintenance() to complete V1→V2 migration, then set metadata-use-version to 2."
                    } else {
                        "Cannot set sync-log-version to v2: requires metadata-write-version to be v2 or v2&v1."
                    }
                } else if old == 2 && value == 1 {
                    "Cannot set sync-log-version to v1: requires metadata-use-version to be v1 first."
                } else {
                    "Invalid sync-log-version transition"
                };
                return ConfigPlan::Refused(msg.to_owned());
            }
            ConfigPlan::Change(
                tasks_if(value == 2, ConfigTask::SyncMigrationDone),
                one_change(Setting::SyncLogVersion, value),
            )
        },
    }
}

fn refusal_text(task: ConfigTask) -> (r: Option<String>)
    ensures
        r is Some <==> refusal_of(task) is Some,
        r matches Some(msg) ==> msg@ == refusal_of(task).unwrap(),
{
    match task {
        ConfigTask::NoCrrTables => Some("Cannot set metadata-write-version to v2 directly: existing CRR tables found. Migrate via v2&v1 first.".to_owned()),
        ConfigTask::CleanupDone => Some("Cannot transition metadata-write-version: cleanup tasks still pending".to_owned()),
        ConfigTask::MigrationDone => Some("Cannot set metadata-write-version to v2: migration not complete for all tables".to_owned()),
        ConfigTask::UseMigrationDone => Some("Cannot set metadata-use-version to v2: migration not complete for all tables".to_owned()),
        ConfigTask::SyncMigrationDone => Some("Cannot set sync-log-version to v2: migration not complete for all tables".to_owned()),
        _ => None,
    }
}

fn failure_text(task: ConfigTask) -> (r: String)
    ensures
        r@ == failure_of(task),
{
    match task {
        ConfigTask::NoCrrTables => "Failed to check for existing CRR tables".to_owned(),
        ConfigTask::CleanupDone => "Failed to check cleanup status".to_owned(),
        ConfigTask::CreateV2Tables => "Failed to create V2 tables during transition".to_owned(),
        ConfigTask::QueueMigration => "Failed to queue migration tasks".to_owned(),
        ConfigTask::MigrationDone => "Failed to check migration status".to_owned(),
        ConfigTask::QueueV1Cleanup => "Failed to queue V1 cleanup tasks".to_owned(),
        ConfigTask::ClearMigrationMarkers => "Failed to clear migration markers".to_owned(),
        ConfigTask::QueueV2Cleanup => "Failed to queue V2 cleanup tasks".to_owned(),
        ConfigTask::UseMigrationDone => "Failed to check migration status".to_owned(),
        ConfigTask::SyncMigrationDone => "Failed to check migration status".to_owned(),
    }
}

/// Why a task stands in the way of a setting, with what came of the task: `Ok(false)`
/// is the answer no, and `Err` holds a result code. `None` where it does not.
pub fn task_outcome(task: ConfigTask, outcome: Result<bool, i32>) -> (r: Option<(String, i32)>)
    ensures
        match outcome {
            Ok(yes) => match refusal_of(task) {
                Some(msg) => if yes {
                    r is None
                } else {
                    r matches Some((text, rc)) && text@ == msg && rc == 1
                },
                None => r is None,
            },
            Err(code) => r matches Some((text, rc)) && text@ == failure_of(task) && rc == code,
        },
{
    match outcome {
        Ok(yes) => {
            if yes {
                return None;
            }
            match refusal_text(task) {
                Some(msg) => Some((msg, 1)),
                None => None,
            }
        },
        Err(code) => Some((failure_text(task), code)),
    }
}

/// The state of a connection once settings have changed, in their order.
pub open spec fn with_changes(ext: ExtData, changes: Seq<(Setting, i32)>) -> ExtData
    decreases changes.len(),
{
    if changes.len() == 0 {
        ext
    } else {
        changes.last().0.set_in(with_changes(ext, changes.drop_last()), changes.last().1)
    }
}

/// Takes over settings that were stored.
pub fn apply_config_changes_to_ext_data(ext: &mut ExtData, changes: &[(Setting, i32)])
    ensures
        *final(ext) == with_changes(*old(ext), changes@),
{
    let mut i: usize = 0;
    while i < changes.len()
        invariant
            i <= changes@.len(),
            *ext == with_changes(*old(ext), changes@.take(i as int)),
        decreases changes@.len() - i,
    {
        let (setting, value) = changes[i];
        set_in(ext, setting, value);
        assert(changes@.take(i + 1).drop_last() =~= changes@.take(i as int));
        i = i + 1;
    }
    assert(changes@.take(i as int) =~= changes@);
}

/// Whether the settings fit together: the format that is read is written, and packed
/// changes are not handed out where only the first format is written.
pub open spec fn settings_ok(ext: ExtData) -> bool {
    let w = ext.metadata_write_version;
    let u = ext.metadata_use_version;
    let s = ext.sync_log_version;
    &&& w == 1 || w == 2 || w == 3
    &&& u == 1 || u == 2
    &&& s == 1 || s == 2
    &&& w == 1 ==> u == 1 && s == 1
    &&& w == 3 ==> u == 2
}

/// A connection starts with settings that fit together.
pub proof fn default_settings_ok(ext: ExtData)
    requires
        ext.metadata_write_version == METADATA_WRITE_VERSION_DEFAULT,
        ext.metadata_use_version == METADATA_USE_VERSION_DEFAULT,
        ext.sync_log_version == SYNC_LOG_VERSION_DEFAULT,
    ensures
        settings_ok(ext),
{
}

/// Settings that fit together still do after any request, whatever was asked for.
pub proof fn requests_keep_settings_ok(ext: ExtData, name: Seq<char>, value: i32, wide: i64)
    requires
        settings_ok(ext),
    ensures
        request(ext, name, value, wide) matches Request::Change(_, changes) ==> settings_ok(
            with_changes(ext, changes),
        ),
{
    reveal_with_fuel(with_changes, 4);
    if let Request::Change(_, changes) = request(ext, name, value, wide) {
        if changes.len() == 1 {
            assert(changes.drop_last() =~= seq![]);
        } else if changes.len() == 2 {
            assert(changes.drop_last() =~= seq![changes[0]]);
            assert(changes.drop_last().drop_last() =~= seq![]);
        } else {
            assert(changes.drop_last() =~= seq![changes[0], changes[1]]);
            assert(changes.drop_last().drop_last() =~= seq![changes[0]]);
            assert(changes.drop_last().drop_last().drop_last() =~= seq![]);
        }
    }
}

/// The first of the settings that change is the one that was asked for, with the value
/// that was asked for.
pub proof fn request_sets_what_was_asked(ext: ExtData, name: Seq<char>, value: i32, wide: i64)
    ensures
        request(ext, name, value, wide) matches Request::Change(_, changes) ==> {
            &&& changes.len() > 0
            &&& Setting::spec_from_name(name) == Some(changes[0].0)
            &&& changes[0].1 == value
        },
{
}

/// Once the second format alone is written, no request goes back.
pub proof fn no_way_back(ext: ExtData, value: i32, wide: i64)
    requires
        ext.metadata_write_version == METADATA_VERSION_V2,
        value != METADATA_VERSION_V2,
    ensures
        request(ext, METADATA_WRITE_VERSION@, value, wide) is Refused,
{
    lemma_setting_names();
}

/// Going back to the first format takes all settings back with it.
pub proof fn rollback_resets_settings(ext: ExtData, wide: i64)
    requires
        ext.metadata_write_version == METADATA_VERSION_V2_AND_V1,
    ensures
        request(ext, METADATA_WRITE_VERSION@, METADATA_VERSION_V1, wide) matches Request::Change(tasks, changes) && ({
            let after = with_changes(ext, changes);
            &&& after.metadata_write_version == 1
            &&& after.metadata_use_version == 1
            &&& after.sync_log_version == 1
            &&& tasks.contains(ConfigTask::QueueV2Cleanup)
        }),
{
    lemma_setting_names();
    reveal_with_fuel(with_changes, 4);
    let changes = write_changes(METADATA_VERSION_V1);
    assert(changes.drop_last() =~= seq![changes[0], changes[1]]);
    assert(changes.drop_last().drop_last() =~= seq![changes[0]]);
    assert(changes.drop_last().drop_last().drop_last() =~= seq![]);
    let tasks = write_tasks(2, 1);
    assert(tasks[2] == ConfigTask::QueueV2Cleanup);
}

/// Nothing that needs migrated tables is switched on before all tables are migrated: the
/// second format alone, or reading it, or handing out packed changes. Where nothing is
/// replicated there is nothing to migrate.
pub proof fn migration_comes_first(ext: ExtData, setting: Setting, value: i32, wide: i64)
    requires
        setting == Setting::MetadataWriteVersion ==> value == METADATA_VERSION_V2,
        setting != Setting::MetadataWriteVersion ==> value == 2,
        setting != Setting::MergeEqualValues,
    ensures
        request(ext, setting.spec_name(), value, wide) matches Request::Change(tasks, _) ==> {
            ||| tasks.contains(ConfigTask::MigrationDone)
            ||| tasks.contains(ConfigTask::UseMigrationDone)
            ||| tasks.contains(ConfigTask::SyncMigrationDone)
            ||| tasks.contains(ConfigTask::NoCrrTables)
        },
{
    lemma_setting_names();
    match request(ext, setting.spec_name(), value, wide) {
        Request::Change(tasks, _) => {
            match setting {
                Setting::MetadataWriteVersion => {
                    if ext.metadata_write_version == 1 {
                        assert(tasks[0] == ConfigTask::NoCrrTables);
                    } else {
                        assert(tasks[1] == ConfigTask::MigrationDone);
                    }
                },
                Setting::MetadataUseVersion => assert(tasks[0] == ConfigTask::UseMigrationDone),
                Setting::SyncLogVersion => assert(tasks[0] == ConfigTask::SyncMigrationDone),
                Setting::MergeEqualValues => {},
            }
        },
        _ => {},
    }
}

proof fn lemma_setting_names()
    ensures
        METADATA_WRITE_VERSION@ != DEFAULT_TS@,
        METADATA_USE_VERSION@ != DEFAULT_TS@,
        SYNC_LOG_VERSION@ != DEFAULT_TS@,
        MERGE_EQUAL_VALUES@ != DEFAULT_TS@,
        METADATA_WRITE_VERSION@ != MERGE_EQUAL_VALUES@,
        METADATA_USE_VERSION@ != MERGE_EQUAL_VALUES@,
        SYNC_LOG_VERSION@ != MERGE_EQUAL_VALUES@,
        METADATA_USE_VERSION@ != METADATA_WRITE_VERSION@,
        SYNC_LOG_VERSION@ != METADATA_WRITE_VERSION@,
        SYNC_LOG_VERSION@ != METADATA_USE_VERSION@,
{
    reveal_strlit("default-ts");
    reveal_strlit("metadata-write-version");
    reveal_strlit("metadata-use-version");
    reveal_strlit("sync-log-version");
    reveal_strlit("merge-equal-values");
    assert(METADATA_WRITE_VERSION@.len() == 22);
    assert(METADATA_USE_VERSION@.len() == 20);
    assert(SYNC_LOG_VERSION@.len() == 16);
    assert(MERGE_EQUAL_VALUES@.len() == 18);
    assert(DEFAULT_TS@.len() == 10);
}

/// Writes a setting.
pub open spec fn stored(setting: Setting, value: i32) -> Sql {
    bound(
        SET_MASTER_VALUE_SQL@,
        seq![Val::Text("config."@ + setting.spec_name()), Val::Integer(value as i64)],
    )
}

/// The statements that store changes of settings: the one that was asked for as it was given, and
/// those that come with it.
pub open spec fn store_sql(name: Seq<char>, value: Val, changes: Seq<(Setting, i32)>) -> Seq<Sql> {
    seq![bound(INSERT_CONFIG_SQL@, seq![Val::Text("config."@ + name), value])] + changes.skip(1).map_values(
        |c: (Setting, i32)| stored(c.0, c.1),
    )
}

/// The statements, to be run in their order, that store changes of settings; the first one has to
/// give a row. Where one fails, all is undone and [`persist_failed`] says why.
pub fn persist_config(name: &str, value: ColumnValue, changes: &[(Setting, i32)]) -> (r: Vec<Statement>)
    requires
        changes@.len() > 0,
    ensures
        sqls(r@) == store_sql(name@, value@, changes@),
{
    let ghost all = store_sql(name@, value@, changes@);
    let mut plan: Vec<Statement> = Vec::new();
    assert(sqls(plan@) =~= seq![]);
    push_statement(
        &mut plan,
        INSERT_CONFIG_SQL.to_owned(),
        two(ColumnValue::Text(config_key(name)), value),
    );
    let mut i: usize = 1;
    assert(all.take(1) =~= seq![all[0]]);
    assert(sqls(plan@) =~= all.take(1));
    while i < changes.len()
        invariant
            1 <= i <= changes@.len(),
            all == store_sql(name@, value@, changes@),
            sqls(plan@) == all.take(i as int),
        decreases changes@.len() - i,
    {
        let (setting, v) = changes[i];
        push_statement(
            &mut plan,
            SET_MASTER_VALUE_SQL.to_owned(),
            two(ColumnValue::Text(config_key(setting.name())), ColumnValue::Integer(v as i64)),
        );
        assert(all[i as int] == stored(setting, v));
        assert(all.take(i + 1) =~= all.take(i as int).push(all[i as int]));
        i = i + 1;
    }
    assert(all.take(i as int) =~= all);
    plan
}

/// What is said where a statement of [`persist_config`] fails, by its index.
pub fn persist_failed(i: usize) -> (r: &'static str)
    ensures
        r@ == (if i == 0 {
            "Could not persist config in database"@
        } else {
            "Could not persist cascaded config in database"@
        }),
{
    if i == 0 {
        "Could not persist config in database"
    } else {
        "Could not persist cascaded config in database"
    }
}

/// What is stored is what the connection takes over: there is one statement for each change, and
/// each setting that comes with the one that was asked for is stored with the value that the
/// connection has from then on.
pub proof fn stored_is_applied(ext: ExtData, name: Seq<char>, value: i32, wide: i64, raw: Val)
    ensures
        request(ext, name, value, wide) matches Request::Change(_, changes) ==> {
            &&& store_sql(name, raw, changes).len() == changes.len()
            &&& forall|i: int|
                1 <= i < changes.len() ==> #[trigger] store_sql(name, raw, changes)[i] == stored(
                    changes[i].0,
                    changes[i].0.value_in(with_changes(ext, changes)),
                )
        },
{
    reveal_with_fuel(with_changes, 4);
}

// ---------------------------------------------------------------------------
// The time for transactions without one
// ---------------------------------------------------------------------------
/// The key under which the time for transactions without one is kept.
pub open spec fn default_ts_key() -> Seq<char> {
    "config."@ + DEFAULT_TS@
}

/// Writes the time for transactions without one.
pub open spec fn stored_default_ts(value: u64) -> Sql {
    bound(
        SET_MASTER_VALUE_SQL@,
        seq![Val::Text(default_ts_key()), Val::Integer(crate::pack_columns::signed(value as nat) as i64)],
    )
}

/// Reads the time for transactions without one.
pub open spec fn read_default_ts() -> Sql {
    bound(GET_MASTER_VALUE_SQL@, seq![Val::Text(default_ts_key())])
}

/// The state of a connection with another time for transactions without one.
pub open spec fn with_default_ts(ext: ExtData, value: u64) -> ExtData {
    ExtData { default_timestamp: value, ..ext }
}

/// The state of a connection once the time for transactions without one was read.
pub open spec fn with_read_default_ts(ext: ExtData, read: ConfigRead) -> ExtData {
    match read {
        ConfigRead::Value(v) => with_default_ts(ext, crate::pack_columns::unsigned(v) as u64),
        _ => ext,
    }
}

/// The statement that stores the time for transactions without one. Where it fails,
/// [`persist_failed`] says why, and the connection keeps the time that it has.
fn persist_default_ts(value: u64) -> (r: Statement)
    ensures
        r@ == stored_default_ts(value),
{
    statement(
        SET_MASTER_VALUE_SQL.to_owned(),
        two(
            ColumnValue::Text(config_key(DEFAULT_TS)),
            ColumnValue::Integer(crate::pack_columns::to_signed(value)),
        ),
    )
}

/// The statement that reads the time for transactions without one.
pub fn ask_default_ts() -> (r: Statement)
    ensures
        r@ == read_default_ts(),
{
    statement(GET_MASTER_VALUE_SQL.to_owned(), one(ColumnValue::Text(config_key(DEFAULT_TS))))
}

/// Takes over the time for transactions without one, once it was stored.
pub fn apply_default_ts(ext: &mut ExtData, value: u64)
    ensures
        *final(ext) == (ExtData { default_timestamp: value, ..*old(ext) }),
{
    ext.default_timestamp = value;
}

/// Takes over the time for transactions without one, as it was read; where nothing is stored, or
/// it could not be read, the connection keeps what it has.
pub fn load_default_ts(ext: &mut ExtData, read: ConfigRead)
    ensures
        *final(ext) == with_read_default_ts(*old(ext), read),
{
    match read {
        ConfigRead::Value(v) => {
            ext.default_timestamp = to_unsigned(v);
        },
        _ => {},
    }
}

/// A connection as it is opened: nothing is known yet, and the settings are those that hold where
/// none are stored.
pub open spec fn opened() -> ExtData {
    ExtData {
        db_version: -1i64,
        pending_db_version: -1i64,
        seq: 0,
        updated_table_infos_this_tx: 0,
        pragma_schema_version_for_table_infos: -1i32,
        pragma_data_version: -1i32,
        checked_config_this_tx: 0,
        merge_equal_values: 0,
        metadata_write_version: METADATA_WRITE_VERSION_DEFAULT,
        metadata_use_version: METADATA_USE_VERSION_DEFAULT,
        sync_log_version: SYNC_LOG_VERSION_DEFAULT,
        timestamp: 0,
        default_timestamp: 0,
        force_update_mode: 0,
        rows_impacted: 0,
    }
}

/// A connection as it is opened, with the time for transactions without one that was read.
pub fn open_ext_data(default_ts: ConfigRead) -> (r: ExtData)
    ensures
        r == with_read_default_ts(opened(), default_ts),
{
    let mut ext = ExtData {
        db_version: -1,
        pending_db_version: -1,
        seq: 0,
        updated_table_infos_this_tx: 0,
        pragma_schema_version_for_table_infos: -1,
        pragma_data_version: -1,
        checked_config_this_tx: 0,
        merge_equal_values: 0,
        metadata_write_version: METADATA_WRITE_VERSION_DEFAULT,
        metadata_use_version: METADATA_USE_VERSION_DEFAULT,
        sync_log_version: SYNC_LOG_VERSION_DEFAULT,
        timestamp: 0,
        default_timestamp: 0,
        force_update_mode: 0,
        rows_impacted: 0,
    };
    load_default_ts(&mut ext, default_ts);
    ext
}

/// A request for the time of transactions without one takes over what was asked for, and what it
/// stores is what any connection takes over that reads it later, one that is opened then among
/// them: it is read from the key that it is written to.
pub proof fn default_ts_is_kept(ext: ExtData, later: ExtData, value: i32, wide: i64)
    requires
        wide >= 0,
    ensures
        request(ext, DEFAULT_TS@, value, wide) == Request::DefaultTs(wide as u64),
        stored_default_ts(wide as u64).binds == read_default_ts().binds.push(Val::Integer(wide)),
        with_read_default_ts(later, ConfigRead::Value(wide)) == with_default_ts(later, wide as u64),
        with_read_default_ts(opened(), ConfigRead::Value(wide)).default_timestamp == wide,
{
    assert(stored_default_ts(wide as u64).binds =~= read_default_ts().binds.push(Val::Integer(wide)));
}

/// Undoes a change of settings that failed: the tables have to be read again.
pub fn rollback_config_set(ext: &mut ExtData)
    ensures
        *final(ext) == (ExtData {
            updated_table_infos_this_tx: 0,
            pragma_schema_version_for_table_infos: -1i32,
            ..*old(ext)
        }),
{
    ext.updated_table_infos_this_tx = 0;
    ext.pragma_schema_version_for_table_infos = -1;
}

/// The value of a setting, or of the time for transactions without one.
pub open spec fn config_value(ext: ExtData, name: Seq<char>) -> Option<int> {
    if Setting::spec_from_name(name) is Some {
        Some(Setting::spec_from_name(name).unwrap().value_in(ext) as int)
    } else if name == DEFAULT_TS@ {
        Some(crate::pack_columns::signed(ext.default_timestamp as nat))
    } else {
        None
    }
}

/// What was set is what is given back: of a setting by its name, and of the time for transactions
/// without one. A setting has a value exactly where a request for it is not refused for its name.
pub proof fn settings_are_given_back(ext: ExtData, setting: Setting, value: i32, wide: i64, name: Seq<char>)
    requires
        wide >= 0,
    ensures
        config_value(setting.set_in(ext, value), setting.spec_name()) == Some(value as int),
        config_value(with_default_ts(ext, wide as u64), DEFAULT_TS@) == Some(wide as int),
        config_value(ext, name) is None <==> request(ext, name, value, wide) == Request::Refused(
            "Unknown setting name: "@ + name,
        ) && Setting::spec_from_name(name) is None && name != DEFAULT_TS@,
{
    lemma_setting_names();
}

/// The value of a setting, or of the time for transactions without one; an error for
/// a name that is neither.
pub fn crsql_config_get(ext: &ExtData, name: &str) -> (r: Result<i64, String>)
    ensures
        match config_value(*ext, name@) {
            Some(value) => r matches Ok(v) && v == value,
            None => r matches Err(msg) && msg@ == "Unknown setting name: "@ + name@,
        },
{
    match Setting::from_name(name) {
        Some(Setting::MergeEqualValues) => Ok(ext.merge_equal_values as i64),
        Some(Setting::MetadataWriteVersion) => Ok(ext.metadata_write_version as i64),
        Some(Setting::MetadataUseVersion) => Ok(ext.metadata_use_version as i64),
        Some(Setting::SyncLogVersion) => Ok(ext.sync_log_version as i64),
        None => {
            if same(name, DEFAULT_TS) {
                Ok(crate::pack_columns::to_signed(ext.default_timestamp))
            } else {
                Err("Unknown setting name: ".to_owned().concat(name))
            }
        },
    }
}

/// The time of the transaction: its own, else the time for transactions without one,
/// which it then takes over, else none.
pub fn ensure_timestamp(ext: &mut ExtData) -> (r: Result<u64, ()>)
    ensures
        old(ext).timestamp != 0 ==> r == Ok::<u64, ()>(old(ext).timestamp) && *final(ext) == *old(ext),
        old(ext).timestamp == 0 && old(ext).default_timestamp != 0 ==> {
            &&& r == Ok::<u64, ()>(old(ext).default_timestamp)
            &&& *final(ext) == (ExtData { timestamp: old(ext).default_timestamp, ..*old(ext) })
        },
        old(ext).timestamp == 0 && old(ext).default_timestamp == 0 ==> r is Err && *final(ext) == *old(ext),
{
    if ext.timestamp != 0 {
        return Ok(ext.timestamp);
    }
    if ext.default_timestamp != 0 {
        ext.timestamp = ext.default_timestamp;
        return Ok(ext.timestamp);
    }
    Err(())
}

// ---------------------------------------------------------------------------
// Settings of other connections
// ---------------------------------------------------------------------------
/// What reading a setting came to.
#[derive(Clone, Copy, PartialEq, Eq, Structural, Debug)]
pub enum ConfigRead {
    Value(i64),
    Missing,
    Failed,
}

/// The settings in the order in which they are read.
pub open spec fn setting_at(i: int) -> Setting {
    if i == 0 {
        Setting::MergeEqualValues
    } else if i == 1 {
        Setting::MetadataWriteVersion
    } else if i == 2 {
        Setting::MetadataUseVersion
    } else {
        Setting::SyncLogVersion
    }
}

/// The settings in the order in which they are read.
pub fn nth_setting(i: usize) -> (r: Setting)
    ensures
        r == setting_at(i as int),
{
    if i == 0 {
        Setting::MergeEqualValues
    } else if i == 1 {
        Setting::MetadataWriteVersion
    } else if i == 2 {
        Setting::MetadataUseVersion
    } else {
        Setting::SyncLogVersion
    }
}

/// The low 32 bits of `v`, as a signed number.
pub open spec fn low32(v: int) -> int {
    let m = v % 0x1_0000_0000;
    if m < 0x8000_0000 {
        m
    } else {
        m - 0x1_0000_0000
    }
}

/// The low 32 bits of `v`, as a signed number.
pub fn low_32(v: i64) -> (r: i32)
    ensures
        r == low32(v as int),
{
    let m: u64 = to_unsigned(v) % 0x1_0000_0000;
    assert(m == v as int % 0x1_0000_0000) by {
        if v < 0 {
            assert((v + 0x1_0000_0000_0000_0000) % 0x1_0000_0000 == v as int % 0x1_0000_0000);
        }
    }
    if m < 0x8000_0000 {
        m as i32
    } else {
        (m as i64 - 0x1_0000_0000) as i32
    }
}

/// Whether a transaction has to make sure that it knows its settings: once, or each
/// time where every statement is a transaction of its own.
pub open spec fn check_needed(ext: ExtData, autocommit: bool) -> bool {
    ext.checked_config_this_tx == 0 || autocommit
}

/// Whether a transaction has to make sure that it knows its settings: once, or each
/// time where every statement is a transaction of its own.
pub fn config_check_needed(ext: &ExtData, autocommit: bool) -> (r: bool)
    ensures
        r == check_needed(*ext, autocommit),
{
    ext.checked_config_this_tx == 0 || autocommit
}

/// The state with the settings that were read, up to the first that could not be, and
/// which one that is.
pub open spec fn with_reads(ext: ExtData, reads: Seq<ConfigRead>) -> (ExtData, Option<int>)
    decreases reads.len(),
{
    if reads.len() == 0 {
        (ext, None)
    } else {
        let (before, failed) = with_reads(ext, reads.drop_last());
        let i = reads.len() - 1;
        if failed is Some {
            (before, failed)
        } else {
            match reads.last() {
                ConfigRead::Value(v) => (setting_at(i).set_in(before, low32(v as int) as i32), None),
                ConfigRead::Missing => (before, None),
                ConfigRead::Failed => (before, Some(i)),
            }
        }
    }
}

/// What comes of making sure that the settings are known.
#[derive(Clone, Copy, PartialEq, Eq, Structural, Debug)]
pub enum ConfigCheck {
    /// They are.
    Known,
    /// It could not be seen whether another connection has committed.
    NoDataVersion,
    /// This setting could not be read.
    NotRead(Setting),
    /// The time for transactions without one could not be read.
    DefaultTsNotRead,
}

/// What comes of making sure that the settings are known, and the state after it.
pub open spec fn config_check(
    ext: ExtData,
    autocommit: bool,
    changed: int,
    reads: Seq<ConfigRead>,
    default_ts: ConfigRead,
) -> (ExtData, ConfigCheck) {
    let (seen, failed) = with_reads(ext, reads);
    let checked: i32 = if autocommit { 0 } else { 1 };
    if changed < 0 {
        (ext, ConfigCheck::NoDataVersion)
    } else if changed == 0 {
        (ExtData { checked_config_this_tx: checked, ..ext }, ConfigCheck::Known)
    } else {
        match failed {
            Some(i) => (seen, ConfigCheck::NotRead(setting_at(i))),
            None => if default_ts == ConfigRead::Failed {
                (seen, ConfigCheck::DefaultTsNotRead)
            } else {
                (
                    ExtData { checked_config_this_tx: checked, ..with_read_default_ts(seen, default_ts) },
                    ConfigCheck::Known,
                )
            },
        }
    }
}

/// Makes sure that the settings are known, where [`config_check_needed`]. `changed` is 0
/// where no other connection has committed, and negative where that could not be
/// seen; otherwise the settings were read, in the order of [`nth_setting`], and
/// `default_ts`, the time for transactions without one, after them.
pub fn ensure_config_current(
    ext: &mut ExtData,
    autocommit: bool,
    changed: i32,
    reads: &[ConfigRead],
    default_ts: ConfigRead,
) -> (r: ConfigCheck)
    requires
        changed > 0 ==> reads@.len() == 4,
    ensures
        (*final(ext), r) == config_check(*old(ext), autocommit, changed as int, reads@, default_ts),
{
    if changed < 0 {
        return ConfigCheck::NoDataVersion;
    }
    if changed > 0 {
        let mut i: usize = 0;
        assert(reads@.take(0) =~= seq![]);
        while i < reads.len()
            invariant
                i <= reads@.len(),
                changed > 0,
                with_reads(*old(ext), reads@.take(i as int)) == (*ext, None::<int>),
            decreases reads@.len() - i,
        {
            assert(reads@.take(i + 1).drop_last() =~= reads@.take(i as int));
            match reads[i] {
                ConfigRead::Value(v) => set_in(ext, nth_setting(i), low_32(v)),
                ConfigRead::Missing => {},
                ConfigRead::Failed => {
                    proof {
                        lemma_reads_stop(*old(ext), reads@, i as int + 1);
                        assert(reads@.take(reads@.len() as int) =~= reads@);
                    }
                    return ConfigCheck::NotRead(nth_setting(i));
                },
            }
            i = i + 1;
        }
        assert(reads@.take(i as int) =~= reads@);
        if matches!(default_ts, ConfigRead::Failed) {
            return ConfigCheck::DefaultTsNotRead;
        }
        load_default_ts(ext, default_ts);
    }
    ext.checked_config_this_tx = if autocommit {
        0
    } else {
        1
    };
    ConfigCheck::Known
}

proof fn lemma_reads_stop(ext: ExtData, reads: Seq<ConfigRead>, n: int)
    requires
        0 <= n <= reads.len(),
        with_reads(ext, reads.take(n)).1 is Some,
    ensures
        with_reads(ext, reads.take(reads.len() as int)) == with_reads(ext, reads.take(n)),
    decreases reads.len() - n,
{
    if n < reads.len() {
        assert(reads.take(n + 1).drop_last() =~= reads.take(n));
        lemma_reads_stop(ext, reads, n + 1);
    }
}

/// `true` or `false`.
pub open spec fn bool_of(b: bool) -> Seq<char> {
    if b {
        "true"@
    } else {
        "false"@
    }
}

pub fn bool_text(b: bool) -> (r: &'static str)
    ensures
        r@ == bool_of(b),
{
    if b {
        "true"
    } else {
        "false"
    }
}

/// The setting that an error is about.
pub open spec fn key_of(key: Option<Seq<char>>) -> Seq<char> {
    match key {
        Some(k) => k,
        None => "<none>"@,
    }
}

fn key_text<'a>(key: Option<&'a str>) -> (r: &'a str)
    ensures
        r@ == key_of(match key { Some(k) => Some(k@), None => None }),
{
    match key {
        Some(k) => k,
        None => "<none>",
    }
}

/// Looks whether the settings table is there.
pub const MASTER_EXISTS_SQL: &'static str = "SELECT 1 FROM sqlite_master WHERE type = 'table' AND name = 'crsql_master'";

/// What is said of the settings table, once the database was asked for it.
pub fn master_exists(stepped: Stepped) -> (r: &'static str)
    ensures
        r@ == (match stepped {
            Stepped::Row(_) => "yes"@,
            Stepped::Done => "no"@,
            Stepped::Other(_) => "error"@,
        }),
{
    match stepped {
        Stepped::Row(_) => "yes",
        Stepped::Done => "no",
        Stepped::Other(_) => "error",
    }
}

/// What is said of a failure to read the settings: the operation and the setting, what
/// SQLite says of it, whether the settings table is there, and the state of the
/// connection.
pub open spec fn refresh_error(
    ext: ExtData,
    operation: Seq<char>,
    key: Option<Seq<char>>,
    rc: Seq<char>,
    sqlite_error: Seq<char>,
    autocommit: bool,
    master: Seq<char>,
    table_infos: Seq<char>,
) -> Seq<char> {
    "cr-sqlite config refresh failed: operation="@ + operation + ", key="@ + key_of(key) + ", rc="@ + rc + ", sqlite_error="@ + sqlite_error + ", autocommit="@ + bool_of(autocommit) + ", data_version="@ + decimal_of(ext.pragma_data_version as int) + ", checked_this_tx="@ + decimal_of(ext.checked_config_this_tx as int) + ", crsql_master="@ + master + ", table_infos="@ + table_infos + ", write_version="@ + decimal_of(ext.metadata_write_version as int) + ", use_version="@ + decimal_of(ext.metadata_use_version as int) + ", sync_log_version="@ + decimal_of(ext.sync_log_version as int) + ", merge_equal_values="@ + decimal_of(ext.merge_equal_values as int)
}

/// What is said of a failure to read the settings: the operation and the setting, what
/// SQLite says of it, whether the settings table is there, and the state of the
/// connection.
pub fn config_refresh_error(
    ext: &ExtData,
    operation: &str,
    key: Option<&str>,
    rc: &str,
    sqlite_error: &str,
    autocommit: bool,
    master: &str,
    table_infos: &str,
) -> (r: String)
    ensures
        r@ == refresh_error(*ext, operation@, (match key { Some(k) => Some(k@), None => None }), rc@, sqlite_error@, autocommit, master@, table_infos@),
{
    "cr-sqlite config refresh failed: operation=".to_owned()
        .concat(operation)
        .concat(", key=")
        .concat(key_text(key))
        .concat(", rc=")
        .concat(rc)
        .concat(", sqlite_error=")
        .concat(sqlite_error)
        .concat(", autocommit=")
        .concat(bool_text(autocommit))
        .concat(", data_version=")
        .concat(decimal(ext.pragma_data_version as i64).as_str())
        .concat(", checked_this_tx=")
        .concat(decimal(ext.checked_config_this_tx as i64).as_str())
        .concat(", crsql_master=")
        .concat(master)
        .concat(", table_infos=")
        .concat(table_infos)
        .concat(", write_version=")
        .concat(decimal(ext.metadata_write_version as i64).as_str())
        .concat(", use_version=")
        .concat(decimal(ext.metadata_use_version as i64).as_str())
        .concat(", sync_log_version=")
        .concat(decimal(ext.sync_log_version as i64).as_str())
        .concat(", merge_equal_values=")
        .concat(decimal(ext.merge_equal_values as i64).as_str())
}

// ---------------------------------------------------------------------------
// Tables by their names
// ---------------------------------------------------------------------------
/// The name in front of `suffix`, where `name` ends with it.
pub open spec fn stripped(name: Seq<char>, suffix: Seq<char>) -> Option<Seq<char>> {
    if name.len() >= suffix.len() && name.skip(name.len() - suffix.len()) == suffix {
        Some(name.take(name.len() - suffix.len()))
    } else {
        None
    }
}

/// The name in front of `suffix`, where `name` ends with it.
pub fn strip_suffix(name: &str, suffix: &str) -> (r: Option<String>)
    ensures
        match stripped(name@, suffix@) {
            Some(s) => r matches Some(t) && t@ == s,
            None => r is None,
        },
{
    let n = to_chars(name);
    let s = to_chars(suffix);
    if n.len() < s.len() {
        return None;
    }
    let at: usize = n.len() - s.len();
    let mut i: usize = 0;
    while i < s.len()
        invariant
            i <= s@.len(),
            n@ == name@,
            s@ == suffix@,
            at + s@.len() == n@.len(),
            n@.len() <= usize::MAX,
            forall|j: int| 0 <= j < i ==> n@[at + j] == s@[j],
        decreases s@.len() - i,
    {
        if n[at + i] != s[i] {
            assert(name@.skip(at as int)[i as int] != suffix@[i as int]);
            return None;
        }
        i = i + 1;
    }
    assert(name@.skip(at as int) =~= suffix@);
    let front = vstd::slice::slice_subrange(n.as_slice(), 0, at);
    assert(front@ =~= name@.take(at as int));
    Some(from_chars(front))
}

/// The names in front of `suffix`, of those that end with it.
pub open spec fn base_names(found: Seq<Seq<char>>, suffix: Seq<char>) -> Seq<Seq<char>>
    decreases found.len(),
{
    if found.len() == 0 {
        seq![]
    } else {
        match stripped(found.last(), suffix) {
            Some(base) => base_names(found.drop_last(), suffix).push(base),
            None => base_names(found.drop_last(), suffix),
        }
    }
}

/// The query for the names that end with `suffix`.
pub fn tables_with_suffix_sql(suffix: &str) -> (r: String)
    ensures
        r@ == "SELECT DISTINCT name FROM sqlite_master WHERE name LIKE '%"@ + suffix@ + "'\0"@,
{
    "SELECT DISTINCT name FROM sqlite_master WHERE name LIKE '%".to_owned().concat(suffix).concat("'\0")
}

/// The tables that have a table of metadata, from the names that
/// [`tables_with_suffix_sql`] gave: it takes more than it should, since `_` matches any
/// character.
pub fn find_tables_with_suffix(found: &[String], suffix: &str) -> (r: Vec<String>)
    ensures
        texts(r@) == base_names(texts(found@), suffix@),
{
    let mut tables: Vec<String> = Vec::new();
    let mut i: usize = 0;
    assert(texts(found@).take(0) =~= seq![]);
    assert(texts(tables@) =~= seq![]);
    while i < found.len()
        invariant
            i <= found@.len(),
            texts(tables@) == base_names(texts(found@).take(i as int), suffix@),
        decreases found@.len() - i,
    {
        proof {
            let now = texts(found@).take(i + 1);
            assert(now.drop_last() =~= texts(found@).take(i as int));
            assert(now.last() == found@[i as int]@);
        }
        match strip_suffix(found[i].as_str(), suffix) {
            Some(base) => push_part(&mut tables, base),
            None => {},
        }
        i = i + 1;
    }
    assert(texts(found@).take(i as int) =~= texts(found@));
    tables
}

/// The key of a task on a table.
pub fn queue_task(key_prefix: &str, table_name: &str) -> (r: String)
    ensures
        r@ == key_prefix@ + "_"@ + table_name@,
{
    key_prefix.to_owned().concat("_").concat(table_name)
}

/// Queues a task on a table.
pub open spec fn queued(prefix: Seq<char>, table: Seq<char>) -> Sql {
    bound(SET_MASTER_VALUE_SQL@, seq![Val::Text(prefix + "_"@ + table), Val::Integer(0i64)])
}

/// The statements, to be run in their order, that queue a task for each table that has a table of
/// metadata with a suffix, from the names that [`tables_with_suffix_sql`] gave.
pub fn queue_tasks(found: &[String], suffix: &str, prefix: &str) -> (r: Vec<Statement>)
    ensures
        sqls(r@) == base_names(texts(found@), suffix@).map_values(|t: Seq<char>| queued(prefix@, t)),
{
    let tables = find_tables_with_suffix(found, suffix);
    let ghost all = texts(tables@).map_values(|t: Seq<char>| queued(prefix@, t));
    let mut plan: Vec<Statement> = Vec::new();
    let mut i: usize = 0;
    assert(sqls(plan@) =~= all.take(0));
    while i < tables.len()
        invariant
            i <= tables@.len(),
            all == texts(tables@).map_values(|t: Seq<char>| queued(prefix@, t)),
            sqls(plan@) == all.take(i as int),
        decreases tables@.len() - i,
    {
        push_statement(
            &mut plan,
            SET_MASTER_VALUE_SQL.to_owned(),
            two(ColumnValue::Text(queue_task(prefix, tables[i].as_str())), ColumnValue::Integer(0)),
        );
        assert(all[i as int] == queued(prefix@, tables@[i as int]@));
        assert(all.take(i + 1) =~= all.take(i as int).push(all[i as int]));
        i = i + 1;
    }
    assert(all.take(i as int) =~= all);
    plan
}

/// Whether a way of writing metadata writes a format.
pub open spec fn writes_format(write_version: int, format: int) -> bool {
    ||| format == 1 && 1 <= write_version <= 2
    ||| format == 2 && 2 <= write_version <= 3
}

/// A setting goes to another value exactly where that makes sense. What is written goes anywhere
/// but back from the second format alone. A format is read only where it is written. Packed changes
/// are handed out only where the second format is read and written, and single ones only where the
/// first is read. Each may stay as it is, and no other value is taken.
pub proof fn moves_of_settings(old: int, new: int, use_version: int, write_version: int)
    ensures
        write_move_ok(old, old),
        use_move_ok(old, old, write_version),
        sync_move_ok(old, old, use_version, write_version),
        1 <= old <= 3 && 1 <= new <= 3 ==> (write_move_ok(old, new) <==> old != 3 || new == 3),
        old != new && !(1 <= old <= 3 && 1 <= new <= 3) ==> !write_move_ok(old, new),
        1 <= old <= 2 && 1 <= new <= 2 && old != new ==> (use_move_ok(old, new, write_version) <==> writes_format(
            write_version,
            new,
        )),
        old != new && !(1 <= old <= 2 && 1 <= new <= 2) ==> !use_move_ok(old, new, write_version) && !sync_move_ok(
            old,
            new,
            use_version,
            write_version,
        ),
        old == 1 && new == 2 ==> (sync_move_ok(old, new, use_version, write_version) <==> use_version == 2
            && writes_format(write_version, 2)),
        old == 2 && new == 1 ==> (sync_move_ok(old, new, use_version, write_version) <==> use_version == 1),
{
}

/// What has to be done before the way of writing changes. Where it goes straight to the second
/// format, nothing may be replicated, and there is nothing else to do; else no clean-up may be
/// under way, which is seen to first. The second format is created, and the migration queued,
/// exactly where it is written from then on; metadata are queued for removal exactly where their
/// format is not written any more, those of the first only after all are migrated.
pub proof fn tasks_of_writing(old: int, new: int)
    requires
        1 <= old <= 3,
        1 <= new <= 3,
        write_move_ok(old, new),
    ensures
        ({
            let tasks = write_tasks(old, new);
            &&& old == 1 && new == 3 ==> tasks == seq![ConfigTask::NoCrrTables]
            &&& !(old == 1 && new == 3) ==> tasks.len() > 0 && tasks[0] == ConfigTask::CleanupDone
            &&& old == 1 && new == 2 ==> tasks.skip(1) == seq![ConfigTask::CreateV2Tables, ConfigTask::QueueMigration]
            &&& old == 2 && new == 1 ==> tasks.skip(1) == seq![
                ConfigTask::ClearMigrationMarkers,
                ConfigTask::QueueV2Cleanup,
            ]
            &&& old >= 2 && new == 3 ==> tasks.skip(1) == seq![ConfigTask::MigrationDone, ConfigTask::QueueV1Cleanup]
            &&& old == new && new != 3 ==> tasks.len() == 1
        }),
{
    let tasks = write_tasks(old, new);
    assert(old == 1 && new == 2 ==> tasks.skip(1) =~= seq![ConfigTask::CreateV2Tables, ConfigTask::QueueMigration]);
    assert(old == 2 && new == 1 ==> tasks.skip(1) =~= seq![
        ConfigTask::ClearMigrationMarkers,
        ConfigTask::QueueV2Cleanup,
    ]);
    assert(old >= 2 && new == 3 ==> tasks.skip(1) =~= seq![ConfigTask::MigrationDone, ConfigTask::QueueV1Cleanup]);
}

/// A request for one of the settings is refused exactly where its value cannot go there, and the
/// time for transactions without one exactly where it is negative. Reading the second format, and
/// handing out packed changes, wait for the migration; going back does not.
pub proof fn requests_follow_the_moves(ext: ExtData, value: i32, wide: i64)
    ensures
        request(ext, MERGE_EQUAL_VALUES@, value, wide) == Request::Change(
            seq![],
            seq![(Setting::MergeEqualValues, value)],
        ),
        request(ext, METADATA_WRITE_VERSION@, value, wide) is Change <==> write_move_ok(
            ext.metadata_write_version as int,
            value as int,
        ),
        request(ext, METADATA_USE_VERSION@, value, wide) is Change <==> use_move_ok(
            ext.metadata_use_version as int,
            value as int,
            ext.metadata_write_version as int,
        ),
        request(ext, SYNC_LOG_VERSION@, value, wide) is Change <==> sync_move_ok(
            ext.sync_log_version as int,
            value as int,
            ext.metadata_use_version as int,
            ext.metadata_write_version as int,
        ),
        request(ext, METADATA_USE_VERSION@, value, wide) matches Request::Change(tasks, _) ==> (tasks.len() == 1
            <==> value == 2) && tasks.len() <= 1,
        request(ext, SYNC_LOG_VERSION@, value, wide) matches Request::Change(tasks, _) ==> (tasks.len() == 1 <==> value
            == 2) && tasks.len() <= 1,
        wide >= 0 ==> request(ext, DEFAULT_TS@, value, wide) == Request::DefaultTs(wide as u64),
        wide < 0 ==> request(ext, DEFAULT_TS@, value, wide) is Refused,
{
    lemma_setting_names();
}

/// A setting that is set has its value, and no other setting, nor anything else of the connection,
/// changes with it; and every setting is found by its name.
pub proof fn settings_are_kept_apart(ext: ExtData, a: Setting, b: Setting, value: i32)
    ensures
        a.value_in(a.set_in(ext, value)) == value,
        a != b ==> b.value_in(a.set_in(ext, value)) == b.value_in(ext),
        a.set_in(a.set_in(ext, value), a.value_in(ext)) == ext,
        Setting::spec_from_name(a.spec_name()) == Some(a),
{
    lemma_setting_names();
}

/// The four settings are read in one order, each of them once, and one that was read takes the
/// place of what was known, while one that is not stored leaves it. The first that cannot be read
/// ends it.
pub proof fn settings_are_read_in_order(ext: ExtData, a: ConfigRead, b: ConfigRead, c: ConfigRead, d: ConfigRead)
    ensures
        ({
            let (seen, failed) = with_reads(ext, seq![a, b, c, d]);
            &&& failed is None <==> !(a is Failed) && !(b is Failed) && !(c is Failed) && !(d is Failed)
            &&& failed is None ==> {
                &&& seen.merge_equal_values == read_or(a, ext.merge_equal_values)
                &&& seen.metadata_write_version == read_or(b, ext.metadata_write_version)
                &&& seen.metadata_use_version == read_or(c, ext.metadata_use_version)
                &&& seen.sync_log_version == read_or(d, ext.sync_log_version)
                &&& seen.checked_config_this_tx == ext.checked_config_this_tx
                &&& seen.default_timestamp == ext.default_timestamp
            }
            &&& a is Failed ==> failed == Some(0int) && seen == ext
            &&& !(a is Failed) && b is Failed ==> failed == Some(1int)
            &&& !(a is Failed) && !(b is Failed) && c is Failed ==> failed == Some(2int)
            &&& !(a is Failed) && !(b is Failed) && !(c is Failed) && d is Failed ==> failed == Some(3int)
        }),
{
    let all = seq![a, b, c, d];
    reveal_with_fuel(with_reads, 5);
    assert(all.drop_last() =~= seq![a, b, c]);
    assert(seq![a, b, c].drop_last() =~= seq![a, b]);
    assert(seq![a, b].drop_last() =~= seq![a]);
    assert(seq![a].drop_last() =~= seq![]);
}

/// The value that was read of a setting, or another where none is stored.
pub open spec fn read_or(read: ConfigRead, value: i32) -> i32 {
    match read {
        ConfigRead::Value(v) => low32(v as int) as i32,
        _ => value,
    }
}

/// A number that fits in 32 bits is read as it is, and one that does not is cut: it is in the same
/// class.
pub proof fn numbers_are_cut(v: i64)
    ensures
        i32::MIN <= low32(v as int) <= i32::MAX,
        i32::MIN <= v <= i32::MAX ==> low32(v as int) == v,
        (low32(v as int) - v) % 0x1_0000_0000 == 0,
{
}

/// Settings are read once for a transaction, and for every statement outside one. What is known
/// stays where no other connection has committed. A transaction that could not make sure tries
/// again, and knows what it has read by then.
pub proof fn settings_are_checked_once(
    ext: ExtData,
    autocommit: bool,
    changed: int,
    reads: Seq<ConfigRead>,
    default_ts: ConfigRead,
)
    ensures
        ({
            let (after, check) = config_check(ext, autocommit, changed, reads, default_ts);
            let failed = with_reads(ext, reads).1;
            &&& check == ConfigCheck::Known && !autocommit ==> !check_needed(after, false)
            &&& check == ConfigCheck::Known && autocommit ==> check_needed(after, false)
            &&& check_needed(after, true)
            &&& check == ConfigCheck::NoDataVersion <==> changed < 0
            &&& changed <= 0 ==> after == (ExtData { checked_config_this_tx: after.checked_config_this_tx, ..ext })
            &&& changed == 0 ==> check == ConfigCheck::Known
            &&& changed > 0 ==> (check == ConfigCheck::Known <==> failed is None && !(default_ts is Failed))
            &&& changed > 0 ==> (check is NotRead <==> failed is Some)
            &&& check != ConfigCheck::Known && changed > 0 ==> after == with_reads(ext, reads).0
            &&& check == ConfigCheck::Known && changed > 0 && default_ts is Missing ==> after == (ExtData {
                checked_config_this_tx: after.checked_config_this_tx,
                ..with_reads(ext, reads).0
            })
        }),
{
}

} // verus!
