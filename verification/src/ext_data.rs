//! What a connection keeps in memory.

use vstd::prelude::*;

verus! {

/// The state of a connection.
#[derive(Clone, Copy, PartialEq, Eq, Structural, Debug)]
pub struct ExtData {
    /// The version of the database, -1 where it has not been read.
    pub db_version: i64,
    /// The version of the transaction under way, -1 where it has none yet.
    pub pending_db_version: i64,
    /// The number of changes that the transaction has made.
    pub seq: i32,
    /// 1 once the transaction has made sure that it knows its tables.
    pub updated_table_infos_this_tx: i32,
    /// The version of the schema that the known tables are from, -1 for none.
    pub pragma_schema_version_for_table_infos: i32,
    /// The number that changes when another connection commits.
    pub pragma_data_version: i32,
    /// Not 0 once the transaction has made sure that it knows its settings.
    pub checked_config_this_tx: i32,
    /// 1 where changes with equal values are told apart by their sites.
    pub merge_equal_values: i32,
    /// Which metadata are written: 1 the first format, 2 both, 3 the second.
    pub metadata_write_version: i32,
    /// Which metadata are read: 1 the first format, 2 the second.
    pub metadata_use_version: i32,
    /// Which changes are handed out: 1 one to a cell, 2 packed by rows.
    pub sync_log_version: i32,
    /// The time of the transaction, 0 for none.
    pub timestamp: u64,
    /// The time of transactions that have none, 0 for none.
    pub default_timestamp: u64,
    /// Not 0 where local writes are to win over all others.
    pub force_update_mode: i32,
    /// How many rows the merges of the transaction have changed.
    pub rows_impacted: i32,
}

} // verus!
