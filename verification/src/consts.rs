//! Names, limits and constants of the wire format.

use vstd::prelude::*;

verus! {

pub const TBL_SITE_ID: &'static str = "crsql_site_id";

pub const TBL_SCHEMA: &'static str = "crsql_master";

/// The version of the extension, two digits to each part of its number.
pub const CRSQLITE_VERSION: i32 = 180000;

pub const _CRSQLITE_VERSION_STR: &'static str = "0.18.0";

pub const CRSQLITE_VERSION_0_17_0: i32 = 170000;

/// The oldest SQLite that will do: 3.44.0, which orders within aggregates.
pub const MIN_SQLITE_VERSION: i32 = 3044000;

/// The length of a site id in bytes.
pub const SITE_ID_LEN: i32 = 16;

/// The number of rowids that each table has in the changes table.
pub const ROWID_SLAB_SIZE: i64 = 10000000000000;

/// The version of a database in which nothing was written.
pub const MIN_POSSIBLE_DB_VERSION: i64 = 0;

/// The longest name that a table or a column can have in a change, in bytes.
pub const MAX_TBL_NAME_LEN: i32 = 2048;

/// The number of bits that a column id takes in a cell key.
pub const CRSQL_COL_ID_BITS: u32 = 12;

/// The bits of a cell key that hold the column id.
pub const CRSQL_COL_ID_MASK: i64 = 4095;

/// The number of bytes that are kept of the hash of a primary key.
pub const PK_HASH_SIZE: usize = 10;

/// Row keys that are rowids stay below this bound, so that cell keys stay positive.
pub const MAX_ROWID_KEY: i64 = 0x8_0000_0000_0000;

pub const V2_COL_MAP_SUFFIX: &'static str = "__crsql_v2_col_map";

pub const V2_CLOCK_SUFFIX: &'static str = "__crsql_v2_clock";

pub const V2_PKS_SUFFIX: &'static str = "__crsql_v2_pks";

pub const V2_TOMBSTONES_SUFFIX: &'static str = "__crsql_v2_tombstones";

pub const V2_TOMBSTONE_PKS_SUFFIX: &'static str = "__crsql_v2_tombstone_pks";

/// The column name by which a change says that its row was deleted and that its key
/// is a hash.
pub const V2_HASH_TOMBSTONE_CID: &'static str = "-2";

/// The column name by which a change speaks of its row as a whole.
pub const INSERT_SENTINEL: &'static str = "-1";

/// The column name by which a change says that its row was deleted.
pub const DELETE_SENTINEL: &'static str = "-1";

pub const META_USE_V1: i32 = 1;

pub const META_USE_V2: i32 = 2;

pub const SYNC_LOG_V1: i32 = 1;

pub const SYNC_LOG_V2: i32 = 2;

} // verus!
