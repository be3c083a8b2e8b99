//! The logic of a conflict-free replicated SQLite extension: the wire format of
//! packed values, the changes virtual table, the merge rules, the bookkeeping of
//! replicated tables and the statements that carry all of it out.
//!
//! The library holds no database handle. It decides and writes statements; the
//! code around it runs them and hands the answers back.

pub mod alter_v2;
pub mod backfill_v2;
pub mod bootstrap_v2;
pub mod cell;
pub mod changes_vtab;
pub mod changes_vtab_read;
pub mod changes_vtab_write;
pub mod commit;
pub mod config;
pub mod consts;
pub mod converge;
pub mod create_crr;
pub mod db_version;
pub mod ext_data;
pub mod force_update;
pub mod hash_pk;
pub mod is_crr;
pub mod key_modes;
pub mod local_writes;
pub mod maintenance;
pub mod merge_laws;
pub mod merge_order;
pub mod merge_v1;
pub mod merge_v1_model;
pub mod merge_v2;
pub mod merge_v2_model;
pub mod merge_v2_runs;
pub mod migrate;
pub mod migrate_model;
pub mod migrate_run;
pub mod pack_columns;
pub mod result_code;
pub mod schema_directive;
pub mod site_version;
pub mod statement;
pub mod steps;
pub mod tableinfo;
pub mod teardown;
pub mod teardown_v2;
pub mod text;
pub mod text_laws;
pub mod upkeep_laws;
pub mod util;
pub mod v2_stmts;
