# crsql

Conflict-free replicated tables for SQLite, as a library that is verified with Verus.

A replicated table carries metadata: a causal length for each row, and a clock for each cell. Local
writes bump them, changes from other sites are merged by them, and all sites that have seen the same
changes agree. The library holds the rules; it never talks to a database itself. It says which
statements to run, and goes on by what came of them.

- `src/pack_columns.rs`, `src/hash_pk.rs`: packed values and the hashes of primary keys.
- `src/tableinfo.rs`, `src/v2_stmts.rs`, `src/util.rs`, `src/text.rs`: tables and the statements on
  their metadata.
- `src/changes_vtab.rs`, `src/changes_vtab_read.rs`: the table of changes, and the query behind it.
- `src/changes_vtab_write.rs`, `src/merge_order.rs`, `src/merge_v1.rs`, `src/merge_v2.rs`: merging
  changes; `src/converge.rs`: the proof that sites agree.
- `src/local_writes/`, `src/force_update.rs`, `src/db_version.rs`, `src/commit.rs`: local writes and
  transactions.
- `src/config.rs`, `src/migrate.rs`, `src/migrate_run.rs`, `src/maintenance.rs`, `src/backfill_v2.rs`:
  settings, and the move from one format of the metadata to the other.
- `src/create_crr.rs`, `src/bootstrap_v2.rs`, `src/alter_v2.rs`, `src/teardown.rs`,
  `src/schema_directive.rs`, `src/is_crr.rs`: making tables replicated ones, altering them, and
  undoing it.
- `tests/`: the library on concrete values.
- `app/`: the SQLite extension around the library.

Work that needs several questions and answers is a state machine with a `next` method: it takes what
came of the last action, and gives the next one.
