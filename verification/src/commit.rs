//! The ends of a transaction.
//!
//! A transaction has a version, a time and caches of its own. None of them outlives it.

use crate::db_version::SiteMap;
use crate::ext_data::ExtData;
use crate::result_code::ResultCode;
use crate::tableinfo::TableInfo;
use vstd::prelude::*;

verus! {

/// The state once a transaction is over, whichever way.
pub open spec fn after_tx(ext: ExtData) -> ExtData {
    ExtData {
        pending_db_version: -1i64,
        seq: 0,
        updated_table_infos_this_tx: 0,
        checked_config_this_tx: 0,
        timestamp: 0,
        ..ext
    }
}

/// The state once a transaction is committed: its version, if it has one, is that of
/// the database.
pub open spec fn committed(ext: ExtData) -> ExtData {
    if ext.pending_db_version > -1 {
        after_tx(ExtData { db_version: ext.pending_db_version, ..ext })
    } else {
        after_tx(ext)
    }
}

/// Forgets what belongs to the transaction that is over.
pub fn commit_or_rollback_reset(ext_data: &mut ExtData)
    ensures
        *final(ext_data) == after_tx(*old(ext_data)),
{
    ext_data.pending_db_version = -1;
    ext_data.seq = 0;
    ext_data.updated_table_infos_this_tx = 0;
    ext_data.checked_config_this_tx = 0;
    ext_data.timestamp = 0;
}

/// The caches of a transaction are empty, and the tables are otherwise as they were.
pub open spec fn caches_empty(before: Seq<TableInfo>, tables: Seq<TableInfo>, ordinals: SiteMap, last: SiteMap) -> bool {
    &&& ordinals.wf()
    &&& ordinals@ == Map::<Seq<u8>, i64>::empty()
    &&& last.wf()
    &&& last@ == Map::<Seq<u8>, i64>::empty()
    &&& tables.len() == before.len()
    &&& forall|i: int|
        0 <= i < tables.len() ==> {
            &&& (#[trigger] tables[i]).cl_cache@ == Map::<i64, i64>::empty()
            &&& tables[i] == (TableInfo { cl_cache: tables[i].cl_cache, ..before[i] })
        }
}

/// Takes over the version of the transaction that is committed, and empties its caches.
pub fn crsql_commit_hook(
    ext_data: &mut ExtData,
    tables: &mut Vec<TableInfo>,
    ordinals: &mut SiteMap,
    last: &mut SiteMap,
) -> (r: ResultCode)
    ensures
        *final(ext_data) == committed(*old(ext_data)),
        caches_empty(old(tables)@, final(tables)@, *final(ordinals), *final(last)),
        r == ResultCode::OK,
{
    if ext_data.pending_db_version > -1 {
        ext_data.db_version = ext_data.pending_db_version;
    }
    commit_or_rollback_reset(ext_data);
    clear_caches(tables, ordinals, last);
    ResultCode::OK
}

/// Forgets the transaction that is rolled back, and empties its caches.
pub fn crsql_rollback_hook(
    ext_data: &mut ExtData,
    tables: &mut Vec<TableInfo>,
    ordinals: &mut SiteMap,
    last: &mut SiteMap,
)
    ensures
        *final(ext_data) == after_tx(*old(ext_data)),
        caches_empty(old(tables)@, final(tables)@, *final(ordinals), *final(last)),
{
    commit_or_rollback_reset(ext_data);
    clear_caches(tables, ordinals, last);
}

/// Empties the caches of a transaction, at its end and where it goes back to a
/// savepoint: the causal lengths of rows, the ordinals of sites and their versions.
pub fn clear_caches(tables: &mut Vec<TableInfo>, ordinals: &mut SiteMap, last: &mut SiteMap)
    ensures
        caches_empty(old(tables)@, final(tables)@, *final(ordinals), *final(last)),
{
    ordinals.clear();
    last.clear();
    let mut i: usize = 0;
    while i < tables.len()
        invariant
            i <= tables@.len(),
            tables@.len() == old(tables)@.len(),
            forall|j: int|
                0 <= j < i ==> {
                    &&& (#[trigger] tables@[j]).cl_cache@ == Map::<i64, i64>::empty()
                    &&& tables@[j] == (TableInfo { cl_cache: tables@[j].cl_cache, ..old(tables)@[j] })
                },
            forall|j: int| i <= j < tables@.len() ==> tables@[j] == old(tables)@[j],
        decreases tables@.len() - i,
    {
        tables[i].clear_cl_cache();
        i = i + 1;
    }
}

/// A commit takes the version of the transaction over exactly where it has one, and a rollback
/// never does. Both end all that belongs to the transaction, and leave the settings, the time for
/// transactions without one and what is known of the schema.
pub proof fn ends_of_transactions(ext: ExtData)
    ensures
        ext.pending_db_version >= 0 ==> committed(ext).db_version == ext.pending_db_version,
        ext.pending_db_version < 0 ==> committed(ext).db_version == ext.db_version,
        after_tx(ext).db_version == ext.db_version,
        committed(ext) == (ExtData { db_version: committed(ext).db_version, ..after_tx(ext) }),
        after_tx(ext).pending_db_version == -1,
        after_tx(ext).seq == 0,
        after_tx(ext).timestamp == 0,
        after_tx(ext).updated_table_infos_this_tx == 0,
        after_tx(ext).checked_config_this_tx == 0,
        after_tx(after_tx(ext)) == after_tx(ext),
        ext == (ExtData {
            pending_db_version: ext.pending_db_version,
            seq: ext.seq,
            updated_table_infos_this_tx: ext.updated_table_infos_this_tx,
            checked_config_this_tx: ext.checked_config_this_tx,
            timestamp: ext.timestamp,
            ..after_tx(ext)
        }),
{
}

} // verus!
