//! A row that was inserted here.

use crate::config::{ensure_timestamp, METADATA_VERSION_V2, METADATA_VERSION_V2_AND_V1};
use crate::consts::{INSERT_SENTINEL, MAX_ROWID_KEY};
use crate::ext_data::ExtData;
use crate::local_writes::v2::{timed, write_time};
use crate::pack_columns::{vals, ColumnValue, Val};
use crate::result_code::Stepped;
use crate::statement::{bound, no_values, push_statement, push_value, sqls, Statement};
use crate::tableinfo::TableInfo;
use vstd::prelude::*;
use vstd::slice::slice_subrange;
use vstd::string::*;

verus! {

/// The arguments of the trigger: the primary key, behind the name of the table; and the rowid,
/// last, where it is the key.
pub fn x_crsql_after_insert<'a>(key_is_rowid: bool, values: &'a [ColumnValue]) -> (r: (
    &'a [ColumnValue],
    Option<&'a ColumnValue>,
))
    requires
        values@.len() >= if key_is_rowid { 2int } else { 1 },
    ensures
        key_is_rowid ==> {
            &&& r.0@ == values@.subrange(1, values@.len() - 1)
            &&& r.1 matches Some(rowid)
            &&& *rowid == values@.last()
        },
        !key_is_rowid ==> r.0@ == values@.skip(1) && r.1 is None,
{
    let len: usize = values.len();
    if key_is_rowid {
        (slice_subrange(values, 1, len - 1), Some(&values[len - 1]))
    } else {
        let pks = slice_subrange(values, 1, len);
        assert(pks@ =~= values@.skip(1));
        (pks, None)
    }
}

/// Which metadata are written for a row that was inserted.
#[derive(Clone, Copy, PartialEq, Eq, Structural, Debug)]
pub enum InsertRoute {
    V1,
    /// The second format first, from the first where the row has metadata there only; then the
    /// first, with the same positions.
    Both,
    V2,
}

/// Why a row cannot be tracked, by its rowid.
pub open spec fn rowid_error(t: TableInfo, rowid: Option<i64>) -> Option<Seq<char>> {
    if !t.key_is_rowid {
        None
    } else {
        match rowid {
            None => Some("rowid-key table missing rowid value"@),
            Some(id) => if id < 0 || id >= MAX_ROWID_KEY {
                Some("rowid out of cr-sqlite safe range [0, 2251799813685248)"@)
            } else {
                None
            },
        }
    }
}

/// Which metadata are written for a row that was inserted.
pub open spec fn insert_route(ext: ExtData) -> InsertRoute {
    if ext.metadata_write_version == METADATA_VERSION_V2 {
        InsertRoute::V2
    } else if ext.metadata_write_version == METADATA_VERSION_V2_AND_V1 {
        InsertRoute::Both
    } else {
        InsertRoute::V1
    }
}

/// Which metadata are written for a row that was inserted; an error where the rowid is the key
/// and is missing, or cannot be packed with the ids of columns. Where the first format alone is
/// written, the transaction has to have a time, or takes over the time for those that have none;
/// for the second format that is seen to by [`insert_time`](crate::local_writes::v2::insert_time).
pub fn after_insert(ext: &mut ExtData, t: &TableInfo, rowid: Option<i64>) -> (r: Result<InsertRoute, String>)
    ensures
        match rowid_error(*t, rowid) {
            Some(why) => (r matches Err(msg) && msg@ == why) && *final(ext) == *old(ext),
            None => if insert_route(*old(ext)) != InsertRoute::V1 {
                (r matches Ok(route) && route == insert_route(*old(ext))) && *final(ext) == *old(ext)
            } else if write_time(*old(ext)) is Some {
                (r matches Ok(route) && route == InsertRoute::V1) && *final(ext) == timed(*old(ext))
            } else {
                &&& r matches Err(msg)
                &&& msg@ == "after_insert: timestamp not set — call crsql_set_ts() first or set default-ts"@
                &&& *final(ext) == *old(ext)
            },
        },
{
    if t.key_is_rowid {
        match rowid {
            None => return Err("rowid-key table missing rowid value".to_owned()),
            Some(id) => {
                if id < 0 || id >= MAX_ROWID_KEY {
                    return Err("rowid out of cr-sqlite safe range [0, 2251799813685248)".to_owned());
                }
            },
        }
    }
    if ext.metadata_write_version == METADATA_VERSION_V2 {
        Ok(InsertRoute::V2)
    } else if ext.metadata_write_version == METADATA_VERSION_V2_AND_V1 {
        Ok(InsertRoute::Both)
    } else {
        match ensure_timestamp(ext) {
            Ok(_) => Ok(InsertRoute::V1),
            Err(_) => Err(
                "after_insert: timestamp not set — call crsql_set_ts() first or set default-ts".to_owned(),
            ),
        }
    }
}

/// What is written in the first format.
#[derive(Clone, Copy, PartialEq, Eq, Structural, Debug)]
pub enum V1Insert {
    /// The row as a whole: it has no columns outside its primary key.
    Row,
    /// The row was there before: its sentinel, if it has one, and then its cells.
    SentinelAndCells,
    /// Its cells.
    Cells,
}

/// What is written in the first format, by whether the row had a key before.
pub fn v1_insert_step(t: &TableInfo, create_record_existed: bool) -> (r: V1Insert)
    ensures
        r == (if t.non_pks@.len() == 0 {
            V1Insert::Row
        } else if create_record_existed {
            V1Insert::SentinelAndCells
        } else {
            V1Insert::Cells
        }),
{
    if t.non_pks.len() == 0 {
        V1Insert::Row
    } else if create_record_existed {
        V1Insert::SentinelAndCells
    } else {
        V1Insert::Cells
    }
}

/// The statement that marks a row as created again, where it has a sentinel.
pub fn update_create_record(t: &TableInfo, key: i64, db_version: i64, seq: i32, ts: &str) -> (r: Vec<Statement>)
    ensures
        sqls(r@) == seq![
            bound(
                t.maybe_mark_locally_reinserted_sql(),
                seq![
                    Val::Integer(db_version),
                    Val::Integer(seq as i64),
                    Val::Text(ts@),
                    Val::Integer(key),
                    Val::Text(INSERT_SENTINEL@),
                ],
            ),
        ],
{
    let mut binds = no_values();
    push_value(&mut binds, ColumnValue::Integer(db_version));
    push_value(&mut binds, ColumnValue::Integer(seq as i64));
    push_value(&mut binds, ColumnValue::Text(ts.to_owned()));
    push_value(&mut binds, ColumnValue::Integer(key));
    push_value(&mut binds, ColumnValue::Text(INSERT_SENTINEL.to_owned()));
    let ghost wanted = seq![
        Val::Integer(db_version),
        Val::Integer(seq as i64),
        Val::Text(ts@),
        Val::Integer(key),
        Val::Text(INSERT_SENTINEL@),
    ];
    assert(vals(binds@) =~= wanted);
    let mut plan: Vec<Statement> = Vec::new();
    assert(sqls(plan@) =~= seq![]);
    push_statement(&mut plan, t.get_maybe_mark_locally_reinserted_stmt(), binds);
    assert(sqls(plan@) =~= seq![bound(t.maybe_mark_locally_reinserted_sql(), wanted)]);
    plan
}

/// The causal length that a row got, once it was marked as created again: none where it has no
/// sentinel.
pub fn update_create_record_outcome(stepped: Stepped) -> (r: Result<Option<i64>, &'static str>)
    ensures
        match stepped {
            Stepped::Row(cl) => r == Ok::<Option<i64>, &'static str>(Some(cl)),
            Stepped::Done => r == Ok::<Option<i64>, &'static str>(None),
            Stepped::Other(_) => r matches Err(msg) && msg@ == "failed to step update_create_record_stmt"@,
        },
{
    match stepped {
        Stepped::Row(cl) => Ok(Some(cl)),
        Stepped::Done => Ok(None),
        Stepped::Other(_) => Err("failed to step update_create_record_stmt"),
    }
}

/// A row whose key is its rowid is tracked exactly where the rowid is known and can be packed with
/// the id of a column; other rows always are. The metadata that are written are those of the
/// settings.
pub proof fn rowids_that_are_tracked(ext: ExtData, t: TableInfo, rowid: Option<i64>)
    ensures
        rowid_error(t, rowid) is None <==> !t.key_is_rowid || (rowid matches Some(id) && 0 <= id < 2251799813685248),
        insert_route(ext) == InsertRoute::V2 <==> ext.metadata_write_version == 3,
        insert_route(ext) == InsertRoute::Both <==> ext.metadata_write_version == 2,
        insert_route(ext) == InsertRoute::V1 <==> ext.metadata_write_version != 2 && ext.metadata_write_version != 3,
{
}

} // verus!
