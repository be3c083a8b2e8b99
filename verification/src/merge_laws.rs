//! What holds of changes from other sites: which are refused, what is done with the others, and how
//! the two formats of metadata, and writes made here, fit together.

use crate::cell::cell_of;
use crate::changes_vtab::table_names;
use crate::changes_vtab_write::{
    alive_step_at, bury_plan, cell_plan, cells_of, change_hash, change_time, cl_after, delete_plan,
    mirror_plan, new_row_plan, nuke_row_plan, nuke_tombstone_plan, refusal, sentinel_plan, sentinel_state,
    split_nul, stamp_of, start_of, tombstone_sql, tombstone_taken, tx_time, v1_step, winner_clock, AliveStep, CellView,
    Cells, Change, HydrateStep, MergeError, MergeStart, Stamp, V1Step,
};
use crate::ext_data::ExtData;
use crate::hash_pk::pk_hash;
use crate::local_writes::v2::revive_plan;
use crate::merge_v2::V2Cells;
use crate::pack_columns::{pack, signed, spec_unpack_varints, unpack, vals, ColumnType, Unpacked, Val};
use crate::statement::{bound, unnoticed, Sql};
use crate::steps::Act;
use crate::tableinfo::{position, TableInfo};
use crate::text::decimal_of;
use crate::v2_stmts::{
    base_insert_sql, tomb_pks_insert_sql, tomb_upsert_sql, v1_clock_copy_sql, v1_clock_delete_sql, v1_sentinel_insert_alive_sql,
    v1_sentinel_insert_dead_sql,
};
use vstd::prelude::*;
use vstd::string::*;
use vstd::utf8::encode_utf8;

verus! {

// ---------------------------------------------------------------------------
// Which changes are taken in
// ---------------------------------------------------------------------------
/// A change is taken in exactly where its names and its site are not too long, it is in a form that
/// the metadata in use can hold, its table is replicated, and there is a time for it: that of the
/// transaction, or the one for transactions without a time.
pub proof fn changes_are_refused_for_these_reasons(ext: ExtData, tables: Seq<TableInfo>, c: Change)
    ensures
        refusal(ext, tables, c) is None <==> {
            &&& encode_utf8(c.tbl@).len() <= 2048
            &&& c.site_id@.len() <= 16
            &&& c.is_packed() || encode_utf8(c.cid@).len() <= 2048
            &&& c.is_packed() || c.is_hash_tombstone() ==> ext.metadata_use_version == 2
            &&& position(table_names(tables), c.tbl@) is Some
            &&& ext.timestamp != 0 || ext.default_timestamp != 0
        },
{
}

/// A change about a whole row is never taken for several cells, and one about cells is exactly
/// where its version is text or bytes. It deletes its row where it knows the row by a hash, and
/// else where it is about one thing and its causal length is even.
pub proof fn kinds_of_changes(c: Change)
    ensures
        c.cid@ == "-1"@ || c.cid@ == "-2"@ ==> !c.is_packed(),
        c.cid@ != "-1"@ && c.cid@ != "-2"@ ==> (c.is_packed() <==> c.col_vrsn_type == ColumnType::Text
            || c.col_vrsn_type == ColumnType::Blob),
        c.is_hash_tombstone() <==> c.cid@ == "-2"@,
        c.is_hash_tombstone() ==> c.is_delete(),
        c.is_packed() ==> !c.is_delete(),
        !c.is_packed() && c.cid@ != "-2"@ ==> (c.is_delete() <==> c.cl % 2 == 0),
{
    reveal_strlit("-1");
    reveal_strlit("-2");
    assert("-1"@[1] != "-2"@[1]);
}

/// The time of a change is its own; only where it has none is it that of the transaction, and only
/// where the transaction has none is it the one for such transactions.
pub proof fn times_of_changes(ext: ExtData, c: Change)
    ensures
        c.ts > 0 ==> change_time(ext, c) == c.ts,
        c.ts <= 0 && ext.timestamp != 0 ==> change_time(ext, c) == signed(ext.timestamp as nat),
        c.ts <= 0 && ext.timestamp == 0 ==> change_time(ext, c) == signed(ext.default_timestamp as nat),
        ext.timestamp != 0 ==> tx_time(ext) == ext.timestamp,
        ext.timestamp == 0 ==> tx_time(ext) == ext.default_timestamp,
{
}

/// A change about one cell brings that cell, with its own version, position and value; one that
/// creates a row brings none.
pub proof fn single_cells_are_read_as_they_are(c: Change)
    requires
        !c.is_packed(),
    ensures
        c.cid@ == "-1"@ ==> cells_of(c) == Cells::Read(seq![]),
        c.cid@ != "-1"@ ==> cells_of(c) == Cells::Read(
            seq![CellView { col_name: c.cid@, col_vrsn: c.col_vrsn, seq: c.seq, val: c.val@ }],
        ),
{
}

/// The cells of a packed change are read exactly where it has as many names as versions, positions
/// and values, and all of them can be read; each cell then has the name, version, position and
/// value at its place.
pub proof fn packed_cells_belong_together(c: Change, i: int)
    requires
        c.is_packed(),
    ensures
        ({
            let names = split_nul(c.cid@);
            let versions = spec_unpack_varints(c.col_vrsn_blob@);
            let positions = spec_unpack_varints(c.seq_blob@);
            let values = unpack(c.val_blob@);
            &&& cells_of(c) is Read <==> {
                &&& versions matches Some(v)
                &&& v.len() == names.len()
                &&& positions matches Some(p)
                &&& p.len() == names.len()
                &&& values matches Unpacked::Values(x)
                &&& x.len() == names.len()
            }
            &&& cells_of(c) is Read && 0 <= i < names.len() ==> {
                let cells = cells_of(c)->Read_0;
                &&& cells.len() == names.len()
                &&& cells[i].col_name == names[i]
                &&& cells[i].col_vrsn == versions->Some_0[i]
                &&& cells[i].seq == positions->Some_0[i]
                &&& cells[i].val == values->Values_0[i]
            }
        }),
{
}

/// What is done with a change, in the three ways in which metadata are written. In the first format
/// alone, it is merged there. Else a change that deletes its row deletes it, and any other writes
/// its cells, by the hash and the time of the change; the row is given metadata from the first
/// format before that exactly where both formats are written and the change does not come in the
/// form of the second alone.
pub proof fn changes_go_where_metadata_are_written(ext: ExtData, t: TableInfo, i: int, c: Change, r: Result<MergeStart, MergeError>)
    requires
        start_of(ext, t, i, c, r),
    ensures
        ext.metadata_write_version == 1 <==> r matches Ok(MergeStart::V1 { .. }),
        r matches Ok(MergeStart::V1 { table }) ==> table == i,
        r matches Ok(MergeStart::Delete { table, hydrate, known_pks, hashed_pk, ts }) ==> {
            &&& c.is_delete()
            &&& table == i
            &&& hydrate <==> ext.metadata_write_version == 2 && !c.is_hash_tombstone()
            &&& known_pks is None <==> c.is_hash_tombstone()
            &&& known_pks matches Some(pks) ==> unpack(c.pk@) == Unpacked::Values(vals(pks@))
            &&& c.is_hash_tombstone() ==> hashed_pk@ == c.pk@
            &&& !c.is_hash_tombstone() && t.skip_hash ==> hashed_pk@.len() == 0
            &&& !c.is_hash_tombstone() && !t.skip_hash ==> hashed_pk@ == pk_hash(c.pk@)
            &&& ts == change_time(ext, c)
        },
        r matches Ok(MergeStart::Cells { table, hydrate, pks, hashed_pk, ts, cells }) ==> {
            &&& !c.is_delete()
            &&& table == i
            &&& hydrate <==> ext.metadata_write_version == 2 && !c.is_packed()
            &&& unpack(c.pk@) == Unpacked::Values(vals(pks@))
            &&& t.skip_hash ==> hashed_pk@.len() == 0
            &&& !t.skip_hash ==> hashed_pk@ == pk_hash(c.pk@)
            &&& ts == change_time(ext, c)
            &&& cells_of(c) is Read
        },
        ext.metadata_write_version != 1 && c.is_delete() ==> r matches Ok(MergeStart::Delete { .. }) || unpack(
            c.pk@,
        ) is Failed,
        ext.metadata_write_version != 1 && !c.is_delete() ==> r matches Ok(MergeStart::Cells { .. }) || unpack(
            c.pk@,
        ) is Failed || cells_of(c) is Rejected,
{
}

/// A change keeps its versions, position and time on its way into the metadata.
pub proof fn stamps_are_those_of_changes(c: Change, ordinal: Option<i64>)
    ensures
        stamp_of(c, ordinal).col_vrsn == c.col_vrsn,
        stamp_of(c, ordinal).db_vrsn == c.db_vrsn,
        stamp_of(c, ordinal).seq == c.seq,
        stamp_of(c, ordinal).ts == c.ts,
        stamp_of(c, ordinal).ordinal == ordinal,
{
}

// ---------------------------------------------------------------------------
// What is done with a change
// ---------------------------------------------------------------------------
/// What is done with a change in the first format, for every pair of causal lengths that is not
/// negative. An older one does nothing. A newer one deletes the row, or creates it, or creates it
/// again; at the same one, only a cell of a row that lives has to be looked at, and a deletion
/// where equal ones are told apart.
pub proof fn steps_by_causal_length(insert_cl: int, local_cl: int, sentinel: bool, merge_equal: bool)
    requires
        insert_cl >= 0,
        local_cl >= 0,
    ensures
        insert_cl < local_cl ==> v1_step(insert_cl, local_cl, sentinel, merge_equal) == V1Step::Ignore,
        insert_cl > local_cl && insert_cl % 2 == 0 ==> v1_step(insert_cl, local_cl, sentinel, merge_equal)
            == V1Step::Delete,
        insert_cl > local_cl && insert_cl % 2 == 1 && sentinel ==> v1_step(insert_cl, local_cl, sentinel, merge_equal)
            == V1Step::SentinelInsert,
        insert_cl > local_cl && insert_cl % 2 == 1 && !sentinel ==> v1_step(insert_cl, local_cl, sentinel, merge_equal)
            == (V1Step::Cell { resurrect: local_cl > 0 || insert_cl > 1, check: false }),
        insert_cl == local_cl && insert_cl % 2 == 0 ==> v1_step(insert_cl, local_cl, sentinel, merge_equal) == (
        if merge_equal {
            V1Step::TieBreakDelete
        } else {
            V1Step::Ignore
        }),
        insert_cl == local_cl && insert_cl % 2 == 1 && sentinel ==> v1_step(insert_cl, local_cl, sentinel, merge_equal)
            == V1Step::Ignore,
        insert_cl == local_cl && insert_cl % 2 == 1 && !sentinel ==> v1_step(insert_cl, local_cl, sentinel, merge_equal)
            == (V1Step::Cell { resurrect: false, check: true }),
        cl_after(local_cl, insert_cl) >= insert_cl,
        cl_after(local_cl, insert_cl) == insert_cl || cl_after(local_cl, insert_cl) == local_cl,
{
}

/// What is done in the second format so that a row lives at a causal length. What there is of an
/// older life goes: the row where it lives, the tombstone where it is dead. Both formats find the
/// same changes old.
pub proof fn lives_replace_older_lives(t: TableInfo, incoming: int, key: Option<i64>, cl: int, pks: Seq<Val>, hash: Seq<u8>)
    requires
        cl >= 0,
        incoming % 2 == 1,
    ensures
        alive_step_at(incoming, key, cl) == AliveStep::Stale <==> v1_step(incoming, cl, false, false) == V1Step::Ignore,
        alive_step_at(incoming, key, cl) is There <==> incoming == cl,
        incoming == cl ==> (key matches Some(k) ==> alive_step_at(incoming, key, cl) == AliveStep::There(k)),
        incoming > cl ==> {
            let plan = new_row_plan(t, alive_step_at(incoming, key, cl), pks, hash);
            &&& plan.len() > 0
            &&& plan.last() == unnoticed(base_insert_sql(t), pks)
            &&& key matches Some(k) ==> plan.drop_last() == nuke_row_plan(t, k, pks)
            &&& key is None && cl > 0 ==> plan.drop_last() == nuke_tombstone_plan(t, pks, hash)
            &&& key is None && cl == 0 ==> plan.len() == 1
        },
        incoming <= cl ==> new_row_plan(t, alive_step_at(incoming, key, cl), pks, hash).len() == 0,
{
    if incoming > cl {
        let plan = new_row_plan(t, alive_step_at(incoming, key, cl), pks, hash);
        match key {
            Some(k) => {
                assert(plan.drop_last() =~= nuke_row_plan(t, k, pks));
            },
            None => {
                if cl > 0 {
                    assert(plan.drop_last() =~= nuke_tombstone_plan(t, pks, hash));
                }
            },
        }
    }
}

/// A deletion is taken over from the causal length of the row on, unless it knows the row by a hash
/// that is not kept here. It removes the row that lives, and keeps its primary key exactly where
/// rows are known by hashes and it was found.
pub proof fn deletions_are_taken_over(t: TableInfo, by_hash: bool, insert_cl: int, local_cl: int, key: i64, pks: Seq<Val>, hash: Seq<u8>)
    ensures
        tombstone_taken(t.skip_hash, by_hash, insert_cl, local_cl) <==> insert_cl >= local_cl && (!by_hash
            || !t.skip_hash),
        ({
            let plan = bury_plan(t, key, pks, hash);
            let kept = !t.skip_hash && pks.len() > 0;
            &&& kept ==> plan[0] == bound(tomb_pks_insert_sql(t), seq![Val::Blob(hash)] + pks) && plan.skip(1)
                == nuke_row_plan(t, key, pks)
            &&& !kept ==> plan == nuke_row_plan(t, key, pks)
        }),
{
    let plan = bury_plan(t, key, pks, hash);
    if !t.skip_hash && pks.len() > 0 {
        assert(plan.skip(1) =~= nuke_row_plan(t, key, pks));
    } else {
        assert(plan =~= nuke_row_plan(t, key, pks));
    }
}

// ---------------------------------------------------------------------------
// Both formats, and writes made here
// ---------------------------------------------------------------------------
/// A row that is created again here loses its tombstone by the same statements as one that is
/// created again by a change.
pub proof fn tombstones_go_in_one_way(t: TableInfo, pks: Seq<Val>)
    ensures
        revive_plan(t, pks) == nuke_tombstone_plan(t, pks, pk_hash(pack(pks))),
{
}

/// The row of a change that brings its primary key is known by the hash that a write made here
/// gives it.
pub proof fn changes_know_rows_as_writes_do(t: TableInfo, c: Change, pks: Seq<Val>)
    requires
        !c.is_hash_tombstone(),
        c.pk@ == pack(pks),
        !t.skip_hash,
    ensures
        change_hash(t, c) == pk_hash(pack(pks)),
{
}

/// What is copied to the first format says of a row what the second one knows: there, its sentinel
/// tells the same causal length, and no sentinel stands for a row in its first life.
pub proof fn mirrored_rows_come_back(
    t: TableInfo,
    v1_key: i64,
    pks: Seq<Val>,
    hash: Seq<u8>,
    key: Option<i64>,
    cl: i64,
    ts: i64,
)
    requires
        cl >= 1,
        key is Some <==> cl % 2 == 1,
    ensures
        ({
            let plan = mirror_plan(t, v1_key, pks, hash, key, cl, ts);
            &&& plan[0] == bound(v1_clock_delete_sql(t), seq![Val::Integer(v1_key)])
            &&& key matches Some(k) ==> plan.last() == bound(
                v1_clock_copy_sql(t),
                seq![
                    Val::Integer(v1_key),
                    Val::Integer(ts),
                    Val::Integer(4095),
                    Val::Integer(cell_of(k, 0)),
                    Val::Integer(cell_of(k, 4095)),
                ],
            )
            &&& cl == 1 ==> plan.len() == 2 && sentinel_state(None) == HydrateStep::FindClock
            &&& cl > 1 && key is Some ==> {
                &&& plan.len() == 3
                &&& plan[1].sql == v1_sentinel_insert_alive_sql(t)
                &&& plan[1].binds[0] == Val::Integer(v1_key)
                &&& plan[1].binds[1] == Val::Integer(cl)
                &&& plan[1].binds[2] == Val::Integer(ts)
                &&& plan[1].binds[3] == Val::Integer(cell_of(key->Some_0, 0))
                &&& sentinel_state(Some(cl)) == HydrateStep::Alive(cl)
            }
            &&& key is None ==> {
                &&& plan.len() == 2
                &&& plan[1].sql == v1_sentinel_insert_dead_sql(t)
                &&& plan[1].binds[0] == Val::Integer(v1_key)
                &&& plan[1].binds[1] == Val::Integer(cl)
                &&& plan[1].binds[2] == Val::Integer(ts)
                &&& plan[1].binds[3] == (if t.skip_hash {
                    pks[0]
                } else {
                    Val::Blob(hash)
                })
                &&& sentinel_state(Some(cl)) == HydrateStep::Dead(cl)
            }
        }),
{
    if let Some(k) = key {
        assert(k << 12u32 == (k << 12u32) | 0i64) by (bit_vector);
    }
}

/// Triggers take no notice of what a merge writes to the table itself, so that a change that came
/// in is not taken for one made here: that holds of every statement on the table, and of no
/// statement on its metadata.
pub proof fn merged_rows_are_not_noticed(
    t: TableInfo,
    key: i64,
    pks: Seq<Val>,
    col: int,
    val: Val,
    stamp: Stamp,
    c: V2Cells<'_>,
    ordinal: i64,
    i: usize,
)
    ensures
        sync_flags(delete_plan(t, key, pks, stamp)) == seq![true, false, false],
        sync_flags(sentinel_plan(t, key, pks, stamp)) == seq![true, false, false],
        sync_flags(cell_plan(t, key, pks, col, val, stamp)) == seq![true, false],
        sync_flags(nuke_row_plan(t, key, pks)) == seq![false, false, true],
        c.write(ordinal, key, i).1 matches Act::Run(plan, _) && sync_flags(plan) == seq![true],
{
    assert(sync_flags(delete_plan(t, key, pks, stamp)) =~= seq![true, false, false]);
    assert(sync_flags(sentinel_plan(t, key, pks, stamp)) =~= seq![true, false, false]);
    assert(sync_flags(cell_plan(t, key, pks, col, val, stamp)) =~= seq![true, false]);
    assert(sync_flags(nuke_row_plan(t, key, pks)) =~= seq![false, false, true]);
    let plan = c.write(ordinal, key, i).1->Run_0;
    assert(sync_flags(plan) =~= seq![true]);
}

/// Of which statements triggers take no notice.
pub open spec fn sync_flags(plan: Seq<Sql>) -> Seq<bool> {
    plan.map_values(|s: Sql| s.sync)
}

/// What a winning write leaves in the clock of its cell: the versions, the position, the site and
/// the time of the change. A change without a site leaves none.
pub proof fn winners_leave_their_clocks(t: TableInfo, key: i64, name: Seq<char>, stamp: Stamp)
    ensures
        winner_clock(t, key, name, stamp).binds == seq![
            Val::Integer(key),
            Val::Text(name),
            Val::Integer(stamp.col_vrsn),
            Val::Integer(stamp.db_vrsn),
            Val::Integer(stamp.seq),
            match stamp.ordinal {
                Some(n) => Val::Integer(n),
                None => Val::Null,
            },
            Val::Text(decimal_of(stamp.ts as int)),
        ],
{
}

/// A tombstone that comes in holds what the change says of the deletion: its site, version, position,
/// causal length and time, for the row by what it is known by. Its site is told as well exactly where
/// equal deletions are told apart by it.
pub proof fn tombstones_hold_their_deletion(
    t: TableInfo,
    pks: Seq<Val>,
    hash: Seq<u8>,
    cl: i64,
    stamp: Stamp,
    ordinal: i64,
    site: Seq<u8>,
    merge_equal: i32,
)
    ensures
        ({
            let st = tombstone_sql(t, pks, hash, cl, stamp, ordinal, site, merge_equal);
            &&& st.sql == tomb_upsert_sql(t, merge_equal)
            &&& !st.sync
            &&& st.binds.len() == (if merge_equal == 1 {
                7int
            } else {
                6
            })
            &&& st.binds.take(6) == seq![
                Val::Integer(ordinal),
                Val::Integer(stamp.db_vrsn),
                Val::Integer(stamp.seq),
                if t.skip_hash {
                    pks[0]
                } else {
                    Val::Blob(hash)
                },
                Val::Integer(cl),
                Val::Integer(stamp.ts),
            ]
            &&& merge_equal == 1 ==> st.binds[6] == Val::Blob(site)
        }),
{
    let st = tombstone_sql(t, pks, hash, cl, stamp, ordinal, site, merge_equal);
    assert(st.binds.take(6) =~= seq![
        Val::Integer(ordinal),
        Val::Integer(stamp.db_vrsn),
        Val::Integer(stamp.seq),
        if t.skip_hash {
            pks[0]
        } else {
            Val::Blob(hash)
        },
        Val::Integer(cl),
        Val::Integer(stamp.ts),
    ]);
}

} // verus!
