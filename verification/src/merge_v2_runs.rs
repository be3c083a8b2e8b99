//! How the work on rows with metadata in both formats goes from its start to its end: what
//! is asked and run, in order, for each thing that can be found.

use crate::changes_vtab_write::{hydrate_dead_plan, live_key_binds, mirror_plan};
use crate::merge_v2::{CellsState, Hydrate, HydrateState, Mirror, MirrorState, V2Cells, V2Delete};
use crate::pack_columns::{signed, vals, Val};
use crate::result_code::{ResultCode, Stepped};
use crate::statement::bound;
use crate::steps::{Act, Ev};
use crate::tableinfo::SchemaVersion;
use crate::v2_stmts::{
    base_lookup_rowid_sql, col_id_lookup_sql, hydrate_clock_copy_sql, lookup_pks_alive_sql, lookup_pks_tomb_sql, lookup_row_state_sql,
    table_pks_insert_sql, v1_any_clock_lookup_sql, v1_sentinel_detail_sql, v1_sentinel_lookup_sql,
};
use vstd::prelude::*;

verus! {

impl<'a> Hydrate<'a> {
    /// The same work, as far as that state.
    pub open spec fn at(self, state: HydrateState) -> Hydrate<'a> {
        Hydrate { state, ..self }
    }

    /// It can be started: there is a time, and the table has metadata in both formats.
    pub open spec fn can_start(self) -> bool {
        self.state is Start && self.now > 0 && self.row.t.schema_version == SchemaVersion::V2AndV1
    }
}

/// What is asked before it is known whether a row lives, where its key in the first format is
/// `key`: the state of the row, its key, and the causal length in its sentinel.
pub open spec fn asks_for_sentinel(h: Hydrate<'_>, key: i64) -> bool {
    let a = h.next_of(Ev::Begin);
    let b = h.at(a.0).next_of(Ev::State(None));
    let c = h.at(b.0).next_of(Ev::Int(Stepped::Row(key)));
    &&& a.1 == Act::AskState(h.row.state_sql())
    &&& b.1 == Act::AskInt(bound(h.row.t.select_key_sql(), vals(h.row.pks@)))
    &&& c.1 == Act::AskInt(bound(v1_sentinel_lookup_sql(*h.row.t), seq![Val::Integer(key)]))
}

/// How far it is once the sentinel was asked for.
pub open spec fn sentinel_asked(h: Hydrate<'_>, key: i64) -> HydrateState {
    let a = h.next_of(Ev::Begin);
    let b = h.at(a.0).next_of(Ev::State(None));
    h.at(b.0).next_of(Ev::Int(Stepped::Row(key))).0
}

/// A row that lives in the first format gets a live key at the causal length of its sentinel, under
/// the rowid where that is the key, and then all its clocks under the key that was created.
pub proof fn live_rows_are_taken_over(h: Hydrate<'_>, key: i64, cl: i64, rowid: i64, live: i64)
    requires
        h.can_start(),
        cl % 2 == 1,
        cl != -1,
    ensures
        asks_for_sentinel(h, key),
        ({
            let d = h.at(sentinel_asked(h, key)).next_of(Ev::Int(Stepped::Row(cl)));
            let e = h.at(d.0).next_of(Ev::Int(Stepped::Row(rowid)));
            let created = if h.row.t.key_is_rowid {
                e
            } else {
                d
            };
            let f = h.at(created.0).next_of(Ev::Int(Stepped::Row(live)));
            &&& h.row.t.key_is_rowid ==> d.1 == Act::AskInt(bound(base_lookup_rowid_sql(*h.row.t), vals(h.row.pks@)))
            &&& created.1 == Act::AskInt(h.row.new_key_sql(if h.row.t.key_is_rowid { rowid } else { 0 }, cl))
            &&& f.1 == Act::Run(
                seq![
                    bound(
                        hydrate_clock_copy_sql(*h.row.t),
                        seq![Val::Integer(live), Val::Integer(h.ts()), Val::Integer(key)],
                    ),
                ],
                false,
            )
            &&& h.at(f.0).next_of(Ev::Ran).1 is Finish
        }),
{
}

/// A row without a sentinel lives its first life where it has a clock; where it has none it is left
/// alone.
pub proof fn rows_without_sentinels_live_once(h: Hydrate<'_>, key: i64, found: Stepped, any: i64, rowid: i64, live: i64)
    requires
        h.can_start(),
        found is Done || (found matches Stepped::Row(n) && n == -1),
    ensures
        asks_for_sentinel(h, key),
        ({
            let d = h.at(sentinel_asked(h, key)).next_of(Ev::Int(found));
            let none = h.at(d.0).next_of(Ev::Int(Stepped::Done));
            let e = h.at(d.0).next_of(Ev::Int(Stepped::Row(any)));
            let f = h.at(e.0).next_of(Ev::Int(Stepped::Row(rowid)));
            let created = if h.row.t.key_is_rowid {
                f
            } else {
                e
            };
            let g = h.at(created.0).next_of(Ev::Int(Stepped::Row(live)));
            &&& d.1 == Act::AskInt(bound(v1_any_clock_lookup_sql(*h.row.t), seq![Val::Integer(key)]))
            &&& none.1 is Finish
            &&& created.1 == Act::AskInt(h.row.new_key_sql(if h.row.t.key_is_rowid { rowid } else { 0 }, 1))
            &&& g.1 == Act::Run(
                seq![
                    bound(
                        hydrate_clock_copy_sql(*h.row.t),
                        seq![Val::Integer(live), Val::Integer(h.ts()), Val::Integer(key)],
                    ),
                ],
                false,
            )
            &&& h.at(g.0).next_of(Ev::Ran).1 is Finish
        }),
{
}

/// A row that is dead in the first format gets a tombstone at the causal length of its sentinel,
/// with the version, the position, the site and the time of its deletion; where it has no time, it
/// takes that of the transaction.
pub proof fn dead_rows_are_taken_over(h: Hydrate<'_>, key: i64, cl: i64, d: (i64, i64, i64, i64))
    requires
        h.can_start(),
        cl % 2 == 0,
    ensures
        asks_for_sentinel(h, key),
        ({
            let a = h.at(sentinel_asked(h, key)).next_of(Ev::Int(Stepped::Row(cl)));
            let b = h.at(a.0).next_of(Ev::Detail(Some(d)));
            let time = if d.3 > 0 {
                d.3
            } else {
                h.ts()
            };
            &&& a.1 == Act::AskDetail(bound(v1_sentinel_detail_sql(*h.row.t), seq![Val::Integer(key)]))
            &&& b.1 == Act::Run(
                hydrate_dead_plan(*h.row.t, vals(h.row.pks@), h.row.hashed_pk@, cl, d.0, d.1, d.2, time),
                false,
            )
            &&& h.at(b.0).next_of(Ev::Ran).1 is Finish
            &&& h.at(a.0).next_of(Ev::Detail(None)).1 is Finish
        }),
{
}

/// Rows are left alone that the second format knows, alive or dead, and rows that the first format
/// does not know. Without a time nothing is done.
pub proof fn other_rows_are_left_alone(h: Hydrate<'_>, key: Option<i64>, cl: i64)
    requires
        h.state is Start,
    ensures
        h.now == 0 ==> h.next_of(Ev::Begin).1 == Act::Fail(ResultCode::ERROR, None),
        h.now > 0 ==> ({
            let a = h.next_of(Ev::Begin);
            let known = h.at(a.0).next_of(Ev::State(Some((key, cl))));
            let b = h.at(a.0).next_of(Ev::State(None));
            &&& known.1 is Finish <==> key is Some || cl != 0
            &&& h.at(b.0).next_of(Ev::Int(Stepped::Done)).1 is Finish
            &&& known.1 is Finish || known == b
        }),
{
}

/// A failure ends the work with its code, but for the key in the first format: that it cannot be
/// read counts as that there is none.
pub proof fn failed_hydrations_stop(h: Hydrate<'_>, rc: ResultCode)
    ensures
        h.next_of(Ev::Failed(rc)).1 == Act::Fail(rc, None),
        !(h.state is Key) ==> h.next_of(Ev::Int(Stepped::Other(rc))).1 == Act::Fail(rc, None),
        h.state is Key ==> h.next_of(Ev::Int(Stepped::Other(rc))).1 is Finish,
{
}

impl<'a> Mirror<'a> {
    /// The same work, as far as that state.
    pub open spec fn at(self, state: MirrorState) -> Mirror<'a> {
        Mirror { state, ..self }
    }
}

/// What is left to do once the primary key of the row is known: its key in the first format is
/// looked up, and created where there is none, and its metadata are copied there. The primary key
/// is that of the change or the one that was found.
pub open spec fn mirrors_under(m: Mirror<'_>, state: MirrorState, act: Act, pks: Seq<Val>, key: Option<i64>, cl: i64, v1_key: i64) -> bool {
    let a = m.at(state).next_of(Ev::Int(Stepped::Row(v1_key)));
    let b = m.at(state).next_of(Ev::Int(Stepped::Done));
    let c = m.at(b.0).next_of(Ev::Int(Stepped::Row(v1_key)));
    &&& act == Act::AskInt(bound(m.row.t.select_key_sql(), pks))
    &&& a.1 == Act::Run(mirror_plan(*m.row.t, v1_key, m.known(), m.row.hashed_pk@, key, cl, m.ts), false)
    &&& b.1 == Act::AskInt(bound(m.row.t.insert_key_sql(), m.known()))
    &&& c.1 == a.1
    &&& m.at(b.0).next_of(Ev::Int(Stepped::Done)).1 == Act::Fail(ResultCode::DONE, None)
    &&& m.at(a.0).next_of(Ev::Ran).1 is Finish
    &&& m.at(c.0).next_of(Ev::Ran).1 is Finish
}

/// The metadata of a row whose primary key came with the change are copied to the first format
/// as they are in the second: under its key there, with its live key and causal length.
pub proof fn known_rows_are_mirrored(m: Mirror<'_>, key: Option<i64>, cl: i64, v1_key: i64)
    requires
        m.state is Start,
        m.pks_known,
        m.row.pks@.len() > 0,
        m.row.t.schema_version == SchemaVersion::V2AndV1,
        cl != 0,
    ensures
        ({
            let a = m.next_of(Ev::Begin);
            let b = m.at(a.0).next_of(Ev::State(Some((key, cl))));
            &&& a.1 == Act::AskState(m.row.state_sql())
            &&& mirrors_under(m, b.0, b.1, vals(m.row.pks@), key, cl, v1_key)
        }),
{
}

/// The primary key of a row that is known by its hash alone is looked up among the tombstones and,
/// where it is not there, among the live keys, and the metadata are copied under it; where it is in
/// neither, nothing is copied.
pub proof fn rows_known_by_hash_are_mirrored(m: Mirror<'_>, key: Option<i64>, cl: i64, v1_key: i64, pks: Seq<Val>)
    requires
        m.state is Start,
        !m.pks_known,
        vals(m.found_pks@) == pks,
        pks.len() > 0,
        m.row.t.schema_version == SchemaVersion::V2AndV1,
        cl != 0,
    ensures
        ({
            let a = m.next_of(Ev::Begin);
            let b = m.at(a.0).next_of(Ev::State(Some((key, cl))));
            let dead = m.at(b.0).next_of(Ev::Pks(Some(pks)));
            let c = m.at(b.0).next_of(Ev::Pks(None));
            let live = m.at(c.0).next_of(Ev::Pks(Some(pks)));
            &&& a.1 == Act::AskState(m.row.state_sql())
            &&& b.1 == Act::AskPks(bound(lookup_pks_tomb_sql(*m.row.t), seq![Val::Blob(m.row.hashed_pk@)]))
            &&& mirrors_under(m, dead.0, dead.1, pks, key, cl, v1_key)
            &&& c.1 == Act::AskPks(bound(lookup_pks_alive_sql(*m.row.t), seq![Val::Blob(m.row.hashed_pk@)]))
            &&& mirrors_under(m, live.0, live.1, pks, key, cl, v1_key)
            &&& m.at(c.0).next_of(Ev::Pks(None)).1 is Finish
        }),
{
}

/// A row that the second format does not know is not copied; and nothing is copied for a table
/// without metadata in the first format.
pub proof fn unknown_rows_are_not_mirrored(m: Mirror<'_>, key: Option<i64>, rc: ResultCode, n: i64)
    ensures
        m.state is State ==> m.next_of(Ev::State(None)).1 is Finish,
        m.state is State ==> m.next_of(Ev::State(Some((key, 0)))).1 is Finish,
        m.row.t.schema_version != SchemaVersion::V2AndV1 && (m.state is Key || m.state is NewKey) ==> m.next_of(
            Ev::Int(Stepped::Row(n)),
        ).1 == Act::Fail(ResultCode::ERROR, None),
        m.next_of(Ev::Failed(rc)).1 == Act::Fail(rc, None),
        m.next_of(Ev::Int(Stepped::Other(rc))).1 == Act::Fail(rc, None),
{
}

/// A row is asked for by its primary key where there are no hashes, and else by its hash, in both
/// parts of the question; its live key is created at the causal length that is asked for, and what
/// is written bears the time of the transaction.
pub proof fn rows_are_asked_for_by_what_they_are_known_by(h: Hydrate<'_>, rowid: i64, cl: i64)
    ensures
        h.row.t.skip_hash ==> h.row.state_sql() == bound(
            lookup_row_state_sql(*h.row.t),
            seq![vals(h.row.pks@)[0], vals(h.row.pks@)[0]],
        ),
        !h.row.t.skip_hash ==> h.row.state_sql() == bound(
            lookup_row_state_sql(*h.row.t),
            seq![Val::Blob(h.row.hashed_pk@), Val::Blob(h.row.hashed_pk@)],
        ),
        h.row.new_key_sql(rowid, cl) == bound(
            table_pks_insert_sql(*h.row.t),
            live_key_binds(*h.row.t, rowid, vals(h.row.pks@), h.row.hashed_pk@, cl),
        ),
        h.ts() == signed(h.now as nat),
{
}

/// The primary key under which a row is copied is that of the change, where it held one, and else
/// the one that was found.
pub proof fn mirrors_use_the_known_key(m: Mirror<'_>)
    ensures
        m.pks_known ==> m.known() == vals(m.row.pks@),
        !m.pks_known ==> m.known() == vals(m.found_pks@),
{
}

/// A row that has a key in the first format though its table has no metadata there is an error, and
/// one that is not in the table any more, where its rowid is its key, is left alone.
pub proof fn rows_that_do_not_fit_their_metadata(h: Hydrate<'_>, key: i64)
    ensures
        h.state is Key && h.row.t.schema_version != SchemaVersion::V2AndV1 ==> h.next_of(Ev::Int(Stepped::Row(key))).1
            == Act::Fail(ResultCode::ERROR, None),
        h.state is Rowid ==> h.next_of(Ev::Int(Stepped::Done)).1 is Finish,
{
}

/// A deletion that knows its row by a hash does nothing where no hashes are kept; any other asks for
/// the row first, and one without a site needs no number for it.
pub proof fn deletions_start_with_the_row(d: V2Delete<'_>, key: Option<i64>, cl: i64)
    ensures
        d.state is Start && d.row.t.skip_hash && d.is_hash_tombstone ==> d.next_of(Ev::Begin).1 is Finish,
        d.state is Start && !(d.row.t.skip_hash && d.is_hash_tombstone) ==> d.next_of(Ev::Begin).1 == Act::AskState(
            d.row.state_sql(),
        ),
        d.state is State && cl <= d.cl && d.site_id@.len() > 0 ==> d.next_of(Ev::State(Some((key, cl)))).1 is AskOrdinal,
        d.state is State && cl <= d.cl && d.site_id@.len() == 0 && !(d.row.t.skip_hash && d.is_hash_tombstone) ==> d.next_of(
            Ev::State(Some((key, cl))),
        ).1 is Run,
        d.state is State && d.cl < cl ==> d.next_of(Ev::State(Some((key, cl)))).1 is Finish,
{
}

/// Writing cells starts with the number of the site of the change, where it has one, and then asks
/// for the row; where the row lives at the causal length of the change, it goes on with the first
/// cell, and where there are no cells, nothing is left to do.
pub proof fn cells_start_with_the_row(c: V2Cells<'_>, ordinal: i64, key: i64)
    ensures
        c.state is Start && c.site_id@.len() > 0 ==> ({
            let a = c.next_of(Ev::Begin);
            let b = V2Cells { state: a.0, ..c }.next_of(Ev::Int(Stepped::Row(ordinal)));
            &&& a.1 is AskOrdinal
            &&& b.1 == Act::AskState(c.row.state_sql())
            &&& b.0 == (CellsState::State { ordinal })
        }),
        c.state is Start && c.site_id@.len() == 0 ==> c.next_of(Ev::Begin) == (
            CellsState::State { ordinal: 0 },
            Act::AskState(c.row.state_sql()),
        ),
        c.state == (CellsState::State { ordinal }) && c.cells@.len() > 0 ==> c.next_of(Ev::State(Some((Some(key), c.cl)))) == (
            CellsState::ColId { ordinal, key, i: 0 },
            Act::AskInt(bound(col_id_lookup_sql(*c.row.t), seq![Val::Text(c.cells@[0].col_name@)])),
        ),
        c.state == (CellsState::State { ordinal }) && c.cells@.len() == 0 ==> c.next_of(
            Ev::State(Some((Some(key), c.cl))),
        ).1 is Finish,
{
}

} // verus!
