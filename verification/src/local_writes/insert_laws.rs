//! How an insert goes from its start to its end: what is asked and run, in order, for each thing
//! that can be found.

use crate::cell::cell_of;
use crate::consts::INSERT_SENTINEL;
use crate::local_writes::after_insert::InsertRoute;
use crate::local_writes::insert_run::{further, InsertNext, InsertState, LocalInsert};
use crate::local_writes::v2::{
    bumped_clock, bumped_clocks, local_key_binds, local_row_id, new_clock, new_clocks, revive_plan,
};
use crate::local_writes::{bumped_cell, bumped_cells, new_cell, rest_of_cells};
use crate::merge_v2::HydrateState;
use crate::pack_columns::{signed, vals, Val};
use crate::result_code::{ResultCode, Stepped};
use crate::statement::{bound, plain, Sql};
use crate::steps::{Act, Ev};
use crate::tableinfo::TableInfo;
use crate::text::decimal_of;
use crate::v2_stmts::{col_ids_all_sql, lookup_row_state_sql, table_pks_insert_sql};
use vstd::prelude::*;

verus! {

impl<'a> LocalInsert<'a> {
    /// The same insert, after a step.
    pub open spec fn at(self, next: InsertNext) -> LocalInsert<'a> {
        LocalInsert { ext: next.0, state: next.1, ..self }
    }

    /// Creates the live key of the row at a causal length.
    pub open spec fn live_key_sql(self, cl: i64) -> Sql {
        bound(
            table_pks_insert_sql(*self.row.t),
            local_key_binds(*self.row.t, vals(self.row.pks@), self.rowid).unwrap().push(Val::Integer(cl)),
        )
    }

    /// Asks for the state of the row.
    pub open spec fn row_state_sql(self) -> Sql {
        bound(
            lookup_row_state_sql(*self.row.t),
            seq![local_row_id(*self.row.t, vals(self.row.pks@)), local_row_id(*self.row.t, vals(self.row.pks@))],
        )
    }
}

/// What is done in the second format once the live key was created: the clocks get the ids of the
/// columns that were found, the version of the write, and positions that go on from `seq`.
pub open spec fn second_format_ends(m: LocalInsert<'_>, made: InsertNext, version: i64, key: i64, ids: Seq<i64>) -> bool {
    let at = m.at(made);
    let bare = m.row.t.non_pks@.len() == 0;
    let asked = at.next_of(Ev::Int(Stepped::Row(key)));
    let written = if bare {
        asked
    } else {
        at.at(asked).next_of(Ev::Ints(ids))
    };
    let columns = if bare {
        seq![0i64]
    } else {
        ids
    };
    &&& !bare ==> asked.2 == Act::AskInts(plain(col_ids_all_sql(*m.row.t)))
    &&& !bare ==> asked.0 == made.0
    &&& written.2 == Act::Run(new_clocks(*m.row.t, key, columns, version, made.0.seq as int, m.ts()), false)
    &&& written.0 == further(made.0, columns.len() as int)
}

/// How far it is once the clocks of the second format were written.
pub open spec fn second_format_written(m: LocalInsert<'_>, made: InsertNext, key: i64, ids: Seq<i64>) -> LocalInsert<'_> {
    let at = m.at(made);
    let asked = at.next_of(Ev::Int(Stepped::Row(key)));
    if m.row.t.non_pks@.len() == 0 {
        at.at(asked)
    } else {
        at.at(asked).at(at.at(asked).next_of(Ev::Ints(ids)))
    }
}

/// A row that the second format does not know, and that has a version, gets a live key in its first
/// life, and clocks for its cells, from the position of the connection on. Where the second format
/// is the only one, that is all; else the first format follows, from the position at which the
/// second one started.
pub proof fn new_rows_start_their_first_life(
    m: LocalInsert<'_>,
    start: Option<i32>,
    version: i64,
    key: i64,
    ids: Seq<i64>,
)
    requires
        m.state == (InsertState::Version2 { start }),
        local_key_binds(*m.row.t, vals(m.row.pks@), m.rowid) is Some,
    ensures
        ({
            let a = m.next_of(Ev::Int(Stepped::Row(version)));
            let b = m.at(a).next_of(Ev::State(None));
            let done = second_format_written(m, b, key, ids);
            let end = done.next_of(Ev::Ran);
            &&& a.2 == Act::AskState(m.row_state_sql())
            &&& b.2 == Act::AskInt(m.live_key_sql(1))
            &&& b.0 == m.ext
            &&& second_format_ends(m, b, version, key, ids)
            &&& start is None ==> end.2 is Finish && end.0 == done.ext
            &&& start matches Some(seq) ==> end.2 is AskVersion && end.1 is Version1 && end.0.seq == seq
        }),
{
}

/// A row that is dead in the second format loses its tombstone, gets a live key in its next life,
/// and takes one position before those of its cells.
pub proof fn dead_rows_start_another_life(
    m: LocalInsert<'_>,
    start: Option<i32>,
    version: i64,
    cl: i64,
    key: i64,
    ids: Seq<i64>,
)
    requires
        m.state == (InsertState::Version2 { start }),
        local_key_binds(*m.row.t, vals(m.row.pks@), m.rowid) is Some,
        0 < cl < i64::MAX,
    ensures
        ({
            let a = m.next_of(Ev::Int(Stepped::Row(version)));
            let b = m.at(a).next_of(Ev::State(Some((None, cl))));
            let c = m.at(b).next_of(Ev::Ran);
            let done = second_format_written(m, c, key, ids);
            let end = done.next_of(Ev::Ran);
            &&& a.2 == Act::AskState(m.row_state_sql())
            &&& b.2 == Act::Run(revive_plan(*m.row.t, vals(m.row.pks@)), false)
            &&& c.2 == Act::AskInt(m.live_key_sql((cl + 1) as i64))
            &&& c.0 == further(m.ext, 1)
            &&& second_format_ends(m, c, version, key, ids)
            &&& start is None ==> end.2 is Finish && end.0 == done.ext
            &&& start matches Some(seq) ==> end.2 is AskVersion && end.1 is Version1 && end.0.seq == seq
        }),
{
}

/// A row that lives in the second format cannot be inserted.
pub proof fn living_rows_are_refused(m: LocalInsert<'_>, start: Option<i32>, version: i64, key: i64, cl: i64)
    requires
        m.state == (InsertState::Row { start, version }),
    ensures
        m.next_of(Ev::State(Some((Some(key), cl)))).2 is Fail,
        m.next_of(Ev::State(Some((Some(key), cl)))).0 == m.ext,
{
}

/// What is done in the first format once the row has a key and, where it was there before, its
/// sentinel was taken one up: every cell that has a clock is taken one version up, and the others
/// get clocks, all at the positions from `seq` on, and the causal length of the sentinel is kept
/// where there was one.
pub open spec fn first_format_ends(m: LocalInsert<'_>, made: InsertNext, version: i64, key: i64, cl: Option<i64>, changed: Seq<i64>, seq: i32) -> bool {
    let t = *m.row.t;
    let rest = rest_of_cells(t, key, version, seq as int, m.ts_text(), changed);
    let a = m.at(made).next_of(Ev::Ints(changed));
    let b = m.at(made).at(a).next_of(Ev::Ran);
    let known = match cl {
        Some(n) => Some((key, n)),
        None => None,
    };
    &&& made.2 == Act::CountEach(bumped_cells(t, key, version, seq as int, m.ts_text()))
    &&& made.0.seq == (seq + t.non_pks@.len()) as i32
    &&& changed.len() == t.non_pks@.len() ==> {
        &&& rest.len() == 0 ==> a.2 is Finish && a.1 == (InsertState::Over { known })
        &&& rest.len() > 0 ==> a.2 == Act::Run(rest, false) && b.2 is Finish && b.1 == (InsertState::Over { known })
        &&& a.0 == made.0
    }
    &&& changed.len() != t.non_pks@.len() ==> a.2 == Act::Fail(ResultCode::MISUSE, None)
}

/// A row that is new to the first format gets a key, and its cells get clocks from the position of
/// the connection on.
pub proof fn new_keys_get_cells(m: LocalInsert<'_>, version: i64, key: i64, changed: Seq<i64>)
    requires
        m.state is Version1,
        m.row.t.non_pks@.len() > 0,
    ensures
        ({
            let a = m.next_of(Ev::Int(Stepped::Row(version)));
            let b = m.at(a).next_of(Ev::Int(Stepped::Row(key)));
            &&& a.2 == Act::AskInt(bound(m.row.t.insert_or_ignore_returning_key_sql(), vals(m.row.pks@)))
            &&& a.0 == m.ext
            &&& first_format_ends(m, b, version, key, None, changed, m.ext.seq)
        }),
{
}

/// A row that has a key in the first format has its sentinel taken one up, which takes a position
/// of its own, and then its cells; the causal length is known where there was a sentinel.
pub proof fn old_keys_are_marked_again(m: LocalInsert<'_>, version: i64, key: i64, found: Option<i64>, changed: Seq<i64>)
    requires
        m.state is Version1,
        m.row.t.non_pks@.len() > 0,
        m.ext.seq < i32::MAX,
    ensures
        ({
            let a = m.next_of(Ev::Int(Stepped::Row(version)));
            let b = m.at(a).next_of(Ev::Int(Stepped::Done));
            let c = m.at(b).next_of(Ev::Int(Stepped::Row(key)));
            let d = m.at(c).next_of(
                Ev::Int(
                    match found {
                        Some(cl) => Stepped::Row(cl),
                        None => Stepped::Done,
                    },
                ),
            );
            &&& b.2 == Act::AskInt(bound(m.row.t.select_key_sql(), vals(m.row.pks@)))
            &&& b.0 == m.ext
            &&& c.2 == Act::AskInt(
                bound(
                    m.row.t.maybe_mark_locally_reinserted_sql(),
                    seq![
                        Val::Integer(version),
                        Val::Integer(m.ext.seq as i64),
                        Val::Text(m.ts_text()),
                        Val::Integer(key),
                        Val::Text(INSERT_SENTINEL@),
                    ],
                ),
            )
            &&& first_format_ends(m, d, version, key, found, changed, (m.ext.seq + 1) as i32)
        }),
{
}

/// A row without columns outside its primary key is marked as created, whether or not it has a key
/// already, and the causal length that comes of it is kept.
pub proof fn bare_rows_are_marked(m: LocalInsert<'_>, version: i64, existed: bool, key: i64, cl: i64)
    requires
        m.state is Version1,
        m.row.t.non_pks@.len() == 0,
    ensures
        ({
            let a = m.next_of(Ev::Int(Stepped::Row(version)));
            let b = m.at(a).next_of(Ev::Int(Stepped::Done));
            let c = m.at(if existed { b } else { a }).next_of(Ev::Int(Stepped::Row(key)));
            let d = m.at(c).next_of(Ev::Int(Stepped::Row(cl)));
            &&& c.2 == Act::AskInt(
                bound(
                    m.row.t.mark_locally_created_sql(),
                    seq![
                        Val::Integer(key),
                        Val::Integer(version),
                        Val::Integer(m.ext.seq as i64),
                        Val::Text(m.ts_text()),
                    ],
                ),
            )
            &&& c.0 == further(m.ext, 1)
            &&& d.2 is Finish
            &&& d.1 == (InsertState::Over { known: Some((key, cl)) })
            &&& m.at(c).next_of(Ev::Int(Stepped::Done)).2 is Finish
            &&& m.at(c).next_of(Ev::Int(Stepped::Done)).1 == (InsertState::Over { known: None })
        }),
{
}

/// An insert starts with the format that it is for: the first one with its version, and the second
/// one with its version too, once the row has what the first format knows of it, where both are
/// written. Whatever is asked on the way to that is asked of the database as it is, and the
/// position is kept.
pub proof fn routes_start_where_they_should(m: LocalInsert<'_>, from: i32, step: HydrateState, ev: Ev)
    ensures
        m.state is Start && m.route == InsertRoute::V1 ==> m.next_of(Ev::Begin) == (m.ext, InsertState::Version1, Act::AskVersion),
        m.state is Start && m.route == InsertRoute::V2 ==> m.next_of(Ev::Begin) == (
            m.ext,
            InsertState::Version2 { start: None },
            Act::AskVersion,
        ),
        m.state is Start && m.route == InsertRoute::Both ==> ({
            let inner = m.hydration(HydrateState::Start).next_of(Ev::Begin);
            let next = m.next_of(Ev::Begin);
            &&& next.0 == m.ext
            &&& inner.1 is AskState ==> next.2 == inner.1 && next.1 == (InsertState::Hydrating {
                from: m.ext.seq,
                step: inner.0,
            })
            &&& inner.1 is Fail ==> next.2 is Fail
        }),
        m.state == (InsertState::Hydrating { from, step }) ==> ({
            let inner = m.hydration(step).next_of(ev);
            let next = m.next_of(ev);
            &&& next.0 == m.ext
            &&& inner.1 is Finish ==> next.2 is AskVersion && next.1 == (InsertState::Version2 { start: Some(from) })
            &&& inner.1 is Fail ==> (next.2 matches Act::Fail(code, _) && code == inner.1->Fail_0)
            &&& !(inner.1 is Finish) && !(inner.1 is Fail) ==> next.2 == inner.1 && next.1
                == (InsertState::Hydrating { from, step: inner.0 })
        }),
{
    reveal(LocalInsert::hydrate_step);
}

/// A failure ends an insert with its code, and leaves the position as it is.
pub proof fn failed_inserts_stop(m: LocalInsert<'_>, rc: ResultCode)
    requires
        !(m.state is Hydrating),
        !(m.state is Version2),
    ensures
        m.next_of(Ev::Failed(rc)).2 matches Act::Fail(code, _) && code == rc,
        m.next_of(Ev::Int(Stepped::Other(rc))).2 matches Act::Fail(code, _) && code == rc,
        m.next_of(Ev::Failed(rc)).0 == m.ext,
        m.next_of(Ev::Int(Stepped::Other(rc))).0 == m.ext,
{
}

/// What is missing ends an insert with an error: a version, a key that was not created or is not
/// there, and a rowid that is the key. An event that does not fit what was asked for is a misuse.
pub proof fn missing_things_end_an_insert(m: LocalInsert<'_>, start: Option<i32>, version: i64, cl: i64, said: Seq<char>, ev: Ev)
    ensures
        m.state is Version2 && !(ev is Int) ==> (m.next_of(ev).2 matches Act::Fail(code, Some(_)) && code == ResultCode::ERROR),
        m.state is Version2 ==> (m.next_of(Ev::Int(Stepped::Done)).2 matches Act::Fail(code, Some(_)) && code == ResultCode::ERROR),
        m.state is Version1 ==> m.next_of(Ev::Refused(said)).2 == Act::Fail(ResultCode::ERROR, Some(said)),
        m.state is NewKey ==> m.next_of(Ev::Int(Stepped::Done)).2 == Act::Fail(ResultCode::DONE, None),
        m.state is OldKey ==> (m.next_of(Ev::Int(Stepped::Done)).2 matches Act::Fail(code, Some(_)) && code == ResultCode::DONE),
        m.state == (InsertState::Row { start, version }) && local_key_binds(*m.row.t, vals(m.row.pks@), m.rowid) is None ==> (
        m.next_of(Ev::State(Some((None, cl)))).2 matches Act::Fail(code, Some(_)) && code == ResultCode::ERROR),
        !(m.state is Version2) && !(m.state is Hydrating) && ev is Texts ==> m.next_of(ev).2 == Act::Fail(ResultCode::MISUSE, None),
        m.state is Over && !(ev is Failed) && !(ev is Int) ==> m.next_of(ev).2 == Act::Fail(ResultCode::MISUSE, None),
{
}

/// What an insert writes bears the time of the transaction, as a number in the second format and as
/// text in the first; and what it takes over from the first format is about the same row, at the
/// same time.
pub proof fn inserts_bear_the_time_of_the_transaction(m: LocalInsert<'_>, step: HydrateState)
    ensures
        m.ts() == signed(m.ext.timestamp as nat),
        m.ts_text() == decimal_of(m.ext.timestamp as int),
        m.hydration(step).row == m.row,
        m.hydration(step).now == m.ext.timestamp,
        m.hydration(step).state == step,
{
}

/// The parameters of the clocks that writes made here create and take one up, in both formats: the
/// cell, the version of the write, its position and its time.
pub proof fn clocks_hold_their_writes(t: TableInfo, key: i64, id: i64, name: Seq<char>, version: i64, seq: i32, ts: i64, text: Seq<char>)
    ensures
        new_clock(t, key, id, version, seq as int, ts).binds == seq![
            Val::Integer(cell_of(key, id)),
            Val::Integer(version),
            Val::Integer(seq as i64),
            Val::Integer(ts),
        ],
        bumped_clock(t, key, id, version, seq as int, ts).binds == seq![
            Val::Integer(cell_of(key, id)),
            Val::Integer(cell_of(key, id)),
            Val::Integer(version),
            Val::Integer(seq as i64),
            Val::Integer(ts),
        ],
        bumped_cell(t, name, key, version, seq as int, text).binds == seq![
            Val::Integer(version),
            Val::Integer(seq as i64),
            Val::Text(text),
            Val::Integer(key),
            Val::Text(name),
        ],
        new_cell(t, name, key, version, seq as int, text).binds == seq![
            Val::Integer(key),
            Val::Text(name),
            Val::Integer(version),
            Val::Integer(seq as i64),
            Val::Text(text),
        ],
{
}

/// Every cell of a row that is written here, by an insert or by an update, has the clock of its own
/// column, at a position of its own behind those before it.
pub proof fn cells_follow_each_other(t: TableInfo, key: i64, ids: Seq<i64>, version: i64, seq: int, ts: i64, text: Seq<char>, i: int)
    ensures
        new_clocks(t, key, ids, version, seq, ts).len() == ids.len(),
        bumped_clocks(t, key, ids, version, seq, ts).len() == ids.len(),
        bumped_cells(t, key, version, seq, text).len() == t.non_pks@.len(),
        0 <= i < ids.len() ==> new_clocks(t, key, ids, version, seq, ts)[i] == new_clock(t, key, ids[i], version, seq + i, ts),
        0 <= i < ids.len() ==> bumped_clocks(t, key, ids, version, seq, ts)[i] == bumped_clock(
            t,
            key,
            ids[i],
            version,
            seq + i,
            ts,
        ),
        0 <= i < t.non_pks@.len() ==> bumped_cells(t, key, version, seq, text)[i] == bumped_cell(
            t,
            t.non_pks@[i].name@,
            key,
            version,
            seq + i,
            text,
        ),
{
}

} // verus!
