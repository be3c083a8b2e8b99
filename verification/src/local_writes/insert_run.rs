//! A row that was inserted here, from the first question to the last clock.
//!
//! Where both formats are written, the first one starts over at the position at which the second
//! one started, so that a cell has the same position in both.

use crate::consts::INSERT_SENTINEL;
use crate::ext_data::ExtData;
use crate::local_writes::after_insert::{
    update_create_record, update_create_record_outcome, v1_insert_step, InsertRoute, V1Insert,
};
use crate::local_writes::v2::{
    ask_row_state, bind_pks_insert, cl_before, clock_columns, compute_hashed_pk, insert_time, local_key_binds,
    local_row_id, lookup_row_state, new_clocks, revive_plan, timed, v2_after_insert, write_clock_entries, write_time,
    RowState,
};
use crate::local_writes::{
    bump_seq, bumped_cells, inserted_binds, lemma_inserted_at, mark_locally_inserted, mark_new_pk_row_created, rest_of_cells,
    update_inserted_clocks,
};
use crate::merge_v2::{hydrate_distance, hydration_ends, Hydrate, HydrateState, RowRef};
use crate::pack_columns::{signed, to_signed, vals, ColumnValue, Val};
use crate::result_code::{ResultCode, Stepped};
use crate::statement::{bound, no_values, plain, push_value, push_values, sqls, Sql, Statement};
use crate::steps::{fail, fail_with, finish, statement, Act, Action, Ev, Event};
use crate::tableinfo::{InsertKeyStep, TableInfo};
use crate::text::{decimal_of, decimal_u64};
use crate::v2_stmts::{
    col_ids_all_sql, col_ids_all_text, lookup_row_state_sql, table_pks_insert_sql, table_pks_insert_text,
};
use vstd::prelude::*;
use vstd::string::*;

verus! {

/// How far an insert has come. `start` is the position at which the first format starts, where it
/// is written too.
#[derive(Clone, Copy, PartialEq, Eq, Debug)]
pub enum InsertState {
    Start,
    /// The row is being given metadata from the first format.
    Hydrating { from: i32, step: HydrateState },
    /// The version of the write was asked for, for the second format.
    Version2 { start: Option<i32> },
    /// The state of the row was asked for.
    Row { start: Option<i32>, version: i64 },
    /// The tombstone of the row was removed; `next` is the causal length that it gets.
    Revived { start: Option<i32>, version: i64, next: i64 },
    /// The live key of the row was created.
    NewKey { start: Option<i32>, version: i64 },
    /// The ids of the columns were asked for.
    ColIds { start: Option<i32>, version: i64, key: i64 },
    /// The clocks of the second format were created.
    Clocks { start: Option<i32> },
    /// The version of the write was asked for, for the first format.
    Version1,
    /// The key of the row was created, unless it was there.
    Key { version: i64 },
    /// The key of the row was looked up.
    OldKey { version: i64 },
    /// The row was marked as created.
    Marked { key: i64 },
    /// The row was marked as created again, where it has a sentinel.
    Sentinel { key: i64, version: i64 },
    /// The versions of the cells were taken one up, where they have clocks.
    Updated { key: i64, version: i64, seq: i32, cl: Option<i64> },
    /// The clocks of the cells were created that had none.
    Cells { key: i64, cl: Option<i64> },
    /// All is done: the key of the row in the first format, and its causal length, where it is
    /// known by now.
    Over { known: Option<(i64, i64)> },
}

/// An insert of a row.
#[derive(Clone, Copy)]
pub struct LocalInsert<'a> {
    pub row: RowRef<'a>,
    pub rowid: Option<i64>,
    pub route: InsertRoute,
    /// The state of the connection; its position goes on with the insert.
    pub ext: ExtData,
    pub state: InsertState,
}

/// How an insert goes on: the state of the connection, that of the insert, and what to do.
pub type InsertNext = (ExtData, InsertState, Act);

/// The state of a connection that is `n` positions further.
pub open spec fn further(ext: ExtData, n: int) -> ExtData {
    ExtData { seq: (ext.seq + n) as i32, ..ext }
}

/// The state of a row, from what was found of it.
pub open spec fn row_state(found: Option<(Option<i64>, i64)>) -> RowState {
    match found {
        Some((Some(key), cl)) => RowState::Alive(key, cl),
        Some((None, cl)) => RowState::Dead(cl),
        None => RowState::NotFound,
    }
}

/// What is said where the row has no key in the first format.
pub const NO_KEY_ERROR: &'static str = "failed getting or creating lookaside key";

impl<'a> LocalInsert<'a> {
    /// The time of the transaction.
    pub open spec fn ts(self) -> i64 {
        signed(self.ext.timestamp as nat) as i64
    }

    /// The time of the transaction, as the first format holds it.
    pub open spec fn ts_text(self) -> Seq<char> {
        decimal_of(self.ext.timestamp as int)
    }

    /// Giving the row metadata from the first format.
    pub open spec fn hydration(self, step: HydrateState) -> Hydrate<'a> {
        Hydrate { row: self.row, now: self.ext.timestamp, state: step }
    }

    /// How it goes on to give the row metadata from the first format.
    #[verifier::opaque]
    pub open spec fn hydrate_step(self, step: HydrateState, ev: Ev) -> (HydrateState, Act) {
        self.hydration(step).next_of(ev)
    }

    /// Gives up.
    pub open spec fn failed(self, code: ResultCode, message: Option<Seq<char>>) -> InsertNext {
        (self.ext, InsertState::Over { known: None }, Act::Fail(code, message))
    }

    /// All is done.
    pub open spec fn done(self, known: Option<(i64, i64)>) -> InsertNext {
        (self.ext, InsertState::Over { known }, Act::Finish)
    }

    /// How it goes on once the row may have got metadata from the first format.
    pub open spec fn on_hydrate(self, from: i32, inner: (HydrateState, Act)) -> InsertNext {
        match inner.1 {
            Act::Finish => (self.ext, InsertState::Version2 { start: Some(from) }, Act::AskVersion),
            Act::Fail(code, _) => self.failed(code, Some("V1 to V2 hydration failed"@)),
            act => (self.ext, InsertState::Hydrating { from, step: inner.0 }, act),
        }
    }

    /// Creates the live key of the row.
    pub open spec fn create_sql(self, cl: i64) -> Sql {
        bound(
            table_pks_insert_sql(*self.row.t),
            local_key_binds(*self.row.t, vals(self.row.pks@), self.rowid).unwrap().push(Val::Integer(cl)),
        )
    }

    /// How it goes on once the state of the row is known. A row that was dead takes one position
    /// more.
    pub open spec fn on_row(self, start: Option<i32>, version: i64, state: RowState) -> InsertNext {
        let cl = cl_before(state);
        let ext = if cl > 0 { further(self.ext, 1) } else { self.ext };
        if state is Alive {
            self.failed(
                ResultCode::ERROR,
                Some("v2_after_insert: row already alive in v2_pks — recursive_triggers may be disabled or data is corrupt"@),
            )
        } else if local_key_binds(*self.row.t, vals(self.row.pks@), self.rowid) is None {
            (
                ext,
                InsertState::Over { known: None },
                Act::Fail(ResultCode::ERROR, Some("rowid-key table missing rowid for pks_insert"@)),
            )
        } else if cl > 0 {
            (
                ext,
                InsertState::Revived { start, version, next: (cl + 1) as i64 },
                Act::Run(revive_plan(*self.row.t, vals(self.row.pks@)), false),
            )
        } else {
            (
                ext,
                InsertState::NewKey { start, version },
                Act::AskInt(self.create_sql((cl + 1) as i64)),
            )
        }
    }

    /// Creates the clocks of the second format.
    pub open spec fn clocks(self, start: Option<i32>, version: i64, key: i64, ids: Seq<i64>) -> InsertNext {
        let columns = clock_columns(*self.row.t, ids);
        (
            further(self.ext, columns.len() as int),
            InsertState::Clocks { start },
            Act::Run(new_clocks(*self.row.t, key, columns, version, self.ext.seq as int, self.ts()), false),
        )
    }

    /// How it goes on once the row has a key in the first format.
    pub open spec fn on_key(self, existed: bool, key: i64, version: i64) -> InsertNext {
        let t = *self.row.t;
        if t.non_pks@.len() == 0 {
            (
                further(self.ext, 1),
                InsertState::Marked { key },
                Act::AskInt(
                    bound(
                        t.mark_locally_created_sql(),
                        seq![
                            Val::Integer(key),
                            Val::Integer(version),
                            Val::Integer(self.ext.seq as i64),
                            Val::Text(self.ts_text()),
                        ],
                    ),
                ),
            )
        } else if existed {
            (
                further(self.ext, 1),
                InsertState::Sentinel { key, version },
                Act::AskInt(
                    bound(
                        t.maybe_mark_locally_reinserted_sql(),
                        seq![
                            Val::Integer(version),
                            Val::Integer(self.ext.seq as i64),
                            Val::Text(self.ts_text()),
                            Val::Integer(key),
                            Val::Text(INSERT_SENTINEL@),
                        ],
                    ),
                ),
            )
        } else {
            self.cells(key, version, None)
        }
    }

    /// Takes the versions of the cells one up, where they have clocks.
    pub open spec fn cells(self, key: i64, version: i64, cl: Option<i64>) -> InsertNext {
        (
            further(self.ext, self.row.t.non_pks@.len() as int),
            InsertState::Updated { key, version, seq: self.ext.seq, cl },
            Act::CountEach(bumped_cells(*self.row.t, key, version, self.ext.seq as int, self.ts_text())),
        )
    }

    /// The key of the row with its causal length, where it is known.
    pub open spec fn known(key: i64, cl: Option<i64>) -> Option<(i64, i64)> {
        match cl {
            Some(n) => Some((key, n)),
            None => None,
        }
    }

    /// How it goes on once it is known which cells have clocks.
    pub open spec fn on_updated(self, key: i64, version: i64, seq: i32, cl: Option<i64>, changed: Seq<i64>) -> InsertNext {
        let rest = rest_of_cells(*self.row.t, key, version, seq as int, self.ts_text(), changed);
        if changed.len() != self.row.t.non_pks@.len() {
            self.failed(ResultCode::MISUSE, None)
        } else if rest.len() == 0 {
            self.done(Self::known(key, cl))
        } else {
            (self.ext, InsertState::Cells { key, cl }, Act::Run(rest, false))
        }
    }

    /// How it goes on.
    pub open spec fn next_of(self, ev: Ev) -> InsertNext {
        match (self.state, ev) {
            (InsertState::Start, Ev::Begin) => match self.route {
                InsertRoute::V1 => (self.ext, InsertState::Version1, Act::AskVersion),
                InsertRoute::V2 => (self.ext, InsertState::Version2 { start: None }, Act::AskVersion),
                InsertRoute::Both => self.on_hydrate(
                    self.ext.seq,
                    self.hydrate_step(HydrateState::Start, Ev::Begin),
                ),
            },
            (InsertState::Hydrating { from, step }, _) => self.on_hydrate(from, self.hydrate_step(step, ev)),
            (InsertState::Version2 { start }, Ev::Int(Stepped::Row(version))) => (
                self.ext,
                InsertState::Row { start, version },
                Act::AskState(
                    bound(
                        lookup_row_state_sql(*self.row.t),
                        seq![
                            local_row_id(*self.row.t, vals(self.row.pks@)),
                            local_row_id(*self.row.t, vals(self.row.pks@)),
                        ],
                    ),
                ),
            ),
            (InsertState::Version2 { .. }, _) => self.failed(
                ResultCode::ERROR,
                Some("failed to get next db_version"@),
            ),
            (InsertState::Row { start, version }, Ev::State(found)) => self.on_row(start, version, row_state(found)),
            (InsertState::Revived { start, version, next }, Ev::Ran) => (
                self.ext,
                InsertState::NewKey { start, version },
                Act::AskInt(self.create_sql(next)),
            ),
            (InsertState::NewKey { start, version }, Ev::Int(Stepped::Row(key))) => if self.row.t.non_pks@.len()
                == 0 {
                self.clocks(start, version, key, seq![])
            } else {
                (
                    self.ext,
                    InsertState::ColIds { start, version, key },
                    Act::AskInts(plain(col_ids_all_sql(*self.row.t))),
                )
            },
            (InsertState::NewKey { .. }, Ev::Int(Stepped::Done)) => self.failed(ResultCode::DONE, None),
            (InsertState::ColIds { start, version, key }, Ev::Ints(ids)) => self.clocks(start, version, key, ids),
            (InsertState::Clocks { start: Some(seq) }, Ev::Ran) => (
                ExtData { seq, ..self.ext },
                InsertState::Version1,
                Act::AskVersion,
            ),
            (InsertState::Clocks { start: None }, Ev::Ran) => self.done(None),
            (InsertState::Version1, Ev::Int(Stepped::Row(version))) => (
                self.ext,
                InsertState::Key { version },
                Act::AskInt(bound(self.row.t.insert_or_ignore_returning_key_sql(), vals(self.row.pks@))),
            ),
            (InsertState::Version1, Ev::Refused(message)) => self.failed(ResultCode::ERROR, Some(message)),
            (InsertState::Key { version }, Ev::Int(Stepped::Row(key))) => self.on_key(false, key, version),
            (InsertState::Key { version }, Ev::Int(Stepped::Done)) => (
                self.ext,
                InsertState::OldKey { version },
                Act::AskInt(bound(self.row.t.select_key_sql(), vals(self.row.pks@))),
            ),
            (InsertState::Key { .. }, Ev::Int(Stepped::Other(rc))) => self.failed(rc, Some(NO_KEY_ERROR@)),
            (InsertState::Key { .. }, Ev::Failed(rc)) => self.failed(rc, Some(NO_KEY_ERROR@)),
            (InsertState::OldKey { version }, Ev::Int(Stepped::Row(key))) => self.on_key(true, key, version),
            (InsertState::OldKey { .. }, Ev::Int(Stepped::Done)) => self.failed(ResultCode::DONE, Some(NO_KEY_ERROR@)),
            (InsertState::OldKey { .. }, Ev::Int(Stepped::Other(rc))) => self.failed(rc, Some(NO_KEY_ERROR@)),
            (InsertState::OldKey { .. }, Ev::Failed(rc)) => self.failed(rc, Some(NO_KEY_ERROR@)),
            (InsertState::Marked { key }, Ev::Int(Stepped::Row(cl))) => self.done(Some((key, cl))),
            (InsertState::Marked { .. }, Ev::Int(Stepped::Done)) => self.done(None),
            (InsertState::Sentinel { key, version }, Ev::Int(Stepped::Row(cl))) => self.cells(key, version, Some(cl)),
            (InsertState::Sentinel { key, version }, Ev::Int(Stepped::Done)) => self.cells(key, version, None),
            (InsertState::Sentinel { .. }, Ev::Int(Stepped::Other(rc))) => self.failed(
                rc,
                Some("failed to step update_create_record_stmt"@),
            ),
            (InsertState::Sentinel { .. }, Ev::Failed(rc)) => self.failed(
                rc,
                Some("failed to step update_create_record_stmt"@),
            ),
            (InsertState::Updated { key, version, seq, cl }, Ev::Ints(changed)) => self.on_updated(
                key,
                version,
                seq,
                cl,
                changed,
            ),
            (InsertState::Cells { key, cl }, Ev::Ran) => self.done(Self::known(key, cl)),
            (_, Ev::Int(Stepped::Other(rc))) => self.failed(rc, None),
            (_, Ev::Failed(rc)) => self.failed(rc, None),
            _ => self.failed(ResultCode::MISUSE, None),
        }
    }

    /// The row has a primary key, and the positions of its cells are in range.
    pub open spec fn in_range(self) -> bool {
        &&& self.row.pks@.len() > 0
        &&& self.state matches InsertState::Updated { seq, .. } ==> seq + self.row.t.non_pks@.len() <= i32::MAX
        &&& self.state is Revived ==> local_key_binds(*self.row.t, vals(self.row.pks@), self.rowid) is Some
    }

    /// There is room for the positions, and for the causal length, that come with an event.
    pub open spec fn fits(self, ev: Ev) -> bool {
        let cells = self.row.t.non_pks@.len();
        match (self.state, ev) {
            (InsertState::Row { .. }, Ev::State(found)) => self.ext.seq < i32::MAX && cl_before(row_state(found))
                < i64::MAX,
            (InsertState::NewKey { .. }, _) => self.ext.seq < i32::MAX,
            (InsertState::ColIds { .. }, Ev::Ints(ids)) => self.ext.seq + ids.len() < i32::MAX,
            (InsertState::Key { .. }, _) => self.ext.seq < i32::MAX && self.ext.seq + cells <= i32::MAX,
            (InsertState::OldKey { .. }, _) => self.ext.seq < i32::MAX,
            (InsertState::Sentinel { .. }, _) => self.ext.seq + cells <= i32::MAX,
            _ => true,
        }
    }

    /// Whether `next` is what becomes of the insert with an event.
    pub open spec fn goes(self, ev: Ev, next: LocalInsert<'a>) -> bool {
        next == (LocalInsert { ext: self.next_of(ev).0, state: self.next_of(ev).1, ..self })
    }

    /// The start of an insert on the route that [`after_insert`](super::after_insert::after_insert)
    /// gave. The second format needs a time: that of the transaction, or else the time for those
    /// that have none, which it then takes over.
    pub fn new(ext: &mut ExtData, route: InsertRoute, row: RowRef<'a>, rowid: Option<i64>) -> (r: Result<
        LocalInsert<'a>,
        String,
    >)
        requires
            row.pks@.len() > 0,
        ensures
            if route == InsertRoute::V1 {
                &&& *final(ext) == *old(ext)
                &&& r matches Ok(m)
                &&& m == (LocalInsert { row, rowid, route, ext: *old(ext), state: InsertState::Start })
                &&& m.in_range()
            } else if write_time(*old(ext)) is Some {
                &&& *final(ext) == timed(*old(ext))
                &&& r matches Ok(m)
                &&& m == (LocalInsert { row, rowid, route, ext: timed(*old(ext)), state: InsertState::Start })
                &&& m.in_range()
            } else {
                &&& *final(ext) == *old(ext)
                &&& r matches Err(msg)
                &&& msg@ == "v2_after_insert: timestamp not set — call crsql_set_ts() first or set default-ts"@
            },
    {
        let v1_only: bool = matches!(route, InsertRoute::V1);
        if !v1_only {
            match insert_time(ext) {
                Ok(_) => {},
                Err(msg) => return Err(msg),
            }
        }
        Ok(LocalInsert { row, rowid, route, ext: *ext, state: InsertState::Start })
    }

    /// Hands the position back to the connection.
    pub fn put_back(&self, ext: &mut ExtData)
        ensures
            *final(ext) == (ExtData { seq: self.ext.seq, ..*old(ext) }),
    {
        ext.seq = self.ext.seq;
    }

    /// Whether [`next`](LocalInsert::next) can take an event.
    pub fn can_take(&self, event: &Event) -> (r: bool)
        ensures
            r == self.fits(event@),
    {
        let cells: u64 = self.row.t.non_pks.len() as u64;
        let room: i64 = i32::MAX as i64 - self.ext.seq as i64;
        match (self.state, event) {
            (InsertState::Row { start: _, version: _ }, Event::State(found)) => {
                let cl: i64 = match lookup_row_state(*found) {
                    RowState::Alive(_, cl) => cl,
                    RowState::Dead(cl) => cl,
                    RowState::NotFound => 0,
                };
                room > 0 && cl < i64::MAX
            },
            (InsertState::NewKey { start: _, version: _ }, _) => room > 0,
            (InsertState::ColIds { start: _, version: _, key: _ }, Event::Ints(ids)) => (ids.len() as u64) < room as u64,
            (InsertState::Key { version: _ }, _) => room > 0 && cells <= room as u64,
            (InsertState::OldKey { version: _ }, _) => room > 0,
            (InsertState::Sentinel { key: _, version: _ }, _) => cells <= room as u64,
            _ => true,
        }
    }

    fn stop(&self, code: ResultCode) -> (r: (ExtData, InsertState, Action))
        ensures
            (r.0, r.1, r.2@) == self.failed(code, None),
    {
        (self.ext, InsertState::Over { known: None }, fail(code))
    }

    fn stop_with(&self, code: ResultCode, message: String) -> (r: (ExtData, InsertState, Action))
        ensures
            (r.0, r.1, r.2@) == self.failed(code, Some(message@)),
    {
        (self.ext, InsertState::Over { known: None }, fail_with(code, message))
    }

    fn end(&self, known: Option<(i64, i64)>) -> (r: (ExtData, InsertState, Action))
        ensures
            (r.0, r.1, r.2@) == self.done(known),
    {
        (self.ext, InsertState::Over { known }, finish())
    }

    fn known_of(key: i64, cl: Option<i64>) -> (r: Option<(i64, i64)>)
        ensures
            r == Self::known(key, cl),
    {
        match cl {
            Some(n) => Some((key, n)),
            None => None,
        }
    }

    fn keys(&self) -> (r: Vec<ColumnValue>)
        ensures
            vals(r@) == vals(self.row.pks@),
    {
        let mut r = no_values();
        push_values(&mut r, self.row.pks);
        assert(vals(r@) =~= vals(self.row.pks@));
        r
    }

    fn go_hydrate(&self, from: i32, step: HydrateState, event: Event) -> (r: (ExtData, InsertState, Action))
        requires
            self.in_range(),
        ensures
            (r.0, r.1, r.2@) == self.on_hydrate(from, self.hydrate_step(step, event@)),
    {
        reveal(LocalInsert::hydrate_step);
        let mut h = Hydrate { row: self.row, now: self.ext.timestamp, state: step };
        let action = h.next(event);
        match action {
            Action::Stop(Ok(_)) => (self.ext, InsertState::Version2 { start: Some(from) }, Action::AskVersion),
            Action::Stop(Err(e)) => self.stop_with(e.code, "V1 to V2 hydration failed".to_owned()),
            other => (self.ext, InsertState::Hydrating { from, step: h.state }, other),
        }
    }

    fn create(&self, cl: i64) -> (r: Result<Statement, String>)
        requires
            self.in_range(),
        ensures
            match local_key_binds(*self.row.t, vals(self.row.pks@), self.rowid) {
                Some(_) => r matches Ok(s) && s@ == self.create_sql(cl),
                None => r matches Err(msg) && msg@ == "rowid-key table missing rowid for pks_insert"@,
            },
    {
        let hash = match compute_hashed_pk(self.row.t, self.row.pks) {
            Ok(hash) => hash,
            Err(msg) => return Err(msg.to_owned()),
        };
        match bind_pks_insert(self.row.t, self.row.pks, &hash, self.rowid) {
            Ok(mut binds) => {
                push_value(&mut binds, ColumnValue::Integer(cl));
                Ok(statement(table_pks_insert_text(self.row.t), binds))
            },
            Err(msg) => Err(msg),
        }
    }

    fn go_row(&self, start: Option<i32>, version: i64, state: RowState) -> (r: (ExtData, InsertState, Action))
        requires
            self.in_range(),
            self.ext.seq < i32::MAX,
            cl_before(state) < i64::MAX,
        ensures
            (r.0, r.1, r.2@) == self.on_row(start, version, state),
            r.1 is Revived ==> local_key_binds(*self.row.t, vals(self.row.pks@), self.rowid) is Some,
    {
        let mut ext = self.ext;
        match v2_after_insert(&mut ext, self.row.t, self.row.pks, self.rowid, state) {
            Ok(plan) => {
                if plan.cl > 1 {
                    (
                        ext,
                        InsertState::Revived { start, version, next: plan.cl },
                        Action::Run { plan: plan.revive, counts: false },
                    )
                } else {
                    (ext, InsertState::NewKey { start, version }, Action::AskInt(plan.create))
                }
            },
            Err(msg) => (ext, InsertState::Over { known: None }, fail_with(ResultCode::ERROR, msg)),
        }
    }

    fn go_clocks(&self, start: Option<i32>, version: i64, key: i64, ids: &[i64]) -> (r: (ExtData, InsertState, Action))
        requires
            self.ext.seq + ids@.len() < i32::MAX,
        ensures
            (r.0, r.1, r.2@) == self.clocks(start, version, key, ids@),
    {
        let mut ext = self.ext;
        let ts: i64 = to_signed(self.ext.timestamp);
        let plan = write_clock_entries(&mut ext, self.row.t, key, ids, version, ts);
        (ext, InsertState::Clocks { start }, Action::Run { plan, counts: false })
    }

    fn go_cells(&self, key: i64, version: i64, cl: Option<i64>) -> (r: (ExtData, InsertState, Action))
        requires
            self.ext.seq + self.row.t.non_pks@.len() <= i32::MAX,
        ensures
            (r.0, r.1, r.2@) == self.cells(key, version, cl),
    {
        let mut ext = self.ext;
        let ts = decimal_u64(self.ext.timestamp);
        let plan = update_inserted_clocks(&mut ext, self.row.t, key, version, ts.as_str());
        (ext, InsertState::Updated { key, version, seq: self.ext.seq, cl }, Action::CountEach(plan))
    }

    fn go_key(&self, existed: bool, key: i64, version: i64) -> (r: (ExtData, InsertState, Action))
        requires
            self.ext.seq < i32::MAX,
            !existed ==> self.ext.seq + self.row.t.non_pks@.len() <= i32::MAX,
        ensures
            (r.0, r.1, r.2@) == self.on_key(existed, key, version),
            r.1 matches InsertState::Updated { seq, .. } ==> seq + self.row.t.non_pks@.len() <= i32::MAX,
    {
        let mut ext = self.ext;
        let ts = decimal_u64(self.ext.timestamp);
        match v1_insert_step(self.row.t, existed) {
            V1Insert::Row => {
                let seq: i32 = bump_seq(&mut ext);
                let mark = mark_new_pk_row_created(self.row.t, key, version, seq, ts.as_str());
                (ext, InsertState::Marked { key }, Action::AskInt(mark))
            },
            V1Insert::SentinelAndCells => {
                let seq: i32 = bump_seq(&mut ext);
                let mut plan = update_create_record(self.row.t, key, version, seq, ts.as_str());
                assert(sqls(plan@).len() == plan@.len());
                assert(sqls(plan@)[0] == plan@[0]@);
                (ext, InsertState::Sentinel { key, version }, Action::AskInt(plan.remove(0)))
            },
            V1Insert::Cells => self.go_cells(key, version, None),
        }
    }

    fn go_updated(&self, key: i64, version: i64, seq: i32, cl: Option<i64>, changed: &[i64]) -> (r: (
        ExtData,
        InsertState,
        Action,
    ))
        requires
            seq + self.row.t.non_pks@.len() <= i32::MAX,
        ensures
            (r.0, r.1, r.2@) == self.on_updated(key, version, seq, cl, changed@),
    {
        if changed.len() != self.row.t.non_pks.len() {
            return self.stop(ResultCode::MISUSE);
        }
        let ts = decimal_u64(self.ext.timestamp);
        let plan = mark_locally_inserted(self.row.t, key, version, seq, ts.as_str(), changed);
        assert(sqls(plan@).len() == plan@.len());
        if plan.len() == 0 {
            self.end(Self::known_of(key, cl))
        } else {
            (self.ext, InsertState::Cells { key, cl }, Action::Run { plan, counts: false })
        }
    }

    fn go_sentinel(&self, key: i64, version: i64, stepped: Stepped) -> (r: (ExtData, InsertState, Action))
        requires
            self.ext.seq + self.row.t.non_pks@.len() <= i32::MAX,
            self.state == (InsertState::Sentinel { key, version }),
        ensures
            (r.0, r.1, r.2@) == self.next_of(Ev::Int(stepped)),
    {
        match (update_create_record_outcome(stepped), stepped) {
            (Ok(cl), _) => self.go_cells(key, version, cl),
            (Err(msg), Stepped::Other(rc)) => self.stop_with(rc, msg.to_owned()),
            (Err(_), _) => self.stop(ResultCode::MISUSE),
        }
    }

    fn go(&self, event: Event) -> (r: (ExtData, InsertState, Action))
        requires
            self.in_range(),
            self.fits(event@),
        ensures
            (r.0, r.1, r.2@) == self.next_of(event@),
            r.1 matches InsertState::Updated { seq, .. } ==> seq + self.row.t.non_pks@.len() <= i32::MAX,
            r.1 is Revived ==> local_key_binds(*self.row.t, vals(self.row.pks@), self.rowid) is Some,
    {
        match (self.state, event) {
            (InsertState::Start, Event::Begin) => match self.route {
                InsertRoute::V1 => (self.ext, InsertState::Version1, Action::AskVersion),
                InsertRoute::V2 => (self.ext, InsertState::Version2 { start: None }, Action::AskVersion),
                InsertRoute::Both => self.go_hydrate(self.ext.seq, HydrateState::Start, Event::Begin),
            },
            (InsertState::Hydrating { from, step }, event) => self.go_hydrate(from, step, event),
            (InsertState::Version2 { start }, Event::Int(Stepped::Row(version))) => match ask_row_state(
                self.row.t,
                self.row.pks,
            ) {
                Ok(mut plan) => {
                    assert(sqls(plan@).len() == plan@.len());
                    assert(sqls(plan@)[0] == plan@[0]@);
                    (self.ext, InsertState::Row { start, version }, Action::AskState(plan.remove(0)))
                },
                Err(msg) => self.stop_with(ResultCode::ERROR, msg.to_owned()),
            },
            (InsertState::Version2 { start: _ }, _) => self.stop_with(
                ResultCode::ERROR,
                "failed to get next db_version".to_owned(),
            ),
            (InsertState::Row { start, version }, Event::State(found)) => self.go_row(
                start,
                version,
                lookup_row_state(found),
            ),
            (InsertState::Revived { start, version, next }, Event::Ran) => match self.create(next) {
                Ok(create) => (self.ext, InsertState::NewKey { start, version }, Action::AskInt(create)),
                Err(msg) => self.stop_with(ResultCode::ERROR, msg),
            },
            (InsertState::NewKey { start, version }, Event::Int(Stepped::Row(key))) => if self.row.t.non_pks.len()
                == 0 {
                let none: Vec<i64> = Vec::new();
                assert(none@ =~= seq![]);
                self.go_clocks(start, version, key, none.as_slice())
            } else {
                let ask = statement(col_ids_all_text(self.row.t), no_values());
                (self.ext, InsertState::ColIds { start, version, key }, Action::AskInts(ask))
            },
            (InsertState::NewKey { start: _, version: _ }, Event::Int(Stepped::Done)) => self.stop(ResultCode::DONE),
            (InsertState::ColIds { start, version, key }, Event::Ints(ids)) => self.go_clocks(
                start,
                version,
                key,
                ids.as_slice(),
            ),
            (InsertState::Clocks { start: Some(seq) }, Event::Ran) => {
                (ExtData { seq, ..self.ext }, InsertState::Version1, Action::AskVersion)
            },
            (InsertState::Clocks { start: None }, Event::Ran) => self.end(None),
            (InsertState::Version1, Event::Int(Stepped::Row(version))) => {
                let ask = statement(self.row.t.get_insert_or_ignore_returning_key_stmt(), self.keys());
                (self.ext, InsertState::Key { version }, Action::AskInt(ask))
            },
            (InsertState::Version1, Event::Refused(message)) => self.stop_with(ResultCode::ERROR, message),
            (InsertState::Key { version }, Event::Int(stepped)) => match TableInfo::get_or_create_key_for_insert(
                stepped,
            ) {
                InsertKeyStep::Created(key) => self.go_key(false, key, version),
                InsertKeyStep::LookUp => {
                    let ask = statement(self.row.t.get_select_key_stmt(), self.keys());
                    (self.ext, InsertState::OldKey { version }, Action::AskInt(ask))
                },
                InsertKeyStep::Fail(rc) => self.stop_with(rc, NO_KEY_ERROR.to_owned()),
            },
            (InsertState::Key { version: _ }, Event::Failed(rc)) => self.stop_with(rc, NO_KEY_ERROR.to_owned()),
            (InsertState::OldKey { version }, Event::Int(stepped)) => match TableInfo::found_key_for_insert(stepped) {
                Ok((existed, key)) => self.go_key(existed, key, version),
                Err(rc) => self.stop_with(rc, NO_KEY_ERROR.to_owned()),
            },
            (InsertState::OldKey { version: _ }, Event::Failed(rc)) => self.stop_with(rc, NO_KEY_ERROR.to_owned()),
            (InsertState::Marked { key }, Event::Int(Stepped::Row(cl))) => self.end(Some((key, cl))),
            (InsertState::Marked { key: _ }, Event::Int(Stepped::Done)) => self.end(None),
            (InsertState::Sentinel { key, version }, Event::Int(stepped)) => self.go_sentinel(key, version, stepped),
            (InsertState::Sentinel { key: _, version: _ }, Event::Failed(rc)) => self.stop_with(
                rc,
                "failed to step update_create_record_stmt".to_owned(),
            ),
            (InsertState::Updated { key, version, seq, cl }, Event::Ints(changed)) => self.go_updated(
                key,
                version,
                seq,
                cl,
                changed.as_slice(),
            ),
            (InsertState::Cells { key, cl }, Event::Ran) => self.end(Self::known_of(key, cl)),
            (_, Event::Int(Stepped::Other(rc))) => self.stop(rc),
            (_, Event::Failed(rc)) => self.stop(rc),
            _ => self.stop(ResultCode::MISUSE),
        }
    }

    /// Goes on: `event` is what came of the last action.
    pub fn next(&mut self, event: Event) -> (r: Action)
        requires
            old(self).in_range(),
            old(self).fits(event@),
        ensures
            old(self).goes(event@, *final(self)),
            final(self).in_range(),
            r@ == old(self).next_of(event@).2,
    {
        let (ext, state, action) = self.go(event);
        self.ext = ext;
        self.state = state;
        action
    }
}

// ---------------------------------------------------------------------------
// Positions in both formats
// ---------------------------------------------------------------------------
/// An insert from its start, with what came of each of its actions.
pub open spec fn is_insert_run<'a>(run: Seq<LocalInsert<'a>>, evs: Seq<Ev>) -> bool {
    &&& run.len() == evs.len() + 1
    &&& run[0].state is Start
    &&& forall|k: int| 0 <= k < evs.len() ==> (#[trigger] run[k]).goes(evs[k], run[k + 1])
}

/// The position at which both formats start is kept while the second one is written, and is where
/// the first one is when it comes to its first statement.
spec fn keeps_start(m: LocalInsert<'_>, seq: i32) -> bool {
    match m.state {
        InsertState::Start => m.ext.seq == seq,
        InsertState::Hydrating { from, .. } => from == seq && m.ext.seq == seq,
        InsertState::Version2 { start } => start == Some(seq) && m.ext.seq == seq,
        InsertState::Row { start, .. } => start == Some(seq) && m.ext.seq == seq,
        InsertState::Revived { start, .. } => start == Some(seq),
        InsertState::NewKey { start, .. } => start == Some(seq),
        InsertState::ColIds { start, .. } => start == Some(seq),
        InsertState::Clocks { start } => start == Some(seq),
        InsertState::Version1 => m.ext.seq == seq,
        InsertState::Key { .. } => m.ext.seq == seq,
        InsertState::OldKey { .. } => m.ext.seq == seq,
        _ => true,
    }
}

proof fn lemma_keeps_start<'a>(m: LocalInsert<'a>, ev: Ev, next: LocalInsert<'a>, seq: i32)
    requires
        m.route == InsertRoute::Both,
        keeps_start(m, seq),
        m.goes(ev, next),
    ensures
        keeps_start(next, seq),
        next.route == InsertRoute::Both,
{
}

/// Where both formats are written, both start at the position that the connection had: the second
/// when the state of the row is asked for, and the first when its key is asked for.
pub proof fn formats_start_together<'a>(run: Seq<LocalInsert<'a>>, evs: Seq<Ev>, k: int)
    requires
        is_insert_run(run, evs),
        run[0].route == InsertRoute::Both,
        0 <= k < run.len(),
    ensures
        run[k].state is Row || run[k].state is Key || run[k].state is OldKey ==> run[k].ext.seq == run[0].ext.seq,
{
    lemma_run_keeps_start(run, evs, k);
}

proof fn lemma_run_keeps_start<'a>(run: Seq<LocalInsert<'a>>, evs: Seq<Ev>, k: int)
    requires
        is_insert_run(run, evs),
        run[0].route == InsertRoute::Both,
        0 <= k < run.len(),
    ensures
        keeps_start(run[k], run[0].ext.seq),
        run[k].route == InsertRoute::Both,
    decreases k,
{
    if k > 0 {
        lemma_run_keeps_start(run, evs, k - 1);
        assert(run[k - 1].goes(evs[k - 1], run[k - 1 + 1]));
        lemma_keeps_start(run[k - 1], evs[k - 1], run[k], run[0].ext.seq);
    }
}

/// From one position on, the two formats give the cells of a row the same run of positions, and
/// come to the same position after it: those of the clocks of the second, and those of the updates
/// of the first, which are also those of the clocks that it creates. `ids` are the ids of the
/// columns, one for each.
pub proof fn formats_share_positions(m: LocalInsert<'_>, ids: Seq<i64>, version: i64, key: i64, v1_key: i64)
    requires
        m.row.t.non_pks@.len() > 0,
        ids.len() == m.row.t.non_pks@.len(),
        0 <= m.ext.seq,
        m.ext.seq + ids.len() <= i32::MAX,
    ensures
        ({
            let t = *m.row.t;
            let seq = m.ext.seq as int;
            let second = new_clocks(t, key, clock_columns(t, ids), version, seq, m.ts());
            let first = bumped_cells(t, v1_key, version, seq, m.ts_text());
            let created = inserted_binds(t.non_pk_names(), v1_key, version, seq, m.ts_text());
            &&& second.len() == first.len()
            &&& forall|i: int|
                0 <= i < ids.len() ==> {
                    &&& #[trigger] second[i].binds[2] == Val::Integer((seq + i) as i64)
                    &&& first[i].binds[1] == second[i].binds[2]
                    &&& created[5 * i + 3] == second[i].binds[2]
                }
            &&& m.clocks(None, version, key, ids).0 == m.cells(v1_key, version, None).0
        }),
{
    let t = *m.row.t;
    let seq = m.ext.seq as int;
    let second = new_clocks(t, key, clock_columns(t, ids), version, seq, m.ts());
    let first = bumped_cells(t, v1_key, version, seq, m.ts_text());
    let created = inserted_binds(t.non_pk_names(), v1_key, version, seq, m.ts_text());
    assert forall|i: int| 0 <= i < ids.len() implies {
        &&& #[trigger] second[i].binds[2] == Val::Integer((seq + i) as i64)
        &&& first[i].binds[1] == second[i].binds[2]
        &&& created[5 * i + 3] == second[i].binds[2]
    } by {
        lemma_inserted_at(t.non_pk_names(), v1_key, version, seq, m.ts_text(), i);
        assert(created.subrange(5 * i, 5 * i + 5)[3] == created[5 * i + 3]);
    }
}

/// A row that is new takes no position before those of its cells, in either format, and one that
/// was there before and is dead takes one in both.
pub proof fn old_rows_take_one_more(m: LocalInsert<'_>, start: Option<i32>, version: i64, key: i64, cl: i64)
    requires
        m.row.t.non_pks@.len() > 0,
        cl > 0,
    ensures
        m.on_row(start, version, RowState::NotFound).0 == m.ext,
        m.on_key(false, key, version) == m.cells(key, version, None),
        m.on_row(start, version, RowState::Dead(cl)).0 == further(m.ext, 1),
        m.on_key(true, key, version).0 == further(m.ext, 1),
{
}

/// A row without columns outside its primary key takes one position in both formats, where it is
/// new.
pub proof fn bare_rows_take_one(m: LocalInsert<'_>, start: Option<i32>, version: i64, key: i64, v1_key: i64, existed: bool)
    requires
        m.row.t.non_pks@.len() == 0,
    ensures
        m.clocks(start, version, key, seq![]).0 == further(m.ext, 1),
        m.on_key(existed, v1_key, version).0 == further(m.ext, 1),
{
}

/// How far it is to the end of an insert.
pub open spec fn insert_distance(state: InsertState) -> nat {
    match state {
        InsertState::Start => 30,
        InsertState::Hydrating { step, .. } => 16 + hydrate_distance(step),
        InsertState::Version2 { .. } => 15,
        InsertState::Row { .. } => 14,
        InsertState::Revived { .. } => 13,
        InsertState::NewKey { .. } => 12,
        InsertState::ColIds { .. } => 11,
        InsertState::Clocks { .. } => 10,
        InsertState::Version1 => 9,
        InsertState::Key { .. } => 8,
        InsertState::OldKey { .. } => 7,
        InsertState::Marked { .. } => 6,
        InsertState::Sentinel { .. } => 5,
        InsertState::Updated { .. } => 4,
        InsertState::Cells { .. } => 3,
        InsertState::Over { .. } => 0,
    }
}

proof fn lemma_hydrate_nearer(m: LocalInsert<'_>, step: HydrateState, ev: Ev)
    ensures
        ({
            let inner = m.hydrate_step(step, ev);
            inner.1 is Finish || inner.1 is Fail || hydrate_distance(inner.0) < hydrate_distance(step)
        }),
{
    reveal(LocalInsert::hydrate_step);
    hydration_ends(m.hydration(step), ev);
}

/// An insert comes to its end, whatever came of each action.
pub proof fn insert_ends(m: LocalInsert<'_>, ev: Ev)
    ensures
        m.next_of(ev).1 is Over || insert_distance(m.next_of(ev).1) < insert_distance(m.state),
        m.next_of(ev).1 is Over <==> m.next_of(ev).2 is Finish || m.next_of(ev).2 is Fail,
{
    lemma_hydrate_nearer(m, HydrateState::Start, Ev::Begin);
    if let InsertState::Hydrating { step, .. } = m.state {
        lemma_hydrate_nearer(m, step, ev);
    }
}

} // verus!
