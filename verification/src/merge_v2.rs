//! Merging a change by metadata in the second format, from the first question to the last
//! statement: giving its row metadata from the first format, deleting the row or writing its
//! cells, and copying the outcome back to the first format.

use crate::changes_vtab_write::{
    alive_step_at, base_row_binds, bury_local_row, bury_plan, copy_of, hydrate_by_clock, hydrate_by_sentinel,
    hydrate_clocks, hydrate_dead_plan, hydrate_dead_row, live_key_binds, merge_clock_sql, mirror_plan,
    new_row_plan, new_row_statements, row_id, row_state_lookup, sentinel_state, time_or, tombstone_sql, tombstone_taken,
    v2_apply_value_change_colval, v2_ensure_alive_row_at_cl, v2_insert_pk_row, v2_lookup_key_and_cl,
    v2_merge_insert_tombstone, v2_to_v1_mirror_metadata, v2_write_cell, zero_fill, AliveStep, CellWrite,
    HydrateStep, Stamp,
};
use crate::pack_columns::{signed, to_signed, vals, ColumnValue, Val};
use crate::result_code::{ResultCode, Stepped};
use crate::statement::{bound, one, sqls, unnoticed, Sql};
use crate::steps::{fail, finish, statement, Act, Action, Ev, Event};
use crate::tableinfo::{SchemaVersion, TableInfo};
use crate::v2_stmts::{
    base_lookup_rowid_sql, base_lookup_rowid_text, base_update_sql, clock_zero_fill_sql, col_id_lookup_sql,
    col_id_lookup_text, hydrate_clock_copy_sql, lookup_pks_alive_sql, lookup_pks_alive_text, lookup_pks_tomb_sql,
    lookup_pks_tomb_text, lookup_row_state_sql, pk_lookup_by_key_sql, pk_lookup_by_key_text,
    table_pks_insert_sql, v1_any_clock_lookup_sql, v1_any_clock_lookup_text,
    v1_sentinel_detail_sql, v1_sentinel_detail_text, v1_sentinel_lookup_sql, v1_sentinel_lookup_text,
};
use vstd::prelude::*;

verus! {

// ---------------------------------------------------------------------------
// Rows
// ---------------------------------------------------------------------------
/// The row that a change is about.
#[derive(Clone, Copy)]
pub struct RowRef<'a> {
    pub t: &'a TableInfo,
    /// Its primary key; empty where it is not known.
    pub pks: &'a [ColumnValue],
    /// The hash by which it is known; empty where rows are known by their primary keys.
    pub hashed_pk: &'a [u8],
}

impl<'a> RowRef<'a> {
    /// The row can be found: by its primary key, where rows are known by it.
    pub open spec fn findable(self) -> bool {
        self.t.skip_hash ==> self.pks@.len() > 0
    }

    /// The parameter by which the row is found.
    pub open spec fn id(self) -> Val {
        row_id(*self.t, vals(self.pks@), self.hashed_pk@)
    }

    /// The question for the state of the row.
    pub open spec fn state_sql(self) -> Sql {
        bound(lookup_row_state_sql(*self.t), seq![self.id(), self.id()])
    }

    fn ask_state(&self) -> (r: Action)
        requires
            self.findable(),
        ensures
            r@ == Act::AskState(self.state_sql()),
    {
        let mut plan = row_state_lookup(self.t, self.pks, self.hashed_pk);
        assert(sqls(plan@).len() == plan@.len());
        assert(sqls(plan@)[0] == plan@[0]@);
        Action::AskState(plan.remove(0))
    }

    /// The question for the live key of the row, which is created at a causal length.
    pub open spec fn new_key_sql(self, rowid: i64, cl: i64) -> Sql {
        bound(
            table_pks_insert_sql(*self.t),
            live_key_binds(*self.t, rowid, vals(self.pks@), self.hashed_pk@, cl),
        )
    }

    fn ask_new_key(&self, rowid: i64, cl: i64) -> (r: Action)
        ensures
            r@ == Act::AskInt(self.new_key_sql(rowid, cl)),
    {
        let mut plan = v2_insert_pk_row(self.t, rowid, self.pks, self.hashed_pk, cl);
        assert(sqls(plan@).len() == plan@.len());
        assert(sqls(plan@)[0] == plan@[0]@);
        let st = plan.remove(0);
        Action::AskInt(st)
    }
}

/// The key and the causal length of a row, from what was found of it.
pub open spec fn state_of(found: Option<(Option<i64>, i64)>) -> (Option<i64>, i64) {
    match found {
        Some(state) => state,
        None => (None, 0i64),
    }
}

/// The integer of a row, 0 where there was none.
pub open spec fn int_or_zero(stepped: Stepped) -> Option<i64> {
    match stepped {
        Stepped::Row(n) => Some(n),
        Stepped::Done => Some(0i64),
        Stepped::Other(_) => None,
    }
}

// ---------------------------------------------------------------------------
// Metadata from the first format
// ---------------------------------------------------------------------------
/// How far it has come to give a row metadata from the first format.
#[derive(Clone, Copy, PartialEq, Eq, Structural, Debug)]
pub enum HydrateState {
    Start,
    /// The state of the row was asked for.
    State,
    /// Its key in the first format was asked for.
    Key,
    /// Its sentinel was asked for.
    Sentinel { key: i64 },
    /// It was asked whether it has a clock.
    Clock { key: i64 },
    /// Who deleted it was asked for.
    Detail { cl: i64 },
    /// Its rowid was asked for.
    Rowid { key: i64, cl: i64 },
    /// Its live key was created.
    NewKey { key: i64 },
    /// Its clocks were copied, or its tombstone was written.
    Writing,
    Over,
}

/// Giving a row metadata from the first format.
#[derive(Clone, Copy)]
pub struct Hydrate<'a> {
    pub row: RowRef<'a>,
    /// The time of the transaction, 0 for none.
    pub now: u64,
    pub state: HydrateState,
}

impl<'a> Hydrate<'a> {
    /// Gives up.
    pub open spec fn give_up(code: ResultCode) -> (HydrateState, Act) {
        (HydrateState::Over, Act::Fail(code, None))
    }

    /// All is done.
    pub open spec fn done() -> (HydrateState, Act) {
        (HydrateState::Over, Act::Finish)
    }

    /// The time of the transaction.
    pub open spec fn ts(self) -> i64 {
        signed(self.now as nat) as i64
    }

    /// How it goes on with a row that lives.
    pub open spec fn alive(self, key: i64, cl: i64) -> (HydrateState, Act) {
        if self.row.t.key_is_rowid {
            (
                HydrateState::Rowid { key, cl },
                Act::AskInt(bound(base_lookup_rowid_sql(*self.row.t), vals(self.row.pks@))),
            )
        } else {
            self.new_key(key, cl, 0)
        }
    }

    /// Creates the live key.
    pub open spec fn new_key(self, key: i64, cl: i64, rowid: i64) -> (HydrateState, Act) {
        (HydrateState::NewKey { key }, Act::AskInt(self.row.new_key_sql(rowid, cl)))
    }

    /// How it goes on once it is known whether the row lives.
    pub open spec fn by_step(self, key: i64, step: HydrateStep) -> (HydrateState, Act) {
        match step {
            HydrateStep::FindClock => (
                HydrateState::Clock { key },
                Act::AskInt(bound(v1_any_clock_lookup_sql(*self.row.t), seq![Val::Integer(key)])),
            ),
            HydrateStep::Dead(cl) => (
                HydrateState::Detail { cl },
                Act::AskDetail(bound(v1_sentinel_detail_sql(*self.row.t), seq![Val::Integer(key)])),
            ),
            HydrateStep::Alive(cl) => self.alive(key, cl),
            _ => Self::done(),
        }
    }

    /// How it goes on. A row that has metadata in the second format is left alone, and so is one
    /// that has none in the first.
    pub open spec fn next_of(self, ev: Ev) -> (HydrateState, Act) {
        match (self.state, ev) {
            (HydrateState::Start, Ev::Begin) => if self.now == 0 {
                Self::give_up(ResultCode::ERROR)
            } else {
                (HydrateState::State, Act::AskState(self.row.state_sql()))
            },
            (HydrateState::State, Ev::State(found)) => if state_of(found).0 is Some || state_of(found).1 != 0 {
                Self::done()
            } else {
                (
                    HydrateState::Key,
                    Act::AskInt(bound(self.row.t.select_key_sql(), vals(self.row.pks@))),
                )
            },
            (HydrateState::Key, Ev::Int(Stepped::Row(key))) => if self.row.t.schema_version
                != SchemaVersion::V2AndV1 {
                Self::give_up(ResultCode::ERROR)
            } else {
                (
                    HydrateState::Sentinel { key },
                    Act::AskInt(bound(v1_sentinel_lookup_sql(*self.row.t), seq![Val::Integer(key)])),
                )
            },
            (HydrateState::Key, Ev::Int(_)) => Self::done(),
            (HydrateState::Sentinel { key }, Ev::Int(Stepped::Row(cl))) => self.by_step(
                key,
                sentinel_state(Some(cl)),
            ),
            (HydrateState::Sentinel { key }, Ev::Int(Stepped::Done)) => self.by_step(key, sentinel_state(None)),
            (HydrateState::Clock { key }, Ev::Int(Stepped::Row(_))) => self.alive(key, 1),
            (HydrateState::Clock { .. }, Ev::Int(Stepped::Done)) => Self::done(),
            (HydrateState::Detail { cl }, Ev::Detail(Some(d))) => (
                HydrateState::Writing,
                Act::Run(
                    hydrate_dead_plan(
                        *self.row.t,
                        vals(self.row.pks@),
                        self.row.hashed_pk@,
                        cl,
                        d.0,
                        d.1,
                        d.2,
                        time_or(d.3, self.ts()),
                    ),
                    false,
                ),
            ),
            (HydrateState::Detail { .. }, Ev::Detail(None)) => Self::done(),
            (HydrateState::Rowid { key, cl }, Ev::Int(Stepped::Row(rowid))) => self.new_key(key, cl, rowid),
            (HydrateState::Rowid { .. }, Ev::Int(Stepped::Done)) => Self::done(),
            (HydrateState::NewKey { key }, Ev::Int(stepped)) => match int_or_zero(stepped) {
                Some(v2_key) => (
                    HydrateState::Writing,
                    Act::Run(
                        seq![
                            bound(
                                hydrate_clock_copy_sql(*self.row.t),
                                seq![Val::Integer(v2_key), Val::Integer(self.ts()), Val::Integer(key)],
                            ),
                        ],
                        false,
                    ),
                ),
                None => Self::give_up(stepped->Other_0),
            },
            (HydrateState::Writing, Ev::Ran) => Self::done(),
            (_, Ev::Int(Stepped::Other(rc))) => Self::give_up(rc),
            (_, Ev::Failed(rc)) => Self::give_up(rc),
            _ => Self::give_up(ResultCode::MISUSE),
        }
    }

    /// The start of giving a row metadata from the first format.
    pub fn new(row: RowRef<'a>, now: u64) -> (r: Hydrate<'a>)
        ensures
            r == (Hydrate { row, now, state: HydrateState::Start }),
    {
        Hydrate { row, now, state: HydrateState::Start }
    }

    fn stop(code: ResultCode) -> (r: (HydrateState, Action))
        ensures
            (r.0, r.1@) == Self::give_up(code),
    {
        (HydrateState::Over, fail(code))
    }

    fn end() -> (r: (HydrateState, Action))
        ensures
            (r.0, r.1@) == Self::done(),
    {
        (HydrateState::Over, finish())
    }

    fn go_new_key(&self, key: i64, cl: i64, rowid: i64) -> (r: (HydrateState, Action))
        ensures
            (r.0, r.1@) == self.new_key(key, cl, rowid),
    {
        (HydrateState::NewKey { key }, self.row.ask_new_key(rowid, cl))
    }

    fn go_alive(&self, key: i64, cl: i64) -> (r: (HydrateState, Action))
        ensures
            (r.0, r.1@) == self.alive(key, cl),
    {
        if self.row.t.key_is_rowid {
            (
                HydrateState::Rowid { key, cl },
                Action::AskInt(statement(base_lookup_rowid_text(self.row.t), copy_of(self.row.pks))),
            )
        } else {
            self.go_new_key(key, cl, 0)
        }
    }

    fn go_by_step(&self, key: i64, step: HydrateStep) -> (r: (HydrateState, Action))
        ensures
            (r.0, r.1@) == self.by_step(key, step),
    {
        match step {
            HydrateStep::FindClock => {
                (
                    HydrateState::Clock { key },
                    Action::AskInt(
                        statement(v1_any_clock_lookup_text(self.row.t), one(ColumnValue::Integer(key))),
                    ),
                )
            },
            HydrateStep::Dead(cl) => {
                (
                    HydrateState::Detail { cl },
                    Action::AskDetail(
                        statement(v1_sentinel_detail_text(self.row.t), one(ColumnValue::Integer(key))),
                    ),
                )
            },
            HydrateStep::Alive(cl) => self.go_alive(key, cl),
            _ => Self::end(),
        }
    }

    fn go(&self, event: Event) -> (r: (HydrateState, Action))
        requires
            self.row.findable(),
        ensures
            (r.0, r.1@) == self.next_of(event@),
    {
        let now: i64 = to_signed(self.now);
        match (self.state, event) {
            (HydrateState::Start, Event::Begin) => if self.now == 0 {
                Self::stop(ResultCode::ERROR)
            } else {
                (HydrateState::State, self.row.ask_state())
            },
            (HydrateState::State, Event::State(found)) => {
                let (key, cl) = v2_lookup_key_and_cl(found);
                if key.is_some() || cl != 0 {
                    Self::end()
                } else {
                    (
                        HydrateState::Key,
                        Action::AskInt(statement(self.row.t.get_select_key_stmt(), copy_of(self.row.pks))),
                    )
                }
            },
            (HydrateState::Key, Event::Int(Stepped::Row(key))) => {
                let both: bool = matches!(self.row.t.schema_version, SchemaVersion::V2AndV1);
                if !both {
                    Self::stop(ResultCode::ERROR)
                } else {
                    (
                        HydrateState::Sentinel { key },
                        Action::AskInt(
                            statement(v1_sentinel_lookup_text(self.row.t), one(ColumnValue::Integer(key))),
                        ),
                    )
                }
            },
            (HydrateState::Key, Event::Int(_)) => Self::end(),
            (HydrateState::Sentinel { key }, Event::Int(Stepped::Row(cl))) => self.go_by_step(
                key,
                hydrate_by_sentinel(Some(cl)),
            ),
            (HydrateState::Sentinel { key }, Event::Int(Stepped::Done)) => self.go_by_step(
                key,
                hydrate_by_sentinel(None),
            ),
            (HydrateState::Clock { key }, Event::Int(Stepped::Row(_))) => self.go_by_step(
                key,
                hydrate_by_clock(true),
            ),
            (HydrateState::Clock { key }, Event::Int(Stepped::Done)) => self.go_by_step(
                key,
                hydrate_by_clock(false),
            ),
            (HydrateState::Detail { cl }, Event::Detail(Some(d))) => {
                let plan = hydrate_dead_row(
                    self.row.t,
                    self.row.pks,
                    self.row.hashed_pk,
                    cl,
                    d.0,
                    d.1,
                    d.2,
                    d.3,
                    now,
                );
                (HydrateState::Writing, Action::Run { plan, counts: false })
            },
            (HydrateState::Detail { cl: _ }, Event::Detail(None)) => Self::end(),
            (HydrateState::Rowid { key, cl }, Event::Int(Stepped::Row(rowid))) => self.go_new_key(key, cl, rowid),
            (HydrateState::Rowid { key: _, cl: _ }, Event::Int(Stepped::Done)) => Self::end(),
            (HydrateState::NewKey { key }, Event::Int(Stepped::Row(v2_key))) => {
                let plan = hydrate_clocks(self.row.t, v2_key, now, key);
                (HydrateState::Writing, Action::Run { plan, counts: false })
            },
            (HydrateState::NewKey { key }, Event::Int(Stepped::Done)) => {
                let plan = hydrate_clocks(self.row.t, 0, now, key);
                (HydrateState::Writing, Action::Run { plan, counts: false })
            },
            (HydrateState::Writing, Event::Ran) => Self::end(),
            (_, Event::Int(Stepped::Other(rc))) => Self::stop(rc),
            (_, Event::Failed(rc)) => Self::stop(rc),
            _ => Self::stop(ResultCode::MISUSE),
        }
    }

    /// Goes on: `event` is what came of the last action.
    pub fn next(&mut self, event: Event) -> (r: Action)
        requires
            old(self).row.findable(),
        ensures
            *final(self) == (Hydrate { state: old(self).next_of(event@).0, ..*old(self) }),
            r@ == old(self).next_of(event@).1,
    {
        let (state, action) = self.go(event);
        self.state = state;
        action
    }
}

/// How far it is to the end of giving a row metadata.
pub open spec fn hydrate_distance(state: HydrateState) -> nat {
    match state {
        HydrateState::Start => 9,
        HydrateState::State => 8,
        HydrateState::Key => 7,
        HydrateState::Sentinel { .. } => 6,
        HydrateState::Clock { .. } => 5,
        HydrateState::Rowid { .. } => 4,
        HydrateState::NewKey { .. } => 3,
        HydrateState::Detail { .. } => 2,
        HydrateState::Writing => 1,
        HydrateState::Over => 0,
    }
}

/// Giving a row metadata comes to its end, whatever came of each action.
pub proof fn hydration_ends(h: Hydrate<'_>, ev: Ev)
    ensures
        h.next_of(ev).0 is Over || hydrate_distance(h.next_of(ev).0) < hydrate_distance(h.state),
        h.next_of(ev).0 is Over <==> h.next_of(ev).1 is Finish || h.next_of(ev).1 is Fail,
{
}

/// A row that has metadata in the second format is left as it is.
pub proof fn hydration_is_once(h: Hydrate<'_>, found: Option<(Option<i64>, i64)>)
    requires
        h.state == HydrateState::State,
        state_of(found).0 is Some || state_of(found).1 != 0,
    ensures
        h.next_of(Ev::State(found)) == (HydrateState::Over, Act::Finish),
{
}

// ---------------------------------------------------------------------------
// Deleting a row
// ---------------------------------------------------------------------------
/// How far the deletion of a row has come.
#[derive(Clone, Copy, PartialEq, Eq, Structural, Debug)]
pub enum DeleteState {
    Start,
    /// The state of the row was asked for.
    State,
    /// The number of the site was asked for.
    Ordinal { key: Option<i64>, cl: i64 },
    /// The tombstone was merged.
    Tombstone { key: Option<i64> },
    /// The primary key of the row that lives was asked for.
    Pks { live: i64 },
    /// All there was of the row was removed.
    Bury,
    Over,
}

/// Deleting a row.
#[derive(Clone, Copy)]
pub struct V2Delete<'a> {
    pub row: RowRef<'a>,
    /// Whether the change knows the row by a hash.
    pub is_hash_tombstone: bool,
    pub cl: i64,
    pub stamp: Stamp,
    pub site_id: &'a [u8],
    pub merge_equal: i32,
    pub state: DeleteState,
}

impl<'a> V2Delete<'a> {
    /// The row can be found, unless the change is one that is not taken over.
    pub open spec fn findable(self) -> bool {
        self.is_hash_tombstone || self.row.findable()
    }

    /// Gives up.
    pub open spec fn give_up(code: ResultCode) -> (DeleteState, Act) {
        (DeleteState::Over, Act::Fail(code, None))
    }

    /// All is done.
    pub open spec fn done() -> (DeleteState, Act) {
        (DeleteState::Over, Act::Finish)
    }

    /// Merges the tombstone, where the change is taken over.
    pub open spec fn merge(self, key: Option<i64>, cl: i64, ordinal: i64) -> (DeleteState, Act) {
        if tombstone_taken(self.row.t.skip_hash, self.is_hash_tombstone, self.cl as int, cl as int) {
            (
                DeleteState::Tombstone { key },
                Act::Run(
                    seq![
                        tombstone_sql(
                            *self.row.t,
                            vals(self.row.pks@),
                            self.row.hashed_pk@,
                            self.cl,
                            self.stamp,
                            ordinal,
                            self.site_id@,
                            self.merge_equal,
                        ),
                    ],
                    false,
                ),
            )
        } else {
            Self::done()
        }
    }

    /// How it goes on.
    pub open spec fn next_of(self, ev: Ev) -> (DeleteState, Act) {
        match (self.state, ev) {
            (DeleteState::Start, Ev::Begin) => if self.row.t.skip_hash && self.is_hash_tombstone {
                Self::done()
            } else {
                (DeleteState::State, Act::AskState(self.row.state_sql()))
            },
            (DeleteState::State, Ev::State(found)) => if self.cl < state_of(found).1 {
                Self::done()
            } else if self.site_id@.len() > 0 {
                (
                    DeleteState::Ordinal { key: state_of(found).0, cl: state_of(found).1 },
                    Act::AskOrdinal,
                )
            } else {
                self.merge(state_of(found).0, state_of(found).1, 0)
            },
            (DeleteState::Ordinal { key, cl }, Ev::Int(Stepped::Row(n))) => self.merge(key, cl, n),
            (DeleteState::Tombstone { key }, Ev::Ran) => match key {
                Some(k) => (
                    DeleteState::Pks { live: k },
                    Act::AskPks(bound(pk_lookup_by_key_sql(*self.row.t), seq![Val::Integer(k)])),
                ),
                None => Self::done(),
            },
            (DeleteState::Pks { live: key }, Ev::Pks(found)) => (
                DeleteState::Bury,
                Act::Run(
                    bury_plan(
                        *self.row.t,
                        key,
                        match found { Some(pks) => pks, None => seq![] },
                        self.row.hashed_pk@,
                    ),
                    true,
                ),
            ),
            (DeleteState::Bury, Ev::Ran) => Self::done(),
            (_, Ev::Int(Stepped::Other(rc))) => Self::give_up(rc),
            (_, Ev::Failed(rc)) => Self::give_up(rc),
            _ => Self::give_up(ResultCode::MISUSE),
        }
    }

    fn stop(code: ResultCode) -> (r: (DeleteState, Action))
        ensures
            (r.0, r.1@) == Self::give_up(code),
    {
        (DeleteState::Over, fail(code))
    }

    fn end() -> (r: (DeleteState, Action))
        ensures
            (r.0, r.1@) == Self::done(),
    {
        (DeleteState::Over, finish())
    }

    fn go_merge(&self, key: Option<i64>, cl: i64, ordinal: i64) -> (r: (DeleteState, Action))
        requires
            self.findable(),
        ensures
            (r.0, r.1@) == self.merge(key, cl, ordinal),
    {
        match v2_merge_insert_tombstone(
            self.row.t,
            self.is_hash_tombstone,
            self.row.pks,
            self.row.hashed_pk,
            self.cl,
            cl,
            self.stamp,
            ordinal,
            self.site_id,
            self.merge_equal,
        ) {
            Some(plan) => (DeleteState::Tombstone { key }, Action::Run { plan, counts: false }),
            None => Self::end(),
        }
    }

    fn go(&self, event: Event) -> (r: (DeleteState, Action))
        requires
            self.findable(),
        ensures
            (r.0, r.1@) == self.next_of(event@),
    {
        match (self.state, event) {
            (DeleteState::Start, Event::Begin) => if self.row.t.skip_hash && self.is_hash_tombstone {
                Self::end()
            } else {
                (DeleteState::State, self.row.ask_state())
            },
            (DeleteState::State, Event::State(found)) => {
                let (key, cl) = v2_lookup_key_and_cl(found);
                if self.cl < cl {
                    Self::end()
                } else if self.site_id.len() > 0 {
                    (DeleteState::Ordinal { key, cl }, Action::AskOrdinal)
                } else {
                    self.go_merge(key, cl, 0)
                }
            },
            (DeleteState::Ordinal { key, cl }, Event::Int(Stepped::Row(n))) => self.go_merge(key, cl, n),
            (DeleteState::Tombstone { key }, Event::Ran) => match key {
                Some(k) => {
                    (
                        DeleteState::Pks { live: k },
                        Action::AskPks(
                            statement(pk_lookup_by_key_text(self.row.t), one(ColumnValue::Integer(k))),
                        ),
                    )
                },
                None => Self::end(),
            },
            (DeleteState::Pks { live: key }, Event::Pks(found)) => {
                let pks: Vec<ColumnValue> = match found {
                    Some(pks) => pks,
                    None => crate::statement::no_values(),
                };
                let plan = bury_local_row(self.row.t, key, pks.as_slice(), self.row.hashed_pk);
                (DeleteState::Bury, Action::Run { plan, counts: true })
            },
            (DeleteState::Bury, Event::Ran) => Self::end(),
            (_, Event::Int(Stepped::Other(rc))) => Self::stop(rc),
            (_, Event::Failed(rc)) => Self::stop(rc),
            _ => Self::stop(ResultCode::MISUSE),
        }
    }

    /// Goes on: `event` is what came of the last action.
    pub fn next(&mut self, event: Event) -> (r: Action)
        requires
            old(self).findable(),
        ensures
            *final(self) == (V2Delete { state: old(self).next_of(event@).0, ..*old(self) }),
            r@ == old(self).next_of(event@).1,
    {
        let (state, action) = self.go(event);
        self.state = state;
        action
    }
}

/// How far it is to the end of a deletion.
pub open spec fn delete_distance(state: DeleteState) -> nat {
    match state {
        DeleteState::Start => 6,
        DeleteState::State => 5,
        DeleteState::Ordinal { .. } => 4,
        DeleteState::Tombstone { .. } => 3,
        DeleteState::Pks { .. } => 2,
        DeleteState::Bury => 1,
        DeleteState::Over => 0,
    }
}

/// A deletion comes to its end, whatever came of each action.
pub proof fn deletion_ends(d: V2Delete<'_>, ev: Ev)
    ensures
        d.next_of(ev).0 is Over || delete_distance(d.next_of(ev).0) < delete_distance(d.state),
        d.next_of(ev).0 is Over <==> d.next_of(ev).1 is Finish || d.next_of(ev).1 is Fail,
{
}

/// A deletion counts as a change of a row exactly where it removes a row that lives.
pub proof fn removed_rows_are_counted(d: V2Delete<'_>, ev: Ev)
    ensures
        d.next_of(ev).1 matches Act::Run(_, counts) ==> (counts <==> d.next_of(ev).0 is Bury),
        d.next_of(ev).0 is Bury ==> d.state is Pks && d.next_of(ev).1 is Run,
        d.next_of(ev).0 is Pks ==> (d.state matches DeleteState::Tombstone { key } && key is Some),
{
}

/// A deletion of an older life of a row does nothing.
pub proof fn stale_deletions_do_nothing(d: V2Delete<'_>, found: Option<(Option<i64>, i64)>)
    requires
        d.state == DeleteState::State,
        d.cl < state_of(found).1,
    ensures
        d.next_of(Ev::State(found)) == (DeleteState::Over, Act::Finish),
{
}

// ---------------------------------------------------------------------------
// Writing cells
// ---------------------------------------------------------------------------
/// How far the writing of cells has come.
#[derive(Clone, Copy, PartialEq, Eq, Structural, Debug)]
pub enum CellsState {
    Start,
    /// The number of the site was asked for.
    Ordinal,
    /// The state of the row was asked for.
    State { ordinal: i64 },
    /// Room was made for the row, and it was inserted.
    NewRow { ordinal: i64 },
    /// The rowid that it got was asked for.
    Rowid { ordinal: i64 },
    /// Its live key was created.
    NewKey { ordinal: i64 },
    /// Its cells got clocks at version zero.
    Fill { ordinal: i64, key: i64 },
    /// The id of the column of cell `i` was asked for.
    ColId { ordinal: i64, key: i64, i: usize },
    /// The clock of cell `i` was merged.
    Clock { ordinal: i64, key: i64, i: usize },
    /// The value of cell `i` was written.
    Write { ordinal: i64, key: i64, i: usize },
    Over,
}

/// Writing the cells of a change.
#[derive(Clone, Copy)]
pub struct V2Cells<'a> {
    pub row: RowRef<'a>,
    pub cells: &'a [CellWrite],
    pub cl: i64,
    pub db_vrsn: i64,
    pub ts: i64,
    pub site_id: &'a [u8],
    pub merge_equal: i32,
    pub state: CellsState,
}

impl<'a> V2Cells<'a> {
    /// Gives up.
    pub open spec fn give_up(code: ResultCode) -> (CellsState, Act) {
        (CellsState::Over, Act::Fail(code, None))
    }

    /// All is done.
    pub open spec fn done() -> (CellsState, Act) {
        (CellsState::Over, Act::Finish)
    }

    /// What to do so that the row lives at the causal length of the change.
    pub open spec fn alive_step(self, found: Option<(Option<i64>, i64)>) -> AliveStep {
        let (key, cl) = state_of(found);
        alive_step_at(self.cl as int, key, cl as int)
    }

    /// Goes on with cell `i`.
    pub open spec fn cell(self, ordinal: i64, key: i64, i: int) -> (CellsState, Act) {
        if i >= self.cells@.len() {
            Self::done()
        } else {
            (
                CellsState::ColId { ordinal, key, i: i as usize },
                Act::AskInt(
                    bound(col_id_lookup_sql(*self.row.t), seq![Val::Text(self.cells@[i].col_name@)]),
                ),
            )
        }
    }

    /// Merges the clock of cell `i`, whose column has the id `id`.
    pub open spec fn clock(self, ordinal: i64, key: i64, i: usize, id: i64) -> (CellsState, Act) {
        let cell = self.cells@[i as int]@;
        if self.row.t.non_pk_col(cell.col_name) is Some {
            (
                CellsState::Clock { ordinal, key, i },
                Act::AskInt(
                    merge_clock_sql(
                        *self.row.t,
                        key,
                        id,
                        cell,
                        vals(self.row.pks@),
                        self.db_vrsn,
                        ordinal,
                        self.site_id@,
                        self.ts,
                        self.merge_equal,
                    ),
                ),
            )
        } else {
            Self::give_up(ResultCode::ERROR)
        }
    }

    /// Writes the value of cell `i`.
    pub open spec fn write(self, ordinal: i64, key: i64, i: usize) -> (CellsState, Act) {
        let cell = self.cells@[i as int]@;
        (
            CellsState::Write { ordinal, key, i },
            Act::Run(
                seq![
                    unnoticed(
                        base_update_sql(*self.row.t, cell.col_name),
                        seq![cell.val] + base_row_binds(*self.row.t, key, vals(self.row.pks@)),
                    ),
                ],
                true,
            ),
        )
    }

    /// How it goes on once the state of the row is known.
    pub open spec fn on_state(self, ordinal: i64, found: Option<(Option<i64>, i64)>) -> (CellsState, Act) {
        match self.alive_step(found) {
            AliveStep::Stale => Self::done(),
            AliveStep::There(key) => self.cell(ordinal, key, 0),
            step => (
                CellsState::NewRow { ordinal },
                Act::Run(new_row_plan(*self.row.t, step, vals(self.row.pks@), self.row.hashed_pk@), true),
            ),
        }
    }

    /// How it goes on.
    pub open spec fn next_of(self, ev: Ev) -> (CellsState, Act) {
        match (self.state, ev) {
            (CellsState::Start, Ev::Begin) => if self.site_id@.len() > 0 {
                (CellsState::Ordinal, Act::AskOrdinal)
            } else {
                (CellsState::State { ordinal: 0 }, Act::AskState(self.row.state_sql()))
            },
            (CellsState::Ordinal, Ev::Int(Stepped::Row(n))) => (
                CellsState::State { ordinal: n },
                Act::AskState(self.row.state_sql()),
            ),
            (CellsState::State { ordinal }, Ev::State(found)) => self.on_state(ordinal, found),
            (CellsState::NewRow { ordinal }, Ev::Ran) => (CellsState::Rowid { ordinal }, Act::AskRowid),
            (CellsState::Rowid { ordinal }, Ev::Int(Stepped::Row(rowid))) => (
                CellsState::NewKey { ordinal },
                Act::AskInt(self.row.new_key_sql(rowid, self.cl)),
            ),
            (CellsState::NewKey { ordinal }, Ev::Int(stepped)) => match int_or_zero(stepped) {
                Some(key) => (
                    CellsState::Fill { ordinal, key },
                    Act::Run(
                        seq![
                            bound(
                                clock_zero_fill_sql(*self.row.t),
                                seq![
                                    Val::Integer(key << 12u32),
                                    Val::Integer(ordinal),
                                    Val::Integer(self.db_vrsn),
                                ],
                            ),
                        ],
                        false,
                    ),
                ),
                None => Self::give_up(stepped->Other_0),
            },
            (CellsState::Fill { ordinal, key }, Ev::Ran) => self.cell(ordinal, key, 0),
            (CellsState::ColId { ordinal, key, i }, Ev::Int(Stepped::Row(id))) => self.clock(
                ordinal,
                key,
                i,
                id,
            ),
            (CellsState::ColId { ordinal, key, i }, Ev::Int(Stepped::Done)) => self.cell(ordinal, key, i + 1),
            (CellsState::Clock { ordinal, key, i }, Ev::Int(Stepped::Row(_))) => self.write(ordinal, key, i),
            (CellsState::Clock { ordinal, key, i }, Ev::Int(Stepped::Done)) => self.cell(ordinal, key, i + 1),
            (CellsState::Write { ordinal, key, i }, Ev::Ran) => self.cell(ordinal, key, i + 1),
            (_, Ev::Int(Stepped::Other(rc))) => Self::give_up(rc),
            (_, Ev::Failed(rc)) => Self::give_up(rc),
            _ => Self::give_up(ResultCode::MISUSE),
        }
    }

    /// The cell that the state is at is one of the change.
    pub open spec fn in_range(self) -> bool {
        match self.state {
            CellsState::ColId { i, .. } => i < self.cells@.len(),
            CellsState::Clock { i, .. } => i < self.cells@.len(),
            CellsState::Write { i, .. } => i < self.cells@.len(),
            _ => true,
        }
    }

    fn stop(code: ResultCode) -> (r: (CellsState, Action))
        ensures
            (r.0, r.1@) == Self::give_up(code),
    {
        (CellsState::Over, fail(code))
    }

    fn end() -> (r: (CellsState, Action))
        ensures
            (r.0, r.1@) == Self::done(),
    {
        (CellsState::Over, finish())
    }

    fn go_cell(&self, ordinal: i64, key: i64, i: usize) -> (r: (CellsState, Action))
        ensures
            (r.0, r.1@) == self.cell(ordinal, key, i as int),
    {
        if i >= self.cells.len() {
            Self::end()
        } else {
            (
                CellsState::ColId { ordinal, key, i },
                Action::AskInt(
                    statement(
                        col_id_lookup_text(self.row.t),
                        one(ColumnValue::Text(self.cells[i].col_name.clone())),
                    ),
                ),
            )
        }
    }

    fn go_clock(&self, ordinal: i64, key: i64, i: usize, id: i64) -> (r: (CellsState, Action))
        requires
            i < self.cells@.len(),
        ensures
            (r.0, r.1@) == self.clock(ordinal, key, i, id),
    {
        match v2_apply_value_change_colval(
            self.row.t,
            key,
            Some(id),
            &self.cells[i],
            self.row.pks,
            self.db_vrsn,
            ordinal,
            self.site_id,
            self.ts,
            self.merge_equal,
        ) {
            Ok(Some(plan)) => {
                let mut plan = plan;
                assert(sqls(plan@).len() == plan@.len());
                assert(sqls(plan@)[0] == plan@[0]@);
                let st = plan.remove(0);
                (CellsState::Clock { ordinal, key, i }, Action::AskInt(st))
            },
            Ok(None) => Self::end(),
            Err(code) => Self::stop(code),
        }
    }

    fn go_state(&self, ordinal: i64, found: Option<(Option<i64>, i64)>) -> (r: (CellsState, Action))
        requires
            self.row.findable(),
        ensures
            (r.0, r.1@) == self.on_state(ordinal, found),
    {
        let (key, cl) = v2_lookup_key_and_cl(found);
        let step = v2_ensure_alive_row_at_cl(self.cl, key, cl);
        match step {
            AliveStep::Stale => Self::end(),
            AliveStep::There(key) => self.go_cell(ordinal, key, 0),
            _ => {
                let plan = new_row_statements(self.row.t, step, self.row.pks, self.row.hashed_pk);
                (CellsState::NewRow { ordinal }, Action::Run { plan, counts: true })
            },
        }
    }

    fn go_fill(&self, ordinal: i64, key: i64) -> (r: (CellsState, Action))
        ensures
            (r.0, r.1@) == self.next_of_new_key(ordinal, key),
    {
        let plan = zero_fill(self.row.t, key, ordinal, self.db_vrsn);
        (CellsState::Fill { ordinal, key }, Action::Run { plan, counts: false })
    }

    spec fn next_of_new_key(self, ordinal: i64, key: i64) -> (CellsState, Act) {
        (
            CellsState::Fill { ordinal, key },
            Act::Run(
                seq![
                    bound(
                        clock_zero_fill_sql(*self.row.t),
                        seq![Val::Integer(key << 12u32), Val::Integer(ordinal), Val::Integer(self.db_vrsn)],
                    ),
                ],
                false,
            ),
        )
    }

    fn go(&self, event: Event) -> (r: (CellsState, Action))
        requires
            self.row.findable(),
            self.in_range(),
        ensures
            (r.0, r.1@) == self.next_of(event@),
    {
        let _count: usize = self.cells.len();
        match (self.state, event) {
            (CellsState::Start, Event::Begin) => if self.site_id.len() > 0 {
                (CellsState::Ordinal, Action::AskOrdinal)
            } else {
                (CellsState::State { ordinal: 0 }, self.row.ask_state())
            },
            (CellsState::Ordinal, Event::Int(Stepped::Row(n))) => {
                (CellsState::State { ordinal: n }, self.row.ask_state())
            },
            (CellsState::State { ordinal }, Event::State(found)) => self.go_state(ordinal, found),
            (CellsState::NewRow { ordinal }, Event::Ran) => (CellsState::Rowid { ordinal }, Action::AskRowid),
            (CellsState::Rowid { ordinal }, Event::Int(Stepped::Row(rowid))) => {
                (CellsState::NewKey { ordinal }, self.row.ask_new_key(rowid, self.cl))
            },
            (CellsState::NewKey { ordinal }, Event::Int(Stepped::Row(key))) => self.go_fill(ordinal, key),
            (CellsState::NewKey { ordinal }, Event::Int(Stepped::Done)) => self.go_fill(ordinal, 0),
            (CellsState::Fill { ordinal, key }, Event::Ran) => self.go_cell(ordinal, key, 0),
            (CellsState::ColId { ordinal, key, i }, Event::Int(Stepped::Row(id))) => self.go_clock(
                ordinal,
                key,
                i,
                id,
            ),
            (CellsState::ColId { ordinal, key, i }, Event::Int(Stepped::Done)) => self.go_cell(
                ordinal,
                key,
                i + 1,
            ),
            (CellsState::Clock { ordinal, key, i }, Event::Int(Stepped::Row(_))) => {
                let plan = v2_write_cell(self.row.t, key, &self.cells[i], self.row.pks);
                (CellsState::Write { ordinal, key, i }, Action::Run { plan, counts: true })
            },
            (CellsState::Clock { ordinal, key, i }, Event::Int(Stepped::Done)) => self.go_cell(
                ordinal,
                key,
                i + 1,
            ),
            (CellsState::Write { ordinal, key, i }, Event::Ran) => self.go_cell(ordinal, key, i + 1),
            (_, Event::Int(Stepped::Other(rc))) => Self::stop(rc),
            (_, Event::Failed(rc)) => Self::stop(rc),
            _ => Self::stop(ResultCode::MISUSE),
        }
    }

    /// Goes on: `event` is what came of the last action.
    pub fn next(&mut self, event: Event) -> (r: Action)
        requires
            old(self).row.findable(),
            old(self).in_range(),
        ensures
            *final(self) == (V2Cells { state: old(self).next_of(event@).0, ..*old(self) }),
            final(self).in_range(),
            r@ == old(self).next_of(event@).1,
    {
        let (state, action) = self.go(event);
        self.state = state;
        action
    }
}

/// How far it is to the end of writing `n` cells.
pub open spec fn cells_distance(state: CellsState, n: int) -> int {
    match state {
        CellsState::Start => 3 * n + 7,
        CellsState::Ordinal => 3 * n + 6,
        CellsState::State { .. } => 3 * n + 5,
        CellsState::NewRow { .. } => 3 * n + 4,
        CellsState::Rowid { .. } => 3 * n + 3,
        CellsState::NewKey { .. } => 3 * n + 2,
        CellsState::Fill { .. } => 3 * n + 1,
        CellsState::ColId { i, .. } => 3 * (n - i),
        CellsState::Clock { i, .. } => 3 * (n - i) - 1,
        CellsState::Write { i, .. } => 3 * (n - i) - 2,
        CellsState::Over => 0,
    }
}

/// Writing cells comes to its end, whatever came of each action, and each cell has its turn at
/// most once.
pub proof fn cells_end(c: V2Cells<'_>, ev: Ev)
    requires
        c.in_range(),
        c.cells@.len() <= usize::MAX,
    ensures
        c.next_of(ev).0 is Over || 0 < cells_distance(c.next_of(ev).0, c.cells@.len() as int) < cells_distance(
            c.state,
            c.cells@.len() as int,
        ),
        c.next_of(ev).0 is Over <==> c.next_of(ev).1 is Finish || c.next_of(ev).1 is Fail,
{
}

/// A change counts exactly where it creates its row, or creates it again, and where it writes a
/// cell; making clocks counts for nothing.
pub proof fn written_rows_are_counted(c: V2Cells<'_>, ev: Ev)
    ensures
        c.next_of(ev).1 matches Act::Run(_, counts) ==> (counts <==> c.next_of(ev).0 is NewRow
            || c.next_of(ev).0 is Write),
        c.next_of(ev).0 is NewRow || c.next_of(ev).0 is Write ==> c.next_of(ev).1 is Run,
{
}

/// A change from an older life of its row writes nothing.
pub proof fn stale_cells_do_nothing(c: V2Cells<'_>, ordinal: i64, found: Option<(Option<i64>, i64)>)
    requires
        c.cl < state_of(found).1,
    ensures
        c.on_state(ordinal, found) == (CellsState::Over, Act::Finish),
{
}

/// The value of a cell is written only where the merge of its clock gave a row, that is, where
/// the change has won.
pub proof fn only_winners_are_written(c: V2Cells<'_>, ev: Ev)
    requires
        c.next_of(ev).0 is Write,
    ensures
        c.state is Clock,
        ev matches Ev::Int(Stepped::Row(_)),
{
}

// ---------------------------------------------------------------------------
// Metadata for the first format
// ---------------------------------------------------------------------------
/// How far it has come to copy the metadata of a row to the first format.
#[derive(Clone, Copy, PartialEq, Eq, Structural, Debug)]
pub enum MirrorState {
    Start,
    /// The state of the row was asked for.
    State,
    /// Its primary key was asked for, among the tombstones.
    TombPks { key: Option<i64>, cl: i64 },
    /// Its primary key was asked for, among the live keys.
    LivePks { key: Option<i64>, cl: i64 },
    /// Its key in the first format was asked for.
    Key { key: Option<i64>, cl: i64 },
    /// Its key in the first format was created.
    NewKey { key: Option<i64>, cl: i64 },
    /// Its metadata were copied.
    Copy,
    Over,
}

/// Copying the metadata of a row to the first format.
pub struct Mirror<'a> {
    pub row: RowRef<'a>,
    /// Whether the change held the primary key of the row.
    pub pks_known: bool,
    /// The primary key of the row, where the change did not hold it.
    pub found_pks: Vec<ColumnValue>,
    /// The time of the transaction.
    pub ts: i64,
    pub state: MirrorState,
}

impl<'a> Mirror<'a> {
    /// The primary key of the row, as far as it is known.
    pub open spec fn known(self) -> Seq<Val> {
        if self.pks_known {
            vals(self.row.pks@)
        } else {
            vals(self.found_pks@)
        }
    }

    /// The row can be found; its primary key is asked for only where the change did not hold it,
    /// and is known where it is used.
    pub open spec fn ok(self) -> bool {
        &&& self.row.findable()
        &&& self.state is TombPks || self.state is LivePks ==> !self.pks_known
        &&& self.state is Key || self.state is NewKey ==> self.known().len() > 0
    }

    /// Gives up.
    pub open spec fn give_up(code: ResultCode) -> (MirrorState, Act) {
        (MirrorState::Over, Act::Fail(code, None))
    }

    /// All is done.
    pub open spec fn done() -> (MirrorState, Act) {
        (MirrorState::Over, Act::Finish)
    }

    /// Asks for the key of the row in the first format, by its primary key.
    pub open spec fn ask_key(self, key: Option<i64>, cl: i64, pks: Seq<Val>) -> (MirrorState, Act) {
        if pks.len() == 0 {
            Self::done()
        } else {
            (MirrorState::Key { key, cl }, Act::AskInt(bound(self.row.t.select_key_sql(), pks)))
        }
    }

    /// Copies the metadata of the row.
    pub open spec fn copy(self, v1_key: i64, key: Option<i64>, cl: i64) -> (MirrorState, Act) {
        if self.row.t.schema_version != SchemaVersion::V2AndV1 {
            Self::give_up(ResultCode::ERROR)
        } else {
            (
                MirrorState::Copy,
                Act::Run(
                    mirror_plan(*self.row.t, v1_key, self.known(), self.row.hashed_pk@, key, cl, self.ts),
                    false,
                ),
            )
        }
    }

    /// How it goes on. A row that is not known, or whose primary key is not, is not copied.
    pub open spec fn next_of(self, ev: Ev) -> (MirrorState, Act) {
        match (self.state, ev) {
            (MirrorState::Start, Ev::Begin) => (MirrorState::State, Act::AskState(self.row.state_sql())),
            (MirrorState::State, Ev::State(found)) => {
                let (key, cl) = state_of(found);
                if cl == 0 {
                    Self::done()
                } else if self.pks_known {
                    self.ask_key(key, cl, vals(self.row.pks@))
                } else {
                    (
                        MirrorState::TombPks { key, cl },
                        Act::AskPks(bound(lookup_pks_tomb_sql(*self.row.t), seq![Val::Blob(self.row.hashed_pk@)])),
                    )
                }
            },
            (MirrorState::TombPks { key, cl }, Ev::Pks(Some(pks))) => self.ask_key(key, cl, pks),
            (MirrorState::TombPks { key, cl }, Ev::Pks(None)) => (
                MirrorState::LivePks { key, cl },
                Act::AskPks(bound(lookup_pks_alive_sql(*self.row.t), seq![Val::Blob(self.row.hashed_pk@)])),
            ),
            (MirrorState::LivePks { key, cl }, Ev::Pks(Some(pks))) => self.ask_key(key, cl, pks),
            (MirrorState::LivePks { .. }, Ev::Pks(None)) => Self::done(),
            (MirrorState::Key { key, cl }, Ev::Int(Stepped::Row(v1_key))) => self.copy(v1_key, key, cl),
            (MirrorState::Key { key, cl }, Ev::Int(Stepped::Done)) => (
                MirrorState::NewKey { key, cl },
                Act::AskInt(bound(self.row.t.insert_key_sql(), self.known())),
            ),
            (MirrorState::NewKey { key, cl }, Ev::Int(Stepped::Row(v1_key))) => self.copy(v1_key, key, cl),
            (MirrorState::NewKey { .. }, Ev::Int(Stepped::Done)) => Self::give_up(ResultCode::DONE),
            (MirrorState::Copy, Ev::Ran) => Self::done(),
            (_, Ev::Int(Stepped::Other(rc))) => Self::give_up(rc),
            (_, Ev::Failed(rc)) => Self::give_up(rc),
            _ => Self::give_up(ResultCode::MISUSE),
        }
    }

    /// How far it is to the end.
    pub open spec fn distance(state: MirrorState) -> nat {
        match state {
            MirrorState::Start => 7,
            MirrorState::State => 6,
            MirrorState::TombPks { .. } => 5,
            MirrorState::LivePks { .. } => 4,
            MirrorState::Key { .. } => 3,
            MirrorState::NewKey { .. } => 2,
            MirrorState::Copy => 1,
            MirrorState::Over => 0,
        }
    }

    /// The start of copying the metadata of a row.
    pub fn new(row: RowRef<'a>, pks_known: bool, ts: i64) -> (r: Mirror<'a>)
        requires
            row.findable(),
        ensures
            r.row == row,
            r.pks_known == pks_known,
            vals(r.found_pks@) == Seq::<Val>::empty(),
            r.ts == ts,
            r.state == MirrorState::Start,
            r.ok(),
    {
        Mirror { row, pks_known, found_pks: crate::statement::no_values(), ts, state: MirrorState::Start }
    }

    fn stop(code: ResultCode) -> (r: (MirrorState, Action))
        ensures
            (r.0, r.1@) == Self::give_up(code),
    {
        (MirrorState::Over, fail(code))
    }

    fn end() -> (r: (MirrorState, Action))
        ensures
            (r.0, r.1@) == Self::done(),
    {
        (MirrorState::Over, finish())
    }

    fn keys(&self) -> (r: &[ColumnValue])
        ensures
            vals(r@) == self.known(),
    {
        if self.pks_known {
            self.row.pks
        } else {
            self.found_pks.as_slice()
        }
    }

    fn go_ask_key(&self, key: Option<i64>, cl: i64, pks: &[ColumnValue]) -> (r: (MirrorState, Action))
        ensures
            (r.0, r.1@) == self.ask_key(key, cl, vals(pks@)),
    {
        assert(vals(pks@).len() == pks@.len());
        if pks.len() == 0 {
            Self::end()
        } else {
            (
                MirrorState::Key { key, cl },
                Action::AskInt(statement(self.row.t.get_select_key_stmt(), copy_of(pks))),
            )
        }
    }

    fn go_copy(&self, v1_key: i64, key: Option<i64>, cl: i64) -> (r: (MirrorState, Action))
        requires
            self.known().len() > 0,
        ensures
            (r.0, r.1@) == self.copy(v1_key, key, cl),
    {
        let both: bool = matches!(self.row.t.schema_version, SchemaVersion::V2AndV1);
        if !both {
            return Self::stop(ResultCode::ERROR);
        }
        let pks = self.keys();
        assert(vals(pks@).len() == pks@.len());
        let plan = v2_to_v1_mirror_metadata(self.row.t, v1_key, pks, self.row.hashed_pk, key, cl, self.ts);
        (MirrorState::Copy, Action::Run { plan, counts: false })
    }

    fn go(&self, event: &Event) -> (r: (MirrorState, Action))
        requires
            self.ok(),
        ensures
            (r.0, r.1@) == self.next_of(event@),
    {
        match (self.state, event) {
            (MirrorState::Start, Event::Begin) => (MirrorState::State, self.row.ask_state()),
            (MirrorState::State, Event::State(found)) => {
                let (key, cl) = v2_lookup_key_and_cl(*found);
                if cl == 0 {
                    Self::end()
                } else if self.pks_known {
                    self.go_ask_key(key, cl, self.row.pks)
                } else {
                    (
                        MirrorState::TombPks { key, cl },
                        Action::AskPks(
                            statement(
                                lookup_pks_tomb_text(self.row.t),
                                one(crate::statement::blob(self.row.hashed_pk)),
                            ),
                        ),
                    )
                }
            },
            (MirrorState::TombPks { key, cl }, Event::Pks(Some(pks))) => self.go_ask_key(key, cl, pks.as_slice()),
            (MirrorState::TombPks { key, cl }, Event::Pks(None)) => {
                (
                    MirrorState::LivePks { key, cl },
                    Action::AskPks(
                        statement(
                            lookup_pks_alive_text(self.row.t),
                            one(crate::statement::blob(self.row.hashed_pk)),
                        ),
                    ),
                )
            },
            (MirrorState::LivePks { key, cl }, Event::Pks(Some(pks))) => self.go_ask_key(key, cl, pks.as_slice()),
            (MirrorState::LivePks { key: _, cl: _ }, Event::Pks(None)) => Self::end(),
            (MirrorState::Key { key, cl }, Event::Int(Stepped::Row(v1_key))) => self.go_copy(*v1_key, key, cl),
            (MirrorState::Key { key, cl }, Event::Int(Stepped::Done)) => {
                (
                    MirrorState::NewKey { key, cl },
                    Action::AskInt(statement(self.row.t.get_insert_key_stmt(), copy_of(self.keys()))),
                )
            },
            (MirrorState::NewKey { key, cl }, Event::Int(Stepped::Row(v1_key))) => self.go_copy(*v1_key, key, cl),
            (MirrorState::NewKey { key: _, cl: _ }, Event::Int(Stepped::Done)) => Self::stop(ResultCode::DONE),
            (MirrorState::Copy, Event::Ran) => Self::end(),
            (_, Event::Int(Stepped::Other(rc))) => Self::stop(*rc),
            (_, Event::Failed(rc)) => Self::stop(*rc),
            _ => Self::stop(ResultCode::MISUSE),
        }
    }

    /// Goes on: `event` is what came of the last action. A primary key that was found is kept.
    pub fn next(&mut self, event: Event) -> (r: Action)
        requires
            old(self).ok(),
        ensures
            final(self).state == old(self).next_of(event@).0,
            r@ == old(self).next_of(event@).1,
            final(self).row == old(self).row,
            final(self).pks_known == old(self).pks_known,
            final(self).ts == old(self).ts,
            match event@ {
                Ev::Pks(Some(pks)) => vals(final(self).found_pks@) == pks,
                _ => final(self).found_pks == old(self).found_pks,
            },
            final(self).ok(),
    {
        let (state, action) = self.go(&event);
        self.state = state;
        match event {
            Event::Pks(Some(pks)) => {
                self.found_pks = pks;
            },
            _ => {},
        }
        action
    }
}

/// A primary key that the change held is the one that is used, an empty one too: the row is then
/// not copied, and no other primary key is looked for.
pub proof fn known_keys_are_not_looked_up(m: Mirror<'_>, ev: Ev)
    requires
        m.ok(),
        m.pks_known,
    ensures
        !(m.next_of(ev).1 is AskPks),
        m.row.pks@.len() == 0 && m.state is State && ev is State ==> m.next_of(ev) == Mirror::done(),
{
}

/// Copying the metadata of a row comes to its end, whatever came of each action.
pub proof fn mirror_ends(m: Mirror<'_>, ev: Ev)
    ensures
        m.next_of(ev).0 is Over || Mirror::distance(m.next_of(ev).0) < Mirror::distance(m.state),
        m.next_of(ev).0 is Over <==> m.next_of(ev).1 is Finish || m.next_of(ev).1 is Fail,
{
}

/// A failure ends a deletion with its code.
pub proof fn failed_deletions_stop(d: V2Delete<'_>, rc: ResultCode)
    ensures
        d.next_of(Ev::Failed(rc)).1 == Act::Fail(rc, None),
        d.next_of(Ev::Int(Stepped::Other(rc))).1 == Act::Fail(rc, None),
{
}

/// A failure ends the writing of cells with its code.
pub proof fn failed_cells_stop(c: V2Cells<'_>, rc: ResultCode)
    ensures
        c.next_of(Ev::Failed(rc)).1 == Act::Fail(rc, None),
        c.next_of(Ev::Int(Stepped::Other(rc))).1 == Act::Fail(rc, None),
{
}

/// Every cell of a change has its turn: whether the cell before it was written or had lost, the
/// next one follows with its own column, and only after the last one is all done.
pub proof fn every_cell_has_its_turn(c: V2Cells<'_>, ordinal: i64, key: i64, i: usize)
    requires
        i < c.cells@.len(),
    ensures
        ({
            let lost = V2Cells { state: CellsState::Clock { ordinal, key, i }, ..c }.next_of(Ev::Int(Stepped::Done));
            let written = V2Cells { state: CellsState::Write { ordinal, key, i }, ..c }.next_of(Ev::Ran);
            &&& lost == written
            &&& i + 1 < c.cells@.len() ==> {
                &&& lost.0 == (CellsState::ColId { ordinal, key, i: (i + 1) as usize })
                &&& lost.1 == Act::AskInt(
                    bound(col_id_lookup_sql(*c.row.t), seq![Val::Text(c.cells@[i + 1]@.col_name)]),
                )
            }
            &&& i + 1 == c.cells@.len() ==> lost.1 is Finish
        }),
{
    assert(c.cells.len() == c.cells@.len());
}

/// A live key whose statement gives no row is 0, and a column that has an id but is not there is an
/// error.
pub proof fn missing_rows_and_columns(c: V2Cells<'_>, h: Hydrate<'_>, ordinal: i64, key: i64, i: usize, id: i64)
    ensures
        c.state is NewKey ==> c.next_of(Ev::Int(Stepped::Done)) == c.next_of(Ev::Int(Stepped::Row(0))),
        h.state is NewKey ==> h.next_of(Ev::Int(Stepped::Done)) == h.next_of(Ev::Int(Stepped::Row(0))),
        c.state == (CellsState::ColId { ordinal, key, i }) && i < c.cells@.len() && c.row.t.non_pk_col(
            c.cells@[i as int].col_name@,
        ) is None ==> c.next_of(Ev::Int(Stepped::Row(id))).1 == Act::Fail(ResultCode::ERROR, None),
{
}

/// An event that does not fit what was asked for is a misuse, and so is any event once the work is
/// over.
pub proof fn unexpected_events_are_misuse(
    h: Hydrate<'_>,
    d: V2Delete<'_>,
    c: V2Cells<'_>,
    m: Mirror<'_>,
    texts: Seq<Seq<char>>,
    ev: Ev,
)
    ensures
        h.next_of(Ev::Texts(texts)).1 == Act::Fail(ResultCode::MISUSE, None),
        d.next_of(Ev::Texts(texts)).1 == Act::Fail(ResultCode::MISUSE, None),
        c.next_of(Ev::Texts(texts)).1 == Act::Fail(ResultCode::MISUSE, None),
        m.next_of(Ev::Texts(texts)).1 == Act::Fail(ResultCode::MISUSE, None),
        !(ev is Failed) && !(ev is Int) ==> {
            &&& h.state is Over ==> h.next_of(ev).1 == Act::Fail(ResultCode::MISUSE, None)
            &&& d.state is Over ==> d.next_of(ev).1 == Act::Fail(ResultCode::MISUSE, None)
            &&& c.state is Over ==> c.next_of(ev).1 == Act::Fail(ResultCode::MISUSE, None)
            &&& m.state is Over ==> m.next_of(ev).1 == Act::Fail(ResultCode::MISUSE, None)
        },
{
}

} // verus!
