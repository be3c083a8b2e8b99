//! Merging a change by metadata in the first format, from the first question to the last
//! statement.

use crate::changes_vtab_write::{
    change_stamp, did_cid_win, did_site_id_win, did_value_win, first_plan, last_plan, stamp_of, v1_first_statements,
    v1_last_statements, v1_merge_insert, v1_step, Change, CidStep, MergeError, SiteRead, V1Step, ValueStep,
};
use crate::consts::INSERT_SENTINEL;
use crate::merge_order::bytes_gt;
use crate::pack_columns::{vals, ColumnValue, Val};
use crate::result_code::{ResultCode, Stepped};
use crate::statement::{bound, no_values, push_values, two};
use crate::steps::{fail, finish, statement, Act, Action, Ev, Event};
use crate::tableinfo::TableInfo;
use vstd::prelude::*;
use vstd::string::*;

verus! {

/// How far the merge of a change has come.
#[derive(Clone, Copy, PartialEq, Eq, Structural, Debug)]
pub enum V1State {
    Start,
    /// The key of the row was asked for.
    Key,
    /// The key of the row was created.
    NewKey,
    /// The causal length of the row was asked for.
    Cl { key: i64 },
    /// The version of the cell was asked for.
    Version { key: i64, cl: i64 },
    /// The value of the cell was compared.
    Value { key: i64, cl: i64 },
    /// The site of the cell was asked for.
    Site { key: i64, cl: i64 },
    /// The change has won, or does not have to: the number of its site was asked for.
    Ordinal { key: i64, cl: i64 },
    /// The row was deleted, or created.
    First { key: i64, cl: i64, ordinal: Option<i64> },
    /// The cell was written.
    Last { cl: i64 },
    /// All is done; the causal length of the row before the merge is this, where it was found.
    Over { found: Option<i64> },
}

/// What a merge is about.
pub struct V1Merge<'a> {
    pub t: &'a TableInfo,
    pub c: &'a Change,
    /// The primary key of the row.
    pub pks: &'a [ColumnValue],
    pub merge_equal: i32,
    pub state: V1State,
}

/// The state and the action that follow.
pub type V1Next = (V1State, Act);

impl<'a> V1Merge<'a> {
    /// What to do with the change, once the causal length of the row is known.
    pub open spec fn step(self, cl: i64) -> V1Step {
        v1_step(self.c.cl as int, cl as int, self.c.cid@ == INSERT_SENTINEL@, self.merge_equal == 1)
    }

    /// How it goes on once the causal length of the row is known.
    pub open spec fn after_cl(self, key: i64, cl: i64) -> V1Next {
        match self.step(cl) {
            V1Step::Ignore => (V1State::Over { found: Some(cl) }, Act::Finish),
            V1Step::TieBreakDelete => self.ask_site(key, cl),
            V1Step::Cell { check, .. } => if check {
                (
                    V1State::Version { key, cl },
                    Act::AskInt(
                        bound(self.t.col_version_sql(), seq![Val::Integer(key), Val::Text(self.c.cid@)]),
                    ),
                )
            } else {
                self.take_over(key, cl)
            },
            _ => self.take_over(key, cl),
        }
    }

    /// Takes the change over, once the number of its site is known.
    pub open spec fn take_over(self, key: i64, cl: i64) -> V1Next {
        if self.c.site_id@.len() > 0 {
            (V1State::Ordinal { key, cl }, Act::AskOrdinal)
        } else {
            self.after_ordinal(key, cl, None)
        }
    }

    /// How it goes on once the number of the site is known.
    pub open spec fn after_ordinal(self, key: i64, cl: i64, ordinal: Option<i64>) -> V1Next {
        let plan = first_plan(*self.t, self.step(cl), key, vals(self.pks@), self.c.cl, stamp_of(*self.c, ordinal));
        if plan.len() > 0 {
            (V1State::First { key, cl, ordinal }, Act::Run(plan, true))
        } else {
            self.after_first(key, cl, ordinal)
        }
    }

    /// How it goes on once the row was deleted, or created, where it had to be.
    pub open spec fn after_first(self, key: i64, cl: i64, ordinal: Option<i64>) -> V1Next {
        match self.step(cl) {
            V1Step::Cell { .. } => self.write(key, cl, ordinal),
            V1Step::TieBreakDelete => self.write(key, cl, ordinal),
            _ => (V1State::Over { found: Some(cl) }, Act::Finish),
        }
    }

    /// Asks for the site that last wrote the cell.
    pub open spec fn ask_site(self, key: i64, cl: i64) -> V1Next {
        (
            V1State::Site { key, cl },
            Act::AskSite(bound(self.t.col_site_id_sql(), seq![Val::Integer(key), Val::Text(self.c.cid@)])),
        )
    }

    /// Writes what has won.
    pub open spec fn write(self, key: i64, cl: i64, ordinal: Option<i64>) -> V1Next {
        match last_plan(*self.t, self.step(cl), key, vals(self.pks@), *self.c, stamp_of(*self.c, ordinal)) {
            Some(plan) => (V1State::Last { cl }, Act::Run(plan, self.step(cl) != V1Step::TieBreakDelete)),
            None => (V1State::Over { found: Some(cl) }, Act::Fail(ResultCode::ERROR, None)),
        }
    }

    /// Takes the change over where it has won, and is done where it has not.
    pub open spec fn settle(self, won: bool, key: i64, cl: i64) -> V1Next {
        if won {
            self.take_over(key, cl)
        } else {
            (V1State::Over { found: Some(cl) }, Act::Finish)
        }
    }

    /// The causal length of the row, as far as it is known.
    pub open spec fn known_cl(self) -> Option<i64> {
        match self.state {
            V1State::Ordinal { cl, .. } => Some(cl),
            V1State::First { cl, .. } => Some(cl),
            V1State::Version { cl, .. } => Some(cl),
            V1State::Value { cl, .. } => Some(cl),
            V1State::Site { cl, .. } => Some(cl),
            V1State::Last { cl } => Some(cl),
            V1State::Over { found } => found,
            _ => None,
        }
    }

    /// Gives up. A causal length that was found is found all the same.
    pub open spec fn give_up(self, code: ResultCode, message: Option<Seq<char>>) -> V1Next {
        (V1State::Over { found: self.known_cl() }, Act::Fail(code, message))
    }

    /// How it goes on after the key of the row was asked for.
    pub open spec fn on_key(self, ev: Ev) -> V1Next {
        match ev {
            Ev::Int(Stepped::Row(key)) => self.ask_cl(key),
            Ev::Int(Stepped::Done) => (
                V1State::NewKey,
                Act::AskInt(bound(self.t.insert_key_sql(), vals(self.pks@))),
            ),
            Ev::Int(Stepped::Other(rc)) => self.give_up(rc, None),
            Ev::Failed(rc) => self.give_up(rc, None),
            _ => self.give_up(ResultCode::MISUSE, None),
        }
    }

    /// Asks for the causal length of the row, unless it is known.
    pub open spec fn ask_cl(self, key: i64) -> V1Next {
        if self.t.cl_cache@.contains_key(key) {
            self.after_cl(key, self.t.cl_cache@[key])
        } else {
            (
                V1State::Cl { key },
                Act::AskInt(bound(self.t.local_cl_sql(), seq![Val::Integer(key), Val::Integer(key)])),
            )
        }
    }

    /// How it goes on after the version of the cell was asked for.
    pub open spec fn on_version(self, stepped: Stepped, key: i64, cl: i64) -> V1Next {
        match stepped {
            Stepped::Row(local) => if self.c.col_vrsn == local {
                match self.t.non_pk_col(self.c.cid@) {
                    Some(i) => (
                        V1State::Value { key, cl },
                        Act::AskOrder(bound(self.t.non_pks@[i].curr_value_sql(*self.t), vals(self.pks@))),
                    ),
                    None => self.give_up(ResultCode::ERROR, None),
                }
            } else {
                self.settle(self.c.col_vrsn > local, key, cl)
            },
            Stepped::Done => self.settle(true, key, cl),
            Stepped::Other(rc) => self.give_up(
                rc,
                Some("Bad return code when selecting local column version"@),
            ),
        }
    }

    /// How it goes on after the values were compared.
    pub open spec fn on_value(self, order: Option<i32>, key: i64, cl: i64) -> V1Next {
        match order {
            Some(o) => if o == 0 && self.merge_equal == 1 {
                self.ask_site(key, cl)
            } else {
                self.settle(o > 0, key, cl)
            },
            None => self.give_up(
                ResultCode::ERROR,
                Some("could not find row to merge with for tbl "@ + self.c.tbl@),
            ),
        }
    }

    /// How it goes on after the site of the cell was asked for.
    pub open spec fn on_site(self, site: Option<Seq<u8>>, key: i64, cl: i64) -> V1Next {
        match site {
            Some(local) => self.settle(bytes_gt(self.c.site_id@, local), key, cl),
            None => self.give_up(
                ResultCode::ERROR,
                Some(
                    "could not find site_id for previous change, cr-sqlite clock table might be corrupt for tbl "@
                        + self.c.tbl@,
                ),
            ),
        }
    }

    /// How it goes on. What does not fit the last action is a misuse.
    pub open spec fn next_of(self, ev: Ev) -> V1Next {
        match (self.state, ev) {
            (V1State::Start, Ev::Begin) => (
                V1State::Key,
                Act::AskInt(bound(self.t.select_key_sql(), vals(self.pks@))),
            ),
            (V1State::Key, _) => self.on_key(ev),
            (V1State::NewKey, Ev::Int(Stepped::Row(key))) => self.ask_cl(key),
            (V1State::NewKey, Ev::Int(Stepped::Done)) => self.give_up(ResultCode::DONE, None),
            (V1State::NewKey, Ev::Int(Stepped::Other(rc))) => self.give_up(rc, None),
            (V1State::Cl { key }, Ev::Int(Stepped::Row(cl))) => self.after_cl(key, cl),
            (V1State::Cl { key }, Ev::Int(Stepped::Done)) => self.after_cl(key, 0),
            (V1State::Cl { .. }, Ev::Int(Stepped::Other(rc))) => self.give_up(rc, None),
            (V1State::Ordinal { key, cl }, Ev::Int(Stepped::Row(n))) => self.after_ordinal(key, cl, Some(n)),
            (V1State::First { key, cl, ordinal }, Ev::Ran) => self.after_first(key, cl, ordinal),
            (V1State::Version { key, cl }, Ev::Int(stepped)) => self.on_version(stepped, key, cl),
            (V1State::Value { key, cl }, Ev::Order(order)) => self.on_value(order, key, cl),
            (V1State::Site { key, cl }, Ev::Site(site)) => self.on_site(site, key, cl),
            (V1State::Site { .. }, Ev::Failed(rc)) => self.give_up(
                rc,
                Some("Bad return code when selecting local column site_id"@),
            ),
            (V1State::Last { cl }, Ev::Ran) => (V1State::Over { found: Some(cl) }, Act::Finish),
            (_, Ev::Failed(rc)) => self.give_up(rc, None),
            _ => self.give_up(ResultCode::MISUSE, None),
        }
    }

    /// The start of the merge of a change.
    pub fn new(t: &'a TableInfo, c: &'a Change, pks: &'a [ColumnValue], merge_equal: i32) -> (r: V1Merge<'a>)
        ensures
            r == (V1Merge { t, c, pks, merge_equal, state: V1State::Start }),
    {
        V1Merge { t, c, pks, merge_equal, state: V1State::Start }
    }

    fn keys(&self) -> (r: Vec<ColumnValue>)
        ensures
            vals(r@) == vals(self.pks@),
    {
        let mut r = no_values();
        push_values(&mut r, self.pks);
        assert(vals(r@) =~= vals(self.pks@));
        r
    }

    fn cell_id(&self, key: i64) -> (r: Vec<ColumnValue>)
        ensures
            vals(r@) == seq![Val::Integer(key), Val::Text(self.c.cid@)],
    {
        two(ColumnValue::Integer(key), ColumnValue::Text(self.c.cid.clone()))
    }

    fn decide(&self, cl: i64) -> (r: V1Step)
        ensures
            r == self.step(cl),
    {
        v1_merge_insert(self.c.cl, cl, self.c.cid.as_str(), self.merge_equal)
    }

    fn found_cl(&self) -> (r: Option<i64>)
        ensures
            r == self.known_cl(),
    {
        match self.state {
            V1State::Ordinal { key: _, cl } => Some(cl),
            V1State::First { key: _, cl, ordinal: _ } => Some(cl),
            V1State::Version { key: _, cl } => Some(cl),
            V1State::Value { key: _, cl } => Some(cl),
            V1State::Site { key: _, cl } => Some(cl),
            V1State::Last { cl } => Some(cl),
            V1State::Over { found } => found,
            _ => None,
        }
    }

    fn stop(&self, code: ResultCode, message: Option<String>) -> (r: (V1State, Action))
        ensures
            (r.0, r.1@) == self.give_up(code, match message { Some(m) => Some(m@), None => None }),
    {
        (V1State::Over { found: self.found_cl() }, Action::Stop(Err(MergeError { code, message })))
    }

    fn go_write(&self, key: i64, cl: i64, ordinal: Option<i64>) -> (r: (V1State, Action))
        ensures
            (r.0, r.1@) == self.write(key, cl, ordinal),
    {
        let step = self.decide(cl);
        let counts: bool = !matches!(step, V1Step::TieBreakDelete);
        match v1_last_statements(self.t, step, key, self.pks, self.c, change_stamp(self.c, ordinal)) {
            Ok(plan) => (V1State::Last { cl }, Action::Run { plan, counts }),
            Err(code) => (V1State::Over { found: Some(cl) }, fail(code)),
        }
    }

    fn go_after_first(&self, key: i64, cl: i64, ordinal: Option<i64>) -> (r: (V1State, Action))
        ensures
            (r.0, r.1@) == self.after_first(key, cl, ordinal),
    {
        match self.decide(cl) {
            V1Step::Cell { resurrect: _, check: _ } => self.go_write(key, cl, ordinal),
            V1Step::TieBreakDelete => self.go_write(key, cl, ordinal),
            _ => (V1State::Over { found: Some(cl) }, finish()),
        }
    }

    fn go_after_ordinal(&self, key: i64, cl: i64, ordinal: Option<i64>) -> (r: (V1State, Action))
        ensures
            (r.0, r.1@) == self.after_ordinal(key, cl, ordinal),
    {
        let plan = v1_first_statements(
            self.t,
            self.decide(cl),
            key,
            self.pks,
            self.c.cl,
            change_stamp(self.c, ordinal),
        );
        assert(crate::statement::sqls(plan@).len() == plan@.len());
        if plan.len() > 0 {
            (V1State::First { key, cl, ordinal }, Action::Run { plan, counts: true })
        } else {
            self.go_after_first(key, cl, ordinal)
        }
    }

    fn go_take_over(&self, key: i64, cl: i64) -> (r: (V1State, Action))
        ensures
            (r.0, r.1@) == self.take_over(key, cl),
    {
        if self.c.site_id.len() > 0 {
            (V1State::Ordinal { key, cl }, Action::AskOrdinal)
        } else {
            self.go_after_ordinal(key, cl, None)
        }
    }

    fn go_settle(&self, won: bool, key: i64, cl: i64) -> (r: (V1State, Action))
        ensures
            (r.0, r.1@) == self.settle(won, key, cl),
    {
        if won {
            self.go_take_over(key, cl)
        } else {
            (V1State::Over { found: Some(cl) }, finish())
        }
    }

    fn go_ask_site(&self, key: i64, cl: i64) -> (r: (V1State, Action))
        ensures
            (r.0, r.1@) == self.ask_site(key, cl),
    {
        (
            V1State::Site { key, cl },
            Action::AskSite(statement(self.t.get_col_site_id_stmt(), self.cell_id(key))),
        )
    }

    fn go_after_cl(&self, key: i64, cl: i64) -> (r: (V1State, Action))
        ensures
            (r.0, r.1@) == self.after_cl(key, cl),
    {
        match self.decide(cl) {
            V1Step::Ignore => (V1State::Over { found: Some(cl) }, finish()),
            V1Step::TieBreakDelete => self.go_ask_site(key, cl),
            V1Step::Cell { resurrect: _, check } => if check {
                (
                    V1State::Version { key, cl },
                    Action::AskInt(statement(self.t.get_col_version_stmt(), self.cell_id(key))),
                )
            } else {
                self.go_take_over(key, cl)
            },
            _ => self.go_take_over(key, cl),
        }
    }

    fn go_ask_cl(&self, key: i64) -> (r: (V1State, Action))
        ensures
            (r.0, r.1@) == self.ask_cl(key),
    {
        match self.t.get_cl(key) {
            Some(cl) => self.go_after_cl(key, *cl),
            None => {
                (
                    V1State::Cl { key },
                    Action::AskInt(
                        statement(
                            self.t.get_local_cl_stmt(),
                            two(ColumnValue::Integer(key), ColumnValue::Integer(key)),
                        ),
                    ),
                )
            },
        }
    }

    fn go_version(&self, stepped: Stepped, key: i64, cl: i64) -> (r: (V1State, Action))
        ensures
            (r.0, r.1@) == self.on_version(stepped, key, cl),
    {
        match did_cid_win(self.c.col_vrsn, stepped) {
            CidStep::Won(won) => self.go_settle(won, key, cl),
            CidStep::CompareValues => match self.t.get_col_value_stmt(self.c.cid.as_str()) {
                Ok(sql) => {
                    (V1State::Value { key, cl }, Action::AskOrder(statement(sql, self.keys())))
                },
                Err(code) => self.stop(code, None),
            },
            CidStep::Fail(e) => self.stop(e.code, e.message),
        }
    }

    fn go_value(&self, order: Option<i32>, key: i64, cl: i64) -> (r: (V1State, Action))
        ensures
            (r.0, r.1@) == self.on_value(order, key, cl),
    {
        match did_value_win(self.c.tbl.as_str(), order, self.merge_equal) {
            ValueStep::Won(won) => self.go_settle(won, key, cl),
            ValueStep::CompareSites => self.go_ask_site(key, cl),
            ValueStep::Fail(e) => self.stop(e.code, e.message),
        }
    }

    fn go_site(&self, site: Option<Vec<u8>>, key: i64, cl: i64) -> (r: (V1State, Action))
        ensures
            (r.0, r.1@) == self.on_site(match site { Some(s) => Some(s@), None => None }, key, cl),
    {
        let read = match site {
            Some(s) => SiteRead::Site(s),
            None => SiteRead::Done,
        };
        match did_site_id_win(self.c.tbl.as_str(), self.c.site_id.as_slice(), read) {
            Ok(won) => self.go_settle(won, key, cl),
            Err(e) => self.stop(e.code, e.message),
        }
    }

    fn go(&self, event: Event) -> (r: (V1State, Action))
        ensures
            (r.0, r.1@) == self.next_of(event@),
    {
        match (self.state, event) {
            (V1State::Start, Event::Begin) => {
                (V1State::Key, Action::AskInt(statement(self.t.get_select_key_stmt(), self.keys())))
            },
            (V1State::Key, Event::Int(stepped)) => match TableInfo::get_or_create_key(stepped) {
                crate::tableinfo::KeyStep::Found(key) => self.go_ask_cl(key),
                crate::tableinfo::KeyStep::Create => {
                    (
                        V1State::NewKey,
                        Action::AskInt(statement(self.t.get_insert_key_stmt(), self.keys())),
                    )
                },
                crate::tableinfo::KeyStep::Fail(rc) => self.stop(rc, None),
            },
            (V1State::NewKey, Event::Int(stepped)) => match TableInfo::create_key(stepped) {
                Ok(key) => self.go_ask_cl(key),
                Err(rc) => self.stop(rc, None),
            },
            (V1State::Cl { key }, Event::Int(stepped)) => match crate::changes_vtab_write::get_local_cl(stepped) {
                Ok(cl) => self.go_after_cl(key, cl),
                Err(rc) => self.stop(rc, None),
            },
            (V1State::Ordinal { key, cl }, Event::Int(Stepped::Row(n))) => self.go_after_ordinal(key, cl, Some(n)),
            (V1State::First { key, cl, ordinal }, Event::Ran) => self.go_after_first(key, cl, ordinal),
            (V1State::Version { key, cl }, Event::Int(stepped)) => self.go_version(stepped, key, cl),
            (V1State::Value { key, cl }, Event::Order(order)) => self.go_value(order, key, cl),
            (V1State::Site { key, cl }, Event::Site(site)) => self.go_site(site, key, cl),
            (V1State::Site { key: _, cl: _ }, Event::Failed(rc)) => match did_site_id_win(
                self.c.tbl.as_str(),
                self.c.site_id.as_slice(),
                SiteRead::Other(rc),
            ) {
                Ok(_) => self.stop(rc, None),
                Err(e) => self.stop(e.code, e.message),
            },
            (V1State::Last { cl }, Event::Ran) => (V1State::Over { found: Some(cl) }, finish()),
            (_, Event::Failed(rc)) => self.stop(rc, None),
            _ => self.stop(ResultCode::MISUSE, None),
        }
    }

    /// Goes on with the merge: `event` is what came of the last action.
    pub fn next(&mut self, event: Event) -> (r: Action)
        ensures
            final(self).state == old(self).next_of(event@).0,
            r@ == old(self).next_of(event@).1,
            final(self).t == old(self).t,
            final(self).c == old(self).c,
            final(self).pks == old(self).pks,
            final(self).merge_equal == old(self).merge_equal,
    {
        let (state, action) = self.go(event);
        self.state = state;
        action
    }
}

/// How far a merge is from its end.
pub open spec fn distance(state: V1State) -> nat {
    match state {
        V1State::Start => 10,
        V1State::Key => 9,
        V1State::NewKey => 8,
        V1State::Cl { .. } => 7,
        V1State::Version { .. } => 6,
        V1State::Value { .. } => 5,
        V1State::Site { .. } => 4,
        V1State::Ordinal { .. } => 3,
        V1State::First { .. } => 2,
        V1State::Last { .. } => 1,
        V1State::Over { .. } => 0,
    }
}

/// Whether a step leads to a state at most `bound` from the end, and stops exactly at the end.
spec fn leads_within(next: V1Next, bound: nat) -> bool {
    &&& distance(next.0) <= bound
    &&& next.0 is Over <==> next.1 is Finish || next.1 is Fail
}

proof fn lemma_after_ordinal(m: V1Merge<'_>, key: i64, cl: i64, ordinal: Option<i64>)
    ensures
        leads_within(m.after_first(key, cl, ordinal), 1),
        leads_within(m.after_ordinal(key, cl, ordinal), 2),
{
}

proof fn lemma_settle(m: V1Merge<'_>, won: bool, key: i64, cl: i64)
    ensures
        leads_within(m.take_over(key, cl), 3),
        leads_within(m.settle(won, key, cl), 3),
{
    lemma_after_ordinal(m, key, cl, None);
}

proof fn lemma_after_cl(m: V1Merge<'_>, key: i64, cl: i64)
    ensures
        leads_within(m.after_cl(key, cl), 6),
{
    lemma_settle(m, true, key, cl);
}

proof fn lemma_ask_cl(m: V1Merge<'_>, key: i64)
    ensures
        leads_within(m.ask_cl(key), 7),
{
    lemma_after_cl(m, key, m.t.cl_cache@[key]);
}

proof fn lemma_checks(
    m: V1Merge<'_>,
    stepped: Stepped,
    order: Option<i32>,
    site: Option<Seq<u8>>,
    key: i64,
    cl: i64,
)
    ensures
        leads_within(m.on_version(stepped, key, cl), 5),
        leads_within(m.on_value(order, key, cl), 4),
        leads_within(m.on_site(site, key, cl), 3),
{
    lemma_settle(m, true, key, cl);
    if let Stepped::Row(local) = stepped {
        lemma_settle(m, m.c.col_vrsn > local, key, cl);
    }
    if let Some(o) = order {
        lemma_settle(m, o > 0, key, cl);
    }
    if let Some(s) = site {
        lemma_settle(m, bytes_gt(m.c.site_id@, s), key, cl);
    }
}

/// A merge comes to its end: every step brings it nearer, whatever came of the last action, and
/// where it is at its end nothing more is to be done.
pub proof fn merge_ends(m: V1Merge<'_>, ev: Ev)
    ensures
        m.next_of(ev).0 is Over || distance(m.next_of(ev).0) < distance(m.state),
        m.next_of(ev).0 is Over <==> m.next_of(ev).1 is Finish || m.next_of(ev).1 is Fail,
{
    match (m.state, ev) {
        (V1State::Key, Ev::Int(Stepped::Row(key))) => lemma_ask_cl(m, key),
        (V1State::NewKey, Ev::Int(Stepped::Row(key))) => lemma_ask_cl(m, key),
        (V1State::Cl { key }, Ev::Int(Stepped::Row(cl))) => lemma_after_cl(m, key, cl),
        (V1State::Cl { key }, Ev::Int(Stepped::Done)) => lemma_after_cl(m, key, 0),
        (V1State::Ordinal { key, cl }, Ev::Int(Stepped::Row(n))) => lemma_after_ordinal(m, key, cl, Some(n)),
        (V1State::First { key, cl, ordinal }, Ev::Ran) => lemma_after_ordinal(m, key, cl, ordinal),
        (V1State::Version { key, cl }, Ev::Int(stepped)) => lemma_checks(m, stepped, None, None, key, cl),
        (V1State::Value { key, cl }, Ev::Order(order)) => lemma_checks(m, Stepped::Done, order, None, key, cl),
        (V1State::Site { key, cl }, Ev::Site(site)) => lemma_checks(m, Stepped::Done, None, site, key, cl),
        _ => {},
    }
}

/// A change from an older life of its row changes nothing: once the causal length of the row is
/// known, the merge is over.
pub proof fn stale_changes_do_nothing(m: V1Merge<'_>, key: i64, cl: i64)
    requires
        m.c.cl < cl,
    ensures
        m.after_cl(key, cl) == (V1State::Over { found: Some(cl) }, Act::Finish),
{
}

/// What a merge has found out of the causal length of a row is not lost, whatever fails after it.
pub proof fn found_causal_lengths_are_kept(m: V1Merge<'_>, ev: Ev)
    requires
        m.known_cl() is Some,
    ensures
        (V1Merge { state: m.next_of(ev).0, ..m }).known_cl() == m.known_cl(),
{
}

/// At one causal length, a change is taken over exactly where it wins over what is there, in the
/// order of writes; where it loses, nothing is written, and its site gets no number.
pub proof fn winners_are_written(
    m: V1Merge<'_>,
    key: i64,
    cl: i64,
    local_version: i64,
    order: i32,
    local_site: Seq<u8>,
)
    requires
        m.t.non_pk_col(m.c.cid@) is Some,
    ensures
        ({
            let won = crate::merge_order::wins(
                m.c.col_vrsn as int,
                local_version as int,
                order as int,
                m.merge_equal == 1,
                m.c.site_id@,
                local_site,
            );
            let by_version = m.on_version(Stepped::Row(local_version), key, cl);
            let by_value = m.on_value(Some(order), key, cl);
            let by_site = m.on_site(Some(local_site), key, cl);
            let value = V1State::Value { key, cl };
            let site = V1State::Site { key, cl };
            &&& by_version.0 != value ==> by_version == m.settle(won, key, cl)
            &&& by_version.0 == value && by_value.0 != site ==> by_value == m.settle(won, key, cl)
            &&& by_version.0 == value && by_value.0 == site ==> by_site == m.settle(won, key, cl)
            &&& m.settle(false, key, cl) == (V1State::Over { found: Some(cl) }, Act::Finish)
        }),
{
}

/// A failure ends a merge with its code.
pub proof fn failed_merges_stop(m: V1Merge<'_>, rc: ResultCode)
    ensures
        m.next_of(Ev::Failed(rc)).1 matches Act::Fail(code, _) && code == rc,
        m.state is Key || m.state is NewKey || m.state is Cl || m.state is Version ==> (m.next_of(
            Ev::Int(Stepped::Other(rc)),
        ).1 matches Act::Fail(code, _) && code == rc),
{
}

/// A cell that has no clock takes a change over as one does whose version is older, and one whose
/// version is newer does not: there the merge is over, and nothing is written.
pub proof fn cells_without_clocks_are_taken(m: V1Merge<'_>, key: i64, cl: i64, version: i64)
    requires
        m.state == (V1State::Version { key, cl }),
        m.t.non_pk_col(m.c.cid@) is Some,
    ensures
        ({
            let bare = m.next_of(Ev::Int(Stepped::Done));
            let clocked = m.next_of(Ev::Int(Stepped::Row(version)));
            &&& m.c.site_id@.len() > 0 ==> bare.1 is AskOrdinal
            &&& version < m.c.col_vrsn ==> clocked == bare
            &&& version > m.c.col_vrsn ==> clocked.1 is Finish
            &&& version == m.c.col_vrsn ==> clocked.1 is AskOrder
        }),
{
}

/// Every run of statements of a merge counts as a change of a row, but for a deletion that takes
/// the place of an equal one: of that row there is nothing left to change.
pub proof fn merged_rows_are_counted(m: V1Merge<'_>, ev: Ev)
    ensures
        m.next_of(ev).1 matches Act::Run(_, counts) ==> {
            &&& m.next_of(ev).0 is First ==> counts
            &&& m.next_of(ev).0 matches V1State::Last { cl } ==> (counts <==> m.step(cl) != V1Step::TieBreakDelete)
            &&& m.next_of(ev).0 is First || m.next_of(ev).0 is Last
        },
{
}

/// What is missing ends a merge with an error: a key that was not created, a row to compare with,
/// the site of a cell, and a column that the table does not have.
pub proof fn missing_things_are_errors(m: V1Merge<'_>, key: i64, cl: i64)
    ensures
        m.state is NewKey ==> m.next_of(Ev::Int(Stepped::Done)).1 == Act::Fail(ResultCode::DONE, None),
        m.state is Value ==> (m.next_of(Ev::Order(None)).1 matches Act::Fail(code, Some(_)) && code == ResultCode::ERROR),
        m.state is Site ==> (m.next_of(Ev::Site(None)).1 matches Act::Fail(code, Some(_)) && code == ResultCode::ERROR),
        m.state == (V1State::Version { key, cl }) && m.t.non_pk_col(m.c.cid@) is None ==> m.next_of(
            Ev::Int(Stepped::Row(m.c.col_vrsn)),
        ).1 == Act::Fail(ResultCode::ERROR, None),
{
}

/// An event that does not fit what was asked for is a misuse, and so is any event once a merge is
/// over.
pub proof fn unexpected_events_are_misuse(m: V1Merge<'_>, texts: Seq<Seq<char>>, ev: Ev)
    ensures
        m.next_of(Ev::Texts(texts)).1 == Act::Fail(ResultCode::MISUSE, None),
        m.state is Over && !(ev is Failed) ==> m.next_of(ev).1 == Act::Fail(ResultCode::MISUSE, None),
        m.state is Start && !(ev is Failed) && !(ev is Begin) ==> m.next_of(ev).1 == Act::Fail(ResultCode::MISUSE, None),
        m.state is Last && !(ev is Failed) && !(ev is Ran) ==> m.next_of(ev).1 == Act::Fail(ResultCode::MISUSE, None),
{
}

} // verus!
