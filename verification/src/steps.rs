//! Work that goes back and forth between the library and the database: the library says what
//! to do next, and is told what came of it.

use crate::changes_vtab_write::MergeError;
use crate::pack_columns::{vals, ColumnValue, Val};
use crate::result_code::{ResultCode, Stepped};
use crate::statement::{sqls, Sql, Statement};
use crate::text::texts;
use vstd::prelude::*;

verus! {

/// What to do next.
pub enum Action {
    /// Run the statement, and hand back the integer in the first column of its first row.
    AskInt(Statement),
    /// Run the statement, and hand back the texts in the first column of its rows.
    AskTexts(Statement),
    /// Run the statement, and hand back the integers in the first column of its rows.
    AskInts(Statement),
    /// Run the statement, and hand back the bytes in the first column of its first row.
    AskSite(Statement),
    /// Run the statement, and compare the value of the change with that in the first column of
    /// its first row.
    AskOrder(Statement),
    /// Run the statement, and hand back the key, which may be null, and the causal length in its
    /// first row.
    AskState(Statement),
    /// Run the statement, and hand back the primary key in its first row.
    AskPks(Statement),
    /// Run the statement, and hand back the four integers in its first row.
    AskDetail(Statement),
    /// Hand back the rowid of the last row that was inserted.
    AskRowid,
    /// Hand back the number of the site of the change.
    AskOrdinal,
    /// Hand back the version of the database that the write has, which is stored where it is new
    /// to the transaction.
    AskVersion,
    /// Run the statements in their order. Where `counts` holds, they change a row.
    Run { plan: Vec<Statement>, counts: bool },
    /// Run the statements in their order, and hand back how many rows the last one changed.
    Count(Vec<Statement>),
    /// Run the statements in their order, and hand back how many rows each one changed.
    CountEach(Vec<Statement>),
    /// All is done, or something failed.
    Stop(Result<(), MergeError>),
}

/// What to do next.
pub enum Act {
    AskInt(Sql),
    AskTexts(Sql),
    AskInts(Sql),
    AskSite(Sql),
    AskOrder(Sql),
    AskState(Sql),
    AskPks(Sql),
    AskDetail(Sql),
    AskRowid,
    AskOrdinal,
    AskVersion,
    Run(Seq<Sql>, bool),
    Count(Seq<Sql>),
    CountEach(Seq<Sql>),
    /// All is done.
    Finish,
    /// Something failed, and what is said of it, if anything.
    Fail(ResultCode, Option<Seq<char>>),
}

impl View for Action {
    type V = Act;

    open spec fn view(&self) -> Act {
        match self {
            Action::AskInt(s) => Act::AskInt(s@),
            Action::AskTexts(s) => Act::AskTexts(s@),
            Action::AskInts(s) => Act::AskInts(s@),
            Action::AskSite(s) => Act::AskSite(s@),
            Action::AskOrder(s) => Act::AskOrder(s@),
            Action::AskState(s) => Act::AskState(s@),
            Action::AskPks(s) => Act::AskPks(s@),
            Action::AskDetail(s) => Act::AskDetail(s@),
            Action::AskRowid => Act::AskRowid,
            Action::AskOrdinal => Act::AskOrdinal,
            Action::AskVersion => Act::AskVersion,
            Action::Run { plan, counts } => Act::Run(sqls(plan@), *counts),
            Action::Count(plan) => Act::Count(sqls(plan@)),
            Action::CountEach(plan) => Act::CountEach(sqls(plan@)),
            Action::Stop(Ok(_)) => Act::Finish,
            Action::Stop(Err(e)) => Act::Fail(
                e.code,
                match e.message {
                    Some(m) => Some(m@),
                    None => None,
                },
            ),
        }
    }
}

/// What came of the last thing that was to be done.
pub enum Event {
    /// Nothing was to be done yet.
    Begin,
    /// An integer, or that there was no row, or a failure.
    Int(Stepped),
    /// The texts of all rows.
    Texts(Vec<String>),
    /// The integers of all rows, or of all statements.
    Ints(Vec<i64>),
    /// The bytes of a site; none where there was no row.
    Site(Option<Vec<u8>>),
    /// How two values compare: above 0 where that of the change is the greater, 0 where they are
    /// equal; none where there was no row, or where it could not be read.
    Order(Option<i32>),
    /// A key, which may be null, and a causal length; none where there was no row.
    State(Option<(Option<i64>, i64)>),
    /// A primary key; none where there was no row.
    Pks(Option<Vec<ColumnValue>>),
    /// Four integers; none where there was no row.
    Detail(Option<(i64, i64, i64, i64)>),
    /// The statements were run.
    Ran,
    Failed(ResultCode),
    /// There is no version, and why.
    Refused(String),
}

/// What came of the last thing that was to be done.
pub enum Ev {
    Begin,
    Int(Stepped),
    Texts(Seq<Seq<char>>),
    Ints(Seq<i64>),
    Site(Option<Seq<u8>>),
    Order(Option<i32>),
    State(Option<(Option<i64>, i64)>),
    Pks(Option<Seq<Val>>),
    Detail(Option<(i64, i64, i64, i64)>),
    Ran,
    Failed(ResultCode),
    Refused(Seq<char>),
}

impl View for Event {
    type V = Ev;

    open spec fn view(&self) -> Ev {
        match self {
            Event::Begin => Ev::Begin,
            Event::Int(s) => Ev::Int(*s),
            Event::Texts(list) => Ev::Texts(texts(list@)),
            Event::Ints(list) => Ev::Ints(list@),
            Event::Site(Some(b)) => Ev::Site(Some(b@)),
            Event::Site(None) => Ev::Site(None),
            Event::Order(o) => Ev::Order(*o),
            Event::State(s) => Ev::State(*s),
            Event::Pks(Some(v)) => Ev::Pks(Some(vals(v@))),
            Event::Pks(None) => Ev::Pks(None),
            Event::Detail(d) => Ev::Detail(*d),
            Event::Ran => Ev::Ran,
            Event::Failed(rc) => Ev::Failed(*rc),
            Event::Refused(msg) => Ev::Refused(msg@),
        }
    }
}

/// The end of work that went well.
pub fn finish() -> (r: Action)
    ensures
        r@ == Act::Finish,
{
    Action::Stop(Ok(()))
}

/// The end of work that failed.
pub fn fail(code: ResultCode) -> (r: Action)
    ensures
        r@ == Act::Fail(code, None),
{
    Action::Stop(Err(MergeError { code, message: None }))
}

/// The end of work that failed, and why.
pub fn fail_with(code: ResultCode, message: String) -> (r: Action)
    ensures
        r@ == Act::Fail(code, Some(message@)),
{
    Action::Stop(Err(MergeError { code, message: Some(message) }))
}

/// A statement to run.
pub fn statement(sql: String, binds: Vec<ColumnValue>) -> (r: Statement)
    ensures
        r@ == crate::statement::bound(sql@, vals(binds@)),
{
    Statement { sql, binds, sync: false }
}

} // verus!
