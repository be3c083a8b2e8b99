//! Metadata in the second format for rows that were there before them.

use crate::cell::{cell_key, cell_of};
use crate::hash_pk::{hash_pk_values, pk_hash};
use crate::pack_columns::{pack, vals, ColumnValue, Val};
use crate::result_code::ResultCode;
use crate::tableinfo::{names, ColumnInfo};
use crate::util::{escape_ident, escaped, repeated};
use crate::v2_stmts::{pk_cols_and_values, pk_cols_text};
use vstd::prelude::*;
use vstd::string::*;

verus! {

/// Asks for the time of the transaction; it fails where there is none.
pub const GET_TS_SQL: &'static str = "SELECT crsql_get_ts()\0";

/// Finds the rows that have no live key, with the rowid in front where it is the key.
pub open spec fn read_sql(table: Seq<char>, pks: Seq<Seq<char>>, key_is_rowid: bool, rowid_alias: Seq<char>) -> Seq<char> {
    if key_is_rowid {
        "SELECT t1.\""@ + escaped(rowid_alias) + "\", "@ + pk_cols_text(pks) + " FROM \""@ + escaped(table) + "\" AS t1
            WHERE t1.\""@ + escaped(rowid_alias) + "\" NOT IN (SELECT __crsql_key FROM \""@ + escaped(table) + "__crsql_v2_pks\")"@
    } else {
        "SELECT "@ + pk_cols_text(pks) + " FROM \""@ + escaped(table) + "\" AS t1
            EXCEPT SELECT "@ + pk_cols_text(pks) + " FROM \""@ + escaped(table) + "__crsql_v2_pks\" AS t2"@
    }
}

/// Finds the rows that have no live key, with the rowid in front where it is the key.
fn read_text(table: &str, pks: &[ColumnInfo], key_is_rowid: bool, rowid_alias: &str) -> (r: String)
    ensures
        r@ == read_sql(table@, names(pks@), key_is_rowid, rowid_alias@),
{
    if key_is_rowid {
        "SELECT t1.\"".to_owned()
            .concat(escape_ident(rowid_alias).as_str())
            .concat("\", ")
            .concat(pk_cols_and_values(pks).0.as_str())
            .concat(" FROM \"")
            .concat(escape_ident(table).as_str())
            .concat("\" AS t1
            WHERE t1.\"")
            .concat(escape_ident(rowid_alias).as_str())
            .concat("\" NOT IN (SELECT __crsql_key FROM \"")
            .concat(escape_ident(table).as_str())
            .concat("__crsql_v2_pks\")")
    } else {
        "SELECT ".to_owned()
            .concat(pk_cols_and_values(pks).0.as_str())
            .concat(" FROM \"")
            .concat(escape_ident(table).as_str())
            .concat("\" AS t1
            EXCEPT SELECT ")
            .concat(pk_cols_and_values(pks).0.as_str())
            .concat(" FROM \"")
            .concat(escape_ident(table).as_str())
            .concat("__crsql_v2_pks\" AS t2")
    }
}

/// Creates a live key at causal length 1, and gives it back.
pub open spec fn insert_pks_sql(table: Seq<char>, pks: Seq<Seq<char>>, key_is_rowid: bool, skip_hash: bool) -> Seq<char> {
    if skip_hash && key_is_rowid {
        "INSERT INTO \""@ + escaped(table) + "__crsql_v2_pks\" (__crsql_key, cl) VALUES (?, 1) RETURNING __crsql_key"@
    } else if skip_hash {
        "INSERT INTO \""@ + escaped(table) + "__crsql_v2_pks\" ("@ + pk_cols_text(pks) + ", cl) VALUES ("@ + repeated(pks.len(), "?"@) + ", 1) RETURNING __crsql_key"@
    } else if key_is_rowid {
        "INSERT INTO \""@ + escaped(table) + "__crsql_v2_pks\" (__crsql_key, hashed_pk, cl) VALUES (?, ?, 1) RETURNING __crsql_key"@
    } else {
        "INSERT INTO \""@ + escaped(table) + "__crsql_v2_pks\" ("@ + pk_cols_text(pks) + ", hashed_pk, cl) VALUES ("@ + repeated(pks.len(), "?"@) + ", ?, 1) RETURNING __crsql_key"@
    }
}

/// Creates a live key at causal length 1, and gives it back.
fn insert_pks_text(table: &str, pks: &[ColumnInfo], key_is_rowid: bool, skip_hash: bool) -> (r: String)
    ensures
        r@ == insert_pks_sql(table@, names(pks@), key_is_rowid, skip_hash),
{
    if skip_hash && key_is_rowid {
        "INSERT INTO \"".to_owned()
            .concat(escape_ident(table).as_str())
            .concat("__crsql_v2_pks\" (__crsql_key, cl) VALUES (?, 1) RETURNING __crsql_key")
    } else if skip_hash {
        "INSERT INTO \"".to_owned()
            .concat(escape_ident(table).as_str())
            .concat("__crsql_v2_pks\" (")
            .concat(pk_cols_and_values(pks).0.as_str())
            .concat(", cl) VALUES (")
            .concat(pk_cols_and_values(pks).1.as_str())
            .concat(", 1) RETURNING __crsql_key")
    } else if key_is_rowid {
        "INSERT INTO \"".to_owned()
            .concat(escape_ident(table).as_str())
            .concat("__crsql_v2_pks\" (__crsql_key, hashed_pk, cl) VALUES (?, ?, 1) RETURNING __crsql_key")
    } else {
        "INSERT INTO \"".to_owned()
            .concat(escape_ident(table).as_str())
            .concat("__crsql_v2_pks\" (")
            .concat(pk_cols_and_values(pks).0.as_str())
            .concat(", hashed_pk, cl) VALUES (")
            .concat(pk_cols_and_values(pks).1.as_str())
            .concat(", ?, 1) RETURNING __crsql_key")
    }
}

/// Creates the clock of a cell.
pub open spec fn clock_sql(table: Seq<char>) -> Seq<char> {
    "INSERT OR REPLACE INTO \""@ + escaped(table) + "__crsql_v2_clock\" (cell_key, col_version, site_id, db_version, seq, ts) VALUES (?, 1, 0, crsql_next_db_version(), crsql_increment_and_get_seq(), crsql_get_ts())"@
}

/// Creates the clock of a cell.
fn clock_text(table: &str) -> (r: String)
    ensures
        r@ == clock_sql(table@),
{
    "INSERT OR REPLACE INTO \"".to_owned()
        .concat(escape_ident(table).as_str())
        .concat("__crsql_v2_clock\" (cell_key, col_version, site_id, db_version, seq, ts) VALUES (?, 1, 0, crsql_next_db_version(), crsql_increment_and_get_seq(), crsql_get_ts())")
}

/// How the rows of a table are given metadata.
pub struct Backfill {
    /// Finds the rows.
    pub read: String,
    /// Creates the live key of a row.
    pub insert_pks: String,
    /// Creates the clock of a cell.
    pub clock: String,
    /// Goes through the rows.
    pub run: BackfillRun,
}

/// How the rows of a table are given metadata. A transaction without a time is an
/// error.
pub fn backfill_table_v2(
    table: &str,
    pk_cols: &[ColumnInfo],
    non_pk_cols: &[ColumnInfo],
    key_is_rowid: bool,
    rowid_alias: &str,
    skip_hash: bool,
    no_tx: bool,
    has_ts: bool,
) -> (r: Result<Backfill, ResultCode>)
    ensures
        !has_ts ==> r == Err::<Backfill, ResultCode>(ResultCode::ERROR),
        has_ts ==> (r matches Ok(b) && {
            &&& b.read@ == read_sql(table@, names(pk_cols@), key_is_rowid, rowid_alias@)
            &&& b.insert_pks@ == insert_pks_sql(table@, names(pk_cols@), key_is_rowid, skip_hash)
            &&& b.clock@ == clock_sql(table@)
            &&& b.run == (BackfillRun {
                key_is_rowid,
                skip_hash,
                no_tx,
                columns: non_pk_cols@.len() as usize,
                state: BackfillState::Start,
            })
        }),
{
    if !has_ts {
        return Err(ResultCode::ERROR);
    }
    Ok(
        Backfill {
            read: read_text(table, pk_cols, key_is_rowid, rowid_alias),
            insert_pks: insert_pks_text(table, pk_cols, key_is_rowid, skip_hash),
            clock: clock_text(table),
            run: BackfillRun::new(key_is_rowid, skip_hash, no_tx, non_pk_cols.len()),
        },
    )
}

/// The parameters with which the live key of a row is created: the rowid where it is the
/// key, else the primary key; and its hash, where there is one.
pub open spec fn pks_binds(key_is_rowid: bool, skip_hash: bool, rowid: i64, pk_values: Seq<Val>) -> Seq<Val> {
    let key = if key_is_rowid { seq![Val::Integer(rowid)] } else { pk_values };
    if skip_hash {
        key
    } else {
        key.push(Val::Blob(pk_hash(pack(pk_values))))
    }
}

/// The parameters with which the live key of a row is created.
pub fn bind_pks(key_is_rowid: bool, skip_hash: bool, rowid: i64, pk_values: Vec<ColumnValue>) -> (r: Result<
    Vec<ColumnValue>,
    ResultCode,
>)
    ensures
        r matches Ok(binds) && vals(binds@) == pks_binds(key_is_rowid, skip_hash, rowid, vals(pk_values@)),
{
    let hash: Option<Vec<u8>> = if skip_hash {
        None
    } else {
        match hash_pk_values(pk_values.as_slice()) {
            Ok(h) => Some(h),
            Err(e) => return Err(e),
        }
    };
    let ghost given = vals(pk_values@);
    let mut binds: Vec<ColumnValue> = if key_is_rowid {
        let mut v: Vec<ColumnValue> = Vec::new();
        v.push(ColumnValue::Integer(rowid));
        assert(vals(v@) =~= seq![Val::Integer(rowid)]);
        v
    } else {
        pk_values
    };
    match hash {
        Some(h) => {
            let ghost key = vals(binds@);
            let ghost held = h@;
            binds.push(ColumnValue::Blob(h));
            assert(vals(binds@) =~= key.push(Val::Blob(held)));
        },
        None => {},
    }
    Ok(binds)
}

/// The cells of a row: one for each column outside the primary key, and one for the row
/// as a whole where there are none.
pub open spec fn row_cells(key: i64, columns: nat) -> Seq<i64> {
    if columns == 0 {
        seq![cell_of(key, 0)]
    } else {
        Seq::new(columns, |i: int| cell_of(key, i as i64))
    }
}

/// The cells of a row that get clocks.
pub fn backfill_cells(key: i64, columns: usize) -> (r: Vec<i64>)
    requires
        columns <= i64::MAX,
    ensures
        r@ == row_cells(key, columns as nat),
{
    let mut cells: Vec<i64> = Vec::new();
    let mut i: usize = 0;
    while i < columns
        invariant
            i <= columns <= i64::MAX,
            cells@ =~= Seq::new(i as nat, |j: int| cell_of(key, j as i64)),
        decreases columns - i,
    {
        cells.push(cell_key(key, i as i64));
        i = i + 1;
    }
    if columns == 0 {
        cells.push(cell_key(key, 0));
    }
    assert(cells@ =~= row_cells(key, columns as nat));
    cells
}

// ---------------------------------------------------------------------------
// Going through the rows
// ---------------------------------------------------------------------------
/// How far the rows have been gone through.
#[derive(Clone, Copy, PartialEq, Eq, Structural, Debug)]
pub enum BackfillState {
    Start,
    /// The savepoint was set.
    Begun,
    /// The next row was asked for.
    Reading,
    /// The live key of a row was created.
    Inserting,
    /// The clocks of a row were created.
    Clocking,
    /// The savepoint was released.
    Ending,
    /// Something failed, and all was undone.
    Undoing { code: ResultCode },
    Over,
}

/// What to do next.
pub enum BackfillAction {
    /// Run the statement.
    Exec(&'static str),
    /// Hand back the next row that has no live key.
    NextRow,
    /// Create the live key of a row with these parameters, and hand it back.
    Insert(Vec<ColumnValue>),
    /// Create the clocks of these cells.
    Clocks(Vec<i64>),
    /// All is done, or something failed.
    Stop(Result<(), ResultCode>),
}

/// What to do next.
pub enum BackfillAct {
    Exec(Seq<char>),
    NextRow,
    Insert(Seq<Val>),
    Clocks(Seq<i64>),
    Stop(Result<(), ResultCode>),
}

impl View for BackfillAction {
    type V = BackfillAct;

    open spec fn view(&self) -> BackfillAct {
        match self {
            BackfillAction::Exec(sql) => BackfillAct::Exec(sql@),
            BackfillAction::NextRow => BackfillAct::NextRow,
            BackfillAction::Insert(binds) => BackfillAct::Insert(vals(binds@)),
            BackfillAction::Clocks(cells) => BackfillAct::Clocks(cells@),
            BackfillAction::Stop(r) => BackfillAct::Stop(*r),
        }
    }
}

/// What came of the last thing that was to be done.
pub enum BackfillEvent {
    /// Nothing was to be done yet.
    Begin,
    /// It was done.
    Ran,
    /// A row: its rowid, where that is the key, and its primary key.
    Row(i64, Vec<ColumnValue>),
    /// There is no further row.
    NoRow,
    /// The key that was created, or that none was.
    Key(Option<i64>),
    Failed(ResultCode),
}

/// What came of the last thing that was to be done.
pub enum BackfillEv {
    Begin,
    Ran,
    Row(i64, Seq<Val>),
    NoRow,
    Key(Option<i64>),
    Failed(ResultCode),
}

impl View for BackfillEvent {
    type V = BackfillEv;

    open spec fn view(&self) -> BackfillEv {
        match self {
            BackfillEvent::Begin => BackfillEv::Begin,
            BackfillEvent::Ran => BackfillEv::Ran,
            BackfillEvent::Row(rowid, pks) => BackfillEv::Row(*rowid, vals(pks@)),
            BackfillEvent::NoRow => BackfillEv::NoRow,
            BackfillEvent::Key(k) => BackfillEv::Key(*k),
            BackfillEvent::Failed(rc) => BackfillEv::Failed(*rc),
        }
    }
}

/// Gives the rows of a table metadata, one after the other.
#[derive(Clone, Copy, PartialEq, Eq, Structural, Debug)]
pub struct BackfillRun {
    pub key_is_rowid: bool,
    pub skip_hash: bool,
    /// Whether no savepoint of its own is set.
    pub no_tx: bool,
    /// The number of columns outside the primary key.
    pub columns: usize,
    pub state: BackfillState,
}

impl BackfillRun {
    /// All is done, or something failed.
    pub open spec fn stop(r: Result<(), ResultCode>) -> (BackfillState, BackfillAct) {
        (BackfillState::Over, BackfillAct::Stop(r))
    }

    /// Goes on to the next row.
    pub open spec fn read() -> (BackfillState, BackfillAct) {
        (BackfillState::Reading, BackfillAct::NextRow)
    }

    /// Undoes what was done under the savepoint, where there is one.
    pub open spec fn undo(self, code: ResultCode) -> (BackfillState, BackfillAct) {
        if self.no_tx {
            Self::stop(Err(code))
        } else {
            (BackfillState::Undoing { code }, BackfillAct::Exec("ROLLBACK"@))
        }
    }

    /// How it goes on.
    pub open spec fn next_of(self, ev: BackfillEv) -> (BackfillState, BackfillAct) {
        match (self.state, ev) {
            (BackfillState::Start, BackfillEv::Begin) => if self.no_tx {
                Self::read()
            } else {
                (BackfillState::Begun, BackfillAct::Exec("SAVEPOINT backfill_v2"@))
            },
            (BackfillState::Begun, BackfillEv::Ran) => Self::read(),
            (BackfillState::Reading, BackfillEv::Row(rowid, pks)) => (
                BackfillState::Inserting,
                BackfillAct::Insert(pks_binds(self.key_is_rowid, self.skip_hash, rowid, pks)),
            ),
            (BackfillState::Reading, BackfillEv::NoRow) => if self.no_tx {
                Self::stop(Ok(()))
            } else {
                (BackfillState::Ending, BackfillAct::Exec("RELEASE backfill_v2"@))
            },
            (BackfillState::Inserting, BackfillEv::Key(Some(key))) => (
                BackfillState::Clocking,
                BackfillAct::Clocks(row_cells(key, self.columns as nat)),
            ),
            (BackfillState::Inserting, BackfillEv::Key(None)) => Self::read(),
            (BackfillState::Clocking, BackfillEv::Ran) => Self::read(),
            (BackfillState::Ending, BackfillEv::Ran) => Self::stop(Ok(())),
            (BackfillState::Undoing { code }, BackfillEv::Ran) => Self::stop(Err(code)),
            (BackfillState::Reading, BackfillEv::Failed(rc)) => self.undo(rc),
            (BackfillState::Inserting, BackfillEv::Failed(rc)) => self.undo(rc),
            (BackfillState::Clocking, BackfillEv::Failed(rc)) => self.undo(rc),
            (_, BackfillEv::Failed(rc)) => Self::stop(Err(rc)),
            _ => Self::stop(Err(ResultCode::MISUSE)),
        }
    }

    /// Before the first row.
    pub fn new(key_is_rowid: bool, skip_hash: bool, no_tx: bool, columns: usize) -> (r: BackfillRun)
        ensures
            r == (BackfillRun { key_is_rowid, skip_hash, no_tx, columns, state: BackfillState::Start }),
    {
        BackfillRun { key_is_rowid, skip_hash, no_tx, columns, state: BackfillState::Start }
    }

    fn go_undo(&self, code: ResultCode) -> (r: (BackfillState, BackfillAction))
        ensures
            (r.0, r.1@) == self.undo(code),
    {
        if self.no_tx {
            (BackfillState::Over, BackfillAction::Stop(Err(code)))
        } else {
            (BackfillState::Undoing { code }, BackfillAction::Exec("ROLLBACK"))
        }
    }

    fn go(&self, event: BackfillEvent) -> (r: (BackfillState, BackfillAction))
        requires
            self.columns <= i64::MAX,
        ensures
            (r.0, r.1@) == self.next_of(event@),
    {
        match (self.state, event) {
            (BackfillState::Start, BackfillEvent::Begin) => if self.no_tx {
                (BackfillState::Reading, BackfillAction::NextRow)
            } else {
                (BackfillState::Begun, BackfillAction::Exec("SAVEPOINT backfill_v2"))
            },
            (BackfillState::Begun, BackfillEvent::Ran) => (BackfillState::Reading, BackfillAction::NextRow),
            (BackfillState::Reading, BackfillEvent::Row(rowid, pks)) => {
                match bind_pks(self.key_is_rowid, self.skip_hash, rowid, pks) {
                    Ok(binds) => (BackfillState::Inserting, BackfillAction::Insert(binds)),
                    Err(rc) => self.go_undo(rc),
                }
            },
            (BackfillState::Reading, BackfillEvent::NoRow) => if self.no_tx {
                (BackfillState::Over, BackfillAction::Stop(Ok(())))
            } else {
                (BackfillState::Ending, BackfillAction::Exec("RELEASE backfill_v2"))
            },
            (BackfillState::Inserting, BackfillEvent::Key(Some(key))) => {
                (BackfillState::Clocking, BackfillAction::Clocks(backfill_cells(key, self.columns)))
            },
            (BackfillState::Inserting, BackfillEvent::Key(None)) => {
                (BackfillState::Reading, BackfillAction::NextRow)
            },
            (BackfillState::Clocking, BackfillEvent::Ran) => (BackfillState::Reading, BackfillAction::NextRow),
            (BackfillState::Ending, BackfillEvent::Ran) => (BackfillState::Over, BackfillAction::Stop(Ok(()))),
            (BackfillState::Undoing { code }, BackfillEvent::Ran) => {
                (BackfillState::Over, BackfillAction::Stop(Err(code)))
            },
            (BackfillState::Reading, BackfillEvent::Failed(rc)) => self.go_undo(rc),
            (BackfillState::Inserting, BackfillEvent::Failed(rc)) => self.go_undo(rc),
            (BackfillState::Clocking, BackfillEvent::Failed(rc)) => self.go_undo(rc),
            (_, BackfillEvent::Failed(rc)) => (BackfillState::Over, BackfillAction::Stop(Err(rc))),
            _ => (BackfillState::Over, BackfillAction::Stop(Err(ResultCode::MISUSE))),
        }
    }

    /// Goes on: `event` is what came of the last action.
    pub fn next(&mut self, event: BackfillEvent) -> (r: BackfillAction)
        requires
            old(self).columns <= i64::MAX,
        ensures
            *final(self) == (BackfillRun { state: old(self).next_of(event@).0, ..*old(self) }),
            r@ == old(self).next_of(event@).1,
    {
        let (state, action) = self.go(event);
        self.state = state;
        action
    }
}

/// A failure on the way through the rows is reported, and never before all was undone that was
/// done under a savepoint.
pub proof fn failed_backfills_are_undone(b: BackfillRun, rc: ResultCode)
    requires
        b.state is Reading || b.state is Inserting || b.state is Clocking,
    ensures
        b.no_tx ==> b.next_of(BackfillEv::Failed(rc)).1 == BackfillAct::Stop(Err(rc)),
        !b.no_tx ==> b.next_of(BackfillEv::Failed(rc)).1 == BackfillAct::Exec("ROLLBACK"@),
        !b.no_tx ==> (BackfillRun {
            state: b.next_of(BackfillEv::Failed(rc)).0,
            ..b
        }).next_of(BackfillEv::Ran).1 == BackfillAct::Stop(Err(rc)),
{
}

/// Every row that gets a live key gets a clock for each of its columns, and at least one.
pub proof fn every_row_gets_clocks(b: BackfillRun, key: i64)
    requires
        b.state is Inserting,
    ensures
        b.next_of(BackfillEv::Key(Some(key))).1 == BackfillAct::Clocks(row_cells(key, b.columns as nat)),
        row_cells(key, b.columns as nat).len() == (if b.columns == 0 { 1int } else { b.columns as int }),
        forall|i: int|
            0 <= i < row_cells(key, b.columns as nat).len() ==> #[trigger] row_cells(key, b.columns as nat)[i]
                == cell_of(key, i as i64),
{
}

/// Every row that is found has its turn: it gets a live key with its own parameters, and clocks
/// where the key was created, and then the next row is asked for. Where there is no further row the
/// savepoint is released, if one was set, and all is done.
pub proof fn every_row_has_its_turn(b: BackfillRun, rowid: i64, pks: Seq<Val>, key: i64)
    requires
        b.state is Reading,
    ensures
        ({
            let a = b.next_of(BackfillEv::Row(rowid, pks));
            let inserting = BackfillRun { state: a.0, ..b };
            let made = inserting.next_of(BackfillEv::Key(Some(key)));
            let clocking = BackfillRun { state: made.0, ..b };
            let end = b.next_of(BackfillEv::NoRow);
            let ending = BackfillRun { state: end.0, ..b };
            &&& a.1 == BackfillAct::Insert(pks_binds(b.key_is_rowid, b.skip_hash, rowid, pks))
            &&& inserting.next_of(BackfillEv::Key(None)) == (b.state, BackfillAct::NextRow)
            &&& made.1 == BackfillAct::Clocks(row_cells(key, b.columns as nat))
            &&& clocking.next_of(BackfillEv::Ran) == (b.state, BackfillAct::NextRow)
            &&& b.no_tx ==> end.1 == BackfillAct::Stop(Ok(()))
            &&& !b.no_tx ==> end.1 == BackfillAct::Exec("RELEASE backfill_v2"@) && ending.next_of(BackfillEv::Ran).1
                == BackfillAct::Stop(Ok(()))
        }),
{
}

/// The rows are gone through under a savepoint, unless there is to be none; where the savepoint
/// cannot be set or released, that is reported.
pub proof fn backfills_start_and_end(b: BackfillRun, rc: ResultCode)
    ensures
        b.state is Start && b.no_tx ==> b.next_of(BackfillEv::Begin) == (BackfillState::Reading, BackfillAct::NextRow),
        b.state is Start && !b.no_tx ==> ({
            let a = b.next_of(BackfillEv::Begin);
            &&& a.1 == BackfillAct::Exec("SAVEPOINT backfill_v2"@)
            &&& BackfillRun { state: a.0, ..b }.next_of(BackfillEv::Ran) == (BackfillState::Reading, BackfillAct::NextRow)
        }),
        b.state is Start || b.state is Begun || b.state is Ending || b.state is Undoing ==> b.next_of(
            BackfillEv::Failed(rc),
        ).1 == BackfillAct::Stop(Err(rc)),
{
}

} // verus!
