//! The result codes that the library gives and takes.

use vstd::prelude::*;

verus! {

/// A result code of SQLite.
#[derive(Clone, Copy, PartialEq, Eq, Structural, Debug)]
pub enum ResultCode {
    OK,
    ERROR,
    ABORT,
    NOMEM,
    MISUSE,
    ROW,
    DONE,
}

impl ResultCode {
    /// The number by which SQLite knows the code.
    pub open spec fn spec_code(self) -> i32 {
        match self {
            ResultCode::OK => 0i32,
            ResultCode::ERROR => 1i32,
            ResultCode::ABORT => 4i32,
            ResultCode::NOMEM => 7i32,
            ResultCode::MISUSE => 21i32,
            ResultCode::ROW => 100i32,
            ResultCode::DONE => 101i32,
        }
    }

    /// The number by which SQLite knows the code.
    pub fn code(self) -> (r: i32)
        ensures
            r == self.spec_code(),
    {
        match self {
            ResultCode::OK => 0,
            ResultCode::ERROR => 1,
            ResultCode::ABORT => 4,
            ResultCode::NOMEM => 7,
            ResultCode::MISUSE => 21,
            ResultCode::ROW => 100,
            ResultCode::DONE => 101,
        }
    }
}

/// What running a statement by one step came to.
#[derive(Clone, Copy, PartialEq, Eq, Structural, Debug)]
pub enum Stepped {
    /// A row, with the integer in its first column.
    Row(i64),
    /// No row, or no further row.
    Done,
    /// Anything else: an error, most often.
    Other(ResultCode),
}

} // verus!
