//! Local writes that win over all others.
//!
//! The causal length of a row counts how often it was created and deleted: it is odd
//! while the row lives and even while it is dead.

use crate::ext_data::ExtData;
use crate::result_code::Stepped;
use vstd::prelude::*;

verus! {

/// Whether local writes are to win over all others.
pub fn is_force_update_mode_enabled(ext_data: &ExtData) -> (r: bool)
    ensures
        r == (ext_data.force_update_mode != 0),
{
    ext_data.force_update_mode != 0
}

/// Whether a row of this causal length lives.
pub open spec fn is_alive(cl: int) -> bool {
    cl % 2 == 1
}

/// The least causal length above `cl` of a row that lives.
pub open spec fn next_alive(cl: int) -> int {
    if is_alive(cl) {
        cl + 2
    } else {
        cl + 1
    }
}

/// The least causal length above `cl` of a row that is dead, and was alive before.
pub open spec fn next_dead(cl: int) -> int {
    if is_alive(cl) {
        cl + 1
    } else {
        cl + 2
    }
}

/// Whether a row of this causal length lives.
pub fn odd(cl: i64) -> (r: bool)
    ensures
        r == is_alive(cl as int),
{
    if cl >= 0 {
        cl % 2 == 1
    } else {
        (-(cl + 1)) % 2 == 0
    }
}

/// The causal length of a row that is written by force: the next one at which it
/// lives.
pub fn get_forced_cl(current_cl: i64) -> (r: i64)
    requires
        current_cl < i64::MAX,
    ensures
        r == next_alive(current_cl as int),
        current_cl == 0 ==> r == 1,
{
    if current_cl == 0 {
        1
    } else if !odd(current_cl) {
        current_cl + 1
    } else {
        current_cl + 2
    }
}

/// The causal length of a row that is deleted by force: the next one at which it is
/// dead. A row that was never there is dead at 2.
pub fn get_forced_delete_cl(current_cl: i64) -> (r: i64)
    requires
        current_cl < i64::MAX - 1,
    ensures
        r == next_dead(current_cl as int),
        current_cl == 0 ==> r == 2,
{
    if current_cl == 0 {
        2
    } else if !odd(current_cl) {
        current_cl + 2
    } else {
        current_cl + 1
    }
}

/// A forced write always moves a row on, and leaves it in the state that is asked for:
/// nothing lies between the old causal length and the new one in that state, and what
/// is deleted by force comes back at the very next causal length.
pub proof fn forced_writes_win(cl: int)
    ensures
        next_alive(cl) > cl,
        is_alive(next_alive(cl)),
        next_dead(cl) > cl,
        !is_alive(next_dead(cl)),
        forall|c: int| cl < c < next_alive(cl) ==> !is_alive(c),
        forall|c: int| cl < c < next_dead(cl) ==> is_alive(c),
        next_alive(next_dead(cl)) == next_dead(cl) + 1,
        next_dead(next_alive(cl)) == next_alive(cl) + 1,
{
}

/// How the search for the causal length of a row goes on.
#[derive(Clone, Copy, PartialEq, Eq, Structural, Debug)]
pub enum ClStep {
    /// This is the causal length.
    Found(i64),
    /// Ask the database.
    LookUp,
}

/// How the search for the causal length of a row goes on, with what the cache holds.
pub fn get_current_cl_for_key(cached: Option<&i64>) -> (r: ClStep)
    ensures
        r == match cached {
            Some(cl) => ClStep::Found(*cl),
            None => ClStep::LookUp,
        },
{
    match cached {
        Some(cl) => ClStep::Found(*cl),
        None => ClStep::LookUp,
    }
}

/// The causal length of a row, once the database was asked: 0 for a row that is not
/// known.
pub fn current_cl(stepped: Stepped) -> (r: Result<i64, &'static str>)
    ensures
        match stepped {
            Stepped::Row(cl) => r == Ok::<i64, &'static str>(cl),
            Stepped::Done => r == Ok::<i64, &'static str>(0),
            Stepped::Other(_) => r matches Err(msg) && msg@ == "failed to step local_cl_stmt"@,
        },
{
    match stepped {
        Stepped::Row(cl) => Ok(cl),
        Stepped::Done => Ok(0),
        Stepped::Other(_) => Err("failed to step local_cl_stmt"),
    }
}

} // verus!
