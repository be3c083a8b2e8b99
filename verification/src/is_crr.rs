//! Which tables are replicated.

use vstd::prelude::*;
use vstd::string::*;

verus! {

/// The number of triggers that a replicated table has.
pub const CRR_TRIGGERS: usize = 3;

/// Counts the triggers of a name.
pub const COUNT_TRIGGER_SQL: &'static str = "SELECT count(*) FROM sqlite_master WHERE type = 'trigger' AND name = ?";

/// Counts the triggers whose names match a pattern.
pub const COUNT_TRIGGERS_LIKE_SQL: &'static str = "SELECT count(*) FROM sqlite_master WHERE type = 'trigger' AND name LIKE ?\0";

/// What the name of each trigger of a replicated table ends with.
pub open spec fn trigger_suffix(i: int) -> Seq<char> {
    if i == 0 {
        "__crsql_itrig"@
    } else if i == 1 {
        "__crsql_utrig"@
    } else {
        "__crsql_dtrig"@
    }
}

fn suffix_text(i: usize) -> (r: &'static str)
    ensures
        r@ == trigger_suffix(i as int),
{
    if i == 0 {
        "__crsql_itrig"
    } else if i == 1 {
        "__crsql_utrig"
    } else {
        "__crsql_dtrig"
    }
}

/// How the search for triggers goes on.
pub enum TriggerCheck {
    /// Count the triggers of this name, or of names that match this pattern.
    Count(String),
    No,
    Yes,
}

/// How the search for triggers goes on.
pub enum Checked {
    Count(Seq<char>),
    No,
    Yes,
}

/// Whether a table is replicated, with the counts that the first of its triggers gave.
pub open spec fn crr_check(table: Seq<char>, counts: Seq<i32>) -> Checked {
    if exists|i: int| 0 <= i < counts.len() && counts[i] == 0 {
        Checked::No
    } else if counts.len() == CRR_TRIGGERS {
        Checked::Yes
    } else {
        Checked::Count(table + trigger_suffix(counts.len() as int))
    }
}

/// Whether a database has no replicated tables, with the counts that the first of the trigger names
/// gave.
pub open spec fn no_crr_check(counts: Seq<i64>) -> Checked {
    if exists|i: int| 0 <= i < counts.len() && counts[i] > 0 {
        Checked::No
    } else if counts.len() == CRR_TRIGGERS {
        Checked::Yes
    } else {
        Checked::Count("%"@ + trigger_suffix(counts.len() as int))
    }
}

/// A table is replicated exactly where each of its three triggers is there, and a database has no
/// replicated tables exactly where none of the three is anywhere. Each trigger is asked for by its
/// own name, as long as the answer is open.
pub proof fn three_triggers_make_a_replicated_table(
    table: Seq<char>,
    a: i32,
    b: i32,
    c: i32,
    x: i64,
    y: i64,
    z: i64,
)
    ensures
        crr_check(table, seq![a, b, c]) is Yes <==> a != 0 && b != 0 && c != 0,
        crr_check(table, seq![a, b, c]) is No <==> a == 0 || b == 0 || c == 0,
        crr_check(table, seq![]) == Checked::Count(table + "__crsql_itrig"@),
        a != 0 ==> crr_check(table, seq![a]) == Checked::Count(table + "__crsql_utrig"@),
        a != 0 && b != 0 ==> crr_check(table, seq![a, b]) == Checked::Count(table + "__crsql_dtrig"@),
        no_crr_check(seq![x, y, z]) is Yes <==> x <= 0 && y <= 0 && z <= 0,
        no_crr_check(seq![x, y, z]) is No <==> x > 0 || y > 0 || z > 0,
        no_crr_check(seq![]) == Checked::Count("%"@ + "__crsql_itrig"@),
        x <= 0 ==> no_crr_check(seq![x]) == Checked::Count("%"@ + "__crsql_utrig"@),
        x <= 0 && y <= 0 ==> no_crr_check(seq![x, y]) == Checked::Count("%"@ + "__crsql_dtrig"@),
{
    let three = seq![a, b, c];
    assert(three[0] == a && three[1] == b && three[2] == c);
    let all = seq![x, y, z];
    assert(all[0] == x && all[1] == y && all[2] == z);
}

/// Whether a table is replicated, with the counts that the first of its triggers gave:
/// it is where it has all of them.
pub fn is_crr(table: &str, counts: &[i32]) -> (r: TriggerCheck)
    requires
        counts@.len() <= CRR_TRIGGERS,
    ensures
        match crr_check(table@, counts@) {
            Checked::No => r is No,
            Checked::Yes => r is Yes,
            Checked::Count(text) => r matches TriggerCheck::Count(name) && name@ == text,
        },
{
    let mut i: usize = 0;
    while i < counts.len()
        invariant
            i <= counts@.len(),
            forall|j: int| 0 <= j < i ==> counts@[j] != 0,
        decreases counts@.len() - i,
    {
        if counts[i] == 0 {
            return TriggerCheck::No;
        }
        i = i + 1;
    }
    if i == CRR_TRIGGERS {
        TriggerCheck::Yes
    } else {
        TriggerCheck::Count(table.to_owned().concat(suffix_text(i)))
    }
}

/// Whether a database has no replicated tables, with the counts that the first of the
/// trigger names gave: it has none where there is no trigger of any of them.
pub fn has_no_crr_tables(counts: &[i64]) -> (r: TriggerCheck)
    requires
        counts@.len() <= CRR_TRIGGERS,
    ensures
        match no_crr_check(counts@) {
            Checked::No => r is No,
            Checked::Yes => r is Yes,
            Checked::Count(text) => r matches TriggerCheck::Count(name) && name@ == text,
        },
{
    let mut i: usize = 0;
    while i < counts.len()
        invariant
            i <= counts@.len(),
            forall|j: int| 0 <= j < i ==> counts@[j] <= 0,
        decreases counts@.len() - i,
    {
        if counts[i] > 0 {
            return TriggerCheck::No;
        }
        i = i + 1;
    }
    if i == CRR_TRIGGERS {
        TriggerCheck::Yes
    } else {
        TriggerCheck::Count("%".to_owned().concat(suffix_text(i)))
    }
}

/// The triggers of a replicated table are those of inserts, updates and deletes, and they are told
/// apart.
pub proof fn triggers_are_told_apart(i: int, j: int)
    requires
        0 <= i < j < 3,
    ensures
        trigger_suffix(i) != trigger_suffix(j),
        trigger_suffix(0) == "__crsql_itrig"@,
        trigger_suffix(1) == "__crsql_utrig"@,
        trigger_suffix(2) == "__crsql_dtrig"@,
{
    reveal_strlit("__crsql_itrig");
    reveal_strlit("__crsql_utrig");
    reveal_strlit("__crsql_dtrig");
    assert("__crsql_itrig"@[8] == 'i');
    assert("__crsql_utrig"@[8] == 'u');
    assert("__crsql_dtrig"@[8] == 'd');
}

} // verus!
