//! Statements to run, with the values that their parameters take.

use crate::pack_columns::{vals, ColumnValue, Val};
use vstd::prelude::*;

verus! {

/// A statement to run.
pub struct Statement {
    pub sql: String,
    /// The values of the parameters, from the first on.
    pub binds: Vec<ColumnValue>,
    /// Whether it is run while triggers take no notice of changes.
    pub sync: bool,
}

/// What a statement says, and the values that its parameters take.
pub struct Sql {
    pub sql: Seq<char>,
    pub binds: Seq<Val>,
    pub sync: bool,
}

impl View for Statement {
    type V = Sql;

    open spec fn view(&self) -> Sql {
        Sql { sql: self.sql@, binds: vals(self.binds@), sync: self.sync }
    }
}

/// What statements say.
pub open spec fn sqls(s: Seq<Statement>) -> Seq<Sql> {
    s.map_values(|st: Statement| st@)
}

/// A statement without parameters.
pub open spec fn plain(sql: Seq<char>) -> Sql {
    Sql { sql, binds: seq![], sync: false }
}

/// A statement with parameters.
pub open spec fn bound(sql: Seq<char>, binds: Seq<Val>) -> Sql {
    Sql { sql, binds, sync: false }
}

/// A statement with parameters that triggers take no notice of.
pub open spec fn unnoticed(sql: Seq<char>, binds: Seq<Val>) -> Sql {
    Sql { sql, binds, sync: true }
}

/// Appends a statement without parameters.
pub fn push_plain(plan: &mut Vec<Statement>, sql: String)
    ensures
        sqls(final(plan)@) == sqls(old(plan)@).push(plain(sql@)),
{
    let st = Statement { sql, binds: Vec::new(), sync: false };
    assert(vals(st.binds@) =~= seq![]);
    plan.push(st);
    assert(sqls(plan@) =~= sqls(old(plan)@).push(plain(sql@)));
}

/// Appends a statement.
pub fn push_statement(plan: &mut Vec<Statement>, sql: String, binds: Vec<ColumnValue>)
    ensures
        sqls(final(plan)@) == sqls(old(plan)@).push(bound(sql@, vals(binds@))),
{
    plan.push(Statement { sql, binds, sync: false });
    assert(sqls(plan@) =~= sqls(old(plan)@).push(bound(sql@, vals(binds@))));
}

/// Appends a statement that triggers take no notice of.
pub fn push_unnoticed(plan: &mut Vec<Statement>, sql: String, binds: Vec<ColumnValue>)
    ensures
        sqls(final(plan)@) == sqls(old(plan)@).push(unnoticed(sql@, vals(binds@))),
{
    plan.push(Statement { sql, binds, sync: true });
    assert(sqls(plan@) =~= sqls(old(plan)@).push(unnoticed(sql@, vals(binds@))));
}

/// Appends a value.
pub fn push_value(binds: &mut Vec<ColumnValue>, value: ColumnValue)
    ensures
        vals(final(binds)@) == vals(old(binds)@).push(value@),
{
    binds.push(value);
    assert(vals(binds@) =~= vals(old(binds)@).push(value@));
}

/// Appends copies of values.
pub fn push_values(binds: &mut Vec<ColumnValue>, values: &[ColumnValue])
    ensures
        vals(final(binds)@) == vals(old(binds)@) + vals(values@),
{
    let mut i: usize = 0;
    assert(vals(binds@) + vals(values@).take(0) =~= vals(binds@));
    while i < values.len()
        invariant
            i <= values@.len(),
            vals(binds@) == vals(old(binds)@) + vals(values@).take(i as int),
        decreases values@.len() - i,
    {
        push_value(binds, values[i].clone());
        assert(vals(binds@) =~= vals(old(binds)@) + vals(values@).take(i + 1));
        i = i + 1;
    }
    assert(vals(values@).take(i as int) =~= vals(values@));
}

/// No values.
pub fn no_values() -> (r: Vec<ColumnValue>)
    ensures
        vals(r@) == Seq::<Val>::empty(),
{
    let v: Vec<ColumnValue> = Vec::new();
    assert(vals(v@) =~= seq![]);
    v
}

/// A copy of bytes, as a value.
pub fn blob(bytes: &[u8]) -> (r: ColumnValue)
    ensures
        r@ == Val::Blob(bytes@),
{
    let copy = vstd::slice::slice_to_vec(bytes);
    ColumnValue::Blob(copy)
}

/// A list of two values.
pub fn two(a: ColumnValue, b: ColumnValue) -> (r: Vec<ColumnValue>)
    ensures
        vals(r@) == seq![a@, b@],
{
    let mut v: Vec<ColumnValue> = Vec::new();
    v.push(a);
    v.push(b);
    assert(vals(v@) =~= seq![a@, b@]);
    v
}

/// A list of one value.
pub fn one(a: ColumnValue) -> (r: Vec<ColumnValue>)
    ensures
        vals(r@) == seq![a@],
{
    let mut v: Vec<ColumnValue> = Vec::new();
    v.push(a);
    assert(vals(v@) =~= seq![a@]);
    v
}

} // verus!
