//! Taking the second format of the metadata off a table.

use crate::bootstrap_v2::{drop_v2_sql, drop_v2_tables};
use crate::statement::{sqls, Statement};
use vstd::prelude::*;

verus! {

/// The statements, to be run in their order, that drop the metadata of a table in the
/// second format.
pub fn remove_crr_v2_tables(table: &str) -> (r: Vec<Statement>)
    ensures
        sqls(r@) == drop_v2_sql(table@),
{
    drop_v2_tables(table)
}

} // verus!
