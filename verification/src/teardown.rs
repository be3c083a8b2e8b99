//! Taking replication off a table.

use crate::bootstrap_v2::{drop_table_sql, drop_table_text, drop_v2_sql, keep_signature_sql};
use crate::is_crr::trigger_suffix;
use crate::maintenance::{Removed, Upkeep};
use crate::migrate_run::{Cleanup, Migrate};
use crate::pack_columns::Val;
use crate::statement::plain;
use crate::tableinfo::TableInfo;
use crate::text::{push_part, texts};
use crate::util::{escape_ident, escaped, mode_keys, task_keys};
use vstd::prelude::*;
use vstd::string::*;

verus! {

/// The query for the columns of a table's primary key.
pub const PK_COLUMNS_SQL: &'static str = "SELECT name FROM pragma_table_info(?) WHERE pk > 0";

/// The statements, to be run in their order, that drop the metadata of a table in the
/// first format.
pub fn remove_crr_clock_table_if_exists(table: &str) -> (r: Vec<String>)
    ensures
        texts(r@) == seq![
            drop_table_sql(table@, "__crsql_clock"@),
            drop_table_sql(table@, "__crsql_pks"@),
        ],
{
    let mut plan: Vec<String> = Vec::new();
    assert(texts(plan@) =~= seq![]);
    push_part(&mut plan, drop_table_text(table, "__crsql_clock"));
    push_part(&mut plan, drop_table_text(table, "__crsql_pks"));
    assert(texts(plan@) =~= seq![
        drop_table_sql(table@, "__crsql_clock"@),
        drop_table_sql(table@, "__crsql_pks"@),
    ]);
    plan
}

/// Drops a trigger of a table.
pub open spec fn drop_trigger_sql(table: Seq<char>, suffix: Seq<char>) -> Seq<char> {
    "DROP TRIGGER IF EXISTS \""@ + escaped(table) + suffix + "\""@
}

/// Drops a trigger of a table.
fn drop_trigger_text(table: &str, suffix: &str) -> (r: String)
    ensures
        r@ == drop_trigger_sql(table@, suffix@),
{
    "DROP TRIGGER IF EXISTS \"".to_owned()
        .concat(escape_ident(table).as_str())
        .concat(suffix)
        .concat("\"")
}

/// Drops the trigger of a column of the primary key.
pub open spec fn drop_col_trigger_sql(table: Seq<char>, col: Seq<char>) -> Seq<char> {
    "DROP TRIGGER IF EXISTS \""@ + escaped(table) + "_"@ + escaped(col) + "__crsql_utrig\""@
}

/// Drops the trigger of a column of the primary key.
fn drop_col_trigger_text(table: &str, col: &str) -> (r: String)
    ensures
        r@ == drop_col_trigger_sql(table@, col@),
{
    "DROP TRIGGER IF EXISTS \"".to_owned()
        .concat(escape_ident(table).as_str())
        .concat("_")
        .concat(escape_ident(col).as_str())
        .concat("__crsql_utrig\"")
}

/// The statements that drop the triggers of the columns of a primary key.
pub open spec fn drop_col_triggers_sql(table: Seq<char>, pk_cols: Seq<Seq<char>>) -> Seq<Seq<char>> {
    pk_cols.map_values(|col: Seq<char>| drop_col_trigger_sql(table, col))
}

/// The statements, to be run in their order, that drop the triggers of a table.
pub open spec fn drop_triggers_sql(table: Seq<char>, pk_cols: Seq<Seq<char>>) -> Seq<Seq<char>> {
    (seq![
        drop_trigger_sql(table, "__crsql_itrig"@),
        drop_trigger_sql(table, "__crsql_utrig"@),
    ] + drop_col_triggers_sql(table, pk_cols)).push(drop_trigger_sql(table, "__crsql_dtrig"@))
}

/// The statements, to be run in their order, that drop the triggers of a table, with the
/// columns of its primary key.
pub fn remove_crr_triggers_if_exist(table: &str, pk_cols: &[String]) -> (r: Vec<String>)
    ensures
        texts(r@) == drop_triggers_sql(table@, texts(pk_cols@)),
{
    let mut plan: Vec<String> = Vec::new();
    assert(texts(plan@) =~= seq![]);
    push_part(&mut plan, drop_trigger_text(table, "__crsql_itrig"));
    push_part(&mut plan, drop_trigger_text(table, "__crsql_utrig"));
    let ghost first = texts(plan@);
    let ghost cols = drop_col_triggers_sql(table@, texts(pk_cols@));
    let mut i: usize = 0;
    assert(first + cols.take(0) =~= first);
    while i < pk_cols.len()
        invariant
            i <= pk_cols@.len(),
            cols == drop_col_triggers_sql(table@, texts(pk_cols@)),
            texts(plan@) == first + cols.take(i as int),
        decreases pk_cols@.len() - i,
    {
        push_part(&mut plan, drop_col_trigger_text(table, pk_cols[i].as_str()));
        assert(texts(plan@) =~= first + cols.take(i + 1));
        i = i + 1;
    }
    assert(cols.take(i as int) =~= cols);
    push_part(&mut plan, drop_trigger_text(table, "__crsql_dtrig"));
    assert(first =~= seq![
        drop_trigger_sql(table@, "__crsql_itrig"@),
        drop_trigger_sql(table@, "__crsql_utrig"@),
    ]);
    plan
}

/// All triggers of a replicated table are dropped: the three that it is told by, and one for each
/// column of its primary key.
pub proof fn all_triggers_are_dropped(table: Seq<char>, pk_cols: Seq<Seq<char>>, i: int, k: int)
    requires
        0 <= i < 3,
        0 <= k < pk_cols.len(),
    ensures
        drop_triggers_sql(table, pk_cols).len() == pk_cols.len() + 3,
        drop_triggers_sql(table, pk_cols).contains(drop_trigger_sql(table, trigger_suffix(i))),
        drop_triggers_sql(table, pk_cols).contains(drop_col_trigger_sql(table, pk_cols[k])),
{
    let all = drop_triggers_sql(table, pk_cols);
    assert(all[0] == drop_trigger_sql(table, trigger_suffix(0)));
    assert(all[1] == drop_trigger_sql(table, trigger_suffix(1)));
    assert(all[2 + k] == drop_col_trigger_sql(table, pk_cols[k]));
    assert(all[all.len() - 1] == drop_trigger_sql(table, trigger_suffix(2)));
}

/// Nothing that is kept of a table under a key of its own is left when all of them are cleared: how
/// its rows are known, the shape of its primary key, and every task on it.
pub proof fn all_keys_are_cleared(t: TableInfo, m: Migrate<'_>, c: Cleanup<'_>)
    requires
        m.t.tbl_name@ == t.tbl_name@,
        c.table@ == t.tbl_name@,
    ensures
        ({
            let keys = mode_keys(t.tbl_name@) + task_keys(t.tbl_name@);
            &&& keys.contains("use_rowid_"@ + t.tbl_name@)
            &&& keys.contains("skip_hash_"@ + t.tbl_name@)
            &&& keep_signature_sql(t).binds[0] matches Val::Text(key) && mode_keys(t.tbl_name@).contains(key)
            &&& keys.contains(m.progress_key())
            &&& keys.contains(m.estimate_key())
            &&& keys.contains(c.total_key())
            &&& keys.contains(Removed::V1.marker() + "_"@ + t.tbl_name@)
            &&& keys.contains(Removed::V2.marker() + "_"@ + t.tbl_name@)
        }),
{
    let modes = mode_keys(t.tbl_name@);
    let keys = modes + task_keys(t.tbl_name@);
    reveal_strlit("cleanup_v1_tables");
    reveal_strlit("cleanup_v2_tables");
    reveal_strlit("cleanup_v1_tables_");
    reveal_strlit("cleanup_v2_tables_");
    reveal_strlit("_");
    assert("cleanup_v1_tables"@ + "_"@ =~= "cleanup_v1_tables_"@);
    assert("cleanup_v2_tables"@ + "_"@ =~= "cleanup_v2_tables_"@);
    assert(keys[0] == "use_rowid_"@ + t.tbl_name@);
    assert(keys[1] == "skip_hash_"@ + t.tbl_name@);
    assert(modes[2] == "v2_pks_"@ + t.tbl_name@);
    assert(keys[3] == Removed::V1.marker() + "_"@ + t.tbl_name@);
    assert(keys[4] == Removed::V2.marker() + "_"@ + t.tbl_name@);
    assert(keys[5] == c.total_key());
    assert(keys[6] == m.progress_key());
    assert(keys[7] == m.estimate_key());
}

/// The metadata of a table in the second format are dropped by the names by which a clean-up
/// removes them, with the shape of its primary key.
pub proof fn all_tables_are_dropped(t: TableInfo, u: Upkeep<'_>, i: int)
    requires
        u.in_range(),
        0 <= i < texts(u.v2@).len(),
    ensures
        drop_v2_sql(t.tbl_name@).len() == texts(u.v2@).len() + 1,
        drop_v2_sql(t.tbl_name@)[i] == plain(drop_table_sql(t.tbl_name@, texts(u.v2@)[i])),
        drop_v2_sql(t.tbl_name@).last().binds == seq![keep_signature_sql(t).binds[0]],
{
    assert(drop_v2_sql(t.tbl_name@).last().binds =~= seq![keep_signature_sql(t).binds[0]]);
}

} // verus!
