//! Making a table a replicated one.

use crate::config::{
    bool_of, bool_text, low32, low_32, writes_format, METADATA_VERSION_V2, METADATA_VERSION_V2_AND_V1,
    METADATA_WRITE_VERSION_DEFAULT,
};
use crate::consts::MAX_ROWID_KEY;
use crate::tableinfo::{Observed, TableInfo};
use crate::text::{decimal, decimal_of};
use crate::util::{escape_ident, escape_ident_as_value, escaped, escaped_value};
use vstd::prelude::*;
use vstd::string::*;

verus! {

/// Looks whether a table has no rowid: 1 where it has none.
pub const WITHOUT_ROWID_SQL: &'static str = "SELECT wr FROM pragma_table_list WHERE name = ?";

/// Why a table without an integer primary key cannot use its rowid.
pub open spec fn no_integer_pk_error(table: Seq<char>) -> Seq<char> {
    "use_rowid=1 is only allowed on INTEGER PRIMARY KEY tables. Table '"@ + table + "' does not have an INTEGER PRIMARY KEY — its implicit rowid is unstable under VACUUM and cannot be used as a persistent key."@
}

/// Why a table without an integer primary key cannot use its rowid.
fn no_integer_pk_text(table: &str) -> (r: String)
    ensures
        r@ == no_integer_pk_error(table@),
{
    "use_rowid=1 is only allowed on INTEGER PRIMARY KEY tables. Table '".to_owned()
        .concat(table)
        .concat("' does not have an INTEGER PRIMARY KEY — its implicit rowid is unstable under VACUUM and cannot be used as a persistent key.")
}

/// Why a table without a rowid cannot use it.
pub open spec fn without_rowid_error(table: Seq<char>) -> Seq<char> {
    "use_rowid=1 is not allowed on WITHOUT ROWID tables. Table '"@ + table + "' is WITHOUT ROWID — it has no stable rowid to use as a key."@
}

/// Why a table without a rowid cannot use it.
fn without_rowid_text(table: &str) -> (r: String)
    ensures
        r@ == without_rowid_error(table@),
{
    "use_rowid=1 is not allowed on WITHOUT ROWID tables. Table '".to_owned()
        .concat(table)
        .concat("' is WITHOUT ROWID — it has no stable rowid to use as a key.")
}

/// Why a primary key of several columns has to be hashed.
pub open spec fn skip_hash_error(table: Seq<char>, n: int) -> Seq<char> {
    "skip_hash is only supported on tables with a single primary key column. Table '"@ + table + "' has "@ + decimal_of(n) + " primary key columns."@
}

/// Why a primary key of several columns has to be hashed.
fn skip_hash_text(table: &str, n: i64) -> (r: String)
    ensures
        r@ == skip_hash_error(table@, n as int),
{
    "skip_hash is only supported on tables with a single primary key column. Table '".to_owned()
        .concat(table)
        .concat("' has ")
        .concat(decimal(n).as_str())
        .concat(" primary key columns.")
}

/// The query for the highest and the lowest rowid.
pub open spec fn rowid_range_sql(table: Seq<char>, rowid_alias: Seq<char>) -> Seq<char> {
    "SELECT max(\""@ + escaped(rowid_alias) + "\"), min(\""@ + escaped(rowid_alias) + "\") FROM \""@ + escaped(table) + "\""@
}

/// The query for the highest and the lowest rowid.
pub fn rowid_range_text(table: &str, rowid_alias: &str) -> (r: String)
    ensures
        r@ == rowid_range_sql(table@, rowid_alias@),
{
    "SELECT max(\"".to_owned()
        .concat(escape_ident(rowid_alias).as_str())
        .concat("\"), min(\"")
        .concat(escape_ident(rowid_alias).as_str())
        .concat("\") FROM \"")
        .concat(escape_ident(table).as_str())
        .concat("\"")
}

/// Why a table with rowids out of range cannot use them.
pub open spec fn rowid_range_error(table: Seq<char>, max_rowid: i64, min_rowid: i64) -> Seq<char> {
    "Table "@ + table + " has rowids outside the safe range [0, 2251799813685248). Found range ["@ + decimal_of(min_rowid as int) + ", "@ + decimal_of(max_rowid as int) + "]. cell_key = (rowid << 12) | col_id must fit in a signed INT64. Pass 'use_rowid=0' via schema directive or use a non-rowid key strategy."@
}

/// Why a table with rowids out of range cannot use them.
fn rowid_range_message(table: &str, max_rowid: i64, min_rowid: i64) -> (r: String)
    ensures
        r@ == rowid_range_error(table@, max_rowid, min_rowid),
{
    "Table ".to_owned()
        .concat(table)
        .concat(" has rowids outside the safe range [0, 2251799813685248). Found range [")
        .concat(decimal(min_rowid).as_str())
        .concat(", ")
        .concat(decimal(max_rowid).as_str())
        .concat("]. cell_key = (rowid << 12) | col_id must fit in a signed INT64. Pass 'use_rowid=0' via schema directive or use a non-rowid key strategy.")
}

/// The query whether a table has triggers of this extension: it gives a row where it has.
pub open spec fn has_triggers_sql(table: Seq<char>) -> Seq<char> {
    "SELECT 1 FROM sqlite_master WHERE type='trigger' AND tbl_name='"@ + escaped_value(table) + "' AND name LIKE '%crsql%'"@
}

/// The query whether a table has triggers of this extension: it gives a row where it has.
pub fn has_triggers_text(table: &str) -> (r: String)
    ensures
        r@ == has_triggers_sql(table@),
{
    "SELECT 1 FROM sqlite_master WHERE type='trigger' AND tbl_name='".to_owned()
        .concat(escape_ident_as_value(table).as_str())
        .concat("' AND name LIKE '%crsql%'")
}

/// What is said where the metadata cannot be created.
pub open spec fn create_failed(table: Seq<char>, key_is_rowid: bool, skip_hash: bool, rc: Seq<char>) -> Seq<char> {
    "create_v2_tables failed for "@ + table + " (key_is_rowid="@ + bool_of(key_is_rowid) + ", skip_hash="@ + bool_of(skip_hash) + "): "@ + rc
}

/// What is said where the metadata cannot be created.
pub fn create_v2_tables_failed(table: &str, key_is_rowid: bool, skip_hash: bool, rc: &str) -> (r: String)
    ensures
        r@ == create_failed(table@, key_is_rowid, skip_hash, rc@),
{
    "create_v2_tables failed for ".to_owned()
        .concat(table)
        .concat(" (key_is_rowid=")
        .concat(bool_text(key_is_rowid))
        .concat(", skip_hash=")
        .concat(bool_text(skip_hash))
        .concat("): ")
        .concat(rc)
}

/// What is said where the metadata cannot be filled.
pub open spec fn backfill_failed(table: Seq<char>, key_is_rowid: bool, skip_hash: bool, rc: Seq<char>) -> Seq<char> {
    "backfill_table_v2 failed for "@ + table + " (key_is_rowid="@ + bool_of(key_is_rowid) + ", skip_hash="@ + bool_of(skip_hash) + "): "@ + rc
}

/// What is said where the metadata cannot be filled.
pub fn backfill_table_v2_failed(table: &str, key_is_rowid: bool, skip_hash: bool, rc: &str) -> (r: String)
    ensures
        r@ == backfill_failed(table@, key_is_rowid, skip_hash, rc@),
{
    "backfill_table_v2 failed for ".to_owned()
        .concat(table)
        .concat(" (key_is_rowid=")
        .concat(bool_text(key_is_rowid))
        .concat(", skip_hash=")
        .concat(bool_text(skip_hash))
        .concat("): ")
        .concat(rc)
}

/// What is said where the triggers cannot be created.
pub open spec fn triggers_failed(table: Seq<char>, rc: Seq<char>) -> Seq<char> {
    "create_triggers failed for "@ + table + ": "@ + rc
}

/// What is said where the triggers cannot be created.
pub fn create_triggers_failed(table: &str, rc: &str) -> (r: String)
    ensures
        r@ == triggers_failed(table@, rc@),
{
    "create_triggers failed for ".to_owned()
        .concat(table)
        .concat(": ")
        .concat(rc)
}

/// What to do about metadata that are left from an earlier table of the same name.
#[derive(Clone, Copy, PartialEq, Eq, Structural, Debug)]
pub enum StaleStep {
    Keep,
    /// Clear the settings of the table.
    ClearFlags,
    /// Drop the metadata, and clear the settings of the table.
    DropAndClear,
}

/// What to do about metadata that are left from an earlier table of the same name:
/// metadata without triggers are such, except while a table is altered, when its
/// triggers are gone for a while.
pub open spec fn stale_step(is_commit_alter: bool, has_v2: bool, has_triggers: bool) -> StaleStep {
    if is_commit_alter || (has_v2 && has_triggers) {
        StaleStep::Keep
    } else if has_v2 {
        StaleStep::DropAndClear
    } else {
        StaleStep::ClearFlags
    }
}

/// While a table is altered nothing that is known of it is lost. Else metadata are dropped exactly
/// where there are some and nothing writes them, and the settings of an earlier table are kept
/// exactly where its metadata are.
pub proof fn live_metadata_are_kept(is_commit_alter: bool, has_v2: bool, has_triggers: bool)
    ensures
        is_commit_alter ==> stale_step(is_commit_alter, has_v2, has_triggers) == StaleStep::Keep,
        !is_commit_alter ==> (stale_step(is_commit_alter, has_v2, has_triggers) == StaleStep::DropAndClear <==> has_v2
            && !has_triggers),
        !is_commit_alter ==> (stale_step(is_commit_alter, has_v2, has_triggers) == StaleStep::Keep <==> has_v2
            && has_triggers),
        !is_commit_alter ==> (stale_step(is_commit_alter, has_v2, has_triggers) == StaleStep::ClearFlags <==> !has_v2),
{
}

/// What to do about metadata that are left from an earlier table of the same name.
pub fn stale_metadata(is_commit_alter: bool, has_v2: bool, has_triggers: bool) -> (r: StaleStep)
    ensures
        r == stale_step(is_commit_alter, has_v2, has_triggers),
{
    if is_commit_alter {
        StaleStep::Keep
    } else if !has_v2 {
        StaleStep::ClearFlags
    } else if !has_triggers {
        StaleStep::DropAndClear
    } else {
        StaleStep::Keep
    }
}

/// The way in which the key of a row is chosen: what was asked for comes before what the
/// table's definition says.
pub open spec fn use_rowid_resolved(asked: Option<bool>, directive: Option<bool>) -> Option<bool> {
    match asked {
        Some(_) => asked,
        None => directive,
    }
}

/// What is kept of the way in which the key of a row is chosen.
pub open spec fn rowid_flag(use_rowid: Option<bool>) -> Option<i64> {
    match use_rowid {
        Some(on) => Some(if on { 1i64 } else { 0i64 }),
        None => None,
    }
}

/// How a table is made a replicated one.
#[derive(Clone, Copy, PartialEq, Eq, Structural, Debug)]
pub struct CrrPlan {
    /// Keep this for `use_rowid`.
    pub use_rowid: Option<i64>,
    /// Keep this for `skip_hash`.
    pub skip_hash: Option<i64>,
    /// Look at the range of the rowids first.
    pub check_rowids: bool,
    /// Create metadata in the second format.
    pub create_v2: bool,
    /// Create metadata in the first format.
    pub create_v1: bool,
    /// Fill metadata in the first format.
    pub backfill_v1: bool,
    /// Fill metadata in the second format.
    pub backfill_v2: bool,
}

/// Why a table is not made a replicated one.
pub struct CrrRefusal {
    pub message: String,
    /// Keep this for `use_rowid` all the same.
    pub use_rowid: Option<i64>,
}

/// Why a table cannot be made a replicated one in the way that was asked for.
pub open spec fn crr_error(
    t: TableInfo,
    is_without_rowid: bool,
    use_rowid: Option<bool>,
    skip_hash_flag: bool,
) -> Option<Seq<char>> {
    if use_rowid == Some(true) && !t.has_integer_pk {
        Some(no_integer_pk_error(t.tbl_name@))
    } else if use_rowid == Some(true) && is_without_rowid {
        Some(without_rowid_error(t.tbl_name@))
    } else if skip_hash_flag && !t.skip_hash && t.pks@.len() != 1 {
        Some(skip_hash_error(t.tbl_name@, t.pks@.len() as int))
    } else {
        None
    }
}

/// What is kept for `use_rowid` though a table is not made a replicated one: nothing where it was
/// refused for that.
pub open spec fn kept_after_refusal(t: TableInfo, is_without_rowid: bool, use_rowid: Option<bool>) -> Option<i64> {
    if use_rowid == Some(true) && (!t.has_integer_pk || is_without_rowid) {
        None
    } else {
        rowid_flag(use_rowid)
    }
}

/// Whether the key of a row is its rowid: as was asked for, or else as it was.
pub open spec fn rowid_is_key(t: TableInfo, use_rowid: Option<bool>) -> bool {
    match use_rowid {
        Some(on) => on,
        None => t.key_is_rowid,
    }
}

/// How a table is made a replicated one.
pub open spec fn crr_plan(
    t: TableInfo,
    use_rowid: Option<bool>,
    skip_hash_flag: bool,
    skip_hash_directive: Option<bool>,
    write_version: i32,
) -> CrrPlan {
    CrrPlan {
        use_rowid: rowid_flag(use_rowid),
        skip_hash: if skip_hash_directive is Some || skip_hash_flag {
            Some(if t.skip_hash || skip_hash_flag { 1i64 } else { 0i64 })
        } else {
            None
        },
        check_rowids: rowid_is_key(t, use_rowid),
        create_v2: write_version >= 2,
        create_v1: write_version != 3,
        backfill_v1: write_version <= 2,
        backfill_v2: write_version >= 2,
    }
}

/// A table is refused exactly where its rows cannot be known as was asked for: by their rowids
/// without an integer primary key or without rowids, or without hashes by more than one column.
/// What was asked for at the call goes before the table's definition. Of a refused `use_rowid`
/// nothing is kept.
pub proof fn tables_are_refused_for_these_reasons(
    t: TableInfo,
    is_without_rowid: bool,
    asked: Option<bool>,
    directive: Option<bool>,
    skip_hash_flag: bool,
)
    ensures
        ({
            let resolved = use_rowid_resolved(asked, directive);
            let by_rowid = asked == Some(true) || (asked is None && directive == Some(true));
            &&& resolved == Some(true) <==> by_rowid
            &&& resolved is None <==> asked is None && directive is None
            &&& crr_error(t, is_without_rowid, resolved, skip_hash_flag) is None <==> {
                &&& by_rowid ==> t.has_integer_pk && !is_without_rowid
                &&& skip_hash_flag ==> t.skip_hash || t.pks@.len() == 1
            }
            &&& by_rowid && (is_without_rowid || !t.has_integer_pk) ==> kept_after_refusal(t, is_without_rowid, resolved) is None
            &&& !by_rowid && resolved is Some ==> kept_after_refusal(t, is_without_rowid, resolved) == Some(0i64)
        }),
{
}

/// Metadata are created and filled exactly in the formats that are written. The range of the rowids
/// is looked at exactly where they are the keys. What is kept of the ways in which rows are known
/// is what they are, so that it is found again without metadata.
pub proof fn plans_fit_what_is_written(
    t: TableInfo,
    use_rowid: Option<bool>,
    skip_hash_flag: bool,
    skip_hash_directive: Option<bool>,
    write_version: i32,
)
    requires
        1 <= write_version <= 3,
    ensures
        ({
            let plan = crr_plan(t, use_rowid, skip_hash_flag, skip_hash_directive, write_version);
            &&& plan.create_v1 <==> writes_format(write_version as int, 1)
            &&& plan.backfill_v1 <==> writes_format(write_version as int, 1)
            &&& plan.create_v2 <==> writes_format(write_version as int, 2)
            &&& plan.backfill_v2 <==> writes_format(write_version as int, 2)
            &&& use_rowid == Some(true) ==> plan.use_rowid == Some(1i64) && plan.check_rowids
            &&& use_rowid == Some(false) ==> plan.use_rowid == Some(0i64) && !plan.check_rowids
            &&& use_rowid is None ==> plan.use_rowid is None && plan.check_rowids == t.key_is_rowid
            &&& skip_hash_flag ==> plan.skip_hash == Some(1i64)
            &&& !skip_hash_flag && skip_hash_directive is None ==> plan.skip_hash is None
            &&& !skip_hash_flag && skip_hash_directive is Some ==> plan.skip_hash == Some(
                if t.skip_hash {
                    1i64
                } else {
                    0i64
                },
            )
        }),
{
}

/// What is kept for `use_rowid` is what decides when the table is looked at again, whatever its
/// definition says.
pub proof fn kept_flags_decide(t: TableInfo, use_rowid: bool, seen: Observed)
    requires
        seen.persisted_use_rowid matches Some(v) && rowid_flag(Some(use_rowid)) == Some(v as i64),
    ensures
        seen.use_rowid() == use_rowid,
        seen.use_rowid() == rowid_is_key(t, Some(use_rowid)),
{
}

/// How a table is made a replicated one, and what is known of it from then on: whether
/// its rows are known by their rowids, and whether by hashes. `use_rowid` and
/// `skip_hash_flag` are what was asked for; the directives are what the table's
/// definition says; `write_version` says which metadata are written.
pub fn create_crr_inner(
    t: &mut TableInfo,
    is_without_rowid: bool,
    use_rowid: Option<bool>,
    use_rowid_directive: Option<bool>,
    skip_hash_flag: bool,
    skip_hash_directive: Option<bool>,
    write_version: i32,
) -> (r: Result<CrrPlan, CrrRefusal>)
    requires
        old(t).pks@.len() <= i64::MAX,
    ensures
        ({
            let resolved = use_rowid_resolved(use_rowid, use_rowid_directive);
            match crr_error(*old(t), is_without_rowid, resolved, skip_hash_flag) {
                Some(why) => {
                    &&& r matches Err(no)
                    &&& no.message@ == why
                    &&& no.use_rowid == kept_after_refusal(*old(t), is_without_rowid, resolved)
                },
                None => {
                    &&& r matches Ok(plan)
                    &&& final(t).key_is_rowid == rowid_is_key(*old(t), resolved)
                    &&& final(t).skip_hash == (old(t).skip_hash || skip_hash_flag)
                    &&& final(t).skip_hash_pk_col@ == (if skip_hash_flag && !old(t).skip_hash {
                        escaped(old(t).pks@[0].name@)
                    } else {
                        old(t).skip_hash_pk_col@
                    })
                    &&& *final(t) == (TableInfo {
                        key_is_rowid: final(t).key_is_rowid,
                        skip_hash: final(t).skip_hash,
                        skip_hash_pk_col: final(t).skip_hash_pk_col,
                        ..*old(t)
                    })
                    &&& plan == crr_plan(*old(t), resolved, skip_hash_flag, skip_hash_directive, write_version)
                },
            }
        }),
{
    let resolved: Option<bool> = match use_rowid {
        Some(on) => Some(on),
        None => use_rowid_directive,
    };
    let keep_use_rowid: Option<i64> = match resolved {
        Some(true) => {
            if !t.has_integer_pk {
                return Err(
                    CrrRefusal { message: no_integer_pk_text(t.tbl_name.as_str()), use_rowid: None },
                );
            }
            if is_without_rowid {
                return Err(
                    CrrRefusal { message: without_rowid_text(t.tbl_name.as_str()), use_rowid: None },
                );
            }
            t.key_is_rowid = true;
            Some(1)
        },
        Some(false) => {
            t.key_is_rowid = false;
            Some(0)
        },
        None => None,
    };
    if skip_hash_flag && !t.skip_hash {
        if t.pks.len() == 1 {
            t.skip_hash = true;
            t.skip_hash_pk_col = escape_ident(t.pks[0].name.as_str());
        } else {
            return Err(
                CrrRefusal {
                    message: skip_hash_text(t.tbl_name.as_str(), t.pks.len() as i64),
                    use_rowid: keep_use_rowid,
                },
            );
        }
    }
    let keep_skip_hash: Option<i64> = if skip_hash_directive.is_some() || skip_hash_flag {
        if t.skip_hash {
            Some(1)
        } else {
            Some(0)
        }
    } else {
        None
    };
    Ok(
        CrrPlan {
            use_rowid: keep_use_rowid,
            skip_hash: keep_skip_hash,
            check_rowids: t.key_is_rowid,
            create_v2: write_version >= METADATA_VERSION_V2_AND_V1,
            create_v1: write_version != METADATA_VERSION_V2,
            backfill_v1: write_version <= METADATA_VERSION_V2_AND_V1,
            backfill_v2: write_version >= METADATA_VERSION_V2_AND_V1,
        },
    )
}

/// A step on the way to a replicated table.
#[derive(Clone, Copy, PartialEq, Eq, Structural, Debug)]
pub enum CrrStep {
    /// Keep this for `use_rowid`.
    KeepUseRowid(i64),
    /// Keep this for `skip_hash`.
    KeepSkipHash(i64),
    /// Look at the range of the rowids, as [`validate_rowid_range`] says.
    CheckRowids,
    /// Create metadata in the second format.
    CreateV2,
    /// Create metadata in the first format.
    CreateV1,
    /// Drop the triggers that are there.
    RemoveTriggers,
    CreateTriggers,
    /// Fill metadata in the first format.
    BackfillV1,
    /// Fill metadata in the second format.
    BackfillV2,
}

/// `steps`, and then `step` where `on` holds.
pub open spec fn then_if(steps: Seq<CrrStep>, on: bool, step: CrrStep) -> Seq<CrrStep> {
    if on {
        steps.push(step)
    } else {
        steps
    }
}

/// What is kept of the way in which rows are known, as steps.
pub open spec fn kept_steps(plan: CrrPlan) -> Seq<CrrStep> {
    let first = match plan.use_rowid {
        Some(v) => seq![].push(CrrStep::KeepUseRowid(v)),
        None => seq![],
    };
    match plan.skip_hash {
        Some(v) => first.push(CrrStep::KeepSkipHash(v)),
        None => first,
    }
}

/// The steps of a plan up to the creation of metadata.
pub open spec fn created_steps(plan: CrrPlan) -> Seq<CrrStep> {
    let checked = then_if(kept_steps(plan), plan.check_rowids, CrrStep::CheckRowids);
    then_if(then_if(checked, plan.create_v2, CrrStep::CreateV2), plan.create_v1, CrrStep::CreateV1)
}

/// The steps of a plan, in their order.
pub open spec fn steps_of(plan: CrrPlan) -> Seq<CrrStep> {
    let ready = created_steps(plan).push(CrrStep::RemoveTriggers).push(CrrStep::CreateTriggers);
    then_if(then_if(ready, plan.backfill_v1, CrrStep::BackfillV1), plan.backfill_v2, CrrStep::BackfillV2)
}

fn push_if(steps: &mut Vec<CrrStep>, on: bool, step: CrrStep)
    ensures
        final(steps)@ == then_if(old(steps)@, on, step),
{
    if on {
        steps.push(step);
    }
}

/// The steps of a plan, to be taken in their order; the first one that fails is the last.
pub fn crr_steps(plan: CrrPlan) -> (r: Vec<CrrStep>)
    ensures
        r@ == steps_of(plan),
{
    let mut steps: Vec<CrrStep> = Vec::new();
    assert(steps@ =~= seq![]);
    match plan.use_rowid {
        Some(v) => steps.push(CrrStep::KeepUseRowid(v)),
        None => {},
    }
    match plan.skip_hash {
        Some(v) => steps.push(CrrStep::KeepSkipHash(v)),
        None => {},
    }
    assert(steps@ == kept_steps(plan));
    push_if(&mut steps, plan.check_rowids, CrrStep::CheckRowids);
    push_if(&mut steps, plan.create_v2, CrrStep::CreateV2);
    push_if(&mut steps, plan.create_v1, CrrStep::CreateV1);
    steps.push(CrrStep::RemoveTriggers);
    steps.push(CrrStep::CreateTriggers);
    push_if(&mut steps, plan.backfill_v1, CrrStep::BackfillV1);
    push_if(&mut steps, plan.backfill_v2, CrrStep::BackfillV2);
    steps
}

/// The place of a step among all steps.
pub open spec fn rank(step: CrrStep) -> int {
    match step {
        CrrStep::KeepUseRowid(_) => 0,
        CrrStep::KeepSkipHash(_) => 1,
        CrrStep::CheckRowids => 2,
        CrrStep::CreateV2 => 3,
        CrrStep::CreateV1 => 4,
        CrrStep::RemoveTriggers => 5,
        CrrStep::CreateTriggers => 6,
        CrrStep::BackfillV1 => 7,
        CrrStep::BackfillV2 => 8,
    }
}

/// Whether steps are in their places, all before `end`.
pub open spec fn in_order(steps: Seq<CrrStep>, end: int) -> bool {
    &&& forall|i: int, j: int| 0 <= i < j < steps.len() ==> rank(#[trigger] steps[i]) < rank(#[trigger] steps[j])
    &&& forall|i: int| 0 <= i < steps.len() ==> rank(#[trigger] steps[i]) < end
}

proof fn lemma_then_if(steps: Seq<CrrStep>, on: bool, step: CrrStep)
    requires
        in_order(steps, rank(step)),
    ensures
        in_order(then_if(steps, on, step), rank(step) + 1),
        on ==> then_if(steps, on, step).last() == step,
        steps.len() <= then_if(steps, on, step).len(),
        forall|i: int| 0 <= i < steps.len() ==> then_if(steps, on, step)[i] == steps[i],
{
}

/// A table whose rowids are out of range is not left half a replicated one: where they are looked
/// at, that is before anything is created. Metadata are created before the triggers that write
/// them, and rows get theirs last. No step is taken twice.
pub proof fn steps_are_in_order(plan: CrrPlan)
    ensures
        in_order(steps_of(plan), 9),
        plan.check_rowids <==> steps_of(plan).contains(CrrStep::CheckRowids),
{
    let kept = kept_steps(plan);
    let checked = then_if(kept, plan.check_rowids, CrrStep::CheckRowids);
    lemma_then_if(kept, plan.check_rowids, CrrStep::CheckRowids);
    let v2 = then_if(checked, plan.create_v2, CrrStep::CreateV2);
    lemma_then_if(checked, plan.create_v2, CrrStep::CreateV2);
    let v1 = then_if(v2, plan.create_v1, CrrStep::CreateV1);
    lemma_then_if(v2, plan.create_v1, CrrStep::CreateV1);
    lemma_then_if(v1, true, CrrStep::RemoveTriggers);
    let removed = v1.push(CrrStep::RemoveTriggers);
    lemma_then_if(removed, true, CrrStep::CreateTriggers);
    let ready = removed.push(CrrStep::CreateTriggers);
    let filled = then_if(ready, plan.backfill_v1, CrrStep::BackfillV1);
    lemma_then_if(ready, plan.backfill_v1, CrrStep::BackfillV1);
    lemma_then_if(filled, plan.backfill_v2, CrrStep::BackfillV2);
    let all = steps_of(plan);
    let n = kept.len() as int;
    if plan.check_rowids {
        assert(checked[n] == CrrStep::CheckRowids);
        assert(all[n] == CrrStep::CheckRowids);
    } else if all.contains(CrrStep::CheckRowids) {
        let k = choose|k: int| 0 <= k < all.len() && all[k] == CrrStep::CheckRowids;
        assert(forall|i: int| 0 <= i < n ==> rank(#[trigger] kept[i]) < 2);
        assert(forall|i: int| n <= i < all.len() ==> rank(#[trigger] all[i]) > 2);
        assert(k < n ==> all[k] == kept[k]);
    }
}

/// Whether all rowids of a table can be packed with the ids of columns.
pub open spec fn rowids_fit(max_rowid: i64, min_rowid: i64) -> bool {
    max_rowid < MAX_ROWID_KEY && min_rowid >= 0
}

/// Whether all rowids of a table can be packed with the ids of columns; the message where
/// they cannot. A table without rows has 0 for both.
pub fn validate_rowid_range(table: &str, max_rowid: i64, min_rowid: i64) -> (r: Result<(), String>)
    ensures
        if rowids_fit(max_rowid, min_rowid) {
            r is Ok
        } else {
            r matches Err(msg) && msg@ == rowid_range_error(table@, max_rowid, min_rowid)
        },
{
    if max_rowid >= MAX_ROWID_KEY || min_rowid < 0 {
        return Err(rowid_range_message(table, max_rowid, min_rowid));
    }
    Ok(())
}

/// A table whose rowids are in range has cells for all its rows and columns: the number of a
/// cell gives back its row and its column.
pub proof fn rowids_in_range_pack(max_rowid: i64, min_rowid: i64, rowid: i64, col_id: i64)
    requires
        rowids_fit(max_rowid, min_rowid),
        min_rowid <= rowid <= max_rowid,
        0 <= col_id <= crate::consts::CRSQL_COL_ID_MASK,
    ensures
        crate::cell::cell_of(rowid, col_id) >= 0,
        crate::cell::cell_of(rowid, col_id) >> 12u32 == rowid,
        crate::cell::cell_of(rowid, col_id) & crate::consts::CRSQL_COL_ID_MASK == col_id,
{
    crate::cell::cell_key_round_trip(rowid, col_id);
}

/// Which metadata are written, from what is kept of it: the default where nothing is.
pub fn get_metadata_write_version(kept: Option<i64>) -> (r: i32)
    ensures
        r == match kept {
            Some(v) => low32(v as int),
            None => METADATA_WRITE_VERSION_DEFAULT as int,
        },
{
    match kept {
        Some(v) => low_32(v),
        None => METADATA_WRITE_VERSION_DEFAULT,
    }
}

/// Whether a table goes on to be made a replicated one, with the outcome of the checks on
/// it: it does where it passes.
pub fn create_crr(compatible: bool, is_crr: bool) -> (r: Result<bool, crate::result_code::ResultCode>)
    ensures
        r == (if !compatible {
            Err::<bool, crate::result_code::ResultCode>(crate::result_code::ResultCode::ERROR)
        } else {
            Ok(!is_crr)
        }),
{
    if !compatible {
        return Err(crate::result_code::ResultCode::ERROR);
    }
    Ok(!is_crr)
}

/// A table is accepted exactly where each of its rows is accepted when it is written, for a table
/// whose keys are rowids.
pub proof fn tables_are_accepted_as_rows_are(t: TableInfo, max_rowid: i64, min_rowid: i64)
    requires
        t.key_is_rowid,
        min_rowid <= max_rowid,
    ensures
        rowids_fit(max_rowid, min_rowid) <==> forall|rowid: i64|
            min_rowid <= rowid <= max_rowid ==> (#[trigger] crate::local_writes::after_insert::rowid_error(
                t,
                Some(rowid),
            )) is None,
{
    if !rowids_fit(max_rowid, min_rowid) {
        assert(crate::local_writes::after_insert::rowid_error(t, Some(max_rowid)) is Some
            || crate::local_writes::after_insert::rowid_error(t, Some(min_rowid)) is Some);
    }
}

/// A table that is made a replicated one keys its rows by their rowids only where it has an integer
/// primary key, and goes without hashes only where its primary key is a single column.
pub proof fn accepted_key_modes_are_safe(
    t: TableInfo,
    is_without_rowid: bool,
    use_rowid: Option<bool>,
    skip_hash_flag: bool,
)
    requires
        t.key_is_rowid ==> t.has_integer_pk,
        t.skip_hash ==> t.pks@.len() == 1,
        crr_error(t, is_without_rowid, use_rowid, skip_hash_flag) is None,
    ensures
        rowid_is_key(t, use_rowid) ==> t.has_integer_pk,
        use_rowid == Some(true) ==> !is_without_rowid,
        t.skip_hash || skip_hash_flag ==> t.pks@.len() == 1,
{
}

proof fn lemma_has_step(steps: Seq<CrrStep>, on: bool, step: CrrStep, x: CrrStep)
    ensures
        then_if(steps, on, step).contains(x) <==> steps.contains(x) || (on && x == step),
        steps.push(step).contains(x) <==> steps.contains(x) || x == step,
{
    let all = steps.push(step);
    if steps.contains(x) {
        let k = choose|k: int| 0 <= k < steps.len() && steps[k] == x;
        assert(all[k] == x);
    }
    assert(all[steps.len() as int] == step);
    if all.contains(x) {
        let k = choose|k: int| 0 <= k < all.len() && all[k] == x;
        if k < steps.len() {
            assert(steps[k] == x);
        }
    }
}

/// The steps are those of the plan, all of them: what is to be kept is kept, what is to be created
/// and filled is, in each format, and the triggers are always dropped and created.
pub proof fn plans_are_carried_out(plan: CrrPlan, x: CrrStep)
    ensures
        steps_of(plan).contains(x) <==> match x {
            CrrStep::KeepUseRowid(v) => plan.use_rowid == Some(v),
            CrrStep::KeepSkipHash(v) => plan.skip_hash == Some(v),
            CrrStep::CheckRowids => plan.check_rowids,
            CrrStep::CreateV2 => plan.create_v2,
            CrrStep::CreateV1 => plan.create_v1,
            CrrStep::RemoveTriggers => true,
            CrrStep::CreateTriggers => true,
            CrrStep::BackfillV1 => plan.backfill_v1,
            CrrStep::BackfillV2 => plan.backfill_v2,
        },
{
    let none = Seq::<CrrStep>::empty();
    let first = match plan.use_rowid {
        Some(v) => none.push(CrrStep::KeepUseRowid(v)),
        None => none,
    };
    if let Some(v) = plan.use_rowid {
        lemma_has_step(none, true, CrrStep::KeepUseRowid(v), x);
    }
    if let Some(v) = plan.skip_hash {
        lemma_has_step(first, true, CrrStep::KeepSkipHash(v), x);
    }
    let kept = kept_steps(plan);
    let checked = then_if(kept, plan.check_rowids, CrrStep::CheckRowids);
    let v2 = then_if(checked, plan.create_v2, CrrStep::CreateV2);
    let v1 = then_if(v2, plan.create_v1, CrrStep::CreateV1);
    let removed = v1.push(CrrStep::RemoveTriggers);
    let ready = removed.push(CrrStep::CreateTriggers);
    let filled = then_if(ready, plan.backfill_v1, CrrStep::BackfillV1);
    lemma_has_step(kept, plan.check_rowids, CrrStep::CheckRowids, x);
    lemma_has_step(checked, plan.create_v2, CrrStep::CreateV2, x);
    lemma_has_step(v2, plan.create_v1, CrrStep::CreateV1, x);
    lemma_has_step(v1, true, CrrStep::RemoveTriggers, x);
    lemma_has_step(removed, true, CrrStep::CreateTriggers, x);
    lemma_has_step(ready, plan.backfill_v1, CrrStep::BackfillV1, x);
    lemma_has_step(filled, plan.backfill_v2, CrrStep::BackfillV2, x);
}

} // verus!
