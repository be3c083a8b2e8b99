//! The query behind the changes table.

use crate::changes_vtab::{
    has_magic, plan_bytes, plan_readable, plan_round_trip, query_column, read_constraints, read_idx_plan, read_order_by, searchable, source_of,
    supported_op, ChangeRowType, CrsqlChangesColumn, PlanConstraint,
};
use crate::consts::{META_USE_V1, META_USE_V2, SYNC_LOG_V2};
use crate::result_code::ResultCode;
use crate::tableinfo::{names, ColumnInfo, SchemaVersion, TableInfo};
use crate::text::{decimal, decimal_of, join, joined, push_part, texts};
use crate::util::{
    as_identifier_list, escape_ident, escape_ident_as_value, escaped, escaped_value, identifier_text,
};
use vstd::prelude::*;
use vstd::string::*;

verus! {

// ---------------------------------------------------------------------------
// Conditions
// ---------------------------------------------------------------------------
/// An operator by its number.
pub open spec fn op_text(op_id: u8) -> Option<Seq<char>> {
    if op_id == 2 {
        Some("="@)
    } else if op_id == 4 {
        Some(">"@)
    } else if op_id == 8 {
        Some("<="@)
    } else if op_id == 16 {
        Some("<"@)
    } else if op_id == 32 {
        Some(">="@)
    } else if op_id == 64 {
        Some("MATCH"@)
    } else if op_id == 65 {
        Some("LIKE"@)
    } else if op_id == 66 {
        Some("GLOB"@)
    } else if op_id == 67 {
        Some("REGEXP"@)
    } else if op_id == 68 {
        Some("!="@)
    } else if op_id == 69 {
        Some("IS NOT"@)
    } else if op_id == 70 {
        Some("IS NOT NULL"@)
    } else if op_id == 71 {
        Some("IS NULL"@)
    } else if op_id == 72 {
        Some("IS"@)
    } else {
        None
    }
}

/// Whether two texts are the same, or neither is there.
pub open spec fn is_text(r: Option<&'static str>, text: Option<Seq<char>>) -> bool {
    match r {
        Some(s) => text == Some(s@),
        None => text is None,
    }
}

/// An operator by its number, `None` for a number that is none.
pub fn op_id_to_str(op_id: u8) -> (r: Option<&'static str>)
    ensures
        is_text(r, op_text(op_id)),
{
    match op_id {
        2 => Some("="),
        4 => Some(">"),
        8 => Some("<="),
        16 => Some("<"),
        32 => Some(">="),
        64 => Some("MATCH"),
        65 => Some("LIKE"),
        66 => Some("GLOB"),
        67 => Some("REGEXP"),
        68 => Some("!="),
        69 => Some("IS NOT"),
        70 => Some("IS NOT NULL"),
        71 => Some("IS NULL"),
        72 => Some("IS"),
        _ => None,
    }
}

/// Whether an operator matches patterns.
pub open spec fn is_pattern(op_id: u8) -> bool {
    64 <= op_id <= 67
}

/// Whether an operator matches patterns.
pub fn is_pattern_op_id(op_id: u8) -> (r: bool)
    ensures
        r == is_pattern(op_id),
{
    op_id == 64 || op_id == 65 || op_id == 66 || op_id == 67
}

/// The name of a column in the query; the packed primary key and the value are not
/// searched for.
pub open spec fn col_name(col: CrsqlChangesColumn) -> Option<Seq<char>> {
    match col {
        CrsqlChangesColumn::Tbl => Some("tbl"@),
        CrsqlChangesColumn::Cid => Some("cid"@),
        CrsqlChangesColumn::ColVrsn => Some("col_vrsn"@),
        CrsqlChangesColumn::DbVrsn => Some("db_vrsn"@),
        CrsqlChangesColumn::SiteId => Some("site_id"@),
        CrsqlChangesColumn::Cl => Some("cl"@),
        CrsqlChangesColumn::SeqNo => Some("seq"@),
        CrsqlChangesColumn::Ts => Some("ts"@),
        CrsqlChangesColumn::Pk => None,
        CrsqlChangesColumn::Cval => None,
    }
}

/// The name of a column in the query, `None` for one that is not searched for.
pub fn col_to_name(col: CrsqlChangesColumn) -> (r: Option<&'static str>)
    ensures
        is_text(r, col_name(col)),
{
    match col {
        CrsqlChangesColumn::Tbl => Some("tbl"),
        CrsqlChangesColumn::Cid => Some("cid"),
        CrsqlChangesColumn::ColVrsn => Some("col_vrsn"),
        CrsqlChangesColumn::DbVrsn => Some("db_vrsn"),
        CrsqlChangesColumn::SiteId => Some("site_id"),
        CrsqlChangesColumn::Cl => Some("cl"),
        CrsqlChangesColumn::SeqNo => Some("seq"),
        CrsqlChangesColumn::Ts => Some("ts"),
        CrsqlChangesColumn::Pk => None,
        CrsqlChangesColumn::Cval => None,
    }
}

/// A condition of the query.
pub open spec fn constraint_sql(c: PlanConstraint) -> Option<Seq<char>> {
    match (col_name(c.col), op_text(c.op_id)) {
        (Some(col), Some(op)) => if c.param_idx == 0 {
            Some(col + " "@ + op)
        } else {
            Some(col + " "@ + op + " ?"@ + decimal_of(c.param_idx as int))
        },
        _ => None,
    }
}

/// A condition of the query, `None` for one on a column that is not searched for or with
/// an operator that is none.
pub fn constraint_to_sql(c: &PlanConstraint) -> (r: Option<String>)
    ensures
        match constraint_sql(*c) {
            Some(sql) => r matches Some(s) && s@ == sql,
            None => r is None,
        },
{
    let col = match col_to_name(c.col) {
        Some(s) => s,
        None => return None,
    };
    let op = match op_id_to_str(c.op_id) {
        Some(s) => s,
        None => return None,
    };
    if c.param_idx == 0 {
        Some(col.to_owned().concat(" ").concat(op))
    } else {
        Some(
            col.to_owned().concat(" ").concat(op).concat(" ?").concat(
                decimal(c.param_idx as i64).as_str(),
            ),
        )
    }
}

/// The conditions of the query, those that there are.
pub open spec fn clauses(s: Seq<PlanConstraint>) -> Seq<Seq<char>>
    decreases s.len(),
{
    if s.len() == 0 {
        seq![]
    } else {
        match constraint_sql(s.last()) {
            Some(sql) => clauses(s.drop_last()).push(sql),
            None => clauses(s.drop_last()),
        }
    }
}

fn clause_list(s: &[PlanConstraint]) -> (r: Vec<String>)
    ensures
        texts(r@) == clauses(s@),
{
    let mut r: Vec<String> = Vec::new();
    let mut i: usize = 0;
    assert(s@.take(0) =~= seq![]);
    assert(texts(r@) =~= seq![]);
    while i < s.len()
        invariant
            i <= s@.len(),
            texts(r@) == clauses(s@.take(i as int)),
        decreases s@.len() - i,
    {
        assert(s@.take(i + 1).drop_last() =~= s@.take(i as int));
        match constraint_to_sql(&s[i]) {
            Some(sql) => push_part(&mut r, sql),
            None => {},
        }
        i = i + 1;
    }
    assert(s@.take(i as int) =~= s@);
    r
}

/// A condition that is put into the parts of the query, where rows are not packed yet.
pub struct PushedConstraint {
    pub col: CrsqlChangesColumn,
    pub op: String,
    pub param_index: i32,
}

/// A condition that is put into the parts of the query.
pub struct Pushed {
    pub col: CrsqlChangesColumn,
    pub op: Seq<char>,
    pub param_index: int,
}

impl View for PushedConstraint {
    type V = Pushed;

    open spec fn view(&self) -> Pushed {
        Pushed { col: self.col, op: self.op@, param_index: self.param_index as int }
    }
}

/// What conditions are.
pub open spec fn pushed_views(s: Seq<PushedConstraint>) -> Seq<Pushed> {
    s.map_values(|c: PushedConstraint| c@)
}

/// Where a column comes from in a part of the query: the part on clocks, or that on
/// tombstones. The name of the column, its version and the table depend on the part.
pub open spec fn pushed_ref(col: CrsqlChangesColumn, clock: bool) -> Option<Seq<char>> {
    match col {
        CrsqlChangesColumn::SeqNo => Some(if clock { "c.seq"@ } else { "t.seq"@ }),
        CrsqlChangesColumn::DbVrsn => Some(if clock { "c.db_version"@ } else { "t.db_version"@ }),
        CrsqlChangesColumn::SiteId => Some("site_tbl.site_id"@),
        CrsqlChangesColumn::Ts => Some(if clock { "c.ts"@ } else { "t.ts"@ }),
        CrsqlChangesColumn::Cl => Some(if clock { "pk_tbl.cl"@ } else { "t.cl"@ }),
        _ => None,
    }
}

/// Where a column comes from in a part of the query, `None` for one that depends on the
/// part.
pub fn pushed_col_ref(col: CrsqlChangesColumn, clock: bool) -> (r: Option<&'static str>)
    ensures
        is_text(r, pushed_ref(col, clock)),
{
    match col {
        CrsqlChangesColumn::SeqNo => if clock {
            Some("c.seq")
        } else {
            Some("t.seq")
        },
        CrsqlChangesColumn::DbVrsn => if clock {
            Some("c.db_version")
        } else {
            Some("t.db_version")
        },
        CrsqlChangesColumn::SiteId => Some("site_tbl.site_id"),
        CrsqlChangesColumn::Ts => if clock {
            Some("c.ts")
        } else {
            Some("t.ts")
        },
        CrsqlChangesColumn::Cl => if clock {
            Some("pk_tbl.cl")
        } else {
            Some("t.cl")
        },
        _ => None,
    }
}

/// What stands for the columns that depend on the part of the query.
pub struct ArmExprs {
    pub cid: Option<Seq<char>>,
    pub col_vrsn: Option<Seq<char>>,
    pub tbl: Option<Seq<char>>,
}

/// Where a column comes from in a part of the query.
pub open spec fn arm_ref(col: CrsqlChangesColumn, clock: bool, arm: ArmExprs) -> Option<Seq<char>> {
    match col {
        CrsqlChangesColumn::Cid => arm.cid,
        CrsqlChangesColumn::ColVrsn => arm.col_vrsn,
        CrsqlChangesColumn::Tbl => arm.tbl,
        _ => pushed_ref(col, clock),
    }
}

/// The conditions of a part of the query; those on columns that it does not have are
/// left out.
pub open spec fn pushed_clauses(s: Seq<Pushed>, clock: bool, arm: ArmExprs) -> Seq<Seq<char>>
    decreases s.len(),
{
    if s.len() == 0 {
        seq![]
    } else {
        let front = pushed_clauses(s.drop_last(), clock, arm);
        match arm_ref(s.last().col, clock, arm) {
            Some(col) => front.push(col + " "@ + s.last().op + " ?"@ + decimal_of(s.last().param_index)),
            None => front,
        }
    }
}

/// The condition of a part of the query.
pub open spec fn pushed_where(s: Seq<Pushed>, clock: bool, arm: ArmExprs) -> Seq<char> {
    joined(pushed_clauses(s, clock, arm), " AND "@)
}

/// The text of an expression, where there is one.
pub open spec fn expr(e: Option<&str>) -> Option<Seq<char>> {
    match e {
        Some(s) => Some(s@),
        None => None,
    }
}

/// The condition of a part of the query.
pub fn build_pushed_where(
    constraints: &[PushedConstraint],
    clock: bool,
    cid_expr: Option<&str>,
    col_vrsn_expr: Option<&str>,
    tbl_expr: Option<&str>,
) -> (r: String)
    ensures
        r@ == pushed_where(
            pushed_views(constraints@),
            clock,
            (ArmExprs { cid: expr(cid_expr), col_vrsn: expr(col_vrsn_expr), tbl: expr(tbl_expr) }),
        ),
{
    let ghost arm = ArmExprs { cid: expr(cid_expr), col_vrsn: expr(col_vrsn_expr), tbl: expr(tbl_expr) };
    let ghost all = pushed_views(constraints@);
    let mut parts: Vec<String> = Vec::new();
    let mut i: usize = 0;
    assert(all.take(0) =~= seq![]);
    assert(texts(parts@) =~= seq![]);
    while i < constraints.len()
        invariant
            i <= constraints@.len(),
            all == pushed_views(constraints@),
            arm == (ArmExprs { cid: expr(cid_expr), col_vrsn: expr(col_vrsn_expr), tbl: expr(tbl_expr) }),
            texts(parts@) == pushed_clauses(all.take(i as int), clock, arm),
        decreases constraints@.len() - i,
    {
        let c = &constraints[i];
        proof {
            assert(all.take(i + 1).drop_last() =~= all.take(i as int));
            assert(all.take(i + 1).last() == c@);
        }
        let col: Option<&str> = match c.col {
            CrsqlChangesColumn::Cid => cid_expr,
            CrsqlChangesColumn::ColVrsn => col_vrsn_expr,
            CrsqlChangesColumn::Tbl => tbl_expr,
            other => pushed_col_ref(other, clock),
        };
        match col {
            Some(s) => {
                push_part(
                    &mut parts,
                    s.to_owned().concat(" ").concat(c.op.as_str()).concat(" ?").concat(
                        decimal(c.param_index as i64).as_str(),
                    ),
                );
            },
            None => {},
        }
        i = i + 1;
    }
    assert(all.take(i as int) =~= all);
    join(parts.as_slice(), " AND ")
}

/// Whether a condition is put into the parts of the query: it takes a parameter, and is
/// on a column that can be searched for.
pub open spec fn is_pushed(c: PlanConstraint) -> bool {
    c.param_idx != 0 && c.col != CrsqlChangesColumn::Pk && c.col != CrsqlChangesColumn::Cval
}

/// The conditions that are put into the parts of the query.
pub open spec fn pushed_of(s: Seq<PlanConstraint>) -> Seq<Pushed>
    decreases s.len(),
{
    if s.len() == 0 {
        seq![]
    } else {
        let front = pushed_of(s.drop_last());
        match op_text(s.last().op_id) {
            Some(op) => if is_pushed(s.last()) {
                front.push(Pushed { col: s.last().col, op, param_index: s.last().param_idx as int })
            } else {
                front
            },
            None => front,
        }
    }
}

/// The conditions that stay outside the parts of the query.
pub open spec fn outer_of(s: Seq<PlanConstraint>) -> Seq<PlanConstraint>
    decreases s.len(),
{
    if s.len() == 0 {
        seq![]
    } else if is_pushed(s.last()) {
        outer_of(s.drop_last())
    } else {
        outer_of(s.drop_last()).push(s.last())
    }
}

fn split_constraints(s: &[PlanConstraint]) -> (r: (Vec<PushedConstraint>, Vec<PlanConstraint>))
    ensures
        pushed_views(r.0@) == pushed_of(s@),
        r.1@ == outer_of(s@),
{
    let mut pushed: Vec<PushedConstraint> = Vec::new();
    let mut outer: Vec<PlanConstraint> = Vec::new();
    let mut i: usize = 0;
    assert(s@.take(0) =~= seq![]);
    assert(pushed_views(pushed@) =~= seq![]);
    while i < s.len()
        invariant
            i <= s@.len(),
            pushed_views(pushed@) == pushed_of(s@.take(i as int)),
            outer@ == outer_of(s@.take(i as int)),
        decreases s@.len() - i,
    {
        assert(s@.take(i + 1).drop_last() =~= s@.take(i as int));
        let c = s[i];
        let searched: bool = !matches!(c.col, CrsqlChangesColumn::Pk) && !matches!(
            c.col,
            CrsqlChangesColumn::Cval
        );
        if c.param_idx != 0 && searched {
            match op_id_to_str(c.op_id) {
                Some(op) => {
                    let ghost before = pushed@;
                    let p = PushedConstraint { col: c.col, op: op.to_owned(), param_index: c.param_idx as i32 };
                    let ghost seen = p@;
                    pushed.push(p);
                    assert(pushed_views(pushed@) =~= pushed_views(before).push(seen));
                },
                None => {},
            }
        } else {
            outer.push(c);
        }
        i = i + 1;
    }
    assert(s@.take(i as int) =~= s@);
    (pushed, outer)
}

// ---------------------------------------------------------------------------
// The end of the query
// ---------------------------------------------------------------------------
/// The conditions of the whole query.
pub open spec fn outer_where(s: Seq<PlanConstraint>) -> Seq<char> {
    if clauses(s).len() == 0 {
        seq![]
    } else {
        "WHERE "@ + joined(clauses(s), " AND "@)
    }
}

fn outer_where_text(s: &[PlanConstraint]) -> (r: String)
    ensures
        r@ == outer_where(s@),
{
    let parts = clause_list(s);
    assert(texts(parts@).len() == parts@.len());
    if parts.len() == 0 {
        String::new()
    } else {
        "WHERE ".to_owned().concat(join(parts.as_slice(), " AND ").as_str())
    }
}

/// The direction of an order.
pub open spec fn direction(desc: bool) -> Seq<char> {
    if desc {
        " DESC"@
    } else {
        " ASC"@
    }
}

fn direction_text(desc: bool) -> (r: &'static str)
    ensures
        r@ == direction(desc),
{
    if desc {
        " DESC"
    } else {
        " ASC"
    }
}

/// The columns by which packed rows are ordered: their positions are packed, so that
/// another column stands for them.
pub open spec fn packed_order(s: Seq<CrsqlChangesColumn>, desc: bool) -> Seq<Seq<char>> {
    s.map_values(
        |c: CrsqlChangesColumn|
            (if c == CrsqlChangesColumn::SeqNo {
                "_seq_order"@
            } else {
                match col_name(c) {
                    Some(name) => name,
                    None => "db_vrsn"@,
                }
            }) + direction(desc),
    )
}

/// The columns by which rows are ordered.
pub open spec fn plain_order(s: Seq<CrsqlChangesColumn>, desc: bool) -> Seq<Seq<char>>
    decreases s.len(),
{
    if s.len() == 0 {
        seq![]
    } else {
        match col_name(s.last()) {
            Some(name) => plain_order(s.drop_last(), desc).push(name + direction(desc)),
            None => plain_order(s.drop_last(), desc),
        }
    }
}

/// The end of the query on packed rows.
pub open spec fn packed_end(
    others: Seq<PlanConstraint>,
    order_by: Seq<CrsqlChangesColumn>,
    desc: bool,
    has_order_by: bool,
) -> Seq<char> {
    if has_order_by && order_by.len() > 0 {
        outer_where(others) + " ORDER BY "@ + joined(packed_order(order_by, desc), ", "@)
    } else {
        outer_where(others) + " ORDER BY db_vrsn ASC, _seq_order ASC"@
    }
}

/// The end of the query on rows that are not packed.
pub open spec fn plain_end(
    all: Seq<PlanConstraint>,
    order_by: Seq<CrsqlChangesColumn>,
    desc: bool,
    has_order_by: bool,
) -> Seq<char> {
    if has_order_by && order_by.len() > 0 {
        outer_where(all) + " ORDER BY "@ + joined(plain_order(order_by, desc), ", "@)
    } else {
        outer_where(all) + " ORDER BY db_vrsn ASC, seq ASC"@
    }
}

/// The end of the query on packed rows: the conditions that stay outside its parts, and
/// the order.
pub fn rebuild_outer_idx_str(
    other_clauses: &[PlanConstraint],
    order_by_cols: &[CrsqlChangesColumn],
    order_by_desc: bool,
    has_order_by: bool,
) -> (r: String)
    ensures
        r@ == packed_end(other_clauses@, order_by_cols@, order_by_desc, has_order_by),
{
    let conditions = outer_where_text(other_clauses);
    if !has_order_by || order_by_cols.len() == 0 {
        return conditions.concat(" ORDER BY db_vrsn ASC, _seq_order ASC");
    }
    let mut parts: Vec<String> = Vec::new();
    let mut i: usize = 0;
    while i < order_by_cols.len()
        invariant
            i <= order_by_cols@.len(),
            texts(parts@) =~= packed_order(order_by_cols@, order_by_desc).take(i as int),
        decreases order_by_cols@.len() - i,
    {
        let c = order_by_cols[i];
        let name = if matches!(c, CrsqlChangesColumn::SeqNo) {
            "_seq_order"
        } else {
            match col_to_name(c) {
                Some(name) => name,
                None => "db_vrsn",
            }
        };
        push_part(&mut parts, name.to_owned().concat(direction_text(order_by_desc)));
        i = i + 1;
    }
    assert(texts(parts@) =~= packed_order(order_by_cols@, order_by_desc));
    conditions.concat(" ORDER BY ").concat(join(parts.as_slice(), ", ").as_str())
}

fn plain_end_text(
    all: &[PlanConstraint],
    order_by_cols: &[CrsqlChangesColumn],
    order_by_desc: bool,
    has_order_by: bool,
) -> (r: String)
    ensures
        r@ == plain_end(all@, order_by_cols@, order_by_desc, has_order_by),
{
    let conditions = outer_where_text(all);
    if !has_order_by || order_by_cols.len() == 0 {
        return conditions.concat(" ORDER BY db_vrsn ASC, seq ASC");
    }
    let mut parts: Vec<String> = Vec::new();
    let mut i: usize = 0;
    assert(order_by_cols@.take(0) =~= seq![]);
    assert(texts(parts@) =~= seq![]);
    while i < order_by_cols.len()
        invariant
            i <= order_by_cols@.len(),
            texts(parts@) == plain_order(order_by_cols@.take(i as int), order_by_desc),
        decreases order_by_cols@.len() - i,
    {
        assert(order_by_cols@.take(i + 1).drop_last() =~= order_by_cols@.take(i as int));
        match col_to_name(order_by_cols[i]) {
            Some(name) => push_part(&mut parts, name.to_owned().concat(direction_text(order_by_desc))),
            None => {},
        }
        i = i + 1;
    }
    assert(order_by_cols@.take(i as int) =~= order_by_cols@);
    conditions.concat(" ORDER BY ").concat(join(parts.as_slice(), ", ").as_str())
}

// ---------------------------------------------------------------------------
// The parts of the query
// ---------------------------------------------------------------------------
/// Each name twice: `before`, the name, `between`, the name, `after`.
pub open spec fn ident_pair_list(
    names: Seq<Seq<char>>,
    before: Seq<char>,
    between: Seq<char>,
    after: Seq<char>,
    sep: Seq<char>,
) -> Seq<char> {
    joined(
        names.map_values(|n: Seq<char>| before + escaped(n) + between + escaped(n) + after),
        sep,
    )
}

/// Each column's name twice, as in [`ident_pair_list`].
pub fn column_pair_list(columns: &[ColumnInfo], before: &str, between: &str, after: &str, sep: &str) -> (r: String)
    ensures
        r@ == ident_pair_list(names(columns@), before@, between@, after@, sep@),
{
    let mut parts: Vec<String> = Vec::new();
    let mut i: usize = 0;
    let ghost all = names(columns@).map_values(
        |n: Seq<char>| before@ + escaped(n) + between@ + escaped(n) + after@,
    );
    while i < columns.len()
        invariant
            i <= columns@.len(),
            all == names(columns@).map_values(
                |n: Seq<char>| before@ + escaped(n) + between@ + escaped(n) + after@,
            ),
            texts(parts@) =~= all.take(i as int),
        decreases columns@.len() - i,
    {
        let name = escape_ident(columns[i].name.as_str());
        push_part(
            &mut parts,
            before.to_owned().concat(name.as_str()).concat(between).concat(name.as_str()).concat(after),
        );
        i = i + 1;
    }
    assert(texts(parts@) =~= all);
    join(parts.as_slice(), sep)
}

/// The column that stands for the position of a packed row, where it is needed.
pub open spec fn seq_order(needed: bool, column: Seq<char>) -> Seq<char> {
    if needed {
        column
    } else {
        ""@
    }
}

fn seq_order_text<'a>(needed: bool, column: &'a str) -> (r: &'a str)
    ensures
        r@ == seq_order(needed, column@),
{
    if needed {
        column
    } else {
        ""
    }
}

/// A condition behind `word`, where there is one.
pub open spec fn where_part(word: Seq<char>, condition: Seq<char>) -> Seq<char> {
    if condition.len() == 0 {
        seq![]
    } else {
        word + condition
    }
}

fn where_part_text(word: &str, condition: &str) -> (r: String)
    ensures
        r@ == where_part(word@, condition@),
{
    if condition.is_empty() {
        String::new()
    } else {
        word.to_owned().concat(condition)
    }
}

/// The primary key of a row that lives: from the table where the key is the rowid, else from
/// the live keys.
pub open spec fn pk_expr(t: TableInfo) -> Seq<char> {
    if t.key_is_rowid {
        identifier_text(t.pk_names(), "mt."@)
    } else {
        identifier_text(t.pk_names(), "pk_tbl."@)
    }
}

/// The primary key of a row that lives: from the table where the key is the rowid, else from
/// the live keys.
fn pk_expr_text(t: &TableInfo) -> (r: String)
    ensures
        r@ == pk_expr(*t),
{
    if t.key_is_rowid {
        as_identifier_list(t.pks.as_slice(), Some("mt."))
    } else {
        as_identifier_list(t.pks.as_slice(), Some("pk_tbl."))
    }
}

/// The join of the live keys with the table.
pub open spec fn main_join(t: TableInfo) -> Seq<char> {
    if t.key_is_rowid {
        "JOIN \""@ + t.table() + "\" AS mt ON mt.\""@ + escaped(t.rowid_alias@) + "\" = pk_tbl.__crsql_key"@
    } else {
        "JOIN \""@ + t.table() + "\" AS mt ON "@ + ident_pair_list(t.pk_names(), "mt.\""@, "\" = pk_tbl.\""@, "\""@, " AND "@)
    }
}

/// The join of the live keys with the table.
fn main_join_text(t: &TableInfo) -> (r: String)
    ensures
        r@ == main_join(*t),
{
    if t.key_is_rowid {
        "JOIN \"".to_owned()
            .concat(escape_ident(t.tbl_name.as_str()).as_str())
            .concat("\" AS mt ON mt.\"")
            .concat(escape_ident(t.rowid_alias.as_str()).as_str())
            .concat("\" = pk_tbl.__crsql_key")
    } else {
        "JOIN \"".to_owned()
            .concat(escape_ident(t.tbl_name.as_str()).as_str())
            .concat("\" AS mt ON ")
            .concat(column_pair_list(t.pks.as_slice(), "mt.\"", "\" = pk_tbl.\"", "\"", " AND ").as_str())
    }
}

/// The primary key of a row that lives, and the join of the live keys with the table.
pub fn build_pk_expr_and_join(t: &TableInfo) -> (r: (String, String))
    ensures
        r.0@ == pk_expr(*t),
        r.1@ == main_join(*t),
{
    (pk_expr_text(t), main_join_text(t))
}

/// The value of a cell of the column `name`: the name is compared as a text, and read as an
/// identifier.
pub open spec fn col_val_when(name: Seq<char>) -> Seq<char> {
    "WHEN '"@ + escaped_value(name) + "' THEN mt.\""@ + escaped(name) + "\""@
}

/// The value of a cell, by the name of its column.
pub open spec fn col_val_case(t: TableInfo) -> Seq<char> {
    if t.non_pks@.len() == 0 {
        "NULL"@
    } else {
        "CASE cm.col_name "@ + joined(t.non_pk_names().map_values(|n: Seq<char>| col_val_when(n)), " "@) + " END"@
    }
}

fn col_val_whens(t: &TableInfo) -> (r: String)
    ensures
        r@ == joined(t.non_pk_names().map_values(|n: Seq<char>| col_val_when(n)), " "@),
{
    let mut parts: Vec<String> = Vec::new();
    let mut i: usize = 0;
    let ghost all = t.non_pk_names().map_values(|n: Seq<char>| col_val_when(n));
    while i < t.non_pks.len()
        invariant
            i <= t.non_pks@.len(),
            all == t.non_pk_names().map_values(|n: Seq<char>| col_val_when(n)),
            texts(parts@) =~= all.take(i as int),
        decreases t.non_pks@.len() - i,
    {
        let name = t.non_pks[i].name.as_str();
        push_part(
            &mut parts,
            "WHEN '".to_owned()
                .concat(escape_ident_as_value(name).as_str())
                .concat("' THEN mt.\"")
                .concat(escape_ident(name).as_str())
                .concat("\""),
        );
        i = i + 1;
    }
    assert(texts(parts@) =~= all);
    join(parts.as_slice(), " ")
}

/// The value of a cell, by the name of its column.
pub fn build_col_val_case(t: &TableInfo) -> (r: String)
    ensures
        r@ == col_val_case(*t),
{
    if t.non_pks.len() == 0 {
        "NULL".to_owned()
    } else {
        "CASE cm.col_name ".to_owned()
            .concat(col_val_whens(t).as_str())
            .concat(" END")
    }
}

/// The tombstones of a table whose rows are known by their primary keys.
pub open spec fn skip_hash_tombstones(t: TableInfo, col_vrsn: Seq<char>, pushed_where: Seq<char>, need_seq_order: bool) -> Seq<char> {
    "SELECT
          '"@ + escaped_value(t.tbl_name@) + "' as tbl,
          crsql_pack_columns(t.\""@ + t.skip_hash_pk_col@ + "\") as pks,
          '-1' as cid,
          "@ + col_vrsn + " as col_vrsn,
          t.db_version as db_vrsn,
          site_tbl.site_id as site_id,
          (1 << 62) | (t.site_id << 46) | (t.db_version << 22) | t.seq as key,
          t.seq as seq,
          t.cl as cl,
          t.ts as ts,
          NULL as cval"@ + seq_order(need_seq_order, ", t.seq as _seq_order"@) + "
        FROM \""@ + t.table() + "__crsql_v2_tombstones\" AS t
        LEFT JOIN crsql_site_id AS site_tbl ON t.site_id = site_tbl.ordinal"@ + where_part(" WHERE "@, pushed_where)
}

/// The tombstones of a table whose rows are known by their primary keys.
pub fn skip_hash_tombstone_query(t: &TableInfo, col_vrsn: &str, pushed_where: &str, need_seq_order: bool) -> (r: String)
    ensures
        r@ == skip_hash_tombstones(*t, col_vrsn@, pushed_where@, need_seq_order),
{
    "SELECT
          '".to_owned()
        .concat(escape_ident_as_value(t.tbl_name.as_str()).as_str())
        .concat("' as tbl,
          crsql_pack_columns(t.\"")
        .concat(t.skip_hash_pk_col.as_str())
        .concat("\") as pks,
          '-1' as cid,
          ")
        .concat(col_vrsn)
        .concat(" as col_vrsn,
          t.db_version as db_vrsn,
          site_tbl.site_id as site_id,
          (1 << 62) | (t.site_id << 46) | (t.db_version << 22) | t.seq as key,
          t.seq as seq,
          t.cl as cl,
          t.ts as ts,
          NULL as cval")
        .concat(seq_order_text(need_seq_order, ", t.seq as _seq_order"))
        .concat("
        FROM \"")
        .concat(escape_ident(t.tbl_name.as_str()).as_str())
        .concat("__crsql_v2_tombstones\" AS t
        LEFT JOIN crsql_site_id AS site_tbl ON t.site_id = site_tbl.ordinal")
        .concat(where_part_text(" WHERE ", pushed_where).as_str())
}

/// The tombstones of a table whose rows are known by hashes, with their primary keys.
pub open spec fn hash_tombstones(t: TableInfo, col_vrsn: Seq<char>, pushed_where: Seq<char>, need_seq_order: bool) -> Seq<char> {
    "SELECT
          '"@ + escaped_value(t.tbl_name@) + "' as tbl,
          crsql_pack_columns("@ + identifier_text(t.pk_names(), "tpk_tbl."@) + ") as pks,
          '-1' as cid,
          "@ + col_vrsn + " as col_vrsn,
          t.db_version as db_vrsn,
          site_tbl.site_id as site_id,
          (1 << 62) | (t.site_id << 46) | (t.db_version << 22) | t.seq as key,
          t.seq as seq,
          t.cl as cl,
          t.ts as ts,
          NULL as cval"@ + seq_order(need_seq_order, ", t.seq as _seq_order"@) + "
        FROM \""@ + t.table() + "__crsql_v2_tombstones\" AS t
        JOIN \""@ + t.table() + "__crsql_v2_tombstone_pks\" AS tpk_tbl ON t.hashed_pk = tpk_tbl.hashed_pk
        LEFT JOIN crsql_site_id AS site_tbl ON t.site_id = site_tbl.ordinal"@ + where_part(" WHERE "@, pushed_where)
}

/// The tombstones of a table whose rows are known by hashes, with their primary keys.
pub fn hash_tombstone_query(t: &TableInfo, col_vrsn: &str, pushed_where: &str, need_seq_order: bool) -> (r: String)
    ensures
        r@ == hash_tombstones(*t, col_vrsn@, pushed_where@, need_seq_order),
{
    "SELECT
          '".to_owned()
        .concat(escape_ident_as_value(t.tbl_name.as_str()).as_str())
        .concat("' as tbl,
          crsql_pack_columns(")
        .concat(as_identifier_list(t.pks.as_slice(), Some("tpk_tbl.")).as_str())
        .concat(") as pks,
          '-1' as cid,
          ")
        .concat(col_vrsn)
        .concat(" as col_vrsn,
          t.db_version as db_vrsn,
          site_tbl.site_id as site_id,
          (1 << 62) | (t.site_id << 46) | (t.db_version << 22) | t.seq as key,
          t.seq as seq,
          t.cl as cl,
          t.ts as ts,
          NULL as cval")
        .concat(seq_order_text(need_seq_order, ", t.seq as _seq_order"))
        .concat("
        FROM \"")
        .concat(escape_ident(t.tbl_name.as_str()).as_str())
        .concat("__crsql_v2_tombstones\" AS t
        JOIN \"")
        .concat(escape_ident(t.tbl_name.as_str()).as_str())
        .concat("__crsql_v2_tombstone_pks\" AS tpk_tbl ON t.hashed_pk = tpk_tbl.hashed_pk
        LEFT JOIN crsql_site_id AS site_tbl ON t.site_id = site_tbl.ordinal")
        .concat(where_part_text(" WHERE ", pushed_where).as_str())
}

/// The changes of a table, from metadata in the first format.
pub open spec fn v1_changes(t: TableInfo) -> Seq<char> {
    "SELECT
          '"@ + escaped_value(t.tbl_name@) + "' as tbl,
          crsql_pack_columns("@ + identifier_text(t.pk_names(), "pk_tbl."@) + ") as pks,
          t1.col_name as cid,
          t1.col_version as col_vrsn,
          t1.db_version as db_vrsn,
          site_tbl.site_id as site_id,
          t1.key,
          t1.seq as seq,
          COALESCE(t2.col_version, 1) as cl,
          t1.ts as ts
      FROM \""@ + t.table() + "__crsql_clock\" AS t1
      JOIN \""@ + t.table() + "__crsql_pks\" AS pk_tbl ON t1.key = pk_tbl.__crsql_key
      LEFT JOIN crsql_site_id AS site_tbl ON t1.site_id = site_tbl.ordinal
      LEFT JOIN \""@ + t.table() + "__crsql_clock\" AS t2 ON
      t1.key = t2.key AND t2.col_name = '-1'"@
}

/// The changes of a table, from metadata in the first format.
fn v1_changes_text(t: &TableInfo) -> (r: String)
    ensures
        r@ == v1_changes(*t),
{
    "SELECT
          '".to_owned()
        .concat(escape_ident_as_value(t.tbl_name.as_str()).as_str())
        .concat("' as tbl,
          crsql_pack_columns(")
        .concat(as_identifier_list(t.pks.as_slice(), Some("pk_tbl.")).as_str())
        .concat(") as pks,
          t1.col_name as cid,
          t1.col_version as col_vrsn,
          t1.db_version as db_vrsn,
          site_tbl.site_id as site_id,
          t1.key,
          t1.seq as seq,
          COALESCE(t2.col_version, 1) as cl,
          t1.ts as ts
      FROM \"")
        .concat(escape_ident(t.tbl_name.as_str()).as_str())
        .concat("__crsql_clock\" AS t1
      JOIN \"")
        .concat(escape_ident(t.tbl_name.as_str()).as_str())
        .concat("__crsql_pks\" AS pk_tbl ON t1.key = pk_tbl.__crsql_key
      LEFT JOIN crsql_site_id AS site_tbl ON t1.site_id = site_tbl.ordinal
      LEFT JOIN \"")
        .concat(escape_ident(t.tbl_name.as_str()).as_str())
        .concat("__crsql_clock\" AS t2 ON
      t1.key = t2.key AND t2.col_name = '-1'")
}

/// The cells of a table, from metadata in the second format.
pub open spec fn v2_cells(t: TableInfo) -> Seq<char> {
    "SELECT
          '"@ + escaped_value(t.tbl_name@) + "' as tbl,
          crsql_pack_columns("@ + pk_expr(t) + ") as pks,
          cm.col_name as cid,
          c.col_version as col_vrsn,
          c.db_version as db_vrsn,
          site_tbl.site_id as site_id,
          c.cell_key >> 12 as key,
          c.seq as seq,
          pk_tbl.cl as cl,
          c.ts as ts,
          "@ + col_val_case(t) + " as cval
        FROM \""@ + t.table() + "__crsql_v2_clock\" AS c
        JOIN \""@ + t.table() + "__crsql_v2_pks\" AS pk_tbl ON (c.cell_key >> 12) = pk_tbl.__crsql_key
        "@ + main_join(t) + "
        JOIN \""@ + t.table() + "__crsql_v2_col_map\" AS cm ON (c.cell_key & 4095) = cm.col_id
        LEFT JOIN crsql_site_id AS site_tbl ON c.site_id = site_tbl.ordinal"@
}

/// The cells of a table, from metadata in the second format.
fn v2_cells_text(t: &TableInfo) -> (r: String)
    ensures
        r@ == v2_cells(*t),
{
    "SELECT
          '".to_owned()
        .concat(escape_ident_as_value(t.tbl_name.as_str()).as_str())
        .concat("' as tbl,
          crsql_pack_columns(")
        .concat(pk_expr_text(t).as_str())
        .concat(") as pks,
          cm.col_name as cid,
          c.col_version as col_vrsn,
          c.db_version as db_vrsn,
          site_tbl.site_id as site_id,
          c.cell_key >> 12 as key,
          c.seq as seq,
          pk_tbl.cl as cl,
          c.ts as ts,
          ")
        .concat(build_col_val_case(t).as_str())
        .concat(" as cval
        FROM \"")
        .concat(escape_ident(t.tbl_name.as_str()).as_str())
        .concat("__crsql_v2_clock\" AS c
        JOIN \"")
        .concat(escape_ident(t.tbl_name.as_str()).as_str())
        .concat("__crsql_v2_pks\" AS pk_tbl ON (c.cell_key >> 12) = pk_tbl.__crsql_key
        ")
        .concat(main_join_text(t).as_str())
        .concat("
        JOIN \"")
        .concat(escape_ident(t.tbl_name.as_str()).as_str())
        .concat("__crsql_v2_col_map\" AS cm ON (c.cell_key & 4095) = cm.col_id
        LEFT JOIN crsql_site_id AS site_tbl ON c.site_id = site_tbl.ordinal")
}

/// The cells of a table, packed by rows and versions.
pub open spec fn packed_cells(t: TableInfo, pushed_where: Seq<char>, need_seq_order: bool) -> Seq<char> {
    "SELECT
          '"@ + escaped_value(t.tbl_name@) + "' as tbl,
          crsql_pack_columns("@ + pk_expr(t) + ") as pks,
          cast(group_concat(cm.col_name, char(0) ORDER BY cm.col_id) as blob) as cid,
          crsql_pack_varint_agg(c.col_version ORDER BY cm.col_id) as col_vrsn,
          c.db_version as db_vrsn,
          site_tbl.site_id as site_id,
          c.cell_key >> 12 as key,
          crsql_pack_varint_agg(c.seq ORDER BY cm.col_id) as seq,
          pk_tbl.cl as cl,
          c.ts as ts,
          crsql_pack_agg(("@ + col_val_case(t) + ") ORDER BY cm.col_id) as cval"@ + seq_order(need_seq_order, ", MIN(c.seq) as _seq_order"@) + "
        FROM \""@ + t.table() + "__crsql_v2_clock\" AS c
        JOIN \""@ + t.table() + "__crsql_v2_pks\" AS pk_tbl ON (c.cell_key >> 12) = pk_tbl.__crsql_key
        "@ + main_join(t) + "
        JOIN \""@ + t.table() + "__crsql_v2_col_map\" AS cm ON (c.cell_key & 4095) = cm.col_id
        LEFT JOIN crsql_site_id AS site_tbl ON c.site_id = site_tbl.ordinal
        "@ + where_part("WHERE "@, pushed_where) + "
        GROUP BY c.cell_key >> 12, c.db_version, site_tbl.site_id"@
}

/// The cells of a table, packed by rows and versions.
fn packed_cells_text(t: &TableInfo, pushed_where: &str, need_seq_order: bool) -> (r: String)
    ensures
        r@ == packed_cells(*t, pushed_where@, need_seq_order),
{
    "SELECT
          '".to_owned()
        .concat(escape_ident_as_value(t.tbl_name.as_str()).as_str())
        .concat("' as tbl,
          crsql_pack_columns(")
        .concat(pk_expr_text(t).as_str())
        .concat(") as pks,
          cast(group_concat(cm.col_name, char(0) ORDER BY cm.col_id) as blob) as cid,
          crsql_pack_varint_agg(c.col_version ORDER BY cm.col_id) as col_vrsn,
          c.db_version as db_vrsn,
          site_tbl.site_id as site_id,
          c.cell_key >> 12 as key,
          crsql_pack_varint_agg(c.seq ORDER BY cm.col_id) as seq,
          pk_tbl.cl as cl,
          c.ts as ts,
          crsql_pack_agg((")
        .concat(build_col_val_case(t).as_str())
        .concat(") ORDER BY cm.col_id) as cval")
        .concat(seq_order_text(need_seq_order, ", MIN(c.seq) as _seq_order"))
        .concat("
        FROM \"")
        .concat(escape_ident(t.tbl_name.as_str()).as_str())
        .concat("__crsql_v2_clock\" AS c
        JOIN \"")
        .concat(escape_ident(t.tbl_name.as_str()).as_str())
        .concat("__crsql_v2_pks\" AS pk_tbl ON (c.cell_key >> 12) = pk_tbl.__crsql_key
        ")
        .concat(main_join_text(t).as_str())
        .concat("
        JOIN \"")
        .concat(escape_ident(t.tbl_name.as_str()).as_str())
        .concat("__crsql_v2_col_map\" AS cm ON (c.cell_key & 4095) = cm.col_id
        LEFT JOIN crsql_site_id AS site_tbl ON c.site_id = site_tbl.ordinal
        ")
        .concat(where_part_text("WHERE ", pushed_where).as_str())
        .concat("
        GROUP BY c.cell_key >> 12, c.db_version, site_tbl.site_id")
}

/// The tombstones of a table whose rows are known by hashes, with the hashes.
pub open spec fn packed_tombstones(t: TableInfo, pushed_where: Seq<char>, need_seq_order: bool) -> Seq<char> {
    "SELECT
              '"@ + escaped_value(t.tbl_name@) + "' as tbl,
              t.hashed_pk as pks,
              '-2' as cid,
              NULL as col_vrsn,
              t.db_version as db_vrsn,
              site_tbl.site_id as site_id,
              (1 << 62) | (t.site_id << 46) | (t.db_version << 22) | t.seq as key,
              t.seq as seq,
              t.cl as cl,
              t.ts as ts,
              NULL as cval"@ + seq_order(need_seq_order, ", t.seq as _seq_order"@) + "
            FROM \""@ + t.table() + "__crsql_v2_tombstones\" AS t
            LEFT JOIN crsql_site_id AS site_tbl ON t.site_id = site_tbl.ordinal"@ + where_part(" WHERE "@, pushed_where)
}

/// The tombstones of a table whose rows are known by hashes, with the hashes.
fn packed_tombstones_text(t: &TableInfo, pushed_where: &str, need_seq_order: bool) -> (r: String)
    ensures
        r@ == packed_tombstones(*t, pushed_where@, need_seq_order),
{
    "SELECT
              '".to_owned()
        .concat(escape_ident_as_value(t.tbl_name.as_str()).as_str())
        .concat("' as tbl,
              t.hashed_pk as pks,
              '-2' as cid,
              NULL as col_vrsn,
              t.db_version as db_vrsn,
              site_tbl.site_id as site_id,
              (1 << 62) | (t.site_id << 46) | (t.db_version << 22) | t.seq as key,
              t.seq as seq,
              t.cl as cl,
              t.ts as ts,
              NULL as cval")
        .concat(seq_order_text(need_seq_order, ", t.seq as _seq_order"))
        .concat("
            FROM \"")
        .concat(escape_ident(t.tbl_name.as_str()).as_str())
        .concat("__crsql_v2_tombstones\" AS t
            LEFT JOIN crsql_site_id AS site_tbl ON t.site_id = site_tbl.ordinal")
        .concat(where_part_text(" WHERE ", pushed_where).as_str())
}

/// The rows of a table that has no columns outside its primary key.
pub open spec fn pkonly_rows(t: TableInfo, pushed_where: Seq<char>, need_seq_order: bool) -> Seq<char> {
    "SELECT
          '"@ + escaped_value(t.tbl_name@) + "' as tbl,
          crsql_pack_columns("@ + pk_expr(t) + ") as pks,
          '-1' as cid,
          c.col_version as col_vrsn,
          c.db_version as db_vrsn,
          site_tbl.site_id as site_id,
          c.cell_key >> 12 as key,
          c.seq as seq,
          pk_tbl.cl as cl,
          c.ts as ts,
          NULL as cval"@ + seq_order(need_seq_order, ", c.seq as _seq_order"@) + "
        FROM \""@ + t.table() + "__crsql_v2_clock\" AS c
        JOIN \""@ + t.table() + "__crsql_v2_pks\" AS pk_tbl ON (c.cell_key >> 12) = pk_tbl.__crsql_key
        "@ + main_join(t) + "
        LEFT JOIN crsql_site_id AS site_tbl ON c.site_id = site_tbl.ordinal"@ + where_part(" WHERE "@, pushed_where)
}

/// The rows of a table that has no columns outside its primary key.
fn pkonly_rows_text(t: &TableInfo, pushed_where: &str, need_seq_order: bool) -> (r: String)
    ensures
        r@ == pkonly_rows(*t, pushed_where@, need_seq_order),
{
    "SELECT
          '".to_owned()
        .concat(escape_ident_as_value(t.tbl_name.as_str()).as_str())
        .concat("' as tbl,
          crsql_pack_columns(")
        .concat(pk_expr_text(t).as_str())
        .concat(") as pks,
          '-1' as cid,
          c.col_version as col_vrsn,
          c.db_version as db_vrsn,
          site_tbl.site_id as site_id,
          c.cell_key >> 12 as key,
          c.seq as seq,
          pk_tbl.cl as cl,
          c.ts as ts,
          NULL as cval")
        .concat(seq_order_text(need_seq_order, ", c.seq as _seq_order"))
        .concat("
        FROM \"")
        .concat(escape_ident(t.tbl_name.as_str()).as_str())
        .concat("__crsql_v2_clock\" AS c
        JOIN \"")
        .concat(escape_ident(t.tbl_name.as_str()).as_str())
        .concat("__crsql_v2_pks\" AS pk_tbl ON (c.cell_key >> 12) = pk_tbl.__crsql_key
        ")
        .concat(main_join_text(t).as_str())
        .concat("
        LEFT JOIN crsql_site_id AS site_tbl ON c.site_id = site_tbl.ordinal")
        .concat(where_part_text(" WHERE ", pushed_where).as_str())
}

/// The changes of a table, from metadata in the first format. A table without a primary
/// key is an error.
pub fn crsql_changes_query_for_table(t: &TableInfo) -> (r: Result<String, ResultCode>)
    ensures
        if t.pks@.len() == 0 {
            r matches Err(e) && e == ResultCode::ABORT
        } else {
            r matches Ok(sql) && sql@ == v1_changes(*t)
        },
{
    if t.pks.len() == 0 {
        return Err(ResultCode::ABORT);
    }
    Ok(v1_changes_text(t))
}

/// The tombstones of a table, with primary keys.
pub open spec fn tombstones(t: TableInfo, pushed_where: Seq<char>, need_seq_order: bool) -> Seq<char> {
    if t.skip_hash {
        skip_hash_tombstones(t, "t.cl"@, pushed_where, need_seq_order)
    } else {
        hash_tombstones(t, "t.cl"@, pushed_where, need_seq_order)
    }
}

fn tombstones_text(t: &TableInfo, pushed_where: &str, need_seq_order: bool) -> (r: String)
    ensures
        r@ == tombstones(*t, pushed_where@, need_seq_order),
{
    if t.skip_hash {
        skip_hash_tombstone_query(t, "t.cl", pushed_where, need_seq_order)
    } else {
        hash_tombstone_query(t, "t.cl", pushed_where, need_seq_order)
    }
}

/// The changes of a table, from metadata in the second format, one to a cell.
pub open spec fn v1wire(t: TableInfo) -> Seq<char> {
    v2_cells(t) + " UNION ALL "@ + tombstones(t, ""@, false)
}

/// The changes of a table, from metadata in the second format, one to a cell. A table
/// without a primary key is an error.
pub fn crsql_changes_query_for_table_v2_v1wire(t: &TableInfo) -> (r: Result<String, ResultCode>)
    ensures
        if t.pks@.len() == 0 {
            r matches Err(e) && e == ResultCode::ABORT
        } else {
            r matches Ok(sql) && sql@ == v1wire(*t)
        },
{
    if t.pks.len() == 0 {
        return Err(ResultCode::ABORT);
    }
    Ok(v2_cells_text(t).concat(" UNION ALL ").concat(tombstones_text(t, "", false).as_str()))
}

/// The name of a table as a literal.
pub open spec fn tbl_literal(t: TableInfo) -> Seq<char> {
    "'"@ + escaped_value(t.tbl_name@) + "'"@
}

fn tbl_literal_text(t: &TableInfo) -> (r: String)
    ensures
        r@ == tbl_literal(*t),
{
    "'".to_owned().concat(escape_ident_as_value(t.tbl_name.as_str()).as_str()).concat("'")
}

/// The changes of a table, packed by rows and versions.
pub open spec fn v2wire(t: TableInfo, pushed: Seq<Pushed>, need_seq_order: bool) -> Seq<char> {
    let tbl = Some(tbl_literal(t));
    let in_cells = pushed_where(
        pushed,
        true,
        ArmExprs { cid: Some("cm.col_name"@), col_vrsn: Some("c.col_version"@), tbl },
    );
    let in_tombstones = pushed_where(
        pushed,
        false,
        ArmExprs {
            cid: Some(if t.skip_hash { "'-1'"@ } else { "'-2'"@ }),
            col_vrsn: Some("NULL"@),
            tbl,
        },
    );
    packed_cells(t, in_cells, need_seq_order) + " UNION ALL "@ + (if t.skip_hash {
        skip_hash_tombstones(t, "NULL"@, in_tombstones, need_seq_order)
    } else {
        packed_tombstones(t, in_tombstones, need_seq_order)
    })
}

/// The changes of a table, packed by rows and versions. A table without a primary key is
/// an error.
pub fn crsql_changes_query_for_table_v2_v2wire(
    t: &TableInfo,
    pushed: &[PushedConstraint],
    need_seq_order: bool,
) -> (r: Result<String, ResultCode>)
    ensures
        if t.pks@.len() == 0 {
            r matches Err(e) && e == ResultCode::ABORT
        } else {
            r matches Ok(sql) && sql@ == v2wire(*t, pushed_views(pushed@), need_seq_order)
        },
{
    if t.pks.len() == 0 {
        return Err(ResultCode::ABORT);
    }
    let tbl = tbl_literal_text(t);
    let in_cells = build_pushed_where(
        pushed,
        true,
        Some("cm.col_name"),
        Some("c.col_version"),
        Some(tbl.as_str()),
    );
    let tomb_cid = if t.skip_hash {
        "'-1'"
    } else {
        "'-2'"
    };
    let in_tombstones = build_pushed_where(pushed, false, Some(tomb_cid), Some("NULL"), Some(tbl.as_str()));
    let rows = if t.skip_hash {
        skip_hash_tombstone_query(t, "NULL", in_tombstones.as_str(), need_seq_order)
    } else {
        packed_tombstones_text(t, in_tombstones.as_str(), need_seq_order)
    };
    Ok(
        packed_cells_text(t, in_cells.as_str(), need_seq_order).concat(" UNION ALL ").concat(
            rows.as_str(),
        ),
    )
}

/// The changes of a table that has no columns outside its primary key.
pub open spec fn pkonly(t: TableInfo, pushed: Seq<Pushed>, need_seq_order: bool) -> Seq<char> {
    let tbl = Some(tbl_literal(t));
    let in_rows = pushed_where(
        pushed,
        true,
        ArmExprs { cid: Some("'-1'"@), col_vrsn: Some("c.col_version"@), tbl },
    );
    let in_tombstones = pushed_where(
        pushed,
        false,
        ArmExprs { cid: Some("'-1'"@), col_vrsn: Some("t.cl"@), tbl },
    );
    pkonly_rows(t, in_rows, need_seq_order) + " UNION ALL "@ + tombstones(t, in_tombstones, need_seq_order)
}

/// The changes of a table that has no columns outside its primary key. A table without a
/// primary key is an error.
pub fn crsql_changes_query_for_table_v2_pkonly(
    t: &TableInfo,
    pushed: &[PushedConstraint],
    need_seq_order: bool,
) -> (r: Result<String, ResultCode>)
    ensures
        if t.pks@.len() == 0 {
            r matches Err(e) && e == ResultCode::ABORT
        } else {
            r matches Ok(sql) && sql@ == pkonly(*t, pushed_views(pushed@), need_seq_order)
        },
{
    if t.pks.len() == 0 {
        return Err(ResultCode::ABORT);
    }
    let tbl = tbl_literal_text(t);
    let in_rows = build_pushed_where(
        pushed,
        true,
        Some("'-1'"),
        Some("c.col_version"),
        Some(tbl.as_str()),
    );
    let in_tombstones = build_pushed_where(pushed, false, Some("'-1'"), Some("t.cl"), Some(tbl.as_str()));
    Ok(
        pkonly_rows_text(t, in_rows.as_str(), need_seq_order).concat(" UNION ALL ").concat(
            tombstones_text(t, in_tombstones.as_str(), need_seq_order).as_str(),
        ),
    )
}

/// The changes of a table: from metadata in the first format where they are read and
/// there, or where there are no others.
pub open spec fn table_query(
    t: TableInfo,
    metadata_use_version: i32,
    sync_log_version: i32,
    pushed: Seq<Pushed>,
    need_seq_order: bool,
) -> Seq<char> {
    if t.schema_version == SchemaVersion::V1 || (metadata_use_version == META_USE_V1 && t.schema_version
        == SchemaVersion::V2AndV1) {
        v1_changes(t)
    } else if t.non_pks@.len() == 0 {
        pkonly(t, pushed, need_seq_order)
    } else if sync_log_version == SYNC_LOG_V2 {
        v2wire(t, pushed, need_seq_order)
    } else {
        v1wire(t)
    }
}

/// The changes of a table. A table without a primary key is an error.
pub fn query_for_table(
    t: &TableInfo,
    metadata_use_version: i32,
    sync_log_version: i32,
    pushed: &[PushedConstraint],
    need_seq_order: bool,
) -> (r: Result<String, ResultCode>)
    ensures
        if t.pks@.len() == 0 {
            r matches Err(e) && e == ResultCode::ABORT
        } else {
            r matches Ok(sql) && sql@ == table_query(
                *t,
                metadata_use_version,
                sync_log_version,
                pushed_views(pushed@),
                need_seq_order,
            )
        },
{
    let v1: bool = matches!(t.schema_version, SchemaVersion::V1);
    let both: bool = matches!(t.schema_version, SchemaVersion::V2AndV1);
    if metadata_use_version == META_USE_V1 && (v1 || both) {
        return crsql_changes_query_for_table(t);
    }
    if v1 {
        return crsql_changes_query_for_table(t);
    }
    if t.non_pks.len() == 0 {
        return crsql_changes_query_for_table_v2_pkonly(t, pushed, need_seq_order);
    }
    if sync_log_version == SYNC_LOG_V2 {
        crsql_changes_query_for_table_v2_v2wire(t, pushed, need_seq_order)
    } else {
        crsql_changes_query_for_table_v2_v1wire(t)
    }
}

// ---------------------------------------------------------------------------
// The whole query
// ---------------------------------------------------------------------------
/// Whether the query holds values: those on the second format do, those on the first are
/// read later.
pub fn query_has_cval(metadata_use_version: i32) -> (r: bool)
    ensures
        r == (metadata_use_version == META_USE_V2),
{
    metadata_use_version == META_USE_V2
}

/// Whether changes are packed.
pub open spec fn is_packed(metadata_use_version: i32, sync_log_version: i32) -> bool {
    metadata_use_version == META_USE_V2 && sync_log_version == SYNC_LOG_V2
}

/// The part of the query that gives no rows.
pub open spec fn empty_part(has_cval: bool, need_seq_order: bool) -> Seq<char> {
    "SELECT "@
        + "NULL AS tbl, NULL AS pks, NULL AS cid, NULL AS col_vrsn, NULL AS db_vrsn, NULL AS site_id, NULL AS key, NULL AS seq, NULL AS cl, NULL AS ts"@
        + (if has_cval { ", NULL AS cval"@ } else { ""@ }) + (if need_seq_order {
        ", NULL AS _seq_order"@
    } else {
        ""@
    }) + " WHERE 0"@
}

/// The parts of the query, one for each table, or one without rows where there are no
/// tables.
pub open spec fn parts(
    tables: Seq<TableInfo>,
    metadata_use_version: i32,
    sync_log_version: i32,
    pushed: Seq<Pushed>,
) -> Seq<Seq<char>> {
    let packed = is_packed(metadata_use_version, sync_log_version);
    if tables.len() == 0 {
        seq![empty_part(metadata_use_version == META_USE_V2, packed)]
    } else {
        tables.map_values(
            |t: TableInfo| table_query(t, metadata_use_version, sync_log_version, pushed, packed),
        )
    }
}

/// What the query gives of each change.
pub open spec fn select_list(has_cval: bool) -> Seq<char> {
    if has_cval {
        "SELECT tbl, pks, cid, col_vrsn, db_vrsn, site_id, key, seq, cl, ts, cval FROM ("@
    } else {
        "SELECT tbl, pks, cid, col_vrsn, db_vrsn, site_id, key, seq, cl, ts FROM ("@
    }
}

/// The query behind the changes table. Where changes are packed, conditions are put into
/// its parts, in front of the packing.
pub open spec fn union_sql(
    tables: Seq<TableInfo>,
    constraints: Seq<PlanConstraint>,
    order_by: Seq<CrsqlChangesColumn>,
    desc: bool,
    has_order_by: bool,
    metadata_use_version: i32,
    sync_log_version: i32,
) -> Seq<char> {
    let packed = is_packed(metadata_use_version, sync_log_version);
    let pushed = if packed { pushed_of(constraints) } else { seq![] };
    let end = if packed {
        packed_end(outer_of(constraints), order_by, desc, has_order_by)
    } else {
        plain_end(constraints, order_by, desc, has_order_by)
    };
    select_list(metadata_use_version == META_USE_V2) + joined(
        parts(tables, metadata_use_version, sync_log_version, pushed),
        " UNION ALL "@,
    ) + ") "@ + end + "\0"@
}

/// Whether one of the conditions matches a pattern.
pub open spec fn has_pattern(s: Seq<PlanConstraint>) -> bool {
    exists|i: int| 0 <= i < s.len() && is_pattern((#[trigger] s[i]).op_id)
}

/// Whether one of the tables has no primary key.
pub open spec fn lacks_pk(tables: Seq<TableInfo>) -> bool {
    exists|i: int| 0 <= i < tables.len() && (#[trigger] tables[i]).pks@.len() == 0
}

fn matches_pattern(s: &[PlanConstraint]) -> (r: bool)
    ensures
        r == has_pattern(s@),
{
    let mut i: usize = 0;
    while i < s.len()
        invariant
            i <= s@.len(),
            forall|j: int| 0 <= j < i ==> !is_pattern((#[trigger] s@[j]).op_id),
        decreases s@.len() - i,
    {
        if is_pattern_op_id(s[i].op_id) {
            assert(is_pattern(s@[i as int].op_id));
            return true;
        }
        i = i + 1;
    }
    false
}

fn empty_part_text(has_cval: bool, need_seq_order: bool) -> (r: String)
    ensures
        r@ == empty_part(has_cval, need_seq_order),
{
    let cval = if has_cval {
        ", NULL AS cval"
    } else {
        ""
    };
    let order = if need_seq_order {
        ", NULL AS _seq_order"
    } else {
        ""
    };
    "SELECT ".to_owned().concat(
        "NULL AS tbl, NULL AS pks, NULL AS cid, NULL AS col_vrsn, NULL AS db_vrsn, NULL AS site_id, NULL AS key, NULL AS seq, NULL AS cl, NULL AS ts",
    ).concat(cval).concat(order).concat(" WHERE 0")
}

fn part_list(
    tables: &[TableInfo],
    metadata_use_version: i32,
    sync_log_version: i32,
    pushed: &[PushedConstraint],
    packed: bool,
) -> (r: Result<Vec<String>, ResultCode>)
    requires
        packed == is_packed(metadata_use_version, sync_log_version),
    ensures
        if lacks_pk(tables@) {
            r matches Err(e) && e == ResultCode::ABORT
        } else {
            r matches Ok(list) && texts(list@) == parts(
                tables@,
                metadata_use_version,
                sync_log_version,
                pushed_views(pushed@),
            )
        },
{
    let mut list: Vec<String> = Vec::new();
    let ghost all = tables@.map_values(
        |t: TableInfo|
            table_query(t, metadata_use_version, sync_log_version, pushed_views(pushed@), packed),
    );
    let mut i: usize = 0;
    assert(texts(list@) =~= seq![]);
    while i < tables.len()
        invariant
            i <= tables@.len(),
            all == tables@.map_values(
                |t: TableInfo|
                    table_query(t, metadata_use_version, sync_log_version, pushed_views(pushed@), packed),
            ),
            forall|j: int| 0 <= j < i ==> (#[trigger] tables@[j]).pks@.len() > 0,
            texts(list@) =~= all.take(i as int),
        decreases tables@.len() - i,
    {
        match query_for_table(&tables[i], metadata_use_version, sync_log_version, pushed, packed) {
            Ok(sql) => push_part(&mut list, sql),
            Err(e) => {
                assert(tables@[i as int].pks@.len() == 0);
                return Err(e);
            },
        }
        i = i + 1;
    }
    assert(texts(list@) =~= all);
    if list.len() == 0 {
        assert(tables@.len() == 0) by {
            assert(texts(list@).len() == tables@.len());
        }
        push_part(&mut list, empty_part_text(query_has_cval(metadata_use_version), packed));
        assert(texts(list@) =~= seq![empty_part(metadata_use_version == META_USE_V2, packed)]);
    } else {
        assert(tables@.len() > 0) by {
            assert(texts(list@).len() == tables@.len());
        }
    }
    Ok(list)
}

/// The query behind the changes table, for a plan as bytes.
pub open spec fn union_query(
    tables: Seq<TableInfo>,
    idx: Option<Seq<u8>>,
    metadata_use_version: i32,
    sync_log_version: i32,
) -> Result<Seq<char>, ResultCode> {
    let constraints = match idx {
        Some(bytes) => read_constraints(bytes),
        None => seq![],
    };
    let order_by = match idx {
        Some(bytes) => read_order_by(bytes),
        None => seq![],
    };
    let desc = idx matches Some(bytes) && has_magic(bytes) && bytes[13] != 0;
    let has_order_by = idx matches Some(bytes) && has_magic(bytes) && bytes[14] != 0;
    if has_pattern(constraints) {
        Err(ResultCode::ERROR)
    } else if lacks_pk(tables) {
        Err(ResultCode::ABORT)
    } else {
        Ok(union_sql(tables, constraints, order_by, desc, has_order_by, metadata_use_version, sync_log_version))
    }
}

/// The query is the one that was planned: made of the conditions, the order and the direction that
/// the plan was made of. A plan with a pattern is refused, and so is a table without a primary key.
pub proof fn queries_follow_their_plans(
    tables: Seq<TableInfo>,
    constraints: Seq<PlanConstraint>,
    order_by: Seq<CrsqlChangesColumn>,
    desc: bool,
    has_order_by: bool,
    use_version: i32,
    sync_log_version: i32,
)
    requires
        constraints.len() <= 255,
        order_by.len() <= 255,
    ensures
        ({
            let plan = plan_bytes(constraints, order_by, desc, has_order_by);
            let r = union_query(tables, Some(plan), use_version, sync_log_version);
            &&& r == Err::<Seq<char>, ResultCode>(ResultCode::ERROR) <==> exists|i: int|
                0 <= i < constraints.len() && 64 <= (#[trigger] constraints[i]).op_id <= 67
            &&& r is Ok <==> !has_pattern(constraints) && forall|i: int|
                0 <= i < tables.len() ==> (#[trigger] tables[i]).pks@.len() > 0
            &&& r matches Ok(sql) ==> sql == union_sql(
                tables,
                constraints,
                order_by,
                desc,
                has_order_by,
                use_version,
                sync_log_version,
            )
        }),
{
    plan_round_trip(constraints, order_by, desc, has_order_by);
    if has_pattern(constraints) {
        let i = choose|i: int| 0 <= i < constraints.len() && is_pattern((#[trigger] constraints[i]).op_id);
        assert(64 <= constraints[i].op_id <= 67);
    }
    if exists|i: int| 0 <= i < constraints.len() && 64 <= (#[trigger] constraints[i]).op_id <= 67 {
        let i = choose|i: int| 0 <= i < constraints.len() && 64 <= (#[trigger] constraints[i]).op_id <= 67;
        assert(is_pattern(constraints[i].op_id));
    }
}

/// Where changes are packed, the conditions go into the parts of the query, all that can; where
/// they are not, all of them stand at its end. Either way the rows come in the order of the plan,
/// or else by version and by position in it.
pub proof fn conditions_stand_where_rows_are_single(
    tables: Seq<TableInfo>,
    constraints: Seq<PlanConstraint>,
    order_by: Seq<CrsqlChangesColumn>,
    desc: bool,
    use_version: i32,
    sync_log_version: i32,
)
    ensures
        ({
            let packed = use_version == 2 && sync_log_version == 2;
            let pushed = if packed {
                pushed_of(constraints)
            } else {
                seq![]
            };
            let list = joined(parts(tables, use_version, sync_log_version, pushed), " UNION ALL "@);
            let conditions = outer_where(
                if packed {
                    outer_of(constraints)
                } else {
                    constraints
                },
            );
            union_sql(tables, constraints, order_by, desc, false, use_version, sync_log_version) == select_list(
                use_version == 2,
            ) + list + ") "@ + (conditions + (if packed {
                " ORDER BY db_vrsn ASC, _seq_order ASC"@
            } else {
                " ORDER BY db_vrsn ASC, seq ASC"@
            })) + "\0"@
        }),
{
}

/// The query behind the changes table, for a plan. A condition that matches a pattern is
/// refused, since it would be run on packed values; a table without a primary key is an
/// error too.
pub fn changes_union_query(
    tables: &[TableInfo],
    idx: Option<&[u8]>,
    metadata_use_version: i32,
    sync_log_version: i32,
) -> (r: Result<String, ResultCode>)
    requires
        idx matches Some(bytes) ==> plan_readable(bytes@),
    ensures
        match union_query(
            tables@,
            match idx {
                Some(bytes) => Some(bytes@),
                None => None,
            },
            metadata_use_version,
            sync_log_version,
        ) {
            Ok(text) => r matches Ok(sql) && sql@ == text,
            Err(code) => r matches Err(e) && e == code,
        },
{
    let plan = read_idx_plan(idx);
    if matches_pattern(plan.constraints.as_slice()) {
        return Err(ResultCode::ERROR);
    }
    let packed: bool = metadata_use_version == META_USE_V2 && sync_log_version == SYNC_LOG_V2;
    let (pushed, end) = if packed {
        let (pushed, others) = split_constraints(plan.constraints.as_slice());
        let end = rebuild_outer_idx_str(
            others.as_slice(),
            plan.order_by.as_slice(),
            plan.desc,
            plan.has_order_by,
        );
        (pushed, end)
    } else {
        let none: Vec<PushedConstraint> = Vec::new();
        assert(pushed_views(none@) =~= seq![]);
        let end = plain_end_text(
            plan.constraints.as_slice(),
            plan.order_by.as_slice(),
            plan.desc,
            plan.has_order_by,
        );
        (none, end)
    };
    let list = match part_list(tables, metadata_use_version, sync_log_version, pushed.as_slice(), packed) {
        Ok(list) => list,
        Err(e) => return Err(e),
    };
    let select = if query_has_cval(metadata_use_version) {
        "SELECT tbl, pks, cid, col_vrsn, db_vrsn, site_id, key, seq, cl, ts, cval FROM ("
    } else {
        "SELECT tbl, pks, cid, col_vrsn, db_vrsn, site_id, key, seq, cl, ts FROM ("
    };
    Ok(
        select.to_owned().concat(join(list.as_slice(), " UNION ALL ").as_str()).concat(") ").concat(
            end.as_str(),
        ).concat("\0"),
    )
}

/// Every condition that a query has goes into its parts or stays outside, and none does
/// both.
pub proof fn conditions_are_split(s: Seq<PlanConstraint>)
    requires
        forall|i: int| 0 <= i < s.len() ==> op_text((#[trigger] s[i]).op_id) is Some,
    ensures
        pushed_of(s).len() + outer_of(s).len() == s.len(),
    decreases s.len(),
{
    if s.len() > 0 {
        assert forall|i: int| 0 <= i < s.drop_last().len() implies op_text(
            (#[trigger] s.drop_last()[i]).op_id,
        ) is Some by {
            assert(s.drop_last()[i] == s[i]);
        }
        conditions_are_split(s.drop_last());
        assert(op_text(s[s.len() - 1].op_id) is Some);
    }
}

/// The names of the columns of the query, in their order: they are those of [`ClockUnionColumn`].
pub open spec fn query_names() -> Seq<Seq<char>> {
    seq![
        "tbl"@,
        "pks"@,
        "cid"@,
        "col_vrsn"@,
        "db_vrsn"@,
        "site_id"@,
        "key"@,
        "seq"@,
        "cl"@,
        "ts"@,
        "cval"@,
    ]
}

proof fn lemma_front_names(n: int)
    requires
        0 < n <= 11,
    ensures
        joined(query_names().take(n), ", "@) == if n == 1 {
            query_names()[0]
        } else {
            joined(query_names().take(n - 1), ", "@) + ", "@ + query_names()[n - 1]
        },
{
    let now = query_names().take(n);
    assert(now.last() == query_names()[n - 1]);
    assert(now.drop_last() =~= query_names().take(n - 1));
}

proof fn lemma_all_names()
    ensures
        "SELECT tbl, pks, cid, col_vrsn, db_vrsn, site_id, key, seq, cl, ts, cval FROM ("@ == "SELECT "@ + joined(query_names().take(11), ", "@) + " FROM ("@,
{
    reveal_strlit("SELECT tbl, pks, cid, col_vrsn, db_vrsn, site_id, key, seq, cl, ts, cval FROM (");
    reveal_strlit("SELECT ");
    reveal_strlit(" FROM (");
    reveal_strlit(", ");
    assert("SELECT "@ =~= seq!['S', 'E', 'L', 'E', 'C', 'T', ' ']);
    assert(" FROM ("@ =~= seq![' ', 'F', 'R', 'O', 'M', ' ', '(']);
    assert(", "@ =~= seq![',', ' ']);
    reveal_strlit("tbl");
    assert("tbl"@ =~= seq!['t', 'b', 'l']);
    reveal_strlit("pks");
    assert("pks"@ =~= seq!['p', 'k', 's']);
    reveal_strlit("cid");
    assert("cid"@ =~= seq!['c', 'i', 'd']);
    reveal_strlit("col_vrsn");
    assert("col_vrsn"@ =~= seq!['c', 'o', 'l', '_', 'v', 'r', 's', 'n']);
    reveal_strlit("db_vrsn");
    assert("db_vrsn"@ =~= seq!['d', 'b', '_', 'v', 'r', 's', 'n']);
    reveal_strlit("site_id");
    assert("site_id"@ =~= seq!['s', 'i', 't', 'e', '_', 'i', 'd']);
    reveal_strlit("key");
    assert("key"@ =~= seq!['k', 'e', 'y']);
    reveal_strlit("seq");
    assert("seq"@ =~= seq!['s', 'e', 'q']);
    reveal_strlit("cl");
    assert("cl"@ =~= seq!['c', 'l']);
    reveal_strlit("ts");
    assert("ts"@ =~= seq!['t', 's']);
    reveal_strlit("cval");
    assert("cval"@ =~= seq!['c', 'v', 'a', 'l']);
    lemma_front_names(1);
    lemma_front_names(2);
    lemma_front_names(3);
    lemma_front_names(4);
    lemma_front_names(5);
    lemma_front_names(6);
    lemma_front_names(7);
    lemma_front_names(8);
    lemma_front_names(9);
    lemma_front_names(10);
    lemma_front_names(11);
    let list = joined(query_names().take(11), ", "@);
    assert(list == "tbl"@ + ", "@ + "pks"@ + ", "@ + "cid"@ + ", "@ + "col_vrsn"@ + ", "@ + "db_vrsn"@ + ", "@ + "site_id"@ + ", "@ + "key"@ + ", "@ + "seq"@ + ", "@ + "cl"@ + ", "@ + "ts"@ + ", "@ + "cval"@);
    assert("SELECT tbl, pks, cid, col_vrsn, db_vrsn, site_id, key, seq, cl, ts, cval FROM ("@ =~= "SELECT "@ + ("tbl"@ + ", "@ + "pks"@ + ", "@ + "cid"@ + ", "@ + "col_vrsn"@ + ", "@ + "db_vrsn"@ + ", "@ + "site_id"@ + ", "@ + "key"@ + ", "@ + "seq"@ + ", "@ + "cl"@ + ", "@ + "ts"@ + ", "@ + "cval"@) + " FROM ("@);
}

proof fn lemma_names_without_value()
    ensures
        "SELECT tbl, pks, cid, col_vrsn, db_vrsn, site_id, key, seq, cl, ts FROM ("@ == "SELECT "@ + joined(query_names().take(10), ", "@) + " FROM ("@,
{
    reveal_strlit("SELECT tbl, pks, cid, col_vrsn, db_vrsn, site_id, key, seq, cl, ts FROM (");
    reveal_strlit("SELECT ");
    reveal_strlit(" FROM (");
    reveal_strlit(", ");
    assert("SELECT "@ =~= seq!['S', 'E', 'L', 'E', 'C', 'T', ' ']);
    assert(" FROM ("@ =~= seq![' ', 'F', 'R', 'O', 'M', ' ', '(']);
    assert(", "@ =~= seq![',', ' ']);
    reveal_strlit("tbl");
    assert("tbl"@ =~= seq!['t', 'b', 'l']);
    reveal_strlit("pks");
    assert("pks"@ =~= seq!['p', 'k', 's']);
    reveal_strlit("cid");
    assert("cid"@ =~= seq!['c', 'i', 'd']);
    reveal_strlit("col_vrsn");
    assert("col_vrsn"@ =~= seq!['c', 'o', 'l', '_', 'v', 'r', 's', 'n']);
    reveal_strlit("db_vrsn");
    assert("db_vrsn"@ =~= seq!['d', 'b', '_', 'v', 'r', 's', 'n']);
    reveal_strlit("site_id");
    assert("site_id"@ =~= seq!['s', 'i', 't', 'e', '_', 'i', 'd']);
    reveal_strlit("key");
    assert("key"@ =~= seq!['k', 'e', 'y']);
    reveal_strlit("seq");
    assert("seq"@ =~= seq!['s', 'e', 'q']);
    reveal_strlit("cl");
    assert("cl"@ =~= seq!['c', 'l']);
    reveal_strlit("ts");
    assert("ts"@ =~= seq!['t', 's']);
    lemma_front_names(1);
    lemma_front_names(2);
    lemma_front_names(3);
    lemma_front_names(4);
    lemma_front_names(5);
    lemma_front_names(6);
    lemma_front_names(7);
    lemma_front_names(8);
    lemma_front_names(9);
    lemma_front_names(10);
    let list = joined(query_names().take(10), ", "@);
    assert(list == "tbl"@ + ", "@ + "pks"@ + ", "@ + "cid"@ + ", "@ + "col_vrsn"@ + ", "@ + "db_vrsn"@ + ", "@ + "site_id"@ + ", "@ + "key"@ + ", "@ + "seq"@ + ", "@ + "cl"@ + ", "@ + "ts"@);
    assert("SELECT tbl, pks, cid, col_vrsn, db_vrsn, site_id, key, seq, cl, ts FROM ("@ =~= "SELECT "@ + ("tbl"@ + ", "@ + "pks"@ + ", "@ + "cid"@ + ", "@ + "col_vrsn"@ + ", "@ + "db_vrsn"@ + ", "@ + "site_id"@ + ", "@ + "key"@ + ", "@ + "seq"@ + ", "@ + "cl"@ + ", "@ + "ts"@) + " FROM ("@);
}

/// The query gives the columns of [`ClockUnionColumn`] in their order; the value, which is the
/// last, only where it is read from the second format. A condition or an order on a column of the
/// changes table is one on the column of the query that it comes from.
pub proof fn query_columns_are_in_order()
    ensures
        select_list(true) == "SELECT "@ + joined(query_names(), ", "@) + " FROM ("@,
        select_list(false) == "SELECT "@ + joined(query_names().drop_last(), ", "@) + " FROM ("@,
        forall|i: int|
            0 <= i < 10 && i != 1 && i != 3 ==> ({
                let col = #[trigger] CrsqlChangesColumn::spec_from_i32(i as i32);
                let source = query_column(source_of(i as i32, Some(ChangeRowType::Update), true, 1)->Ok_0);
                col_name(col.unwrap()) == Some(query_names()[source.unwrap().spec_index() as int])
            }),
{
    lemma_all_names();
    lemma_names_without_value();
    assert(query_names().take(11) =~= query_names());
    assert(query_names().take(10) =~= query_names().drop_last());
}

/// A column has a name to search and order by exactly where conditions on it are taken over, and an
/// operator has a text exactly where conditions with it are.
pub proof fn taken_conditions_have_a_text(c: PlanConstraint)
    ensures
        col_name(c.col) is Some <==> searchable(Some(c.col)),
        op_text(c.op_id) is Some <==> supported_op(c.op_id),
        constraint_sql(c) is Some <==> searchable(Some(c.col)) && supported_op(c.op_id),
        is_pattern(c.op_id) ==> supported_op(c.op_id),
        is_pushed(c) <==> c.param_idx != 0 && searchable(Some(c.col)),
{
}

/// The text of each operator.
pub proof fn operators_have_their_text()
    ensures
        op_text(2) == Some("="@),
        op_text(4) == Some(">"@),
        op_text(8) == Some("<="@),
        op_text(16) == Some("<"@),
        op_text(32) == Some(">="@),
        op_text(68) == Some("!="@),
        op_text(69) == Some("IS NOT"@),
        op_text(70) == Some("IS NOT NULL"@),
        op_text(71) == Some("IS NULL"@),
        op_text(72) == Some("IS"@),
{
}

/// No condition that is taken over is lost: outside the parts of the query, each has its clause, in
/// the order of the conditions.
pub proof fn every_condition_has_its_clause(s: Seq<PlanConstraint>, i: int)
    requires
        forall|k: int| 0 <= k < s.len() ==> constraint_sql(#[trigger] s[k]) is Some,
        0 <= i < s.len(),
    ensures
        clauses(s).len() == s.len(),
        constraint_sql(s[i]) == Some(clauses(s)[i]),
    decreases s.len(),
{
    let front = s.drop_last();
    assert forall|k: int| 0 <= k < front.len() implies constraint_sql(#[trigger] front[k]) is Some by {
        assert(front[k] == s[k]);
    }
    assert(constraint_sql(s[s.len() - 1]) is Some);
    if front.len() > 0 {
        every_condition_has_its_clause(front, if i < front.len() { i } else { 0 });
    } else {
        assert(clauses(front) =~= seq![]);
    }
}

/// A part of the query has every condition that is put into it and whose column it knows, each on
/// that column with its own operator and parameter.
pub proof fn every_pushed_condition_has_its_clause(s: Seq<Pushed>, clock: bool, arm: ArmExprs, i: int)
    requires
        arm.cid is Some,
        arm.col_vrsn is Some,
        arm.tbl is Some,
        forall|k: int| 0 <= k < s.len() ==> searchable(Some((#[trigger] s[k]).col)),
        0 <= i < s.len(),
    ensures
        pushed_clauses(s, clock, arm).len() == s.len(),
        arm_ref(s[i].col, clock, arm) is Some,
        pushed_clauses(s, clock, arm)[i] == arm_ref(s[i].col, clock, arm)->Some_0 + " "@ + s[i].op + " ?"@ + decimal_of(
            s[i].param_index,
        ),
    decreases s.len(),
{
    let front = s.drop_last();
    assert forall|k: int| 0 <= k < front.len() implies searchable(Some((#[trigger] front[k]).col)) by {
        assert(front[k] == s[k]);
    }
    assert(searchable(Some(s[s.len() - 1].col)));
    assert(searchable(Some(s[i].col)));
    if front.len() > 0 {
        every_pushed_condition_has_its_clause(front, clock, arm, if i < front.len() { i } else { 0 });
    } else {
        assert(pushed_clauses(front, clock, arm) =~= seq![]);
    }
}

/// Every column that is ordered by has its place in the order of the query, in the direction that
/// is asked for; the position in a version is that of its first cell where rows are packed.
pub proof fn every_order_has_its_place(s: Seq<CrsqlChangesColumn>, desc: bool, i: int)
    requires
        forall|k: int| 0 <= k < s.len() ==> searchable(Some(#[trigger] s[k])),
        0 <= i < s.len(),
    ensures
        plain_order(s, desc).len() == s.len(),
        plain_order(s, desc)[i] == col_name(s[i])->Some_0 + (if desc {
            " DESC"@
        } else {
            " ASC"@
        }),
        packed_order(s, desc).len() == s.len(),
        s[i] != CrsqlChangesColumn::SeqNo ==> packed_order(s, desc)[i] == plain_order(s, desc)[i],
        s[i] == CrsqlChangesColumn::SeqNo ==> packed_order(s, desc)[i] == "_seq_order"@ + (if desc {
            " DESC"@
        } else {
            " ASC"@
        }),
    decreases s.len(),
{
    let front = s.drop_last();
    assert forall|k: int| 0 <= k < front.len() implies searchable(Some(#[trigger] front[k])) by {
        assert(front[k] == s[k]);
    }
    assert(searchable(Some(s[s.len() - 1])));
    assert(searchable(Some(s[i])));
    if front.len() > 0 {
        every_order_has_its_place(front, desc, if i < front.len() { i } else { 0 });
    } else {
        assert(plain_order(front, desc) =~= seq![]);
    }
}

/// A table is read in the first format where it has no other, or where that one is read and it has
/// it; else it is read in the second: row by row where it has no columns outside its primary key,
/// packed where changes are, and cell by cell else.
pub proof fn tables_are_read_in_one_format(t: TableInfo, use_version: i32, sync_log_version: i32, pushed: Seq<Pushed>, ordered: bool)
    ensures
        ({
            let first = t.schema_version == SchemaVersion::V1 || (t.schema_version == SchemaVersion::V2AndV1 && use_version == 1);
            let sql = table_query(t, use_version, sync_log_version, pushed, ordered);
            &&& first ==> sql == v1_changes(t)
            &&& !first && t.non_pks@.len() == 0 ==> sql == pkonly(t, pushed, ordered)
            &&& !first && t.non_pks@.len() > 0 && sync_log_version == 2 ==> sql == v2wire(t, pushed, ordered)
            &&& !first && t.non_pks@.len() > 0 && sync_log_version != 2 ==> sql == v1wire(t)
        }),
        is_packed(use_version, sync_log_version) <==> use_version == 2 && sync_log_version == 2,
{
}

} // verus!
