//! The changes table: how queries on it are planned, and what its rows hold.

use crate::consts::{DELETE_SENTINEL, INSERT_SENTINEL, META_USE_V2, SYNC_LOG_V2, V2_HASH_TOMBSTONE_CID};
use crate::ext_data::ExtData;
use crate::pack_columns::ColumnValue;
use crate::result_code::ResultCode;
use crate::tableinfo::TableInfo;
use crate::text::same;
use crate::util::{slab, slab_rowid};
use vstd::prelude::*;
use vstd::string::*;

verus! {

/// The columns of the changes table.
#[derive(Clone, Copy, PartialEq, Eq, Structural, Debug)]
pub enum CrsqlChangesColumn {
    Tbl,
    Pk,
    Cid,
    Cval,
    ColVrsn,
    DbVrsn,
    SiteId,
    Cl,
    SeqNo,
    Ts,
}

impl CrsqlChangesColumn {
    /// The number of the variant, from 0 on.
    pub open spec fn spec_index(self) -> u8 {
        match self {
            CrsqlChangesColumn::Tbl => 0u8,
            CrsqlChangesColumn::Pk => 1u8,
            CrsqlChangesColumn::Cid => 2u8,
            CrsqlChangesColumn::Cval => 3u8,
            CrsqlChangesColumn::ColVrsn => 4u8,
            CrsqlChangesColumn::DbVrsn => 5u8,
            CrsqlChangesColumn::SiteId => 6u8,
            CrsqlChangesColumn::Cl => 7u8,
            CrsqlChangesColumn::SeqNo => 8u8,
            CrsqlChangesColumn::Ts => 9u8,
        }
    }

    /// The number of the variant, from 0 on.
    pub fn index(self) -> (r: u8)
        ensures
            r == self.spec_index(),
            r < 10,
    {
        match self {
            CrsqlChangesColumn::Tbl => 0,
            CrsqlChangesColumn::Pk => 1,
            CrsqlChangesColumn::Cid => 2,
            CrsqlChangesColumn::Cval => 3,
            CrsqlChangesColumn::ColVrsn => 4,
            CrsqlChangesColumn::DbVrsn => 5,
            CrsqlChangesColumn::SiteId => 6,
            CrsqlChangesColumn::Cl => 7,
            CrsqlChangesColumn::SeqNo => 8,
            CrsqlChangesColumn::Ts => 9,
        }
    }

    /// The variant with that number.
    pub open spec fn spec_from_i32(i: i32) -> Option<CrsqlChangesColumn> {
        if i == 0 {
            Some(CrsqlChangesColumn::Tbl)
        } else if i == 1 {
            Some(CrsqlChangesColumn::Pk)
        } else if i == 2 {
            Some(CrsqlChangesColumn::Cid)
        } else if i == 3 {
            Some(CrsqlChangesColumn::Cval)
        } else if i == 4 {
            Some(CrsqlChangesColumn::ColVrsn)
        } else if i == 5 {
            Some(CrsqlChangesColumn::DbVrsn)
        } else if i == 6 {
            Some(CrsqlChangesColumn::SiteId)
        } else if i == 7 {
            Some(CrsqlChangesColumn::Cl)
        } else if i == 8 {
            Some(CrsqlChangesColumn::SeqNo)
        } else if i == 9 {
            Some(CrsqlChangesColumn::Ts)
        } else {
            None
        }
    }

    /// The variant with that number, `None` where there is none.
    pub fn from_i32(i: i32) -> (r: Option<CrsqlChangesColumn>)
        ensures
            r == Self::spec_from_i32(i),
    {
        match i {
            0 => Some(CrsqlChangesColumn::Tbl),
            1 => Some(CrsqlChangesColumn::Pk),
            2 => Some(CrsqlChangesColumn::Cid),
            3 => Some(CrsqlChangesColumn::Cval),
            4 => Some(CrsqlChangesColumn::ColVrsn),
            5 => Some(CrsqlChangesColumn::DbVrsn),
            6 => Some(CrsqlChangesColumn::SiteId),
            7 => Some(CrsqlChangesColumn::Cl),
            8 => Some(CrsqlChangesColumn::SeqNo),
            9 => Some(CrsqlChangesColumn::Ts),
            _ => None,
        }
    }
}

/// The columns of the query behind the changes table.
#[derive(Clone, Copy, PartialEq, Eq, Structural, Debug)]
pub enum ClockUnionColumn {
    Tbl,
    Pks,
    Cid,
    ColVrsn,
    DbVrsn,
    SiteId,
    RowId,
    SeqNo,
    Cl,
    Ts,
    Cval,
}

impl ClockUnionColumn {
    /// The number of the variant, from 0 on.
    pub open spec fn spec_index(self) -> u8 {
        match self {
            ClockUnionColumn::Tbl => 0u8,
            ClockUnionColumn::Pks => 1u8,
            ClockUnionColumn::Cid => 2u8,
            ClockUnionColumn::ColVrsn => 3u8,
            ClockUnionColumn::DbVrsn => 4u8,
            ClockUnionColumn::SiteId => 5u8,
            ClockUnionColumn::RowId => 6u8,
            ClockUnionColumn::SeqNo => 7u8,
            ClockUnionColumn::Cl => 8u8,
            ClockUnionColumn::Ts => 9u8,
            ClockUnionColumn::Cval => 10u8,
        }
    }

    /// The number of the variant, from 0 on.
    pub fn index(self) -> (r: u8)
        ensures
            r == self.spec_index(),
            r < 11,
    {
        match self {
            ClockUnionColumn::Tbl => 0,
            ClockUnionColumn::Pks => 1,
            ClockUnionColumn::Cid => 2,
            ClockUnionColumn::ColVrsn => 3,
            ClockUnionColumn::DbVrsn => 4,
            ClockUnionColumn::SiteId => 5,
            ClockUnionColumn::RowId => 6,
            ClockUnionColumn::SeqNo => 7,
            ClockUnionColumn::Cl => 8,
            ClockUnionColumn::Ts => 9,
            ClockUnionColumn::Cval => 10,
        }
    }

    /// The variant with that number.
    pub open spec fn spec_from_i32(i: i32) -> Option<ClockUnionColumn> {
        if i == 0 {
            Some(ClockUnionColumn::Tbl)
        } else if i == 1 {
            Some(ClockUnionColumn::Pks)
        } else if i == 2 {
            Some(ClockUnionColumn::Cid)
        } else if i == 3 {
            Some(ClockUnionColumn::ColVrsn)
        } else if i == 4 {
            Some(ClockUnionColumn::DbVrsn)
        } else if i == 5 {
            Some(ClockUnionColumn::SiteId)
        } else if i == 6 {
            Some(ClockUnionColumn::RowId)
        } else if i == 7 {
            Some(ClockUnionColumn::SeqNo)
        } else if i == 8 {
            Some(ClockUnionColumn::Cl)
        } else if i == 9 {
            Some(ClockUnionColumn::Ts)
        } else if i == 10 {
            Some(ClockUnionColumn::Cval)
        } else {
            None
        }
    }

    /// The variant with that number, `None` where there is none.
    pub fn from_i32(i: i32) -> (r: Option<ClockUnionColumn>)
        ensures
            r == Self::spec_from_i32(i),
    {
        match i {
            0 => Some(ClockUnionColumn::Tbl),
            1 => Some(ClockUnionColumn::Pks),
            2 => Some(ClockUnionColumn::Cid),
            3 => Some(ClockUnionColumn::ColVrsn),
            4 => Some(ClockUnionColumn::DbVrsn),
            5 => Some(ClockUnionColumn::SiteId),
            6 => Some(ClockUnionColumn::RowId),
            7 => Some(ClockUnionColumn::SeqNo),
            8 => Some(ClockUnionColumn::Cl),
            9 => Some(ClockUnionColumn::Ts),
            10 => Some(ClockUnionColumn::Cval),
            _ => None,
        }
    }
}

/// What a row of the changes table is about: a cell, a deleted row, a row as a whole, or
/// several cells of one row.
#[derive(Clone, Copy, PartialEq, Eq, Structural, Debug)]
pub enum ChangeRowType {
    Update,
    Delete,
    PkOnly,
    PackedUpdate,
}

impl ChangeRowType {
    /// The number of the variant, from 0 on.
    pub open spec fn spec_index(self) -> u8 {
        match self {
            ChangeRowType::Update => 0u8,
            ChangeRowType::Delete => 1u8,
            ChangeRowType::PkOnly => 2u8,
            ChangeRowType::PackedUpdate => 3u8,
        }
    }

    /// The number of the variant, from 0 on.
    pub fn index(self) -> (r: u8)
        ensures
            r == self.spec_index(),
            r < 4,
    {
        match self {
            ChangeRowType::Update => 0,
            ChangeRowType::Delete => 1,
            ChangeRowType::PkOnly => 2,
            ChangeRowType::PackedUpdate => 3,
        }
    }

    /// The variant with that number.
    pub open spec fn spec_from_i32(i: i32) -> Option<ChangeRowType> {
        if i == 0 {
            Some(ChangeRowType::Update)
        } else if i == 1 {
            Some(ChangeRowType::Delete)
        } else if i == 2 {
            Some(ChangeRowType::PkOnly)
        } else if i == 3 {
            Some(ChangeRowType::PackedUpdate)
        } else {
            None
        }
    }

    /// The variant with that number, `None` where there is none.
    pub fn from_i32(i: i32) -> (r: Option<ChangeRowType>)
        ensures
            r == Self::spec_from_i32(i),
    {
        match i {
            0 => Some(ChangeRowType::Update),
            1 => Some(ChangeRowType::Delete),
            2 => Some(ChangeRowType::PkOnly),
            3 => Some(ChangeRowType::PackedUpdate),
            _ => None,
        }
    }
}

// ---------------------------------------------------------------------------
// Operators
// ---------------------------------------------------------------------------
pub const INDEX_CONSTRAINT_EQ: u8 = 2;

pub const INDEX_CONSTRAINT_GT: u8 = 4;

pub const INDEX_CONSTRAINT_LE: u8 = 8;

pub const INDEX_CONSTRAINT_LT: u8 = 16;

pub const INDEX_CONSTRAINT_GE: u8 = 32;

pub const INDEX_CONSTRAINT_MATCH: u8 = 64;

pub const INDEX_CONSTRAINT_LIKE: u8 = 65;

pub const INDEX_CONSTRAINT_GLOB: u8 = 66;

pub const INDEX_CONSTRAINT_REGEXP: u8 = 67;

pub const INDEX_CONSTRAINT_NE: u8 = 68;

pub const INDEX_CONSTRAINT_ISNOT: u8 = 69;

pub const INDEX_CONSTRAINT_ISNOTNULL: u8 = 70;

pub const INDEX_CONSTRAINT_ISNULL: u8 = 71;

pub const INDEX_CONSTRAINT_IS: u8 = 72;

/// Whether an operator is one that the changes table takes on itself.
pub open spec fn supported_op(op: u8) -> bool {
    ||| op == 2
    ||| op == 4
    ||| op == 8
    ||| op == 16
    ||| op == 32
    ||| op == 64
    ||| op == 65
    ||| op == 66
    ||| op == 67
    ||| op == 68
    ||| op == 69
    ||| op == 70
    ||| op == 71
    ||| op == 72
}

/// Whether an operator is one that the changes table takes on itself. Those that match
/// patterns are among them, so that they are refused and not run on packed values.
pub fn is_supported_op(op: u8) -> (r: bool)
    ensures
        r == supported_op(op),
{
    op == INDEX_CONSTRAINT_EQ
        || op == INDEX_CONSTRAINT_GT
        || op == INDEX_CONSTRAINT_LE
        || op == INDEX_CONSTRAINT_LT
        || op == INDEX_CONSTRAINT_GE
        || op == INDEX_CONSTRAINT_MATCH
        || op == INDEX_CONSTRAINT_LIKE
        || op == INDEX_CONSTRAINT_GLOB
        || op == INDEX_CONSTRAINT_REGEXP
        || op == INDEX_CONSTRAINT_NE
        || op == INDEX_CONSTRAINT_ISNOT
        || op == INDEX_CONSTRAINT_ISNOTNULL
        || op == INDEX_CONSTRAINT_ISNULL
        || op == INDEX_CONSTRAINT_IS
}

// ---------------------------------------------------------------------------
// Plans
// ---------------------------------------------------------------------------
/// What a plan starts with.
pub open spec fn idx_magic() -> Seq<u8> {
    seq![82u8, 117u8, 115u8, 116u8, 32u8, 109u8, 97u8, 103u8, 105u8, 99u8, 0u8]
}

/// A condition on a column of the changes table.
#[derive(Clone, Copy, PartialEq, Eq, Structural, Debug)]
pub struct PlanConstraint {
    pub col: CrsqlChangesColumn,
    /// The number of the operator.
    pub op_id: u8,
    /// The number of the parameter, from 1 on; 0 for an operator that takes none.
    pub param_idx: u8,
}

/// The front of a plan. The conditions follow it, three bytes each, and the columns by
/// which rows are ordered, one byte each.
pub struct ChangesIdxHeader {
    pub num_constraints: u8,
    pub num_order_by: u8,
    pub order_by_desc: u8,
    pub has_order_by: u8,
}

/// The length of the front of a plan.
pub const IDX_HEADER_SIZE: usize = 15;

/// How a query on the changes table is run.
pub struct IdxPlan {
    pub constraints: Vec<PlanConstraint>,
    pub order_by: Vec<CrsqlChangesColumn>,
    pub desc: bool,
    /// Whether the query asks for an order.
    pub has_order_by: bool,
}

/// A byte that says yes or no.
pub open spec fn flag(b: bool) -> u8 {
    if b {
        1u8
    } else {
        0u8
    }
}

/// Conditions as bytes.
pub open spec fn constraint_bytes(s: Seq<PlanConstraint>) -> Seq<u8>
    decreases s.len(),
{
    if s.len() == 0 {
        seq![]
    } else {
        constraint_bytes(s.drop_last()) + seq![s.last().col.spec_index(), s.last().op_id, s.last().param_idx]
    }
}

/// Columns as bytes.
pub open spec fn column_bytes(s: Seq<CrsqlChangesColumn>) -> Seq<u8> {
    s.map_values(|c: CrsqlChangesColumn| c.spec_index())
}

/// The front of a plan as bytes. Each number is kept in one byte.
pub open spec fn header_bytes(constraints: nat, order_by: nat, desc: bool, has_order_by: bool) -> Seq<u8> {
    idx_magic() + seq![(constraints % 256) as u8, (order_by % 256) as u8, flag(desc), flag(has_order_by)]
}

/// A plan as bytes.
pub open spec fn plan_bytes(
    constraints: Seq<PlanConstraint>,
    order_by: Seq<CrsqlChangesColumn>,
    desc: bool,
    has_order_by: bool,
) -> Seq<u8> {
    header_bytes(constraints.len(), order_by.len(), desc, has_order_by) + constraint_bytes(constraints)
        + column_bytes(order_by)
}

fn put_header(buf: &mut Vec<u8>, constraints: usize, order_by: usize, desc: bool, has_order_by: bool)
    ensures
        final(buf)@ == old(buf)@ + header_bytes(constraints as nat, order_by as nat, desc, has_order_by),
{
    buf.push(82);
    buf.push(117);
    buf.push(115);
    buf.push(116);
    buf.push(32);
    buf.push(109);
    buf.push(97);
    buf.push(103);
    buf.push(105);
    buf.push(99);
    buf.push(0);
    buf.push((constraints % 256) as u8);
    buf.push((order_by % 256) as u8);
    buf.push(
        if desc {
            1
        } else {
            0
        },
    );
    buf.push(
        if has_order_by {
            1
        } else {
            0
        },
    );
    assert(buf@ =~= old(buf)@ + header_bytes(constraints as nat, order_by as nat, desc, has_order_by));
}

/// A plan as bytes.
pub fn alloc_idx_plan(
    constraints: &[PlanConstraint],
    order_by_cols: &[CrsqlChangesColumn],
    order_by_desc: bool,
    has_order_by: bool,
) -> (r: Vec<u8>)
    ensures
        r@ == plan_bytes(constraints@, order_by_cols@, order_by_desc, has_order_by),
{
    let mut buf: Vec<u8> = Vec::new();
    put_header(&mut buf, constraints.len(), order_by_cols.len(), order_by_desc, has_order_by);
    let ghost header = header_bytes(constraints@.len(), order_by_cols@.len(), order_by_desc, has_order_by);
    assert(buf@ =~= header);
    let mut i: usize = 0;
    assert(constraints@.take(0) =~= seq![]);
    assert(header + constraint_bytes(constraints@.take(0)) =~= header);
    while i < constraints.len()
        invariant
            i <= constraints@.len(),
            buf@ == header + constraint_bytes(constraints@.take(i as int)),
        decreases constraints@.len() - i,
    {
        let c = constraints[i];
        buf.push(c.col.index());
        buf.push(c.op_id);
        buf.push(c.param_idx);
        assert(constraints@.take(i + 1).drop_last() =~= constraints@.take(i as int));
        assert(buf@ =~= header + constraint_bytes(constraints@.take(i + 1)));
        i = i + 1;
    }
    assert(constraints@.take(i as int) =~= constraints@);
    let ghost front = buf@;
    let mut j: usize = 0;
    assert(front + column_bytes(order_by_cols@).take(0) =~= front);
    while j < order_by_cols.len()
        invariant
            j <= order_by_cols@.len(),
            buf@ == front + column_bytes(order_by_cols@).take(j as int),
        decreases order_by_cols@.len() - j,
    {
        buf.push(order_by_cols[j].index());
        assert(buf@ =~= front + column_bytes(order_by_cols@).take(j + 1));
        j = j + 1;
    }
    assert(column_bytes(order_by_cols@).take(j as int) =~= column_bytes(order_by_cols@));
    buf
}

/// Whether the bytes start as a plan does.
pub open spec fn has_magic(bytes: Seq<u8>) -> bool {
    bytes.take(11) == idx_magic()
}

/// Whether the bytes are those of a plan, or do not start as a plan does.
pub open spec fn plan_readable(bytes: Seq<u8>) -> bool {
    let nc = bytes[11] as int;
    let no = bytes[12] as int;
    &&& bytes.len() >= IDX_HEADER_SIZE
    &&& has_magic(bytes) ==> {
        &&& bytes.len() >= IDX_HEADER_SIZE + 3 * nc + no
        &&& forall|k: int| 0 <= k < nc ==> #[trigger] bytes[15 + 3 * k] < 10
        &&& forall|k: int| 0 <= k < no ==> #[trigger] bytes[15 + 3 * nc + k] < 10
    }
}

/// The column with that number.
pub open spec fn column_at(b: u8) -> CrsqlChangesColumn {
    CrsqlChangesColumn::spec_from_i32(b as i32).unwrap()
}

/// The conditions of a plan.
pub open spec fn read_constraints(bytes: Seq<u8>) -> Seq<PlanConstraint> {
    if has_magic(bytes) {
        Seq::new(
            bytes[11] as nat,
            |k: int|
                PlanConstraint {
                    col: column_at(bytes[15 + 3 * k]),
                    op_id: bytes[16 + 3 * k],
                    param_idx: bytes[17 + 3 * k],
                },
        )
    } else {
        seq![]
    }
}

/// The columns by which the rows of a plan are ordered.
pub open spec fn read_order_by(bytes: Seq<u8>) -> Seq<CrsqlChangesColumn> {
    if has_magic(bytes) {
        Seq::new(bytes[12] as nat, |k: int| column_at(bytes[15 + 3 * bytes[11] + k]))
    } else {
        seq![]
    }
}

fn starts_with_magic(bytes: &[u8]) -> (r: bool)
    requires
        bytes@.len() >= IDX_HEADER_SIZE,
    ensures
        r == has_magic(bytes@),
{
    let r: bool = bytes[0] == 82 && bytes[1] == 117 && bytes[2] == 115 && bytes[3] == 116 && bytes[4] == 32
        && bytes[5] == 109 && bytes[6] == 97 && bytes[7] == 103 && bytes[8] == 105 && bytes[9] == 99
        && bytes[10] == 0;
    proof {
        let front = bytes@.take(11);
        if r {
            assert(front =~= idx_magic());
        } else if front == idx_magic() {
            assert(front[0] == 82 && front[1] == 117 && front[2] == 115 && front[3] == 116 && front[4] == 32
                && front[5] == 109 && front[6] == 97 && front[7] == 103 && front[8] == 105 && front[9] == 99
                && front[10] == 0);
        }
    }
    r
}

fn column_of(b: u8) -> (r: CrsqlChangesColumn)
    requires
        b < 10,
    ensures
        r == column_at(b),
{
    match CrsqlChangesColumn::from_i32(b as i32) {
        Some(c) => c,
        None => CrsqlChangesColumn::Tbl,
    }
}

/// Whether the bytes can be read as a plan, as [`read_idx_plan`] asks of its input.
pub fn can_read_idx_plan(bytes: &[u8]) -> (r: bool)
    ensures
        r == plan_readable(bytes@),
{
    if bytes.len() < IDX_HEADER_SIZE {
        return false;
    }
    if !starts_with_magic(bytes) {
        return true;
    }
    let nc: usize = bytes[11] as usize;
    let no: usize = bytes[12] as usize;
    if bytes.len() < IDX_HEADER_SIZE + 3 * nc + no {
        return false;
    }
    let mut k: usize = 0;
    while k < nc
        invariant
            k <= nc <= 255,
            nc == bytes@[11],
            has_magic(bytes@),
            bytes@.len() >= IDX_HEADER_SIZE + 3 * nc,
            forall|j: int| 0 <= j < k ==> #[trigger] bytes@[15 + 3 * j] < 10,
        decreases nc - k,
    {
        if bytes[15 + 3 * k] >= 10 {
            assert(bytes@[15 + 3 * (k as int)] >= 10);
            return false;
        }
        k = k + 1;
    }
    let mut m: usize = 0;
    while m < no
        invariant
            m <= no <= 255,
            nc <= 255,
            nc == bytes@[11],
            no == bytes@[12],
            has_magic(bytes@),
            bytes@.len() >= IDX_HEADER_SIZE + 3 * nc + no,
            forall|j: int| 0 <= j < m ==> #[trigger] bytes@[15 + 3 * (nc as int) + j] < 10,
        decreases no - m,
    {
        if bytes[15 + 3 * nc + m] >= 10 {
            assert(bytes@[15 + 3 * (nc as int) + m] >= 10);
            return false;
        }
        m = m + 1;
    }
    true
}

/// Reads a plan. Without bytes, and from bytes that do not start as a plan does, it is
/// empty.
pub fn read_idx_plan(idx: Option<&[u8]>) -> (r: IdxPlan)
    requires
        idx matches Some(bytes) ==> plan_readable(bytes@),
    ensures
        match idx {
            None => {
                &&& r.constraints@ == Seq::<PlanConstraint>::empty()
                &&& r.order_by@ == Seq::<CrsqlChangesColumn>::empty()
                &&& !r.desc
                &&& !r.has_order_by
            },
            Some(bytes) => {
                &&& r.constraints@ == read_constraints(bytes@)
                &&& r.order_by@ == read_order_by(bytes@)
                &&& r.desc == (has_magic(bytes@) && bytes@[13] != 0)
                &&& r.has_order_by == (has_magic(bytes@) && bytes@[14] != 0)
            },
        },
{
    let mut constraints: Vec<PlanConstraint> = Vec::new();
    let mut order_by: Vec<CrsqlChangesColumn> = Vec::new();
    let bytes: &[u8] = match idx {
        None => return IdxPlan { constraints, order_by, desc: false, has_order_by: false },
        Some(b) => b,
    };
    if !starts_with_magic(bytes) {
        return IdxPlan { constraints, order_by, desc: false, has_order_by: false };
    }
    let nc: usize = bytes[11] as usize;
    let no: usize = bytes[12] as usize;
    let mut k: usize = 0;
    while k < nc
        invariant
            k <= nc <= 255,
            nc == bytes@[11],
            plan_readable(bytes@),
            has_magic(bytes@),
            constraints@ =~= read_constraints(bytes@).take(k as int),
        decreases nc - k,
    {
        assert(bytes@[15 + 3 * (k as int)] < 10);
        constraints.push(
            PlanConstraint {
                col: column_of(bytes[15 + 3 * k]),
                op_id: bytes[16 + 3 * k],
                param_idx: bytes[17 + 3 * k],
            },
        );
        k = k + 1;
    }
    let mut m: usize = 0;
    while m < no
        invariant
            m <= no <= 255,
            nc <= 255,
            nc == bytes@[11],
            no == bytes@[12],
            plan_readable(bytes@),
            has_magic(bytes@),
            order_by@ =~= read_order_by(bytes@).take(m as int),
        decreases no - m,
    {
        assert(bytes@[15 + 3 * (nc as int) + m] < 10);
        order_by.push(column_of(bytes[15 + 3 * nc + m]));
        m = m + 1;
    }
    assert(constraints@ =~= read_constraints(bytes@));
    assert(order_by@ =~= read_order_by(bytes@));
    IdxPlan { constraints, order_by, desc: bytes[13] != 0, has_order_by: bytes[14] != 0 }
}

proof fn lemma_constraint_bytes(s: Seq<PlanConstraint>)
    ensures
        constraint_bytes(s).len() == 3 * s.len(),
        forall|k: int|
            0 <= k < s.len() ==> {
                &&& #[trigger] constraint_bytes(s)[3 * k] == s[k].col.spec_index()
                &&& constraint_bytes(s)[3 * k + 1] == s[k].op_id
                &&& constraint_bytes(s)[3 * k + 2] == s[k].param_idx
            },
    decreases s.len(),
{
    if s.len() > 0 {
        let front = s.drop_last();
        lemma_constraint_bytes(front);
        assert forall|k: int| 0 <= k < s.len() implies {
            &&& #[trigger] constraint_bytes(s)[3 * k] == s[k].col.spec_index()
            &&& constraint_bytes(s)[3 * k + 1] == s[k].op_id
            &&& constraint_bytes(s)[3 * k + 2] == s[k].param_idx
        } by {
            if k < front.len() {
                assert(constraint_bytes(front)[3 * k] == front[k].col.spec_index());
                assert(constraint_bytes(s)[3 * k] == constraint_bytes(front)[3 * k]);
                assert(constraint_bytes(s)[3 * k + 1] == constraint_bytes(front)[3 * k + 1]);
                assert(constraint_bytes(s)[3 * k + 2] == constraint_bytes(front)[3 * k + 2]);
            }
        }
    }
}

/// Reading a plan gives back what it was made of: a plan of at most 255 conditions and
/// 255 columns.
pub proof fn plan_round_trip(
    constraints: Seq<PlanConstraint>,
    order_by: Seq<CrsqlChangesColumn>,
    desc: bool,
    has_order_by: bool,
)
    requires
        constraints.len() <= 255,
        order_by.len() <= 255,
    ensures
        ({
            let bytes = plan_bytes(constraints, order_by, desc, has_order_by);
            &&& plan_readable(bytes)
            &&& has_magic(bytes)
            &&& read_constraints(bytes) == constraints
            &&& read_order_by(bytes) == order_by
            &&& (bytes[13] != 0) == desc
            &&& (bytes[14] != 0) == has_order_by
        }),
{
    let bytes = plan_bytes(constraints, order_by, desc, has_order_by);
    let header = header_bytes(constraints.len(), order_by.len(), desc, has_order_by);
    let cb = constraint_bytes(constraints);
    let n = constraints.len() as int;
    lemma_constraint_bytes(constraints);
    assert(header.len() == 15);
    assert(bytes.take(11) =~= idx_magic());
    assert(bytes[11] == n as u8);
    assert(bytes[12] == order_by.len() as u8);
    assert(bytes[13] == flag(desc));
    assert(bytes[14] == flag(has_order_by));
    assert forall|k: int| 0 <= k < n implies #[trigger] bytes[15 + 3 * k] == constraints[k].col.spec_index() && bytes[16
        + 3 * k] == constraints[k].op_id && bytes[17 + 3 * k] == constraints[k].param_idx by {
        assert(cb[3 * k] == constraints[k].col.spec_index());
        assert(bytes[15 + 3 * k] == cb[3 * k]);
        assert(bytes[16 + 3 * k] == cb[3 * k + 1]);
        assert(bytes[17 + 3 * k] == cb[3 * k + 2]);
    }
    assert forall|k: int| 0 <= k < order_by.len() implies #[trigger] bytes[15 + 3 * n + k]
        == order_by[k].spec_index() by {
        assert(bytes[15 + 3 * n + k] == column_bytes(order_by)[k]);
    }
    assert(read_constraints(bytes) =~= constraints) by {
        assert forall|k: int| 0 <= k < n implies read_constraints(bytes)[k] == constraints[k] by {
            assert(bytes[15 + 3 * k] == constraints[k].col.spec_index());
        }
    }
    assert(read_order_by(bytes) =~= order_by) by {
        assert forall|k: int| 0 <= k < order_by.len() implies read_order_by(bytes)[k] == order_by[k] by {
            assert(bytes[15 + 3 * n + k] == order_by[k].spec_index());
        }
    }
}

// ---------------------------------------------------------------------------
// Planning
// ---------------------------------------------------------------------------
/// A condition that a query has on the changes table.
#[derive(Clone, Copy, PartialEq, Eq, Structural, Debug)]
pub struct IndexConstraint {
    pub i_column: i32,
    pub op: u8,
    pub usable: u8,
}

/// An order that a query asks of the changes table.
#[derive(Clone, Copy, PartialEq, Eq, Structural, Debug)]
pub struct IndexOrderBy {
    pub i_column: i32,
    pub desc: u8,
}

/// Whether a column can be searched and ordered by: not the packed primary key, and not
/// the value.
pub open spec fn searchable(col: Option<CrsqlChangesColumn>) -> bool {
    match col {
        Some(CrsqlChangesColumn::Pk) => false,
        Some(CrsqlChangesColumn::Cval) => false,
        Some(_) => true,
        None => false,
    }
}

/// Whether a condition can be used.
pub open spec fn usable(c: IndexConstraint) -> bool {
    c.usable != 0 && searchable(CrsqlChangesColumn::spec_from_i32(c.i_column))
}

/// Whether a condition is taken over by the changes table.
pub open spec fn taken(c: IndexConstraint) -> bool {
    usable(c) && supported_op(c.op)
}

/// Whether an operator takes a parameter.
pub open spec fn has_param(op: u8) -> bool {
    op != INDEX_CONSTRAINT_ISNOTNULL && op != INDEX_CONSTRAINT_ISNULL
}

fn is_searchable(col: Option<CrsqlChangesColumn>) -> (r: bool)
    ensures
        r == searchable(col),
{
    match col {
        Some(CrsqlChangesColumn::Pk) => false,
        Some(CrsqlChangesColumn::Cval) => false,
        Some(_) => true,
        None => false,
    }
}

/// Whether a condition can be used.
pub fn constraint_is_usable(constraint: &IndexConstraint) -> (r: bool)
    ensures
        r == usable(*constraint),
{
    constraint.usable != 0 && is_searchable(CrsqlChangesColumn::from_i32(constraint.i_column))
}

/// How many parameters the conditions that are taken over have.
pub open spec fn params(s: Seq<IndexConstraint>) -> nat
    decreases s.len(),
{
    if s.len() == 0 {
        0
    } else {
        params(s.drop_last()) + if taken(s.last()) && has_param(s.last().op) { 1nat } else { 0 }
    }
}

/// The parameter of the last condition of `s`: none where it is not taken over, 0 where it
/// takes no parameter, else its number, from 1 on.
pub open spec fn last_param(s: Seq<IndexConstraint>) -> Option<int> {
    if !taken(s.last()) {
        None
    } else if has_param(s.last().op) {
        Some(params(s.drop_last()) as int + 1)
    } else {
        Some(0int)
    }
}

/// The parameter of each condition.
pub open spec fn usages(s: Seq<IndexConstraint>) -> Seq<Option<int>> {
    Seq::new(s.len(), |i: int| last_param(s.take(i + 1)))
}

/// The conditions that are taken over.
pub open spec fn plan_constraints(s: Seq<IndexConstraint>) -> Seq<PlanConstraint>
    decreases s.len(),
{
    if s.len() == 0 {
        seq![]
    } else {
        match last_param(s) {
            Some(p) => plan_constraints(s.drop_last()).push(
                PlanConstraint {
                    col: CrsqlChangesColumn::spec_from_i32(s.last().i_column).unwrap(),
                    op_id: s.last().op,
                    param_idx: (p % 256) as u8,
                },
            ),
            None => plan_constraints(s.drop_last()),
        }
    }
}

/// Whether one of the usable conditions is on that column.
pub open spec fn constrains(s: Seq<IndexConstraint>, col: CrsqlChangesColumn) -> bool {
    exists|i: int|
        0 <= i < s.len() && usable(#[trigger] s[i]) && CrsqlChangesColumn::spec_from_i32(s[i].i_column) == Some(
            col,
        )
}

/// The number of a plan: 2 where the version is searched for, 4 where the site is, and
/// their sum where both are.
pub open spec fn idx_num_of(s: Seq<IndexConstraint>) -> int {
    (if constrains(s, CrsqlChangesColumn::DbVrsn) {
        2int
    } else {
        0
    }) + (if constrains(s, CrsqlChangesColumn::SiteId) {
        4int
    } else {
        0
    })
}

/// The columns by which rows are ordered, of those that a query asks for.
pub open spec fn order_columns(s: Seq<IndexOrderBy>) -> Seq<CrsqlChangesColumn>
    decreases s.len(),
{
    if s.len() == 0 {
        seq![]
    } else {
        let col = CrsqlChangesColumn::spec_from_i32(s.last().i_column);
        if searchable(col) {
            order_columns(s.drop_last()).push(col.unwrap())
        } else {
            order_columns(s.drop_last())
        }
    }
}

/// Whether rows can be ordered as a query asks for.
pub open spec fn order_consumed(s: Seq<IndexOrderBy>) -> bool {
    forall|i: int| 0 <= i < s.len() ==> searchable(CrsqlChangesColumn::spec_from_i32((#[trigger] s[i]).i_column))
}

/// How many rows a query is thought to give, which is also what it is thought to cost:
/// one for a version of a site, ten for a version, else very many.
pub open spec fn estimate(s: Seq<IndexConstraint>) -> i64 {
    if constrains(s, CrsqlChangesColumn::DbVrsn) && constrains(s, CrsqlChangesColumn::SiteId) {
        1i64
    } else if constrains(s, CrsqlChangesColumn::DbVrsn) {
        10i64
    } else {
        2147483647i64
    }
}

/// How a query on the changes table is planned.
pub struct BestIndex {
    /// For each condition, the number of its parameter where it is taken over, and 0 where
    /// it then takes none.
    pub usage: Vec<Option<i32>>,
    pub idx_num: i32,
    /// The plan, as bytes.
    pub idx_str: Vec<u8>,
    pub order_by_consumed: bool,
    /// The estimated cost, and number of rows.
    pub estimated: i64,
}

/// The columns by which rows are ordered: as the query asks for, else by version and
/// then by position in the version.
pub open spec fn plan_order(s: Seq<IndexOrderBy>) -> Seq<CrsqlChangesColumn> {
    if s.len() == 0 {
        seq![CrsqlChangesColumn::DbVrsn, CrsqlChangesColumn::SeqNo]
    } else {
        order_columns(s)
    }
}

/// Whether the rows are ordered downwards: the last of the columns that a query asks for decides.
pub open spec fn order_desc(s: Seq<IndexOrderBy>) -> bool {
    s.len() > 0 && s.last().desc != 0
}

/// The direction of an order is that of the last column that is asked for, whatever came before it;
/// without an order it is upwards.
pub proof fn last_column_decides_direction(s: Seq<IndexOrderBy>, o: IndexOrderBy)
    ensures
        order_desc(s.push(o)) <==> o.desc != 0,
        !order_desc(seq![]),
{
}

/// Plans a query on the changes table.
pub fn changes_best_index(constraints: &[IndexConstraint], order_bys: &[IndexOrderBy]) -> (r: BestIndex)
    requires
        constraints@.len() < i32::MAX,
    ensures
        r.usage@.len() == constraints@.len(),
        forall|i: int|
            0 <= i < constraints@.len() ==> match usages(constraints@)[i] {
                Some(p) => (#[trigger] r.usage@[i]) matches Some(q) && q == p,
                None => r.usage@[i] is None,
            },
        r.idx_num == idx_num_of(constraints@),
        r.idx_str@ == plan_bytes(
            plan_constraints(constraints@),
            plan_order(order_bys@),
            order_desc(order_bys@),
            order_bys@.len() > 0,
        ),
        r.order_by_consumed == order_consumed(order_bys@),
        r.estimated == estimate(constraints@),
{
    let mut plan: Vec<PlanConstraint> = Vec::new();
    let mut usage: Vec<Option<i32>> = Vec::new();
    let mut next: i32 = 1;
    let mut by_version: bool = false;
    let mut by_site: bool = false;
    let mut i: usize = 0;
    assert(constraints@.take(0) =~= seq![]);
    while i < constraints.len()
        invariant
            i <= constraints@.len() < i32::MAX,
            1 <= next <= i + 1,
            next == params(constraints@.take(i as int)) + 1,
            plan@ == plan_constraints(constraints@.take(i as int)),
            by_version == constrains(constraints@.take(i as int), CrsqlChangesColumn::DbVrsn),
            by_site == constrains(constraints@.take(i as int), CrsqlChangesColumn::SiteId),
            usage@.len() == i,
            forall|j: int|
                0 <= j < i ==> match usages(constraints@)[j] {
                    Some(p) => (#[trigger] usage@[j]) matches Some(q) && q == p,
                    None => usage@[j] is None,
                },
        decreases constraints@.len() - i,
    {
        let c = constraints[i];
        let ghost now = constraints@.take(i + 1);
        proof {
            assert(now.drop_last() =~= constraints@.take(i as int));
            assert(now.last() == c);
            lemma_constrains_push(constraints@.take(i as int), c, CrsqlChangesColumn::DbVrsn);
            lemma_constrains_push(constraints@.take(i as int), c, CrsqlChangesColumn::SiteId);
            assert(constraints@.take(i as int).push(c) =~= now);
            assert(usages(constraints@)[i as int] == last_param(now));
        }
        let mut used: Option<i32> = None;
        if constraint_is_usable(&c) {
            match CrsqlChangesColumn::from_i32(c.i_column) {
                Some(col) => {
                    if is_supported_op(c.op) {
                        if c.op == INDEX_CONSTRAINT_ISNOTNULL || c.op == INDEX_CONSTRAINT_ISNULL {
                            used = Some(0);
                            plan.push(PlanConstraint { col, op_id: c.op, param_idx: 0 });
                        } else {
                            used = Some(next);
                            plan.push(
                                PlanConstraint { col, op_id: c.op, param_idx: (next % 256) as u8 },
                            );
                            next = next + 1;
                        }
                    }
                    match col {
                        CrsqlChangesColumn::DbVrsn => by_version = true,
                        CrsqlChangesColumn::SiteId => by_site = true,
                        _ => {},
                    }
                },
                None => {},
            }
        }
        usage.push(used);
        i = i + 1;
    }
    assert(constraints@.take(i as int) =~= constraints@);
    let (order_by_cols, consumed, desc) = plan_order_by(order_bys);
    let has_order_by: bool = order_bys.len() > 0;
    let estimated: i64 = if by_version && by_site {
        1
    } else if by_version {
        10
    } else {
        2147483647
    };
    let version_bit: i32 = if by_version {
        2
    } else {
        0
    };
    let site_bit: i32 = if by_site {
        4
    } else {
        0
    };
    BestIndex {
        usage,
        idx_num: version_bit + site_bit,
        idx_str: alloc_idx_plan(plan.as_slice(), order_by_cols.as_slice(), desc, has_order_by),
        order_by_consumed: consumed,
        estimated,
    }
}

proof fn lemma_constrains_push(s: Seq<IndexConstraint>, c: IndexConstraint, col: CrsqlChangesColumn)
    ensures
        constrains(s.push(c), col) == (constrains(s, col) || (usable(c)
            && CrsqlChangesColumn::spec_from_i32(c.i_column) == Some(col))),
{
    let all = s.push(c);
    if constrains(s, col) {
        let i = choose|i: int|
            0 <= i < s.len() && usable(#[trigger] s[i]) && CrsqlChangesColumn::spec_from_i32(s[i].i_column) == Some(
                col,
            );
        assert(all[i] == s[i]);
    }
    if usable(c) && CrsqlChangesColumn::spec_from_i32(c.i_column) == Some(col) {
        assert(all[s.len() as int] == c);
    }
    if constrains(all, col) {
        let i = choose|i: int|
            0 <= i < all.len() && usable(#[trigger] all[i]) && CrsqlChangesColumn::spec_from_i32(all[i].i_column)
                == Some(col);
        if i < s.len() {
            assert(s[i] == all[i]);
        }
    }
}

fn plan_order_by(order_bys: &[IndexOrderBy]) -> (r: (Vec<CrsqlChangesColumn>, bool, bool))
    ensures
        r.0@ == plan_order(order_bys@),
        r.1 == order_consumed(order_bys@),
        r.2 == order_desc(order_bys@),
{
    let mut order_by_cols: Vec<CrsqlChangesColumn> = Vec::new();
    let mut consumed: bool = true;
    let mut desc: bool = false;
    let mut k: usize = 0;
    assert(order_bys@.take(0) =~= seq![]);
    while k < order_bys.len()
        invariant
            k <= order_bys@.len(),
            order_by_cols@ == order_columns(order_bys@.take(k as int)),
            consumed == order_consumed(order_bys@.take(k as int)),
            desc == (k > 0 && order_bys@[k - 1].desc != 0),
        decreases order_bys@.len() - k,
    {
        let o = order_bys[k];
        proof {
            let now = order_bys@.take(k + 1);
            let before = order_bys@.take(k as int);
            assert(now.drop_last() =~= before);
            assert(now.last() == o);
            assert(order_consumed(now) == (order_consumed(before) && searchable(
                CrsqlChangesColumn::spec_from_i32(o.i_column),
            ))) by {
                assert(now[k as int] == o);
                assert forall|i: int| 0 <= i < before.len() implies before[i] == now[i] by {}
                if order_consumed(now) {
                    assert forall|i: int| 0 <= i < before.len() implies searchable(
                        CrsqlChangesColumn::spec_from_i32((#[trigger] before[i]).i_column),
                    ) by {
                        assert(now[i] == before[i]);
                    }
                }
                if order_consumed(before) && searchable(CrsqlChangesColumn::spec_from_i32(o.i_column)) {
                    assert forall|i: int| 0 <= i < now.len() implies searchable(
                        CrsqlChangesColumn::spec_from_i32((#[trigger] now[i]).i_column),
                    ) by {
                        if i < before.len() {
                            assert(before[i] == now[i]);
                        }
                    }
                }
            }
        }
        desc = o.desc != 0;
        match CrsqlChangesColumn::from_i32(o.i_column) {
            Some(col) => {
                if is_searchable(Some(col)) {
                    order_by_cols.push(col);
                } else {
                    consumed = false;
                }
            },
            None => {
                consumed = false;
            },
        }
        k = k + 1;
    }
    assert(order_bys@.take(k as int) =~= order_bys@);
    if order_bys.len() == 0 {
        order_by_cols.push(CrsqlChangesColumn::DbVrsn);
        order_by_cols.push(CrsqlChangesColumn::SeqNo);
        assert(order_by_cols@ =~= plan_order(order_bys@));
    }
    (order_by_cols, consumed, desc)
}

proof fn lemma_params(s: Seq<IndexConstraint>, i: int)
    requires
        0 <= i <= s.len(),
    ensures
        params(s.take(i)) <= params(s),
    decreases s.len() - i,
{
    if i == s.len() {
        assert(s.take(i) =~= s);
    } else {
        lemma_params(s, i + 1);
        assert(s.take(i + 1).drop_last() =~= s.take(i));
    }
}

/// The parameters of the conditions that are taken over are numbered from 1 on, in the order of the
/// conditions, and without a gap: the first one is 1, and each is one more than the one before it.
/// Conditions that take no parameter have none of these numbers, and conditions that cannot be used
/// are left to the caller.
pub proof fn parameters_are_numbered_in_order(s: Seq<IndexConstraint>, i: int, j: int)
    requires
        0 <= i < s.len(),
        i < j < s.len(),
    ensures
        usages(s)[i] is Some <==> taken(s[i]),
        usages(s)[i] == Some(0int) <==> taken(s[i]) && (s[i].op == 70 || s[i].op == 71),
        usages(s)[i] matches Some(p) && p > 0 && (usages(s)[j] matches Some(q) && q > 0) ==> usages(s)[i]->Some_0
            < usages(s)[j]->Some_0,
        taken(s[i]) && has_param(s[i].op) && taken(s[j]) && has_param(s[j].op) && (forall|k: int|
            i < k < j ==> !(taken(#[trigger] s[k]) && has_param(s[k].op))) ==> usages(s)[j]->Some_0
            == usages(s)[i]->Some_0 + 1,
        taken(s[i]) && has_param(s[i].op) && (forall|k: int|
            0 <= k < i ==> !(taken(#[trigger] s[k]) && has_param(s[k].op))) ==> usages(s)[i] == Some(1int),
{
    assert(s.take(i + 1).last() == s[i]);
    assert(s.take(j + 1).last() == s[j]);
    assert(s.take(i + 1).drop_last() =~= s.take(i));
    assert(s.take(j + 1).drop_last() =~= s.take(j));
    lemma_params(s.take(j), i + 1);
    assert(s.take(j).take(i + 1) =~= s.take(i + 1));
    if forall|k: int| i < k < j ==> !(taken(#[trigger] s[k]) && has_param(s[k].op)) {
        lemma_no_params(s, i + 1, j);
    }
    if forall|k: int| 0 <= k < i ==> !(taken(#[trigger] s[k]) && has_param(s[k].op)) {
        lemma_no_params(s, 0, i);
        assert(s.take(0) =~= seq![]);
    }
}

proof fn lemma_no_params(s: Seq<IndexConstraint>, i: int, j: int)
    requires
        0 <= i <= j <= s.len(),
        forall|k: int| i <= k < j ==> !(taken(#[trigger] s[k]) && has_param(s[k].op)),
    ensures
        params(s.take(i)) == params(s.take(j)),
    decreases j - i,
{
    if i < j {
        lemma_no_params(s, i, j - 1);
        assert(s.take(j).drop_last() =~= s.take(j - 1));
        assert(s.take(j).last() == s[j - 1]);
    }
}

/// Conditions are taken over on all columns but the packed primary key and the value, where they
/// can be used, and with the operators that have a text; only whether something is null needs no
/// parameter.
pub proof fn conditions_that_are_taken(c: IndexConstraint)
    ensures
        usable(c) <==> c.usable != 0 && 0 <= c.i_column < 10 && c.i_column != 1 && c.i_column != 3,
        supported_op(c.op) <==> c.op == 2 || c.op == 4 || c.op == 8 || c.op == 16 || c.op == 32 || 64 <= c.op <= 72,
        taken(c) <==> usable(c) && supported_op(c.op),
        has_param(c.op) <==> c.op != 70 && c.op != 71,
{
}

/// The plan holds exactly the conditions that are taken over, in their order, each with its own
/// column, operator and parameter.
pub proof fn plans_hold_what_is_taken(s: Seq<IndexConstraint>, c: IndexConstraint)
    ensures
        !taken(c) ==> plan_constraints(s.push(c)) == plan_constraints(s),
        taken(c) ==> ({
            let plan = plan_constraints(s.push(c));
            &&& plan.len() == plan_constraints(s).len() + 1
            &&& plan.drop_last() == plan_constraints(s)
            &&& plan.last().op_id == c.op
            &&& plan.last().col.spec_index() == c.i_column
            &&& plan.last().param_idx == (if has_param(c.op) {
                (params(s) + 1) % 256
            } else {
                0
            })
        }),
{
    assert(s.push(c).drop_last() =~= s);
    if taken(c) {
        assert(plan_constraints(s.push(c)).drop_last() =~= plan_constraints(s));
    }
}

/// A query that searches by version and site is thought cheaper than one by version alone, and that
/// cheaper than all others; the number of a plan tells the four apart; and a further condition
/// never makes a query dearer.
pub proof fn narrower_queries_are_cheaper(s: Seq<IndexConstraint>, c: IndexConstraint)
    ensures
        constrains(s, CrsqlChangesColumn::DbVrsn) && constrains(s, CrsqlChangesColumn::SiteId) ==> estimate(s) == 1
            && idx_num_of(s) == 6,
        constrains(s, CrsqlChangesColumn::DbVrsn) && !constrains(s, CrsqlChangesColumn::SiteId) ==> estimate(s) == 10
            && idx_num_of(s) == 2,
        !constrains(s, CrsqlChangesColumn::DbVrsn) ==> estimate(s) == i32::MAX,
        !constrains(s, CrsqlChangesColumn::DbVrsn) && constrains(s, CrsqlChangesColumn::SiteId) ==> idx_num_of(s) == 4,
        !constrains(s, CrsqlChangesColumn::DbVrsn) && !constrains(s, CrsqlChangesColumn::SiteId) ==> idx_num_of(s) == 0,
        estimate(s.push(c)) <= estimate(s),
        usable(c) && c.i_column == 5 ==> estimate(s.push(c)) <= 10,
        usable(c) && c.i_column != 5 && c.i_column != 6 ==> estimate(s.push(c)) == estimate(s),
{
    lemma_constrains_push(s, c, CrsqlChangesColumn::DbVrsn);
    lemma_constrains_push(s, c, CrsqlChangesColumn::SiteId);
}

/// The rows come in the order that is asked for exactly where every column of it can be ordered by:
/// then the plan has the same columns in the same order. Without an order they come by version, and
/// by position in it.
pub proof fn orders_are_kept(s: Seq<IndexOrderBy>)
    ensures
        order_columns(s).len() <= s.len(),
        order_consumed(s) <==> order_columns(s).len() == s.len(),
        order_consumed(s) ==> forall|i: int|
            0 <= i < s.len() ==> (#[trigger] order_columns(s)[i]).spec_index() == s[i].i_column,
        s.len() > 0 ==> plan_order(s) == order_columns(s),
        s.len() == 0 ==> plan_order(s).len() == 2 && plan_order(s)[0].spec_index() == 5 && plan_order(
            s,
        )[1].spec_index() == 8,
    decreases s.len(),
{
    if s.len() > 0 {
        let front = s.drop_last();
        orders_are_kept(front);
        let col = CrsqlChangesColumn::spec_from_i32(s.last().i_column);
        if order_consumed(s) {
            assert(searchable(CrsqlChangesColumn::spec_from_i32(s[s.len() - 1].i_column)));
            assert forall|i: int| 0 <= i < front.len() implies searchable(
                CrsqlChangesColumn::spec_from_i32((#[trigger] front[i]).i_column),
            ) by {
                assert(front[i] == s[i]);
            }
            assert forall|i: int| 0 <= i < s.len() implies (#[trigger] order_columns(s)[i]).spec_index()
                == s[i].i_column by {
                if i < front.len() {
                    assert(order_columns(s)[i] == order_columns(front)[i]);
                    assert(front[i] == s[i]);
                }
            }
        }
        if order_columns(s).len() == s.len() {
            assert(searchable(col));
            assert forall|i: int| 0 <= i < s.len() implies searchable(
                CrsqlChangesColumn::spec_from_i32((#[trigger] s[i]).i_column),
            ) by {
                if i < front.len() {
                    assert(front[i] == s[i]);
                }
            }
        }
    }
}

// ---------------------------------------------------------------------------
// Cursors
// ---------------------------------------------------------------------------
/// What a cursor has kept of its last query.
#[derive(Clone, Copy, PartialEq, Eq, Structural, Debug)]
pub struct CursorCache {
    /// Whether there is a statement.
    pub has_stmt: bool,
    /// Where the plan of the statement lies, 0 for nowhere.
    pub idx_str: u64,
    pub meta_use_version: i32,
    pub sync_log_version: i32,
    pub schema_version: i32,
}

/// How a query on the changes table starts.
#[derive(Clone, Copy, PartialEq, Eq, Structural, Debug)]
pub enum FilterStep {
    /// Nothing is replicated: there are no rows.
    Empty,
    /// The statement that was kept will do.
    Reuse,
    /// Make a statement.
    Build,
}

/// How a query on the changes table starts: the statement that was kept is used again for
/// the same plan, under the same settings, on the same schema.
pub open spec fn filter_step(ext: ExtData, tables: int, kept: CursorCache, idx_str: u64) -> FilterStep {
    if tables == 0 {
        FilterStep::Empty
    } else if kept.has_stmt && kept.idx_str != 0 && kept.idx_str == idx_str && kept.meta_use_version
        == ext.metadata_use_version && kept.sync_log_version == ext.sync_log_version && kept.schema_version
        == ext.pragma_schema_version_for_table_infos {
        FilterStep::Reuse
    } else {
        FilterStep::Build
    }
}

/// How a query on the changes table starts: the statement that was kept is used again for
/// the same plan, under the same settings, on the same schema.
pub fn changes_filter(ext: &ExtData, tables: usize, kept: &CursorCache, idx_str: u64) -> (r: FilterStep)
    ensures
        r == filter_step(*ext, tables as int, *kept, idx_str),
{
    if tables == 0 {
        FilterStep::Empty
    } else if kept.has_stmt && kept.idx_str != 0 && kept.idx_str == idx_str && kept.meta_use_version
        == ext.metadata_use_version && kept.sync_log_version == ext.sync_log_version && kept.schema_version
        == ext.pragma_schema_version_for_table_infos {
        FilterStep::Reuse
    } else {
        FilterStep::Build
    }
}

/// What a cursor keeps of a statement that was made.
pub open spec fn kept_of(ext: ExtData, idx_str: u64) -> CursorCache {
    CursorCache {
        has_stmt: false,
        idx_str,
        meta_use_version: ext.metadata_use_version,
        sync_log_version: ext.sync_log_version,
        schema_version: ext.pragma_schema_version_for_table_infos,
    }
}

/// A statement that was kept is used again exactly where it was made for the same plan, and where
/// neither the settings that it depends on nor the schema have changed since it was made. Without
/// tables there is nothing to read.
pub proof fn statements_are_used_again_while_they_hold(ext: ExtData, now: ExtData, tables: int, idx_str: u64, wanted: u64)
    requires
        tables > 0,
        idx_str != 0,
    ensures
        ({
            let kept = CursorCache { has_stmt: true, ..kept_of(ext, idx_str) };
            &&& filter_step(now, tables, kept, wanted) == FilterStep::Reuse <==> {
                &&& wanted == idx_str
                &&& now.metadata_use_version == ext.metadata_use_version
                &&& now.sync_log_version == ext.sync_log_version
                &&& now.pragma_schema_version_for_table_infos == ext.pragma_schema_version_for_table_infos
            }
            &&& filter_step(now, tables, kept, wanted) != FilterStep::Empty
            &&& filter_step(now, 0, kept, wanted) == FilterStep::Empty
            &&& filter_step(now, tables, kept_of(ext, idx_str), wanted) == FilterStep::Build
            &&& filter_step(now, tables, CursorCache { idx_str: 0, ..kept }, 0) == FilterStep::Build
        }),
{
}

/// What a cursor keeps of a statement that was made.
pub fn kept_after_build(ext: &ExtData, idx_str: u64) -> (r: CursorCache)
    ensures
        r == kept_of(*ext, idx_str),
{
    CursorCache {
        has_stmt: false,
        idx_str,
        meta_use_version: ext.metadata_use_version,
        sync_log_version: ext.sync_log_version,
        schema_version: ext.pragma_schema_version_for_table_infos,
    }
}

/// The names of tables.
pub open spec fn table_names(tables: Seq<TableInfo>) -> Seq<Seq<char>> {
    tables.map_values(|t: TableInfo| t.tbl_name@)
}

/// A row of the changes table.
pub struct ChangeRow {
    /// Which of the known tables it is from.
    pub tbl_info_idx: i32,
    pub row_type: ChangeRowType,
    /// The statement that reads the value, where it has to be read.
    pub fetch: Option<String>,
}

/// Why a row of the changes table cannot be given.
pub struct RowError {
    pub code: ResultCode,
    /// What is said, where something is.
    pub message: Option<String>,
}

/// What a row is about, by the column that it names.
pub open spec fn row_type_of(cid: Seq<char>, sync_log_version: i32) -> ChangeRowType {
    if cid == DELETE_SENTINEL@ || cid == V2_HASH_TOMBSTONE_CID@ {
        ChangeRowType::Delete
    } else if sync_log_version == SYNC_LOG_V2 {
        ChangeRowType::PackedUpdate
    } else {
        ChangeRowType::Update
    }
}

/// Whether the value of a row has to be read from its table: it is a cell, and the query
/// on the first format does not hold the value.
pub open spec fn needs_fetch(row_type: ChangeRowType, metadata_use_version: i32) -> bool {
    row_type == ChangeRowType::Update && metadata_use_version != META_USE_V2
}

/// A row is a deletion exactly where the column that it names is one of the two marks; else it
/// stands for several cells exactly where changes are handed out in packed form. Only the value of
/// a single cell is read from its table, and not where the query holds it.
pub proof fn kinds_of_rows(cid: Seq<char>, sync_log_version: i32, use_version: i32)
    ensures
        row_type_of(cid, sync_log_version) == ChangeRowType::Delete <==> cid == "-1"@ || cid == "-2"@,
        row_type_of(cid, sync_log_version) == ChangeRowType::PackedUpdate <==> cid != "-1"@ && cid != "-2"@
            && sync_log_version == 2,
        row_type_of(cid, sync_log_version) == ChangeRowType::Update <==> cid != "-1"@ && cid != "-2"@
            && sync_log_version != 2,
        needs_fetch(row_type_of(cid, sync_log_version), use_version) <==> cid != "-1"@ && cid != "-2"@
            && sync_log_version != 2 && use_version != 2,
{
}

/// Finds a table by its name.
pub fn find_table(tables: &[TableInfo], name: &str) -> (r: Option<usize>)
    ensures
        match crate::tableinfo::position(table_names(tables@), name@) {
            Some(i) => r matches Some(j) && i == j && j < tables@.len(),
            None => r is None,
        },
{
    let ghost all = table_names(tables@);
    let mut i: usize = 0;
    assert(all.skip(0) =~= all);
    while i < tables.len()
        invariant
            i <= tables@.len(),
            all == table_names(tables@),
            crate::tableinfo::position(all, name@) == (match crate::tableinfo::position(all.skip(i as int), name@) {
                Some(j) => Some(i + j),
                None => None,
            }),
        decreases tables@.len() - i,
    {
        if same(tables[i].tbl_name.as_str(), name) {
            return Some(i);
        }
        assert(all.skip(i as int).skip(1) =~= all.skip(i + 1));
        i = i + 1;
    }
    None
}

/// What a row of the query behind the changes table is.
pub enum NextRow {
    /// A row of the table with this index: what it is about, and the statement that reads its
    /// value, where it has to be read.
    Row(int, ChangeRowType, Option<Seq<char>>),
    /// It cannot be given, and what is said of it, if anything.
    Failed(Option<Seq<char>>),
}

/// What a row of the query behind the changes table is: `tbl` and `cid` are the table and
/// the column that it names.
pub open spec fn next_row(
    tables: Seq<TableInfo>,
    tbl: Seq<char>,
    cid: Seq<char>,
    sync_log_version: i32,
    use_version: i32,
) -> NextRow {
    let row_type = row_type_of(cid, sync_log_version);
    match crate::tableinfo::position(table_names(tables), tbl) {
        None => NextRow::Failed(Some("could not find schema for table "@ + tbl)),
        Some(i) => if tables[i].pks@.len() == 0 {
            NextRow::Failed(Some("crr "@ + tbl + " is missing primary keys"@))
        } else if needs_fetch(row_type, use_version) {
            match tables[i].non_pk_col(cid) {
                Some(c) => NextRow::Row(i, row_type, Some(tables[i].non_pks@[c].row_patch_data_sql(tables[i]))),
                None => NextRow::Failed(None),
            }
        } else {
            NextRow::Row(i, row_type, None)
        },
    }
}

/// A row belongs to the table that it names: the first of that name, which has a primary key. Its
/// value is read exactly where it is a single cell and the query does not hold values, from the
/// column that it names. Only where there is no such table, primary key or column can it not be
/// given.
pub proof fn rows_belong_to_their_tables(
    tables: Seq<TableInfo>,
    tbl: Seq<char>,
    cid: Seq<char>,
    sync_log_version: i32,
    use_version: i32,
)
    ensures
        next_row(tables, tbl, cid, sync_log_version, use_version) matches NextRow::Row(i, row_type, fetch) ==> {
            &&& 0 <= i < tables.len()
            &&& tables[i].tbl_name@ == tbl
            &&& forall|j: int| 0 <= j < i ==> (#[trigger] tables[j]).tbl_name@ != tbl
            &&& tables[i].pks@.len() > 0
            &&& row_type == row_type_of(cid, sync_log_version)
            &&& fetch is Some <==> row_type == ChangeRowType::Update && use_version != 2
            &&& fetch matches Some(sql) ==> exists|c: int|
                0 <= c < tables[i].non_pks@.len() && (#[trigger] tables[i].non_pks@[c]).name@ == cid && sql
                    == tables[i].non_pks@[c].row_patch_data_sql(tables[i])
        },
        next_row(tables, tbl, cid, sync_log_version, use_version) is Failed ==> {
            let found = crate::tableinfo::position(table_names(tables), tbl);
            ||| found is None
            ||| tables[found->Some_0].pks@.len() == 0
            ||| (needs_fetch(row_type_of(cid, sync_log_version), use_version) && tables[found->Some_0].non_pk_col(cid) is None)
        },
{
    let all = table_names(tables);
    crate::tableinfo::position_is_first(all, tbl);
    if let NextRow::Row(i, row_type, fetch) = next_row(tables, tbl, cid, sync_log_version, use_version) {
        assert(all[i] == tables[i].tbl_name@);
        assert forall|j: int| 0 <= j < i implies (#[trigger] tables[j]).tbl_name@ != tbl by {
            assert(all[j] == tables[j].tbl_name@);
        }
        if fetch is Some {
            let names = tables[i].non_pk_names();
            crate::tableinfo::position_is_first(names, cid);
            let c = tables[i].non_pk_col(cid)->Some_0;
            assert(names[c] == tables[i].non_pks@[c].name@);
        }
    }
}

/// What a row of the query behind the changes table is: `tbl` and `cid` are the table and
/// the column that it names.
pub fn changes_next(
    tables: &[TableInfo],
    tbl: &str,
    cid: &str,
    sync_log_version: i32,
    metadata_use_version: i32,
) -> (r: Result<ChangeRow, RowError>)
    requires
        tables@.len() <= i32::MAX,
    ensures
        match next_row(tables@, tbl@, cid@, sync_log_version, metadata_use_version) {
            NextRow::Row(i, row_type, fetch) => {
                &&& r matches Ok(row)
                &&& row.tbl_info_idx == i
                &&& row.row_type == row_type
                &&& match fetch {
                    Some(text) => row.fetch matches Some(sql) && sql@ == text,
                    None => row.fetch is None,
                }
            },
            NextRow::Failed(message) => {
                &&& r matches Err(e)
                &&& e.code == ResultCode::ERROR
                &&& match message {
                    Some(text) => e.message matches Some(msg) && msg@ == text,
                    None => e.message is None,
                }
            },
        },
{
    let i: usize = match find_table(tables, tbl) {
        Some(i) => i,
        None => {
            return Err(
                RowError {
                    code: ResultCode::ERROR,
                    message: Some("could not find schema for table ".to_owned().concat(tbl)),
                },
            );
        },
    };
    let t = &tables[i];
    if t.pks.len() == 0 {
        return Err(
            RowError {
                code: ResultCode::ERROR,
                message: Some("crr ".to_owned().concat(tbl).concat(" is missing primary keys")),
            },
        );
    }
    let row_type = if same(cid, DELETE_SENTINEL) || same(cid, V2_HASH_TOMBSTONE_CID) {
        ChangeRowType::Delete
    } else if same(cid, INSERT_SENTINEL) {
        ChangeRowType::PkOnly
    } else if sync_log_version == SYNC_LOG_V2 {
        ChangeRowType::PackedUpdate
    } else {
        ChangeRowType::Update
    };
    let cell: bool = matches!(row_type, ChangeRowType::Update);
    if !cell || metadata_use_version == META_USE_V2 {
        return Ok(ChangeRow { tbl_info_idx: i as i32, row_type, fetch: None });
    }
    match t.get_row_patch_data_stmt(cid) {
        Ok(sql) => Ok(ChangeRow { tbl_info_idx: i as i32, row_type, fetch: Some(sql) }),
        Err(code) => Err(RowError { code, message: None }),
    }
}

/// Where the value of a column of the changes table comes from.
#[derive(Clone, Copy, PartialEq, Eq, Structural, Debug)]
pub enum ColumnSource {
    /// A column of the query, as it is.
    Value(ClockUnionColumn),
    /// A column of the query, as a blob.
    Blob(ClockUnionColumn),
    /// The value that was read from the table.
    Row,
    Null,
    /// The mark of a row as a whole.
    Sentinel,
}

/// Where the value comes from.
pub open spec fn cval_source(row_type: Option<ChangeRowType>, has_row: bool) -> ColumnSource {
    match row_type {
        Some(ChangeRowType::PackedUpdate) => ColumnSource::Blob(ClockUnionColumn::Cval),
        Some(ChangeRowType::Update) => if has_row {
            ColumnSource::Row
        } else {
            ColumnSource::Value(ClockUnionColumn::Cval)
        },
        _ => if has_row {
            ColumnSource::Row
        } else {
            ColumnSource::Null
        },
    }
}

/// Where the name of the column comes from.
pub open spec fn cid_source(row_type: Option<ChangeRowType>, has_row: bool, use_version: i32) -> Result<
    ColumnSource,
    ResultCode,
> {
    match row_type {
        Some(ChangeRowType::PkOnly) => Ok(ColumnSource::Sentinel),
        Some(ChangeRowType::Delete) => Ok(ColumnSource::Value(ClockUnionColumn::Cid)),
        Some(ChangeRowType::PackedUpdate) => Ok(ColumnSource::Blob(ClockUnionColumn::Cid)),
        Some(ChangeRowType::Update) => if !has_row && use_version != META_USE_V2 {
            Ok(ColumnSource::Sentinel)
        } else {
            Ok(ColumnSource::Value(ClockUnionColumn::Cid))
        },
        None => Err(ResultCode::ABORT),
    }
}

/// Where a column that packed rows hold several values of comes from.
pub open spec fn packed_source(row_type: Option<ChangeRowType>, col: ClockUnionColumn) -> ColumnSource {
    if row_type == Some(ChangeRowType::PackedUpdate) {
        ColumnSource::Blob(col)
    } else {
        ColumnSource::Value(col)
    }
}

/// Where a column of the changes table comes from.
pub open spec fn source_of(i: i32, row_type: Option<ChangeRowType>, has_row: bool, use_version: i32) -> Result<
    ColumnSource,
    ResultCode,
> {
    match CrsqlChangesColumn::spec_from_i32(i) {
        Some(CrsqlChangesColumn::Tbl) => Ok(ColumnSource::Value(ClockUnionColumn::Tbl)),
        Some(CrsqlChangesColumn::Pk) => Ok(ColumnSource::Value(ClockUnionColumn::Pks)),
        Some(CrsqlChangesColumn::Cval) => Ok(cval_source(row_type, has_row)),
        Some(CrsqlChangesColumn::Cid) => cid_source(row_type, has_row, use_version),
        Some(CrsqlChangesColumn::ColVrsn) => Ok(packed_source(row_type, ClockUnionColumn::ColVrsn)),
        Some(CrsqlChangesColumn::DbVrsn) => Ok(ColumnSource::Value(ClockUnionColumn::DbVrsn)),
        Some(CrsqlChangesColumn::SiteId) => Ok(ColumnSource::Value(ClockUnionColumn::SiteId)),
        Some(CrsqlChangesColumn::SeqNo) => Ok(packed_source(row_type, ClockUnionColumn::SeqNo)),
        Some(CrsqlChangesColumn::Cl) => Ok(ColumnSource::Value(ClockUnionColumn::Cl)),
        Some(CrsqlChangesColumn::Ts) => Ok(ColumnSource::Value(ClockUnionColumn::Ts)),
        None => Err(ResultCode::MISUSE),
    }
}

/// Where column `i` of a row of the changes table comes from. `row_type` is the number of
/// what the row is about, and `has_row` says whether its value was read from its table.
pub fn column_impl(i: i32, row_type: i32, has_row: bool, metadata_use_version: i32) -> (r: Result<
    ColumnSource,
    ResultCode,
>)
    ensures
        r == source_of(i, ChangeRowType::spec_from_i32(row_type), has_row, metadata_use_version),
{
    let row_type: Option<ChangeRowType> = ChangeRowType::from_i32(row_type);
    let packed: bool = matches!(row_type, Some(ChangeRowType::PackedUpdate));
    match CrsqlChangesColumn::from_i32(i) {
        Some(CrsqlChangesColumn::Tbl) => Ok(ColumnSource::Value(ClockUnionColumn::Tbl)),
        Some(CrsqlChangesColumn::Pk) => Ok(ColumnSource::Value(ClockUnionColumn::Pks)),
        Some(CrsqlChangesColumn::Cval) => match row_type {
            Some(ChangeRowType::PackedUpdate) => Ok(ColumnSource::Blob(ClockUnionColumn::Cval)),
            Some(ChangeRowType::Update) => if has_row {
                Ok(ColumnSource::Row)
            } else {
                Ok(ColumnSource::Value(ClockUnionColumn::Cval))
            },
            _ => if has_row {
                Ok(ColumnSource::Row)
            } else {
                Ok(ColumnSource::Null)
            },
        },
        Some(CrsqlChangesColumn::Cid) => match row_type {
            Some(ChangeRowType::PkOnly) => Ok(ColumnSource::Sentinel),
            Some(ChangeRowType::Delete) => Ok(ColumnSource::Value(ClockUnionColumn::Cid)),
            Some(ChangeRowType::PackedUpdate) => Ok(ColumnSource::Blob(ClockUnionColumn::Cid)),
            Some(ChangeRowType::Update) => if !has_row && metadata_use_version != META_USE_V2 {
                Ok(ColumnSource::Sentinel)
            } else {
                Ok(ColumnSource::Value(ClockUnionColumn::Cid))
            },
            None => Err(ResultCode::ABORT),
        },
        Some(CrsqlChangesColumn::ColVrsn) => if packed {
            Ok(ColumnSource::Blob(ClockUnionColumn::ColVrsn))
        } else {
            Ok(ColumnSource::Value(ClockUnionColumn::ColVrsn))
        },
        Some(CrsqlChangesColumn::DbVrsn) => Ok(ColumnSource::Value(ClockUnionColumn::DbVrsn)),
        Some(CrsqlChangesColumn::SiteId) => Ok(ColumnSource::Value(ClockUnionColumn::SiteId)),
        Some(CrsqlChangesColumn::SeqNo) => if packed {
            Ok(ColumnSource::Blob(ClockUnionColumn::SeqNo))
        } else {
            Ok(ColumnSource::Value(ClockUnionColumn::SeqNo))
        },
        Some(CrsqlChangesColumn::Cl) => Ok(ColumnSource::Value(ClockUnionColumn::Cl)),
        Some(CrsqlChangesColumn::Ts) => Ok(ColumnSource::Value(ClockUnionColumn::Ts)),
        None => Err(ResultCode::MISUSE),
    }
}

/// The column of the query that a source is, where it is one.
pub open spec fn query_column(source: ColumnSource) -> Option<ClockUnionColumn> {
    match source {
        ColumnSource::Value(c) => Some(c),
        ColumnSource::Blob(c) => Some(c),
        _ => None,
    }
}

/// The columns of the changes table are, in order, the table, the packed key, the name of
/// the column, its value, its version, the version of the database, the site, the causal
/// length, the position in the version and the time. All but the name and the value come
/// from the column of the query that holds the same thing, whatever the row is about and
/// whether or not its value was read: the version of the column and the position as blobs
/// where a row stands for several cells, and all else as it is.
pub proof fn columns_hold_what_they_are_named_for(row_type: Option<ChangeRowType>, has_row: bool, use_version: i32)
    ensures
        source_of(0, row_type, has_row, use_version) == Ok::<ColumnSource, ResultCode>(
            ColumnSource::Value(ClockUnionColumn::Tbl),
        ),
        source_of(1, row_type, has_row, use_version) == Ok::<ColumnSource, ResultCode>(
            ColumnSource::Value(ClockUnionColumn::Pks),
        ),
        source_of(4, row_type, has_row, use_version) == Ok::<ColumnSource, ResultCode>(
            if row_type == Some(ChangeRowType::PackedUpdate) {
                ColumnSource::Blob(ClockUnionColumn::ColVrsn)
            } else {
                ColumnSource::Value(ClockUnionColumn::ColVrsn)
            },
        ),
        source_of(5, row_type, has_row, use_version) == Ok::<ColumnSource, ResultCode>(
            ColumnSource::Value(ClockUnionColumn::DbVrsn),
        ),
        source_of(6, row_type, has_row, use_version) == Ok::<ColumnSource, ResultCode>(
            ColumnSource::Value(ClockUnionColumn::SiteId),
        ),
        source_of(7, row_type, has_row, use_version) == Ok::<ColumnSource, ResultCode>(
            ColumnSource::Value(ClockUnionColumn::Cl),
        ),
        source_of(8, row_type, has_row, use_version) == Ok::<ColumnSource, ResultCode>(
            if row_type == Some(ChangeRowType::PackedUpdate) {
                ColumnSource::Blob(ClockUnionColumn::SeqNo)
            } else {
                ColumnSource::Value(ClockUnionColumn::SeqNo)
            },
        ),
        source_of(9, row_type, has_row, use_version) == Ok::<ColumnSource, ResultCode>(
            ColumnSource::Value(ClockUnionColumn::Ts),
        ),
        forall|i: int|
            0 <= i < 10 ==> ((#[trigger] CrsqlChangesColumn::spec_from_i32(i as i32)) matches Some(c)
                && c.spec_index() == i),
{
}

/// No two columns of the changes table come from the same column of the query.
pub proof fn columns_are_told_apart(
    i: i32,
    j: i32,
    a: ColumnSource,
    b: ColumnSource,
    row_type: Option<ChangeRowType>,
    has_row: bool,
    use_version: i32,
)
    requires
        i != j,
        source_of(i, row_type, has_row, use_version) == Ok::<ColumnSource, ResultCode>(a),
        source_of(j, row_type, has_row, use_version) == Ok::<ColumnSource, ResultCode>(b),
    ensures
        query_column(a) is Some ==> query_column(a) != query_column(b),
        query_column(a) != Some(ClockUnionColumn::RowId),
{
}

/// The name of the column and its value. A row about a row as a whole has no value of its
/// own and no name but the mark; a deleted row keeps the name that tells what kind of
/// deletion it is; the cells that a packed row stands for come as they are packed; and a
/// cell has the name that the query gives and the value that was read from the table or,
/// where the query holds the values, the value there. A cell that is gone from the table
/// turns into the mark.
pub proof fn names_and_values_of_rows(has_row: bool, use_version: i32)
    ensures
        forall|row_type: ChangeRowType| #![trigger source_of(3, Some(row_type), has_row, use_version)]
            has_row && row_type != ChangeRowType::PackedUpdate ==> source_of(3, Some(row_type), has_row, use_version)
                == Ok::<ColumnSource, ResultCode>(ColumnSource::Row),
        source_of(3, Some(ChangeRowType::Update), false, use_version) == Ok::<ColumnSource, ResultCode>(
            ColumnSource::Value(ClockUnionColumn::Cval),
        ),
        source_of(3, Some(ChangeRowType::Delete), false, use_version) == Ok::<ColumnSource, ResultCode>(
            ColumnSource::Null,
        ),
        source_of(3, Some(ChangeRowType::PkOnly), false, use_version) == Ok::<ColumnSource, ResultCode>(
            ColumnSource::Null,
        ),
        source_of(3, None, false, use_version) == Ok::<ColumnSource, ResultCode>(ColumnSource::Null),
        source_of(3, Some(ChangeRowType::PackedUpdate), has_row, use_version) == Ok::<ColumnSource, ResultCode>(
            ColumnSource::Blob(ClockUnionColumn::Cval),
        ),
        source_of(2, Some(ChangeRowType::PackedUpdate), has_row, use_version) == Ok::<ColumnSource, ResultCode>(
            ColumnSource::Blob(ClockUnionColumn::Cid),
        ),
        source_of(2, Some(ChangeRowType::PkOnly), has_row, use_version) == Ok::<ColumnSource, ResultCode>(
            ColumnSource::Sentinel,
        ),
        source_of(2, Some(ChangeRowType::Delete), has_row, use_version) == Ok::<ColumnSource, ResultCode>(
            ColumnSource::Value(ClockUnionColumn::Cid),
        ),
        source_of(2, Some(ChangeRowType::Update), true, use_version) == Ok::<ColumnSource, ResultCode>(
            ColumnSource::Value(ClockUnionColumn::Cid),
        ),
        source_of(2, Some(ChangeRowType::Update), has_row, 2) == Ok::<ColumnSource, ResultCode>(
            ColumnSource::Value(ClockUnionColumn::Cid),
        ),
        use_version != 2 ==> source_of(2, Some(ChangeRowType::Update), false, use_version) == Ok::<
            ColumnSource,
            ResultCode,
        >(ColumnSource::Sentinel),
{
}

/// Only columns that are not there, and the name of the column of a row that is about
/// nothing known, have no source.
pub proof fn only_unknown_columns_fail(i: i32, row_type: Option<ChangeRowType>, has_row: bool, use_version: i32)
    ensures
        source_of(i, row_type, has_row, use_version) == Err::<ColumnSource, ResultCode>(ResultCode::MISUSE) <==> !(0
            <= i < 10),
        source_of(i, row_type, has_row, use_version) == Err::<ColumnSource, ResultCode>(ResultCode::ABORT) <==> i == 2
            && row_type is None,
        source_of(i, row_type, has_row, use_version) is Err <==> !(0 <= i < 10) || (i == 2 && row_type is None),
{
}

/// The rowid of a row of the changes table, and whether it has one.
pub fn crsql_changes_rowid(tbl_info_idx: i32, changes_rowid: i64) -> (r: (i64, ResultCode))
    ensures
        r.0 == slab(tbl_info_idx as int, changes_rowid as int),
        r.1 == (if r.0 < 0 {
            ResultCode::ERROR
        } else {
            ResultCode::OK
        }),
{
    let rowid: i64 = slab_rowid(tbl_info_idx, changes_rowid);
    if rowid < 0 {
        (rowid, ResultCode::ERROR)
    } else {
        (rowid, ResultCode::OK)
    }
}

/// What a write to the changes table is.
#[derive(Clone, Copy, PartialEq, Eq, Structural, Debug)]
pub enum UpdateStep {
    /// A change to merge.
    Merge,
    /// A write of another kind, which is refused.
    Refuse(ResultCode),
}

/// Why a write is refused.
pub const UPDATE_REFUSED: &'static str = "Only INSERT and SELECT statements are allowed against the crsql changes table";

/// What a write to the changes table is: a row without an old rowid is a change to merge,
/// all else is refused.
pub fn crsql_changes_update(args: &[ColumnValue]) -> (r: UpdateStep)
    requires
        args@.len() > 0,
    ensures
        r == (if args@.len() > 1 && args@[0] is Null {
            UpdateStep::Merge
        } else {
            UpdateStep::Refuse(ResultCode::MISUSE)
        }),
{
    let null: bool = matches!(args[0], ColumnValue::Null);
    if args.len() > 1 && null {
        UpdateStep::Merge
    } else {
        UpdateStep::Refuse(ResultCode::MISUSE)
    }
}

/// Forgets how many rows the merges of a transaction have changed.
pub fn crsql_changes_commit(ext: &mut ExtData) -> (r: ResultCode)
    ensures
        *final(ext) == (ExtData { rows_impacted: 0, ..*old(ext) }),
        r == ResultCode::OK,
{
    ext.rows_impacted = 0;
    ResultCode::OK
}

} // verus!
