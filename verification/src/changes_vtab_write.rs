//! Merging changes from other sites.

use crate::cell::{cell_key, cell_key_base, cell_key_end, cell_of};
use crate::changes_vtab::{find_table, table_names};
use crate::config::{ensure_timestamp, METADATA_VERSION_V1, METADATA_VERSION_V2_AND_V1};
use crate::consts::{
    CRSQL_COL_ID_MASK, DELETE_SENTINEL, INSERT_SENTINEL, MAX_TBL_NAME_LEN, META_USE_V2, SITE_ID_LEN,
    V2_HASH_TOMBSTONE_CID,
};
use crate::ext_data::ExtData;
use crate::force_update::{is_alive, odd};
use crate::hash_pk::{hash_packed_blob, hash_pk_values_from_column_values, pk_hash};
use crate::merge_order::{bytes_greater, bytes_gt, wins};
use crate::pack_columns::{
    can_unpack, pack, pack_varints, packable, signed, spec_unpack_varints, to_signed, unpack, unpack_columns,
    unpack_pack, unpack_pack_varints, unpack_varints, vals, ColumnType, ColumnValue, Unpacked, Val,
};
use crate::result_code::{ResultCode, Stepped};
use crate::statement::{
    blob, bound, no_values, one, push_statement, push_unnoticed, push_value, push_values, sqls, two, unnoticed, Sql,
    Statement,
};
use crate::tableinfo::{position, TableInfo};
use crate::text::{decimal, decimal_of, decimal_usize, find, first_index, from_chars, joined, push_part, same, texts, to_chars};
use crate::v2_stmts::{
    base_delete_nonrowid_sql, base_delete_nonrowid_text, base_delete_rowid_sql, base_delete_rowid_text,
    base_insert_sql, base_insert_text, base_update_sql, base_update_text, clock_delete_range_sql,
    clock_delete_range_text, clock_merge_upsert_sql, clock_merge_upsert_text, clock_zero_fill_sql,
    clock_zero_fill_text, hydrate_clock_copy_sql, hydrate_clock_copy_text, lookup_row_state_sql,
    lookup_row_state_text, pks_delete_sql, pks_delete_text, table_pks_insert_sql, table_pks_insert_text,
    tomb_delete_sql, tomb_delete_text, tomb_insert_sql, tomb_insert_text, tomb_pks_delete_sql,
    tomb_pks_delete_text, tomb_pks_insert_sql, tomb_pks_insert_text, tomb_upsert_sql, tomb_upsert_text,
    v1_clock_copy_sql, v1_clock_copy_text, v1_clock_delete_sql, v1_clock_delete_text,
    v1_sentinel_insert_alive_sql, v1_sentinel_insert_alive_text, v1_sentinel_insert_dead_sql,
    v1_sentinel_insert_dead_text,
};
use vstd::prelude::*;
use vstd::slice::slice_subrange;
use vstd::string::*;
use vstd::utf8::encode_utf8;

verus! {

// ---------------------------------------------------------------------------
// Changes that come in
// ---------------------------------------------------------------------------
/// A change from another site. The version and the position are given in each of the
/// forms in which they may be needed: those of packed changes are lists.
pub struct Change {
    pub tbl: String,
    /// The packed primary key, or its hash.
    pub pk: Vec<u8>,
    /// The name of the column, or the names of several, or a mark for the whole row.
    pub cid: String,
    pub val: ColumnValue,
    /// The bytes of the value.
    pub val_blob: Vec<u8>,
    pub col_vrsn_type: ColumnType,
    pub col_vrsn: i64,
    pub col_vrsn_blob: Vec<u8>,
    pub db_vrsn: i64,
    pub site_id: Vec<u8>,
    pub cl: i64,
    pub seq: i64,
    pub seq_blob: Vec<u8>,
    pub ts: i64,
}

impl Change {
    /// Whether the change deletes a row that it knows by a hash.
    pub open spec fn is_hash_tombstone(self) -> bool {
        self.cid@ == V2_HASH_TOMBSTONE_CID@
    }

    /// Whether the change is about a whole row, or deletes it.
    pub open spec fn is_tombstone(self) -> bool {
        self.cid@ == DELETE_SENTINEL@ || self.is_hash_tombstone()
    }

    /// Whether the change holds several cells.
    pub open spec fn is_packed(self) -> bool {
        !self.is_tombstone() && (self.col_vrsn_type == ColumnType::Text || self.col_vrsn_type
            == ColumnType::Blob)
    }

    /// Whether the change deletes its row.
    pub open spec fn is_delete(self) -> bool {
        self.is_hash_tombstone() || (!self.is_packed() && !is_alive(self.cl as int))
    }

    /// Whether what the change packs lies within the format of packed values.
    pub open spec fn readable(self) -> bool {
        &&& !self.is_hash_tombstone() ==> !(unpack(self.pk@) is Undefined)
        &&& self.is_packed() ==> !(unpack(self.val_blob@) is Undefined)
    }

    fn hash_tombstone(&self) -> (r: bool)
        ensures
            r == self.is_hash_tombstone(),
    {
        same(self.cid.as_str(), V2_HASH_TOMBSTONE_CID)
    }

    fn packed(&self) -> (r: bool)
        ensures
            r == self.is_packed(),
    {
        let whole: bool = same(self.cid.as_str(), DELETE_SENTINEL) || self.hash_tombstone();
        let text: bool = matches!(self.col_vrsn_type, ColumnType::Text);
        let bytes: bool = matches!(self.col_vrsn_type, ColumnType::Blob);
        !whole && (text || bytes)
    }

    /// Whether what the change packs lies within the format of packed values, as
    /// [`merge_insert`] asks of it.
    pub fn can_read(&self) -> (r: bool)
        ensures
            r == self.readable(),
    {
        (self.hash_tombstone() || can_unpack(self.pk.as_slice())) && (!self.packed() || can_unpack(
            self.val_blob.as_slice(),
        ))
    }
}

/// Why a change is refused before anything is done: a name or a site id that is too long;
/// a change in the packed format where the metadata for it are not in use; a table that
/// is not replicated; a transaction without a time.
pub open spec fn refusal(ext: ExtData, tables: Seq<TableInfo>, c: Change) -> Option<Seq<char>> {
    if encode_utf8(c.tbl@).len() > MAX_TBL_NAME_LEN {
        Some("crsql - table name exceeded max length"@)
    } else if c.site_id@.len() > SITE_ID_LEN {
        Some("crsql - site id exceeded max length"@)
    } else if !c.is_packed() && encode_utf8(c.cid@).len() > MAX_TBL_NAME_LEN {
        Some("crsql - column name exceeded max length"@)
    } else if (c.is_packed() || c.is_hash_tombstone()) && ext.metadata_use_version != META_USE_V2 {
        Some("crsql - received V2 wire format change but metadata-use-version is not 2. Set metadata-use-version=2 before accepting V2 wire format changes."@)
    } else if position(table_names(tables), c.tbl@) is None {
        Some("crsql - could not find the schema information for table "@ + c.tbl@)
    } else if ext.timestamp == 0 && ext.default_timestamp == 0 {
        Some("crsql - timestamp not set — call crsql_set_ts() before syncing changes"@)
    } else {
        None
    }
}

/// The time of the transaction that a change is merged in.
pub open spec fn tx_time(ext: ExtData) -> u64 {
    if ext.timestamp != 0 {
        ext.timestamp
    } else {
        ext.default_timestamp
    }
}

/// The time of a change: that of the transaction where the change has none.
pub open spec fn change_time(ext: ExtData, c: Change) -> int {
    if c.ts > 0 {
        c.ts as int
    } else {
        signed(tx_time(ext) as nat)
    }
}

/// The cells of a change, one name, version, position and value each.
pub struct CellWrite {
    pub col_name: String,
    pub col_vrsn: i64,
    pub seq: i64,
    pub val: ColumnValue,
}

/// A cell of a change.
pub struct CellView {
    pub col_name: Seq<char>,
    pub col_vrsn: i64,
    pub seq: i64,
    pub val: Val,
}

impl View for CellWrite {
    type V = CellView;

    open spec fn view(&self) -> CellView {
        CellView { col_name: self.col_name@, col_vrsn: self.col_vrsn, seq: self.seq, val: self.val@ }
    }
}

/// The cells of a change.
pub open spec fn cell_views(s: Seq<CellWrite>) -> Seq<CellView> {
    s.map_values(|c: CellWrite| c@)
}

/// The parts of `s` between the NULs in it.
pub open spec fn split_nul(s: Seq<char>) -> Seq<Seq<char>>
    decreases s.len(),
{
    match first_index(s, '\0') {
        Some(i) => if 0 <= i < s.len() {
            seq![s.take(i)] + split_nul(s.skip(i + 1))
        } else {
            seq![s]
        },
        None => seq![s],
    }
}

fn split_names(s: &str) -> (r: Vec<String>)
    ensures
        texts(r@) == split_nul(s@),
{
    let chars = to_chars(s);
    let mut rest: &[char] = chars.as_slice();
    let mut parts: Vec<String> = Vec::new();
    assert(texts(parts@) =~= seq![]);
    assert(seq![] + split_nul(s@) =~= split_nul(s@));
    loop
        invariant_except_break
            split_nul(s@) == texts(parts@) + split_nul(rest@),
        ensures
            split_nul(s@) == texts(parts@),
        decreases rest@.len(),
    {
        let len: usize = rest.len();
        match find(rest, '\0') {
            Some(i) => {
                let part = slice_subrange(rest, 0, i);
                let next = slice_subrange(rest, i + 1, len);
                assert(part@ =~= rest@.take(i as int));
                assert(next@ =~= rest@.skip(i + 1));
                let ghost before = texts(parts@);
                push_part(&mut parts, from_chars(part));
                assert(before + (seq![part@] + split_nul(next@)) =~= texts(parts@) + split_nul(next@));
                rest = next;
            },
            None => {
                let ghost before = texts(parts@);
                push_part(&mut parts, from_chars(rest));
                assert(before + seq![rest@] =~= texts(parts@));
                break;
            },
        }
    }
    parts
}

/// What is said of a packed change whose parts do not fit together.
pub open spec fn mismatch_error(n: int, v: int, s: int, x: int) -> Seq<char> {
    "crsql - V2 wire packed row has mismatched lengths: col_names="@ + decimal_of(n) + ", col_vrsns="@ + decimal_of(v) + ", seqs="@ + decimal_of(s) + ", vals="@ + decimal_of(x)
}

/// What is said of a packed change whose parts do not fit together.
fn mismatch_text(n: usize, v: usize, s: usize, x: usize) -> (r: String)
    ensures
        r@ == mismatch_error(n as int, v as int, s as int, x as int),
{
    "crsql - V2 wire packed row has mismatched lengths: col_names=".to_owned()
        .concat(decimal_usize(n).as_str())
        .concat(", col_vrsns=")
        .concat(decimal_usize(v).as_str())
        .concat(", seqs=")
        .concat(decimal_usize(s).as_str())
        .concat(", vals=")
        .concat(decimal_usize(x).as_str())
}

/// What the cells of a change come to.
pub enum Cells {
    Read(Seq<CellView>),
    /// The change is rejected, and what is said of it, if anything.
    Rejected(ResultCode, Option<Seq<char>>),
}

/// The cells of a change that does not delete its row. Those of a packed change have to
/// be as many as their versions, positions and values.
pub open spec fn cells_of(c: Change) -> Cells {
    if !c.is_packed() {
        if c.cid@ == INSERT_SENTINEL@ {
            Cells::Read(seq![])
        } else {
            Cells::Read(
                seq![CellView { col_name: c.cid@, col_vrsn: c.col_vrsn, seq: c.seq, val: c.val@ }],
            )
        }
    } else {
        let names = split_nul(c.cid@);
        match (spec_unpack_varints(c.col_vrsn_blob@), spec_unpack_varints(c.seq_blob@), unpack(c.val_blob@)) {
            (None, _, _) => Cells::Rejected(ResultCode::ABORT, None),
            (_, None, _) => Cells::Rejected(ResultCode::ABORT, None),
            (_, _, Unpacked::Failed(e)) => Cells::Rejected(e, None),
            (_, _, Unpacked::Undefined) => Cells::Rejected(ResultCode::ABORT, None),
            (Some(v), Some(s), Unpacked::Values(x)) => if v.len() != names.len() || s.len() != names.len()
                || x.len() != names.len() {
                Cells::Rejected(
                    ResultCode::ERROR,
                    Some(mismatch_error(names.len() as int, v.len() as int, s.len() as int, x.len() as int)),
                )
            } else {
                Cells::Read(
                    Seq::new(
                        names.len(),
                        |i: int| CellView { col_name: names[i], col_vrsn: v[i], seq: s[i], val: x[i] },
                    ),
                )
            },
        }
    }
}

/// Why a change is not merged.
pub struct MergeError {
    pub code: ResultCode,
    pub message: Option<String>,
}

impl MergeError {
    /// Whether the error is this one.
    pub open spec fn is(self, code: ResultCode, message: Option<Seq<char>>) -> bool {
        self.code == code && match (self.message, message) {
            (Some(m), Some(n)) => m@ == n,
            (None, None) => true,
            _ => false,
        }
    }
}

fn failed(code: ResultCode) -> (r: MergeError)
    ensures
        r.is(code, None),
{
    MergeError { code, message: None }
}

fn refused(message: &str) -> (r: MergeError)
    ensures
        r.is(ResultCode::ERROR, Some(message@)),
{
    MergeError { code: ResultCode::ERROR, message: Some(message.to_owned()) }
}

fn read_cells(c: &Change) -> (r: Result<Vec<CellWrite>, MergeError>)
    requires
        c.readable(),
    ensures
        match cells_of(*c) {
            Cells::Read(cells) => r matches Ok(v) && cell_views(v@) == cells,
            Cells::Rejected(code, message) => r matches Err(e) && e.is(code, message),
        },
{
    let mut cells: Vec<CellWrite> = Vec::new();
    if !c.packed() {
        if !same(c.cid.as_str(), INSERT_SENTINEL) {
            cells.push(
                CellWrite {
                    col_name: c.cid.clone(),
                    col_vrsn: c.col_vrsn,
                    seq: c.seq,
                    val: c.val.clone(),
                },
            );
            assert(cell_views(cells@) =~= seq![
                CellView { col_name: c.cid@, col_vrsn: c.col_vrsn, seq: c.seq, val: c.val@ },
            ]);
        } else {
            assert(cell_views(cells@) =~= seq![]);
        }
        return Ok(cells);
    }
    let names = split_names(c.cid.as_str());
    let versions = match unpack_varints(c.col_vrsn_blob.as_slice()) {
        Ok(v) => v,
        Err(e) => return Err(failed(e)),
    };
    let seqs = match unpack_varints(c.seq_blob.as_slice()) {
        Ok(v) => v,
        Err(e) => return Err(failed(e)),
    };
    let values = match unpack_columns(c.val_blob.as_slice()) {
        Ok(v) => v,
        Err(e) => return Err(failed(e)),
    };
    let n: usize = names.len();
    assert(texts(names@).len() == n);
    assert(vals(values@).len() == values@.len());
    if versions.len() != n || seqs.len() != n || values.len() != n {
        let text = mismatch_text(n, versions.len(), seqs.len(), values.len());
        return Err(MergeError { code: ResultCode::ERROR, message: Some(text) });
    }
    let mut i: usize = 0;
    let ghost all = Seq::new(
        n as nat,
        |i: int|
            CellView {
                col_name: texts(names@)[i],
                col_vrsn: versions@[i],
                seq: seqs@[i],
                val: vals(values@)[i],
            },
    );
    while i < n
        invariant
            i <= n,
            n == names@.len(),
            n == versions@.len(),
            n == seqs@.len(),
            n == values@.len(),
            all == Seq::new(
                n as nat,
                |i: int|
                    CellView {
                        col_name: texts(names@)[i],
                        col_vrsn: versions@[i],
                        seq: seqs@[i],
                        val: vals(values@)[i],
                    },
            ),
            cells@.len() == i,
            forall|j: int| 0 <= j < i ==> (#[trigger] cells@[j])@ == all[j],
        decreases n - i,
    {
        cells.push(
            CellWrite {
                col_name: names[i].clone(),
                col_vrsn: versions[i],
                seq: seqs[i],
                val: values[i].clone(),
            },
        );
        i = i + 1;
    }
    assert(cell_views(cells@) =~= all);
    Ok(cells)
}

/// What is to be done with a change.
pub enum MergeStart {
    /// Merge it by the metadata in the first format.
    V1 { table: usize },
    /// Delete its row.
    Delete { table: usize, hydrate: bool, known_pks: Option<Vec<ColumnValue>>, hashed_pk: Vec<u8>, ts: i64 },
    /// Write its cells.
    Cells {
        table: usize,
        hydrate: bool,
        pks: Vec<ColumnValue>,
        hashed_pk: Vec<u8>,
        ts: i64,
        cells: Vec<CellWrite>,
    },
}

/// Whether a row is first given metadata in the second format, from those in the first:
/// both are written, and the change is in the form that both understand.
pub open spec fn hydrates(ext: ExtData, c: Change) -> bool {
    !c.is_packed() && !c.is_hash_tombstone() && ext.metadata_write_version == METADATA_VERSION_V2_AND_V1
}

/// The hash by which the row of a change is known: a change may bring it along, and none is
/// needed where rows are known by their primary keys.
pub open spec fn change_hash(t: TableInfo, c: Change) -> Seq<u8> {
    if c.is_hash_tombstone() {
        c.pk@
    } else if t.skip_hash {
        seq![]
    } else {
        pk_hash(c.pk@)
    }
}

/// What is to be done with a change that is not refused: `t` is its table, at index `i`.
pub open spec fn start_of(ext: ExtData, t: TableInfo, i: int, c: Change, r: Result<MergeStart, MergeError>) -> bool {
    if ext.metadata_write_version == METADATA_VERSION_V1 {
        r matches Ok(MergeStart::V1 { table }) && table == i
    } else if c.is_hash_tombstone() {
        &&& r matches Ok(MergeStart::Delete { table, hydrate, known_pks, hashed_pk, ts })
        &&& table == i
        &&& !hydrate
        &&& known_pks is None
        &&& hashed_pk@ == c.pk@
        &&& ts == change_time(ext, c)
    } else {
        match unpack(c.pk@) {
            Unpacked::Failed(e) => r matches Err(err) && err.is(e, None),
            Unpacked::Undefined => false,
            Unpacked::Values(key) => if c.is_delete() {
                &&& r matches Ok(MergeStart::Delete { table, hydrate, known_pks, hashed_pk, ts })
                &&& table == i
                &&& hydrate == hydrates(ext, c)
                &&& known_pks is Some
                &&& vals(known_pks->0@) == key
                &&& hashed_pk@ == change_hash(t, c)
                &&& ts == change_time(ext, c)
            } else {
                match cells_of(c) {
                    Cells::Rejected(code, message) => r matches Err(err) && err.is(code, message),
                    Cells::Read(wanted) => {
                        &&& r matches Ok(MergeStart::Cells { table, hydrate, pks, hashed_pk, ts, cells })
                        &&& table == i
                        &&& hydrate == hydrates(ext, c)
                        &&& vals(pks@) == key
                        &&& hashed_pk@ == change_hash(t, c)
                        &&& ts == change_time(ext, c)
                        &&& cell_views(cells@) == wanted
                    },
                }
            },
        }
    }
}

fn check_change(ext: &ExtData, tables: &[TableInfo], c: &Change) -> (r: Result<usize, MergeError>)
    ensures
        match refusal(*ext, tables@, *c) {
            Some(why) => r matches Err(e) && e.is(ResultCode::ERROR, Some(why)),
            None => r matches Ok(i) && position(table_names(tables@), c.tbl@) == Some(i as int) && i
                < tables@.len(),
        },
{
    if c.tbl.as_str().as_bytes().len() > MAX_TBL_NAME_LEN as usize {
        return Err(refused("crsql - table name exceeded max length"));
    }
    if c.site_id.len() > SITE_ID_LEN as usize {
        return Err(refused("crsql - site id exceeded max length"));
    }
    let packed: bool = c.packed();
    if !packed && c.cid.as_str().as_bytes().len() > MAX_TBL_NAME_LEN as usize {
        return Err(refused("crsql - column name exceeded max length"));
    }
    if (packed || c.hash_tombstone()) && ext.metadata_use_version != META_USE_V2 {
        return Err(
            refused(
                "crsql - received V2 wire format change but metadata-use-version is not 2. Set metadata-use-version=2 before accepting V2 wire format changes.",
            ),
        );
    }
    let i: usize = match find_table(tables, c.tbl.as_str()) {
        Some(i) => i,
        None => {
            let text = "crsql - could not find the schema information for table ".to_owned().concat(
                c.tbl.as_str(),
            );
            return Err(MergeError { code: ResultCode::ERROR, message: Some(text) });
        },
    };
    if ext.timestamp == 0 && ext.default_timestamp == 0 {
        return Err(refused("crsql - timestamp not set — call crsql_set_ts() before syncing changes"));
    }
    Ok(i)
}

/// Whether [`merge_insert`] refuses a change before it reads what the change packs.
pub fn is_refused(ext: &ExtData, tables: &[TableInfo], c: &Change) -> (r: bool)
    ensures
        r == refusal(*ext, tables@, *c) is Some,
{
    check_change(ext, tables, c).is_err()
}

/// A change in the packed format is refused where the metadata for it are not in use, whatever
/// else it holds.
pub proof fn packed_changes_need_v2(ext: ExtData, tables: Seq<TableInfo>, c: Change)
    requires
        c.is_packed() || c.is_hash_tombstone(),
        ext.metadata_use_version != META_USE_V2,
    ensures
        refusal(ext, tables, c) is Some,
{
}

proof fn lemma_first_nul(a: Seq<char>, rest: Seq<char>)
    requires
        !a.contains('\0'),
    ensures
        first_index(a + seq!['\0'] + rest, '\0') == Some(a.len() as int),
    decreases a.len(),
{
    let s = a + seq!['\0'] + rest;
    if a.len() > 0 {
        assert(a[0] != '\0');
        let b = a.skip(1);
        assert(!b.contains('\0')) by {
            if b.contains('\0') {
                let i = choose|i: int| 0 <= i < b.len() && b[i] == '\0';
                assert(a[i + 1] == '\0');
            }
        }
        lemma_first_nul(b, rest);
        assert(s.skip(1) =~= b + seq!['\0'] + rest);
    } else {
        assert(s[0] == '\0');
    }
}

proof fn lemma_no_nul(a: Seq<char>)
    requires
        !a.contains('\0'),
    ensures
        first_index(a, '\0') is None,
    decreases a.len(),
{
    if a.len() > 0 {
        assert(a[0] != '\0');
        let b = a.skip(1);
        assert(!b.contains('\0')) by {
            if b.contains('\0') {
                let i = choose|i: int| 0 <= i < b.len() && b[i] == '\0';
                assert(a[i + 1] == '\0');
            }
        }
        lemma_no_nul(b);
    }
}

proof fn lemma_joined_front(names: Seq<Seq<char>>, sep: Seq<char>)
    requires
        names.len() >= 2,
    ensures
        joined(names, sep) == names[0] + sep + joined(names.skip(1), sep),
    decreases names.len(),
{
    let rest = names.skip(1);
    if names.len() == 2 {
        assert(names.drop_last() =~= seq![names[0]]);
        reveal_with_fuel(joined, 2);
        assert(joined(names, sep) =~= names[0] + sep + names[1]);
    } else {
        let front = names.drop_last();
        lemma_joined_front(front, sep);
        assert(front.skip(1) =~= rest.drop_last());
        assert(joined(names, sep) =~= names[0] + sep + joined(rest, sep));
    }
}

/// Names that are joined by NULs come apart again.
pub proof fn split_joined_names(names: Seq<Seq<char>>)
    requires
        names.len() > 0,
        forall|i: int| 0 <= i < names.len() ==> !(#[trigger] names[i]).contains('\0'),
    ensures
        split_nul(joined(names, seq!['\0'])) == names,
    decreases names.len(),
{
    let sep = seq!['\0'];
    if names.len() == 1 {
        lemma_no_nul(names[0]);
        assert(names =~= seq![names[0]]);
    } else {
        let rest = names.skip(1);
        assert forall|i: int| 0 <= i < rest.len() implies !(#[trigger] rest[i]).contains('\0') by {
            assert(rest[i] == names[i + 1]);
        }
        split_joined_names(rest);
        lemma_joined_front(names, sep);
        let all = joined(names, sep);
        let tail = joined(rest, sep);
        lemma_first_nul(names[0], tail);
        assert(all.take(names[0].len() as int) =~= names[0]);
        assert(all.skip(names[0].len() as int + 1) =~= tail);
        assert(names =~= seq![names[0]] + rest);
    }
}

/// A packed change is read as the cells that were packed into it: their names joined by NULs,
/// their versions and positions as packed integers, and their values as packed values.
pub proof fn packed_change_round_trip(
    c: Change,
    names: Seq<Seq<char>>,
    versions: Seq<i64>,
    seqs: Seq<i64>,
    values: Seq<Val>,
)
    requires
        c.is_packed(),
        0 < names.len() <= u64::MAX,
        versions.len() == names.len(),
        seqs.len() == names.len(),
        values.len() == names.len(),
        forall|i: int| 0 <= i < names.len() ==> !(#[trigger] names[i]).contains('\0'),
        forall|i: int| 0 <= i < values.len() ==> packable(values[i]),
        c.cid@ == joined(names, seq!['\0']),
        c.col_vrsn_blob@ == pack_varints(versions),
        c.seq_blob@ == pack_varints(seqs),
        c.val_blob@ == pack(values),
    ensures
        cells_of(c) matches Cells::Read(cells) && cells.len() == names.len() && forall|i: int|
            0 <= i < names.len() ==> #[trigger] cells[i] == (CellView {
                col_name: names[i],
                col_vrsn: versions[i],
                seq: seqs[i],
                val: values[i],
            }),
{
    split_joined_names(names);
    unpack_pack_varints(versions, seq![]);
    unpack_pack_varints(seqs, seq![]);
    unpack_pack(values, seq![]);
    assert(pack_varints(versions) + seq![] =~= pack_varints(versions));
    assert(pack_varints(seqs) + seq![] =~= pack_varints(seqs));
    assert(pack(values) + seq![] =~= pack(values));
}

/// What is to be done with a change from another site. A transaction without a time takes
/// over the time for such transactions.
pub fn merge_insert(ext: &mut ExtData, tables: &[TableInfo], c: &Change) -> (r: Result<MergeStart, MergeError>)
    requires
        refusal(*old(ext), tables@, *c) is None ==> c.readable(),
    ensures
        match refusal(*old(ext), tables@, *c) {
            Some(why) => (r matches Err(e) && e.is(ResultCode::ERROR, Some(why))) && *final(ext) == *old(ext),
            None => {
                let i = position(table_names(tables@), c.tbl@).unwrap();
                &&& *final(ext) == (ExtData { timestamp: tx_time(*old(ext)), ..*old(ext) })
                &&& start_of(*old(ext), tables@[i], i, *c, r)
            },
        },
{
    let table: usize = match check_change(ext, tables, c) {
        Ok(i) => i,
        Err(e) => return Err(e),
    };
    let now: u64 = match ensure_timestamp(ext) {
        Ok(ts) => ts,
        Err(_) => return Err(refused("crsql - timestamp not set — call crsql_set_ts() before syncing changes")),
    };
    let ts: i64 = if c.ts > 0 {
        c.ts
    } else {
        to_signed(now)
    };
    if ext.metadata_write_version == METADATA_VERSION_V1 {
        return Ok(MergeStart::V1 { table });
    }
    let hash_tombstone: bool = c.hash_tombstone();
    if hash_tombstone {
        let hashed_pk = vstd::slice::slice_to_vec(c.pk.as_slice());
        return Ok(MergeStart::Delete { table, hydrate: false, known_pks: None, hashed_pk, ts });
    }
    let pks = match unpack_columns(c.pk.as_slice()) {
        Ok(pks) => pks,
        Err(e) => return Err(failed(e)),
    };
    let hashed_pk: Vec<u8> = if tables[table].skip_hash {
        let none: Vec<u8> = Vec::new();
        assert(none@ =~= seq![]);
        none
    } else {
        hash_packed_blob(c.pk.as_slice())
    };
    let packed: bool = c.packed();
    let hydrate: bool = !packed && ext.metadata_write_version == METADATA_VERSION_V2_AND_V1;
    if !packed && !odd(c.cl) {
        return Ok(MergeStart::Delete { table, hydrate, known_pks: Some(pks), hashed_pk, ts });
    }
    match read_cells(c) {
        Ok(cells) => Ok(MergeStart::Cells { table, hydrate, pks, hashed_pk, ts, cells }),
        Err(e) => Err(e),
    }
}

// ---------------------------------------------------------------------------
// Metadata in the first format
// ---------------------------------------------------------------------------
/// The causal length of a row, once the database was asked: 0 for a row that is not known.
pub fn get_local_cl(stepped: Stepped) -> (r: Result<i64, ResultCode>)
    ensures
        r == match stepped {
            Stepped::Row(cl) => Ok::<i64, ResultCode>(cl),
            Stepped::Done => Ok(0),
            Stepped::Other(rc) => Err(rc),
        },
{
    match stepped {
        Stepped::Row(cl) => Ok(cl),
        Stepped::Done => Ok(0),
        Stepped::Other(rc) => Err(rc),
    }
}

/// What to do with a change, by its causal length and that of the row.
#[derive(Clone, Copy, PartialEq, Eq, Structural, Debug)]
pub enum V1Step {
    /// The change is old, or brings nothing new.
    Ignore,
    /// The row is deleted already, by a change of the same causal length: take over the
    /// change where its site wins.
    TieBreakDelete,
    /// Delete the row.
    Delete,
    /// Create the row, or create it again, by its primary key alone.
    SentinelInsert,
    /// Write a cell. Before that, create the row again where `resurrect` holds; and see
    /// whether the change wins over what is there where `check` holds.
    Cell { resurrect: bool, check: bool },
}

/// What to do with a change. Changes from an older life of the row are ignored; one from a
/// newer life wins over all that is there.
pub open spec fn v1_step(insert_cl: int, local_cl: int, sentinel: bool, merge_equal: bool) -> V1Step {
    if insert_cl < local_cl {
        V1Step::Ignore
    } else if !is_alive(insert_cl) {
        if insert_cl > local_cl {
            V1Step::Delete
        } else if merge_equal {
            V1Step::TieBreakDelete
        } else {
            V1Step::Ignore
        }
    } else if sentinel {
        if insert_cl > local_cl {
            V1Step::SentinelInsert
        } else {
            V1Step::Ignore
        }
    } else {
        let newer = insert_cl > local_cl && insert_cl > 0;
        V1Step::Cell {
            resurrect: newer && (local_cl != 0 || insert_cl > 1),
            check: !newer && local_cl != 0,
        }
    }
}

/// What to do with a change, by its causal length, that of the row, and the column that it
/// names.
pub fn v1_merge_insert(insert_cl: i64, local_cl: i64, insert_col: &str, merge_equal_values: i32) -> (r: V1Step)
    ensures
        r == v1_step(
            insert_cl as int,
            local_cl as int,
            insert_col@ == INSERT_SENTINEL@,
            merge_equal_values == 1,
        ),
{
    if insert_cl < local_cl {
        return V1Step::Ignore;
    }
    if !odd(insert_cl) {
        return if insert_cl > local_cl {
            V1Step::Delete
        } else if merge_equal_values == 1 {
            V1Step::TieBreakDelete
        } else {
            V1Step::Ignore
        };
    }
    if same(insert_col, INSERT_SENTINEL) {
        return if insert_cl == local_cl {
            V1Step::Ignore
        } else {
            V1Step::SentinelInsert
        };
    }
    let needs_resurrect: bool = insert_cl > local_cl && insert_cl > 0;
    let row_exists_locally: bool = local_cl != 0;
    V1Step::Cell {
        resurrect: needs_resurrect && (row_exists_locally || insert_cl > 1),
        check: !needs_resurrect && row_exists_locally,
    }
}

/// The causal length of a row once a change was merged.
pub open spec fn cl_after(local_cl: int, insert_cl: int) -> int {
    if insert_cl > local_cl {
        insert_cl
    } else {
        local_cl
    }
}

/// A change from an older life of its row does nothing, and a change never takes its row
/// back to an older life. Whether the row lives does not depend on the order in which
/// changes come in, nor on how often.
pub proof fn causal_length_decides(local_cl: int, a: int, b: int, sentinel: bool, merge_equal: bool)
    ensures
        a < local_cl ==> v1_step(a, local_cl, sentinel, merge_equal) == V1Step::Ignore,
        cl_after(local_cl, a) >= local_cl,
        cl_after(cl_after(local_cl, a), b) == cl_after(cl_after(local_cl, b), a),
        cl_after(cl_after(local_cl, a), a) == cl_after(local_cl, a),
        is_alive(cl_after(cl_after(local_cl, a), b)) == is_alive(cl_after(cl_after(local_cl, b), a)),
{
}

/// A row is deleted by a change exactly where the change deletes it and is from a newer
/// life, and a deleted row is written again only by a change from a newer life.
pub proof fn deletes_and_creates_win_by_causal_length(
    local_cl: int,
    insert_cl: int,
    sentinel: bool,
    merge_equal: bool,
)
    requires
        local_cl >= 0,
    ensures
        v1_step(insert_cl, local_cl, sentinel, merge_equal) == V1Step::Delete <==> !is_alive(insert_cl) && insert_cl
            > local_cl,
        local_cl > 0 && !is_alive(local_cl) && is_alive(insert_cl) && v1_step(
            insert_cl,
            local_cl,
            sentinel,
            merge_equal,
        ) != V1Step::Ignore ==> insert_cl > local_cl,
{
}

/// How it goes on with the question whether a change wins over what is in its cell.
pub enum CidStep {
    Won(bool),
    /// The versions are the same: compare the values.
    CompareValues,
    Fail(MergeError),
}

/// Whether a change wins over what is in its cell, at one causal length, with the version
/// that was found: the higher version wins, and any wins where there is none.
pub fn did_cid_win(col_version: i64, selected: Stepped) -> (r: CidStep)
    ensures
        match selected {
            Stepped::Row(local) => if col_version == local {
                r is CompareValues
            } else {
                r matches CidStep::Won(won) && won == (col_version > local)
            },
            Stepped::Done => r matches CidStep::Won(won) && won,
            Stepped::Other(rc) => r matches CidStep::Fail(e) && e.is(
                rc,
                Some("Bad return code when selecting local column version"@),
            ),
        },
{
    match selected {
        Stepped::Row(local) => {
            if col_version > local {
                CidStep::Won(true)
            } else if col_version < local {
                CidStep::Won(false)
            } else {
                CidStep::CompareValues
            }
        },
        Stepped::Done => CidStep::Won(true),
        Stepped::Other(rc) => {
            CidStep::Fail(
                MergeError {
                    code: rc,
                    message: Some("Bad return code when selecting local column version".to_owned()),
                },
            )
        },
    }
}

/// How it goes on with the question whether a value wins.
pub enum ValueStep {
    Won(bool),
    /// The values are the same: compare the sites.
    CompareSites,
    Fail(MergeError),
}

/// Whether a value wins over the one that is there, at one version. `order` is above 0
/// where it is the greater and 0 where the two are the same; there is none where there is
/// no row.
pub fn did_value_win(insert_tbl: &str, order: Option<i32>, merge_equal_values: i32) -> (r: ValueStep)
    ensures
        match order {
            Some(o) => if o == 0 && merge_equal_values == 1 {
                r is CompareSites
            } else {
                r matches ValueStep::Won(won) && won == (o > 0)
            },
            None => r matches ValueStep::Fail(e) && e.is(
                ResultCode::ERROR,
                Some("could not find row to merge with for tbl "@ + insert_tbl@),
            ),
        },
{
    match order {
        Some(o) => {
            if o == 0 && merge_equal_values == 1 {
                ValueStep::CompareSites
            } else {
                ValueStep::Won(o > 0)
            }
        },
        None => {
            let text = "could not find row to merge with for tbl ".to_owned().concat(insert_tbl);
            ValueStep::Fail(MergeError { code: ResultCode::ERROR, message: Some(text) })
        },
    }
}

/// What asking for the site of a cell came to.
pub enum SiteRead {
    Site(Vec<u8>),
    Done,
    Other(ResultCode),
}

/// Whether the site of a change wins over the one that last wrote its cell.
pub fn did_site_id_win(insert_tbl: &str, insert_site_id: &[u8], local: SiteRead) -> (r: Result<bool, MergeError>)
    ensures
        match local {
            SiteRead::Site(site) => r matches Ok(won) && won == bytes_gt(insert_site_id@, site@),
            SiteRead::Done => r matches Err(e) && e.is(
                ResultCode::ERROR,
                Some(
                    "could not find site_id for previous change, cr-sqlite clock table might be corrupt for tbl "@
                        + insert_tbl@,
                ),
            ),
            SiteRead::Other(rc) => r matches Err(e) && e.is(
                rc,
                Some("Bad return code when selecting local column site_id"@),
            ),
        },
{
    match local {
        SiteRead::Site(site) => Ok(bytes_greater(insert_site_id, site.as_slice())),
        SiteRead::Done => {
            let text = "could not find site_id for previous change, cr-sqlite clock table might be corrupt for tbl ".to_owned().concat(
                insert_tbl,
            );
            Err(MergeError { code: ResultCode::ERROR, message: Some(text) })
        },
        SiteRead::Other(rc) => {
            Err(
                MergeError {
                    code: rc,
                    message: Some("Bad return code when selecting local column site_id".to_owned()),
                },
            )
        },
    }
}

/// Whether a change wins over what is in its cell, where the version, the value and the site
/// that are there are all known: the three questions in their order give the order of
/// writes.
pub fn change_wins(
    insert_tbl: &str,
    col_version: i64,
    local_version: i64,
    order: i32,
    merge_equal_values: i32,
    insert_site_id: &[u8],
    local_site_id: Vec<u8>,
) -> (r: bool)
    ensures
        r == wins(
            col_version as int,
            local_version as int,
            order as int,
            merge_equal_values == 1,
            insert_site_id@,
            local_site_id@,
        ),
{
    match did_cid_win(col_version, Stepped::Row(local_version)) {
        CidStep::Won(won) => won,
        CidStep::CompareValues => match did_value_win(insert_tbl, Some(order), merge_equal_values) {
            ValueStep::Won(won) => won,
            ValueStep::CompareSites => match did_site_id_win(
                insert_tbl,
                insert_site_id,
                SiteRead::Site(local_site_id),
            ) {
                Ok(won) => won,
                Err(_) => false,
            },
            ValueStep::Fail(_) => false,
        },
        CidStep::Fail(_) => false,
    }
}

/// When and by whom a change was made.
#[derive(Clone, Copy, PartialEq, Eq, Structural, Debug)]
pub struct Stamp {
    pub col_vrsn: i64,
    pub db_vrsn: i64,
    /// The number of the site; none for a change without a site.
    pub ordinal: Option<i64>,
    pub seq: i64,
    pub ts: i64,
}

/// When and by whom a change was made; `ordinal` is the number of its site.
pub open spec fn stamp_of(c: Change, ordinal: Option<i64>) -> Stamp {
    Stamp { col_vrsn: c.col_vrsn, db_vrsn: c.db_vrsn, ordinal, seq: c.seq, ts: c.ts }
}

/// When and by whom a change was made; `ordinal` is the number of its site.
pub fn change_stamp(c: &Change, ordinal: Option<i64>) -> (r: Stamp)
    ensures
        r == stamp_of(*c, ordinal),
{
    Stamp { col_vrsn: c.col_vrsn, db_vrsn: c.db_vrsn, ordinal, seq: c.seq, ts: c.ts }
}

/// Whether a site has a number: a change without a site belongs to the local one, whose
/// number is 0.
pub fn get_site_ordinal_or_zero(site_id: &[u8]) -> (r: Option<i64>)
    ensures
        r == (if site_id@.len() == 0 {
            Some(0i64)
        } else {
            None
        }),
{
    if site_id.len() == 0 {
        Some(0)
    } else {
        None
    }
}

/// The statement that writes the clock of a change that wins, and gives back its key.
pub open spec fn winner_clock(t: TableInfo, key: i64, col_name: Seq<char>, stamp: Stamp) -> Sql {
    bound(
        t.set_winner_clock_sql(),
        seq![
            Val::Integer(key),
            Val::Text(col_name),
            Val::Integer(stamp.col_vrsn),
            Val::Integer(stamp.db_vrsn),
            Val::Integer(stamp.seq),
            match stamp.ordinal {
                Some(ordinal) => Val::Integer(ordinal),
                None => Val::Null,
            },
            Val::Text(decimal_of(stamp.ts as int)),
        ],
    )
}

fn push_winner_clock(plan: &mut Vec<Statement>, t: &TableInfo, key: i64, col_name: &str, stamp: Stamp)
    ensures
        sqls(final(plan)@) == sqls(old(plan)@).push(winner_clock(*t, key, col_name@, stamp)),
{
    let mut binds = no_values();
    push_value(&mut binds, ColumnValue::Integer(key));
    push_value(&mut binds, ColumnValue::Text(col_name.to_owned()));
    push_value(&mut binds, ColumnValue::Integer(stamp.col_vrsn));
    push_value(&mut binds, ColumnValue::Integer(stamp.db_vrsn));
    push_value(&mut binds, ColumnValue::Integer(stamp.seq));
    push_value(
        &mut binds,
        match stamp.ordinal {
            Some(ordinal) => ColumnValue::Integer(ordinal),
            None => ColumnValue::Null,
        },
    );
    push_value(&mut binds, ColumnValue::Text(decimal(stamp.ts)));
    assert(vals(binds@) =~= winner_clock(*t, key, col_name@, stamp).binds);
    push_statement(plan, t.get_set_winner_clock_stmt(), binds);
}

fn empty_plan() -> (r: Vec<Statement>)
    ensures
        sqls(r@) == Seq::<Sql>::empty(),
{
    let plan: Vec<Statement> = Vec::new();
    assert(sqls(plan@) =~= seq![]);
    plan
}

/// The statement that writes the clock of a change that wins.
pub fn set_winner_clock(t: &TableInfo, key: i64, col_name: &str, stamp: Stamp) -> (r: Vec<Statement>)
    ensures
        sqls(r@) == seq![winner_clock(*t, key, col_name@, stamp)],
{
    let mut plan = empty_plan();
    push_winner_clock(&mut plan, t, key, col_name, stamp);
    assert(sqls(plan@) =~= seq![winner_clock(*t, key, col_name@, stamp)]);
    plan
}

/// A copy of values.
pub fn copy_of(values: &[ColumnValue]) -> (r: Vec<ColumnValue>)
    ensures
        vals(r@) == vals(values@),
{
    let mut r = no_values();
    push_values(&mut r, values);
    assert(vals(r@) =~= vals(values@));
    r
}

/// The statements that delete a row. Its clocks go last, so that the version of the change
/// is not lost.
pub open spec fn delete_plan(t: TableInfo, key: i64, pks: Seq<Val>, stamp: Stamp) -> Seq<Sql> {
    seq![
        unnoticed(t.merge_delete_sql(), pks),
        winner_clock(t, key, DELETE_SENTINEL@, stamp),
        bound(t.merge_delete_drop_clocks_sql(), seq![Val::Integer(key)]),
    ]
}

/// The statements, to be run in their order, that delete a row.
pub fn merge_delete(t: &TableInfo, key: i64, pks: &[ColumnValue], stamp: Stamp) -> (r: Vec<Statement>)
    ensures
        sqls(r@) == delete_plan(*t, key, vals(pks@), stamp),
{
    let mut plan = empty_plan();
    push_unnoticed(&mut plan, t.get_merge_delete_stmt(), copy_of(pks));
    push_winner_clock(&mut plan, t, key, DELETE_SENTINEL, stamp);
    push_statement(&mut plan, t.get_merge_delete_drop_clocks_stmt(), one(ColumnValue::Integer(key)));
    assert(sqls(plan@) =~= delete_plan(*t, key, vals(pks@), stamp));
    plan
}

/// The statements that create a row, or create it again, by its primary key alone: what its
/// cells held in an older life counts for nothing.
pub open spec fn sentinel_plan(t: TableInfo, key: i64, pks: Seq<Val>, stamp: Stamp) -> Seq<Sql> {
    seq![
        unnoticed(t.merge_pk_only_insert_sql(), pks),
        bound(t.zero_clocks_on_resurrect_sql(), seq![Val::Integer(key)]),
        winner_clock(t, key, INSERT_SENTINEL@, stamp),
    ]
}

/// The statement after which the cells of a row count for nothing.
pub fn zero_clocks_on_resurrect(t: &TableInfo, key: i64) -> (r: Vec<Statement>)
    ensures
        sqls(r@) == seq![bound(t.zero_clocks_on_resurrect_sql(), seq![Val::Integer(key)])],
{
    let mut plan = empty_plan();
    push_statement(&mut plan, t.get_zero_clocks_on_resurrect_stmt(), one(ColumnValue::Integer(key)));
    assert(sqls(plan@) =~= seq![bound(t.zero_clocks_on_resurrect_sql(), seq![Val::Integer(key)])]);
    plan
}

/// The statements, to be run in their order, that create a row, or create it again.
pub fn merge_sentinel_only_insert(t: &TableInfo, key: i64, pks: &[ColumnValue], stamp: Stamp) -> (r: Vec<Statement>)
    ensures
        sqls(r@) == sentinel_plan(*t, key, vals(pks@), stamp),
{
    let mut plan = empty_plan();
    push_unnoticed(&mut plan, t.get_merge_pk_only_insert_stmt(), copy_of(pks));
    push_statement(&mut plan, t.get_zero_clocks_on_resurrect_stmt(), one(ColumnValue::Integer(key)));
    push_winner_clock(&mut plan, t, key, INSERT_SENTINEL, stamp);
    assert(sqls(plan@) =~= sentinel_plan(*t, key, vals(pks@), stamp));
    plan
}

/// The statements that write a cell: column `col` of those outside the primary key.
pub open spec fn cell_plan(t: TableInfo, key: i64, pks: Seq<Val>, col: int, val: Val, stamp: Stamp) -> Seq<Sql> {
    seq![
        unnoticed(t.non_pks@[col].merge_insert_sql(t), pks.push(val).push(val)),
        winner_clock(t, key, t.non_pks@[col].name@, stamp),
    ]
}

/// The statements, to be run in their order, that write a cell; an error where there is no
/// such column.
pub fn merge_cell(
    t: &TableInfo,
    key: i64,
    pks: &[ColumnValue],
    col_name: &str,
    val: &ColumnValue,
    stamp: Stamp,
) -> (r: Result<Vec<Statement>, ResultCode>)
    ensures
        match t.non_pk_col(col_name@) {
            Some(col) => r matches Ok(plan) && sqls(plan@) == cell_plan(*t, key, vals(pks@), col, val@, stamp),
            None => r matches Err(e) && e == ResultCode::ERROR,
        },
{
    let sql = match t.get_merge_insert_stmt(col_name) {
        Ok(sql) => sql,
        Err(e) => return Err(e),
    };
    let mut binds = copy_of(pks);
    push_value(&mut binds, val.clone());
    push_value(&mut binds, val.clone());
    let mut plan = empty_plan();
    push_unnoticed(&mut plan, sql, binds);
    push_winner_clock(&mut plan, t, key, col_name, stamp);
    proof {
        crate::tableinfo::position_is_first(t.non_pk_names(), col_name@);
        let col = t.non_pk_col(col_name@).unwrap();
        assert(t.non_pk_names()[col] == t.non_pks@[col].name@);
        assert(sqls(plan@) =~= cell_plan(*t, key, vals(pks@), col, val@, stamp));
    }
    Ok(plan)
}

/// The statements that carry out a step before it is known whether the change wins: the row is
/// deleted, or created, or created again at the causal length of the change.
pub open spec fn first_plan(t: TableInfo, step: V1Step, key: i64, pks: Seq<Val>, cl: i64, stamp: Stamp) -> Seq<Sql> {
    match step {
        V1Step::Delete => delete_plan(t, key, pks, stamp),
        V1Step::SentinelInsert => sentinel_plan(t, key, pks, stamp),
        V1Step::Cell { resurrect, .. } => if resurrect {
            sentinel_plan(t, key, pks, Stamp { col_vrsn: cl, ..stamp })
        } else {
            seq![]
        },
        _ => seq![],
    }
}

/// The statements, to be run in their order, that carry out a step before it is known whether
/// the change wins.
pub fn v1_first_statements(
    t: &TableInfo,
    step: V1Step,
    key: i64,
    pks: &[ColumnValue],
    insert_cl: i64,
    stamp: Stamp,
) -> (r: Vec<Statement>)
    ensures
        sqls(r@) == first_plan(*t, step, key, vals(pks@), insert_cl, stamp),
{
    match step {
        V1Step::Delete => merge_delete(t, key, pks, stamp),
        V1Step::SentinelInsert => merge_sentinel_only_insert(t, key, pks, stamp),
        V1Step::Cell { resurrect, check: _ } => if resurrect {
            merge_sentinel_only_insert(t, key, pks, Stamp { col_vrsn: insert_cl, ..stamp })
        } else {
            empty_plan()
        },
        _ => empty_plan(),
    }
}

/// The statements that carry out the rest of a step, where the change wins, or does not have to:
/// its cell is written; of a row that is deleted already, the change is taken over.
pub open spec fn last_plan(t: TableInfo, step: V1Step, key: i64, pks: Seq<Val>, c: Change, stamp: Stamp) -> Option<
    Seq<Sql>,
> {
    match step {
        V1Step::TieBreakDelete => Some(seq![winner_clock(t, key, c.cid@, stamp)]),
        V1Step::Cell { .. } => match t.non_pk_col(c.cid@) {
            Some(col) => Some(cell_plan(t, key, pks, col, c.val@, stamp)),
            None => None,
        },
        _ => Some(seq![]),
    }
}

/// The statements, to be run in their order, that carry out the rest of a step, where the change
/// wins, or does not have to; an error where the table has no such column.
pub fn v1_last_statements(
    t: &TableInfo,
    step: V1Step,
    key: i64,
    pks: &[ColumnValue],
    c: &Change,
    stamp: Stamp,
) -> (r: Result<Vec<Statement>, ResultCode>)
    ensures
        match last_plan(*t, step, key, vals(pks@), *c, stamp) {
            Some(wanted) => r matches Ok(plan) && sqls(plan@) == wanted,
            None => r matches Err(e) && e == ResultCode::ERROR,
        },
{
    match step {
        V1Step::TieBreakDelete => Ok(set_winner_clock(t, key, c.cid.as_str(), stamp)),
        V1Step::Cell { resurrect: _, check: _ } => merge_cell(t, key, pks, c.cid.as_str(), &c.val, stamp),
        _ => Ok(empty_plan()),
    }
}

/// What is left to do once a change was merged, or ignored.
#[derive(Clone, Copy, PartialEq, Eq, Structural, Debug)]
pub struct V1Rest {
    /// Store the version of the site.
    pub store_version: bool,
    /// Keep the causal length of the change for the row.
    pub keep_cl: bool,
}

/// What is left to do once a change was merged, or ignored: its version is stored whether it
/// won or not.
pub open spec fn rest_of_merge(site_id: Seq<u8>, insert_cl: int, local_cl: int) -> V1Rest {
    V1Rest { store_version: site_id.len() > 0, keep_cl: site_id.len() > 0 && insert_cl > local_cl }
}

/// The causal length of a change from another site is kept for its row exactly where it is the one
/// that the row has from then on, and was not before.
pub proof fn kept_causal_lengths_are_those_of_rows(site_id: Seq<u8>, insert_cl: int, local_cl: int)
    ensures
        site_id.len() > 0 ==> {
            &&& rest_of_merge(site_id, insert_cl, local_cl).store_version
            &&& rest_of_merge(site_id, insert_cl, local_cl).keep_cl <==> cl_after(local_cl, insert_cl) == insert_cl
                && insert_cl != local_cl
        },
        site_id.len() == 0 ==> !rest_of_merge(site_id, insert_cl, local_cl).store_version && !rest_of_merge(
            site_id,
            insert_cl,
            local_cl,
        ).keep_cl,
{
}

/// What is left to do once a change was merged, or ignored: its version is stored whether it
/// won or not.
pub fn v1_merge_rest(site_id: &[u8], insert_cl: i64, local_cl: i64) -> (r: V1Rest)
    ensures
        r == rest_of_merge(site_id@, insert_cl as int, local_cl as int),
{
    let from_site: bool = site_id.len() > 0;
    V1Rest { store_version: from_site, keep_cl: from_site && insert_cl > local_cl }
}

/// What is said where the version of a site cannot be stored.
pub open spec fn db_version_error(v: int, site: Seq<char>, rc: Seq<char>) -> Seq<char> {
    "Unable to insert db version "@ + decimal_of(v) + " for site id "@ + site + ": "@ + rc
}

/// What is said where the version of a site cannot be stored.
pub fn db_version_failed(v: i64, site: &str, rc: &str) -> (r: String)
    ensures
        r@ == db_version_error(v as int, site@, rc@),
{
    "Unable to insert db version ".to_owned()
        .concat(decimal(v).as_str())
        .concat(" for site id ")
        .concat(site)
        .concat(": ")
        .concat(rc)
}


// ---------------------------------------------------------------------------
// Metadata in the second format
// ---------------------------------------------------------------------------
/// The parameter by which a row is found: its primary key, or its hash.
pub open spec fn row_id(t: TableInfo, pks: Seq<Val>, hashed_pk: Seq<u8>) -> Val {
    if t.skip_hash {
        pks[0]
    } else {
        Val::Blob(hashed_pk)
    }
}

/// The parameter by which a row is found: its primary key, or its hash.
pub fn row_id_value(t: &TableInfo, pks: &[ColumnValue], hashed_pk: &[u8]) -> (r: ColumnValue)
    requires
        t.skip_hash ==> pks@.len() > 0,
    ensures
        r@ == row_id(*t, vals(pks@), hashed_pk@),
{
    if t.skip_hash {
        let v = pks[0].clone();
        assert(v@ == vals(pks@)[0]);
        v
    } else {
        blob(hashed_pk)
    }
}

/// The statement that finds the state of a row.
pub fn row_state_lookup(t: &TableInfo, pks: &[ColumnValue], hashed_pk: &[u8]) -> (r: Vec<Statement>)
    requires
        t.skip_hash ==> pks@.len() > 0,
    ensures
        sqls(r@) == seq![
            bound(
                lookup_row_state_sql(*t),
                seq![row_id(*t, vals(pks@), hashed_pk@), row_id(*t, vals(pks@), hashed_pk@)],
            ),
        ],
{
    let mut plan = empty_plan();
    push_statement(
        &mut plan,
        lookup_row_state_text(t),
        two(row_id_value(t, pks, hashed_pk), row_id_value(t, pks, hashed_pk)),
    );
    assert(sqls(plan@) =~= seq![
        bound(
            lookup_row_state_sql(*t),
            seq![row_id(*t, vals(pks@), hashed_pk@), row_id(*t, vals(pks@), hashed_pk@)],
        ),
    ]);
    plan
}

/// The key and the causal length of a row, from what was found of it: a row that lives has a
/// key; a dead one has none; one that is not known has causal length 0.
pub fn v2_lookup_key_and_cl(found: Option<(Option<i64>, i64)>) -> (r: (Option<i64>, i64))
    ensures
        r == match found {
            Some(state) => state,
            None => (None::<i64>, 0i64),
        },
{
    match found {
        Some(state) => state,
        None => (None, 0),
    }
}

/// What to do so that a row lives at a causal length.
#[derive(Clone, Copy, PartialEq, Eq, Structural, Debug)]
pub enum AliveStep {
    /// The row is in a newer life.
    Stale,
    /// The row is there, with this key.
    There(i64),
    /// Remove what there is of the row, which lives and has a key; then create it.
    Replace(i64),
    /// Remove the tombstone of the row, then create it.
    Revive,
    /// Create the row.
    Create,
}

/// What to do so that a row lives at a causal length, by its key, where it lives, and its
/// causal length.
pub open spec fn alive_step_at(incoming_cl: int, local_key: Option<i64>, local_cl: int) -> AliveStep {
    if incoming_cl < local_cl {
        AliveStep::Stale
    } else if incoming_cl == local_cl {
        AliveStep::There(match local_key { Some(key) => key, None => 0i64 })
    } else {
        match local_key {
            Some(key) => AliveStep::Replace(key),
            None => if local_cl > 0 {
                AliveStep::Revive
            } else {
                AliveStep::Create
            },
        }
    }
}

/// What to do so that a row lives at a causal length, by its key, where it lives, and its
/// causal length.
pub fn v2_ensure_alive_row_at_cl(incoming_cl: i64, local_key: Option<i64>, local_cl: i64) -> (r: AliveStep)
    ensures
        r == alive_step_at(incoming_cl as int, local_key, local_cl as int),
{
    if incoming_cl < local_cl {
        return AliveStep::Stale;
    }
    if incoming_cl == local_cl {
        return AliveStep::There(
            match local_key {
                Some(key) => key,
                None => 0,
            },
        );
    }
    match local_key {
        Some(key) => AliveStep::Replace(key),
        None => if local_cl > 0 {
            AliveStep::Revive
        } else {
            AliveStep::Create
        },
    }
}

/// The statement that inserts a row by its primary key.
pub fn v2_insert_base_row(t: &TableInfo, pks: &[ColumnValue]) -> (r: Vec<Statement>)
    ensures
        sqls(r@) == seq![unnoticed(base_insert_sql(*t), vals(pks@))],
{
    let mut plan = empty_plan();
    push_unnoticed(&mut plan, base_insert_text(t), copy_of(pks));
    assert(sqls(plan@) =~= seq![unnoticed(base_insert_sql(*t), vals(pks@))]);
    plan
}

/// The statements that make room for a row and insert it: what there is of an older life is
/// removed first.
pub open spec fn new_row_plan(t: TableInfo, step: AliveStep, pks: Seq<Val>, hashed_pk: Seq<u8>) -> Seq<Sql> {
    match step {
        AliveStep::Stale => seq![],
        AliveStep::There(_) => seq![],
        AliveStep::Replace(key) => nuke_row_plan(t, key, pks).push(unnoticed(base_insert_sql(t), pks)),
        AliveStep::Revive => nuke_tombstone_plan(t, pks, hashed_pk).push(unnoticed(base_insert_sql(t), pks)),
        AliveStep::Create => seq![unnoticed(base_insert_sql(t), pks)],
    }
}

/// The statements, to be run in their order, that make room for a row and insert it.
pub fn new_row_statements(t: &TableInfo, step: AliveStep, pks: &[ColumnValue], hashed_pk: &[u8]) -> (r: Vec<Statement>)
    requires
        t.skip_hash ==> pks@.len() > 0,
    ensures
        sqls(r@) == new_row_plan(*t, step, vals(pks@), hashed_pk@),
{
    let mut plan = match step {
        AliveStep::Stale => return empty_plan(),
        AliveStep::There(_) => return empty_plan(),
        AliveStep::Replace(key) => v2_nuke_local_row(t, key, pks),
        AliveStep::Revive => v2_nuke_tombstone(t, pks, hashed_pk),
        AliveStep::Create => empty_plan(),
    };
    push_unnoticed(&mut plan, base_insert_text(t), copy_of(pks));
    assert(sqls(plan@) =~= new_row_plan(*t, step, vals(pks@), hashed_pk@));
    plan
}

/// The parameters with which a live key is created: the rowid where it is the key, else the
/// primary key; the hash, where there is one; and the causal length.
pub open spec fn live_key_binds(t: TableInfo, rowid: i64, pks: Seq<Val>, hashed_pk: Seq<u8>, cl: i64) -> Seq<Val> {
    let key = if t.key_is_rowid { seq![Val::Integer(rowid)] } else { pks };
    let with_hash = if t.skip_hash { key } else { key.push(Val::Blob(hashed_pk)) };
    with_hash.push(Val::Integer(cl))
}

/// The statement that creates a live key, and gives it back, once the row was inserted:
/// `rowid` is the rowid that it got.
pub fn v2_insert_pk_row(t: &TableInfo, rowid: i64, pks: &[ColumnValue], hashed_pk: &[u8], cl: i64) -> (r: Vec<
    Statement,
>)
    ensures
        sqls(r@) == seq![
            bound(table_pks_insert_sql(*t), live_key_binds(*t, rowid, vals(pks@), hashed_pk@, cl)),
        ],
{
    let mut binds = no_values();
    if t.key_is_rowid {
        push_value(&mut binds, ColumnValue::Integer(rowid));
        assert(vals(binds@) =~= seq![Val::Integer(rowid)]);
    } else {
        push_values(&mut binds, pks);
        assert(vals(binds@) =~= vals(pks@));
    }
    if !t.skip_hash {
        push_value(&mut binds, blob(hashed_pk));
    }
    push_value(&mut binds, ColumnValue::Integer(cl));
    let mut plan = empty_plan();
    push_statement(&mut plan, table_pks_insert_text(t), binds);
    assert(sqls(plan@) =~= seq![
        bound(table_pks_insert_sql(*t), live_key_binds(*t, rowid, vals(pks@), hashed_pk@, cl)),
    ]);
    plan
}

/// The statement that creates clocks at version zero for the cells of a row that a change
/// has created.
pub fn zero_fill(t: &TableInfo, key: i64, site_ordinal: i64, db_version: i64) -> (r: Vec<Statement>)
    ensures
        sqls(r@) == seq![
            bound(
                clock_zero_fill_sql(*t),
                seq![Val::Integer(key << 12u32), Val::Integer(site_ordinal), Val::Integer(db_version)],
            ),
        ],
{
    let mut binds = no_values();
    push_value(&mut binds, ColumnValue::Integer(cell_key_base(key)));
    push_value(&mut binds, ColumnValue::Integer(site_ordinal));
    push_value(&mut binds, ColumnValue::Integer(db_version));
    assert(vals(binds@) =~= seq![
        Val::Integer(key << 12u32),
        Val::Integer(site_ordinal),
        Val::Integer(db_version),
    ]);
    let mut plan = empty_plan();
    push_statement(&mut plan, clock_zero_fill_text(t), binds);
    assert(sqls(plan@) =~= seq![
        bound(
            clock_zero_fill_sql(*t),
            seq![Val::Integer(key << 12u32), Val::Integer(site_ordinal), Val::Integer(db_version)],
        ),
    ]);
    plan
}

/// The statements that remove what there is of a row: its clocks, its live key and the row.
pub open spec fn nuke_row_plan(t: TableInfo, key: i64, pks: Seq<Val>) -> Seq<Sql> {
    seq![
        bound(
            clock_delete_range_sql(t),
            seq![Val::Integer(key << 12u32), Val::Integer(cell_of(key, CRSQL_COL_ID_MASK))],
        ),
        bound(pks_delete_sql(t), seq![Val::Integer(key)]),
        if t.key_is_rowid {
            unnoticed(base_delete_rowid_sql(t), seq![Val::Integer(key)])
        } else {
            unnoticed(base_delete_nonrowid_sql(t), pks)
        },
    ]
}

fn push_nuke_row(plan: &mut Vec<Statement>, t: &TableInfo, key: i64, pks: &[ColumnValue])
    ensures
        sqls(final(plan)@) == sqls(old(plan)@) + nuke_row_plan(*t, key, vals(pks@)),
{
    push_statement(
        plan,
        clock_delete_range_text(t),
        two(ColumnValue::Integer(cell_key_base(key)), ColumnValue::Integer(cell_key_end(key))),
    );
    push_statement(plan, pks_delete_text(t), one(ColumnValue::Integer(key)));
    if t.key_is_rowid {
        push_unnoticed(plan, base_delete_rowid_text(t), one(ColumnValue::Integer(key)));
    } else {
        push_unnoticed(plan, base_delete_nonrowid_text(t), copy_of(pks));
    }
    assert(sqls(plan@) =~= sqls(old(plan)@) + nuke_row_plan(*t, key, vals(pks@)));
}

/// The statements, to be run in their order, that remove what there is of a row.
pub fn v2_nuke_local_row(t: &TableInfo, key: i64, pks: &[ColumnValue]) -> (r: Vec<Statement>)
    ensures
        sqls(r@) == nuke_row_plan(*t, key, vals(pks@)),
{
    let mut plan = empty_plan();
    push_nuke_row(&mut plan, t, key, pks);
    assert(sqls(plan@) =~= nuke_row_plan(*t, key, vals(pks@)));
    plan
}

/// The statements that remove the tombstone of a row.
pub open spec fn nuke_tombstone_plan(t: TableInfo, pks: Seq<Val>, hashed_pk: Seq<u8>) -> Seq<Sql> {
    seq![bound(tomb_delete_sql(t), seq![row_id(t, pks, hashed_pk)])] + (if t.skip_hash {
        seq![]
    } else {
        seq![bound(tomb_pks_delete_sql(t), seq![Val::Blob(hashed_pk)])]
    })
}

/// The statements, to be run in their order, that remove the tombstone of a row.
pub fn v2_nuke_tombstone(t: &TableInfo, pks: &[ColumnValue], hashed_pk: &[u8]) -> (r: Vec<Statement>)
    requires
        t.skip_hash ==> pks@.len() > 0,
    ensures
        sqls(r@) == nuke_tombstone_plan(*t, vals(pks@), hashed_pk@),
{
    let mut plan = empty_plan();
    push_statement(&mut plan, tomb_delete_text(t), one(row_id_value(t, pks, hashed_pk)));
    if !t.skip_hash {
        push_statement(&mut plan, tomb_pks_delete_text(t), one(blob(hashed_pk)));
    }
    assert(sqls(plan@) =~= nuke_tombstone_plan(*t, vals(pks@), hashed_pk@));
    plan
}

/// Whether a change that deletes a row is taken over: not where it knows the row by a hash and
/// rows are known by their primary keys, and not where the row is in a newer life.
pub open spec fn tombstone_taken(skip_hash: bool, is_hash_tombstone: bool, insert_cl: int, local_cl: int) -> bool {
    !(skip_hash && is_hash_tombstone) && insert_cl >= local_cl
}

/// The statement that merges a tombstone.
pub open spec fn tombstone_sql(
    t: TableInfo,
    pks: Seq<Val>,
    hashed_pk: Seq<u8>,
    insert_cl: i64,
    stamp: Stamp,
    site_ordinal: i64,
    site_id: Seq<u8>,
    merge_equal: i32,
) -> Sql {
    let binds = seq![
        Val::Integer(site_ordinal),
        Val::Integer(stamp.db_vrsn),
        Val::Integer(stamp.seq),
        row_id(t, pks, hashed_pk),
        Val::Integer(insert_cl),
        Val::Integer(stamp.ts),
    ];
    bound(
        tomb_upsert_sql(t, merge_equal),
        if merge_equal == 1 {
            binds.push(Val::Blob(site_id))
        } else {
            binds
        },
    )
}

/// The statement that merges a tombstone; none where the change is not taken over.
pub fn v2_merge_insert_tombstone(
    t: &TableInfo,
    is_hash_tombstone: bool,
    pks: &[ColumnValue],
    hashed_pk: &[u8],
    insert_cl: i64,
    local_cl: i64,
    stamp: Stamp,
    site_ordinal: i64,
    site_id: &[u8],
    merge_equal: i32,
) -> (r: Option<Vec<Statement>>)
    requires
        t.skip_hash && !is_hash_tombstone ==> pks@.len() > 0,
    ensures
        if tombstone_taken(t.skip_hash, is_hash_tombstone, insert_cl as int, local_cl as int) {
            r matches Some(plan) && sqls(plan@) == seq![
                tombstone_sql(
                    *t,
                    vals(pks@),
                    hashed_pk@,
                    insert_cl,
                    stamp,
                    site_ordinal,
                    site_id@,
                    merge_equal,
                ),
            ]
        } else {
            r is None
        },
{
    if t.skip_hash && is_hash_tombstone {
        return None;
    }
    if insert_cl < local_cl {
        return None;
    }
    let mut binds = no_values();
    push_value(&mut binds, ColumnValue::Integer(site_ordinal));
    push_value(&mut binds, ColumnValue::Integer(stamp.db_vrsn));
    push_value(&mut binds, ColumnValue::Integer(stamp.seq));
    push_value(&mut binds, row_id_value(t, pks, hashed_pk));
    push_value(&mut binds, ColumnValue::Integer(insert_cl));
    push_value(&mut binds, ColumnValue::Integer(stamp.ts));
    if merge_equal == 1 {
        push_value(&mut binds, blob(site_id));
    }
    let ghost wanted = tombstone_sql(
        *t,
        vals(pks@),
        hashed_pk@,
        insert_cl,
        stamp,
        site_ordinal,
        site_id@,
        merge_equal,
    );
    assert(vals(binds@) =~= wanted.binds);
    let mut plan = empty_plan();
    push_statement(&mut plan, tomb_upsert_text(t, merge_equal), binds);
    assert(sqls(plan@) =~= seq![wanted]);
    Some(plan)
}

/// The statements that turn a row that lives into a tombstone: its primary key is kept where
/// rows are known by hashes, and then all there is of it is removed.
pub open spec fn bury_plan(t: TableInfo, key: i64, local_pks: Seq<Val>, hashed_pk: Seq<u8>) -> Seq<Sql> {
    (if !t.skip_hash && local_pks.len() > 0 {
        seq![bound(tomb_pks_insert_sql(t), seq![Val::Blob(hashed_pk)] + local_pks)]
    } else {
        seq![]
    }) + nuke_row_plan(t, key, local_pks)
}

/// The statements, to be run in their order, that turn a row that lives into a tombstone, with
/// the primary key that was found by its key.
pub fn bury_local_row(t: &TableInfo, key: i64, local_pks: &[ColumnValue], hashed_pk: &[u8]) -> (r: Vec<Statement>)
    ensures
        sqls(r@) == bury_plan(*t, key, vals(local_pks@), hashed_pk@),
{
    let mut plan = empty_plan();
    assert(vals(local_pks@).len() == local_pks@.len());
    if !t.skip_hash && local_pks.len() > 0 {
        let mut binds = one(blob(hashed_pk));
        push_values(&mut binds, local_pks);
        push_statement(&mut plan, tomb_pks_insert_text(t), binds);
    }
    push_nuke_row(&mut plan, t, key, local_pks);
    assert(sqls(plan@) =~= bury_plan(*t, key, vals(local_pks@), hashed_pk@));
    plan
}

/// How the row of a cell is found: by its rowid, or by its primary key.
pub open spec fn base_row_binds(t: TableInfo, key: i64, pks: Seq<Val>) -> Seq<Val> {
    if t.key_is_rowid {
        seq![Val::Integer(key)]
    } else {
        pks
    }
}

fn push_base_row(binds: &mut Vec<ColumnValue>, t: &TableInfo, key: i64, pks: &[ColumnValue])
    ensures
        vals(final(binds)@) == vals(old(binds)@) + base_row_binds(*t, key, vals(pks@)),
{
    if t.key_is_rowid {
        push_value(binds, ColumnValue::Integer(key));
        assert(vals(binds@) =~= vals(old(binds)@) + seq![Val::Integer(key)]);
    } else {
        push_values(binds, pks);
    }
}

/// The statement that merges the clock of a cell; it gives a row where the change wins.
pub open spec fn merge_clock_sql(
    t: TableInfo,
    key: i64,
    col_id: i64,
    cell: CellView,
    pks: Seq<Val>,
    db_version: i64,
    site_ordinal: i64,
    site_id: Seq<u8>,
    ts: i64,
    merge_equal: i32,
) -> Sql {
    bound(
        clock_merge_upsert_sql(t, cell.col_name),
        (seq![
            Val::Integer(cell_of(key, col_id)),
            Val::Integer(cell.col_vrsn),
            Val::Integer(site_ordinal),
            Val::Integer(db_version),
            Val::Integer(cell.seq),
            Val::Integer(ts),
            cell.val,
        ] + base_row_binds(t, key, pks)).push(Val::Blob(site_id)).push(Val::Integer(merge_equal as i64)),
    )
}

/// The statement that merges the clock of a cell, where its column has an id: none where it
/// has not, and an error where the table has no such column.
pub fn v2_apply_value_change_colval(
    t: &TableInfo,
    key: i64,
    col_id: Option<i64>,
    cell: &CellWrite,
    pks: &[ColumnValue],
    db_version: i64,
    site_ordinal: i64,
    site_id: &[u8],
    ts: i64,
    merge_equal: i32,
) -> (r: Result<Option<Vec<Statement>>, ResultCode>)
    ensures
        match col_id {
            None => r matches Ok(None),
            Some(id) => if t.non_pk_col(cell.col_name@) is Some {
                r matches Ok(Some(plan)) && sqls(plan@) == seq![
                    merge_clock_sql(
                        *t,
                        key,
                        id,
                        cell@,
                        vals(pks@),
                        db_version,
                        site_ordinal,
                        site_id@,
                        ts,
                        merge_equal,
                    ),
                ]
            } else {
                r matches Err(e) && e == ResultCode::ERROR
            },
        },
{
    let id: i64 = match col_id {
        Some(id) => id,
        None => return Ok(None),
    };
    if t.get_col_value_stmt(cell.col_name.as_str()).is_err() {
        return Err(ResultCode::ERROR);
    }
    let mut binds = no_values();
    push_value(&mut binds, ColumnValue::Integer(cell_key(key, id)));
    push_value(&mut binds, ColumnValue::Integer(cell.col_vrsn));
    push_value(&mut binds, ColumnValue::Integer(site_ordinal));
    push_value(&mut binds, ColumnValue::Integer(db_version));
    push_value(&mut binds, ColumnValue::Integer(cell.seq));
    push_value(&mut binds, ColumnValue::Integer(ts));
    push_value(&mut binds, cell.val.clone());
    push_base_row(&mut binds, t, key, pks);
    push_value(&mut binds, blob(site_id));
    push_value(&mut binds, ColumnValue::Integer(merge_equal as i64));
    let ghost wanted = merge_clock_sql(
        *t,
        key,
        id,
        cell@,
        vals(pks@),
        db_version,
        site_ordinal,
        site_id@,
        ts,
        merge_equal,
    );
    assert(vals(binds@) =~= wanted.binds);
    let mut plan = empty_plan();
    push_statement(&mut plan, clock_merge_upsert_text(t, cell.col_name.as_str()), binds);
    assert(sqls(plan@) =~= seq![wanted]);
    Ok(Some(plan))
}

/// The statement that writes the value of a cell whose change has won.
pub fn v2_write_cell(t: &TableInfo, key: i64, cell: &CellWrite, pks: &[ColumnValue]) -> (r: Vec<Statement>)
    ensures
        sqls(r@) == seq![
            unnoticed(
                base_update_sql(*t, cell.col_name@),
                seq![cell.val@] + base_row_binds(*t, key, vals(pks@)),
            ),
        ],
{
    let mut binds = one(cell.val.clone());
    push_base_row(&mut binds, t, key, pks);
    let mut plan = empty_plan();
    push_unnoticed(&mut plan, base_update_text(t, cell.col_name.as_str()), binds);
    assert(sqls(plan@) =~= seq![
        unnoticed(
            base_update_sql(*t, cell.col_name@),
            seq![cell.val@] + base_row_binds(*t, key, vals(pks@)),
        ),
    ]);
    plan
}

/// What is left to do once a change was merged.
#[derive(Clone, Copy, PartialEq, Eq, Structural, Debug)]
pub struct V2Rest {
    /// Store the version of the site.
    pub store_version: bool,
    /// Copy the metadata of the row to the first format.
    pub mirror: bool,
}

/// What is left to do once a change was merged: its version is stored where it has a site,
/// and the row is copied to the first format where both are written.
pub fn post_v2_merge(ext: &ExtData, site_id: &[u8]) -> (r: V2Rest)
    ensures
        r == (V2Rest {
            store_version: site_id@.len() > 0,
            mirror: ext.metadata_write_version == METADATA_VERSION_V2_AND_V1,
        }),
{
    V2Rest {
        store_version: site_id.len() > 0,
        mirror: ext.metadata_write_version == METADATA_VERSION_V2_AND_V1,
    }
}

/// The statements that copy the metadata of a row to the first format: what is there is
/// dropped; a row that was ever deleted gets a sentinel; a row that lives gets its clocks.
pub open spec fn mirror_plan(
    t: TableInfo,
    v1_key: i64,
    pks: Seq<Val>,
    hashed_pk: Seq<u8>,
    v2_key: Option<i64>,
    v2_cl: i64,
    ts: i64,
) -> Seq<Sql> {
    seq![bound(v1_clock_delete_sql(t), seq![Val::Integer(v1_key)])] + (if v2_cl > 1 {
        match v2_key {
            Some(key) => seq![
                bound(
                    v1_sentinel_insert_alive_sql(t),
                    seq![
                        Val::Integer(v1_key),
                        Val::Integer(v2_cl),
                        Val::Integer(ts),
                        Val::Integer(cell_of(key, 0)),
                    ],
                ),
            ],
            None => seq![
                bound(
                    v1_sentinel_insert_dead_sql(t),
                    seq![Val::Integer(v1_key), Val::Integer(v2_cl), Val::Integer(ts), row_id(t, pks, hashed_pk)],
                ),
            ],
        }
    } else {
        seq![]
    }) + (match v2_key {
        Some(key) => seq![
            bound(
                v1_clock_copy_sql(t),
                seq![
                    Val::Integer(v1_key),
                    Val::Integer(ts),
                    Val::Integer(CRSQL_COL_ID_MASK),
                    Val::Integer(key << 12u32),
                    Val::Integer(cell_of(key, CRSQL_COL_ID_MASK)),
                ],
            ),
        ],
        None => seq![],
    })
}

/// The statements, to be run in their order, that copy the metadata of a row to the first format,
/// where the row and its primary key are known: `v1_key` is its key there, `v2_key` and `v2_cl` are
/// its key and causal length in the second format, and `ts` is the time of the transaction.
pub fn v2_to_v1_mirror_metadata(
    t: &TableInfo,
    v1_key: i64,
    pks: &[ColumnValue],
    hashed_pk: &[u8],
    v2_key: Option<i64>,
    v2_cl: i64,
    ts: i64,
) -> (r: Vec<Statement>)
    requires
        pks@.len() > 0,
    ensures
        sqls(r@) == mirror_plan(*t, v1_key, vals(pks@), hashed_pk@, v2_key, v2_cl, ts),
{
    let mut plan = empty_plan();
    push_statement(&mut plan, v1_clock_delete_text(t), one(ColumnValue::Integer(v1_key)));
    if v2_cl > 1 {
        let mut binds = no_values();
        push_value(&mut binds, ColumnValue::Integer(v1_key));
        push_value(&mut binds, ColumnValue::Integer(v2_cl));
        push_value(&mut binds, ColumnValue::Integer(ts));
        match v2_key {
            Some(key) => {
                push_value(&mut binds, ColumnValue::Integer(cell_key(key, 0)));
                assert(vals(binds@) =~= seq![
                    Val::Integer(v1_key),
                    Val::Integer(v2_cl),
                    Val::Integer(ts),
                    Val::Integer(cell_of(key, 0)),
                ]);
                push_statement(&mut plan, v1_sentinel_insert_alive_text(t), binds);
            },
            None => {
                push_value(&mut binds, row_id_value(t, pks, hashed_pk));
                assert(vals(binds@) =~= seq![
                    Val::Integer(v1_key),
                    Val::Integer(v2_cl),
                    Val::Integer(ts),
                    row_id(*t, vals(pks@), hashed_pk@),
                ]);
                push_statement(&mut plan, v1_sentinel_insert_dead_text(t), binds);
            },
        }
    }
    match v2_key {
        Some(key) => {
            let mut binds = no_values();
            push_value(&mut binds, ColumnValue::Integer(v1_key));
            push_value(&mut binds, ColumnValue::Integer(ts));
            push_value(&mut binds, ColumnValue::Integer(CRSQL_COL_ID_MASK));
            push_value(&mut binds, ColumnValue::Integer(cell_key_base(key)));
            push_value(&mut binds, ColumnValue::Integer(cell_key_end(key)));
            assert(vals(binds@) =~= seq![
                Val::Integer(v1_key),
                Val::Integer(ts),
                Val::Integer(CRSQL_COL_ID_MASK),
                Val::Integer(key << 12u32),
                Val::Integer(cell_of(key, CRSQL_COL_ID_MASK)),
            ]);
            push_statement(&mut plan, v1_clock_copy_text(t), binds);
        },
        None => {},
    }
    assert(sqls(plan@) =~= mirror_plan(*t, v1_key, vals(pks@), hashed_pk@, v2_key, v2_cl, ts));
    plan
}

/// Where the primary key of a row is looked up by its hash.
#[derive(Clone, Copy, PartialEq, Eq, Structural, Debug)]
pub enum PksLookup {
    /// Nowhere: rows are not known by hashes, or it was looked for everywhere.
    Nowhere,
    Tombstones,
    LiveKeys,
}

/// Where the primary key of a row is looked up next, after `tried` lookups gave none: among
/// the tombstones, and then among the live keys.
pub fn v2_lookup_pks_for_v1_copy(skip_hash: bool, tried: usize) -> (r: PksLookup)
    ensures
        r == (if skip_hash || tried >= 2 {
            PksLookup::Nowhere
        } else if tried == 0 {
            PksLookup::Tombstones
        } else {
            PksLookup::LiveKeys
        }),
{
    if skip_hash || tried >= 2 {
        PksLookup::Nowhere
    } else if tried == 0 {
        PksLookup::Tombstones
    } else {
        PksLookup::LiveKeys
    }
}

// ---------------------------------------------------------------------------
// Rows that have metadata in the first format only
// ---------------------------------------------------------------------------
/// What to do about a row that may have metadata in the first format only.
#[derive(Clone, Copy, PartialEq, Eq, Structural, Debug)]
pub enum HydrateStep {
    /// The transaction has no time.
    Fail(ResultCode),
    /// The row has metadata in the second format, or none at all.
    Nothing,
    /// Look for the key of the row in the first format.
    FindKey,
    /// The row has no sentinel: look whether it has a clock.
    FindClock,
    /// The row is dead at this causal length: find out who deleted it.
    Dead(i64),
    /// The row lives at this causal length.
    Alive(i64),
}

/// What to do about a row that may have metadata in the first format only, with its key and
/// causal length in the second.
pub fn v1_to_v2_hydrate_row(ext: &ExtData, v2_key: Option<i64>, v2_cl: i64) -> (r: HydrateStep)
    ensures
        r == (if tx_time(*ext) == 0 {
            HydrateStep::Fail(ResultCode::ERROR)
        } else if v2_key is Some || v2_cl != 0 {
            HydrateStep::Nothing
        } else {
            HydrateStep::FindKey
        }),
{
    if ext.timestamp == 0 && ext.default_timestamp == 0 {
        HydrateStep::Fail(ResultCode::ERROR)
    } else if v2_key.is_some() || v2_cl != 0 {
        HydrateStep::Nothing
    } else {
        HydrateStep::FindKey
    }
}

/// What the sentinel of a row says of it, in the first format; -1 stands for no sentinel.
pub open spec fn sentinel_state(sentinel: Option<i64>) -> HydrateStep {
    match sentinel {
        Some(cl) => if cl == -1 {
            HydrateStep::FindClock
        } else if is_alive(cl as int) {
            HydrateStep::Alive(cl)
        } else {
            HydrateStep::Dead(cl)
        },
        None => HydrateStep::FindClock,
    }
}

/// What to do about a row that has a key in the first format, with the causal length in its
/// sentinel, if it has one.
pub fn hydrate_by_sentinel(sentinel: Option<i64>) -> (r: HydrateStep)
    ensures
        r == sentinel_state(sentinel),
{
    match sentinel {
        Some(cl) => if cl == -1 {
            HydrateStep::FindClock
        } else if odd(cl) {
            HydrateStep::Alive(cl)
        } else {
            HydrateStep::Dead(cl)
        },
        None => HydrateStep::FindClock,
    }
}

/// What to do about a row without a sentinel: with a clock it lives for the first time.
pub fn hydrate_by_clock(has_clock: bool) -> (r: HydrateStep)
    ensures
        r == (if has_clock {
            HydrateStep::Alive(1)
        } else {
            HydrateStep::Nothing
        }),
{
    if has_clock {
        HydrateStep::Alive(1)
    } else {
        HydrateStep::Nothing
    }
}

/// A time, or another where there is none.
pub open spec fn time_or(ts: i64, fallback: i64) -> i64 {
    if ts > 0 {
        ts
    } else {
        fallback
    }
}

/// The statements that give a dead row a tombstone, and keep its primary key where rows are
/// known by hashes.
pub open spec fn hydrate_dead_plan(
    t: TableInfo,
    pks: Seq<Val>,
    hashed_pk: Seq<u8>,
    cl: i64,
    site: i64,
    db_version: i64,
    seq: i64,
    ts: i64,
) -> Seq<Sql> {
    seq![
        bound(
            tomb_insert_sql(t),
            seq![
                Val::Integer(site),
                Val::Integer(db_version),
                Val::Integer(seq),
                row_id(t, pks, hashed_pk),
                Val::Integer(cl),
                Val::Integer(ts),
            ],
        ),
    ] + (if t.skip_hash {
        seq![]
    } else {
        seq![bound(tomb_pks_insert_sql(t), seq![Val::Blob(hashed_pk)] + pks)]
    })
}

/// The statements, to be run in their order, that give a dead row a tombstone: `site`,
/// `db_version`, `seq` and `ts` are those of its sentinel, and `fallback` is the time of the
/// transaction.
pub fn hydrate_dead_row(
    t: &TableInfo,
    pks: &[ColumnValue],
    hashed_pk: &[u8],
    cl: i64,
    site: i64,
    db_version: i64,
    seq: i64,
    ts: i64,
    fallback: i64,
) -> (r: Vec<Statement>)
    requires
        t.skip_hash ==> pks@.len() > 0,
    ensures
        sqls(r@) == hydrate_dead_plan(
            *t,
            vals(pks@),
            hashed_pk@,
            cl,
            site,
            db_version,
            seq,
            time_or(ts, fallback),
        ),
{
    let time: i64 = if ts > 0 {
        ts
    } else {
        fallback
    };
    let mut binds = no_values();
    push_value(&mut binds, ColumnValue::Integer(site));
    push_value(&mut binds, ColumnValue::Integer(db_version));
    push_value(&mut binds, ColumnValue::Integer(seq));
    push_value(&mut binds, row_id_value(t, pks, hashed_pk));
    push_value(&mut binds, ColumnValue::Integer(cl));
    push_value(&mut binds, ColumnValue::Integer(time));
    assert(vals(binds@) =~= seq![
        Val::Integer(site),
        Val::Integer(db_version),
        Val::Integer(seq),
        row_id(*t, vals(pks@), hashed_pk@),
        Val::Integer(cl),
        Val::Integer(time),
    ]);
    let mut plan = empty_plan();
    push_statement(&mut plan, tomb_insert_text(t), binds);
    if !t.skip_hash {
        let mut key = one(blob(hashed_pk));
        push_values(&mut key, pks);
        push_statement(&mut plan, tomb_pks_insert_text(t), key);
    }
    assert(sqls(plan@) =~= hydrate_dead_plan(
        *t,
        vals(pks@),
        hashed_pk@,
        cl,
        site,
        db_version,
        seq,
        time,
    ));
    plan
}

/// The statement that copies the clocks of a row from the first format, once it has a live
/// key: `ts` is the time of the transaction.
pub fn hydrate_clocks(t: &TableInfo, v2_key: i64, ts: i64, v1_key: i64) -> (r: Vec<Statement>)
    ensures
        sqls(r@) == seq![
            bound(
                hydrate_clock_copy_sql(*t),
                seq![Val::Integer(v2_key), Val::Integer(ts), Val::Integer(v1_key)],
            ),
        ],
{
    let mut binds = no_values();
    push_value(&mut binds, ColumnValue::Integer(v2_key));
    push_value(&mut binds, ColumnValue::Integer(ts));
    push_value(&mut binds, ColumnValue::Integer(v1_key));
    assert(vals(binds@) =~= seq![Val::Integer(v2_key), Val::Integer(ts), Val::Integer(v1_key)]);
    let mut plan = empty_plan();
    push_statement(&mut plan, hydrate_clock_copy_text(t), binds);
    assert(sqls(plan@) =~= seq![
        bound(
            hydrate_clock_copy_sql(*t),
            seq![Val::Integer(v2_key), Val::Integer(ts), Val::Integer(v1_key)],
        ),
    ]);
    plan
}

/// The hash by which a row is known, from the primary key as SQLite hands it over.
pub fn v1_to_v2_hydrate_row_from_values(pks: &[ColumnValue]) -> (r: Result<Vec<u8>, ResultCode>)
    ensures
        r matches Ok(hash) && hash@ == pk_hash(pack(vals(pks@))),
{
    hash_pk_values_from_column_values(pks)
}

} // verus!
