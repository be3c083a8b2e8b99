//! Cells: a cell is known by one number, the key of its row and, in the low bits, the id
//! of its column.

use crate::consts::{CRSQL_COL_ID_BITS, CRSQL_COL_ID_MASK, MAX_ROWID_KEY};
use vstd::prelude::*;

verus! {

/// The number of a cell.
pub open spec fn cell_of(key: i64, col_id: i64) -> i64 {
    (key << 12u32) | col_id
}

/// The number of a cell.
pub fn cell_key(key: i64, col_id: i64) -> (r: i64)
    ensures
        r == cell_of(key, col_id),
{
    (key << CRSQL_COL_ID_BITS) | col_id
}

/// The number of the first cell that a row can have.
pub fn cell_key_base(key: i64) -> (r: i64)
    ensures
        r == key << 12u32,
{
    key << CRSQL_COL_ID_BITS
}

/// The number of the last cell that a row can have.
pub fn cell_key_end(key: i64) -> (r: i64)
    ensures
        r == cell_of(key, CRSQL_COL_ID_MASK),
{
    cell_key(key, CRSQL_COL_ID_MASK)
}

/// Whether a key can be packed with the id of a column.
pub open spec fn packs(key: i64, col_id: i64) -> bool {
    0 <= key < MAX_ROWID_KEY && 0 <= col_id <= CRSQL_COL_ID_MASK
}

/// The number of a cell gives back the key of its row and the id of its column, and it
/// is not negative.
pub proof fn cell_key_round_trip(key: i64, col_id: i64)
    requires
        packs(key, col_id),
    ensures
        cell_of(key, col_id) >> 12u32 == key,
        cell_of(key, col_id) & CRSQL_COL_ID_MASK == col_id,
        cell_of(key, col_id) >= 0,
        cell_of(key, col_id) == key * 4096 + col_id,
{
    assert(((key << 12u32) | col_id) >> 12u32 == key && ((key << 12u32) | col_id) & 4095i64 == col_id && ((key << 12u32)
        | col_id) >= 0 && (key << 12u32) | col_id == key * 4096 + col_id) by (bit_vector)
        requires
            0 <= key < 0x8_0000_0000_0000i64,
            0 <= col_id <= 4095,
    ;
}

/// The cells of a row lie in a range of their own: no cell of another row is in it.
pub proof fn cells_of_a_row(key: i64, other: i64, col_id: i64)
    requires
        packs(key, 0),
        packs(other, col_id),
    ensures
        key << 12u32 <= cell_of(other, col_id) <= cell_of(key, CRSQL_COL_ID_MASK) <==> key == other,
{
    cell_key_round_trip(key, 0);
    cell_key_round_trip(key, 4095);
    cell_key_round_trip(other, col_id);
    assert((key << 12u32) | 0i64 == key << 12u32) by (bit_vector);
}

} // verus!
