//! The hash by which a row is known from its primary key.

use crate::consts::PK_HASH_SIZE;
use crate::pack_columns::{be_bytes, lemma_be_bytes_len, pack, pack_column_values, pack_columns, vals, ColumnValue};
use crate::result_code::ResultCode;
use vstd::prelude::*;

verus! {

/// The 128-bit XXH3 hash of `data`, without a seed.
pub uninterp spec fn xxh3_128_of(data: Seq<u8>) -> u128;

/// Calls `xxhash_rust::xxh3::xxh3_128`: the unseeded 128-bit XXH3 hash, a function of
/// the bytes alone.
#[verifier::external_body]
fn xxh3_128(data: &[u8]) -> (r: u128)
    ensures
        r == xxh3_128_of(data@),
{
    xxhash_rust::xxh3::xxh3_128(data)
}

/// What is kept of a hash: its first bytes, the most significant.
pub open spec fn truncated(hash: u128) -> Seq<u8> {
    be_bytes(hash as nat, 16).take(PK_HASH_SIZE as int)
}

/// The key hash of a packed primary key.
pub open spec fn pk_hash(packed: Seq<u8>) -> Seq<u8> {
    truncated(xxh3_128_of(packed))
}

fn put_be(buf: &mut Vec<u8>, x: u128, n: usize)
    ensures
        final(buf)@ == old(buf)@ + be_bytes(x as nat, n as nat),
    decreases n,
{
    if n > 0 {
        put_be(buf, x / 256, n - 1);
        buf.push((x % 256) as u8);
    }
    assert(buf@ =~= old(buf)@ + be_bytes(x as nat, n as nat));
}

proof fn lemma_be_bytes_take(x: nat, n: nat, k: nat)
    requires
        k < n,
    ensures
        be_bytes(x, n).take(k as int) == be_bytes(x / 256, (n - 1) as nat).take(k as int),
{
    lemma_be_bytes_len(x, n);
    lemma_be_bytes_len(x / 256, (n - 1) as nat);
    assert(be_bytes(x, n).take(k as int) =~= be_bytes(x / 256, (n - 1) as nat).take(k as int));
}

/// Cuts a hash down to the bytes that are kept.
pub fn truncate_hash(hash: u128) -> (r: Vec<u8>)
    ensures
        r@ == truncated(hash),
        r@.len() == PK_HASH_SIZE,
{
    let mut bytes: Vec<u8> = Vec::new();
    let top: u128 = hash / 0x1_0000_0000_0000;
    put_be(&mut bytes, top, PK_HASH_SIZE);
    proof {
        hashes_keep_their_front(hash);
        assert(bytes@ =~= be_bytes(top as nat, 10));
    }
    bytes
}

/// The key hash of a packed primary key.
pub fn hash_packed_blob(packed: &[u8]) -> (r: Vec<u8>)
    ensures
        r@ == pk_hash(packed@),
        r@.len() == PK_HASH_SIZE,
{
    truncate_hash(xxh3_128(packed))
}

/// The key hash of the primary key values that SQLite hands over.
pub fn hash_pk_values(values: &[ColumnValue]) -> (r: Result<Vec<u8>, ResultCode>)
    ensures
        r matches Ok(hash) && hash@ == pk_hash(pack(vals(values@))) && hash@.len() == PK_HASH_SIZE,
{
    match pack_columns(values) {
        Ok(packed) => Ok(hash_packed_blob(packed.as_slice())),
        Err(e) => Err(e),
    }
}

/// The key hash of primary key values that were unpacked before.
pub fn hash_pk_values_from_column_values(values: &[ColumnValue]) -> (r: Result<Vec<u8>, ResultCode>)
    ensures
        r matches Ok(hash) && hash@ == pk_hash(pack(vals(values@))) && hash@.len() == PK_HASH_SIZE,
{
    match pack_column_values(values) {
        Ok(packed) => Ok(hash_packed_blob(packed.as_slice())),
        Err(e) => Err(e),
    }
}

/// Ten bytes are kept of a hash of sixteen: all but the six that count least.
pub proof fn hashes_keep_their_front(hash: u128)
    ensures
        truncated(hash).len() == 10,
        truncated(hash) == be_bytes(hash as nat / 0x1_0000_0000_0000, 10),
{
    let x = hash as nat;
    let top = x / 0x1_0000_0000_0000;
    lemma_be_bytes_take(x, 16, 10);
    lemma_be_bytes_take(x / 256, 15, 10);
    lemma_be_bytes_take(x / 256 / 256, 14, 10);
    lemma_be_bytes_take(x / 256 / 256 / 256, 13, 10);
    lemma_be_bytes_take(x / 256 / 256 / 256 / 256, 12, 10);
    lemma_be_bytes_take(x / 256 / 256 / 256 / 256 / 256, 11, 10);
    assert(x / 256 / 256 / 256 / 256 / 256 / 256 == top);
    lemma_be_bytes_len(top, 10);
    assert(be_bytes(top, 10).take(10) =~= be_bytes(top, 10));
}

} // verus!
