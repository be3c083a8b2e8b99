//! The packed wire format: a count, then one tagged value after the other.
//!
//! ```text
//! packed  := varint(number of values) value*
//! value   := tag byte, then what the tag says
//! tag     := low 3 bits the type, high 5 bits a byte count
//! ```
//!
//! Integers and lengths take as many big-endian bytes as they need, zero takes none.

use crate::result_code::ResultCode;
use bytes::{Buf, BufMut};
use vstd::arithmetic::power::*;
use vstd::prelude::*;
use vstd::utf8::*;

verus! {

// ---------------------------------------------------------------------------
// Values
// ---------------------------------------------------------------------------
/// The fundamental types of a SQLite value.
#[derive(Clone, Copy, PartialEq, Eq, Structural, Debug)]
pub enum ColumnType {
    Integer,
    Float,
    Text,
    Blob,
    Null,
}

impl ColumnType {
    /// The number by which SQLite knows the type.
    pub open spec fn spec_tag(self) -> u8 {
        match self {
            ColumnType::Integer => 1u8,
            ColumnType::Float => 2u8,
            ColumnType::Text => 3u8,
            ColumnType::Blob => 4u8,
            ColumnType::Null => 5u8,
        }
    }

    /// The number by which SQLite knows the type.
    pub fn tag(self) -> (r: u8)
        ensures
            r == self.spec_tag(),
    {
        match self {
            ColumnType::Integer => 1,
            ColumnType::Float => 2,
            ColumnType::Text => 3,
            ColumnType::Blob => 4,
            ColumnType::Null => 5,
        }
    }

    /// The type with the number `tag`.
    pub open spec fn spec_from_u8(tag: u8) -> Option<ColumnType> {
        if tag == 1 {
            Some(ColumnType::Integer)
        } else if tag == 2 {
            Some(ColumnType::Float)
        } else if tag == 3 {
            Some(ColumnType::Text)
        } else if tag == 4 {
            Some(ColumnType::Blob)
        } else if tag == 5 {
            Some(ColumnType::Null)
        } else {
            None
        }
    }

    /// The type with the number `tag`, `None` where there is none.
    pub fn from_u8(tag: u8) -> (r: Option<ColumnType>)
        ensures
            r == Self::spec_from_u8(tag),
    {
        match tag {
            1 => Some(ColumnType::Integer),
            2 => Some(ColumnType::Float),
            3 => Some(ColumnType::Text),
            4 => Some(ColumnType::Blob),
            5 => Some(ColumnType::Null),
            _ => None,
        }
    }
}

/// A SQLite value. A float is held by the bits of its IEEE 754 form.
#[derive(PartialEq, Eq, Debug)]
pub enum ColumnValue {
    Blob(Vec<u8>),
    Float(u64),
    Integer(i64),
    Null,
    Text(String),
}

/// What a value holds.
pub enum Val {
    Blob(Seq<u8>),
    Float(u64),
    Integer(i64),
    Null,
    Text(Seq<char>),
}

impl View for ColumnValue {
    type V = Val;

    open spec fn view(&self) -> Val {
        match self {
            ColumnValue::Blob(b) => Val::Blob(b@),
            ColumnValue::Float(f) => Val::Float(*f),
            ColumnValue::Integer(i) => Val::Integer(*i),
            ColumnValue::Null => Val::Null,
            ColumnValue::Text(t) => Val::Text(t@),
        }
    }
}

impl Clone for ColumnValue {
    fn clone(&self) -> (r: ColumnValue)
        ensures
            r@ == self@,
    {
        match self {
            ColumnValue::Blob(b) => {
                let c = b.clone();
                assert(c@ =~= b@);
                ColumnValue::Blob(c)
            },
            ColumnValue::Float(f) => ColumnValue::Float(*f),
            ColumnValue::Integer(i) => ColumnValue::Integer(*i),
            ColumnValue::Null => ColumnValue::Null,
            ColumnValue::Text(t) => ColumnValue::Text(t.clone()),
        }
    }
}

/// What each value of a sequence holds.
pub open spec fn vals(s: Seq<ColumnValue>) -> Seq<Val> {
    s.map_values(|v: ColumnValue| v@)
}

// ---------------------------------------------------------------------------
// Big-endian integers
// ---------------------------------------------------------------------------
/// The low `n` bytes of `x`, most significant first.
pub open spec fn be_bytes(x: nat, n: nat) -> Seq<u8>
    decreases n,
{
    if n == 0 {
        seq![]
    } else {
        be_bytes(x / 256, (n - 1) as nat).push((x % 256) as u8)
    }
}

/// The number that `s` writes, most significant byte first.
pub open spec fn be_value(s: Seq<u8>) -> nat
    decreases s.len(),
{
    if s.len() == 0 {
        0
    } else {
        be_value(s.drop_last()) * 256 + s.last() as nat
    }
}

/// How many bytes it takes to write `x`; none for zero.
pub open spec fn bytes_needed(x: nat) -> nat
    decreases x,
{
    if x == 0 {
        0
    } else {
        1 + bytes_needed(x / 256)
    }
}

/// The 64 bits of `x`, read as an unsigned number.
pub open spec fn unsigned(x: i64) -> nat {
    if x >= 0 {
        x as nat
    } else {
        (x + 0x1_0000_0000_0000_0000) as nat
    }
}

/// The 64 bits of `x`, read as a signed number.
pub open spec fn signed(x: nat) -> int {
    if x < 0x8000_0000_0000_0000 {
        x as int
    } else {
        x - 0x1_0000_0000_0000_0000
    }
}

/// The 64 bits of `x`, read as an unsigned number.
pub fn to_unsigned(x: i64) -> (r: u64)
    ensures
        r == unsigned(x),
{
    if x >= 0 {
        x as u64
    } else {
        (x + 0x7fff_ffff_ffff_ffff + 1) as u64 + 0x8000_0000_0000_0000
    }
}

/// The 64 bits of `x`, read as a signed number.
pub fn to_signed(x: u64) -> (r: i64)
    ensures
        r == signed(x as nat),
{
    if x < 0x8000_0000_0000_0000 {
        x as i64
    } else {
        (x - 0x8000_0000_0000_0000) as i64 - 0x7fff_ffff_ffff_ffff - 1
    }
}

pub(crate) proof fn lemma_be_bytes_len(x: nat, n: nat)
    ensures
        be_bytes(x, n).len() == n,
    decreases n,
{
    if n > 0 {
        lemma_be_bytes_len(x / 256, (n - 1) as nat);
    }
}

/// Reading the bytes of a number that fits gives the number back.
pub proof fn lemma_be_round_trip(x: nat, n: nat)
    requires
        bytes_needed(x) <= n,
    ensures
        be_value(be_bytes(x, n)) == x,
        be_bytes(x, n).len() == n,
    decreases n,
{
    lemma_be_bytes_len(x, n);
    if n > 0 {
        assert(bytes_needed(x / 256) <= n - 1) by {
            if x == 0 {
                assert(x / 256 == 0);
            }
        }
        lemma_be_round_trip(x / 256, (n - 1) as nat);
        assert(be_bytes(x, n).drop_last() =~= be_bytes(x / 256, (n - 1) as nat));
    }
}

/// Calls `bytes::BufMut::put_u8` on a vector: appends the byte.
#[verifier::external_body]
fn put_u8(buf: &mut Vec<u8>, n: u8)
    ensures
        final(buf)@ == old(buf)@.push(n),
{
    buf.put_u8(n)
}

/// Calls `bytes::BufMut::put_slice` on a vector: appends the bytes.
#[verifier::external_body]
fn put_slice(buf: &mut Vec<u8>, src: &[u8])
    ensures
        final(buf)@ == old(buf)@ + src@,
{
    buf.put_slice(src)
}

/// Calls `bytes::BufMut::put_int` on a vector: appends the low `nbytes` bytes of the
/// number, most significant first. More than eight bytes would panic.
#[verifier::external_body]
fn put_int(buf: &mut Vec<u8>, n: i64, nbytes: usize)
    requires
        nbytes <= 8,
    ensures
        final(buf)@ == old(buf)@ + be_bytes(unsigned(n), nbytes as nat),
{
    buf.put_int(n, nbytes)
}

/// Calls `bytes::BufMut::put_u64` on a vector: appends the eight bytes of the
/// number, most significant first.
#[verifier::external_body]
fn put_u64(buf: &mut Vec<u8>, n: u64)
    ensures
        final(buf)@ == old(buf)@ + be_bytes(n as nat, 8),
{
    buf.put_u64(n)
}

/// Calls `bytes::Buf::get_u8` on a slice: takes the first byte off its front. An
/// empty slice would panic.
#[verifier::external_body]
fn get_u8(buf: &mut &[u8]) -> (r: u8)
    requires
        old(buf)@.len() >= 1,
    ensures
        r == old(buf)@[0],
        final(buf)@ == old(buf)@.skip(1),
{
    buf.get_u8()
}

/// Calls `bytes::Buf::get_uint` on a slice: takes `nbytes` bytes off its front and
/// reads them as a big-endian number. A shorter slice, and more than eight bytes,
/// would panic.
#[verifier::external_body]
fn get_uint(buf: &mut &[u8], nbytes: usize) -> (r: u64)
    requires
        nbytes <= 8,
        old(buf)@.len() >= nbytes,
    ensures
        r == be_value(old(buf)@.take(nbytes as int)),
        final(buf)@ == old(buf)@.skip(nbytes as int),
{
    buf.get_uint(nbytes)
}

/// Calls `bytes::Buf::get_int` on a slice: takes `nbytes` bytes off its front, fills
/// them up with zero bytes in front to eight, and reads the eight as a signed
/// big-endian number. A shorter slice, and more than eight bytes, would panic.
#[verifier::external_body]
fn get_int(buf: &mut &[u8], nbytes: usize) -> (r: i64)
    requires
        nbytes <= 8,
        old(buf)@.len() >= nbytes,
    ensures
        r == signed(be_value(old(buf)@.take(nbytes as int))),
        final(buf)@ == old(buf)@.skip(nbytes as int),
{
    buf.get_int(nbytes)
}

/// Calls `bytes::Buf::get_u64` on a slice: takes eight bytes off its front and reads
/// them as a big-endian number. A shorter slice would panic.
#[verifier::external_body]
fn get_u64(buf: &mut &[u8]) -> (r: u64)
    requires
        old(buf)@.len() >= 8,
    ensures
        r == be_value(old(buf)@.take(8)),
        final(buf)@ == old(buf)@.skip(8),
{
    buf.get_u64()
}

/// Calls `bytes::Buf::copy_to_bytes` on a slice: takes `len` bytes off its front. A
/// shorter slice would panic.
#[verifier::external_body]
fn copy_to_bytes(buf: &mut &[u8], len: usize) -> (r: Vec<u8>)
    requires
        old(buf)@.len() >= len,
    ensures
        r@ == old(buf)@.take(len as int),
        final(buf)@ == old(buf)@.skip(len as int),
{
    buf.copy_to_bytes(len).to_vec()
}

/// Calls `String::from_utf8`: a string of those bytes where they are UTF-8, and an
/// error, given here as `None`, where they are not.
#[verifier::external_body]
fn string_from_utf8(bytes: Vec<u8>) -> (r: Option<String>)
    ensures
        r is Some <==> valid_utf8(bytes@),
        r matches Some(s) ==> s@ == decode_utf8(bytes@),
{
    String::from_utf8(bytes).ok()
}

/// How many bytes it takes to write the length `val`, its 32 bits read as an
/// unsigned number.
pub fn num_bytes_needed_i32(val: i32) -> (r: u8)
    ensures
        r == bytes_needed(if val >= 0 { val as nat } else { (val + 0x1_0000_0000) as nat }),
        r <= 4,
{
    proof {
        let x: nat = if val >= 0 { val as nat } else { (val + 0x1_0000_0000) as nat };
        lemma_bytes_needed_small(x);
    }
    if val < 0 || val >= 0x0100_0000 {
        4
    } else if val >= 0x0001_0000 {
        3
    } else if val >= 0x0100 {
        2
    } else if val != 0 {
        1
    } else {
        0
    }
}

proof fn lemma_bytes_needed_small(x: nat)
    requires
        x < 0x1_0000_0000,
    ensures
        bytes_needed(x) == if x >= 0x0100_0000 { 4nat } else if x >= 0x0001_0000 { 3 } else if x >= 0x0100 { 2 } else if x != 0 { 1 } else { 0 },
{
    reveal_with_fuel(bytes_needed, 6);
}

proof fn lemma_bytes_needed_large(x: nat)
    requires
        0x1_0000_0000 <= x < 0x1_0000_0000_0000_0000,
    ensures
        bytes_needed(x) == if x >= 0x0100_0000_0000_0000 { 8nat } else if x >= 0x0001_0000_0000_0000 { 7 } else if x >= 0x0100_0000_0000 { 6 } else { 5 },
{
    let y = x / 0x1_0000_0000;
    assert(x / 256 / 256 / 256 / 256 == y);
    lemma_bytes_needed_small(y);
    reveal_with_fuel(bytes_needed, 5);
}

/// How many bytes it takes to write `val`, its 64 bits read as an unsigned number.
pub fn num_bytes_needed_i64(val: i64) -> (r: u8)
    ensures
        r == bytes_needed(unsigned(val)),
        r <= 8,
{
    proof {
        if unsigned(val) >= 0x1_0000_0000 {
            lemma_bytes_needed_large(unsigned(val));
        } else {
            lemma_bytes_needed_small(unsigned(val));
        }
    }
    if val < 0 || val >= 0x0100_0000_0000_0000 {
        8
    } else if val >= 0x0001_0000_0000_0000 {
        7
    } else if val >= 0x0100_0000_0000 {
        6
    } else if val >= 0x1_0000_0000 {
        5
    } else if val >= 0x8000_0000 {
        num_bytes_needed_i32((val - 0x1_0000_0000) as i32)
    } else {
        num_bytes_needed_i32(val as i32)
    }
}

// ---------------------------------------------------------------------------
// Varints
// ---------------------------------------------------------------------------
/// The 7-bit groups of `x`, most significant first and without leading zeros, each
/// with the continuation bit.
pub open spec fn high_groups(x: nat) -> Seq<u8>
    decreases x,
{
    if x == 0 {
        seq![]
    } else {
        high_groups(x / 128).push((x % 128 + 128) as u8)
    }
}

/// The low `n` 7-bit groups of `x`, most significant first, each with the
/// continuation bit.
pub open spec fn fixed_groups(x: nat, n: nat) -> Seq<u8>
    decreases n,
{
    if n == 0 {
        seq![]
    } else {
        fixed_groups(x / 128, (n - 1) as nat).push((x % 128 + 128) as u8)
    }
}

/// `x` as a SQLite varint: 7 bits to a byte, most significant first, all bytes but
/// the last with the continuation bit. From 2^56 on, eight such bytes and a ninth
/// that holds 8 bits.
pub open spec fn varint(x: nat) -> Seq<u8> {
    if x < 0x100_0000_0000_0000 {
        high_groups(x / 128).push((x % 128) as u8)
    } else {
        fixed_groups(x / 256, 8).push((x % 256) as u8)
    }
}

/// Reads on at byte `i` of a varint whose first `i` bytes gave `acc`: the value, and
/// how many bytes it took. A varint that the input cuts off ends where the input ends.
pub open spec fn read_groups(s: Seq<u8>, i: nat, acc: nat) -> (nat, nat)
    decreases 9 - i,
{
    if i >= s.len() || i >= 9 {
        (acc, i)
    } else if i == 8 {
        (acc * 256 + s[8] as nat, 9)
    } else if s[i as int] < 128 {
        (acc * 128 + s[i as int] as nat, i + 1)
    } else {
        read_groups(s, i + 1, acc * 128 + (s[i as int] - 128) as nat)
    }
}

/// The varint at the front of `s`, and how many bytes it takes.
pub open spec fn read_varint(s: Seq<u8>) -> (nat, nat) {
    read_groups(s, 0, 0)
}

fn put_high_groups(buf: &mut Vec<u8>, value: u64)
    ensures
        final(buf)@ == old(buf)@ + high_groups(value as nat),
    decreases value,
{
    if value != 0 {
        put_high_groups(buf, value / 128);
        put_u8(buf, (value % 128) as u8 + 128);
    }
    assert(buf@ =~= old(buf)@ + high_groups(value as nat));
}

fn put_fixed_groups(buf: &mut Vec<u8>, value: u64, n: u8)
    ensures
        final(buf)@ == old(buf)@ + fixed_groups(value as nat, n as nat),
    decreases n,
{
    if n != 0 {
        put_fixed_groups(buf, value / 128, n - 1);
        put_u8(buf, (value % 128) as u8 + 128);
    }
    assert(buf@ =~= old(buf)@ + fixed_groups(value as nat, n as nat));
}

/// Appends `value` as a varint.
pub fn put_varint(buf: &mut Vec<u8>, value: u64)
    ensures
        final(buf)@ == old(buf)@ + varint(value as nat),
{
    if value < 0x100_0000_0000_0000 {
        put_high_groups(buf, value / 128);
        put_u8(buf, (value % 128) as u8);
    } else {
        put_fixed_groups(buf, value / 256, 8);
        put_u8(buf, (value % 256) as u8);
    }
    assert(buf@ =~= old(buf)@ + varint(value as nat));
}

/// Reads the varint at the front of `buf`: its value and how many bytes it takes. An
/// empty buffer is an error.
pub fn get_varint(buf: &[u8]) -> (r: Result<(u64, usize), ResultCode>)
    ensures
        r is Err <==> buf@.len() == 0,
        r matches Err(e) ==> e == ResultCode::ABORT,
        r matches Ok((value, n)) ==> {
            &&& value == read_varint(buf@).0
            &&& n == read_varint(buf@).1
            &&& 1 <= n <= 9
            &&& n <= buf@.len()
        },
{
    if buf.len() == 0 {
        return Err(ResultCode::ABORT);
    }
    let mut result: u64 = 0;
    let mut i: usize = 0;
    proof {
        lemma_pow128();
    }
    while i < buf.len() && i < 9
        invariant_except_break
            i <= 8,
            read_varint(buf@) == read_groups(buf@, i as nat, result as nat),
        invariant
            buf@.len() > 0,
            i <= buf@.len(),
            i <= 8 ==> result < pow(128, i as nat),
            pow(128, 0) == 1,
            pow(128, 8) == 0x100_0000_0000_0000,
        ensures
            1 <= i <= 9,
            read_varint(buf@) == (result as nat, i as nat),
        decreases buf@.len() - i,
    {
        proof {
            lemma_pow128_step(i as nat);
        }
        let byte = buf[i];
        if i == 8 {
            result = result * 256 + byte as u64;
            i = i + 1;
            break;
        }
        if byte < 128 {
            result = result * 128 + byte as u64;
            i = i + 1;
            break;
        }
        result = result * 128 + (byte - 128) as u64;
        i = i + 1;
    }
    Ok((result, i))
}

proof fn lemma_pow128()
    ensures
        pow(128, 0) == 1,
        pow(128, 7) == 0x2_0000_0000_0000,
        pow(128, 8) == 0x100_0000_0000_0000,
{
    reveal_with_fuel(pow, 9);
}

proof fn lemma_pow128_step(i: nat)
    ensures
        i < 8 ==> pow(128, i + 1) == pow(128, i) * 128,
        i <= 8 ==> pow(128, i) <= 0x100_0000_0000_0000,
        i < 8 ==> pow(128, i) <= 0x2_0000_0000_0000,
        pow(128, i) > 0,
    decreases 8 - i,
{
    reveal(pow);
    lemma_pow_positive(128, i);
    lemma_pow128();
    if i < 8 {
        lemma_pow128_step(i + 1);
    }
}

proof fn lemma_high_groups_len(x: nat, n: nat)
    requires
        x < pow(128, n),
    ensures
        high_groups(x).len() <= n,
    decreases n,
{
    reveal(pow);
    if n > 0 && x > 0 {
        lemma_high_groups_len(x / 128, (n - 1) as nat);
    }
}

proof fn lemma_read_high_groups(x: nat, tail: Seq<u8>)
    requires
        high_groups(x).len() <= 8,
    ensures
        read_varint(high_groups(x) + tail) == read_groups(high_groups(x) + tail, high_groups(x).len(), x),
    decreases x,
{
    if x > 0 {
        let s = high_groups(x) + tail;
        let front = high_groups(x / 128);
        let byte = (x % 128 + 128) as u8;
        lemma_read_high_groups(x / 128, seq![byte] + tail);
        assert(front + (seq![byte] + tail) =~= s);
        assert(s[front.len() as int] == byte);
    }
}

proof fn lemma_read_fixed_groups(x: nat, n: nat, tail: Seq<u8>)
    requires
        n <= 8,
        x < pow(128, n),
    ensures
        fixed_groups(x, n).len() == n,
        read_varint(fixed_groups(x, n) + tail) == read_groups(fixed_groups(x, n) + tail, n, x),
    decreases n,
{
    reveal(pow);
    if n > 0 {
        let s = fixed_groups(x, n) + tail;
        let front = fixed_groups(x / 128, (n - 1) as nat);
        let byte = (x % 128 + 128) as u8;
        lemma_read_fixed_groups(x / 128, (n - 1) as nat, seq![byte] + tail);
        assert(front + (seq![byte] + tail) =~= s);
        assert(s[front.len() as int] == byte);
    }
}

/// Reading a varint gives back the number that was written, takes exactly the bytes
/// that were written, and does not look at what follows.
pub proof fn varint_round_trip(x: u64, tail: Seq<u8>)
    ensures
        read_varint(varint(x as nat) + tail) == (x as nat, varint(x as nat).len()),
        1 <= varint(x as nat).len() <= 9,
{
    let v = x as nat;
    let s = varint(v) + tail;
    lemma_pow128();
    if v < 0x100_0000_0000_0000 {
        lemma_high_groups_len(v / 128, 7);
        let front = high_groups(v / 128);
        let rest = seq![(v % 128) as u8] + tail;
        lemma_read_high_groups(v / 128, rest);
        assert(front + rest =~= s);
        assert(s[front.len() as int] == (v % 128) as u8);
    } else {
        let front = fixed_groups(v / 256, 8);
        let rest = seq![(v % 256) as u8] + tail;
        lemma_read_fixed_groups(v / 256, 8, rest);
        assert(front + rest =~= s);
        assert(s[8] == (v % 256) as u8);
    }
}

/// Every byte of a varint but the last carries the continuation bit.
pub proof fn varint_continuation_bits(x: u64)
    ensures
        forall|i: int| 0 <= i < varint(x as nat).len() - 1 ==> varint(x as nat)[i] >= 128,
        x < 0x100_0000_0000_0000 ==> varint(x as nat).last() < 128,
{
    lemma_group_bits(x as nat / 128);
    lemma_fixed_group_bits(x as nat / 256, 8);
}

proof fn lemma_group_bits(x: nat)
    ensures
        forall|i: int| 0 <= i < high_groups(x).len() ==> high_groups(x)[i] >= 128,
    decreases x,
{
    if x > 0 {
        lemma_group_bits(x / 128);
        let front = high_groups(x / 128);
        assert forall|i: int| 0 <= i < high_groups(x).len() implies high_groups(x)[i] >= 128 by {
            if i < front.len() {
                assert(high_groups(x)[i] == front[i]);
            }
        }
    }
}

proof fn lemma_fixed_group_bits(x: nat, n: nat)
    ensures
        forall|i: int| 0 <= i < fixed_groups(x, n).len() ==> fixed_groups(x, n)[i] >= 128,
    decreases n,
{
    if n > 0 {
        lemma_fixed_group_bits(x / 128, (n - 1) as nat);
        let front = fixed_groups(x / 128, (n - 1) as nat);
        assert forall|i: int| 0 <= i < fixed_groups(x, n).len() implies fixed_groups(x, n)[i] >= 128 by {
            if i < front.len() {
                assert(fixed_groups(x, n)[i] == front[i]);
            }
        }
    }
}

// ---------------------------------------------------------------------------
// Packing
// ---------------------------------------------------------------------------
/// A tag byte with the byte count of `x` in its high bits, then the bytes of `x`.
pub open spec fn tagged_int(tag: ColumnType, x: nat) -> Seq<u8> {
    seq![(bytes_needed(x) * 8 + tag.spec_tag()) as u8] + be_bytes(x, bytes_needed(x))
}

/// A length as it is written: its low 32 bits.
pub open spec fn wire_len(len: nat) -> nat {
    len % 0x1_0000_0000
}

/// One value as it is packed.
pub open spec fn encode(v: Val) -> Seq<u8> {
    match v {
        Val::Blob(b) => tagged_int(ColumnType::Blob, wire_len(b.len())) + b,
        Val::Float(f) => seq![ColumnType::Float.spec_tag()] + be_bytes(f as nat, 8),
        Val::Integer(i) => tagged_int(ColumnType::Integer, unsigned(i)),
        Val::Null => seq![ColumnType::Null.spec_tag()],
        Val::Text(t) => tagged_int(ColumnType::Text, wire_len(encode_utf8(t).len())) + encode_utf8(t),
    }
}

/// Values packed one after the other.
pub open spec fn encode_all(vs: Seq<Val>) -> Seq<u8>
    decreases vs.len(),
{
    if vs.len() == 0 {
        seq![]
    } else {
        encode_all(vs.drop_last()) + encode(vs.last())
    }
}

/// The packed form of a list of values.
pub open spec fn pack(vs: Seq<Val>) -> Seq<u8> {
    varint(vs.len()) + encode_all(vs)
}

/// Appends a tag byte and an integer, the bits of `val` taken as unsigned.
fn put_tagged_int(buf: &mut Vec<u8>, tag: ColumnType, val: i64)
    ensures
        final(buf)@ == old(buf)@ + tagged_int(tag, unsigned(val)),
{
    let n: u8 = num_bytes_needed_i64(val);
    put_u8(buf, n * 8 + tag.tag());
    put_int(buf, val, n as usize);
    assert(buf@ =~= old(buf)@ + tagged_int(tag, unsigned(val)));
}

/// Appends a tag byte and a length, and then the bytes.
fn put_tagged_bytes(buf: &mut Vec<u8>, tag: ColumnType, bytes: &[u8])
    ensures
        final(buf)@ == old(buf)@ + (tagged_int(tag, wire_len(bytes@.len())) + bytes@),
{
    let len: i64 = (bytes.len() as u64 % 0x1_0000_0000) as i64;
    put_tagged_int(buf, tag, len);
    put_slice(buf, bytes);
    assert(buf@ =~= old(buf)@ + (tagged_int(tag, wire_len(bytes@.len())) + bytes@));
}

/// Appends one value in its packed form.
pub fn encode_value(buf: &mut Vec<u8>, value: &ColumnValue)
    ensures
        final(buf)@ == old(buf)@ + encode(value@),
{
    match value {
        ColumnValue::Blob(b) => {
            put_tagged_bytes(buf, ColumnType::Blob, b.as_slice());
        },
        ColumnValue::Null => {
            put_u8(buf, ColumnType::Null.tag());
        },
        ColumnValue::Float(f) => {
            put_u8(buf, ColumnType::Float.tag());
            put_u64(buf, *f);
        },
        ColumnValue::Integer(i) => {
            put_tagged_int(buf, ColumnType::Integer, *i);
        },
        ColumnValue::Text(t) => {
            put_tagged_bytes(buf, ColumnType::Text, t.as_str().as_bytes());
        },
    }
    assert(buf@ =~= old(buf)@ + encode(value@));
}

/// Packs the values that SQLite hands over.
pub fn pack_columns(args: &[ColumnValue]) -> (r: Result<Vec<u8>, ResultCode>)
    ensures
        r matches Ok(buf) && buf@ == pack(vals(args@)),
{
    let mut buf: Vec<u8> = Vec::new();
    put_varint(&mut buf, args.len() as u64);
    let mut i: usize = 0;
    assert(vals(args@).take(0) =~= seq![]);
    assert(buf@ =~= varint(args@.len()) + encode_all(vals(args@).take(0)));
    while i < args.len()
        invariant
            i <= args@.len(),
            buf@ == varint(args@.len()) + encode_all(vals(args@).take(i as int)),
        decreases args@.len() - i,
    {
        encode_value(&mut buf, &args[i]);
        proof {
            let now = vals(args@).take(i + 1);
            assert(now.drop_last() =~= vals(args@).take(i as int));
            assert(now.last() == args@[i as int]@);
            assert(buf@ =~= varint(args@.len()) + encode_all(now));
        }
        i = i + 1;
    }
    assert(vals(args@).take(i as int) =~= vals(args@));
    Ok(buf)
}

/// Packs values that were unpacked before, in the same form as [`pack_columns`].
pub fn pack_column_values(values: &[ColumnValue]) -> (r: Result<Vec<u8>, ResultCode>)
    ensures
        r matches Ok(buf) && buf@ == pack(vals(values@)),
{
    pack_columns(values)
}

// ---------------------------------------------------------------------------
// Unpacking
// ---------------------------------------------------------------------------
/// What comes of reading one value.
pub enum One {
    /// A value, and how many bytes it took.
    Value(Val, nat),
    /// The input is rejected.
    Failed(ResultCode),
    /// The input is outside the format: an integer of more than eight bytes, or text
    /// that is not UTF-8.
    Undefined,
}

/// What comes of reading a list of values.
pub enum Unpacked {
    Values(Seq<Val>),
    Failed(ResultCode),
    /// One of the values is outside the format.
    Undefined,
}

/// Reads the value at the front of `s`.
pub open spec fn decode_one(s: Seq<u8>) -> One {
    if s.len() == 0 {
        One::Failed(ResultCode::ABORT)
    } else {
        let n = (s[0] / 8) as nat;
        let rest = s.skip(1);
        match ColumnType::spec_from_u8((s[0] % 8) as u8) {
            None => One::Failed(ResultCode::MISUSE),
            Some(ColumnType::Null) => One::Value(Val::Null, 1),
            Some(ColumnType::Float) => if rest.len() < 8 {
                One::Failed(ResultCode::ABORT)
            } else {
                One::Value(Val::Float(be_value(rest.take(8)) as u64), 9)
            },
            Some(ColumnType::Integer) => if rest.len() < n {
                One::Failed(ResultCode::ABORT)
            } else if n > 8 {
                One::Undefined
            } else {
                One::Value(Val::Integer(signed(be_value(rest.take(n as int))) as i64), 1 + n)
            },
            Some(ColumnType::Blob) => match decode_bytes(rest, n) {
                ByteRun::Bytes(b) => One::Value(Val::Blob(b), 1 + n + b.len()),
                ByteRun::TooShort => One::Failed(ResultCode::ABORT),
                ByteRun::Undefined => One::Undefined,
            },
            Some(ColumnType::Text) => match decode_bytes(rest, n) {
                ByteRun::Bytes(b) => if valid_utf8(b) {
                    One::Value(Val::Text(decode_utf8(b)), 1 + n + b.len())
                } else {
                    One::Undefined
                },
                ByteRun::TooShort => One::Failed(ResultCode::ABORT),
                ByteRun::Undefined => One::Undefined,
            },
        }
    }
}

/// What comes of reading a length and as many bytes.
pub enum ByteRun {
    Bytes(Seq<u8>),
    TooShort,
    Undefined,
}

/// Reads a length of `n` bytes at the front of `s`, and as many bytes as it says.
pub open spec fn decode_bytes(s: Seq<u8>, n: nat) -> ByteRun {
    if s.len() < n {
        ByteRun::TooShort
    } else if n > 8 {
        ByteRun::Undefined
    } else {
        let len = be_value(s.take(n as int));
        if s.len() - n < len {
            ByteRun::TooShort
        } else {
            ByteRun::Bytes(s.skip(n as int).take(len as int))
        }
    }
}

/// Reads `count` values from the front of `s`; stops at the first that cannot be read.
pub open spec fn decode_n(s: Seq<u8>, count: nat) -> Unpacked
    decreases count,
{
    if count == 0 {
        Unpacked::Values(seq![])
    } else {
        match decode_one(s) {
            One::Failed(e) => Unpacked::Failed(e),
            One::Undefined => Unpacked::Undefined,
            One::Value(v, used) => match decode_n(s.skip(used as int), (count - 1) as nat) {
                Unpacked::Values(vs) => Unpacked::Values(seq![v] + vs),
                other => other,
            },
        }
    }
}

/// Reads a packed list of values. Bytes after the last value are not looked at.
pub open spec fn unpack(data: Seq<u8>) -> Unpacked {
    if data.len() == 0 {
        Unpacked::Failed(ResultCode::ABORT)
    } else {
        let (count, used) = read_varint(data);
        decode_n(data.skip(used as int), count)
    }
}

/// A value read, with the number of bytes it took; or why there is none.
enum Decoded {
    Value(ColumnValue, usize),
    Failed(ResultCode),
    Undefined,
}

impl Decoded {
    spec fn one(self) -> One {
        match self {
            Decoded::Value(v, used) => One::Value(v@, used as nat),
            Decoded::Failed(e) => One::Failed(e),
            Decoded::Undefined => One::Undefined,
        }
    }
}

/// The bytes that a length of `n` bytes announces, and how many bytes they and the
/// length take; or why there are none.
enum DecodedBytes {
    Bytes(Vec<u8>),
    TooShort,
    Undefined,
}

impl DecodedBytes {
    spec fn sized(self) -> ByteRun {
        match self {
            DecodedBytes::Bytes(b) => ByteRun::Bytes(b@),
            DecodedBytes::TooShort => ByteRun::TooShort,
            DecodedBytes::Undefined => ByteRun::Undefined,
        }
    }
}

proof fn lemma_be_value_bound(s: Seq<u8>)
    ensures
        be_value(s) < pow(256, s.len()),
    decreases s.len(),
{
    reveal(pow);
    if s.len() > 0 {
        lemma_be_value_bound(s.drop_last());
    }
}

proof fn lemma_be_value_8(s: Seq<u8>)
    requires
        s.len() <= 8,
    ensures
        be_value(s) < 0x1_0000_0000_0000_0000,
{
    lemma_be_value_bound(s);
    lemma_pow_increases(256, s.len(), 8);
    assert(pow(256, 8) == 0x1_0000_0000_0000_0000) by {
        reveal_with_fuel(pow, 9);
    }
}

fn read_bytes(buf: &[u8], n: usize, signed_len: bool) -> (r: DecodedBytes)
    ensures
        r.sized() == decode_bytes(buf@, n as nat),
{
    let mut rest = buf;
    if rest.len() < n {
        return DecodedBytes::TooShort;
    }
    if n > 8 {
        return DecodedBytes::Undefined;
    }
    proof {
        lemma_be_value_8(buf@.take(n as int));
    }
    let len: u64 = if signed_len {
        to_unsigned(get_int(&mut rest, n))
    } else {
        get_uint(&mut rest, n)
    };
    if (rest.len() as u64) < len {
        return DecodedBytes::TooShort;
    }
    DecodedBytes::Bytes(copy_to_bytes(&mut rest, len as usize))
}

/// Reads the value at the front of `buf`.
fn decode_value(buf: &[u8]) -> (r: Decoded)
    ensures
        r.one() == decode_one(buf@),
{
    if buf.len() == 0 {
        return Decoded::Failed(ResultCode::ABORT);
    }
    let mut rest = buf;
    let tag_byte: u8 = get_u8(&mut rest);
    let n: usize = (tag_byte / 8) as usize;
    match ColumnType::from_u8(tag_byte % 8) {
        None => Decoded::Failed(ResultCode::MISUSE),
        Some(ColumnType::Null) => Decoded::Value(ColumnValue::Null, 1),
        Some(ColumnType::Float) => {
            if rest.len() < 8 {
                Decoded::Failed(ResultCode::ABORT)
            } else {
                Decoded::Value(ColumnValue::Float(get_u64(&mut rest)), 9)
            }
        },
        Some(ColumnType::Integer) => {
            if rest.len() < n {
                Decoded::Failed(ResultCode::ABORT)
            } else if n > 8 {
                Decoded::Undefined
            } else {
                Decoded::Value(ColumnValue::Integer(to_signed(get_uint(&mut rest, n))), 1 + n)
            }
        },
        Some(ColumnType::Blob) => {
            match read_bytes(rest, n, true) {
                DecodedBytes::Bytes(b) => {
                    let used: usize = 1 + n + b.len();
                    Decoded::Value(ColumnValue::Blob(b), used)
                },
                DecodedBytes::TooShort => Decoded::Failed(ResultCode::ABORT),
                DecodedBytes::Undefined => Decoded::Undefined,
            }
        },
        Some(ColumnType::Text) => {
            match read_bytes(rest, n, false) {
                DecodedBytes::Bytes(b) => {
                    let used: usize = 1 + n + b.len();
                    match string_from_utf8(b) {
                        Some(t) => Decoded::Value(ColumnValue::Text(t), used),
                        None => Decoded::Undefined,
                    }
                },
                DecodedBytes::TooShort => Decoded::Failed(ResultCode::ABORT),
                DecodedBytes::Undefined => Decoded::Undefined,
            }
        },
    }
}

/// Whether every value of a packed list lies within the format, as [`unpack_columns`]
/// asks of its input.
pub fn can_unpack(data: &[u8]) -> (r: bool)
    ensures
        r == !(unpack(data@) is Undefined),
{
    let (count, used) = match get_varint(data) {
        Ok(header) => header,
        Err(_) => return true,
    };
    let mut buf = vstd::slice::slice_subrange(data, used, data.len());
    assert(buf@ =~= data@.skip(used as int));
    let mut left: u64 = count;
    while left > 0
        invariant
            (unpack(data@) is Undefined) == (decode_n(buf@, left as nat) is Undefined),
        decreases left,
    {
        match decode_value(buf) {
            Decoded::Value(_, used) => {
                proof {
                    lemma_decode_one_used(buf@);
                }
                let next = vstd::slice::slice_subrange(buf, used, buf.len());
                assert(next@ =~= buf@.skip(used as int));
                buf = next;
                left = left - 1;
            },
            Decoded::Failed(_) => return true,
            Decoded::Undefined => return false,
        }
    }
    true
}

proof fn lemma_decode_one_used(s: Seq<u8>)
    ensures
        decode_one(s) matches One::Value(_, used) ==> 1 <= used <= s.len(),
{
}

/// Unpacks a list of values. An input that ends early, and an unknown type, is an
/// error.
pub fn unpack_columns(data: &[u8]) -> (r: Result<Vec<ColumnValue>, ResultCode>)
    requires
        !(unpack(data@) is Undefined),
    ensures
        match unpack(data@) {
            Unpacked::Values(vs) => r matches Ok(out) && vals(out@) == vs,
            Unpacked::Failed(e) => r matches Err(code) && code == e,
            Unpacked::Undefined => false,
        },
{
    let (count, used) = match get_varint(data) {
        Ok(header) => header,
        Err(e) => return Err(e),
    };
    let mut buf = vstd::slice::slice_subrange(data, used, data.len());
    assert(buf@ =~= data@.skip(used as int));
    let mut ret: Vec<ColumnValue> = Vec::new();
    let mut left: u64 = count;
    proof {
        lemma_prepend_none(decode_n(buf@, left as nat));
        assert(vals(ret@) =~= seq![]);
    }
    while left > 0
        invariant
            !(unpack(data@) is Undefined),
            unpack(data@) == prepend(vals(ret@), decode_n(buf@, left as nat)),
        decreases left,
    {
        match decode_value(buf) {
            Decoded::Value(v, used) => {
                proof {
                    lemma_decode_one_used(buf@);
                }
                let next = vstd::slice::slice_subrange(buf, used, buf.len());
                assert(next@ =~= buf@.skip(used as int));
                let ghost before = vals(ret@);
                let ghost held = v@;
                ret.push(v);
                assert(vals(ret@) =~= before.push(held));
                proof {
                    lemma_prepend_push(before, held, decode_n(next@, (left - 1) as nat));
                }
                buf = next;
                left = left - 1;
            },
            Decoded::Failed(e) => return Err(e),
            Decoded::Undefined => {
                assert(false);
                return Err(ResultCode::ABORT);
            },
        }
    }
    assert(vals(ret@) + seq![] =~= vals(ret@));
    Ok(ret)
}

/// What a list of values read comes to, with values in front that were read before.
pub open spec fn prepend(front: Seq<Val>, rest: Unpacked) -> Unpacked {
    match rest {
        Unpacked::Values(vs) => Unpacked::Values(front + vs),
        other => other,
    }
}

proof fn lemma_prepend_none(u: Unpacked)
    ensures
        prepend(seq![], u) == u,
{
    if let Unpacked::Values(vs) = u {
        assert(seq![] + vs =~= vs);
    }
}

proof fn lemma_prepend_push(front: Seq<Val>, v: Val, rest: Unpacked)
    ensures
        prepend(front, prepend(seq![v], rest)) == prepend(front.push(v), rest),
{
    if let Unpacked::Values(vs) = rest {
        assert(front + (seq![v] + vs) =~= front.push(v) + vs);
    }
}

/// Whether a value comes back from its packed form: its length is written in 32 bits.
pub open spec fn packable(v: Val) -> bool {
    match v {
        Val::Blob(b) => b.len() < 0x1_0000_0000,
        Val::Text(t) => encode_utf8(t).len() < 0x1_0000_0000,
        _ => true,
    }
}

proof fn lemma_decode_tagged(tag: ColumnType, x: nat, tail: Seq<u8>)
    requires
        x < 0x1_0000_0000_0000_0000,
    ensures
        ({
            let n = bytes_needed(x);
            let s = tagged_int(tag, x) + tail;
            &&& n <= 8
            &&& tagged_int(tag, x).len() == 1 + n
            &&& s[0] / 8 == n
            &&& s[0] % 8 == tag.spec_tag()
            &&& s.skip(1) == be_bytes(x, n) + tail
            &&& s.skip(1).len() >= n
            &&& be_value(s.skip(1).take(n as int)) == x
            &&& s.skip(1).skip(n as int) == tail
        }),
{
    let n = bytes_needed(x);
    assert(n <= 8) by {
        if x < 0x1_0000_0000 {
            lemma_bytes_needed_small(x);
        } else {
            lemma_bytes_needed_large(x);
        }
    }
    lemma_be_round_trip(x, n);
    let s = tagged_int(tag, x) + tail;
    assert(s[0] == (n * 8 + tag.spec_tag()) as u8);
    assert(s.skip(1) =~= be_bytes(x, n) + tail);
    assert(s.skip(1).take(n as int) =~= be_bytes(x, n));
    assert(s.skip(1).skip(n as int) =~= tail);
}

proof fn lemma_decode_float(f: u64, tail: Seq<u8>)
    ensures
        decode_one(encode(Val::Float(f)) + tail) == One::Value(Val::Float(f), encode(Val::Float(f)).len()),
{
    let s = encode(Val::Float(f)) + tail;
    assert(bytes_needed(f as nat) <= 8) by {
        if f < 0x1_0000_0000 {
            lemma_bytes_needed_small(f as nat);
        } else {
            lemma_bytes_needed_large(f as nat);
        }
    }
    lemma_be_round_trip(f as nat, 8);
    assert(s[0] == 2);
    assert(s.skip(1).take(8) =~= be_bytes(f as nat, 8));
}

proof fn lemma_decode_integer(i: i64, tail: Seq<u8>)
    ensures
        decode_one(encode(Val::Integer(i)) + tail) == One::Value(
            Val::Integer(i),
            encode(Val::Integer(i)).len(),
        ),
{
    lemma_decode_tagged(ColumnType::Integer, unsigned(i), tail);
    assert(signed(unsigned(i)) == i);
}

proof fn lemma_decode_blob(b: Seq<u8>, tail: Seq<u8>)
    requires
        packable(Val::Blob(b)),
    ensures
        decode_one(encode(Val::Blob(b)) + tail) == One::Value(Val::Blob(b), encode(Val::Blob(b)).len()),
{
    let s = encode(Val::Blob(b)) + tail;
    lemma_decode_tagged(ColumnType::Blob, b.len(), b + tail);
    assert(tagged_int(ColumnType::Blob, b.len()) + (b + tail) =~= s);
    assert((b + tail).take(b.len() as int) =~= b);
}

proof fn lemma_decode_text(t: Seq<char>, tail: Seq<u8>)
    requires
        packable(Val::Text(t)),
    ensures
        decode_one(encode(Val::Text(t)) + tail) == One::Value(Val::Text(t), encode(Val::Text(t)).len()),
{
    let b = encode_utf8(t);
    let s = encode(Val::Text(t)) + tail;
    encode_utf8_valid_utf8(t);
    encode_utf8_decode_utf8(t);
    lemma_decode_tagged(ColumnType::Text, b.len(), b + tail);
    assert(tagged_int(ColumnType::Text, b.len()) + (b + tail) =~= s);
    assert((b + tail).take(b.len() as int) =~= b);
}

/// Reading a packed value gives the value back, and takes exactly its bytes.
pub proof fn decode_encode(v: Val, tail: Seq<u8>)
    requires
        packable(v),
    ensures
        decode_one(encode(v) + tail) == One::Value(v, encode(v).len()),
        encode(v).len() >= 1,
{
    match v {
        Val::Null => {
            assert((encode(v) + tail)[0] == 5);
        },
        Val::Float(f) => lemma_decode_float(f, tail),
        Val::Integer(i) => lemma_decode_integer(i, tail),
        Val::Blob(b) => lemma_decode_blob(b, tail),
        Val::Text(t) => lemma_decode_text(t, tail),
    }
}

proof fn lemma_encode_all_front(v: Val, vs: Seq<Val>)
    ensures
        encode_all(seq![v] + vs) == encode(v) + encode_all(vs),
    decreases vs.len(),
{
    let all = seq![v] + vs;
    if vs.len() == 0 {
        assert(all =~= seq![v]);
        assert(all.drop_last() =~= seq![]);
        reveal_with_fuel(encode_all, 2);
        assert(encode_all(all) =~= encode(v));
        assert(encode(v) + encode_all(vs) =~= encode(v));
    } else {
        lemma_encode_all_front(v, vs.drop_last());
        assert(all.drop_last() =~= seq![v] + vs.drop_last());
        assert(encode_all(all) =~= encode(v) + encode_all(vs));
    }
}

proof fn lemma_decode_encode_all(vs: Seq<Val>, tail: Seq<u8>)
    requires
        forall|i: int| 0 <= i < vs.len() ==> packable(vs[i]),
    ensures
        decode_n(encode_all(vs) + tail, vs.len()) == Unpacked::Values(vs),
    decreases vs.len(),
{
    if vs.len() == 0 {
        assert(vs =~= seq![]);
    } else {
        let v = vs[0];
        let rest = vs.skip(1);
        assert(vs =~= seq![v] + rest);
        lemma_encode_all_front(v, rest);
        let s = encode_all(vs) + tail;
        assert(s =~= encode(v) + (encode_all(rest) + tail));
        decode_encode(v, encode_all(rest) + tail);
        assert(s.skip(encode(v).len() as int) =~= encode_all(rest) + tail);
        lemma_decode_encode_all(rest, tail);
    }
}

/// Unpacking what was packed gives the values back, whatever follows them.
pub proof fn unpack_pack(vs: Seq<Val>, tail: Seq<u8>)
    requires
        vs.len() <= u64::MAX,
        forall|i: int| 0 <= i < vs.len() ==> packable(vs[i]),
    ensures
        unpack(pack(vs) + tail) == Unpacked::Values(vs),
{
    let s = pack(vs) + tail;
    varint_round_trip(vs.len() as u64, encode_all(vs) + tail);
    assert(s =~= varint(vs.len()) + (encode_all(vs) + tail));
    assert(s.skip(varint(vs.len()).len() as int) =~= encode_all(vs) + tail);
    lemma_decode_encode_all(vs, tail);
}

/// Two lists of values with one packed form are the same list.
pub proof fn pack_injective(a: Seq<Val>, b: Seq<Val>)
    requires
        a.len() <= u64::MAX,
        b.len() <= u64::MAX,
        forall|i: int| 0 <= i < a.len() ==> packable(a[i]),
        forall|i: int| 0 <= i < b.len() ==> packable(b[i]),
        pack(a) == pack(b),
    ensures
        a == b,
{
    unpack_pack(a, seq![]);
    unpack_pack(b, seq![]);
}

// ---------------------------------------------------------------------------
// Packed integers
// ---------------------------------------------------------------------------
/// Reads `count` varints from the front of `s`, each as a signed number; `None` where
/// the input ends first.
pub open spec fn read_varints(s: Seq<u8>, count: nat) -> Option<Seq<i64>>
    decreases count,
{
    if count == 0 {
        Some(seq![])
    } else if s.len() == 0 {
        None
    } else {
        let (v, used) = read_varint(s);
        match read_varints(s.skip(used as int), (count - 1) as nat) {
            Some(rest) => Some(seq![signed(v) as i64] + rest),
            None => None,
        }
    }
}

/// Integers as varints, one after the other, the bits of each taken as unsigned.
pub open spec fn varints(s: Seq<i64>) -> Seq<u8>
    decreases s.len(),
{
    if s.len() == 0 {
        seq![]
    } else {
        varints(s.drop_last()) + varint(unsigned(s.last()))
    }
}

/// The packed form of a list of integers.
pub open spec fn pack_varints(s: Seq<i64>) -> Seq<u8> {
    varint(s.len()) + varints(s)
}

/// Reads a packed list of integers.
pub open spec fn spec_unpack_varints(data: Seq<u8>) -> Option<Seq<i64>> {
    if data.len() == 0 {
        None
    } else {
        let (count, used) = read_varint(data);
        read_varints(data.skip(used as int), count)
    }
}

/// Unpacks a list of integers. An input that ends early is an error.
pub fn unpack_varints(data: &[u8]) -> (r: Result<Vec<i64>, ResultCode>)
    ensures
        match spec_unpack_varints(data@) {
            Some(s) => r matches Ok(out) && out@ == s,
            None => r matches Err(e) && e == ResultCode::ABORT,
        },
{
    let (count, used) = match get_varint(data) {
        Ok(header) => header,
        Err(e) => return Err(e),
    };
    let mut buf = vstd::slice::slice_subrange(data, used, data.len());
    assert(buf@ =~= data@.skip(used as int));
    let mut out: Vec<i64> = Vec::new();
    let mut left: u64 = count;
    proof {
        if let Some(s) = read_varints(buf@, left as nat) {
            assert(out@ + s =~= s);
        }
    }
    while left > 0
        invariant
            spec_unpack_varints(data@) == (match read_varints(buf@, left as nat) {
                Some(s) => Some(out@ + s),
                None => None,
            }),
        decreases left,
    {
        let (val, used) = match get_varint(buf) {
            Ok(v) => v,
            Err(e) => return Err(e),
        };
        let ghost before = out@;
        out.push(to_signed(val));
        let next = vstd::slice::slice_subrange(buf, used, buf.len());
        assert(next@ =~= buf@.skip(used as int));
        proof {
            if let Some(s) = read_varints(next@, (left - 1) as nat) {
                assert(before + (seq![signed(val as nat) as i64] + s) =~= out@ + s);
            }
        }
        buf = next;
        left = left - 1;
    }
    assert(out@ + seq![] =~= out@);
    Ok(out)
}

proof fn lemma_varints_front(v: i64, s: Seq<i64>)
    ensures
        varints(seq![v] + s) == varint(unsigned(v)) + varints(s),
    decreases s.len(),
{
    let all = seq![v] + s;
    if s.len() == 0 {
        assert(all.drop_last() =~= seq![]);
        reveal_with_fuel(varints, 2);
        assert(varints(all) =~= varint(unsigned(v)));
        assert(varint(unsigned(v)) + varints(s) =~= varint(unsigned(v)));
    } else {
        lemma_varints_front(v, s.drop_last());
        assert(all.drop_last() =~= seq![v] + s.drop_last());
        assert(varints(all) =~= varint(unsigned(v)) + varints(s));
    }
}

proof fn lemma_read_varints(s: Seq<i64>, tail: Seq<u8>)
    ensures
        read_varints(varints(s) + tail, s.len()) == Some(s),
    decreases s.len(),
{
    if s.len() == 0 {
        assert(s =~= seq![]);
    } else {
        let v = s[0];
        let rest = s.skip(1);
        assert(s =~= seq![v] + rest);
        lemma_varints_front(v, rest);
        let bytes = varints(s) + tail;
        let v_bytes = varint(unsigned(v));
        assert(bytes =~= v_bytes + (varints(rest) + tail));
        varint_round_trip(unsigned(v) as u64, varints(rest) + tail);
        assert(bytes.skip(v_bytes.len() as int) =~= varints(rest) + tail);
        lemma_read_varints(rest, tail);
        assert(signed(unsigned(v)) == v);
    }
}

/// Unpacking a packed list of integers gives the list back, negative numbers
/// included.
pub proof fn unpack_pack_varints(s: Seq<i64>, tail: Seq<u8>)
    requires
        s.len() <= u64::MAX,
    ensures
        spec_unpack_varints(pack_varints(s) + tail) == Some(s),
{
    let bytes = pack_varints(s) + tail;
    let header = varint(s.len());
    varint_round_trip(s.len() as u64, varints(s) + tail);
    assert(bytes =~= header + (varints(s) + tail));
    assert(bytes.skip(header.len() as int) =~= varints(s) + tail);
    lemma_read_varints(s, tail);
}

// ---------------------------------------------------------------------------
// Aggregates
// ---------------------------------------------------------------------------
/// What an aggregate has collected: encoded items and their number. There is no
/// buffer before the first item.
pub struct PackAggAcc {
    pub buf: Option<Vec<u8>>,
    pub count: u64,
}

/// What an aggregate of varints has collected.
pub struct PackVarintAcc {
    pub buf: Option<Vec<u8>>,
    pub count: u64,
}

/// What a buffer holds; nothing where there is none.
pub open spec fn held(buf: Option<Vec<u8>>) -> Seq<u8> {
    match buf {
        Some(b) => b@,
        None => seq![],
    }
}

impl PackAggAcc {
    /// The accumulator has taken the values `vs` and no others.
    pub open spec fn has_taken(self, vs: Seq<Val>) -> bool {
        &&& self.count == vs.len()
        &&& held(self.buf) == encode_all(vs)
        &&& (self.buf is None <==> vs.len() == 0)
    }

    /// An accumulator that has taken nothing.
    pub fn new() -> (r: PackAggAcc)
        ensures
            r.has_taken(seq![]),
            r.buf is None,
            r.count == 0,
    {
        PackAggAcc { buf: None, count: 0 }
    }
}

impl PackVarintAcc {
    /// The accumulator has taken the integers `s` and no others.
    pub open spec fn has_taken(self, s: Seq<i64>) -> bool {
        &&& self.count == s.len()
        &&& held(self.buf) == varints(s)
        &&& (self.buf is None <==> s.len() == 0)
    }

    /// An accumulator that has taken nothing.
    pub fn new() -> (r: PackVarintAcc)
        ensures
            r.has_taken(seq![]),
            r.buf is None,
            r.count == 0,
    {
        PackVarintAcc { buf: None, count: 0 }
    }
}

/// Takes the first argument into the accumulator; no argument, no change.
pub fn crsql_pack_agg_step(acc: &mut PackAggAcc, args: &[ColumnValue])
    requires
        old(acc).count < u64::MAX,
    ensures
        args@.len() == 0 ==> *final(acc) == *old(acc),
        args@.len() > 0 ==> {
            &&& final(acc).count == old(acc).count + 1
            &&& final(acc).buf is Some
            &&& held(final(acc).buf) == held(old(acc).buf) + encode(args@[0]@)
        },
        forall|vs: Seq<Val>| args@.len() > 0 && #[trigger] old(acc).has_taken(vs)
            ==> final(acc).has_taken(vs.push(args@[0]@)),
{
    if args.len() == 0 {
        return;
    }
    let mut buf = match acc.buf.take() {
        Some(b) => b,
        None => Vec::new(),
    };
    assert(buf@ =~= held(old(acc).buf));
    encode_value(&mut buf, &args[0]);
    acc.buf = Some(buf);
    acc.count = acc.count + 1;
    proof {
        assert forall|vs: Seq<Val>| #[trigger] old(acc).has_taken(vs) implies final(acc).has_taken(vs.push(args@[0]@)) by {
            assert(vs.push(args@[0]@).drop_last() =~= vs);
        }
    }
}

/// The packed form of what the accumulator took.
pub fn crsql_pack_agg_final(acc: PackAggAcc) -> (r: Vec<u8>)
    ensures
        r@ == (if acc.buf is Some { varint(acc.count as nat) + held(acc.buf) } else { varint(0) }),
        forall|vs: Seq<Val>| #[trigger] acc.has_taken(vs) ==> r@ == pack(vs),
{
    let mut result: Vec<u8> = Vec::new();
    match acc.buf {
        None => {
            put_varint(&mut result, 0);
            proof {
                assert forall|vs: Seq<Val>| #[trigger] acc.has_taken(vs) implies result@ == pack(vs) by {
                    assert(pack(vs) =~= varint(0));
                }
            }
            assert(result@ =~= varint(0));
            result
        },
        Some(buf) => {
            put_varint(&mut result, acc.count);
            put_slice(&mut result, buf.as_slice());
            assert(result@ =~= varint(acc.count as nat) + buf@);
            result
        },
    }
}

/// Takes the first argument, an integer, into the accumulator; no argument, no change.
pub fn crsql_pack_varint_agg_step(acc: &mut PackVarintAcc, args: &[i64])
    requires
        old(acc).count < u64::MAX,
    ensures
        args@.len() == 0 ==> *final(acc) == *old(acc),
        args@.len() > 0 ==> {
            &&& final(acc).count == old(acc).count + 1
            &&& final(acc).buf is Some
            &&& held(final(acc).buf) == held(old(acc).buf) + varint(unsigned(args@[0]))
        },
        forall|s: Seq<i64>| args@.len() > 0 && #[trigger] old(acc).has_taken(s)
            ==> final(acc).has_taken(s.push(args@[0])),
{
    if args.len() == 0 {
        return;
    }
    let mut buf = match acc.buf.take() {
        Some(b) => b,
        None => Vec::new(),
    };
    assert(buf@ =~= held(old(acc).buf));
    put_varint(&mut buf, to_unsigned(args[0]));
    acc.buf = Some(buf);
    acc.count = acc.count + 1;
    proof {
        assert forall|s: Seq<i64>| #[trigger] old(acc).has_taken(s) implies final(acc).has_taken(s.push(args@[0])) by {
            assert(s.push(args@[0]).drop_last() =~= s);
        }
    }
}

/// The packed form of the integers that the accumulator took.
pub fn crsql_pack_varint_agg_final(acc: PackVarintAcc) -> (r: Vec<u8>)
    ensures
        r@ == (if acc.buf is Some { varint(acc.count as nat) + held(acc.buf) } else { varint(0) }),
        forall|s: Seq<i64>| #[trigger] acc.has_taken(s) ==> r@ == pack_varints(s),
{
    let mut result: Vec<u8> = Vec::new();
    match acc.buf {
        None => {
            put_varint(&mut result, 0);
            proof {
                assert forall|s: Seq<i64>| #[trigger] acc.has_taken(s) implies result@ == pack_varints(s) by {
                    assert(pack_varints(s) =~= varint(0));
                }
            }
            assert(result@ =~= varint(0));
            result
        },
        Some(buf) => {
            put_varint(&mut result, acc.count);
            put_slice(&mut result, buf.as_slice());
            assert(result@ =~= varint(acc.count as nat) + buf@);
            result
        },
    }
}

} // verus!
