//! Which of two writes to a cell wins.
//!
//! At one causal length the write with the higher version wins, then the one with the
//! greater value, and then, where equal values are told apart, the one from the greater
//! site. Every site that has seen the same writes has the same winner, whatever the
//! order in which they came and however often.

use vstd::prelude::*;

verus! {

/// Whether `a` comes after `b` in the order of their bytes.
pub open spec fn bytes_gt(a: Seq<u8>, b: Seq<u8>) -> bool
    decreases a.len(),
{
    if a.len() == 0 {
        false
    } else if b.len() == 0 {
        true
    } else if a[0] != b[0] {
        a[0] > b[0]
    } else {
        bytes_gt(a.skip(1), b.skip(1))
    }
}

/// Whether `a` comes after `b` in the order of their bytes.
pub fn bytes_greater(a: &[u8], b: &[u8]) -> (r: bool)
    ensures
        r == bytes_gt(a@, b@),
{
    let mut i: usize = 0;
    assert(a@.skip(0) =~= a@);
    assert(b@.skip(0) =~= b@);
    while i < a.len()
        invariant
            i <= a@.len(),
            i <= b@.len(),
            bytes_gt(a@, b@) == bytes_gt(a@.skip(i as int), b@.skip(i as int)),
        decreases a@.len() - i,
    {
        if i >= b.len() {
            return true;
        }
        if a[i] != b[i] {
            return a[i] > b[i];
        }
        assert(a@.skip(i as int).skip(1) =~= a@.skip(i + 1));
        assert(b@.skip(i as int).skip(1) =~= b@.skip(i + 1));
        i = i + 1;
    }
    false
}

/// The order of bytes is total.
pub proof fn bytes_order_total(a: Seq<u8>, b: Seq<u8>)
    ensures
        !(bytes_gt(a, b) && bytes_gt(b, a)),
        bytes_gt(a, b) || bytes_gt(b, a) || a == b,
        !bytes_gt(a, a),
    decreases a.len(),
{
    if a.len() > 0 {
        bytes_order_total(a.skip(1), a.skip(1));
    }
    if a.len() > 0 && b.len() > 0 {
        if a[0] == b[0] {
            bytes_order_total(a.skip(1), b.skip(1));
            assert(a =~= seq![a[0]] + a.skip(1));
            assert(b =~= seq![b[0]] + b.skip(1));
        }
    } else if a.len() == 0 && b.len() == 0 {
        assert(a =~= b);
    }
}

/// The order of bytes is transitive.
pub proof fn bytes_order_transitive(a: Seq<u8>, b: Seq<u8>, c: Seq<u8>)
    requires
        bytes_gt(a, b),
        bytes_gt(b, c),
    ensures
        bytes_gt(a, c),
    decreases a.len(),
{
    if a.len() > 0 && b.len() > 0 && c.len() > 0 && a[0] == b[0] && b[0] == c[0] {
        bytes_order_transitive(a.skip(1), b.skip(1), c.skip(1));
    }
}

/// A write to a cell. The value is given by its place in the order of values.
pub struct Write {
    pub version: int,
    pub value: int,
    pub site: Seq<u8>,
}

/// Whether a write that comes in wins over the one that is there. `order` is above 0
/// where the value that comes in is the greater, and 0 where the two are equal.
pub open spec fn wins(
    version: int,
    local_version: int,
    order: int,
    merge_equal: bool,
    site: Seq<u8>,
    local_site: Seq<u8>,
) -> bool {
    if version != local_version {
        version > local_version
    } else if order != 0 || !merge_equal {
        order > 0
    } else {
        bytes_gt(site, local_site)
    }
}

/// Whether the write `new` wins over the write `old`.
pub open spec fn write_wins(new: Write, old: Write, merge_equal: bool) -> bool {
    wins(new.version, old.version, new.value - old.value, merge_equal, new.site, old.site)
}

/// What a cell holds once a write has come in.
pub open spec fn merged(old: Write, new: Write, merge_equal: bool) -> Write {
    if write_wins(new, old, merge_equal) {
        new
    } else {
        old
    }
}

/// Merging a write that is there changes nothing.
pub proof fn merge_idempotent(a: Write, b: Write, merge_equal: bool)
    ensures
        merged(a, a, merge_equal) == a,
        merged(merged(a, b, merge_equal), b, merge_equal) == merged(a, b, merge_equal),
{
    bytes_order_total(a.site, a.site);
    bytes_order_total(b.site, b.site);
}

/// Two writes have one winner, whichever comes first. Where equal values are not told
/// apart, two equal values may differ in their site alone.
pub proof fn merge_commutative(a: Write, b: Write, merge_equal: bool)
    ensures
        merge_equal ==> merged(a, b, merge_equal) == merged(b, a, merge_equal),
        merged(a, b, merge_equal).version == merged(b, a, merge_equal).version,
        merged(a, b, merge_equal).value == merged(b, a, merge_equal).value,
{
    bytes_order_total(a.site, b.site);
}

/// Three writes have one winner, whichever two are merged first.
pub proof fn merge_associative(a: Write, b: Write, c: Write, merge_equal: bool)
    ensures
        merged(merged(a, b, merge_equal), c, merge_equal) == merged(
            a,
            merged(b, c, merge_equal),
            merge_equal,
        ),
{
    bytes_order_total(a.site, b.site);
    bytes_order_total(b.site, c.site);
    bytes_order_total(a.site, c.site);
    if bytes_gt(c.site, b.site) && bytes_gt(b.site, a.site) {
        bytes_order_transitive(c.site, b.site, a.site);
    }
    if bytes_gt(a.site, b.site) && bytes_gt(b.site, c.site) {
        bytes_order_transitive(a.site, b.site, c.site);
    }
    if bytes_gt(b.site, a.site) && bytes_gt(a.site, c.site) {
        bytes_order_transitive(b.site, a.site, c.site);
    }
    if bytes_gt(b.site, c.site) && bytes_gt(c.site, a.site) {
        bytes_order_transitive(b.site, c.site, a.site);
    }
    if bytes_gt(a.site, c.site) && bytes_gt(c.site, b.site) {
        bytes_order_transitive(a.site, c.site, b.site);
    }
    if bytes_gt(c.site, a.site) && bytes_gt(a.site, b.site) {
        bytes_order_transitive(c.site, a.site, b.site);
    }
}

/// The writes of `s`, merged one after the other into `start`.
pub open spec fn merge_all(start: Write, s: Seq<Write>, merge_equal: bool) -> Write
    decreases s.len(),
{
    if s.len() == 0 {
        start
    } else {
        merged(merge_all(start, s.drop_last(), merge_equal), s.last(), merge_equal)
    }
}

/// What a cell holds depends on the writes that came in, not on their order: two
/// neighbours can change places, and so, step by step, can any two.
pub proof fn merge_order_irrelevant(start: Write, s: Seq<Write>, i: int)
    requires
        0 <= i < s.len() - 1,
    ensures
        merge_all(start, s, true) == merge_all(start, s.update(i, s[i + 1]).update(i + 1, s[i]), true),
    decreases s.len(),
{
    let t = s.update(i, s[i + 1]).update(i + 1, s[i]);
    reveal_with_fuel(merge_all, 3);
    if i == s.len() - 2 {
        let front = s.drop_last().drop_last();
        assert(t.drop_last().drop_last() =~= front);
        let base = merge_all(start, front, true);
        let a = s[i];
        let b = s[i + 1];
        assert(s.drop_last().last() == a);
        assert(t.drop_last().last() == b);
        assert(t.last() == a);
        merge_associative(base, a, b, true);
        merge_associative(base, b, a, true);
        merge_commutative(a, b, true);
    } else {
        merge_order_irrelevant(start, s.drop_last(), i);
        assert(t.drop_last() =~= s.drop_last().update(i, s[i + 1]).update(i + 1, s[i]));
        assert(t.last() == s.last());
    }
}

/// The higher version wins; of equal versions the greater value; and of equal values the greater
/// site, where equal values are told apart, and else what is there.
pub proof fn what_wins(version: int, local_version: int, order: int, merge_equal: bool, site: Seq<u8>, local_site: Seq<u8>)
    ensures
        version > local_version ==> wins(version, local_version, order, merge_equal, site, local_site),
        version < local_version ==> !wins(version, local_version, order, merge_equal, site, local_site),
        version == local_version && order > 0 ==> wins(version, local_version, order, merge_equal, site, local_site),
        version == local_version && order < 0 ==> !wins(version, local_version, order, merge_equal, site, local_site),
        version == local_version && order == 0 && !merge_equal ==> !wins(
            version,
            local_version,
            order,
            merge_equal,
            site,
            local_site,
        ),
        version == local_version && order == 0 && merge_equal ==> wins(
            version,
            local_version,
            order,
            merge_equal,
            site,
            local_site,
        ) == bytes_gt(site, local_site),
{
}

/// Bytes are compared from the front: the first that differ decide, and where none do, the longer
/// is the greater.
pub proof fn bytes_are_compared_from_the_front(front: Seq<u8>, a: u8, x: Seq<u8>, b: u8, y: Seq<u8>)
    ensures
        a != b ==> bytes_gt(front + seq![a] + x, front + seq![b] + y) == (a > b),
        bytes_gt(front + seq![a] + x, front),
        !bytes_gt(front, front + seq![a] + x),
        !bytes_gt(front, front),
    decreases front.len(),
{
    let p = front + seq![a] + x;
    let q = front + seq![b] + y;
    if front.len() > 0 {
        let rest = front.skip(1);
        bytes_are_compared_from_the_front(rest, a, x, b, y);
        assert(p.skip(1) =~= rest + seq![a] + x);
        assert(q.skip(1) =~= rest + seq![b] + y);
        assert(p[0] == front[0] && q[0] == front[0]);
    } else {
        assert(p[0] == a);
        assert(q[0] == b);
    }
}

} // verus!
