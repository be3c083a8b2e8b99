//! Why sites agree: what a site knows of a row depends on the changes that it has seen alone.

use crate::changes_vtab_write::{alive_step_at, cl_after, tombstone_taken, v1_step, AliveStep, V1Step};
use crate::force_update::is_alive;
use crate::merge_order::{bytes_order_total, merge_associative, merge_commutative, merge_idempotent, merged, write_wins, Write};
use vstd::prelude::*;

verus! {

/// What a site knows of a row: its causal length, and the last write to each cell in the life
/// that it is in. A clock at version zero counts for nothing: every write, whose version is at
/// least 1, wins over it.
pub struct RowClock {
    pub cl: int,
    pub cells: Map<Seq<char>, Write>,
}

/// A change to a row: a write to one of its cells, or one to the row as a whole.
pub struct RowChange {
    pub cl: int,
    pub cell: Option<(Seq<char>, Write)>,
}

impl RowClock {
    /// A row that does not live has no cells.
    pub open spec fn wf(self) -> bool {
        &&& self.cl >= 0
        &&& !is_alive(self.cl) ==> self.cells == Map::<Seq<char>, Write>::empty()
    }

    /// What a site knows of a row once a change was merged, by the step that is taken.
    pub open spec fn after(self, c: RowChange, merge_equal: bool) -> RowClock {
        match v1_step(c.cl, self.cl, c.cell is None, merge_equal) {
            V1Step::Ignore => self,
            V1Step::TieBreakDelete => self,
            V1Step::Delete => RowClock { cl: c.cl, cells: Map::empty() },
            V1Step::SentinelInsert => RowClock { cl: c.cl, cells: Map::empty() },
            V1Step::Cell { resurrect, check } => {
                let (col, write) = c.cell.unwrap();
                let kept = if resurrect { Map::empty() } else { self.cells };
                RowClock {
                    cl: cl_after(self.cl, c.cl),
                    cells: if check && kept.contains_key(col) {
                        kept.insert(col, merged(kept[col], write, merge_equal))
                    } else {
                        kept.insert(col, write)
                    },
                }
            },
        }
    }
}

/// The two formats decide alike by causal lengths, where a row has a key in the second format
/// exactly while it lives. A write from an older life is ignored in both; one from the life that
/// the row is in is held against what is there, and the row stays; one from a newer life makes
/// the row anew, without what was there of it. A row as a whole is created where it is not there
/// in that life. A deletion from an older life is ignored in both, and one that ends the life of
/// the row deletes it; a second deletion of the same life is left to the merge of tombstones,
/// which is where the sites are compared. A deletion that knows its row by a hash is out of
/// reach of a table whose rows are known by their primary keys.
pub proof fn formats_agree_on_lives(cl: int, key: Option<i64>, local_cl: int, merge_equal: bool)
    requires
        cl >= 1,
        local_cl >= 0,
        key is Some <==> is_alive(local_cl),
    ensures
        is_alive(cl) ==> ({
            let cell = v1_step(cl, local_cl, false, merge_equal);
            let row = v1_step(cl, local_cl, true, merge_equal);
            match alive_step_at(cl, key, local_cl) {
                AliveStep::Stale => cell == V1Step::Ignore && row == V1Step::Ignore,
                AliveStep::There(k) => cell == (V1Step::Cell { resurrect: false, check: true }) && row
                    == V1Step::Ignore && key == Some(k),
                AliveStep::Replace(k) => cell == (V1Step::Cell { resurrect: true, check: false }) && row
                    == V1Step::SentinelInsert && key == Some(k),
                AliveStep::Revive => cell == (V1Step::Cell { resurrect: true, check: false }) && row
                    == V1Step::SentinelInsert && key is None,
                AliveStep::Create => cell == (V1Step::Cell { resurrect: cl > 1, check: false }) && row
                    == V1Step::SentinelInsert && local_cl == 0,
            }
        }),
        !is_alive(cl) ==> forall|skip_hash: bool, by_hash: bool|
            !(skip_hash && by_hash) ==> ({
                let step = v1_step(cl, local_cl, false, merge_equal);
                if #[trigger] tombstone_taken(skip_hash, by_hash, cl, local_cl) {
                    step == (if cl > local_cl {
                        V1Step::Delete
                    } else if merge_equal {
                        V1Step::TieBreakDelete
                    } else {
                        V1Step::Ignore
                    }) && (cl == local_cl ==> key is None)
                } else {
                    step == V1Step::Ignore && cl < local_cl
                }
            }),
{
}

/// Merging a change keeps what is known of a row in order.
pub proof fn row_stays_wf(row: RowClock, c: RowChange, merge_equal: bool)
    requires
        row.wf(),
        c.cl >= 1,
    ensures
        row.after(c, merge_equal).wf(),
        row.after(c, merge_equal).cl == cl_after(row.cl, c.cl),
{
}

/// Merging a change twice is merging it once.
pub proof fn row_merge_idempotent(row: RowClock, c: RowChange, merge_equal: bool)
    requires
        row.wf(),
        c.cl >= 1,
    ensures
        row.after(c, merge_equal).after(c, merge_equal) == row.after(c, merge_equal),
{
    let once = row.after(c, merge_equal);
    let twice = once.after(c, merge_equal);
    if let Some((col, write)) = c.cell {
        merge_idempotent(write, write, merge_equal);
        if row.cells.contains_key(col) {
            merge_idempotent(row.cells[col], write, merge_equal);
        }
    }
    assert(twice.cells =~= once.cells);
}

/// Two sites that have merged the same two changes know the same of the row, whichever change
/// came first, where equal values are told apart by their sites.
pub proof fn row_merge_commutes(row: RowClock, a: RowChange, b: RowChange)
    requires
        row.wf(),
        a.cl >= 1,
        b.cl >= 1,
    ensures
        row.after(a, true).after(b, true) == row.after(b, true).after(a, true),
{
    let ab = row.after(a, true).after(b, true);
    let ba = row.after(b, true).after(a, true);
    if let (Some((p, v)), Some((q, w))) = (a.cell, b.cell) {
        merge_commutative(v, w, true);
        if p == q && row.cells.contains_key(p) {
            merge_associative(row.cells[p], v, w, true);
            merge_associative(row.cells[p], w, v, true);
        }
    }
    assert(ab.cl == ba.cl);
    assert(ab.cells =~= ba.cells);
}

/// What a site knows of a row once changes were merged one after the other.
pub open spec fn after_all(row: RowClock, s: Seq<RowChange>) -> RowClock
    decreases s.len(),
{
    if s.len() == 0 {
        row
    } else {
        after_all(row, s.drop_last()).after(s.last(), true)
    }
}

proof fn lemma_after_all_wf(row: RowClock, s: Seq<RowChange>)
    requires
        row.wf(),
        forall|k: int| 0 <= k < s.len() ==> (#[trigger] s[k]).cl >= 1,
    ensures
        after_all(row, s).wf(),
    decreases s.len(),
{
    if s.len() > 0 {
        assert forall|k: int| 0 <= k < s.drop_last().len() implies (#[trigger] s.drop_last()[k]).cl >= 1 by {
            assert(s.drop_last()[k] == s[k]);
        }
        lemma_after_all_wf(row, s.drop_last());
        row_stays_wf(after_all(row, s.drop_last()), s.last(), true);
    }
}

/// What a site knows of a row depends on the changes that it has merged, not on their order: two
/// neighbours can change places, and so, step by step, can any two.
pub proof fn rows_converge(row: RowClock, s: Seq<RowChange>, i: int)
    requires
        row.wf(),
        forall|k: int| 0 <= k < s.len() ==> (#[trigger] s[k]).cl >= 1,
        0 <= i < s.len() - 1,
    ensures
        after_all(row, s) == after_all(row, s.update(i, s[i + 1]).update(i + 1, s[i])),
    decreases s.len(),
{
    let t = s.update(i, s[i + 1]).update(i + 1, s[i]);
    let front = s.drop_last();
    assert forall|k: int| 0 <= k < front.len() implies (#[trigger] front[k]).cl >= 1 by {
        assert(front[k] == s[k]);
    }
    reveal_with_fuel(after_all, 3);
    if i == s.len() - 2 {
        let base = front.drop_last();
        assert forall|k: int| 0 <= k < base.len() implies (#[trigger] base[k]).cl >= 1 by {
            assert(base[k] == s[k]);
        }
        lemma_after_all_wf(row, base);
        assert(t.drop_last().drop_last() =~= base);
        assert(front.last() == s[i]);
        assert(t.drop_last().last() == s[i + 1]);
        assert(t.last() == s[i]);
        row_merge_commutes(after_all(row, base), s[i], s[i + 1]);
    } else {
        rows_converge(row, front, i);
        assert(t.drop_last() =~= front.update(i, front[i + 1]).update(i + 1, front[i]));
        assert(t.last() == s.last());
    }
}

/// Whether all changes are to rows that were created.
pub open spec fn changes_ok(s: Seq<RowChange>) -> bool {
    forall|k: int| 0 <= k < s.len() ==> (#[trigger] s[k]).cl >= 1
}

proof fn lemma_move_last(row: RowClock, s: Seq<RowChange>, j: int)
    requires
        row.wf(),
        changes_ok(s),
        0 <= j < s.len(),
    ensures
        after_all(row, s) == after_all(row, s.remove(j).push(s[j])),
    decreases s.len() - j,
{
    if j == s.len() - 1 {
        assert(s.remove(j).push(s[j]) =~= s);
    } else {
        let t = s.update(j, s[j + 1]).update(j + 1, s[j]);
        rows_converge(row, s, j);
        assert(changes_ok(t)) by {
            assert forall|k: int| 0 <= k < t.len() implies (#[trigger] t[k]).cl >= 1 by {
                assert(s[j].cl >= 1);
                assert(s[j + 1].cl >= 1);
                assert(s[k].cl >= 1);
            }
        }
        lemma_move_last(row, t, j + 1);
        assert(t.remove(j + 1).push(t[j + 1]) =~= s.remove(j).push(s[j]));
    }
}

/// Two sites that have merged the same changes, each as often, know the same of the row.
pub proof fn order_of_changes_is_irrelevant(row: RowClock, s: Seq<RowChange>, t: Seq<RowChange>)
    requires
        row.wf(),
        changes_ok(s),
        changes_ok(t),
        s.to_multiset() == t.to_multiset(),
    ensures
        after_all(row, s) == after_all(row, t),
    decreases s.len(),
{
    s.to_multiset_ensures();
    t.to_multiset_ensures();
    if s.len() > 0 {
        let n = s.len() - 1;
        let last = s.last();
        assert(s[n] == last);
        assert(s.contains(last));
        assert(s.to_multiset().count(last) > 0);
        assert(t.to_multiset().count(last) > 0);
        assert(t.contains(last));
        let j = choose|j: int| 0 <= j < t.len() && t[j] == last;
        lemma_move_last(row, t, j);
        let rest = t.remove(j);
        assert(s.remove(n) =~= s.drop_last());
        assert(s.drop_last().to_multiset() == rest.to_multiset());
        assert(changes_ok(s.drop_last())) by {
            assert forall|k: int| 0 <= k < n implies (#[trigger] s.drop_last()[k]).cl >= 1 by {
                assert(s.drop_last()[k] == s[k]);
            }
        }
        assert(changes_ok(rest)) by {
            assert forall|k: int| 0 <= k < rest.len() implies (#[trigger] rest[k]).cl >= 1 by {
                assert(rest[k] == t[if k < j { k } else { k + 1 }]);
            }
        }
        order_of_changes_is_irrelevant(row, s.drop_last(), rest);
        assert(rest.push(last).drop_last() =~= rest);
    } else {
        assert(t.len() == 0);
        assert(s =~= t);
    }
}

/// A change that a site has merged before does nothing, however many have come in between.
pub proof fn seen_changes_do_nothing(row: RowClock, s: Seq<RowChange>, j: int)
    requires
        row.wf(),
        changes_ok(s),
        0 <= j < s.len(),
    ensures
        after_all(row, s).after(s[j], true) == after_all(row, s),
{
    let front = s.remove(j);
    lemma_move_last(row, s, j);
    assert(front.push(s[j]).drop_last() =~= front);
    assert(changes_ok(front)) by {
        assert forall|k: int| 0 <= k < front.len() implies (#[trigger] front[k]).cl >= 1 by {
            assert(front[k] == s[if k < j { k } else { k + 1 }]);
        }
    }
    lemma_after_all_wf(row, front);
    assert(s[j].cl >= 1);
    row_merge_idempotent(after_all(row, front), s[j], true);
}

proof fn lemma_absorb(row: RowClock, s: Seq<RowChange>, t: Seq<RowChange>)
    requires
        row.wf(),
        changes_ok(s),
        forall|k: int| 0 <= k < t.len() ==> s.contains(#[trigger] t[k]),
    ensures
        after_all(row, s + t) == after_all(row, s),
    decreases t.len(),
{
    if t.len() > 0 {
        let n = t.len() - 1;
        assert forall|k: int| 0 <= k < n implies s.contains(#[trigger] t.drop_last()[k]) by {
            assert(t.drop_last()[k] == t[k]);
        }
        lemma_absorb(row, s, t.drop_last());
        assert((s + t).drop_last() =~= s + t.drop_last());
        assert((s + t).last() == t[n]);
        let j = choose|j: int| 0 <= j < s.len() && s[j] == t[n];
        seen_changes_do_nothing(row, s, j);
    } else {
        assert(s + t =~= s);
    }
}

/// Two sites that have seen the same changes know the same of the row, in whatever order the
/// changes came, and however often each of them came.
pub proof fn sites_agree(row: RowClock, s: Seq<RowChange>, t: Seq<RowChange>)
    requires
        row.wf(),
        changes_ok(s),
        changes_ok(t),
        s.to_set() == t.to_set(),
    ensures
        after_all(row, s) == after_all(row, t),
{
    assert forall|k: int| 0 <= k < t.len() implies s.contains(#[trigger] t[k]) by {
        assert(t.to_set().contains(t[k]));
        assert(s.to_set().contains(t[k]));
    }
    assert forall|k: int| 0 <= k < s.len() implies t.contains(#[trigger] s[k]) by {
        assert(s.to_set().contains(s[k]));
        assert(t.to_set().contains(s[k]));
    }
    lemma_absorb(row, s, t);
    lemma_absorb(row, t, s);
    vstd::seq_lib::lemma_multiset_commutative(s, t);
    vstd::seq_lib::lemma_multiset_commutative(t, s);
    assert((s + t).to_multiset() =~= (t + s).to_multiset());
    order_of_changes_is_irrelevant(row, s + t, t + s);
}

/// A write without its site.
pub open spec fn siteless(w: Write) -> Write {
    Write { site: seq![], ..w }
}

impl RowClock {
    /// What is known of a row, but for who wrote its cells.
    pub open spec fn values(self) -> RowClock {
        RowClock { cl: self.cl, cells: self.cells.map_values(|w: Write| siteless(w)) }
    }
}

impl RowChange {
    /// A change without its site.
    pub open spec fn values(self) -> RowChange {
        RowChange {
            cl: self.cl,
            cell: match self.cell {
                Some((col, w)) => Some((col, siteless(w))),
                None => None,
            },
        }
    }
}

/// Changes without their sites.
pub open spec fn changes_values(s: Seq<RowChange>) -> Seq<RowChange> {
    s.map_values(|c: RowChange| c.values())
}

proof fn lemma_values_step(row: RowClock, c: RowChange)
    ensures
        row.after(c, false).values() == row.values().after(c.values(), true),
{
    if let Some((col, w)) = c.cell {
        bytes_order_total(Seq::<u8>::empty(), Seq::<u8>::empty());
        if row.cells.contains_key(col) {
            let old = row.cells[col];
            assert(siteless(merged(old, w, false)) == merged(siteless(old), siteless(w), true));
        }
    }
    assert(row.after(c, false).values().cells =~= row.values().after(c.values(), true).cells);
}

/// What a site knows of a row once changes were merged one after the other, where equal values
/// are not told apart.
pub open spec fn after_all_plain(row: RowClock, s: Seq<RowChange>) -> RowClock
    decreases s.len(),
{
    if s.len() == 0 {
        row
    } else {
        after_all_plain(row, s.drop_last()).after(s.last(), false)
    }
}

proof fn lemma_values_all(row: RowClock, s: Seq<RowChange>)
    ensures
        after_all_plain(row, s).values() == after_all(row.values(), changes_values(s)),
    decreases s.len(),
{
    if s.len() > 0 {
        lemma_values_all(row, s.drop_last());
        assert(changes_values(s).drop_last() =~= changes_values(s.drop_last()));
        assert(changes_values(s).last() == s.last().values());
        lemma_values_step(after_all_plain(row, s.drop_last()), s.last());
    }
}

proof fn lemma_values_set(s: Seq<RowChange>, t: Seq<RowChange>)
    requires
        s.to_set() == t.to_set(),
    ensures
        forall|x: RowChange|
            changes_values(s).to_set().contains(x) ==> changes_values(t).to_set().contains(x),
{
    assert forall|x: RowChange| changes_values(s).to_set().contains(x) implies changes_values(t).to_set().contains(
        x,
    ) by {
        let k = choose|k: int| 0 <= k < changes_values(s).len() && changes_values(s)[k] == x;
        assert(s.to_set().contains(s[k]));
        assert(t.to_set().contains(s[k]));
        let j = choose|j: int| 0 <= j < t.len() && t[j] == s[k];
        assert(changes_values(t)[j] == x);
    }
}

/// Where equal values are not told apart, two sites that have seen the same changes still agree on
/// whether the row lives, and on the versions and the values of its cells.
pub proof fn sites_agree_on_values(row: RowClock, s: Seq<RowChange>, t: Seq<RowChange>)
    requires
        row.wf(),
        changes_ok(s),
        changes_ok(t),
        s.to_set() == t.to_set(),
    ensures
        after_all_plain(row, s).values() == after_all_plain(row, t).values(),
{
    lemma_values_all(row, s);
    lemma_values_all(row, t);
    lemma_values_set(s, t);
    lemma_values_set(t, s);
    assert(changes_values(s).to_set() =~= changes_values(t).to_set());
    assert(row.values().cells.dom() =~= row.cells.dom());
    assert(row.values().wf()) by {
        if !is_alive(row.cl) {
            assert(row.values().cells =~= Map::<Seq<char>, Write>::empty());
        }
    }
    assert(changes_ok(changes_values(s))) by {
        assert forall|k: int| 0 <= k < changes_values(s).len() implies (#[trigger] changes_values(s)[k]).cl >= 1 by {
            assert(s[k].cl >= 1);
        }
    }
    assert(changes_ok(changes_values(t))) by {
        assert forall|k: int| 0 <= k < changes_values(t).len() implies (#[trigger] changes_values(t)[k]).cl >= 1 by {
            assert(t[k].cl >= 1);
        }
    }
    sites_agree(row.values(), changes_values(s), changes_values(t));
}

/// What a change does to what a site knows of a row. One from an older life does nothing. One from
/// a newer life leaves nothing of what was there: a deletion, or a row as a whole, leaves a row
/// without cells, and a write leaves its cell alone. One from the life that the row is in leaves
/// all other cells as they are, and its own where the change loses.
pub proof fn changes_do_what_they_say(row: RowClock, c: RowChange, merge_equal: bool, other: Seq<char>)
    requires
        row.wf(),
        c.cl >= 0,
        c.cell is Some ==> c.cl % 2 == 1,
    ensures
        c.cl < row.cl ==> row.after(c, merge_equal) == row,
        c.cl > row.cl ==> row.after(c, merge_equal).cl == c.cl,
        c.cl > row.cl && c.cell is None ==> row.after(c, merge_equal).cells == Map::<Seq<char>, Write>::empty(),
        c.cl > row.cl ==> (c.cell matches Some(cell) ==> row.after(c, merge_equal).cells == Map::<
            Seq<char>,
            Write,
        >::empty().insert(cell.0, cell.1)),
        c.cl == row.cl ==> row.after(c, merge_equal).cl == row.cl,
        c.cl == row.cl && c.cell is None ==> row.after(c, merge_equal) == row,
        c.cl == row.cl ==> (c.cell matches Some(cell) ==> {
            let after = row.after(c, merge_equal).cells;
            &&& after.contains_key(cell.0)
            &&& !row.cells.contains_key(cell.0) ==> after[cell.0] == cell.1
            &&& row.cells.contains_key(cell.0) && write_wins(cell.1, row.cells[cell.0], merge_equal) ==> after[cell.0]
                == cell.1
            &&& row.cells.contains_key(cell.0) && !write_wins(cell.1, row.cells[cell.0], merge_equal) ==> after[cell.0]
                == row.cells[cell.0]
            &&& other != cell.0 ==> after.contains_key(other) == row.cells.contains_key(other) && (row.cells.contains_key(
                other,
            ) ==> after[other] == row.cells[other])
        }),
{
}

} // verus!
