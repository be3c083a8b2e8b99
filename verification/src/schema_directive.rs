//! Directives in the comments of a table's definition, such as
//! `/* crsql: skip_hash=1 */`.

use crate::text::{
    eq_ignore_case, find, find_pair, first_index, first_pair, from_chars, same, same_but_case,
    to_chars, trim, trimmed,
};
use vstd::prelude::*;
use vstd::slice::slice_subrange;

verus! {

/// The query for the definition of a table.
pub const TABLE_SQL: &'static str = "SELECT sql FROM sqlite_master WHERE type = 'table' AND name = ?\0";

/// `s` in lower case.
pub uninterp spec fn lowercase_of(s: Seq<char>) -> Seq<char>;

/// Calls `str::to_lowercase`: the text in lower case, as Unicode defines it, a
/// function of the text alone.
#[verifier::external_body]
fn to_lowercase(s: &str) -> (r: String)
    ensures
        r@ == lowercase_of(s@),
{
    s.to_lowercase()
}

/// Directives by their names.
pub struct Directives {
    /// Names and values in the order in which they were read.
    entries: Vec<(String, String)>,
}

/// The values of names, where a later pair replaces an earlier one of the same name.
pub open spec fn map_of(pairs: Seq<(Seq<char>, Seq<char>)>) -> Map<Seq<char>, Seq<char>>
    decreases pairs.len(),
{
    if pairs.len() == 0 {
        Map::empty()
    } else {
        map_of(pairs.drop_last()).insert(pairs.last().0, pairs.last().1)
    }
}

impl View for Directives {
    type V = Map<Seq<char>, Seq<char>>;

    closed spec fn view(&self) -> Map<Seq<char>, Seq<char>> {
        map_of(self.pairs())
    }
}

impl Directives {
    spec fn pairs(&self) -> Seq<(Seq<char>, Seq<char>)> {
        self.entries@.map_values(|e: (String, String)| (e.0@, e.1@))
    }

    /// No directives.
    pub fn new() -> (r: Directives)
        ensures
            r@ == Map::<Seq<char>, Seq<char>>::empty(),
    {
        let r = Directives { entries: Vec::new() };
        assert(r.pairs() =~= seq![]);
        r
    }

    /// Sets a directive.
    pub fn insert(&mut self, key: String, value: String)
        ensures
            final(self)@ == old(self)@.insert(key@, value@),
    {
        self.entries.push((key, value));
        assert(self.pairs().drop_last() =~= old(self).pairs());
    }

    /// The value of a directive.
    pub fn get(&self, key: &str) -> (r: Option<&String>)
        ensures
            r is Some <==> self@.contains_key(key@),
            r matches Some(v) ==> v@ == self@[key@],
    {
        let mut i: usize = self.entries.len();
        assert(self.pairs().take(i as int) =~= self.pairs());
        while i > 0
            invariant
                i <= self.entries@.len(),
                self@.contains_key(key@) == map_of(self.pairs().take(i as int)).contains_key(key@),
                self@.contains_key(key@) ==> self@[key@] == map_of(self.pairs().take(i as int))[key@],
            decreases i,
        {
            let ghost now = self.pairs().take(i as int);
            assert(now.drop_last() =~= self.pairs().take(i - 1));
            i = i - 1;
            let (name, value) = &self.entries[i];
            assert(now.last() == (name@, value@));
            if same(name.as_str(), key) {
                return Some(value);
            }
        }
        None
    }

    /// Whether there are no directives.
    pub fn is_empty(&self) -> (r: bool)
        ensures
            r == (self@ == Map::<Seq<char>, Seq<char>>::empty()),
    {
        proof {
            if self.entries@.len() > 0 {
                assert(self@.contains_key(self.pairs().last().0));
            }
        }
        self.entries.len() == 0
    }
}

/// The directives `m`, and those that `list` names: pairs with a comma between, each
/// a name, an equals sign and a value. What has no equals sign is passed over.
pub open spec fn with_pairs(m: Map<Seq<char>, Seq<char>>, list: Seq<char>) -> Map<Seq<char>, Seq<char>>
    decreases list.len(),
{
    match first_index(list, ',') {
        Some(i) => if 0 <= i < list.len() {
            with_pairs(with_pair(m, list.take(i as int)), list.skip(i + 1))
        } else {
            m
        },
        None => with_pair(m, list),
    }
}

/// The directives `m`, and the one that `pair` names.
pub open spec fn with_pair(m: Map<Seq<char>, Seq<char>>, pair: Seq<char>) -> Map<Seq<char>, Seq<char>> {
    let p = trimmed(pair);
    match first_index(p, '=') {
        Some(i) => m.insert(lowercase_of(trimmed(p.take(i as int))), trimmed(p.skip(i + 1))),
        None => m,
    }
}

/// The directives `m`, and those of a comment: it has some where its text starts with
/// `crsql:`, in any case.
pub open spec fn with_comment(m: Map<Seq<char>, Seq<char>>, body: Seq<char>) -> Map<Seq<char>, Seq<char>> {
    let t = trimmed(body);
    if t.len() >= 6 && same_but_case(t.take(6), seq!['c', 'r', 's', 'q', 'l', ':']) {
        with_pairs(m, t.skip(6))
    } else {
        m
    }
}

/// The directives `m`, and those of the comments in `sql`, up to the first comment
/// that does not end. There are none, not even an empty set, where the mark that
/// opens a comment shares its star with the mark that ends it.
pub open spec fn with_comments(m: Map<Seq<char>, Seq<char>>, sql: Seq<char>) -> Option<
    Map<Seq<char>, Seq<char>>,
>
    decreases sql.len(),
{
    match first_pair(sql, '/', '*') {
        None => Some(m),
        Some(start) => match first_pair(sql.skip(start as int), '*', '/') {
            None => Some(m),
            Some(end) => if start < 0 || end < 2 || start + end + 2 > sql.len() {
                None
            } else {
                with_comments(
                    with_comment(m, sql.subrange(start + 2, start + end)),
                    sql.skip(start + end + 2),
                )
            },
        },
    }
}

/// Whether no mark that opens a comment in `sql` shares its star with the mark that ends it,
/// up to the first comment that does not end.
pub open spec fn comments_apart(sql: Seq<char>) -> bool
    decreases sql.len(),
{
    match first_pair(sql, '/', '*') {
        None => true,
        Some(start) => match first_pair(sql.skip(start as int), '*', '/') {
            None => true,
            Some(end) => 0 <= start && 2 <= end && start + end + 2 <= sql.len() && comments_apart(
                sql.skip(start + end + 2),
            ),
        },
    }
}

proof fn lemma_comments_apart(m: Map<Seq<char>, Seq<char>>, sql: Seq<char>)
    ensures
        with_comments(m, sql) is Some <==> comments_apart(sql),
    decreases sql.len(),
{
    match first_pair(sql, '/', '*') {
        Some(start) => match first_pair(sql.skip(start as int), '*', '/') {
            Some(end) => if 0 <= start && 2 <= end && start + end + 2 <= sql.len() {
                lemma_comments_apart(
                    with_comment(m, sql.subrange(start + 2, start + end)),
                    sql.skip(start + end + 2),
                );
            },
            None => {},
        },
        None => {},
    }
}

/// The directives of a table's definition: there are some, if only none, exactly where
/// [`comments_apart`] holds.
pub open spec fn directives_of(sql: Seq<char>) -> Option<Map<Seq<char>, Seq<char>>> {
    with_comments(Map::empty(), sql)
}

fn read_pair(result: &mut Directives, pair: &[char])
    ensures
        final(result)@ == with_pair(old(result)@, pair@),
{
    let p = trim(pair);
    let len: usize = p.len();
    match find(p, '=') {
        Some(i) => {
            let name = slice_subrange(p, 0, i);
            let value = slice_subrange(p, i + 1, len);
            assert(name@ =~= p@.take(i as int));
            assert(value@ =~= p@.skip(i + 1));
            let key = to_lowercase(from_chars(trim(name)).as_str());
            result.insert(key, from_chars(trim(value)));
        },
        None => {},
    }
}

fn read_pairs(result: &mut Directives, list: &[char])
    ensures
        final(result)@ == with_pairs(old(result)@, list@),
{
    let mut rest = list;
    let ghost all = with_pairs(result@, list@);
    loop
        invariant
            all == with_pairs(result@, rest@),
        ensures
            all == result@,
        decreases rest@.len(),
    {
        let len: usize = rest.len();
        match find(rest, ',') {
            Some(i) => {
                let pair = slice_subrange(rest, 0, i);
                let next = slice_subrange(rest, i + 1, len);
                assert(pair@ =~= rest@.take(i as int));
                assert(next@ =~= rest@.skip(i + 1));
                read_pair(result, pair);
                rest = next;
            },
            None => {
                read_pair(result, rest);
                break;
            },
        }
    }
}

fn read_comment(result: &mut Directives, body: &[char])
    ensures
        final(result)@ == with_comment(old(result)@, body@),
{
    let t = trim(body);
    if t.len() >= 6 {
        let front = slice_subrange(t, 0, 6);
        assert(front@ =~= t@.take(6));
        let prefix: Vec<char> = vec!['c', 'r', 's', 'q', 'l', ':'];
        assert(prefix@ =~= seq!['c', 'r', 's', 'q', 'l', ':']);
        if eq_ignore_case(front, prefix.as_slice()) {
            let list = slice_subrange(t, 6, t.len());
            assert(list@ =~= t@.skip(6));
            read_pairs(result, list);
        }
    }
}

fn read_comments(sql: &[char]) -> (r: Option<Directives>)
    ensures
        match directives_of(sql@) {
            Some(m) => r matches Some(d) && d@ == m,
            None => r is None,
        },
{
    let mut result = Directives::new();
    let mut rest = sql;
    loop
        invariant
            directives_of(sql@) == with_comments(result@, rest@),
        decreases rest@.len(),
    {
        let start: usize = match find_pair(rest, '/', '*') {
            Some(start) => start,
            None => return Some(result),
        };
        let tail = slice_subrange(rest, start, rest.len());
        assert(tail@ =~= rest@.skip(start as int));
        let end: usize = match find_pair(tail, '*', '/') {
            Some(end) => end,
            None => return Some(result),
        };
        if end < 2 {
            return None;
        }
        let body = slice_subrange(tail, 2, end);
        let next = slice_subrange(tail, end + 2, tail.len());
        assert(body@ =~= rest@.subrange(start + 2, start + end));
        assert(next@ =~= rest@.skip(start + end + 2));
        read_comment(&mut result, body);
        rest = next;
    }
}

/// Whether the directives of a table's definition can be read, as [`parse_directives`]
/// asks of its input: no mark that opens a comment shares its star with the mark that
/// ends it.
pub fn can_parse_directives(create_sql: &str) -> (r: bool)
    ensures
        r == comments_apart(create_sql@),
{
    proof {
        lemma_comments_apart(Map::empty(), create_sql@);
    }
    read_comments(to_chars(create_sql).as_slice()).is_some()
}

/// The directives in the comments of a table's definition.
pub fn parse_directives(create_sql: &str) -> (r: Directives)
    requires
        comments_apart(create_sql@),
    ensures
        directives_of(create_sql@) == Some(r@),
{
    proof {
        lemma_comments_apart(Map::empty(), create_sql@);
    }
    read_comments(to_chars(create_sql).as_slice()).unwrap()
}

/// Whether a directive's value switches it on: `1`, `true`, `on` or `yes`, in any
/// case.
pub open spec fn truthy(value: Seq<char>) -> bool {
    ||| same_but_case(value, "1"@)
    ||| same_but_case(value, "true"@)
    ||| same_but_case(value, "on"@)
    ||| same_but_case(value, "yes"@)
}

/// Whether a directive's value switches it on: `1`, `true`, `on` or `yes`, in any
/// case.
pub fn is_truthy(value: &str) -> (r: bool)
    ensures
        r == truthy(value@),
{
    let v = to_chars(value);
    eq_ignore_case(v.as_slice(), to_chars("1").as_slice())
        || eq_ignore_case(v.as_slice(), to_chars("true").as_slice())
        || eq_ignore_case(v.as_slice(), to_chars("on").as_slice())
        || eq_ignore_case(v.as_slice(), to_chars("yes").as_slice())
}

/// What a table's definition says of a directive that is on or off: nothing where
/// there is no definition, or where the directive is not in it.
pub open spec fn flag_of(create_sql: Option<Seq<char>>, key: Seq<char>) -> Option<bool> {
    match create_sql {
        None => None,
        Some(sql) => match directives_of(sql) {
            Some(m) => if m.contains_key(key) {
                Some(truthy(m[key]))
            } else {
                None
            },
            None => None,
        },
    }
}

/// What a table's definition says of a directive that is on or off.
pub fn read_flag(create_sql: Option<&str>, key: &str) -> (r: Option<bool>)
    requires
        create_sql matches Some(sql) ==> comments_apart(sql@),
    ensures
        r == flag_of(match create_sql { Some(sql) => Some(sql@), None => None }, key@),
{
    match create_sql {
        None => None,
        Some(sql) => match parse_directives(sql).get(key) {
            Some(value) => Some(is_truthy(value.as_str())),
            None => None,
        },
    }
}

/// What the definition of a table, the answer to [`TABLE_SQL`], says of `skip_hash`:
/// on, off, or nothing.
pub fn read_skip_hash_directive_opt(create_sql: Option<&str>) -> (r: Option<bool>)
    requires
        create_sql matches Some(sql) ==> comments_apart(sql@),
    ensures
        r == flag_of(match create_sql { Some(sql) => Some(sql@), None => None }, "skip_hash"@),
{
    read_flag(create_sql, "skip_hash")
}

proof fn lemma_first_at(s: Seq<char>, c: char, i: int)
    requires
        0 <= i < s.len(),
        s[i] == c,
        forall|j: int| 0 <= j < i ==> s[j] != c,
    ensures
        first_index(s, c) == Some(i),
{
    crate::text_laws::index_is_first(s, c);
    assert(s.contains(s[i]));
    let k = first_index(s, c).unwrap();
    if k < i {
        assert(s[k] != c);
    }
}

/// Pairs are read one after the other, so that a later one of the same name takes the place of an
/// earlier one; a list without a comma is one pair.
pub proof fn pairs_are_read_in_order(m: Map<Seq<char>, Seq<char>>, first: Seq<char>, rest: Seq<char>)
    requires
        !first.contains(','),
    ensures
        with_pairs(m, first) == with_pair(m, first),
        with_pairs(m, first + seq![','] + rest) == with_pairs(with_pair(m, first), rest),
{
    let all = first + seq![','] + rest;
    let n = first.len() as int;
    crate::text_laws::index_is_first(first, ',');
    assert forall|j: int| 0 <= j < n implies all[j] != ',' by {
        assert(all[j] == first[j]);
        assert(first.contains(first[j]));
    }
    lemma_first_at(all, ',', n);
    assert(all.take(n) =~= first);
    assert(all.skip(n + 1) =~= rest);
}

/// A pair sets the value behind its first equals sign for the name in front of it, in lower case,
/// without the white space around them. What has no equals sign sets nothing.
pub proof fn pairs_set_values(m: Map<Seq<char>, Seq<char>>, name: Seq<char>, value: Seq<char>, other: Seq<char>)
    requires
        !name.contains('='),
        trimmed(name) == name,
        trimmed(value) == value,
        !trimmed(other).contains('='),
    ensures
        with_pair(m, name + seq!['='] + value) == m.insert(lowercase_of(name), value),
        with_pair(m, other) == m,
{
    let pair = name + seq!['='] + value;
    let n = name.len() as int;
    crate::text_laws::index_is_first(trimmed(other), '=');
    assert(trimmed_kept(pair)) by {
        let ends = crate::text_laws::only_white_space_is_trimmed(name);
        let tails = crate::text_laws::only_white_space_is_trimmed(value);
        if name.len() > 0 {
            assert(pair[0] == name[0]);
        }
        if value.len() > 0 {
            assert(pair.last() == value.last());
        }
    }
    assert forall|j: int| 0 <= j < n implies pair[j] != '=' by {
        assert(pair[j] == name[j]);
        assert(name.contains(name[j]));
    }
    lemma_first_at(pair, '=', n);
    assert(pair.take(n) =~= name);
    assert(pair.skip(n + 1) =~= value);
}

/// Whether a text has no white space at its ends.
spec fn trimmed_kept(s: Seq<char>) -> bool {
    trimmed(s) == s
}

/// A comment says something exactly where its text starts with `crsql:`, in any case.
pub proof fn only_marked_comments_count(m: Map<Seq<char>, Seq<char>>, mark: Seq<char>, list: Seq<char>, other: Seq<char>)
    requires
        same_but_case(mark, "crsql:"@),
        trimmed(mark + list) == mark + list,
        trimmed(other).len() < 6 || !same_but_case(trimmed(other).take(6), "crsql:"@),
    ensures
        with_comment(m, mark + list) == with_pairs(m, list),
        with_comment(m, other) == m,
{
    reveal_strlit("crsql:");
    assert("crsql:"@ =~= seq!['c', 'r', 's', 'q', 'l', ':']);
    let body = mark + list;
    crate::text_laws::case_does_not_count(mark, "crsql:"@, 0);
    assert(mark.len() == 6);
    assert(body.take(6) =~= mark);
    assert(body.skip(6) =~= list);
}

/// Comments are read one after the other, and what stands between them does not count. The text of
/// a comment does not start with a slash, which would end it with the star that opens it.
pub proof fn comments_are_read_in_order(m: Map<Seq<char>, Seq<char>>, before: Seq<char>, body: Seq<char>, after: Seq<char>)
    requires
        !before.contains('/'),
        !body.contains('*'),
        body.len() > 0 ==> body[0] != '/',
    ensures
        with_comments(m, before) == Some(m),
        with_comments(m, before + seq!['/', '*'] + body + seq!['*', '/'] + after) == with_comments(
            with_comment(m, body),
            after,
        ),
{
    let sql = before + seq!['/', '*'] + body + seq!['*', '/'] + after;
    let start = before.len() as int;
    crate::text_laws::pair_is_first(before, '/', '*');
    assert forall|j: int| #![trigger before[j]] 0 <= j < before.len() - 1 implies !(before[j] == '/' && before[j + 1]
        == '*') by {
        assert(before.contains(before[j]));
    }
    crate::text_laws::pair_is_first(sql, '/', '*');
    assert(sql[start] == '/' && sql[start + 1] == '*');
    assert forall|j: int| #![trigger sql[j]] 0 <= j < start implies sql[j] != '/' by {
        assert(sql[j] == before[j]);
        assert(before.contains(before[j]));
    }
    assert(first_pair(sql, '/', '*') == Some(start)) by {
        let k = first_pair(sql, '/', '*').unwrap();
        if k > start {
            assert(!(sql[start] == '/' && sql[start + 1] == '*'));
        }
    }
    let tail = sql.skip(start);
    let end = body.len() as int + 2;
    crate::text_laws::pair_is_first(tail, '*', '/');
    assert(tail[end] == '*' && tail[end + 1] == '/');
    assert forall|j: int| #![trigger tail[j]] 0 <= j < end implies !(tail[j] == '*' && tail[j + 1] == '/') by {
        if j >= 2 {
            assert(tail[j] == body[j - 2]);
            assert(body.contains(body[j - 2]));
        } else if j == 1 {
            if body.len() > 0 {
                assert(tail[2] == body[0]);
            }
        }
    }
    assert(sql.subrange(start + 2, start + end) =~= body);
    assert(sql.skip(start + end + 2) =~= after);
}

/// A value switches a directive on where it is `1`, `true`, `on` or `yes`, in any case, and by no
/// other value of any length.
pub proof fn values_that_switch_on(value: Seq<char>)
    ensures
        same_but_case(value, "1"@) || same_but_case(value, "true"@) || same_but_case(value, "on"@) || same_but_case(
            value,
            "yes"@,
        ) <==> truthy(value),
        value.len() == 0 || value.len() > 4 ==> !truthy(value),
        value.len() == 1 ==> (truthy(value) <==> value[0] == '1'),
{
    reveal_strlit("1");
    reveal_strlit("true");
    reveal_strlit("on");
    reveal_strlit("yes");
    crate::text_laws::case_does_not_count(value, "1"@, 0);
    crate::text_laws::case_does_not_count(value, "true"@, 0);
    crate::text_laws::case_does_not_count(value, "on"@, 0);
    crate::text_laws::case_does_not_count(value, "yes"@, 0);
    if value.len() == 1 && value[0] == '1' {
        assert(value =~= "1"@);
    }
}

} // verus!
