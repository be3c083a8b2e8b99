//! What holds of looking into text, of numbers in decimal, and of the names and keys that are made of
//! other names.

use crate::config::{base_names, queued, stripped};
use crate::migrate::{after_prefix, task_tables};
use crate::pack_columns::Val;
use crate::text::{
    decimal_of, digit, digits, first_index, first_pair, is_white, lower, same_but_case, trimmed, trimmed_back,
    trimmed_front,
};
use vstd::prelude::*;
use vstd::string::*;

verus! {

/// A character is found where it first occurs, and nowhere where it does not.
pub proof fn index_is_first(s: Seq<char>, c: char)
    ensures
        first_index(s, c) is None <==> !s.contains(c),
        first_index(s, c) matches Some(i) ==> {
            &&& 0 <= i < s.len()
            &&& s[i] == c
            &&& forall|j: int| 0 <= j < i ==> s[j] != c
        },
    decreases s.len(),
{
    if s.len() > 0 {
        let rest = s.skip(1);
        index_is_first(rest, c);
        if s[0] != c {
            if s.contains(c) {
                let k = choose|k: int| 0 <= k < s.len() && s[k] == c;
                assert(rest[k - 1] == c);
            }
            if rest.contains(c) {
                let k = choose|k: int| 0 <= k < rest.len() && rest[k] == c;
                assert(s[k + 1] == c);
            }
            if let Some(i) = first_index(s, c) {
                assert forall|j: int| 0 <= j < i implies s[j] != c by {
                    if j > 0 {
                        assert(rest[j - 1] == s[j]);
                    }
                }
            }
        } else {
            assert(s.contains(s[0]));
        }
    }
}

/// Two characters are found where they first stand side by side, and nowhere where they never do.
pub proof fn pair_is_first(s: Seq<char>, a: char, b: char)
    ensures
        first_pair(s, a, b) is None <==> forall|j: int| #![trigger s[j]] 0 <= j < s.len() - 1 ==> !(s[j] == a && s[j + 1] == b),
        first_pair(s, a, b) matches Some(i) ==> {
            &&& 0 <= i < s.len() - 1
            &&& s[i] == a
            &&& s[i + 1] == b
            &&& forall|j: int| #![trigger s[j]] 0 <= j < i ==> !(s[j] == a && s[j + 1] == b)
        },
    decreases s.len(),
{
    if s.len() >= 2 {
        let rest = s.skip(1);
        pair_is_first(rest, a, b);
        assert forall|j: int| #![trigger s[j]] 0 < j < s.len() - 1 implies s[j] == rest[j - 1] && s[j + 1] == rest[j] by {}
        assert forall|j: int| #![trigger rest[j]] 0 <= j < rest.len() - 1 implies rest[j] == s[j + 1] && rest[j + 1] == s[j + 2] by {}
        if !(s[0] == a && s[1] == b) {
            if first_pair(s, a, b) is None {
                assert forall|j: int| #![trigger s[j]] 0 <= j < s.len() - 1 implies !(s[j] == a && s[j + 1] == b) by {
                    if j > 0 {
                        assert(!(rest[j - 1] == a && rest[j - 1 + 1] == b));
                    }
                }
            } else {
                let i = first_pair(s, a, b).unwrap();
                assert forall|j: int| #![trigger s[j]] 0 <= j < i implies !(s[j] == a && s[j + 1] == b) by {
                    if j > 0 {
                        assert(!(rest[j - 1] == a && rest[j - 1 + 1] == b));
                    }
                }
                assert(s[i] == rest[i - 1]);
            }
        }
    }
}

/// Whether a text is white space.
pub open spec fn all_white(s: Seq<char>) -> bool {
    forall|i: int| 0 <= i < s.len() ==> is_white(#[trigger] s[i])
}

proof fn lemma_trimmed_front(s: Seq<char>) -> (a: Seq<char>)
    ensures
        all_white(a),
        s == a + trimmed_front(s),
        trimmed_front(s).len() > 0 ==> !is_white(trimmed_front(s)[0]),
    decreases s.len(),
{
    if s.len() > 0 && is_white(s[0]) {
        let rest = lemma_trimmed_front(s.skip(1));
        let a = seq![s[0]] + rest;
        assert(s =~= seq![s[0]] + s.skip(1));
        assert(trimmed_front(s) == trimmed_front(s.skip(1)));
        assert(s =~= a + trimmed_front(s));
        a
    } else {
        assert(s =~= Seq::<char>::empty() + s);
        Seq::empty()
    }
}

proof fn lemma_trimmed_back(s: Seq<char>) -> (b: Seq<char>)
    ensures
        all_white(b),
        s == trimmed_back(s) + b,
        trimmed_back(s).len() > 0 ==> !is_white(trimmed_back(s).last()),
    decreases s.len(),
{
    if s.len() > 0 && is_white(s.last()) {
        let front = lemma_trimmed_back(s.drop_last());
        let b = front.push(s.last());
        assert(s =~= s.drop_last().push(s.last()));
        assert(trimmed_back(s) == trimmed_back(s.drop_last()));
        assert(s =~= trimmed_back(s) + b);
        b
    } else {
        assert(s =~= s + Seq::<char>::empty());
        Seq::empty()
    }
}

/// White space is taken off at both ends, and nothing else: what is left neither starts nor ends
/// with it. `a` and `b` are what is taken off.
pub proof fn only_white_space_is_trimmed(s: Seq<char>) -> (ends: (Seq<char>, Seq<char>))
    ensures
        all_white(ends.0),
        all_white(ends.1),
        s == ends.0 + trimmed(s) + ends.1,
        trimmed(s).len() > 0 ==> !is_white(trimmed(s)[0]) && !is_white(trimmed(s).last()),
{
    let a = lemma_trimmed_front(s);
    let b = lemma_trimmed_back(trimmed_front(s));
    assert(s =~= a + trimmed(s) + b);
    if trimmed(s).len() > 0 {
        assert(trimmed_front(s)[0] == trimmed(s)[0]);
    }
    (a, b)
}

/// White space around a text does not change what is left of it.
pub proof fn trimmed_once(s: Seq<char>)
    ensures
        trimmed(trimmed(s)) == trimmed(s),
{
    let ends = only_white_space_is_trimmed(s);
}

/// Case does not count for the letters from `a` to `z`, and for these alone: as a relation it is an
/// equality, and what is not a letter has to be the same.
pub proof fn case_does_not_count(a: Seq<char>, b: Seq<char>, i: int)
    ensures
        same_but_case(a, a),
        same_but_case(a, b) == same_but_case(b, a),
        same_but_case(a, b) ==> a.len() == b.len(),
        same_but_case(a, b) && 0 <= i < a.len() ==> lower(a[i]) == lower(b[i]),
        same_but_case(a, b) && 0 <= i < a.len() && !('A' <= a[i] <= 'Z') && !('A' <= b[i] <= 'Z') ==> a[i] == b[i],
        lower('A') == 'a' && lower('Z') == 'z' && lower('a') == 'a' && lower('@') == '@' && lower('[') == '[',
{
    let x = a.map_values(|c: char| lower(c));
    let y = b.map_values(|c: char| lower(c));
    assert(x.len() == a.len());
    assert(y.len() == b.len());
    if same_but_case(a, b) && 0 <= i < a.len() {
        assert(x[i] == lower(a[i]));
        assert(y[i] == lower(b[i]));
    }
}

/// The value of a decimal digit.
pub open spec fn digit_value(c: char) -> int {
    c as int - '0' as int
}

/// The number that decimal digits stand for.
pub open spec fn value_of(s: Seq<char>) -> int
    decreases s.len(),
{
    if s.len() == 0 {
        0
    } else {
        10 * value_of(s.drop_last()) + digit_value(s.last())
    }
}

proof fn lemma_digit(d: nat)
    requires
        d < 10,
    ensures
        digit(d).len() == 1,
        digit_value(digit(d)[0]) == d,
{
    reveal_strlit("0");
    reveal_strlit("1");
    reveal_strlit("2");
    reveal_strlit("3");
    reveal_strlit("4");
    reveal_strlit("5");
    reveal_strlit("6");
    reveal_strlit("7");
    reveal_strlit("8");
    reveal_strlit("9");
}

proof fn lemma_digits(n: nat)
    ensures
        digits(n).len() > 0,
        value_of(digits(n)) == n,
        n > 0 ==> digits(n)[0] != '0',
        forall|i: int| 0 <= i < digits(n).len() ==> '0' <= #[trigger] digits(n)[i] <= '9',
    decreases n,
{
    if n < 10 {
        lemma_digit(n);
        assert(digits(n).drop_last() =~= Seq::<char>::empty());
        assert(value_of(digits(n).drop_last()) == 0);
    } else {
        lemma_digits(n / 10);
        lemma_digit(n % 10);
        assert(digits(n).drop_last() =~= digits(n / 10));
        assert(digits(n).last() == digit(n % 10)[0]);
        assert forall|i: int| 0 <= i < digits(n).len() implies '0' <= #[trigger] digits(n)[i] <= '9' by {
            if i < digits(n / 10).len() {
                assert(digits(n)[i] == digits(n / 10)[i]);
            }
        }
    }
}

/// A number in decimal stands for the number: digits without a zero in front, behind a sign where
/// it is negative. So two numbers are never written alike.
pub proof fn decimals_come_back(n: int, m: int)
    ensures
        n >= 0 ==> value_of(decimal_of(n)) == n,
        n < 0 ==> decimal_of(n)[0] == '-' && value_of(decimal_of(n).skip(1)) == -n,
        n > 0 ==> decimal_of(n)[0] != '0',
        decimal_of(n) == decimal_of(m) ==> n == m,
{
    reveal_strlit("-");
    if n >= 0 {
        lemma_digits(n as nat);
    } else {
        lemma_digits((-n) as nat);
        assert(decimal_of(n).skip(1) =~= digits((-n) as nat));
    }
    if m >= 0 {
        lemma_digits(m as nat);
    } else {
        lemma_digits((-m) as nat);
        assert(decimal_of(m).skip(1) =~= digits((-m) as nat));
    }
    if decimal_of(n) == decimal_of(m) {
        assert('0' <= digits(if n >= 0 { n as nat } else { (-n) as nat })[0]);
        assert('0' <= digits(if m >= 0 { m as nat } else { (-m) as nat })[0]);
    }
}

/// What was put behind a name comes off again, and off no other name.
pub proof fn suffixes_come_off(base: Seq<char>, suffix: Seq<char>, name: Seq<char>)
    ensures
        stripped(base + suffix, suffix) == Some(base),
        stripped(name, suffix) matches Some(b) ==> name == b + suffix,
{
    let all = base + suffix;
    assert(all.skip(all.len() - suffix.len()) =~= suffix);
    assert(all.take(all.len() - suffix.len()) =~= base);
    if let Some(b) = stripped(name, suffix) {
        assert(name =~= b + suffix);
    }
}

/// What was put in front of a name comes off again, and off no other name.
pub proof fn prefixes_come_off(prefix: Seq<char>, table: Seq<char>, key: Seq<char>)
    ensures
        after_prefix(prefix + table, prefix) == Some(table),
        after_prefix(key, prefix) matches Some(t) ==> key == prefix + t,
{
    let all = prefix + table;
    assert(all.take(prefix.len() as int) =~= prefix);
    assert(all.skip(prefix.len() as int) =~= table);
    if let Some(t) = after_prefix(key, prefix) {
        assert(key =~= prefix + t);
    }
}

/// The tables are found again by their tables of metadata, each of them once, in their order.
pub proof fn tables_are_found_by_metadata(tables: Seq<Seq<char>>, suffix: Seq<char>)
    ensures
        base_names(tables.map_values(|t: Seq<char>| t + suffix), suffix) == tables,
    decreases tables.len(),
{
    let all = tables.map_values(|t: Seq<char>| t + suffix);
    if tables.len() > 0 {
        let front = tables.drop_last();
        tables_are_found_by_metadata(front, suffix);
        assert(all.drop_last() =~= front.map_values(|t: Seq<char>| t + suffix));
        suffixes_come_off(tables.last(), suffix, all.last());
        assert(base_names(all, suffix) =~= tables);
    } else {
        assert(base_names(all, suffix) =~= tables);
    }
}

/// The tables that tasks were queued for are those that the tasks are found for, each of them once,
/// in their order.
pub proof fn queued_tables_are_found(tables: Seq<Seq<char>>, prefix: Seq<char>)
    ensures
        ({
            let keys = tables.map_values(
                |t: Seq<char>|
                    match queued(prefix, t).binds[0] {
                        Val::Text(key) => key,
                        _ => seq![],
                    },
            );
            task_tables(keys, prefix + "_"@) == tables
        }),
    decreases tables.len(),
{
    let key_of = |t: Seq<char>|
        match queued(prefix, t).binds[0] {
            Val::Text(key) => key,
            _ => seq![],
        };
    let keys = tables.map_values(key_of);
    if tables.len() > 0 {
        let front = tables.drop_last();
        queued_tables_are_found(front, prefix);
        assert(keys.drop_last() =~= front.map_values(key_of));
        prefixes_come_off(prefix + "_"@, tables.last(), keys.last());
        assert(task_tables(keys, prefix + "_"@) =~= tables);
    } else {
        assert(task_tables(keys, prefix + "_"@) =~= tables);
    }
}

} // verus!
