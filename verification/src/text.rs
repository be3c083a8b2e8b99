//! Text that statements and messages are made of.

use vstd::prelude::*;
use vstd::slice::slice_subrange;
use vstd::string::*;

verus! {

// ---------------------------------------------------------------------------
// Strings as sequences of characters
// ---------------------------------------------------------------------------
/// Calls `String::push`: appends one character.
#[verifier::external_body]
pub(crate) fn push_char(s: &mut String, c: char)
    ensures
        final(s)@ == old(s)@.push(c),
{
    s.push(c)
}

/// `s` in upper case.
pub uninterp spec fn uppercase_of(s: Seq<char>) -> Seq<char>;

/// Calls `str::to_uppercase`: the text in upper case, as Unicode defines it, a
/// function of the text alone.
#[verifier::external_body]
pub(crate) fn to_uppercase(s: &str) -> (r: String)
    ensures
        r@ == uppercase_of(s@),
{
    s.to_uppercase()
}

/// The text of each string.
pub open spec fn texts(s: Seq<String>) -> Seq<Seq<char>> {
    s.map_values(|t: String| t@)
}

/// Appends a part to a list of parts.
pub fn push_part(parts: &mut Vec<String>, part: String)
    ensures
        texts(final(parts)@) == texts(old(parts)@).push(part@),
{
    parts.push(part);
    assert(texts(parts@) =~= texts(old(parts)@).push(part@));
}

/// The characters of a string.
pub fn to_chars(s: &str) -> (r: Vec<char>)
    ensures
        r@ == s@,
{
    let mut r: Vec<char> = Vec::new();
    for c in iter: s.chars()
        invariant
            r@ == iter.seq().take(iter.index()),
            iter.seq() == s@,
    {
        r.push(c);
    }
    assert(r@ =~= s@);
    r
}

/// The string of those characters.
pub fn from_chars(s: &[char]) -> (r: String)
    ensures
        r@ == s@,
{
    let mut r = String::new();
    let mut i: usize = 0;
    while i < s.len()
        invariant
            i <= s@.len(),
            r@ == s@.take(i as int),
        decreases s@.len() - i,
    {
        push_char(&mut r, s[i]);
        i = i + 1;
        assert(r@ =~= s@.take(i as int));
    }
    assert(s@.take(i as int) =~= s@);
    r
}

/// Whether two texts are the same.
pub fn same(a: &str, b: &str) -> (r: bool)
    ensures
        r == (a@ == b@),
{
    a.to_owned() == b.to_owned()
}

// ---------------------------------------------------------------------------
// Numbers
// ---------------------------------------------------------------------------
/// The digit `d`.
pub open spec fn digit(d: nat) -> Seq<char> {
    if d == 0 {
        "0"@
    } else if d == 1 {
        "1"@
    } else if d == 2 {
        "2"@
    } else if d == 3 {
        "3"@
    } else if d == 4 {
        "4"@
    } else if d == 5 {
        "5"@
    } else if d == 6 {
        "6"@
    } else if d == 7 {
        "7"@
    } else if d == 8 {
        "8"@
    } else {
        "9"@
    }
}

/// The decimal digits of `n`, without leading zeros.
pub open spec fn digits(n: nat) -> Seq<char>
    decreases n,
{
    if n < 10 {
        digit(n)
    } else {
        digits(n / 10) + digit(n % 10)
    }
}

/// An integer in decimal.
pub open spec fn decimal_of(n: int) -> Seq<char> {
    if n < 0 {
        "-"@ + digits((-n) as nat)
    } else {
        digits(n as nat)
    }
}

fn digit_text(d: u64) -> (r: &'static str)
    requires
        d < 10,
    ensures
        r@ == digit(d as nat),
{
    match d {
        0 => "0",
        1 => "1",
        2 => "2",
        3 => "3",
        4 => "4",
        5 => "5",
        6 => "6",
        7 => "7",
        8 => "8",
        _ => "9",
    }
}

fn digits_text(n: u64) -> (r: String)
    ensures
        r@ == digits(n as nat),
    decreases n,
{
    if n < 10 {
        digit_text(n).to_owned()
    } else {
        digits_text(n / 10).concat(digit_text(n % 10))
    }
}

/// An integer in decimal.
pub fn decimal(n: i64) -> (r: String)
    ensures
        r@ == decimal_of(n as int),
{
    if n >= 0 {
        digits_text(n as u64)
    } else {
        "-".to_owned().concat(digits_text((-(n + 1)) as u64 + 1).as_str())
    }
}

/// An unsigned integer in decimal.
pub fn decimal_u64(n: u64) -> (r: String)
    ensures
        r@ == decimal_of(n as int),
{
    digits_text(n)
}

/// A count in decimal.
pub fn decimal_usize(n: usize) -> (r: String)
    ensures
        r@ == decimal_of(n as int),
{
    digits_text(n as u64)
}

// ---------------------------------------------------------------------------
// Lists
// ---------------------------------------------------------------------------
/// The parts, one after the other, with `sep` between them.
pub open spec fn joined(parts: Seq<Seq<char>>, sep: Seq<char>) -> Seq<char>
    decreases parts.len(),
{
    if parts.len() == 0 {
        seq![]
    } else if parts.len() == 1 {
        parts[0]
    } else {
        joined(parts.drop_last(), sep) + sep + parts.last()
    }
}

/// The parts, one after the other, with `sep` between them.
pub fn join(parts: &[String], sep: &str) -> (r: String)
    ensures
        r@ == joined(texts(parts@), sep@),
{
    let mut r = String::new();
    let mut i: usize = 0;
    while i < parts.len()
        invariant
            i <= parts@.len(),
            r@ == joined(texts(parts@).take(i as int), sep@),
        decreases parts@.len() - i,
    {
        if i > 0 {
            r.append(sep);
        }
        r.append(parts[i].as_str());
        proof {
            let now = texts(parts@).take(i + 1);
            assert(now.drop_last() =~= texts(parts@).take(i as int));
            assert(now.last() == parts@[i as int]@);
            if i == 0 {
                assert(seq![] + parts@[0]@ =~= parts@[0]@);
            }
        }
        i = i + 1;
    }
    assert(texts(parts@).take(i as int) =~= texts(parts@));
    r
}

// ---------------------------------------------------------------------------
// Looking into text
// ---------------------------------------------------------------------------
/// The characters that Unicode counts as white space.
pub open spec fn is_white(c: char) -> bool {
    ||| '\u{9}' <= c <= '\u{d}'
    ||| c == '\u{20}'
    ||| c == '\u{85}'
    ||| c == '\u{a0}'
    ||| c == '\u{1680}'
    ||| '\u{2000}' <= c <= '\u{200a}'
    ||| c == '\u{2028}'
    ||| c == '\u{2029}'
    ||| c == '\u{202f}'
    ||| c == '\u{205f}'
    ||| c == '\u{3000}'
}

fn white(c: char) -> (r: bool)
    ensures
        r == is_white(c),
{
    ('\u{9}' <= c && c <= '\u{d}') || c == '\u{20}' || c == '\u{85}' || c == '\u{a0}' || c
        == '\u{1680}' || ('\u{2000}' <= c && c <= '\u{200a}') || c == '\u{2028}' || c == '\u{2029}'
        || c == '\u{202f}' || c == '\u{205f}' || c == '\u{3000}'
}

/// `s` without the white space at its front.
pub open spec fn trimmed_front(s: Seq<char>) -> Seq<char>
    decreases s.len(),
{
    if s.len() > 0 && is_white(s[0]) {
        trimmed_front(s.skip(1))
    } else {
        s
    }
}

/// `s` without the white space at its end.
pub open spec fn trimmed_back(s: Seq<char>) -> Seq<char>
    decreases s.len(),
{
    if s.len() > 0 && is_white(s.last()) {
        trimmed_back(s.drop_last())
    } else {
        s
    }
}

/// `s` without the white space at both ends.
pub open spec fn trimmed(s: Seq<char>) -> Seq<char> {
    trimmed_back(trimmed_front(s))
}

/// `s` without the white space at both ends.
pub fn trim(s: &[char]) -> (r: &[char])
    ensures
        r@ == trimmed(s@),
        r@.len() <= s@.len(),
{
    let mut r = s;
    while r.len() > 0 && white(r[0])
        invariant
            r@.len() <= s@.len(),
            trimmed_front(s@) == trimmed_front(r@),
        decreases r@.len(),
    {
        let next = slice_subrange(r, 1, r.len());
        assert(next@ =~= r@.skip(1));
        r = next;
    }
    let ghost front = r@;
    while r.len() > 0 && white(r[r.len() - 1])
        invariant
            r@.len() <= s@.len(),
            trimmed_back(front) == trimmed_back(r@),
        decreases r@.len(),
    {
        let next = slice_subrange(r, 0, r.len() - 1);
        assert(next@ =~= r@.drop_last());
        r = next;
    }
    r
}

/// Where `c` first occurs in `s`.
pub open spec fn first_index(s: Seq<char>, c: char) -> Option<int>
    decreases s.len(),
{
    if s.len() == 0 {
        None
    } else if s[0] == c {
        Some(0int)
    } else {
        match first_index(s.skip(1), c) {
            Some(i) => Some(i + 1),
            None => None,
        }
    }
}

/// Where `c` first occurs in `s`.
pub fn find(s: &[char], c: char) -> (r: Option<usize>)
    ensures
        match first_index(s@, c) {
            Some(i) => r matches Some(j) && j == i,
            None => r is None,
        },
        r matches Some(j) ==> j < s@.len() && s@[j as int] == c,
{
    let mut i: usize = 0;
    assert(s@.skip(0) =~= s@);
    while i < s.len()
        invariant
            i <= s@.len(),
            first_index(s@, c) == (match first_index(s@.skip(i as int), c) {
                Some(j) => Some(i + j),
                None => None,
            }),
        decreases s@.len() - i,
    {
        if s[i] == c {
            return Some(i);
        }
        assert(s@.skip(i as int).skip(1) =~= s@.skip(i + 1));
        i = i + 1;
    }
    None
}

/// Where the two characters `a` and `b` first stand side by side in `s`.
pub open spec fn first_pair(s: Seq<char>, a: char, b: char) -> Option<int>
    decreases s.len(),
{
    if s.len() < 2 {
        None
    } else if s[0] == a && s[1] == b {
        Some(0int)
    } else {
        match first_pair(s.skip(1), a, b) {
            Some(i) => Some(i + 1),
            None => None,
        }
    }
}

/// Where the two characters `a` and `b` first stand side by side in `s`.
pub fn find_pair(s: &[char], a: char, b: char) -> (r: Option<usize>)
    ensures
        match first_pair(s@, a, b) {
            Some(i) => r matches Some(j) && j == i,
            None => r is None,
        },
        r matches Some(j) ==> j + 2 <= s@.len() && s@[j as int] == a && s@[j + 1] == b,
{
    let mut i: usize = 0;
    assert(s@.skip(0) =~= s@);
    while i < s.len()
        invariant
            i <= s@.len(),
            first_pair(s@, a, b) == (match first_pair(s@.skip(i as int), a, b) {
                Some(j) => Some(i + j),
                None => None,
            }),
        decreases s@.len() - i,
    {
        if s.len() - i < 2 {
            return None;
        }
        if s[i] == a && s[i + 1] == b {
            return Some(i);
        }
        assert(s@.skip(i as int).skip(1) =~= s@.skip(i + 1));
        i = i + 1;
    }
    None
}

/// A letter from `A` to `Z` in lower case, any other character as it is.
pub open spec fn lower(c: char) -> char {
    if 'A' <= c <= 'Z' {
        (c as u32 + 32) as char
    } else {
        c
    }
}

/// Whether two texts are the same but for the case of the letters from `a` to `z`.
pub open spec fn same_but_case(a: Seq<char>, b: Seq<char>) -> bool {
    a.map_values(|c: char| lower(c)) == b.map_values(|c: char| lower(c))
}

fn lower_char(c: char) -> (r: char)
    ensures
        r == lower(c),
{
    if 'A' <= c && c <= 'Z' {
        let u: u32 = c as u32;
        let b: u8 = (u + 32) as u8;
        b as char
    } else {
        c
    }
}

/// Whether two texts are the same but for the case of the letters from `a` to `z`.
pub fn eq_ignore_case(a: &[char], b: &[char]) -> (r: bool)
    ensures
        r == same_but_case(a@, b@),
{
    let ghost la = a@.map_values(|c: char| lower(c));
    let ghost lb = b@.map_values(|c: char| lower(c));
    if a.len() != b.len() {
        assert(la.len() != lb.len());
        return false;
    }
    let mut i: usize = 0;
    while i < a.len()
        invariant
            i <= a@.len(),
            a@.len() == b@.len(),
            la == a@.map_values(|c: char| lower(c)),
            lb == b@.map_values(|c: char| lower(c)),
            forall|j: int| 0 <= j < i ==> la[j] == lb[j],
        decreases a@.len() - i,
    {
        if lower_char(a[i]) != lower_char(b[i]) {
            assert(la[i as int] != lb[i as int]);
            return false;
        }
        i = i + 1;
    }
    assert(la =~= lb);
    true
}

/// White space, by the numbers of its characters.
pub proof fn white_space(c: char)
    ensures
        is_white(c) <==> {
            let n = c as u32;
            ||| 9 <= n <= 13
            ||| n == 32
            ||| n == 133
            ||| n == 160
            ||| n == 5760
            ||| 8192 <= n <= 8202
            ||| n == 8232
            ||| n == 8233
            ||| n == 8239
            ||| n == 8287
            ||| n == 12288
        },
{
}

} // verus!
