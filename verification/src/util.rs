//! Pieces of statements, escaping, and the keys of the settings table.

use crate::consts::ROWID_SLAB_SIZE;
use crate::result_code::ResultCode;
use crate::tableinfo::{names, ColumnInfo};
use crate::text::{join, joined, push_char, push_part, texts, to_chars};
use vstd::prelude::*;
use vstd::string::*;

verus! {

// ---------------------------------------------------------------------------
// Escaping
// ---------------------------------------------------------------------------
/// `s` with every `quote` written twice.
pub open spec fn doubled(s: Seq<char>, quote: char) -> Seq<char>
    decreases s.len(),
{
    if s.len() == 0 {
        seq![]
    } else if s[0] == quote {
        seq![quote, quote] + doubled(s.skip(1), quote)
    } else {
        seq![s[0]] + doubled(s.skip(1), quote)
    }
}

/// `s` with every two `quote` in a row, from the left, written once.
pub open spec fn undoubled(s: Seq<char>, quote: char) -> Seq<char>
    decreases s.len(),
{
    if s.len() == 0 {
        seq![]
    } else if s.len() >= 2 && s[0] == quote && s[1] == quote {
        seq![quote] + undoubled(s.skip(2), quote)
    } else {
        seq![s[0]] + undoubled(s.skip(1), quote)
    }
}

/// What stands for `s` between two `quote`: nothing where `s` holds a NUL, which would
/// end the statement.
pub open spec fn escaped_for(s: Seq<char>, quote: char) -> Seq<char> {
    if s.contains('\0') {
        seq![]
    } else {
        doubled(s, quote)
    }
}

/// What stands for the name `s` inside a quoted identifier.
pub open spec fn escaped(s: Seq<char>) -> Seq<char> {
    escaped_for(s, '"')
}

/// What stands for `s` inside a string literal.
pub open spec fn escaped_value(s: Seq<char>) -> Seq<char> {
    escaped_for(s, '\'')
}

fn escape(s: &str, quote: char) -> (r: String)
    ensures
        r@ == escaped_for(s@, quote),
{
    let chars = to_chars(s);
    let mut r = String::new();
    let mut i: usize = 0;
    assert(chars@.skip(0) =~= chars@);
    assert(r@ + doubled(chars@, quote) =~= doubled(chars@, quote));
    while i < chars.len()
        invariant
            i <= chars@.len(),
            chars@ == s@,
            forall|j: int| 0 <= j < i ==> chars@[j] != '\0',
            doubled(chars@, quote) == r@ + doubled(chars@.skip(i as int), quote),
        decreases chars@.len() - i,
    {
        let c: char = chars[i];
        if c == '\0' {
            assert(s@.contains('\0')) by {
                assert(s@[i as int] == '\0');
            }
            return String::new();
        }
        let ghost before = r@;
        let ghost rest = chars@.skip(i + 1);
        assert(chars@.skip(i as int).skip(1) =~= rest);
        if c == quote {
            push_char(&mut r, c);
            push_char(&mut r, c);
            assert(before + (seq![quote, quote] + doubled(rest, quote)) =~= r@ + doubled(rest, quote));
        } else {
            push_char(&mut r, c);
            assert(before + (seq![c] + doubled(rest, quote)) =~= r@ + doubled(rest, quote));
        }
        i = i + 1;
    }
    assert(!s@.contains('\0'));
    assert(r@ + doubled(chars@.skip(i as int), quote) =~= r@);
    r
}

/// A name as it stands inside a quoted identifier.
pub fn escape_ident(ident: &str) -> (r: String)
    ensures
        r@ == escaped(ident@),
{
    escape(ident, '"')
}

/// A name as it stands inside a string literal.
pub fn escape_ident_as_value(ident: &str) -> (r: String)
    ensures
        r@ == escaped_value(ident@),
{
    escape(ident, '\'')
}

/// Doubling quotes and then undoubling them gives the text back.
pub proof fn undouble_double(s: Seq<char>, quote: char)
    ensures
        undoubled(doubled(s, quote), quote) == s,
    decreases s.len(),
{
    if s.len() > 0 {
        let rest = s.skip(1);
        let d = doubled(s, quote);
        undouble_double(rest, quote);
        if s[0] == quote {
            assert(d.skip(2) =~= doubled(rest, quote));
        } else {
            assert(d[0] == s[0]);
            assert(d.skip(1) =~= doubled(rest, quote));
        }
        assert(seq![s[0]] + rest =~= s);
    } else {
        assert(s =~= seq![]);
    }
}

/// Names without a NUL stay apart when they are escaped, and no escaped name holds a
/// NUL.
pub proof fn escape_injective(a: Seq<char>, b: Seq<char>, quote: char)
    requires
        !a.contains('\0'),
        !b.contains('\0'),
        escaped_for(a, quote) == escaped_for(b, quote),
    ensures
        a == b,
{
    undouble_double(a, quote);
    undouble_double(b, quote);
}

/// No escaped name holds a NUL.
pub proof fn escape_has_no_nul(s: Seq<char>, quote: char)
    requires
        quote != '\0',
    ensures
        !escaped_for(s, quote).contains('\0'),
{
    if !s.contains('\0') {
        lemma_doubled_no_nul(s, quote);
    }
}

proof fn lemma_doubled_no_nul(s: Seq<char>, quote: char)
    requires
        quote != '\0',
        !s.contains('\0'),
    ensures
        !doubled(s, quote).contains('\0'),
    decreases s.len(),
{
    if s.len() > 0 {
        let rest = s.skip(1);
        assert(!rest.contains('\0')) by {
            if rest.contains('\0') {
                let i = choose|i: int| 0 <= i < rest.len() && rest[i] == '\0';
                assert(s[i + 1] == '\0');
            }
        }
        lemma_doubled_no_nul(rest, quote);
        let front = if s[0] == quote { seq![quote, quote] } else { seq![s[0]] };
        assert(s[0] != '\0');
        assert forall|i: int| 0 <= i < doubled(s, quote).len() implies doubled(s, quote)[i] != '\0' by {
            if i >= front.len() {
                assert(doubled(s, quote)[i] == doubled(rest, quote)[i - front.len()]);
                assert(doubled(rest, quote).contains(doubled(rest, quote)[i - front.len()]));
            }
        }
    }
}

/// Whether the quotes in `s` all stand in pairs, so that none of them ends a quoted
/// text that `s` is put into.
pub open spec fn quotes_paired(s: Seq<char>, quote: char) -> bool
    decreases s.len(),
{
    if s.len() == 0 {
        true
    } else if s[0] == quote {
        s.len() >= 2 && s[1] == quote && quotes_paired(s.skip(2), quote)
    } else {
        quotes_paired(s.skip(1), quote)
    }
}

/// No quote in an escaped name ends the quoted text that the name is put into.
pub proof fn escape_keeps_quotes_paired(s: Seq<char>, quote: char)
    ensures
        quotes_paired(escaped_for(s, quote), quote),
{
    lemma_doubled_paired(s, quote);
}

proof fn lemma_doubled_paired(s: Seq<char>, quote: char)
    ensures
        quotes_paired(doubled(s, quote), quote),
    decreases s.len(),
{
    if s.len() > 0 {
        let rest = s.skip(1);
        let d = doubled(s, quote);
        lemma_doubled_paired(rest, quote);
        if s[0] == quote {
            assert(d.skip(2) =~= doubled(rest, quote));
        } else {
            assert(d.skip(1) =~= doubled(rest, quote));
        }
    }
}

// ---------------------------------------------------------------------------
// Lists of columns
// ---------------------------------------------------------------------------
/// Each name escaped, between `before` and `after`.
pub open spec fn idents(names: Seq<Seq<char>>, before: Seq<char>, after: Seq<char>) -> Seq<Seq<char>> {
    names.map_values(|n: Seq<char>| before + escaped(n) + after)
}

/// A list of names: each escaped, between `before` and `after`, with `sep` between
/// them.
pub open spec fn ident_list(
    names: Seq<Seq<char>>,
    before: Seq<char>,
    after: Seq<char>,
    sep: Seq<char>,
) -> Seq<char> {
    joined(idents(names, before, after), sep)
}

/// A list of the columns' names: each escaped, between `before` and `after`, with
/// `sep` between them.
pub fn column_list(columns: &[ColumnInfo], before: &str, after: &str, sep: &str) -> (r: String)
    ensures
        r@ == ident_list(names(columns@), before@, after@, sep@),
{
    let mut parts: Vec<String> = Vec::new();
    let mut i: usize = 0;
    while i < columns.len()
        invariant
            i <= columns@.len(),
            texts(parts@) =~= idents(names(columns@), before@, after@).take(i as int),
        decreases columns@.len() - i,
    {
        push_part(
            &mut parts,
            before.to_owned().concat(escape_ident(columns[i].name.as_str()).as_str()).concat(after),
        );
        i = i + 1;
    }
    assert(texts(parts@) =~= idents(names(columns@), before@, after@));
    join(parts.as_slice(), sep)
}

/// The same text `count` times.
pub open spec fn copies(count: nat, part: Seq<char>) -> Seq<Seq<char>> {
    Seq::new(count, |i: int| part)
}

/// The same text `count` times, with a comma between.
pub open spec fn repeated(count: nat, part: Seq<char>) -> Seq<char> {
    joined(copies(count, part), ", "@)
}

/// The same text `count` times, with a comma between.
pub fn repeat_part(count: usize, part: &str) -> (r: String)
    ensures
        r@ == repeated(count as nat, part@),
{
    let mut parts: Vec<String> = Vec::new();
    let mut i: usize = 0;
    while i < count
        invariant
            i <= count,
            texts(parts@) =~= copies(count as nat, part@).take(i as int),
        decreases count - i,
    {
        push_part(&mut parts, part.to_owned());
        i = i + 1;
    }
    assert(texts(parts@) =~= copies(count as nat, part@));
    join(parts.as_slice(), ", ")
}

/// `num_slots` parameters.
pub fn binding_list(num_slots: usize) -> (r: String)
    ensures
        r@ == repeated(num_slots as nat, "?"@),
{
    repeat_part(num_slots, "?")
}

/// What stands in front of a name: the prefix, where there is one.
pub open spec fn prefix_of(prefix: Option<&str>) -> Seq<char> {
    match prefix {
        Some(p) => p@,
        None => ""@,
    }
}

/// The condition that every column is a parameter.
pub open spec fn where_text(names: Seq<Seq<char>>, prefix: Seq<char>) -> Seq<char> {
    ident_list(names, prefix + "\""@, "\" IS ?"@, " AND "@)
}

/// The columns as a list of identifiers.
pub open spec fn identifier_text(names: Seq<Seq<char>>, prefix: Seq<char>) -> Seq<char> {
    ident_list(names, prefix + "\""@, "\""@, ","@)
}

fn with_quote(prefix: Option<&str>) -> (r: String)
    ensures
        r@ == prefix_of(prefix) + "\""@,
{
    match prefix {
        Some(p) => p.to_owned().concat("\""),
        None => "".to_owned().concat("\""),
    }
}

/// The condition that every column, its name behind `prefix`, is a parameter.
pub fn where_list(columns: &[ColumnInfo], prefix: Option<&str>) -> (r: String)
    ensures
        r@ == where_text(names(columns@), prefix_of(prefix)),
{
    column_list(columns, with_quote(prefix).as_str(), "\" IS ?", " AND ")
}

/// The columns, their names behind `prefix`, as a list of identifiers.
pub fn as_identifier_list(columns: &[ColumnInfo], prefix: Option<&str>) -> (r: String)
    ensures
        r@ == identifier_text(names(columns@), prefix_of(prefix)),
{
    column_list(columns, with_quote(prefix).as_str(), "\"", ",")
}

// ---------------------------------------------------------------------------
// Database versions
// ---------------------------------------------------------------------------
/// Each table's highest local version.
pub open spec fn version_selects(tbl_names: Seq<Seq<char>>) -> Seq<Seq<char>> {
    idents(
        tbl_names,
        "SELECT max(db_version) as version FROM \""@,
        "\" WHERE site_id = 0"@,
    )
}

/// The query for the highest local version over those tables.
pub open spec fn db_version_union_sql(tbl_names: Seq<Seq<char>>) -> Seq<char> {
    if tbl_names.len() == 0 {
        "SELECT max(db_version) as version FROM crsql_db_versions WHERE site_id = ?"@
    } else {
        "SELECT max(version) as version FROM ("@ + joined(version_selects(tbl_names), " UNION ALL "@)
            + " UNION SELECT value as
        version FROM crsql_master WHERE key = 'pre_compact_dbversion')"@
    }
}

/// The query for the highest local version over those tables; over the site's own
/// record where there are no tables.
pub fn get_db_version_union_query(tbl_names: &[String]) -> (r: String)
    ensures
        r@ == db_version_union_sql(texts(tbl_names@)),
{
    if tbl_names.len() == 0 {
        return "SELECT max(db_version) as version FROM crsql_db_versions WHERE site_id = ?".to_owned();
    }
    let mut parts: Vec<String> = Vec::new();
    let mut i: usize = 0;
    while i < tbl_names.len()
        invariant
            i <= tbl_names@.len(),
            texts(parts@) =~= version_selects(texts(tbl_names@)).take(i as int),
        decreases tbl_names@.len() - i,
    {
        push_part(
            &mut parts,
            "SELECT max(db_version) as version FROM \"".to_owned().concat(
                escape_ident(tbl_names[i].as_str()).as_str(),
            ).concat("\" WHERE site_id = 0"),
        );
        i = i + 1;
    }
    assert(texts(parts@) =~= version_selects(texts(tbl_names@)));
    "SELECT max(version) as version FROM (".to_owned().concat(
        join(parts.as_slice(), " UNION ALL ").as_str(),
    ).concat(
        " UNION SELECT value as
        version FROM crsql_master WHERE key = 'pre_compact_dbversion')",
    )
}

// ---------------------------------------------------------------------------
// Row ids of the changes table
// ---------------------------------------------------------------------------
/// The rowid of a change: each table has a slab of rowids of its own.
pub open spec fn slab(idx: int, rowid: int) -> int {
    let id = idx * ROWID_SLAB_SIZE + rowid % (ROWID_SLAB_SIZE as int);
    if idx < 0 || id > i64::MAX {
        -1
    } else {
        id
    }
}

/// The rowid of a change from the table with index `idx`, -1 where there is no such
/// table or no such rowid.
pub fn slab_rowid(idx: i32, rowid: i64) -> (r: i64)
    ensures
        r == slab(idx as int, rowid as int),
{
    if idx < 0 {
        return -1;
    }
    let modulo: i64 = if rowid >= 0 {
        rowid % ROWID_SLAB_SIZE
    } else {
        let back: i64 = (-(rowid + 1)) % ROWID_SLAB_SIZE;
        ROWID_SLAB_SIZE - 1 - back
    };
    proof {
        if rowid < 0 {
            let m = ROWID_SLAB_SIZE as int;
            let x = rowid as int;
            let k = -(x + 1);
            assert(x % m == m - 1 - k % m) by (nonlinear_arith)
                requires
                    m == 10000000000000,
                    k == -(x + 1),
                    k >= 0,
            ;
        }
    }
    match (idx as i64).checked_mul(ROWID_SLAB_SIZE) {
        Some(product) => match product.checked_add(modulo) {
            Some(result) => result,
            None => -1,
        },
        None => -1,
    }
}

/// Rows of different tables never share a rowid, and no two rows of one table do
/// while their rowids stay within the slab.
pub proof fn slab_rowids_distinct(i: int, a: int, j: int, b: int)
    requires
        slab(i, a) >= 0,
        slab(i, a) == slab(j, b),
    ensures
        i == j,
        0 <= a < ROWID_SLAB_SIZE && 0 <= b < ROWID_SLAB_SIZE ==> a == b,
{
    let m = ROWID_SLAB_SIZE as int;
    assert(0 <= a % m < m);
    assert(0 <= b % m < m);
    assert(i * m + a % m == j * m + b % m);
    assert(i == j) by (nonlinear_arith)
        requires
            0 <= a % m < m,
            0 <= b % m < m,
            i * m + a % m == j * m + b % m,
    ;
}

// ---------------------------------------------------------------------------
// Default values
// ---------------------------------------------------------------------------
/// The query for a column's default value and whether it may be null.
pub const DFLT_VALUE_SQL: &'static str = "SELECT [dflt_value], [notnull] FROM pragma_table_info(?) WHERE name = ?";

/// Whether `s` is a text of at least two characters between two `quote`.
pub open spec fn quoted_by(s: Seq<char>, quote: char) -> bool {
    s.len() >= 2 && s[0] == quote && s.last() == quote
}

/// A default value as a column holds it: without the quotes of a string literal.
pub open spec fn unquoted(s: Seq<char>) -> Seq<char> {
    if quoted_by(s, '\'') {
        undoubled(s.subrange(1, s.len() - 1), '\'')
    } else if quoted_by(s, '"') {
        undoubled(s.subrange(1, s.len() - 1), '"')
    } else {
        s
    }
}

fn undouble(s: &[char], quote: char) -> (r: String)
    ensures
        r@ == undoubled(s@, quote),
{
    let mut r = String::new();
    let mut i: usize = 0;
    assert(s@.skip(0) =~= s@);
    assert(r@ + undoubled(s@, quote) =~= undoubled(s@, quote));
    while i < s.len()
        invariant
            i <= s@.len(),
            undoubled(s@, quote) == r@ + undoubled(s@.skip(i as int), quote),
        decreases s@.len() - i,
    {
        let c: char = s[i];
        let ghost before = r@;
        let ghost rest = s@.skip(i as int);
        push_char(&mut r, c);
        if c == quote && i < s.len() - 1 && s[i + 1] == quote {
            assert(rest.skip(2) =~= s@.skip(i + 2));
            assert(before + (seq![quote] + undoubled(rest.skip(2), quote)) =~= r@ + undoubled(
                rest.skip(2),
                quote,
            ));
            i = i + 2;
        } else {
            assert(rest.skip(1) =~= s@.skip(i + 1));
            assert(before + (seq![c] + undoubled(rest.skip(1), quote)) =~= r@ + undoubled(
                rest.skip(1),
                quote,
            ));
            i = i + 1;
        }
    }
    assert(r@ + undoubled(s@.skip(i as int), quote) =~= r@);
    r
}

/// A default value as a column holds it.
pub fn unquote(raw: &str) -> (r: String)
    ensures
        r@ == unquoted(raw@),
{
    let chars = to_chars(raw);
    let n: usize = chars.len();
    if n >= 2 {
        let first: char = chars[0];
        if (first == '\'' || first == '"') && chars[n - 1] == first {
            let inner = vstd::slice::slice_subrange(chars.as_slice(), 1, n - 1);
            return undouble(inner, first);
        }
    }
    raw.to_owned()
}

/// What [`get_dflt_value`] makes of the answer to [`DFLT_VALUE_SQL`]: the default
/// value, where there is one, and whether the column must not be null.
pub open spec fn dflt_value(row: Option<(Option<Seq<char>>, bool)>) -> Result<Option<Seq<char>>, ResultCode> {
    match row {
        None => Err(ResultCode::DONE),
        Some((None, false)) => Ok(Some("NULL"@)),
        Some((None, true)) => Ok(None),
        Some((Some(raw), _)) => Ok(Some(unquoted(raw))),
    }
}

/// The default value of a column, from the row that [`DFLT_VALUE_SQL`] gives: its
/// default and its `notnull` flag. A column that can be null has the default NULL. No
/// row is an error: every column has one.
pub fn get_dflt_value(row: Option<(Option<String>, i32)>) -> (r: Result<Option<String>, ResultCode>)
    ensures
        ({
            let seen = match row {
                Some((Some(raw), notnull)) => Some((Some(raw@), notnull != 0)),
                Some((None, notnull)) => Some((None, notnull != 0)),
                None => None,
            };
            match dflt_value(seen) {
                Ok(Some(v)) => r matches Ok(Some(got)) && got@ == v,
                Ok(None) => r matches Ok(None),
                Err(e) => r matches Err(code) && code == e,
            }
        }),
{
    match row {
        None => Err(ResultCode::DONE),
        Some((None, notnull)) => if notnull == 0 {
            Ok(Some("NULL".to_owned()))
        } else {
            Ok(None)
        },
        Some((Some(raw), _)) => Ok(Some(unquote(raw.as_str()))),
    }
}

/// A string literal for a default value stands for the text that was escaped into it.
pub proof fn unquote_literal(s: Seq<char>)
    ensures
        unquoted(seq!['\''] + doubled(s, '\'') + seq!['\'']) == s,
{
    let literal = seq!['\''] + doubled(s, '\'') + seq!['\''];
    assert(literal.subrange(1, literal.len() - 1) =~= doubled(s, '\''));
    undouble_double(s, '\'');
}

// ---------------------------------------------------------------------------
// The settings table
// ---------------------------------------------------------------------------
/// Reads the value of a key.
pub const GET_MASTER_VALUE_SQL: &'static str = "SELECT value FROM crsql_master WHERE key = ?";

/// Writes the value of a key.
pub const SET_MASTER_VALUE_SQL: &'static str = "INSERT OR REPLACE INTO crsql_master (key, value) VALUES (?, ?)";

/// Deletes a key.
pub const CLEAR_MASTER_KEY_SQL: &'static str = "DELETE FROM crsql_master WHERE key = ?";

/// How a count is found.
#[derive(Clone, Copy, PartialEq, Eq, Structural, Debug)]
pub enum CountStep {
    /// It is kept.
    Kept(i64),
    /// Count, and keep the count.
    Count,
}

/// How a count is found: it is made once, and then kept under a key.
pub fn get_or_count(kept: Option<i64>) -> (r: CountStep)
    ensures
        r == match kept {
            Some(n) => CountStep::Kept(n),
            None => CountStep::Count,
        },
{
    match kept {
        Some(n) => CountStep::Kept(n),
        None => CountStep::Count,
    }
}

/// The keys under which the mode of a table is kept.
pub open spec fn mode_keys(table: Seq<char>) -> Seq<Seq<char>> {
    seq!["use_rowid_"@ + table, "skip_hash_"@ + table, "v2_pks_"@ + table]
}

/// The keys under which the unfinished work on a table is kept.
pub open spec fn task_keys(table: Seq<char>) -> Seq<Seq<char>> {
    seq![
        "cleanup_v1_tables_"@ + table,
        "cleanup_v2_tables_"@ + table,
        "cleanup_remaining_"@ + table,
        "migration_v1_to_v2_migration_"@ + table,
        "migration_v1_to_v2_remaining_"@ + table,
    ]
}

/// A key of the settings table that belongs to a table.
pub fn table_key(prefix: &str, table: &str) -> (r: String)
    ensures
        r@ == prefix@ + table@,
{
    prefix.to_owned().concat(table)
}

/// The keys to clear so that nothing is left of a table's mode.
pub fn clear_crr_mode_flags(table: &str) -> (r: Vec<String>)
    ensures
        texts(r@) == mode_keys(table@),
{
    let mut keys: Vec<String> = Vec::new();
    keys.push(table_key("use_rowid_", table));
    keys.push(table_key("skip_hash_", table));
    keys.push(table_key("v2_pks_", table));
    assert(texts(keys@) =~= mode_keys(table@));
    keys
}

/// The keys to clear so that nothing is left of a table: its mode and the marks of
/// unfinished work.
pub fn clear_all_per_table_master_keys(table: &str) -> (r: Vec<String>)
    ensures
        texts(r@) == mode_keys(table@) + task_keys(table@),
{
    let mut keys: Vec<String> = clear_crr_mode_flags(table);
    let ghost modes = keys@;
    keys.push(table_key("cleanup_v1_tables_", table));
    keys.push(table_key("cleanup_v2_tables_", table));
    keys.push(table_key("cleanup_remaining_", table));
    keys.push(table_key("migration_v1_to_v2_migration_", table));
    keys.push(table_key("migration_v1_to_v2_remaining_", table));
    proof {
        assert(texts(modes) == mode_keys(table@));
        assert(modes.len() == 3) by {
            assert(texts(modes).len() == 3);
        }
        assert forall|i: int| 0 <= i < 3 implies #[trigger] keys@[i]@ == mode_keys(table@)[i] by {
            assert(texts(modes)[i] == modes[i]@);
        }
        assert(texts(keys@) =~= mode_keys(table@) + task_keys(table@));
    }
    keys
}

/// The rowids of the changes of a table start where those of the table before it end, in the order
/// of the rows.
pub proof fn slabs_lie_side_by_side(idx: int, rowid: int)
    requires
        0 <= idx < 900000,
        0 <= rowid < 10000000000000,
    ensures
        slab(idx, rowid) == idx * 10000000000000 + rowid,
        slab(0, rowid) == rowid,
        slab(-1, rowid) == -1,
        slab(idx + 1, 0) == slab(idx, 9999999999999) + 1,
{
    assert(rowid % 10000000000000 == rowid);
}

/// A column without a default has the default NULL where it can be null, and none where it cannot.
pub proof fn defaults_of_columns(raw: Seq<char>, not_null: bool)
    ensures
        dflt_value(None) is Err,
        dflt_value(Some((None, not_null))) == Ok::<Option<Seq<char>>, ResultCode>(
            if not_null {
                None
            } else {
                Some("NULL"@)
            },
        ),
        raw.len() > 0 && raw[0] != '\'' && raw[0] != '"' ==> dflt_value(Some((Some(raw), not_null))) == Ok::<
            Option<Seq<char>>,
            ResultCode,
        >(Some(raw)),
        raw.len() == 1 ==> dflt_value(Some((Some(raw), not_null))) == Ok::<Option<Seq<char>>, ResultCode>(Some(raw)),
{
}

} // verus!
