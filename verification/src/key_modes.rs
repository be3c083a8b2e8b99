//! The two ways in which the rows of a table are known, and how they are found again in
//! the table of live keys: what is created says what is read.

use crate::backfill_v2::pks_binds;
use crate::bootstrap_v2::{any_columns, key_type, pks_sql, tables_sql};
use crate::changes_vtab_write::{live_key_binds, row_id};
use crate::hash_pk::pk_hash;
use crate::local_writes::v2::{local_key_binds, local_row_id};
use crate::pack_columns::{pack, Val};
use crate::statement::plain;
use crate::tableinfo::{integer_pk, names, pks_of, Observed, TableInfo};
use crate::text::joined;
use crate::util::{escaped, idents};
use vstd::prelude::*;
use vstd::string::*;

verus! {

/// A column of a table that is created: its name, and the text that defines it.
pub struct Defined {
    pub name: Seq<char>,
    pub text: Seq<char>,
}

/// The columns that hold the primary key in the table of live keys: none where the key is
/// the rowid, the single one of integers as integers where there are no hashes, and else all
/// of them, whatever they hold.
pub open spec fn pk_columns(t: TableInfo) -> Seq<Defined> {
    if t.key_is_rowid {
        seq![]
    } else if t.skip_hash {
        seq![
            Defined {
                name: t.pks@[0].name@,
                text: "\""@ + escaped(t.pks@[0].name@) + "\" "@ + key_type(t.pks@[0].col_type@) + " NOT NULL"@,
            },
        ]
    } else {
        Seq::new(
            t.pks@.len(),
            |i: int|
                Defined {
                    name: t.pks@[i].name@,
                    text: "\""@ + escaped(t.pks@[i].name@) + "\" ANY NOT NULL"@,
                },
        )
    }
}

/// The hash of the primary key, where one is kept.
pub open spec fn hash_columns(t: TableInfo) -> Seq<Defined> {
    if t.skip_hash {
        seq![]
    } else {
        seq![Defined { name: "hashed_pk"@, text: "hashed_pk BLOB NOT NULL"@ }]
    }
}

/// The columns of the table of live keys: the key, the primary key, its hash and the
/// causal length.
pub open spec fn live_key_columns(t: TableInfo) -> Seq<Defined> {
    seq![Defined { name: "__crsql_key"@, text: "__crsql_key INTEGER PRIMARY KEY"@ }] + pk_columns(t)
        + hash_columns(t) + seq![
        Defined { name: "cl"@, text: "cl INTEGER NOT NULL DEFAULT 1 CHECK (cl % 2 = 1)"@ },
    ]
}

/// How many columns have that name.
pub open spec fn named(columns: Seq<Defined>, name: Seq<char>) -> nat
    decreases columns.len(),
{
    if columns.len() == 0 {
        0
    } else {
        named(columns.drop_last(), name) + if columns.last().name == name { 1nat } else { 0 }
    }
}

/// Whether a text is made of blanks and line ends.
pub open spec fn blank(s: Seq<char>) -> bool {
    forall|k: int| 0 <= k < s.len() ==> #[trigger] s[k] == ' ' || s[k] == '\n'
}

/// Whether a text is `part`, with blanks before it and `rest` behind it.
pub open spec fn starts_with_part(text: Seq<char>, gap: Seq<char>, part: Seq<char>, rest: Seq<char>) -> bool {
    blank(gap) && text == gap + part + rest
}

/// Whether a text defines those columns, in their order, one comma between two of them, and
/// nothing else.
pub open spec fn defines(text: Seq<char>, columns: Seq<Defined>) -> bool
    decreases columns.len(),
{
    if columns.len() == 0 {
        false
    } else {
        exists|gap: Seq<char>, rest: Seq<char>|
            #[trigger] starts_with_part(text, gap, columns[0].text, rest) && if columns.len() == 1 {
                blank(rest)
            } else {
                rest.len() > 0 && rest[0] == ',' && defines(rest.skip(1), columns.skip(1))
            }
    }
}

proof fn lemma_last(gap: Seq<char>, c: Defined, end: Seq<char>)
    requires
        blank(gap),
        blank(end),
    ensures
        defines(gap + c.text + end, seq![c]),
{
    assert(starts_with_part(gap + c.text + end, gap, seq![c][0].text, end));
}

proof fn lemma_first(gap: Seq<char>, c: Defined, rest: Seq<char>, columns: Seq<Defined>)
    requires
        blank(gap),
        defines(rest, columns),
    ensures
        defines(gap + c.text + ","@ + rest, seq![c] + columns),
{
    reveal_strlit(",");
    let all = seq![c] + columns;
    let text = gap + c.text + ","@ + rest;
    let behind = ","@ + rest;
    assert(text =~= gap + c.text + behind);
    assert(all[0] == c);
    assert(starts_with_part(text, gap, all[0].text, behind));
    assert(behind.skip(1) =~= rest);
    assert(all.skip(1) =~= columns);
    assert(columns.len() > 0);
}

spec fn texts_of(columns: Seq<Defined>) -> Seq<Seq<char>> {
    columns.map_values(|c: Defined| c.text)
}

proof fn lemma_joined(gap: Seq<char>, columns: Seq<Defined>, rest: Seq<char>, more: Seq<Defined>)
    requires
        blank(gap),
        columns.len() > 0,
        defines(rest, more),
    ensures
        defines(gap + joined(texts_of(columns), ", "@) + ","@ + rest, columns + more),
    decreases columns.len(),
{
    reveal_strlit(", ");
    reveal_strlit(",");
    let parts = texts_of(columns);
    let last = columns.last();
    assert(parts.last() == last.text);
    if columns.len() == 1 {
        lemma_first(gap, columns[0], rest, more);
        assert(columns =~= seq![columns[0]]);
    } else {
        let front = columns.drop_last();
        assert(texts_of(front) =~= parts.drop_last());
        let space = seq![' '];
        lemma_first(space, last, rest, more);
        lemma_joined(gap, front, space + last.text + ","@ + rest, seq![last] + more);
        assert(gap + joined(parts, ", "@) + ","@ + rest =~= gap + joined(texts_of(front), ", "@) + ","@ + (space
            + last.text + ","@ + rest));
        assert(columns + more =~= front + (seq![last] + more));
    }
}

proof fn lemma_named_add(a: Seq<Defined>, b: Seq<Defined>, name: Seq<char>)
    ensures
        named(a + b, name) == named(a, name) + named(b, name),
    decreases b.len(),
{
    if b.len() == 0 {
        assert(a + b =~= a);
    } else {
        lemma_named_add(a, b.drop_last(), name);
        assert((a + b).drop_last() =~= a + b.drop_last());
    }
}

proof fn lemma_named_none(a: Seq<Defined>, name: Seq<char>)
    requires
        forall|i: int| 0 <= i < a.len() ==> (#[trigger] a[i]).name != name,
    ensures
        named(a, name) == 0,
    decreases a.len(),
{
    if a.len() > 0 {
        assert forall|i: int| 0 <= i < a.drop_last().len() implies (#[trigger] a.drop_last()[i]).name != name by {
            assert(a.drop_last()[i] == a[i]);
        }
        lemma_named_none(a.drop_last(), name);
    }
}

proof fn lemma_named_one(c: Defined, name: Seq<char>)
    ensures
        named(seq![c], name) == (if c.name == name {
            1nat
        } else {
            0
        }),
{
    reveal_with_fuel(named, 2);
    assert(seq![c].drop_last() =~= seq![]);
}

/// The text between the brackets of the statement that creates the table of live keys.
pub open spec fn is_definition(sql: Seq<char>, t: TableInfo, body: Seq<char>) -> bool {
    sql == "CREATE TABLE IF NOT EXISTS \""@ + t.table() + "__crsql_v2_pks\" ("@ + body + ") STRICT;"@
}

#[verifier::opaque]
spec fn deep() -> Seq<char> {
    seq!['\n', ' ', ' ', ' ', ' ', ' ', ' ', ' ', ' ', ' ', ' ', ' ', ' ', ' ', ' ', ' ', ' ', ' ', ' ']
}

#[verifier::opaque]
spec fn deep_end() -> Seq<char> {
    seq!['\n', ' ', ' ', ' ', ' ', ' ', ' ', ' ', ' ', ' ', ' ', ' ', ' ', ' ', ' ', ' ', ' ']
}

#[verifier::opaque]
spec fn shallow() -> Seq<char> {
    seq!['\n', ' ', ' ', ' ', ' ', ' ', ' ', ' ', ' ', ' ', ' ', ' ', ' ', ' ', ' ']
}

#[verifier::opaque]
spec fn shallow_end() -> Seq<char> {
    seq!['\n', ' ', ' ', ' ', ' ', ' ', ' ', ' ', ' ', ' ', ' ', ' ', ' ']
}

proof fn lemma_bare_text()
    ensures
        "__crsql_v2_pks\" (
                  __crsql_key INTEGER PRIMARY KEY,
                  cl INTEGER NOT NULL DEFAULT 1 CHECK (cl % 2 = 1)
                ) STRICT;"@ == "__crsql_v2_pks\" ("@ + deep() + "__crsql_key INTEGER PRIMARY KEY"@ + ","@ + deep() + "cl INTEGER NOT NULL DEFAULT 1 CHECK (cl % 2 = 1)"@ + deep_end() + ") STRICT;"@,
{
    reveal(deep);
    reveal(deep_end);
    reveal_strlit("__crsql_v2_pks\" (
                  __crsql_key INTEGER PRIMARY KEY,
                  cl INTEGER NOT NULL DEFAULT 1 CHECK (cl % 2 = 1)
                ) STRICT;");
    reveal_strlit("__crsql_v2_pks\" (");
    assert("__crsql_v2_pks\" ("@ =~= seq!['_', '_', 'c', 'r', 's', 'q', 'l', '_', 'v', '2', '_', 'p', 'k', 's', '"', ' ', '(']);
    reveal_strlit("__crsql_key INTEGER PRIMARY KEY");
    assert("__crsql_key INTEGER PRIMARY KEY"@ =~= seq!['_', '_', 'c', 'r', 's', 'q', 'l', '_', 'k', 'e', 'y', ' ', 'I', 'N', 'T', 'E', 'G', 'E', 'R', ' ', 'P', 'R', 'I', 'M', 'A', 'R', 'Y', ' ', 'K', 'E', 'Y']);
    reveal_strlit(",");
    assert(","@ =~= seq![',']);
    reveal_strlit("cl INTEGER NOT NULL DEFAULT 1 CHECK (cl % 2 = 1)");
    assert("cl INTEGER NOT NULL DEFAULT 1 CHECK (cl % 2 = 1)"@ =~= seq!['c', 'l', ' ', 'I', 'N', 'T', 'E', 'G', 'E', 'R', ' ', 'N', 'O', 'T', ' ', 'N', 'U', 'L', 'L', ' ', 'D', 'E', 'F', 'A', 'U', 'L', 'T', ' ', '1', ' ', 'C', 'H', 'E', 'C', 'K', ' ', '(', 'c', 'l', ' ', '%', ' ', '2', ' ', '=', ' ', '1', ')']);
    reveal_strlit(") STRICT;");
    assert(") STRICT;"@ =~= seq![')', ' ', 'S', 'T', 'R', 'I', 'C', 'T', ';']);
    assert("__crsql_v2_pks\" (
                  __crsql_key INTEGER PRIMARY KEY,
                  cl INTEGER NOT NULL DEFAULT 1 CHECK (cl % 2 = 1)
                ) STRICT;"@ =~= "__crsql_v2_pks\" ("@ + deep() + "__crsql_key INTEGER PRIMARY KEY"@ + ","@ + deep() + "cl INTEGER NOT NULL DEFAULT 1 CHECK (cl % 2 = 1)"@ + deep_end() + ") STRICT;"@);
}

proof fn lemma_single_front()
    ensures
        "__crsql_v2_pks\" (
                  __crsql_key INTEGER PRIMARY KEY,
                  \""@ == "__crsql_v2_pks\" ("@ + deep() + "__crsql_key INTEGER PRIMARY KEY"@ + ","@ + deep() + "\""@,
{
    reveal(deep);
    reveal_strlit("__crsql_v2_pks\" (
                  __crsql_key INTEGER PRIMARY KEY,
                  \"");
    reveal_strlit("__crsql_v2_pks\" (");
    assert("__crsql_v2_pks\" ("@ =~= seq!['_', '_', 'c', 'r', 's', 'q', 'l', '_', 'v', '2', '_', 'p', 'k', 's', '"', ' ', '(']);
    reveal_strlit("__crsql_key INTEGER PRIMARY KEY");
    assert("__crsql_key INTEGER PRIMARY KEY"@ =~= seq!['_', '_', 'c', 'r', 's', 'q', 'l', '_', 'k', 'e', 'y', ' ', 'I', 'N', 'T', 'E', 'G', 'E', 'R', ' ', 'P', 'R', 'I', 'M', 'A', 'R', 'Y', ' ', 'K', 'E', 'Y']);
    reveal_strlit(",");
    assert(","@ =~= seq![',']);
    reveal_strlit("\"");
    assert("\""@ =~= seq!['"']);
    assert("__crsql_v2_pks\" (
                  __crsql_key INTEGER PRIMARY KEY,
                  \""@ =~= "__crsql_v2_pks\" ("@ + deep() + "__crsql_key INTEGER PRIMARY KEY"@ + ","@ + deep() + "\""@);
}

proof fn lemma_single_back()
    ensures
        " NOT NULL,
                  cl INTEGER NOT NULL DEFAULT 1 CHECK (cl % 2 = 1)
                ) STRICT;"@ == " NOT NULL"@ + ","@ + deep() + "cl INTEGER NOT NULL DEFAULT 1 CHECK (cl % 2 = 1)"@ + deep_end() + ") STRICT;"@,
{
    reveal(deep);
    reveal(deep_end);
    reveal_strlit(" NOT NULL,
                  cl INTEGER NOT NULL DEFAULT 1 CHECK (cl % 2 = 1)
                ) STRICT;");
    reveal_strlit(" NOT NULL");
    assert(" NOT NULL"@ =~= seq![' ', 'N', 'O', 'T', ' ', 'N', 'U', 'L', 'L']);
    reveal_strlit(",");
    assert(","@ =~= seq![',']);
    reveal_strlit("cl INTEGER NOT NULL DEFAULT 1 CHECK (cl % 2 = 1)");
    assert("cl INTEGER NOT NULL DEFAULT 1 CHECK (cl % 2 = 1)"@ =~= seq!['c', 'l', ' ', 'I', 'N', 'T', 'E', 'G', 'E', 'R', ' ', 'N', 'O', 'T', ' ', 'N', 'U', 'L', 'L', ' ', 'D', 'E', 'F', 'A', 'U', 'L', 'T', ' ', '1', ' ', 'C', 'H', 'E', 'C', 'K', ' ', '(', 'c', 'l', ' ', '%', ' ', '2', ' ', '=', ' ', '1', ')']);
    reveal_strlit(") STRICT;");
    assert(") STRICT;"@ =~= seq![')', ' ', 'S', 'T', 'R', 'I', 'C', 'T', ';']);
    assert(" NOT NULL,
                  cl INTEGER NOT NULL DEFAULT 1 CHECK (cl % 2 = 1)
                ) STRICT;"@ =~= " NOT NULL"@ + ","@ + deep() + "cl INTEGER NOT NULL DEFAULT 1 CHECK (cl % 2 = 1)"@ + deep_end() + ") STRICT;"@);
}

proof fn lemma_hash_text()
    ensures
        "__crsql_v2_pks\" (
              __crsql_key INTEGER PRIMARY KEY,
              hashed_pk BLOB NOT NULL,
              cl INTEGER NOT NULL DEFAULT 1 CHECK (cl % 2 = 1)
            ) STRICT;"@ == "__crsql_v2_pks\" ("@ + shallow() + "__crsql_key INTEGER PRIMARY KEY"@ + ","@ + shallow() + "hashed_pk BLOB NOT NULL"@ + ","@ + shallow() + "cl INTEGER NOT NULL DEFAULT 1 CHECK (cl % 2 = 1)"@ + shallow_end() + ") STRICT;"@,
{
    reveal(shallow);
    reveal(shallow_end);
    reveal_strlit("__crsql_v2_pks\" (
              __crsql_key INTEGER PRIMARY KEY,
              hashed_pk BLOB NOT NULL,
              cl INTEGER NOT NULL DEFAULT 1 CHECK (cl % 2 = 1)
            ) STRICT;");
    reveal_strlit("__crsql_v2_pks\" (");
    assert("__crsql_v2_pks\" ("@ =~= seq!['_', '_', 'c', 'r', 's', 'q', 'l', '_', 'v', '2', '_', 'p', 'k', 's', '"', ' ', '(']);
    reveal_strlit("__crsql_key INTEGER PRIMARY KEY");
    assert("__crsql_key INTEGER PRIMARY KEY"@ =~= seq!['_', '_', 'c', 'r', 's', 'q', 'l', '_', 'k', 'e', 'y', ' ', 'I', 'N', 'T', 'E', 'G', 'E', 'R', ' ', 'P', 'R', 'I', 'M', 'A', 'R', 'Y', ' ', 'K', 'E', 'Y']);
    reveal_strlit(",");
    assert(","@ =~= seq![',']);
    reveal_strlit("hashed_pk BLOB NOT NULL");
    assert("hashed_pk BLOB NOT NULL"@ =~= seq!['h', 'a', 's', 'h', 'e', 'd', '_', 'p', 'k', ' ', 'B', 'L', 'O', 'B', ' ', 'N', 'O', 'T', ' ', 'N', 'U', 'L', 'L']);
    reveal_strlit("cl INTEGER NOT NULL DEFAULT 1 CHECK (cl % 2 = 1)");
    assert("cl INTEGER NOT NULL DEFAULT 1 CHECK (cl % 2 = 1)"@ =~= seq!['c', 'l', ' ', 'I', 'N', 'T', 'E', 'G', 'E', 'R', ' ', 'N', 'O', 'T', ' ', 'N', 'U', 'L', 'L', ' ', 'D', 'E', 'F', 'A', 'U', 'L', 'T', ' ', '1', ' ', 'C', 'H', 'E', 'C', 'K', ' ', '(', 'c', 'l', ' ', '%', ' ', '2', ' ', '=', ' ', '1', ')']);
    reveal_strlit(") STRICT;");
    assert(") STRICT;"@ =~= seq![')', ' ', 'S', 'T', 'R', 'I', 'C', 'T', ';']);
    assert("__crsql_v2_pks\" (
              __crsql_key INTEGER PRIMARY KEY,
              hashed_pk BLOB NOT NULL,
              cl INTEGER NOT NULL DEFAULT 1 CHECK (cl % 2 = 1)
            ) STRICT;"@ =~= "__crsql_v2_pks\" ("@ + shallow() + "__crsql_key INTEGER PRIMARY KEY"@ + ","@ + shallow() + "hashed_pk BLOB NOT NULL"@ + ","@ + shallow() + "cl INTEGER NOT NULL DEFAULT 1 CHECK (cl % 2 = 1)"@ + shallow_end() + ") STRICT;"@);
}

proof fn lemma_all_front()
    ensures
        "__crsql_v2_pks\" (
              __crsql_key INTEGER PRIMARY KEY,
              "@ == "__crsql_v2_pks\" ("@ + shallow() + "__crsql_key INTEGER PRIMARY KEY"@ + ","@ + shallow(),
{
    reveal(shallow);
    reveal_strlit("__crsql_v2_pks\" (
              __crsql_key INTEGER PRIMARY KEY,
              ");
    reveal_strlit("__crsql_v2_pks\" (");
    assert("__crsql_v2_pks\" ("@ =~= seq!['_', '_', 'c', 'r', 's', 'q', 'l', '_', 'v', '2', '_', 'p', 'k', 's', '"', ' ', '(']);
    reveal_strlit("__crsql_key INTEGER PRIMARY KEY");
    assert("__crsql_key INTEGER PRIMARY KEY"@ =~= seq!['_', '_', 'c', 'r', 's', 'q', 'l', '_', 'k', 'e', 'y', ' ', 'I', 'N', 'T', 'E', 'G', 'E', 'R', ' ', 'P', 'R', 'I', 'M', 'A', 'R', 'Y', ' ', 'K', 'E', 'Y']);
    reveal_strlit(",");
    assert(","@ =~= seq![',']);
    assert("__crsql_v2_pks\" (
              __crsql_key INTEGER PRIMARY KEY,
              "@ =~= "__crsql_v2_pks\" ("@ + shallow() + "__crsql_key INTEGER PRIMARY KEY"@ + ","@ + shallow());
}

proof fn lemma_all_back()
    ensures
        ",
              hashed_pk BLOB NOT NULL,
              cl INTEGER NOT NULL DEFAULT 1 CHECK (cl % 2 = 1)
            ) STRICT;"@ == ","@ + shallow() + "hashed_pk BLOB NOT NULL"@ + ","@ + shallow() + "cl INTEGER NOT NULL DEFAULT 1 CHECK (cl % 2 = 1)"@ + shallow_end() + ") STRICT;"@,
{
    reveal(shallow);
    reveal(shallow_end);
    reveal_strlit(",
              hashed_pk BLOB NOT NULL,
              cl INTEGER NOT NULL DEFAULT 1 CHECK (cl % 2 = 1)
            ) STRICT;");
    reveal_strlit(",");
    assert(","@ =~= seq![',']);
    reveal_strlit("hashed_pk BLOB NOT NULL");
    assert("hashed_pk BLOB NOT NULL"@ =~= seq!['h', 'a', 's', 'h', 'e', 'd', '_', 'p', 'k', ' ', 'B', 'L', 'O', 'B', ' ', 'N', 'O', 'T', ' ', 'N', 'U', 'L', 'L']);
    reveal_strlit("cl INTEGER NOT NULL DEFAULT 1 CHECK (cl % 2 = 1)");
    assert("cl INTEGER NOT NULL DEFAULT 1 CHECK (cl % 2 = 1)"@ =~= seq!['c', 'l', ' ', 'I', 'N', 'T', 'E', 'G', 'E', 'R', ' ', 'N', 'O', 'T', ' ', 'N', 'U', 'L', 'L', ' ', 'D', 'E', 'F', 'A', 'U', 'L', 'T', ' ', '1', ' ', 'C', 'H', 'E', 'C', 'K', ' ', '(', 'c', 'l', ' ', '%', ' ', '2', ' ', '=', ' ', '1', ')']);
    reveal_strlit(") STRICT;");
    assert(") STRICT;"@ =~= seq![')', ' ', 'S', 'T', 'R', 'I', 'C', 'T', ';']);
    assert(",
              hashed_pk BLOB NOT NULL,
              cl INTEGER NOT NULL DEFAULT 1 CHECK (cl % 2 = 1)
            ) STRICT;"@ =~= ","@ + shallow() + "hashed_pk BLOB NOT NULL"@ + ","@ + shallow() + "cl INTEGER NOT NULL DEFAULT 1 CHECK (cl % 2 = 1)"@ + shallow_end() + ") STRICT;"@);
}

proof fn lemma_gaps()
    ensures
        blank(deep()),
        blank(deep_end()),
        blank(shallow()),
        blank(shallow_end()),
{
    reveal(deep);
    reveal(deep_end);
    reveal(shallow);
    reveal(shallow_end);
}

proof fn lemma_bare(t: TableInfo) -> (body: Seq<char>)
    requires
        t.pks@.len() > 0,
        t.skip_hash && t.key_is_rowid,
    ensures
        is_definition(pks_sql(t), t, body),
        defines(body, live_key_columns(t)),
{
    let key = Defined { name: "__crsql_key"@, text: "__crsql_key INTEGER PRIMARY KEY"@ };
    let cl = Defined { name: "cl"@, text: "cl INTEGER NOT NULL DEFAULT 1 CHECK (cl % 2 = 1)"@ };
    let head = "CREATE TABLE IF NOT EXISTS \""@ + t.table();
    lemma_gaps();
    let tail = deep() + cl.text + deep_end();
    lemma_last(deep(), cl, deep_end());
    lemma_bare_text();
    lemma_first(deep(), key, tail, seq![cl]);
    assert(live_key_columns(t) =~= seq![key] + seq![cl]);
    let body = deep() + key.text + ","@ + tail;
    assert(pks_sql(t) =~= head + "__crsql_v2_pks\" ("@ + body + ") STRICT;"@);
    body
}

proof fn lemma_single(t: TableInfo) -> (body: Seq<char>)
    requires
        t.pks@.len() > 0,
        t.skip_hash && !t.key_is_rowid,
    ensures
        is_definition(pks_sql(t), t, body),
        defines(body, live_key_columns(t)),
{
    let key = Defined { name: "__crsql_key"@, text: "__crsql_key INTEGER PRIMARY KEY"@ };
    let cl = Defined { name: "cl"@, text: "cl INTEGER NOT NULL DEFAULT 1 CHECK (cl % 2 = 1)"@ };
    let head = "CREATE TABLE IF NOT EXISTS \""@ + t.table();
    lemma_gaps();
    let tail = deep() + cl.text + deep_end();
    lemma_last(deep(), cl, deep_end());
    let pk = pk_columns(t)[0];
    lemma_single_front();
    lemma_single_back();
    lemma_first(deep(), pk, tail, seq![cl]);
    let inner = deep() + pk.text + ","@ + tail;
    lemma_first(deep(), key, inner, seq![pk] + seq![cl]);
    assert(live_key_columns(t) =~= seq![key] + (seq![pk] + seq![cl]));
    let body = deep() + key.text + ","@ + inner;
    assert(pks_sql(t) =~= head + "__crsql_v2_pks\" ("@ + body + ") STRICT;"@);
    body
}

proof fn lemma_hash(t: TableInfo) -> (body: Seq<char>)
    requires
        t.pks@.len() > 0,
        !t.skip_hash && t.key_is_rowid,
    ensures
        is_definition(pks_sql(t), t, body),
        defines(body, live_key_columns(t)),
{
    let key = Defined { name: "__crsql_key"@, text: "__crsql_key INTEGER PRIMARY KEY"@ };
    let cl = Defined { name: "cl"@, text: "cl INTEGER NOT NULL DEFAULT 1 CHECK (cl % 2 = 1)"@ };
    let head = "CREATE TABLE IF NOT EXISTS \""@ + t.table();
    lemma_gaps();
    let hash = Defined { name: "hashed_pk"@, text: "hashed_pk BLOB NOT NULL"@ };
    let tail = shallow() + cl.text + shallow_end();
    lemma_last(shallow(), cl, shallow_end());
    lemma_first(shallow(), hash, tail, seq![cl]);
    let behind = shallow() + hash.text + ","@ + tail;
    lemma_hash_text();
    lemma_first(shallow(), key, behind, seq![hash] + seq![cl]);
    assert(live_key_columns(t) =~= seq![key] + (seq![hash] + seq![cl]));
    let body = shallow() + key.text + ","@ + behind;
    assert(pks_sql(t) =~= head + "__crsql_v2_pks\" ("@ + body + ") STRICT;"@);
    body
}

proof fn lemma_all(t: TableInfo) -> (body: Seq<char>)
    requires
        t.pks@.len() > 0,
        !t.skip_hash && !t.key_is_rowid,
    ensures
        is_definition(pks_sql(t), t, body),
        defines(body, live_key_columns(t)),
{
    let key = Defined { name: "__crsql_key"@, text: "__crsql_key INTEGER PRIMARY KEY"@ };
    let cl = Defined { name: "cl"@, text: "cl INTEGER NOT NULL DEFAULT 1 CHECK (cl % 2 = 1)"@ };
    let head = "CREATE TABLE IF NOT EXISTS \""@ + t.table();
    lemma_gaps();
    let hash = Defined { name: "hashed_pk"@, text: "hashed_pk BLOB NOT NULL"@ };
    let tail = shallow() + cl.text + shallow_end();
    lemma_last(shallow(), cl, shallow_end());
    lemma_first(shallow(), hash, tail, seq![cl]);
    let behind = shallow() + hash.text + ","@ + tail;
    let columns = pk_columns(t);
    assert(texts_of(columns) =~= idents(names(t.pks@), "\""@, "\" ANY NOT NULL"@));
    assert(any_columns(t.pk_names()) == joined(texts_of(columns), ", "@));
    lemma_all_front();
    lemma_all_back();
    lemma_joined(shallow(), columns, behind, seq![hash] + seq![cl]);
    let inner = shallow() + joined(texts_of(columns), ", "@) + ","@ + behind;
    lemma_first(shallow(), key, inner, columns + (seq![hash] + seq![cl]));
    assert(live_key_columns(t) =~= seq![key] + (columns + (seq![hash] + seq![cl])));
    let body = shallow() + key.text + ","@ + inner;
    assert(pks_sql(t) =~= head + "__crsql_v2_pks\" ("@ + body + ") STRICT;"@);
    body
}

/// What is created for a table has among its statements the table of live keys, and that one has
/// exactly the columns of [`live_key_columns`].
pub proof fn live_keys_have_these_columns(t: TableInfo) -> (body: Seq<char>)
    requires
        t.pks@.len() > 0,
    ensures
        tables_sql(t)[4] == plain(pks_sql(t)),
        is_definition(pks_sql(t), t, body),
        defines(body, live_key_columns(t)),
{
    if t.skip_hash && t.key_is_rowid {
        lemma_bare(t)
    } else if t.skip_hash {
        lemma_single(t)
    } else if t.key_is_rowid {
        lemma_hash(t)
    } else {
        lemma_all(t)
    }
}

/// Whether what was counted in the table of live keys is what was created for `t`.
pub open spec fn counted(seen: Observed, t: TableInfo) -> bool {
    &&& seen.has_v2
    &&& seen.v2_pks_count matches Some(n)
    &&& n == live_key_columns(t).len()
    &&& seen.hashed_pk_count matches Some(h)
    &&& h == named(live_key_columns(t), "hashed_pk"@)
}

/// Whether the ways in which the rows of a table are known can be told from its table of live
/// keys: it has a primary key, a single column where no hashes are kept, and no column of
/// it that is copied has the name of the hash.
pub open spec fn can_be_told(t: TableInfo) -> bool {
    &&& t.pks@.len() > 0
    &&& t.skip_hash ==> t.pks@.len() == 1
    &&& forall|i: int| 0 <= i < t.pks@.len() ==> (#[trigger] t.pks@[i]).name@ != "hashed_pk"@
}

/// What is read off the table of live keys is what it was created from: from the number of its
/// columns, and of those that hold a hash, both ways in which rows are known come back.
pub proof fn key_modes_are_read_back(t: TableInfo, seen: Observed)
    requires
        can_be_told(t),
        counted(seen, t),
    ensures
        seen.skip_hash() == t.skip_hash,
        seen.key_is_rowid() == t.key_is_rowid,
{
    let name = "hashed_pk"@;
    let key = Defined { name: "__crsql_key"@, text: "__crsql_key INTEGER PRIMARY KEY"@ };
    let cl = Defined { name: "cl"@, text: "cl INTEGER NOT NULL DEFAULT 1 CHECK (cl % 2 = 1)"@ };
    reveal_strlit("hashed_pk");
    reveal_strlit("__crsql_key");
    reveal_strlit("cl");
    lemma_named_one(key, name);
    lemma_named_one(cl, name);
    lemma_named_none(pk_columns(t), name);
    lemma_named_add(seq![key], pk_columns(t), name);
    lemma_named_add(seq![key] + pk_columns(t), hash_columns(t), name);
    lemma_named_add(seq![key] + pk_columns(t) + hash_columns(t), seq![cl], name);
    assert("__crsql_key"@.len() != name.len());
    assert("cl"@.len() != name.len());
    if !t.skip_hash {
        lemma_named_one(hash_columns(t)[0], name);
        assert(hash_columns(t) =~= seq![hash_columns(t)[0]]);
    } else {
        assert(named(hash_columns(t), name) == 0);
    }
}

/// A table of live keys with a column more than the rowid needs was not made for a rowid.
pub proof fn copies_of_keys_are_seen(seen: Observed, n: i32)
    requires
        seen.has_v2,
        seen.v2_pks_count == Some(n),
    ensures
        n > 3 ==> !seen.key_is_rowid(),
        n == 3 ==> seen.key_is_rowid() == !seen.skip_hash(),
        n == 2 ==> seen.key_is_rowid() == seen.skip_hash(),
        n < 2 ==> !seen.key_is_rowid(),
{
}

/// The key of a row is its rowid only where the primary key is a single column of the type
/// `INTEGER`, with metadata as without: where metadata are created for a table as it was found, and
/// it is looked at again, the ways in which its rows are known are those of before.
pub proof fn key_modes_outlive_creation(before: Observed, t: TableInfo, after: Observed)
    requires
        !before.has_v2,
        after.columns@ == before.columns@,
        t.pks@ == pks_of(before.columns@),
        t.skip_hash == before.skip_hash(),
        t.key_is_rowid == before.key_is_rowid(),
        can_be_told(t),
        counted(after, t),
    ensures
        after.skip_hash() == before.skip_hash(),
        after.key_is_rowid() == before.key_is_rowid(),
        after.key_is_rowid() ==> pks_of(after.columns@).len() == 1,
        after.key_is_rowid() ==> pks_of(after.columns@)[0].col_type@ == "INTEGER"@,
        after.key_is_rowid() ==> integer_pk(pks_of(after.columns@)) is Some,
        after.skip_hash() ==> pks_of(after.columns@).len() == 1,
{
    key_modes_are_read_back(t, after);
}

/// Before there are metadata, and where the table of live keys cannot be asked, the key of a row is
/// its rowid exactly where that was asked for, the rowid can be read, and the primary key is a
/// single column of the type `INTEGER`. The settings go before the table's definition.
pub proof fn rowids_have_to_be_asked_for(seen: Observed)
    requires
        !seen.has_v2 || seen.v2_pks_count is None,
    ensures
        seen.key_is_rowid() <==> {
            &&& pks_of(seen.columns@).len() == 1
            &&& pks_of(seen.columns@)[0].col_type@ == "INTEGER"@
            &&& seen.alias_readable
            &&& seen.persisted_use_rowid == Some(1i32) || (seen.persisted_use_rowid is None && seen.directive_use_rowid
                == Some(true))
        },
{
}

/// A row is known in the same way whoever writes it: to find it, a write made here and a merge hand
/// over the same value, and to create its live key, a write made here, a merge and the filling of
/// metadata hand over the same values. An integer primary key is the rowid.
pub proof fn rows_are_known_in_one_way(t: TableInfo, rowid: i64, pks: Seq<Val>, cl: i64)
    requires
        pks.len() > 0,
        t.key_is_rowid && t.has_integer_pk ==> pks[0] == Val::Integer(rowid),
    ensures
        local_row_id(t, pks) == row_id(t, pks, pk_hash(pack(pks))),
        local_row_id(t, pks) == (if t.skip_hash {
            pks[0]
        } else {
            Val::Blob(pk_hash(pack(pks)))
        }),
        ({
            let key = if t.key_is_rowid {
                seq![Val::Integer(rowid)]
            } else {
                pks
            };
            let binds = if t.skip_hash {
                key
            } else {
                key.push(Val::Blob(pk_hash(pack(pks))))
            };
            &&& local_key_binds(t, pks, Some(rowid)) == Some(binds)
            &&& pks_binds(t.key_is_rowid, t.skip_hash, rowid, pks) == binds
            &&& live_key_binds(t, rowid, pks, pk_hash(pack(pks)), cl) == binds.push(Val::Integer(cl))
        }),
{
}

/// Only a row whose key is its rowid, and whose primary key is not the rowid, needs its rowid to be
/// told.
pub proof fn rowids_are_needed_only_for_rowid_keys(t: TableInfo, pks: Seq<Val>)
    ensures
        local_key_binds(t, pks, None) is None <==> t.key_is_rowid && !t.has_integer_pk,
        forall|rowid: i64| (#[trigger] local_key_binds(t, pks, Some(rowid))) is Some,
{
}

/// With metadata too, the key of a row is its rowid only where the primary key is a single column
/// of the type `INTEGER`: that holds of every table for which metadata are created while it holds
/// of it.
pub proof fn rowids_stay_integer_keys(t: TableInfo, seen: Observed)
    requires
        t.key_is_rowid ==> integer_pk(t.pks@) is Some,
        t.pks@ == pks_of(seen.columns@),
        can_be_told(t),
        counted(seen, t),
    ensures
        seen.key_is_rowid() ==> pks_of(seen.columns@).len() == 1 && pks_of(seen.columns@)[0].col_type@ == "INTEGER"@,
        pks_of(seen.columns@).len() != 1 ==> !seen.key_is_rowid(),
        pks_of(seen.columns@).len() > 1 ==> !seen.skip_hash(),
{
    key_modes_are_read_back(t, seen);
}

} // verus!
