use crsql::ext_data::ExtData;
use crsql::hash_pk::hash_pk_values;
use crsql::local_writes::after_insert::{
    after_insert, update_create_record, update_create_record_outcome, v1_insert_step, x_crsql_after_insert,
    InsertRoute, V1Insert,
};
use crsql::local_writes::insert_run::{InsertState, LocalInsert};
use crsql::local_writes::{bump_seq, mark_locally_inserted, mark_new_pk_row_created, update_inserted_clocks};
use crsql::merge_v2::RowRef;
use crsql::local_writes::v2::{
    ask_row_state, bind_pks_insert, bind_row_state_lookup, changed_col_id, changed_column, compute_hashed_pk,
    delete_time, insert_time, lookup_row_state, update_time, updated_key, v2_after_delete, v2_after_insert,
    v2_after_update, write_clock_entries, RowState,
};
use crsql::pack_columns::ColumnValue;
use crsql::result_code::{ResultCode, Stepped};
use crsql::statement::Statement;
use crsql::steps::{Action, Event};
use crsql::tableinfo::{ColumnInfo, SchemaVersion, TableInfo};
use crsql::v2_stmts::V2Stmts;
use std::collections::BTreeMap;

fn ext() -> ExtData {
    ExtData {
        db_version: -1,
        pending_db_version: -1,
        seq: 0,
        updated_table_infos_this_tx: 0,
        pragma_schema_version_for_table_infos: -1,
        pragma_data_version: -1,
        checked_config_this_tx: 0,
        merge_equal_values: 0,
        metadata_write_version: 1,
        metadata_use_version: 1,
        sync_log_version: 1,
        timestamp: 0,
        default_timestamp: 0,
        force_update_mode: 0,
        rows_impacted: 0,
    }
}

fn col(name: &str) -> ColumnInfo {
    ColumnInfo { cid: 0, name: name.to_string(), col_type: String::new(), pk: 0 }
}

fn table(key_is_rowid: bool, skip_hash: bool) -> TableInfo {
    TableInfo {
        tbl_name: "t".to_string(),
        pks: vec![col("k")],
        non_pks: vec![col("v"), col("w")],
        schema_version: SchemaVersion::V2AndV1,
        key_is_rowid,
        has_integer_pk: key_is_rowid,
        rowid_alias: "rowid".to_string(),
        skip_hash,
        skip_hash_pk_col: if skip_hash { "k".to_string() } else { String::new() },
        cl_cache: BTreeMap::new(),
    }
}

fn text(s: &str) -> ColumnValue {
    ColumnValue::Text(s.to_string())
}

fn num(i: i64) -> ColumnValue {
    ColumnValue::Integer(i)
}

fn shown(plan: &[Statement]) -> Vec<(&str, &[ColumnValue], bool)> {
    plan.iter().map(|s| (s.sql.as_str(), s.binds.as_slice(), s.sync)).collect()
}

#[test]
fn arguments_of_the_trigger() {
    let values = [text("t"), text("k"), num(5)];
    assert_eq!(x_crsql_after_insert(false, &values), (&values[1..], None));
    assert_eq!(x_crsql_after_insert(true, &values), (&values[1..2], Some(&num(5))));
}

#[test]
fn routes_of_inserts() {
    let t = table(false, false);
    let with = |write| ExtData { metadata_write_version: write, ..ext() };
    assert_eq!(after_insert(&mut with(2), &t, None), Ok(InsertRoute::Both));
    assert_eq!(after_insert(&mut with(3), &t, None), Ok(InsertRoute::V2));
    let r = table(true, true);
    assert_eq!(after_insert(&mut with(3), &r, Some(4)), Ok(InsertRoute::V2));
    assert_eq!(after_insert(&mut with(3), &r, None), Err("rowid-key table missing rowid value".to_string()));
    let range = "rowid out of cr-sqlite safe range [0, 2251799813685248)";
    assert_eq!(after_insert(&mut with(3), &r, Some(-1)), Err(range.to_string()));
    assert_eq!(after_insert(&mut with(3), &r, Some(1 << 51)), Err(range.to_string()));
    let mut e = with(1);
    assert_eq!(
        after_insert(&mut e, &t, None),
        Err("after_insert: timestamp not set \u{2014} call crsql_set_ts() first or set default-ts".to_string())
    );
    e.default_timestamp = 6;
    assert_eq!(after_insert(&mut e, &t, None), Ok(InsertRoute::V1));
    assert_eq!(e.timestamp, 6);
}

#[test]
fn inserts_in_the_first_format() {
    let mut t = table(false, false);
    assert_eq!(v1_insert_step(&t, true), V1Insert::SentinelAndCells);
    assert_eq!(v1_insert_step(&t, false), V1Insert::Cells);
    t.non_pks.clear();
    assert_eq!(v1_insert_step(&t, false), V1Insert::Row);
    let plan = update_create_record(&t, 4, 8, 3, "50");
    assert_eq!(
        shown(&plan),
        [(
            t.get_maybe_mark_locally_reinserted_stmt().as_str(),
            &[num(8), num(3), text("50"), num(4), text("-1")][..],
            false
        )]
    );
    assert_eq!(update_create_record_outcome(Stepped::Row(3)), Ok(Some(3)));
    assert_eq!(update_create_record_outcome(Stepped::Done), Ok(None));
    assert_eq!(
        update_create_record_outcome(Stepped::Other(ResultCode::ERROR)),
        Err("failed to step update_create_record_stmt")
    );
    let mut e = ExtData { seq: 3, ..ext() };
    assert_eq!(bump_seq(&mut e), 3);
    assert_eq!(e.seq, 4);
}

#[test]
fn states_of_local_rows() {
    assert_eq!(lookup_row_state(Some((Some(4), 3))), RowState::Alive(4, 3));
    assert_eq!(lookup_row_state(Some((None, 2))), RowState::Dead(2));
    assert_eq!(lookup_row_state(None), RowState::NotFound);
    let pks = [text("key")];
    let t = table(false, false);
    let s = V2Stmts::prepare(&t, 0);
    let hash = hash_pk_values(&pks).unwrap();
    assert_eq!(compute_hashed_pk(&t, &pks), Ok(Some(hash.clone())));
    let h = ColumnValue::Blob(hash.clone());
    let found = ask_row_state(&t, &pks).unwrap();
    assert_eq!(shown(&found), [(s.lookup_row_state(), &[h.clone(), h][..], false)]);
    assert_eq!(shown(&bind_row_state_lookup(&t, &pks, &Some(hash))), shown(&found));
    let k = table(false, true);
    let s = V2Stmts::prepare(&k, 0);
    assert_eq!(compute_hashed_pk(&k, &pks), Ok(None));
    assert_eq!(
        shown(&ask_row_state(&k, &pks).unwrap()),
        [(s.lookup_row_state(), &[text("key"), text("key")][..], false)]
    );
}

#[test]
fn times_of_writes() {
    let mut e = ext();
    let missing = |f: &str| format!("{}: timestamp not set \u{2014} call crsql_set_ts() first or set default-ts", f);
    assert_eq!(insert_time(&mut e), Err(missing("v2_after_insert")));
    assert_eq!(update_time(&mut e), Err(missing("v2_after_update")));
    assert_eq!(delete_time(&mut e), Err(missing("v2_after_delete")));
    e.default_timestamp = 7;
    assert_eq!(insert_time(&mut e), Ok(7));
    assert_eq!(e.timestamp, 7);
    e.timestamp = 9;
    assert_eq!(update_time(&mut e), Ok(9));
}

#[test]
fn a_new_row() {
    let t = table(false, false);
    let s = V2Stmts::prepare(&t, 0);
    let pks = [text("key")];
    let h = ColumnValue::Blob(hash_pk_values(&pks).unwrap());
    let mut e = ext();
    let plan = v2_after_insert(&mut e, &t, &pks, None, RowState::NotFound).ok().unwrap();
    assert!(plan.revive.is_empty());
    assert_eq!(plan.cl, 1);
    assert_eq!(shown(&[plan.create]), [(s.pks_insert(), &[text("key"), h, num(1)][..], false)]);
    assert_eq!(e.seq, 0);
    let clocks = write_clock_entries(&mut e, &t, 2, &[0, 3], 8, 50);
    assert_eq!(
        shown(&clocks),
        [
            (s.clock_insert(), &[num(8192), num(8), num(0), num(50)][..], false),
            (s.clock_insert(), &[num(8195), num(8), num(1), num(50)][..], false),
        ]
    );
    assert_eq!(e.seq, 2);
    let mut bare = table(false, false);
    bare.non_pks.clear();
    let clocks = write_clock_entries(&mut e, &bare, 2, &[], 8, 50);
    assert_eq!(clocks.len(), 1);
    assert_eq!(clocks[0].binds, [num(8192), num(8), num(2), num(50)]);
}

#[test]
fn a_row_that_comes_back() {
    let t = table(false, false);
    let s = V2Stmts::prepare(&t, 0);
    let pks = [text("key")];
    let h = ColumnValue::Blob(hash_pk_values(&pks).unwrap());
    let mut e = ext();
    let plan = v2_after_insert(&mut e, &t, &pks, None, RowState::Dead(2)).ok().unwrap();
    assert_eq!(plan.cl, 3);
    assert_eq!(e.seq, 1);
    assert_eq!(
        shown(&plan.revive),
        [
            (s.tomb_delete(), &[h.clone()][..], false),
            (s.tomb_pks_delete().unwrap(), &[h][..], false),
        ]
    );
    let err = v2_after_insert(&mut e, &t, &pks, None, RowState::Alive(2, 1)).err().unwrap();
    assert_eq!(
        err,
        "v2_after_insert: row already alive in v2_pks \u{2014} recursive_triggers may be disabled or data is corrupt"
    );
    assert_eq!(e.seq, 1);
}

#[test]
fn live_keys() {
    let pks = [num(5)];
    let mut r = table(true, true);
    assert_eq!(bind_pks_insert(&r, &pks, &None, Some(9)), Ok(vec![num(5)]));
    r.has_integer_pk = false;
    assert_eq!(bind_pks_insert(&r, &pks, &None, Some(9)), Ok(vec![num(9)]));
    assert_eq!(
        bind_pks_insert(&r, &pks, &None, None),
        Err("rowid-key table missing rowid for pks_insert".to_string())
    );
    let mut e = ext();
    assert_eq!(
        v2_after_insert(&mut e, &r, &pks, None, RowState::NotFound).err().unwrap(),
        "rowid-key table missing rowid for pks_insert"
    );
    let t = table(false, false);
    assert_eq!(
        bind_pks_insert(&t, &pks, &Some(vec![1]), None),
        Ok(vec![num(5), ColumnValue::Blob(vec![1])])
    );
}

#[test]
fn updates() {
    assert_eq!(updated_key(RowState::Alive(4, 1)), Ok(4));
    assert_eq!(
        updated_key(RowState::Dead(2)),
        Err("row is dead (in tombstones) \u{2014} cannot update a deleted row".to_string())
    );
    assert_eq!(updated_key(RowState::NotFound), Err("row not found in v2_pks for update".to_string()));
    let t = table(false, false);
    assert_eq!(changed_column(&t, 1), Ok("w"));
    assert_eq!(changed_column(&t, 2), Err("changed column index out of range".to_string()));
    assert_eq!(changed_col_id("w", Some(3)), Ok(3));
    assert_eq!(changed_col_id("w", None), Err("no col_id in v2_col_map for column w".to_string()));
    let s = V2Stmts::prepare(&t, 0);
    let mut e = ExtData { seq: 6, ..ext() };
    let plan = v2_after_update(&mut e, &t, 2, &[3, 0], 8, 50);
    assert_eq!(
        shown(&plan),
        [
            (s.clock_upsert(), &[num(8195), num(8195), num(8), num(6), num(50)][..], false),
            (s.clock_upsert(), &[num(8192), num(8192), num(8), num(7), num(50)][..], false),
        ]
    );
    assert_eq!(e.seq, 8);
}

#[test]
fn deletes() {
    let t = table(false, false);
    let s = V2Stmts::prepare(&t, 0);
    let pks = [text("key")];
    let h = ColumnValue::Blob(hash_pk_values(&pks).unwrap());
    let mut e = ExtData { seq: 6, ..ext() };
    let plan = v2_after_delete(&mut e, &t, &pks, RowState::Alive(2, 3), 8, 50).unwrap();
    assert_eq!(
        shown(&plan),
        [
            (s.pks_delete(), &[num(2)][..], false),
            (s.clock_delete_range(), &[num(8192), num(12287)][..], false),
            (s.tomb_insert(), &[num(0), num(8), num(6), h.clone(), num(4), num(50)][..], false),
            (s.tomb_pks_insert().unwrap(), &[h, text("key")][..], false),
        ]
    );
    assert_eq!(e.seq, 7);
    assert!(v2_after_delete(&mut e, &t, &pks, RowState::Dead(2), 8, 50).unwrap().is_empty());
    assert_eq!(e.seq, 7);
    let k = table(false, true);
    assert_eq!(v2_after_delete(&mut e, &k, &pks, RowState::Alive(2, 3), 8, 50).unwrap()[2].binds[3], text("key"));
}

#[test]
fn causal_lengths_alternate() {
    let t = table(false, true);
    let pks = [text("key")];
    let mut e = ext();
    let first = v2_after_insert(&mut e, &t, &pks, None, RowState::NotFound).ok().unwrap();
    let gone = v2_after_delete(&mut e, &t, &pks, RowState::Alive(1, first.cl), 1, 1).unwrap();
    assert_eq!(gone[2].binds[4], num(2));
    let back = v2_after_insert(&mut e, &t, &pks, None, RowState::Dead(2)).ok().unwrap();
    assert_eq!((first.cl, back.cl), (1, 3));
}

#[test]
fn clocks_of_inserted_rows() {
    let t = table(false, false);
    let n = ColumnValue::Integer;
    let mark = mark_new_pk_row_created(&t, 4, 9, 2, "50");
    assert_eq!(mark.sql, t.get_mark_locally_created_stmt());
    assert_eq!(mark.binds, [n(4), n(9), n(2), text("50")]);
    let mut e = ExtData { seq: 3, ..ext() };
    let updates = update_inserted_clocks(&mut e, &t, 4, 9, "50");
    let update = t.get_update_clock_stmt();
    assert_eq!(
        shown(&updates),
        [
            (update.as_str(), &[n(9), n(3), text("50"), n(4), text("v")][..], false),
            (update.as_str(), &[n(9), n(4), text("50"), n(4), text("w")][..], false),
        ]
    );
    assert_eq!(e, ExtData { seq: 5, ..ext() });
    let v = [n(4), text("v"), n(9), n(3), text("50")];
    let w = [n(4), text("w"), n(9), n(4), text("50")];
    let rest = |changed: &[i64]| mark_locally_inserted(&t, 4, 9, 3, "50", changed);
    let combo = t.get_combo_insert_clock_stmt();
    assert_eq!(shown(&rest(&[0, 0])), [(combo.as_str(), &[v.clone(), w.clone()].concat()[..], false)]);
    let insert = t.get_insert_clock_stmt();
    assert_eq!(shown(&rest(&[1, 0])), [(insert.as_str(), &w[..], false)]);
    assert_eq!(shown(&rest(&[0, 1])), [(insert.as_str(), &v[..], false)]);
    assert!(rest(&[1, 1]).is_empty());
}

fn row(n: i64) -> Event {
    Event::Int(Stepped::Row(n))
}

fn none() -> Event {
    Event::Int(Stepped::Done)
}

fn asked(action: Action) -> (String, Vec<ColumnValue>) {
    match action {
        Action::AskInt(s) | Action::AskState(s) | Action::AskInts(s) => (s.sql, s.binds),
        _ => panic!("no question"),
    }
}

fn ran(action: Action) -> Vec<Statement> {
    match action {
        Action::Run { plan, counts: false } | Action::CountEach(plan) => plan,
        _ => panic!("no plan"),
    }
}

fn failed(action: Action) -> (ResultCode, Option<String>) {
    match action {
        Action::Stop(Err(e)) => (e.code, e.message),
        _ => panic!("no failure"),
    }
}

fn positions(plan: &[Statement], at: usize) -> Vec<ColumnValue> {
    plan.iter().map(|s| s.binds[at].clone()).collect()
}

#[test]
fn an_insert_in_both_formats() {
    let t = table(false, false);
    let pks = [text("key")];
    let hash = hash_pk_values(&pks).unwrap();
    let r = RowRef { t: &t, pks: &pks, hashed_pk: &hash };
    let mut e = ExtData { seq: 6, default_timestamp: 50, ..ext() };
    let mut m = LocalInsert::new(&mut e, InsertRoute::Both, r, None).ok().unwrap();
    assert_eq!(e.timestamp, 50);
    asked(m.next(Event::Begin));
    assert_eq!(asked(m.next(Event::State(None))).0, t.get_select_key_stmt());
    assert!(matches!(m.next(none()), Action::AskVersion));
    let lookup = ask_row_state(&t, &pks).unwrap();
    assert_eq!(asked(m.next(row(9))), (lookup[0].sql.clone(), lookup[0].binds.clone()));
    assert_eq!(asked(m.next(Event::State(None))).0, V2Stmts::prepare(&t, 0).pks_insert());
    assert_eq!(asked(m.next(row(2))).0, V2Stmts::prepare(&t, 0).col_ids_all());
    let second = ran(m.next(Event::Ints(vec![0, 1])));
    assert_eq!(positions(&second, 2), [num(6), num(7)]);
    assert_eq!(m.ext.seq, 8);
    assert!(matches!(m.next(Event::Ran), Action::AskVersion));
    assert_eq!(m.ext.seq, 6);
    assert_eq!(asked(m.next(row(9))).0, t.get_insert_or_ignore_returning_key_stmt());
    let first = ran(m.next(row(4)));
    assert_eq!(positions(&first, 1), positions(&second, 2));
    assert_eq!(m.ext.seq, 8);
    let rest = ran(m.next(Event::Ints(vec![0, 0])));
    assert_eq!(rest[0].sql, t.get_combo_insert_clock_stmt());
    assert_eq!((rest[0].binds[3].clone(), rest[0].binds[8].clone()), (num(6), num(7)));
    assert!(matches!(m.next(Event::Ran), Action::Stop(Ok(()))));
    assert_eq!(m.state, InsertState::Over { known: None });
    m.put_back(&mut e);
    assert_eq!(e, ExtData { seq: 8, default_timestamp: 50, timestamp: 50, ..ext() });
}

#[test]
fn an_insert_of_a_row_that_comes_back() {
    let t = table(false, true);
    let pks = [text("key")];
    let r = RowRef { t: &t, pks: &pks, hashed_pk: &[] };
    let mut e = ExtData { seq: 6, timestamp: 50, ..ext() };
    let start = LocalInsert::new(&mut e, InsertRoute::V2, r, None).ok().unwrap();
    let mut m = start;
    assert!(matches!(m.next(Event::Begin), Action::AskVersion));
    asked(m.next(row(9)));
    assert_eq!(ran(m.next(Event::State(Some((None, 2))))).len(), 1);
    let (_, binds) = asked(m.next(Event::Ran));
    assert_eq!(binds, [text("key"), num(3)]);
    asked(m.next(row(2)));
    assert_eq!(positions(&ran(m.next(Event::Ints(vec![0, 1]))), 2), [num(7), num(8)]);
    assert!(matches!(m.next(Event::Ran), Action::Stop(Ok(()))));
    let mut m = LocalInsert { route: InsertRoute::V1, ..start };
    assert!(matches!(m.next(Event::Begin), Action::AskVersion));
    asked(m.next(row(9)));
    assert_eq!(asked(m.next(none())).0, t.get_select_key_stmt());
    assert_eq!(asked(m.next(row(4))).1, [num(9), num(6), text("50"), num(4), text("-1")]);
    let first = ran(m.next(row(3)));
    assert_eq!(positions(&first, 1), [num(7), num(8)]);
    assert_eq!(sql_of(&ran(m.next(Event::Ints(vec![1, 0])))), [t.get_insert_clock_stmt()]);
    m.next(Event::Ran);
    assert_eq!(m.state, InsertState::Over { known: Some((4, 3)) });
}

fn sql_of(plan: &[Statement]) -> Vec<String> {
    plan.iter().map(|s| s.sql.clone()).collect()
}

#[test]
fn inserts_that_fail() {
    let t = table(false, false);
    let pks = [text("key")];
    let r = RowRef { t: &t, pks: &pks, hashed_pk: &[1] };
    let no_time = "v2_after_insert: timestamp not set \u{2014} call crsql_set_ts() first or set default-ts";
    assert_eq!(LocalInsert::new(&mut ext(), InsertRoute::V2, r, None).err(), Some(no_time.to_string()));
    let e = ExtData { timestamp: 50, ..ext() };
    let with = |state| LocalInsert { row: r, rowid: None, route: InsertRoute::Both, ext: e, state };
    let text_of = |s: &str| Some(s.to_string());
    let mut m = with(InsertState::Start);
    asked(m.next(Event::Begin));
    assert_eq!(
        failed(m.next(Event::Failed(ResultCode::NOMEM))),
        (ResultCode::NOMEM, text_of("V1 to V2 hydration failed"))
    );
    assert_eq!(
        failed(with(InsertState::Version2 { start: None }).next(Event::Refused("x".to_string()))),
        (ResultCode::ERROR, text_of("failed to get next db_version"))
    );
    assert_eq!(
        failed(with(InsertState::Version1).next(Event::Refused("x".to_string()))),
        (ResultCode::ERROR, text_of("x"))
    );
    assert_eq!(
        failed(with(InsertState::OldKey { version: 9 }).next(none())),
        (ResultCode::DONE, text_of("failed getting or creating lookaside key"))
    );
    let sentinel = InsertState::Sentinel { key: 4, version: 9 };
    assert_eq!(
        failed(with(sentinel).next(Event::Int(Stepped::Other(ResultCode::ERROR)))),
        (ResultCode::ERROR, text_of("failed to step update_create_record_stmt"))
    );
    let updated = InsertState::Updated { key: 4, version: 9, seq: 0, cl: None };
    assert_eq!(failed(with(updated).next(Event::Ints(vec![]))), (ResultCode::MISUSE, None));
    assert!(matches!(with(updated).next(Event::Ints(vec![1, 1])), Action::Stop(Ok(()))));
    let full = LocalInsert { ext: ExtData { seq: i32::MAX - 1, ..e }, ..with(InsertState::Key { version: 9 }) };
    assert!(!full.can_take(&row(4)));
    assert!(with(InsertState::Key { version: 9 }).can_take(&row(4)));
}

#[test]
fn an_insert_of_a_bare_row() {
    let mut t = table(false, true);
    t.non_pks.clear();
    let pks = [text("key")];
    let r = RowRef { t: &t, pks: &pks, hashed_pk: &[] };
    let e = ExtData { timestamp: 50, seq: 6, ..ext() };
    let with = |state| LocalInsert { row: r, rowid: None, route: InsertRoute::Both, ext: e, state };
    let mut m = with(InsertState::NewKey { start: Some(6), version: 9 });
    assert_eq!(positions(&ran(m.next(row(2))), 2), [num(6)]);
    assert!(matches!(m.next(Event::Ran), Action::AskVersion));
    asked(m.next(row(9)));
    assert_eq!(asked(m.next(row(4))).1, [num(4), num(9), num(6), text("50")]);
    assert!(matches!(m.next(row(1)), Action::Stop(Ok(()))));
    assert_eq!((m.state, m.ext.seq), (InsertState::Over { known: Some((4, 1)) }, 7));
}
