use crsql::changes_vtab_write::{
    bury_local_row, change_stamp, hydrate_clocks, hydrate_dead_row, merge_cell, merge_delete,
    merge_sentinel_only_insert, new_row_statements, row_state_lookup, set_winner_clock, v1_merge_insert,
    v2_apply_value_change_colval, v2_ensure_alive_row_at_cl, v2_insert_pk_row, v2_merge_insert_tombstone, v2_to_v1_mirror_metadata, v2_write_cell, zero_fill, AliveStep,
    CellWrite, Change, Stamp, V1Step,
};
use crsql::merge_v1::{V1Merge, V1State};
use crsql::merge_v2::{
    CellsState, DeleteState, Hydrate, HydrateState, Mirror, MirrorState, RowRef, V2Cells, V2Delete,
};
use crsql::pack_columns::{pack_columns, ColumnType, ColumnValue};
use crsql::result_code::{ResultCode, Stepped};
use crsql::statement::Statement;
use crsql::steps::{Action, Event};
use crsql::tableinfo::{ColumnInfo, SchemaVersion, TableInfo};
use crsql::v2_stmts::V2Stmts;
use std::collections::BTreeMap;

fn col(name: &str) -> ColumnInfo {
    ColumnInfo { cid: 0, name: name.to_string(), col_type: String::new(), pk: 0 }
}

fn table(key_is_rowid: bool, skip_hash: bool) -> TableInfo {
    TableInfo {
        tbl_name: "t".to_string(),
        pks: vec![col("k")],
        non_pks: vec![col("v"), col("w")],
        schema_version: SchemaVersion::V2AndV1,
        key_is_rowid,
        has_integer_pk: key_is_rowid,
        rowid_alias: "rowid".to_string(),
        skip_hash,
        skip_hash_pk_col: if skip_hash { "k".to_string() } else { String::new() },
        cl_cache: BTreeMap::new(),
    }
}

fn text(s: &str) -> ColumnValue {
    ColumnValue::Text(s.to_string())
}

fn num(i: i64) -> ColumnValue {
    ColumnValue::Integer(i)
}

fn change(cid: &str, cl: i64) -> Change {
    Change {
        tbl: "t".to_string(),
        pk: pack_columns(&[text("key")]).unwrap(),
        cid: cid.to_string(),
        val: text("new"),
        val_blob: vec![],
        col_vrsn_type: ColumnType::Integer,
        col_vrsn: 7,
        col_vrsn_blob: vec![],
        db_vrsn: 8,
        site_id: vec![9, 9],
        cl,
        seq: 10,
        seq_blob: vec![],
        ts: 11,
    }
}

fn shown(plan: &[Statement]) -> Vec<(String, Vec<ColumnValue>, bool)> {
    plan.iter().map(|s| (s.sql.clone(), s.binds.clone(), s.sync)).collect()
}

fn asked(action: Action) -> (String, Vec<ColumnValue>) {
    match action {
        Action::AskInt(s) | Action::AskSite(s) | Action::AskOrder(s) => (s.sql, s.binds),
        Action::AskState(s) | Action::AskPks(s) | Action::AskDetail(s) => (s.sql, s.binds),
        _ => panic!("no question"),
    }
}

fn ran(action: Action) -> Vec<(String, Vec<ColumnValue>, bool)> {
    match action {
        Action::Run { plan, .. } => shown(&plan),
        _ => panic!("no plan"),
    }
}

fn counted(action: Action) -> bool {
    match action {
        Action::Run { counts, .. } => counts,
        _ => panic!("no plan"),
    }
}

fn done(action: Action) -> bool {
    matches!(action, Action::Stop(Ok(())))
}

fn failed(action: Action) -> (ResultCode, Option<String>) {
    match action {
        Action::Stop(Err(e)) => (e.code, e.message),
        _ => panic!("no failure"),
    }
}

fn row(n: i64) -> Event {
    Event::Int(Stepped::Row(n))
}

fn none() -> Event {
    Event::Int(Stepped::Done)
}

#[test]
fn merge_of_a_cell_that_wins() {
    let t = table(false, false);
    let c = change("v", 1);
    let pks = [text("key")];
    let mut m = V1Merge::new(&t, &c, &pks, 1);
    assert_eq!(asked(m.next(Event::Begin)), (t.get_select_key_stmt(), vec![text("key")]));
    assert_eq!(asked(m.next(row(4))), (t.get_local_cl_stmt(), vec![num(4), num(4)]));
    assert_eq!(asked(m.next(row(1))), (t.get_col_version_stmt(), vec![num(4), text("v")]));
    assert_eq!(asked(m.next(row(7))), (t.get_col_value_stmt("v").unwrap(), vec![text("key")]));
    assert_eq!(asked(m.next(Event::Order(Some(0)))), (t.get_col_site_id_stmt(), vec![num(4), text("v")]));
    assert!(matches!(m.next(Event::Site(Some(vec![9, 8]))), Action::AskOrdinal));
    let stamp = change_stamp(&c, Some(3));
    assert_eq!(ran(m.next(row(3))), shown(&merge_cell(&t, 4, &pks, "v", &c.val, stamp).unwrap()));
    assert!(done(m.next(Event::Ran)));
    assert_eq!(m.state, V1State::Over { found: Some(1) });
}

#[test]
fn merge_of_a_cell_that_loses() {
    let t = table(false, false);
    let c = change("v", 1);
    let pks = [text("key")];
    let value = V1State::Value { key: 4, cl: 1 };
    let mut m = V1Merge { state: value, ..V1Merge::new(&t, &c, &pks, 0) };
    assert!(done(m.next(Event::Order(Some(0)))));
    let version = V1State::Version { key: 4, cl: 1 };
    let mut m = V1Merge { state: version, ..V1Merge::new(&t, &c, &pks, 0) };
    assert!(done(m.next(row(8))));
    let site = V1State::Site { key: 4, cl: 1 };
    let mut m = V1Merge { state: site, ..V1Merge::new(&t, &c, &pks, 1) };
    assert!(done(m.next(Event::Site(Some(vec![9, 9])))));
}

#[test]
fn merge_into_a_new_row() {
    let t = table(false, false);
    let c = change("v", 1);
    let pks = [text("key")];
    let mut m = V1Merge::new(&t, &c, &pks, 1);
    m.next(Event::Begin);
    assert_eq!(asked(m.next(none())), (t.get_insert_key_stmt(), vec![text("key")]));
    m.next(row(4));
    assert!(matches!(m.next(none()), Action::AskOrdinal));
    let action = m.next(row(3));
    assert!(counted(action));
    assert_eq!(m.state, V1State::Last { cl: 0 });
}

#[test]
fn merge_of_whole_rows() {
    let mut t = table(false, false);
    t.set_cl(4, 2);
    let pks = [text("key")];
    let stamp = |c: &Change| change_stamp(c, Some(3));
    let c = change("-1", 3);
    let mut m = V1Merge { state: V1State::Ordinal { key: 4, cl: 2 }, ..V1Merge::new(&t, &c, &pks, 0) };
    assert_eq!(ran(m.next(row(3))), shown(&merge_sentinel_only_insert(&t, 4, &pks, stamp(&c))));
    assert!(done(m.next(Event::Ran)));
    let c = change("-1", 4);
    let mut m = V1Merge { state: V1State::Ordinal { key: 4, cl: 3 }, ..V1Merge::new(&t, &c, &pks, 0) };
    assert_eq!(ran(m.next(row(3))), shown(&merge_delete(&t, 4, &pks, stamp(&c))));
    assert!(done(m.next(Event::Ran)));
    let c = change("-1", 2);
    let mut m = V1Merge { state: V1State::Key, ..V1Merge::new(&t, &c, &pks, 1) };
    asked(m.next(row(4)));
    assert!(matches!(m.next(Event::Site(Some(vec![1]))), Action::AskOrdinal));
    assert_eq!(ran(m.next(row(3))), shown(&set_winner_clock(&t, 4, "-1", stamp(&c))));
    let c = change("v", 1);
    let mut m = V1Merge { state: V1State::Key, ..V1Merge::new(&t, &c, &pks, 1) };
    assert!(done(m.next(row(4))));
    assert_eq!(m.state, V1State::Over { found: Some(2) });
}

#[test]
fn merge_into_an_older_life() {
    let t = table(false, false);
    let c = change("v", 3);
    let pks = [text("key")];
    let mut m = V1Merge { state: V1State::Ordinal { key: 4, cl: 2 }, ..V1Merge::new(&t, &c, &pks, 0) };
    let stamp = change_stamp(&c, Some(3));
    let again = Stamp { col_vrsn: 3, ..stamp };
    assert_eq!(ran(m.next(row(3))), shown(&merge_sentinel_only_insert(&t, 4, &pks, again)));
    assert_eq!(ran(m.next(Event::Ran)), shown(&merge_cell(&t, 4, &pks, "v", &c.val, stamp).unwrap()));
}

#[test]
fn merges_that_fail() {
    let t = table(false, false);
    let pks = [text("key")];
    let c = change("x", 1);
    let with = |state| V1Merge { state, ..V1Merge::new(&t, &c, &pks, 1) };
    let at = |key: i64| V1State::Version { key, cl: 1 };
    assert_eq!(failed(with(at(4)).next(row(7))), (ResultCode::ERROR, None));
    assert_eq!(
        failed(with(at(4)).next(Event::Int(Stepped::Other(ResultCode::NOMEM)))),
        (ResultCode::NOMEM, Some("Bad return code when selecting local column version".to_string()))
    );
    let mut unknown = with(at(4));
    assert!(matches!(unknown.next(row(6)), Action::AskOrdinal));
    assert_eq!(failed(unknown.next(row(3))), (ResultCode::ERROR, None));
    let value = V1State::Value { key: 4, cl: 1 };
    assert_eq!(
        failed(with(value).next(Event::Order(None))),
        (ResultCode::ERROR, Some("could not find row to merge with for tbl t".to_string()))
    );
    let site = V1State::Site { key: 4, cl: 1 };
    assert_eq!(
        failed(with(site).next(Event::Site(None))).1.unwrap(),
        "could not find site_id for previous change, cr-sqlite clock table might be corrupt for tbl t"
    );
    assert_eq!(
        failed(with(site).next(Event::Failed(ResultCode::ABORT))),
        (ResultCode::ABORT, Some("Bad return code when selecting local column site_id".to_string()))
    );
    assert_eq!(failed(with(V1State::NewKey).next(none())), (ResultCode::DONE, None));
    assert_eq!(failed(with(V1State::Start).next(Event::Ran)), (ResultCode::MISUSE, None));
}

#[test]
fn metadata_of_a_live_row() {
    let t = table(true, false);
    let s = V2Stmts::prepare(&t, 1);
    let pks = [text("key")];
    let hash = [1u8];
    let r = RowRef { t: &t, pks: &pks, hashed_pk: &hash };
    let mut h = Hydrate::new(r, 50);
    let q = row_state_lookup(&t, &pks, &hash);
    assert_eq!(asked(h.next(Event::Begin)), (q[0].sql.clone(), q[0].binds.clone()));
    assert_eq!(asked(h.next(Event::State(None))), (t.get_select_key_stmt(), vec![text("key")]));
    assert_eq!(asked(h.next(row(4))).0, s.v1_sentinel_lookup().unwrap());
    assert_eq!(asked(h.next(none())).0, s.v1_any_clock_lookup().unwrap());
    assert_eq!(asked(h.next(row(1))).0, s.base_lookup_rowid().unwrap());
    let k = v2_insert_pk_row(&t, 6, &pks, &hash, 1);
    assert_eq!(asked(h.next(row(6))), (k[0].sql.clone(), k[0].binds.clone()));
    assert_eq!(ran(h.next(row(6))), shown(&hydrate_clocks(&t, 6, 50, 4)));
    assert!(done(h.next(Event::Ran)));
    assert_eq!(h.state, HydrateState::Over);
}

#[test]
fn metadata_of_other_rows() {
    let t = table(false, false);
    let s = V2Stmts::prepare(&t, 1);
    let pks = [text("key")];
    let hash = [1u8];
    let r = RowRef { t: &t, pks: &pks, hashed_pk: &hash };
    let with = |state| Hydrate { row: r, now: 50, state };
    assert!(done(with(HydrateState::State).next(Event::State(Some((None, 2))))));
    assert!(done(with(HydrateState::State).next(Event::State(Some((Some(1), 1))))));
    assert!(done(with(HydrateState::Key).next(none())));
    assert!(done(with(HydrateState::Clock { key: 4 }).next(none())));
    let mut dead = with(HydrateState::Sentinel { key: 4 });
    assert_eq!(asked(dead.next(row(2))).0, s.v1_sentinel_detail().unwrap());
    assert_eq!(
        ran(dead.next(Event::Detail(Some((6, 8, 10, 0))))),
        shown(&hydrate_dead_row(&t, &pks, &hash, 2, 6, 8, 10, 0, 50))
    );
    let mut again = with(HydrateState::Sentinel { key: 4 });
    let k = v2_insert_pk_row(&t, 0, &pks, &hash, 3);
    assert_eq!(asked(again.next(row(3))), (k[0].sql.clone(), k[0].binds.clone()));
    assert_eq!(failed(Hydrate::new(r, 0).next(Event::Begin)), (ResultCode::ERROR, None));
}

fn stamp() -> Stamp {
    Stamp { col_vrsn: 7, db_vrsn: 8, ordinal: None, seq: 10, ts: 11 }
}

#[test]
fn deletion_of_a_row() {
    let t = table(false, false);
    let s = V2Stmts::prepare(&t, 1);
    let pks = [text("key")];
    let hash = [1u8];
    let site = [9u8];
    let row_ref = RowRef { t: &t, pks: &pks, hashed_pk: &hash };
    let start = V2Delete {
        row: row_ref,
        is_hash_tombstone: false,
        cl: 2,
        stamp: stamp(),
        site_id: &site,
        merge_equal: 1,
        state: DeleteState::Start,
    };
    let mut d = start;
    asked(d.next(Event::Begin));
    assert!(matches!(d.next(Event::State(Some((Some(4), 1)))), Action::AskOrdinal));
    let tomb = v2_merge_insert_tombstone(&t, false, &pks, &hash, 2, 1, stamp(), 3, &site, 1).unwrap();
    assert_eq!(ran(d.next(row(3))), shown(&tomb));
    assert_eq!(asked(d.next(Event::Ran)), (s.pk_lookup_by_key().to_string(), vec![num(4)]));
    assert_eq!(ran(d.next(Event::Pks(Some(vec![text("key")])))), shown(&bury_local_row(&t, 4, &pks, &hash)));
    assert!(done(d.next(Event::Ran)));
    let mut stale = V2Delete { state: DeleteState::State, ..start };
    assert!(done(stale.next(Event::State(Some((Some(4), 3))))));
    let mut unknown = V2Delete { site_id: &[], state: DeleteState::State, ..start };
    ran(unknown.next(Event::State(None)));
    assert!(done(unknown.next(Event::Ran)));
    let k = table(false, true);
    let other = RowRef { t: &k, pks: &[], hashed_pk: &hash };
    let mut by_hash = V2Delete { row: other, is_hash_tombstone: true, ..start };
    assert!(done(by_hash.next(Event::Begin)));
}

fn cells() -> Vec<CellWrite> {
    vec![
        CellWrite { col_name: "v".to_string(), col_vrsn: 7, seq: 10, val: text("a") },
        CellWrite { col_name: "w".to_string(), col_vrsn: 6, seq: 11, val: text("b") },
    ]
}

#[test]
fn cells_of_a_new_row() {
    let t = table(false, false);
    let s = V2Stmts::prepare(&t, 1);
    let pks = [text("key")];
    let hash = [1u8];
    let site = [9u8];
    let cells = cells();
    let row_ref = RowRef { t: &t, pks: &pks, hashed_pk: &hash };
    let start = V2Cells {
        row: row_ref,
        cells: &cells,
        cl: 3,
        db_vrsn: 8,
        ts: 11,
        site_id: &site,
        merge_equal: 1,
        state: CellsState::Start,
    };
    let mut c = start;
    assert!(matches!(c.next(Event::Begin), Action::AskOrdinal));
    asked(c.next(row(3)));
    assert_eq!(
        ran(c.next(Event::State(Some((None, 2))))),
        shown(&new_row_statements(&t, AliveStep::Revive, &pks, &hash))
    );
    assert!(matches!(c.next(Event::Ran), Action::AskRowid));
    let key = v2_insert_pk_row(&t, 5, &pks, &hash, 3);
    assert_eq!(asked(c.next(row(5))), (key[0].sql.clone(), key[0].binds.clone()));
    assert_eq!(ran(c.next(row(2))), shown(&zero_fill(&t, 2, 3, 8)));
    assert_eq!(asked(c.next(Event::Ran)), (s.col_id_lookup().to_string(), vec![text("v")]));
    let clock = v2_apply_value_change_colval(&t, 2, Some(0), &cells[0], &pks, 8, 3, &site, 11, 1).unwrap().unwrap();
    assert_eq!(asked(c.next(row(0))), (clock[0].sql.clone(), clock[0].binds.clone()));
    assert_eq!(ran(c.next(row(8192))), shown(&v2_write_cell(&t, 2, &cells[0], &pks)));
    assert_eq!(asked(c.next(Event::Ran)).1, [text("w")]);
    asked(c.next(row(1)));
    assert!(done(c.next(none())));
    assert_eq!(c.state, CellsState::Over);
    let state = CellsState::State { ordinal: 3 };
    let mut stale = V2Cells { state, ..start };
    assert!(done(stale.next(Event::State(Some((None, 4))))));
    let mut there = V2Cells { state, ..start };
    assert_eq!(asked(there.next(Event::State(Some((Some(2), 3))))).1, [text("v")]);
    assert_eq!(asked(there.next(none())).1, [text("w")]);
    let mut local = V2Cells { site_id: &[], ..start };
    asked(local.next(Event::Begin));
    assert_eq!(local.state, CellsState::State { ordinal: 0 });
}

#[test]
fn impact_of_merges() {
    let t = table(false, false);
    let pks = [text("key")];
    let hash = [1u8];
    let cells = cells();
    let row_ref = RowRef { t: &t, pks: &pks, hashed_pk: &hash };
    let delete = |state| V2Delete {
        row: row_ref,
        is_hash_tombstone: false,
        cl: 2,
        stamp: stamp(),
        site_id: &[],
        merge_equal: 1,
        state,
    };
    assert!(!counted(delete(DeleteState::State).next(Event::State(Some((Some(4), 1))))));
    assert!(counted(delete(DeleteState::Pks { live: 4 }).next(Event::Pks(None))));
    let write = |state| V2Cells {
        row: row_ref,
        cells: &cells,
        cl: 1,
        db_vrsn: 8,
        ts: 11,
        site_id: &[],
        merge_equal: 1,
        state,
    };
    assert!(counted(write(CellsState::State { ordinal: 0 }).next(Event::State(None))));
    assert!(!counted(write(CellsState::NewKey { ordinal: 0 }).next(row(2))));
    assert!(counted(write(CellsState::Clock { ordinal: 0, key: 2, i: 0 }).next(row(8192))));
}

#[test]
fn copies_of_rows() {
    let t = table(false, false);
    let s = V2Stmts::prepare(&t, 1);
    let pks = [text("key")];
    let hash = [1u8];
    let mut m = Mirror::new(RowRef { t: &t, pks: &pks, hashed_pk: &hash }, true, 50);
    asked(m.next(Event::Begin));
    assert_eq!(asked(m.next(Event::State(Some((Some(2), 3))))).0, t.get_select_key_stmt());
    assert_eq!(asked(m.next(none())), (t.get_insert_key_stmt(), vec![text("key")]));
    assert_eq!(ran(m.next(row(4))), shown(&v2_to_v1_mirror_metadata(&t, 4, &pks, &hash, Some(2), 3, 50)));
    assert!(done(m.next(Event::Ran)));
    assert_eq!(m.state, MirrorState::Over);
    let mut m = Mirror::new(RowRef { t: &t, pks: &[], hashed_pk: &hash }, false, 50);
    asked(m.next(Event::Begin));
    let h = ColumnValue::Blob(vec![1]);
    assert_eq!(
        asked(m.next(Event::State(Some((None, 2))))),
        (s.lookup_pks_tomb().unwrap().to_string(), vec![h.clone()])
    );
    assert_eq!(asked(m.next(Event::Pks(None))), (s.lookup_pks_alive().unwrap().to_string(), vec![h]));
    assert_eq!(asked(m.next(Event::Pks(Some(vec![text("key")])))).1, [text("key")]);
    assert_eq!(ran(m.next(row(4))), shown(&v2_to_v1_mirror_metadata(&t, 4, &pks, &hash, None, 2, 50)));
    let mut m = Mirror::new(RowRef { t: &t, pks: &[], hashed_pk: &hash }, false, 50);
    asked(m.next(Event::Begin));
    assert!(done(m.next(Event::State(None))));
    let mut m = Mirror::new(RowRef { t: &t, pks: &[], hashed_pk: &hash }, true, 50);
    asked(m.next(Event::Begin));
    assert!(done(m.next(Event::State(Some((None, 2))))));
}

#[test]
fn causal_lengths_outlast_failures() {
    let t = table(false, false);
    let c = change("v", 1);
    let pks = [text("key")];
    let mut m = V1Merge::new(&t, &c, &pks, 1);
    m.next(Event::Begin);
    m.next(row(4));
    m.next(row(1));
    assert_eq!(m.state, V1State::Version { key: 4, cl: 1 });
    assert_eq!(failed(m.next(Event::Failed(ResultCode::NOMEM))), (ResultCode::NOMEM, None));
    assert_eq!(m.state, V1State::Over { found: Some(1) });
    let mut early = V1Merge::new(&t, &c, &pks, 1);
    early.next(Event::Begin);
    early.next(row(4));
    assert_eq!(failed(early.next(Event::Failed(ResultCode::NOMEM))), (ResultCode::NOMEM, None));
    assert_eq!(early.state, V1State::Over { found: None });
}

#[test]
fn lives_in_both_formats() {
    let life = |cl: i64| if cl % 2 == 1 { Some(8) } else { None };
    for cl in 1..6 {
        for local in 0..6 {
            let cell = v1_merge_insert(cl, local, "v", 0);
            if cl % 2 == 0 {
                let delete = matches!(cell, V1Step::Delete);
                assert_eq!(delete, cl > local);
                continue;
            }
            match v2_ensure_alive_row_at_cl(cl, life(local), local) {
                AliveStep::Stale => assert_eq!(cell, V1Step::Ignore),
                AliveStep::There(key) => {
                    assert_eq!((key, cell), (8, V1Step::Cell { resurrect: false, check: true }));
                }
                AliveStep::Replace(_) | AliveStep::Revive => {
                    assert_eq!(cell, V1Step::Cell { resurrect: true, check: false });
                }
                AliveStep::Create => assert_eq!(cell, V1Step::Cell { resurrect: cl > 1, check: false }),
            }
        }
    }
}

#[derive(Clone, Debug, PartialEq)]
struct Cell {
    cl: i64,
    version: i64,
    value: i64,
    site: Vec<u8>,
}

/// Plays the database for the merge of one cell of one row.
fn merged(local: &Option<Cell>, incoming: &Cell) -> Option<Cell> {
    let t = table(false, false);
    let pks = [text("key")];
    let c = Change {
        col_vrsn: incoming.version,
        site_id: incoming.site.clone(),
        val: num(incoming.value),
        ..change("v", incoming.cl)
    };
    let mut m = V1Merge::new(&t, &c, &pks, 1);
    let mut state = local.clone();
    let mut event = Event::Begin;
    loop {
        event = match m.next(event) {
            Action::AskInt(s) if s.sql == t.get_local_cl_stmt() => match &state {
                Some(cell) => row(cell.cl),
                None => none(),
            },
            Action::AskInt(s) if s.sql == t.get_col_version_stmt() => row(state.as_ref().unwrap().version),
            Action::AskInt(_) => row(1),
            Action::AskOrdinal => row(1),
            Action::AskOrder(_) => Event::Order(Some((incoming.value - state.as_ref().unwrap().value).signum() as i32)),
            Action::AskSite(_) => Event::Site(Some(state.as_ref().unwrap().site.clone())),
            Action::Run { .. } => {
                state = Some(incoming.clone());
                Event::Ran
            }
            Action::Stop(Ok(())) => return state,
            _ => panic!("unexpected"),
        };
    }
}

#[test]
fn cells_converge() {
    let mut writes = Vec::new();
    for cl in [1, 3] {
        for version in [1, 2] {
            for value in [5, 6] {
                for site in [vec![1u8], vec![2u8]] {
                    writes.push(Cell { cl, version, value, site });
                }
            }
        }
    }
    for a in &writes {
        assert_eq!(merged(&Some(a.clone()), a), Some(a.clone()));
        for b in &writes {
            let ab = merged(&merged(&None, a), b);
            let ba = merged(&merged(&None, b), a);
            assert_eq!(ab, ba);
            assert_eq!(merged(&ab, a), ab);
        }
    }
}

#[test]
fn sites_agree_whatever_the_order() {
    let write = |cl, version, value, site: u8| Cell { cl, version, value, site: vec![site] };
    let changes = [write(1, 2, 5, 1), write(1, 2, 5, 2), write(3, 1, 4, 1)];
    let orders = [[0, 1, 2], [0, 2, 1], [1, 0, 2], [1, 2, 0], [2, 0, 1], [2, 1, 0]];
    for order in orders {
        let mut state = None;
        for i in order {
            state = merged(&state, &changes[i]);
            state = merged(&state, &changes[i]);
        }
        for i in order {
            state = merged(&state, &changes[i]);
        }
        assert_eq!(state, Some(changes[2].clone()));
    }
}
