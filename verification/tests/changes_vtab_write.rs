use crsql::changes_vtab_write::{
    bury_local_row, change_stamp, change_wins, db_version_failed, did_cid_win, did_site_id_win, did_value_win,
    get_local_cl, get_site_ordinal_or_zero, hydrate_by_clock, hydrate_by_sentinel, hydrate_clocks, hydrate_dead_row,
    is_refused, merge_cell, merge_delete, merge_insert, merge_sentinel_only_insert, new_row_statements, post_v2_merge,
    row_state_lookup, set_winner_clock, v1_first_statements, v1_last_statements, v1_merge_insert, v1_merge_rest,
    v1_to_v2_hydrate_row, v1_to_v2_hydrate_row_from_values, v2_apply_value_change_colval,
    v2_ensure_alive_row_at_cl, v2_insert_base_row, v2_insert_pk_row, v2_lookup_key_and_cl, v2_lookup_pks_for_v1_copy,
    v2_merge_insert_tombstone, v2_nuke_local_row, v2_nuke_tombstone, v2_to_v1_mirror_metadata, v2_write_cell,
    zero_clocks_on_resurrect, zero_fill, AliveStep, CellWrite, Change, CidStep, HydrateStep, MergeStart, PksLookup,
    SiteRead, Stamp, V1Rest, V1Step, V2Rest, ValueStep,
};
use crsql::ext_data::ExtData;
use crsql::hash_pk::{hash_packed_blob, hash_pk_values};
use crsql::merge_order::bytes_greater;
use crsql::pack_columns::{pack_columns, put_varint, ColumnType, ColumnValue};
use crsql::result_code::{ResultCode, Stepped};
use crsql::statement::Statement;
use crsql::tableinfo::{ColumnInfo, SchemaVersion, TableInfo};
use crsql::v2_stmts::V2Stmts;
use std::collections::BTreeMap;

fn ext() -> ExtData {
    ExtData {
        db_version: -1,
        pending_db_version: -1,
        seq: 0,
        updated_table_infos_this_tx: 0,
        pragma_schema_version_for_table_infos: -1,
        pragma_data_version: -1,
        checked_config_this_tx: 0,
        merge_equal_values: 0,
        metadata_write_version: 1,
        metadata_use_version: 1,
        sync_log_version: 1,
        timestamp: 0,
        default_timestamp: 0,
        force_update_mode: 0,
        rows_impacted: 0,
    }
}

fn col(name: &str) -> ColumnInfo {
    ColumnInfo { cid: 0, name: name.to_string(), col_type: String::new(), pk: 0 }
}

fn table(key_is_rowid: bool, skip_hash: bool) -> TableInfo {
    TableInfo {
        tbl_name: "t".to_string(),
        pks: vec![col("k")],
        non_pks: vec![col("v"), col("w")],
        schema_version: SchemaVersion::V2AndV1,
        key_is_rowid,
        has_integer_pk: key_is_rowid,
        rowid_alias: "rowid".to_string(),
        skip_hash,
        skip_hash_pk_col: if skip_hash { "k".to_string() } else { String::new() },
        cl_cache: BTreeMap::new(),
    }
}

fn text(s: &str) -> ColumnValue {
    ColumnValue::Text(s.to_string())
}

fn num(i: i64) -> ColumnValue {
    ColumnValue::Integer(i)
}

fn change(cid: &str, cl: i64) -> Change {
    Change {
        tbl: "t".to_string(),
        pk: pack_columns(&[text("key")]).unwrap(),
        cid: cid.to_string(),
        val: text("new"),
        val_blob: vec![],
        col_vrsn_type: ColumnType::Integer,
        col_vrsn: 7,
        col_vrsn_blob: vec![],
        db_vrsn: 8,
        site_id: vec![9, 9],
        cl,
        seq: 10,
        seq_blob: vec![],
        ts: 11,
    }
}

fn timed(write: i32, use_version: i32) -> ExtData {
    ExtData { metadata_write_version: write, metadata_use_version: use_version, timestamp: 50, ..ext() }
}

fn varints(list: &[u64]) -> Vec<u8> {
    let mut buf = Vec::new();
    put_varint(&mut buf, list.len() as u64);
    for n in list {
        put_varint(&mut buf, *n);
    }
    buf
}

fn packed_change() -> Change {
    Change {
        cid: "v\0w".to_string(),
        col_vrsn_type: ColumnType::Blob,
        col_vrsn_blob: varints(&[3, 4]),
        seq_blob: varints(&[5, 6]),
        val_blob: pack_columns(&[text("a"), num(2)]).unwrap(),
        ..change("", 1)
    }
}

fn refusal(ext: &ExtData, c: &Change) -> String {
    let mut e = *ext;
    let err = merge_insert(&mut e, &[table(false, false)], c).err().unwrap();
    assert_eq!(err.code, ResultCode::ERROR);
    assert_eq!(e, *ext);
    assert!(is_refused(ext, &[table(false, false)], c));
    err.message.unwrap()
}

#[test]
fn refused_changes() {
    let e = timed(1, 1);
    let long = Change { tbl: "x".repeat(2049), ..change("v", 1) };
    assert_eq!(refusal(&e, &long), "crsql - table name exceeded max length");
    let site = Change { site_id: vec![0; 17], ..change("v", 1) };
    assert_eq!(refusal(&e, &site), "crsql - site id exceeded max length");
    let cid = Change { cid: "x".repeat(2049), ..change("v", 1) };
    assert_eq!(refusal(&e, &cid), "crsql - column name exceeded max length");
    let wire = "crsql - received V2 wire format change but metadata-use-version is not 2. Set metadata-use-version=2 before accepting V2 wire format changes.";
    assert_eq!(refusal(&e, &packed_change()), wire);
    assert_eq!(refusal(&e, &change("-2", 2)), wire);
    let other = Change { tbl: "u".to_string(), ..change("v", 1) };
    assert_eq!(refusal(&e, &other), "crsql - could not find the schema information for table u");
    let unreadable = Change { pk: vec![1, 0x0B, 1, 0xFF], tbl: "u".to_string(), ..change("v", 1) };
    assert!(!unreadable.can_read());
    assert_eq!(refusal(&e, &unreadable), "crsql - could not find the schema information for table u");
    assert!(!is_refused(&e, &[table(false, false)], &change("v", 1)));
    let untimed = ExtData { timestamp: 0, ..e };
    assert_eq!(
        refusal(&untimed, &change("v", 1)),
        "crsql - timestamp not set \u{2014} call crsql_set_ts() before syncing changes"
    );
}

#[test]
fn changes_for_the_first_format() {
    let mut e = ExtData { timestamp: 0, default_timestamp: 33, ..timed(1, 1) };
    let start = merge_insert(&mut e, &[table(false, false)], &change("v", 1)).ok().unwrap();
    assert!(matches!(start, MergeStart::V1 { table: 0 }));
    assert_eq!(e.timestamp, 33);
}

#[test]
fn changes_that_delete() {
    let mut e = timed(2, 2);
    match merge_insert(&mut e, &[table(false, false)], &change("-1", 2)).ok().unwrap() {
        MergeStart::Delete { table, hydrate, known_pks, hashed_pk, ts } => {
            assert_eq!((table, hydrate, ts), (0, true, 11));
            assert_eq!(known_pks, Some(vec![text("key")]));
            assert_eq!(hashed_pk, hash_packed_blob(&change("", 1).pk));
        }
        _ => panic!("no deletion"),
    }
    let mut c = change("-2", 2);
    c.pk = vec![1, 2, 3];
    c.ts = 0;
    match merge_insert(&mut e, &[table(false, false)], &c).ok().unwrap() {
        MergeStart::Delete { hydrate, known_pks, hashed_pk, ts, .. } => {
            assert_eq!((hydrate, known_pks, ts), (false, None, 50));
            assert_eq!(hashed_pk, [1, 2, 3]);
        }
        _ => panic!("no deletion"),
    }
}

#[test]
fn changes_that_write() {
    let mut e = timed(3, 2);
    match merge_insert(&mut e, &[table(false, true)], &change("v", 1)).ok().unwrap() {
        MergeStart::Cells { hydrate, pks, hashed_pk, cells, .. } => {
            assert!(!hydrate);
            assert_eq!(pks, [text("key")]);
            assert!(hashed_pk.is_empty());
            assert_eq!(cells.len(), 1);
            assert_eq!((cells[0].col_name.as_str(), cells[0].col_vrsn, cells[0].seq), ("v", 7, 10));
            assert_eq!(cells[0].val, text("new"));
        }
        _ => panic!("no cells"),
    }
    match merge_insert(&mut e, &[table(false, true)], &change("-1", 1)).ok().unwrap() {
        MergeStart::Cells { cells, .. } => assert!(cells.is_empty()),
        _ => panic!("no cells"),
    }
}

#[test]
fn packed_changes_come_apart() {
    let mut e = timed(2, 2);
    let c = packed_change();
    assert!(c.can_read());
    match merge_insert(&mut e, &[table(false, false)], &c).ok().unwrap() {
        MergeStart::Cells { hydrate, cells, .. } => {
            assert!(!hydrate);
            let got: Vec<(&str, i64, i64, &ColumnValue)> =
                cells.iter().map(|c| (c.col_name.as_str(), c.col_vrsn, c.seq, &c.val)).collect();
            assert_eq!(got, [("v", 3, 5, &text("a")), ("w", 4, 6, &num(2))]);
        }
        _ => panic!("no cells"),
    }
}

#[test]
fn packed_changes_that_do_not_fit() {
    let tables = [table(false, false)];
    let mut e = timed(3, 2);
    let mut c = packed_change();
    c.seq_blob = varints(&[5]);
    let err = merge_insert(&mut e, &tables, &c).err().unwrap();
    assert_eq!(err.code, ResultCode::ERROR);
    assert_eq!(
        err.message.unwrap(),
        "crsql - V2 wire packed row has mismatched lengths: col_names=2, col_vrsns=2, seqs=1, vals=2"
    );
    c.seq_blob = vec![];
    let err = merge_insert(&mut e, &tables, &c).err().unwrap();
    assert_eq!((err.code, err.message), (ResultCode::ABORT, None));
    let mut c = change("v", 1);
    c.pk = vec![1];
    assert!(c.can_read());
    let err = merge_insert(&mut e, &tables, &c).err().unwrap();
    assert_eq!((err.code, err.message), (ResultCode::ABORT, None));
}

#[test]
fn steps_of_a_merge() {
    assert_eq!(v1_merge_insert(1, 2, "v", 1), V1Step::Ignore);
    assert_eq!(v1_merge_insert(2, 1, "-1", 0), V1Step::Delete);
    assert_eq!(v1_merge_insert(2, 2, "-1", 0), V1Step::Ignore);
    assert_eq!(v1_merge_insert(2, 2, "-1", 1), V1Step::TieBreakDelete);
    assert_eq!(v1_merge_insert(3, 2, "-1", 0), V1Step::SentinelInsert);
    assert_eq!(v1_merge_insert(3, 3, "-1", 0), V1Step::Ignore);
    assert_eq!(v1_merge_insert(1, 0, "v", 0), V1Step::Cell { resurrect: false, check: false });
    assert_eq!(v1_merge_insert(3, 0, "v", 0), V1Step::Cell { resurrect: true, check: false });
    assert_eq!(v1_merge_insert(3, 2, "v", 0), V1Step::Cell { resurrect: true, check: false });
    assert_eq!(v1_merge_insert(1, 1, "v", 0), V1Step::Cell { resurrect: false, check: true });
    assert_eq!(get_local_cl(Stepped::Row(5)), Ok(5));
    assert_eq!(get_local_cl(Stepped::Done), Ok(0));
    assert_eq!(get_local_cl(Stepped::Other(ResultCode::ERROR)), Err(ResultCode::ERROR));
}

#[test]
fn who_wins() {
    assert!(matches!(did_cid_win(3, Stepped::Row(2)), CidStep::Won(true)));
    assert!(matches!(did_cid_win(1, Stepped::Row(2)), CidStep::Won(false)));
    assert!(matches!(did_cid_win(2, Stepped::Row(2)), CidStep::CompareValues));
    assert!(matches!(did_cid_win(2, Stepped::Done), CidStep::Won(true)));
    match did_cid_win(2, Stepped::Other(ResultCode::NOMEM)) {
        CidStep::Fail(e) => {
            assert_eq!(e.code, ResultCode::NOMEM);
            assert_eq!(e.message.unwrap(), "Bad return code when selecting local column version");
        }
        _ => panic!("no failure"),
    }
    assert!(matches!(did_value_win("t", Some(1), 1), ValueStep::Won(true)));
    assert!(matches!(did_value_win("t", Some(-1), 1), ValueStep::Won(false)));
    assert!(matches!(did_value_win("t", Some(0), 0), ValueStep::Won(false)));
    assert!(matches!(did_value_win("t", Some(0), 1), ValueStep::CompareSites));
    match did_value_win("t", None, 1) {
        ValueStep::Fail(e) => {
            assert_eq!(e.code, ResultCode::ERROR);
            assert_eq!(e.message.unwrap(), "could not find row to merge with for tbl t");
        }
        _ => panic!("no failure"),
    }
    assert_eq!(did_site_id_win("t", &[2], SiteRead::Site(vec![1, 9])).ok(), Some(true));
    assert_eq!(did_site_id_win("t", &[1], SiteRead::Site(vec![1, 9])).ok(), Some(false));
    let e = did_site_id_win("t", &[1], SiteRead::Done).err().unwrap();
    assert_eq!(
        e.message.unwrap(),
        "could not find site_id for previous change, cr-sqlite clock table might be corrupt for tbl t"
    );
    let e = did_site_id_win("t", &[1], SiteRead::Other(ResultCode::ABORT)).err().unwrap();
    assert_eq!(
        (e.code, e.message.unwrap().as_str()),
        (ResultCode::ABORT, "Bad return code when selecting local column site_id")
    );
}

#[test]
fn order_of_writes() {
    assert!(change_wins("t", 2, 1, -1, 1, &[0], vec![9]));
    assert!(!change_wins("t", 1, 2, 1, 1, &[9], vec![0]));
    assert!(change_wins("t", 1, 1, 1, 1, &[0], vec![9]));
    assert!(!change_wins("t", 1, 1, -1, 1, &[9], vec![0]));
    assert!(change_wins("t", 1, 1, 0, 1, &[9], vec![0]));
    assert!(!change_wins("t", 1, 1, 0, 1, &[0], vec![0]));
    assert!(!change_wins("t", 1, 1, 0, 0, &[9], vec![0]));
    assert!(bytes_greater(&[1, 0], &[1]));
    assert!(!bytes_greater(&[1], &[1]));
    assert!(bytes_greater(&[200], &[100, 255]));
}

fn shown(plan: &[Statement]) -> Vec<(&str, &[ColumnValue], bool)> {
    plan.iter().map(|s| (s.sql.as_str(), s.binds.as_slice(), s.sync)).collect()
}

fn stamp() -> Stamp {
    Stamp { col_vrsn: 7, db_vrsn: 8, ordinal: Some(3), seq: 10, ts: 11 }
}

#[test]
fn plans_of_the_first_format() {
    let t = table(false, false);
    let clock = t.get_set_winner_clock_stmt();
    let binds = |col: &str, v: i64| vec![num(4), text(col), num(v), num(8), num(10), num(3), text("11")];
    assert_eq!(change_stamp(&change("v", 1), Some(3)), stamp());
    assert_eq!(shown(&set_winner_clock(&t, 4, "v", stamp())), [(clock.as_str(), binds("v", 7).as_slice(), false)]);
    let local = Stamp { ordinal: None, ..stamp() };
    assert_eq!(set_winner_clock(&t, 4, "v", local)[0].binds[5], ColumnValue::Null);
    let pks = [text("key")];
    assert_eq!(
        shown(&merge_delete(&t, 4, &pks, stamp())),
        [
            (t.get_merge_delete_stmt().as_str(), &pks[..], true),
            (clock.as_str(), binds("-1", 7).as_slice(), false),
            (t.get_merge_delete_drop_clocks_stmt().as_str(), &[num(4)][..], false),
        ]
    );
    let created = merge_sentinel_only_insert(&t, 4, &pks, stamp());
    assert_eq!(
        shown(&created),
        [
            (t.get_merge_pk_only_insert_stmt().as_str(), &pks[..], true),
            (t.get_zero_clocks_on_resurrect_stmt().as_str(), &[num(4)][..], false),
            (clock.as_str(), binds("-1", 7).as_slice(), false),
        ]
    );
    assert_eq!(shown(&zero_clocks_on_resurrect(&t, 4)), shown(&created)[1..2]);
    let written = merge_cell(&t, 4, &pks, "v", &text("new"), stamp()).unwrap();
    assert_eq!(
        shown(&written),
        [
            (t.get_merge_insert_stmt("v").unwrap().as_str(), &[text("key"), text("new"), text("new")][..], true),
            (clock.as_str(), binds("v", 7).as_slice(), false),
        ]
    );
    assert_eq!(merge_cell(&t, 4, &pks, "x", &text("new"), stamp()).err(), Some(ResultCode::ERROR));
    let again = V1Step::Cell { resurrect: true, check: false };
    assert_eq!(v1_first_statements(&t, again, 4, &pks, 3, stamp())[2].binds, binds("-1", 3));
    assert_eq!(v1_first_statements(&t, V1Step::Delete, 4, &pks, 2, stamp()).len(), 3);
    assert!(v1_first_statements(&t, V1Step::Ignore, 4, &pks, 2, stamp()).is_empty());
    let c = change("v", 3);
    assert_eq!(shown(&v1_last_statements(&t, again, 4, &pks, &c, stamp()).unwrap()), shown(&written));
    let c = change("x", 3);
    assert_eq!(v1_last_statements(&t, again, 4, &pks, &c, stamp()).err(), Some(ResultCode::ERROR));
    let c = change("-1", 2);
    let tie = v1_last_statements(&t, V1Step::TieBreakDelete, 4, &pks, &c, stamp()).unwrap();
    assert_eq!(shown(&tie), [(clock.as_str(), binds("-1", 7).as_slice(), false)]);
}

#[test]
fn the_rest_of_a_merge() {
    assert_eq!(v1_merge_rest(&[1], 3, 2), V1Rest { store_version: true, keep_cl: true });
    assert_eq!(v1_merge_rest(&[1], 2, 2), V1Rest { store_version: true, keep_cl: false });
    assert_eq!(v1_merge_rest(&[], 3, 2), V1Rest { store_version: false, keep_cl: false });
    assert_eq!(post_v2_merge(&timed(2, 1), &[1]), V2Rest { store_version: true, mirror: true });
    assert_eq!(post_v2_merge(&timed(3, 2), &[]), V2Rest { store_version: false, mirror: false });
    assert_eq!(get_site_ordinal_or_zero(&[]), Some(0));
    assert_eq!(get_site_ordinal_or_zero(&[1]), None);
    assert_eq!(db_version_failed(-4, "[1]", "ERROR"), "Unable to insert db version -4 for site id [1]: ERROR");
}

#[test]
fn states_of_rows() {
    assert_eq!(v2_lookup_key_and_cl(None), (None, 0));
    assert_eq!(v2_lookup_key_and_cl(Some((Some(4), 3))), (Some(4), 3));
    assert_eq!(v2_ensure_alive_row_at_cl(1, Some(4), 3), AliveStep::Stale);
    assert_eq!(v2_ensure_alive_row_at_cl(3, Some(4), 3), AliveStep::There(4));
    assert_eq!(v2_ensure_alive_row_at_cl(5, Some(4), 3), AliveStep::Replace(4));
    assert_eq!(v2_ensure_alive_row_at_cl(3, None, 2), AliveStep::Revive);
    assert_eq!(v2_ensure_alive_row_at_cl(1, None, 0), AliveStep::Create);
}

#[test]
fn plans_of_the_second_format() {
    let t = table(false, false);
    let s = V2Stmts::prepare(&t, 1);
    let pks = [text("key")];
    let hash = [1u8, 2];
    let h = ColumnValue::Blob(vec![1, 2]);
    assert_eq!(
        shown(&row_state_lookup(&t, &pks, &hash)),
        [(s.lookup_row_state(), &[h.clone(), h.clone()][..], false)]
    );
    assert_eq!(shown(&v2_insert_base_row(&t, &pks)), [(s.base_insert(), &pks[..], true)]);
    assert_eq!(
        shown(&v2_insert_pk_row(&t, 9, &pks, &hash, 3)),
        [(s.pks_insert(), &[text("key"), h.clone(), num(3)][..], false)]
    );
    assert_eq!(
        shown(&zero_fill(&t, 2, 3, 8)),
        [(s.clock_zero_fill(), &[num(8192), num(3), num(8)][..], false)]
    );
    let gone = v2_nuke_local_row(&t, 2, &pks);
    assert_eq!(
        shown(&gone),
        [
            (s.clock_delete_range(), &[num(8192), num(12287)][..], false),
            (s.pks_delete(), &[num(2)][..], false),
            (s.base_delete_nonrowid().unwrap(), &pks[..], true),
        ]
    );
    let tomb = v2_nuke_tombstone(&t, &pks, &hash);
    assert_eq!(
        shown(&tomb),
        [
            (s.tomb_delete(), &[h.clone()][..], false),
            (s.tomb_pks_delete().unwrap(), &[h.clone()][..], false),
        ]
    );
    let insert = (s.base_insert(), &pks[..], true);
    let replaced = new_row_statements(&t, AliveStep::Replace(2), &pks, &hash);
    assert_eq!(shown(&replaced)[..3], shown(&gone));
    assert_eq!(shown(&replaced)[3], insert);
    let revived = new_row_statements(&t, AliveStep::Revive, &pks, &hash);
    assert_eq!(shown(&revived)[..2], shown(&tomb));
    assert_eq!(shown(&new_row_statements(&t, AliveStep::Create, &pks, &hash)), [insert]);
    assert!(new_row_statements(&t, AliveStep::Stale, &pks, &hash).is_empty());
    let buried = bury_local_row(&t, 2, &pks, &hash);
    assert_eq!(shown(&buried)[0], (s.tomb_pks_insert().unwrap(), &[h.clone(), text("key")][..], false));
    assert_eq!(shown(&buried)[1..], shown(&gone));
    assert_eq!(bury_local_row(&t, 2, &[], &hash).len(), 3);
}

#[test]
fn plans_by_rowid() {
    let t = table(true, true);
    let s = V2Stmts::prepare(&t, 0);
    let pks = [num(5)];
    assert_eq!(shown(&row_state_lookup(&t, &pks, &[])), [(s.lookup_row_state(), &[num(5), num(5)][..], false)]);
    assert_eq!(
        shown(&v2_insert_pk_row(&t, 9, &pks, &[], 3)),
        [(s.pks_insert(), &[num(9), num(3)][..], false)]
    );
    assert_eq!(shown(&v2_nuke_local_row(&t, 2, &pks))[2], (s.base_delete_rowid(), &[num(2)][..], true));
    assert_eq!(shown(&v2_nuke_tombstone(&t, &pks, &[])), [(s.tomb_delete(), &[num(5)][..], false)]);
    assert_eq!(bury_local_row(&t, 2, &pks, &[]).len(), 3);
}

#[test]
fn tombstones() {
    let t = table(false, false);
    let h = ColumnValue::Blob(vec![1, 2]);
    let site = ColumnValue::Blob(vec![9]);
    let plan = v2_merge_insert_tombstone(&t, true, &[], &[1, 2], 4, 3, stamp(), 6, &[9], 1).unwrap();
    let s = V2Stmts::prepare(&t, 1);
    assert_eq!(
        shown(&plan),
        [(s.tomb_upsert(), &[num(6), num(8), num(10), h.clone(), num(4), num(11), site][..], false)]
    );
    let plan = v2_merge_insert_tombstone(&t, false, &[text("key")], &[1, 2], 4, 4, stamp(), 6, &[9], 0).unwrap();
    let s = V2Stmts::prepare(&t, 0);
    assert_eq!(shown(&plan), [(s.tomb_upsert(), &[num(6), num(8), num(10), h, num(4), num(11)][..], false)]);
    assert!(v2_merge_insert_tombstone(&t, false, &[text("key")], &[1, 2], 2, 3, stamp(), 6, &[9], 0).is_none());
    assert!(v2_merge_insert_tombstone(&table(true, true), true, &[], &[1], 4, 3, stamp(), 6, &[9], 0).is_none());
}

#[test]
fn cells_of_changes() {
    let t = table(false, false);
    let s = V2Stmts::prepare(&t, 1);
    let cell = CellWrite { col_name: "w".to_string(), col_vrsn: 7, seq: 10, val: text("new") };
    let pks = [text("key")];
    let plan = v2_apply_value_change_colval(&t, 2, Some(1), &cell, &pks, 8, 3, &[9], 11, 1).unwrap().unwrap();
    let binds = [
        num(8193),
        num(7),
        num(3),
        num(8),
        num(10),
        num(11),
        text("new"),
        text("key"),
        ColumnValue::Blob(vec![9]),
        num(1),
    ];
    assert_eq!(shown(&plan), [(s.clock_merge_upsert("w").unwrap(), &binds[..], false)]);
    assert!(v2_apply_value_change_colval(&t, 2, None, &cell, &pks, 8, 3, &[9], 11, 1).unwrap().is_none());
    let odd = CellWrite { col_name: "x".to_string(), col_vrsn: 7, seq: 10, val: text("new") };
    assert_eq!(
        v2_apply_value_change_colval(&t, 2, Some(1), &odd, &pks, 8, 3, &[9], 11, 1).err(),
        Some(ResultCode::ERROR)
    );
    assert_eq!(
        shown(&v2_write_cell(&t, 2, &cell, &pks)),
        [(s.base_update("w").unwrap(), &[text("new"), text("key")][..], true)]
    );
    let r = table(true, true);
    let s = V2Stmts::prepare(&r, 1);
    assert_eq!(
        shown(&v2_write_cell(&r, 2, &cell, &pks)),
        [(s.base_update("w").unwrap(), &[text("new"), num(2)][..], true)]
    );
}

#[test]
fn copies_to_the_first_format() {
    let t = table(false, false);
    let s = V2Stmts::prepare(&t, 1);
    let pks = [text("key")];
    let alive = v2_to_v1_mirror_metadata(&t, 4, &pks, &[1], Some(2), 3, 50);
    assert_eq!(
        shown(&alive),
        [
            (s.v1_clock_delete().unwrap(), &[num(4)][..], false),
            (s.v1_sentinel_insert_alive().unwrap(), &[num(4), num(3), num(50), num(8192)][..], false),
            (s.v1_clock_copy().unwrap(), &[num(4), num(50), num(4095), num(8192), num(12287)][..], false),
        ]
    );
    let first = v2_to_v1_mirror_metadata(&t, 4, &pks, &[1], Some(2), 1, 50);
    assert_eq!(first.len(), 2);
    let dead = v2_to_v1_mirror_metadata(&t, 4, &pks, &[1], None, 2, 50);
    assert_eq!(
        shown(&dead)[1],
        (
            s.v1_sentinel_insert_dead().unwrap(),
            &[num(4), num(2), num(50), ColumnValue::Blob(vec![1])][..],
            false
        )
    );
    assert_eq!(dead.len(), 2);
    assert_eq!(v2_lookup_pks_for_v1_copy(true, 0), PksLookup::Nowhere);
    assert_eq!(v2_lookup_pks_for_v1_copy(false, 0), PksLookup::Tombstones);
    assert_eq!(v2_lookup_pks_for_v1_copy(false, 1), PksLookup::LiveKeys);
    assert_eq!(v2_lookup_pks_for_v1_copy(false, 2), PksLookup::Nowhere);
}

#[test]
fn rows_from_the_first_format() {
    assert_eq!(v1_to_v2_hydrate_row(&ext(), None, 0), HydrateStep::Fail(ResultCode::ERROR));
    assert_eq!(v1_to_v2_hydrate_row(&timed(2, 1), None, 0), HydrateStep::FindKey);
    assert_eq!(v1_to_v2_hydrate_row(&timed(2, 1), None, 2), HydrateStep::Nothing);
    assert_eq!(v1_to_v2_hydrate_row(&timed(2, 1), Some(1), 1), HydrateStep::Nothing);
    assert_eq!(hydrate_by_sentinel(None), HydrateStep::FindClock);
    assert_eq!(hydrate_by_sentinel(Some(3)), HydrateStep::Alive(3));
    assert_eq!(hydrate_by_sentinel(Some(2)), HydrateStep::Dead(2));
    assert_eq!(hydrate_by_clock(true), HydrateStep::Alive(1));
    assert_eq!(hydrate_by_clock(false), HydrateStep::Nothing);
    let t = table(false, false);
    let s = V2Stmts::prepare(&t, 1);
    let h = ColumnValue::Blob(vec![1]);
    let dead = hydrate_dead_row(&t, &[text("key")], &[1], 2, 6, 8, 10, 0, 50);
    assert_eq!(
        shown(&dead),
        [
            (s.tomb_insert(), &[num(6), num(8), num(10), h.clone(), num(2), num(50)][..], false),
            (s.tomb_pks_insert().unwrap(), &[h, text("key")][..], false),
        ]
    );
    assert_eq!(hydrate_dead_row(&t, &[text("key")], &[1], 2, 6, 8, 10, 12, 50)[0].binds[5], num(12));
    assert_eq!(
        shown(&hydrate_clocks(&t, 2, 50, 4)),
        [(s.hydrate_clock_copy().unwrap(), &[num(2), num(50), num(4)][..], false)]
    );
    assert_eq!(
        v1_to_v2_hydrate_row_from_values(&[text("key")]),
        hash_pk_values(&[text("key")])
    );
}
