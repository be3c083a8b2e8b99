use crsql::changes_vtab::{
    alloc_idx_plan, can_read_idx_plan, changes_best_index, changes_filter, changes_next, column_impl,
    constraint_is_usable, crsql_changes_commit, crsql_changes_rowid, crsql_changes_update, find_table,
    is_supported_op, kept_after_build, read_idx_plan, ChangeRowType, ClockUnionColumn, ColumnSource,
    CrsqlChangesColumn, CursorCache, FilterStep, IndexConstraint, IndexOrderBy, PlanConstraint, UpdateStep,
};
use crsql::ext_data::ExtData;
use crsql::pack_columns::ColumnValue;
use crsql::result_code::ResultCode;
use crsql::tableinfo::{ColumnInfo, SchemaVersion, TableInfo};
use std::collections::BTreeMap;

fn ext() -> ExtData {
    ExtData {
        db_version: -1,
        pending_db_version: -1,
        seq: 0,
        updated_table_infos_this_tx: 0,
        pragma_schema_version_for_table_infos: -1,
        pragma_data_version: -1,
        checked_config_this_tx: 0,
        merge_equal_values: 0,
        metadata_write_version: 1,
        metadata_use_version: 1,
        sync_log_version: 1,
        timestamp: 0,
        default_timestamp: 0,
        force_update_mode: 0,
        rows_impacted: 0,
    }
}

fn col(name: &str) -> ColumnInfo {
    ColumnInfo { cid: 0, name: name.to_string(), col_type: String::new(), pk: 0 }
}

fn table(name: &str, pks: &[&str], non_pks: &[&str]) -> TableInfo {
    TableInfo {
        tbl_name: name.to_string(),
        pks: pks.iter().map(|n| col(n)).collect(),
        non_pks: non_pks.iter().map(|n| col(n)).collect(),
        schema_version: SchemaVersion::V1,
        key_is_rowid: false,
        has_integer_pk: false,
        rowid_alias: String::new(),
        skip_hash: false,
        skip_hash_pk_col: String::new(),
        cl_cache: BTreeMap::new(),
    }
}

#[test]
fn numbers_of_columns() {
    for i in 0..10 {
        assert_eq!(CrsqlChangesColumn::from_i32(i).unwrap().index() as i32, i);
    }
    assert_eq!(CrsqlChangesColumn::from_i32(10), None);
    assert_eq!(CrsqlChangesColumn::from_i32(-1), None);
    assert_eq!(CrsqlChangesColumn::from_i32(0), Some(CrsqlChangesColumn::Tbl));
    assert_eq!(CrsqlChangesColumn::from_i32(9), Some(CrsqlChangesColumn::Ts));
    assert_eq!(ClockUnionColumn::from_i32(0).unwrap().index(), 0);
    assert_eq!(ClockUnionColumn::from_i32(100), None);
    assert_eq!(ChangeRowType::from_i32(0).unwrap().index(), 0);
    assert_eq!(ChangeRowType::from_i32(9), None);
}

#[test]
fn operators() {
    for op in [2, 4, 8, 16, 32, 64, 65, 66, 67, 68, 69, 70, 71, 72] {
        assert!(is_supported_op(op));
    }
    for op in [0, 1, 73, 74, 150, 255] {
        assert!(!is_supported_op(op));
    }
}

#[test]
fn plans_come_back() {
    let constraints = [
        PlanConstraint { col: CrsqlChangesColumn::DbVrsn, op_id: 4, param_idx: 1 },
        PlanConstraint { col: CrsqlChangesColumn::SiteId, op_id: 70, param_idx: 0 },
    ];
    let order = [CrsqlChangesColumn::DbVrsn, CrsqlChangesColumn::SeqNo];
    let bytes = alloc_idx_plan(&constraints, &order, true, false);
    assert_eq!(bytes.len(), 15 + 6 + 2);
    assert_eq!(&bytes[..11], b"Rust magic\0");
    assert_eq!(&bytes[11..15], [2, 2, 1, 0]);
    assert!(can_read_idx_plan(&bytes));
    let plan = read_idx_plan(Some(&bytes));
    assert_eq!(plan.constraints, constraints);
    assert_eq!(plan.order_by, order);
    assert!(plan.desc && !plan.has_order_by);
}

#[test]
fn plans_that_are_none() {
    let plan = read_idx_plan(None);
    assert!(plan.constraints.is_empty() && plan.order_by.is_empty() && !plan.desc && !plan.has_order_by);
    let other = [7u8; 20];
    assert!(can_read_idx_plan(&other));
    assert!(read_idx_plan(Some(&other)).constraints.is_empty());
    assert!(!can_read_idx_plan(b"Rust magic"));
    assert!(!can_read_idx_plan(b"Rust magic\0\x01\0\0\0"));
    assert!(!can_read_idx_plan(b"Rust magic\0\x01\0\0\0\x0a\x04\x01"));
    assert!(can_read_idx_plan(b"Rust magic\0\x01\0\0\0\x09\x04\x01"));
    assert!(!can_read_idx_plan(b"Rust magic\0\0\x01\0\0\x0a"));
}

#[test]
fn planning_a_query() {
    let c = |i_column: i32, op: u8, usable: u8| IndexConstraint { i_column, op, usable };
    let constraints = [c(5, 4, 1), c(1, 2, 1), c(6, 70, 1), c(0, 2, 0), c(0, 2, 1), c(5, 150, 1)];
    let best = changes_best_index(&constraints, &[]);
    assert_eq!(best.usage, [Some(1), None, Some(0), None, Some(2), None]);
    assert_eq!(best.idx_num, 6);
    assert!(best.order_by_consumed);
    assert_eq!(best.estimated, 1);
    let plan = read_idx_plan(Some(&best.idx_str));
    assert_eq!(
        plan.constraints,
        [
            PlanConstraint { col: CrsqlChangesColumn::DbVrsn, op_id: 4, param_idx: 1 },
            PlanConstraint { col: CrsqlChangesColumn::SiteId, op_id: 70, param_idx: 0 },
            PlanConstraint { col: CrsqlChangesColumn::Tbl, op_id: 2, param_idx: 2 },
        ]
    );
    assert_eq!(plan.order_by, [CrsqlChangesColumn::DbVrsn, CrsqlChangesColumn::SeqNo]);
    assert!(!plan.has_order_by);
    assert!(constraint_is_usable(&c(5, 150, 1)));
    assert!(!constraint_is_usable(&c(3, 2, 1)));
    assert!(!constraint_is_usable(&c(5, 2, 0)));
}

#[test]
fn costs_of_queries() {
    let on = |i_column: i32| IndexConstraint { i_column, op: 2, usable: 1 };
    assert_eq!(changes_best_index(&[], &[]).estimated, 2147483647);
    assert_eq!(changes_best_index(&[on(6)], &[]).estimated, 2147483647);
    assert_eq!(changes_best_index(&[on(5)], &[]).estimated, 10);
    assert_eq!(changes_best_index(&[on(5), on(6)], &[]).estimated, 1);
    assert_eq!(changes_best_index(&[on(6)], &[]).idx_num, 4);
    assert_eq!(changes_best_index(&[on(5)], &[]).idx_num, 2);
}

#[test]
fn orders_of_queries() {
    let by = |i_column: i32, desc: u8| IndexOrderBy { i_column, desc };
    let best = changes_best_index(&[], &[by(5, 1), by(8, 1)]);
    let plan = read_idx_plan(Some(&best.idx_str));
    assert!(best.order_by_consumed && plan.desc && plan.has_order_by);
    assert_eq!(plan.order_by.iter().map(|c| c.index()).collect::<Vec<_>>(), [5, 8]);
    let best = changes_best_index(&[], &[by(5, 0), by(3, 0)]);
    assert!(!best.order_by_consumed);
}

#[test]
fn starting_a_query() {
    let e = ExtData { pragma_schema_version_for_table_infos: 4, ..ext() };
    let mut kept = kept_after_build(&e, 77);
    assert_eq!(
        kept,
        CursorCache { has_stmt: false, idx_str: 77, meta_use_version: 1, sync_log_version: 1, schema_version: 4 }
    );
    assert_eq!(changes_filter(&e, 2, &kept, 77), FilterStep::Build);
    kept.has_stmt = true;
    assert_eq!(changes_filter(&e, 0, &kept, 77), FilterStep::Empty);
    assert_eq!(changes_filter(&e, 2, &kept, 77), FilterStep::Reuse);
    assert_eq!(changes_filter(&e, 2, &kept, 78), FilterStep::Build);
    assert_eq!(changes_filter(&ExtData { sync_log_version: 2, ..e }, 2, &kept, 77), FilterStep::Build);
    assert_eq!(changes_filter(&ExtData { metadata_use_version: 2, ..e }, 2, &kept, 77), FilterStep::Build);
    assert_eq!(
        changes_filter(&ExtData { pragma_schema_version_for_table_infos: 5, ..e }, 2, &kept, 77),
        FilterStep::Build
    );
}

#[test]
fn rows_of_a_query() {
    let tables = [table("a", &["k"], &["v"]), table("b", &[], &[])];
    assert_eq!(find_table(&tables, "b"), Some(1));
    assert_eq!(find_table(&tables, "c"), None);
    let row = changes_next(&tables, "a", "v", 1, 1).ok().unwrap();
    assert_eq!((row.tbl_info_idx, row.row_type), (0, ChangeRowType::Update));
    assert_eq!(row.fetch.unwrap(), "SELECT \"v\" FROM \"a\" WHERE \"k\" IS ?\0");
    let row = changes_next(&tables, "a", "v", 1, 2).ok().unwrap();
    assert_eq!((row.row_type, row.fetch), (ChangeRowType::Update, None));
    let row = changes_next(&tables, "a", "v", 2, 2).ok().unwrap();
    assert_eq!(row.row_type, ChangeRowType::PackedUpdate);
    let row = changes_next(&tables, "a", "-1", 1, 1).ok().unwrap();
    assert_eq!((row.row_type, row.fetch), (ChangeRowType::Delete, None));
    let row = changes_next(&tables, "a", "-2", 2, 2).ok().unwrap();
    assert_eq!(row.row_type, ChangeRowType::Delete);
    let e = changes_next(&tables, "c", "v", 1, 1).err().unwrap();
    assert_eq!((e.code, e.message.unwrap().as_str()), (ResultCode::ERROR, "could not find schema for table c"));
    let e = changes_next(&tables, "b", "v", 1, 1).err().unwrap();
    assert_eq!((e.code, e.message.unwrap().as_str()), (ResultCode::ERROR, "crr b is missing primary keys"));
    let e = changes_next(&tables, "a", "w", 1, 1).err().unwrap();
    assert_eq!((e.code, e.message), (ResultCode::ERROR, None));
}

#[test]
fn sources_of_columns() {
    let ty = |t: ChangeRowType| t.index() as i32;
    let update = ty(ChangeRowType::Update);
    let packed = ty(ChangeRowType::PackedUpdate);
    let delete = ty(ChangeRowType::Delete);
    let at = |c: CrsqlChangesColumn| c.index() as i32;
    let cval = at(CrsqlChangesColumn::Cval);
    let cid = at(CrsqlChangesColumn::Cid);
    assert_eq!(column_impl(0, update, true, 1), Ok(ColumnSource::Value(ClockUnionColumn::Tbl)));
    assert_eq!(column_impl(1, update, true, 1), Ok(ColumnSource::Value(ClockUnionColumn::Pks)));
    assert_eq!(column_impl(cval, update, true, 1), Ok(ColumnSource::Row));
    assert_eq!(column_impl(cval, update, false, 2), Ok(ColumnSource::Value(ClockUnionColumn::Cval)));
    assert_eq!(column_impl(cval, packed, false, 2), Ok(ColumnSource::Blob(ClockUnionColumn::Cval)));
    assert_eq!(column_impl(cval, delete, false, 1), Ok(ColumnSource::Null));
    assert_eq!(column_impl(cid, update, true, 1), Ok(ColumnSource::Value(ClockUnionColumn::Cid)));
    assert_eq!(column_impl(cid, update, false, 1), Ok(ColumnSource::Sentinel));
    assert_eq!(column_impl(cid, packed, false, 2), Ok(ColumnSource::Blob(ClockUnionColumn::Cid)));
    assert_eq!(column_impl(cid, delete, false, 1), Ok(ColumnSource::Value(ClockUnionColumn::Cid)));
    assert_eq!(column_impl(cid, ty(ChangeRowType::PkOnly), false, 1), Ok(ColumnSource::Sentinel));
    assert_eq!(column_impl(cid, 99, false, 1), Err(ResultCode::ABORT));
    let seq = at(CrsqlChangesColumn::SeqNo);
    assert_eq!(column_impl(seq, packed, false, 2), Ok(ColumnSource::Blob(ClockUnionColumn::SeqNo)));
    assert_eq!(column_impl(seq, update, false, 2), Ok(ColumnSource::Value(ClockUnionColumn::SeqNo)));
    assert_eq!(column_impl(at(CrsqlChangesColumn::Ts), packed, false, 2), Ok(ColumnSource::Value(ClockUnionColumn::Ts)));
    assert_eq!(column_impl(10, update, true, 1), Err(ResultCode::MISUSE));
}

#[test]
fn rowids_and_writes() {
    assert_eq!(crsql_changes_rowid(0, 7), (7, ResultCode::OK));
    assert_eq!(crsql_changes_rowid(-1, 7), (-1, ResultCode::ERROR));
    assert_eq!(crsql_changes_update(&[ColumnValue::Null, ColumnValue::Null]), UpdateStep::Merge);
    assert_eq!(crsql_changes_update(&[ColumnValue::Null]), UpdateStep::Refuse(ResultCode::MISUSE));
    assert_eq!(
        crsql_changes_update(&[ColumnValue::Integer(1), ColumnValue::Null]),
        UpdateStep::Refuse(ResultCode::MISUSE)
    );
    let mut e = ExtData { rows_impacted: 6, ..ext() };
    assert_eq!(crsql_changes_commit(&mut e), ResultCode::OK);
    assert_eq!(e, ext());
}
