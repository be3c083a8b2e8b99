use crsql::changes_vtab::{alloc_idx_plan, CrsqlChangesColumn, PlanConstraint};
use crsql::changes_vtab_read::{
    build_col_val_case, build_pk_expr_and_join, build_pushed_where, changes_union_query, col_to_name,
    constraint_to_sql, crsql_changes_query_for_table, crsql_changes_query_for_table_v2_pkonly,
    crsql_changes_query_for_table_v2_v1wire, crsql_changes_query_for_table_v2_v2wire, is_pattern_op_id, op_id_to_str,
    pushed_col_ref, query_for_table, query_has_cval, rebuild_outer_idx_str, PushedConstraint,
};
use crsql::result_code::ResultCode;
use crsql::tableinfo::{ColumnInfo, SchemaVersion, TableInfo};
use std::collections::BTreeMap;

fn col(name: &str) -> ColumnInfo {
    ColumnInfo { cid: 0, name: name.to_string(), col_type: String::new(), pk: 0 }
}

fn table(pks: &[&str], non_pks: &[&str], key_is_rowid: bool, skip_hash: bool) -> TableInfo {
    TableInfo {
        tbl_name: "my\"tbl".to_string(),
        pks: pks.iter().map(|n| col(n)).collect(),
        non_pks: non_pks.iter().map(|n| col(n)).collect(),
        schema_version: SchemaVersion::V2,
        key_is_rowid,
        has_integer_pk: false,
        rowid_alias: "rowid".to_string(),
        skip_hash,
        skip_hash_pk_col: if skip_hash { pks[0].to_string() } else { String::new() },
        cl_cache: BTreeMap::new(),
    }
}

fn hashed() -> TableInfo {
    table(&["a", "b\"c"], &["x", "y\"z"], false, false)
}

fn by_rowid() -> TableInfo {
    table(&["a"], &["x", "y\"z"], true, true)
}

fn pushed() -> Vec<PushedConstraint> {
    let all = [
        (CrsqlChangesColumn::Tbl, "="),
        (CrsqlChangesColumn::Cid, "="),
        (CrsqlChangesColumn::ColVrsn, ">"),
        (CrsqlChangesColumn::DbVrsn, ">"),
        (CrsqlChangesColumn::SiteId, "IS"),
        (CrsqlChangesColumn::Cl, "<"),
        (CrsqlChangesColumn::SeqNo, ">="),
        (CrsqlChangesColumn::Ts, "!="),
    ];
    (1..).zip(all).map(|(param_index, (col, op))| PushedConstraint { col, op: op.to_string(), param_index }).collect()
}

#[test]
fn changes_in_the_first_format() {
    assert_eq!(crsql_changes_query_for_table(&hashed()), Ok("SELECT\n          'my\"tbl' as tbl,\n          crsql_pack_columns(pk_tbl.\"a\",pk_tbl.\"b\"\"c\") as pks,\n          t1.col_name as cid,\n          t1.col_version as col_vrsn,\n          t1.db_version as db_vrsn,\n          site_tbl.site_id as site_id,\n          t1.key,\n          t1.seq as seq,\n          COALESCE(t2.col_version, 1) as cl,\n          t1.ts as ts\n      FROM \"my\"\"tbl__crsql_clock\" AS t1\n      JOIN \"my\"\"tbl__crsql_pks\" AS pk_tbl ON t1.key = pk_tbl.__crsql_key\n      LEFT JOIN crsql_site_id AS site_tbl ON t1.site_id = site_tbl.ordinal\n      LEFT JOIN \"my\"\"tbl__crsql_clock\" AS t2 ON\n      t1.key = t2.key AND t2.col_name = '-1'".to_string()));
    let none = table(&[], &["x"], false, false);
    assert_eq!(crsql_changes_query_for_table(&none), Err(ResultCode::ABORT));
    assert_eq!(crsql_changes_query_for_table_v2_v1wire(&none), Err(ResultCode::ABORT));
    assert_eq!(crsql_changes_query_for_table_v2_v2wire(&none, &[], false), Err(ResultCode::ABORT));
    assert_eq!(crsql_changes_query_for_table_v2_pkonly(&none, &[], false), Err(ResultCode::ABORT));
}

#[test]
fn changes_cell_by_cell() {
    assert_eq!(crsql_changes_query_for_table_v2_v1wire(&hashed()), Ok("SELECT\n          'my\"tbl' as tbl,\n          crsql_pack_columns(pk_tbl.\"a\",pk_tbl.\"b\"\"c\") as pks,\n          cm.col_name as cid,\n          c.col_version as col_vrsn,\n          c.db_version as db_vrsn,\n          site_tbl.site_id as site_id,\n          c.cell_key >> 12 as key,\n          c.seq as seq,\n          pk_tbl.cl as cl,\n          c.ts as ts,\n          CASE cm.col_name WHEN 'x' THEN mt.\"x\" WHEN 'y\"z' THEN mt.\"y\"\"z\" END as cval\n        FROM \"my\"\"tbl__crsql_v2_clock\" AS c\n        JOIN \"my\"\"tbl__crsql_v2_pks\" AS pk_tbl ON (c.cell_key >> 12) = pk_tbl.__crsql_key\n        JOIN \"my\"\"tbl\" AS mt ON mt.\"a\" = pk_tbl.\"a\" AND mt.\"b\"\"c\" = pk_tbl.\"b\"\"c\"\n        JOIN \"my\"\"tbl__crsql_v2_col_map\" AS cm ON (c.cell_key & 4095) = cm.col_id\n        LEFT JOIN crsql_site_id AS site_tbl ON c.site_id = site_tbl.ordinal UNION ALL SELECT\n          'my\"tbl' as tbl,\n          crsql_pack_columns(tpk_tbl.\"a\",tpk_tbl.\"b\"\"c\") as pks,\n          '-1' as cid,\n          t.cl as col_vrsn,\n          t.db_version as db_vrsn,\n          site_tbl.site_id as site_id,\n          (1 << 62) | (t.site_id << 46) | (t.db_version << 22) | t.seq as key,\n          t.seq as seq,\n          t.cl as cl,\n          t.ts as ts,\n          NULL as cval\n        FROM \"my\"\"tbl__crsql_v2_tombstones\" AS t\n        JOIN \"my\"\"tbl__crsql_v2_tombstone_pks\" AS tpk_tbl ON t.hashed_pk = tpk_tbl.hashed_pk\n        LEFT JOIN crsql_site_id AS site_tbl ON t.site_id = site_tbl.ordinal".to_string()));
    assert_eq!(crsql_changes_query_for_table_v2_v1wire(&by_rowid()), Ok("SELECT\n          'my\"tbl' as tbl,\n          crsql_pack_columns(mt.\"a\") as pks,\n          cm.col_name as cid,\n          c.col_version as col_vrsn,\n          c.db_version as db_vrsn,\n          site_tbl.site_id as site_id,\n          c.cell_key >> 12 as key,\n          c.seq as seq,\n          pk_tbl.cl as cl,\n          c.ts as ts,\n          CASE cm.col_name WHEN 'x' THEN mt.\"x\" WHEN 'y\"z' THEN mt.\"y\"\"z\" END as cval\n        FROM \"my\"\"tbl__crsql_v2_clock\" AS c\n        JOIN \"my\"\"tbl__crsql_v2_pks\" AS pk_tbl ON (c.cell_key >> 12) = pk_tbl.__crsql_key\n        JOIN \"my\"\"tbl\" AS mt ON mt.\"rowid\" = pk_tbl.__crsql_key\n        JOIN \"my\"\"tbl__crsql_v2_col_map\" AS cm ON (c.cell_key & 4095) = cm.col_id\n        LEFT JOIN crsql_site_id AS site_tbl ON c.site_id = site_tbl.ordinal UNION ALL SELECT\n          'my\"tbl' as tbl,\n          crsql_pack_columns(t.\"a\") as pks,\n          '-1' as cid,\n          t.cl as col_vrsn,\n          t.db_version as db_vrsn,\n          site_tbl.site_id as site_id,\n          (1 << 62) | (t.site_id << 46) | (t.db_version << 22) | t.seq as key,\n          t.seq as seq,\n          t.cl as cl,\n          t.ts as ts,\n          NULL as cval\n        FROM \"my\"\"tbl__crsql_v2_tombstones\" AS t\n        LEFT JOIN crsql_site_id AS site_tbl ON t.site_id = site_tbl.ordinal".to_string()));
}

#[test]
fn changes_packed_by_rows() {
    assert_eq!(
        crsql_changes_query_for_table_v2_v2wire(&hashed(), &pushed(), true),
        Ok("SELECT\n          'my\"tbl' as tbl,\n          crsql_pack_columns(pk_tbl.\"a\",pk_tbl.\"b\"\"c\") as pks,\n          cast(group_concat(cm.col_name, char(0) ORDER BY cm.col_id) as blob) as cid,\n          crsql_pack_varint_agg(c.col_version ORDER BY cm.col_id) as col_vrsn,\n          c.db_version as db_vrsn,\n          site_tbl.site_id as site_id,\n          c.cell_key >> 12 as key,\n          crsql_pack_varint_agg(c.seq ORDER BY cm.col_id) as seq,\n          pk_tbl.cl as cl,\n          c.ts as ts,\n          crsql_pack_agg((CASE cm.col_name WHEN 'x' THEN mt.\"x\" WHEN 'y\"z' THEN mt.\"y\"\"z\" END) ORDER BY cm.col_id) as cval, MIN(c.seq) as _seq_order\n        FROM \"my\"\"tbl__crsql_v2_clock\" AS c\n        JOIN \"my\"\"tbl__crsql_v2_pks\" AS pk_tbl ON (c.cell_key >> 12) = pk_tbl.__crsql_key\n        JOIN \"my\"\"tbl\" AS mt ON mt.\"a\" = pk_tbl.\"a\" AND mt.\"b\"\"c\" = pk_tbl.\"b\"\"c\"\n        JOIN \"my\"\"tbl__crsql_v2_col_map\" AS cm ON (c.cell_key & 4095) = cm.col_id\n        LEFT JOIN crsql_site_id AS site_tbl ON c.site_id = site_tbl.ordinal\n        WHERE 'my\"tbl' = ?1 AND cm.col_name = ?2 AND c.col_version > ?3 AND c.db_version > ?4 AND site_tbl.site_id IS ?5 AND pk_tbl.cl < ?6 AND c.seq >= ?7 AND c.ts != ?8\n        GROUP BY c.cell_key >> 12, c.db_version, site_tbl.site_id UNION ALL SELECT\n              'my\"tbl' as tbl,\n              t.hashed_pk as pks,\n              '-2' as cid,\n              NULL as col_vrsn,\n              t.db_version as db_vrsn,\n              site_tbl.site_id as site_id,\n              (1 << 62) | (t.site_id << 46) | (t.db_version << 22) | t.seq as key,\n              t.seq as seq,\n              t.cl as cl,\n              t.ts as ts,\n              NULL as cval, t.seq as _seq_order\n            FROM \"my\"\"tbl__crsql_v2_tombstones\" AS t\n            LEFT JOIN crsql_site_id AS site_tbl ON t.site_id = site_tbl.ordinal WHERE 'my\"tbl' = ?1 AND '-2' = ?2 AND NULL > ?3 AND t.db_version > ?4 AND site_tbl.site_id IS ?5 AND t.cl < ?6 AND t.seq >= ?7 AND t.ts != ?8".to_string())
    );
    assert_eq!(
        crsql_changes_query_for_table_v2_v2wire(&by_rowid(), &pushed(), true),
        Ok("SELECT\n          'my\"tbl' as tbl,\n          crsql_pack_columns(mt.\"a\") as pks,\n          cast(group_concat(cm.col_name, char(0) ORDER BY cm.col_id) as blob) as cid,\n          crsql_pack_varint_agg(c.col_version ORDER BY cm.col_id) as col_vrsn,\n          c.db_version as db_vrsn,\n          site_tbl.site_id as site_id,\n          c.cell_key >> 12 as key,\n          crsql_pack_varint_agg(c.seq ORDER BY cm.col_id) as seq,\n          pk_tbl.cl as cl,\n          c.ts as ts,\n          crsql_pack_agg((CASE cm.col_name WHEN 'x' THEN mt.\"x\" WHEN 'y\"z' THEN mt.\"y\"\"z\" END) ORDER BY cm.col_id) as cval, MIN(c.seq) as _seq_order\n        FROM \"my\"\"tbl__crsql_v2_clock\" AS c\n        JOIN \"my\"\"tbl__crsql_v2_pks\" AS pk_tbl ON (c.cell_key >> 12) = pk_tbl.__crsql_key\n        JOIN \"my\"\"tbl\" AS mt ON mt.\"rowid\" = pk_tbl.__crsql_key\n        JOIN \"my\"\"tbl__crsql_v2_col_map\" AS cm ON (c.cell_key & 4095) = cm.col_id\n        LEFT JOIN crsql_site_id AS site_tbl ON c.site_id = site_tbl.ordinal\n        WHERE 'my\"tbl' = ?1 AND cm.col_name = ?2 AND c.col_version > ?3 AND c.db_version > ?4 AND site_tbl.site_id IS ?5 AND pk_tbl.cl < ?6 AND c.seq >= ?7 AND c.ts != ?8\n        GROUP BY c.cell_key >> 12, c.db_version, site_tbl.site_id UNION ALL SELECT\n          'my\"tbl' as tbl,\n          crsql_pack_columns(t.\"a\") as pks,\n          '-1' as cid,\n          NULL as col_vrsn,\n          t.db_version as db_vrsn,\n          site_tbl.site_id as site_id,\n          (1 << 62) | (t.site_id << 46) | (t.db_version << 22) | t.seq as key,\n          t.seq as seq,\n          t.cl as cl,\n          t.ts as ts,\n          NULL as cval, t.seq as _seq_order\n        FROM \"my\"\"tbl__crsql_v2_tombstones\" AS t\n        LEFT JOIN crsql_site_id AS site_tbl ON t.site_id = site_tbl.ordinal WHERE 'my\"tbl' = ?1 AND '-1' = ?2 AND NULL > ?3 AND t.db_version > ?4 AND site_tbl.site_id IS ?5 AND t.cl < ?6 AND t.seq >= ?7 AND t.ts != ?8".to_string())
    );
    assert_eq!(
        crsql_changes_query_for_table_v2_v2wire(&hashed(), &[], false),
        Ok("SELECT\n          'my\"tbl' as tbl,\n          crsql_pack_columns(pk_tbl.\"a\",pk_tbl.\"b\"\"c\") as pks,\n          cast(group_concat(cm.col_name, char(0) ORDER BY cm.col_id) as blob) as cid,\n          crsql_pack_varint_agg(c.col_version ORDER BY cm.col_id) as col_vrsn,\n          c.db_version as db_vrsn,\n          site_tbl.site_id as site_id,\n          c.cell_key >> 12 as key,\n          crsql_pack_varint_agg(c.seq ORDER BY cm.col_id) as seq,\n          pk_tbl.cl as cl,\n          c.ts as ts,\n          crsql_pack_agg((CASE cm.col_name WHEN 'x' THEN mt.\"x\" WHEN 'y\"z' THEN mt.\"y\"\"z\" END) ORDER BY cm.col_id) as cval\n        FROM \"my\"\"tbl__crsql_v2_clock\" AS c\n        JOIN \"my\"\"tbl__crsql_v2_pks\" AS pk_tbl ON (c.cell_key >> 12) = pk_tbl.__crsql_key\n        JOIN \"my\"\"tbl\" AS mt ON mt.\"a\" = pk_tbl.\"a\" AND mt.\"b\"\"c\" = pk_tbl.\"b\"\"c\"\n        JOIN \"my\"\"tbl__crsql_v2_col_map\" AS cm ON (c.cell_key & 4095) = cm.col_id\n        LEFT JOIN crsql_site_id AS site_tbl ON c.site_id = site_tbl.ordinal\n        \n        GROUP BY c.cell_key >> 12, c.db_version, site_tbl.site_id UNION ALL SELECT\n              'my\"tbl' as tbl,\n              t.hashed_pk as pks,\n              '-2' as cid,\n              NULL as col_vrsn,\n              t.db_version as db_vrsn,\n              site_tbl.site_id as site_id,\n              (1 << 62) | (t.site_id << 46) | (t.db_version << 22) | t.seq as key,\n              t.seq as seq,\n              t.cl as cl,\n              t.ts as ts,\n              NULL as cval\n            FROM \"my\"\"tbl__crsql_v2_tombstones\" AS t\n            LEFT JOIN crsql_site_id AS site_tbl ON t.site_id = site_tbl.ordinal".to_string())
    );
}

#[test]
fn changes_of_bare_keys() {
    let t = table(&["a", "b\"c"], &[], false, false);
    assert_eq!(
        crsql_changes_query_for_table_v2_pkonly(&t, &pushed(), true),
        Ok("SELECT\n          'my\"tbl' as tbl,\n          crsql_pack_columns(pk_tbl.\"a\",pk_tbl.\"b\"\"c\") as pks,\n          '-1' as cid,\n          c.col_version as col_vrsn,\n          c.db_version as db_vrsn,\n          site_tbl.site_id as site_id,\n          c.cell_key >> 12 as key,\n          c.seq as seq,\n          pk_tbl.cl as cl,\n          c.ts as ts,\n          NULL as cval, c.seq as _seq_order\n        FROM \"my\"\"tbl__crsql_v2_clock\" AS c\n        JOIN \"my\"\"tbl__crsql_v2_pks\" AS pk_tbl ON (c.cell_key >> 12) = pk_tbl.__crsql_key\n        JOIN \"my\"\"tbl\" AS mt ON mt.\"a\" = pk_tbl.\"a\" AND mt.\"b\"\"c\" = pk_tbl.\"b\"\"c\"\n        LEFT JOIN crsql_site_id AS site_tbl ON c.site_id = site_tbl.ordinal WHERE 'my\"tbl' = ?1 AND '-1' = ?2 AND c.col_version > ?3 AND c.db_version > ?4 AND site_tbl.site_id IS ?5 AND pk_tbl.cl < ?6 AND c.seq >= ?7 AND c.ts != ?8 UNION ALL SELECT\n          'my\"tbl' as tbl,\n          crsql_pack_columns(tpk_tbl.\"a\",tpk_tbl.\"b\"\"c\") as pks,\n          '-1' as cid,\n          t.cl as col_vrsn,\n          t.db_version as db_vrsn,\n          site_tbl.site_id as site_id,\n          (1 << 62) | (t.site_id << 46) | (t.db_version << 22) | t.seq as key,\n          t.seq as seq,\n          t.cl as cl,\n          t.ts as ts,\n          NULL as cval, t.seq as _seq_order\n        FROM \"my\"\"tbl__crsql_v2_tombstones\" AS t\n        JOIN \"my\"\"tbl__crsql_v2_tombstone_pks\" AS tpk_tbl ON t.hashed_pk = tpk_tbl.hashed_pk\n        LEFT JOIN crsql_site_id AS site_tbl ON t.site_id = site_tbl.ordinal WHERE 'my\"tbl' = ?1 AND '-1' = ?2 AND t.cl > ?3 AND t.db_version > ?4 AND site_tbl.site_id IS ?5 AND t.cl < ?6 AND t.seq >= ?7 AND t.ts != ?8".to_string())
    );
    assert_eq!(
        crsql_changes_query_for_table_v2_pkonly(&table(&["a"], &[], true, true), &[], false),
        Ok("SELECT\n          'my\"tbl' as tbl,\n          crsql_pack_columns(mt.\"a\") as pks,\n          '-1' as cid,\n          c.col_version as col_vrsn,\n          c.db_version as db_vrsn,\n          site_tbl.site_id as site_id,\n          c.cell_key >> 12 as key,\n          c.seq as seq,\n          pk_tbl.cl as cl,\n          c.ts as ts,\n          NULL as cval\n        FROM \"my\"\"tbl__crsql_v2_clock\" AS c\n        JOIN \"my\"\"tbl__crsql_v2_pks\" AS pk_tbl ON (c.cell_key >> 12) = pk_tbl.__crsql_key\n        JOIN \"my\"\"tbl\" AS mt ON mt.\"rowid\" = pk_tbl.__crsql_key\n        LEFT JOIN crsql_site_id AS site_tbl ON c.site_id = site_tbl.ordinal UNION ALL SELECT\n          'my\"tbl' as tbl,\n          crsql_pack_columns(t.\"a\") as pks,\n          '-1' as cid,\n          t.cl as col_vrsn,\n          t.db_version as db_vrsn,\n          site_tbl.site_id as site_id,\n          (1 << 62) | (t.site_id << 46) | (t.db_version << 22) | t.seq as key,\n          t.seq as seq,\n          t.cl as cl,\n          t.ts as ts,\n          NULL as cval\n        FROM \"my\"\"tbl__crsql_v2_tombstones\" AS t\n        LEFT JOIN crsql_site_id AS site_tbl ON t.site_id = site_tbl.ordinal".to_string())
    );
}

#[test]
fn query_of_a_table() {
    let mut t = hashed();
    assert_eq!(query_for_table(&t, 2, 1, &[], false), crsql_changes_query_for_table_v2_v1wire(&t));
    assert_eq!(query_for_table(&t, 1, 1, &[], false), crsql_changes_query_for_table_v2_v1wire(&t));
    assert_eq!(query_for_table(&t, 2, 2, &[], true), crsql_changes_query_for_table_v2_v2wire(&t, &[], true));
    t.schema_version = SchemaVersion::V2AndV1;
    assert_eq!(query_for_table(&t, 1, 1, &[], false), crsql_changes_query_for_table(&t));
    assert_eq!(query_for_table(&t, 2, 1, &[], false), crsql_changes_query_for_table_v2_v1wire(&t));
    t.schema_version = SchemaVersion::V1;
    assert_eq!(query_for_table(&t, 2, 2, &[], false), crsql_changes_query_for_table(&t));
    let bare = table(&["a"], &[], false, false);
    assert_eq!(query_for_table(&bare, 2, 1, &[], false), crsql_changes_query_for_table_v2_pkonly(&bare, &[], false));
}

#[test]
fn the_whole_query() {
    let constraints = [
        PlanConstraint { col: CrsqlChangesColumn::DbVrsn, op_id: 4, param_idx: 1 },
        PlanConstraint { col: CrsqlChangesColumn::SiteId, op_id: 71, param_idx: 0 },
    ];
    let order = [CrsqlChangesColumn::DbVrsn, CrsqlChangesColumn::SeqNo];
    let plan = alloc_idx_plan(&constraints, &order, true, true);
    let t = hashed();
    let plain = crsql_changes_query_for_table_v2_v1wire(&t).unwrap();
    assert_eq!(
        changes_union_query(&[hashed(), by_rowid()], Some(&plan), 2, 1),
        Ok(format!(
            "SELECT tbl, pks, cid, col_vrsn, db_vrsn, site_id, key, seq, cl, ts, cval FROM ({} UNION ALL {}) WHERE db_vrsn > ?1 AND site_id IS NULL ORDER BY db_vrsn DESC, seq DESC\0",
            plain,
            crsql_changes_query_for_table_v2_v1wire(&by_rowid()).unwrap()
        ))
    );
    let db = [PushedConstraint { col: CrsqlChangesColumn::DbVrsn, op: ">".to_string(), param_index: 1 }];
    assert_eq!(
        changes_union_query(&[hashed()], Some(&plan), 2, 2),
        Ok(format!(
            "SELECT tbl, pks, cid, col_vrsn, db_vrsn, site_id, key, seq, cl, ts, cval FROM ({}) WHERE site_id IS NULL ORDER BY db_vrsn DESC, _seq_order DESC\0",
            crsql_changes_query_for_table_v2_v2wire(&t, &db, true).unwrap()
        ))
    );
    assert_eq!(
        changes_union_query(&[], None, 1, 1),
        Ok("SELECT tbl, pks, cid, col_vrsn, db_vrsn, site_id, key, seq, cl, ts FROM (SELECT NULL AS tbl, NULL AS pks, NULL AS cid, NULL AS col_vrsn, NULL AS db_vrsn, NULL AS site_id, NULL AS key, NULL AS seq, NULL AS cl, NULL AS ts WHERE 0)  ORDER BY db_vrsn ASC, seq ASC\0".to_string())
    );
    assert_eq!(
        changes_union_query(&[], None, 2, 2),
        Ok("SELECT tbl, pks, cid, col_vrsn, db_vrsn, site_id, key, seq, cl, ts, cval FROM (SELECT NULL AS tbl, NULL AS pks, NULL AS cid, NULL AS col_vrsn, NULL AS db_vrsn, NULL AS site_id, NULL AS key, NULL AS seq, NULL AS cl, NULL AS ts, NULL AS cval, NULL AS _seq_order WHERE 0)  ORDER BY db_vrsn ASC, _seq_order ASC\0".to_string())
    );
    let pattern = [PlanConstraint { col: CrsqlChangesColumn::Cid, op_id: 65, param_idx: 1 }];
    let plan = alloc_idx_plan(&pattern, &order, false, false);
    assert_eq!(changes_union_query(&[hashed()], Some(&plan), 2, 2), Err(ResultCode::ERROR));
    assert_eq!(changes_union_query(&[table(&[], &[], false, false)], None, 1, 1), Err(ResultCode::ABORT));
}

#[test]
fn parts_of_conditions() {
    let ops = [
        (2, "="), (4, ">"), (8, "<="), (16, "<"), (32, ">="), (64, "MATCH"), (65, "LIKE"), (66, "GLOB"),
        (67, "REGEXP"), (68, "!="), (69, "IS NOT"), (70, "IS NOT NULL"), (71, "IS NULL"), (72, "IS"),
    ];
    for (id, text) in ops {
        assert_eq!(op_id_to_str(id), Some(text));
        assert_eq!(is_pattern_op_id(id), (64..68).contains(&id));
    }
    assert_eq!(op_id_to_str(73), None);
    assert_eq!(col_to_name(CrsqlChangesColumn::Cl), Some("cl"));
    assert_eq!(col_to_name(CrsqlChangesColumn::Pk), None);
    assert_eq!(pushed_col_ref(CrsqlChangesColumn::Cl, true), Some("pk_tbl.cl"));
    assert_eq!(pushed_col_ref(CrsqlChangesColumn::Cl, false), Some("t.cl"));
    assert_eq!(pushed_col_ref(CrsqlChangesColumn::Tbl, true), None);
    let c = PlanConstraint { col: CrsqlChangesColumn::Ts, op_id: 32, param_idx: 12 };
    assert_eq!(constraint_to_sql(&c), Some("ts >= ?12".to_string()));
    let c = PlanConstraint { col: CrsqlChangesColumn::Ts, op_id: 71, param_idx: 0 };
    assert_eq!(constraint_to_sql(&c), Some("ts IS NULL".to_string()));
    let c = PlanConstraint { col: CrsqlChangesColumn::Cval, op_id: 2, param_idx: 1 };
    assert_eq!(constraint_to_sql(&c), None);
    assert_eq!(
        build_pushed_where(&pushed(), true, None, Some("NULL"), None),
        "NULL > ?3 AND c.db_version > ?4 AND site_tbl.site_id IS ?5 AND pk_tbl.cl < ?6 AND c.seq >= ?7 AND c.ts != ?8"
    );
    assert_eq!(build_pushed_where(&[], true, None, None, None), "");
    assert_eq!(rebuild_outer_idx_str(&[], &[], true, true), " ORDER BY db_vrsn ASC, _seq_order ASC");
    assert_eq!(
        rebuild_outer_idx_str(&[], &[CrsqlChangesColumn::SeqNo, CrsqlChangesColumn::Cl], false, true),
        " ORDER BY _seq_order ASC, cl ASC"
    );
    assert!(query_has_cval(2) && !query_has_cval(1));
}

#[test]
fn parts_of_queries() {
    assert_eq!(build_col_val_case(&table(&["a"], &[], false, false)), "NULL");
    assert_eq!(
        build_col_val_case(&hashed()),
        "CASE cm.col_name WHEN 'x' THEN mt.\"x\" WHEN 'y\"z' THEN mt.\"y\"\"z\" END"
    );
    assert_eq!(
        build_col_val_case(&table(&["a"], &["it's"], false, false)),
        "CASE cm.col_name WHEN 'it''s' THEN mt.\"it's\" END"
    );
    assert_eq!(
        build_pk_expr_and_join(&hashed()),
        ("pk_tbl.\"a\",pk_tbl.\"b\"\"c\"".to_string(), "JOIN \"my\"\"tbl\" AS mt ON mt.\"a\" = pk_tbl.\"a\" AND mt.\"b\"\"c\" = pk_tbl.\"b\"\"c\"".to_string())
    );
    assert_eq!(
        build_pk_expr_and_join(&by_rowid()),
        ("mt.\"a\"".to_string(), "JOIN \"my\"\"tbl\" AS mt ON mt.\"rowid\" = pk_tbl.__crsql_key".to_string())
    );
}
