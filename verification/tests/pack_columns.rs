use crsql::pack_columns::{
    can_unpack, crsql_pack_agg_final, crsql_pack_agg_step, crsql_pack_varint_agg_final,
    crsql_pack_varint_agg_step, get_varint, num_bytes_needed_i32, num_bytes_needed_i64, pack_column_values,
    pack_columns, put_varint, to_signed, to_unsigned, unpack_columns, unpack_varints, ColumnType, ColumnValue,
    PackAggAcc, PackVarintAcc,
};
use crsql::result_code::ResultCode;

#[test]
fn test_varint_single_byte() {
    for v in 0..0x80 {
        let mut buf = vec![];
        put_varint(&mut buf, v);
        assert_eq!(buf.len(), 1);
        assert_eq!(buf[0], v as u8);
        let (decoded, n) = get_varint(&buf).unwrap();
        assert_eq!(decoded, v);
        assert_eq!(n, 1);
    }
}

#[test]
fn test_varint_two_bytes() {
    // 128 = 0x81 0x00, 200 = 0x81 0x48, 16383 = 0xFF 0x7F
    let cases: &[(u64, &[u8])] = &[
        (128, &[0x81, 0x00]),
        (200, &[0x81, 0x48]),
        (16383, &[0xFF, 0x7F]),
    ];
    for &(val, expected) in cases {
        let mut buf = vec![];
        put_varint(&mut buf, val);
        assert_eq!(buf.as_slice(), expected, "encoding mismatch for {}", val);
        let (decoded, n) = get_varint(&buf).unwrap();
        assert_eq!(decoded, val);
        assert_eq!(n, expected.len());
    }
}

#[test]
fn test_varint_three_bytes() {
    // 16384 = 0x81 0x80 0x00, 1048576 = 0xC0 0x80 0x00
    let cases: &[(u64, &[u8])] = &[
        (16384, &[0x81, 0x80, 0x00]),
        (1048576, &[0xC0, 0x80, 0x00]),
    ];
    for &(val, expected) in cases {
        let mut buf = vec![];
        put_varint(&mut buf, val);
        assert_eq!(buf.as_slice(), expected, "encoding mismatch for {}", val);
        let (decoded, n) = get_varint(&buf).unwrap();
        assert_eq!(decoded, val);
        assert_eq!(n, expected.len());
    }
}

#[test]
fn test_varint_round_trip_boundaries() {
    // Test all power-of-2 boundaries and values just below/above them
    let mut values = vec![0u64, 1, 127, 128, 129];
    let mut shift = 7;
    while shift < 64 {
        values.push(1u64 << shift);
        values.push((1u64 << shift) - 1);
        values.push((1u64 << shift) + 1);
        shift += 7;
    }
    values.push(u64::MAX);
    values.push(i64::MAX as u64);
    values.push(i64::MIN as u64); // reinterpret for negative round-trip

    for &val in &values {
        let mut buf = vec![];
        put_varint(&mut buf, val);
        let (decoded, n) = get_varint(&buf).unwrap();
        assert_eq!(decoded, val, "round-trip failed for {} (0x{:x})", val, val);
        assert_eq!(n, buf.len());
    }
}

#[test]
fn test_varint_sequential_decode() {
    // Multiple varints packed back-to-back should decode independently
    let values = [0u64, 1, 127, 128, 200, 16384, 1048576, 42];
    let mut buf = vec![];
    for &v in &values {
        put_varint(&mut buf, v);
    }
    let mut offset = 0;
    for &expected in &values {
        let (decoded, n) = get_varint(&buf[offset..]).unwrap();
        assert_eq!(decoded, expected);
        offset += n;
    }
    assert_eq!(offset, buf.len());
}

#[test]
fn test_varint_nine_bytes() {
    let cases: &[(u64, &[u8])] = &[
        (
            1u64 << 56,
            &[0x80, 0xC0, 0x80, 0x80, 0x80, 0x80, 0x80, 0x80, 0x00],
        ),
        (
            u64::MAX,
            &[0xFF, 0xFF, 0xFF, 0xFF, 0xFF, 0xFF, 0xFF, 0xFF, 0xFF],
        ),
        (
            i64::MAX as u64,
            &[0xBF, 0xFF, 0xFF, 0xFF, 0xFF, 0xFF, 0xFF, 0xFF, 0xFF],
        ),
    ];
    for &(val, expected) in cases {
        let mut buf = vec![];
        put_varint(&mut buf, val);
        assert_eq!(buf.len(), 9, "9-byte varint for 0x{:x} should be 9 bytes", val);
        assert_eq!(
            buf.as_slice(),
            expected,
            "9-byte encoding mismatch for 0x{:x}",
            val
        );
        let (decoded, n) = get_varint(&buf).unwrap();
        assert_eq!(decoded, val, "9-byte round-trip failed for 0x{:x}", val);
        assert_eq!(n, 9);
    }
}

#[test]
fn test_varint_continuation_bit_placement() {
    let mut buf = vec![];
    put_varint(&mut buf, 200); // 2 bytes
    assert!(buf[0] & 0x80 != 0, "first byte must have continuation bit");
    assert!(buf[1] & 0x80 == 0, "last byte must NOT have continuation bit");

    buf.clear();
    put_varint(&mut buf, 16384); // 3 bytes
    assert!(buf[0] & 0x80 != 0, "byte 0 must have continuation bit");
    assert!(buf[1] & 0x80 != 0, "byte 1 must have continuation bit");
    assert!(buf[2] & 0x80 == 0, "last byte must NOT have continuation bit");

    buf.clear();
    put_varint(&mut buf, 1u64 << 56); // 9 bytes
    for i in 0..8 {
        assert!(
            buf[i] & 0x80 != 0,
            "byte {} of 9-byte varint must have continuation bit",
            i
        );
    }
    assert_eq!(buf[8], 0x00, "byte 8 of 2^56 should be 0x00");
}

#[test]
fn varint_of_nothing_and_of_a_cut_off_input() {
    assert_eq!(get_varint(&[]), Err(ResultCode::ABORT));
    // A varint that the input cuts off ends where the input ends.
    assert_eq!(get_varint(&[0x81]), Ok((1, 1)));
    assert_eq!(get_varint(&[0x81, 0x80]), Ok((128, 2)));
    // Nothing behind the ninth byte is looked at.
    assert_eq!(get_varint(&[0xFF; 12]), Ok((u64::MAX, 9)));
}

#[test]
fn bytes_needed() {
    for (val, n) in [(0, 0), (1, 1), (255, 1), (256, 2), (65535, 2), (65536, 3), (0xFF_FFFF, 3), (0x100_0000, 4), (i32::MAX, 4), (-1, 4)] {
        assert_eq!(num_bytes_needed_i32(val), n);
    }
    for (val, n) in [
        (0i64, 0),
        (255, 1),
        (0x7FFF_FFFF, 4),
        (0x8000_0000, 4),
        (0xFFFF_FFFF, 4),
        (0x1_0000_0000, 5),
        (0x100_0000_0000, 6),
        (0x1_0000_0000_0000, 7),
        (0x100_0000_0000_0000, 8),
        (i64::MAX, 8),
        (-1, 8),
        (i64::MIN, 8),
    ] {
        assert_eq!(num_bytes_needed_i64(val), n);
    }
}

#[test]
fn signs_are_read_both_ways() {
    for x in [0, 1, -1, i64::MAX, i64::MIN] {
        assert_eq!(to_unsigned(x), x as u64);
        assert_eq!(to_signed(x as u64), x);
    }
}

fn sample() -> Vec<ColumnValue> {
    vec![
        ColumnValue::Integer(0),
        ColumnValue::Integer(1),
        ColumnValue::Integer(-1),
        ColumnValue::Integer(i64::MIN),
        ColumnValue::Integer(0x8000_0000),
        ColumnValue::Null,
        ColumnValue::Float(3.14f64.to_bits()),
        ColumnValue::Float((-0.0f64).to_bits()),
        ColumnValue::Text("".to_string()),
        ColumnValue::Text("héllo \u{1F600}".to_string()),
        ColumnValue::Blob(vec![]),
        ColumnValue::Blob(vec![1, 2, 3]),
        // Lengths with the high bit of their first byte set.
        ColumnValue::Blob(vec![7; 200]),
        ColumnValue::Text("x".repeat(40000)),
    ]
}

#[test]
fn packed_bytes() {
    let packed = pack_columns(&[ColumnValue::Integer(1)]).unwrap();
    assert_eq!(packed, vec![0x01, 0x09, 0x01]);
    let packed = pack_column_values(&[
        ColumnValue::Text("abc".to_string()),
        ColumnValue::Null,
        ColumnValue::Integer(0),
        ColumnValue::Integer(258),
        ColumnValue::Blob(vec![9]),
        ColumnValue::Float(1.0f64.to_bits()),
        ColumnValue::Integer(-2),
    ])
    .unwrap();
    assert_eq!(
        packed,
        vec![
            7, 0x0B, 3, b'a', b'b', b'c', 5, 1, 0x11, 1, 2, 0x0C, 1, 9, 2, 0x3F, 0xF0, 0, 0, 0, 0, 0, 0, 0x41,
            0xFF, 0xFF, 0xFF, 0xFF, 0xFF, 0xFF, 0xFF, 0xFE
        ]
    );
    assert_eq!(pack_columns(&[]).unwrap(), vec![0]);
}

#[test]
fn packed_values_come_back() {
    let values = sample();
    let packed = pack_columns(&values).unwrap();
    assert_eq!(packed, pack_column_values(&values).unwrap());
    assert!(can_unpack(&packed));
    assert!(unpack_columns(&packed).unwrap() == values);
    // What follows is not looked at.
    let mut longer = packed.clone();
    longer.extend_from_slice(&[0xFF, 0xFF]);
    assert!(unpack_columns(&longer).unwrap() == values);
    let many: Vec<ColumnValue> = (0..300).map(ColumnValue::Integer).collect();
    let packed = pack_columns(&many).unwrap();
    assert_eq!(&packed[..2], &[0x82, 0x2C]);
    assert!(unpack_columns(&packed).unwrap() == many);
}

#[test]
fn packed_lists_that_end_early_or_hold_unknown_types() {
    assert!(unpack_columns(&[]) == Err(ResultCode::ABORT));
    assert!(unpack_columns(&[1]) == Err(ResultCode::ABORT));
    // A length, and its bytes, that are not all there.
    assert!(unpack_columns(&[1, 0x14, 1]) == Err(ResultCode::ABORT));
    assert!(unpack_columns(&[1, 0x0C, 5, 1, 2]) == Err(ResultCode::ABORT));
    assert!(unpack_columns(&[1, 0x0B, 5, 1, 2]) == Err(ResultCode::ABORT));
    assert!(unpack_columns(&[1, 0x11, 1]) == Err(ResultCode::ABORT));
    assert!(unpack_columns(&[1, 2, 0, 0]) == Err(ResultCode::ABORT));
    // Types 0, 6 and 7 are not there.
    for tag in [0, 6, 7, 8] {
        assert!(unpack_columns(&[1, tag, 0, 0]) == Err(ResultCode::MISUSE));
    }
    assert!(unpack_columns(&[0]) == Ok(vec![]));
    assert!(unpack_columns(&[2, 5, 5]) == Ok(vec![ColumnValue::Null, ColumnValue::Null]));
}

#[test]
fn bytes_outside_the_format_are_noticed() {
    // An integer of nine bytes.
    assert!(!can_unpack(&[1, 0x49, 1, 2, 3, 4, 5, 6, 7, 8, 9]));
    // Text that is not UTF-8.
    assert!(!can_unpack(&[1, 0x0B, 1, 0xFF]));
    assert!(can_unpack(&[1, 0x0C, 1, 0xFF]));
    // Nine bytes that are not there are an early end.
    assert!(can_unpack(&[1, 0x49, 1]));
    assert!(can_unpack(&[]));
}

#[test]
fn column_types_by_number() {
    for (tag, t) in [
        (1, ColumnType::Integer),
        (2, ColumnType::Float),
        (3, ColumnType::Text),
        (4, ColumnType::Blob),
        (5, ColumnType::Null),
    ] {
        assert_eq!(ColumnType::from_u8(tag), Some(t));
        assert_eq!(t.tag(), tag);
    }
    assert_eq!(ColumnType::from_u8(0), None);
    assert_eq!(ColumnType::from_u8(6), None);
}

#[test]
fn aggregates_pack_as_lists_do() {
    let values = sample();
    let mut acc = PackAggAcc::new();
    crsql_pack_agg_step(&mut acc, &[]);
    assert_eq!(acc.count, 0);
    for v in &values {
        crsql_pack_agg_step(&mut acc, &[v.clone()]);
    }
    assert_eq!(acc.count, values.len() as u64);
    assert_eq!(crsql_pack_agg_final(acc), pack_columns(&values).unwrap());
    assert_eq!(crsql_pack_agg_final(PackAggAcc::new()), vec![0]);
}

#[test]
fn packed_integers_come_back() {
    let ints = [0i64, 1, -1, 127, 128, i64::MIN, i64::MAX, 1 << 56];
    let mut acc = PackVarintAcc::new();
    crsql_pack_varint_agg_step(&mut acc, &[]);
    for i in &ints {
        crsql_pack_varint_agg_step(&mut acc, &[*i]);
    }
    let packed = crsql_pack_varint_agg_final(acc);
    assert_eq!(&packed[..4], &[8, 0, 1, 0xFF]);
    assert_eq!(unpack_varints(&packed).unwrap(), ints.to_vec());
    assert_eq!(crsql_pack_varint_agg_final(PackVarintAcc::new()), vec![0]);
    assert_eq!(unpack_varints(&[0]), Ok(vec![]));
    assert_eq!(unpack_varints(&[]), Err(ResultCode::ABORT));
    assert_eq!(unpack_varints(&[2, 5]), Err(ResultCode::ABORT));
    assert_eq!(unpack_varints(&[2, 5, 0x81]), Ok(vec![5, 1]));
}

#[test]
fn key_of_one_small_integer() {
    let key = [ColumnValue::Integer(5)];
    assert_eq!(pack_columns(&key), Ok(vec![0x01, 0x09, 0x05]));
    assert_eq!(unpack_columns(&[0x01, 0x09, 0x05]), Ok(vec![ColumnValue::Integer(5)]));
}
