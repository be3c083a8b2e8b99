use crsql::consts::PK_HASH_SIZE;
use crsql::hash_pk::{hash_packed_blob, hash_pk_values, hash_pk_values_from_column_values, truncate_hash};
use crsql::pack_columns::{pack_column_values, ColumnValue};

fn hex_to_bytes(s: &str) -> Vec<u8> {
    (0..s.len())
        .step_by(2)
        .map(|i| u8::from_str_radix(&s[i..i + 2], 16).unwrap())
        .collect()
}

fn compute_hash(values: &[ColumnValue]) -> Vec<u8> {
    let packed = pack_column_values(values).unwrap();
    hash_packed_blob(&packed)
}

fn assert_hash(values: &[ColumnValue], expected_hex: &str) {
    let hash = compute_hash(values);
    let expected = hex_to_bytes(expected_hex);
    assert_eq!(hash, expected, "hash mismatch");
}

#[test]
fn test_single_integer_pk() {
    assert_hash(&[ColumnValue::Integer(1)], "cbbe68493d0f89fd6eff");
    assert_hash(&[ColumnValue::Integer(42)], "b47bb9d09c233e761427");
    assert_hash(&[ColumnValue::Integer(0)], "50e58cbd6ada00a1070d");
}

#[test]
fn test_single_text_pk() {
    assert_hash(&[ColumnValue::Text("hello".to_string())], "ec40da9a164df00c981f");
    assert_hash(&[ColumnValue::Text("".to_string())], "15ca8e4527acb64342f1");
}

#[test]
fn test_composite_pk() {
    assert_hash(
        &[ColumnValue::Integer(1), ColumnValue::Text("abc".to_string())],
        "d17dbd291f0b1cd9e1d5",
    );
}

#[test]
fn test_null_pk() {
    assert_hash(&[ColumnValue::Null], "2220638bc95eeae33b08");
}

#[test]
fn test_blob_pk() {
    assert_hash(
        &[ColumnValue::Blob(vec![0x01, 0x02, 0x03])],
        "290b910dddb1869e845d",
    );
}

#[test]
fn test_float_pk() {
    assert_hash(&[ColumnValue::Float(3.14f64.to_bits())], "d61f1c470f6bcc19d56a");
}

#[test]
fn test_hash_packed_blob_direct() {
    // Known packed blob: varint(1) + integer(1) = [0x01, 0x08, 0x01]
    let packed = vec![0x01, 0x08, 0x01];
    let hash = hash_packed_blob(&packed);
    assert_eq!(hash.len(), PK_HASH_SIZE);
    // Verify determinism: same input always produces same output
    let hash2 = hash_packed_blob(&packed);
    assert_eq!(hash, hash2);
}

#[test]
fn test_different_inputs_produce_different_hashes() {
    let packed1 = pack_column_values(&[ColumnValue::Integer(1)]).unwrap();
    let packed2 = pack_column_values(&[ColumnValue::Integer(2)]).unwrap();
    let hash1 = hash_packed_blob(&packed1);
    let hash2 = hash_packed_blob(&packed2);
    assert_ne!(hash1, hash2);
}

#[test]
fn a_hash_is_cut_to_its_first_bytes() {
    assert_eq!(
        truncate_hash(0x0102030405060708090A0B0C0D0E0F10),
        vec![1, 2, 3, 4, 5, 6, 7, 8, 9, 10]
    );
    assert_eq!(truncate_hash(u128::MAX), vec![0xFF; 10]);
    assert_eq!(truncate_hash(1), vec![0; 10]);
}

#[test]
fn values_hash_by_their_packed_form() {
    let values = [ColumnValue::Integer(1), ColumnValue::Text("abc".to_string())];
    let expected = hex_to_bytes("d17dbd291f0b1cd9e1d5");
    assert_eq!(hash_pk_values(&values), Ok(expected.clone()));
    assert_eq!(hash_pk_values_from_column_values(&values), Ok(expected));
}
