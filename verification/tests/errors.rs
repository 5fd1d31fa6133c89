//! The error surface: arity validation, input-length validation, and the
//! shape and encoding checks of the constant-table provider.

use poseidon_bn128::PoseidonError;
use poseidon_bn128::PoseidonParamsSerialized;
use poseidon_bn128::decode_params;
use poseidon_bn128::field::Fe;
use poseidon_bn128::poseidon;
use poseidon_bn128::read_constants;

#[test]
fn arity_zero_is_invalid() {
    let r = poseidon(0, &[]);
    assert!(matches!(r, Err(PoseidonError::InvalidArity { arity: 0 })));
}

#[test]
fn arity_seventeen_is_invalid() {
    let inputs = vec![Fe::zero(); 17];
    let r = poseidon(17, &inputs);
    assert!(matches!(r, Err(PoseidonError::InvalidArity { arity: 17 })));
}

#[test]
fn boundary_arities_succeed() {
    let r = poseidon(1, &[Fe::from_u64(7)]);
    assert!(r.is_ok());
    let inputs = vec![Fe::from_u64(7); 16];
    let r = poseidon(16, &inputs);
    assert!(r.is_ok());
}

#[test]
fn too_few_inputs_mismatch() {
    let inputs = vec![Fe::one(), Fe::one()];
    let r = poseidon(3, &inputs);
    assert!(matches!(
        r,
        Err(PoseidonError::ArityMismatch { expected: 3, actual: 2 })
    ));
}

#[test]
fn too_many_inputs_are_not_truncated() {
    let inputs = vec![Fe::one(), Fe::one(), Fe::one()];
    let r = poseidon(2, &inputs);
    assert!(matches!(
        r,
        Err(PoseidonError::ArityMismatch { expected: 2, actual: 3 })
    ));
}

#[test]
fn read_constants_rejects_out_of_range() {
    assert!(matches!(
        read_constants(0),
        Err(PoseidonError::InvalidArity { arity: 0 })
    ));
    assert!(matches!(
        read_constants(17),
        Err(PoseidonError::InvalidArity { arity: 17 })
    ));
}

#[test]
fn read_constants_shapes() {
    let p = read_constants(5).unwrap();
    assert_eq!(p.num_full_rounds, 8);
    assert_eq!(p.num_partial_rounds, 60);
    assert_eq!(p.c.len(), 6 * 68);
    assert_eq!(p.m.len(), 6);
    for row in &p.m {
        assert_eq!(row.len(), 6);
    }
}

/// A well-shaped record for arity 1: 128 round constants and a 2 by 2
/// matrix.
fn good_record() -> PoseidonParamsSerialized {
    PoseidonParamsSerialized {
        C: (0..128).map(|i| format!("0x{:x}", i + 1)).collect(),
        M: vec![
            vec!["0x01".to_string(), "0x02".to_string()],
            vec!["0x03".to_string(), "0x04".to_string()],
        ],
    }
}

#[test]
fn decode_good_record() {
    let p = decode_params(&good_record(), 1).unwrap();
    assert_eq!(p.num_full_rounds, 8);
    assert_eq!(p.num_partial_rounds, 56);
    assert_eq!(p.c.len(), 128);
    assert_eq!(p.c[0].to_le_bytes(), Fe::from_u64(1).to_le_bytes());
    assert_eq!(p.m[1][0].to_le_bytes(), Fe::from_u64(3).to_le_bytes());
}

#[test]
fn decode_rejects_wrong_constant_count() {
    let mut record = good_record();
    record.C.pop();
    let r = decode_params(&record, 1);
    assert!(matches!(
        r,
        Err(PoseidonError::MalformedConstants { expected: 128, actual: 127 })
    ));
}

#[test]
fn decode_rejects_wrong_matrix_height() {
    let mut record = good_record();
    record.M.push(vec!["0x05".to_string(), "0x06".to_string()]);
    let r = decode_params(&record, 1);
    assert!(matches!(
        r,
        Err(PoseidonError::MalformedConstants { expected: 2, actual: 3 })
    ));
}

#[test]
fn decode_rejects_wrong_row_width() {
    let mut record = good_record();
    record.M[1].pop();
    let r = decode_params(&record, 1);
    assert!(matches!(
        r,
        Err(PoseidonError::MalformedConstants { expected: 2, actual: 1 })
    ));
}

#[test]
fn decode_rejects_bad_hex() {
    let mut record = good_record();
    record.C[3] = "0xzz12".to_string();
    let r = decode_params(&record, 1);
    match r {
        Err(PoseidonError::EncodingError { entry }) => assert_eq!(entry, "0xzz12"),
        other => panic!("expected an encoding error, got {:?}", other),
    }
}

#[test]
fn decode_rejects_prefix_only_entry() {
    let mut record = good_record();
    record.M[0][1] = "0x".to_string();
    let r = decode_params(&record, 1);
    assert!(matches!(r, Err(PoseidonError::EncodingError { .. })));
}

#[test]
fn decode_rejects_short_entry() {
    let mut record = good_record();
    record.C[0] = "7".to_string();
    let r = decode_params(&record, 1);
    assert!(matches!(r, Err(PoseidonError::EncodingError { .. })));
}

#[test]
fn decode_skips_any_two_byte_prefix() {
    // the two leading characters are skipped, not validated
    let mut record = good_record();
    record.C[0] = "zz2a".to_string();
    let p = decode_params(&record, 1).unwrap();
    assert_eq!(p.c[0].to_le_bytes(), Fe::from_u64(0x2a).to_le_bytes());
}

#[test]
fn decode_rejects_out_of_range_arity() {
    let r = decode_params(&good_record(), 0);
    assert!(matches!(r, Err(PoseidonError::InvalidArity { arity: 0 })));
    let r = decode_params(&good_record(), 17);
    assert!(matches!(r, Err(PoseidonError::InvalidArity { arity: 17 })));
}

#[test]
fn uppercase_hex_is_accepted() {
    let mut record = good_record();
    record.C[0] = "0x2A".to_string();
    let p = decode_params(&record, 1).unwrap();
    assert_eq!(p.c[0].to_le_bytes(), Fe::from_u64(42).to_le_bytes());
}

#[test]
fn constant_values_reduce_into_the_field() {
    // the field prime itself decodes to zero
    let mut record = good_record();
    record.C[0] =
        "0x30644e72e131a029b85045b68181585d2833e84879b9709143e1f593f0000001".to_string();
    let p = decode_params(&record, 1).unwrap();
    assert_eq!(p.c[0].to_le_bytes(), Fe::zero().to_le_bytes());
}
