//! Cross-checks against an independent implementation of the same
//! permutation (poseidon-rs, which also matches the circomlib constants).

use ff_ce::PrimeField;
use poseidon_bn128::field::Fe;
use poseidon_bn128::poseidon;
use poseidon_rs::Fr;
use poseidon_rs::Poseidon;

/// The canonical little-endian bytes of a poseidon-rs field element, read
/// out of its debug form `Fr(0x...)`.
fn fr_le_bytes(fr: &Fr) -> Vec<u8> {
    let s = fr.to_string();
    let hex = s
        .trim_start_matches("Fr(0x")
        .trim_end_matches(')')
        .to_string();
    let mut bytes: Vec<u8> = hex
        .as_bytes()
        .chunks(2)
        .map(|pair| u8::from_str_radix(std::str::from_utf8(pair).unwrap(), 16).unwrap())
        .collect();
    bytes.reverse();
    while bytes.len() < 32 {
        bytes.push(0);
    }
    bytes
}

fn check_against_reference(reference: &Poseidon, inputs_u64: &[u64]) {
    let n = inputs_u64.len();
    let mine: Vec<Fe> = inputs_u64.iter().map(|&v| Fe::from_u64(v)).collect();
    let h = poseidon(n as u8, &mine).unwrap();

    let theirs: Vec<Fr> = inputs_u64
        .iter()
        .map(|v| Fr::from_str(&v.to_string()).unwrap())
        .collect();
    let hr = reference.hash(theirs).unwrap();

    assert_eq!(h.to_le_bytes(), fr_le_bytes(&hr));
}

#[test]
fn matches_reference_arity_1_to_8() {
    let reference = Poseidon::new();
    for n in 1..=8u64 {
        let inputs: Vec<u64> = (0..n).collect();
        check_against_reference(&reference, &inputs);
    }
}

#[test]
fn matches_reference_arity_9_to_12() {
    let reference = Poseidon::new();
    for n in 9..=12u64 {
        let inputs: Vec<u64> = (0..n).collect();
        check_against_reference(&reference, &inputs);
    }
}

#[test]
fn matches_reference_arity_13_to_14() {
    let reference = Poseidon::new();
    for n in 13..=14u64 {
        let inputs: Vec<u64> = (0..n).collect();
        check_against_reference(&reference, &inputs);
    }
}

#[test]
fn matches_reference_arity_15_to_16() {
    let reference = Poseidon::new();
    for n in 15..=16u64 {
        let inputs: Vec<u64> = (0..n).collect();
        check_against_reference(&reference, &inputs);
    }
}

#[test]
fn matches_reference_on_repeated_inputs() {
    let reference = Poseidon::new();
    for n in 1..=6u64 {
        for j in 0..3u64 {
            let inputs: Vec<u64> = vec![j; n as usize];
            check_against_reference(&reference, &inputs);
        }
    }
}

#[test]
fn matches_reference_on_large_values() {
    let reference = Poseidon::new();
    // values near the top of u64, exercising multi-byte field elements
    check_against_reference(&reference, &[u64::MAX, u64::MAX - 1]);
    check_against_reference(&reference, &[12345678901234567890, 987654321, 5]);
}
