//! Behavioural properties of the hash and of the field-element type.

use poseidon_bn128::field::Fe;
use poseidon_bn128::hex::fe_to_hex;
use poseidon_bn128::poseidon;

fn hash_u64(inputs_u64: &[u64]) -> Fe {
    let inputs: Vec<Fe> = inputs_u64.iter().map(|&v| Fe::from_u64(v)).collect();
    poseidon(inputs_u64.len() as u8, &inputs).unwrap()
}

#[test]
fn identical_calls_give_identical_output() {
    let a = hash_u64(&[5, 77, 123]);
    let b = hash_u64(&[5, 77, 123]);
    assert_eq!(a.to_le_bytes(), b.to_le_bytes());
}

#[test]
fn changing_one_input_changes_the_output() {
    let base = hash_u64(&[10, 20, 30, 40]);
    for pos in 0..4usize {
        let mut flipped: Vec<u64> = vec![10, 20, 30, 40];
        flipped[pos] ^= 1;
        let other = hash_u64(&flipped);
        assert_ne!(base.to_le_bytes(), other.to_le_bytes());
    }
}

#[test]
fn different_arities_give_different_output() {
    let a = hash_u64(&[1, 2]);
    let b = hash_u64(&[1, 2, 0]);
    assert_ne!(a.to_le_bytes(), b.to_le_bytes());
}

#[test]
fn sbox_placement_forms_agree() {
    // the rule as a three-way disjunction against the form that first splits
    // off full rounds, for every round index and position of every arity
    for n in 1..=16u8 {
        let params = poseidon_bn128::read_constants(n).unwrap();
        let t = usize::from(n) + 1;
        let nf = params.num_full_rounds;
        let np = params.num_partial_rounds;
        for x in 0..nf + np {
            for y in 0..t {
                let disjunction = y == 0 || x < nf / 2 || x >= nf / 2 + np;
                let split = if x < nf / 2 || x >= nf / 2 + np {
                    true
                } else {
                    y == 0
                };
                assert_eq!(disjunction, split);
            }
        }
    }
}

#[test]
fn hex_form_is_canonical() {
    assert_eq!(fe_to_hex(&Fe::zero()), "0");
    assert_eq!(fe_to_hex(&Fe::one()), "1");
    assert_eq!(fe_to_hex(&Fe::from_u64(10)), "a");
    assert_eq!(fe_to_hex(&Fe::from_u64(256)), "100");
    assert_eq!(fe_to_hex(&Fe::from_u64(0xdeadbeef)), "deadbeef");
    let h = hash_u64(&[1]);
    assert_eq!(
        fe_to_hex(&h),
        "29176100eaa962bdc1fe6c654d6a3c130e96a4d1168b33848b897dc502820133"
    );
}

#[test]
fn field_element_constructors_agree() {
    assert_eq!(Fe::one().to_le_bytes(), Fe::from_u64(1).to_le_bytes());
    assert_eq!(Fe::zero().to_le_bytes(), Fe::from_u64(0).to_le_bytes());
    let x = Fe::from_u64(123456789);
    assert_eq!(
        Fe::from_le_bytes(&x.to_le_bytes()).to_le_bytes(),
        x.to_le_bytes()
    );
}

#[test]
fn field_arithmetic_matches_integers() {
    let a = Fe::from_u64(1 << 40);
    let b = Fe::from_u64(12345);
    assert_eq!(
        a.add(&b).to_le_bytes(),
        Fe::from_u64((1 << 40) + 12345).to_le_bytes()
    );
    let c = Fe::from_u64(1 << 20);
    assert_eq!(
        c.mul(&c).to_le_bytes(),
        Fe::from_u64(1 << 40).to_le_bytes()
    );
}

#[test]
fn from_le_bytes_reduces_long_inputs() {
    // 33 bytes: 2^256 stands above the prime and must reduce, so the result
    // differs from the raw low 32 bytes
    let mut bytes = vec![0u8; 33];
    bytes[32] = 1;
    let reduced = Fe::from_le_bytes(&bytes);
    assert_ne!(reduced.to_le_bytes(), Fe::zero().to_le_bytes());
    let mut low = vec![0u8; 32];
    low[0] = 0;
    assert_ne!(reduced.to_le_bytes(), low);
}
