//! Known-vector tests: fixed digests recorded from the circomlib reference
//! implementation of the permutation.

use poseidon_bn128::field::Fe;
use poseidon_bn128::hex::fe_from_hex_entry;
use poseidon_bn128::poseidon;

fn hash_u64(inputs_u64: &[u64]) -> Fe {
    let inputs: Vec<Fe> = inputs_u64.iter().map(|&v| Fe::from_u64(v)).collect();
    poseidon(inputs_u64.len() as u8, &inputs).unwrap()
}

fn assert_digest(inputs_u64: &[u64], expected_hex: &str) {
    let h = hash_u64(inputs_u64);
    let expected = fe_from_hex_entry(expected_hex.as_bytes()).unwrap();
    assert_eq!(h.to_le_bytes(), expected.to_le_bytes());
}

/// Hashing `[0, 1, ..., n-1]` for each arity `n` reproduces the recorded
/// reference digest.
fn assert_seq_digest(n: u64, expected_hex: &str) {
    let inputs: Vec<u64> = (0..n).collect();
    assert_digest(&inputs, expected_hex);
}

#[test]
fn reference_vectors_small_arities() {
    assert_digest(
        &[1],
        "0x29176100eaa962bdc1fe6c654d6a3c130e96a4d1168b33848b897dc502820133",
    );
    assert_digest(
        &[1, 2],
        "0x115cc0f5e7d690413df64c6b9662e9cf2a3617f2743245519e19607a4417189a",
    );
    assert_digest(
        &[1, 2, 0, 0, 0],
        "0x024058dd1e168f34bac462b6fffe58fd69982807e9884c1c6148182319cee427",
    );
    assert_digest(
        &[1, 2, 0, 0, 0, 0],
        "0x21e82f465e00a15965e97a44fe3c30f3bf5279d8bf37d4e65765b6c2550f42a1",
    );
    assert_digest(
        &[3, 4, 0, 0, 0],
        "0x0cd93f1bab9e8c9166ef00f2a1b0e1d66d6a4145e596abe0526247747cc71214",
    );
    assert_digest(
        &[3, 4, 0, 0, 0, 0],
        "0x1b1caddfc5ea47e09bb445a7447eb9694b8d1b75a97fff58e884398c6b22825a",
    );
    assert_digest(
        &[1, 2, 3, 4, 5, 6],
        "0x2d1a03850084442813c8ebf094dea47538490a68b05f2239134a4cca2f6302e1",
    );
}

#[test]
fn reference_vectors_large_arities() {
    assert_digest(
        &[1, 2, 3, 4, 5, 6, 7, 8, 9, 10, 11, 12, 13, 14],
        "0x1278779aaafc5ca58bf573151005830cdb4683fb26591c85a7464d4f0e527776",
    );
    assert_digest(
        &[1, 2, 3, 4, 5, 6, 7, 8, 9, 0, 0, 0, 0, 0],
        "0x0c3fbfb4d3f583df4124b4b3ac94ca3a0a1948a89fef727204d89de1c4d35693",
    );
    assert_digest(
        &[1, 2, 3, 4, 5, 6, 7, 8, 9, 0, 0, 0, 0, 0, 0, 0],
        "0x1a456f8563b98c9649877f38b7e36534b241c29d457d307c481cbd12b69bb721",
    );
    assert_digest(
        &[1, 2, 3, 4, 5, 6, 7, 8, 9, 10, 11, 12, 13, 14, 15, 16],
        "0x16159a551cbb66108281a48099fff949ae08afd7f1f2ec06de2ffb96b919b765",
    );
}

#[test]
fn sequence_vectors_arity_1_to_8() {
    assert_seq_digest(1, "0x2a09a9fd93c590c26b91effbb2499f07e8f7aa12e2b4940a3aed2411cb65e11c");
    assert_seq_digest(2, "0x1bd20834f5de9830c643778a2e88a3a1363c8b9ac083d36d75bf87c49953e65e");
    assert_seq_digest(3, "0x13031e1fb1688551f3ddb0a0245485e8f589c4beaee98a54a73afce6c22fd016");
    assert_seq_digest(4, "0x08f46a0af2cd2bb80cfb289efe0fd3551f039732a98bfb0ebd2545866e79fe8c");
    assert_seq_digest(5, "0x034361e6e38ad33809b1771a054a2eece3f11848881eeaf9a92b478fe8008f8c");
    assert_seq_digest(6, "0x05b3ff53af7af168bda34095451752feab4739459e270e87cbae22ea3a9ecb64");
    assert_seq_digest(7, "0x2cf1dee1d5982bf1a2c47455710091f29b4fe8afa32436da362cb56c4eea6a27");
    assert_seq_digest(8, "0x2fe1252390b08faf28933285072e62ac20a3dc3474ad6370dc72da28e118e470");
}

#[test]
fn sequence_vectors_arity_9_to_12() {
    assert_seq_digest(9, "0x1fdb311d53ac75ea3d879061d1ace6a1e88a68dc0ce88167b069c2c58ee0fb5f");
    assert_seq_digest(10, "0x01d5f0ab540521d85563a455de3bbf061e6f2563743a59414c5a2909c3d8e90a");
    assert_seq_digest(11, "0x2470a9818693de2ad5ab5065350ef7052b24e34e39149ef2e93e86677e261290");
    assert_seq_digest(12, "0x1467edaae064984b8df5f7cfc27e84b847d93afddf4b54d6e7cc73be8bf7f2fc");
}

#[test]
fn sequence_vectors_arity_13_to_14() {
    assert_seq_digest(13, "0x1f0caf17eabdc4fb542a3429a033372d95a148c5c96e79432b28a053e1b738cf");
    assert_seq_digest(14, "0x06885ffb60a9d990dd58144deffc3517c1c122df9504f7066ab6842f67462c30");
}

#[test]
fn sequence_vectors_arity_15_to_16() {
    assert_seq_digest(15, "0x0dedf21ec8edce59ee5d7821e2f16c8edf1b7f75457b21011520b1c47844d757");
    assert_seq_digest(16, "0x1b733f2ff41971b23819a16bc8c16bbe13d98173358429fcc12f6f0826407a56");
}

#[test]
fn hash_of_zero_and_one() {
    // the reference "hash of zero and one" vector at arity 2
    assert_digest(
        &[0, 1],
        "0x1bd20834f5de9830c643778a2e88a3a1363c8b9ac083d36d75bf87c49953e65e",
    );
}

#[test]
fn compare_hashes() {
    let expected: Vec<Vec<&str>> = vec![
        vec![
            "0x2a09a9fd93c590c26b91effbb2499f07e8f7aa12e2b4940a3aed2411cb65e11c",
            "0x29176100eaa962bdc1fe6c654d6a3c130e96a4d1168b33848b897dc502820133",
            "0x131d73cf6b30079aca0dff6a561cd0ee50b540879abe379a25a06b24bde2bebd",
        ],
        vec![
            "0x2098f5fb9e239eab3ceac3f27b81e481dc3124d55ffed523a839ee8446b64864",
            "0x007af346e2d304279e79e0a9f3023f771294a78acb70e73f90afe27cad401e81",
            "0x0a63c241bc6454987d6c55dcf23e42ee3076a76b960e1270188ee2f91ee85399",
        ],
        vec![
            "0x0bc188d27dcceadc1dcfb6af0a7af08fe2864eecec96c5ae7cee6db31ba599aa",
            "0x02c0066e10a72abd2b33c3b214cb3e81bcb1b6e30961cd23c202b18673bf2543",
            "0x21b44f876e01a38865beec78884c693c4abefd608b146120cbe605cad0f046f2",
        ],
        vec![
            "0x0532fd436e19c70e51209694d9c215250937921b8b79060488c1206db73e9946",
            "0x082c9c370a0d24f4416fbc414a37681f78442d27d86385991c17d6fc0c4b7d71",
            "0x0dd0b0df4fc893204bcd817d3eb366d0935e933cd074c3fa029584d063621719",
        ],
        vec![
            "0x2066be41bebe6caf7e079360abe14fbf9118c62eabc42e2fe75e342b160a95bc",
            "0x10389605ae688d4f14db853122c47d66a803c72b41589cb1bf868741b206b9bb",
            "0x0e8c31bbae242b90e9bc681767933c91e0900b3a6342f116f8d25b03c6289975",
        ],
        vec![
            "0x1fdb1d1757a3a3502bec7084abc047ae86a4f442b8a073d5b3482bb02eb353d5",
            "0x2a73f679328c3eab724aa3e5bdbf50b39035d7729f135b9709890f85c5dc5e76",
            "0x2811fdd6609e85a2d2b9eb6f28bc7b3424d6c0c78228d2aa846152e73a7b51de",
        ],
    ];
    for i in 0..expected.len() {
        let input_count = u8::try_from(i + 1).unwrap();
        let hash_count = expected[i].len();
        for j in 0..hash_count {
            let inputs = vec![Fe::from_u64(u64::try_from(j).unwrap()); usize::from(input_count)];
            let hash = poseidon(input_count, &inputs).unwrap();
            let want = fe_from_hex_entry(expected[i][j].as_bytes()).unwrap();
            assert_eq!(hash.to_le_bytes(), want.to_le_bytes());
        }
    }
}
