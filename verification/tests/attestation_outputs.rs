use saorsa_attestation_guest::{
    compute_public_outputs, public_outputs_from_hashes, summary_from_key_hash, witness_summary,
    AttestationError, AttestationWitness, MIN_TIMESTAMP, ML_DSA_65_PUBLIC_KEY_SIZE,
};

fn make_valid_witness() -> AttestationWitness {
    AttestationWitness {
        public_key: vec![0u8; ML_DSA_65_PUBLIC_KEY_SIZE],
        binary_hash: [1u8; 32], // Non-zero
        nonce: 12345,
        allowed_binaries: vec![],
        timestamp: MIN_TIMESTAMP + 1000,
    }
}

fn witness_with_key(key: &[u8]) -> AttestationWitness {
    let mut w = make_valid_witness();
    w.public_key = key.to_vec();
    w
}

#[test]
fn test_blake3_hash_deterministic() {
    let data = b"test data";
    let hash1 = witness_summary(&witness_with_key(data)).public_key_hash;
    let hash2 = witness_summary(&witness_with_key(data)).public_key_hash;
    assert_eq!(hash1, hash2);
}

#[test]
fn test_blake3_hash_different_inputs() {
    let hash1 = witness_summary(&witness_with_key(b"input1")).public_key_hash;
    let hash2 = witness_summary(&witness_with_key(b"input2")).public_key_hash;
    assert_ne!(hash1, hash2);
}

#[test]
fn test_witness_summary() {
    let witness = make_valid_witness();
    let summary = witness_summary(&witness);
    assert_eq!(summary.public_key_size, ML_DSA_65_PUBLIC_KEY_SIZE);
    assert_eq!(summary.binary_hash, witness.binary_hash);
    assert_eq!(summary.timestamp, witness.timestamp);
    assert_eq!(summary.allowlist_count, 0);
    assert!(summary.has_nonce);
}

// ---- further cases ----

fn expected_entangled_id(w: &AttestationWitness) -> [u8; 32] {
    let mut input = w.public_key.clone();
    input.extend_from_slice(&w.binary_hash);
    input.extend_from_slice(&w.nonce.to_le_bytes());
    *blake3::hash(&input).as_bytes()
}

#[test]
fn summary_hash_is_blake3_of_key_and_nonce_flag() {
    let mut witness = make_valid_witness();
    witness.nonce = 0;
    witness.allowed_binaries = vec![[5u8; 32], [6u8; 32]];
    let summary = witness_summary(&witness);
    assert_eq!(summary.public_key_hash, *blake3::hash(&witness.public_key).as_bytes());
    assert_ne!(summary.public_key_hash, [0u8; 32]);
    assert_eq!(summary.allowlist_count, 2);
    assert!(!summary.has_nonce);
}

#[test]
fn summary_from_key_hash_keeps_given_hash() {
    let witness = make_valid_witness();
    let summary = summary_from_key_hash(&witness, [9u8; 32]);
    assert_eq!(summary.public_key_hash, [9u8; 32]);
    assert_eq!(summary.public_key_size, ML_DSA_65_PUBLIC_KEY_SIZE);
}

#[test]
fn outputs_for_empty_allowlist() {
    let witness = make_valid_witness();
    let outputs = compute_public_outputs(&witness).expect("empty allowlist admits any binary");
    assert_eq!(outputs.entangled_id, expected_entangled_id(&witness));
    assert_eq!(outputs.public_key_hash, *blake3::hash(&witness.public_key).as_bytes());
    assert_eq!(outputs.binary_hash, witness.binary_hash);
    assert_eq!(outputs.proof_timestamp, witness.timestamp);
    assert_ne!(outputs.entangled_id, outputs.public_key_hash);
}

#[test]
fn outputs_for_listed_binary() {
    let mut witness = make_valid_witness();
    witness.allowed_binaries = vec![[2u8; 32], [1u8; 32], [3u8; 32]];
    let outputs = compute_public_outputs(&witness).expect("binary is listed");
    assert_eq!(outputs.entangled_id, expected_entangled_id(&witness));
}

#[test]
fn outputs_refused_for_unlisted_binary() {
    let mut witness = make_valid_witness();
    witness.allowed_binaries = vec![[2u8; 32], [3u8; 32]];
    assert_eq!(
        compute_public_outputs(&witness).err(),
        Some(AttestationError::BinaryNotAllowed)
    );
    assert_eq!(
        public_outputs_from_hashes(&witness, [7u8; 32], [8u8; 32]).err(),
        Some(AttestationError::BinaryNotAllowed)
    );
}

#[test]
fn entangled_id_depends_on_nonce() {
    let mut witness = make_valid_witness();
    let first = compute_public_outputs(&witness).unwrap();
    witness.nonce = 12346;
    let second = compute_public_outputs(&witness).unwrap();
    assert_ne!(first.entangled_id, second.entangled_id);
    assert_eq!(first.public_key_hash, second.public_key_hash);
}

#[test]
fn outputs_from_hashes_place_given_hashes() {
    let mut witness = make_valid_witness();
    witness.allowed_binaries = vec![[1u8; 32]];
    let outputs = public_outputs_from_hashes(&witness, [7u8; 32], [8u8; 32]).unwrap();
    assert_eq!(outputs.entangled_id, [7u8; 32]);
    assert_eq!(outputs.public_key_hash, [8u8; 32]);
    assert_eq!(outputs.binary_hash, [1u8; 32]);
    assert_eq!(outputs.proof_timestamp, witness.timestamp);
}

#[test]
fn summary_and_outputs_agree() {
    let mut witness = make_valid_witness();
    witness.public_key = vec![42u8; ML_DSA_65_PUBLIC_KEY_SIZE];
    let summary = witness_summary(&witness);
    let outputs = compute_public_outputs(&witness).unwrap();
    assert_eq!(summary.public_key_hash, outputs.public_key_hash);
    assert_eq!(summary.binary_hash, outputs.binary_hash);
}

#[test]
fn outputs_ignore_the_allowlist_contents() {
    let mut w1 = make_valid_witness();
    let mut w2 = make_valid_witness();
    w1.allowed_binaries = vec![];
    w2.allowed_binaries = vec![[9u8; 32], [1u8; 32]];
    let o1 = compute_public_outputs(&w1).unwrap();
    let o2 = compute_public_outputs(&w2).unwrap();
    assert_eq!(o1.entangled_id, o2.entangled_id);
    assert_eq!(o1.public_key_hash, o2.public_key_hash);
    assert_eq!(o1.binary_hash, o2.binary_hash);
    assert_eq!(o1.proof_timestamp, o2.proof_timestamp);
}
