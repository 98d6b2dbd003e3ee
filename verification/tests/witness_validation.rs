use saorsa_attestation_guest::{
    validate_witness, AttestationWitness, WitnessValidationError, MAX_ALLOWED_BINARIES,
    MAX_TIMESTAMP_SKEW, MIN_TIMESTAMP, ML_DSA_65_PUBLIC_KEY_SIZE,
};

fn make_valid_witness() -> AttestationWitness {
    AttestationWitness {
        public_key: vec![0u8; ML_DSA_65_PUBLIC_KEY_SIZE],
        binary_hash: [1u8; 32], // Non-zero
        nonce: 12345,
        allowed_binaries: vec![],
        timestamp: MIN_TIMESTAMP + 1000,
    }
}

#[test]
fn test_validate_witness_valid() {
    let witness = make_valid_witness();
    let current_time = MIN_TIMESTAMP + 2000;
    assert!(validate_witness(&witness, current_time).is_ok());
}

#[test]
fn test_validate_witness_empty_public_key() {
    let mut witness = make_valid_witness();
    witness.public_key = vec![];
    let result = validate_witness(&witness, MIN_TIMESTAMP + 2000);
    assert_eq!(result, Err(WitnessValidationError::EmptyPublicKey));
}

#[test]
fn test_validate_witness_invalid_public_key_size() {
    let mut witness = make_valid_witness();
    witness.public_key = vec![0u8; 100]; // Wrong size
    let result = validate_witness(&witness, MIN_TIMESTAMP + 2000);
    assert_eq!(
        result,
        Err(WitnessValidationError::InvalidPublicKeySize {
            actual: 100,
            expected: ML_DSA_65_PUBLIC_KEY_SIZE
        })
    );
}

#[test]
fn test_validate_witness_zero_binary_hash() {
    let mut witness = make_valid_witness();
    witness.binary_hash = [0u8; 32];
    let result = validate_witness(&witness, MIN_TIMESTAMP + 2000);
    assert_eq!(result, Err(WitnessValidationError::ZeroBinaryHash));
}

#[test]
fn test_validate_witness_timestamp_too_old() {
    let mut witness = make_valid_witness();
    witness.timestamp = MIN_TIMESTAMP - 1;
    let result = validate_witness(&witness, MIN_TIMESTAMP + 2000);
    assert_eq!(
        result,
        Err(WitnessValidationError::TimestampTooOld {
            timestamp: MIN_TIMESTAMP - 1,
            minimum: MIN_TIMESTAMP
        })
    );
}

#[test]
fn test_validate_witness_timestamp_in_future() {
    let witness = make_valid_witness();
    let current_time = MIN_TIMESTAMP + 1000;
    // Witness timestamp is current_time + 1000, max is current_time + 3600
    // So this should be valid
    assert!(validate_witness(&witness, current_time).is_ok());

    // But if we set timestamp way in the future...
    let mut future_witness = witness.clone();
    future_witness.timestamp = current_time + MAX_TIMESTAMP_SKEW + 1;
    let result = validate_witness(&future_witness, current_time);
    assert_eq!(
        result,
        Err(WitnessValidationError::TimestampInFuture {
            timestamp: future_witness.timestamp,
            maximum: current_time + MAX_TIMESTAMP_SKEW
        })
    );
}

#[test]
fn test_validate_witness_allowlist_too_large() {
    let mut witness = make_valid_witness();
    witness.allowed_binaries = vec![[1u8; 32]; MAX_ALLOWED_BINARIES + 1];
    let result = validate_witness(&witness, MIN_TIMESTAMP + 2000);
    assert_eq!(
        result,
        Err(WitnessValidationError::AllowlistTooLarge {
            count: MAX_ALLOWED_BINARIES + 1,
            maximum: MAX_ALLOWED_BINARIES
        })
    );
}

#[test]
fn test_validate_witness_zero_hash_in_allowlist() {
    let mut witness = make_valid_witness();
    witness.allowed_binaries = vec![[0u8; 32]];
    let result = validate_witness(&witness, MIN_TIMESTAMP + 2000);
    assert_eq!(result, Err(WitnessValidationError::ZeroHashInAllowlist));
}

#[test]
fn test_validate_witness_duplicate_in_allowlist() {
    let mut witness = make_valid_witness();
    let hash = [42u8; 32];
    witness.allowed_binaries = vec![hash, hash];
    let result = validate_witness(&witness, MIN_TIMESTAMP + 2000);
    assert_eq!(result, Err(WitnessValidationError::DuplicateAllowlistEntry));
}

#[test]
fn test_witness_validation_error_display() {
    let err = WitnessValidationError::EmptyPublicKey;
    assert_eq!(err.message(), "public key is empty");

    let err = WitnessValidationError::InvalidPublicKeySize {
        actual: 100,
        expected: 1952,
    };
    assert_eq!(
        err.message(),
        "invalid public key size: 100 bytes (expected 1952)"
    );
}

// ---- further cases ----

#[test]
fn validation_error_messages_for_every_variant() {
    assert_eq!(
        WitnessValidationError::ZeroBinaryHash.message(),
        "binary hash is all zeros"
    );
    assert_eq!(
        WitnessValidationError::TimestampTooOld { timestamp: 0, minimum: MIN_TIMESTAMP }.message(),
        "timestamp 0 is before minimum 1704067200"
    );
    assert_eq!(
        WitnessValidationError::TimestampInFuture { timestamp: u64::MAX, maximum: 18446744073709551614 }
            .message(),
        "timestamp 18446744073709551615 exceeds maximum 18446744073709551614"
    );
    assert_eq!(
        WitnessValidationError::AllowlistTooLarge { count: 1001, maximum: 1000 }.message(),
        "allowlist has 1001 entries (maximum 1000)"
    );
    assert_eq!(
        WitnessValidationError::DuplicateAllowlistEntry.message(),
        "allowlist contains duplicate entries"
    );
    assert_eq!(
        WitnessValidationError::ZeroHashInAllowlist.message(),
        "allowlist contains all-zero hash"
    );
    assert_eq!(
        WitnessValidationError::InvalidPublicKeySize { actual: 0, expected: 10 }.message(),
        "invalid public key size: 0 bytes (expected 10)"
    );
}

#[test]
fn validation_checks_key_before_timestamp() {
    let mut witness = make_valid_witness();
    witness.public_key = vec![];
    witness.binary_hash = [0u8; 32];
    witness.timestamp = 0;
    assert_eq!(
        validate_witness(&witness, MIN_TIMESTAMP),
        Err(WitnessValidationError::EmptyPublicKey)
    );
}

#[test]
fn validation_zero_entry_reported_before_duplicates() {
    let mut witness = make_valid_witness();
    witness.allowed_binaries = vec![[7u8; 32], [7u8; 32], [0u8; 32]];
    assert_eq!(
        validate_witness(&witness, MIN_TIMESTAMP + 2000),
        Err(WitnessValidationError::ZeroHashInAllowlist)
    );
}

#[test]
fn validation_detects_distant_duplicates() {
    let mut witness = make_valid_witness();
    let mut a = [3u8; 32];
    a[31] = 9;
    witness.allowed_binaries = vec![a, [4u8; 32], [5u8; 32], a];
    assert_eq!(
        validate_witness(&witness, MIN_TIMESTAMP + 2000),
        Err(WitnessValidationError::DuplicateAllowlistEntry)
    );
    // Entries that differ only in their last byte are distinct.
    let mut b = a;
    b[31] = 10;
    witness.allowed_binaries = vec![a, b];
    assert!(validate_witness(&witness, MIN_TIMESTAMP + 2000).is_ok());
}

#[test]
fn validation_boundaries() {
    let mut witness = make_valid_witness();
    witness.timestamp = MIN_TIMESTAMP;
    assert!(validate_witness(&witness, MIN_TIMESTAMP).is_ok());
    witness.timestamp = MIN_TIMESTAMP + MAX_TIMESTAMP_SKEW;
    assert!(validate_witness(&witness, MIN_TIMESTAMP).is_ok());
    witness.allowed_binaries = (0..MAX_ALLOWED_BINARIES)
        .map(|i| {
            let mut h = [1u8; 32];
            h[0] = (i % 256) as u8;
            h[1] = (i / 256) as u8 + 1;
            h
        })
        .collect();
    assert!(validate_witness(&witness, MIN_TIMESTAMP).is_ok());
    // A hash with a single non-zero byte is not all zeros.
    let mut h = [0u8; 32];
    h[17] = 1;
    witness.binary_hash = h;
    assert!(validate_witness(&witness, MIN_TIMESTAMP).is_ok());
}

#[test]
fn validation_maximum_saturates() {
    let mut witness = make_valid_witness();
    witness.timestamp = u64::MAX;
    assert!(validate_witness(&witness, u64::MAX - 10).is_ok());
    assert_eq!(
        validate_witness(&witness, u64::MAX - MAX_TIMESTAMP_SKEW - 1),
        Err(WitnessValidationError::TimestampInFuture {
            timestamp: u64::MAX,
            maximum: u64::MAX - 1
        })
    );
}

#[test]
fn validation_stays_valid_at_later_times() {
    let witness = make_valid_witness();
    for t in [MIN_TIMESTAMP - 2600, MIN_TIMESTAMP, MIN_TIMESTAMP + 10_000, u64::MAX] {
        assert!(validate_witness(&witness, t).is_ok());
    }
    assert!(validate_witness(&witness, MIN_TIMESTAMP - 2601).is_err());
}
