use vstd::prelude::*;

use crate::witness::{
    is_zero_hash, AttestationWitness, MAX_ALLOWED_BINARIES, MAX_TIMESTAMP_SKEW, MIN_TIMESTAMP,
    ML_DSA_65_PUBLIC_KEY_SIZE,
};

verus! {

/// Witness validation error types.
#[derive(Debug, Clone, PartialEq, Eq)]
pub enum WitnessValidationError {
    /// Public key is empty.
    EmptyPublicKey,
    /// Public key size is invalid (expected 1952 bytes for ML-DSA-65).
    InvalidPublicKeySize { actual: usize, expected: usize },
    /// Binary hash is all zeros.
    ZeroBinaryHash,
    /// Timestamp is before minimum allowed.
    TimestampTooOld { timestamp: u64, minimum: u64 },
    /// Timestamp is too far in the future.
    TimestampInFuture { timestamp: u64, maximum: u64 },
    /// Allowlist contains too many entries.
    AllowlistTooLarge { count: usize, maximum: usize },
    /// Allowlist contains duplicate entries.
    DuplicateAllowlistEntry,
    /// Allowlist contains all-zero hash (invalid).
    ZeroHashInAllowlist,
}

/// The latest timestamp accepted at `current_time`: `current_time + skew`,
/// saturating at `u64::MAX`.
pub open spec fn max_timestamp(current_time: u64) -> u64 {
    if current_time + MAX_TIMESTAMP_SKEW > u64::MAX {
        u64::MAX
    } else {
        (current_time + MAX_TIMESTAMP_SKEW) as u64
    }
}

/// Some entry of the allowlist is the all-zero hash.
pub open spec fn has_zero_entry(allowlist: Seq<[u8; 32]>) -> bool {
    exists|i: int| 0 <= i < allowlist.len() && is_zero_hash(#[trigger] allowlist[i]@)
}

/// Two different positions of the allowlist hold the same hash.
pub open spec fn has_duplicate_entry(allowlist: Seq<[u8; 32]>) -> bool {
    exists|i: int, j: int|
        0 <= i < j < allowlist.len() && #[trigger] allowlist[i]@ == #[trigger] allowlist[j]@
}

/// The outcome of validating `w` at `current_time`: the first check that
/// fails, in the order key, binary hash, timestamp, allowlist.
pub open spec fn validation_outcome(w: AttestationWitness, current_time: u64) -> Result<
    (),
    WitnessValidationError,
> {
    if w.public_key@.len() == 0 {
        Err(WitnessValidationError::EmptyPublicKey)
    } else if w.public_key@.len() != ML_DSA_65_PUBLIC_KEY_SIZE {
        Err(
            WitnessValidationError::InvalidPublicKeySize {
                actual: w.public_key@.len() as usize,
                expected: ML_DSA_65_PUBLIC_KEY_SIZE,
            },
        )
    } else if is_zero_hash(w.binary_hash@) {
        Err(WitnessValidationError::ZeroBinaryHash)
    } else if w.timestamp < MIN_TIMESTAMP {
        Err(WitnessValidationError::TimestampTooOld { timestamp: w.timestamp, minimum: MIN_TIMESTAMP })
    } else if w.timestamp > max_timestamp(current_time) {
        Err(
            WitnessValidationError::TimestampInFuture {
                timestamp: w.timestamp,
                maximum: max_timestamp(current_time),
            },
        )
    } else if w.allowed_binaries@.len() > MAX_ALLOWED_BINARIES {
        Err(
            WitnessValidationError::AllowlistTooLarge {
                count: w.allowed_binaries@.len() as usize,
                maximum: MAX_ALLOWED_BINARIES,
            },
        )
    } else if has_zero_entry(w.allowed_binaries@) {
        Err(WitnessValidationError::ZeroHashInAllowlist)
    } else if has_duplicate_entry(w.allowed_binaries@) {
        Err(WitnessValidationError::DuplicateAllowlistEntry)
    } else {
        Ok(())
    }
}

/// Whether every byte of `h` is zero.
fn all_zero(h: &[u8; 32]) -> (zero: bool)
    ensures
        zero == is_zero_hash(h@),
{
    let mut i: usize = 0;
    while i < 32
        invariant
            i <= 32,
            h@.len() == 32,
            forall|k: int| 0 <= k < i ==> h@[k] == 0,
        decreases 32 - i,
    {
        if h[i] != 0 {
            return false;
        }
        i = i + 1;
    }
    true
}

/// Whether two hashes are byte-for-byte equal.
fn same_hash(a: &[u8; 32], b: &[u8; 32]) -> (eq: bool)
    ensures
        eq == (a@ == b@),
{
    let mut i: usize = 0;
    while i < 32
        invariant
            i <= 32,
            a@.len() == 32,
            b@.len() == 32,
            forall|k: int| 0 <= k < i ==> a@[k] == b@[k],
        decreases 32 - i,
    {
        if a[i] != b[i] {
            return false;
        }
        i = i + 1;
    }
    assert(a@ =~= b@);
    true
}

/// Whether some entry of the allowlist is the all-zero hash.
fn contains_zero_hash(allowlist: &Vec<[u8; 32]>) -> (found: bool)
    ensures
        found == has_zero_entry(allowlist@),
{
    let n = allowlist.len();
    let mut i: usize = 0;
    while i < n
        invariant
            i <= n,
            n == allowlist@.len(),
            forall|k: int| 0 <= k < i ==> !is_zero_hash(#[trigger] allowlist@[k]@),
        decreases n - i,
    {
        if all_zero(&allowlist[i]) {
            return true;
        }
        i = i + 1;
    }
    false
}

/// Whether two positions of the allowlist hold the same hash.
fn contains_duplicate(allowlist: &Vec<[u8; 32]>) -> (found: bool)
    ensures
        found == has_duplicate_entry(allowlist@),
{
    let n = allowlist.len();
    let mut i: usize = 0;
    while i < n
        invariant
            i <= n,
            n == allowlist@.len(),
            forall|a: int, b: int|
                0 <= a < i && a < b < n ==> #[trigger] allowlist@[a]@ != #[trigger] allowlist@[b]@,
        decreases n - i,
    {
        let mut j: usize = i + 1;
        while j < n
            invariant
                i < n,
                i + 1 <= j <= n,
                n == allowlist@.len(),
                forall|b: int| i < b < j ==> allowlist@[i as int]@ != #[trigger] allowlist@[b]@,
            decreases n - j,
        {
            if same_hash(&allowlist[i], &allowlist[j]) {
                return true;
            }
            j = j + 1;
        }
        i = i + 1;
    }
    false
}

/// Validate witness data before proof generation.
///
/// Checks, in order: the public key is non-empty and has the ML-DSA-65 size;
/// the binary hash is not all zeros; the timestamp is not before
/// `MIN_TIMESTAMP` and not after `current_time + MAX_TIMESTAMP_SKEW`
/// (saturating); the allowlist has at most `MAX_ALLOWED_BINARIES` entries,
/// none of them all zeros and no two equal. The first failing check is
/// reported.
pub fn validate_witness(witness: &AttestationWitness, current_time: u64) -> (result: Result<
    (),
    WitnessValidationError,
>)
    ensures
        result == validation_outcome(*witness, current_time),
{
    if witness.public_key.len() == 0 {
        return Err(WitnessValidationError::EmptyPublicKey);
    }
    if witness.public_key.len() != ML_DSA_65_PUBLIC_KEY_SIZE {
        return Err(
            WitnessValidationError::InvalidPublicKeySize {
                actual: witness.public_key.len(),
                expected: ML_DSA_65_PUBLIC_KEY_SIZE,
            },
        );
    }
    if all_zero(&witness.binary_hash) {
        return Err(WitnessValidationError::ZeroBinaryHash);
    }
    if witness.timestamp < MIN_TIMESTAMP {
        return Err(
            WitnessValidationError::TimestampTooOld {
                timestamp: witness.timestamp,
                minimum: MIN_TIMESTAMP,
            },
        );
    }
    let max_ts = current_time.saturating_add(MAX_TIMESTAMP_SKEW);
    if witness.timestamp > max_ts {
        return Err(
            WitnessValidationError::TimestampInFuture { timestamp: witness.timestamp, maximum: max_ts },
        );
    }
    if witness.allowed_binaries.len() > MAX_ALLOWED_BINARIES {
        return Err(
            WitnessValidationError::AllowlistTooLarge {
                count: witness.allowed_binaries.len(),
                maximum: MAX_ALLOWED_BINARIES,
            },
        );
    }
    if contains_zero_hash(&witness.allowed_binaries) {
        return Err(WitnessValidationError::ZeroHashInAllowlist);
    }
    if contains_duplicate(&witness.allowed_binaries) {
        return Err(WitnessValidationError::DuplicateAllowlistEntry);
    }
    Ok(())
}

/// A witness that validates at some time also validates at every later
/// time: the only check that depends on the current time is the upper bound
/// on the timestamp, and that bound never decreases.
pub proof fn lemma_validation_monotone_in_time(w: AttestationWitness, earlier: u64, later: u64)
    requires
        earlier <= later,
        validation_outcome(w, earlier) is Ok,
    ensures
        validation_outcome(w, later) is Ok,
{
}

/// What a successful validation guarantees of the witness: an ML-DSA-65
/// sized public key, a binary hash that is not all zeros, a timestamp in
/// `[MIN_TIMESTAMP, current_time + MAX_TIMESTAMP_SKEW]` (saturating), and an
/// allowlist of at most `MAX_ALLOWED_BINARIES` entries, none all zeros and no
/// two equal.
pub proof fn lemma_valid_witness_properties(w: AttestationWitness, current_time: u64)
    requires
        validation_outcome(w, current_time) is Ok,
    ensures
        w.public_key@.len() == ML_DSA_65_PUBLIC_KEY_SIZE,
        !is_zero_hash(w.binary_hash@),
        MIN_TIMESTAMP <= w.timestamp <= max_timestamp(current_time),
        w.allowed_binaries@.len() <= MAX_ALLOWED_BINARIES,
        forall|i: int|
            0 <= i < w.allowed_binaries@.len() ==> !is_zero_hash(#[trigger] w.allowed_binaries@[i]@),
        forall|i: int, j: int|
            0 <= i < j < w.allowed_binaries@.len() ==> #[trigger] w.allowed_binaries@[i]@
                != #[trigger] w.allowed_binaries@[j]@,
{
}

/// The public-key checks: `EmptyPublicKey` is reported exactly for an empty
/// key, and `InvalidPublicKeySize { actual: n, expected: 1952 }` exactly for a
/// key of any other length `n != 1952`, too short or too long.
pub proof fn law_public_key_checks(w: AttestationWitness, current_time: u64)
    ensures
        (validation_outcome(w, current_time) == Err::<(), WitnessValidationError>(
            WitnessValidationError::EmptyPublicKey,
        )) <==> w.public_key@.len() == 0,
        (w.public_key@.len() != 0 && w.public_key@.len() != ML_DSA_65_PUBLIC_KEY_SIZE) <==> (
        validation_outcome(w, current_time) == Err::<(), WitnessValidationError>(
            WitnessValidationError::InvalidPublicKeySize {
                actual: w.public_key@.len() as usize,
                expected: ML_DSA_65_PUBLIC_KEY_SIZE,
            },
        )),
        (validation_outcome(w, current_time) matches Err(
            WitnessValidationError::InvalidPublicKeySize { .. },
        )) ==> w.public_key@.len() != 0 && w.public_key@.len() != ML_DSA_65_PUBLIC_KEY_SIZE,
{
}

/// The binary-hash check: with a well-sized key, `ZeroBinaryHash` is reported
/// exactly when the binary hash equals `[0u8; 32]`; any other hash (one
/// non-zero byte is enough) passes.
pub proof fn law_binary_hash_check(w: AttestationWitness, current_time: u64)
    ensures
        (validation_outcome(w, current_time) == Err::<(), WitnessValidationError>(
            WitnessValidationError::ZeroBinaryHash,
        )) <==> (w.public_key@.len() == ML_DSA_65_PUBLIC_KEY_SIZE && w.binary_hash == [0u8; 32usize]),
{
    lemma_zero_hash_is_zero_array(w.binary_hash);
}

/// The timestamp checks, reached with a well-sized key and a binary hash
/// other than `[0u8; 32]`: `TimestampTooOld` exactly when the timestamp is
/// before `MIN_TIMESTAMP`, else `TimestampInFuture` exactly when it exceeds
/// `current_time + MAX_TIMESTAMP_SKEW`; the reported maximum is that sum,
/// capped at `u64::MAX`.
pub proof fn law_timestamp_checks(w: AttestationWitness, current_time: u64)
    ensures
        (validation_outcome(w, current_time) matches Err(
            WitnessValidationError::TimestampTooOld { .. },
        )) <==> (w.public_key@.len() == ML_DSA_65_PUBLIC_KEY_SIZE && w.binary_hash != [0u8; 32usize]
            && w.timestamp < MIN_TIMESTAMP),
        validation_outcome(w, current_time) matches Err(
            WitnessValidationError::TimestampTooOld { timestamp, minimum },
        ) ==> timestamp == w.timestamp && minimum == MIN_TIMESTAMP,
        (validation_outcome(w, current_time) matches Err(
            WitnessValidationError::TimestampInFuture { .. },
        )) <==> (w.public_key@.len() == ML_DSA_65_PUBLIC_KEY_SIZE && w.binary_hash != [0u8; 32usize]
            && w.timestamp >= MIN_TIMESTAMP && w.timestamp > current_time + MAX_TIMESTAMP_SKEW),
        validation_outcome(w, current_time) matches Err(
            WitnessValidationError::TimestampInFuture { timestamp, maximum },
        ) ==> timestamp == w.timestamp && maximum as int == (if current_time + MAX_TIMESTAMP_SKEW
            <= u64::MAX {
            current_time + MAX_TIMESTAMP_SKEW
        } else {
            u64::MAX as int
        }),
{
    lemma_zero_hash_is_zero_array(w.binary_hash);
}

/// The allowlist checks, reached once key, binary hash and timestamp pass:
/// `AllowlistTooLarge` exactly for more than `MAX_ALLOWED_BINARIES` entries,
/// else `ZeroHashInAllowlist` exactly when some entry equals `[0u8; 32]` (an
/// entry with a single non-zero byte is not reported), else
/// `DuplicateAllowlistEntry` exactly when two positions hold equal hashes.
pub proof fn law_allowlist_checks(w: AttestationWitness, current_time: u64)
    ensures
        (validation_outcome(w, current_time) matches Err(
            WitnessValidationError::AllowlistTooLarge { .. },
        )) <==> (w.public_key@.len() == ML_DSA_65_PUBLIC_KEY_SIZE && w.binary_hash != [0u8; 32usize]
            && MIN_TIMESTAMP <= w.timestamp && w.timestamp <= current_time + MAX_TIMESTAMP_SKEW
            && w.allowed_binaries@.len() > MAX_ALLOWED_BINARIES),
        validation_outcome(w, current_time) matches Err(
            WitnessValidationError::AllowlistTooLarge { count, maximum },
        ) ==> count == w.allowed_binaries.len() && maximum == MAX_ALLOWED_BINARIES,
        (validation_outcome(w, current_time) == Err::<(), WitnessValidationError>(
            WitnessValidationError::ZeroHashInAllowlist,
        )) <==> (w.public_key@.len() == ML_DSA_65_PUBLIC_KEY_SIZE && w.binary_hash != [0u8; 32usize]
            && MIN_TIMESTAMP <= w.timestamp && w.timestamp <= current_time + MAX_TIMESTAMP_SKEW
            && w.allowed_binaries@.len() <= MAX_ALLOWED_BINARIES && (exists|i: int|
            0 <= i < w.allowed_binaries@.len() && #[trigger] w.allowed_binaries@[i] == [0u8; 32usize])),
        (validation_outcome(w, current_time) == Err::<(), WitnessValidationError>(
            WitnessValidationError::DuplicateAllowlistEntry,
        )) <==> (w.public_key@.len() == ML_DSA_65_PUBLIC_KEY_SIZE && w.binary_hash != [0u8; 32usize]
            && MIN_TIMESTAMP <= w.timestamp && w.timestamp <= current_time + MAX_TIMESTAMP_SKEW
            && w.allowed_binaries@.len() <= MAX_ALLOWED_BINARIES && !(exists|i: int|
            0 <= i < w.allowed_binaries@.len() && #[trigger] w.allowed_binaries@[i] == [0u8; 32usize])
            && (exists|i: int, j: int|
            0 <= i < j < w.allowed_binaries@.len() && #[trigger] w.allowed_binaries@[i]
                == #[trigger] w.allowed_binaries@[j])),
{
    lemma_zero_hash_is_zero_array(w.binary_hash);
    lemma_allowlist_entries(w.allowed_binaries@);
}

/// Completeness and soundness of validation: a witness validates exactly
/// when its key has 1952 bytes, its binary hash is not `[0u8; 32]`, its
/// timestamp lies in `[MIN_TIMESTAMP, current_time + MAX_TIMESTAMP_SKEW]`, and
/// its allowlist has at most `MAX_ALLOWED_BINARIES` entries, none equal to
/// `[0u8; 32]` and no two equal.
pub proof fn law_validation_succeeds_iff(w: AttestationWitness, current_time: u64)
    ensures
        (validation_outcome(w, current_time) is Ok) <==> (w.public_key@.len()
            == ML_DSA_65_PUBLIC_KEY_SIZE && w.binary_hash != [0u8; 32usize] && MIN_TIMESTAMP
            <= w.timestamp && w.timestamp <= current_time + MAX_TIMESTAMP_SKEW
            && w.allowed_binaries@.len() <= MAX_ALLOWED_BINARIES && (forall|i: int|
            0 <= i < w.allowed_binaries@.len() ==> #[trigger] w.allowed_binaries@[i] != [0u8; 32usize])
            && (forall|i: int, j: int|
            0 <= i < j < w.allowed_binaries@.len() ==> #[trigger] w.allowed_binaries@[i]
                != #[trigger] w.allowed_binaries@[j])),
{
    lemma_zero_hash_is_zero_array(w.binary_hash);
    lemma_allowlist_entries(w.allowed_binaries@);
}

/// A 32-byte hash is all zeros exactly when it equals `[0u8; 32]`.
proof fn lemma_zero_hash_is_zero_array(h: [u8; 32])
    ensures
        is_zero_hash(h@) == (h == [0u8; 32usize]),
{
    if is_zero_hash(h@) {
        assert(h =~= [0u8; 32usize]);
    }
}

/// The allowlist predicates, entry by entry: an all-zero entry is one equal
/// to `[0u8; 32]`, and two entries have equal bytes exactly when they are
/// equal.
proof fn lemma_allowlist_entries(a: Seq<[u8; 32]>)
    ensures
        has_zero_entry(a) == (exists|i: int| 0 <= i < a.len() && #[trigger] a[i] == [0u8; 32usize]),
        has_duplicate_entry(a) == (exists|i: int, j: int|
            0 <= i < j < a.len() && #[trigger] a[i] == #[trigger] a[j]),
{
    assert forall|i: int| #![trigger a[i]] 0 <= i < a.len() implies is_zero_hash(a[i]@) == (a[i]
        == [0u8; 32usize]) by {
        lemma_zero_hash_is_zero_array(a[i]);
    }
    assert forall|i: int, j: int|
        #![trigger a[i], a[j]]
        0 <= i < a.len() && 0 <= j < a.len() implies (a[i]@ == a[j]@) == (a[i] == a[j]) by {
        if a[i]@ == a[j]@ {
            assert(a[i] =~= a[j]);
        }
    }
    if has_zero_entry(a) {
        let i = choose|i: int| 0 <= i < a.len() && is_zero_hash(#[trigger] a[i]@);
        assert(a[i] == [0u8; 32usize]);
    }
    if has_duplicate_entry(a) {
        let (i, j) = choose|i: int, j: int|
            0 <= i < j < a.len() && #[trigger] a[i]@ == #[trigger] a[j]@;
        assert(a[i] == a[j]);
    }
}

} // verus!
