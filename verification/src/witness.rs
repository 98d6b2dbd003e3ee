use vstd::prelude::*;

verus! {

/// ML-DSA-65 public key size in bytes.
pub const ML_DSA_65_PUBLIC_KEY_SIZE: usize = 1952;

/// Minimum allowed timestamp (Jan 1, 2024 00:00:00 UTC).
pub const MIN_TIMESTAMP: u64 = 1_704_067_200;

/// Maximum timestamp skew in seconds (1 hour into the future).
pub const MAX_TIMESTAMP_SKEW: u64 = 3600;

/// Maximum number of entries in the binary allowlist.
pub const MAX_ALLOWED_BINARIES: usize = 1000;

/// Private witness data provided by the prover.
#[derive(Clone)]
pub struct AttestationWitness {
    /// ML-DSA-65 public key (1952 bytes).
    pub public_key: Vec<u8>,
    /// BLAKE3 hash of the binary this identity is bound to.
    pub binary_hash: [u8; 32],
    /// Nonce used in `EntangledId` derivation.
    pub nonce: u64,
    /// Optional allowlist of authorized binary hashes.
    pub allowed_binaries: Vec<[u8; 32]>,
    /// Unix timestamp when the proof was generated.
    pub timestamp: u64,
}

/// Public outputs committed to the proof.
pub struct AttestationPublicOutputs {
    /// The derived `EntangledId`: `BLAKE3(PK || binary_hash || nonce)`.
    pub entangled_id: [u8; 32],
    /// Hash of the binary this identity is bound to.
    pub binary_hash: [u8; 32],
    /// Hash of the public key: `BLAKE3(public_key)`.
    pub public_key_hash: [u8; 32],
    /// Unix timestamp when the proof was generated.
    pub proof_timestamp: u64,
}

/// Summary of witness data for diagnostics (hides sensitive values).
#[derive(Debug, Clone)]
pub struct WitnessSummary {
    /// Size of the public key in bytes.
    pub public_key_size: usize,
    /// Hash of the public key (not the key itself).
    pub public_key_hash: [u8; 32],
    /// Binary hash from the witness.
    pub binary_hash: [u8; 32],
    /// Timestamp from the witness.
    pub timestamp: u64,
    /// Number of binaries in the allowlist.
    pub allowlist_count: usize,
    /// Whether a non-zero nonce is set.
    pub has_nonce: bool,
}

/// A hash whose every byte is zero.
pub open spec fn is_zero_hash(h: Seq<u8>) -> bool {
    forall|i: int| 0 <= i < h.len() ==> h[i] == 0
}

} // verus!
