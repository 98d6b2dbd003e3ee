//! Witness checks, diagnostics and public-output derivation for the
//! Entangled Attestation guest program.
//!
//! The guest proves that an `EntangledId` was derived as
//! `BLAKE3(public_key || binary_hash || nonce)`, commits to the public key by
//! its BLAKE3 hash, and optionally proves that the binary hash is on an
//! allowlist. This crate holds that logic with its contracts; reading the
//! witness and committing the outputs is left to the host program.

pub mod witness;
pub mod validation;
pub mod message;
pub mod external;
pub mod attestation;

pub use attestation::{
    compute_public_outputs, public_outputs_from_hashes, summary_from_key_hash, witness_summary,
    AttestationError,
};
pub use validation::{validate_witness, WitnessValidationError};
pub use witness::{
    AttestationPublicOutputs, AttestationWitness, WitnessSummary, MAX_ALLOWED_BINARIES,
    MAX_TIMESTAMP_SKEW, MIN_TIMESTAMP, ML_DSA_65_PUBLIC_KEY_SIZE,
};
