use vstd::prelude::*;

use crate::external::{
    blake3_digest, blake3_hash, derive_entangled_id, entangled_id_preimage, listed,
    verify_binary_allowlist,
};
use crate::witness::{AttestationPublicOutputs, AttestationWitness, WitnessSummary};

verus! {

/// Why the guest program refuses to produce public outputs.
#[derive(Debug, Clone, PartialEq, Eq)]
pub enum AttestationError {
    /// The allowlist is non-empty and does not hold the binary hash.
    BinaryNotAllowed,
}

/// The allowlist admits `binary_hash`: it is empty, or one of its entries
/// equals `binary_hash`.
pub open spec fn allowlist_admits(allowlist: Seq<[u8; 32]>, binary_hash: Seq<u8>) -> bool {
    allowlist.len() == 0 || listed(allowlist, binary_hash)
}

/// `s` is the diagnostic summary of `w`, given the hash of its public key.
pub open spec fn summary_with_key_hash(
    s: WitnessSummary,
    w: AttestationWitness,
    public_key_hash: Seq<u8>,
) -> bool {
    &&& s.public_key_size == w.public_key@.len()
    &&& s.public_key_hash@ == public_key_hash
    &&& s.binary_hash == w.binary_hash
    &&& s.timestamp == w.timestamp
    &&& s.allowlist_count == w.allowed_binaries@.len()
    &&& s.has_nonce == (w.nonce != 0)
}

/// `s` is the diagnostic summary of `w`: the public key's size and BLAKE3
/// hash, the binary hash, the timestamp, the allowlist's length and whether
/// the nonce is non-zero.
pub open spec fn summarizes(s: WitnessSummary, w: AttestationWitness) -> bool {
    summary_with_key_hash(s, w, blake3_digest(w.public_key@))
}

/// `o` holds the public outputs of `w`, given its `EntangledId` and the hash
/// of its public key.
pub open spec fn outputs_with_hashes(
    o: AttestationPublicOutputs,
    w: AttestationWitness,
    entangled_id: Seq<u8>,
    public_key_hash: Seq<u8>,
) -> bool {
    &&& o.entangled_id@ == entangled_id
    &&& o.binary_hash == w.binary_hash
    &&& o.public_key_hash@ == public_key_hash
    &&& o.proof_timestamp == w.timestamp
}

/// `o` holds the public outputs of `w`:
/// `entangled_id = BLAKE3(public_key || binary_hash || nonce_le)`,
/// `public_key_hash = BLAKE3(public_key)`, the binary hash and the timestamp.
pub open spec fn attests(o: AttestationPublicOutputs, w: AttestationWitness) -> bool {
    outputs_with_hashes(
        o,
        w,
        blake3_digest(entangled_id_preimage(w.public_key@, w.binary_hash@, w.nonce)),
        blake3_digest(w.public_key@),
    )
}

/// Builds the diagnostic summary of `witness` from the hash of its public key.
pub fn summary_from_key_hash(witness: &AttestationWitness, public_key_hash: [u8; 32]) -> (s:
    WitnessSummary)
    ensures
        summary_with_key_hash(s, *witness, public_key_hash@),
        s.public_key_size == witness.public_key@.len(),
        s.public_key_hash == public_key_hash,
        s.binary_hash == witness.binary_hash,
        s.timestamp == witness.timestamp,
        s.allowlist_count == witness.allowed_binaries@.len(),
        s.has_nonce == (witness.nonce != 0),
{
    WitnessSummary {
        public_key_size: witness.public_key.len(),
        public_key_hash,
        binary_hash: witness.binary_hash,
        timestamp: witness.timestamp,
        allowlist_count: witness.allowed_binaries.len(),
        has_nonce: witness.nonce != 0,
    }
}

/// Diagnostic summary of witness data. Does not reveal the public key or the
/// nonce: only the key's size and BLAKE3 hash, and whether a nonce is set.
pub fn witness_summary(witness: &AttestationWitness) -> (s: WitnessSummary)
    ensures
        summarizes(s, *witness),
        s.public_key_size == witness.public_key@.len(),
        s.public_key_hash@ == blake3_digest(witness.public_key@),
        s.binary_hash == witness.binary_hash,
        s.timestamp == witness.timestamp,
        s.allowlist_count == witness.allowed_binaries@.len(),
        s.has_nonce == (witness.nonce != 0),
{
    let public_key_hash = blake3_hash(witness.public_key.as_slice());
    summary_from_key_hash(witness, public_key_hash)
}

/// Assembles the public outputs of `witness` from its `EntangledId` and the
/// hash of its public key, after checking the allowlist: when the allowlist
/// is non-empty, the binary hash must be one of its entries.
pub fn public_outputs_from_hashes(
    witness: &AttestationWitness,
    entangled_id: [u8; 32],
    public_key_hash: [u8; 32],
) -> (r: Result<AttestationPublicOutputs, AttestationError>)
    ensures
        match r {
            Ok(o) => allowlist_admits(witness.allowed_binaries@, witness.binary_hash@)
                && outputs_with_hashes(o, *witness, entangled_id@, public_key_hash@),
            Err(e) => !allowlist_admits(witness.allowed_binaries@, witness.binary_hash@) && e
                == AttestationError::BinaryNotAllowed,
        },
        (r is Ok) <==> (witness.allowed_binaries@.len() == 0 || exists|i: int|
            0 <= i < witness.allowed_binaries@.len() && #[trigger] witness.allowed_binaries@[i]@
                == witness.binary_hash@),
        r matches Ok(o) ==> o.entangled_id == entangled_id && o.public_key_hash == public_key_hash
            && o.binary_hash == witness.binary_hash && o.proof_timestamp == witness.timestamp,
{
    if witness.allowed_binaries.len() != 0 && verify_binary_allowlist(
        &witness.binary_hash,
        witness.allowed_binaries.as_slice(),
    ).is_err() {
        return Err(AttestationError::BinaryNotAllowed);
    }
    Ok(
        AttestationPublicOutputs {
            entangled_id,
            binary_hash: witness.binary_hash,
            public_key_hash,
            proof_timestamp: witness.timestamp,
        },
    )
}

/// The computation proven by the guest program: derives the `EntangledId`,
/// hashes the public key, checks the binary allowlist when it is non-empty,
/// and returns the outputs to commit. Fails, and no proof may be produced,
/// when the allowlist is non-empty and does not hold the binary hash.
pub fn compute_public_outputs(witness: &AttestationWitness) -> (r: Result<
    AttestationPublicOutputs,
    AttestationError,
>)
    ensures
        match r {
            Ok(o) => allowlist_admits(witness.allowed_binaries@, witness.binary_hash@) && attests(
                o,
                *witness,
            ),
            Err(e) => !allowlist_admits(witness.allowed_binaries@, witness.binary_hash@) && e
                == AttestationError::BinaryNotAllowed,
        },
        (r is Ok) <==> (witness.allowed_binaries@.len() == 0 || exists|i: int|
            0 <= i < witness.allowed_binaries@.len() && #[trigger] witness.allowed_binaries@[i]@
                == witness.binary_hash@),
        r matches Ok(o) ==> o.entangled_id@ == blake3_digest(
            witness.public_key@ + witness.binary_hash@ + vstd::bytes::spec_u64_to_le_bytes(
                witness.nonce,
            ),
        ) && o.public_key_hash@ == blake3_digest(witness.public_key@) && o.binary_hash
            == witness.binary_hash && o.proof_timestamp == witness.timestamp,
{
    let entangled_id = derive_entangled_id(
        witness.public_key.as_slice(),
        &witness.binary_hash,
        witness.nonce,
    );
    let public_key_hash = blake3_hash(witness.public_key.as_slice());
    public_outputs_from_hashes(witness, entangled_id, public_key_hash)
}

/// The diagnostic summary and the public outputs of one witness commit to the
/// same public key hash and the same binary hash.
pub proof fn lemma_summary_agrees_with_outputs(
    w: AttestationWitness,
    s: WitnessSummary,
    o: AttestationPublicOutputs,
)
    requires
        summarizes(s, w),
        attests(o, w),
    ensures
        s.public_key_hash == o.public_key_hash,
        s.binary_hash == o.binary_hash,
{
    assert(s.public_key_hash =~= o.public_key_hash);
}

/// The public outputs depend only on the public key, the binary hash, the
/// nonce and the timestamp: two witnesses that agree on these (whatever
/// their allowlists) have the same outputs.
pub proof fn lemma_outputs_determined_by_witness(
    w1: AttestationWitness,
    w2: AttestationWitness,
    o1: AttestationPublicOutputs,
    o2: AttestationPublicOutputs,
)
    requires
        attests(o1, w1),
        attests(o2, w2),
        w1.public_key@ == w2.public_key@,
        w1.binary_hash == w2.binary_hash,
        w1.nonce == w2.nonce,
        w1.timestamp == w2.timestamp,
    ensures
        o1 == o2,
{
    assert(o1.entangled_id =~= o2.entangled_id);
    assert(o1.public_key_hash =~= o2.public_key_hash);
}

/// Allowlist admission, stated over the entries: a binary is admitted
/// exactly when the allowlist is empty or some position, anywhere in the
/// list, holds its hash; with a non-empty allowlist and no such position it
/// is refused, whatever the allowlist's length.
pub proof fn law_allowlist_admission(allowlist: Seq<[u8; 32]>, binary_hash: Seq<u8>)
    ensures
        allowlist_admits(allowlist, binary_hash) <==> (allowlist.len() == 0 || exists|i: int|
            0 <= i < allowlist.len() && #[trigger] allowlist[i]@ == binary_hash),
        forall|i: int|
            0 <= i < allowlist.len() && #[trigger] allowlist[i]@ == binary_hash ==> allowlist_admits(
                allowlist,
                binary_hash,
            ),
        allowlist.len() > 0 && (forall|i: int|
            0 <= i < allowlist.len() ==> #[trigger] allowlist[i]@ != binary_hash) ==> !allowlist_admits(
            allowlist,
            binary_hash,
        ),
{
}

/// What a summary of a witness holds, field by field: the key's length
/// (whatever it is) and BLAKE3 hash, the binary hash, the timestamp, the
/// allowlist's length, and whether the nonce is non-zero.
pub proof fn law_summary_fields(s: WitnessSummary, w: AttestationWitness)
    requires
        summarizes(s, w),
    ensures
        s.public_key_size == w.public_key@.len(),
        s.public_key_hash@ == blake3_digest(w.public_key@),
        s.binary_hash == w.binary_hash,
        s.timestamp == w.timestamp,
        s.allowlist_count == w.allowed_binaries@.len(),
        s.has_nonce <==> w.nonce != 0,
{
}

/// What the public outputs of a witness hold, field by field:
/// `entangled_id = BLAKE3(public_key || binary_hash || nonce.to_le_bytes())`,
/// `public_key_hash = BLAKE3(public_key)`, the binary hash and the timestamp.
pub proof fn law_output_fields(o: AttestationPublicOutputs, w: AttestationWitness)
    requires
        attests(o, w),
    ensures
        o.entangled_id@ == blake3_digest(
            w.public_key@ + w.binary_hash@ + vstd::bytes::spec_u64_to_le_bytes(w.nonce),
        ),
        o.public_key_hash@ == blake3_digest(w.public_key@),
        o.binary_hash == w.binary_hash,
        o.proof_timestamp == w.timestamp,
{
}

} // verus!
