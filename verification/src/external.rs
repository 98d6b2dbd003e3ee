//! Trusted items: the calls into `blake3` and `saorsa-logic`.
use vstd::prelude::*;

use saorsa_logic::LogicError;

verus! {

/// The BLAKE3 digest (32 bytes, default output length) of `input`.
pub uninterp spec fn blake3_digest(input: Seq<u8>) -> Seq<u8>;

/// The eight bytes of `n`, least significant first (`u64::to_le_bytes`).
pub open spec fn le_bytes(n: u64) -> Seq<u8> {
    vstd::bytes::spec_u64_to_le_bytes(n)
}

/// The bytes hashed into an `EntangledId`: `public_key || binary_hash || nonce`,
/// the nonce as eight little-endian bytes.
pub open spec fn entangled_id_preimage(public_key: Seq<u8>, binary_hash: Seq<u8>, nonce: u64) -> Seq<
    u8,
> {
    public_key + binary_hash + le_bytes(nonce)
}

/// Whether `hash` is one of the entries of `allowlist`.
pub open spec fn listed(allowlist: Seq<[u8; 32]>, hash: Seq<u8>) -> bool {
    exists|i: int| 0 <= i < allowlist.len() && #[trigger] allowlist[i]@ == hash
}

/// The error type of `saorsa-logic`, carried through opaquely.
#[verifier::external_type_specification]
#[verifier::external_body]
pub struct ExLogicError(LogicError);

/// Calls `blake3::hash` and returns the digest's bytes
/// (`Hash::as_bytes`). Trusted to return `blake3_digest` of the input.
#[verifier::external_body]
pub(crate) fn blake3_hash(data: &[u8]) -> (digest: [u8; 32])
    ensures
        digest@ == blake3_digest(data@),
{
    *blake3::hash(data).as_bytes()
}

/// Calls `saorsa_logic::attestation::derive_entangled_id`. Its source feeds
/// `public_key`, `binary_hash` and `nonce.to_le_bytes()` into one
/// `blake3::Hasher` and returns the finalized digest; `blake3` documents
/// incremental updates as equal to hashing the concatenation. Trusted to
/// return `blake3_digest` of that concatenation.
#[verifier::external_body]
pub(crate) fn derive_entangled_id(public_key: &[u8], binary_hash: &[u8; 32], nonce: u64) -> (id: [u8;
    32])
    ensures
        id@ == blake3_digest(entangled_id_preimage(public_key@, binary_hash@, nonce)),
{
    saorsa_logic::attestation::derive_entangled_id(public_key, binary_hash, nonce)
}

/// Calls `saorsa_logic::attestation::verify_binary_allowlist`, which scans
/// the allowlist for an entry equal to `binary_hash`. Trusted to return `Ok`
/// exactly when such an entry exists; which error it returns otherwise
/// (`BinaryNotAllowed` in its source) is not stated.
#[verifier::external_body]
pub(crate) fn verify_binary_allowlist(binary_hash: &[u8; 32], allowlist: &[[u8; 32]]) -> (r: Result<
    (),
    LogicError,
>)
    ensures
        r is Ok <==> listed(allowlist@, binary_hash@),
{
    saorsa_logic::attestation::verify_binary_allowlist(binary_hash, allowlist)
}

/// The nonce encoding is the eight little-endian bytes of the nonce: it has
/// length 8 and decoding it little-endian gives the nonce back.
pub proof fn law_nonce_encoding(n: u64)
    ensures
        le_bytes(n).len() == 8,
        vstd::bytes::spec_u64_from_le_bytes(le_bytes(n)) == n,
{
    vstd::bytes::lemma_auto_spec_u64_to_from_le_bytes();
}

/// Layout of the `EntangledId` preimage: the public key, then the binary
/// hash, then the eight bytes that decode little-endian to the nonce.
pub proof fn law_entangled_id_preimage_layout(public_key: Seq<u8>, binary_hash: Seq<u8>, nonce: u64)
    ensures
        ({
            let p = entangled_id_preimage(public_key, binary_hash, nonce);
            let k = public_key.len() as int;
            let b = binary_hash.len() as int;
            &&& p.len() == k + b + 8
            &&& p.subrange(0, k) == public_key
            &&& p.subrange(k, k + b) == binary_hash
            &&& vstd::bytes::spec_u64_from_le_bytes(p.subrange(k + b, k + b + 8)) == nonce
        }),
{
    law_nonce_encoding(nonce);
    let p = entangled_id_preimage(public_key, binary_hash, nonce);
    let k = public_key.len() as int;
    let b = binary_hash.len() as int;
    assert(p.subrange(0, k) =~= public_key);
    assert(p.subrange(k, k + b) =~= binary_hash);
    assert(p.subrange(k + b, k + b + 8) =~= le_bytes(nonce));
}

/// `listed` means what it says: some position of the allowlist holds the
/// hash.
pub proof fn law_listed(allowlist: Seq<[u8; 32]>, hash: Seq<u8>)
    ensures
        listed(allowlist, hash) <==> exists|i: int|
            0 <= i < allowlist.len() && #[trigger] allowlist[i]@ == hash,
{
}

} // verus!
