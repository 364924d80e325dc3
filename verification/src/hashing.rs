//! Leaf derivation for claim entries.
//!
//! A claim entry commits to `(claimant id, claim id, amount)` as
//! `SHA-256(user_id || claim_id || amount as 8 little-endian bytes)`.
//! The fixed-width little-endian encoding of the amount keeps the leaf
//! reproducible by the off-line tree builder.

use vstd::prelude::*;

use crate::byteseq::push_bytes;

verus! {

/// The SHA-256 digest of a byte sequence. The digest is a fixed function of
/// the input bytes; its definition lives in the hash function itself.
pub uninterp spec fn sha256_of(data: Seq<u8>) -> Seq<u8>;

/// Relies on sha2's `Sha256` (the `Digest` one-shot interface): the 32-byte
/// digest is determined by the input bytes alone.
#[verifier::external_body]
pub(crate) fn sha256(data: &Vec<u8>) -> (r: [u8; 32])
    ensures
        r@ == sha256_of(data@),
{
    let digest = <sha2::Sha256 as sha2::Digest>::digest(data.as_slice());
    digest.into()
}

/// The exact byte string a claim entry hashes: claimant id, claim id, and
/// the amount as eight little-endian bytes.
pub open spec fn claim_leaf_bytes(user_id: Seq<u8>, claim_id: Seq<u8>, amount: u64) -> Seq<u8> {
    user_id + claim_id + vstd::bytes::spec_u64_to_le_bytes(amount)
}

/// The leaf committed for one claim entry of one asset tree.
pub open spec fn claim_leaf_hash(user_id: Seq<u8>, claim_id: Seq<u8>, amount: u64) -> Seq<u8> {
    sha256_of(claim_leaf_bytes(user_id, claim_id, amount))
}

/// Derives the leaf hash for a claim entry.
pub fn hash_claim_entry(user_id: &Vec<u8>, claim_id: &Vec<u8>, amount: u64) -> (r: [u8; 32])
    ensures
        r@ == claim_leaf_hash(user_id@, claim_id@, amount),
{
    let mut data: Vec<u8> = Vec::new();
    push_bytes(&mut data, user_id);
    push_bytes(&mut data, claim_id);
    let amount_bytes = vstd::bytes::u64_to_le_bytes(amount);
    push_bytes(&mut data, &amount_bytes);
    proof {
        assert(data@ =~= claim_leaf_bytes(user_id@, claim_id@, amount));
    }
    sha256(&data)
}

} // verus!
