//! Hash and signature primitives, taken on trust from their crates.

use vstd::prelude::*;
use wedpr_l_utils::traits::Signature;

verus! {

/// The Keccak-256 digest of the input: deterministic and fixed-length.
pub uninterp spec fn keccak256(input: Seq<u8>) -> Seq<u8>;

/// Whether `sig` is a valid secp256k1 signature over `msg_hash` for
/// `public_key`: deterministic in its three inputs.
pub uninterp spec fn signature_valid(public_key: Seq<u8>, msg_hash: Seq<u8>, sig: Seq<u8>) -> bool;

/// Relies on `wedpr_l_crypto_hash_keccak256::WedprKeccak256::hash`: a
/// deterministic 32-byte Keccak-256 digest of the input alone.
#[verifier::external_body]
pub(crate) fn keccak256_hash(input: &Vec<u8>) -> (r: Vec<u8>)
    ensures
        r@ == keccak256(input@),
        r@.len() == 32,
{
    let hasher = wedpr_l_crypto_hash_keccak256::WedprKeccak256 {};
    wedpr_l_utils::traits::Hash::hash(&hasher, input)
}

/// Relies on `wedpr_l_crypto_signature_secp256k1::WedprSecp256k1Recover::verify`:
/// recovers the signer's public key from the signature over the message hash
/// and compares it with the given one; deterministic in its three inputs.
#[verifier::external_body]
pub(crate) fn secp256k1_verify(
    public_key: &Vec<u8>,
    msg_hash: &Vec<u8>,
    sig: &Vec<u8>,
) -> (r: bool)
    ensures
        r == signature_valid(public_key@, msg_hash@, sig@),
{
    let verifier = wedpr_l_crypto_signature_secp256k1::WedprSecp256k1Recover {};
    verifier.verify::<[u8]>(public_key.as_slice(), msg_hash.as_slice(), sig.as_slice())
}

} // verus!
