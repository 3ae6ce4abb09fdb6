//! Group elements as canonical byte encodings.
//!
//! Every group element handled by this library travels as its canonical
//! 32-byte encoding. The Ristretto group is cyclic of prime order, so each
//! element is a unique multiple of the base point; the spec model of an
//! encoding is the index of that multiple, and the homomorphic operations
//! of the protocol become modular arithmetic on indexes.

use vstd::prelude::*;
use crate::error::AbvError;

verus! {

/// Order of the Ristretto group: the prime `2^252 + 27742...93`.
pub open spec fn group_order() -> nat {
    vstd::arithmetic::power2::pow2(252) + 0x14def9dea2f79cd65812631a5cf5d3ed
}

/// Whether `b` is the canonical encoding of a group element, that is,
/// whether decoding it succeeds.
pub uninterp spec fn valid_point_bytes(b: Seq<u8>) -> bool;

/// The index of the encoded group element: the unique `n` below the group
/// order with the element equal to the `n`-th multiple of the base point.
/// Meaningful only where `valid_point_bytes` holds.
pub uninterp spec fn point_index(b: Seq<u8>) -> nat;

/// The canonical encoding of the `n`-th multiple of the base point.
pub uninterp spec fn point_bytes_of_index(n: nat) -> Seq<u8>;

/// Index of the sum of two group elements given by their indexes.
pub open spec fn add_index(a: nat, b: nat) -> nat {
    (a + b) % group_order()
}

/// Index of the difference of two group elements given by their indexes.
/// Meaningful where `b` is below the group order.
pub open spec fn sub_index(a: nat, b: nat) -> nat {
    (((a + group_order()) - b) % (group_order() as int)) as nat
}

/// Relies on `RistrettoPoint` subtraction — `p - p` is the group identity,
/// the zeroth multiple of every point — and on
/// `wedpr_l_crypto_zkp_utils::point_to_bytes`, the canonical encoding.
#[verifier::external_body]
pub(crate) fn identity_point_bytes() -> (r: Vec<u8>)
    ensures
        r@ == point_bytes_of_index(0),
        valid_point_bytes(r@),
        point_index(r@) == 0,
        r@.len() == 32,
{
    let g = &*wedpr_l_crypto_zkp_utils::BASEPOINT_G1;
    wedpr_l_crypto_zkp_utils::point_to_bytes(&(g - g))
}

/// Relies on `wedpr_l_crypto_zkp_utils::bytes_to_point`, which decodes
/// exactly the canonical encodings, on `RistrettoPoint` addition (the group
/// is cyclic of prime order, so adding the `n`-th and `m`-th multiples of
/// the base point gives the `((n + m) mod order)`-th), and on
/// `wedpr_l_crypto_zkp_utils::point_to_bytes`, the canonical encoding.
#[verifier::external_body]
pub(crate) fn add_point_bytes(a: &Vec<u8>, b: &Vec<u8>) -> (r: Result<Vec<u8>, AbvError>)
    ensures
        valid_point_bytes(a@) && valid_point_bytes(b@) ==> r is Ok,
        r is Ok ==> valid_point_bytes(a@) && valid_point_bytes(b@)
            && point_index(a@) < group_order()
            && a@ == point_bytes_of_index(point_index(a@))
            && point_index(b@) < group_order()
            && b@ == point_bytes_of_index(point_index(b@)),
        r matches Ok(s) ==> s@ == point_bytes_of_index(add_index(point_index(a@), point_index(b@))),
        r matches Ok(s) ==> valid_point_bytes(s@),
        r matches Ok(s) ==> point_index(s@) == add_index(point_index(a@), point_index(b@)),
        r is Ok ==> a@.len() == 32 && b@.len() == 32,
        r matches Ok(s) ==> s@.len() == 32,
        r matches Err(e) ==> e == AbvError::DecodeError,
{
    let pa = match wedpr_l_crypto_zkp_utils::bytes_to_point(a) {
        Ok(p) => p,
        Err(_) => return Err(AbvError::DecodeError),
    };
    let pb = match wedpr_l_crypto_zkp_utils::bytes_to_point(b) {
        Ok(p) => p,
        Err(_) => return Err(AbvError::DecodeError),
    };
    Ok(wedpr_l_crypto_zkp_utils::point_to_bytes(&(pa + pb)))
}

/// Relies on `wedpr_l_crypto_zkp_utils::bytes_to_point`, `RistrettoPoint`
/// subtraction (adding the inverse: the difference of the `n`-th and `m`-th
/// multiples of the base point is the `((n - m) mod order)`-th), and
/// `wedpr_l_crypto_zkp_utils::point_to_bytes`.
#[verifier::external_body]
pub(crate) fn sub_point_bytes(a: &Vec<u8>, b: &Vec<u8>) -> (r: Result<Vec<u8>, AbvError>)
    ensures
        valid_point_bytes(a@) && valid_point_bytes(b@) ==> r is Ok,
        r is Ok ==> valid_point_bytes(a@) && valid_point_bytes(b@)
            && point_index(a@) < group_order()
            && a@ == point_bytes_of_index(point_index(a@))
            && point_index(b@) < group_order()
            && b@ == point_bytes_of_index(point_index(b@)),
        r matches Ok(s) ==> s@ == point_bytes_of_index(sub_index(point_index(a@), point_index(b@))),
        r matches Ok(s) ==> valid_point_bytes(s@),
        r matches Ok(s) ==> point_index(s@) == sub_index(point_index(a@), point_index(b@)),
        r is Ok ==> a@.len() == 32 && b@.len() == 32,
        r matches Ok(s) ==> s@.len() == 32,
        r matches Err(e) ==> e == AbvError::DecodeError,
{
    let pa = match wedpr_l_crypto_zkp_utils::bytes_to_point(a) {
        Ok(p) => p,
        Err(_) => return Err(AbvError::DecodeError),
    };
    let pb = match wedpr_l_crypto_zkp_utils::bytes_to_point(b) {
        Ok(p) => p,
        Err(_) => return Err(AbvError::DecodeError),
    };
    Ok(wedpr_l_crypto_zkp_utils::point_to_bytes(&(pa - pb)))
}

/// Relies on `wedpr_l_crypto_zkp_utils::bytes_to_scalar` (little-endian,
/// so the 32-byte extension of `v` is the scalar `v`), scalar
/// multiplication of `wedpr_l_crypto_zkp_utils::BASEPOINT_G1` (giving the
/// `v`-th multiple of the base point), and `point_to_bytes`. Distinct
/// indexes below the group order encode to distinct byte strings, since the
/// group has prime order above `2^252`.
#[verifier::external_body]
pub(crate) fn basepoint_multiple_bytes(v: u64) -> (r: Vec<u8>)
    ensures
        r@ == point_bytes_of_index(v as nat),
        valid_point_bytes(r@),
        point_index(r@) == v as nat,
        forall|m: nat| m < group_order() && m != v as nat ==> point_bytes_of_index(m) != r@,
{
    let mut sb = [0u8; 32];
    sb[..8].copy_from_slice(&v.to_le_bytes());
    let s = wedpr_l_crypto_zkp_utils::bytes_to_scalar(&sb).unwrap();
    wedpr_l_crypto_zkp_utils::point_to_bytes(&(&*wedpr_l_crypto_zkp_utils::BASEPOINT_G1 * s))
}

/// Decodes `b` and re-encodes the decoded group element.
///
/// Encoding is canonical and decoding is exactly its inverse, so the call
/// succeeds if and only if `b` is a canonical encoding, and then returns `b`
/// itself: the round trip through the group is exact.
pub fn canonical_point_bytes(b: &Vec<u8>) -> (r: Result<Vec<u8>, AbvError>)
    ensures
        r is Ok <==> valid_point_bytes(b@),
        r matches Ok(s) ==> s@ == b@,
        r is Ok ==> b@.len() == 32,
        r matches Err(e) ==> e == AbvError::DecodeError,
{
    let id = identity_point_bytes();
    match add_point_bytes(b, &id) {
        Ok(s) => {
            proof {
                vstd::arithmetic::div_mod::lemma_small_mod(
                    point_index(b@),
                    group_order(),
                );
            }
            Ok(s)
        },
        Err(e) => Err(e),
    }
}

} // verus!
