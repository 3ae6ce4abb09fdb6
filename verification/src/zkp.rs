//! Zero-knowledge proof verification primitives, taken on trust from their
//! crates. Each verifier is a pure function of its byte inputs: the proof
//! record is decoded from its protobuf encoding and evaluated against the
//! given group elements; `None` stands for a record whose inner fields could
//! not be decoded, `Some(b)` for a record that evaluated to verdict `b`.

use vstd::prelude::*;
use crate::crypto::keccak256;
use crate::error::AbvError;
use crate::group::valid_point_bytes;
use bulletproofs::BulletproofGens;
use bulletproofs::PedersenGens;
use bulletproofs::RangeProof;
use curve25519_dalek_ng::ristretto::CompressedRistretto;
use merlin::Transcript;
use rand_chacha::rand_core::SeedableRng;
use rand_chacha::ChaCha20Rng;
use wedpr_l_crypto_zkp_discrete_logarithm_proof::verify_equality_relationship_proof;
use wedpr_l_crypto_zkp_discrete_logarithm_proof::verify_format_proof;
use wedpr_l_crypto_zkp_discrete_logarithm_proof::verify_sum_relationship;
use wedpr_l_crypto_zkp_utils::bytes_to_point;
use wedpr_l_crypto_zkp_utils::BASEPOINT_G1;
use wedpr_l_crypto_zkp_utils::BASEPOINT_G2;
use wedpr_l_protos::bytes_to_proto;
use wedpr_l_protos::generated::zkp::BalanceProof;
use wedpr_l_protos::generated::zkp::EqualityProof;

verus! {

/// Whether `proof` parses as a protobuf `BalanceProof` record:
/// deterministic in the bytes alone.
pub uninterp spec fn balance_proof_decodes(proof: Seq<u8>) -> bool;

/// Whether `proof` parses as a protobuf `EqualityProof` record:
/// deterministic in the bytes alone.
pub uninterp spec fn equality_proof_decodes(proof: Seq<u8>) -> bool;

/// The verdict of the format/balance proof verifier on the ballot
/// `(c1, c2)` against the two fixed base points and the poll point, all
/// group elements given by their canonical encodings: `None` where the
/// record's inner fields fail to decode, otherwise the boolean verdict.
pub uninterp spec fn format_proof_verdict(
    c1: Seq<u8>,
    c2: Seq<u8>,
    proof: Seq<u8>,
    poll_point: Seq<u8>,
) -> Option<bool>;

/// The verdict of the sum-relationship proof verifier asserting that the
/// value committed in `c1_sum` plus the one in `rest` equals the one in
/// `blank`, against the first base point and the poll point.
pub uninterp spec fn sum_proof_verdict(
    c1_sum: Seq<u8>,
    rest: Seq<u8>,
    blank: Seq<u8>,
    proof: Seq<u8>,
    poll_point: Seq<u8>,
) -> Option<bool>;

/// The verdict of the equality-relationship proof verifier asserting that
/// `share` and `c2_r` were derived with the same secret scalar from the
/// second base point and `c2_sum` respectively.
pub uninterp spec fn equality_proof_verdict(
    share: Seq<u8>,
    c2_r: Seq<u8>,
    proof: Seq<u8>,
    c2_sum: Seq<u8>,
) -> Option<bool>;

/// The concatenation of a sequence of byte strings.
pub open spec fn concat_views(s: Seq<Seq<u8>>) -> Seq<u8>
    decreases s.len(),
{
    if s.len() == 0 {
        Seq::<u8>::empty()
    } else {
        concat_views(s.drop_last()) + s.last()
    }
}

/// The verdict of the batched range-proof verifier: whether `proof` is a
/// valid aggregated proof, over the protocol's 32-bit range and the
/// transcript domain the protocol fixes, that each commitment in the
/// padded batch commits to an in-range value against the base point and
/// the poll point. The check's batching randomizer is drawn from a stream
/// seeded with the digest of these same bytes, so the verdict is one
/// function of them; it is false for any malformed proof or commitment
/// bytes.
pub uninterp spec fn range_proof_verdict(
    commitments: Seq<Seq<u8>>,
    proof: Seq<u8>,
    poll_point: Seq<u8>,
) -> bool;

/// Relies on `bulletproofs::RangeProof::{from_bytes, verify_multiple_with_rng}`
/// over the 32-bit range, the poll point as blinding base, a
/// `merlin::Transcript` under the protocol's domain label, and a
/// `rand_chacha::ChaCha20Rng` batch randomizer seeded with the digest the
/// `requires` pins — so the call returns one verdict per input.
#[verifier::external_body]
pub(crate) fn verify_range_batch(
    commitments: &Vec<Vec<u8>>,
    proof: &Vec<u8>,
    poll_point: &Vec<u8>,
    seed: &Vec<u8>,
) -> (r: Result<bool, AbvError>)
    requires
        seed@ == keccak256(concat_views(commitments.deep_view()) + proof@ + poll_point@),
        seed@.len() == 32,
        poll_point@.len() == 32,
        forall|i: int| 0 <= i < commitments@.len() ==> (#[trigger] commitments@[i])@.len() == 32,
    ensures
        valid_point_bytes(poll_point@) ==> r is Ok,
        r matches Ok(b) ==> b == range_proof_verdict(commitments.deep_view(), proof@, poll_point@),
{
    let poll = CompressedRistretto::from_slice(poll_point).decompress().ok_or(AbvError::DecodeError)?;
    let cs: Vec<CompressedRistretto> = commitments.iter().map(|c| CompressedRistretto::from_slice(c)).collect();
    let mut pc = PedersenGens::default();
    pc.B_blinding = poll;
    let rp = match RangeProof::from_bytes(proof) { Ok(p) => p, Err(_) => return Ok(false) };
    let mut rng = ChaCha20Rng::from_seed(seed.as_slice().try_into().unwrap());
    Ok(rp.verify_multiple_with_rng(&BulletproofGens::new(32, cs.len()), &pc, &mut Transcript::new(b"WeDPR"), &cs, 32, &mut rng).is_ok())
}

/// Relies on `wedpr_l_protos::bytes_to_proto::<BalanceProof>`, on
/// `wedpr_l_crypto_zkp_utils::bytes_to_point`, and on
/// `wedpr_l_crypto_zkp_discrete_logarithm_proof::verify_format_proof` with
/// the two fixed base points `BASEPOINT_G1`, `BASEPOINT_G2`: all
/// deterministic in the byte inputs.
#[verifier::external_body]
pub(crate) fn verify_format(
    c1: &Vec<u8>,
    c2: &Vec<u8>,
    proof: &Vec<u8>,
    poll_point: &Vec<u8>,
) -> (r: Result<bool, AbvError>)
    ensures
        r is Ok ==> valid_point_bytes(c1@) && valid_point_bytes(c2@)
            && valid_point_bytes(poll_point@) && balance_proof_decodes(proof@),
        r matches Ok(b) ==> format_proof_verdict(c1@, c2@, proof@, poll_point@) == Some(b),
        valid_point_bytes(c1@) && valid_point_bytes(c2@) && valid_point_bytes(poll_point@)
            && balance_proof_decodes(proof@)
            && format_proof_verdict(c1@, c2@, proof@, poll_point@) is Some ==> r is Ok,
        r matches Err(e) ==> e == AbvError::DecodeError,
{
    let p1 = bytes_to_point(c1).map_err(|_| AbvError::DecodeError)?;
    let p2 = bytes_to_point(c2).map_err(|_| AbvError::DecodeError)?;
    let poll = bytes_to_point(poll_point).map_err(|_| AbvError::DecodeError)?;
    let record = bytes_to_proto::<BalanceProof>(proof).map_err(|_| AbvError::DecodeError)?;
    verify_format_proof(&p1, &p2, &record, &BASEPOINT_G1, &BASEPOINT_G2, &poll)
        .map_err(|_| AbvError::DecodeError)
}

/// Relies on `wedpr_l_protos::bytes_to_proto::<BalanceProof>`, on
/// `wedpr_l_crypto_zkp_utils::bytes_to_point`, and on
/// `wedpr_l_crypto_zkp_discrete_logarithm_proof::verify_sum_relationship`
/// with base point `BASEPOINT_G1`: all deterministic in the byte inputs.
#[verifier::external_body]
pub(crate) fn verify_sum(
    c1_sum: &Vec<u8>,
    rest: &Vec<u8>,
    blank: &Vec<u8>,
    proof: &Vec<u8>,
    poll_point: &Vec<u8>,
) -> (r: Result<bool, AbvError>)
    ensures
        r is Ok ==> valid_point_bytes(c1_sum@) && valid_point_bytes(rest@)
            && valid_point_bytes(blank@) && valid_point_bytes(poll_point@)
            && balance_proof_decodes(proof@),
        r matches Ok(b) ==> sum_proof_verdict(c1_sum@, rest@, blank@, proof@, poll_point@)
            == Some(b),
        valid_point_bytes(c1_sum@) && valid_point_bytes(rest@) && valid_point_bytes(blank@)
            && valid_point_bytes(poll_point@) && balance_proof_decodes(proof@)
            && sum_proof_verdict(c1_sum@, rest@, blank@, proof@, poll_point@) is Some ==> r is Ok,
        r matches Err(e) ==> e == AbvError::DecodeError,
{
    let ps = bytes_to_point(c1_sum).map_err(|_| AbvError::DecodeError)?;
    let pr = bytes_to_point(rest).map_err(|_| AbvError::DecodeError)?;
    let pb = bytes_to_point(blank).map_err(|_| AbvError::DecodeError)?;
    let poll = bytes_to_point(poll_point).map_err(|_| AbvError::DecodeError)?;
    let record = bytes_to_proto::<BalanceProof>(proof).map_err(|_| AbvError::DecodeError)?;
    verify_sum_relationship(&ps, &pr, &pb, &record, &BASEPOINT_G1, &poll)
        .map_err(|_| AbvError::DecodeError)
}

/// Relies on `wedpr_l_protos::bytes_to_proto::<EqualityProof>`, on
/// `wedpr_l_crypto_zkp_utils::bytes_to_point`, and on
/// `wedpr_l_crypto_zkp_discrete_logarithm_proof::verify_equality_relationship_proof`
/// with base point `BASEPOINT_G2`: all deterministic in the byte inputs.
#[verifier::external_body]
pub(crate) fn verify_equality(
    share: &Vec<u8>,
    c2_r: &Vec<u8>,
    proof: &Vec<u8>,
    c2_sum: &Vec<u8>,
) -> (r: Result<bool, AbvError>)
    ensures
        r is Ok ==> valid_point_bytes(share@) && valid_point_bytes(c2_r@)
            && valid_point_bytes(c2_sum@) && equality_proof_decodes(proof@),
        r matches Ok(b) ==> equality_proof_verdict(share@, c2_r@, proof@, c2_sum@) == Some(b),
        valid_point_bytes(share@) && valid_point_bytes(c2_r@) && valid_point_bytes(c2_sum@)
            && equality_proof_decodes(proof@)
            && equality_proof_verdict(share@, c2_r@, proof@, c2_sum@) is Some ==> r is Ok,
        r matches Err(e) ==> e == AbvError::DecodeError,
{
    let psh = bytes_to_point(share).map_err(|_| AbvError::DecodeError)?;
    let pcr = bytes_to_point(c2_r).map_err(|_| AbvError::DecodeError)?;
    let psum = bytes_to_point(c2_sum).map_err(|_| AbvError::DecodeError)?;
    let record = bytes_to_proto::<EqualityProof>(proof).map_err(|_| AbvError::DecodeError)?;
    verify_equality_relationship_proof(&psh, &pcr, &record, &BASEPOINT_G2, &psum)
        .map_err(|_| AbvError::DecodeError)
}

} // verus!
