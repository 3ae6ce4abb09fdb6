//! Verification of one counting authority's partial-decryption submission.
//!
//! For the blank slot and then every configured candidate slot in order,
//! the authority's partial decryption `c2_r` must carry an equality proof
//! that it was derived, from the tally's `c2` component for that slot, with
//! the same secret scalar whose public commitment is the authority's
//! declared share. The first slot whose proof verdict is negative — or for
//! which the authority supplied no counting part at all — decides the
//! result; a malformed slot aborts instead.

use vstd::prelude::*;
use crate::data::CandidateBallot;
use crate::data::CountingPart;
use crate::data::DecryptedResultPartStorage;
use crate::data::SystemParametersStorage;
use crate::data::VoteStorage;
use crate::data::find_ballot_index;
use crate::data::find_part_index;
use crate::data::last_ballot_index;
use crate::data::last_part_index;
use crate::error::AbvError;
use crate::group::point_bytes_of_index;
use crate::group::valid_point_bytes;
use crate::request::opt_c2;
use crate::zkp::equality_proof_decodes;
use crate::zkp::equality_proof_verdict;
use crate::zkp::verify_equality;

verus! {

/// The tally's second ciphertext component for candidate `c`: the last
/// matching entry's, or the identity ballot's where the candidate is
/// missing from the tally.
pub open spec fn tally_slot_c2(bs: Seq<CandidateBallot>, c: Seq<char>) -> Seq<u8> {
    let k = last_ballot_index(bs, c);
    if k < 0 {
        point_bytes_of_index(0)
    } else {
        bs[k].ballot.ciphertext2@
    }
}

/// Whether one slot's equality check can run at all: every group element
/// decodes, the proof record parses, and its inner fields decode.
pub open spec fn slot_check_decodes(share: Seq<u8>, c2_r: Seq<u8>, proof: Seq<u8>, c2_sum: Seq<u8>) -> bool {
    &&& valid_point_bytes(share)
    &&& valid_point_bytes(c2_r)
    &&& valid_point_bytes(c2_sum)
    &&& equality_proof_decodes(proof)
    &&& equality_proof_verdict(share, c2_r, proof, c2_sum) is Some
}

/// The outcome of checking candidate slots from `i` on, in configured
/// order: a candidate with no counting part at all counts as a failed
/// check; otherwise abort on a malformed slot, reject on a negative
/// verdict, and accept once every remaining slot passes.
pub open spec fn count_slots_outcome(
    cs: Seq<String>,
    sum: VoteStorage,
    share: Seq<u8>,
    req: DecryptedResultPartStorage,
    i: int,
) -> Result<bool, AbvError>
    decreases cs.len() - i,
{
    if i < 0 || i >= cs.len() {
        Ok(true)
    } else {
        let c2_sum = tally_slot_c2(sum.voted_ballot@, cs[i]@);
        let k = last_part_index(req.candidate_part@, cs[i]@);
        if k < 0 {
            Ok(false)
        } else {
            let c2_r = req.candidate_part@[k].value.c2_r@;
            let proof = req.candidate_part@[k].value.equality_proof@;
            if !slot_check_decodes(share, c2_r, proof, c2_sum) {
                Err(AbvError::DecodeError)
            } else if equality_proof_verdict(share, c2_r, proof, c2_sum) == Some(false) {
                Ok(false)
            } else {
                count_slots_outcome(cs, sum, share, req, i + 1)
            }
        }
    }
}

/// The outcome of the whole count-request check: the blank slot first,
/// then the candidate slots in configured order.
pub open spec fn count_outcome(
    param: SystemParametersStorage,
    sum: VoteStorage,
    share: Seq<u8>,
    req: DecryptedResultPartStorage,
) -> Result<bool, AbvError> {
    let blank_c2 = opt_c2(sum.blank_ballot);
    let blank_c2_r = req.blank_part.c2_r@;
    let blank_proof = req.blank_part.equality_proof@;
    if !slot_check_decodes(share, blank_c2_r, blank_proof, blank_c2) {
        Err(AbvError::DecodeError)
    } else if equality_proof_verdict(share, blank_c2_r, blank_proof, blank_c2) == Some(false) {
        Ok(false)
    } else {
        count_slots_outcome(param.candidates@, sum, share, req, 0)
    }
}

/// Validates one counting authority's partial-decryption submission
/// against its declared public share and the encrypted tally.
///
/// Returns exactly the slot-by-slot outcome: `Ok(true)` where every slot's
/// equality proof verifies, `Ok(false)` at the first slot whose proof
/// verdict is negative or whose counting part is missing altogether, and
/// `Err(DecodeError)` at the first slot that is malformed — blank slot
/// first, then candidates in configured order.
pub fn verify_count_request(
    param: &SystemParametersStorage,
    encrypted_vote_sum: &VoteStorage,
    counter_share: &Vec<u8>,
    request: &DecryptedResultPartStorage,
) -> (r: Result<bool, AbvError>)
    ensures
        r == count_outcome(*param, *encrypted_vote_sum, counter_share@, *request),
{
    let empty_blank: Vec<u8> = Vec::new();
    let blank_c2: &Vec<u8> = match &encrypted_vote_sum.blank_ballot {
        Some(b) => &b.ciphertext2,
        None => &empty_blank,
    };
    match verify_equality(
        counter_share,
        &request.blank_part.c2_r,
        &request.blank_part.equality_proof,
        blank_c2,
    ) {
        Ok(true) => {},
        Ok(false) => {
            return Ok(false);
        },
        Err(_) => {
            return Err(AbvError::DecodeError);
        },
    }

    let mut j: usize = 0;
    while j < param.candidates.len()
        invariant
            j <= param.candidates@.len(),
            count_outcome(*param, *encrypted_vote_sum, counter_share@, *request)
                == count_slots_outcome(
                param.candidates@,
                *encrypted_vote_sum,
                counter_share@,
                *request,
                j as int,
            ),
        decreases param.candidates@.len() - j,
    {
        let candidate = &param.candidates[j];
        let default_ballot = crate::data::Ballot::default();
        let c2_sum: &Vec<u8> = match find_ballot_index(&encrypted_vote_sum.voted_ballot, candidate) {
            Some(ix) => &encrypted_vote_sum.voted_ballot[ix].ballot.ciphertext2,
            None => &default_ballot.ciphertext2,
        };
        // A candidate the authority supplied no counting part for fails its
        // slot's check outright.
        let part: &CountingPart = match find_part_index(&request.candidate_part, candidate) {
            Some(ix) => &request.candidate_part[ix].value,
            None => {
                return Ok(false);
            },
        };
        proof {
            assert(c2_sum@ == tally_slot_c2(
                encrypted_vote_sum.voted_ballot@,
                param.candidates@[j as int]@,
            ));
        }
        match verify_equality(counter_share, &part.c2_r, &part.equality_proof, c2_sum) {
            Ok(true) => {},
            Ok(false) => {
                return Ok(false);
            },
            Err(_) => {
                return Err(AbvError::DecodeError);
            },
        }
        j += 1;
    }
    Ok(true)
}

} // verus!
