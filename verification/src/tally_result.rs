//! Verification of the disclosed plaintext tally.
//!
//! For the blank slot and every configured candidate slot, subtracting the
//! combined partial decryptions from the tally's first ciphertext
//! component must leave exactly the disclosed small integer's multiple of
//! the base point: a discrete-logarithm equality check, feasible only
//! because the range proofs bound the tally space.

use vstd::prelude::*;
use crate::data::CandidateBallot;
use crate::data::CountingPart;
use crate::data::DecryptedResultPartStorage;
use crate::data::SystemParametersStorage;
use crate::data::VoteResultStorage;
use crate::data::VoteStorage;
use crate::data::find_ballot_index;
use crate::data::find_part_index;
use crate::data::last_ballot_index;
use crate::data::last_part_index;
use crate::data::lookup_result_value;
use crate::data::result_value;
use crate::error::AbvError;
use crate::group::basepoint_multiple_bytes;
use crate::group::group_order;
use crate::group::point_bytes_of_index;
use crate::group::point_index;
use crate::group::sub_index;
use crate::group::sub_point_bytes;
use crate::group::valid_point_bytes;
use crate::request::opt_c1;

verus! {

/// The reserved key under which the disclosed total ballot count is
/// published.
pub open spec fn total_ballots_key() -> Seq<char> {
    "Wedpr_voting_total_ballots"@
}

/// The tally's first ciphertext component for candidate `c`: the last
/// matching entry's, or the identity ballot's where missing.
pub open spec fn tally_slot_c1(bs: Seq<CandidateBallot>, c: Seq<char>) -> Seq<u8> {
    let k = last_ballot_index(bs, c);
    if k < 0 {
        point_bytes_of_index(0)
    } else {
        bs[k].ballot.ciphertext1@
    }
}

/// The combined partial decryption recorded for candidate `c`: the last
/// matching entry's `c2_r`, or the identity where missing.
pub open spec fn combined_slot_c2_r(
    parts: DecryptedResultPartStorage,
    c: Seq<char>,
) -> Seq<u8> {
    let k = last_part_index(parts.candidate_part@, c);
    if k < 0 {
        point_bytes_of_index(0)
    } else {
        parts.candidate_part@[k].value.c2_r@
    }
}

/// Whether one slot of the disclosed result matches: the group element
/// left after removing the combined decryption from the tally component is
/// the disclosed value's multiple of the base point.
pub open spec fn slot_matches(c1: Seq<u8>, c2_r: Seq<u8>, disclosed: i64) -> bool {
    sub_index(point_index(c1), point_index(c2_r)) == (disclosed as u64) as nat
}

/// The outcome of checking the candidate slots from `i` on, in configured
/// order: abort on the first malformed slot, reject on the first mismatch.
pub open spec fn result_slots_outcome(
    cs: Seq<String>,
    sum: VoteStorage,
    parts: DecryptedResultPartStorage,
    disclosed: VoteResultStorage,
    i: int,
) -> Result<bool, AbvError>
    decreases cs.len() - i,
{
    if i < 0 || i >= cs.len() {
        Ok(true)
    } else {
        let c1 = tally_slot_c1(sum.voted_ballot@, cs[i]@);
        let c2_r = combined_slot_c2_r(parts, cs[i]@);
        if !(valid_point_bytes(c1) && valid_point_bytes(c2_r)) {
            Err(AbvError::DecodeError)
        } else if !slot_matches(c1, c2_r, result_value(disclosed.result@, cs[i]@)) {
            Ok(false)
        } else {
            result_slots_outcome(cs, sum, parts, disclosed, i + 1)
        }
    }
}

/// The outcome of the whole disclosed-result check: the blank slot against
/// the reserved total-ballots key first, then the candidate slots in
/// configured order; a disclosed value missing from the result defaults
/// to 0.
pub open spec fn result_outcome(
    param: SystemParametersStorage,
    sum: VoteStorage,
    parts: DecryptedResultPartStorage,
    disclosed: VoteResultStorage,
) -> Result<bool, AbvError> {
    let blank_c1 = opt_c1(sum.blank_ballot);
    let blank_c2_r = parts.blank_part.c2_r@;
    if !(valid_point_bytes(blank_c1) && valid_point_bytes(blank_c2_r)) {
        Err(AbvError::DecodeError)
    } else if !slot_matches(
        blank_c1,
        blank_c2_r,
        result_value(disclosed.result@, total_ballots_key()),
    ) {
        Ok(false)
    } else {
        result_slots_outcome(param.candidates@, sum, parts, disclosed, 0)
    }
}

fn bytes_equal(a: &Vec<u8>, b: &Vec<u8>) -> (r: bool)
    ensures
        r == (a@ == b@),
{
    if a.len() != b.len() {
        return false;
    }
    let mut i: usize = 0;
    while i < a.len()
        invariant
            a@.len() == b@.len(),
            i <= a@.len(),
            forall|k: int| 0 <= k < i ==> a@[k] == b@[k],
        decreases a@.len() - i,
    {
        if a[i] != b[i] {
            return false;
        }
        i += 1;
    }
    proof {
        assert(a@ =~= b@);
    }
    true
}

fn slot_result_matches(c1: &Vec<u8>, c2_r: &Vec<u8>, disclosed: i64) -> (r: Result<bool, AbvError>)
    ensures
        r is Ok <==> valid_point_bytes(c1@) && valid_point_bytes(c2_r@),
        r matches Ok(b) ==> b == slot_matches(c1@, c2_r@, disclosed),
        r matches Err(e) ==> e == AbvError::DecodeError,
{
    let expected = match sub_point_bytes(c1, c2_r) {
        Ok(s) => s,
        Err(_) => {
            return Err(AbvError::DecodeError);
        },
    };
    let claimed = basepoint_multiple_bytes(disclosed as u64);
    proof {
        broadcast use vstd::arithmetic::power2::lemma_pow2_pos;

        vstd::arithmetic::div_mod::lemma_mod_bound(
            (point_index(c1@) + group_order() - point_index(c2_r@)) as int,
            group_order() as int,
        );
    }
    Ok(bytes_equal(&expected, &claimed))
}

/// Validates the disclosed plaintext result against the aggregated tally
/// and the combined partial decryptions.
///
/// Returns exactly the slot-by-slot outcome: `Ok(true)` where every slot
/// matches its disclosed value, `Ok(false)` at the first mismatching slot,
/// `Err(DecodeError)` at the first malformed one — the blank slot (under
/// the reserved total-ballots key) first, then candidates in configured
/// order.
pub fn verify_vote_result(
    param: &SystemParametersStorage,
    vote_sum: &VoteStorage,
    counting_result_sum: &DecryptedResultPartStorage,
    vote_result_request: &VoteResultStorage,
) -> (r: Result<bool, AbvError>)
    ensures
        r == result_outcome(*param, *vote_sum, *counting_result_sum, *vote_result_request),
{
    let empty_blank: Vec<u8> = Vec::new();
    let blank_c1: &Vec<u8> = match &vote_sum.blank_ballot {
        Some(b) => &b.ciphertext1,
        None => &empty_blank,
    };
    let total_key: String = "Wedpr_voting_total_ballots".to_owned();
    let blank_value = lookup_result_value(&vote_result_request.result, &total_key);
    match slot_result_matches(blank_c1, &counting_result_sum.blank_part.c2_r, blank_value) {
        Ok(true) => {},
        Ok(false) => {
            return Ok(false);
        },
        Err(_) => {
            return Err(AbvError::DecodeError);
        },
    }

    let mut j: usize = 0;
    while j < param.candidates.len()
        invariant
            j <= param.candidates@.len(),
            result_outcome(*param, *vote_sum, *counting_result_sum, *vote_result_request)
                == result_slots_outcome(
                param.candidates@,
                *vote_sum,
                *counting_result_sum,
                *vote_result_request,
                j as int,
            ),
        decreases param.candidates@.len() - j,
    {
        let candidate = &param.candidates[j];
        let default_ballot = crate::data::Ballot::default();
        let c1: &Vec<u8> = match find_ballot_index(&vote_sum.voted_ballot, candidate) {
            Some(ix) => &vote_sum.voted_ballot[ix].ballot.ciphertext1,
            None => &default_ballot.ciphertext1,
        };
        let default_part = CountingPart::default();
        let c2_r: &Vec<u8> = match find_part_index(&counting_result_sum.candidate_part, candidate) {
            Some(ix) => &counting_result_sum.candidate_part[ix].value.c2_r,
            None => &default_part.c2_r,
        };
        let value = lookup_result_value(&vote_result_request.result, candidate);
        match slot_result_matches(c1, c2_r, value) {
            Ok(true) => {},
            Ok(false) => {
                return Ok(false);
            },
            Err(_) => {
                return Err(AbvError::DecodeError);
            },
        }
        j += 1;
    }
    Ok(true)
}

} // verus!
