//! Verification of one voter's encrypted submission.
//!
//! Four checks run in order, each short-circuiting on failure: the
//! authentication signature over the blank ballot, the batched range proof
//! over the committed ballot values, one format/balance proof per supplied
//! candidate entry, and the sum-relationship proof tying candidate ballots,
//! rest ballot and blank ballot together (votes cast plus unused budget
//! equal the total budget). The range proof is checked over exactly the
//! padded commitment batch that [`range_commitments`] yields.

use vstd::prelude::*;
use crate::crypto::keccak256;
use crate::crypto::keccak256_hash;
use crate::crypto::secp256k1_verify;
use crate::crypto::signature_valid;
use crate::data::Ballot;
use crate::data::CandidateBallot;
use crate::data::SystemParametersStorage;
use crate::data::VoteRequest;
use crate::data::last_ballot_index;
use crate::error::AbvError;
use crate::group::add_index;
use crate::group::add_point_bytes;
use crate::group::canonical_point_bytes;
use crate::group::group_order;
use crate::group::identity_point_bytes;
use crate::group::point_bytes_of_index;
use crate::group::point_index;
use crate::group::valid_point_bytes;
use crate::padding::next_pow2;
use crate::padding::pending_commitment_vec;
use crate::zkp::balance_proof_decodes;
use crate::zkp::concat_views;
use crate::zkp::format_proof_verdict;
use crate::zkp::range_proof_verdict;
use crate::zkp::sum_proof_verdict;
use crate::zkp::verify_format;
use crate::zkp::verify_range_batch;
use crate::zkp::verify_sum;

verus! {

/// The first ciphertext component of an optional ballot; an absent ballot
/// contributes an empty byte string, which no decoder accepts.
pub open spec fn opt_c1(ob: Option<Ballot>) -> Seq<u8> {
    match ob {
        Some(b) => b.ciphertext1@,
        None => Seq::<u8>::empty(),
    }
}

/// The second ciphertext component of an optional ballot.
pub open spec fn opt_c2(ob: Option<Ballot>) -> Seq<u8> {
    match ob {
        Some(b) => b.ciphertext2@,
        None => Seq::<u8>::empty(),
    }
}

/// Index of the group-element sum of the voted ballots' first ciphertext
/// components, folded in submission order starting from the identity.
pub open spec fn voted_c1_index_sum(vs: Seq<CandidateBallot>) -> nat
    decreases vs.len(),
{
    if vs.len() == 0 {
        0
    } else {
        add_index(voted_c1_index_sum(vs.drop_last()), point_index(vs.last().ballot.ciphertext1@))
    }
}

/// The first ciphertext component checked for ballot-proof entry `i`: the
/// last voted entry of the same candidate, or the identity ballot where the
/// candidate was not voted for.
pub open spec fn entry_c1(req: VoteRequest, i: int) -> Seq<u8> {
    let k = last_ballot_index(req.vote.voted_ballot@, req.ballot_proof@[i].candidate@);
    if k >= 0 {
        req.vote.voted_ballot@[k].ballot.ciphertext1@
    } else {
        point_bytes_of_index(0)
    }
}

/// The second ciphertext component checked for ballot-proof entry `i`.
pub open spec fn entry_c2(req: VoteRequest, i: int) -> Seq<u8> {
    let k = last_ballot_index(req.vote.voted_ballot@, req.ballot_proof@[i].candidate@);
    if k >= 0 {
        req.vote.voted_ballot@[k].ballot.ciphertext2@
    } else {
        point_bytes_of_index(0)
    }
}

/// Whether everything ballot-proof entry `i` needs decodes: the checked
/// ballot's components, the proof record, and the record's inner fields.
pub open spec fn entry_decodes(req: VoteRequest, poll: Seq<u8>, i: int) -> bool {
    &&& valid_point_bytes(entry_c1(req, i))
    &&& valid_point_bytes(entry_c2(req, i))
    &&& balance_proof_decodes(req.ballot_proof@[i].format_proof@)
    &&& format_proof_verdict(entry_c1(req, i), entry_c2(req, i), req.ballot_proof@[i].format_proof@, poll) is Some
}

/// Whether every byte string the request verifier must decode does decode:
/// the poll point, every voted first component and the rest component, every
/// ballot-proof entry, the blank first component, and the sum proof record.
pub open spec fn request_decodes(param: SystemParametersStorage, req: VoteRequest) -> bool {
    &&& valid_point_bytes(param.poll_point@)
    &&& forall|i: int|
        0 <= i < req.vote.voted_ballot@.len() ==> valid_point_bytes(
            #[trigger] req.vote.voted_ballot@[i].ballot.ciphertext1@,
        )
    &&& valid_point_bytes(opt_c1(req.vote.rest_ballot))
    &&& forall|i: int| 0 <= i < req.ballot_proof@.len() ==> entry_decodes(req, param.poll_point@, i)
    &&& valid_point_bytes(opt_c1(req.vote.blank_ballot))
    &&& balance_proof_decodes(req.sum_balance_proof@)
    &&& sum_proof_verdict(
        point_bytes_of_index(voted_c1_index_sum(req.vote.voted_ballot@)),
        opt_c1(req.vote.rest_ballot),
        opt_c1(req.vote.blank_ballot),
        req.sum_balance_proof@,
        param.poll_point@,
    ) is Some
}

/// Whether the submission's signature over the blank ballot's two
/// ciphertext components verifies under the voter's public key.
pub open spec fn request_sig_ok(req: VoteRequest, public_key: Seq<u8>) -> bool {
    signature_valid(
        public_key,
        keccak256(opt_c1(req.vote.blank_ballot) + opt_c2(req.vote.blank_ballot)),
        req.vote.signature@,
    )
}

/// The batch of committed values the range proof is checked over: every
/// voted first component in order, the rest component, then identity
/// padding up to the next power-of-two length.
pub open spec fn padded_commitment_views(req: VoteRequest) -> Seq<Seq<u8>> {
    let n = req.vote.voted_ballot@.len() as int;
    Seq::new(
        next_pow2((n + 1) as nat),
        |i: int|
            if i < n {
                req.vote.voted_ballot@[i].ballot.ciphertext1@
            } else if i == n {
                opt_c1(req.vote.rest_ballot)
            } else {
                point_bytes_of_index(0)
            },
    )
}

/// Whether every cryptographic check of the request passes: the signature,
/// the batched range proof over the padded commitment batch, every
/// per-candidate format proof, and the sum-relationship proof.
pub open spec fn request_checks_pass(
    param: SystemParametersStorage,
    req: VoteRequest,
    public_key: Seq<u8>,
) -> bool {
    &&& request_sig_ok(req, public_key)
    &&& range_proof_verdict(padded_commitment_views(req), req.range_proof@, param.poll_point@)
    &&& forall|i: int|
        0 <= i < req.ballot_proof@.len() ==> #[trigger] format_proof_verdict(
            entry_c1(req, i),
            entry_c2(req, i),
            req.ballot_proof@[i].format_proof@,
            param.poll_point@,
        ) == Some(true)
    &&& sum_proof_verdict(
        point_bytes_of_index(voted_c1_index_sum(req.vote.voted_ballot@)),
        opt_c1(req.vote.rest_ballot),
        opt_c1(req.vote.blank_ballot),
        req.sum_balance_proof@,
        param.poll_point@,
    ) == Some(true)
}

/// The outcome of the verifier's last step, the sum-relationship check:
/// an undecodable blank component or proof record aborts, a negative
/// verdict rejects, and a positive one accepts the whole request.
pub open spec fn sum_step_outcome(param: SystemParametersStorage, req: VoteRequest) -> Result<
    bool,
    AbvError,
> {
    let verdict = sum_proof_verdict(
        point_bytes_of_index(voted_c1_index_sum(req.vote.voted_ballot@)),
        opt_c1(req.vote.rest_ballot),
        opt_c1(req.vote.blank_ballot),
        req.sum_balance_proof@,
        param.poll_point@,
    );
    if !(valid_point_bytes(opt_c1(req.vote.blank_ballot)) && balance_proof_decodes(
        req.sum_balance_proof@,
    ) && verdict is Some) {
        Err(AbvError::DecodeError)
    } else if verdict == Some(false) {
        Err(AbvError::VerificationError)
    } else {
        Ok(true)
    }
}

/// The outcome of the per-candidate format checks from supplied entry `i`
/// on, then the sum step: a malformed entry aborts, a negative verdict
/// rejects, in supplied order.
pub open spec fn entries_outcome(param: SystemParametersStorage, req: VoteRequest, i: int) -> Result<
    bool,
    AbvError,
>
    decreases req.ballot_proof@.len() - i,
{
    if i < 0 || i >= req.ballot_proof@.len() {
        sum_step_outcome(param, req)
    } else if !entry_decodes(req, param.poll_point@, i) {
        Err(AbvError::DecodeError)
    } else if format_proof_verdict(
        entry_c1(req, i),
        entry_c2(req, i),
        req.ballot_proof@[i].format_proof@,
        param.poll_point@,
    ) == Some(false) {
        Err(AbvError::VerificationError)
    } else {
        entries_outcome(param, req, i + 1)
    }
}

/// The outcome of the rest-component decode and the batched range check,
/// then the remaining steps.
pub open spec fn range_step_outcome(param: SystemParametersStorage, req: VoteRequest) -> Result<
    bool,
    AbvError,
> {
    if !valid_point_bytes(opt_c1(req.vote.rest_ballot)) {
        Err(AbvError::DecodeError)
    } else if !range_proof_verdict(padded_commitment_views(req), req.range_proof@, param.poll_point@) {
        Err(AbvError::VerificationError)
    } else {
        entries_outcome(param, req, 0)
    }
}

/// The outcome of the voted-component decode scan from index `i` on, in
/// submission order, then the remaining steps.
pub open spec fn voted_scan_outcome(param: SystemParametersStorage, req: VoteRequest, i: int) -> Result<
    bool,
    AbvError,
>
    decreases req.vote.voted_ballot@.len() - i,
{
    if i < 0 || i >= req.vote.voted_ballot@.len() {
        range_step_outcome(param, req)
    } else if !valid_point_bytes(req.vote.voted_ballot@[i].ballot.ciphertext1@) {
        Err(AbvError::DecodeError)
    } else {
        voted_scan_outcome(param, req, i + 1)
    }
}

/// The exact outcome of the whole request verification, fixing which
/// result each first-failing step returns: the poll point, the signature,
/// the voted components in order, the rest component, the range proof, the
/// format proofs in supplied order, then the sum proof.
pub open spec fn request_outcome(
    param: SystemParametersStorage,
    req: VoteRequest,
    public_key: Seq<u8>,
) -> Result<bool, AbvError> {
    if !valid_point_bytes(param.poll_point@) {
        Err(AbvError::DecodeError)
    } else if !request_sig_ok(req, public_key) {
        Err(AbvError::VerificationError)
    } else {
        voted_scan_outcome(param, req, 0)
    }
}

fn append_bytes(dst: &mut Vec<u8>, src: &Vec<u8>)
    ensures
        final(dst)@ == old(dst)@ + src@,
{
    let mut i: usize = 0;
    while i < src.len()
        invariant
            i <= src@.len(),
            dst@ == old(dst)@ + src@.take(i as int),
        decreases src@.len() - i,
    {
        proof {
            assert(old(dst)@ + src@.take(i as int) + seq![src@[i as int]] =~= old(dst)@
                + src@.take(i + 1));
        }
        dst.push(src[i]);
        i += 1;
    }
    proof {
        assert(src@.take(src@.len() as int) =~= src@);
        assert(old(dst)@ + src@.take(0) =~= old(dst)@);
    }
}

/// Validates one voter's full encrypted submission.
///
/// Returns exactly [`request_outcome`]: `Ok(true)` where every byte
/// string decodes and every check passes; a failing check gives
/// `Err(VerificationError)` and a malformed byte string gives
/// `Err(DecodeError)`, each at the first step that fails — signature, the
/// batched range proof over the padded commitment batch, per-candidate
/// format proofs in supplied order, then the sum-relationship proof.
pub fn verify_bounded_vote_request(
    param: &SystemParametersStorage,
    request: &VoteRequest,
    public_key: &Vec<u8>,
) -> (r: Result<bool, AbvError>)
    requires
        request.vote.voted_ballot@.len() < 0x1000_0000,
    ensures
        r == request_outcome(*param, *request, public_key@),
        r is Ok <==> request_decodes(*param, *request)
            && request_checks_pass(*param, *request, public_key@),
        r matches Ok(b) ==> b == true,
        r == Err::<bool, AbvError>(AbvError::DecodeError) ==> !request_decodes(*param, *request),
        r == Err::<bool, AbvError>(AbvError::VerificationError) ==> !request_checks_pass(
            *param,
            *request,
            public_key@,
        ),
{
    if canonical_point_bytes(&param.poll_point).is_err() {
        return Err(AbvError::DecodeError);
    }

    let mut hash_vec: Vec<u8> = Vec::new();
    match &request.vote.blank_ballot {
        Some(b) => {
            append_bytes(&mut hash_vec, &b.ciphertext1);
            append_bytes(&mut hash_vec, &b.ciphertext2);
        },
        None => {},
    }
    proof {
        if request.vote.blank_ballot is None {
            assert(Seq::<u8>::empty() + Seq::<u8>::empty() =~= opt_c1(request.vote.blank_ballot)
                + opt_c2(request.vote.blank_ballot));
            assert(hash_vec@ =~= opt_c1(request.vote.blank_ballot) + opt_c2(
                request.vote.blank_ballot,
            ));
        }
    }
    let message_hash = keccak256_hash(&hash_vec);
    if !secp256k1_verify(public_key, &message_hash, &request.vote.signature) {
        return Err(AbvError::VerificationError);
    }

    let mut sum_bytes = identity_point_bytes();
    let mut i: usize = 0;
    proof {
        assert(request_outcome(*param, *request, public_key@) == voted_scan_outcome(
            *param,
            *request,
            0,
        ));
    }
    while i < request.vote.voted_ballot.len()
        invariant
            i <= request.vote.voted_ballot@.len(),
            request_outcome(*param, *request, public_key@) == voted_scan_outcome(
                *param,
                *request,
                i as int,
            ),
            sum_bytes@ == point_bytes_of_index(voted_c1_index_sum(
                request.vote.voted_ballot@.take(i as int),
            )),
            valid_point_bytes(sum_bytes@),
            point_index(sum_bytes@) == voted_c1_index_sum(
                request.vote.voted_ballot@.take(i as int),
            ),
            forall|j: int|
                0 <= j < i ==> valid_point_bytes(
                    #[trigger] request.vote.voted_ballot@[j].ballot.ciphertext1@,
                ),
        decreases request.vote.voted_ballot@.len() - i,
    {
        let next = match add_point_bytes(&sum_bytes, &request.vote.voted_ballot[i].ballot.ciphertext1) {
            Ok(s) => s,
            Err(_) => {
                return Err(AbvError::DecodeError);
            },
        };
        proof {
            let pre = request.vote.voted_ballot@.take(i as int);
            assert(pre.push(request.vote.voted_ballot@[i as int]) =~= request.vote.voted_ballot@
                .take(i + 1));
            assert(request.vote.voted_ballot@.take(i + 1).drop_last() =~= pre);
        }
        sum_bytes = next;
        i += 1;
    }
    proof {
        assert(request.vote.voted_ballot@.take(request.vote.voted_ballot@.len() as int)
            =~= request.vote.voted_ballot@);
    }

    let empty_rest: Vec<u8> = Vec::new();
    let rest_c1: &Vec<u8> = match &request.vote.rest_ballot {
        Some(b) => &b.ciphertext1,
        None => &empty_rest,
    };
    if canonical_point_bytes(rest_c1).is_err() {
        return Err(AbvError::DecodeError);
    }

    let commitments = match range_commitments(request) {
        Ok(c) => c,
        Err(_) => {
            return Err(AbvError::DecodeError);
        },
    };
    proof {
        assert(commitments.deep_view() =~~= padded_commitment_views(*request));
    }
    let mut seed_input: Vec<u8> = Vec::new();
    proof {
        assert(commitments.deep_view().take(0) =~= Seq::<Seq<u8>>::empty());
        assert(seed_input@ =~= concat_views(commitments.deep_view().take(0)));
    }
    let mut ci: usize = 0;
    while ci < commitments.len()
        invariant
            ci <= commitments@.len(),
            seed_input@ == concat_views(commitments.deep_view().take(ci as int)),
        decreases commitments@.len() - ci,
    {
        proof {
            assert(commitments@[ci as int].deep_view() =~= commitments@[ci as int]@);
            assert(commitments.deep_view().take(ci as int).push(
                commitments.deep_view()[ci as int],
            ) =~= commitments.deep_view().take(ci + 1));
            assert(commitments.deep_view().take(ci + 1).drop_last() =~= commitments.deep_view()
                .take(ci as int));
        }
        append_bytes(&mut seed_input, &commitments[ci]);
        ci += 1;
    }
    proof {
        assert(commitments.deep_view().take(commitments.deep_view().len() as int)
            =~= commitments.deep_view());
    }
    append_bytes(&mut seed_input, &request.range_proof);
    append_bytes(&mut seed_input, &param.poll_point);
    let seed = keccak256_hash(&seed_input);
    match verify_range_batch(&commitments, &request.range_proof, &param.poll_point, &seed) {
        Ok(true) => {},
        Ok(false) => {
            return Err(AbvError::VerificationError);
        },
        Err(_) => {
            // Unreachable: the range wrapper aborts only on an invalid poll
            // point, which was validated first.
            proof {
                assert(false);
            }
            return Err(AbvError::DecodeError);
        },
    }

    proof {
        assert(voted_scan_outcome(*param, *request, request.vote.voted_ballot@.len() as int)
            == range_step_outcome(*param, *request));
    }
    let mut k: usize = 0;
    while k < request.ballot_proof.len()
        invariant
            k <= request.ballot_proof@.len(),
            request_outcome(*param, *request, public_key@) == entries_outcome(
                *param,
                *request,
                k as int,
            ),
            valid_point_bytes(param.poll_point@),
            forall|j: int| 0 <= j < k ==> entry_decodes(*request, param.poll_point@, j),
            forall|j: int|
                0 <= j < k ==> #[trigger] format_proof_verdict(
                    entry_c1(*request, j),
                    entry_c2(*request, j),
                    request.ballot_proof@[j].format_proof@,
                    param.poll_point@,
                ) == Some(true),
        decreases request.ballot_proof@.len() - k,
    {
        let entry = &request.ballot_proof[k];
        let default_ballot = Ballot::default();
        let found = crate::data::find_ballot_index(&request.vote.voted_ballot, &entry.candidate);
        let checked: &Ballot = match found {
            Some(ix) => &request.vote.voted_ballot[ix].ballot,
            None => &default_ballot,
        };
        proof {
            assert(checked.ciphertext1@ == entry_c1(*request, k as int));
            assert(checked.ciphertext2@ == entry_c2(*request, k as int));
        }
        match verify_format(&checked.ciphertext1, &checked.ciphertext2, &entry.format_proof, &param.poll_point) {
            Ok(true) => {},
            Ok(false) => {
                proof {
                    assert(!request_checks_pass(*param, *request, public_key@));
                }
                return Err(AbvError::VerificationError);
            },
            Err(_) => {
                proof {
                    assert(!entry_decodes(*request, param.poll_point@, k as int));
                    assert(!request_decodes(*param, *request));
                }
                return Err(AbvError::DecodeError);
            },
        }
        k += 1;
    }

    let empty_blank: Vec<u8> = Vec::new();
    let blank_c1: &Vec<u8> = match &request.vote.blank_ballot {
        Some(b) => &b.ciphertext1,
        None => &empty_blank,
    };
    match verify_sum(&sum_bytes, rest_c1, blank_c1, &request.sum_balance_proof, &param.poll_point) {
        Ok(true) => Ok(true),
        Ok(false) => Err(AbvError::VerificationError),
        Err(_) => Err(AbvError::DecodeError),
    }
}

/// Collects the committed ballot values the batched range proof is checked
/// over — the first ciphertext component of every voted ballot in
/// submission order, then the rest ballot's — padded with the group
/// identity to the next power-of-two length.
///
/// Fails with `DecodeError` exactly where some collected component is not a
/// canonical group-element encoding.
pub fn range_commitments(request: &VoteRequest) -> (r: Result<Vec<Vec<u8>>, AbvError>)
    requires
        request.vote.voted_ballot@.len() < 0x1000_0000,
    ensures
        r is Ok <==> (forall|i: int|
            0 <= i < request.vote.voted_ballot@.len() ==> valid_point_bytes(
                #[trigger] request.vote.voted_ballot@[i].ballot.ciphertext1@,
            )) && valid_point_bytes(opt_c1(request.vote.rest_ballot)),
        r matches Ok(cs) ==> {
            let n = request.vote.voted_ballot@.len() as int;
            &&& cs@.len() == next_pow2((n + 1) as nat)
            &&& forall|i: int|
                0 <= i < n ==> cs@[i]@ == #[trigger] request.vote.voted_ballot@[i].ballot.ciphertext1@
            &&& cs@[n]@ == opt_c1(request.vote.rest_ballot)
            &&& forall|i: int| n < i < cs@.len() ==> #[trigger] cs@[i]@ == point_bytes_of_index(0)
            &&& forall|i: int| 0 <= i < cs@.len() ==> (#[trigger] cs@[i])@.len() == 32
        },
        r matches Err(e) ==> e == AbvError::DecodeError,
{
    let mut commitments: Vec<Vec<u8>> = Vec::new();
    let mut i: usize = 0;
    while i < request.vote.voted_ballot.len()
        invariant
            i <= request.vote.voted_ballot@.len(),
            commitments@.len() == i,
            forall|j: int|
                0 <= j < i ==> commitments@[j]@ == #[trigger] request.vote.voted_ballot@[j].ballot.ciphertext1@,
            forall|j: int|
                0 <= j < i ==> valid_point_bytes(
                    #[trigger] request.vote.voted_ballot@[j].ballot.ciphertext1@,
                ),
            forall|j: int| 0 <= j < i ==> (#[trigger] commitments@[j])@.len() == 32,
        decreases request.vote.voted_ballot@.len() - i,
    {
        let c = match canonical_point_bytes(&request.vote.voted_ballot[i].ballot.ciphertext1) {
            Ok(c) => c,
            Err(_) => {
                return Err(AbvError::DecodeError);
            },
        };
        commitments.push(c);
        i += 1;
    }
    let empty_rest: Vec<u8> = Vec::new();
    let rest_c1: &Vec<u8> = match &request.vote.rest_ballot {
        Some(b) => &b.ciphertext1,
        None => &empty_rest,
    };
    let rest = match canonical_point_bytes(rest_c1) {
        Ok(c) => c,
        Err(_) => {
            return Err(AbvError::DecodeError);
        },
    };
    commitments.push(rest);
    pending_commitment_vec(&mut commitments);
    Ok(commitments)
}

} // verus!
