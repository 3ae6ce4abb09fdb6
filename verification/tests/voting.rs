//! End-to-end exercises of the verification core against the real
//! cryptographic primitives: ballots, proofs and signatures are generated
//! with the same crates the verifiers rely on.

use anonymous_bounded_voting::aggregate_vote_sum_response;
use anonymous_bounded_voting::canonical_point_bytes;
use anonymous_bounded_voting::verify_bounded_vote_request;
use anonymous_bounded_voting::verify_count_request;
use anonymous_bounded_voting::verify_vote_result;
use anonymous_bounded_voting::AbvError;
use anonymous_bounded_voting::Ballot;
use anonymous_bounded_voting::BallotProofPair;
use anonymous_bounded_voting::CandidateBallot;
use anonymous_bounded_voting::CandidatePartPair;
use anonymous_bounded_voting::CountingPart;
use anonymous_bounded_voting::DecryptedResultPartStorage;
use anonymous_bounded_voting::StringToInt64Pair;
use anonymous_bounded_voting::SystemParametersStorage;
use anonymous_bounded_voting::VoteRequest;
use anonymous_bounded_voting::VoteResultStorage;
use anonymous_bounded_voting::VoteStorage;

use curve25519_dalek::ristretto::RistrettoPoint;
use curve25519_dalek::scalar::Scalar;
use wedpr_l_crypto_hash_keccak256::WedprKeccak256;
use wedpr_l_crypto_signature_secp256k1::WedprSecp256k1Recover;
use wedpr_l_crypto_zkp_discrete_logarithm_proof::prove_equality_relationship_proof;
use wedpr_l_crypto_zkp_discrete_logarithm_proof::prove_format_proof;
use wedpr_l_crypto_zkp_discrete_logarithm_proof::prove_sum_relationship;
use wedpr_l_crypto_zkp_utils::bytes_to_point;
use wedpr_l_crypto_zkp_utils::get_random_scalar;
use wedpr_l_crypto_zkp_utils::point_to_bytes;
use wedpr_l_crypto_zkp_utils::BASEPOINT_G1;
use wedpr_l_crypto_zkp_utils::BASEPOINT_G2;
use wedpr_l_protos::proto_to_bytes;
use wedpr_l_utils::traits::Signature;

fn keccak(input: &Vec<u8>) -> Vec<u8> {
    let hasher = WedprKeccak256 {};
    wedpr_l_utils::traits::Hash::hash(&hasher, input)
}

fn ng_scalar(s: &Scalar) -> curve25519_dalek_ng::scalar::Scalar {
    let mut arr = [0u8; 32];
    arr.copy_from_slice(&wedpr_l_crypto_zkp_utils::scalar_to_bytes(s));
    curve25519_dalek_ng::scalar::Scalar::from_bits(arr)
}

/// An aggregated range proof over the given values, padded with zeros to a
/// power-of-two batch, bound to the poll point as blinding base under the
/// protocol's transcript domain.
fn make_range_proof(values: &[u64], blindings: &[Scalar], poll_bytes: &[u8]) -> Vec<u8> {
    let mut vals: Vec<u64> = values.to_vec();
    let mut blinds: Vec<curve25519_dalek_ng::scalar::Scalar> =
        blindings.iter().map(ng_scalar).collect();
    let m = vals.len().next_power_of_two();
    while vals.len() < m {
        vals.push(0);
        blinds.push(curve25519_dalek_ng::scalar::Scalar::zero());
    }
    let mut pc_gens = bulletproofs::PedersenGens::default();
    pc_gens.B_blinding = curve25519_dalek_ng::ristretto::CompressedRistretto::from_slice(
        poll_bytes,
    )
    .decompress()
    .unwrap();
    let bp_gens = bulletproofs::BulletproofGens::new(32, m);
    let mut transcript = merlin::Transcript::new(b"WeDPR");
    let (proof, _commitments) = bulletproofs::RangeProof::prove_multiple(
        &bp_gens,
        &pc_gens,
        &mut transcript,
        &vals,
        &blinds,
        32,
    )
    .unwrap();
    proof.to_bytes()
}

fn make_ballot(value: u64, blinding: &Scalar, poll: &RistrettoPoint) -> Ballot {
    let c1 = &*BASEPOINT_G1 * Scalar::from(value) + poll * blinding;
    let c2 = &*BASEPOINT_G2 * blinding;
    Ballot {
        ciphertext1: point_to_bytes(&c1),
        ciphertext2: point_to_bytes(&c2),
    }
}

struct Election {
    params: SystemParametersStorage,
    counter_secret: Scalar,
    counter_share: Vec<u8>,
    poll_point: RistrettoPoint,
}

fn setup_election(candidates: &[&str]) -> Election {
    // A single counting authority holding the whole decryption key: the
    // poll point is its share on the second base point.
    let counter_secret = get_random_scalar();
    let poll_point = &*BASEPOINT_G2 * counter_secret;
    Election {
        params: SystemParametersStorage {
            candidates: candidates.iter().map(|c| c.to_string()).collect(),
            poll_point: point_to_bytes(&poll_point),
        },
        counter_secret,
        counter_share: point_to_bytes(&poll_point),
        poll_point,
    }
}

struct Voter {
    public_key: Vec<u8>,
    request: VoteRequest,
}

/// Builds an honestly formed submission casting `votes[i]` for candidate
/// `i`, out of a total budget that the blank ballot carries.
fn make_vote_request(election: &Election, votes: &[u64], budget: u64) -> Voter {
    let signer = WedprSecp256k1Recover {};
    let (public_key, secret_key) = signer.generate_keypair();
    let poll = &election.poll_point;

    let blank_blinding = get_random_scalar();
    let blank = make_ballot(budget, &blank_blinding, poll);

    let mut hash_vec: Vec<u8> = Vec::new();
    hash_vec.extend_from_slice(&blank.ciphertext1);
    hash_vec.extend_from_slice(&blank.ciphertext2);
    let message_hash = keccak(&hash_vec);
    let signature = signer.sign(&secret_key, &message_hash).unwrap();

    let mut voted = Vec::new();
    let mut ballot_proof = Vec::new();
    let mut voted_value: u64 = 0;
    let mut voted_blinding_sum = Scalar::zero();
    let mut values: Vec<u64> = Vec::new();
    let mut blindings: Vec<Scalar> = Vec::new();
    for (i, candidate) in election.params.candidates.iter().enumerate() {
        let value = votes[i];
        let blinding = get_random_scalar();
        voted_value += value;
        voted_blinding_sum += blinding;
        values.push(value);
        blindings.push(blinding);
        voted.push(CandidateBallot {
            candidate: candidate.clone(),
            ballot: make_ballot(value, &blinding, poll),
        });
        let format = prove_format_proof(value, &blinding, &BASEPOINT_G1, &BASEPOINT_G2, poll);
        ballot_proof.push(BallotProofPair {
            candidate: candidate.clone(),
            format_proof: proto_to_bytes(&format).unwrap(),
        });
    }

    let rest_value = budget - voted_value;
    let rest_blinding = get_random_scalar();
    let rest = make_ballot(rest_value, &rest_blinding, poll);
    values.push(rest_value);
    blindings.push(rest_blinding);
    let range_proof = make_range_proof(&values, &blindings, &election.params.poll_point);

    let sum_proof = prove_sum_relationship(
        voted_value,
        rest_value,
        &voted_blinding_sum,
        &rest_blinding,
        &blank_blinding,
        &BASEPOINT_G1,
        poll,
    );

    Voter {
        public_key,
        request: VoteRequest {
            vote: VoteStorage {
                signature,
                blank_ballot: Some(blank),
                rest_ballot: Some(rest),
                voted_ballot: voted,
            },
            sum_balance_proof: proto_to_bytes(&sum_proof).unwrap(),
            range_proof,
            ballot_proof,
        },
    }
}

fn fresh_tally() -> VoteStorage {
    VoteStorage {
        signature: Vec::new(),
        blank_ballot: None,
        rest_ballot: None,
        voted_ballot: Vec::new(),
    }
}

/// One authority's partial decryption of every slot of the tally.
fn make_count_request(election: &Election, tally: &VoteStorage) -> DecryptedResultPartStorage {
    let x = &election.counter_secret;
    let decrypt = |ballot: &Ballot| -> CountingPart {
        let c2 = bytes_to_point(&ballot.ciphertext2).unwrap();
        let c2_r = c2 * x;
        let proof = prove_equality_relationship_proof(x, &BASEPOINT_G2, &c2);
        CountingPart {
            c2_r: point_to_bytes(&c2_r),
            equality_proof: proto_to_bytes(&proof).unwrap(),
        }
    };
    let blank_part = decrypt(tally.blank_ballot.as_ref().unwrap());
    let candidate_part = tally
        .voted_ballot
        .iter()
        .map(|pair| CandidatePartPair {
            key: pair.candidate.clone(),
            value: decrypt(&pair.ballot),
        })
        .collect();
    DecryptedResultPartStorage {
        blank_part,
        candidate_part,
    }
}

fn disclosed_result(entries: &[(&str, i64)]) -> VoteResultStorage {
    VoteResultStorage {
        result: entries
            .iter()
            .map(|(k, v)| StringToInt64Pair {
                key: k.to_string(),
                value: *v,
            })
            .collect(),
    }
}

#[test]
fn point_bytes_round_trip() {
    let p = &*BASEPOINT_G1 * Scalar::from(7u64);
    let bytes = point_to_bytes(&p);
    let round = canonical_point_bytes(&bytes).unwrap();
    assert_eq!(round, bytes);
}

#[test]
fn point_bytes_reject_malformed() {
    let short = vec![1u8; 31];
    assert_eq!(canonical_point_bytes(&short), Err(AbvError::DecodeError));
    // All bytes 0xff is not a canonical Ristretto encoding.
    let bad = vec![0xffu8; 32];
    assert_eq!(canonical_point_bytes(&bad), Err(AbvError::DecodeError));
}

#[test]
fn honest_vote_request_verifies() {
    let election = setup_election(&["A", "B", "C"]);
    let voter = make_vote_request(&election, &[1, 0, 0], 1);
    let outcome =
        verify_bounded_vote_request(&election.params, &voter.request, &voter.public_key);
    assert_eq!(outcome, Ok(true));
}

#[test]
fn ballot_value_at_range_bound_verifies() {
    let election = setup_election(&["A", "B"]);
    let bound: u64 = u32::MAX as u64;
    let voter = make_vote_request(&election, &[bound, 0], bound);
    let outcome = verify_bounded_vote_request(&election.params, &voter.request, &voter.public_key);
    assert_eq!(outcome, Ok(true));
}

#[test]
fn ballot_value_past_range_bound_fails() {
    let election = setup_election(&["A", "B"]);
    let past: u64 = (u32::MAX as u64) + 1;
    let voter = make_vote_request(&election, &[past, 0], past);
    let outcome = verify_bounded_vote_request(&election.params, &voter.request, &voter.public_key);
    assert_eq!(outcome, Err(AbvError::VerificationError));
}

#[test]
fn tampered_range_proof_rejects() {
    let election = setup_election(&["A", "B"]);
    let mut voter = make_vote_request(&election, &[1, 0], 2);
    voter.request.range_proof[7] ^= 1;
    let outcome = verify_bounded_vote_request(&election.params, &voter.request, &voter.public_key);
    assert_eq!(outcome, Err(AbvError::VerificationError));
}

#[test]
fn wrong_public_key_rejects() {
    let election = setup_election(&["A", "B"]);
    let voter = make_vote_request(&election, &[1, 0], 2);
    let signer = WedprSecp256k1Recover {};
    let (other_public_key, _) = signer.generate_keypair();
    let outcome =
        verify_bounded_vote_request(&election.params, &voter.request, &other_public_key);
    assert_eq!(outcome, Err(AbvError::VerificationError));
}

#[test]
fn conservation_violation_fails_balance_check() {
    let election = setup_election(&["A", "B", "C"]);
    let mut voter = make_vote_request(&election, &[1, 0, 0], 3);
    // Claim one extra unit of total voting power: re-make the blank ballot
    // with a perturbed value and re-sign it, keeping the old sum proof.
    let signer = WedprSecp256k1Recover {};
    let (public_key, secret_key) = signer.generate_keypair();
    let blank_blinding = get_random_scalar();
    let blank = make_ballot(4, &blank_blinding, &election.poll_point);
    let mut hash_vec: Vec<u8> = Vec::new();
    hash_vec.extend_from_slice(&blank.ciphertext1);
    hash_vec.extend_from_slice(&blank.ciphertext2);
    let message_hash = keccak(&hash_vec);
    voter.request.vote.signature = signer.sign(&secret_key, &message_hash).unwrap();
    voter.request.vote.blank_ballot = Some(blank);
    let outcome = verify_bounded_vote_request(&election.params, &voter.request, &public_key);
    assert_eq!(outcome, Err(AbvError::VerificationError));
}

#[test]
fn aggregation_commutes_bitwise() {
    let election = setup_election(&["A", "B"]);
    let v1 = make_vote_request(&election, &[1, 0], 2);
    let v2 = make_vote_request(&election, &[0, 1], 2);

    let mut t12 = fresh_tally();
    assert_eq!(
        aggregate_vote_sum_response(&election.params, &v1.request.vote, &mut t12),
        Ok(true)
    );
    assert_eq!(
        aggregate_vote_sum_response(&election.params, &v2.request.vote, &mut t12),
        Ok(true)
    );

    let mut t21 = fresh_tally();
    assert_eq!(
        aggregate_vote_sum_response(&election.params, &v2.request.vote, &mut t21),
        Ok(true)
    );
    assert_eq!(
        aggregate_vote_sum_response(&election.params, &v1.request.vote, &mut t21),
        Ok(true)
    );

    let b12 = t12.blank_ballot.unwrap();
    let b21 = t21.blank_ballot.unwrap();
    assert_eq!(b12.ciphertext1, b21.ciphertext1);
    assert_eq!(b12.ciphertext2, b21.ciphertext2);
    assert_eq!(t12.voted_ballot.len(), t21.voted_ballot.len());
    for (a, b) in t12.voted_ballot.iter().zip(t21.voted_ballot.iter()) {
        assert_eq!(a.candidate, b.candidate);
        assert_eq!(a.ballot.ciphertext1, b.ballot.ciphertext1);
        assert_eq!(a.ballot.ciphertext2, b.ballot.ciphertext2);
    }
}

#[test]
fn aggregate_rejects_malformed_ballot() {
    let election = setup_election(&["A"]);
    let mut part = make_vote_request(&election, &[1], 1).request.vote;
    part.blank_ballot = Some(Ballot {
        ciphertext1: vec![2u8; 31],
        ciphertext2: vec![3u8; 32],
    });
    let mut tally = fresh_tally();
    let outcome = aggregate_vote_sum_response(&election.params, &part, &mut tally);
    assert_eq!(outcome, Err(AbvError::DecodeError));
}

#[test]
fn missing_candidate_aggregates_as_identity() {
    let election = setup_election(&["A", "B"]);
    let voter = make_vote_request(&election, &[1, 0], 1);
    let mut part = voter.request.vote;
    // Omit candidate B entirely from the submission.
    part.voted_ballot.retain(|p| p.candidate == "A");
    let mut tally = fresh_tally();
    assert_eq!(
        aggregate_vote_sum_response(&election.params, &part, &mut tally),
        Ok(true)
    );
    // The B slot of the tally still holds the identity element.
    let identity = point_to_bytes(&RistrettoPoint::default());
    assert_eq!(tally.voted_ballot[1].candidate, "B");
    assert_eq!(tally.voted_ballot[1].ballot.ciphertext1, identity);
    assert_eq!(tally.voted_ballot[1].ballot.ciphertext2, identity);
}

#[test]
fn end_to_end_single_vote() {
    let election = setup_election(&["A", "B", "C"]);
    let voter = make_vote_request(&election, &[1, 0, 0], 1);
    assert_eq!(
        verify_bounded_vote_request(&election.params, &voter.request, &voter.public_key),
        Ok(true)
    );

    let mut tally = fresh_tally();
    assert_eq!(
        aggregate_vote_sum_response(&election.params, &voter.request.vote, &mut tally),
        Ok(true)
    );

    let count = make_count_request(&election, &tally);
    assert_eq!(
        verify_count_request(&election.params, &tally, &election.counter_share, &count),
        Ok(true)
    );

    let disclosed = disclosed_result(&[
        ("Wedpr_voting_total_ballots", 1),
        ("A", 1),
        ("B", 0),
        ("C", 0),
    ]);
    assert_eq!(
        verify_vote_result(&election.params, &tally, &count, &disclosed),
        Ok(true)
    );

    let wrong = disclosed_result(&[
        ("Wedpr_voting_total_ballots", 1),
        ("A", 2),
        ("B", 0),
        ("C", 0),
    ]);
    assert_eq!(
        verify_vote_result(&election.params, &tally, &count, &wrong),
        Ok(false)
    );
}

#[test]
fn missing_disclosed_value_defaults_to_zero() {
    let election = setup_election(&["A", "B"]);
    let voter = make_vote_request(&election, &[1, 0], 1);
    let mut tally = fresh_tally();
    assert_eq!(
        aggregate_vote_sum_response(&election.params, &voter.request.vote, &mut tally),
        Ok(true)
    );
    let count = make_count_request(&election, &tally);
    // B's zero count may simply be omitted from the disclosed result.
    let disclosed = disclosed_result(&[("Wedpr_voting_total_ballots", 1), ("A", 1)]);
    assert_eq!(
        verify_vote_result(&election.params, &tally, &count, &disclosed),
        Ok(true)
    );
}

#[test]
fn count_request_with_wrong_share_rejects() {
    let election = setup_election(&["A"]);
    let voter = make_vote_request(&election, &[1], 1);
    let mut tally = fresh_tally();
    assert_eq!(
        aggregate_vote_sum_response(&election.params, &voter.request.vote, &mut tally),
        Ok(true)
    );
    let count = make_count_request(&election, &tally);
    let wrong_share = point_to_bytes(&(&*BASEPOINT_G2 * get_random_scalar()));
    assert_eq!(
        verify_count_request(&election.params, &tally, &wrong_share, &count),
        Ok(false)
    );
}

#[test]
fn count_request_missing_part_rejects() {
    let election = setup_election(&["A", "B"]);
    let voter = make_vote_request(&election, &[1, 0], 1);
    let mut tally = fresh_tally();
    assert_eq!(
        aggregate_vote_sum_response(&election.params, &voter.request.vote, &mut tally),
        Ok(true)
    );
    let mut count = make_count_request(&election, &tally);
    count.candidate_part.retain(|p| p.key == "A");
    let outcome = verify_count_request(&election.params, &tally, &election.counter_share, &count);
    // The missing counting part counts as a failed check, not an error.
    assert_eq!(outcome, Ok(false));
}

#[test]
fn tampered_bytes_never_verify() {
    let election = setup_election(&["A", "B", "C"]);
    let voter = make_vote_request(&election, &[1, 0, 0], 1);

    // Flip one byte of a format proof.
    let mut tampered = voter.request.clone();
    tampered.ballot_proof[0].format_proof[3] ^= 1;
    assert_ne!(
        verify_bounded_vote_request(&election.params, &tampered, &voter.public_key),
        Ok(true)
    );

    // Flip one byte of the sum proof.
    let mut tampered = voter.request.clone();
    tampered.sum_balance_proof[5] ^= 1;
    assert_ne!(
        verify_bounded_vote_request(&election.params, &tampered, &voter.public_key),
        Ok(true)
    );

    // Flip one byte of a candidate ciphertext.
    let mut tampered = voter.request.clone();
    tampered.vote.voted_ballot[0].ballot.ciphertext1[10] ^= 1;
    assert_ne!(
        verify_bounded_vote_request(&election.params, &tampered, &voter.public_key),
        Ok(true)
    );

    // Flip one byte of the signature.
    let mut tampered = voter.request.clone();
    tampered.vote.signature[0] ^= 1;
    assert_ne!(
        verify_bounded_vote_request(&election.params, &tampered, &voter.public_key),
        Ok(true)
    );

    // Flip one byte of an equality proof in a counting submission.
    let mut tally = fresh_tally();
    assert_eq!(
        aggregate_vote_sum_response(&election.params, &voter.request.vote, &mut tally),
        Ok(true)
    );
    let mut count = make_count_request(&election, &tally);
    count.blank_part.equality_proof[2] ^= 1;
    assert_ne!(
        verify_count_request(&election.params, &tally, &election.counter_share, &count),
        Ok(true)
    );

    // Flip one byte of a partial decryption.
    let mut count = make_count_request(&election, &tally);
    count.candidate_part[0].value.c2_r[4] ^= 1;
    assert_ne!(
        verify_count_request(&election.params, &tally, &election.counter_share, &count),
        Ok(true)
    );
}
