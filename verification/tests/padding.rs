//! Behavior of the commitment-batch padding and collection.

use anonymous_bounded_voting::pending_commitment_vec;
use anonymous_bounded_voting::range_commitments;
use anonymous_bounded_voting::AbvError;
use anonymous_bounded_voting::Ballot;
use anonymous_bounded_voting::CandidateBallot;
use anonymous_bounded_voting::VoteRequest;
use anonymous_bounded_voting::VoteStorage;

use curve25519_dalek::ristretto::RistrettoPoint;
use curve25519_dalek::scalar::Scalar;
use wedpr_l_crypto_zkp_utils::point_to_bytes;
use wedpr_l_crypto_zkp_utils::BASEPOINT_G1;

fn point_bytes(n: u64) -> Vec<u8> {
    point_to_bytes(&(&*BASEPOINT_G1 * Scalar::from(n)))
}

fn identity_bytes() -> Vec<u8> {
    point_to_bytes(&RistrettoPoint::default())
}

#[test]
fn padding_keeps_power_of_two_batches() {
    let original = vec![point_bytes(1), point_bytes(2), point_bytes(3), point_bytes(4)];
    let mut batch = original.clone();
    pending_commitment_vec(&mut batch);
    assert_eq!(batch, original);

    let mut one = vec![point_bytes(9)];
    pending_commitment_vec(&mut one);
    assert_eq!(one, vec![point_bytes(9)]);
}

#[test]
fn padding_extends_to_next_power_of_two() {
    let mut batch = vec![point_bytes(1), point_bytes(2), point_bytes(3)];
    pending_commitment_vec(&mut batch);
    assert_eq!(batch.len(), 4);
    assert_eq!(batch[0], point_bytes(1));
    assert_eq!(batch[1], point_bytes(2));
    assert_eq!(batch[2], point_bytes(3));
    assert_eq!(batch[3], identity_bytes());

    let mut five = vec![point_bytes(1); 5];
    pending_commitment_vec(&mut five);
    assert_eq!(five.len(), 8);
    for extra in &five[5..] {
        assert_eq!(*extra, identity_bytes());
    }
}

#[test]
fn padding_handles_empty_batch() {
    let mut batch: Vec<Vec<u8>> = Vec::new();
    pending_commitment_vec(&mut batch);
    assert_eq!(batch, vec![identity_bytes()]);
}

fn request_with_ballots(c1s: &[Vec<u8>], rest: Vec<u8>) -> VoteRequest {
    VoteRequest {
        vote: VoteStorage {
            signature: Vec::new(),
            blank_ballot: None,
            rest_ballot: Some(Ballot {
                ciphertext1: rest,
                ciphertext2: identity_bytes(),
            }),
            voted_ballot: c1s
                .iter()
                .enumerate()
                .map(|(i, c1)| CandidateBallot {
                    candidate: format!("cand{}", i),
                    ballot: Ballot {
                        ciphertext1: c1.clone(),
                        ciphertext2: identity_bytes(),
                    },
                })
                .collect(),
        },
        sum_balance_proof: Vec::new(),
        range_proof: Vec::new(),
        ballot_proof: Vec::new(),
    }
}

#[test]
fn range_commitments_collects_and_pads() {
    let request = request_with_ballots(
        &[point_bytes(1), point_bytes(2), point_bytes(3)],
        point_bytes(4),
    );
    let batch = range_commitments(&request).unwrap();
    assert_eq!(batch.len(), 4);
    assert_eq!(batch[0], point_bytes(1));
    assert_eq!(batch[1], point_bytes(2));
    assert_eq!(batch[2], point_bytes(3));
    assert_eq!(batch[3], point_bytes(4));

    let request = request_with_ballots(&[point_bytes(1), point_bytes(2)], point_bytes(3));
    let batch = range_commitments(&request).unwrap();
    assert_eq!(batch.len(), 4);
    assert_eq!(batch[3], identity_bytes());
}

#[test]
fn range_commitments_rejects_malformed() {
    let request = request_with_ballots(&[vec![0xffu8; 32]], point_bytes(1));
    assert_eq!(range_commitments(&request), Err(AbvError::DecodeError));
}
