//! Verification and tally-aggregation core of an anonymous, bounded-value
//! electronic voting protocol.
//!
//! Ballots are pairs of Ristretto group elements, carried here in their
//! canonical 32-byte encodings. The library validates encrypted vote
//! submissions (signature, range, format and balance proofs), folds verified
//! ballots homomorphically into a running tally, validates each counting
//! authority's partial decryption, and validates the disclosed plaintext
//! result against the aggregated ciphertext tally.

pub mod aggregate;
pub mod count;
pub mod crypto;
pub mod data;
pub mod error;
pub mod group;
pub mod padding;
pub mod request;
pub mod tally_result;
pub mod zkp;

pub use aggregate::aggregate_vote_sum_response;
pub use aggregate::lemma_aggregation_commutes;
pub use count::verify_count_request;
pub use data::Ballot;
pub use data::BallotProofPair;
pub use data::CandidateBallot;
pub use data::CandidatePartPair;
pub use data::CountingPart;
pub use data::DecryptedResultPartStorage;
pub use data::StringToInt64Pair;
pub use data::SystemParametersStorage;
pub use data::VoteRequest;
pub use data::VoteResultStorage;
pub use data::VoteStorage;
pub use error::AbvError;
pub use group::canonical_point_bytes;
pub use padding::pending_commitment_vec;
pub use request::range_commitments;
pub use request::verify_bounded_vote_request;
pub use tally_result::verify_vote_result;
