//! Record shapes of the voting protocol, with group elements carried as
//! canonical byte encodings, and the lookup semantics shared by the
//! verifiers: candidate lists are scanned in order and the last matching
//! entry wins; a missing entry stands for an identity (zero) contribution.

use vstd::prelude::*;
use crate::group::identity_point_bytes;
use crate::group::point_bytes_of_index;
use crate::group::point_index;
use crate::group::valid_point_bytes;

verus! {

/// A pair of group elements encoding a bounded integer vote value and its
/// encryption randomness.
#[derive(Clone, Debug)]
pub struct Ballot {
    pub ciphertext1: Vec<u8>,
    pub ciphertext2: Vec<u8>,
}

impl Default for Ballot {
    /// The identity ballot: both components encode the group identity,
    /// standing for a zero vote value with zero randomness.
    fn default() -> (b: Self)
        ensures
            b.ciphertext1@ == point_bytes_of_index(0),
            b.ciphertext2@ == point_bytes_of_index(0),
            valid_point_bytes(b.ciphertext1@) && point_index(b.ciphertext1@) == 0,
            valid_point_bytes(b.ciphertext2@) && point_index(b.ciphertext2@) == 0,
    {
        Ballot { ciphertext1: identity_point_bytes(), ciphertext2: identity_point_bytes() }
    }
}

/// One candidate's encrypted ballot, keyed by the candidate identifier.
#[derive(Clone, Debug)]
pub struct CandidateBallot {
    pub candidate: String,
    pub ballot: Ballot,
}

/// Election-wide immutable parameters: the ordered candidate set and the
/// poll point, the group element serving as the election's encryption base.
#[derive(Clone, Debug)]
pub struct SystemParametersStorage {
    pub candidates: Vec<String>,
    pub poll_point: Vec<u8>,
}

/// One voter's encrypted choices, or an aggregated tally over many voters:
/// the blank ballot carries the unused ballot budget, and the voted list one
/// entry per candidate voted for (at most one per candidate).
#[derive(Clone, Debug)]
pub struct VoteStorage {
    pub signature: Vec<u8>,
    pub blank_ballot: Option<Ballot>,
    pub rest_ballot: Option<Ballot>,
    pub voted_ballot: Vec<CandidateBallot>,
}

/// The format/balance proof supplied for one candidate's ballot.
#[derive(Clone, Debug)]
pub struct BallotProofPair {
    pub candidate: String,
    pub format_proof: Vec<u8>,
}

/// A voter's full encrypted submission: the ballots with their
/// authentication signature, a batched range proof, one format proof per
/// candidate ballot, and a sum-relationship proof tying candidate ballots,
/// rest ballot and blank ballot together.
#[derive(Clone, Debug)]
pub struct VoteRequest {
    pub vote: VoteStorage,
    pub sum_balance_proof: Vec<u8>,
    pub range_proof: Vec<u8>,
    pub ballot_proof: Vec<BallotProofPair>,
}

/// One counting authority's partial decryption of a ciphertext component,
/// with the proof that it was derived from the authority's secret share.
#[derive(Clone, Debug)]
pub struct CountingPart {
    pub c2_r: Vec<u8>,
    pub equality_proof: Vec<u8>,
}

impl Default for CountingPart {
    /// The empty contribution: an identity partial decryption with an empty
    /// proof, which generically fails the proof check.
    fn default() -> (p: Self)
        ensures
            p.c2_r@ == point_bytes_of_index(0),
            valid_point_bytes(p.c2_r@) && point_index(p.c2_r@) == 0,
            p.equality_proof@ == Seq::<u8>::empty(),
    {
        CountingPart { c2_r: identity_point_bytes(), equality_proof: Vec::new() }
    }
}

/// A counting part keyed by its candidate identifier.
#[derive(Clone, Debug)]
pub struct CandidatePartPair {
    pub key: String,
    pub value: CountingPart,
}

/// One counting authority's full submission: a partial decryption for the
/// blank slot and one per candidate slot.
#[derive(Clone, Debug)]
pub struct DecryptedResultPartStorage {
    pub blank_part: CountingPart,
    pub candidate_part: Vec<CandidatePartPair>,
}

/// One disclosed plaintext entry of the final result.
#[derive(Clone, Debug)]
pub struct StringToInt64Pair {
    pub key: String,
    pub value: i64,
}

/// The disclosed, human-readable election result.
#[derive(Clone, Debug)]
pub struct VoteResultStorage {
    pub result: Vec<StringToInt64Pair>,
}

/// Index of the last ballot entry for candidate `c`, or `-1` if none.
pub open spec fn last_ballot_index(bs: Seq<CandidateBallot>, c: Seq<char>) -> int
    decreases bs.len(),
{
    if bs.len() == 0 {
        -1
    } else if bs.last().candidate@ == c {
        bs.len() - 1
    } else {
        last_ballot_index(bs.drop_last(), c)
    }
}

/// Index of the last counting-part entry for candidate `c`, or `-1` if none.
pub open spec fn last_part_index(ps: Seq<CandidatePartPair>, c: Seq<char>) -> int
    decreases ps.len(),
{
    if ps.len() == 0 {
        -1
    } else if ps.last().key@ == c {
        ps.len() - 1
    } else {
        last_part_index(ps.drop_last(), c)
    }
}

/// Index of the last disclosed-result entry for key `k`, or `-1` if none.
pub open spec fn last_result_index(rs: Seq<StringToInt64Pair>, k: Seq<char>) -> int
    decreases rs.len(),
{
    if rs.len() == 0 {
        -1
    } else if rs.last().key@ == k {
        rs.len() - 1
    } else {
        last_result_index(rs.drop_last(), k)
    }
}

/// The disclosed value for key `k`: the last matching entry, or 0 if absent.
pub open spec fn result_value(rs: Seq<StringToInt64Pair>, k: Seq<char>) -> i64 {
    let i = last_result_index(rs, k);
    if i < 0 {
        0
    } else {
        rs[i].value
    }
}

proof fn lemma_last_ballot_index_push(bs: Seq<CandidateBallot>, c: Seq<char>, x: CandidateBallot)
    ensures
        last_ballot_index(bs.push(x), c) == if x.candidate@ == c {
            bs.len() as int
        } else {
            last_ballot_index(bs, c)
        },
{
    assert(bs.push(x).drop_last() =~= bs);
}

/// Finds the index of the last ballot entry for candidate `c`, scanning in
/// order as every verifier of this protocol does.
pub fn find_ballot_index(bs: &Vec<CandidateBallot>, c: &String) -> (r: Option<usize>)
    ensures
        r matches Some(i) ==> last_ballot_index(bs@, c@) == i && i < bs@.len()
            && bs@[i as int].candidate@ == c@,
        r is None ==> last_ballot_index(bs@, c@) == -1,
{
    let mut found: Option<usize> = None;
    let mut j: usize = 0;
    proof {
        assert(bs@.take(0) =~= Seq::<CandidateBallot>::empty());
    }
    while j < bs.len()
        invariant
            j <= bs@.len(),
            found matches Some(i) ==> last_ballot_index(bs@.take(j as int), c@) == i
                && i < j && bs@[i as int].candidate@ == c@,
            found is None ==> last_ballot_index(bs@.take(j as int), c@) == -1,
        decreases bs@.len() - j,
    {
        proof {
            lemma_last_ballot_index_push(bs@.take(j as int), c@, bs@[j as int]);
            assert(bs@.take(j as int).push(bs@[j as int]) =~= bs@.take(j + 1));
        }
        if bs[j].candidate == *c {
            found = Some(j);
        }
        j += 1;
    }
    proof {
        assert(bs@.take(bs@.len() as int) =~= bs@);
    }
    found
}

proof fn lemma_last_part_index_push(ps: Seq<CandidatePartPair>, c: Seq<char>, x: CandidatePartPair)
    ensures
        last_part_index(ps.push(x), c) == if x.key@ == c {
            ps.len() as int
        } else {
            last_part_index(ps, c)
        },
{
    assert(ps.push(x).drop_last() =~= ps);
}

/// Finds the index of the last counting-part entry for candidate `c`.
pub fn find_part_index(ps: &Vec<CandidatePartPair>, c: &String) -> (r: Option<usize>)
    ensures
        r matches Some(i) ==> last_part_index(ps@, c@) == i && i < ps@.len()
            && ps@[i as int].key@ == c@,
        r is None ==> last_part_index(ps@, c@) == -1,
{
    let mut found: Option<usize> = None;
    let mut j: usize = 0;
    proof {
        assert(ps@.take(0) =~= Seq::<CandidatePartPair>::empty());
    }
    while j < ps.len()
        invariant
            j <= ps@.len(),
            found matches Some(i) ==> last_part_index(ps@.take(j as int), c@) == i
                && i < j && ps@[i as int].key@ == c@,
            found is None ==> last_part_index(ps@.take(j as int), c@) == -1,
        decreases ps@.len() - j,
    {
        proof {
            lemma_last_part_index_push(ps@.take(j as int), c@, ps@[j as int]);
            assert(ps@.take(j as int).push(ps@[j as int]) =~= ps@.take(j + 1));
        }
        if ps[j].key == *c {
            found = Some(j);
        }
        j += 1;
    }
    proof {
        assert(ps@.take(ps@.len() as int) =~= ps@);
    }
    found
}

proof fn lemma_last_result_index_bound(rs: Seq<StringToInt64Pair>, k: Seq<char>)
    ensures
        -1 <= last_result_index(rs, k) < rs.len(),
    decreases rs.len(),
{
    if rs.len() > 0 && rs.last().key@ != k {
        lemma_last_result_index_bound(rs.drop_last(), k);
    }
}

proof fn lemma_last_result_index_push(rs: Seq<StringToInt64Pair>, k: Seq<char>, x: StringToInt64Pair)
    ensures
        last_result_index(rs.push(x), k) == if x.key@ == k {
            rs.len() as int
        } else {
            last_result_index(rs, k)
        },
{
    assert(rs.push(x).drop_last() =~= rs);
}

/// The disclosed value recorded for key `k`: the last matching entry wins,
/// and a missing key defaults to 0.
pub fn lookup_result_value(rs: &Vec<StringToInt64Pair>, k: &String) -> (r: i64)
    ensures
        r == result_value(rs@, k@),
{
    let mut value: i64 = 0;
    let mut j: usize = 0;
    proof {
        assert(rs@.take(0) =~= Seq::<StringToInt64Pair>::empty());
    }
    while j < rs.len()
        invariant
            j <= rs@.len(),
            value == result_value(rs@.take(j as int), k@),
        decreases rs@.len() - j,
    {
        proof {
            lemma_last_result_index_bound(rs@.take(j as int), k@);
            lemma_last_result_index_push(rs@.take(j as int), k@, rs@[j as int]);
            assert(rs@.take(j as int).push(rs@[j as int]) =~= rs@.take(j + 1));
        }
        if rs[j].key == *k {
            value = rs[j].value;
        }
        j += 1;
    }
    proof {
        assert(rs@.take(rs@.len() as int) =~= rs@);
    }
    value
}

} // verus!
