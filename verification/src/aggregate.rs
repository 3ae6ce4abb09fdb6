//! Homomorphic aggregation of encrypted ballots into a running tally.
//!
//! A fresh tally (one without a blank ballot) is first initialized with an
//! identity blank ballot and one identity candidate ballot per configured
//! candidate; folding a voter's storage then adds, component by component,
//! the incoming blank ballot and each configured candidate's ballot into
//! the tally's. A candidate missing on either side contributes the group
//! identity. At the index level a fold is modular addition, which is why
//! aggregation commutes — see [`lemma_aggregation_commutes`].

use vstd::prelude::*;
use crate::data::Ballot;
use crate::data::CandidateBallot;
use crate::data::SystemParametersStorage;
use crate::data::VoteStorage;
use crate::data::find_ballot_index;
use crate::data::last_ballot_index;
use crate::error::AbvError;
use crate::group::add_index;
use crate::group::add_point_bytes;
use crate::group::group_order;
use crate::group::point_bytes_of_index;
use crate::group::point_index;
use crate::group::valid_point_bytes;

verus! {

/// Index of the first ciphertext component held for candidate `c` in a
/// voted list: the last matching entry's, or 0 (the identity) if absent.
pub open spec fn slot_c1_index(bs: Seq<CandidateBallot>, c: Seq<char>) -> nat {
    let k = last_ballot_index(bs, c);
    if k < 0 {
        0
    } else {
        point_index(bs[k].ballot.ciphertext1@)
    }
}

/// Index of the second ciphertext component held for candidate `c`.
pub open spec fn slot_c2_index(bs: Seq<CandidateBallot>, c: Seq<char>) -> nat {
    let k = last_ballot_index(bs, c);
    if k < 0 {
        0
    } else {
        point_index(bs[k].ballot.ciphertext2@)
    }
}

/// Whether the ballot held for candidate `c` decodes; an absent entry
/// stands for the identity and needs no decoding.
pub open spec fn slot_decodes(bs: Seq<CandidateBallot>, c: Seq<char>) -> bool {
    let k = last_ballot_index(bs, c);
    k < 0 || (valid_point_bytes(bs[k].ballot.ciphertext1@) && valid_point_bytes(
        bs[k].ballot.ciphertext2@,
    ))
}

/// Blank-ballot first-component index of a tally after initialization: a
/// fresh tally is initialized with the identity.
pub open spec fn init_blank_c1_index(v: VoteStorage) -> nat {
    match v.blank_ballot {
        Some(b) => point_index(b.ciphertext1@),
        None => 0,
    }
}

/// Blank-ballot second-component index of a tally after initialization.
pub open spec fn init_blank_c2_index(v: VoteStorage) -> nat {
    match v.blank_ballot {
        Some(b) => point_index(b.ciphertext2@),
        None => 0,
    }
}

/// Candidate-slot first-component index of a tally after initialization: a
/// fresh tally holds the identity in every slot.
pub open spec fn init_slot_c1_index(v: VoteStorage, c: Seq<char>) -> nat {
    if v.blank_ballot is Some {
        slot_c1_index(v.voted_ballot@, c)
    } else {
        0
    }
}

/// Candidate-slot second-component index of a tally after initialization.
pub open spec fn init_slot_c2_index(v: VoteStorage, c: Seq<char>) -> nat {
    if v.blank_ballot is Some {
        slot_c2_index(v.voted_ballot@, c)
    } else {
        0
    }
}

/// Whether everything aggregation must decode does decode: both blank
/// ballots (the tally's only where it already had one) and, per configured
/// candidate, the ballots present on either side.
pub open spec fn aggregate_decodes(sum: VoteStorage, part: VoteStorage, cs: Seq<String>) -> bool {
    &&& match sum.blank_ballot {
        Some(b) => valid_point_bytes(b.ciphertext1@) && valid_point_bytes(b.ciphertext2@),
        None => true,
    }
    &&& match part.blank_ballot {
        Some(b) => valid_point_bytes(b.ciphertext1@) && valid_point_bytes(b.ciphertext2@),
        None => false,
    }
    &&& forall|j: int|
        0 <= j < cs.len() ==> (sum.blank_ballot is None || #[trigger] slot_decodes(
            sum.voted_ballot@,
            cs[j]@,
        ))
    &&& forall|j: int| 0 <= j < cs.len() ==> #[trigger] slot_decodes(part.voted_ballot@, cs[j]@)
}

/// How an aggregated tally relates to the initialized tally it grew from
/// and the incoming storage: slot by slot, indexes add modulo the group
/// order, and every component carries the canonical encoding of its index.
pub open spec fn aggregate_relation(
    cs: Seq<String>,
    sum0: VoteStorage,
    part: VoteStorage,
    new: VoteStorage,
) -> bool {
    &&& new.signature@ == Seq::<u8>::empty()
    &&& new.rest_ballot is None
    &&& match new.blank_ballot {
        Some(nb) => {
            &&& nb.ciphertext1@ == point_bytes_of_index(
                add_index(init_blank_c1_index(sum0), init_blank_c1_index(part)),
            )
            &&& point_index(nb.ciphertext1@) == add_index(
                init_blank_c1_index(sum0),
                init_blank_c1_index(part),
            )
            &&& valid_point_bytes(nb.ciphertext1@)
            &&& nb.ciphertext2@ == point_bytes_of_index(
                add_index(init_blank_c2_index(sum0), init_blank_c2_index(part)),
            )
            &&& point_index(nb.ciphertext2@) == add_index(
                init_blank_c2_index(sum0),
                init_blank_c2_index(part),
            )
            &&& valid_point_bytes(nb.ciphertext2@)
        },
        None => false,
    }
    &&& new.voted_ballot@.len() == cs.len()
    &&& forall|j: int|
        0 <= j < cs.len() ==> (#[trigger] new.voted_ballot@[j]).candidate@ == cs[j]@
            && new.voted_ballot@[j].ballot.ciphertext1@ == point_bytes_of_index(
            add_index(init_slot_c1_index(sum0, cs[j]@), slot_c1_index(part.voted_ballot@, cs[j]@)),
        ) && point_index(new.voted_ballot@[j].ballot.ciphertext1@) == add_index(
            init_slot_c1_index(sum0, cs[j]@),
            slot_c1_index(part.voted_ballot@, cs[j]@),
        ) && valid_point_bytes(new.voted_ballot@[j].ballot.ciphertext1@)
            && new.voted_ballot@[j].ballot.ciphertext2@ == point_bytes_of_index(
            add_index(init_slot_c2_index(sum0, cs[j]@), slot_c2_index(part.voted_ballot@, cs[j]@)),
        ) && point_index(new.voted_ballot@[j].ballot.ciphertext2@) == add_index(
            init_slot_c2_index(sum0, cs[j]@),
            slot_c2_index(part.voted_ballot@, cs[j]@),
        ) && valid_point_bytes(new.voted_ballot@[j].ballot.ciphertext2@)
}

/// Whether optional ballots hold the same bytes.
pub open spec fn opt_ballot_views_equal(a: Option<Ballot>, b: Option<Ballot>) -> bool {
    match (a, b) {
        (Some(x), Some(y)) => x.ciphertext1@ == y.ciphertext1@ && x.ciphertext2@ == y.ciphertext2@,
        (None, None) => true,
        _ => false,
    }
}

/// Whether two storages hold the same bytes in every field.
pub open spec fn storage_views_equal(a: VoteStorage, b: VoteStorage) -> bool {
    &&& a.signature@ == b.signature@
    &&& opt_ballot_views_equal(a.blank_ballot, b.blank_ballot)
    &&& opt_ballot_views_equal(a.rest_ballot, b.rest_ballot)
    &&& a.voted_ballot@.len() == b.voted_ballot@.len()
    &&& forall|i: int|
        0 <= i < a.voted_ballot@.len() ==> (#[trigger] a.voted_ballot@[i]).candidate@
            == (#[trigger] b.voted_ballot@[i]).candidate@
            && a.voted_ballot@[i].ballot.ciphertext1@ == b.voted_ballot@[i].ballot.ciphertext1@
            && a.voted_ballot@[i].ballot.ciphertext2@ == b.voted_ballot@[i].ballot.ciphertext2@
}

/// How the tally looks right after initialization: unchanged if it already
/// had a blank ballot, else the identity blank ballot and one appended
/// identity entry per configured candidate.
pub open spec fn initialized_relation(old: VoteStorage, cs: Seq<String>, fin: VoteStorage) -> bool {
    if old.blank_ballot is Some {
        storage_views_equal(fin, old)
    } else {
        &&& fin.signature == old.signature
        &&& fin.rest_ballot == old.rest_ballot
        &&& match fin.blank_ballot {
            Some(b) => b.ciphertext1@ == point_bytes_of_index(0) && b.ciphertext2@
                == point_bytes_of_index(0),
            None => false,
        }
        &&& fin.voted_ballot@.len() == old.voted_ballot@.len() + cs.len()
        &&& forall|i: int|
            0 <= i < old.voted_ballot@.len() ==> #[trigger] fin.voted_ballot@[i]
                == old.voted_ballot@[i]
        &&& forall|i: int|
            old.voted_ballot@.len() <= i < fin.voted_ballot@.len()
                ==> (#[trigger] fin.voted_ballot@[i]).candidate@ == cs[i - old.voted_ballot@.len()]@
                && fin.voted_ballot@[i].ballot.ciphertext1@ == point_bytes_of_index(0)
                && fin.voted_ballot@[i].ballot.ciphertext2@ == point_bytes_of_index(0)
    }
}

/// Folds one voter's encrypted storage into the running tally in place.
///
/// Succeeds exactly where everything needed decodes; the tally then holds,
/// per slot, the group sum of its previous contents and the incoming
/// contribution. On a decode failure the tally is left merely initialized.
/// Whether the incoming ballots were individually verified is the caller's
/// contract: verification must happen before aggregation.
pub fn aggregate_vote_sum_response(
    param: &SystemParametersStorage,
    vote_storage_part: &VoteStorage,
    vote_sum: &mut VoteStorage,
) -> (r: Result<bool, AbvError>)
    ensures
        r is Ok <==> aggregate_decodes(*old(vote_sum), *vote_storage_part, param.candidates@),
        r matches Ok(b) ==> b == true,
        r is Ok ==> aggregate_relation(
            param.candidates@,
            *old(vote_sum),
            *vote_storage_part,
            *final(vote_sum),
        ),
        r matches Err(e) ==> e == AbvError::DecodeError,
        r is Err ==> initialized_relation(*old(vote_sum), param.candidates@, *final(vote_sum)),
{
    let was_fresh = vote_sum.blank_ballot.is_none();
    if was_fresh {
        vote_sum.blank_ballot = Some(Ballot::default());
        let ghost pre = vote_sum.voted_ballot@;
        let mut idx: usize = 0;
        while idx < param.candidates.len()
            invariant
                idx <= param.candidates@.len(),
                vote_sum.signature == old(vote_sum).signature,
                vote_sum.rest_ballot == old(vote_sum).rest_ballot,
                match vote_sum.blank_ballot {
                    Some(b) => b.ciphertext1@ == point_bytes_of_index(0) && b.ciphertext2@
                        == point_bytes_of_index(0),
                    None => false,
                },
                pre == old(vote_sum).voted_ballot@,
                vote_sum.voted_ballot@.len() == pre.len() + idx,
                forall|i: int| 0 <= i < pre.len() ==> #[trigger] vote_sum.voted_ballot@[i] == pre[i],
                forall|i: int|
                    pre.len() <= i < vote_sum.voted_ballot@.len()
                        ==> (#[trigger] vote_sum.voted_ballot@[i]).candidate@
                        == param.candidates@[i - pre.len()]@
                        && vote_sum.voted_ballot@[i].ballot.ciphertext1@ == point_bytes_of_index(0)
                        && vote_sum.voted_ballot@[i].ballot.ciphertext2@ == point_bytes_of_index(0),
            decreases param.candidates@.len() - idx,
        {
            let pair = CandidateBallot {
                candidate: param.candidates[idx].clone(),
                ballot: Ballot::default(),
            };
            vote_sum.voted_ballot.push(pair);
            idx += 1;
        }
    }
    proof {
        assert(initialized_relation(*old(vote_sum), param.candidates@, *vote_sum));
    }

    let sum_blank = match &vote_sum.blank_ballot {
        Some(b) => b,
        None => {
            return Err(AbvError::DecodeError);
        },
    };
    let part_blank = match &vote_storage_part.blank_ballot {
        Some(b) => b,
        None => {
            return Err(AbvError::DecodeError);
        },
    };
    let new_blank_c1 = match add_point_bytes(&sum_blank.ciphertext1, &part_blank.ciphertext1) {
        Ok(s) => s,
        Err(_) => {
            return Err(AbvError::DecodeError);
        },
    };
    let new_blank_c2 = match add_point_bytes(&sum_blank.ciphertext2, &part_blank.ciphertext2) {
        Ok(s) => s,
        Err(_) => {
            return Err(AbvError::DecodeError);
        },
    };

    let ghost sum0 = *old(vote_sum);
    let ghost cs = param.candidates@;
    let mut tmp: Vec<CandidateBallot> = Vec::new();
    let mut j: usize = 0;
    while j < param.candidates.len()
        invariant
            j <= cs.len(),
            cs == param.candidates@,
            sum0 == *old(vote_sum),
            initialized_relation(sum0, cs, *vote_sum),
            was_fresh == (sum0.blank_ballot is None),
            !was_fresh ==> *vote_sum == sum0,
            tmp@.len() == j,
            forall|i: int|
                0 <= i < j ==> (#[trigger] tmp@[i]).candidate@ == cs[i]@
                    && tmp@[i].ballot.ciphertext1@ == point_bytes_of_index(
                    add_index(init_slot_c1_index(sum0, cs[i]@), slot_c1_index(
                        vote_storage_part.voted_ballot@,
                        cs[i]@,
                    )),
                ) && point_index(tmp@[i].ballot.ciphertext1@) == add_index(
                    init_slot_c1_index(sum0, cs[i]@),
                    slot_c1_index(vote_storage_part.voted_ballot@, cs[i]@),
                ) && valid_point_bytes(tmp@[i].ballot.ciphertext1@)
                    && tmp@[i].ballot.ciphertext2@ == point_bytes_of_index(
                    add_index(init_slot_c2_index(sum0, cs[i]@), slot_c2_index(
                        vote_storage_part.voted_ballot@,
                        cs[i]@,
                    )),
                ) && point_index(tmp@[i].ballot.ciphertext2@) == add_index(
                    init_slot_c2_index(sum0, cs[i]@),
                    slot_c2_index(vote_storage_part.voted_ballot@, cs[i]@),
                ) && valid_point_bytes(tmp@[i].ballot.ciphertext2@),
            forall|i: int|
                0 <= i < j ==> (sum0.blank_ballot is None || #[trigger] slot_decodes(
                    sum0.voted_ballot@,
                    cs[i]@,
                )),
            forall|i: int|
                0 <= i < j ==> #[trigger] slot_decodes(vote_storage_part.voted_ballot@, cs[i]@),
        decreases cs.len() - j,
    {
        let candidate = &param.candidates[j];
        let default_tally_ballot = Ballot::default();
        let tally_ballot: &Ballot = if was_fresh {
            &default_tally_ballot
        } else {
            match find_ballot_index(&vote_sum.voted_ballot, candidate) {
                Some(ix) => &vote_sum.voted_ballot[ix].ballot,
                None => &default_tally_ballot,
            }
        };
        let default_part_ballot = Ballot::default();
        let part_ballot: &Ballot = match find_ballot_index(
            &vote_storage_part.voted_ballot,
            candidate,
        ) {
            Some(ix) => &vote_storage_part.voted_ballot[ix].ballot,
            None => &default_part_ballot,
        };
        let new_c1 = match add_point_bytes(&tally_ballot.ciphertext1, &part_ballot.ciphertext1) {
            Ok(s) => s,
            Err(_) => {
                proof {
                    let c = cs[j as int]@;
                    if !valid_point_bytes(tally_ballot.ciphertext1@) {
                        assert(!was_fresh);
                        assert(last_ballot_index(sum0.voted_ballot@, c) >= 0);
                        assert(!slot_decodes(sum0.voted_ballot@, c));
                    } else {
                        assert(last_ballot_index(vote_storage_part.voted_ballot@, c) >= 0);
                        assert(!slot_decodes(vote_storage_part.voted_ballot@, c));
                    }
                    assert(!aggregate_decodes(sum0, *vote_storage_part, cs));
                }
                return Err(AbvError::DecodeError);
            },
        };
        let new_c2 = match add_point_bytes(&tally_ballot.ciphertext2, &part_ballot.ciphertext2) {
            Ok(s) => s,
            Err(_) => {
                proof {
                    let c = cs[j as int]@;
                    if !valid_point_bytes(tally_ballot.ciphertext2@) {
                        assert(!was_fresh);
                        assert(last_ballot_index(sum0.voted_ballot@, c) >= 0);
                        assert(!slot_decodes(sum0.voted_ballot@, c));
                    } else {
                        assert(last_ballot_index(vote_storage_part.voted_ballot@, c) >= 0);
                        assert(!slot_decodes(vote_storage_part.voted_ballot@, c));
                    }
                    assert(!aggregate_decodes(sum0, *vote_storage_part, cs));
                }
                return Err(AbvError::DecodeError);
            },
        };
        let pair = CandidateBallot {
            candidate: candidate.clone(),
            ballot: Ballot { ciphertext1: new_c1, ciphertext2: new_c2 },
        };
        tmp.push(pair);
        j += 1;
    }

    let new_storage = VoteStorage {
        signature: Vec::new(),
        blank_ballot: Some(Ballot { ciphertext1: new_blank_c1, ciphertext2: new_blank_c2 }),
        rest_ballot: None,
        voted_ballot: tmp,
    };
    *vote_sum = new_storage;
    Ok(true)
}

/// Aggregation commutes: folding two storages into the same tally in
/// either order yields byte-for-byte identical tallies, because each slot
/// is a modular sum of indexes and modular addition commutes. `cs` must
/// name each candidate once, as system parameters do.
pub proof fn lemma_aggregation_commutes(
    cs: Seq<String>,
    t: VoteStorage,
    b1: VoteStorage,
    b2: VoteStorage,
    u1: VoteStorage,
    v1: VoteStorage,
    u2: VoteStorage,
    v2: VoteStorage,
)
    requires
        forall|i: int, j: int| 0 <= i < j < cs.len() ==> cs[i]@ != cs[j]@,
        aggregate_relation(cs, t, b1, u1),
        aggregate_relation(cs, u1, b2, v1),
        aggregate_relation(cs, t, b2, u2),
        aggregate_relation(cs, u2, b1, v2),
    ensures
        storage_views_equal(v1, v2),
{
    broadcast use vstd::arithmetic::power2::lemma_pow2_pos;

    assert(group_order() > 0);
    assert forall|j: int| 0 <= j < cs.len() implies (#[trigger] v1.voted_ballot@[j]).candidate@
        == v2.voted_ballot@[j].candidate@ && v1.voted_ballot@[j].ballot.ciphertext1@
        == v2.voted_ballot@[j].ballot.ciphertext1@ && v1.voted_ballot@[j].ballot.ciphertext2@
        == v2.voted_ballot@[j].ballot.ciphertext2@ by {
        lemma_last_index_of_distinct(u1.voted_ballot@, cs, j);
        lemma_last_index_of_distinct(u2.voted_ballot@, cs, j);
        let a1 = init_slot_c1_index(t, cs[j]@);
        let x1 = slot_c1_index(b1.voted_ballot@, cs[j]@);
        let y1 = slot_c1_index(b2.voted_ballot@, cs[j]@);
        lemma_add_index_rotates(a1, x1, y1);
        let a2 = init_slot_c2_index(t, cs[j]@);
        let x2 = slot_c2_index(b1.voted_ballot@, cs[j]@);
        let y2 = slot_c2_index(b2.voted_ballot@, cs[j]@);
        lemma_add_index_rotates(a2, x2, y2);
    }
    lemma_add_index_rotates(
        init_blank_c1_index(t),
        init_blank_c1_index(b1),
        init_blank_c1_index(b2),
    );
    lemma_add_index_rotates(
        init_blank_c2_index(t),
        init_blank_c2_index(b1),
        init_blank_c2_index(b2),
    );
}

/// Modular addition of indexes commutes across a fold:
/// `(a + x) + y == (a + y) + x` modulo the group order.
pub proof fn lemma_add_index_rotates(a: nat, x: nat, y: nat)
    ensures
        add_index(add_index(a, x), y) == add_index(add_index(a, y), x),
{
    broadcast use vstd::arithmetic::power2::lemma_pow2_pos;

    let l = group_order() as int;
    assert(l > 0);
    vstd::arithmetic::div_mod::lemma_add_mod_noop_right(y as int, (a + x) as int, l);
    vstd::arithmetic::div_mod::lemma_add_mod_noop_right(x as int, (a + y) as int, l);
    assert(add_index(add_index(a, x), y) == ((a + x + y) as int % l) as nat);
    assert(add_index(add_index(a, y), x) == ((a + y + x) as int % l) as nat);
}

/// In a list holding each of the pairwise-distinct candidates `cs` once, in
/// order, the last entry for `cs[j]` is at index `j`.
proof fn lemma_last_index_of_distinct(bs: Seq<CandidateBallot>, cs: Seq<String>, j: int)
    requires
        bs.len() == cs.len(),
        forall|i: int| 0 <= i < cs.len() ==> (#[trigger] bs[i]).candidate@ == cs[i]@,
        forall|i: int, k: int| 0 <= i < k < cs.len() ==> cs[i]@ != cs[k]@,
        0 <= j < cs.len(),
    ensures
        last_ballot_index(bs, cs[j]@) == j,
    decreases bs.len(),
{
    if j == bs.len() - 1 {
        assert(bs.last().candidate@ == cs[j]@);
    } else {
        assert(bs.last().candidate@ == cs[bs.len() - 1]@);
        assert(cs[j]@ != cs[bs.len() - 1]@);
        lemma_last_index_of_distinct(bs.drop_last(), cs.drop_last(), j);
        assert(forall|i: int|
            0 <= i < cs.len() - 1 ==> (#[trigger] bs.drop_last()[i]).candidate@ == cs.drop_last()[i]@);
    }
}

} // verus!
