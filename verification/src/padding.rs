//! Padding of commitment batches.
//!
//! The batched range-proof verifier requires a power-of-two batch size, so a
//! batch of committed values is padded with the group identity — a fixed,
//! non-adversarial constant that contributes nothing to any sum — up to the
//! next power of two.

use vstd::prelude::*;
use crate::group::identity_point_bytes;
use crate::group::point_bytes_of_index;
use crate::group::point_index;
use crate::group::valid_point_bytes;

verus! {

/// Whether `n` is a power of two.
pub open spec fn is_pow2(n: nat) -> bool
    decreases n,
{
    if n == 0 {
        false
    } else if n == 1 {
        true
    } else {
        n % 2 == 0 && is_pow2(n / 2)
    }
}

/// The smallest power of two that is at least `max(n, 1)`: the padded
/// length of a batch of `n` commitments.
pub open spec fn next_pow2(n: nat) -> nat
    decreases n,
{
    if n <= 1 {
        1
    } else {
        2 * next_pow2((n + 1) / 2)
    }
}

pub proof fn lemma_next_pow2_ge(n: nat)
    ensures
        next_pow2(n) >= n,
        next_pow2(n) >= 1,
        is_pow2(next_pow2(n)),
    decreases n,
{
    if n > 1 {
        lemma_next_pow2_ge((n + 1) / 2);
    }
}

/// A power of two at least `n` is at least `next_pow2(n)`: the padded
/// length is the least workable one.
pub proof fn lemma_next_pow2_least(n: nat, t: nat)
    requires
        is_pow2(t),
        t >= n,
    ensures
        t >= next_pow2(n),
    decreases n,
{
    if n > 1 {
        lemma_next_pow2_least((n + 1) / 2, t / 2);
    }
}

proof fn lemma_pow2_gap(a: nat, b: nat)
    requires
        is_pow2(a),
        is_pow2(b),
        a < b,
    ensures
        2 * a <= b,
    decreases b,
{
    if a >= 2 {
        lemma_pow2_gap(a / 2, b / 2);
    }
}

/// Pads the batch `v` of encoded commitments with the group identity until
/// its length is the next power of two at or above its length; a batch whose
/// length is already a power of two is returned unchanged, and an empty
/// batch is padded to length one.
pub fn pending_commitment_vec(v: &mut Vec<Vec<u8>>)
    requires
        old(v)@.len() <= 0x1000_0000,
    ensures
        final(v)@.len() == next_pow2(old(v)@.len()),
        forall|i: int| 0 <= i < old(v)@.len() ==> final(v)@[i] == old(v)@[i],
        forall|i: int|
            old(v)@.len() <= i < final(v)@.len() ==> final(v)@[i]@ == point_bytes_of_index(0)
                && valid_point_bytes(#[trigger] final(v)@[i]@) && point_index(final(v)@[i]@) == 0
                && final(v)@[i]@.len() == 32,
        is_pow2(old(v)@.len()) ==> final(v)@ == old(v)@,
{
    let ghost n: nat = v@.len();
    let mut target: usize = 1;
    proof {
        lemma_next_pow2_ge(n);
    }
    while target < v.len()
        invariant
            v@ == old(v)@,
            v@.len() == n,
            n <= 0x1000_0000,
            is_pow2(target as nat),
            target <= next_pow2(n),
        decreases next_pow2(n) - target,
    {
        proof {
            lemma_next_pow2_ge(n);
            lemma_pow2_gap(target as nat, next_pow2(n));
        }
        target = target * 2;
    }
    proof {
        lemma_next_pow2_ge(n);
        lemma_next_pow2_least(n, target as nat);
        assert(target as nat == next_pow2(n));
        if is_pow2(n) {
            lemma_next_pow2_least(n, n);
            assert(n == next_pow2(n));
        }
    }
    while v.len() < target
        invariant
            n <= v@.len() <= target,
            target as nat == next_pow2(n),
            forall|i: int| 0 <= i < n ==> v@[i] == old(v)@[i],
            forall|i: int|
                n <= i < v@.len() ==> v@[i]@ == point_bytes_of_index(0)
                    && valid_point_bytes(#[trigger] v@[i]@) && point_index(v@[i]@) == 0
                    && v@[i]@.len() == 32,
        decreases target - v@.len(),
    {
        let id = identity_point_bytes();
        v.push(id);
    }
    proof {
        if is_pow2(n) {
            assert(v@ =~= old(v)@);
        }
    }
}

} // verus!
