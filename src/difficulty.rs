//! The difficulty rule: whether a digest shows enough leading zero bits.

use vstd::prelude::*;
use vstd::std_specs::bits::{axiom_u8_leading_zeros, u8_leading_zeros};

verus! {

/// The number of zero bytes at the front of `d`.
pub open spec fn zero_prefix(d: Seq<u8>) -> nat
    decreases d.len(),
{
    if d.len() == 0 || d[0] != 0 {
        0
    } else {
        1 + zero_prefix(d.drop_first())
    }
}

/// Whether digest `d` meets difficulty `target`, where `k` is the number of
/// zero bytes in front:
/// - met when `k > 0` and the target fits within those `8 * k` zero bits;
/// - otherwise met when a non-zero byte follows and the leading zero bits of
///   the digest, `8 * k` plus those of that byte, exceed the target;
/// - otherwise (an all-zero digest shorter than the target) not met.
pub open spec fn meets_target(d: Seq<u8>, target: nat) -> bool {
    let k = zero_prefix(d);
    if k > 0 && target <= 8 * k {
        true
    } else if k < d.len() {
        8 * k + u8_leading_zeros(d[k as int]) > target
    } else {
        false
    }
}

/// `zero_prefix` never exceeds the length of the digest.
pub proof fn lemma_zero_prefix_bounded(d: Seq<u8>)
    ensures
        zero_prefix(d) <= d.len(),
    decreases d.len(),
{
    if d.len() > 0 && d[0] == 0 {
        lemma_zero_prefix_bounded(d.drop_first());
    }
}

/// When the first `i` bytes are zero, at least `i` zero bytes lead, and
/// exactly `i` when byte `i` is non-zero.
pub proof fn lemma_zero_prefix_at(d: Seq<u8>, i: nat)
    requires
        i <= d.len(),
        forall|j: int| 0 <= j < i ==> d[j] == 0,
    ensures
        zero_prefix(d) >= i,
        i < d.len() && d[i as int] != 0 ==> zero_prefix(d) == i,
    decreases i,
{
    if i > 0 {
        let t = d.drop_first();
        assert forall|j: int| 0 <= j < i - 1 implies t[j] == 0 by {
            assert(t[j] == d[j + 1]);
        }
        lemma_zero_prefix_at(t, (i - 1) as nat);
        if i < d.len() {
            assert(t[i - 1] == d[i as int]);
        }
    }
}

/// A digest that meets a target meets every lower target: a lower
/// difficulty is never harder.
pub proof fn lemma_lower_target_still_met(d: Seq<u8>, target: nat, lower: nat)
    requires
        meets_target(d, target),
        lower < target,
    ensures
        meets_target(d, lower),
{
}

/// A byte has a leading zero bit exactly when it is below 128.
pub proof fn lemma_top_bit_clear(b: u8)
    ensures
        (u8_leading_zeros(b) > 0) == (b < 128),
{
    axiom_u8_leading_zeros(b);
    if u8_leading_zeros(b) == 0 {
        assert((b >> 7u8) & 1u8 != 0u8 ==> b >= 128) by (bit_vector);
    } else {
        assert((b >> 7u8) & 1u8 == 0u8);
        assert((b >> 7u8) & 1u8 == 0u8 ==> b < 128) by (bit_vector);
    }
}

/// At target zero a digest is accepted exactly when its first byte has its
/// top bit clear: a zero first byte, or a non-zero one with a leading zero bit.
pub proof fn lemma_target_zero(d: Seq<u8>)
    requires
        d.len() > 0,
    ensures
        meets_target(d, 0) == (d[0] < 128),
{
    if d[0] == 0 {
        lemma_zero_prefix_at(d, 1);
    } else {
        lemma_zero_prefix_at(d, 0);
        lemma_top_bit_clear(d[0]);
    }
}

/// Walks the digest byte by byte with the part of the target still owed:
/// a zero byte pays eight bits, and the first non-zero byte decides.
pub fn digest_meets_target(digest: &[u8], target: usize) -> (r: bool)
    ensures
        r == meets_target(digest@, target as nat),
{
    let mut remaining: usize = target;
    let mut i: usize = 0;
    while i < digest.len()
        invariant
            i <= digest@.len(),
            forall|j: int| 0 <= j < i ==> digest@[j] == 0,
            remaining == target - 8 * i,
            i > 0 ==> target > 8 * i,
        decreases digest@.len() - i,
    {
        let v = digest[i];
        if v == 0 {
            if remaining <= 8 {
                proof {
                    lemma_zero_prefix_at(digest@, (i + 1) as nat);
                }
                return true;
            }
            remaining = remaining - 8;
        } else {
            let lz = v.leading_zeros();
            proof {
                lemma_zero_prefix_at(digest@, i as nat);
            }
            return remaining < lz as usize;
        }
        i = i + 1;
    }
    proof {
        lemma_zero_prefix_at(digest@, i as nat);
        lemma_zero_prefix_bounded(digest@);
    }
    false
}

} // verus!
