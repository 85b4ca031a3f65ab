//! Which positions of a byte sequence a hash visits.
//!
//! Every hash of this crate walks its input from `start`, in steps of `step`,
//! and stops at the first index that is not below both the sequence length and
//! the requested `end`.

use crate::util::spec_min;
use vstd::prelude::*;

verus! {

/// How many indices `start, start + step, start + 2 * step, ..` lie below
/// `limit`: the quotient `(limit - start) / step`, rounded up. A walk that
/// starts at or behind `limit` visits nothing.
pub open spec fn sample_count(start: int, limit: int, step: int) -> nat {
    if start < limit && step >= 1 {
        ((limit - start + step - 1) / step) as nat
    } else {
        0
    }
}

/// The bytes of `s` that a walk over `[start, end)` with stride `step` visits,
/// in the order of the visit. `end` is clipped to the length of `s`.
pub open spec fn sampled(s: Seq<u8>, start: int, end: int, step: int) -> Seq<u8> {
    Seq::new(
        sample_count(start, spec_min(s.len() as int, end), step),
        |k: int| s[start + k * step],
    )
}

/// The `k`-th index of a walk lies below `limit` exactly when `k` is below
/// the sample count.
pub proof fn lemma_sample_count_bound(start: int, limit: int, step: int, k: int)
    requires
        step >= 1,
        k >= 0,
    ensures
        k < sample_count(start, limit, step) <==> start + k * step < limit,
{
    if start < limit {
        let d = limit - start;
        let n = (d + step - 1) / step;
        assert(k < n <==> k * step < d) by (nonlinear_arith)
            requires
                step >= 1,
                k >= 0,
                d > 0,
                n == (d + step - 1) / step,
        ;
    } else {
        assert(k * step >= 0) by (nonlinear_arith)
            requires
                step >= 1,
                k >= 0,
        ;
    }
}

/// What one more step of a walk does: the `k`-th visited byte is the one at
/// index `start + k * step`, which lies inside `s` and below `end`; the walk
/// goes on behind it exactly when the next index is still below the limit.
pub proof fn lemma_walk_step(s: Seq<u8>, start: int, end: int, step: int, k: int)
    requires
        start >= 0,
        step >= 1,
        0 <= k < sampled(s, start, end, step).len(),
    ensures
        0 <= start + k * step < spec_min(s.len() as int, end),
        start + (k + 1) * step == start + k * step + step,
        sampled(s, start, end, step)[k] == s[start + k * step],
        sampled(s, start, end, step).take(k + 1).drop_last() == sampled(s, start, end, step).take(
            k,
        ),
        sampled(s, start, end, step).take(k + 1).last() == s[start + k * step],
        k + 1 < sampled(s, start, end, step).len() <==> start + k * step + step < spec_min(
            s.len() as int,
            end,
        ),
{
    let limit = spec_min(s.len() as int, end);
    let bytes = sampled(s, start, end, step);
    lemma_sample_count_bound(start, limit, step, k);
    lemma_sample_count_bound(start, limit, step, k + 1);
    assert(k * step >= 0 && (k + 1) * step == k * step + step) by (nonlinear_arith)
        requires
            step >= 1,
            k >= 0,
    ;
    assert(bytes.take(k + 1).drop_last() =~= bytes.take(k));
}

/// The index that follows `i` in a walk with stride `step`, or `limit` where
/// that index would not be below `limit` (it may not fit the machine word).
pub fn next_index(i: usize, step: usize, limit: usize) -> (next: usize)
    requires
        i < limit,
        step >= 1,
    ensures
        i + step < limit ==> next == i + step,
        i + step >= limit ==> next == limit,
{
    if step < limit - i {
        i + step
    } else {
        limit
    }
}

} // verus!
