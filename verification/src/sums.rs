//! Sums over sequences of sizes, and the facts about them that the rest of
//! the crate leans on.

use vstd::prelude::*;

verus! {

/// Sum of all values of `s`.
pub open spec fn spec_sum(s: Seq<usize>) -> int
    decreases s.len(),
{
    if s.len() == 0 {
        0
    } else {
        spec_sum(s.drop_last()) + s.last()
    }
}

/// Every value is at most `usize::MAX`, so a sum of `n` values is at most `n * usize::MAX`.
pub proof fn lemma_sum_bounds(s: Seq<usize>)
    ensures
        0 <= spec_sum(s) <= s.len() * usize::MAX,
    decreases s.len(),
{
    if s.len() > 0 {
        lemma_sum_bounds(s.drop_last());
        assert(s.len() * usize::MAX == (s.len() - 1) * usize::MAX + usize::MAX)
            by (nonlinear_arith);
    }
}

/// Writing `v` at slot `i` changes the sum by `v - s[i]`.
pub proof fn lemma_sum_update(s: Seq<usize>, i: int, v: usize)
    requires
        0 <= i < s.len(),
    ensures
        spec_sum(s.update(i, v)) == spec_sum(s) - s[i] + v,
    decreases s.len(),
{
    let t = s.update(i, v);
    if i == s.len() - 1 {
        assert(t.drop_last() =~= s.drop_last());
    } else {
        lemma_sum_update(s.drop_last(), i, v);
        assert(t.drop_last() =~= s.drop_last().update(i, v));
    }
}

/// A sequence of `n` copies of one value sums to `n` times the value.
pub proof fn lemma_sum_constant(s: Seq<usize>, v: usize)
    requires
        forall|i: int| 0 <= i < s.len() ==> s[i] == v,
    ensures
        spec_sum(s) == s.len() * v,
    decreases s.len(),
{
    if s.len() > 0 {
        lemma_sum_constant(s.drop_last(), v);
        assert(s.len() * v == (s.len() - 1) * v + v) by (nonlinear_arith);
    }
}

/// The sum of the first `n` values of `s`.
pub open spec fn prefix_sum(s: Seq<usize>, n: int) -> int {
    spec_sum(s.subrange(0, n))
}

/// A prefix sum grows by the next value, and never shrinks.
pub proof fn lemma_prefix_sum_step(s: Seq<usize>, n: int)
    requires
        0 <= n < s.len(),
    ensures
        prefix_sum(s, n + 1) == prefix_sum(s, n) + s[n],
        prefix_sum(s, 0) == 0,
        prefix_sum(s, s.len() as int) == spec_sum(s),
{
    assert(s.subrange(0, n + 1).drop_last() =~= s.subrange(0, n));
    assert(s.subrange(0, s.len() as int) =~= s);
    assert(s.subrange(0, 0).len() == 0);
}

/// Prefix sums are monotone in the prefix length.
pub proof fn lemma_prefix_sum_monotone(s: Seq<usize>, m: int, n: int)
    requires
        0 <= m <= n <= s.len(),
    ensures
        0 <= prefix_sum(s, m) <= prefix_sum(s, n),
    decreases n - m,
{
    lemma_sum_bounds(s.subrange(0, m));
    if m < n {
        lemma_prefix_sum_step(s, n - 1);
        lemma_prefix_sum_monotone(s, m, n - 1);
    }
}

/// The sum of a concatenation is the sum of the sums.
pub proof fn lemma_sum_concat(a: Seq<usize>, b: Seq<usize>)
    ensures
        spec_sum(a + b) == spec_sum(a) + spec_sum(b),
    decreases b.len(),
{
    if b.len() == 0 {
        assert(a + b =~= a);
    } else {
        lemma_sum_concat(a, b.drop_last());
        assert((a + b).drop_last() =~= a + b.drop_last());
    }
}

} // verus!
