//! Weighted sums over sequences, with the facts that running totals need.

use vstd::prelude::*;

verus! {

/// The sum of `weight` over the items of `s`.
pub open spec fn sum_of<T>(s: Seq<T>, weight: spec_fn(T) -> nat) -> nat
    decreases s.len(),
{
    if s.len() == 0 {
        0
    } else {
        sum_of(s.drop_last(), weight) + weight(s.last())
    }
}

/// Taking one more item adds that item's weight.
pub proof fn lemma_sum_step<T>(s: Seq<T>, weight: spec_fn(T) -> nat, n: int)
    requires
        0 <= n < s.len(),
    ensures
        sum_of(s.take(n + 1), weight) == sum_of(s.take(n), weight) + weight(s[n]),
{
    assert(s.take(n + 1).drop_last() =~= s.take(n));
}

/// The sum over a prefix never exceeds the sum over the whole.
pub proof fn lemma_sum_prefix<T>(s: Seq<T>, weight: spec_fn(T) -> nat, n: int)
    requires
        0 <= n <= s.len(),
    ensures
        sum_of(s.take(n), weight) <= sum_of(s, weight),
    decreases s.len() - n,
{
    if n == s.len() {
        assert(s.take(n) =~= s);
    } else {
        lemma_sum_step(s, weight, n);
        lemma_sum_prefix(s, weight, n + 1);
    }
}

} // verus!
