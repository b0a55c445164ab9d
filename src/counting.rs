use vstd::prelude::*;

verus! {

/// How many of the first `n` items of `s` satisfy `f`.
pub open spec fn count_matching<A>(s: Seq<A>, n: int, f: spec_fn(A) -> bool) -> nat
    decreases n,
{
    if n <= 0 {
        0
    } else {
        count_matching(s, n - 1, f) + if f(s[n - 1]) {
            1nat
        } else {
            0nat
        }
    }
}

/// A count over a prefix never exceeds the prefix's length.
pub proof fn lemma_count_bounded<A>(s: Seq<A>, n: int, f: spec_fn(A) -> bool)
    requires
        0 <= n,
    ensures
        count_matching(s, n, f) <= n,
    decreases n,
{
    if n > 0 {
        lemma_count_bounded(s, n - 1, f);
    }
}

/// Where no item of the prefix satisfies `f`, the count is zero.
pub proof fn lemma_count_none<A>(s: Seq<A>, n: int, f: spec_fn(A) -> bool)
    requires
        0 <= n <= s.len(),
        forall|j: int| 0 <= j < n ==> !f(#[trigger] s[j]),
    ensures
        count_matching(s, n, f) == 0,
    decreases n,
{
    if n > 0 {
        lemma_count_none(s, n - 1, f);
    }
}

} // verus!
