//! Picking the nearest and second-nearest of a list of candidate distances.
//!
//! Ties go to the candidate seen first.

use vstd::prelude::*;

verus! {

/// `i` holds the smallest value of `s`, and no earlier index holds it.
pub open spec fn is_first_min(s: Seq<int>, i: int) -> bool {
    &&& 0 <= i < s.len()
    &&& forall|j: int| 0 <= j < s.len() ==> s[i] <= #[trigger] s[j]
    &&& forall|j: int| 0 <= j < i ==> s[i] < #[trigger] s[j]
}

/// `k` holds the smallest value of `s` apart from index `i`, and no earlier
/// index but `i` holds it.
pub open spec fn is_runner_up(s: Seq<int>, i: int, k: int) -> bool {
    &&& 0 <= k < s.len()
    &&& k != i
    &&& forall|j: int| 0 <= j < s.len() && j != i ==> s[k] <= #[trigger] s[j]
    &&& forall|j: int| 0 <= j < k && j != i ==> s[k] < #[trigger] s[j]
}

/// The index of the nearest candidate.
pub open spec fn first_min_index(s: Seq<int>) -> int {
    choose|i: int| is_first_min(s, i)
}

/// The index of the second-nearest candidate.
pub open spec fn runner_up_index(s: Seq<int>) -> int {
    choose|k: int| is_runner_up(s, first_min_index(s), k)
}

pub open spec fn as_ints(v: Seq<u64>) -> Seq<int> {
    Seq::new(v.len(), |j: int| v[j] as int)
}

/// Only one index is the first smallest, so it is the one named.
pub proof fn lemma_first_min_unique(s: Seq<int>, i: int)
    requires
        is_first_min(s, i),
    ensures
        first_min_index(s) == i,
{
    let c = first_min_index(s);
    assert(is_first_min(s, c));
    if c < i {
        assert(s[i] < s[c]);
    } else if i < c {
        assert(s[c] < s[i]);
    }
}

/// Only one index is the runner-up, so it is the one named.
pub proof fn lemma_runner_up_unique(s: Seq<int>, i: int, k: int)
    requires
        is_first_min(s, i),
        is_runner_up(s, i, k),
    ensures
        first_min_index(s) == i,
        runner_up_index(s) == k,
{
    lemma_first_min_unique(s, i);
    let c = runner_up_index(s);
    assert(is_runner_up(s, i, c));
    if c < k {
        assert(s[k] < s[c]);
    } else if k < c {
        assert(s[c] < s[k]);
    }
}

/// The index of the smallest distance, the first one on a tie.
pub fn nearest_index(d: &Vec<u64>) -> (i: usize)
    requires
        d.len() > 0,
    ensures
        is_first_min(as_ints(d@), i as int),
{
    let ghost s = as_ints(d@);
    let mut best: usize = 0;
    let mut k: usize = 1;
    while k < d.len()
        invariant
            s == as_ints(d@),
            1 <= k <= d.len(),
            best < k,
            is_first_min(s.take(k as int), best as int),
        decreases d.len() - k,
    {
        assert(s.take(k as int + 1) =~= s.take(k as int).push(s[k as int]));
        if d[k] < d[best] {
            best = k;
        }
        k = k + 1;
    }
    assert(s.take(k as int) =~= s);
    best
}

/// The indices of the smallest and the second smallest distance, the first
/// ones on a tie.
pub fn two_nearest_indices(d: &Vec<u64>) -> (r: (usize, usize))
    requires
        d.len() >= 2,
    ensures
        is_first_min(as_ints(d@), r.0 as int),
        is_runner_up(as_ints(d@), r.0 as int, r.1 as int),
{
    let ghost s = as_ints(d@);
    let mut best: usize = 0;
    let mut second: usize = 1;
    if d[1] < d[0] {
        best = 1;
        second = 0;
    }
    let mut k: usize = 2;
    while k < d.len()
        invariant
            s == as_ints(d@),
            2 <= k <= d.len(),
            best < k,
            second < k,
            is_first_min(s.take(k as int), best as int),
            is_runner_up(s.take(k as int), best as int, second as int),
        decreases d.len() - k,
    {
        assert(s.take(k as int + 1) =~= s.take(k as int).push(s[k as int]));
        if d[k] < d[best] {
            second = best;
            best = k;
        } else if d[k] < d[second] {
            second = k;
        }
        k = k + 1;
    }
    assert(s.take(k as int) =~= s);
    (best, second)
}


/// A non-empty list has a first smallest value.
pub proof fn lemma_first_min_exists(s: Seq<int>)
    requires
        s.len() > 0,
    ensures
        is_first_min(s, first_min_index(s)),
    decreases s.len(),
{
    if s.len() == 1 {
        assert(is_first_min(s, 0));
    } else {
        let t = s.drop_last();
        lemma_first_min_exists(t);
        let i = first_min_index(t);
        assert(forall|j: int| 0 <= j < t.len() ==> t[j] == s[j]);
        if s.last() < s[i] {
            assert(is_first_min(s, s.len() - 1));
        } else {
            assert(is_first_min(s, i));
        }
    }
}

/// A list of two or more values has a runner-up.
pub proof fn lemma_runner_up_exists(s: Seq<int>)
    requires
        s.len() >= 2,
    ensures
        is_first_min(s, first_min_index(s)),
        is_runner_up(s, first_min_index(s), runner_up_index(s)),
        s[first_min_index(s)] <= s[runner_up_index(s)],
{
    lemma_first_min_exists(s);
    let i = first_min_index(s);
    let t = s.remove(i);
    lemma_first_min_exists(t);
    let m = first_min_index(t);
    let k = if m < i {
        m
    } else {
        m + 1
    };
    assert(forall|j: int| 0 <= j < i ==> t[j] == s[j]);
    assert(forall|j: int| i <= j < t.len() ==> t[j] == s[j + 1]);
    assert forall|j: int| 0 <= j < s.len() && j != i implies s[k] <= #[trigger] s[j] by {
        if j < i {
            assert(t[j] == s[j]);
        } else {
            assert(t[j - 1] == s[j]);
        }
    }
    assert forall|j: int| 0 <= j < k && j != i implies s[k] < #[trigger] s[j] by {
        if j < i {
            assert(t[j] == s[j]);
        } else {
            assert(t[j - 1] == s[j]);
        }
    }
    assert(is_runner_up(s, i, k));
    lemma_runner_up_unique(s, i, k);
}

/// The smallest of non-negative values is non-negative.
pub proof fn lemma_min_non_negative(s: Seq<int>)
    requires
        s.len() > 0,
        forall|j: int| 0 <= j < s.len() ==> s[j] >= 0,
    ensures
        s[first_min_index(s)] >= 0,
{
    lemma_first_min_exists(s);
}

} // verus!
