//! The terminal predicate of the race: non-decreasing order.

use vstd::prelude::*;

verus! {

/// Every element is at most every later element.
pub open spec fn sorted(s: Seq<isize>) -> bool {
    forall|i: int, j: int| 0 <= i <= j < s.len() ==> s[i] <= s[j]
}

/// No element is smaller than the one just before it.
pub open spec fn stepwise_sorted(s: Seq<isize>) -> bool {
    forall|i: int| 0 < i < s.len() ==> s[i - 1] <= #[trigger] s[i]
}

/// The first `n` positions of `s` are stepwise in order.
spec fn stepwise_sorted_upto(s: Seq<isize>, n: int) -> bool {
    forall|i: int| 0 < i < n && i < s.len() ==> s[i - 1] <= #[trigger] s[i]
}

/// Two sequences hold the same elements, each as often as the other.
pub open spec fn same_items(a: Seq<isize>, b: Seq<isize>) -> bool {
    a.to_multiset() == b.to_multiset()
}

/// Comparing neighbours is enough to establish order between any two positions.
pub proof fn lemma_stepwise_sorted(s: Seq<isize>)
    ensures
        stepwise_sorted(s) == sorted(s),
{
    if stepwise_sorted(s) {
        assert forall|i: int, j: int| 0 <= i <= j < s.len() implies s[i] <= s[j] by {
            lemma_stepwise_reaches(s, i, j);
        }
    }
}

proof fn lemma_stepwise_reaches(s: Seq<isize>, i: int, j: int)
    requires
        stepwise_sorted(s),
        0 <= i <= j < s.len(),
    ensures
        s[i] <= s[j],
    decreases j - i,
{
    if i < j {
        lemma_stepwise_reaches(s, i, j - 1);
    }
}

/// Tells whether `items` is in non-decreasing order. The empty list and a list
/// of one element are in order.
pub fn check_sorted(items: &Vec<isize>) -> (ok: bool)
    ensures
        ok == sorted(items@),
{
    let mut result = true;
    let mut i: usize = 1;
    while i < items.len()
        invariant
            1 <= i,
            result == stepwise_sorted_upto(items@, i as int),
        decreases items.len() - i,
    {
        if items[i] < items[i - 1] {
            result = false;
        }
        i += 1;
    }
    proof {
        lemma_stepwise_sorted(items@);
    }
    result
}

} // verus!
