//! What a benchmark around the pool computes: the input that it races on and
//! the summary of the times that it measured.

use vstd::prelude::*;

verus! {

/// The sum of `times`, as a mathematical integer.
pub open spec fn sum_of(times: Seq<u128>) -> int
    decreases times.len(),
{
    if times.len() == 0 {
        0
    } else {
        sum_of(times.drop_last()) + times.last()
    }
}

/// A prefix never sums to more than the whole.
pub proof fn lemma_sum_of_prefix(times: Seq<u128>, n: int)
    requires
        0 <= n <= times.len(),
    ensures
        0 <= sum_of(times.take(n)) <= sum_of(times),
    decreases times.len() - n,
{
    if n == times.len() {
        assert(times.take(n) == times);
        lemma_sum_of_nonnegative(times);
    } else {
        lemma_sum_of_prefix(times, n + 1);
        lemma_sum_of_nonnegative(times.take(n));
        assert(times.take(n + 1).drop_last() == times.take(n));
    }
}

proof fn lemma_sum_of_nonnegative(times: Seq<u128>)
    ensures
        0 <= sum_of(times),
    decreases times.len(),
{
    if times.len() > 0 {
        lemma_sum_of_nonnegative(times.drop_last());
    }
}

/// The list `len - 1, len - 2, .., 0`: the input furthest from being in order.
pub fn reversed_input(len: usize) -> (list: Vec<isize>)
    requires
        len <= isize::MAX,
    ensures
        list@.len() == len,
        forall|i: int| 0 <= i < len ==> list@[i] == len - 1 - i,
{
    let mut list: Vec<isize> = Vec::new();
    let mut i: usize = 0;
    while i < len
        invariant
            i <= len <= isize::MAX,
            list@.len() == i,
            forall|k: int| 0 <= k < i ==> list@[k] == len - 1 - k,
        decreases len - i,
    {
        list.push((len - 1 - i) as isize);
        i += 1;
    }
    list
}

/// The sum of the measured times, or `None` where the sum does not fit.
pub fn total(times: &Vec<u128>) -> (total: Option<u128>)
    ensures
        total == (if sum_of(times@) <= u128::MAX {
            Some(sum_of(times@) as u128)
        } else {
            None
        }),
{
    let mut sum: u128 = 0;
    let mut i: usize = 0;
    while i < times.len()
        invariant
            i <= times@.len(),
            sum == sum_of(times@.take(i as int)),
        decreases times@.len() - i,
    {
        proof {
            assert(times@.take(i + 1).drop_last() == times@.take(i as int));
            lemma_sum_of_prefix(times@, i + 1);
        }
        match sum.checked_add(times[i]) {
            Some(next) => {
                sum = next;
            },
            None => {
                return None;
            },
        }
        i += 1;
    }
    proof {
        assert(times@.take(i as int) == times@);
    }
    Some(sum)
}

/// The mean of the measured times, rounded down, or `None` where there are no
/// times or their sum does not fit.
pub fn average(times: &Vec<u128>) -> (average: Option<u128>)
    ensures
        average == (if times@.len() > 0 && sum_of(times@) <= u128::MAX {
            Some((sum_of(times@) / (times@.len() as int)) as u128)
        } else {
            None
        }),
{
    if times.len() == 0 {
        return None;
    }
    match total(times) {
        Some(sum) => {
            proof {
                lemma_sum_of_nonnegative(times@);
            }
            Some(sum / (times.len() as u128))
        },
        None => None,
    }
}

} // verus!
