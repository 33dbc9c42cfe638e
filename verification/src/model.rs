//! Small mathematical tools that the models of the records share.

use vstd::prelude::*;

verus! {

/// The views of the items of a sequence, in order.
pub open spec fn views<T: View>(s: Seq<T>) -> Seq<T::V> {
    Seq::new(s.len(), |i: int| s[i]@)
}

pub proof fn lemma_views_push<T: View>(s: Seq<T>, x: T)
    ensures
        views(s.push(x)) == views(s).push(x@),
{
    assert(views(s.push(x)) =~= views(s).push(x@));
}

pub proof fn lemma_views_remove<T: View>(s: Seq<T>, i: int)
    requires
        0 <= i < s.len(),
    ensures
        views(s.remove(i)) == views(s).remove(i),
{
    assert(views(s.remove(i)) =~= views(s).remove(i));
}

pub proof fn lemma_views_insert<T: View>(s: Seq<T>, i: int, x: T)
    requires
        0 <= i <= s.len(),
    ensures
        views(s.insert(i, x)) == views(s).insert(i, x@),
{
    assert(views(s.insert(i, x)) =~= views(s).insert(i, x@));
}

pub proof fn lemma_views_update<T: View>(s: Seq<T>, i: int, x: T)
    requires
        0 <= i < s.len(),
    ensures
        views(s.update(i, x)) == views(s).update(i, x@),
{
    assert(views(s.update(i, x)) =~= views(s).update(i, x@));
}

/// The sum of a sequence of weights.
pub open spec fn sum(s: Seq<u128>) -> int
    decreases s.len(),
{
    if s.len() == 0 {
        0
    } else {
        sum(s.drop_last()) + s.last()
    }
}

pub proof fn lemma_sum_nonnegative(s: Seq<u128>)
    ensures
        0 <= sum(s),
    decreases s.len(),
{
    if s.len() > 0 {
        lemma_sum_nonnegative(s.drop_last());
    }
}

/// Each weight is at most the sum of all.
pub proof fn lemma_sum_bounds_each(s: Seq<u128>, i: int)
    requires
        0 <= i < s.len(),
    ensures
        s[i] <= sum(s),
    decreases s.len(),
{
    lemma_sum_nonnegative(s.drop_last());
    if i < s.len() - 1 {
        lemma_sum_bounds_each(s.drop_last(), i);
    }
}

/// Replacing one weight changes the sum by the difference.
pub proof fn lemma_sum_update(s: Seq<u128>, i: int, w: u128)
    requires
        0 <= i < s.len(),
    ensures
        sum(s.update(i, w)) == sum(s) - s[i] + w,
    decreases s.len(),
{
    if i == s.len() - 1 {
        assert(s.update(i, w).drop_last() =~= s.drop_last());
    } else {
        assert(s.update(i, w).drop_last() =~= s.drop_last().update(i, w));
        lemma_sum_update(s.drop_last(), i, w);
    }
}

/// A sequence of zeros sums to zero.
pub proof fn lemma_sum_zeros(s: Seq<u128>)
    requires
        forall|i: int| 0 <= i < s.len() ==> s[i] == 0,
    ensures
        sum(s) == 0,
    decreases s.len(),
{
    if s.len() > 0 {
        lemma_sum_zeros(s.drop_last());
    }
}

/// The sum of the first `n + 1` weights is that of the first `n` plus the
/// next.
pub proof fn lemma_sum_prefix(s: Seq<u128>, n: int)
    requires
        0 <= n < s.len(),
    ensures
        sum(s.subrange(0, n + 1)) == sum(s.subrange(0, n)) + s[n],
{
    assert(s.subrange(0, n + 1).drop_last() =~= s.subrange(0, n));
}

/// The weights in front never sum to more than all of them.
pub proof fn lemma_sum_prefix_bound(s: Seq<u128>, n: int)
    requires
        0 <= n <= s.len(),
    ensures
        sum(s.subrange(0, n)) <= sum(s),
    decreases s.len(),
{
    if n == s.len() {
        assert(s.subrange(0, n) =~= s);
    } else {
        assert(s.subrange(0, n) =~= s.drop_last().subrange(0, n));
        lemma_sum_prefix_bound(s.drop_last(), n);
    }
}

} // verus!
