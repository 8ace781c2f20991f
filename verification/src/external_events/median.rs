//! Medians of timestamps.

use vstd::prelude::*;
use vstd::multiset::Multiset;

verus! {

/// Up to this bound whole numbers, and the halves of sums of two of them, are
/// exact in double precision.
pub const EXACT_BOUND: u128 = 0x10_0000_0000_0000;

/// The order of whole numbers.
pub open spec fn at_most() -> spec_fn(u128, u128) -> bool {
    |a: u128, b: u128| a <= b
}

/// The values in ascending order.
pub open spec fn ascending(values: Seq<u128>) -> Seq<u128> {
    values.sort_by(at_most())
}

/// The middle value, or, of an even number of values, the mean of the two in
/// the middle, rounded down.
pub open spec fn exact_median(values: Seq<u128>) -> u128
    recommends
        values.len() > 0,
{
    let sorted = ascending(values);
    let middle = values.len() as int / 2;
    if values.len() % 2 == 1 {
        sorted[middle]
    } else {
        ((sorted[middle - 1] + sorted[middle]) / 2) as u128
    }
}

/// Whether all values are small enough for their median to be exact.
pub open spec fn all_exact(values: Seq<u128>) -> bool {
    forall|i: int| 0 <= i < values.len() ==> #[trigger] values[i] <= EXACT_BOUND
}

/// The result of `stats::median`, rounded down to a whole number. It does not
/// depend on the order of the values.
pub uninterp spec fn rounded_median(values: Multiset<u128>) -> Option<u128>;

/// The median of the values by `stats::median`, rounded down to a whole number.
///
/// Trusted: the result is a function of which values there are, each as often
/// as it occurs; there is a median unless there are no values; and where all
/// values are within `EXACT_BOUND` it is the exact median. Beyond that bound
/// the values lose their low bits to double precision, and nothing is said of
/// what that leaves.
#[verifier::external_body]
pub(crate) fn timestamp_median(values: Vec<u128>) -> (median: Option<u128>)
    ensures
        median == rounded_median(values@.to_multiset()),
        median is None <==> values@.len() == 0,
        values@.len() > 0 && all_exact(values@) ==> median == Some(exact_median(values@)),
{
    stats::median(values.into_iter()).map(|median| median as u128)
}

proof fn lemma_ascending(values: Seq<u128>)
    ensures
        vstd::relations::total_ordering(at_most()),
        vstd::relations::sorted_by(ascending(values), at_most()),
        ascending(values).to_multiset() == values.to_multiset(),
        ascending(values).len() == values.len(),
{
    values.lemma_sort_by_ensures(at_most());
    values.to_multiset_ensures();
    ascending(values).to_multiset_ensures();
}

/// The median does not depend on the order of the values.
pub proof fn law_median_ignores_order(a: Seq<u128>, b: Seq<u128>)
    requires
        a.to_multiset() == b.to_multiset(),
    ensures
        exact_median(a) == exact_median(b),
{
    lemma_ascending(a);
    lemma_ascending(b);
    vstd::seq_lib::lemma_sorted_unique(ascending(a), ascending(b), at_most());
}

/// The median lies between the smallest and the largest of the values.
pub proof fn law_median_lies_between(values: Seq<u128>, low: u128, high: u128)
    requires
        values.len() > 0,
        forall|i: int| 0 <= i < values.len() ==> low <= #[trigger] values[i] <= high,
    ensures
        low <= exact_median(values) <= high,
{
    lemma_ascending(values);
    let sorted = ascending(values);
    assert forall|i: int| 0 <= i < sorted.len() implies low <= #[trigger] sorted[i] <= high by {
        sorted.to_multiset_ensures();
        values.to_multiset_ensures();
        assert(sorted.contains(sorted[i]));
        assert(sorted.to_multiset().count(sorted[i]) > 0);
        assert(values.to_multiset().count(sorted[i]) > 0);
        assert(values.contains(sorted[i]));
    }
}

/// Values that all agree are their own median.
pub proof fn law_median_of_equal_values(values: Seq<u128>, value: u128)
    requires
        values.len() > 0,
        forall|i: int| 0 <= i < values.len() ==> #[trigger] values[i] == value,
    ensures
        exact_median(values) == value,
{
    law_median_lies_between(values, value, value);
}

/// The median of three values is the one with another on each side.
pub proof fn law_median_of_three(low: u128, middle: u128, high: u128)
    requires
        low <= middle <= high,
    ensures
        exact_median(seq![middle, low, high]) == middle,
{
    let values = seq![middle, low, high];
    let sorted = seq![low, middle, high];
    lemma_ascending(values);
    assert(values.to_multiset() == sorted.to_multiset()) by {
        broadcast use vstd::seq_lib::group_to_multiset_ensures;
        assert(values =~= Seq::<u128>::empty().push(middle).push(low).push(high));
        assert(sorted =~= Seq::<u128>::empty().push(low).push(middle).push(high));
        assert(values.to_multiset() =~= sorted.to_multiset());
    }
    vstd::seq_lib::lemma_sorted_unique(ascending(values), sorted, at_most());
}

/// The median of an odd number of values is the one in the middle of any
/// ascending order of theirs. That of an even number lies halfway between the
/// two in the middle, rounded down.
pub proof fn law_median_is_in_the_middle(values: Seq<u128>, sorted: Seq<u128>)
    requires
        sorted.len() > 0,
        sorted.to_multiset() == values.to_multiset(),
        forall|i: int, j: int| 0 <= i <= j < sorted.len() ==> sorted[i] <= sorted[j],
    ensures
        values.len() == sorted.len(),
        sorted.len() % 2 == 1 ==> exact_median(values) == sorted[sorted.len() as int / 2],
        sorted.len() % 2 == 0 ==> exact_median(values) == (sorted[sorted.len() as int / 2 - 1]
            + sorted[sorted.len() as int / 2]) / 2,
{
    lemma_ascending(values);
    values.to_multiset_ensures();
    sorted.to_multiset_ensures();
    vstd::seq_lib::lemma_sorted_unique(ascending(values), sorted, at_most());
}

/// Values have an exact median where none of them exceeds 2^52.
pub proof fn law_exact_values_are_at_most_two_to_the_52(values: Seq<u128>)
    ensures
        all_exact(values) <==> forall|i: int|
            0 <= i < values.len() ==> #[trigger] values[i] <= 0x10_0000_0000_0000,
{
}

} // verus!
