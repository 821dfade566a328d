//! Order statistics of small sets of readings.

use vstd::prelude::*;

verus! {

/// How many of `values` are below `bound`.
pub open spec fn count_below(values: Seq<u16>, bound: int) -> nat
    decreases values.len(),
{
    if values.len() == 0 {
        0
    } else {
        count_below(values.drop_last(), bound) + if values.last() < bound {
            1nat
        } else {
            0nat
        }
    }
}

/// Whether `v` stands at place `k` (counted from zero) when `values` are sorted.
pub open spec fn is_kth(values: Seq<u16>, k: int, v: int) -> bool {
    count_below(values, v) <= k < count_below(values, v + 1)
}

/// The value at place `k` when `values` are sorted.
pub open spec fn kth(values: Seq<u16>, k: int) -> int {
    choose|v: int| is_kth(values, k, v)
}

/// The middle of the sorted values; halfway between the two middle ones, rounded
/// down, when their number is even.
pub open spec fn median(values: Seq<u16>) -> int {
    let half = values.len() as int / 2;
    if values.len() % 2 == 1 {
        kth(values, half)
    } else {
        (kth(values, half - 1) + kth(values, half)) / 2
    }
}

/// The sum of the values.
pub open spec fn total(values: Seq<u16>) -> nat
    decreases values.len(),
{
    if values.len() == 0 {
        0
    } else {
        total(values.drop_last()) + values.last() as nat
    }
}

/// The mean of the values, rounded down.
pub open spec fn mean(values: Seq<u16>) -> int {
    total(values) as int / values.len() as int
}

/// A larger bound has no fewer values below it.
proof fn lemma_count_monotone(values: Seq<u16>, a: int, b: int)
    requires
        a <= b,
    ensures
        count_below(values, a) <= count_below(values, b) <= values.len(),
    decreases values.len(),
{
    if values.len() > 0 {
        lemma_count_monotone(values.drop_last(), a, b);
    }
}

/// The extreme bounds count nothing and everything.
proof fn lemma_count_extremes(values: Seq<u16>)
    ensures
        count_below(values, 0) == 0,
        count_below(values, 65536) == values.len(),
    decreases values.len(),
{
    if values.len() > 0 {
        lemma_count_extremes(values.drop_last());
    }
}

/// A value counted between two neighbouring bounds is among the values.
proof fn lemma_counted_is_present(values: Seq<u16>, v: int)
    requires
        count_below(values, v) < count_below(values, v + 1),
    ensures
        exists|i: int| 0 <= i < values.len() && #[trigger] values[i] == v,
    decreases values.len(),
{
    if values.last() == v {
        assert(values[values.len() - 1] == v);
    } else {
        lemma_counted_is_present(values.drop_last(), v);
        let i = choose|i: int|
            0 <= i < values.drop_last().len() && #[trigger] values.drop_last()[i] == v;
        assert(values[i] == v);
    }
}

proof fn lemma_kth_exists_below(values: Seq<u16>, k: int, bound: int)
    requires
        0 <= k < count_below(values, bound),
        0 <= bound,
    ensures
        exists|v: int| is_kth(values, k, v),
    decreases bound,
{
    lemma_count_extremes(values);
    if count_below(values, bound - 1) > k {
        lemma_kth_exists_below(values, k, bound - 1);
    } else {
        assert(is_kth(values, k, bound - 1));
    }
}

/// At most one value stands at a place.
pub proof fn lemma_kth_unique(values: Seq<u16>, k: int, v: int, w: int)
    requires
        is_kth(values, k, v),
        is_kth(values, k, w),
    ensures
        v == w,
{
    if v < w {
        lemma_count_monotone(values, v + 1, w);
    } else if w < v {
        lemma_count_monotone(values, w + 1, v);
    }
}

/// Every place among the values is taken, by one of the values.
pub proof fn law_kth_is_one_of_the_values(values: Seq<u16>, k: int)
    requires
        0 <= k < values.len(),
    ensures
        is_kth(values, k, kth(values, k)),
        exists|i: int| 0 <= i < values.len() && #[trigger] values[i] == kth(values, k),
{
    lemma_count_extremes(values);
    lemma_kth_exists_below(values, k, 65536);
    lemma_counted_is_present(values, kth(values, k));
}

/// Later places hold no smaller values.
pub proof fn law_kth_is_sorted(values: Seq<u16>, j: int, k: int)
    requires
        0 <= j <= k < values.len(),
    ensures
        kth(values, j) <= kth(values, k),
{
    law_kth_is_one_of_the_values(values, j);
    law_kth_is_one_of_the_values(values, k);
    if kth(values, k) < kth(values, j) {
        lemma_count_monotone(values, kth(values, k) + 1, kth(values, j));
    }
}

/// The median lies between two of the values.
pub proof fn law_median_is_between_values(values: Seq<u16>)
    requires
        values.len() > 0,
    ensures
        exists|i: int, j: int|
            0 <= i < values.len() && 0 <= j < values.len() && #[trigger] values[i] <= median(
                values,
            ) <= #[trigger] values[j],
{
    let half = values.len() as int / 2;
    law_kth_is_one_of_the_values(values, half);
    let j = choose|j: int| 0 <= j < values.len() && #[trigger] values[j] == kth(values, half);
    if values.len() % 2 == 1 {
        assert(values[j] <= median(values) <= values[j]);
    } else {
        law_kth_is_one_of_the_values(values, half - 1);
        law_kth_is_sorted(values, half - 1, half);
        let i = choose|i: int|
            0 <= i < values.len() && #[trigger] values[i] == kth(values, half - 1);
        assert(values[i] <= median(values) <= values[j]);
    }
}

/// The mean of readings no larger than `bound` is no larger than `bound`.
proof fn lemma_total_bounded(values: Seq<u16>, bound: nat)
    requires
        forall|i: int| 0 <= i < values.len() ==> #[trigger] values[i] <= bound,
    ensures
        total(values) <= bound * values.len(),
    decreases values.len(),
{
    if values.len() > 0 {
        let rest = values.drop_last();
        assert forall|i: int| 0 <= i < rest.len() implies #[trigger] rest[i] <= bound by {
            assert(rest[i] == values[i]);
        }
        lemma_total_bounded(rest, bound);
        assert(values.last() == values[values.len() - 1]);
        assert(bound * values.len() == bound * rest.len() + bound) by (nonlinear_arith)
            requires
                values.len() == rest.len() + 1,
        ;
    }
}

/// The mean exceeds no bound that every value keeps.
pub proof fn law_mean_keeps_bounds(values: Seq<u16>, bound: nat)
    requires
        values.len() > 0,
        forall|i: int| 0 <= i < values.len() ==> #[trigger] values[i] <= bound,
    ensures
        0 <= mean(values) <= bound,
{
    lemma_total_bounded(values, bound);
    vstd::arithmetic::div_mod::lemma_div_is_ordered(
        total(values) as int,
        (bound * values.len()) as int,
        values.len() as int,
    );
    vstd::arithmetic::div_mod::lemma_div_by_multiple(bound as int, values.len() as int);
    vstd::arithmetic::div_mod::lemma_div_pos_is_pos(total(values) as int, values.len() as int);
}

/// Taking one value out takes it out of the counts and out of the sum.
proof fn lemma_remove_value(values: Seq<u16>, i: int, bound: int)
    requires
        0 <= i < values.len(),
    ensures
        count_below(values, bound) == count_below(values.remove(i), bound) + if values[i] < bound {
            1nat
        } else {
            0nat
        },
        total(values) == total(values.remove(i)) + values[i],
    decreases values.len(),
{
    let rest = values.drop_last();
    if i == values.len() - 1 {
        assert(values.remove(i) =~= rest);
    } else {
        lemma_remove_value(rest, i, bound);
        assert(values.remove(i).drop_last() =~= rest.remove(i));
        assert(values.remove(i).last() == values.last());
    }
}

/// The same values in another order have the same counts and the same sum.
proof fn lemma_reordered_counts(a: Seq<u16>, b: Seq<u16>, bound: int)
    requires
        a.to_multiset() == b.to_multiset(),
    ensures
        a.len() == b.len(),
        count_below(a, bound) == count_below(b, bound),
        total(a) == total(b),
    decreases a.len(),
{
    broadcast use vstd::seq_lib::group_to_multiset_ensures;

    assert(a.len() == a.to_multiset().len());
    assert(b.len() == b.to_multiset().len());
    if a.len() > 0 {
        let last = a.len() - 1;
        let value = a[last];
        assert(a.contains(value));
        assert(a.to_multiset().count(value) > 0);
        assert(b.contains(value));
        let j = choose|j: int| 0 <= j < b.len() && b[j] == value;
        assert(a.remove(last).to_multiset() == b.remove(j).to_multiset());
        assert(a.remove(last) =~= a.drop_last());
        lemma_remove_value(b, j, bound);
        lemma_reordered_counts(a.drop_last(), b.remove(j), bound);
    }
}

/// The order of the values does not matter to their places, their median and their mean.
pub proof fn law_order_is_irrelevant(a: Seq<u16>, b: Seq<u16>)
    requires
        a.to_multiset() == b.to_multiset(),
        a.len() > 0,
    ensures
        a.len() == b.len(),
        forall|k: int| 0 <= k < a.len() ==> #[trigger] kth(a, k) == kth(b, k),
        median(a) == median(b),
        mean(a) == mean(b),
{
    lemma_reordered_counts(a, b, 0);
    assert forall|k: int| 0 <= k < a.len() implies #[trigger] kth(a, k) == kth(b, k) by {
        law_kth_is_one_of_the_values(a, k);
        law_kth_is_one_of_the_values(b, k);
        lemma_reordered_counts(a, b, kth(a, k));
        lemma_reordered_counts(a, b, kth(a, k) + 1);
        lemma_kth_unique(b, k, kth(a, k), kth(b, k));
    }
    let half = a.len() as int / 2;
    assert(kth(a, half) == kth(b, half));
    if a.len() % 2 == 0 {
        assert(kth(a, half - 1) == kth(b, half - 1));
    }
}

/// How many of `values` are smaller than, and equal to, `value`.
pub fn rank(values: &Vec<u16>, value: u16) -> (counts: (usize, usize))
    ensures
        counts.0 == count_below(values@, value as int),
        counts.0 + counts.1 == count_below(values@, value + 1),
{
    let mut less: usize = 0;
    let mut equal: usize = 0;
    let mut i: usize = 0;
    assert(values@.take(0) =~= Seq::<u16>::empty());
    while i < values.len()
        invariant
            i <= values.len(),
            less == count_below(values@.take(i as int), value as int),
            less + equal == count_below(values@.take(i as int), value + 1),
            less + equal <= i,
        decreases values.len() - i,
    {
        assert(values@.take(i + 1).drop_last() =~= values@.take(i as int));
        if values[i] < value {
            less += 1;
        } else if values[i] == value {
            equal += 1;
        }
        i += 1;
    }
    assert(values@.take(i as int) =~= values@);
    (less, equal)
}

/// The value at place `k` when `values` are sorted, found by counting.
pub fn select(values: &Vec<u16>, k: usize) -> (value: u16)
    requires
        k < values@.len(),
    ensures
        value == kth(values@, k as int),
{
    proof {
        law_kth_is_one_of_the_values(values@, k as int);
    }
    let mut i: usize = 0;
    while i < values.len()
        invariant
            i <= values.len(),
            k < values@.len(),
            is_kth(values@, k as int, kth(values@, k as int)),
            forall|j: int| 0 <= j < i ==> #[trigger] values@[j] != kth(values@, k as int),
        decreases values.len() - i,
    {
        let (less, equal) = rank(values, values[i]);
        proof {
            lemma_count_monotone(values@, values@[i as int] + 1, values@[i as int] + 1);
        }
        if less <= k && k < less + equal {
            proof {
                lemma_kth_unique(values@, k as int, values@[i as int] as int, kth(values@, k as int));
            }
            return values[i];
        }
        i += 1;
    }
    assert(false);
    0
}

/// The median of `values`.
pub fn median_of(values: &Vec<u16>) -> (value: u16)
    requires
        values@.len() > 0,
    ensures
        value == median(values@),
{
    let half: usize = values.len() / 2;
    if values.len() % 2 == 1 {
        select(values, half)
    } else {
        proof {
            law_kth_is_sorted(values@, half - 1, half as int);
        }
        let lower = select(values, half - 1);
        let upper = select(values, half);
        lower + (upper - lower) / 2
    }
}

/// The mean of `values`, rounded down.
pub fn mean_of(values: &Vec<u16>) -> (value: u16)
    requires
        values@.len() > 0,
    ensures
        value == mean(values@),
{
    let mut sum: u128 = 0;
    let mut i: usize = 0;
    assert(values@.take(0) =~= Seq::<u16>::empty());
    while i < values.len()
        invariant
            i <= values.len(),
            sum == total(values@.take(i as int)),
            sum <= 65535 * i,
        decreases values.len() - i,
    {
        assert(values@.take(i + 1).drop_last() =~= values@.take(i as int));
        sum += values[i] as u128;
        i += 1;
    }
    assert(values@.take(i as int) =~= values@);
    proof {
        law_mean_keeps_bounds(values@, 65535);
    }
    (sum / (values.len() as u128)) as u16
}

/// The median splits the values: with an odd number of them it is the middle one, as many
/// not above it as not below; with an even number it lies halfway between the two middle
/// ones, rounded down.
pub proof fn law_median_is_the_middle(values: Seq<u16>)
    requires
        values.len() > 0,
    ensures
        ({
            let half = values.len() as int / 2;
            let middle = median(values);
            &&& values.len() % 2 == 1 ==> count_below(values, middle) <= half < count_below(
                values,
                middle + 1,
            )
            &&& values.len() % 2 == 0 ==> exists|lower: int, upper: int| {
                &&& #[trigger] is_kth(values, half - 1, lower)
                &&& #[trigger] is_kth(values, half, upper)
                &&& lower + upper - 1 <= 2 * middle <= lower + upper
            }
        }),
{
    let half = values.len() as int / 2;
    law_kth_is_one_of_the_values(values, half);
    if values.len() % 2 == 0 {
        law_kth_is_one_of_the_values(values, half - 1);
        assert(is_kth(values, half - 1, kth(values, half - 1)));
        assert(is_kth(values, half, kth(values, half)));
    } else {
        assert(is_kth(values, half, kth(values, half)));
    }
}

/// The mean times the number of values is their sum, less than one mean short of it; and
/// the sum of two runs of values is the sum of their sums.
pub proof fn law_mean_shares_the_sum(values: Seq<u16>, more: Seq<u16>)
    requires
        values.len() > 0,
    ensures
        mean(values) * values.len() <= total(values) < (mean(values) + 1) * values.len(),
        total(values + more) == total(values) + total(more),
        total(seq![values[0]]) == values[0],
    decreases more.len(),
{
    let n = values.len() as int;
    let sum = total(values) as int;
    let m = sum / n;
    assert(m * n <= sum < (m + 1) * n) by (nonlinear_arith)
        requires
            n > 0,
            m == sum / n,
    ;
    reveal_with_fuel(total, 2);
    assert(seq![values[0]].drop_last() =~= Seq::<u16>::empty());
    if more.len() == 0 {
        assert(values + more =~= values);
    } else {
        law_mean_shares_the_sum(values, more.drop_last());
        assert((values + more).drop_last() =~= values + more.drop_last());
    }
}

/// A count is the sum of the counts of two runs of values, and a single value counts
/// exactly where it is below the bound.
pub proof fn law_counts_add_up(values: Seq<u16>, more: Seq<u16>, value: u16, bound: int)
    ensures
        count_below(values + more, bound) == count_below(values, bound) + count_below(more, bound),
        count_below(seq![value], bound) == if value < bound {
            1nat
        } else {
            0nat
        },
    decreases more.len(),
{
    reveal_with_fuel(count_below, 2);
    assert(seq![value].drop_last() =~= Seq::<u16>::empty());
    if more.len() == 0 {
        assert(values + more =~= values);
    } else {
        law_counts_add_up(values, more.drop_last(), value, bound);
        assert((values + more).drop_last() =~= values + more.drop_last());
    }
}

/// Whatever values are averaged, the median has half of them on either side, the mean
/// shares their sum evenly, both rounded down.
pub proof fn law_averages_of_the_values(values: &Vec<u16>, median: u16, mean: u16)
    requires
        values@.len() > 0,
        call_ensures(median_of, (values,), median),
        call_ensures(mean_of, (values,), mean),
    ensures
        values@.len() % 2 == 1 ==> count_below(values@, median as int) <= values@.len() as int / 2
            < count_below(values@, median + 1),
        mean * values@.len() <= total(values@) < (mean + 1) * values@.len(),
{
    law_median_is_the_middle(values@);
    law_mean_shares_the_sum(values@, Seq::empty());
}

} // verus!
