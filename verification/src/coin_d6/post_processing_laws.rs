//! What holds of every reduction by bearing.

use vstd::prelude::*;

use crate::coin_d6::post_processing;
use crate::coin_d6::post_processing::{Grid, PPM};
use crate::coin_d6::types::{AggregationConfig, AggregationMethod, Point, FULL_CIRCLE_UDEG};
use crate::ranking;

verus! {

/// Every bearing falls in exactly one bucket of a grid: coarsening drops no
/// bearing, and a width that does not divide the circle leaves no gap at its end.
pub proof fn law_every_bearing_has_one_bucket(resolution_udeg: u32, capacity: usize, bearing: int)
    requires
        capacity > 0,
        0 <= bearing < FULL_CIRCLE_UDEG,
    ensures
        ({
            let grid = post_processing::grid_for(resolution_udeg, capacity);
            let bin = bearing * grid.width_den / (grid.width_num as int);
            &&& 0 <= bin < grid.bins
            &&& grid.holds(bin, bearing)
            &&& forall|other: int| #[trigger] grid.holds(other, bearing) ==> other == bin
        }),
{
    let grid = post_processing::grid_for(resolution_udeg, capacity);
    post_processing::lemma_grid_sane(resolution_udeg, capacity);
    post_processing::lemma_grid_covers(resolution_udeg, capacity);
    let num = grid.width_num as int;
    let scaled = bearing * grid.width_den;
    let bin = scaled / num;
    let bins = grid.bins as int;
    let den = grid.width_den as int;
    assert(0 <= scaled < FULL_CIRCLE_UDEG * den) by (nonlinear_arith)
        requires
            0 <= bearing < FULL_CIRCLE_UDEG,
            den > 0,
            scaled == bearing * den,
    ;
    assert(bin * num <= scaled < (bin + 1) * num && 0 <= bin < bins) by (nonlinear_arith)
        requires
            0 <= scaled < bins * num,
            num > 0,
            bin == scaled / num,
    ;
    assert forall|other: int| #[trigger] grid.holds(other, bearing) implies other == bin by {
        assert(other == bin) by (nonlinear_arith)
            requires
                other * num <= scaled < (other + 1) * num,
                bin * num <= scaled < (bin + 1) * num,
                num > 0,
        ;
    }
}

/// A bucket speaks for its nearest return, the strongest of equally near ones, and
/// is silent only when nothing in it returned. Samples without a return never
/// shadow one with.
pub proof fn law_representative_is_nearest(points: Seq<Point>, grid: Grid, bin: int)
    ensures
        match post_processing::representative(points, grid, bin) {
            None => forall|i: int|
                0 <= i < points.len() ==> !post_processing::returns_in(
                    #[trigger] points[i],
                    grid,
                    bin,
                ),
            Some(best) => {
                &&& exists|i: int|
                    0 <= i < points.len() && post_processing::returns_in(
                        #[trigger] points[i],
                        grid,
                        bin,
                    ) && post_processing::reading(points[i]) == best
                &&& forall|i: int|
                    0 <= i < points.len() && post_processing::returns_in(
                        #[trigger] points[i],
                        grid,
                        bin,
                    ) ==> !post_processing::precedes(post_processing::reading(points[i]), best)
            },
        },
    decreases points.len(),
{
    if points.len() > 0 {
        let rest = points.drop_last();
        law_representative_is_nearest(rest, grid, bin);
        assert forall|i: int| 0 <= i < rest.len() implies #[trigger] points[i] == rest[i] by {}
        let n = points.len() - 1;
        assert(points[n] == points.last());
        if let Some(best) = post_processing::representative(rest, grid, bin) {
            let i = choose|i: int|
                0 <= i < rest.len() && post_processing::returns_in(#[trigger] rest[i], grid, bin)
                    && post_processing::reading(rest[i]) == best;
            assert(points[i] == rest[i]);
        }
    }
}

/// The order of the samples in a revolution does not matter, nor at which index it
/// reports a bearing: two revolutions with the same samples say the same of every
/// bucket.
pub proof fn law_sample_order_is_irrelevant(a: Seq<Point>, b: Seq<Point>, grid: Grid, bin: int)
    requires
        forall|point: Point| a.contains(point) <==> b.contains(point),
    ensures
        post_processing::representative(a, grid, bin) == post_processing::representative(
            b,
            grid,
            bin,
        ),
{
    law_representative_is_nearest(a, grid, bin);
    law_representative_is_nearest(b, grid, bin);
    lemma_as_near(a, b, grid, bin);
    lemma_as_near(b, a, grid, bin);
}

/// A revolution that has every sample of another has a representative no farther.
proof fn lemma_as_near(a: Seq<Point>, b: Seq<Point>, grid: Grid, bin: int)
    requires
        forall|point: Point| a.contains(point) ==> b.contains(point),
    ensures
        post_processing::representative(a, grid, bin) matches Some(best) ==> {
            &&& post_processing::representative(b, grid, bin) is Some
            &&& !post_processing::precedes(
                best,
                post_processing::representative(b, grid, bin)->0,
            )
        },
{
    law_representative_is_nearest(a, grid, bin);
    law_representative_is_nearest(b, grid, bin);
    if let Some(best) = post_processing::representative(a, grid, bin) {
        let i = choose|i: int|
            0 <= i < a.len() && post_processing::returns_in(#[trigger] a[i], grid, bin)
                && post_processing::reading(a[i]) == best;
        assert(a.contains(a[i]));
        let j = choose|j: int| 0 <= j < b.len() && b[j] == a[i];
        assert(post_processing::returns_in(b[j], grid, bin));
    }
}

/// Whether `b` holds the revolutions of `a` in another order, revolution `i` of `b` being
/// revolution `order[i]` of `a` with its samples in any order.
pub open spec fn is_reordering(a: Seq<Seq<Point>>, b: Seq<Seq<Point>>, order: Seq<int>) -> bool {
    &&& a.len() == b.len() == order.len()
    &&& forall|i: int| 0 <= i < order.len() ==> 0 <= #[trigger] order[i] < a.len()
    &&& forall|i: int, j: int|
        0 <= i < j < order.len() ==> #[trigger] order[i] != #[trigger] order[j]
    &&& forall|i: int|
        0 <= i < b.len() ==> (#[trigger] b[i]).to_multiset() == a[order[i]].to_multiset()
}

/// Taking one revolution out takes its reading out.
proof fn lemma_remove_revolution(scans: Seq<Seq<Point>>, i: int, grid: Grid, bin: int)
    requires
        0 <= i < scans.len(),
    ensures
        ({
            let rest = scans.remove(i);
            let found = post_processing::ranges(scans, grid, bin).to_multiset();
            let found_rest = post_processing::ranges(rest, grid, bin).to_multiset();
            let strengths = post_processing::intensities(scans, grid, bin).to_multiset();
            let strengths_rest = post_processing::intensities(rest, grid, bin).to_multiset();
            match post_processing::representative(scans[i], grid, bin) {
                None => found == found_rest && strengths == strengths_rest,
                Some((range, intensity)) => {
                    &&& found == found_rest.insert(range)
                    &&& strengths == strengths_rest.insert(intensity as u16)
                },
            }
        }),
    decreases scans.len(),
{
    broadcast use vstd::seq_lib::group_to_multiset_ensures;

    let last = scans.len() - 1;
    if i == last {
        assert(scans.remove(i) =~= scans.drop_last());
    } else {
        lemma_remove_revolution(scans.drop_last(), i, grid, bin);
        assert(scans.remove(i).drop_last() =~= scans.drop_last().remove(i));
        assert(scans.remove(i).last() == scans.last());
        let rest = scans.drop_last();
        let inner = rest.remove(i);
        match post_processing::representative(scans.last(), grid, bin) {
            None => {},
            Some((range, intensity)) => {
                let strength = intensity as u16;
                assert(post_processing::ranges(scans, grid, bin).to_multiset()
                    =~= post_processing::ranges(rest, grid, bin).to_multiset().insert(range));
                assert(post_processing::intensities(scans, grid, bin).to_multiset()
                    =~= post_processing::intensities(rest, grid, bin).to_multiset().insert(
                    strength,
                ));
                if let Some((own, own_intensity)) = post_processing::representative(
                    scans[i],
                    grid,
                    bin,
                ) {
                    let found = post_processing::ranges(inner, grid, bin).to_multiset();
                    let strengths = post_processing::intensities(inner, grid, bin).to_multiset();
                    assert(found.insert(own).insert(range) =~= found.insert(range).insert(own));
                    assert(strengths.insert(own_intensity as u16).insert(strength)
                        =~= strengths.insert(strength).insert(own_intensity as u16));
                }
            },
        }
    }
}

/// The same revolutions in another order give a bucket the same readings.
proof fn lemma_reordered_readings(
    a: Seq<Seq<Point>>,
    b: Seq<Seq<Point>>,
    order: Seq<int>,
    grid: Grid,
    bin: int,
)
    requires
        is_reordering(a, b, order),
    ensures
        post_processing::ranges(a, grid, bin).to_multiset() == post_processing::ranges(
            b,
            grid,
            bin,
        ).to_multiset(),
        post_processing::intensities(a, grid, bin).to_multiset() == post_processing::intensities(
            b,
            grid,
            bin,
        ).to_multiset(),
    decreases b.len(),
{
    broadcast use vstd::seq_lib::group_to_multiset_ensures;

    if b.len() > 0 {
        let last = b.len() - 1;
        let out = order[last];
        let fewer = a.remove(out);
        let rest = b.drop_last();
        let places = Seq::new(
            last as nat,
            |i: int|
                if order[i] < out {
                    order[i]
                } else {
                    order[i] - 1
                },
        );
        assert(is_reordering(fewer, rest, places)) by {
            assert forall|i: int| 0 <= i < places.len() implies 0 <= #[trigger] places[i]
                < fewer.len() by {
                assert(order[i] != order[last]);
            }
            assert forall|i: int, j: int| 0 <= i < j < places.len() implies #[trigger] places[i]
                != #[trigger] places[j] by {
                assert(order[i] != order[j]);
                assert(order[i] != order[last]);
                assert(order[j] != order[last]);
            }
            assert forall|i: int| 0 <= i < rest.len() implies (#[trigger] rest[i]).to_multiset()
                == fewer[places[i]].to_multiset() by {
                assert(order[i] != order[last]);
                assert(rest[i] == b[i]);
                assert(fewer[places[i]] == a[order[i]]);
            }
        }
        lemma_reordered_readings(fewer, rest, places, grid, bin);
        lemma_remove_revolution(a, out, grid, bin);
        assert(b[last].to_multiset() == a[out].to_multiset());
        assert forall|point: Point| b[last].contains(point) <==> a[out].contains(point) by {
            assert(b[last].to_multiset().count(point) == a[out].to_multiset().count(point));
        }
        law_sample_order_is_irrelevant(b[last], a[out], grid, bin);
    }
}

/// The order of the revolutions does not matter, nor that of the samples in each, nor at
/// which bearing each one starts: revolutions are matched by bearing, so reordering them in
/// any way leaves the whole reduction as it is.
pub proof fn law_revolution_order_is_irrelevant(
    a: Seq<Seq<Point>>,
    b: Seq<Seq<Point>>,
    order: Seq<int>,
    config: AggregationConfig,
    capacity: usize,
)
    requires
        is_reordering(a, b, order),
    ensures
        post_processing::reduced(a, config, capacity) == post_processing::reduced(
            b,
            config,
            capacity,
        ),
{
    let grid = post_processing::grid_for(config.resolution_udeg, capacity);
    assert forall|bin: int| #[trigger]
        post_processing::fused(a, grid, bin, config) == post_processing::fused(
            b,
            grid,
            bin,
            config,
        ) by {
        lemma_reordered_readings(a, b, order, grid, bin);
        let found = post_processing::ranges(a, grid, bin);
        law_one_vote_per_revolution(a, grid, bin);
        law_one_vote_per_revolution(b, grid, bin);
        assert(found.len() == found.to_multiset().len()) by {
            broadcast use vstd::seq_lib::group_to_multiset_ensures;

        }
        assert(post_processing::ranges(b, grid, bin).len() == found.len()) by {
            broadcast use vstd::seq_lib::group_to_multiset_ensures;

        }
        if found.len() > 0 {
            ranking::law_order_is_irrelevant(found, post_processing::ranges(b, grid, bin));
            ranking::law_order_is_irrelevant(
                post_processing::intensities(a, grid, bin),
                post_processing::intensities(b, grid, bin),
            );
        }
    }
    assert(post_processing::reduced(a, config, capacity) =~= post_processing::reduced(
        b,
        config,
        capacity,
    ));
}

/// Each revolution counts once towards a bucket's validity, however many samples it
/// puts there, and exactly the revolutions with a return count.
pub proof fn law_one_vote_per_revolution(scans: Seq<Seq<Point>>, grid: Grid, bin: int)
    ensures
        post_processing::ranges(scans, grid, bin).len() <= scans.len(),
        post_processing::intensities(scans, grid, bin).len() == post_processing::ranges(
            scans,
            grid,
            bin,
        ).len(),
        scans.len() > 0 ==> post_processing::ranges(scans, grid, bin).len()
            == post_processing::ranges(scans.drop_last(), grid, bin).len() + (
        if post_processing::representative(scans.last(), grid, bin) is Some {
            1nat
        } else {
            0nat
        }),
    decreases scans.len(),
{
    if scans.len() > 0 {
        law_one_vote_per_revolution(scans.drop_last(), grid, bin);
    }
}

/// A single revolution reduces to its own representatives: unless the policy asks
/// for more than every revolution, each bucket reports exactly its nearest return.
pub proof fn law_single_revolution(
    points: Seq<Point>,
    config: AggregationConfig,
    capacity: usize,
    bin: int,
)
    requires
        config.validity_ratio_ppm <= PPM,
        0 <= bin < post_processing::grid_for(config.resolution_udeg, capacity).bins,
        forall|i: int|
            0 <= i < points.len() && (#[trigger] points[i]).distance_mm is Some
                ==> points[i].distance_mm->0@ != 0,
    ensures
        ({
            let grid = post_processing::grid_for(config.resolution_udeg, capacity);
            let point = post_processing::reduced(seq![points], config, capacity)[bin];
            match post_processing::representative(points, grid, bin) {
                None => point.distance_mm is None && point.intensity == 0,
                Some((range, intensity)) => {
                    &&& point.distance_mm matches Some(found) && found@ == range
                    &&& point.intensity == intensity
                },
            }
        }),
{
    let grid = post_processing::grid_for(config.resolution_udeg, capacity);
    let scans = seq![points];
    reveal_with_fuel(post_processing::ranges, 2);
    reveal_with_fuel(post_processing::intensities, 2);
    law_representative_is_nearest(points, grid, bin);
    assert(scans.drop_last() =~= Seq::<Seq<Point>>::empty());
    assert(scans.last() == points);
    crate::coin_d6::types::RangeMm::lemma_of(1);
    if let Some((range, intensity)) = post_processing::representative(points, grid, bin) {
        let ranges = post_processing::ranges(scans, grid, bin);
        let strengths = post_processing::intensities(scans, grid, bin);
        assert(ranges =~= seq![range]);
        assert(strengths =~= seq![intensity as u16]);
        lemma_single_value(range);
        lemma_single_value(intensity as u16);
        crate::coin_d6::types::RangeMm::lemma_of(range);
    }
}

/// One reading is its own median and mean.
proof fn lemma_single_value(value: u16)
    ensures
        ranking::median(seq![value]) == value,
        ranking::mean(seq![value]) == value,
{
    let values = seq![value];
    ranking::law_kth_is_one_of_the_values(values, 0);
    reveal_with_fuel(ranking::total, 2);
    assert(values.drop_last() =~= Seq::<u16>::empty());
}

/// A bucket reported by too few of the revolutions is a no-return, and one reported
/// by enough is a return: the validity share alone decides.
pub proof fn law_validity_decides(
    scans: Seq<Seq<Point>>,
    grid: Grid,
    bin: int,
    config: AggregationConfig,
)
    requires
        forall|s: int, i: int|
            0 <= s < scans.len() && 0 <= i < scans[s].len() && (
            #[trigger] scans[s][i]).distance_mm is Some ==> scans[s][i].distance_mm->0@ != 0,
    ensures
        post_processing::fused(scans, grid, bin, config).distance_mm is Some
            <==> post_processing::enough_valid(
            post_processing::ranges(scans, grid, bin).len(),
            scans.len(),
            config.validity_ratio_ppm,
        ),
{
    let found = post_processing::ranges(scans, grid, bin);
    if found.len() > 0 {
        lemma_ranges_measured(scans, grid, bin);
        match config.method {
            AggregationMethod::Median => {
                ranking::law_median_is_between_values(found);
            },
            AggregationMethod::Mean => {
                lemma_mean_positive(found);
            },
        }
    }
}

proof fn lemma_ranges_measured(scans: Seq<Seq<Point>>, grid: Grid, bin: int)
    requires
        forall|s: int, i: int|
            0 <= s < scans.len() && 0 <= i < scans[s].len() && (
            #[trigger] scans[s][i]).distance_mm is Some ==> scans[s][i].distance_mm->0@ != 0,
    ensures
        forall|i: int|
            0 <= i < post_processing::ranges(scans, grid, bin).len()
                ==> #[trigger] post_processing::ranges(scans, grid, bin)[i] != 0,
    decreases scans.len(),
{
    if scans.len() > 0 {
        let rest = scans.drop_last();
        assert forall|s: int, i: int|
            0 <= s < rest.len() && 0 <= i < rest[s].len() && (
            #[trigger] rest[s][i]).distance_mm is Some implies rest[s][i].distance_mm->0@ != 0 by {
            assert(rest[s][i] == scans[s][i]);
        }
        lemma_ranges_measured(rest, grid, bin);
        let last = scans.last();
        law_representative_is_nearest(last, grid, bin);
        if let Some(best) = post_processing::representative(last, grid, bin) {
            let i = choose|i: int|
                0 <= i < last.len() && post_processing::returns_in(#[trigger] last[i], grid, bin)
                    && post_processing::reading(last[i]) == best;
            assert(scans[scans.len() - 1][i] == last[i]);
            assert(best.0 != 0);
        }
        let before = post_processing::ranges(rest, grid, bin);
        let found = post_processing::ranges(scans, grid, bin);
        assert forall|i: int| 0 <= i < found.len() implies #[trigger] found[i] != 0 by {
            if i < before.len() {
                assert(found[i] == before[i]);
            }
        }
    }
}

/// The mean of positive readings is positive.
proof fn lemma_mean_positive(values: Seq<u16>)
    requires
        values.len() > 0,
        forall|i: int| 0 <= i < values.len() ==> #[trigger] values[i] != 0,
    ensures
        0 < ranking::mean(values) <= 65535,
{
    lemma_total_at_least(values);
    ranking::law_mean_keeps_bounds(values, 65535);
    let total = ranking::total(values) as int;
    let n = values.len() as int;
    assert(total / n >= 1) by (nonlinear_arith)
        requires
            total >= n,
            n > 0,
    ;
}

proof fn lemma_total_at_least(values: Seq<u16>)
    requires
        forall|i: int| 0 <= i < values.len() ==> #[trigger] values[i] != 0,
    ensures
        ranking::total(values) >= values.len(),
    decreases values.len(),
{
    if values.len() > 0 {
        let rest = values.drop_last();
        assert forall|i: int| 0 <= i < rest.len() implies #[trigger] rest[i] != 0 by {
            assert(rest[i] == values[i]);
        }
        lemma_total_at_least(rest);
        assert(values.last() == values[values.len() - 1]);
    }
}

/// Whether a point is a return whose bearing, whole turns aside, lies in the arc that
/// bucket `bin` of `bins` buckets of `num / den` microdegrees takes up.
pub open spec fn lies_in(point: Point, num: int, den: int, bin: int) -> bool {
    let bearing = point.angle_udeg as int % 360_000_000;
    point.distance_mm is Some && bin * num <= bearing * den && bearing * den < (bin + 1) * num
}

/// The buckets have the width that is asked for, one degree where none is, and just as
/// many as it takes to go round; where that is more than there is room for, all the room is
/// taken and the buckets share the circle evenly.
pub proof fn law_grid_goes_round(resolution_udeg: u32, capacity: usize)
    ensures
        ({
            let grid = post_processing::grid_for(resolution_udeg, capacity);
            let width = if resolution_udeg == 0 {
                1_000_000
            } else {
                resolution_udeg as int
            };
            let fits = capacity * width >= 360_000_000;
            &&& fits ==> grid.width_num == width && grid.width_den == 1 && grid.bins * width
                >= 360_000_000 > (grid.bins - 1) * width
            &&& !fits ==> grid.bins == capacity && grid.width_num == 360_000_000
                && grid.width_den == capacity
        }),
{
    let width = post_processing::usable_width(resolution_udeg);
    let exact = post_processing::exact_bins(resolution_udeg);
    let room = capacity as int;
    assert((exact - 1) * width < 360_000_000 <= exact * width) by (nonlinear_arith)
        requires
            width > 0,
            exact == (360_000_000 + width - 1) / width,
    ;
    assert(exact <= room <==> room * width >= 360_000_000) by (nonlinear_arith)
        requires
            (exact - 1) * width < 360_000_000 <= exact * width,
            width > 0,
    ;
}

/// A bucket reports the nearest return in its arc: no return there is nearer, and none as
/// near is stronger; and it is silent only where there is none.
pub proof fn law_bucket_reports_its_nearest_return(points: Seq<Point>, grid: Grid, bin: int, i: int)
    requires
        0 <= i < points.len(),
        lies_in(points[i], grid.width_num as int, grid.width_den as int, bin),
    ensures
        post_processing::representative(points, grid, bin) matches Some((range, intensity)) && {
            let own = points[i].distance_mm->0@;
            &&& range <= own
            &&& range == own ==> intensity >= points[i].intensity
            &&& exists|j: int|
                0 <= j < points.len() && lies_in(
                    #[trigger] points[j],
                    grid.width_num as int,
                    grid.width_den as int,
                    bin,
                ) && points[j].distance_mm->0@ == range && points[j].intensity == intensity
        },
{
    law_representative_is_nearest(points, grid, bin);
    assert(post_processing::returns_in(points[i], grid, bin));
    if let Some(best) = post_processing::representative(points, grid, bin) {
        let j = choose|j: int|
            0 <= j < points.len() && post_processing::returns_in(#[trigger] points[j], grid, bin)
                && post_processing::reading(points[j]) == best;
        assert(lies_in(points[j], grid.width_num as int, grid.width_den as int, bin));
    }
}

/// A fused bucket is the median or the mean of what the revolutions report, whichever is
/// asked for, of ranges and intensities alike, at the bucket's lower edge; it is kept
/// exactly where the share of revolutions that report is asked for at most, and at least
/// one does.
pub proof fn law_bucket_is_fused_as_asked(
    scans: Seq<Seq<Point>>,
    grid: Grid,
    bin: int,
    config: AggregationConfig,
)
    requires
        grid.width_den > 0,
        0 <= bin * grid.width_num < 360_000_000 * grid.width_den,
        forall|s: int, i: int|
            0 <= s < scans.len() && 0 <= i < scans[s].len() && (
            #[trigger] scans[s][i]).distance_mm is Some ==> scans[s][i].distance_mm->0@ != 0,
    ensures
        ({
            let point = post_processing::fused(scans, grid, bin, config);
            let ranges = post_processing::ranges(scans, grid, bin);
            let strengths = post_processing::intensities(scans, grid, bin);
            let kept = ranges.len() > 0 && ranges.len() * 1_000_000 >= config.validity_ratio_ppm
                * scans.len();
            &&& point.angle_udeg * grid.width_den <= bin * grid.width_num < (point.angle_udeg + 1)
                * grid.width_den
            &&& !kept ==> point.distance_mm is None && point.intensity == 0
            &&& kept && config.method is Median ==> (point.distance_mm matches Some(range)
                && range@ == ranking::median(ranges)) && point.intensity == ranking::median(
                strengths,
            )
            &&& kept && config.method is Mean ==> (point.distance_mm matches Some(range) && range@
                == ranking::mean(ranges)) && point.intensity == ranking::mean(strengths)
        }),
{
    let num = bin * grid.width_num;
    let den = grid.width_den as int;
    let edge = num / den;
    assert(edge * den <= num < (edge + 1) * den && 0 <= edge < 360_000_000) by (nonlinear_arith)
        requires
            den > 0,
            0 <= num < 360_000_000 * den,
            edge == num / den,
    ;
    let found = post_processing::ranges(scans, grid, bin);
    law_validity_decides(scans, grid, bin, config);
    if found.len() > 0 {
        lemma_ranges_measured(scans, grid, bin);
        ranking::law_median_is_between_values(found);
        lemma_mean_positive(found);
        crate::coin_d6::types::RangeMm::lemma_of(ranking::median(found) as u16);
        crate::coin_d6::types::RangeMm::lemma_of(ranking::mean(found) as u16);
        law_one_vote_per_revolution(scans, grid, bin);
        lemma_intensities_fit(scans, grid, bin);
        let strengths = post_processing::intensities(scans, grid, bin);
        ranking::law_median_is_between_values(strengths);
        ranking::law_mean_keeps_bounds(strengths, 255);
    }
}

/// An intensity is a byte.
proof fn lemma_intensities_fit(scans: Seq<Seq<Point>>, grid: Grid, bin: int)
    ensures
        forall|i: int|
            0 <= i < post_processing::intensities(scans, grid, bin).len()
                ==> #[trigger] post_processing::intensities(scans, grid, bin)[i] <= 255,
    decreases scans.len(),
{
    if scans.len() > 0 {
        let rest = scans.drop_last();
        lemma_intensities_fit(rest, grid, bin);
        let before = post_processing::intensities(rest, grid, bin);
        let found = post_processing::intensities(scans, grid, bin);
        assert forall|i: int| 0 <= i < found.len() implies #[trigger] found[i] <= 255 by {
            if i < before.len() {
                assert(found[i] == before[i]);
            }
        }
    }
}

/// What a revolution reports joins what the others do: one that reports nothing changes
/// nothing, one that reports adds its range to the ranges and its intensity to the
/// intensities.
pub proof fn law_reports_are_collected(
    scans: Seq<Seq<Point>>,
    scan: Seq<Point>,
    grid: Grid,
    bin: int,
)
    ensures
        ({
            let more = scans.push(scan);
            let ranges = post_processing::ranges(scans, grid, bin);
            let strengths = post_processing::intensities(scans, grid, bin);
            match post_processing::representative(scan, grid, bin) {
                None => post_processing::ranges(more, grid, bin) == ranges
                    && post_processing::intensities(more, grid, bin) == strengths,
                Some((range, intensity)) => {
                    &&& post_processing::ranges(more, grid, bin) == ranges.push(range)
                    &&& post_processing::intensities(more, grid, bin) == strengths.push(
                        intensity as u16,
                    )
                },
            }
        }),
{
    assert(scans.push(scan).drop_last() =~= scans);
}

} // verus!
