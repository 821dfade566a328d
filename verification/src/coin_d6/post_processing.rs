//! Reduction of several revolutions to one stable scan, by bearing.
//!
//! Every revolution starts at whatever bearing its ring-start packet lands on and
//! may hold a different number of points, so revolutions are matched by angular
//! bucket and never by index.

use vstd::prelude::*;

use crate::coin_d6::types;
use crate::coin_d6::types::{
    AggregationConfig, AggregationMethod, Point, RangeMm, Scan, FULL_CIRCLE_UDEG, UDEG_PER_DEG,
};
use crate::ranking;

verus! {

/// Parts in a whole, for shares given in parts per million.
pub const PPM: u64 = 1_000_000;

/// Equal angular buckets that start at bearing zero.
///
/// A bucket is `width_num / width_den` microdegrees wide.
#[derive(Debug, Clone, Copy, PartialEq, Eq, Structural)]
pub struct Grid {
    /// Number of buckets.
    pub bins: usize,
    /// Numerator of the bucket width.
    pub width_num: u64,
    /// Denominator of the bucket width.
    pub width_den: u64,
}

impl Grid {
    /// Whether bucket `bin` holds `bearing`.
    pub open spec fn holds(self, bin: int, bearing: int) -> bool {
        bin * self.width_num <= bearing * self.width_den < (bin + 1) * self.width_num
    }

    /// The lower edge of bucket `bin`, in whole microdegrees.
    pub open spec fn edge(self, bin: int) -> int {
        bin * self.width_num / (self.width_den as int)
    }
}

/// The bucket width in use: an unusable one becomes one degree.
pub open spec fn usable_width(resolution_udeg: u32) -> int {
    if resolution_udeg == 0 {
        UDEG_PER_DEG as int
    } else {
        resolution_udeg as int
    }
}

/// Buckets of the width in use that cover the whole circle.
pub open spec fn exact_bins(resolution_udeg: u32) -> int {
    (FULL_CIRCLE_UDEG + usable_width(resolution_udeg) - 1) / usable_width(resolution_udeg)
}

/// The grid of a reduction onto at most `capacity` buckets. A grid too fine for the
/// capacity is coarsened, so the whole circle stays represented.
pub open spec fn grid_for(resolution_udeg: u32, capacity: usize) -> Grid {
    if exact_bins(resolution_udeg) <= capacity {
        Grid {
            bins: exact_bins(resolution_udeg) as usize,
            width_num: usable_width(resolution_udeg) as u64,
            width_den: 1,
        }
    } else {
        Grid { bins: capacity, width_num: FULL_CIRCLE_UDEG as u64, width_den: capacity as u64 }
    }
}

/// A bearing within one turn.
pub open spec fn normalised(angle_udeg: i64) -> int {
    angle_udeg as int % FULL_CIRCLE_UDEG as int
}

/// Whether `point` is a return in bucket `bin`.
pub open spec fn returns_in(point: Point, grid: Grid, bin: int) -> bool {
    point.distance_mm is Some && grid.holds(bin, normalised(point.angle_udeg))
}

/// The range and intensity of a return.
pub open spec fn reading(point: Point) -> (u16, u8) {
    (point.distance_mm->0@, point.intensity)
}

/// Whether the first reading is taken over the second: nearer, or as near and
/// stronger.
pub open spec fn precedes(a: (u16, u8), b: (u16, u8)) -> bool {
    a.0 < b.0 || (a.0 == b.0 && a.1 > b.1)
}

/// What one revolution says about bucket `bin`: its nearest return there, the
/// strongest of equally near ones, or `None` when nothing in the bucket returned.
pub open spec fn representative(points: Seq<Point>, grid: Grid, bin: int) -> Option<(u16, u8)>
    decreases points.len(),
{
    if points.len() == 0 {
        None
    } else {
        let best = representative(points.drop_last(), grid, bin);
        let point = points.last();
        if !returns_in(point, grid, bin) {
            best
        } else {
            match best {
                None => Some(reading(point)),
                Some(other) => if precedes(reading(point), other) {
                    Some(reading(point))
                } else {
                    best
                },
            }
        }
    }
}

/// The ranges the revolutions report for bucket `bin`.
pub open spec fn ranges(scans: Seq<Seq<Point>>, grid: Grid, bin: int) -> Seq<u16>
    decreases scans.len(),
{
    if scans.len() == 0 {
        Seq::empty()
    } else {
        let rest = ranges(scans.drop_last(), grid, bin);
        match representative(scans.last(), grid, bin) {
            Some((range, _)) => rest.push(range),
            None => rest,
        }
    }
}

/// The intensities that belong to the ranges of bucket `bin`.
pub open spec fn intensities(scans: Seq<Seq<Point>>, grid: Grid, bin: int) -> Seq<u16>
    decreases scans.len(),
{
    if scans.len() == 0 {
        Seq::empty()
    } else {
        let rest = intensities(scans.drop_last(), grid, bin);
        match representative(scans.last(), grid, bin) {
            Some((_, intensity)) => rest.push(intensity as u16),
            None => rest,
        }
    }
}

/// Whether enough of the revolutions report a return for a bucket to be kept.
pub open spec fn enough_valid(valid: nat, spins: nat, validity_ratio_ppm: u32) -> bool {
    valid > 0 && valid * PPM >= validity_ratio_ppm * spins
}

/// Readings combined with the configured method.
pub open spec fn combined(values: Seq<u16>, method: AggregationMethod) -> int {
    match method {
        AggregationMethod::Median => ranking::median(values),
        AggregationMethod::Mean => ranking::mean(values),
    }
}

/// The fused point of bucket `bin`.
pub open spec fn fused(
    scans: Seq<Seq<Point>>,
    grid: Grid,
    bin: int,
    config: AggregationConfig,
) -> Point {
    let found = ranges(scans, grid, bin);
    if enough_valid(found.len(), scans.len(), config.validity_ratio_ppm) {
        Point {
            angle_udeg: grid.edge(bin) as i64,
            distance_mm: types::measured_range(combined(found, config.method) as u16),
            intensity: combined(intensities(scans, grid, bin), config.method) as u8,
        }
    } else {
        Point { angle_udeg: grid.edge(bin) as i64, distance_mm: None, intensity: 0 }
    }
}

/// The points of each scan.
pub open spec fn contents<const N: usize>(scans: Seq<Scan<N>>) -> Seq<Seq<Point>> {
    scans.map_values(|scan: Scan<N>| scan@)
}

/// The reduction of `scans` onto at most `capacity` buckets.
pub open spec fn reduced(
    scans: Seq<Seq<Point>>,
    config: AggregationConfig,
    capacity: usize,
) -> Seq<Point> {
    let grid = grid_for(config.resolution_udeg, capacity);
    if scans.len() == 0 {
        Seq::empty()
    } else {
        Seq::new(grid.bins as nat, |bin: int| fused(scans, grid, bin, config))
    }
}

/// The grid of a reduction onto at most `capacity` buckets.
pub fn effective_grid(resolution_udeg: u32, capacity: usize) -> (grid: Grid)
    ensures
        grid == grid_for(resolution_udeg, capacity),
{
    let width: u64 = if resolution_udeg == 0 {
        UDEG_PER_DEG as u64
    } else {
        resolution_udeg as u64
    };
    let exact: u64 = (FULL_CIRCLE_UDEG as u64 + width - 1) / width;
    if exact <= capacity as u64 {
        Grid { bins: exact as usize, width_num: width, width_den: 1 }
    } else {
        Grid { bins: capacity, width_num: FULL_CIRCLE_UDEG as u64, width_den: capacity as u64 }
    }
}

/// A bearing coerced into one turn.
pub fn normalise_angle(angle_udeg: i64) -> (bearing: u32)
    ensures
        bearing == normalised(angle_udeg),
        bearing < FULL_CIRCLE_UDEG,
{
    angle_udeg.checked_rem_euclid(FULL_CIRCLE_UDEG as i64).unwrap() as u32
}

/// Whether bucket `bin` of `grid` holds `bearing`.
fn bucket_holds(grid: Grid, bin: usize, bearing: u32) -> (held: bool)
    ensures
        held == grid.holds(bin as int, bearing as int),
{
    assert(bearing * grid.width_den <= u128::MAX) by (nonlinear_arith)
        requires
            bearing <= 0xffff_ffff,
            grid.width_den <= 0xffff_ffff_ffff_ffff,
    ;
    assert(0 <= bin * grid.width_num && (bin + 1) * grid.width_num <= u128::MAX)
        by (nonlinear_arith)
        requires
            0 <= bin <= 0xffff_ffff_ffff_ffff,
            0 <= grid.width_num <= 0xffff_ffff_ffff_ffff,
    ;
    assert(bin * grid.width_num + grid.width_num == (bin + 1) * grid.width_num)
        by (nonlinear_arith);
    let scaled: u128 = bearing as u128 * grid.width_den as u128;
    let lower: u128 = bin as u128 * grid.width_num as u128;
    lower <= scaled && scaled < lower + grid.width_num as u128
}

/// The representative return of one revolution in bucket `bin`, if any.
pub fn representative_at_bin<const N: usize>(scan: &Scan<N>, grid: Grid, bin: usize) -> (best:
    Option<(u16, u8)>)
    requires
        scan.wf(),
    ensures
        best == representative(scan@, grid, bin as int),
        best matches Some((range, _)) ==> range != 0,
{
    let mut best: Option<(u16, u8)> = None;
    let mut i: usize = 0;
    assert(scan@.take(0) =~= Seq::<Point>::empty());
    while i < scan.len
        invariant
            i <= scan.len,
            scan.wf(),
            best == representative(scan@.take(i as int), grid, bin as int),
            best matches Some((range, _)) ==> range != 0,
        decreases scan.len - i,
    {
        assert(scan@.take(i + 1).drop_last() =~= scan@.take(i as int));
        assert(scan@.take(i + 1).last() == scan.points@[i as int]);
        let point = scan.points[i];
        let bearing = normalise_angle(point.angle_udeg);
        if bucket_holds(grid, bin, bearing) {
            if let Some(range) = point.distance_mm {
                let distance = range.get();
                match best {
                    None => {
                        best = Some((distance, point.intensity));
                    },
                    Some((best_distance, best_intensity)) => {
                        if distance < best_distance || (distance == best_distance && point.intensity
                            > best_intensity) {
                            best = Some((distance, point.intensity));
                        }
                    },
                }
            }
        }
        i += 1;
    }
    assert(scan@.take(i as int) =~= scan@);
    best
}

/// Fuse one bucket across all revolutions to a range, zero for none, and an
/// intensity.
fn reduce_bucket<const N: usize>(
    scans: &[Scan<N>],
    grid: Grid,
    bin: usize,
    config: &AggregationConfig,
) -> (reading: (u16, u8))
    requires
        forall|i: int| 0 <= i < scans@.len() ==> (#[trigger] scans@[i]).wf(),
    ensures
        ({
            let point = fused(contents(scans@), grid, bin as int, *config);
            &&& types::measured_range(reading.0) == point.distance_mm
            &&& reading.1 == point.intensity
        }),
{
    let mut found: Vec<u16> = Vec::new();
    let mut strengths: Vec<u16> = Vec::new();
    let mut i: usize = 0;
    let ghost all = contents(scans@);
    assert(all.take(0) =~= Seq::<Seq<Point>>::empty());
    while i < scans.len()
        invariant
            i <= scans@.len(),
            forall|j: int| 0 <= j < scans@.len() ==> (#[trigger] scans@[j]).wf(),
            all == contents(scans@),
            found@ == ranges(all.take(i as int), grid, bin as int),
            strengths@ == intensities(all.take(i as int), grid, bin as int),
            found@.len() == strengths@.len(),
            found@.len() <= i,
            forall|j: int| 0 <= j < found@.len() ==> #[trigger] found@[j] != 0,
            forall|j: int| 0 <= j < strengths@.len() ==> #[trigger] strengths@[j] <= 255,
        decreases scans@.len() - i,
    {
        assert(all.take(i + 1).drop_last() =~= all.take(i as int));
        assert(all.take(i + 1).last() == scans@[i as int]@);
        if let Some((distance, intensity)) = representative_at_bin(&scans[i], grid, bin) {
            found.push(distance);
            strengths.push(intensity as u16);
        }
        i += 1;
    }
    assert(all.take(i as int) =~= all);
    assert(found@.len() * PPM <= u128::MAX && config.validity_ratio_ppm * scans@.len() <= u128::MAX)
        by (nonlinear_arith)
        requires
            found@.len() <= 0xffff_ffff_ffff_ffff,
            scans@.len() <= 0xffff_ffff_ffff_ffff,
            config.validity_ratio_ppm <= 0xffff_ffff,
            PPM == 1_000_000,
    ;
    let valid: u128 = found.len() as u128 * PPM as u128;
    let needed: u128 = config.validity_ratio_ppm as u128 * scans.len() as u128;
    if found.len() == 0 || valid < needed {
        return (0, 0);
    }
    match config.method {
        AggregationMethod::Median => {
            proof {
                ranking::law_median_is_between_values(strengths@);
            }
            (ranking::median_of(&found), ranking::median_of(&strengths) as u8)
        },
        AggregationMethod::Mean => {
            proof {
                ranking::law_mean_keeps_bounds(strengths@, 255);
            }
            (ranking::mean_of(&found), ranking::mean_of(&strengths) as u8)
        },
    }
}

/// Reduce several revolutions onto a grid of at most `M` buckets.
///
/// The result has one point per bucket, in order of bearing, each at its bucket's
/// lower edge.
pub fn reduce<const N: usize, const M: usize>(
    scans: &[Scan<N>],
    config: &AggregationConfig,
) -> (out: Scan<M>)
    requires
        forall|i: int| 0 <= i < scans@.len() ==> (#[trigger] scans@[i]).wf(),
    ensures
        out.wf(),
        out@ == reduced(contents(scans@), *config, M),
        forall|i: int|
            out.len <= i < M ==> #[trigger] out.points@[i] == types::blank_point(),
{
    let mut out: Scan<M> = Scan::new();
    if scans.len() == 0 {
        return out;
    }
    let grid = effective_grid(config.resolution_udeg, M);
    proof {
        lemma_grid_sane(config.resolution_udeg, M);
    }
    let mut bin: usize = 0;
    while bin < grid.bins
        invariant
            bin <= grid.bins <= M,
            grid == grid_for(config.resolution_udeg, M),
            out.len == 0,
            forall|i: int| 0 <= i < scans@.len() ==> (#[trigger] scans@[i]).wf(),
            forall|b: int|
                0 <= b < bin ==> #[trigger] out.points@[b] == fused(
                    contents(scans@),
                    grid,
                    b,
                    *config,
                ),
            forall|b: int| bin <= b < M ==> #[trigger] out.points@[b] == types::blank_point(),
        decreases grid.bins - bin,
    {
        let (distance, intensity) = reduce_bucket(scans, grid, bin, config);
        proof {
            lemma_edge_in_circle(config.resolution_udeg, M, bin as int);
            assert(bin * grid.width_num <= u128::MAX) by (nonlinear_arith)
                requires
                    0 <= bin <= 0xffff_ffff_ffff_ffff,
                    0 <= grid.width_num <= 0xffff_ffff_ffff_ffff,
            ;
        }
        let angle = ((bin as u128 * grid.width_num as u128) / grid.width_den as u128) as i64;
        out.points[bin] = Point { angle_udeg: angle, distance_mm: RangeMm::new(distance), intensity };
        bin += 1;
    }
    out.len = grid.bins;
    assert(out@ =~= reduced(contents(scans@), *config, M));
    out
}

/// Reduce several revolutions to one scan of the same capacity.
pub fn aggregate<const N: usize>(scans: &[Scan<N>], config: &AggregationConfig) -> (out: Scan<N>)
    requires
        forall|i: int| 0 <= i < scans@.len() ==> (#[trigger] scans@[i]).wf(),
    ensures
        out.wf(),
        out@ == reduced(contents(scans@), *config, N),
        forall|i: int|
            out.len <= i < N ==> #[trigger] out.points@[i] == types::blank_point(),
{
    reduce::<N, N>(scans, config)
}

/// The grid fits its capacity and its width is positive.
pub proof fn lemma_grid_sane(resolution_udeg: u32, capacity: usize)
    ensures
        ({
            let grid = grid_for(resolution_udeg, capacity);
            &&& grid.bins <= capacity
            &&& grid.width_num > 0
            &&& grid.bins > 0 ==> grid.width_den > 0
        }),
{
    let width = usable_width(resolution_udeg);
    assert((FULL_CIRCLE_UDEG + width - 1) / width >= 1) by (nonlinear_arith)
        requires
            0 < width,
            FULL_CIRCLE_UDEG == 360_000_000,
    ;
}

/// The grid covers the circle and no bucket lies wholly outside it.
pub proof fn lemma_grid_covers(resolution_udeg: u32, capacity: usize)
    requires
        capacity > 0,
    ensures
        ({
            let grid = grid_for(resolution_udeg, capacity);
            &&& FULL_CIRCLE_UDEG * grid.width_den <= grid.bins * grid.width_num
            &&& (grid.bins - 1) * grid.width_num < FULL_CIRCLE_UDEG * grid.width_den
        }),
{
    let width = usable_width(resolution_udeg);
    let bins = exact_bins(resolution_udeg);
    assert(360_000_000 <= bins * width && (bins - 1) * width < 360_000_000) by (nonlinear_arith)
        requires
            0 < width,
            bins == (360_000_000 + width - 1) / width,
    ;
    assert((capacity - 1) * 360_000_000 < 360_000_000 * capacity) by (nonlinear_arith)
        requires
            capacity > 0,
    ;
    assert(360_000_000 * capacity == capacity * 360_000_000) by (nonlinear_arith);
    lemma_grid_sane(resolution_udeg, capacity);
}

/// The edge of every bucket lies within the circle.
proof fn lemma_edge_in_circle(resolution_udeg: u32, capacity: usize, bin: int)
    requires
        0 <= bin < grid_for(resolution_udeg, capacity).bins,
    ensures
        0 <= grid_for(resolution_udeg, capacity).edge(bin) < FULL_CIRCLE_UDEG,
        grid_for(resolution_udeg, capacity).width_den > 0,
{
    let grid = grid_for(resolution_udeg, capacity);
    lemma_grid_sane(resolution_udeg, capacity);
    lemma_grid_covers(resolution_udeg, capacity);
    let num = grid.width_num as int;
    let den = grid.width_den as int;
    let last = grid.bins - 1;
    assert(0 <= bin * num && bin * num / den < 360_000_000 && bin * num / den >= 0)
        by (nonlinear_arith)
        requires
            0 <= bin <= last,
            0 < num,
            0 < den,
            last * num < 360_000_000 * den,
    ;
}

} // verus!
