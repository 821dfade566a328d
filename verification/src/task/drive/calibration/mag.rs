//! What the magnetometer calibration measures and computes.
//!
//! Fields are nanotesla, headings microdegrees.

use vstd::prelude::*;

use crate::task::motor_driver;
use crate::task::sensors::imu;
use crate::task::sensors::imu::{MagCalibration, MagScale, MagVector, TrackInterference};

verus! {

/// Smallest span an axis must cover.
pub const RANGE_MIN_NT: i64 = 30_000;

/// Smallest acceptable magnitude of a corrected field.
pub const VERIFY_MIN_NT: i128 = 20_000;

/// Largest acceptable magnitude of a corrected field.
pub const VERIFY_MAX_NT: i128 = 200_000;

/// Largest acceptable difference from the baseline's magnitude.
pub const VERIFY_MAX_DELTA_NT: i128 = 20_000;

/// Twice what the sensor can read.
pub const FULL_SCALE_NT: i32 = 10_000_000;

/// Half a turn.
pub const HALF_TURN_UDEG: i64 = 180_000_000;

/// A full turn.
pub const FULL_TURN_UDEG: i64 = 360_000_000;

/// A magnetometer reading and the heading it points to.
#[derive(Debug, Clone, Copy, PartialEq, Eq, Structural)]
pub struct MagSample {
    /// The field.
    pub field: MagVector,
    /// The heading of the field in the plane, between minus and plus half a turn.
    pub heading_udeg: i32,
}

/// A field that the sensor can read.
pub open spec fn readable(field: MagVector) -> bool {
    &&& -FULL_SCALE_NT <= field.x <= FULL_SCALE_NT
    &&& -FULL_SCALE_NT <= field.y <= FULL_SCALE_NT
    &&& -FULL_SCALE_NT <= field.z <= FULL_SCALE_NT
}

/// The difference of two fields.
pub open spec fn difference(field: MagVector, other: MagVector) -> MagVector {
    MagVector {
        x: (field.x - other.x) as i32,
        y: (field.y - other.y) as i32,
        z: (field.z - other.z) as i32,
    }
}

/// Subtract one field from another.
pub fn subtract_mag(field: MagVector, other: MagVector) -> (result: MagVector)
    requires
        readable(field),
        readable(other),
    ensures
        result == difference(field, other),
        result.x == field.x - other.x,
        result.y == field.y - other.y,
        result.z == field.z - other.z,
{
    MagVector { x: field.x - other.x, y: field.y - other.y, z: field.z - other.z }
}

/// The span of the readings seen so far on each axis. Before the first one every
/// minimum is above every maximum.
#[derive(Debug, Clone, Copy, PartialEq, Eq, Structural)]
pub struct MagCoverage {
    /// Smallest reading of each axis.
    pub min: MagVector,
    /// Largest reading of each axis.
    pub max: MagVector,
    /// Readings seen.
    pub samples: u32,
}

pub open spec fn lesser(a: i32, b: i32) -> i32 {
    if b < a {
        b
    } else {
        a
    }
}

pub open spec fn greater(a: i32, b: i32) -> i32 {
    if b > a {
        b
    } else {
        a
    }
}

/// No readings yet.
pub open spec fn no_coverage() -> MagCoverage {
    MagCoverage {
        min: MagVector { x: i32::MAX, y: i32::MAX, z: i32::MAX },
        max: MagVector { x: i32::MIN, y: i32::MIN, z: i32::MIN },
        samples: 0,
    }
}

/// The coverage with one reading more. A reading past the counter's range is dropped.
pub open spec fn covering(coverage: MagCoverage, field: MagVector) -> MagCoverage {
    if coverage.samples == u32::MAX {
        coverage
    } else {
        MagCoverage {
            min: MagVector {
                x: lesser(coverage.min.x, field.x),
                y: lesser(coverage.min.y, field.y),
                z: lesser(coverage.min.z, field.z),
            },
            max: MagVector {
                x: greater(coverage.max.x, field.x),
                y: greater(coverage.max.y, field.y),
                z: greater(coverage.max.z, field.z),
            },
            samples: (coverage.samples + 1) as u32,
        }
    }
}

/// The coverage of a sequence of readings.
pub open spec fn coverage_of(fields: Seq<MagVector>) -> MagCoverage
    decreases fields.len(),
{
    if fields.len() == 0 {
        no_coverage()
    } else {
        covering(coverage_of(fields.drop_last()), fields.last())
    }
}

/// Whether an axis spans enough.
pub open spec fn spans(min: i32, max: i32) -> bool {
    max - min >= RANGE_MIN_NT
}

impl MagCoverage {
    /// The coverage holds readings of the sensor, or none at all.
    pub open spec fn wf(self) -> bool {
        &&& self.samples > 0 ==> readable(self.min) && readable(self.max)
        &&& self.samples == 0 ==> self == no_coverage()
    }

    /// No readings yet.
    pub fn new() -> (coverage: Self)
        ensures
            coverage == no_coverage(),
            coverage.wf(),
    {
        MagCoverage {
            min: MagVector { x: i32::MAX, y: i32::MAX, z: i32::MAX },
            max: MagVector { x: i32::MIN, y: i32::MIN, z: i32::MIN },
            samples: 0,
        }
    }

    /// Take a reading.
    pub fn update(&mut self, field: MagVector)
        requires
            old(self).wf(),
            readable(field),
        ensures
            final(self).wf(),
            *final(self) == covering(*old(self), field),
    {
        if self.samples == u32::MAX {
            return;
        }
        self.samples = self.samples + 1;
        if field.x < self.min.x {
            self.min.x = field.x;
        }
        if field.x > self.max.x {
            self.max.x = field.x;
        }
        if field.y < self.min.y {
            self.min.y = field.y;
        }
        if field.y > self.max.y {
            self.max.y = field.y;
        }
        if field.z < self.min.z {
            self.min.z = field.z;
        }
        if field.z > self.max.z {
            self.max.z = field.z;
        }
    }

    /// The span of each axis.
    pub fn ranges(&self) -> (ranges: (i64, i64, i64))
        ensures
            ranges.0 == self.max.x - self.min.x,
            ranges.1 == self.max.y - self.min.y,
            ranges.2 == self.max.z - self.min.z,
    {
        (
            self.max.x as i64 - self.min.x as i64,
            self.max.y as i64 - self.min.y as i64,
            self.max.z as i64 - self.min.z as i64,
        )
    }

    /// How many axes span enough.
    pub fn axes_ok(&self) -> (axes: u8)
        ensures
            axes == axes_covered(*self),
    {
        let (x, y, z) = self.ranges();
        let mut axes: u8 = 0;
        if x >= RANGE_MIN_NT {
            axes = axes + 1;
        }
        if y >= RANGE_MIN_NT {
            axes = axes + 1;
        }
        if z >= RANGE_MIN_NT {
            axes = axes + 1;
        }
        axes
    }
}

/// How many axes span enough.
pub open spec fn axes_covered(coverage: MagCoverage) -> int {
    (if spans(coverage.min.x, coverage.max.x) {
        1int
    } else {
        0
    }) + (if spans(coverage.min.y, coverage.max.y) {
        1int
    } else {
        0
    }) + (if spans(coverage.min.z, coverage.max.z) {
        1int
    } else {
        0
    })
}

/// The coverage holds every reading between its minima and maxima, and an axis that
/// spans enough has two readings that far apart.
pub proof fn law_coverage_holds_every_reading(fields: Seq<MagVector>, i: int)
    requires
        fields.len() < u32::MAX,
        0 <= i < fields.len(),
    ensures
        coverage_of(fields).samples == fields.len(),
        coverage_of(fields).min.x <= fields[i].x <= coverage_of(fields).max.x,
        coverage_of(fields).min.y <= fields[i].y <= coverage_of(fields).max.y,
        coverage_of(fields).min.z <= fields[i].z <= coverage_of(fields).max.z,
        exists|j: int| 0 <= j < fields.len() && (#[trigger] fields[j]).x == coverage_of(fields).min.x,
        exists|j: int| 0 <= j < fields.len() && (#[trigger] fields[j]).x == coverage_of(fields).max.x,
        exists|j: int| 0 <= j < fields.len() && (#[trigger] fields[j]).y == coverage_of(fields).min.y,
        exists|j: int| 0 <= j < fields.len() && (#[trigger] fields[j]).y == coverage_of(fields).max.y,
        exists|j: int| 0 <= j < fields.len() && (#[trigger] fields[j]).z == coverage_of(fields).min.z,
        exists|j: int| 0 <= j < fields.len() && (#[trigger] fields[j]).z == coverage_of(fields).max.z,
    decreases fields.len(),
{
    let rest = fields.drop_last();
    let last = fields.len() - 1;
    assert(fields[last] == fields.last());
    if rest.len() == 0 {
        assert(coverage_of(rest) == no_coverage());
        assert(fields[0] == fields.last());
    } else {
        let k = if i < last {
            i
        } else {
            0
        };
        law_coverage_holds_every_reading(rest, k);
        let held = coverage_of(rest);
        let a = choose|j: int| 0 <= j < rest.len() && (#[trigger] rest[j]).x == held.min.x;
        let b = choose|j: int| 0 <= j < rest.len() && (#[trigger] rest[j]).x == held.max.x;
        let c = choose|j: int| 0 <= j < rest.len() && (#[trigger] rest[j]).y == held.min.y;
        let d = choose|j: int| 0 <= j < rest.len() && (#[trigger] rest[j]).y == held.max.y;
        let e = choose|j: int| 0 <= j < rest.len() && (#[trigger] rest[j]).z == held.min.z;
        let f = choose|j: int| 0 <= j < rest.len() && (#[trigger] rest[j]).z == held.max.z;
        assert(fields[a] == rest[a]);
        assert(fields[b] == rest[b]);
        assert(fields[c] == rest[c]);
        assert(fields[d] == rest[d]);
        assert(fields[e] == rest[e]);
        assert(fields[f] == rest[f]);
        if i < last {
            assert(fields[i] == rest[i]);
        }
    }
}

/// The heading, followed across half a turn, and how far it has swung.
#[derive(Debug, Clone, Copy, PartialEq, Eq, Structural)]
pub struct HeadingSwing {
    /// The last heading.
    pub last: Option<i32>,
    /// The full turns added so far.
    pub offset: i64,
    /// Smallest followed heading.
    pub min: i64,
    /// Largest followed heading.
    pub max: i64,
}

/// No heading yet.
pub open spec fn no_swing() -> HeadingSwing {
    HeadingSwing { last: None, offset: 0, min: i64::MAX, max: i64::MIN }
}

/// The offset after another heading: a jump of more than half a turn is a crossing.
pub open spec fn followed_offset(swing: HeadingSwing, heading: i32) -> int {
    match swing.last {
        None => swing.offset as int,
        Some(last) => if heading - last > HALF_TURN_UDEG {
            swing.offset - FULL_TURN_UDEG
        } else if heading - last < -HALF_TURN_UDEG {
            swing.offset + FULL_TURN_UDEG
        } else {
            swing.offset as int
        },
    }
}

/// The swing after another heading.
pub open spec fn swung(swing: HeadingSwing, heading: i32) -> HeadingSwing {
    let offset = followed_offset(swing, heading);
    let followed = heading + offset;
    HeadingSwing {
        last: Some(heading),
        offset: offset as i64,
        min: (if followed < swing.min {
            followed
        } else {
            swing.min as int
        }) as i64,
        max: (if followed > swing.max {
            followed
        } else {
            swing.max as int
        }) as i64,
    }
}

impl HeadingSwing {
    /// After so many headings the offset is at most as many full turns.
    pub open spec fn wf(self, samples: u32) -> bool {
        &&& -FULL_TURN_UDEG * samples <= self.offset <= FULL_TURN_UDEG * samples
        &&& self.last is None ==> self == no_swing()
        &&& self.last is Some ==> {
            &&& -0x2000_0000_0000_0000 <= self.min <= 0x2000_0000_0000_0000
            &&& -0x2000_0000_0000_0000 <= self.max <= 0x2000_0000_0000_0000
        }
    }

    /// No heading yet.
    pub fn new() -> (swing: Self)
        ensures
            swing == no_swing(),
            swing.wf(0),
    {
        HeadingSwing { last: None, offset: 0, min: i64::MAX, max: i64::MIN }
    }

    /// Follow a heading; the number of those followed before is given.
    pub fn follow(&mut self, heading: i32, samples: u32)
        requires
            old(self).wf(samples),
            samples < u32::MAX,
        ensures
            *final(self) == swung(*old(self), heading),
            final(self).wf((samples + 1) as u32),
    {
        assert(-1_546_188_226_200_000_000 <= self.offset <= 1_546_188_226_200_000_000) by {
            assert(FULL_TURN_UDEG * samples <= 1_546_188_226_200_000_000);
        }
        if let Some(last) = self.last {
            let delta: i64 = heading as i64 - last as i64;
            if delta > HALF_TURN_UDEG {
                self.offset = self.offset - FULL_TURN_UDEG;
            } else if delta < -HALF_TURN_UDEG {
                self.offset = self.offset + FULL_TURN_UDEG;
            }
        }
        self.last = Some(heading);
        let followed: i64 = heading as i64 + self.offset;
        if followed < self.min {
            self.min = followed;
        }
        if followed > self.max {
            self.max = followed;
        }
    }

    /// Whether the heading has swung at least this far.
    pub fn reaches(&self, span_udeg: i64, samples: u32) -> (reached: bool)
        requires
            self.wf(samples),
            0 < span_udeg <= FULL_TURN_UDEG,
        ensures
            reached <==> self.max - self.min >= span_udeg,
    {
        match self.last {
            None => false,
            Some(_) => self.max - self.min >= span_udeg,
        }
    }
}

/// Following a heading never jumps: a step that changes the heading by less than half
/// a turn either way round moves the followed heading by exactly that.
pub proof fn law_following_is_continuous(swing: HeadingSwing, last: i32, turned: int)
    requires
        swing.last == Some(last),
        -HALF_TURN_UDEG <= last <= HALF_TURN_UDEG,
        -HALF_TURN_UDEG < turned < HALF_TURN_UDEG,
        swing.wf(u32::MAX),
    ensures
        ({
            let straight = last + turned;
            let heading = if straight > HALF_TURN_UDEG {
                straight - FULL_TURN_UDEG
            } else if straight < -HALF_TURN_UDEG {
                straight + FULL_TURN_UDEG
            } else {
                straight
            };
            heading + followed_offset(swing, heading as i32) == last + swing.offset + turned
        }),
{
}

/// The hard-iron bias of a coverage: the middle of each axis, rounded down.
pub open spec fn bias_of(coverage: MagCoverage) -> MagVector {
    MagVector {
        x: ((coverage.max.x + coverage.min.x) / 2) as i32,
        y: ((coverage.max.y + coverage.min.y) / 2) as i32,
        z: ((coverage.max.z + coverage.min.z) / 2) as i32,
    }
}

/// A soft-iron scale in parts per million: the mean span over the axis's own.
pub open spec fn scale_for(sum: int, range: int) -> int {
    sum * 1_000_000 / (3 * range)
}

/// The sum of a coverage's spans.
pub open spec fn span_sum(coverage: MagCoverage) -> int {
    (coverage.max.x - coverage.min.x) + (coverage.max.y - coverage.min.y) + (coverage.max.z
        - coverage.min.z)
}

/// The soft-iron scale of a coverage.
pub open spec fn scale_of(coverage: MagCoverage) -> MagScale {
    let sum = span_sum(coverage);
    MagScale {
        x: scale_for(sum, coverage.max.x - coverage.min.x) as i32,
        y: scale_for(sum, coverage.max.y - coverage.min.y) as i32,
        z: scale_for(sum, coverage.max.z - coverage.min.z) as i32,
    }
}

/// A calibrated bias and scale stay within what a covered sensor can give.
pub open spec fn scale_fits(scale: MagScale) -> bool {
    &&& 0 <= scale.x <= 700_000_000
    &&& 0 <= scale.y <= 700_000_000
    &&& 0 <= scale.z <= 700_000_000
}

/// Half of a sum, rounded down.
fn halve(sum: i32) -> (half: i32)
    requires
        -0x4000_0000 <= sum <= 0x4000_0000,
    ensures
        half == sum as int / 2,
        sum >= -20_000_000 && sum <= 20_000_000 ==> -FULL_SCALE_NT <= half <= FULL_SCALE_NT,
{
    if sum >= 0 {
        sum / 2
    } else {
        -((1 - sum) / 2)
    }
}

/// One soft-iron scale.
fn scale_axis(sum: i64, range: i64) -> (scale_ppm: i32)
    requires
        0 <= sum <= 60_000_000,
        RANGE_MIN_NT <= range,
        range <= 20_000_000,
    ensures
        scale_ppm == scale_for(sum as int, range as int),
        0 <= scale_ppm <= 700_000_000,
{
    let scale: i64 = sum * 1_000_000 / (3 * range);
    assert(0 <= scale <= 700_000_000) by (nonlinear_arith)
        requires
            0 <= sum <= 60_000_000,
            30_000 <= range,
            scale == sum * 1_000_000 / (3 * range),
    ;
    scale as i32
}

/// Compute bias and scale from a coverage whose three axes all span enough.
pub fn fit(coverage: &MagCoverage) -> (fit: (MagVector, MagScale))
    requires
        coverage.wf(),
        coverage.samples > 0,
        axes_covered(*coverage) == 3,
    ensures
        fit.0 == bias_of(*coverage),
        fit.1 == scale_of(*coverage),
        readable(fit.0),
        scale_fits(fit.1),
{
    let (x, y, z) = coverage.ranges();
    let sum = x + y + z;
    (
        MagVector {
            x: halve(coverage.max.x + coverage.min.x),
            y: halve(coverage.max.y + coverage.min.y),
            z: halve(coverage.max.z + coverage.min.z),
        },
        MagScale { x: scale_axis(sum, x), y: scale_axis(sum, y), z: scale_axis(sum, z) },
    )
}

/// One axis corrected for bias and scale.
pub open spec fn scaled(value: int, bias: i32, scale_ppm: i32) -> int {
    motor_driver::rounded((value - bias) * scale_ppm, 1_000_000)
}

/// The squared magnitude of a field corrected for interference, bias and scale.
pub open spec fn corrected_square(
    field: MagVector,
    interference: MagVector,
    bias: MagVector,
    scale: MagScale,
) -> int {
    let x = scaled(field.x - interference.x, bias.x, scale.x);
    let y = scaled(field.y - interference.y, bias.y, scale.y);
    let z = scaled(field.z - interference.z, bias.z, scale.z);
    x * x + y * y + z * z
}

/// Whether the roots of two squares are at most `delta` apart, decided without
/// roots: `sqrt(a) - sqrt(b) <= delta` exactly where `a - b - delta^2` is at most
/// twice `delta * sqrt(b)`.
pub open spec fn roots_within(a: int, b: int, delta: int) -> bool {
    &&& a - b - delta * delta <= 0 || (a - b - delta * delta) * (a - b - delta * delta) <= 4 * (
    delta * delta) * b
    &&& b - a - delta * delta <= 0 || (b - a - delta * delta) * (b - a - delta * delta) <= 4 * (
    delta * delta) * a
}

/// On squares of integers the comparison is the one of the integers.
pub proof fn law_roots_within_compares_roots(x: int, y: int, delta: int)
    requires
        0 <= x,
        0 <= y,
        0 <= delta,
    ensures
        roots_within(x * x, y * y, delta) <==> -delta <= x - y <= delta,
{
    lemma_one_side(x, y, delta);
    lemma_one_side(y, x, delta);
}

/// One side of the comparison of roots.
proof fn lemma_one_side(x: int, y: int, delta: int)
    requires
        0 <= x,
        0 <= y,
        0 <= delta,
    ensures
        ({
            let excess = x * x - y * y - delta * delta;
            (excess <= 0 || excess * excess <= 4 * (delta * delta) * (y * y)) <==> x - y <= delta
        }),
{
    let excess = x * x - y * y - delta * delta;
    let bound = 2 * delta * y;
    assert(bound >= 0) by (nonlinear_arith)
        requires
            delta >= 0,
            y >= 0,
            bound == 2 * delta * y,
    ;
    assert(bound * bound == 4 * (delta * delta) * (y * y)) by (nonlinear_arith)
        requires
            bound == 2 * delta * y,
    ;
    assert(x - y <= delta <==> excess <= bound) by {
        assert((y + delta) * (y + delta) == y * y + bound + delta * delta) by (nonlinear_arith)
            requires
                bound == 2 * delta * y,
        ;
        if x - y <= delta {
            assert(x * x <= (y + delta) * (y + delta)) by (nonlinear_arith)
                requires
                    0 <= x <= y + delta,
            ;
        } else {
            assert(x * x > (y + delta) * (y + delta)) by (nonlinear_arith)
                requires
                    0 <= y + delta < x,
            ;
        }
    }
    if excess > 0 {
        assert(excess <= bound <==> excess * excess <= bound * bound) by (nonlinear_arith)
            requires
                excess > 0,
                bound >= 0,
        ;
    }
}

/// Whether a corrected field is acceptable next to the baseline, both squared.
pub open spec fn acceptable(square: int, baseline_square: int) -> bool {
    &&& VERIFY_MIN_NT * VERIFY_MIN_NT <= square <= VERIFY_MAX_NT * VERIFY_MAX_NT
    &&& roots_within(square, baseline_square, VERIFY_MAX_DELTA_NT as int)
}

/// A size bound on one corrected axis.
proof fn lemma_scaled_fits(value: int, scale_ppm: int)
    requires
        -40_000_000 <= value <= 40_000_000,
        0 <= scale_ppm <= 700_000_000,
    ensures
        -28_000_000_000_000_000 <= value * scale_ppm <= 28_000_000_000_000_000,
        -28_000_000_001 <= motor_driver::rounded(value * scale_ppm, 1_000_000) <= 28_000_000_001,
{
    assert(-28_000_000_000_000_000 <= value * scale_ppm <= 28_000_000_000_000_000)
        by (nonlinear_arith)
        requires
            -40_000_000 <= value <= 40_000_000,
            0 <= scale_ppm <= 700_000_000,
    ;
    let product = value * scale_ppm;
    assert(2 * 1_000_000 == 2_000_000);
    assert((2 * product + 1_000_000) / 2_000_000 <= 28_000_000_001);
    assert(product >= 0 ==> (2 * product + 1_000_000) / 2_000_000 >= 0);
    assert((2 * -product + 1_000_000) / 2_000_000 <= 28_000_000_001);
    assert(product <= 0 ==> (2 * -product + 1_000_000) / 2_000_000 >= 0);
}

/// Correct one axis.
fn scale_value(value: i64, bias: i32, scale_ppm: i32) -> (corrected: i64)
    requires
        -30_000_000 <= value <= 30_000_000,
        -FULL_SCALE_NT <= bias <= FULL_SCALE_NT,
        0 <= scale_ppm <= 700_000_000,
    ensures
        corrected == scaled(value as int, bias, scale_ppm),
        -28_000_000_001 <= corrected <= 28_000_000_001,
{
    let offset: i64 = value - bias as i64;
    proof {
        lemma_scaled_fits(offset as int, scale_ppm as int);
    }
    let product: i64 = offset * scale_ppm as i64;
    if product >= 0 {
        (2 * product + 1_000_000) / 2_000_000
    } else {
        -((2 * -product + 1_000_000) / 2_000_000)
    }
}

/// The squared magnitude of a corrected field.
pub fn square_of(
    field: MagVector,
    interference: MagVector,
    bias: MagVector,
    scale: MagScale,
) -> (square: i128)
    requires
        readable(field),
        -20_000_000 <= interference.x <= 20_000_000,
        -20_000_000 <= interference.y <= 20_000_000,
        -20_000_000 <= interference.z <= 20_000_000,
        readable(bias),
        scale_fits(scale),
    ensures
        square == corrected_square(field, interference, bias, scale),
        0 <= square <= 3_000_000_000_000_000_000_000,
{
    let x: i128 = scale_value(field.x as i64 - interference.x as i64, bias.x, scale.x) as i128;
    let y: i128 = scale_value(field.y as i64 - interference.y as i64, bias.y, scale.y) as i128;
    let z: i128 = scale_value(field.z as i64 - interference.z as i64, bias.z, scale.z) as i128;
    proof {
        lemma_square_fits(x as int);
        lemma_square_fits(y as int);
        lemma_square_fits(z as int);
    }
    x * x + y * y + z * z
}

/// A size bound on a square.
proof fn lemma_square_fits(value: int)
    requires
        -28_000_000_001 <= value <= 28_000_000_001,
    ensures
        0 <= value * value <= 1_000_000_000_000_000_000_000,
{
    assert(0 <= value * value <= 1_000_000_000_000_000_000_000) by (nonlinear_arith)
        requires
            -28_000_000_001 <= value <= 28_000_000_001,
    ;
}

/// Decide whether a corrected field is acceptable.
pub fn accept(square: i128, baseline_square: i128) -> (accepted: bool)
    requires
        0 <= square <= 3_000_000_000_000_000_000_000,
        0 <= baseline_square <= 3_000_000_000_000_000_000_000,
    ensures
        accepted == acceptable(square as int, baseline_square as int),
{
    assert(VERIFY_MIN_NT * VERIFY_MIN_NT == 400_000_000);
    assert(VERIFY_MAX_NT * VERIFY_MAX_NT == 40_000_000_000);
    assert(VERIFY_MAX_DELTA_NT * VERIFY_MAX_DELTA_NT == 400_000_000);
    if square < 400_000_000 || square > 40_000_000_000 {
        return false;
    }
    let above: i128 = square - baseline_square - 400_000_000;
    let below: i128 = baseline_square - square - 400_000_000;
    if above > 0 {
        assert(0 < above * above <= 40_000_000_000 * 40_000_000_000) by (nonlinear_arith)
            requires
                0 < above <= 40_000_000_000,
        ;
        if above * above > 1_600_000_000 * baseline_square {
            return false;
        }
    }
    if below > 0 {
        if below > 8_000_000_000 {
            assert(below * below > 1_600_000_000 * square) by (nonlinear_arith)
                requires
                    below > 8_000_000_000,
                    0 <= square <= 40_000_000_000,
            ;
            return false;
        }
        assert(0 < below * below <= 8_000_000_000 * 8_000_000_000) by (nonlinear_arith)
            requires
                0 < below <= 8_000_000_000,
        ;
        if below * below > 1_600_000_000 * square {
            return false;
        }
    }
    true
}

/// The motors' field measured so far, at half and at full speed.
#[derive(Debug, Clone, Copy, PartialEq, Eq, Structural)]
pub struct InterferenceData {
    /// At half speed.
    pub at_50: TrackInterference,
    /// At full speed.
    pub at_100: TrackInterference,
}

/// One step of the interference measurement.
#[derive(Debug, Clone, Copy, PartialEq, Eq)]
pub struct InterferenceStep {
    /// The line shown.
    pub label: &'static str,
    /// Left track command.
    pub left: i8,
    /// Right track command.
    pub right: i8,
}

/// How many steps the measurement has.
pub const INTERFERENCE_STEPS: usize = 6;

/// The steps, in order: both tracks, the left one, the right one, each at half and
/// at full speed.
pub open spec fn step_at(index: usize) -> InterferenceStep {
    if index == 0 {
        InterferenceStep { label: "All 50%", left: 50, right: 50 }
    } else if index == 1 {
        InterferenceStep { label: "All 100%", left: 100, right: 100 }
    } else if index == 2 {
        InterferenceStep { label: "Left 50%", left: 50, right: 0 }
    } else if index == 3 {
        InterferenceStep { label: "Left 100%", left: 100, right: 0 }
    } else if index == 4 {
        InterferenceStep { label: "Right 50%", left: 0, right: 50 }
    } else {
        InterferenceStep { label: "Right 100%", left: 0, right: 100 }
    }
}

/// The step at an index.
pub fn interference_step(index: usize) -> (step: InterferenceStep)
    ensures
        step == step_at(index),
{
    if index == 0 {
        InterferenceStep { label: "All 50%", left: 50, right: 50 }
    } else if index == 1 {
        InterferenceStep { label: "All 100%", left: 100, right: 100 }
    } else if index == 2 {
        InterferenceStep { label: "Left 50%", left: 50, right: 0 }
    } else if index == 3 {
        InterferenceStep { label: "Left 100%", left: 100, right: 0 }
    } else if index == 4 {
        InterferenceStep { label: "Right 50%", left: 0, right: 50 }
    } else {
        InterferenceStep { label: "Right 100%", left: 0, right: 100 }
    }
}

/// Nothing measured yet.
pub open spec fn no_data() -> InterferenceData {
    InterferenceData { at_50: imu::no_interference(), at_100: imu::no_interference() }
}

/// The data with the field of one step stored.
pub open spec fn with_step(data: InterferenceData, index: usize, field: MagVector) -> InterferenceData {
    if index == 0 {
        InterferenceData { at_50: TrackInterference { both: field, ..data.at_50 }, ..data }
    } else if index == 1 {
        InterferenceData { at_100: TrackInterference { both: field, ..data.at_100 }, ..data }
    } else if index == 2 {
        InterferenceData { at_50: TrackInterference { left: field, ..data.at_50 }, ..data }
    } else if index == 3 {
        InterferenceData { at_100: TrackInterference { left: field, ..data.at_100 }, ..data }
    } else if index == 4 {
        InterferenceData { at_50: TrackInterference { right: field, ..data.at_50 }, ..data }
    } else {
        InterferenceData { at_100: TrackInterference { right: field, ..data.at_100 }, ..data }
    }
}

/// The field of one step.
pub open spec fn field_of(data: InterferenceData, index: usize) -> MagVector {
    if index == 0 {
        data.at_50.both
    } else if index == 1 {
        data.at_100.both
    } else if index == 2 {
        data.at_50.left
    } else if index == 3 {
        data.at_100.left
    } else if index == 4 {
        data.at_50.right
    } else {
        data.at_100.right
    }
}

/// A difference of two readable fields.
pub open spec fn difference_fits(field: MagVector) -> bool {
    &&& -20_000_000 <= field.x <= 20_000_000
    &&& -20_000_000 <= field.y <= 20_000_000
    &&& -20_000_000 <= field.z <= 20_000_000
}

impl InterferenceData {
    /// Every stored field is a difference of two readings.
    pub open spec fn wf(self) -> bool {
        &&& difference_fits(self.at_50.both)
        &&& difference_fits(self.at_50.left)
        &&& difference_fits(self.at_50.right)
        &&& difference_fits(self.at_100.both)
        &&& difference_fits(self.at_100.left)
        &&& difference_fits(self.at_100.right)
    }

    /// Nothing measured yet.
    pub fn new() -> (data: Self)
        ensures
            data == no_data(),
            data.wf(),
    {
        let none = MagVector { x: 0, y: 0, z: 0 };
        let still = TrackInterference { both: none, left: none, right: none };
        InterferenceData { at_50: still, at_100: still }
    }

    /// Store the field of a step.
    pub fn set(&mut self, index: usize, field: MagVector)
        ensures
            *final(self) == with_step(*old(self), index, field),
            old(self).wf() && difference_fits(field) ==> final(self).wf(),
    {
        if index == 0 {
            self.at_50.both = field;
        } else if index == 1 {
            self.at_100.both = field;
        } else if index == 2 {
            self.at_50.left = field;
        } else if index == 3 {
            self.at_100.left = field;
        } else if index == 4 {
            self.at_50.right = field;
        } else {
            self.at_100.right = field;
        }
    }

    /// The field of a step.
    pub fn vector_for(&self, index: usize) -> (field: MagVector)
        ensures
            field == field_of(*self, index),
            self.wf() ==> difference_fits(field),
    {
        if index == 0 {
            self.at_50.both
        } else if index == 1 {
            self.at_100.both
        } else if index == 2 {
            self.at_50.left
        } else if index == 3 {
            self.at_100.left
        } else if index == 4 {
            self.at_50.right
        } else {
            self.at_100.right
        }
    }
}

/// What a step stores is read back for that step, and no other step's field changes.
pub proof fn law_steps_keep_apart(data: InterferenceData, index: usize, other: usize, field: MagVector)
    requires
        index < INTERFERENCE_STEPS,
        other < INTERFERENCE_STEPS,
    ensures
        field_of(with_step(data, index, field), index) == field,
        index != other ==> field_of(with_step(data, index, field), other) == field_of(data, other),
{
}

/// The calibration data a finished procedure gives.
pub open spec fn result_of(
    bias: MagVector,
    scale: MagScale,
    data: InterferenceData,
) -> MagCalibration {
    MagCalibration { bias, scale, interference_50: data.at_50, interference_100: data.at_100 }
}

/// The bias is the middle of what was read on each axis: as far from the largest reading as
/// from the smallest, but for half a nanotesla.
pub proof fn law_bias_is_the_middle(coverage: MagCoverage)
    requires
        coverage.wf(),
        coverage.samples > 0,
    ensures
        ({
            let bias = bias_of(coverage);
            let (min, max) = (coverage.min, coverage.max);
            &&& 0 <= (max.x - bias.x) - (bias.x - min.x) <= 1
            &&& 0 <= (max.y - bias.y) - (bias.y - min.y) <= 1
            &&& 0 <= (max.z - bias.z) - (bias.z - min.z) <= 1
        }),
{
}

/// The scale evens the axes out: an axis's span times its scale is the mean of the three
/// spans, up to the rounding of one millionth.
pub proof fn law_scale_evens_out_the_spans(coverage: MagCoverage)
    requires
        coverage.wf(),
        coverage.samples > 0,
        axes_covered(coverage) == 3,
    ensures
        ({
            let scale = scale_of(coverage);
            let x = coverage.max.x - coverage.min.x;
            let y = coverage.max.y - coverage.min.y;
            let z = coverage.max.z - coverage.min.z;
            let mean = (x + y + z) * 1_000_000;
            &&& 3 * x * scale.x <= mean < 3 * x * (scale.x + 1)
            &&& 3 * y * scale.y <= mean < 3 * y * (scale.y + 1)
            &&& 3 * z * scale.z <= mean < 3 * z * (scale.z + 1)
        }),
{
    let sum = span_sum(coverage);
    lemma_scale_evens(sum, coverage.max.x - coverage.min.x);
    lemma_scale_evens(sum, coverage.max.y - coverage.min.y);
    lemma_scale_evens(sum, coverage.max.z - coverage.min.z);
}

proof fn lemma_scale_evens(sum: int, range: int)
    requires
        0 <= sum <= 60_000_000,
        30_000 <= range,
    ensures
        0 <= scale_for(sum, range) <= 700_000_000,
        3 * range * scale_for(sum, range) <= sum * 1_000_000 < 3 * range * (scale_for(sum, range)
            + 1),
{
    let scale = scale_for(sum, range);
    assert(0 <= scale <= 700_000_000 && 3 * range * scale <= sum * 1_000_000 < 3 * range * (scale
        + 1)) by (nonlinear_arith)
        requires
            0 <= sum <= 60_000_000,
            30_000 <= range,
            scale == sum * 1_000_000 / (3 * range),
    ;
}

/// A corrected field is the reading less the motors' field and the bias, scaled, to the
/// nearest nanotesla on each axis, and its square is the sum of theirs.
pub proof fn law_corrected_square_sums_the_axes(
    field: MagVector,
    interference: MagVector,
    bias: MagVector,
    scale: MagScale,
)
    ensures
        exists|x: int, y: int, z: int| {
            &&& #[trigger] motor_driver::is_nearest(
                x,
                (field.x - interference.x - bias.x) * scale.x,
                1_000_000,
            )
            &&& #[trigger] motor_driver::is_nearest(
                y,
                (field.y - interference.y - bias.y) * scale.y,
                1_000_000,
            )
            &&& #[trigger] motor_driver::is_nearest(
                z,
                (field.z - interference.z - bias.z) * scale.z,
                1_000_000,
            )
            &&& corrected_square(field, interference, bias, scale) == x * x + y * y + z * z
        },
{
    let x = scaled(field.x - interference.x, bias.x, scale.x);
    let y = scaled(field.y - interference.y, bias.y, scale.y);
    let z = scaled(field.z - interference.z, bias.z, scale.z);
    motor_driver::law_rounded_is_nearest(
        (field.x - interference.x - bias.x) * scale.x,
        1_000_000,
    );
    motor_driver::law_rounded_is_nearest(
        (field.y - interference.y - bias.y) * scale.y,
        1_000_000,
    );
    motor_driver::law_rounded_is_nearest(
        (field.z - interference.z - bias.z) * scale.z,
        1_000_000,
    );
    assert(motor_driver::is_nearest(
        x,
        (field.x - interference.x - bias.x) * scale.x,
        1_000_000,
    ));
    assert(motor_driver::is_nearest(
        y,
        (field.y - interference.y - bias.y) * scale.y,
        1_000_000,
    ));
    assert(motor_driver::is_nearest(
        z,
        (field.z - interference.z - bias.z) * scale.z,
        1_000_000,
    ));
}

/// A verified field has a magnitude of twenty to two hundred microtesla and lies within
/// twenty of the baseline's.
pub proof fn law_acceptance_compares_magnitudes(magnitude: int, baseline: int)
    requires
        0 <= magnitude,
        0 <= baseline,
    ensures
        acceptable(magnitude * magnitude, baseline * baseline) <==> 20_000 <= magnitude <= 200_000
            && -20_000 <= magnitude - baseline <= 20_000,
{
    law_roots_within_compares_roots(magnitude, baseline, 20_000);
    assert(VERIFY_MIN_NT * VERIFY_MIN_NT == 400_000_000);
    assert(VERIFY_MAX_NT * VERIFY_MAX_NT == 40_000_000_000);
    assert(400_000_000 <= magnitude * magnitude <==> 20_000 <= magnitude) by (nonlinear_arith)
        requires
            0 <= magnitude,
    ;
    assert(magnitude * magnitude <= 40_000_000_000 <==> magnitude <= 200_000) by (nonlinear_arith)
        requires
            0 <= magnitude,
    ;
}

/// A step's field is kept for the tracks and the speed that the step runs: both, the left
/// or the right one, at half or at full speed. No track runs backward, and every step runs
/// at one of the two speeds.
pub proof fn law_step_field_belongs_to_its_tracks(
    data: InterferenceData,
    index: usize,
    field: MagVector,
)
    requires
        index < INTERFERENCE_STEPS,
    ensures
        ({
            let step = step_at(index);
            let after = with_step(data, index, field);
            let speed = if step.left > step.right {
                step.left
            } else {
                step.right
            };
            let kept = if speed == 50 {
                after.at_50
            } else {
                after.at_100
            };
            &&& speed == 50 || speed == 100
            &&& step.left == speed || step.left == 0
            &&& step.right == speed || step.right == 0
            &&& step.left == speed && step.right == speed ==> kept.both == field
            &&& step.left == speed && step.right == 0 ==> kept.left == field
            &&& step.left == 0 && step.right == speed ==> kept.right == field
            &&& speed == 50 ==> after.at_100 == data.at_100
            &&& speed == 100 ==> after.at_50 == data.at_50
            &&& speed == 50 <==> index % 2 == 0
        }),
{
}

/// Every step runs the tracks otherwise than any other.
pub proof fn law_steps_are_distinct(index: usize, other: usize)
    requires
        index < other < INTERFERENCE_STEPS,
    ensures
        step_at(index).left != step_at(other).left || step_at(index).right != step_at(other).right,
{
}

/// The result keeps what was found under its own name: the fields at half speed as those at
/// half speed, those at full speed as those at full speed.
pub proof fn law_result_keeps_its_parts(bias: MagVector, scale: MagScale, data: InterferenceData)
    ensures
        ({
            let result = result_of(bias, scale, data);
            &&& result.bias == bias
            &&& result.scale == scale
            &&& result.interference_50 == data.at_50
            &&& result.interference_100 == data.at_100
        }),
{
}

/// Three axes are covered exactly where each spans thirty microtesla, and an axis that does
/// not is missing from the count.
pub proof fn law_axes_are_counted(coverage: MagCoverage)
    ensures
        ({
            let x = coverage.max.x - coverage.min.x >= 30_000;
            let y = coverage.max.y - coverage.min.y >= 30_000;
            let z = coverage.max.z - coverage.min.z >= 30_000;
            let axes = axes_covered(coverage);
            &&& 0 <= axes <= 3
            &&& axes == 3 <==> x && y && z
            &&& axes >= 2 <==> (x && y) || (x && z) || (y && z)
            &&& axes >= 1 <==> x || y || z
        }),
{
}

/// The swing remembers the last heading and spans every heading followed: the first one
/// spans nothing, and each widens the span just to where it was followed.
pub proof fn law_swing_spans_what_was_followed(swing: HeadingSwing, heading: i32, samples: u32)
    requires
        swing.wf(samples),
        samples < u32::MAX,
    ensures
        ({
            let after = swung(swing, heading);
            let followed = heading + after.offset;
            &&& after.last == Some(heading)
            &&& after.min <= followed <= after.max
            &&& swing.last is None ==> after.min == after.max && after.offset == 0
            &&& swing.last is Some ==> after.min <= swing.min && swing.max <= after.max
            &&& swing.last is Some ==> after.min == swing.min || after.min == followed
            &&& swing.last is Some ==> after.max == swing.max || after.max == followed
        }),
{
    assert(FULL_TURN_UDEG * samples <= 1_546_188_226_200_000_000);
}

/// Whatever coverage is fitted, the bias halves each axis's span and the scale brings the
/// three spans to their mean.
pub proof fn law_fit_centres_and_evens_out(coverage: &MagCoverage, fitted: (MagVector, MagScale))
    requires
        coverage.wf(),
        coverage.samples > 0,
        axes_covered(*coverage) == 3,
        call_ensures(fit, (coverage,), fitted),
    ensures
        ({
            let (bias, scale) = fitted;
            let (min, max) = (coverage.min, coverage.max);
            let (x, y, z) = (max.x - min.x, max.y - min.y, max.z - min.z);
            let mean = (x + y + z) * 1_000_000;
            &&& 0 <= (max.x - bias.x) - (bias.x - min.x) <= 1
            &&& 0 <= (max.y - bias.y) - (bias.y - min.y) <= 1
            &&& 0 <= (max.z - bias.z) - (bias.z - min.z) <= 1
            &&& 3 * x * scale.x <= mean < 3 * x * (scale.x + 1)
            &&& 3 * y * scale.y <= mean < 3 * y * (scale.y + 1)
            &&& 3 * z * scale.z <= mean < 3 * z * (scale.z + 1)
        }),
{
    law_bias_is_the_middle(*coverage);
    law_scale_evens_out_the_spans(*coverage);
}

/// Whatever is stored for a step is read back for it, and for no other step.
pub proof fn law_step_fields_read_back(
    data: &mut InterferenceData,
    index: usize,
    other: usize,
    field: MagVector,
)
    requires
        index < 6,
        other < 6,
        call_ensures(InterferenceData::set, (data, index, field), ()),
    ensures
        field_of(*final(data), index) == field,
        other != index ==> field_of(*final(data), other) == field_of(*old(data), other),
{
}

/// Taking a field out of another takes each axis out of its own.
pub proof fn law_subtraction_goes_by_axis(field: MagVector, other: MagVector, result: MagVector)
    requires
        call_ensures(subtract_mag, (field, other), result),
    ensures
        result.x + other.x == field.x,
        result.y + other.y == field.y,
        result.z + other.z == field.z,
{
}

/// A span reaches what is asked for exactly where its ends lie that far apart.
pub proof fn law_ranges_span_the_extremes(
    coverage: &MagCoverage,
    swing: &HeadingSwing,
    span_udeg: i64,
    samples: u32,
    ranges: (i64, i64, i64),
    reached: bool,
)
    requires
        call_ensures(MagCoverage::ranges, (coverage,), ranges),
        call_ensures(HeadingSwing::reaches, (swing, span_udeg, samples), reached),
    ensures
        ranges.0 + coverage.min.x == coverage.max.x,
        ranges.1 + coverage.min.y == coverage.max.y,
        ranges.2 + coverage.min.z == coverage.max.z,
        reached <==> swing.min + span_udeg <= swing.max,
{
}

} // verus!
