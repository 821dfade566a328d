//! Types shared by the decoding, reduction and driver stages.

use vstd::prelude::*;

verus! {

/// Microdegrees in one degree.
pub const UDEG_PER_DEG: u32 = 1_000_000;

/// Microdegrees in a full circle.
pub const FULL_CIRCLE_UDEG: u32 = 360_000_000;

/// Points per revolution the sensor emits at its native 0.9 degree resolution.
pub const NATIVE_POINTS: usize = 400;

/// Points one [`Scan`] of the live pipeline can hold.
pub const SCAN_CAPACITY: usize = 512;

/// A measured range in millimetres, never zero.
#[derive(Debug, Clone, Copy, PartialEq, Eq, Structural)]
pub struct RangeMm {
    mm: u16,
}

impl RangeMm {
    #[verifier::type_invariant]
    spec fn measured(self) -> bool {
        self.mm != 0
    }

    /// The range as a number of millimetres.
    pub closed spec fn view(&self) -> u16 {
        self.mm
    }

    /// The range of `mm` millimetres in ghost code.
    pub closed spec fn of(mm: u16) -> Self {
        RangeMm { mm }
    }

    /// A range is determined by its number of millimetres.
    pub broadcast proof fn lemma_of(mm: u16)
        ensures
            (#[trigger] RangeMm::of(mm))@ == mm,
    {
    }

    /// A range of `mm` millimetres, or `None` for the zero reading that means no
    /// return.
    pub fn new(mm: u16) -> (range: Option<Self>)
        ensures
            range == measured_range(mm),
    {
        if mm == 0 {
            None
        } else {
            Some(RangeMm { mm })
        }
    }

    /// The range in millimetres.
    pub fn get(&self) -> (mm: u16)
        ensures
            mm == self@,
            mm != 0,
    {
        proof {
            use_type_invariant(*self);
        }
        self.mm
    }
}

/// The range a raw reading of `mm` millimetres stands for: zero is no return.
pub open spec fn measured_range(mm: u16) -> Option<RangeMm> {
    if mm == 0 {
        None
    } else {
        Some(RangeMm::of(mm))
    }
}

/// A single return, in polar coordinates.
#[derive(Debug, Clone, Copy, PartialEq, Eq, Structural)]
pub struct Point {
    /// Bearing of the return, in microdegrees. A bearing outside one turn stands for
    /// the one within it.
    pub angle_udeg: i64,
    /// Measured range, or `None` when the sensor got no return.
    pub distance_mm: Option<RangeMm>,
    /// Return signal strength. Zero is a valid intensity on a return.
    pub intensity: u8,
}

/// The point of an untouched slot: bearing zero, no return, no signal.
pub open spec fn blank_point() -> Point {
    Point { angle_udeg: 0, distance_mm: None, intensity: 0 }
}

impl Default for Point {
    fn default() -> (point: Self)
        ensures
            point == blank_point(),
    {
        Point { angle_udeg: 0, distance_mm: None, intensity: 0 }
    }
}

/// A single revolution of returns.
///
/// `points` holds up to `N` points; `len` records how many are present.
#[derive(Debug)]
pub struct Scan<const N: usize> {
    /// The points, in the order they were measured. The order wraps through zero
    /// degrees, so the array is not sorted by bearing.
    pub points: [Point; N],
    /// How many of `points` are present.
    pub len: usize,
}

impl<const N: usize> Scan<N> {
    /// The scan claims no more points than it has room for.
    pub open spec fn wf(&self) -> bool {
        self.len <= N
    }

    /// The points that are present.
    pub open spec fn view(&self) -> Seq<Point> {
        self.points@.take(self.len as int)
    }

    /// An empty scan.
    pub fn new() -> (scan: Self)
        ensures
            scan.wf(),
            scan.len == 0,
            scan@ == Seq::<Point>::empty(),
            scan.points@ == Seq::new(N as nat, |i: int| blank_point()),
    {
        let scan = Scan { points: [Point { angle_udeg: 0, distance_mm: None, intensity: 0 }; N], len: 0 };
        assert(scan.points@ =~= Seq::new(N as nat, |i: int| blank_point()));
        assert(scan@ =~= Seq::<Point>::empty());
        scan
    }
}

impl<const N: usize> Clone for Scan<N> {
    fn clone(&self) -> (scan: Self)
        ensures
            scan == *self,
    {
        Scan { points: self.points, len: self.len }
    }
}

impl<const N: usize> Default for Scan<N> {
    fn default() -> (scan: Self)
        ensures
            scan.wf(),
            scan@ == Seq::<Point>::empty(),
            scan.points@ == Seq::new(N as nat, |i: int| blank_point()),
    {
        Scan::new()
    }
}

/// Driver configuration.
#[derive(Debug, Clone, Copy, PartialEq, Eq, Structural)]
pub struct Config {
    /// Whether bearings get the distance-dependent correction.
    pub angle_correction: bool,
}

impl Default for Config {
    fn default() -> (config: Self)
        ensures
            config.angle_correction,
    {
        Config { angle_correction: true }
    }
}

/// How several revolutions are combined into one.
#[derive(Debug, Clone, Copy, PartialEq, Eq, Structural)]
pub enum AggregationMethod {
    /// The median across revolutions.
    Median,
    /// The arithmetic mean across revolutions.
    Mean,
}

impl Default for AggregationMethod {
    fn default() -> (method: Self)
        ensures
            method == AggregationMethod::Median,
    {
        AggregationMethod::Median
    }
}

/// Parameters of the reduction of several revolutions.
#[derive(Debug, Clone, Copy, PartialEq, Eq, Structural)]
pub struct AggregationConfig {
    /// Smallest share of revolutions that must report a return for a bucket to be
    /// kept, in parts per million.
    pub validity_ratio_ppm: u32,
    /// How the returns of a bucket are combined.
    pub method: AggregationMethod,
    /// Bucket width in microdegrees. Zero stands for an unusable width.
    pub resolution_udeg: u32,
}

/// Half of the revolutions, the median, and the native 0.9 degree grid.
pub open spec fn default_aggregation() -> AggregationConfig {
    AggregationConfig {
        validity_ratio_ppm: 500_000,
        method: AggregationMethod::Median,
        resolution_udeg: 900_000,
    }
}

impl Default for AggregationConfig {
    fn default() -> (config: Self)
        ensures
            config == default_aggregation(),
    {
        AggregationConfig {
            validity_ratio_ppm: 500_000,
            method: AggregationMethod::Median,
            resolution_udeg: 900_000,
        }
    }
}

/// Parameters of the rotor warm-up.
#[derive(Debug, Clone, Copy, PartialEq, Eq, Structural)]
pub struct WarmupConfig {
    /// A spin is in the settle band when within this many points of
    /// [`NATIVE_POINTS`].
    pub settle_tolerance: usize,
    /// Consecutive spins in the band, or without a new high, that decide.
    pub settle_stable_spins: usize,
    /// Most spins to discard before giving up.
    pub max_spins: usize,
}

impl Default for WarmupConfig {
    fn default() -> (config: Self)
        ensures
            config == (WarmupConfig { settle_tolerance: 3, settle_stable_spins: 12, max_spins: 50 }),
    {
        WarmupConfig { settle_tolerance: 3, settle_stable_spins: 12, max_spins: 50 }
    }
}

/// How a rotor warm-up ended.
#[derive(Debug, Clone, Copy, PartialEq, Eq, Structural)]
pub enum WarmupOutcome {
    /// The rotor reached steady state.
    Settled {
        /// Spins discarded before settling.
        spins: usize,
        /// Point count at which the rotor settled.
        points: usize,
    },
    /// The point count stopped climbing below the settle band.
    Plateaued {
        /// Spins discarded before giving up.
        spins: usize,
        /// Highest point count seen.
        points: usize,
    },
    /// The spin budget ran out first.
    Exhausted {
        /// Spins discarded.
        spins: usize,
    },
}

/// Driver error.
#[derive(Debug, PartialEq, Eq, Structural)]
pub enum Error<UartE, PinE> {
    /// The device-info frame was malformed.
    Resync,
    /// Fatal UART error.
    Uart(UartE),
    /// Power-pin error.
    Pin(PinE),
    /// Data stopped flowing: a byte watchdog ran out or the stream ended.
    Timeout,
}

/// A reading is a range exactly where it is not zero, and then the range it says.
pub proof fn law_zero_is_no_return(mm: u16, range: Option<RangeMm>)
    requires
        call_ensures(RangeMm::new, (mm,), range),
    ensures
        range is None <==> mm == 0,
        range matches Some(range) ==> range@ == mm,
{
}

} // verus!
