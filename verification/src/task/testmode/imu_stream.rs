//! The IMU tests: readings streamed until the operator stops them.

use vstd::prelude::*;

use crate::task::dialogue::{Action, Ask, Turn};
use crate::task::sensors::imu::{DmpFusionMode, MagVector};

verus! {

/// Sampling period, in milliseconds.
pub const SAMPLE_INTERVAL_MS: u64 = 20;

/// Samples between reports, about a second's worth.
pub const LOG_EVERY_TICKS: u32 = 50;

/// Which readings a sample held.
#[derive(Debug, Clone, Copy, PartialEq, Eq, Structural)]
pub struct Present {
    /// The fused orientation.
    pub orientation: bool,
    /// The gyroscope.
    pub gyro: bool,
    /// The magnetometer.
    pub mag: bool,
}

/// Whether a sample held nothing that the mode streams. The magnetometer only counts
/// where it is fused.
pub open spec fn is_missing(mode: DmpFusionMode, present: Present) -> bool {
    !present.orientation && !present.gyro && (mode is Axis6 || !present.mag)
}

/// Strength a field has to exceed to be usable, in nanotesla.
pub const FIELD_MIN_NT: i128 = 20_000;

/// Strength a usable field stays below, in nanotesla.
pub const FIELD_MAX_NT: i128 = 200_000;

/// The squared strength of a field.
pub open spec fn strength_squared(field: MagVector) -> int {
    field.x * field.x + field.y * field.y + field.z * field.z
}

/// Whether a field is strong enough to steer by and no stronger than the earth's can
/// be: its strength lies strictly between the two bounds.
pub fn is_usable_field(field: MagVector) -> (usable: bool)
    ensures
        usable <==> FIELD_MIN_NT * FIELD_MIN_NT < strength_squared(field) < FIELD_MAX_NT * FIELD_MAX_NT,
{
    let x: i128 = field.x as i128;
    let y: i128 = field.y as i128;
    let z: i128 = field.z as i128;
    proof {
        lemma_square_fits(x as int);
        lemma_square_fits(y as int);
        lemma_square_fits(z as int);
    }
    let squared: i128 = x * x + y * y + z * z;
    assert(FIELD_MIN_NT * FIELD_MIN_NT == 400_000_000);
    assert(FIELD_MAX_NT * FIELD_MAX_NT == 40_000_000_000);
    400_000_000 < squared && squared < 40_000_000_000
}

/// A size bound on a square.
proof fn lemma_square_fits(value: int)
    requires
        -0x8000_0000 <= value <= 0x7fff_ffff,
    ensures
        0 <= value * value <= 0x4000_0000_0000_0000,
{
    assert(0 <= value * value <= 0x4000_0000_0000_0000) by (nonlinear_arith)
        requires
            -0x8000_0000 <= value <= 0x7fff_ffff,
    ;
}

/// One sample's outcome.
#[derive(Debug, Clone, Copy, PartialEq, Eq, Structural)]
pub struct Sample {
    /// Whether to report this sample.
    pub report: bool,
    /// How many samples in a row held nothing, up to this one.
    pub missing: u32,
}

/// One run of an IMU test.
#[derive(Debug)]
pub struct ImuStreamRun {
    mode: DmpFusionMode,
    tick: u32,
    missing: u32,
}

impl ImuStreamRun {
    /// The fusion mode streamed.
    pub closed spec fn mode(&self) -> DmpFusionMode {
        self.mode
    }

    /// Samples taken, wrapping.
    pub closed spec fn tick(&self) -> u32 {
        self.tick
    }

    /// Samples in a row that held nothing.
    pub closed spec fn missing(&self) -> u32 {
        self.missing
    }

    /// Begin streaming: the run and its first turn.
    pub fn begin(mode: DmpFusionMode) -> (begun: (Self, Turn))
        ensures
            begun.0.mode() == mode,
            begun.0.tick() == 0,
            begun.0.missing() == 0,
            begun.1@ == (
                seq![
                    Action::StartImu,
                    Action::Delay(30),
                    Action::SetFusion(mode),
                    Action::Phase(
                        match mode {
                            DmpFusionMode::Axis6 => "6-axis streaming",
                            DmpFusionMode::Axis9 => "9-axis streaming",
                        },
                        None,
                    ),
                ],
                Ask::WaitOrStop(SAMPLE_INTERVAL_MS),
            ),
    {
        let phase = match mode {
            DmpFusionMode::Axis6 => "6-axis streaming",
            DmpFusionMode::Axis9 => "9-axis streaming",
        };
        let actions = vec![
            Action::StartImu,
            Action::Delay(30),
            Action::SetFusion(mode),
            Action::Phase(phase, None),
        ];
        (
            ImuStreamRun { mode, tick: 0, missing: 0 },
            Turn::new(actions, Ask::WaitOrStop(SAMPLE_INTERVAL_MS)),
        )
    }

    /// Take one sample, after a wait that no stop cut short.
    pub fn sample(&mut self, present: Present) -> (sample: Sample)
        ensures
            final(self).mode() == old(self).mode(),
            final(self).tick() == (if old(self).tick() == u32::MAX {
                0
            } else {
                old(self).tick() + 1
            }),
            final(self).missing() == (if !is_missing(old(self).mode(), present) {
                0
            } else if old(self).missing() == u32::MAX {
                u32::MAX as int
            } else {
                old(self).missing() + 1
            }),
            sample.missing == final(self).missing(),
            sample.report <==> final(self).tick() % LOG_EVERY_TICKS == 0,
    {
        let mag_counts = match self.mode {
            DmpFusionMode::Axis6 => false,
            DmpFusionMode::Axis9 => true,
        };
        if !present.orientation && !present.gyro && !(mag_counts && present.mag) {
            self.missing = if self.missing == u32::MAX {
                u32::MAX
            } else {
                self.missing + 1
            };
        } else {
            self.missing = 0;
        }
        self.tick = if self.tick == u32::MAX {
            0
        } else {
            self.tick + 1
        };
        Sample { report: self.tick % LOG_EVERY_TICKS == 0, missing: self.missing }
    }

    /// End the run, after a wait that a stop cut short.
    pub fn end(self) -> (turn: Turn)
        ensures
            turn@ == (seq![Action::StopImu, Action::Release], Ask::Over),
    {
        let actions = vec![Action::StopImu, Action::Release];
        Turn::new(actions, Ask::Over)
    }
}

/// The strength of a field is the same from whatever side it is looked at: each axis
/// adds its square, whatever its sign.
pub proof fn law_strength_sums_the_axes(field: MagVector)
    ensures
        strength_squared(field) == strength_squared(MagVector { y: 0, z: 0, ..field })
            + strength_squared(MagVector { x: 0, z: 0, ..field }) + strength_squared(
            MagVector { x: 0, y: 0, ..field },
        ),
        strength_squared(MagVector { y: 0, z: 0, ..field }) == field.x * field.x,
        strength_squared(MagVector { x: 0, z: 0, ..field }) == field.y * field.y,
        strength_squared(MagVector { x: 0, y: 0, ..field }) == field.z * field.z,
{
}

/// A field along one axis is usable between 20 and 200 microtesla, either way round.
pub proof fn law_usable_strengths(strength_nt: i32)
    ensures
        ({
            let squared = strength_squared(MagVector { x: strength_nt, y: 0, z: 0 });
            FIELD_MIN_NT * FIELD_MIN_NT < squared < FIELD_MAX_NT * FIELD_MAX_NT <==> (20_000
                < strength_nt < 200_000 || -200_000 < strength_nt < -20_000)
        }),
{
    let x: int = strength_nt as int;
    assert(FIELD_MIN_NT * FIELD_MIN_NT == 400_000_000);
    assert(FIELD_MAX_NT * FIELD_MAX_NT == 40_000_000_000);
    assert(400_000_000 < x * x < 40_000_000_000 <==> (20_000 < x < 200_000 || -200_000 < x
        < -20_000)) by (nonlinear_arith);
}

/// A sample with an orientation or a gyroscope reading is never missing; the
/// magnetometer makes up for both only where it is fused.
pub proof fn law_missing_samples_hold_nothing(mode: DmpFusionMode, present: Present)
    ensures
        present.orientation || present.gyro ==> !is_missing(mode, present),
        !present.orientation && !present.gyro && !present.mag ==> is_missing(mode, present),
        !present.orientation && !present.gyro && present.mag ==> (is_missing(mode, present)
            <==> mode is Axis6),
{
}

/// A sample every twentieth of a second and a report every fiftieth sample; the count of
/// samples without a reading starts again with the first that has one.
pub proof fn law_samples_are_counted(
    run: &mut ImuStreamRun,
    present: Present,
    sample: Sample,
    mode: DmpFusionMode,
    begun: (ImuStreamRun, Turn),
)
    requires
        call_ensures(ImuStreamRun::begin, (mode,), begun),
        call_ensures(ImuStreamRun::sample, (run, present), sample),
    ensures
        begun.1.ask == Ask::WaitOrStop(20),
        begun.1.actions@.contains(Action::SetFusion(mode)),
        present.orientation ==> sample.missing == 0,
        !present.orientation && !present.gyro && !present.mag && old(run).missing() < u32::MAX
            ==> sample.missing == old(run).missing() + 1,
        old(run).tick() < u32::MAX ==> (sample.report <==> (old(run).tick() + 1) % 50 == 0),
{
    assert(begun.1@.0[2] == Action::SetFusion(mode));
}

} // verus!
