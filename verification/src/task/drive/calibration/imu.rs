//! Magnetometer calibration: guided rotations, then the motors' interference.
//!
//! The operator turns the robot about its three axes until the readings cover enough
//! of the field. The robot is then set down, and the field its motors add is measured
//! and verified. The operator's stop is honoured at every phase boundary and between
//! any two readings.

use vstd::prelude::*;

use crate::system::state::activity;
use crate::task::dialogue::{Action, Answer, Ask, Turn};
use crate::task::drive::calibration::mag;
use crate::task::drive::calibration::mag::{
    HeadingSwing, InterferenceData, MagCoverage, MagSample, INTERFERENCE_STEPS, RANGE_MIN_NT,
};
use crate::task::io::flash_storage::{CalibrationDataKind, ImuCalibrationFlags};
use crate::task::motor_driver::MotorCommand;
use crate::task::sensors::imu::{
    DmpFusionMode, MagCalibration, MagScale, MagVector, DEFAULT_FUSION_MODE,
};

verus! {

/// How many reading timeouts in a row fail a rotation.
pub const TIMEOUT_LIMIT: u32 = 25;

/// How long all rotations together may take, in seconds.
pub const MAX_SECONDS: u64 = 90;

/// How many readings all rotations together need.
pub const MIN_SAMPLES: u32 = 500;

/// How many readings an average is made of.
pub const AVG_SAMPLES: u16 = 250;

/// How many rotations the operator is guided through.
pub const MANUAL_PHASES: usize = 3;

/// Countdown before the motors run, in seconds.
pub const SETTLE_SECONDS: usize = 20;

/// How far the heading must swing, in microdegrees.
pub const MIN_SWING_UDEG: i64 = 50_000_000;

/// A phase of the calibration.
#[derive(Debug, Clone, Copy, PartialEq, Eq, Structural)]
pub enum MagCalibrationPhase {
    /// Turning on the table.
    ManualYaw,
    /// Tilting forward and backward.
    ManualPitch,
    /// Tilting left and right.
    ManualRoll,
    /// Settling before the motors run.
    SettleDelay,
    /// The field with the motors off.
    MotorBaseline,
    /// The field the motors add.
    MotorMeasure,
    /// The corrected field with the motors on.
    MotorVerify,
    /// Storing the result.
    Save,
}

/// A phase's number, counted from one, and how many there are; storing has none.
pub open spec fn progress_of(phase: MagCalibrationPhase) -> Option<(u8, u8)> {
    match phase {
        MagCalibrationPhase::ManualYaw => Some((1, 7)),
        MagCalibrationPhase::ManualPitch => Some((2, 7)),
        MagCalibrationPhase::ManualRoll => Some((3, 7)),
        MagCalibrationPhase::SettleDelay => Some((4, 7)),
        MagCalibrationPhase::MotorBaseline => Some((5, 7)),
        MagCalibrationPhase::MotorMeasure => Some((6, 7)),
        MagCalibrationPhase::MotorVerify => Some((7, 7)),
        MagCalibrationPhase::Save => None,
    }
}

/// The percent done when a phase begins.
pub open spec fn percent_of(phase: MagCalibrationPhase) -> Option<u8> {
    match progress_of(phase) {
        None => None,
        Some((number, total)) => Some(
            activity::percent_before((number - 1) as usize, total as usize) as u8,
        ),
    }
}

impl MagCalibrationPhase {
    /// The phase's name.
    pub fn label(self) -> (label: &'static str)
        ensures
            label@ == (match self {
                MagCalibrationPhase::ManualYaw => "P1 YAW"@,
                MagCalibrationPhase::ManualPitch => "P2 PITCH"@,
                MagCalibrationPhase::ManualRoll => "P3 ROLL"@,
                MagCalibrationPhase::SettleDelay => "P4 WAIT20"@,
                MagCalibrationPhase::MotorBaseline => "P5 BASE"@,
                MagCalibrationPhase::MotorMeasure => "P6 MOTOR"@,
                MagCalibrationPhase::MotorVerify => "P7 VERIFY"@,
                MagCalibrationPhase::Save => "P8 SAVE"@,
            }),
    {
        match self {
            MagCalibrationPhase::ManualYaw => "P1 YAW",
            MagCalibrationPhase::ManualPitch => "P2 PITCH",
            MagCalibrationPhase::ManualRoll => "P3 ROLL",
            MagCalibrationPhase::SettleDelay => "P4 WAIT20",
            MagCalibrationPhase::MotorBaseline => "P5 BASE",
            MagCalibrationPhase::MotorMeasure => "P6 MOTOR",
            MagCalibrationPhase::MotorVerify => "P7 VERIFY",
            MagCalibrationPhase::Save => "P8 SAVE",
        }
    }

    /// The phase's number, counted from one, and how many there are.
    pub fn progress(self) -> (progress: Option<(u8, u8)>)
        ensures
            progress == progress_of(self),
    {
        match self {
            MagCalibrationPhase::ManualYaw => Some((1, 7)),
            MagCalibrationPhase::ManualPitch => Some((2, 7)),
            MagCalibrationPhase::ManualRoll => Some((3, 7)),
            MagCalibrationPhase::SettleDelay => Some((4, 7)),
            MagCalibrationPhase::MotorBaseline => Some((5, 7)),
            MagCalibrationPhase::MotorMeasure => Some((6, 7)),
            MagCalibrationPhase::MotorVerify => Some((7, 7)),
            MagCalibrationPhase::Save => None,
        }
    }

    /// The percent done when the phase begins.
    pub fn percent(self) -> (percent: Option<u8>)
        ensures
            percent == percent_of(self),
    {
        match self.progress() {
            None => None,
            Some((number, total)) => Some(
                activity::percent_done(number as usize - 1, total as usize),
            ),
        }
    }

    /// What the operator is asked to do.
    pub fn prompt(self) -> (prompt: &'static str)
        ensures
            prompt == prompt_of(self),
    {
        match self {
            MagCalibrationPhase::ManualYaw => "Keep flat, spin on table",
            MagCalibrationPhase::ManualPitch => "Tilt nose up and down",
            MagCalibrationPhase::ManualRoll => "Tilt left and right",
            _ => "Move slowly, follow the prompt",
        }
    }
}

/// What the operator is asked to do in a phase.
pub open spec fn prompt_of(phase: MagCalibrationPhase) -> &'static str {
    match phase {
        MagCalibrationPhase::ManualYaw => "Keep flat, spin on table",
        MagCalibrationPhase::ManualPitch => "Tilt nose up and down",
        MagCalibrationPhase::ManualRoll => "Tilt left and right",
        _ => "Move slowly, follow the prompt",
    }
}

/// The phase of a guided rotation.
pub open spec fn rotation_phase(index: usize) -> MagCalibrationPhase {
    if index == 0 {
        MagCalibrationPhase::ManualYaw
    } else if index == 1 {
        MagCalibrationPhase::ManualPitch
    } else {
        MagCalibrationPhase::ManualRoll
    }
}

/// Why a guided rotation failed.
pub open spec fn rotation_reason(index: usize) -> &'static str {
    if index == 0 {
        "Yaw incomplete"
    } else if index == 1 {
        "Pitch incomplete"
    } else {
        "Roll incomplete"
    }
}

/// What one guided rotation has collected.
#[derive(Debug, Clone, Copy, PartialEq, Eq, Structural)]
pub struct Rotation {
    /// The readings' span.
    pub coverage: MagCoverage,
    /// The heading's swing.
    pub swing: HeadingSwing,
    /// Reading timeouts in a row.
    pub streak: u32,
}

/// A rotation that has just begun.
pub open spec fn no_rotation() -> Rotation {
    Rotation { coverage: mag::no_coverage(), swing: mag::no_swing(), streak: 0 }
}

/// The rotation after a wait for a reading. Only the turn on the table follows the
/// heading.
pub open spec fn rotated(index: usize, rotation: Rotation, reading: Option<MagSample>) -> Rotation {
    match reading {
        None => Rotation { streak: (rotation.streak + 1) as u32, ..rotation },
        Some(sample) => Rotation {
            coverage: mag::covering(rotation.coverage, sample.field),
            swing: if index == 0 && rotation.coverage.samples < u32::MAX {
                mag::swung(rotation.swing, sample.heading_udeg)
            } else {
                rotation.swing
            },
            streak: 0,
        },
    }
}

/// Whether a rotation has collected enough: the swing of the heading on the table,
/// the spans of two axes in a tilt, and its share of the readings.
pub open spec fn rotation_done(index: usize, rotation: Rotation) -> bool {
    let coverage = rotation.coverage;
    &&& coverage.samples >= MIN_SAMPLES / MANUAL_PHASES as u32
    &&& if index == 0 {
        rotation.swing.max - rotation.swing.min >= MIN_SWING_UDEG
    } else if index == 1 {
        mag::spans(coverage.min.x, coverage.max.x) && mag::spans(coverage.min.z, coverage.max.z)
    } else {
        mag::spans(coverage.min.y, coverage.max.y) && mag::spans(coverage.min.z, coverage.max.z)
    }
}

impl Rotation {
    /// The rotation holds readings of the sensor and has timeouts left.
    pub open spec fn wf(self) -> bool {
        &&& self.coverage.wf()
        &&& self.swing.wf(self.coverage.samples)
        &&& self.streak < TIMEOUT_LIMIT
    }

    /// A rotation that has just begun.
    pub fn new() -> (rotation: Self)
        ensures
            rotation == no_rotation(),
            rotation.wf(),
    {
        Rotation { coverage: MagCoverage::new(), swing: HeadingSwing::new(), streak: 0 }
    }

    /// Take what a wait for a reading gave.
    pub fn take(&mut self, index: usize, reading: Option<MagSample>)
        requires
            old(self).wf(),
            reading matches Some(sample) ==> mag::readable(sample.field),
        ensures
            *final(self) == rotated(index, *old(self), reading),
            final(self).coverage.wf(),
            final(self).swing.wf(final(self).coverage.samples),
            final(self).streak <= TIMEOUT_LIMIT,
    {
        match reading {
            None => {
                self.streak = self.streak + 1;
            },
            Some(sample) => {
                let samples = self.coverage.samples;
                self.coverage.update(sample.field);
                if index == 0 && samples < u32::MAX {
                    self.swing.follow(sample.heading_udeg, samples);
                }
                self.streak = 0;
            },
        }
    }

    /// Whether the rotation has collected enough.
    pub fn is_done(&self, index: usize) -> (done: bool)
        requires
            self.coverage.wf(),
            self.swing.wf(self.coverage.samples),
        ensures
            done == rotation_done(index, *self),
    {
        let (x, y, z) = self.coverage.ranges();
        let enough = if index == 0 {
            self.swing.reaches(MIN_SWING_UDEG, self.coverage.samples)
        } else if index == 1 {
            x >= RANGE_MIN_NT && z >= RANGE_MIN_NT
        } else {
            y >= RANGE_MIN_NT && z >= RANGE_MIN_NT
        };
        enough && self.coverage.samples >= MIN_SAMPLES / MANUAL_PHASES as u32
    }
}

/// Where the calibration stands: which question it has asked.
#[derive(Debug, Clone, Copy, PartialEq, Eq, Structural)]
pub enum At {
    /// Whether the preparation was cut short.
    Prepare,
    /// Whether to stop this rotation.
    RotateCheck(usize),
    /// How long this rotation has taken.
    RotateTime(usize),
    /// A reading of this rotation.
    RotateSample(usize),
    /// Whether the pause after this rotation was cut short.
    RotateDone(usize),
    /// Whether this second of settling was cut short.
    Settle(usize),
    /// The average with the motors off.
    Baseline,
    /// Whether to stop before this measurement.
    MeasureCheck(usize),
    /// Whether the run-up to this measurement was cut short.
    MeasureRun(usize),
    /// The average of this measurement.
    MeasureAverage(usize),
    /// Whether the coast after this measurement was cut short.
    MeasureCoast(usize),
    /// Whether to stop before this verification.
    VerifyCheck(usize),
    /// Whether the run-up to this verification was cut short.
    VerifyRun(usize),
    /// The average of this verification.
    VerifyAverage(usize),
    /// Whether the coast after this verification was cut short.
    VerifyCoast(usize),
    /// Nothing.
    Over,
}

/// One run of the magnetometer calibration.
#[derive(Debug, Clone, Copy, PartialEq, Eq, Structural)]
pub struct MagCalibrationRun {
    /// Where it stands.
    pub at: At,
    /// All readings' span.
    pub coverage: MagCoverage,
    /// The current rotation.
    pub rotation: Rotation,
    /// The hard-iron bias, once known.
    pub bias: MagVector,
    /// The soft-iron scale, once known.
    pub scale: MagScale,
    /// The average with the motors off, once known.
    pub baseline: MagVector,
    /// The motors' field measured so far.
    pub data: InterferenceData,
    /// The calibration flags when the run began.
    pub flags: ImuCalibrationFlags,
}

/// What the calibration does next.
pub type Next = (MagCalibrationRun, Seq<Action>, Ask);

/// The readings are stopped and the fusion mode restored, however the run ended.
pub open spec fn leaving() -> Seq<Action> {
    seq![Action::SetFusion(DmpFusionMode::Axis6), Action::StopImu]
}

/// The motors are let go and the drivers turned off.
pub open spec fn motors_off() -> Seq<Action> {
    seq![
        Action::Motor(MotorCommand::CoastAll),
        Action::Motor(MotorCommand::SetAllDriversEnable { enabled: false }),
    ]
}

/// The run ends after a stop.
pub open spec fn stopped(run: MagCalibrationRun, before: Seq<Action>) -> Next {
    (
        MagCalibrationRun { at: At::Over, ..run },
        before + (seq![Action::Abandon] + leaving()),
        Ask::Over,
    )
}

/// The run ends without a result.
pub open spec fn incomplete(run: MagCalibrationRun, before: Seq<Action>, reason: &'static str) -> Next {
    (
        MagCalibrationRun { at: At::Over, ..run },
        before + (seq![Action::Fail(reason)] + leaving()),
        Ask::Over,
    )
}

/// A guided rotation begins.
pub open spec fn rotating(run: MagCalibrationRun, index: usize) -> Next {
    let phase = rotation_phase(index);
    (
        MagCalibrationRun { at: At::RotateCheck(index), rotation: no_rotation(), ..run },
        seq![Action::Phase(prompt_of(phase), percent_of(phase))],
        Ask::StopRequested,
    )
}

/// A reading of a guided rotation is in.
pub open spec fn sampled(run: MagCalibrationRun, index: usize, reading: Option<MagSample>) -> Next {
    let rotation = rotated(index, run.rotation, reading);
    let coverage = match reading {
        None => run.coverage,
        Some(sample) => mag::covering(run.coverage, sample.field),
    };
    let taken = MagCalibrationRun { rotation, coverage, ..run };
    if rotation_done(index, rotation) {
        (
            MagCalibrationRun { at: At::RotateDone(index), ..taken },
            seq![Action::Phase("Phase OK", None)],
            Ask::WaitOrStop(500),
        )
    } else if rotation.streak >= TIMEOUT_LIMIT {
        incomplete(taken, Seq::empty(), rotation_reason(index))
    } else {
        (
            MagCalibrationRun { at: At::RotateCheck(index), ..taken },
            Seq::empty(),
            Ask::StopRequested,
        )
    }
}

/// All rotations are done.
pub open spec fn covered(run: MagCalibrationRun) -> Next {
    if run.coverage.samples == 0 || mag::axes_covered(run.coverage) < 3 {
        incomplete(run, Seq::empty(), "Rotate more — all axes")
    } else {
        (
            MagCalibrationRun {
                at: At::Settle(0),
                bias: mag::bias_of(run.coverage),
                scale: mag::scale_of(run.coverage),
                ..run
            },
            seq![
                Action::Phase("Set robot down", percent_of(MagCalibrationPhase::SettleDelay)),
                Action::Phase("Hold still, motors soon", Some(0)),
                settling(0),
            ],
            Ask::WaitOrStop(1_000),
        )
    }
}

/// A second of settling.
pub open spec fn settling(second: usize) -> Action {
    Action::Phase(
        "Hold still, motors soon",
        Some(activity::percent_before(second, SETTLE_SECONDS) as u8),
    )
}

/// A second of settling is over.
pub open spec fn settled(run: MagCalibrationRun, second: usize) -> Next {
    if second + 1 < SETTLE_SECONDS {
        (
            MagCalibrationRun { at: At::Settle((second + 1) as usize), ..run },
            seq![settling((second + 1) as usize)],
            Ask::WaitOrStop(1_000),
        )
    } else {
        (
            MagCalibrationRun { at: At::Baseline, ..run },
            seq![
                Action::Motor(MotorCommand::SetAllDriversEnable { enabled: true }),
                Action::Delay(100),
                Action::Phase(
                    "Baseline, motors off",
                    percent_of(MagCalibrationPhase::MotorBaseline),
                ),
                Action::ClearMag,
                Action::Delay(500),
            ],
            Ask::MagAverage(AVG_SAMPLES),
        )
    }
}

/// The motors run for a step.
pub open spec fn running(index: usize) -> Seq<Action> {
    let step = mag::step_at(index);
    seq![
        Action::Phase(
            step.label,
            Some(activity::percent_before(index, INTERFERENCE_STEPS) as u8),
        ),
        Action::Motor(MotorCommand::SetTracks { left_speed: step.left, right_speed: step.right }),
    ]
}

/// A measurement's average is in.
pub open spec fn measured(run: MagCalibrationRun, index: usize, average: MagVector) -> Next {
    (
        MagCalibrationRun {
            at: At::MeasureCoast(index),
            data: mag::with_step(run.data, index, mag::difference(average, run.baseline)),
            ..run
        },
        seq![Action::Motor(MotorCommand::CoastAll)],
        Ask::WaitOrStop(500),
    )
}

/// The squared magnitude of the corrected baseline.
pub open spec fn baseline_square(run: MagCalibrationRun) -> int {
    mag::corrected_square(run.baseline, MagVector { x: 0, y: 0, z: 0 }, run.bias, run.scale)
}

/// A verification's average is in.
pub open spec fn verified(run: MagCalibrationRun, index: usize, average: MagVector) -> Next {
    let square = mag::corrected_square(
        average,
        mag::field_of(run.data, index),
        run.bias,
        run.scale,
    );
    if mag::acceptable(square, baseline_square(run)) {
        (
            MagCalibrationRun { at: At::VerifyCoast(index), ..run },
            seq![Action::Motor(MotorCommand::CoastAll)],
            Ask::WaitOrStop(500),
        )
    } else {
        incomplete(run, winding_down(), "Motor verify failed")
    }
}

/// The motors wind down after the verification.
pub open spec fn winding_down() -> Seq<Action> {
    seq![
        Action::Motor(MotorCommand::CoastAll),
        Action::Delay(500),
        Action::Motor(MotorCommand::SetAllDriversEnable { enabled: false }),
    ]
}

/// The run ends with a result.
pub open spec fn succeeded(run: MagCalibrationRun) -> Next {
    (
        MagCalibrationRun { at: At::Over, ..run },
        winding_down() + (seq![
            Action::Phase("Saving", None),
            Action::Phase("Saving to flash", None),
            Action::Save(
                CalibrationDataKind::ImuFlags(ImuCalibrationFlags { mag: true, ..run.flags }),
            ),
            Action::Delay(500),
            Action::LoadMag(mag::result_of(run.bias, run.scale, run.data)),
            Action::Complete("Calibration saved"),
            Action::Delay(2_000),
        ] + leaving()),
        Ask::Over,
    )
}

/// How many seconds one rotation may take: its share, but at least ten.
pub const ROTATION_SECONDS: u64 = MAX_SECONDS / 3;

/// What follows an answer. An answer to another question counts as a stop.
pub open spec fn next(run: MagCalibrationRun, answer: Answer) -> Next {
    match (run.at, answer) {
        (At::Prepare, Answer::Yes(false)) => rotating(run, 0),
        (At::RotateCheck(index), Answer::Yes(false)) => (
            MagCalibrationRun { at: At::RotateTime(index), ..run },
            Seq::empty(),
            Ask::PhaseSeconds,
        ),
        (At::RotateTime(index), Answer::Seconds(seconds)) => if seconds >= ROTATION_SECONDS {
            incomplete(run, Seq::empty(), rotation_reason(index))
        } else {
            (
                MagCalibrationRun { at: At::RotateSample(index), ..run },
                seq![Action::ClearMag],
                Ask::Mag(200),
            )
        },
        (At::RotateSample(index), Answer::Mag(reading)) => sampled(run, index, reading),
        (At::RotateDone(index), Answer::Yes(false)) => if index + 1 < MANUAL_PHASES {
            rotating(run, (index + 1) as usize)
        } else {
            covered(run)
        },
        (At::Settle(second), Answer::Yes(false)) => settled(run, second),
        (At::Baseline, Answer::Average(average)) => (
            MagCalibrationRun { at: At::MeasureCheck(0), baseline: average, ..run },
            seq![
                Action::Phase("Motor interference", percent_of(MagCalibrationPhase::MotorMeasure)),
            ],
            Ask::StopRequested,
        ),
        (At::MeasureCheck(index), Answer::Yes(false)) => (
            MagCalibrationRun { at: At::MeasureRun(index), ..run },
            running(index),
            Ask::WaitOrStop(1_000),
        ),
        (At::MeasureRun(index), Answer::Yes(false)) => (
            MagCalibrationRun { at: At::MeasureAverage(index), ..run },
            seq![Action::ClearMag],
            Ask::MagAverage(AVG_SAMPLES),
        ),
        (At::MeasureAverage(index), Answer::Average(average)) => measured(run, index, average),
        (At::MeasureCoast(index), Answer::Yes(false)) => if index + 1 < INTERFERENCE_STEPS {
            (
                MagCalibrationRun { at: At::MeasureCheck((index + 1) as usize), ..run },
                Seq::empty(),
                Ask::StopRequested,
            )
        } else {
            (
                MagCalibrationRun { at: At::VerifyCheck(0), ..run },
                seq![
                    Action::Phase(
                        "Verify compensation",
                        percent_of(MagCalibrationPhase::MotorVerify),
                    ),
                ],
                Ask::StopRequested,
            )
        },
        (At::VerifyCheck(index), Answer::Yes(false)) => (
            MagCalibrationRun { at: At::VerifyRun(index), ..run },
            running(index),
            Ask::WaitOrStop(1_000),
        ),
        (At::VerifyRun(index), Answer::Yes(false)) => (
            MagCalibrationRun { at: At::VerifyAverage(index), ..run },
            seq![Action::ClearMag],
            Ask::MagAverage(AVG_SAMPLES),
        ),
        (At::VerifyAverage(index), Answer::Average(average)) => verified(run, index, average),
        (At::VerifyCoast(index), Answer::Yes(false)) => if index + 1 < INTERFERENCE_STEPS {
            (
                MagCalibrationRun { at: At::VerifyCheck((index + 1) as usize), ..run },
                Seq::empty(),
                Ask::StopRequested,
            )
        } else {
            succeeded(run)
        },
        (At::Over, _) => (run, Seq::empty(), Ask::Over),
        _ => stopped(
            run,
            if motors_may_run(run.at) {
                motors_off()
            } else {
                Seq::empty()
            },
        ),
    }
}

/// Whether the motor drivers are on.
pub open spec fn motors_may_run(at: At) -> bool {
    match at {
        At::Baseline => true,
        At::MeasureCheck(_) => true,
        At::MeasureRun(_) => true,
        At::MeasureAverage(_) => true,
        At::MeasureCoast(_) => true,
        At::VerifyCheck(_) => true,
        At::VerifyRun(_) => true,
        At::VerifyAverage(_) => true,
        At::VerifyCoast(_) => true,
        _ => false,
    }
}

/// An answer whose readings the sensor can give.
pub open spec fn plausible(answer: Answer) -> bool {
    match answer {
        Answer::Mag(Some(sample)) => mag::readable(sample.field),
        Answer::Average(average) => mag::readable(average),
        _ => true,
    }
}

impl MagCalibrationRun {
    /// The run holds readings of the sensor and stands at a step it has.
    pub open spec fn wf(self) -> bool {
        &&& self.coverage.wf()
        &&& self.rotation.coverage.wf()
        &&& self.rotation.swing.wf(self.rotation.coverage.samples)
        &&& (self.at is RotateCheck || self.at is RotateTime || self.at is RotateSample)
            ==> self.rotation.streak < TIMEOUT_LIMIT
        &&& mag::readable(self.bias)
        &&& mag::scale_fits(self.scale)
        &&& mag::readable(self.baseline)
        &&& self.data.wf()
        &&& match self.at {
            At::RotateDone(index) => index < MANUAL_PHASES,
            At::RotateCheck(index) => index < MANUAL_PHASES,
            At::RotateTime(index) => index < MANUAL_PHASES,
            At::RotateSample(index) => index < MANUAL_PHASES,
            At::Settle(second) => second < SETTLE_SECONDS,
            At::MeasureCheck(index) => index < INTERFERENCE_STEPS,
            At::MeasureRun(index) => index < INTERFERENCE_STEPS,
            At::MeasureAverage(index) => index < INTERFERENCE_STEPS,
            At::MeasureCoast(index) => index < INTERFERENCE_STEPS,
            At::VerifyCheck(index) => index < INTERFERENCE_STEPS,
            At::VerifyRun(index) => index < INTERFERENCE_STEPS,
            At::VerifyAverage(index) => index < INTERFERENCE_STEPS,
            At::VerifyCoast(index) => index < INTERFERENCE_STEPS,
            _ => true,
        }
    }

    /// Begin with the calibration flags in force: the run and its first turn.
    pub fn begin(flags: ImuCalibrationFlags) -> (begun: (Self, Turn))
        ensures
            begun.0.wf(),
            begun.0 == (MagCalibrationRun {
                at: At::Prepare,
                coverage: mag::no_coverage(),
                rotation: no_rotation(),
                bias: MagVector { x: 0, y: 0, z: 0 },
                scale: MagScale { x: 0, y: 0, z: 0 },
                baseline: MagVector { x: 0, y: 0, z: 0 },
                data: mag::no_data(),
                flags,
            }),
            begun.1@ == (
                seq![
                    Action::StartImu,
                    Action::SetFusion(DmpFusionMode::Axis9),
                    Action::Delay(500),
                    Action::Phase("Prepare to move", None),
                ],
                Ask::WaitOrStop(3_000),
            ),
    {
        let none = MagVector { x: 0, y: 0, z: 0 };
        let run = MagCalibrationRun {
            at: At::Prepare,
            coverage: MagCoverage::new(),
            rotation: Rotation::new(),
            bias: none,
            scale: MagScale { x: 0, y: 0, z: 0 },
            baseline: none,
            data: InterferenceData::new(),
            flags,
        };
        let actions = vec![
            Action::StartImu,
            Action::SetFusion(DmpFusionMode::Axis9),
            Action::Delay(500),
            Action::Phase("Prepare to move", None),
        ];
        (run, Turn::new(actions, Ask::WaitOrStop(3_000)))
    }

    /// Take the answer to the last question.
    pub fn answer(&mut self, answer: Answer) -> (turn: Turn)
        requires
            old(self).wf(),
            plausible(answer),
        ensures
            final(self).wf(),
            ({
                let (run, actions, ask) = next(*old(self), answer);
                *final(self) == run && turn@ == (actions, ask)
            }),
    {
        match (self.at, answer) {
            (At::Prepare, Answer::Yes(false)) => self.rotate(0),
            (At::RotateCheck(index), Answer::Yes(false)) => {
                self.at = At::RotateTime(index);
                Turn::asking(Ask::PhaseSeconds)
            },
            (At::RotateTime(index), Answer::Seconds(seconds)) => {
                if seconds >= ROTATION_SECONDS {
                    self.give_up_rotation(index)
                } else {
                    self.at = At::RotateSample(index);
                    self.clear_and(Ask::Mag(200))
                }
            },
            (At::RotateSample(index), Answer::Mag(reading)) => self.sample(index, reading),
            (At::RotateDone(index), Answer::Yes(false)) => {
                if index + 1 < MANUAL_PHASES {
                    self.rotate(index + 1)
                } else {
                    self.conclude_rotations()
                }
            },
            (At::Settle(second), Answer::Yes(false)) => self.settle(second),
            (At::Baseline, Answer::Average(average)) => {
                self.at = At::MeasureCheck(0);
                self.baseline = average;
                let actions = vec![
                    Action::Phase(
                        "Motor interference",
                        MagCalibrationPhase::MotorMeasure.percent(),
                    ),
                ];
                assert(actions@ =~= next(*old(self), answer).1);
                Turn::new(actions, Ask::StopRequested)
            },
            (At::MeasureCheck(index), Answer::Yes(false)) => {
                self.at = At::MeasureRun(index);
                self.run_step(index)
            },
            (At::MeasureRun(index), Answer::Yes(false)) => {
                self.at = At::MeasureAverage(index);
                self.clear_and(Ask::MagAverage(AVG_SAMPLES))
            },
            (At::MeasureAverage(index), Answer::Average(average)) => {
                self.at = At::MeasureCoast(index);
                let field = mag::subtract_mag(average, self.baseline);
                self.data.set(index, field);
                self.coast()
            },
            (At::MeasureCoast(index), Answer::Yes(false)) => {
                if index + 1 < INTERFERENCE_STEPS {
                    self.at = At::MeasureCheck(index + 1);
                    Turn::asking(Ask::StopRequested)
                } else {
                    self.at = At::VerifyCheck(0);
                    let actions = vec![
                        Action::Phase(
                            "Verify compensation",
                            MagCalibrationPhase::MotorVerify.percent(),
                        ),
                    ];
                    assert(actions@ =~= next(*old(self), answer).1);
                    Turn::new(actions, Ask::StopRequested)
                }
            },
            (At::VerifyCheck(index), Answer::Yes(false)) => {
                self.at = At::VerifyRun(index);
                self.run_step(index)
            },
            (At::VerifyRun(index), Answer::Yes(false)) => {
                self.at = At::VerifyAverage(index);
                self.clear_and(Ask::MagAverage(AVG_SAMPLES))
            },
            (At::VerifyAverage(index), Answer::Average(average)) => self.verify(index, average),
            (At::VerifyCoast(index), Answer::Yes(false)) => {
                if index + 1 < INTERFERENCE_STEPS {
                    self.at = At::VerifyCheck(index + 1);
                    Turn::asking(Ask::StopRequested)
                } else {
                    self.succeed()
                }
            },
            (At::Over, _) => Turn::asking(Ask::Over),
            _ => self.stop(),
        }
    }

    /// Begin a guided rotation.
    fn rotate(&mut self, index: usize) -> (turn: Turn)
        requires
            old(self).wf(),
            index < MANUAL_PHASES,
        ensures
            final(self).wf(),
            *final(self) == rotating(*old(self), index).0,
            turn@ == (rotating(*old(self), index).1, rotating(*old(self), index).2),
    {
        let phase = if index == 0 {
            MagCalibrationPhase::ManualYaw
        } else if index == 1 {
            MagCalibrationPhase::ManualPitch
        } else {
            MagCalibrationPhase::ManualRoll
        };
        self.at = At::RotateCheck(index);
        self.rotation = Rotation::new();
        let actions = vec![Action::Phase(phase.prompt(), phase.percent())];
        assert(actions@ =~= rotating(*old(self), index).1);
        Turn::new(actions, Ask::StopRequested)
    }

    /// Drop the pending reading and ask.
    fn clear_and(&self, ask: Ask) -> (turn: Turn)
        ensures
            turn@ == (seq![Action::ClearMag], ask),
    {
        let actions = vec![Action::ClearMag];
        assert(actions@ =~= seq![Action::ClearMag]);
        Turn::new(actions, ask)
    }

    /// Let the motors run free.
    fn coast(&self) -> (turn: Turn)
        ensures
            turn@ == (seq![Action::Motor(MotorCommand::CoastAll)], Ask::WaitOrStop(500)),
    {
        let actions = vec![Action::Motor(MotorCommand::CoastAll)];
        assert(actions@ =~= seq![Action::Motor(MotorCommand::CoastAll)]);
        Turn::new(actions, Ask::WaitOrStop(500))
    }

    /// Run the motors of a step.
    fn run_step(&self, index: usize) -> (turn: Turn)
        ensures
            turn@ == (running(index), Ask::WaitOrStop(1_000)),
    {
        let step = mag::interference_step(index);
        let actions = vec![
            Action::Phase(step.label, Some(activity::percent_done(index, INTERFERENCE_STEPS))),
            Action::Motor(
                MotorCommand::SetTracks { left_speed: step.left, right_speed: step.right },
            ),
        ];
        assert(actions@ =~= running(index));
        Turn::new(actions, Ask::WaitOrStop(1_000))
    }

    /// End without a result for want of a rotation.
    fn give_up_rotation(&mut self, index: usize) -> (turn: Turn)
        requires
            old(self).coverage.wf(),
        ensures
            *final(self) == (MagCalibrationRun { at: At::Over, ..*old(self) }),
            turn@ == (
                incomplete(*old(self), Seq::empty(), rotation_reason(index)).1,
                Ask::Over,
            ),
    {
        let reason = if index == 0 {
            "Yaw incomplete"
        } else if index == 1 {
            "Pitch incomplete"
        } else {
            "Roll incomplete"
        };
        self.give_up(Vec::new(), reason)
    }

    /// End without a result.
    fn give_up(&mut self, before: Vec<Action>, reason: &'static str) -> (turn: Turn)
        ensures
            *final(self) == (MagCalibrationRun { at: At::Over, ..*old(self) }),
            turn@ == (incomplete(*old(self), before@, reason).1, Ask::Over),
    {
        self.at = At::Over;
        let mut actions = before;
        let mut rest = vec![
            Action::Fail(reason),
            Action::SetFusion(DEFAULT_FUSION_MODE),
            Action::StopImu,
        ];
        assert(rest@ =~= seq![Action::Fail(reason)] + leaving());
        actions.append(&mut rest);
        Turn::new(actions, Ask::Over)
    }

    /// End after a stop.
    fn stop(&mut self) -> (turn: Turn)
        ensures
            *final(self) == (MagCalibrationRun { at: At::Over, ..*old(self) }),
            turn@ == (
                stopped(
                    *old(self),
                    if motors_may_run(old(self).at) {
                        motors_off()
                    } else {
                        Seq::empty()
                    },
                ).1,
                Ask::Over,
            ),
    {
        let may_run = match self.at {
            At::Baseline
            | At::MeasureCheck(_)
            | At::MeasureRun(_)
            | At::MeasureAverage(_)
            | At::MeasureCoast(_)
            | At::VerifyCheck(_)
            | At::VerifyRun(_)
            | At::VerifyAverage(_)
            | At::VerifyCoast(_) => true,
            _ => false,
        };
        let mut actions: Vec<Action> = Vec::new();
        if may_run {
            actions.push(Action::Motor(MotorCommand::CoastAll));
            actions.push(Action::Motor(MotorCommand::SetAllDriversEnable { enabled: false }));
            assert(actions@ =~= motors_off());
        }
        self.at = At::Over;
        let mut rest = vec![
            Action::Abandon,
            Action::SetFusion(DEFAULT_FUSION_MODE),
            Action::StopImu,
        ];
        assert(rest@ =~= seq![Action::Abandon] + leaving());
        actions.append(&mut rest);
        Turn::new(actions, Ask::Over)
    }

    /// Take a reading of a guided rotation.
    fn sample(&mut self, index: usize, reading: Option<MagSample>) -> (turn: Turn)
        requires
            old(self).wf(),
            old(self).rotation.streak < TIMEOUT_LIMIT,
            index < MANUAL_PHASES,
            reading matches Some(sample) ==> mag::readable(sample.field),
        ensures
            final(self).wf(),
            *final(self) == sampled(*old(self), index, reading).0,
            turn@ == (sampled(*old(self), index, reading).1, sampled(*old(self), index, reading).2),
    {
        if let Some(sample) = reading {
            self.coverage.update(sample.field);
        }
        self.rotation.take(index, reading);
        if self.rotation.is_done(index) {
            self.at = At::RotateDone(index);
            let actions = vec![Action::Phase("Phase OK", None)];
            assert(actions@ =~= seq![Action::Phase("Phase OK", None)]);
            Turn::new(actions, Ask::WaitOrStop(500))
        } else if self.rotation.streak >= TIMEOUT_LIMIT {
            self.give_up_rotation(index)
        } else {
            self.at = At::RotateCheck(index);
            Turn::asking(Ask::StopRequested)
        }
    }

    /// All rotations are done.
    fn conclude_rotations(&mut self) -> (turn: Turn)
        requires
            old(self).wf(),
        ensures
            final(self).wf(),
            *final(self) == covered(*old(self)).0,
            turn@ == (covered(*old(self)).1, covered(*old(self)).2),
    {
        if self.coverage.samples == 0 || self.coverage.axes_ok() < 3 {
            return self.give_up(Vec::new(), "Rotate more — all axes");
        }
        let (bias, scale) = mag::fit(&self.coverage);
        self.bias = bias;
        self.scale = scale;
        self.at = At::Settle(0);
        let actions = vec![
            Action::Phase("Set robot down", MagCalibrationPhase::SettleDelay.percent()),
            Action::Phase("Hold still, motors soon", Some(0)),
            Action::Phase(
                "Hold still, motors soon",
                Some(activity::percent_done(0, SETTLE_SECONDS)),
            ),
        ];
        assert(actions@ =~= covered(*old(self)).1);
        Turn::new(actions, Ask::WaitOrStop(1_000))
    }

    /// A second of settling is over.
    fn settle(&mut self, second: usize) -> (turn: Turn)
        requires
            old(self).wf(),
            second < SETTLE_SECONDS,
        ensures
            final(self).wf(),
            *final(self) == settled(*old(self), second).0,
            turn@ == (settled(*old(self), second).1, settled(*old(self), second).2),
    {
        if second + 1 < SETTLE_SECONDS {
            self.at = At::Settle(second + 1);
            let percent = activity::percent_done(second + 1, SETTLE_SECONDS);
            let actions = vec![Action::Phase("Hold still, motors soon", Some(percent))];
            assert(actions@ =~= settled(*old(self), second).1);
            Turn::new(actions, Ask::WaitOrStop(1_000))
        } else {
            self.at = At::Baseline;
            let actions = vec![
                Action::Motor(MotorCommand::SetAllDriversEnable { enabled: true }),
                Action::Delay(100),
                Action::Phase(
                    "Baseline, motors off",
                    MagCalibrationPhase::MotorBaseline.percent(),
                ),
                Action::ClearMag,
                Action::Delay(500),
            ];
            assert(actions@ =~= settled(*old(self), second).1);
            Turn::new(actions, Ask::MagAverage(AVG_SAMPLES))
        }
    }

    /// Wind the motors down.
    fn wind_down(&self) -> (actions: Vec<Action>)
        ensures
            actions@ == winding_down(),
    {
        let actions = vec![
            Action::Motor(MotorCommand::CoastAll),
            Action::Delay(500),
            Action::Motor(MotorCommand::SetAllDriversEnable { enabled: false }),
        ];
        assert(actions@ =~= winding_down());
        actions
    }

    /// Take a verification's average.
    fn verify(&mut self, index: usize, average: MagVector) -> (turn: Turn)
        requires
            old(self).wf(),
            index < INTERFERENCE_STEPS,
            mag::readable(average),
        ensures
            final(self).wf(),
            *final(self) == verified(*old(self), index, average).0,
            turn@ == (verified(*old(self), index, average).1, verified(*old(self), index, average).2),
    {
        let none = MagVector { x: 0, y: 0, z: 0 };
        let baseline = mag::square_of(self.baseline, none, self.bias, self.scale);
        let interference = self.data.vector_for(index);
        let square = mag::square_of(average, interference, self.bias, self.scale);
        if mag::accept(square, baseline) {
            self.at = At::VerifyCoast(index);
            self.coast()
        } else {
            let before = self.wind_down();
            self.give_up(before, "Motor verify failed")
        }
    }

    /// End with a result.
    fn succeed(&mut self) -> (turn: Turn)
        requires
            old(self).wf(),
        ensures
            final(self).wf(),
            *final(self) == succeeded(*old(self)).0,
            turn@ == (succeeded(*old(self)).1, succeeded(*old(self)).2),
    {
        let mut actions = self.wind_down();
        let calibration = MagCalibration {
            bias: self.bias,
            scale: self.scale,
            interference_50: self.data.at_50,
            interference_100: self.data.at_100,
        };
        let mut flags = self.flags;
        flags.mag = true;
        let mut rest = vec![
            Action::Phase("Saving", None),
            Action::Phase("Saving to flash", None),
            Action::Save(CalibrationDataKind::ImuFlags(flags)),
            Action::Delay(500),
            Action::LoadMag(calibration),
            Action::Complete("Calibration saved"),
            Action::Delay(2_000),
            Action::SetFusion(DEFAULT_FUSION_MODE),
            Action::StopImu,
        ];
        actions.append(&mut rest);
        assert(actions@ =~= succeeded(*old(self)).1);
        self.at = At::Over;
        Turn::new(actions, Ask::Over)
    }
}

/// However the run ends, it leaves the IMU stopped in the default fusion mode, and
/// with the motor drivers off where they were on.
pub proof fn law_run_leaves_the_robot_safe(run: MagCalibrationRun, answer: Answer)
    requires
        run.at !is Over,
        next(run, answer).2 == Ask::Over,
    ensures
        ({
            let actions = next(run, answer).1;
            let len = actions.len() as int;
            &&& len >= 2
            &&& actions[len - 2] == Action::SetFusion(DmpFusionMode::Axis6)
            &&& actions[len - 1] == Action::StopImu
            &&& motors_may_run(run.at) ==> actions.contains(
                Action::Motor(MotorCommand::SetAllDriversEnable { enabled: false }),
            )
        }),
{
    let actions = next(run, answer).1;
    let off = Action::Motor(MotorCommand::SetAllDriversEnable { enabled: false });
    if motors_may_run(run.at) {
        if actions[1] == off {
            assert(actions.contains(off));
        } else {
            assert(actions[2] == off);
        }
    }
}

/// A result is only ever stored after every step was verified: the answer that ends
/// the run with success is the one after the last verification.
pub proof fn law_only_a_verified_result_is_stored(
    run: MagCalibrationRun,
    answer: Answer,
    result: MagCalibration,
)
    requires
        run.wf(),
        next(run, answer).1.contains(Action::LoadMag(result)),
    ensures
        run.at == At::VerifyCoast((INTERFERENCE_STEPS - 1) as usize),
        result == mag::result_of(run.bias, run.scale, run.data),
{
    let actions = next(run, answer).1;
    let i = choose|i: int| 0 <= i < actions.len() && actions[i] == Action::LoadMag(result);
    assert(actions[i] == Action::LoadMag(result));
}

/// A rotation is done exactly where it has a third of five hundred readings and enough
/// movement: fifty degrees of heading on the table, thirty microtesla on the first and the
/// third axis in the one tilt, on the second and the third in the other.
pub proof fn law_rotation_needs_readings_and_movement(index: usize, rotation: Rotation)
    requires
        index < 3,
    ensures
        ({
            let (min, max) = (rotation.coverage.min, rotation.coverage.max);
            &&& index == 0 ==> (rotation_done(index, rotation) <==> rotation.coverage.samples >= 166
                && rotation.swing.max - rotation.swing.min >= 50_000_000)
            &&& index == 1 ==> (rotation_done(index, rotation) <==> rotation.coverage.samples >= 166
                && max.x - min.x >= 30_000 && max.z - min.z >= 30_000)
            &&& index == 2 ==> (rotation_done(index, rotation) <==> rotation.coverage.samples >= 166
                && max.y - min.y >= 30_000 && max.z - min.z >= 30_000)
        }),
{
    let (all, parts) = (MIN_SAMPLES, MANUAL_PHASES as u32);
    assert(all / parts == 166) by (nonlinear_arith)
        requires
            all == 500,
            parts == 3,
    ;
}

/// A reading ends a streak of timeouts and widens the coverage by itself; a timeout only
/// lengthens the streak. The heading is followed on the table alone.
pub proof fn law_reading_ends_the_streak(index: usize, rotation: Rotation, sample: MagSample)
    requires
        rotation.streak < TIMEOUT_LIMIT,
        rotation.coverage.samples < u32::MAX,
    ensures
        ({
            let taken = rotated(index, rotation, Some(sample));
            let missed = rotated(index, rotation, None);
            &&& taken.streak == 0
            &&& taken.coverage.samples == rotation.coverage.samples + 1
            &&& taken.coverage.min.x <= sample.field.x <= taken.coverage.max.x
            &&& taken.coverage.min.y <= sample.field.y <= taken.coverage.max.y
            &&& taken.coverage.min.z <= sample.field.z <= taken.coverage.max.z
            &&& index == 0 ==> taken.swing.last == Some(sample.heading_udeg)
            &&& index != 0 ==> taken.swing == rotation.swing
            &&& missed.streak == rotation.streak + 1
            &&& missed.coverage == rotation.coverage
            &&& missed.swing == rotation.swing
        }),
{
}

/// A rotation goes on until it is done, fails or is stopped: a reading that completes it
/// ends it, the twenty-fifth timeout in a row fails it, thirty seconds fail it, and every
/// reading counts for the whole calibration too.
pub proof fn law_rotation_ends_or_goes_on(
    run: MagCalibrationRun,
    index: usize,
    reading: Option<MagSample>,
    seconds: u64,
)
    requires
        run.at == At::RotateSample(index),
        index < 3,
        run.wf(),
    ensures
        ({
            let (after, actions, ask) = next(run, Answer::Mag(reading));
            let rotation = rotated(index, run.rotation, reading);
            let done = rotation_done(index, rotation);
            let timed = MagCalibrationRun { at: At::RotateTime(index), ..run };
            &&& done ==> after.at == At::RotateDone(index) && ask == Ask::WaitOrStop(500)
            &&& !done && rotation.streak >= 25 ==> after.at is Over && actions.contains(
                Action::Fail(rotation_reason(index)),
            )
            &&& !done && rotation.streak < 25 ==> after.at == At::RotateCheck(index) && ask
                == Ask::StopRequested
            &&& after.rotation == rotation
            &&& reading is None ==> after.coverage == run.coverage
            &&& reading matches Some(sample) ==> after.coverage == mag::covering(
                run.coverage,
                sample.field,
            )
            &&& seconds >= 30 <==> next(timed, Answer::Seconds(seconds)).0.at is Over
            &&& seconds < 30 <==> next(timed, Answer::Seconds(seconds)).0.at == At::RotateSample(
                index,
            )
        }),
{
    let actions = next(run, Answer::Mag(reading)).1;
    if !rotation_done(index, rotated(index, run.rotation, reading)) && rotated(
        index,
        run.rotation,
        reading,
    ).streak >= 25 {
        assert(actions[0] == Action::Fail(rotation_reason(index)));
    }
}

/// The phases follow one another: three rotations, each begun afresh, then twenty seconds
/// of settling, the baseline, six measurements, six verifications and the result. The
/// calibration goes past the rotations only where all three axes are covered, and takes
/// bias and scale from that coverage.
pub proof fn law_phases_follow_one_another(run: MagCalibrationRun, index: usize, average: MagVector)
    requires
        run.wf(),
    ensures
        ({
            let go = Answer::Yes(false);
            let rotated_out = next(MagCalibrationRun { at: At::RotateDone(index), ..run }, go).0;
            let settled_out = next(MagCalibrationRun { at: At::Settle(index), ..run }, go).0;
            let measured_out = next(MagCalibrationRun { at: At::MeasureCoast(index), ..run }, go).0;
            let verified_out = next(MagCalibrationRun { at: At::VerifyCoast(index), ..run }, go);
            let based = next(
                MagCalibrationRun { at: At::Baseline, ..run },
                Answer::Average(average),
            ).0;
            &&& index < 2 ==> rotated_out.at == At::RotateCheck((index + 1) as usize)
                && rotated_out.rotation.coverage.samples == 0 && rotated_out.rotation.streak == 0
                && rotated_out.coverage == run.coverage
            &&& index == 2 && mag::axes_covered(run.coverage) == 3 && run.coverage.samples > 0
                ==> rotated_out.at == At::Settle(0) && rotated_out.bias == mag::bias_of(
                run.coverage,
            ) && rotated_out.scale == mag::scale_of(run.coverage)
            &&& index == 2 && mag::axes_covered(run.coverage) < 3 ==> rotated_out.at is Over
            &&& index < 19 ==> settled_out.at == At::Settle((index + 1) as usize)
            &&& index == 19 ==> settled_out.at is Baseline
            &&& based.baseline == average && based.at == At::MeasureCheck(0)
            &&& index < 5 ==> measured_out.at == At::MeasureCheck((index + 1) as usize)
            &&& index == 5 ==> measured_out.at == At::VerifyCheck(0)
            &&& index < 5 ==> verified_out.0.at == At::VerifyCheck((index + 1) as usize)
            &&& index == 5 ==> verified_out.0.at is Over && verified_out.1.contains(
                Action::Complete("Calibration saved"),
            )
        }),
{
    let verified_out = next(
        MagCalibrationRun { at: At::VerifyCoast(index), ..run },
        Answer::Yes(false),
    );
    if index == 5 {
        assert(verified_out.1[8] == Action::Complete("Calibration saved"));
    }
}

/// A measurement keeps what the motors add: the average with them running less the one with
/// them off, for the step that ran; no other step's field changes.
pub proof fn law_measurement_keeps_what_the_motors_add(
    run: MagCalibrationRun,
    index: usize,
    other: usize,
    average: MagVector,
)
    requires
        run.wf(),
        run.at == At::MeasureAverage(index),
        mag::readable(average),
        other < INTERFERENCE_STEPS,
    ensures
        ({
            let (after, actions, ask) = next(run, Answer::Average(average));
            let kept = mag::field_of(after.data, index);
            &&& kept.x == average.x - run.baseline.x
            &&& kept.y == average.y - run.baseline.y
            &&& kept.z == average.z - run.baseline.z
            &&& other != index ==> mag::field_of(after.data, other) == mag::field_of(
                run.data,
                other,
            )
            &&& after.at == At::MeasureCoast(index)
            &&& actions == seq![Action::Motor(MotorCommand::CoastAll)]
            &&& ask == Ask::WaitOrStop(500)
        }),
{
}

/// The motors run as the step says, and as for a measurement so for its verification: they
/// are given a second before two hundred and fifty fresh readings are averaged.
pub proof fn law_motors_run_as_the_step_says(run: MagCalibrationRun, index: usize)
    requires
        index < INTERFERENCE_STEPS,
    ensures
        ({
            let go = Answer::Yes(false);
            let step = mag::step_at(index);
            let (measuring, actions, ask) = next(
                MagCalibrationRun { at: At::MeasureCheck(index), ..run },
                go,
            );
            let (verifying, again, asked) = next(
                MagCalibrationRun { at: At::VerifyCheck(index), ..run },
                go,
            );
            &&& actions == again && ask == asked && ask == Ask::WaitOrStop(1_000)
            &&& actions[1] == Action::Motor(
                MotorCommand::SetTracks { left_speed: step.left, right_speed: step.right },
            )
            &&& next(measuring, go) == (
                MagCalibrationRun { at: At::MeasureAverage(index), ..run },
                seq![Action::ClearMag],
                Ask::MagAverage(250),
            )
            &&& next(verifying, go) == (
                MagCalibrationRun { at: At::VerifyAverage(index), ..run },
                seq![Action::ClearMag],
                Ask::MagAverage(250),
            )
        }),
{
}

/// What was measured verifies: a reading of the baseline and the step's field together is
/// as good as the baseline's own, so it is accepted exactly where the corrected baseline
/// has an acceptable magnitude. A reading that is not accepted ends the calibration.
pub proof fn law_measured_field_verifies(run: MagCalibrationRun, index: usize, average: MagVector)
    requires
        run.at == At::VerifyAverage(index),
        average.x == run.baseline.x + mag::field_of(run.data, index).x,
        average.y == run.baseline.y + mag::field_of(run.data, index).y,
        average.z == run.baseline.z + mag::field_of(run.data, index).z,
    ensures
        ({
            let none = MagVector { x: 0, y: 0, z: 0 };
            let square = mag::corrected_square(run.baseline, none, run.bias, run.scale);
            let after = next(run, Answer::Average(average)).0;
            &&& after.at == At::VerifyCoast(index) <==> 400_000_000 <= square <= 40_000_000_000
            &&& after.at is Over <==> !(400_000_000 <= square <= 40_000_000_000)
            &&& after.data == run.data && after.bias == run.bias && after.scale == run.scale
        }),
{
    assert(mag::VERIFY_MIN_NT * mag::VERIFY_MIN_NT == 400_000_000);
    assert(mag::VERIFY_MAX_NT * mag::VERIFY_MAX_NT == 40_000_000_000);
    let delta = mag::VERIFY_MAX_DELTA_NT as int;
    assert(delta * delta >= 0) by (nonlinear_arith);
}

/// A verification compares the reading, less the step's own field, with the baseline: it is
/// accepted exactly where the two corrected fields are acceptable next to each other.
pub proof fn law_verification_takes_out_the_steps_field(
    run: MagCalibrationRun,
    index: usize,
    average: MagVector,
    left_over: MagVector,
)
    requires
        run.at == At::VerifyAverage(index),
        left_over.x == average.x - mag::field_of(run.data, index).x,
        left_over.y == average.y - mag::field_of(run.data, index).y,
        left_over.z == average.z - mag::field_of(run.data, index).z,
    ensures
        ({
            let none = MagVector { x: 0, y: 0, z: 0 };
            next(run, Answer::Average(average)).0.at == At::VerifyCoast(index)
                <==> mag::acceptable(
                mag::corrected_square(left_over, none, run.bias, run.scale),
                mag::corrected_square(run.baseline, none, run.bias, run.scale),
            )
        }),
{
}

/// The phases are numbered one to seven in the order they come, storing apart, and a phase
/// begins at the share of the phases behind it.
pub proof fn law_phases_are_numbered(phase: MagCalibrationPhase)
    ensures
        progress_of(phase) matches Some((number, total)) ==> {
            &&& total == 7
            &&& number == (match phase {
                MagCalibrationPhase::ManualYaw => 1int,
                MagCalibrationPhase::ManualPitch => 2,
                MagCalibrationPhase::ManualRoll => 3,
                MagCalibrationPhase::SettleDelay => 4,
                MagCalibrationPhase::MotorBaseline => 5,
                MagCalibrationPhase::MotorMeasure => 6,
                _ => 7,
            })
            &&& percent_of(phase) matches Some(percent)
            &&& percent * 7 <= 100 * (number - 1) < (percent + 1) * 7
        },
        phase is Save <==> progress_of(phase) is None,
        phase is Save <==> percent_of(phase) is None,
{
    if let Some((number, total)) = progress_of(phase) {
        activity::law_percent_is_the_share((number - 1) as usize, total as usize);
    }
}

/// Each rotation asks for its own movement and, where it fails, says which one was
/// missing: a spin, then the nose, then the sides.
pub proof fn law_rotations_ask_for_their_movement(index: usize)
    requires
        index < 3,
    ensures
        prompt_of(rotation_phase(index)) == (if index == 0 {
            "Keep flat, spin on table"
        } else if index == 1 {
            "Tilt nose up and down"
        } else {
            "Tilt left and right"
        }),
        rotation_reason(index) == (if index == 0 {
            "Yaw incomplete"
        } else if index == 1 {
            "Pitch incomplete"
        } else {
            "Roll incomplete"
        }),
        progress_of(rotation_phase(index)) == Some(((index + 1) as u8, 7u8)),
{
}

/// Whatever a run answers, a measurement keeps what the motors add to the field they were
/// off for, and the motors are let go.
pub proof fn law_answer_keeps_what_the_motors_add(
    run: &mut MagCalibrationRun,
    index: usize,
    average: MagVector,
    turn: Turn,
)
    requires
        old(run).at == At::MeasureAverage(index),
        old(run).wf(),
        mag::readable(average),
        call_ensures(MagCalibrationRun::answer, (run, Answer::Average(average)), turn),
    ensures
        ({
            let kept = mag::field_of(final(run).data, index);
            let still = old(run).baseline;
            &&& kept.x + still.x == average.x
            &&& kept.y + still.y == average.y
            &&& kept.z + still.z == average.z
        }),
        final(run).baseline == old(run).baseline,
        turn.actions@ == seq![Action::Motor(MotorCommand::CoastAll)],
        turn.ask == Ask::WaitOrStop(500),
{
    law_measurement_keeps_what_the_motors_add(*old(run), index, 0, average);
    let before = *old(run);
    let reply = Answer::Average(average);
    assert(turn@ == (next(before, reply).1, next(before, reply).2));
}

/// Whatever a run answers, the motors of a step run at that step's speeds, the left ones
/// and the right ones apart.
pub proof fn law_answer_runs_the_steps_motors(
    run: &mut MagCalibrationRun,
    index: usize,
    turn: Turn,
)
    requires
        index < 6,
        old(run).at == At::MeasureCheck(index) || old(run).at == At::VerifyCheck(index),
        call_ensures(MagCalibrationRun::answer, (run, Answer::Yes(false)), turn),
    ensures
        turn.actions@.len() == 2,
        turn.actions@[1] == Action::Motor(
            if index == 0 {
                MotorCommand::SetTracks { left_speed: 50, right_speed: 50 }
            } else if index == 1 {
                MotorCommand::SetTracks { left_speed: 100, right_speed: 100 }
            } else if index == 2 {
                MotorCommand::SetTracks { left_speed: 50, right_speed: 0 }
            } else if index == 3 {
                MotorCommand::SetTracks { left_speed: 100, right_speed: 0 }
            } else if index == 4 {
                MotorCommand::SetTracks { left_speed: 0, right_speed: 50 }
            } else {
                MotorCommand::SetTracks { left_speed: 0, right_speed: 100 }
            },
        ),
        turn.ask == Ask::WaitOrStop(1_000),
{
    let before = *old(run);
    let reply = Answer::Yes(false);
    assert(turn@ == (next(before, reply).1, next(before, reply).2));
}

} // verus!
