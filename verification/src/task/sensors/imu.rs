//! The ICM-20948 inertial measurement unit.
//!
//! The task stands by until it is told to start; then the motion processor's queue is
//! polled on a timer, and each packet updates the latest readings. The fusion mode can
//! be switched while it runs.
//!
//! Angles are microdegrees and magnetic fields nanotesla. Accelerometer and gyroscope
//! readings are counts.

use vstd::prelude::*;

use crate::task::motor_driver;

verus! {

/// Accelerometer counts per g.
pub const ACCEL_COUNTS_PER_G: u32 = 8192;

/// Gyroscope counts per thousand degrees per second.
pub const GYRO_COUNTS_PER_1000_DPS: u32 = 16_384;

/// Magnetometer sensitivity, in nanotesla per count.
pub const MAG_SCALE_NT: i32 = 150;

/// Output rate of the motion processor, in hertz.
pub const DMP_SAMPLE_RATE_HZ: u16 = 100;

/// How often the queue is polled, in milliseconds.
pub const POLL_INTERVAL_MS: u64 = 10;

/// How many initialisation attempts are made.
pub const IMU_INIT_MAX_ATTEMPTS: u32 = 60;

/// Delay between two initialisation attempts, in milliseconds.
pub const IMU_INIT_RETRY_DELAY_MS: u64 = 50;

/// How many failed reads in a row end the task.
pub const MAX_FIFO_FAILURES: u32 = 10;

/// Which sensors the motion processor fuses.
#[derive(Debug, Clone, Copy, PartialEq, Eq, Structural)]
pub enum DmpFusionMode {
    /// Gyroscope and accelerometer. Yaw is relative and drifts.
    Axis6,
    /// With the magnetometer as well. Yaw is absolute.
    Axis9,
}

/// The fusion mode at start-up.
pub const DEFAULT_FUSION_MODE: DmpFusionMode = DmpFusionMode::Axis6;

/// Orientation of the robot.
#[derive(Debug, Clone, Copy, PartialEq, Eq, Structural)]
pub struct Orientation {
    /// Heading.
    pub yaw_udeg: i32,
    /// Tilt forward or backward.
    pub pitch_udeg: i32,
    /// Tilt left or right.
    pub roll_udeg: i32,
}

impl Orientation {
    /// The robot's orientation from the sensor's angles.
    ///
    /// The sensor's first axis runs across the robot and its second axis forward, so
    /// the sensor's roll is the robot's pitch and its pitch the robot's roll.
    pub fn from_sensor(roll_udeg: i32, pitch_udeg: i32, yaw_udeg: i32) -> (orientation: Self)
        ensures
            orientation.roll_udeg == pitch_udeg,
            orientation.pitch_udeg == roll_udeg,
            orientation.yaw_udeg == yaw_udeg,
    {
        Orientation { yaw_udeg, pitch_udeg: roll_udeg, roll_udeg: pitch_udeg }
    }
}

/// An orientation and when it was measured.
#[derive(Debug, Clone, Copy, PartialEq, Eq, Structural)]
pub struct ImuMeasurement {
    /// The orientation.
    pub orientation: Orientation,
    /// Milliseconds since boot.
    pub timestamp_ms: u64,
}

/// Counts of one sensor on its three axes.
#[derive(Debug, Clone, Copy, PartialEq, Eq, Structural)]
pub struct Counts {
    pub x: i32,
    pub y: i32,
    pub z: i32,
}

/// A magnetic field on three axes, in nanotesla.
#[derive(Debug, Clone, Copy, PartialEq, Eq, Structural)]
pub struct MagVector {
    pub x: i32,
    pub y: i32,
    pub z: i32,
}

/// Scale factors on three axes, in parts per million.
#[derive(Debug, Clone, Copy, PartialEq, Eq, Structural)]
pub struct MagScale {
    pub x: i32,
    pub y: i32,
    pub z: i32,
}

/// The field the motors add at one speed.
#[derive(Debug, Clone, Copy, PartialEq, Eq, Structural)]
pub struct TrackInterference {
    /// With both tracks running.
    pub both: MagVector,
    /// With the left track alone.
    pub left: MagVector,
    /// With the right track alone.
    pub right: MagVector,
}

/// Magnetometer calibration: hard iron, soft iron and the motors.
#[derive(Debug, Clone, Copy, PartialEq, Eq, Structural)]
pub struct MagCalibration {
    /// Hard-iron bias.
    pub bias: MagVector,
    /// Soft-iron scale.
    pub scale: MagScale,
    /// The motors' field at half speed.
    pub interference_50: TrackInterference,
    /// The motors' field at full speed.
    pub interference_100: TrackInterference,
}

/// No field.
pub open spec fn no_field() -> MagVector {
    MagVector { x: 0, y: 0, z: 0 }
}

/// No interference.
pub open spec fn no_interference() -> TrackInterference {
    TrackInterference { both: no_field(), left: no_field(), right: no_field() }
}

impl Default for MagCalibration {
    /// The calibration that changes nothing.
    fn default() -> (calibration: Self)
        ensures
            calibration == (MagCalibration {
                bias: no_field(),
                scale: MagScale { x: 1_000_000, y: 1_000_000, z: 1_000_000 },
                interference_50: no_interference(),
                interference_100: no_interference(),
            }),
    {
        let field = MagVector { x: 0, y: 0, z: 0 };
        let interference = TrackInterference { both: field, left: field, right: field };
        MagCalibration {
            bias: field,
            scale: MagScale { x: 1_000_000, y: 1_000_000, z: 1_000_000 },
            interference_50: interference,
            interference_100: interference,
        }
    }
}

/// A hundred times the field of one axis at a doubled speed: through the field at
/// half speed and the one at full speed, linearly.
pub open spec fn field_at(at_50: i32, at_100: i32, doubled_speed: int) -> int {
    if doubled_speed <= 100 {
        at_50 * doubled_speed
    } else {
        at_50 * 100 + (at_100 - at_50) * (doubled_speed - 100)
    }
}

/// The magnitude of a track speed.
pub open spec fn magnitude(speed: i8) -> int {
    if speed < 0 {
        -speed
    } else {
        speed as int
    }
}

/// The motors' field on one axis at given track speeds, as a numerator and a
/// denominator. Tracks at about the same speed count as one motor at their mean;
/// otherwise each track contributes by its share of the speed.
pub open spec fn interference_of(
    at_50: (i32, i32, i32),
    at_100: (i32, i32, i32),
    left_speed: i8,
    right_speed: i8,
) -> (int, int) {
    let left = magnitude(left_speed);
    let right = magnitude(right_speed);
    if left == 0 && right == 0 {
        (0, 100)
    } else if -10 < left - right < 10 {
        (field_at(at_50.0, at_100.0, left + right), 100)
    } else {
        (
            field_at(at_50.1, at_100.1, 2 * left) * left + field_at(at_50.2, at_100.2, 2 * right)
                * right,
            100 * (left + right),
        )
    }
}

/// One axis of a calibrated reading, rounded to the nearest nanotesla: the reading
/// less the motors' field and the bias, scaled.
pub open spec fn corrected_axis(
    raw: int,
    bias: i32,
    scale_ppm: i32,
    interference: (int, int),
) -> int {
    motor_driver::rounded(
        ((raw - bias) * interference.1 - interference.0) * scale_ppm,
        interference.1 * 1_000_000,
    )
}

/// The per-axis fields of both tracks, left and right, of one speed.
pub open spec fn axis_x(field: TrackInterference) -> (i32, i32, i32) {
    (field.both.x, field.left.x, field.right.x)
}

pub open spec fn axis_y(field: TrackInterference) -> (i32, i32, i32) {
    (field.both.y, field.left.y, field.right.y)
}

pub open spec fn axis_z(field: TrackInterference) -> (i32, i32, i32) {
    (field.both.z, field.left.z, field.right.z)
}

/// A calibrated field on three axes, in nanotesla.
#[derive(Debug, Clone, Copy, PartialEq, Eq, Structural)]
pub struct CalibratedMag {
    pub x: i64,
    pub y: i64,
    pub z: i64,
}

/// What a calibration makes of a raw reading at given track speeds.
pub open spec fn calibrated(
    raw: MagVector,
    calibration: Option<MagCalibration>,
    left_speed: i8,
    right_speed: i8,
) -> CalibratedMag {
    match calibration {
        None => CalibratedMag { x: raw.x as i64, y: raw.y as i64, z: raw.z as i64 },
        Some(cal) => CalibratedMag {
            x: corrected_axis(
                raw.x as int,
                cal.bias.x,
                cal.scale.x,
                interference_of(
                    axis_x(cal.interference_50),
                    axis_x(cal.interference_100),
                    left_speed,
                    right_speed,
                ),
            ) as i64,
            y: corrected_axis(
                raw.y as int,
                cal.bias.y,
                cal.scale.y,
                interference_of(
                    axis_y(cal.interference_50),
                    axis_y(cal.interference_100),
                    left_speed,
                    right_speed,
                ),
            ) as i64,
            z: corrected_axis(
                raw.z as int,
                cal.bias.z,
                cal.scale.z,
                interference_of(
                    axis_z(cal.interference_50),
                    axis_z(cal.interference_100),
                    left_speed,
                    right_speed,
                ),
            ) as i64,
        },
    }
}

/// A hundred times the field of one axis at a doubled speed.
fn field(at_50: i32, at_100: i32, doubled_speed: i64) -> (scaled: i64)
    requires
        0 <= doubled_speed <= 254,
    ensures
        scaled == field_at(at_50, at_100, doubled_speed as int),
        -0x100_0000_0000 <= scaled <= 0x100_0000_0000,
{
    if doubled_speed <= 100 {
        assert(-0x100_0000_0000 <= at_50 * doubled_speed <= 0x100_0000_0000) by (nonlinear_arith)
            requires
                0 <= doubled_speed <= 100,
                -0x8000_0000 <= at_50 <= 0x7fff_ffff,
        ;
        at_50 as i64 * doubled_speed
    } else {
        let slope: i64 = at_100 as i64 - at_50 as i64;
        let excess: i64 = doubled_speed - 100;
        assert(-0x1_0000_0000 * 154 <= slope * excess <= 0x1_0000_0000 * 154) by (nonlinear_arith)
            requires
                0 <= excess <= 154,
                -0x1_0000_0000 <= slope <= 0x1_0000_0000,
        ;
        at_50 as i64 * 100 + slope * excess
    }
}

/// The magnitude of a track speed.
fn magnitude_of(speed: i8) -> (value: i64)
    requires
        speed > i8::MIN,
    ensures
        value == magnitude(speed),
        0 <= value <= 127,
{
    if speed < 0 {
        -(speed as i64)
    } else {
        speed as i64
    }
}

/// The motors' field on one axis.
fn interpolate_interference(
    at_50: (i32, i32, i32),
    at_100: (i32, i32, i32),
    left_speed: i8,
    right_speed: i8,
) -> (share: (i64, i64))
    requires
        left_speed > i8::MIN,
        right_speed > i8::MIN,
    ensures
        (share.0 as int, share.1 as int) == interference_of(at_50, at_100, left_speed, right_speed),
        100 <= share.1 <= 25_400,
        -0x1_0000_0000_0000 <= share.0 <= 0x1_0000_0000_0000,
{
    let left = magnitude_of(left_speed);
    let right = magnitude_of(right_speed);
    if left == 0 && right == 0 {
        (0, 100)
    } else if -10 < left - right && left - right < 10 {
        (field(at_50.0, at_100.0, left + right), 100)
    } else {
        let of_left = field(at_50.1, at_100.1, 2 * left);
        let of_right = field(at_50.2, at_100.2, 2 * right);
        assert(-0x100_0000_0000 * 127 <= of_left * left <= 0x100_0000_0000 * 127) by (nonlinear_arith)
            requires
                0 <= left <= 127,
                -0x100_0000_0000 <= of_left <= 0x100_0000_0000,
        ;
        assert(-0x100_0000_0000 * 127 <= of_right * right <= 0x100_0000_0000 * 127)
            by (nonlinear_arith)
            requires
                0 <= right <= 127,
                -0x100_0000_0000 <= of_right <= 0x100_0000_0000,
        ;
        (of_left * left + of_right * right, 100 * (left + right))
    }
}

/// A quotient rounded to the nearest integer, halves away from zero.
fn round_div(num: i128, den: i128) -> (quotient: i128)
    requires
        0 < den <= 0x10_0000_0000_0000,
        -0x10_0000_0000_0000_0000_0000 <= num <= 0x10_0000_0000_0000_0000_0000,
    ensures
        quotient == motor_driver::rounded(num as int, den as int),
{
    if num >= 0 {
        (2 * num + den) / (2 * den)
    } else {
        -((2 * -num + den) / (2 * den))
    }
}

/// One axis of a calibrated reading.
fn correct_axis(raw: i32, bias: i32, scale_ppm: i32, interference: (i64, i64)) -> (value: i64)
    requires
        100 <= interference.1 <= 25_400,
        -0x1_0000_0000_0000 <= interference.0 <= 0x1_0000_0000_0000,
    ensures
        value == corrected_axis(
            raw as int,
            bias,
            scale_ppm,
            (interference.0 as int, interference.1 as int),
        ),
{
    let offset: i128 = raw as i128 - bias as i128;
    let den: i128 = interference.1 as i128;
    assert(-0x1_0000_0000 * 25_400 <= offset * den <= 0x1_0000_0000 * 25_400) by (nonlinear_arith)
        requires
            -0x1_0000_0000 <= offset <= 0x1_0000_0000,
            100 <= den <= 25_400,
    ;
    let net: i128 = offset * den - interference.0 as i128;
    let scale: i128 = scale_ppm as i128;
    assert(-0x2_0000_0000_0000 <= net <= 0x2_0000_0000_0000);
    assert(-0x2_0000_0000_0000 * 0x8000_0000 <= net * scale <= 0x2_0000_0000_0000 * 0x8000_0000)
        by (nonlinear_arith)
        requires
            -0x2_0000_0000_0000 <= net <= 0x2_0000_0000_0000,
            -0x8000_0000 <= scale <= 0x8000_0000,
    ;
    let numerator: i128 = net * scale;
    let denominator: i128 = den * 1_000_000;
    let quotient = round_div(numerator, denominator);
    proof {
        lemma_rounded_is_small(numerator as int, denominator as int);
    }
    quotient as i64
}

/// A rounded quotient by at least a hundred million is small.
proof fn lemma_rounded_is_small(num: int, den: int)
    requires
        den >= 100_000_000,
        -0x2_0000_0000_0000 * 0x8000_0000 <= num <= 0x2_0000_0000_0000 * 0x8000_0000,
    ensures
        i64::MIN < motor_driver::rounded(num, den) < i64::MAX,
{
    let size = if num >= 0 {
        num
    } else {
        -num
    };
    let quotient = (2 * size + den) / (2 * den);
    assert(0 <= quotient <= size / 100_000_000 + 1) by (nonlinear_arith)
        requires
            quotient == (2 * size + den) / (2 * den),
            size >= 0,
            den >= 100_000_000,
    {
        vstd::arithmetic::div_mod::lemma_fundamental_div_mod(2 * size + den, 2 * den);
        vstd::arithmetic::div_mod::lemma_fundamental_div_mod(size, 100_000_000);
    }
}

/// Calibrate a raw magnetometer reading.
pub fn calibrate(
    raw: MagVector,
    calibration: Option<MagCalibration>,
    left_speed: i8,
    right_speed: i8,
) -> (mag: CalibratedMag)
    requires
        left_speed > i8::MIN,
        right_speed > i8::MIN,
    ensures
        mag == calibrated(raw, calibration, left_speed, right_speed),
{
    match calibration {
        None => CalibratedMag { x: raw.x as i64, y: raw.y as i64, z: raw.z as i64 },
        Some(cal) => {
            let half = cal.interference_50;
            let full = cal.interference_100;
            let x = interpolate_interference(
                (half.both.x, half.left.x, half.right.x),
                (full.both.x, full.left.x, full.right.x),
                left_speed,
                right_speed,
            );
            let y = interpolate_interference(
                (half.both.y, half.left.y, half.right.y),
                (full.both.y, full.left.y, full.right.y),
                left_speed,
                right_speed,
            );
            let z = interpolate_interference(
                (half.both.z, half.left.z, half.right.z),
                (full.both.z, full.left.z, full.right.z),
                left_speed,
                right_speed,
            );
            CalibratedMag {
                x: correct_axis(raw.x, cal.bias.x, cal.scale.x, x),
                y: correct_axis(raw.y, cal.bias.y, cal.scale.y, y),
                z: correct_axis(raw.z, cal.bias.z, cal.scale.z, z),
            }
        },
    }
}

/// With the motors off only hard and soft iron are corrected, and the calibration
/// that changes nothing gives every reading back.
pub proof fn law_neutral_calibration_changes_nothing(raw: MagVector)
    ensures
        calibrated(
            raw,
            Some(
                MagCalibration {
                    bias: no_field(),
                    scale: MagScale { x: 1_000_000, y: 1_000_000, z: 1_000_000 },
                    interference_50: no_interference(),
                    interference_100: no_interference(),
                },
            ),
            0,
            0,
        ) == calibrated(raw, None, 0, 0),
{
    lemma_neutral_axis(raw.x as int);
    lemma_neutral_axis(raw.y as int);
    lemma_neutral_axis(raw.z as int);
}

/// No bias, no field and a scale of one give the reading back.
proof fn lemma_neutral_axis(raw: int)
    ensures
        corrected_axis(raw, 0, 1_000_000, (0, 100)) == raw,
{
    assert(((raw - 0) * 100 - 0) * 1_000_000 == 100_000_000 * raw);
    assert(100 * 1_000_000 == 100_000_000);
    assert((2 * (100_000_000 * raw) + 100_000_000) / 200_000_000 == raw);
    assert((2 * -(100_000_000 * raw) + 100_000_000) / 200_000_000 == -raw);
}

/// The motors' field meets the measured ones: at half and at full speed of both tracks
/// it is what was measured there with both tracks.
pub proof fn law_interference_meets_the_measurements(at_50: (i32, i32, i32), at_100: (i32, i32, i32))
    ensures
        interference_of(at_50, at_100, 50, 50) == (100 * at_50.0, 100int),
        interference_of(at_50, at_100, 100, 100) == (100 * at_100.0, 100int),
        interference_of(at_50, at_100, 50, 0) == (100 * at_50.1 * 50, 100 * 50int),
        interference_of(at_50, at_100, 100, 0) == (100 * at_100.1 * 100, 100 * 100int),
        interference_of(at_50, at_100, 0, 50) == (100 * at_50.2 * 50, 100 * 50int),
        interference_of(at_50, at_100, 0, 100) == (100 * at_100.2 * 100, 100 * 100int),
{
    lemma_field_at_full_speed(at_50.0, at_100.0);
    lemma_field_at_full_speed(at_50.1, at_100.1);
    lemma_field_at_full_speed(at_50.2, at_100.2);
}

/// The line through both fields meets the one at full speed.
proof fn lemma_field_at_full_speed(at_50: i32, at_100: i32)
    ensures
        field_at(at_50, at_100, 200) == 100 * at_100,
{
    let slope = at_100 - at_50;
    let excess = 200int - 100;
    assert(excess == 100);
    assert(slope * excess == slope * 100);
}

/// A calibrated reading is the raw one less the bias and the motors' field, times the
/// scale, to the nearest nanotesla, each axis with its own bias, scale and field.
pub proof fn law_calibration_takes_out_bias_and_interference(
    raw: MagVector,
    cal: MagCalibration,
    left_speed: i8,
    right_speed: i8,
)
    requires
        left_speed > i8::MIN,
        right_speed > i8::MIN,
    ensures
        ({
            let after = calibrated(raw, Some(cal), left_speed, right_speed);
            let (half, full) = (cal.interference_50, cal.interference_100);
            let x = interference_of(
                (half.both.x, half.left.x, half.right.x),
                (full.both.x, full.left.x, full.right.x),
                left_speed,
                right_speed,
            );
            let y = interference_of(
                (half.both.y, half.left.y, half.right.y),
                (full.both.y, full.left.y, full.right.y),
                left_speed,
                right_speed,
            );
            let z = interference_of(
                (half.both.z, half.left.z, half.right.z),
                (full.both.z, full.left.z, full.right.z),
                left_speed,
                right_speed,
            );
            &&& motor_driver::is_nearest(
                after.x as int,
                (raw.x * x.1 - cal.bias.x * x.1 - x.0) * cal.scale.x,
                x.1 * 1_000_000,
            )
            &&& motor_driver::is_nearest(
                after.y as int,
                (raw.y * y.1 - cal.bias.y * y.1 - y.0) * cal.scale.y,
                y.1 * 1_000_000,
            )
            &&& motor_driver::is_nearest(
                after.z as int,
                (raw.z * z.1 - cal.bias.z * z.1 - z.0) * cal.scale.z,
                z.1 * 1_000_000,
            )
        }),
{
    let (half, full) = (cal.interference_50, cal.interference_100);
    let x = interference_of(axis_x(half), axis_x(full), left_speed, right_speed);
    let y = interference_of(axis_y(half), axis_y(full), left_speed, right_speed);
    let z = interference_of(axis_z(half), axis_z(full), left_speed, right_speed);
    lemma_interference_fits(axis_x(half), axis_x(full), left_speed, right_speed);
    lemma_interference_fits(axis_y(half), axis_y(full), left_speed, right_speed);
    lemma_interference_fits(axis_z(half), axis_z(full), left_speed, right_speed);
    lemma_corrected_is_nearest(raw.x as int, cal.bias.x, cal.scale.x, x);
    lemma_corrected_is_nearest(raw.y as int, cal.bias.y, cal.scale.y, y);
    lemma_corrected_is_nearest(raw.z as int, cal.bias.z, cal.scale.z, z);
}

/// The motors' field is bounded.
proof fn lemma_interference_fits(
    at_50: (i32, i32, i32),
    at_100: (i32, i32, i32),
    left_speed: i8,
    right_speed: i8,
)
    requires
        left_speed > i8::MIN,
        right_speed > i8::MIN,
    ensures
        ({
            let share = interference_of(at_50, at_100, left_speed, right_speed);
            &&& 100 <= share.1 <= 25_400
            &&& -0x1_0000_0000_0000 <= share.0 <= 0x1_0000_0000_0000
        }),
{
    let left = magnitude(left_speed);
    let right = magnitude(right_speed);
    lemma_field_fits(at_50.0, at_100.0, left + right);
    lemma_field_fits(at_50.1, at_100.1, 2 * left);
    lemma_field_fits(at_50.2, at_100.2, 2 * right);
    let of_left = field_at(at_50.1, at_100.1, 2 * left);
    let of_right = field_at(at_50.2, at_100.2, 2 * right);
    assert(-0x100_0000_0000 * 127 <= of_left * left <= 0x100_0000_0000 * 127) by (nonlinear_arith)
        requires
            0 <= left <= 127,
            -0x100_0000_0000 <= of_left <= 0x100_0000_0000,
    ;
    assert(-0x100_0000_0000 * 127 <= of_right * right <= 0x100_0000_0000 * 127)
        by (nonlinear_arith)
        requires
            0 <= right <= 127,
            -0x100_0000_0000 <= of_right <= 0x100_0000_0000,
    ;
}

proof fn lemma_field_fits(at_50: i32, at_100: i32, doubled_speed: int)
    requires
        0 <= doubled_speed <= 254,
    ensures
        -0x100_0000_0000 <= field_at(at_50, at_100, doubled_speed) <= 0x100_0000_0000,
{
    if doubled_speed <= 100 {
        assert(-0x100_0000_0000 <= at_50 * doubled_speed <= 0x100_0000_0000) by (nonlinear_arith)
            requires
                0 <= doubled_speed <= 100,
                -0x8000_0000 <= at_50 <= 0x7fff_ffff,
        ;
    } else {
        let slope = at_100 - at_50;
        let excess = doubled_speed - 100;
        assert(-0x1_0000_0000 * 154 <= slope * excess <= 0x1_0000_0000 * 154) by (nonlinear_arith)
            requires
                0 <= excess <= 154,
                -0x1_0000_0000 <= slope <= 0x1_0000_0000,
        ;
    }
}

proof fn lemma_corrected_is_nearest(raw: int, bias: i32, scale_ppm: i32, share: (int, int))
    requires
        -0x8000_0000 <= raw <= 0x7fff_ffff,
        100 <= share.1 <= 25_400,
        -0x1_0000_0000_0000 <= share.0 <= 0x1_0000_0000_0000,
    ensures
        corrected_axis(raw, bias, scale_ppm, share) as i64 == corrected_axis(
            raw,
            bias,
            scale_ppm,
            share,
        ),
        motor_driver::is_nearest(
            corrected_axis(raw, bias, scale_ppm, share),
            (raw * share.1 - bias * share.1 - share.0) * scale_ppm,
            share.1 * 1_000_000,
        ),
{
    let offset = raw - bias;
    let den = share.1;
    assert(offset * den == raw * den - bias * den) by (nonlinear_arith)
        requires
            offset == raw - bias,
    ;
    assert(-0x1_0000_0000 * 25_400 <= offset * den <= 0x1_0000_0000 * 25_400) by (nonlinear_arith)
        requires
            -0x1_0000_0000 <= offset <= 0x1_0000_0000,
            100 <= den <= 25_400,
    ;
    let net = offset * den - share.0;
    assert(-0x2_0000_0000_0000 * 0x8000_0000 <= net * scale_ppm <= 0x2_0000_0000_0000
        * 0x8000_0000) by (nonlinear_arith)
        requires
            -0x2_0000_0000_0000 <= net <= 0x2_0000_0000_0000,
            -0x8000_0000 <= scale_ppm <= 0x8000_0000,
    ;
    lemma_rounded_is_small(net * scale_ppm, den * 1_000_000);
    motor_driver::law_rounded_is_nearest(net * scale_ppm, den * 1_000_000);
}

/// The motors' field grows in proportion to the speed between standing still, half speed
/// and beyond: through nothing, the field measured at half speed and the one at full speed
/// on two straight lines. Which way a track runs does not matter, and exchanging the tracks
/// and their fields changes nothing.
pub proof fn law_interference_is_interpolated(
    at_50: (i32, i32, i32),
    at_100: (i32, i32, i32),
    left_speed: i8,
    right_speed: i8,
    speed: int,
)
    requires
        left_speed > i8::MIN,
        right_speed > i8::MIN,
    ensures
        field_at(at_50.0, at_100.0, 0) == 0,
        field_at(at_50.0, at_100.0, 100) == 100 * at_50.0,
        field_at(at_50.0, at_100.0, 200) == 100 * at_100.0,
        speed < 100 || speed > 100 ==> field_at(at_50.0, at_100.0, speed - 1) + field_at(
            at_50.0,
            at_100.0,
            speed + 1,
        ) == 2 * field_at(at_50.0, at_100.0, speed),
        interference_of(at_50, at_100, (-left_speed) as i8, right_speed) == interference_of(
            at_50,
            at_100,
            left_speed,
            right_speed,
        ),
        interference_of(at_50, at_100, left_speed, (-right_speed) as i8) == interference_of(
            at_50,
            at_100,
            left_speed,
            right_speed,
        ),
        interference_of(
            (at_50.0, at_50.2, at_50.1),
            (at_100.0, at_100.2, at_100.1),
            right_speed,
            left_speed,
        ) == interference_of(at_50, at_100, left_speed, right_speed),
        interference_of(at_50, at_100, 0, 0).0 == 0,
{
    lemma_field_at_full_speed(at_50.0, at_100.0);
    let half = at_50.0 as int;
    let slope = at_100.0 - at_50.0;
    assert(half * (speed - 1) + half * (speed + 1) == 2 * (half * speed)) by (nonlinear_arith);
    assert(slope * (speed - 1 - 100) + slope * (speed + 1 - 100) == 2 * (slope * (speed - 100)))
        by (nonlinear_arith);
    assert(slope * (100 - 100) == 0) by (nonlinear_arith);
    assert(half * 0 == 0);
    if speed == 101 {
        assert(slope * (speed - 1 - 100) == 0) by (nonlinear_arith)
            requires
                speed == 101,
        ;
    }
}

/// Tracks less than ten apart in speed count as one motor at their mean, whatever each was
/// measured at alone; farther apart, the field is the mean of each track's own, weighted by
/// its speed, whatever both were measured at together. A track that stands adds nothing.
pub proof fn law_interference_weighs_the_tracks(
    at_50: (i32, i32, i32),
    at_100: (i32, i32, i32),
    left: i8,
    right: i8,
)
    requires
        left >= 0,
        right >= 0,
        left + right > 0,
    ensures
        ({
            let (num, den) = interference_of(at_50, at_100, left, right);
            let alike = left - right < 10 && right - left < 10;
            &&& den > 0
            &&& alike ==> num * 100 == field_at(at_50.0, at_100.0, left + right) * den
            &&& !alike ==> num * (left + right) * 100 == (field_at(at_50.1, at_100.1, 2 * left)
                * left + field_at(at_50.2, at_100.2, 2 * right) * right) * den
            &&& !alike && right == 0 ==> num * 100 == field_at(at_50.1, at_100.1, 2 * left) * den
            &&& !alike && left == 0 ==> num * 100 == field_at(at_50.2, at_100.2, 2 * right) * den
        }),
{
    let (num, den) = interference_of(at_50, at_100, left, right);
    let sum = left + right;
    let l = left as int;
    let r = right as int;
    let of_left = field_at(at_50.1, at_100.1, 2 * left);
    let of_right = field_at(at_50.2, at_100.2, 2 * right);
    let weighted = of_left * l + of_right * r;
    assert(weighted * sum * 100 == weighted * (100 * sum)) by (nonlinear_arith);
    if right == 0 {
        assert(weighted * 100 == of_left * (100 * sum)) by (nonlinear_arith)
            requires
                weighted == of_left * l + of_right * r,
                r == 0,
                sum == l + r,
        ;
    }
    if left == 0 {
        assert(weighted * 100 == of_right * (100 * sum)) by (nonlinear_arith)
            requires
                weighted == of_left * l + of_right * r,
                l == 0,
                sum == l + r,
        ;
    }
}

/// The robot's axes are the sensor's with the first two exchanged, so naming them twice
/// gives them back.
pub proof fn law_sensor_axes_are_exchanged(
    roll_udeg: i32,
    pitch_udeg: i32,
    yaw_udeg: i32,
    once: Orientation,
    twice: Orientation,
)
    requires
        call_ensures(Orientation::from_sensor, (roll_udeg, pitch_udeg, yaw_udeg), once),
        call_ensures(
            Orientation::from_sensor,
            (once.roll_udeg, once.pitch_udeg, once.yaw_udeg),
            twice,
        ),
    ensures
        once.roll_udeg == pitch_udeg,
        once.pitch_udeg == roll_udeg,
        once.yaw_udeg == yaw_udeg,
        twice.roll_udeg == roll_udeg,
        twice.pitch_udeg == pitch_udeg,
        twice.yaw_udeg == yaw_udeg,
{
}

/// With the motors at rest a calibrated reading is the raw one less the bias, times the
/// scale, to the nearest nanotesla; without calibration data it is the raw one.
pub proof fn law_reading_at_rest(
    raw: MagVector,
    cal: MagCalibration,
    calibrated_reading: CalibratedMag,
    plain: CalibratedMag,
    left_speed: i8,
    right_speed: i8,
)
    requires
        call_ensures(calibrate, (raw, Some(cal), 0i8, 0i8), calibrated_reading),
        call_ensures(calibrate, (raw, None, left_speed, right_speed), plain),
    ensures
        motor_driver::is_nearest(
            calibrated_reading.x as int,
            (raw.x - cal.bias.x) * cal.scale.x,
            1_000_000,
        ),
        motor_driver::is_nearest(
            calibrated_reading.y as int,
            (raw.y - cal.bias.y) * cal.scale.y,
            1_000_000,
        ),
        motor_driver::is_nearest(
            calibrated_reading.z as int,
            (raw.z - cal.bias.z) * cal.scale.z,
            1_000_000,
        ),
        plain.x == raw.x,
        plain.y == raw.y,
        plain.z == raw.z,
{
    law_calibration_takes_out_bias_and_interference(raw, cal, 0, 0);
    lemma_nearest_of_hundredths(
        calibrated_reading.x as int,
        raw.x as int,
        cal.bias.x as int,
        cal.scale.x as int,
    );
    lemma_nearest_of_hundredths(
        calibrated_reading.y as int,
        raw.y as int,
        cal.bias.y as int,
        cal.scale.y as int,
    );
    lemma_nearest_of_hundredths(
        calibrated_reading.z as int,
        raw.z as int,
        cal.bias.z as int,
        cal.scale.z as int,
    );
}

/// A hundredfold ratio is rounded as the ratio is.
proof fn lemma_nearest_of_hundredths(value: int, raw: int, bias: int, scale: int)
    requires
        motor_driver::is_nearest(value, (raw * 100 - bias * 100 - 0) * scale, 100_000_000),
    ensures
        motor_driver::is_nearest(value, (raw - bias) * scale, 1_000_000),
{
    assert((raw * 100 - bias * 100 - 0) * scale == 100 * ((raw - bias) * scale)) by (
        nonlinear_arith);
}

} // verus!
