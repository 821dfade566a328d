//! The two-track motor driver: one motor per track on a TB6612FNG.
//!
//! A commanded speed passes through the track's calibration factor and the voltage
//! compensation before it reaches the direction pins and the PWM duty. The battery
//! is compensated down to six volts at the motors.

use vstd::prelude::*;

verus! {

/// Voltage the motors are compensated to, in millivolts.
pub const TARGET_MOTOR_MV: u32 = 6_000;

/// A factor of one, in parts per million.
pub const UNIT_FACTOR_PPM: i32 = 1_000_000;

/// Smallest calibration factor, in parts per million.
pub const MIN_FACTOR_PPM: i32 = 500_000;

/// Largest calibration factor, in parts per million.
pub const MAX_FACTOR_PPM: i32 = 1_500_000;

/// Full speed.
pub const FULL_SPEED: i8 = 100;

/// A track of the robot.
#[derive(Debug, Clone, Copy, PartialEq, Eq, Structural)]
pub enum Track {
    Left,
    Right,
}

/// Direction states of one driver half.
#[derive(Debug, Clone, Copy, PartialEq, Eq, Structural)]
pub enum MotorDirection {
    Forward,
    Backward,
    Coast,
    Brake,
}

/// Per-track factors that balance the tracks, in parts per million.
#[derive(Debug, Clone, Copy, PartialEq, Eq, Structural)]
pub struct MotorCalibration {
    pub left_factor_ppm: i32,
    pub right_factor_ppm: i32,
}

/// Motor control commands.
#[derive(Debug, Clone, Copy, PartialEq, Eq, Structural)]
pub enum MotorCommand {
    /// Set both tracks, from -100 to +100, calibrated and compensated.
    SetTracks { left_speed: i8, right_speed: i8 },
    /// Brake both motors.
    BrakeAll,
    /// Let both motors run free.
    CoastAll,
    /// Take the driver out of standby or put it there.
    SetAllDriversEnable { enabled: bool },
    /// Take stored calibration factors as they are.
    LoadCalibration(MotorCalibration),
    /// Take new calibration factors, clamped to the valid range.
    UpdateAllCalibration { left_factor_ppm: i64, right_factor_ppm: i64 },
}

/// A calibration factor clamped to the valid range.
pub open spec fn clamped_factor(factor_ppm: int) -> i32 {
    if factor_ppm < MIN_FACTOR_PPM {
        MIN_FACTOR_PPM
    } else if factor_ppm > MAX_FACTOR_PPM {
        MAX_FACTOR_PPM
    } else {
        factor_ppm as i32
    }
}

/// `num / den` rounded to the nearest integer, halves away from zero.
pub open spec fn rounded(num: int, den: int) -> int {
    if num >= 0 {
        (2 * num + den) / (2 * den)
    } else {
        -((2 * -num + den) / (2 * den))
    }
}

/// A speed clamped to full speed either way.
pub open spec fn clamped_speed(speed: int) -> i8 {
    (if speed < -100 {
        -100
    } else if speed > 100 {
        100
    } else {
        speed
    }) as i8
}

/// A commanded speed after the calibration factor.
pub open spec fn calibrated(speed: i8, factor_ppm: i32) -> i8 {
    clamped_speed(rounded(speed * factor_ppm, UNIT_FACTOR_PPM as int))
}

/// A calibrated speed after the voltage compensation.
pub open spec fn compensated(speed: i8, compensation: VoltageCompensation) -> i8 {
    clamped_speed(rounded(speed * TARGET_MOTOR_MV, compensation.battery_mv as int))
}

impl Default for MotorCalibration {
    /// No correction.
    fn default() -> (calibration: Self)
        ensures
            calibration == (MotorCalibration {
                left_factor_ppm: UNIT_FACTOR_PPM,
                right_factor_ppm: UNIT_FACTOR_PPM,
            }),
    {
        MotorCalibration { left_factor_ppm: UNIT_FACTOR_PPM, right_factor_ppm: UNIT_FACTOR_PPM }
    }
}

impl MotorCalibration {
    /// The factor of a track.
    pub open spec fn factor(self, track: Track) -> i32 {
        match track {
            Track::Left => self.left_factor_ppm,
            Track::Right => self.right_factor_ppm,
        }
    }

    /// Factors clamped to the valid range.
    pub fn new(left_factor_ppm: i64, right_factor_ppm: i64) -> (calibration: Self)
        ensures
            calibration.left_factor_ppm == clamped_factor(left_factor_ppm as int),
            calibration.right_factor_ppm == clamped_factor(right_factor_ppm as int),
    {
        MotorCalibration {
            left_factor_ppm: clamp_factor(left_factor_ppm),
            right_factor_ppm: clamp_factor(right_factor_ppm),
        }
    }

    /// The factor of a track.
    pub fn get_factor(&self, track: Track) -> (factor_ppm: i32)
        ensures
            factor_ppm == self.factor(track),
    {
        match track {
            Track::Left => self.left_factor_ppm,
            Track::Right => self.right_factor_ppm,
        }
    }

    /// A commanded speed after the track's factor.
    pub fn apply(&self, track: Track, speed: i8) -> (result: i8)
        ensures
            result == calibrated(speed, self.factor(track)),
    {
        let factor = self.get_factor(track);
        assert(-274_877_906_944 <= speed * factor <= 274_877_906_944) by (nonlinear_arith)
            requires
                -128 <= speed <= 127,
                -2_147_483_648 <= factor <= 2_147_483_647,
        ;
        round_to_speed(speed as i64 * factor as i64, UNIT_FACTOR_PPM as i64)
    }

    /// A commanded speed after the track's factor and the voltage compensation.
    pub fn apply_with_voltage_compensation(
        &self,
        track: Track,
        speed: i8,
        compensation: VoltageCompensation,
    ) -> (result: i8)
        requires
            compensation.wf(),
        ensures
            result == compensated(calibrated(speed, self.factor(track)), compensation),
    {
        let balanced = self.apply(track, speed);
        let target: i64 = TARGET_MOTOR_MV as i64;
        assert(-768_000 <= balanced * target <= 768_000) by (nonlinear_arith)
            requires
                -128 <= balanced <= 127,
                target == 6_000,
        ;
        let num: i64 = balanced as i64 * target;
        round_to_speed(num, compensation.battery_mv as i64)
    }
}

/// A calibration factor clamped to the valid range.
fn clamp_factor(factor_ppm: i64) -> (clamped: i32)
    ensures
        clamped == clamped_factor(factor_ppm as int),
{
    if factor_ppm < MIN_FACTOR_PPM as i64 {
        MIN_FACTOR_PPM
    } else if factor_ppm > MAX_FACTOR_PPM as i64 {
        MAX_FACTOR_PPM
    } else {
        factor_ppm as i32
    }
}

/// A quotient rounded to a speed.
fn round_to_speed(num: i64, den: i64) -> (speed: i8)
    requires
        -274_877_906_944 <= num <= 274_877_906_944,
        0 < den <= 0xffff_ffff,
    ensures
        speed == clamped_speed(rounded(num as int, den as int)),
{
    let magnitude: i64 = if num >= 0 {
        num
    } else {
        -num
    };
    let nearest: i64 = (2 * magnitude + den) / (2 * den);
    assert(0 <= nearest) by (nonlinear_arith)
        requires
            magnitude >= 0,
            den > 0,
            nearest == (2 * magnitude + den) / (2 * den),
    ;
    assert(nearest <= 2 * magnitude + den) by (nonlinear_arith)
        requires
            magnitude >= 0,
            den > 0,
            nearest == (2 * magnitude + den) / (2 * den),
    ;
    let capped: i8 = if nearest > FULL_SPEED as i64 {
        FULL_SPEED
    } else {
        nearest as i8
    };
    if num >= 0 {
        capped
    } else {
        -capped
    }
}

/// The battery voltage the duty is compensated for, never below the target.
///
/// The compensation factor is the target voltage over this one.
#[derive(Debug, Clone, Copy, PartialEq, Eq, Structural)]
pub struct VoltageCompensation {
    /// Battery voltage compensated for, in millivolts.
    pub battery_mv: u32,
}

impl VoltageCompensation {
    /// The factor is at most one.
    pub open spec fn wf(self) -> bool {
        self.battery_mv >= TARGET_MOTOR_MV
    }

    /// Whether the factors of two compensations differ by more than one hundredth.
    pub open spec fn differs(self, other: Self) -> bool {
        let gap = if self.battery_mv >= other.battery_mv {
            self.battery_mv - other.battery_mv
        } else {
            other.battery_mv - self.battery_mv
        };
        100 * TARGET_MOTOR_MV * gap > self.battery_mv * other.battery_mv
    }
}

/// The compensation for a battery voltage. A battery below the target cannot be
/// compensated for and gets the factor one.
pub open spec fn compensation_for(battery_mv: u32) -> VoltageCompensation {
    VoltageCompensation {
        battery_mv: if battery_mv < TARGET_MOTOR_MV {
            TARGET_MOTOR_MV
        } else {
            battery_mv
        },
    }
}

/// The compensation for a battery voltage.
pub fn calculate_voltage_compensation(battery_mv: u32) -> (compensation: VoltageCompensation)
    ensures
        compensation == compensation_for(battery_mv),
        compensation.wf(),
{
    if battery_mv < TARGET_MOTOR_MV {
        VoltageCompensation { battery_mv: TARGET_MOTOR_MV }
    } else {
        VoltageCompensation { battery_mv }
    }
}

/// Whether two compensation factors differ by more than one hundredth.
fn compensation_differs(a: VoltageCompensation, b: VoltageCompensation) -> (differs: bool)
    ensures
        differs == a.differs(b),
{
    let gap: u128 = if a.battery_mv >= b.battery_mv {
        (a.battery_mv - b.battery_mv) as u128
    } else {
        (b.battery_mv - a.battery_mv) as u128
    };
    assert(a.battery_mv * b.battery_mv <= u128::MAX) by (nonlinear_arith)
        requires
            a.battery_mv <= 0xffff_ffff,
            b.battery_mv <= 0xffff_ffff,
    ;
    let scaled: u128 = 600_000 * gap;
    assert(scaled == 100 * TARGET_MOTOR_MV * gap);
    scaled > a.battery_mv as u128 * b.battery_mv as u128
}

/// The direction a speed drives in.
pub open spec fn direction_of(speed: i8) -> MotorDirection {
    if speed > 0 {
        MotorDirection::Forward
    } else if speed < 0 {
        MotorDirection::Backward
    } else {
        MotorDirection::Coast
    }
}

/// The direction a speed drives in.
pub fn speed_to_direction(speed: i8) -> (direction: MotorDirection)
    ensures
        direction == direction_of(speed),
{
    if speed > 0 {
        MotorDirection::Forward
    } else if speed < 0 {
        MotorDirection::Backward
    } else {
        MotorDirection::Coast
    }
}

/// The levels of the forward and the backward pin for a direction, high being true.
pub fn direction_levels(direction: MotorDirection) -> (levels: (bool, bool))
    ensures
        levels.0 == (direction is Forward || direction is Brake),
        levels.1 == (direction is Backward || direction is Brake),
{
    match direction {
        MotorDirection::Forward => (true, false),
        MotorDirection::Backward => (false, true),
        MotorDirection::Coast => (false, false),
        MotorDirection::Brake => (true, true),
    }
}

/// What one driver half puts out.
#[derive(Debug, Clone, Copy, PartialEq, Eq, Structural)]
pub struct TrackOutput {
    /// Direction of the motor.
    pub direction: MotorDirection,
    /// PWM duty in percent.
    pub duty: u8,
}

/// The output for a speed.
pub open spec fn driven_at(speed: i8) -> TrackOutput {
    TrackOutput {
        direction: direction_of(speed),
        duty: if speed < 0 {
            -speed as u8
        } else {
            speed as u8
        },
    }
}

/// The output that stops a motor in the given way.
pub open spec fn stopped_by(direction: MotorDirection) -> TrackOutput {
    TrackOutput { direction, duty: 0 }
}

/// The state of the motor driver.
#[derive(Debug, Clone, Copy, PartialEq, Eq, Structural)]
pub struct MotorDriver {
    /// Output of the left half.
    pub left: TrackOutput,
    /// Output of the right half.
    pub right: TrackOutput,
    /// Level of the standby pin; high takes the driver out of standby.
    pub standby: bool,
    /// Calibration in force.
    pub calibration: MotorCalibration,
    /// Compensation in force.
    pub compensation: VoltageCompensation,
    /// Whether a track was last commanded to move.
    pub motors_active: bool,
    /// Commanded speeds as published, before calibration.
    pub published_left: i8,
    /// Commanded speed of the right track as published.
    pub published_right: i8,
}

/// Whether the motors are active once `command` is carried out.
pub open spec fn active_after(was_active: bool, command: MotorCommand) -> bool {
    match command {
        MotorCommand::SetTracks { left_speed, right_speed } => left_speed != 0 || right_speed != 0,
        MotorCommand::BrakeAll => false,
        MotorCommand::CoastAll => false,
        MotorCommand::SetAllDriversEnable { enabled } => enabled && was_active,
        MotorCommand::LoadCalibration(_) => was_active,
        MotorCommand::UpdateAllCalibration { .. } => was_active,
    }
}

/// The compensation in force while `command` is carried out. It follows the battery
/// only while the motors are idle before and after, because the voltage sags under
/// load.
pub open spec fn compensation_after(
    driver: MotorDriver,
    command: MotorCommand,
    battery_mv: Option<u32>,
) -> VoltageCompensation {
    let idle = !driver.motors_active && !active_after(driver.motors_active, command);
    match battery_mv {
        Some(mv) if idle && compensation_for(mv).differs(driver.compensation) => compensation_for(
            mv,
        ),
        _ => driver.compensation,
    }
}

/// The state after `command` is carried out with the compensation in force.
pub open spec fn carried_out(driver: MotorDriver, command: MotorCommand) -> MotorDriver {
    match command {
        MotorCommand::SetTracks { left_speed, right_speed } => MotorDriver {
            left: driven_at(
                compensated(
                    calibrated(left_speed, driver.calibration.left_factor_ppm),
                    driver.compensation,
                ),
            ),
            right: driven_at(
                compensated(
                    calibrated(right_speed, driver.calibration.right_factor_ppm),
                    driver.compensation,
                ),
            ),
            published_left: left_speed,
            published_right: right_speed,
            ..driver
        },
        MotorCommand::BrakeAll => MotorDriver {
            left: stopped_by(MotorDirection::Brake),
            right: stopped_by(MotorDirection::Brake),
            published_left: 0,
            published_right: 0,
            ..driver
        },
        MotorCommand::CoastAll => MotorDriver {
            left: stopped_by(MotorDirection::Coast),
            right: stopped_by(MotorDirection::Coast),
            published_left: 0,
            published_right: 0,
            ..driver
        },
        MotorCommand::SetAllDriversEnable { enabled } => MotorDriver { standby: enabled, ..driver },
        MotorCommand::LoadCalibration(calibration) => MotorDriver { calibration, ..driver },
        MotorCommand::UpdateAllCalibration { left_factor_ppm, right_factor_ppm } => MotorDriver {
            calibration: MotorCalibration {
                left_factor_ppm: clamped_factor(left_factor_ppm as int),
                right_factor_ppm: clamped_factor(right_factor_ppm as int),
            },
            ..driver
        },
    }
}

/// The state after one command, given the battery voltage if it is known.
pub open spec fn after_command(
    driver: MotorDriver,
    command: MotorCommand,
    battery_mv: Option<u32>,
) -> MotorDriver {
    carried_out(
        MotorDriver {
            compensation: compensation_after(driver, command, battery_mv),
            motors_active: active_after(driver.motors_active, command),
            ..driver
        },
        command,
    )
}

/// The output for a speed.
fn drive_at(speed: i8) -> (output: TrackOutput)
    requires
        -100 <= speed <= 100,
    ensures
        output == driven_at(speed),
{
    let duty: u8 = if speed < 0 {
        (-speed) as u8
    } else {
        speed as u8
    };
    TrackOutput { direction: speed_to_direction(speed), duty }
}

impl MotorDriver {
    /// The compensation factor is at most one.
    pub open spec fn wf(self) -> bool {
        self.compensation.wf()
    }

    /// The driver once the first battery reading is in: motors coasting, driver
    /// enabled, no calibration correction.
    pub fn new(battery_mv: u32) -> (driver: Self)
        ensures
            driver.wf(),
            driver == (MotorDriver {
                left: stopped_by(MotorDirection::Coast),
                right: stopped_by(MotorDirection::Coast),
                standby: true,
                calibration: MotorCalibration {
                    left_factor_ppm: UNIT_FACTOR_PPM,
                    right_factor_ppm: UNIT_FACTOR_PPM,
                },
                compensation: compensation_for(battery_mv),
                motors_active: false,
                published_left: 0,
                published_right: 0,
            }),
    {
        MotorDriver {
            left: TrackOutput { direction: MotorDirection::Coast, duty: 0 },
            right: TrackOutput { direction: MotorDirection::Coast, duty: 0 },
            standby: true,
            calibration: MotorCalibration::default(),
            compensation: calculate_voltage_compensation(battery_mv),
            motors_active: false,
            published_left: 0,
            published_right: 0,
        }
    }

    /// Take one command, given the battery voltage if it is known.
    pub fn handle(&mut self, command: MotorCommand, battery_mv: Option<u32>)
        requires
            old(self).wf(),
        ensures
            final(self).wf(),
            *final(self) == after_command(*old(self), command, battery_mv),
    {
        let was_active = self.motors_active;
        let next_active = match command {
            MotorCommand::SetTracks { left_speed, right_speed } => left_speed != 0 || right_speed
                != 0,
            MotorCommand::BrakeAll | MotorCommand::CoastAll => false,
            MotorCommand::SetAllDriversEnable { enabled } => enabled && was_active,
            MotorCommand::LoadCalibration(_) => was_active,
            MotorCommand::UpdateAllCalibration { .. } => was_active,
        };
        if !was_active && !next_active {
            if let Some(mv) = battery_mv {
                let latest = calculate_voltage_compensation(mv);
                if compensation_differs(latest, self.compensation) {
                    self.compensation = latest;
                }
            }
        }
        self.motors_active = next_active;
        self.process_command(command);
    }

    /// Carry a command out with the compensation in force.
    pub fn process_command(&mut self, command: MotorCommand)
        requires
            old(self).wf(),
        ensures
            final(self).wf(),
            *final(self) == carried_out(*old(self), command),
    {
        match command {
            MotorCommand::SetTracks { left_speed, right_speed } => {
                let left = self.calibration.apply_with_voltage_compensation(
                    Track::Left,
                    left_speed,
                    self.compensation,
                );
                let right = self.calibration.apply_with_voltage_compensation(
                    Track::Right,
                    right_speed,
                    self.compensation,
                );
                self.left = drive_at(left);
                self.right = drive_at(right);
                self.published_left = left_speed;
                self.published_right = right_speed;
            },
            MotorCommand::BrakeAll => {
                self.left = TrackOutput { direction: MotorDirection::Brake, duty: 0 };
                self.right = TrackOutput { direction: MotorDirection::Brake, duty: 0 };
                self.published_left = 0;
                self.published_right = 0;
            },
            MotorCommand::CoastAll => {
                self.left = TrackOutput { direction: MotorDirection::Coast, duty: 0 };
                self.right = TrackOutput { direction: MotorDirection::Coast, duty: 0 };
                self.published_left = 0;
                self.published_right = 0;
            },
            MotorCommand::SetAllDriversEnable { enabled } => {
                self.standby = enabled;
            },
            MotorCommand::LoadCalibration(calibration) => {
                self.calibration = calibration;
            },
            MotorCommand::UpdateAllCalibration { left_factor_ppm, right_factor_ppm } => {
                self.calibration = MotorCalibration::new(left_factor_ppm, right_factor_ppm);
            },
        }
    }
}

/// A brake or a coast stops both tracks at once, whatever went before.
pub proof fn law_stopping_stops_both_tracks(
    driver: MotorDriver,
    command: MotorCommand,
    battery_mv: Option<u32>,
)
    requires
        command is BrakeAll || command is CoastAll,
    ensures
        ({
            let after = after_command(driver, command, battery_mv);
            &&& after.left.duty == 0 && after.right.duty == 0
            &&& after.left.direction == after.right.direction
            &&& after.published_left == 0 && after.published_right == 0
            &&& !after.motors_active
        }),
{
}

/// The compensation never moves while a track is commanded to move.
pub proof fn law_compensation_holds_under_load(
    driver: MotorDriver,
    command: MotorCommand,
    battery_mv: Option<u32>,
)
    requires
        driver.motors_active || active_after(driver.motors_active, command),
    ensures
        after_command(driver, command, battery_mv).compensation == driver.compensation,
{
}

/// The duty never exceeds a hundred percent, and a track that is not driven has
/// none.
pub proof fn law_duty_is_bounded(
    driver: MotorDriver,
    left_speed: i8,
    right_speed: i8,
)
    requires
        driver.wf(),
    ensures
        ({
            let after = carried_out(driver, MotorCommand::SetTracks { left_speed, right_speed });
            &&& after.left.duty <= 100 && after.right.duty <= 100
            &&& after.left.direction is Coast <==> after.left.duty == 0
            &&& after.right.direction is Coast <==> after.right.duty == 0
        }),
{
}

/// Compensation never speeds a track up or turns it round: the result is no larger
/// than the calibrated speed and has its sign or none.
pub proof fn law_compensation_only_slows(speed: i8, compensation: VoltageCompensation)
    requires
        compensation.wf(),
        -100 <= speed <= 100,
    ensures
        speed >= 0 ==> 0 <= compensated(speed, compensation) <= speed,
        speed <= 0 ==> speed <= compensated(speed, compensation) <= 0,
{
    let den = compensation.battery_mv as int;
    let magnitude = if speed >= 0 {
        speed as int
    } else {
        -speed as int
    };
    let num = magnitude * TARGET_MOTOR_MV;
    let nearest = (2 * num + den) / (2 * den);
    assert(0 <= nearest <= magnitude) by (nonlinear_arith)
        requires
            0 <= magnitude,
            den >= 6_000,
            num == magnitude * 6_000,
            nearest == (2 * num + den) / (2 * den),
    ;
}

/// At the target voltage and without a calibration correction a speed within the
/// range reaches the motor unchanged.
pub proof fn law_unit_factors_change_nothing(speed: i8)
    requires
        -100 <= speed <= 100,
    ensures
        compensated(
            calibrated(speed, UNIT_FACTOR_PPM),
            VoltageCompensation { battery_mv: TARGET_MOTOR_MV },
        ) == speed,
{
    lemma_exact_quotient(speed as int, UNIT_FACTOR_PPM as int);
    lemma_exact_quotient(speed as int, TARGET_MOTOR_MV as int);
}

/// A multiple of the denominator rounds to its quotient.
proof fn lemma_exact_quotient(quotient: int, den: int)
    requires
        den > 0,
    ensures
        rounded(quotient * den, den) == quotient,
{
    let magnitude = if quotient >= 0 {
        quotient
    } else {
        -quotient
    };
    assert((2 * (magnitude * den) + den) / (2 * den) == magnitude) by (nonlinear_arith)
        requires
            magnitude >= 0,
            den > 0,
    ;
    assert(quotient >= 0 ==> quotient * den >= 0) by (nonlinear_arith)
        requires
            den > 0,
    ;
    assert(quotient < 0 ==> quotient * den < 0) by (nonlinear_arith)
        requires
            den > 0,
    ;
    assert(-(quotient * den) == (-quotient) * den) by (nonlinear_arith);
}

/// What an output drives at: its duty, counted negative backward and nothing otherwise.
pub open spec fn velocity(output: TrackOutput) -> int {
    match output.direction {
        MotorDirection::Forward => output.duty as int,
        MotorDirection::Backward => -(output.duty as int),
        _ => 0,
    }
}

/// Whether `speed` is the ratio of `num` to `den` as nearly as a speed can be: rounded to
/// the nearest, a half away from zero, and no more than a hundred either way.
pub open spec fn nearest_speed(speed: int, num: int, den: int) -> bool {
    &&& -100 <= speed <= 100
    &&& num >= 0 ==> 0 <= speed && (2 * num < (2 * speed + 1) * den || speed == 100) && (2 * speed
        - 1) * den <= 2 * num
    &&& num < 0 ==> speed <= 0 && (-2 * num < (-2 * speed + 1) * den || speed == -100) && (-2
        * speed - 1) * den <= -2 * num
}

/// Rounding and clamping gives the nearest speed.
proof fn lemma_nearest_speed(num: int, den: int)
    requires
        den > 0,
    ensures
        nearest_speed(clamped_speed(rounded(num, den)) as int, num, den),
{
    let magnitude = if num >= 0 {
        num
    } else {
        -num
    };
    let whole = (2 * magnitude + den) / (2 * den);
    assert(0 <= whole && (2 * whole - 1) * den <= 2 * magnitude < (2 * whole + 1) * den)
        by (nonlinear_arith)
        requires
            magnitude >= 0,
            den > 0,
            whole == (2 * magnitude + den) / (2 * den),
    ;
    if whole > 100 {
        assert((2 * 100 - 1) * den <= 2 * magnitude) by (nonlinear_arith)
            requires
                whole > 100,
                den > 0,
                (2 * whole - 1) * den <= 2 * magnitude,
        ;
    }
}

/// A track goes at its own commanded speed times its own factor, slowed by the voltage
/// over six volts: the calibrated speed is the nearest to the one, the output the nearest
/// to the other. A track that is to stand still runs free.
pub proof fn law_track_speed_is_calibrated_and_compensated(
    driver: MotorDriver,
    left_speed: i8,
    right_speed: i8,
)
    requires
        driver.wf(),
    ensures
        ({
            let after = carried_out(driver, MotorCommand::SetTracks { left_speed, right_speed });
            let volts = driver.compensation.battery_mv as int;
            &&& exists|balanced: int|
                #[trigger] nearest_speed(
                    balanced,
                    left_speed * driver.calibration.left_factor_ppm,
                    1_000_000,
                ) && nearest_speed(velocity(after.left), balanced * 6_000, volts)
            &&& exists|balanced: int|
                #[trigger] nearest_speed(
                    balanced,
                    right_speed * driver.calibration.right_factor_ppm,
                    1_000_000,
                ) && nearest_speed(velocity(after.right), balanced * 6_000, volts)
            &&& velocity(after.left) == 0 ==> after.left == (TrackOutput {
                direction: MotorDirection::Coast,
                duty: 0,
            })
            &&& velocity(after.right) == 0 ==> after.right == (TrackOutput {
                direction: MotorDirection::Coast,
                duty: 0,
            })
        }),
{
    let calibration = driver.calibration;
    let volts = driver.compensation.battery_mv as int;
    let left = calibrated(left_speed, calibration.left_factor_ppm);
    let right = calibrated(right_speed, calibration.right_factor_ppm);
    lemma_nearest_speed(left_speed * calibration.left_factor_ppm, 1_000_000);
    lemma_nearest_speed(right_speed * calibration.right_factor_ppm, 1_000_000);
    lemma_nearest_speed(left * 6_000, volts);
    lemma_nearest_speed(right * 6_000, volts);
    assert(nearest_speed(left as int, left_speed * calibration.left_factor_ppm, 1_000_000));
    assert(nearest_speed(right as int, right_speed * calibration.right_factor_ppm, 1_000_000));
}

/// At six volts a track's output is the nearest to its commanded speed times its factor.
pub proof fn law_factor_scales_the_track_at_the_target_voltage(
    driver: MotorDriver,
    left_speed: i8,
    right_speed: i8,
)
    requires
        driver.compensation.battery_mv == 6_000,
    ensures
        ({
            let after = carried_out(driver, MotorCommand::SetTracks { left_speed, right_speed });
            let calibration = driver.calibration;
            &&& nearest_speed(
                velocity(after.left),
                left_speed * calibration.left_factor_ppm,
                1_000_000,
            )
            &&& nearest_speed(
                velocity(after.right),
                right_speed * calibration.right_factor_ppm,
                1_000_000,
            )
        }),
{
    let calibration = driver.calibration;
    lemma_nearest_speed(left_speed * calibration.left_factor_ppm, 1_000_000);
    lemma_nearest_speed(right_speed * calibration.right_factor_ppm, 1_000_000);
    lemma_exact_quotient(
        calibrated(left_speed, calibration.left_factor_ppm) as int,
        TARGET_MOTOR_MV as int,
    );
    lemma_exact_quotient(
        calibrated(right_speed, calibration.right_factor_ppm) as int,
        TARGET_MOTOR_MV as int,
    );
}

/// Each track is its own: what the left one puts out depends on its own speed and factor
/// and the compensation alone, whatever the right one is asked for and however it is
/// calibrated, and the other way round. Both tracks obey the same rule: with speeds and
/// factors exchanged, the outputs are exchanged.
pub proof fn law_tracks_are_independent(
    driver: MotorDriver,
    other: MotorDriver,
    left_speed: i8,
    right_speed: i8,
    other_left: i8,
    other_right: i8,
)
    requires
        driver.compensation == other.compensation,
    ensures
        ({
            let after = carried_out(driver, MotorCommand::SetTracks { left_speed, right_speed });
            let after_other = carried_out(
                other,
                MotorCommand::SetTracks { left_speed: other_left, right_speed: other_right },
            );
            let own = driver.calibration;
            let others = other.calibration;
            &&& left_speed == other_left && own.left_factor_ppm == others.left_factor_ppm
                ==> after.left == after_other.left
            &&& right_speed == other_right && own.right_factor_ppm == others.right_factor_ppm
                ==> after.right == after_other.right
            &&& left_speed == other_right && own.left_factor_ppm == others.right_factor_ppm
                ==> after.left == after_other.right
        }),
{
}

/// What a command does not concern it leaves alone: driving changes no setting, and a
/// setting changes no output.
pub proof fn law_commands_keep_to_their_part(driver: MotorDriver, command: MotorCommand)
    ensures
        ({
            let after = carried_out(driver, command);
            let drives = command is SetTracks || command is BrakeAll || command is CoastAll;
            let calibrates = command is LoadCalibration || command is UpdateAllCalibration;
            &&& !drives ==> after.left == driver.left && after.right == driver.right
                && after.published_left == driver.published_left && after.published_right
                == driver.published_right
            &&& !calibrates ==> after.calibration == driver.calibration
            &&& command !is SetAllDriversEnable ==> after.standby == driver.standby
            &&& command matches MotorCommand::SetAllDriversEnable { enabled } ==> after.standby
                == enabled
            &&& command matches MotorCommand::LoadCalibration(calibration)
                ==> after.calibration == calibration
            &&& command matches MotorCommand::SetTracks { left_speed, right_speed }
                ==> after.published_left == left_speed && after.published_right == right_speed
            &&& command is BrakeAll ==> after.left.direction is Brake && after.right.direction
                is Brake
            &&& command is CoastAll ==> after.left.direction is Coast && after.right.direction
                is Coast
            &&& after.compensation == driver.compensation
        }),
{
}

/// New factors are taken to the track they are for, held between one half and one and a
/// half: a factor within that range is taken as it is, another one stops at the bound it
/// is beyond.
pub proof fn law_updated_factors_stay_in_range(
    driver: MotorDriver,
    left_factor_ppm: i64,
    right_factor_ppm: i64,
)
    ensures
        ({
            let command = MotorCommand::UpdateAllCalibration { left_factor_ppm, right_factor_ppm };
            let after = carried_out(driver, command).calibration;
            &&& 500_000 <= after.left_factor_ppm <= 1_500_000
            &&& 500_000 <= after.right_factor_ppm <= 1_500_000
            &&& 500_000 <= left_factor_ppm <= 1_500_000 ==> after.left_factor_ppm
                == left_factor_ppm
            &&& 500_000 <= right_factor_ppm <= 1_500_000 ==> after.right_factor_ppm
                == right_factor_ppm
            &&& left_factor_ppm < 500_000 ==> after.left_factor_ppm == 500_000
            &&& left_factor_ppm > 1_500_000 ==> after.left_factor_ppm == 1_500_000
            &&& right_factor_ppm < 500_000 ==> after.right_factor_ppm == 500_000
            &&& right_factor_ppm > 1_500_000 ==> after.right_factor_ppm == 1_500_000
        }),
{
}

/// The motors count as active exactly from a command that moves a track to one that
/// stops both or takes the driver out of use.
pub proof fn law_activity_follows_the_tracks(
    driver: MotorDriver,
    command: MotorCommand,
    battery_mv: Option<u32>,
)
    ensures
        ({
            let after = after_command(driver, command, battery_mv);
            &&& command matches MotorCommand::SetTracks { left_speed, right_speed } ==> (
            after.motors_active <==> !(left_speed == 0 && right_speed == 0))
            &&& command is BrakeAll || command is CoastAll ==> !after.motors_active
            &&& command == (MotorCommand::SetAllDriversEnable { enabled: false })
                ==> !after.motors_active
            &&& !(command is SetTracks || command is BrakeAll || command is CoastAll || command
                == (MotorCommand::SetAllDriversEnable { enabled: false })) ==> after.motors_active
                == driver.motors_active
        }),
{
}

/// The compensation follows the battery while the motors are idle: it is taken over where
/// its factor, six volts over the battery's, moves by more than one hundredth, and a
/// battery below six volts counts as six. Without a reading nothing moves.
pub proof fn law_compensation_follows_the_idle_battery(
    driver: MotorDriver,
    command: MotorCommand,
    battery_mv: u32,
)
    requires
        driver.wf(),
        !driver.motors_active,
        !after_command(driver, command, None).motors_active,
    ensures
        ({
            let after = after_command(driver, command, Some(battery_mv)).compensation;
            let held = driver.compensation.battery_mv as int;
            let read = if battery_mv < 6_000 {
                6_000
            } else {
                battery_mv as int
            };
            let moves = 600_000 * (read - held) > read * held || 600_000 * (held - read) > read
                * held;
            &&& moves ==> after.battery_mv == read
            &&& !moves ==> after == driver.compensation
            &&& after_command(driver, command, None).compensation == driver.compensation
        }),
{
    let held = driver.compensation.battery_mv as int;
    let read = compensation_for(battery_mv).battery_mv as int;
    assert(held * read == read * held) by (nonlinear_arith);
    assert(read * held >= 0) by (nonlinear_arith)
        requires
            read >= 0,
            held >= 0,
    ;
}

/// Whether `value` is the ratio of `num` to `den` rounded to the nearest, a half away from
/// zero.
pub open spec fn is_nearest(value: int, num: int, den: int) -> bool {
    &&& num >= 0 ==> 0 <= value && (2 * value - 1) * den <= 2 * num < (2 * value + 1) * den
    &&& num < 0 ==> value <= 0 && (-2 * value - 1) * den <= -2 * num < (-2 * value + 1) * den
}

/// Rounding gives the nearest integer.
pub proof fn law_rounded_is_nearest(num: int, den: int)
    requires
        den > 0,
    ensures
        is_nearest(rounded(num, den), num, den),
{
    let magnitude = if num >= 0 {
        num
    } else {
        -num
    };
    let whole = (2 * magnitude + den) / (2 * den);
    assert(0 <= whole && (2 * whole - 1) * den <= 2 * magnitude < (2 * whole + 1) * den)
        by (nonlinear_arith)
        requires
            magnitude >= 0,
            den > 0,
            whole == (2 * magnitude + den) / (2 * den),
    ;
}

/// Whatever a command leaves in the driver, each track goes at its own commanded speed
/// times its own factor, slowed by the voltage over six volts, and what was commanded is
/// published.
pub proof fn law_processed_command_reaches_its_track(
    driver: &mut MotorDriver,
    left_speed: i8,
    right_speed: i8,
)
    requires
        old(driver).wf(),
        call_ensures(
            MotorDriver::process_command,
            (driver, MotorCommand::SetTracks { left_speed, right_speed }),
            (),
        ),
    ensures
        ({
            let volts = old(driver).compensation.battery_mv as int;
            let factors = old(driver).calibration;
            &&& exists|balanced: int|
                #[trigger] nearest_speed(balanced, left_speed * factors.left_factor_ppm, 1_000_000)
                    && nearest_speed(velocity(final(driver).left), balanced * 6_000, volts)
            &&& exists|balanced: int|
                #[trigger] nearest_speed(
                    balanced,
                    right_speed * factors.right_factor_ppm,
                    1_000_000,
                ) && nearest_speed(velocity(final(driver).right), balanced * 6_000, volts)
            &&& volts == 6_000 ==> nearest_speed(
                velocity(final(driver).left),
                left_speed * factors.left_factor_ppm,
                1_000_000,
            ) && nearest_speed(
                velocity(final(driver).right),
                right_speed * factors.right_factor_ppm,
                1_000_000,
            )
            &&& final(driver).calibration == factors
            &&& final(driver).published_left == left_speed
            &&& final(driver).published_right == right_speed
        }),
{
    law_track_speed_is_calibrated_and_compensated(*old(driver), left_speed, right_speed);
    if old(driver).compensation.battery_mv == 6_000 {
        law_factor_scales_the_track_at_the_target_voltage(*old(driver), left_speed, right_speed);
    }
}

/// A handled command drives the tracks in the same way, with the compensation it leaves in
/// force.
pub proof fn law_handled_command_reaches_its_track(
    driver: &mut MotorDriver,
    left_speed: i8,
    right_speed: i8,
    battery_mv: Option<u32>,
)
    requires
        old(driver).wf(),
        call_ensures(
            MotorDriver::handle,
            (driver, MotorCommand::SetTracks { left_speed, right_speed }, battery_mv),
            (),
        ),
    ensures
        ({
            let volts = final(driver).compensation.battery_mv as int;
            let factors = old(driver).calibration;
            &&& exists|balanced: int|
                #[trigger] nearest_speed(balanced, left_speed * factors.left_factor_ppm, 1_000_000)
                    && nearest_speed(velocity(final(driver).left), balanced * 6_000, volts)
            &&& exists|balanced: int|
                #[trigger] nearest_speed(
                    balanced,
                    right_speed * factors.right_factor_ppm,
                    1_000_000,
                ) && nearest_speed(velocity(final(driver).right), balanced * 6_000, volts)
            &&& final(driver).motors_active <==> !(left_speed == 0 && right_speed == 0)
        }),
{
    let command = MotorCommand::SetTracks { left_speed, right_speed };
    let ready = MotorDriver {
        compensation: compensation_after(*old(driver), command, battery_mv),
        motors_active: active_after(old(driver).motors_active, command),
        ..*old(driver)
    };
    law_track_speed_is_calibrated_and_compensated(ready, left_speed, right_speed);
}

/// A calibration has a factor for each track and applies it to that track's speed.
pub proof fn law_factors_belong_to_their_track(
    calibration: &MotorCalibration,
    speed: i8,
    left_factor_ppm: i32,
    right_factor_ppm: i32,
    left_speed: i8,
    right_speed: i8,
)
    requires
        call_ensures(MotorCalibration::get_factor, (calibration, Track::Left), left_factor_ppm),
        call_ensures(MotorCalibration::get_factor, (calibration, Track::Right), right_factor_ppm),
        call_ensures(MotorCalibration::apply, (calibration, Track::Left, speed), left_speed),
        call_ensures(MotorCalibration::apply, (calibration, Track::Right, speed), right_speed),
    ensures
        left_factor_ppm == calibration.left_factor_ppm,
        right_factor_ppm == calibration.right_factor_ppm,
        nearest_speed(left_speed as int, speed * calibration.left_factor_ppm, 1_000_000),
        nearest_speed(right_speed as int, speed * calibration.right_factor_ppm, 1_000_000),
{
    lemma_nearest_speed(speed * calibration.left_factor_ppm, 1_000_000);
    lemma_nearest_speed(speed * calibration.right_factor_ppm, 1_000_000);
}

/// The pins tell the directions apart: forward and backward exchange them, a brake sets
/// both and coasting neither.
pub proof fn law_pins_tell_the_directions_apart(direction: MotorDirection, levels: (bool, bool))
    requires
        call_ensures(direction_levels, (direction,), levels),
    ensures
        levels == (true, false) <==> direction is Forward,
        levels == (false, true) <==> direction is Backward,
        levels == (true, true) <==> direction is Brake,
        levels == (false, false) <==> direction is Coast,
{
}

/// A stop puts out nothing and publishes that both tracks stand.
pub proof fn law_stops_put_out_nothing(driver: MotorDriver, command: MotorCommand)
    requires
        command is BrakeAll || command is CoastAll,
    ensures
        carried_out(driver, command).left.duty == 0,
        carried_out(driver, command).right.duty == 0,
        carried_out(driver, command).published_left == 0,
        carried_out(driver, command).published_right == 0,
{
}

/// The compensation stands while the motors run: it moves neither on a command that starts
/// them nor on one that finds them running.
pub proof fn law_compensation_stands_while_driving(
    driver: MotorDriver,
    command: MotorCommand,
    battery_mv: Option<u32>,
)
    requires
        driver.motors_active || after_command(driver, command, battery_mv).motors_active,
    ensures
        after_command(driver, command, battery_mv).compensation == driver.compensation,
{
}

} // verus!
