//! The motor driver and its PWM.

use explorer_robot::task::motor_driver::{
    calculate_voltage_compensation, direction_levels, speed_to_direction, MotorCalibration,
    MotorCommand, MotorDirection, MotorDriver, Track,
};
use explorer_robot::task::pwm::motor_pwm_config;

#[test]
fn full_battery_changes_nothing_at_the_target_voltage() {
    let mut driver = MotorDriver::new(6_000);
    driver.handle(MotorCommand::SetTracks { left_speed: 50, right_speed: -30 }, Some(6_000));
    assert_eq!(driver.left.direction, MotorDirection::Forward);
    assert_eq!(driver.left.duty, 50);
    assert_eq!(driver.right.direction, MotorDirection::Backward);
    assert_eq!(driver.right.duty, 30);
}

#[test]
fn a_higher_battery_only_slows() {
    let compensation = calculate_voltage_compensation(8_000);
    let calibration = MotorCalibration::new(1_000_000, 1_000_000);
    let speed =
        calibration.apply_with_voltage_compensation(Track::Left, 80, compensation);
    assert_eq!(speed, 60);
    let low = calculate_voltage_compensation(5_000);
    assert_eq!(calibration.apply_with_voltage_compensation(Track::Left, 80, low), 80);
}

#[test]
fn braking_and_coasting_stop_both_tracks() {
    let mut driver = MotorDriver::new(6_000);
    driver.handle(MotorCommand::SetTracks { left_speed: 50, right_speed: 50 }, None);
    driver.handle(MotorCommand::BrakeAll, None);
    assert_eq!(driver.left.direction, MotorDirection::Brake);
    assert_eq!(driver.right.direction, MotorDirection::Brake);
    driver.handle(MotorCommand::CoastAll, None);
    assert_eq!(driver.left.direction, MotorDirection::Coast);
    assert_eq!(driver.right.duty, 0);
}

#[test]
fn compensation_is_held_while_the_motors_run() {
    let mut driver = MotorDriver::new(8_000);
    driver.handle(MotorCommand::SetTracks { left_speed: 80, right_speed: 80 }, Some(8_000));
    let held = driver.compensation;
    driver.handle(MotorCommand::SetTracks { left_speed: 40, right_speed: 40 }, Some(6_500));
    assert_eq!(driver.compensation, held);
}

#[test]
fn factors_are_clamped_and_applied_to_their_track() {
    let calibration = MotorCalibration::new(100_000, 9_000_000);
    assert_eq!(calibration.get_factor(Track::Left), 500_000);
    assert_eq!(calibration.get_factor(Track::Right), 1_500_000);
    assert_eq!(calibration.apply(Track::Left, 51), 26);
    assert_eq!(calibration.apply(Track::Right, 90), 100);
}

#[test]
fn directions_set_the_driver_lines() {
    assert_eq!(speed_to_direction(5), MotorDirection::Forward);
    assert_eq!(speed_to_direction(-5), MotorDirection::Backward);
    assert_eq!(direction_levels(MotorDirection::Forward), (true, false));
    assert_eq!(direction_levels(MotorDirection::Backward), (false, true));
    assert_eq!(direction_levels(MotorDirection::Coast), (false, false));
    assert_eq!(direction_levels(MotorDirection::Brake), (true, true));
}

#[test]
fn the_pwm_runs_at_twenty_kilohertz() {
    let config = motor_pwm_config(150_000_000);
    assert_eq!(config.divider, 1);
    assert_eq!(config.top, 7_499);
    let fast = motor_pwm_config(4_000_000_000);
    assert_eq!(fast.divider, 4);
    assert_eq!(fast.top, 49_999);
}
