//! The motors' pulse-width modulation.

use vstd::prelude::*;

verus! {

/// Frequency of the motor driver, in hertz.
pub const MOTOR_PWM_HZ: u32 = 20_000;

/// A divider and a period that give the motor driver its frequency.
#[derive(Debug, Clone, Copy, PartialEq, Eq, Structural)]
pub struct PwmConfig {
    /// Clock divider.
    pub divider: u8,
    /// Counter value at which a period ends.
    pub top: u16,
}

/// The smallest divider whose period fits sixteen bits.
pub open spec fn divider_for(clock_hz: u32) -> int {
    clock_hz as int / 20_000 / 65_535 + 1
}

/// Compute the motor driver's configuration from the system clock.
pub fn motor_pwm_config(clock_hz: u32) -> (config: PwmConfig)
    requires
        clock_hz >= MOTOR_PWM_HZ,
    ensures
        config.divider == divider_for(clock_hz),
        config.top == clock_hz as int / (20_000 * divider_for(clock_hz)) - 1,
{
    let ticks: u32 = clock_hz / MOTOR_PWM_HZ;
    let divider: u32 = ticks / 65_535 + 1;
    assert(1 <= divider <= 4);
    let scaled: u32 = MOTOR_PWM_HZ * divider;
    let period: u32 = clock_hz / scaled;
    assert(1 <= period <= 65_535) by {
        if divider == 1 {
            assert(clock_hz < 20_000 * 65_535);
            assert(period == clock_hz / 20_000);
        } else if divider == 2 {
            assert(20_000 * 65_535 <= clock_hz < 40_000 * 65_535);
            assert(period == clock_hz / 40_000);
        } else if divider == 3 {
            assert(40_000 * 65_535 <= clock_hz < 60_000 * 65_535);
            assert(period == clock_hz / 60_000);
        } else {
            assert(60_000 * 65_535 <= clock_hz);
            assert(period == clock_hz / 80_000);
        }
    }
    PwmConfig { divider: divider as u8, top: (period - 1) as u16 }
}

/// The configured frequency is the wanted one or slightly above, by less than one
/// count of the period.
pub proof fn law_frequency_is_met(clock_hz: u32, top: int)
    requires
        clock_hz >= MOTOR_PWM_HZ,
        top == clock_hz as int / (20_000 * divider_for(clock_hz)) - 1,
    ensures
        20_000 * divider_for(clock_hz) * (top + 1) <= clock_hz,
        clock_hz < 20_000 * divider_for(clock_hz) * (top + 2),
{
    let scaled = 20_000 * divider_for(clock_hz);
    assert(scaled > 0);
    vstd::arithmetic::div_mod::lemma_fundamental_div_mod(clock_hz as int, scaled);
    vstd::arithmetic::div_mod::lemma_mod_bound(clock_hz as int, scaled);
    let q = clock_hz as int / scaled;
    assert(scaled * (q + 1) == scaled * q + scaled) by (nonlinear_arith);
    assert(scaled * (top + 1) == 20_000 * divider_for(clock_hz) * (top + 1));
}

/// The divider is as small as it can be: its period fits sixteen bits, and that of the
/// divider below it would not.
pub proof fn law_divider_is_the_smallest(clock_hz: u32)
    ensures
        1 <= divider_for(clock_hz) <= 4,
        clock_hz as int / 20_000 < 65_535 * divider_for(clock_hz),
        clock_hz as int / 20_000 >= 65_535 * (divider_for(clock_hz) - 1),
{
}

} // verus!
