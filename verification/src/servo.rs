//! Servo pulse-width arithmetic.
//!
//! A hobby servo is driven by a 50 Hz PWM signal (20000 us period) whose
//! pulse width selects the angle: 500 us at 0 degrees, 2500 us at 180
//! degrees, linearly in between. The PWM peripheral takes its duty cycle
//! as a fraction per mille, so the pulse width is rescaled to
//! thousandths of the period.

use vstd::prelude::*;

verus! {

/// The pulse width, in microseconds, that selects `angle` degrees:
/// `angle * 2000 / 180 + 500`.
pub open spec fn servo_pulse_us_spec(angle: int) -> int {
    angle * 2000 / 180 + 500
}

/// The duty cycle per mille that selects `angle` degrees: the angle's
/// pulse width as thousandths of the 20000 us period.
pub open spec fn servo_duty_cycle_per_mille_spec(angle: int) -> int {
    servo_pulse_us_spec(angle) * 1000 / 20000
}

/// Computes the duty cycle per mille (to the 1000) for a given angle.
pub fn servo_duty_cycle_per_mille_for_angle(angle: u8) -> (r: u16)
    ensures
        r == servo_duty_cycle_per_mille_spec(angle as int),
        r <= 1000,
{
    let pulse: u32 = angle as u32 * 2000 / 180 + 500;
    let period_per_mille: u32 = (pulse * 1000) / 20000;
    period_per_mille as u16
}

} // verus!
