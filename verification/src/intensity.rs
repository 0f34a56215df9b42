//! LED intensity control: the commands the button tasks send and how the
//! intensity level responds to them.
//!
//! The intensity is a percentage. Each button press moves it by ten
//! points, clamped to the `0 ..= 100` range; the clamping keeps the
//! level a valid PWM duty-cycle percentage forever.

use vstd::prelude::*;

verus! {

/// A command sent from a button task to the task driving the LED.
#[derive(Clone, Copy, Debug, PartialEq, Eq, Structural)]
pub enum Command {
    /// Increase the LED's intensity.
    IncreaseIntensity,
    /// Decrease the LED's intensity.
    DecreaseIntensity,
}

/// The intensity level after applying `command` to `intensity`: up or
/// down by ten points, clamped to `0 ..= 100`.
pub open spec fn apply_command_spec(intensity: u8, command: Command) -> int {
    match command {
        Command::IncreaseIntensity => if intensity + 10 <= 100 {
            intensity + 10
        } else {
            100
        },
        Command::DecreaseIntensity => if intensity >= 10 {
            intensity - 10
        } else {
            0
        },
    }
}

/// Applies one button command to the current intensity level.
pub fn apply_command(intensity: u8, command: Command) -> (r: u8)
    requires
        intensity <= 100,
    ensures
        r == apply_command_spec(intensity, command),
        r <= 100,
{
    match command {
        Command::IncreaseIntensity => {
            if intensity <= 90 {
                intensity + 10
            } else {
                100
            }
        },
        Command::DecreaseIntensity => {
            if intensity >= 10 {
                intensity - 10
            } else {
                0
            }
        },
    }
}

/// Below the upper clamp an increase adds exactly ten points, and a
/// decrease undoes it.
pub proof fn lemma_intensity_steps(intensity: u8)
    requires
        intensity <= 90,
    ensures
        apply_command_spec(intensity, Command::IncreaseIntensity) == intensity + 10,
        apply_command_spec(
            (intensity + 10) as u8,
            Command::DecreaseIntensity,
        ) == intensity,
{
}

} // verus!
