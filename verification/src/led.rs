//! The RGB LED color cycle and the PWM duty cycles that display each
//! color.

use vstd::prelude::*;

verus! {

/// The color the RGB LED currently shows.
#[derive(Clone, Copy, Debug, PartialEq, Eq, Structural)]
pub enum LedColor {
    Red,
    Yellow,
    Green,
}

impl LedColor {
    /// The color that follows this one in the fixed cycle
    /// red, yellow, green, red, ...
    pub open spec fn next_spec(self) -> LedColor {
        match self {
            LedColor::Red => LedColor::Yellow,
            LedColor::Yellow => LedColor::Green,
            LedColor::Green => LedColor::Red,
        }
    }

    /// Returns the next color of the cycle.
    pub fn next(&self) -> (r: LedColor)
        ensures
            r == self.next_spec(),
    {
        match self {
            LedColor::Red => LedColor::Yellow,
            LedColor::Yellow => LedColor::Green,
            LedColor::Green => LedColor::Red,
        }
    }

    /// Returns the PWM duty cycles, in percent, that show this color as
    /// `(red, green, blue)`. Yellow uses 30% green rather than 100%
    /// because the board's LED only looks yellow with green dimmed.
    pub fn rgb_duty_cycle_percent(&self) -> (r: (u8, u8, u8))
        ensures
            self is Red ==> r == (100u8, 0u8, 0u8),
            self is Yellow ==> r == (100u8, 30u8, 0u8),
            self is Green ==> r == (0u8, 100u8, 0u8),
            r.0 <= 100 && r.1 <= 100 && r.2 <= 100,
    {
        match self {
            LedColor::Red => (100, 0, 0),
            LedColor::Yellow => (100, 30, 0),
            LedColor::Green => (0, 100, 0),
        }
    }
}

} // verus!
