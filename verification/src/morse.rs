//! Morse display decisions for a row of three active-low LEDs.
//!
//! A dot lights only the middle LED, a dash lights all three. The pin
//! levels are what the GPIO outputs are driven to: `true` is high, and
//! the LEDs light when their pin is low.

use vstd::prelude::*;

verus! {

/// Returns the `(left, middle, right)` pin levels that display one morse
/// symbol: a dot drives only the middle pin low, a dash drives all three
/// low.
pub fn symbol_pin_levels(symbol: char) -> (r: (bool, bool, bool))
    requires
        symbol == '.' || symbol == '-',
    ensures
        symbol == '.' ==> r == (true, false, true),
        symbol == '-' ==> r == (false, false, false),
{
    if symbol == '.' {
        (true, false, true)
    } else {
        (false, false, false)
    }
}

} // verus!
