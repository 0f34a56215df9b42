//! The traffic-light state machine and the decisions the peripheral
//! tasks derive from its state.
//!
//! The state cycles red, yellow, green; on each state change a servo
//! task moves a barrier and a buzzer task picks its tone. The hardware
//! actuation (PWM channels, timers) stays with the caller; the decisions
//! — which state comes next, what barrier angle and what buzzer
//! behaviour a state asks for — are here.

use vstd::prelude::*;

verus! {

/// The state of the traffic light.
#[derive(Clone, Copy, Debug, PartialEq, Eq, Structural)]
pub enum TrafficLightState {
    Red,
    Yellow,
    Green,
}

impl TrafficLightState {
    /// The state that follows this one in the fixed cycle
    /// red, yellow, green, red, ...
    pub open spec fn next_spec(self) -> TrafficLightState {
        match self {
            TrafficLightState::Red => TrafficLightState::Yellow,
            TrafficLightState::Yellow => TrafficLightState::Green,
            TrafficLightState::Green => TrafficLightState::Red,
        }
    }

    /// Returns the next state of the cycle.
    pub fn next(&self) -> (r: TrafficLightState)
        ensures
            r == self.next_spec(),
    {
        match self {
            TrafficLightState::Red => TrafficLightState::Yellow,
            TrafficLightState::Yellow => TrafficLightState::Green,
            TrafficLightState::Green => TrafficLightState::Red,
        }
    }

    /// Returns the barrier servo angle, in degrees, this state asks for:
    /// closed (0) while the light is red or yellow, open (90) while it is
    /// green.
    pub fn barrier_angle(&self) -> (r: u8)
        ensures
            self is Green ==> r == 90,
            !(self is Green) ==> r == 0,
    {
        match self {
            TrafficLightState::Red => 0,
            TrafficLightState::Yellow => 0,
            TrafficLightState::Green => 90,
        }
    }

    /// Returns whether the buzzer beeps intermittently in this state
    /// (only while the light is red) rather than sounding continuously.
    pub fn buzzer_beeps(&self) -> (r: bool)
        ensures
            r == (self is Red),
    {
        match self {
            TrafficLightState::Red => true,
            TrafficLightState::Yellow => false,
            TrafficLightState::Green => false,
        }
    }

    /// Returns the buzzer tone, in Hz, this state asks for: 400 while
    /// the light is red, 200 otherwise.
    pub fn buzzer_frequency_hz(&self) -> (r: u32)
        ensures
            self is Red ==> r == 400,
            !(self is Red) ==> r == 200,
    {
        match self {
            TrafficLightState::Red => 400,
            TrafficLightState::Yellow => 200,
            TrafficLightState::Green => 200,
        }
    }
}

/// The cycle closes: from any state, three steps lead back to it.
pub proof fn lemma_cycle_period(state: TrafficLightState)
    ensures
        state.next_spec().next_spec().next_spec() == state,
{
}

} // verus!
