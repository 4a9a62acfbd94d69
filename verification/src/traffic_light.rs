//! A traffic light whose legal transitions are fixed at compile time:
//! flashing can only be entered from red, and only returns to red.

use core::marker::PhantomData;

use vstd::prelude::*;

verus! {

/// The light is going.
pub struct Green {}

/// The light is about to stop traffic.
pub struct Yellow {}

/// The light stops traffic.
pub struct Red {}

/// The light is out of regular operation.
pub struct Flashing {}

/// The states a traffic light can be in.
pub trait TrafficLightState {

}

impl TrafficLightState for Green {

}

impl TrafficLightState for Yellow {

}

impl TrafficLightState for Red {

}

impl TrafficLightState for Flashing {

}

/// A light in the state its type parameter names; the only values that can
/// exist are those reached by the legal transitions.
pub struct TrafficLight<S: TrafficLightState> {
    marker: PhantomData<S>,
}

impl TrafficLight<Red> {
    /// A light starts red.
    pub fn new() -> (r: Self) {
        TrafficLight { marker: PhantomData }
    }

    /// Regular operation resumes.
    pub fn to_green(self) -> (r: TrafficLight<Green>) {
        TrafficLight { marker: PhantomData }
    }

    /// Red is the only state that may start flashing.
    pub fn to_flashing(self) -> (r: TrafficLight<Flashing>) {
        TrafficLight { marker: PhantomData }
    }
}

impl TrafficLight<Flashing> {
    /// Flashing only returns to red.
    pub fn to_red(self) -> (r: TrafficLight<Red>) {
        TrafficLight { marker: PhantomData }
    }
}

impl TrafficLight<Green> {
    /// Green gives way to yellow.
    pub fn to_yellow(self) -> (r: TrafficLight<Yellow>) {
        TrafficLight { marker: PhantomData }
    }
}

impl TrafficLight<Yellow> {
    /// Yellow ends in red.
    pub fn to_red(self) -> (r: TrafficLight<Red>) {
        TrafficLight { marker: PhantomData }
    }
}

/// A full cycle of regular operation, a flashing spell, and recovery.
pub fn usage() {
    let _ = TrafficLight::new().to_green().to_yellow().to_red().to_flashing().to_red();
}

} // verus!
