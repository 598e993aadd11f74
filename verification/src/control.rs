//! The control catalog: the closed set of buttons and axes that a snapshot
//! reports, and the classification of the pressure-sensitive ones.

use vstd::prelude::*;

verus! {

/// A button as the input source names it.
///
/// `LeftTrigger` and `RightTrigger` are the shoulder bumpers; `LeftTrigger2`
/// and `RightTrigger2` are the pressure-sensitive triggers below them. `Other`
/// stands for every button outside the catalog.
#[derive(Clone, Copy, Debug, PartialEq, Eq, Structural)]
pub enum Button {
    South,
    East,
    West,
    North,
    LeftTrigger,
    RightTrigger,
    LeftThumb,
    RightThumb,
    Start,
    Select,
    DPadUp,
    DPadDown,
    DPadLeft,
    DPadRight,
    LeftTrigger2,
    RightTrigger2,
    Other,
}

/// An axis as the input source names it.
///
/// `LeftZ` and `RightZ` are the axis representation of the two triggers.
/// `Other` stands for every axis outside the catalog.
#[derive(Clone, Copy, Debug, PartialEq, Eq, Structural)]
pub enum Axis {
    LeftStickX,
    LeftStickY,
    RightStickX,
    RightStickY,
    LeftZ,
    RightZ,
    Other,
}

impl Button {
    /// The two triggers: their meaningful signal is a continuous pressure.
    pub open spec fn spec_is_analog_sensitive(self) -> bool {
        self == Button::LeftTrigger2 || self == Button::RightTrigger2
    }

    /// The fourteen buttons that a snapshot reports as a boolean.
    pub open spec fn spec_is_digital(self) -> bool {
        self != Button::LeftTrigger2 && self != Button::RightTrigger2 && self != Button::Other
    }

    #[verifier::when_used_as_spec(spec_is_analog_sensitive)]
    pub fn is_analog_sensitive(self) -> (sensitive: bool)
        ensures
            sensitive == self.spec_is_analog_sensitive(),
    {
        match self {
            Button::LeftTrigger2 | Button::RightTrigger2 => true,
            _ => false,
        }
    }

    #[verifier::when_used_as_spec(spec_is_digital)]
    pub fn is_digital(self) -> (digital: bool)
        ensures
            digital == self.spec_is_digital(),
    {
        match self {
            Button::LeftTrigger2 | Button::RightTrigger2 | Button::Other => false,
            _ => true,
        }
    }
}

impl Axis {
    /// The axis form of the two triggers.
    pub open spec fn spec_is_analog_sensitive(self) -> bool {
        self == Axis::LeftZ || self == Axis::RightZ
    }

    #[verifier::when_used_as_spec(spec_is_analog_sensitive)]
    pub fn is_analog_sensitive(self) -> (sensitive: bool)
        ensures
            sensitive == self.spec_is_analog_sensitive(),
    {
        match self {
            Axis::LeftZ | Axis::RightZ => true,
            _ => false,
        }
    }
}

} // verus!
