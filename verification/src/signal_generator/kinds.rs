//! The small enumerations that a signal generator's frames carry. Each is
//! sent as one decimal digit.

use vstd::prelude::*;

verus! {

/// Whether the 30 dB attenuator stands in the signal's way.
#[derive(Debug, Copy, Clone, PartialEq, Eq, Structural)]
pub enum Attenuation {
    On,
    Off,
}

impl Attenuation {
    pub open spec fn spec_from_digit(digit: u8) -> Option<Attenuation> {
        if digit == 0 {
            Some(Attenuation::On)
        } else if digit == 1 {
            Some(Attenuation::Off)
        } else {
            None
        }
    }

    #[verifier::when_used_as_spec(spec_from_digit)]
    pub fn from_digit(digit: u8) -> (r: Option<Attenuation>)
        ensures
            r == Attenuation::spec_from_digit(digit),
    {
        if digit == 0 {
            Some(Attenuation::On)
        } else if digit == 1 {
            Some(Attenuation::Off)
        } else {
            None
        }
    }
}

/// The four steps of output power.
#[derive(Debug, Copy, Clone, PartialEq, Eq, Structural)]
pub enum PowerLevel {
    Lowest,
    Low,
    High,
    Highest,
}

impl PowerLevel {
    pub open spec fn spec_from_digit(digit: u8) -> Option<PowerLevel> {
        if digit == 0 {
            Some(PowerLevel::Lowest)
        } else if digit == 1 {
            Some(PowerLevel::Low)
        } else if digit == 2 {
            Some(PowerLevel::High)
        } else if digit == 3 {
            Some(PowerLevel::Highest)
        } else {
            None
        }
    }

    #[verifier::when_used_as_spec(spec_from_digit)]
    pub fn from_digit(digit: u8) -> (r: Option<PowerLevel>)
        ensures
            r == PowerLevel::spec_from_digit(digit),
    {
        if digit == 0 {
            Some(PowerLevel::Lowest)
        } else if digit == 1 {
            Some(PowerLevel::Low)
        } else if digit == 2 {
            Some(PowerLevel::High)
        } else if digit == 3 {
            Some(PowerLevel::Highest)
        } else {
            None
        }
    }
}

/// Whether the generator's output is switched on.
#[derive(Debug, Copy, Clone, PartialEq, Eq, Structural)]
pub enum RfPower {
    On,
    Off,
}

impl RfPower {
    pub open spec fn spec_from_digit(digit: u8) -> Option<RfPower> {
        if digit == 0 {
            Some(RfPower::On)
        } else if digit == 1 {
            Some(RfPower::Off)
        } else {
            None
        }
    }

    #[verifier::when_used_as_spec(spec_from_digit)]
    pub fn from_digit(digit: u8) -> (r: Option<RfPower>)
        ensures
            r == RfPower::spec_from_digit(digit),
    {
        if digit == 0 {
            Some(RfPower::On)
        } else if digit == 1 {
            Some(RfPower::Off)
        } else {
            None
        }
    }
}

} // verus!
