//! Control rolls for disadvantages: how often self-control succeeds, and
//! what an adjusted roll affects.

use vstd::prelude::*;

verus! {

/// The self-control roll of a disadvantage. Stored on the wire as the roll
/// target number; see the `From` conversions.
#[derive(Clone, Copy, Debug, PartialEq, Eq, Structural)]
pub enum ControlRoll {
    NotApplicable,
    Rarely,
    FairlyOften,
    QuiteOften,
    AlmostAlways,
    NoneRequired,
}

/// The roll target a control roll is written as.
pub open spec fn control_roll_number(value: ControlRoll) -> u64 {
    match value {
        ControlRoll::NotApplicable => 0,
        ControlRoll::Rarely => 6,
        ControlRoll::FairlyOften => 9,
        ControlRoll::QuiteOften => 12,
        ControlRoll::AlmostAlways => 15,
        ControlRoll::NoneRequired => u64::MAX,
    }
}

/// The control roll a stored number stands for; numbers that name no roll
/// mean that none is required.
pub open spec fn control_roll_of_number(value: u64) -> ControlRoll {
    if value == 0 {
        ControlRoll::NotApplicable
    } else if value == 6 {
        ControlRoll::Rarely
    } else if value == 9 {
        ControlRoll::FairlyOften
    } else if value == 12 {
        ControlRoll::QuiteOften
    } else if value == 15 {
        ControlRoll::AlmostAlways
    } else {
        ControlRoll::NoneRequired
    }
}

impl<'a> From<&'a ControlRoll> for u64 {
    fn from(value: &'a ControlRoll) -> (r: Self) {
        match value {
            ControlRoll::NotApplicable => 0,
            ControlRoll::Rarely => 6,
            ControlRoll::FairlyOften => 9,
            ControlRoll::QuiteOften => 12,
            ControlRoll::AlmostAlways => 15,
            ControlRoll::NoneRequired => u64::MAX,
        }
    }
}

impl<'a> vstd::std_specs::convert::FromSpecImpl<&'a ControlRoll> for u64 {
    open spec fn obeys_from_spec() -> bool {
        true
    }

    open spec fn from_spec(value: &'a ControlRoll) -> Self {
        control_roll_number(*value)
    }
}

impl From<u64> for ControlRoll {
    fn from(value: u64) -> (r: Self) {
        match value {
            0 => ControlRoll::NotApplicable,
            6 => ControlRoll::Rarely,
            9 => ControlRoll::FairlyOften,
            12 => ControlRoll::QuiteOften,
            15 => ControlRoll::AlmostAlways,
            _ => ControlRoll::NoneRequired,
        }
    }
}

impl vstd::std_specs::convert::FromSpecImpl<u64> for ControlRoll {
    open spec fn obeys_from_spec() -> bool {
        true
    }

    open spec fn from_spec(value: u64) -> Self {
        control_roll_of_number(value)
    }
}

impl Default for ControlRoll {
    fn default() -> (r: Self)
        ensures
            r == ControlRoll::NoneRequired,
    {
        ControlRoll::NoneRequired
    }
}

/// What an adjusted control roll changes about the character.
#[derive(Clone, Copy, Debug, PartialEq, Eq, Structural)]
pub enum ControlRollAdjust {
    NoAdjust,
    ActionPenalty,
    ReactionPenalty,
    FrightCheckPenalty,
    FrightCheckBonus,
    MinorCostOfLivingIncrease,
    MajorCostOfLivingIncrease,
}

impl Default for ControlRollAdjust {
    fn default() -> (r: Self)
        ensures
            r == ControlRollAdjust::NoAdjust,
    {
        ControlRollAdjust::NoAdjust
    }
}

/// Writing a control roll as a number and reading it back yields the same
/// roll.
pub proof fn lemma_control_roll_number_round_trip(value: ControlRoll)
    ensures
        control_roll_of_number(control_roll_number(value)) == value,
{
}

} // verus!
