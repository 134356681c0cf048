//! Strength-specific bonus data.

use vstd::prelude::*;

use crate::bonus::LeveledIntegerAmount;

verus! {

/// Which uses of strength a strength bonus is limited to.
#[derive(Clone, Copy, Debug, PartialEq, Eq, Structural)]
pub enum STLimitation {
    NoLimitation,
    LiftingOnly,
    StrikingOnly,
}

impl Default for STLimitation {
    fn default() -> (r: Self)
        ensures
            r == STLimitation::NoLimitation,
    {
        Self::NoLimitation
    }
}

/// A leveled strength bonus together with its limitation.
#[derive(Clone, Debug, PartialEq)]
pub struct StrengthAmount {
    pub amount: LeveledIntegerAmount,
    pub limit: STLimitation,
}

} // verus!
