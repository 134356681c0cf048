//! Weapon damage scaling and skill defaults.

use vstd::prelude::*;

verus! {

/// How a weapon's damage scales with the wielder's strength.
#[derive(Clone, Copy, Debug, PartialEq, Eq, Structural)]
pub enum WeaponSTDamage {
    NoSTDamage,
    Thr,
    ThrLeveled,
    Sw,
    SwLeveled,
}

impl Default for WeaponSTDamage {
    fn default() -> (r: Self)
        ensures
            r == WeaponSTDamage::NoSTDamage,
    {
        Self::NoSTDamage
    }
}

/// What a weapon skill defaults to when the skill itself is not known.
#[derive(Clone, Debug, PartialEq)]
pub enum SkillDefault {
    ST { modifier: i64 },
    DX { modifier: i64 },
    IQ { modifier: i64 },
    HT { modifier: i64 },
    Will { modifier: i64 },
    Per { modifier: i64 },
    Skill { name: String, specialization: String, modifier: i64 },
    Parry { name: String, specialization: String, modifier: i64 },
    Block { name: String, specialization: String, modifier: i64 },
    Base10 { modifier: i64 },
}

} // verus!
