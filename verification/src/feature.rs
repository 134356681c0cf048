//! The selection criteria and bonus shapes a character feature can take.

use vstd::prelude::*;

use crate::bonus::LeveledIntegerAmount;

verus! {

/// How a textual field is matched when selecting what a bonus applies to.
#[derive(Clone, Debug, PartialEq)]
pub enum StringCriteria {
    Any,
    Is { qualifier: String },
    IsNot { qualifier: String },
    Contains { qualifier: String },
    DoesNotContain { qualifier: String },
    StartsWith { qualifier: String },
    DoesNotStartWith { qualifier: String },
    EndsWith { qualifier: String },
    DoesNotEndWith { qualifier: String },
}

impl Default for StringCriteria {
    fn default() -> (r: Self)
        ensures
            r is Any,
    {
        Self::Any
    }
}

/// How a numeric field is matched when selecting what a bonus applies to.
#[derive(Clone, Copy, Debug, PartialEq, Eq, Structural)]
pub enum IntegerCriteria {
    Is { qualifier: i64 },
    AtLeast { qualifier: i64 },
    AtMost { qualifier: i64 },
}

/// A damage-resistance bonus for one hit location.
#[derive(Clone, Debug, PartialEq)]
pub struct DRBonus {
    pub amount: LeveledIntegerAmount,
    pub location: String,
}

/// A reaction bonus that applies in one situation.
#[derive(Clone, Debug, PartialEq)]
pub struct ReactionBonus {
    pub amount: LeveledIntegerAmount,
    pub situation: String,
}

/// A conditional modifier that applies in one situation.
#[derive(Clone, Debug, PartialEq)]
pub struct ConditionalModifier {
    pub amount: LeveledIntegerAmount,
    pub situation: String,
}

/// Which skills a skill bonus selects.
#[derive(Clone, Debug, PartialEq)]
pub enum SkillSelectionType {
    ThisWeapon,
    WeaponsWithName {
        name: StringCriteria,
        specialization: StringCriteria,
        category: StringCriteria,
    },
    SkillsWithName {
        name: StringCriteria,
        specialization: StringCriteria,
        category: StringCriteria,
    },
}

/// A bonus to the level of the selected skills.
#[derive(Clone, Debug, PartialEq)]
pub struct SkillLevelBonus {
    pub amount: LeveledIntegerAmount,
    pub selection_type: SkillSelectionType,
}

/// A bonus to the points in the selected skills.
#[derive(Clone, Debug, PartialEq)]
pub struct SkillPointBonus {
    pub amount: LeveledIntegerAmount,
    pub selection_type: SkillSelectionType,
}

/// Which spells a spell bonus selects.
#[derive(Clone, Debug, PartialEq)]
pub enum SpellSelectionType {
    AllColleges,
    CollegeName { name: StringCriteria },
    PowerSourceName { name: StringCriteria },
    SpellName { name: StringCriteria },
}

impl Default for SpellSelectionType {
    fn default() -> (r: Self)
        ensures
            r is AllColleges,
    {
        Self::AllColleges
    }
}

/// A bonus to the level of the selected spells.
#[derive(Clone, Debug, PartialEq)]
pub struct SpellLevelBonus {
    pub amount: LeveledIntegerAmount,
    pub selection_type: SpellSelectionType,
    pub category: StringCriteria,
}

/// A bonus to the points in the selected spells.
#[derive(Clone, Debug, PartialEq)]
pub struct SpellPointBonus {
    pub amount: LeveledIntegerAmount,
    pub selection_type: SpellSelectionType,
    pub category: StringCriteria,
}

/// Which weapons a weapon bonus selects.
#[derive(Clone, Debug, PartialEq)]
pub enum WeaponSelectionType {
    ThisWeapon,
    WeaponsWithName {
        name: StringCriteria,
        specialization: StringCriteria,
        category: StringCriteria,
    },
    WeaponsWithRequiredSkill {
        name: StringCriteria,
        specialization: StringCriteria,
        level: IntegerCriteria,
        category: StringCriteria,
    },
}

/// A bonus to the damage of the selected weapons.
#[derive(Clone, Debug, PartialEq)]
pub struct WeaponDamageBonus {
    pub amount: LeveledIntegerAmount,
    pub selection_type: WeaponSelectionType,
}

/// A percentage reduction of one attribute's point cost.
#[derive(Clone, Copy, Debug, PartialEq, Eq, Structural)]
pub enum ReduceAttributeCost {
    ST { percentage: i64 },
    DX { percentage: i64 },
    IQ { percentage: i64 },
    HT { percentage: i64 },
}

/// A reduction of the weight contained items count for.
#[derive(Clone, Debug, PartialEq)]
pub struct ReduceContainedWeight {
    pub reduction: String,
}

} // verus!
