//! The descriptive profile of a character sheet.

use vstd::prelude::*;

verus! {

/// The purely descriptive fields of a character: who plays it and what it
/// looks like. All free-form text but the size modifier.
#[derive(Clone, Debug, PartialEq)]
pub struct CharacterProfile {
    pub player_name: String,
    pub name: String,
    pub title: String,
    pub age: String,
    pub birthday: String,
    pub eyes: String,
    pub hair: String,
    pub skin: String,
    pub handedness: String,
    pub height: String,
    pub weight: String,
    pub size_modifier: i64,
    pub gender: String,
    pub body_type: String,
    pub tech_level: String,
    pub religion: String,
}

} // verus!
