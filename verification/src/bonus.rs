//! Attribute bonuses granted by advantages, and the leveled amounts they are
//! built from.

use vstd::prelude::*;

verus! {

/// Totals of the four attribute bonuses a character can accumulate.
pub struct Bonuses {
    pub strength: i64,
    pub hit_points: i64,
    pub health: i64,
    pub fatigue_points: i64,
}

impl Bonuses {
    /// True when every field of `self`, added to the matching field of
    /// `other`, stays within `i64`.
    pub open spec fn can_absorb(self, other: Bonuses) -> bool {
        &&& i64::MIN <= self.strength + other.strength <= i64::MAX
        &&& i64::MIN <= self.hit_points + other.hit_points <= i64::MAX
        &&& i64::MIN <= self.health + other.health <= i64::MAX
        &&& i64::MIN <= self.fatigue_points + other.fatigue_points <= i64::MAX
    }

    pub fn with_strength(strength: i64) -> (r: Self)
        ensures
            r.strength == strength,
            r.hit_points == 0,
            r.health == 0,
            r.fatigue_points == 0,
    {
        Self { strength, ..Default::default() }
    }

    pub fn with_hit_points(hit_points: i64) -> (r: Self)
        ensures
            r.strength == 0,
            r.hit_points == hit_points,
            r.health == 0,
            r.fatigue_points == 0,
    {
        Self { hit_points, ..Default::default() }
    }

    pub fn with_health(health: i64) -> (r: Self)
        ensures
            r.strength == 0,
            r.hit_points == 0,
            r.health == health,
            r.fatigue_points == 0,
    {
        Self { health, ..Default::default() }
    }

    pub fn with_fatigue_points(fatigue_points: i64) -> (r: Self)
        ensures
            r.strength == 0,
            r.hit_points == 0,
            r.health == 0,
            r.fatigue_points == fatigue_points,
    {
        Self { fatigue_points, ..Default::default() }
    }

    /// Adds every field of `other` into `self`.
    pub fn steal(&mut self, other: Self)
        requires
            old(self).can_absorb(other),
        ensures
            final(self).strength == old(self).strength + other.strength,
            final(self).hit_points == old(self).hit_points + other.hit_points,
            final(self).health == old(self).health + other.health,
            final(self).fatigue_points == old(self).fatigue_points
                + other.fatigue_points,
    {
        self.strength += other.strength;
        self.hit_points += other.hit_points;
        self.health += other.health;
        self.fatigue_points += other.fatigue_points;
    }
}

/// The four field totals of a sequence of bonuses, as unbounded integers:
/// (strength, hit points, health, fatigue points).
pub open spec fn bonus_totals(s: Seq<Bonuses>) -> (int, int, int, int)
    decreases s.len(),
{
    if s.len() == 0 {
        (0, 0, 0, 0)
    } else {
        let t = bonus_totals(s.drop_last());
        (
            t.0 + s.last().strength,
            t.1 + s.last().hit_points,
            t.2 + s.last().health,
            t.3 + s.last().fatigue_points,
        )
    }
}

/// True when a total fits each of its components in `i64`.
pub open spec fn totals_fit_i64(t: (int, int, int, int)) -> bool {
    &&& i64::MIN <= t.0 <= i64::MAX
    &&& i64::MIN <= t.1 <= i64::MAX
    &&& i64::MIN <= t.2 <= i64::MAX
    &&& i64::MIN <= t.3 <= i64::MAX
}

/// True when every running total over `s` stays within `i64`.
pub open spec fn partial_totals_fit(s: Seq<Bonuses>) -> bool {
    forall|i: int| 0 <= i <= s.len() ==> totals_fit_i64(#[trigger] bonus_totals(s.subrange(0, i)))
}

impl Bonuses {
    /// Adds up a collection of bonuses field by field.
    pub fn sum(items: &Vec<Bonuses>) -> (r: Bonuses)
        requires
            partial_totals_fit(items@),
        ensures
            (r.strength as int, r.hit_points as int, r.health as int, r.fatigue_points as int)
                == bonus_totals(items@),
    {
        let mut acc = Bonuses { strength: 0, hit_points: 0, health: 0, fatigue_points: 0 };
        let mut i: usize = 0;
        proof {
            assert(items@.subrange(0, 0) =~= Seq::<Bonuses>::empty());
        }
        while i < items.len()
            invariant
                i <= items@.len(),
                partial_totals_fit(items@),
                (
                    acc.strength as int,
                    acc.hit_points as int,
                    acc.health as int,
                    acc.fatigue_points as int,
                ) == bonus_totals(items@.subrange(0, i as int)),
            decreases items@.len() - i,
        {
            let other = Bonuses {
                strength: items[i].strength,
                hit_points: items[i].hit_points,
                health: items[i].health,
                fatigue_points: items[i].fatigue_points,
            };
            proof {
                let pre = items@.subrange(0, i as int);
                let ext = items@.subrange(0, i + 1);
                assert(ext.drop_last() =~= pre);
                assert(ext.last() == items@[i as int]);
                assert(totals_fit_i64(bonus_totals(ext)));
            }
            acc.steal(other);
            i += 1;
        }
        proof {
            assert(items@.subrange(0, items@.len() as int) =~= items@);
        }
        acc
    }
}

impl Default for Bonuses {
    fn default() -> (r: Self)
        ensures
            r.strength == 0,
            r.hit_points == 0,
            r.health == 0,
            r.fatigue_points == 0,
    {
        Self { strength: 0, hit_points: 0, health: 0, fatigue_points: 0 }
    }
}

/// A bonus amount that may scale with the advantage's level.
#[derive(Clone, Debug, PartialEq)]
pub struct LeveledIntegerAmount {
    pub amount: i64,
    pub per_level: bool,
}

} // verus!
