//! Elemental types and the Generation-I type chart.

use vstd::prelude::*;
use crate::ratio::{gcd, lowest_terms, Fraction};

verus! {

/// Pokémon or move type.
#[derive(Copy, Clone, Debug, PartialEq, Eq, Structural)]
pub enum Type {
    Normal,
    Fighting,
    Flying,
    Poison,
    Ground,
    Rock,
    Bug,
    /// The type of ghosts.
    Specter,
    Fire,
    Water,
    Grass,
    Electric,
    Psychic,
    Ice,
    Dragon,
}

/// Effectiveness modifier from one type to another.
#[derive(Copy, Clone, Debug, PartialEq, Eq, Structural)]
pub enum Effectiveness {
    /// Normal effective, no modifications.
    Neutral,
    /// Target type is immune to the attack type.
    Immune,
    /// Target type is weak to the attack type.
    Weak,
    /// Target type resists the attack type.
    Resist,
}

impl Effectiveness {
    /// The damage multiplier as (numerator, denominator): one, nothing,
    /// double or half.
    pub open spec fn ratio(self) -> (nat, nat) {
        match self {
            Effectiveness::Neutral => (1, 1),
            Effectiveness::Immune => (0, 1),
            Effectiveness::Weak => (2, 1),
            Effectiveness::Resist => (1, 2),
        }
    }

    /// `damage` after this multiplier, rounded down.
    pub open spec fn scale(self, damage: nat) -> nat {
        damage * self.ratio().0 / self.ratio().1
    }

    /// The damage multiplier as an exact fraction.
    pub fn get_modifier(self) -> (modifier: Fraction)
        ensures
            modifier@ == self.ratio(),
            modifier.wf(),
            modifier.is_reduced(),
    {
        proof {
            lemma_whole_is_reduced();
        }
        match self {
            Effectiveness::Neutral => Fraction::from_integer(1),
            Effectiveness::Immune => Fraction::from_integer(0),
            Effectiveness::Weak => Fraction::from_integer(2),
            Effectiveness::Resist => {
                proof {
                    lemma_half_is_reduced();
                }
                Fraction::new(1, 2)
            },
        }
    }
}

/// One half is already in lowest terms.
proof fn lemma_half_is_reduced()
    ensures
        lowest_terms(1, 2) == (1nat, 2nat),
        gcd(1, 2) == 1,
{
    reveal_with_fuel(gcd, 4);
}

/// A whole number over one is in lowest terms.
proof fn lemma_whole_is_reduced()
    ensures
        gcd(0, 1) == 1,
        gcd(1, 1) == 1,
        gcd(2, 1) == 1,
{
    reveal_with_fuel(gcd, 4);
}

impl Type {
    /// A defender of type `self` takes double damage from `attack`.
    pub open spec fn weak_to(self, attack: Type) -> bool {
        match self {
            Type::Normal => attack is Fighting,
            Type::Fighting => attack is Flying || attack is Psychic,
            Type::Flying => attack is Rock || attack is Electric || attack is Ice,
            Type::Poison => attack is Ground || attack is Bug || attack is Psychic,
            Type::Ground => attack is Water || attack is Grass || attack is Ice,
            Type::Rock => attack is Fighting || attack is Ground || attack is Water
                || attack is Grass,
            Type::Bug => attack is Flying || attack is Poison || attack is Rock || attack is Fire,
            Type::Specter => attack is Specter,
            Type::Fire => attack is Ground || attack is Rock || attack is Water,
            Type::Water => attack is Grass || attack is Electric,
            Type::Grass => attack is Flying || attack is Poison || attack is Bug || attack is Fire
                || attack is Ice,
            Type::Electric => attack is Ground,
            Type::Psychic => attack is Bug,
            Type::Ice => attack is Fighting || attack is Rock || attack is Fire,
            Type::Dragon => attack is Ice || attack is Dragon,
        }
    }

    /// A defender of type `self` takes half damage from `attack`.
    pub open spec fn resists(self, attack: Type) -> bool {
        match self {
            Type::Normal => false,
            Type::Fighting => attack is Rock || attack is Bug,
            Type::Flying => attack is Fighting || attack is Bug || attack is Grass,
            Type::Poison => attack is Fighting || attack is Poison || attack is Grass,
            Type::Ground => attack is Poison || attack is Rock,
            Type::Rock => attack is Normal || attack is Flying || attack is Poison
                || attack is Fire,
            Type::Bug => attack is Fighting || attack is Ground,
            Type::Specter => attack is Poison || attack is Bug || attack is Grass,
            Type::Fire => attack is Bug || attack is Fire || attack is Grass,
            Type::Water => attack is Fire || attack is Water || attack is Ice,
            Type::Grass => attack is Ground || attack is Water || attack is Electric,
            Type::Electric => attack is Flying || attack is Electric,
            Type::Psychic => attack is Fighting || attack is Psychic,
            Type::Ice => attack is Ice,
            Type::Dragon => attack is Fire || attack is Water || attack is Grass
                || attack is Electric,
        }
    }

    /// A defender of type `self` takes no damage from `attack`.
    pub open spec fn immune_to(self, attack: Type) -> bool {
        match self {
            Type::Normal => attack is Specter,
            Type::Flying => attack is Ground,
            Type::Ground => attack is Electric,
            Type::Specter => attack is Normal || attack is Fighting,
            Type::Psychic => attack is Specter,
            _ => false,
        }
    }

    /// The chart entry for an attack of type `self` on a defender of type
    /// `other`, read off the defender's weaknesses, resistances and
    /// immunities.
    pub open spec fn chart(self, other: Type) -> Effectiveness {
        if other.immune_to(self) {
            Effectiveness::Immune
        } else if other.weak_to(self) {
            Effectiveness::Weak
        } else if other.resists(self) {
            Effectiveness::Resist
        } else {
            Effectiveness::Neutral
        }
    }

    /// The physical types; every other type is special.
    pub open spec fn physical(self) -> bool {
        self is Normal || self is Fighting || self is Flying || self is Poison || self is Ground
            || self is Rock || self is Bug || self is Specter
    }

    /// Get the effectiveness of this type onto another.
    pub fn effectiveness(self, other: Type) -> (e: Effectiveness)
        ensures
            e == self.chart(other),
    {
        match self {
            Type::Normal => match other {
                Type::Rock => Effectiveness::Resist,
                Type::Specter => Effectiveness::Immune,
                _ => Effectiveness::Neutral,
            },
            Type::Fighting => match other {
                Type::Normal | Type::Rock | Type::Ice => Effectiveness::Weak,
                Type::Flying | Type::Poison | Type::Bug | Type::Psychic => Effectiveness::Resist,
                Type::Specter => Effectiveness::Immune,
                _ => Effectiveness::Neutral,
            },
            Type::Flying => match other {
                Type::Fighting | Type::Bug | Type::Grass => Effectiveness::Weak,
                Type::Rock | Type::Electric => Effectiveness::Resist,
                _ => Effectiveness::Neutral,
            },
            Type::Poison => match other {
                Type::Bug | Type::Grass => Effectiveness::Weak,
                Type::Poison | Type::Ground | Type::Rock | Type::Specter => Effectiveness::Resist,
                _ => Effectiveness::Neutral,
            },
            Type::Ground => match other {
                Type::Poison | Type::Rock | Type::Fire | Type::Electric => Effectiveness::Weak,
                Type::Bug | Type::Grass => Effectiveness::Resist,
                Type::Flying => Effectiveness::Immune,
                _ => Effectiveness::Neutral,
            },
            Type::Rock => match other {
                Type::Flying | Type::Bug | Type::Fire | Type::Ice => Effectiveness::Weak,
                Type::Fighting | Type::Ground => Effectiveness::Resist,
                _ => Effectiveness::Neutral,
            },
            Type::Bug => match other {
                Type::Poison | Type::Grass | Type::Psychic => Effectiveness::Weak,
                Type::Fighting | Type::Flying | Type::Specter | Type::Fire => Effectiveness::Resist,
                _ => Effectiveness::Neutral,
            },
            Type::Specter => match other {
                Type::Specter => Effectiveness::Weak,
                // Specter attacks cannot touch Psychic defenders in this generation.
                Type::Normal | Type::Psychic => Effectiveness::Immune,
                _ => Effectiveness::Neutral,
            },
            Type::Fire => match other {
                Type::Bug | Type::Grass | Type::Ice => Effectiveness::Weak,
                Type::Rock | Type::Fire | Type::Water | Type::Dragon => Effectiveness::Resist,
                _ => Effectiveness::Neutral,
            },
            Type::Water => match other {
                Type::Ground | Type::Rock | Type::Fire => Effectiveness::Weak,
                Type::Water | Type::Grass | Type::Dragon => Effectiveness::Resist,
                _ => Effectiveness::Neutral,
            },
            Type::Grass => match other {
                Type::Ground | Type::Rock | Type::Water => Effectiveness::Weak,
                Type::Flying | Type::Poison | Type::Specter | Type::Fire | Type::Dragon => {
                    Effectiveness::Resist
                },
                _ => Effectiveness::Neutral,
            },
            Type::Electric => match other {
                Type::Flying | Type::Water => Effectiveness::Weak,
                Type::Grass | Type::Electric | Type::Dragon => Effectiveness::Resist,
                Type::Ground => Effectiveness::Immune,
                _ => Effectiveness::Neutral,
            },
            Type::Psychic => match other {
                Type::Fighting | Type::Poison => Effectiveness::Weak,
                Type::Psychic => Effectiveness::Resist,
                _ => Effectiveness::Neutral,
            },
            Type::Ice => match other {
                Type::Flying | Type::Ground | Type::Grass | Type::Dragon => Effectiveness::Weak,
                // Fire does not resist Ice in this generation.
                Type::Water | Type::Ice => Effectiveness::Resist,
                _ => Effectiveness::Neutral,
            },
            Type::Dragon => match other {
                Type::Dragon => Effectiveness::Weak,
                _ => Effectiveness::Neutral,
            },
        }
    }

    /// Moves of a physical type use Attack and Defense.
    pub fn is_physical(self) -> (physical: bool)
        ensures
            physical == self.physical(),
    {
        match self {
            Type::Normal
            | Type::Fighting
            | Type::Flying
            | Type::Poison
            | Type::Ground
            | Type::Rock
            | Type::Bug
            | Type::Specter => true,
            _ => false,
        }
    }

    /// Moves of a special type use Special for both attack and defense.
    pub fn is_special(self) -> (special: bool)
        ensures
            special == !self.physical(),
    {
        !self.is_physical()
    }
}

/// No defender is at once weak to, resistant to and immune to one attack
/// type: at most one of the three holds for any pair.
pub proof fn lemma_chart_classes_exclusive(attack: Type, defender: Type)
    ensures
        !(defender.weak_to(attack) && defender.resists(attack)),
        !(defender.weak_to(attack) && defender.immune_to(attack)),
        !(defender.resists(attack) && defender.immune_to(attack)),
{
}

/// The chart entries that no general rule yields: Specter does nothing to
/// Normal and Psychic, Fire takes full damage from Ice, and Poison and Bug are
/// each weak to the other.
pub proof fn lemma_chart_quirks()
    ensures
        Type::Specter.chart(Type::Normal) == Effectiveness::Immune,
        Type::Specter.chart(Type::Psychic) == Effectiveness::Immune,
        Type::Ice.chart(Type::Fire) == Effectiveness::Neutral,
        Type::Poison.chart(Type::Bug) == Effectiveness::Weak,
        Type::Bug.chart(Type::Poison) == Effectiveness::Weak,
{
}

/// Scaling by a chart entry never more than doubles the damage.
pub proof fn lemma_scale_bound(e: Effectiveness, damage: nat)
    ensures
        e.scale(damage) <= 2 * damage,
{
}

} // verus!
