//! Stats, stat containers and stage modifiers.

use vstd::prelude::*;
use vstd::std_specs::convert::FromSpecImpl;
use vstd::std_specs::ops::AddSpecImpl;
use crate::ratio::{
    lemma_lowest_terms,
    lemma_lowest_terms_coprime,
    lemma_lowest_terms_scale,
    lemma_lowest_terms_unscale,
    lowest_terms,
    Fraction,
};

verus! {

/// The stats of a combatant. The first five are raw stats; accuracy and
/// evasion exist only as stages.
#[derive(Copy, Clone, Debug, Ord, PartialOrd, Eq, PartialEq, Structural)]
pub enum Stat {
    HP,
    Attack,
    Defense,
    Special,
    Speed,
    Accuracy,
    Evasion,
}

impl Stat {
    /// Position of the stat in a stage array; the raw stats come first.
    pub open spec fn index(self) -> usize {
        match self {
            Stat::HP => 0,
            Stat::Attack => 1,
            Stat::Defense => 2,
            Stat::Special => 3,
            Stat::Speed => 4,
            Stat::Accuracy => 5,
            Stat::Evasion => 6,
        }
    }

    /// Whether the stat has a raw value, that is, a slot in a [`StatSet`].
    pub open spec fn is_raw(self) -> bool {
        self.index() < 5
    }
}

impl From<Stat> for usize {
    fn from(stat: Stat) -> (index: usize)
        ensures
            index == stat.index(),
            index < 7,
    {
        match stat {
            Stat::HP => 0,
            Stat::Attack => 1,
            Stat::Defense => 2,
            Stat::Special => 3,
            Stat::Speed => 4,
            Stat::Accuracy => 5,
            Stat::Evasion => 6,
        }
    }
}

impl FromSpecImpl<Stat> for usize {
    open spec fn obeys_from_spec() -> bool {
        true
    }

    open spec fn from_spec(stat: Stat) -> usize {
        stat.index()
    }
}

/// Container for values for all stats.
pub type StatSet = [u16; 5];

/// Maximum attainable individual values.
pub const PERFECT_IVS: StatSet = [0xf, 0xf, 0xf, 0xf, 0xf];

/// Maximum attainable effort values.
pub const PERFECT_EVS: StatSet = [0xffff, 0xffff, 0xffff, 0xffff, 0xffff];

/// The lowest stage a stat can fall to.
pub const MIN_STAGE: i8 = -6;

/// The highest stage a stat can rise to.
pub const MAX_STAGE: i8 = 6;

/// `level` brought into the range of stages.
pub open spec fn clamp_stage(level: int) -> int {
    if level < MIN_STAGE {
        MIN_STAGE as int
    } else if level > MAX_STAGE {
        MAX_STAGE as int
    } else {
        level
    }
}

/// The multiplier of a stage as (numerator, denominator), as the game's
/// table writes it. The falling stages are listed one by one, since they are
/// not the reciprocals of the rising ones.
pub open spec fn stage_ratio(stage: int) -> (nat, nat)
    recommends
        MIN_STAGE <= stage <= MAX_STAGE,
{
    if stage == -6 {
        (1, 4)
    } else if stage == -5 {
        (28, 100)
    } else if stage == -4 {
        (33, 100)
    } else if stage == -3 {
        (40, 100)
    } else if stage == -2 {
        (1, 2)
    } else if stage == -1 {
        (66, 100)
    } else {
        ((stage + 2) as nat, 2)
    }
}

/// `value` multiplied by the multiplier of `stage`, rounded down.
pub open spec fn stage_scale(stage: int, value: nat) -> nat {
    value * stage_ratio(stage).0 / stage_ratio(stage).1
}

/// The largest value a boosted stat may show.
pub const STAT_CAP: u16 = 999;

/// Stat boost modifier.
///
/// Represents any of the 13 levels of stat boost; 6 levels in either
/// direction.
///
/// Additions on this object are defined as saturating at the boundaries.
#[derive(Copy, Clone, Debug, Eq, PartialEq, Structural)]
pub struct Modifier(i8);

impl View for Modifier {
    type V = int;

    /// The stage.
    closed spec fn view(&self) -> int {
        self.0 as int
    }
}

impl Modifier {
    /// The stage lies between -6 and 6. This holds of every modifier that
    /// a program can get hold of.
    #[verifier::type_invariant]
    pub open spec fn in_range(self) -> bool {
        MIN_STAGE <= self@ <= MAX_STAGE
    }

    /// The modifier that holds `level` brought into the range of stages.
    pub closed spec fn clamped(level: int) -> Modifier {
        Modifier(clamp_stage(level) as i8)
    }

    /// The sum of a stage and a change is `clamped` of their plain sum: that
    /// sum brought back into the range of stages, which it therefore never
    /// leaves, and the sum itself where it lies within the range.
    pub proof fn lemma_clamped(level: int)
        ensures
            Modifier::clamped(level)@ == clamp_stage(level),
            MIN_STAGE <= Modifier::clamped(level)@ <= MAX_STAGE,
            MIN_STAGE <= level <= MAX_STAGE ==> Modifier::clamped(level)@ == level,
    {
    }

    /// The stage, between -6 and 6.
    pub fn stage(&self) -> (stage: i8)
        ensures
            stage == self@,
            MIN_STAGE <= stage <= MAX_STAGE,
    {
        proof {
            use_type_invariant(self);
        }
        self.0
    }

    /// Apply the modifier to a stat value; the outcome is capped at 999.
    pub fn modify(self, stat: u8) -> (modified: u16)
        ensures
            modified == if stage_scale(self@, stat as nat) < STAT_CAP {
                stage_scale(self@, stat as nat)
            } else {
                STAT_CAP as nat
            },
    {
        let ratio = self.get_ratio();
        let value = Fraction::from_integer(stat as u32);
        proof {
            assert(value@.0 * ratio@.0 <= 255 * 100) by (nonlinear_arith)
                requires
                    value@.0 <= 255,
                    ratio@.0 <= 100,
            ;
            lemma_lowest_terms(stat as nat * ratio@.0, ratio@.1);
            lemma_lowest_terms_scale(stat as nat, stage_ratio(self@).0, stage_ratio(self@).1);
        }
        let whole = value.times(ratio).to_integer();
        if whole < STAT_CAP as u32 {
            whole as u16
        } else {
            STAT_CAP
        }
    }

    /// Get the ratio of the modifier for this level of boost: the multiplier
    /// of the stage, which is the same for all stats.
    pub fn get_ratio(self) -> (ratio: Fraction)
        ensures
            ratio@ == lowest_terms(stage_ratio(self@).0, stage_ratio(self@).1),
            ratio.wf(),
            ratio.is_reduced(),
            0 < ratio@.0 <= 100,
            ratio@.1 <= 100,
    {
        proof {
            use_type_invariant(self);
            lemma_lowest_terms(stage_ratio(self@).0, stage_ratio(self@).1);
            lemma_lowest_terms_coprime(stage_ratio(self@).0, stage_ratio(self@).1);
            lemma_lowest_terms_unscale(0, stage_ratio(self@).0, stage_ratio(self@).1);
        }
        match self.0 {
            // The falling stages are spelled out: the game rounds them.
            -6 => Fraction::new(1, 4),
            -5 => Fraction::new(28, 100),
            -4 => Fraction::new(33, 100),
            -3 => Fraction::new(40, 100),
            -2 => Fraction::new(1, 2),
            -1 => Fraction::new(66, 100),
            // Neutral and rising stages follow one pattern.
            x => Fraction::new((x + 2) as u32, 2),
        }
    }
}

impl Default for Modifier {
    /// The neutral stage.
    fn default() -> (neutral: Modifier)
        ensures
            neutral@ == 0,
    {
        Modifier(0)
    }
}

impl From<i8> for Modifier {
    /// The modifier for `level`, brought into the range of stages.
    fn from(level: i8) -> (modifier: Modifier)
        ensures
            modifier@ == clamp_stage(level as int),
    {
        if level < MIN_STAGE {
            Modifier(MIN_STAGE)
        } else if level > MAX_STAGE {
            Modifier(MAX_STAGE)
        } else {
            Modifier(level)
        }
    }
}

impl FromSpecImpl<i8> for Modifier {
    open spec fn obeys_from_spec() -> bool {
        true
    }

    open spec fn from_spec(level: i8) -> Modifier {
        Modifier::clamped(level as int)
    }
}

impl core::ops::Add<i8> for Modifier {
    type Output = Modifier;

    /// Implement adding a change to a modifier.
    ///
    /// The resulting addition will saturate at the limits of the boost.
    fn add(self, rhs: i8) -> (sum: Modifier)
        ensures
            sum@ == clamp_stage(self@ + rhs),
            MIN_STAGE <= sum@ <= MAX_STAGE,
    {
        proof {
            use_type_invariant(self);
        }
        let level: i16 = self.0 as i16 + rhs as i16;
        if level < MIN_STAGE as i16 {
            Modifier(MIN_STAGE)
        } else if level > MAX_STAGE as i16 {
            Modifier(MAX_STAGE)
        } else {
            Modifier(level as i8)
        }
    }
}

impl AddSpecImpl<i8> for Modifier {
    open spec fn obeys_add_spec() -> bool {
        true
    }

    open spec fn add_req(self, rhs: i8) -> bool {
        true
    }

    open spec fn add_spec(self, rhs: i8) -> Modifier {
        Modifier::clamped(self@ + rhs)
    }
}

impl core::ops::Add<Modifier> for Modifier {
    type Output = Modifier;

    /// The sum of two stages, saturating at the limits of the boost.
    fn add(self, rhs: Modifier) -> (sum: Modifier)
        ensures
            sum@ == clamp_stage(self@ + rhs@),
            MIN_STAGE <= sum@ <= MAX_STAGE,
    {
        proof {
            use_type_invariant(self);
            use_type_invariant(rhs);
        }
        let level: i8 = self.0 + rhs.0;
        if level < MIN_STAGE {
            Modifier(MIN_STAGE)
        } else if level > MAX_STAGE {
            Modifier(MAX_STAGE)
        } else {
            Modifier(level)
        }
    }
}

impl AddSpecImpl<Modifier> for Modifier {
    open spec fn obeys_add_spec() -> bool {
        true
    }

    open spec fn add_req(self, rhs: Modifier) -> bool {
        true
    }

    open spec fn add_spec(self, rhs: Modifier) -> Modifier {
        Modifier::clamped(self@ + rhs@)
    }
}

} // verus!
