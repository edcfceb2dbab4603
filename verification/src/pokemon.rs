//! The Pokémon record and the raw stats derived from it.

use vstd::prelude::*;
use crate::stats::{Stat, StatSet, PERFECT_EVS, PERFECT_IVS};
use crate::types::Type;
use crate::utils::{int_sqrt, lemma_int_sqrt_bounds, IntegerSquareRoot};

verus! {

/// The lowest level a Pokémon can have.
pub const MIN_LEVEL: u8 = 1;

/// The highest level a Pokémon can have.
pub const MAX_LEVEL: u8 = 100;

/// The largest individual value.
pub const MAX_IV: u16 = 15;

/// What effort adds to a stat before the level is applied: a quarter of the
/// integer square root of the effort value less one, plus one, taken before
/// the division; never more than 63.
pub open spec fn effort_bonus(ev: nat) -> nat {
    let root = int_sqrt(if ev >= 1 { (ev - 1) as nat } else { 0 }) + 1;
    if root / 4 < 63 {
        root / 4
    } else {
        63
    }
}

/// The raw stat of a Pokémon of the given level, base stat, individual value
/// and effort value. Hit points grow with the level plus ten, every other
/// stat by five.
pub open spec fn raw_stat(level: nat, base: nat, iv: nat, ev: nat, is_hp: bool) -> nat {
    (effort_bonus(ev) + 2 * (iv + base)) * level / 100 + if is_hp {
        level + 10
    } else {
        5
    }
}

/// Computes `raw_stat` in 32 bits, which hold it for every input.
pub fn compute_raw_stat(level: u8, base: u16, iv: u16, ev: u16, is_hp: bool) -> (value: u32)
    ensures
        value == raw_stat(level as nat, base as nat, iv as nat, ev as nat, is_hp),
{
    let below: u16 = ev.saturating_sub(1);
    let root: u16 = IntegerSquareRoot::isqrt(below);
    proof {
        lemma_int_sqrt_bounds(below as nat);
    }
    let s: u32 = (root as u32 + 1) / 4;
    let s: u32 = if s < 63 {
        s
    } else {
        63
    };
    let s: u32 = s + 2 * (iv as u32 + base as u32);
    let l: u32 = level as u32;
    let bonus: u32 = if is_hp {
        l + 10
    } else {
        5
    };
    assert(s * l <= 262203 * 255) by (nonlinear_arith)
        requires
            s <= 262203,
            l <= 255,
    ;
    s * l / 100 + bonus
}

/// A Pokémon: its level, base stats, effort values, individual values and
/// one or two types.
#[derive(Debug)]
pub struct Pokemon {
    pub level: u8,
    pub base_stats: StatSet,
    pub evs: StatSet,
    pub ivs: StatSet,
    pub types: [Option<Type>; 2],
}

impl Pokemon {
    /// The raw value of the stat in `slot`; hit points come first.
    pub open spec fn slot_value(&self, slot: int) -> nat
        recommends
            0 <= slot < 5,
    {
        raw_stat(
            self.level as nat,
            self.base_stats[slot] as nat,
            self.ivs[slot] as nat,
            self.evs[slot] as nat,
            slot == 0,
        )
    }

    /// The individual value in `slot` is at most 15, and the raw stat there
    /// fits in 16 bits.
    pub open spec fn slot_in_range(&self, slot: int) -> bool
        recommends
            0 <= slot < 5,
    {
        self.ivs[slot] <= MAX_IV && self.slot_value(slot) <= u16::MAX
    }

    /// The raw value of `stat`, which must be one of the five raw stats.
    pub open spec fn stat_value(&self, stat: Stat) -> nat
        recommends
            stat.is_raw(),
    {
        self.slot_value(stat.index() as int)
    }

    /// Whether `wanted` is one of the types of this Pokémon.
    pub open spec fn holds_type(&self, wanted: Type) -> bool {
        self.types[0] == Some(wanted) || self.types[1] == Some(wanted)
    }

    /// A record is valid when its level lies between 1 and 100, no individual
    /// value exceeds 15, each of its raw stats fits in 16 bits, and it has
    /// one or two types, two of them being distinct.
    pub open spec fn is_valid(&self) -> bool {
        &&& MIN_LEVEL <= self.level <= MAX_LEVEL
        &&& forall|slot: int| 0 <= slot < 5 ==> #[trigger] self.slot_in_range(slot)
        &&& (self.types[0] is Some || self.types[1] is Some)
        &&& (self.types[0] is Some ==> self.types[0] != self.types[1])
    }

    /// Each raw stat of a valid record fits in 16 bits.
    pub proof fn lemma_valid_stats(&self, stat: Stat)
        requires
            self.is_valid(),
            stat.is_raw(),
        ensures
            self.stat_value(stat) <= u16::MAX,
    {
        assert(self.slot_in_range(stat.index() as int));
    }

    /// Tells whether the record is valid.
    pub fn validate(&self) -> (valid: bool)
        ensures
            valid == self.is_valid(),
    {
        if self.level < MIN_LEVEL || self.level > MAX_LEVEL {
            return false;
        }
        let mut slot: usize = 0;
        while slot < 5
            invariant
                slot <= 5,
                forall|below: int| 0 <= below < slot ==> #[trigger] self.slot_in_range(below),
            decreases 5 - slot,
        {
            let value = compute_raw_stat(
                self.level,
                self.base_stats[slot],
                self.ivs[slot],
                self.evs[slot],
                slot == 0,
            );
            if self.ivs[slot] > MAX_IV || value > 0xffff {
                assert(!self.slot_in_range(slot as int));
                return false;
            }
            slot += 1;
        }
        match self.types[0] {
            Some(first) => match self.types[1] {
                Some(second) => first != second,
                None => true,
            },
            None => match self.types[1] {
                Some(_) => true,
                None => false,
            },
        }
    }

    /// Calculate the stat value given all other parameters.
    ///
    /// This computes the raw, unmodified stat based on the level,
    /// base stats, effort values and individual values of the pokemon.
    /// Accuracy and evasion have no raw value.
    pub fn get_stat(&self, stat: Stat) -> (value: u16)
        requires
            self.is_valid(),
            stat.is_raw(),
        ensures
            value == self.stat_value(stat),
    {
        proof {
            self.lemma_valid_stats(stat);
        }
        let slot = usize::from(stat);
        let is_hp = match stat {
            Stat::HP => true,
            _ => false,
        };
        let value = compute_raw_stat(
            self.level,
            self.base_stats[slot],
            self.ivs[slot],
            self.evs[slot],
            is_hp,
        );
        value as u16
    }

    /// Check if this pokemon has the wanted type.
    pub fn has_type(&self, wanted: Type) -> (found: bool)
        ensures
            found == self.holds_type(wanted),
    {
        let first = match self.types[0] {
            Some(held) => held == wanted,
            None => false,
        };
        let second = match self.types[1] {
            Some(held) => held == wanted,
            None => false,
        };
        first || second
    }

    /// The two type slots, in order.
    pub fn get_types(&self) -> (types: &[Option<Type>])
        ensures
            types@ == self.types@,
    {
        self.types.as_slice()
    }
}

/// Generic pokemon stats.
///
/// The default pokemon has the base stats and type of Rattata, perfect IVs and EVs, and is
/// at level 100. Override as needed.
impl Default for Pokemon {
    fn default() -> (pokemon: Pokemon)
        ensures
            pokemon.level == 100,
            pokemon.base_stats@ == seq![30u16, 56u16, 35u16, 25u16, 72u16],
            pokemon.evs == PERFECT_EVS,
            pokemon.ivs == PERFECT_IVS,
            pokemon.types@ == seq![Some(Type::Normal), None],
    {
        Pokemon {
            level: 100,
            base_stats: [30, 56, 35, 25, 72],
            evs: PERFECT_EVS,
            ivs: PERFECT_IVS,
            types: [Some(Type::Normal), None],
        }
    }
}

} // verus!
