//! Moves and their resolution: hit or miss, critical hits, damage and recoil.

use vstd::prelude::*;
use rand::Rng;
use crate::battle::{BattleState, BattleView};
use crate::pokemon::Pokemon;
use crate::ratio::{
    lemma_lowest_terms,
    lemma_lowest_terms_scale,
    lemma_lowest_terms_unscale,
    Fraction,
};
use crate::stats::{stage_ratio, stage_scale, Modifier, Stat};
use crate::types::{lemma_scale_bound, Type};

verus! {

/// What a move does besides dealing damage.
#[derive(Copy, Clone, Debug, PartialEq, Eq, Structural)]
pub enum MoveEffect {
    /// Normal, damaging move.
    Normal,
    /// Move with recoil. Divider is the fraction of the damage that will be dealt as recoil.
    Recoil(u8),
    /// Explosion or self-destruct
    SelfKO,
    /// High critical hit ratio
    HighCrit,
}

/// What a move holds.
pub struct MoveView {
    /// The base power; a move without one deals no damage.
    pub power: Option<u8>,
    /// Accuracy on a scale of 255; a move without one always hits.
    pub accuracy: Option<u8>,
    pub effect: MoveEffect,
    pub move_type: Type,
}

impl MoveView {
    /// A move is well formed when neither its power, nor its accuracy, nor
    /// the divider of its recoil is zero.
    pub open spec fn wf(self) -> bool {
        &&& self.power != Some(0u8)
        &&& self.accuracy != Some(0u8)
        &&& self.effect != MoveEffect::Recoil(0)
    }
}

/// The lowest roll that scales damage.
pub const MIN_DAMAGE_ROLL: u8 = 217;

/// What a roll is compared with to decide a hit: the accuracy scaled by the
/// attacker's accuracy stage and rounded down, then divided by the
/// multiplier of the defender's evasion stage and rounded down again.
pub open spec fn hit_threshold(accuracy: nat, accuracy_stage: int, evasion_stage: int) -> nat {
    stage_scale(accuracy_stage, accuracy) * stage_ratio(evasion_stage).1 / stage_ratio(
        evasion_stage,
    ).0
}

/// What a roll is compared with to decide a critical hit: half the base
/// speed, four times that for a move with a high critical-hit ratio, and at
/// most 255.
pub open spec fn critical_threshold(base_speed: nat, effect: MoveEffect) -> nat {
    let half = base_speed / 2;
    let threshold = if effect is HighCrit {
        half * 4
    } else {
        half
    };
    if threshold < 255 {
        threshold
    } else {
        255
    }
}

/// Attack and defense as the damage formula sees them. If either exceeds
/// 255, both are divided by four and only the low eight bits of each are
/// kept.
pub open spec fn registers(attack: nat, defense: nat) -> (nat, nat) {
    if attack > 255 || defense > 255 {
        ((attack / 4) % 256, (defense / 4) % 256)
    } else {
        (attack, defense)
    }
}

/// Damage before the same-type bonus, the type chart and the roll.
pub open spec fn base_damage(power: nat, attack: nat, defense: nat, level: nat) -> nat {
    let attack = if attack < 1 {
        1
    } else {
        attack
    };
    let defense = if defense < 1 {
        1
    } else {
        defense
    };
    let scaled = power * attack * (2 * level / 5 + 2) / defense / 50;
    2 + if scaled < 997 {
        scaled
    } else {
        997
    }
}

/// Damage after the chart entry of one type slot of the defender, rounded
/// down; an empty slot changes nothing.
pub open spec fn against_slot(move_type: Type, slot: Option<Type>, damage: nat) -> nat {
    match slot {
        Some(defender) => move_type.chart(defender).scale(damage),
        None => damage,
    }
}

/// Damage after the chart entries of both type slots of the defender, each
/// applied in turn and rounded down.
pub open spec fn against(move_type: Type, slots: Seq<Option<Type>>, damage: nat) -> nat {
    against_slot(move_type, slots[1], against_slot(move_type, slots[0], damage))
}

/// Calls `rand::Rng::gen` for a byte. Nothing is promised of the byte.
#[verifier::external_body]
fn draw_byte<R: Rng>(rand: &mut R) -> (roll: u8) {
    rand.gen::<u8>()
}

/// Calls `rand::Rng::gen_range`, which panics unless `low < high` and
/// returns a value from `low` up to, but not including, `high`. It draws
/// from the source until a draw is accepted.
#[verifier::external_body]
fn draw_in_range<R: Rng>(rand: &mut R, low: u32, high: u32) -> (roll: u32)
    requires
        low < high,
    ensures
        low <= roll < high,
{
    rand.gen_range(low, high)
}

/// A move a pokemon could use.
pub struct Move {
    power: Option<u8>,
    /// Accuracy for the move on a 0..255 scale. None means move always hits.
    accuracy: Option<u8>,
    effect: MoveEffect,
    move_type: Type,
}

impl View for Move {
    type V = MoveView;

    closed spec fn view(&self) -> MoveView {
        MoveView {
            power: self.power,
            accuracy: self.accuracy,
            effect: self.effect,
            move_type: self.move_type,
        }
    }
}

impl Move {
    #[verifier::type_invariant]
    spec fn well_formed(self) -> bool {
        self@.wf()
    }

    /// Whether the move hits on `roll`.
    pub open spec fn hits_on(self, roll: u8, accuracy_stage: int, evasion_stage: int) -> bool {
        match self@.accuracy {
            Some(accuracy) => hit_threshold(accuracy as nat, accuracy_stage, evasion_stage) > roll,
            None => true,
        }
    }

    /// Whether the move is a critical hit on `roll`.
    pub open spec fn critical_on(self, roll: u8, attacker: BattleView) -> bool {
        roll < critical_threshold(
            attacker.pokemon.base_stats[Stat::Speed.index() as int] as nat,
            self@.effect,
        )
    }

    /// Attack and defense that the move reads: Attack and Defense for a
    /// physical move, Special and Special otherwise, the defense halved for a
    /// move that knocks its user out.
    pub open spec fn stat_pair(self, attacker: BattleView, defender: BattleView) -> (nat, nat) {
        let (attack, defense) = if self@.move_type.physical() {
            (
                attacker.stats[Stat::Attack.index() as int] as nat,
                defender.stats[Stat::Defense.index() as int] as nat,
            )
        } else {
            (
                attacker.stats[Stat::Special.index() as int] as nat,
                defender.stats[Stat::Special.index() as int] as nat,
            )
        };
        if self@.effect is SelfKO {
            (attack, defense / 2)
        } else {
            (attack, defense)
        }
    }

    /// Damage before the roll: the base damage, half as much again if the
    /// attacker has the type of the move, then the type chart.
    pub open spec fn damage_before_roll(self, attacker: BattleView, defender: BattleView) -> nat
        recommends
            self@.power is Some,
    {
        let (attack, defense) = self.stat_pair(attacker, defender);
        let (attack, defense) = registers(attack, defense);
        let damage = base_damage(
            self@.power->0 as nat,
            attack,
            defense,
            attacker.pokemon.level as nat,
        );
        let damage = if attacker.pokemon.holds_type(self@.move_type) {
            damage * 3 / 2
        } else {
            damage
        };
        against(self@.move_type, defender.pokemon.types@, damage)
    }

    /// The damage the move deals on `roll`: nothing without a power, else
    /// the damage before the roll times the roll over 255, rounded down.
    pub open spec fn damage_on(self, roll: u8, attacker: BattleView, defender: BattleView) -> nat {
        if self@.power is Some {
            self.damage_before_roll(attacker, defender) * (roll as nat) / 255
        } else {
            0
        }
    }

    /// The recoil for `damage` dealt: for a move with recoil, the damage over
    /// the divider, rounded down, but at least one.
    pub open spec fn recoil_for(self, damage: u16) -> Option<u16> {
        match self@.effect {
            MoveEffect::Recoil(divider) => Some(
                if damage / (divider as u16) < 1 {
                    1u16
                } else {
                    (damage / (divider as u16)) as u16
                },
            ),
            _ => None,
        }
    }

    /// A move of accuracy 255 at neutral stages hits on every roll but 255:
    /// the roll must lie strictly below the threshold.
    pub proof fn lemma_full_accuracy_misses_once(self, roll: u8)
        requires
            self@.accuracy == Some(255u8),
        ensures
            self.hits_on(roll, 0, 0) == (roll != 255),
    {
    }

    /// A move with the given power, accuracy, effect and type; none if the
    /// power, the accuracy or the divider of the recoil is zero.
    pub fn new(power: Option<u8>, accuracy: Option<u8>, effect: MoveEffect, move_type: Type) -> (made:
        Option<Move>)
        ensures
            made is Some <==> (MoveView { power, accuracy, effect, move_type }).wf(),
            made is Some ==> made->0@ == (MoveView { power, accuracy, effect, move_type }),
    {
        let power_ok = match power {
            Some(value) => value != 0,
            None => true,
        };
        let accuracy_ok = match accuracy {
            Some(value) => value != 0,
            None => true,
        };
        let effect_ok = match effect {
            MoveEffect::Recoil(divider) => divider != 0,
            _ => true,
        };
        if power_ok && accuracy_ok && effect_ok {
            Some(Move { power, accuracy, effect, move_type })
        } else {
            None
        }
    }

    /// Fallback move for when no other move is available: Struggle.
    pub fn fallback() -> (struggle: &'static Move)
        ensures
            struggle@ == (MoveView {
                power: Some(50u8),
                accuracy: Some(255u8),
                effect: MoveEffect::Recoil(2),
                move_type: Type::Normal,
            }),
    {
        &Move {
            power: Some(50),
            accuracy: Some(255),
            effect: MoveEffect::Recoil(2),
            move_type: Type::Normal,
        }
    }

    /// Decide whether the move hits, given the byte rolled for it.
    ///
    /// The comparison is strict, so a move of accuracy 255 at neutral stages
    /// still misses on a roll of 255.
    pub fn hits_with_roll(&self, roll: u8, accuracy: Modifier, evasion: Modifier) -> (hit: bool)
        ensures
            hit == self.hits_on(roll, accuracy@, evasion@),
    {
        match self.accuracy {
            Some(value) => {
                let rise = accuracy.get_ratio();
                let fall = evasion.get_ratio();
                let start = Fraction::from_integer(value as u32);
                proof {
                    use_type_invariant(accuracy);
                    use_type_invariant(evasion);
                    assert(start@.0 * rise@.0 <= 255 * 100) by (nonlinear_arith)
                        requires
                            start@.0 <= 255,
                            rise@.0 <= 100,
                    ;
                    lemma_lowest_terms(value as nat * rise@.0, rise@.1);
                    lemma_lowest_terms_scale(
                        value as nat,
                        stage_ratio(accuracy@).0,
                        stage_ratio(accuracy@).1,
                    );
                }
                let scaled = start.times(rise);
                let whole = scaled.trunc();
                proof {
                    assert(whole@.0 * fall@.1 <= 255 * 100 * 100) by (nonlinear_arith)
                        requires
                            whole@.0 <= 255 * 100,
                            fall@.1 <= 100,
                    ;
                    lemma_lowest_terms(whole@.0 * fall@.1, fall@.0);
                    lemma_lowest_terms_unscale(
                        whole@.0,
                        stage_ratio(evasion@).0,
                        stage_ratio(evasion@).1,
                    );
                }
                let threshold = whole.over(fall).to_integer();
                threshold > roll as u32
            },
            None => true,
        }
    }

    /// Decide whether the move hits, rolling a byte from `rand` if the move
    /// has an accuracy. A move without one always hits and rolls nothing.
    pub fn hits<R: Rng>(&self, rand: &mut R, accuracy: Modifier, evasion: Modifier) -> (hit: bool)
        ensures
            exists|roll: u8| hit == #[trigger] self.hits_on(roll, accuracy@, evasion@),
            self@.accuracy is None ==> hit,
    {
        match self.accuracy {
            Some(_) => {
                let roll = draw_byte(rand);
                self.hits_with_roll(roll, accuracy, evasion)
            },
            None => {
                assert(self.hits_on(0, accuracy@, evasion@));
                true
            },
        }
    }

    /// Scale `damage` by the chart entry of the move's type against each
    /// type of the defender in turn, rounding down after each.
    fn apply_type_effectiveness(&self, defender: &Pokemon, damage: u32) -> (scaled: u32)
        requires
            damage <= 0x1000_0000,
        ensures
            scaled == against(self@.move_type, defender.types@, damage as nat),
            scaled <= 4 * damage,
    {
        let slots = defender.get_types();
        let mut scaled: u32 = damage;
        let mut slot: usize = 0;
        while slot < 2
            invariant
                slot <= 2,
                slots@ == defender.types@,
                slots@.len() == 2,
                damage <= 0x1000_0000,
                slot == 0 ==> scaled == damage,
                slot == 1 ==> scaled <= 2 * damage && scaled == against_slot(
                    self@.move_type,
                    slots@[0],
                    damage as nat,
                ),
                slot == 2 ==> scaled <= 4 * damage && scaled == against(
                    self@.move_type,
                    slots@,
                    damage as nat,
                ),
            decreases 2 - slot,
        {
            if let Some(defender_type) = slots[slot] {
                let entry = self.move_type.effectiveness(defender_type);
                let modifier = entry.get_modifier();
                let whole = Fraction::from_integer(scaled);
                proof {
                    assert(whole@.0 * modifier@.0 <= 0x8000_0000 && whole@.1 * modifier@.1
                        == modifier@.1) by (nonlinear_arith)
                        requires
                            whole@.0 <= 0x4000_0000,
                            whole@.1 == 1,
                            modifier@.0 <= 2,
                    ;
                    lemma_lowest_terms(scaled as nat * modifier@.0, modifier@.1);
                    lemma_scale_bound(entry, scaled as nat);
                }
                scaled = whole.times(modifier).to_integer();
            }
            slot += 1;
        }
        scaled
    }

    /// Compute the damage for when the attacker hits the defender with this
    /// particular move, given the roll that scales it.
    pub fn damage_with_roll(&self, roll: u8, attacker: &BattleState, defender: &BattleState) -> (damage:
        u16)
        ensures
            damage == self.damage_on(roll, attacker@, defender@),
    {
        let power: u32 = match self.power {
            Some(power) => power as u32,
            None => {
                return 0;
            },
        };
        let (mut attack, mut defense) = if self.move_type.is_physical() {
            (attacker[Stat::Attack], defender[Stat::Defense])
        } else {
            (attacker[Stat::Special], defender[Stat::Special])
        };

        if self.effect == MoveEffect::SelfKO {
            defense = defense / 2;
        }
        // If one register overflows, both are cut down together.
        if attack > 255 || defense > 255 {
            assert((attack / 4) & 0xff == (attack / 4) % 256 && (defense / 4) & 0xff == (defense
                / 4) % 256) by (bit_vector);
            attack = (attack / 4) & 0xff;
            defense = (defense / 4) & 0xff;
        }
        let attack: u32 = if attack < 1 {
            1
        } else {
            attack as u32
        };
        let defense: u32 = if defense < 1 {
            1
        } else {
            defense as u32
        };
        let level: u32 = attacker.pokemon().level as u32;
        let factor: u32 = 2 * level / 5 + 2;
        assert(power * attack <= 255 * 255 && power * attack * factor <= 255 * 255 * 104)
            by (nonlinear_arith)
            requires
                power <= 255,
                attack <= 255,
                factor <= 104,
        ;
        let scaled: u32 = power * attack * factor / defense / 50;
        let mut damage: u32 = 2 + if scaled < 997 {
            scaled
        } else {
            997
        };
        // Same-Type Attack bonus
        if attacker.pokemon().has_type(self.move_type) {
            damage = damage * 3 / 2;
        }
        damage = self.apply_type_effectiveness(defender.pokemon(), damage);
        assert(damage * roll <= 5992 * 255) by (nonlinear_arith)
            requires
                damage <= 5992,
                roll <= 255,
        ;
        (damage * (roll as u32) / 255) as u16
    }

    /// Compute the damage for when the attacker hits the defender with this
    /// particular move. A move with a power rolls one number from 217 to 255
    /// from `rand`; a move without one deals no damage and rolls nothing.
    pub fn damage<R: Rng>(&self, rand: &mut R, attacker: &BattleState, defender: &BattleState) -> (damage:
        u16)
        ensures
            exists|roll: u8|
                MIN_DAMAGE_ROLL <= roll && damage == #[trigger] self.damage_on(
                    roll,
                    attacker@,
                    defender@,
                ),
            self@.power is None ==> damage == 0,
    {
        if self.power.is_none() {
            assert(self.damage_on(MIN_DAMAGE_ROLL, attacker@, defender@) == 0);
            return 0;
        }
        // The upper end of the range is left out.
        let roll = draw_in_range(rand, MIN_DAMAGE_ROLL as u32, 256);
        self.damage_with_roll(roll as u8, attacker, defender)
    }

    /// Check if this move is a critical hit, given the byte rolled for it.
    pub fn is_critical_with_roll(&self, roll: u8, attacker: &BattleState) -> (critical: bool)
        ensures
            critical == self.critical_on(roll, attacker@),
    {
        let base_speed: u32 = attacker.pokemon().base_stats[usize::from(Stat::Speed)] as u32;
        let mut threshold: u32 = base_speed / 2;
        if self.effect == MoveEffect::HighCrit {
            threshold = threshold * 4;
        }
        let threshold: u32 = if threshold < 255 {
            threshold
        } else {
            255
        };
        (roll as u32) < threshold
    }

    /// Check if this move is a critical hit.
    ///
    /// This is the algorithm of the first generation, which rolls one byte
    /// from `rand`.
    pub fn is_critical<R: Rng>(&self, rand: &mut R, attacker: &BattleState) -> (critical: bool)
        ensures
            exists|roll: u8| critical == #[trigger] self.critical_on(roll, attacker@),
    {
        let roll = draw_byte(rand);
        self.is_critical_with_roll(roll, attacker)
    }

    /// The recoil that the user takes for `damage` dealt, if the move has
    /// recoil.
    pub fn get_recoil(&self, damage: u16) -> (recoil: Option<u16>)
        ensures
            recoil == self.recoil_for(damage),
    {
        proof {
            use_type_invariant(self);
        }
        match self.effect {
            MoveEffect::Recoil(divider) => {
                let part = damage / (divider as u16);
                Some(
                    if part < 1 {
                        1
                    } else {
                        part
                    },
                )
            },
            _ => None,
        }
    }
}

} // verus!
