//! The state of one combatant during a battle.

use vstd::prelude::*;
use crate::pokemon::Pokemon;
use crate::stats::{Modifier, Stat, StatSet};

verus! {

/// A condition that stays with a combatant when it is switched out.
#[derive(Debug, Eq, PartialEq, Copy, Clone, Structural)]
pub enum Condition {
    Burned,
    Paralyzed,
    Frozen,
    /// Parameter is turns remaining
    Asleep(u8),
    /// Boolean indicates if this is a bad poisoning.
    Poisoned(bool),
}

/// What a condition is once its bearer comes back into battle: bad poison
/// has turned into poison, everything else is as it was.
pub open spec fn after_switch(condition: Option<Condition>) -> Option<Condition> {
    match condition {
        Some(Condition::Poisoned(true)) => Some(Condition::Poisoned(false)),
        other => other,
    }
}

/// What a snapshot holds.
pub struct SnapshotView {
    pub pokemon: Pokemon,
    pub hit_points: u16,
    pub condition: Option<Condition>,
}

/// The part of a combatant's state that survives being switched out.
pub struct NonVolatileState<'a> {
    pokemon: &'a Pokemon,
    hit_points: u16,
    condition: Option<Condition>,
}

impl<'a> View for NonVolatileState<'a> {
    type V = SnapshotView;

    closed spec fn view(&self) -> SnapshotView {
        SnapshotView {
            pokemon: *self.pokemon,
            hit_points: self.hit_points,
            condition: self.condition,
        }
    }
}

impl<'a> NonVolatileState<'a> {
    #[verifier::type_invariant]
    spec fn of_valid_record(self) -> bool {
        self.pokemon.is_valid()
    }

    /// The state of a Pokémon that has not fought yet: full hit points and no
    /// condition.
    pub fn new(pokemon: &'a Pokemon) -> (state: Self)
        requires
            pokemon.is_valid(),
        ensures
            state@.pokemon == *pokemon,
            state@.hit_points == pokemon.stat_value(Stat::HP),
            state@.condition is None,
    {
        NonVolatileState { pokemon, hit_points: pokemon.get_stat(Stat::HP), condition: None }
    }

    /// A snapshot with the given hit points and condition.
    pub fn with_state(pokemon: &'a Pokemon, hit_points: u16, condition: Option<Condition>) -> (state:
        Self)
        requires
            pokemon.is_valid(),
        ensures
            state@.pokemon == *pokemon,
            state@.hit_points == hit_points,
            state@.condition == condition,
    {
        NonVolatileState { pokemon, hit_points, condition }
    }

    /// The Pokémon this state belongs to.
    pub fn pokemon(&self) -> (pokemon: &'a Pokemon)
        ensures
            *pokemon == self@.pokemon,
            pokemon.is_valid(),
    {
        proof {
            use_type_invariant(self);
        }
        self.pokemon
    }

    /// The hit points left.
    pub fn hit_points(&self) -> (hit_points: u16)
        ensures
            hit_points == self@.hit_points,
    {
        self.hit_points
    }

    /// The condition, if there is one.
    pub fn condition(&self) -> (condition: Option<Condition>)
        ensures
            condition == self@.condition,
    {
        self.condition
    }
}

/// What a battle state holds: the snapshot, the five raw stats and the seven
/// stages, each in the order of [`Stat`].
pub struct BattleView {
    pub pokemon: Pokemon,
    pub hit_points: u16,
    pub condition: Option<Condition>,
    pub stats: Seq<u16>,
    pub stages: Seq<int>,
}

impl BattleView {
    /// The five cached stats are the raw stats of the Pokémon, which is a
    /// valid record, and there are seven stages.
    pub open spec fn wf(self) -> bool {
        &&& self.pokemon.is_valid()
        &&& self.stats.len() == 5
        &&& self.stages.len() == 7
        &&& self.stats[0] == self.pokemon.stat_value(Stat::HP)
        &&& self.stats[1] == self.pokemon.stat_value(Stat::Attack)
        &&& self.stats[2] == self.pokemon.stat_value(Stat::Defense)
        &&& self.stats[3] == self.pokemon.stat_value(Stat::Special)
        &&& self.stats[4] == self.pokemon.stat_value(Stat::Speed)
    }

    /// The part that survives being switched out.
    pub open spec fn snapshot(self) -> SnapshotView {
        SnapshotView {
            pokemon: self.pokemon,
            hit_points: self.hit_points,
            condition: self.condition,
        }
    }
}

/// What restoring a snapshot yields: the raw stats computed anew from the
/// Pokémon, the hit points carried over, the condition as it is after a
/// switch, and every stage neutral.
pub open spec fn restored(snapshot: SnapshotView) -> BattleView {
    BattleView {
        pokemon: snapshot.pokemon,
        hit_points: snapshot.hit_points,
        condition: after_switch(snapshot.condition),
        stats: seq![
            snapshot.pokemon.stat_value(Stat::HP) as u16,
            snapshot.pokemon.stat_value(Stat::Attack) as u16,
            snapshot.pokemon.stat_value(Stat::Defense) as u16,
            snapshot.pokemon.stat_value(Stat::Special) as u16,
            snapshot.pokemon.stat_value(Stat::Speed) as u16,
        ],
        stages: seq![0int, 0int, 0int, 0int, 0int, 0int, 0int],
    }
}

/// Restoring resets every stage to neutral and turns bad poison into
/// poison, whatever the stages were before the switch; any other condition
/// and the hit points come back as they left.
pub proof fn lemma_restore_resets(before: BattleView)
    ensures
        restored(before.snapshot()).stages.len() == 7,
        forall|i: int| 0 <= i < 7 ==> restored(before.snapshot()).stages[i] == 0,
        before.condition == Some(Condition::Poisoned(true)) ==> restored(
            before.snapshot(),
        ).condition == Some(Condition::Poisoned(false)),
        before.condition != Some(Condition::Poisoned(true)) ==> restored(
            before.snapshot(),
        ).condition == before.condition,
        restored(before.snapshot()).hit_points == before.hit_points,
        restored(before.snapshot()).pokemon == before.pokemon,
{
}

/// A valid Pokémon restores to a well-formed state, and restoring what was
/// just restored changes nothing.
pub proof fn lemma_restore_idempotent(snapshot: SnapshotView)
    requires
        snapshot.pokemon.is_valid(),
    ensures
        restored(snapshot).wf(),
        restored(restored(snapshot).snapshot()) == restored(snapshot),
{
    snapshot.pokemon.lemma_valid_stats(Stat::HP);
    snapshot.pokemon.lemma_valid_stats(Stat::Attack);
    snapshot.pokemon.lemma_valid_stats(Stat::Defense);
    snapshot.pokemon.lemma_valid_stats(Stat::Special);
    snapshot.pokemon.lemma_valid_stats(Stat::Speed);
}

/// The state of a combatant in battle: what survives a switch, the raw
/// stats, and a stage for each stat.
pub struct BattleState<'a> {
    nv_state: NonVolatileState<'a>,
    stats: StatSet,
    modifiers: [Modifier; 7],
}

impl<'a> View for BattleState<'a> {
    type V = BattleView;

    closed spec fn view(&self) -> BattleView {
        BattleView {
            pokemon: self.nv_state@.pokemon,
            hit_points: self.nv_state@.hit_points,
            condition: self.nv_state@.condition,
            stats: self.stats@,
            stages: Seq::new(7, |i: int| self.modifiers[i]@),
        }
    }
}

impl<'a> BattleState<'a> {
    /// The state of a Pokémon entering its first battle.
    pub fn new(pokemon: &'a Pokemon) -> (state: Self)
        requires
            pokemon.is_valid(),
        ensures
            state@ == restored(
                (SnapshotView {
                    pokemon: *pokemon,
                    hit_points: pokemon.stat_value(Stat::HP) as u16,
                    condition: None,
                }),
            ),
            state@.wf(),
    {
        let nv_state = NonVolatileState::new(pokemon);
        BattleState::restore(nv_state)
    }

    /// Bring a combatant back into battle from what survived the switch.
    pub fn restore(nv_state: NonVolatileState<'a>) -> (state: Self)
        ensures
            state@ == restored(nv_state@),
            state@.wf(),
    {
        proof {
            use_type_invariant(&nv_state);
        }
        let mut nv_state = nv_state;
        // Turn bad poison into poison.
        nv_state.condition =
        match nv_state.condition {
            Some(Condition::Poisoned(true)) => Some(Condition::Poisoned(false)),
            x => x,
        };

        // Recompute all stats.
        let stats = [
            nv_state.pokemon.get_stat(Stat::HP),
            nv_state.pokemon.get_stat(Stat::Attack),
            nv_state.pokemon.get_stat(Stat::Defense),
            nv_state.pokemon.get_stat(Stat::Special),
            nv_state.pokemon.get_stat(Stat::Speed),
        ];

        let neutral = Modifier::default();
        let state = BattleState {
            nv_state,
            stats,
            modifiers: [neutral, neutral, neutral, neutral, neutral, neutral, neutral],
        };
        assert(state@.stages =~= restored(nv_state@).stages);
        state
    }

    /// The part of the state that survives being switched out.
    pub fn snapshot(&self) -> (nv_state: NonVolatileState<'a>)
        ensures
            nv_state@ == self@.snapshot(),
    {
        proof {
            use_type_invariant(&self.nv_state);
        }
        NonVolatileState {
            pokemon: self.nv_state.pokemon,
            hit_points: self.nv_state.hit_points,
            condition: self.nv_state.condition,
        }
    }

    /// Whether the combatant has hit points left.
    pub fn is_alive(&self) -> (alive: bool)
        ensures
            alive == (self@.hit_points > 0),
    {
        self.nv_state.hit_points > 0
    }

    /// The hit points left.
    pub fn hit_points(&self) -> (hit_points: u16)
        ensures
            hit_points == self@.hit_points,
    {
        self.nv_state.hit_points
    }

    /// The condition, if there is one.
    pub fn condition(&self) -> (condition: Option<Condition>)
        ensures
            condition == self@.condition,
    {
        self.nv_state.condition
    }

    /// Take `damage` hit points away, stopping at zero, and return what is
    /// left.
    pub fn damage(&mut self, damage: u16) -> (left: u16)
        ensures
            left == if old(self)@.hit_points >= damage {
                old(self)@.hit_points - damage
            } else {
                0
            },
            final(self)@ == (BattleView { hit_points: left, ..old(self)@ }),
    {
        proof {
            use_type_invariant(&self.nv_state);
        }
        self.nv_state.hit_points = self.nv_state.hit_points.saturating_sub(damage);
        self.nv_state.hit_points
    }

    /// The stage of `stat`.
    pub fn get_modifier(&self, stat: Stat) -> (modifier: Modifier)
        ensures
            modifier@ == self@.stages[stat.index() as int],
    {
        self.modifiers[usize::from(stat)]
    }

    /// The stage of `stat`, to be changed in place.
    pub fn get_modifier_mut(&mut self, stat: Stat) -> (modifier: &mut Modifier)
        ensures
            (*modifier)@ == old(self)@.stages[stat.index() as int],
            final(self)@.pokemon == old(self)@.pokemon,
            final(self)@.hit_points == old(self)@.hit_points,
            final(self)@.condition == old(self)@.condition,
            final(self)@.stats == old(self)@.stats,
            final(self)@.stages =~= old(self)@.stages.update(
                stat.index() as int,
                (*final(modifier))@,
            ),
    {
        &mut self.modifiers[usize::from(stat)]
    }

    /// The Pokémon that is fighting.
    pub fn pokemon(&self) -> (pokemon: &Pokemon)
        ensures
            *pokemon == self@.pokemon,
            pokemon.is_valid(),
    {
        proof {
            use_type_invariant(&self.nv_state);
        }
        self.nv_state.pokemon
    }
}

impl<'a> core::ops::Index<Stat> for BattleState<'a> {
    type Output = u16;

    /// The raw value of one of the five raw stats.
    fn index(&self, index: Stat) -> (value: &u16)
        ensures
            *value == self@.stats[index.index() as int],
    {
        &self.stats[usize::from(index)]
    }
}

impl<'a> vstd::std_specs::core::IndexSpecImpl<Stat> for BattleState<'a> {
    /// Accuracy and evasion have no raw value and cannot be looked up.
    open spec fn index_req(&self, index: &Stat) -> bool {
        index.is_raw()
    }
}

} // verus!
