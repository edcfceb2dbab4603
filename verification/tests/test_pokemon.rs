use genwunsym::pokemon::Pokemon;
use genwunsym::stats::{Stat, PERFECT_EVS, PERFECT_IVS};
use genwunsym::types::Type;

#[test]
fn test_stat_calc() {
    let mew = Pokemon {
        base_stats: [100; 5],
        ..Default::default()
    };

    assert_eq!(403, mew.get_stat(Stat::HP));
    assert_eq!(298, mew.get_stat(Stat::Special));
}

#[test]
fn test_has_type() {
    let pokemon = Pokemon {
        types: [Some(Type::Normal), Some(Type::Fire)],
        ..Default::default()
    };

    assert!(pokemon.has_type(Type::Normal));
    assert!(pokemon.has_type(Type::Fire));
    assert!(!pokemon.has_type(Type::Dragon));
}

#[test]
fn default_is_a_perfect_rattata() {
    let rattata = Pokemon::default();
    assert_eq!(100, rattata.level);
    assert_eq!([30, 56, 35, 25, 72], rattata.base_stats);
    assert_eq!(PERFECT_EVS, rattata.evs);
    assert_eq!(PERFECT_IVS, rattata.ivs);
    assert_eq!([Some(Type::Normal), None], rattata.types);
    assert!(rattata.validate());
    assert_eq!(263, rattata.get_stat(Stat::HP));
    assert_eq!(210, rattata.get_stat(Stat::Attack));
    assert_eq!(168, rattata.get_stat(Stat::Defense));
    assert_eq!(148, rattata.get_stat(Stat::Special));
    assert_eq!(242, rattata.get_stat(Stat::Speed));
}

#[test]
fn stats_without_effort_at_a_low_level() {
    let pokemon = Pokemon {
        level: 5,
        base_stats: [45, 49, 49, 65, 45],
        evs: [0; 5],
        ivs: [0; 5],
        types: [Some(Type::Grass), Some(Type::Poison)],
    };
    assert!(pokemon.validate());
    assert_eq!(19, pokemon.get_stat(Stat::HP));
    assert_eq!(9, pokemon.get_stat(Stat::Attack));
    assert_eq!(9, pokemon.get_stat(Stat::Defense));
    assert_eq!(11, pokemon.get_stat(Stat::Special));
    assert_eq!(9, pokemon.get_stat(Stat::Speed));
}

#[test]
fn effort_counts_from_the_square_root_of_one_less() {
    // With the effort value at 0 or 1 the root is taken of 0; the bonus
    // reaches its cap of 63 only near the top of the range.
    let with_effort = |ev: u16| Pokemon {
        level: 50,
        base_stats: [50; 5],
        evs: [ev; 5],
        ivs: [8; 5],
        types: [Some(Type::Water), None],
    };
    assert_eq!(63, with_effort(0).get_stat(Stat::Attack));
    assert_eq!(63, with_effort(1).get_stat(Stat::Attack));
    assert_eq!(63, with_effort(17).get_stat(Stat::Attack));
    assert_eq!(94, with_effort(65535).get_stat(Stat::Attack));
}

#[test]
fn get_types_returns_both_slots() {
    let pokemon = Pokemon {
        types: [Some(Type::Rock), Some(Type::Ground)],
        ..Default::default()
    };
    assert_eq!(&[Some(Type::Rock), Some(Type::Ground)][..], pokemon.get_types());
    let single = Pokemon::default();
    assert_eq!(&[Some(Type::Normal), None][..], single.get_types());
}

#[test]
fn validate_rejects_what_lies_outside_the_ranges() {
    let level_zero = Pokemon { level: 0, ..Default::default() };
    assert!(!level_zero.validate());
    let level_high = Pokemon { level: 101, ..Default::default() };
    assert!(!level_high.validate());
    let iv_high = Pokemon { ivs: [15, 15, 16, 15, 15], ..Default::default() };
    assert!(!iv_high.validate());
    let no_type = Pokemon { types: [None, None], ..Default::default() };
    assert!(!no_type.validate());
    let same_type = Pokemon { types: [Some(Type::Fire), Some(Type::Fire)], ..Default::default() };
    assert!(!same_type.validate());
    let too_strong = Pokemon { base_stats: [40000, 1, 1, 1, 1], ..Default::default() };
    assert!(!too_strong.validate());
    let second_slot_only = Pokemon { types: [None, Some(Type::Fire)], ..Default::default() };
    assert!(second_slot_only.validate());
    let level_one = Pokemon { level: 1, ..Default::default() };
    assert!(level_one.validate());
}
