use rand::rngs::mock::StepRng;

use genwunsym::battle::BattleState;
use genwunsym::moves::{Move, MoveEffect};
use genwunsym::pokemon::Pokemon;
use genwunsym::stats::Modifier;
use genwunsym::types::Type;

fn mew() -> Pokemon {
    Pokemon {
        base_stats: [100; 5],
        types: [Some(Type::Psychic), None],
        ..Default::default()
    }
}

fn mewtwo() -> Pokemon {
    Pokemon {
        base_stats: [106, 110, 90, 154, 130],
        types: [Some(Type::Psychic), None],
        ..Default::default()
    }
}

#[test]
fn test_hit_calc() {
    let m = Move::fallback();
    let mut rng = StepRng::new(254, 1);
    // First one struggle should hit.
    assert_eq!(true, m.hits(&mut rng, Modifier::default(), Modifier::default()));
    // Second should be affected by the 1/256 glitch.
    assert_eq!(
        false,
        m.hits(&mut rng, Modifier::default(), Modifier::default())
    );

    // Test how many hits we get for all possible random numbers
    let hits = (0..=0xff)
        .filter(|_| m.hits(&mut rng, Modifier::from(-3), Modifier::from(1)))
        .count();

    // Should hit 255 * (2 / 5) / (3 / 2) = 68 times
    assert_eq!(68, hits);
}

#[test]
fn is_crit() {
    let m = Move::fallback();
    let mut rng = StepRng::new(0, 1);
    let mew = Pokemon {
        base_stats: [100; 5],
        ..Default::default()
    };
    let state = BattleState::new(&mew);

    let hits = (0..=0xff)
        .filter(|_| m.is_critical(&mut rng, &state))
        .count();
    // Mew has a probability of 50/256 to hit a critical, so…
    assert_eq!(50, hits);
}

#[test]
fn struggle_recoil() {
    let m = Move::fallback();
    assert_eq!(Some(5), m.get_recoil(10));
    assert_eq!(Some(1), m.get_recoil(1));
    assert_eq!(Some(1), m.get_recoil(0));
    assert_eq!(Some(5), m.get_recoil(11));
    assert_eq!(Some(32767), m.get_recoil(u16::MAX));
}

#[test]
fn recoil_by_other_dividers() {
    let quarter = Move::new(Some(90), Some(255), MoveEffect::Recoil(4), Type::Normal).unwrap();
    assert_eq!(Some(25), quarter.get_recoil(100));
    assert_eq!(Some(1), quarter.get_recoil(3));
    let whole = Move::new(Some(90), Some(255), MoveEffect::Recoil(1), Type::Normal).unwrap();
    assert_eq!(Some(77), whole.get_recoil(77));
    let tiny = Move::new(Some(90), Some(255), MoveEffect::Recoil(255), Type::Normal).unwrap();
    assert_eq!(Some(1), tiny.get_recoil(254));
    assert_eq!(Some(2), tiny.get_recoil(510));
}

#[test]
fn only_recoil_moves_recoil() {
    for effect in [MoveEffect::Normal, MoveEffect::SelfKO, MoveEffect::HighCrit] {
        let m = Move::new(Some(40), Some(255), effect, Type::Normal).unwrap();
        assert_eq!(None, m.get_recoil(100));
    }
}

#[test]
fn a_move_holds_no_zero() {
    assert!(Move::new(Some(0), Some(255), MoveEffect::Normal, Type::Normal).is_none());
    assert!(Move::new(Some(40), Some(0), MoveEffect::Normal, Type::Normal).is_none());
    assert!(Move::new(Some(40), Some(255), MoveEffect::Recoil(0), Type::Normal).is_none());
    assert!(Move::new(None, None, MoveEffect::Normal, Type::Normal).is_some());
    assert!(Move::new(Some(1), Some(1), MoveEffect::Recoil(1), Type::Dragon).is_some());
}

#[test]
fn hits_with_each_roll_at_neutral_stages() {
    let m = Move::fallback();
    let neutral = Modifier::default();
    for roll in 0..=254u8 {
        assert!(m.hits_with_roll(roll, neutral, neutral));
    }
    assert!(!m.hits_with_roll(255, neutral, neutral));
}

#[test]
fn hits_on_sixty_eight_rolls_when_hindered() {
    let m = Move::fallback();
    let hits = (0..=255u8)
        .filter(|roll| m.hits_with_roll(*roll, Modifier::from(-3), Modifier::from(1)))
        .count();
    assert_eq!(68, hits);
    assert!(m.hits_with_roll(67, Modifier::from(-3), Modifier::from(1)));
    assert!(!m.hits_with_roll(68, Modifier::from(-3), Modifier::from(1)));
}

fn count_hits(m: &Move, accuracy: i8, evasion: i8) -> usize {
    (0..=255u8)
        .filter(|roll| m.hits_with_roll(*roll, Modifier::from(accuracy), Modifier::from(evasion)))
        .count()
}

#[test]
fn hit_thresholds_round_down_twice() {
    let weak = Move::new(Some(40), Some(100), MoveEffect::Normal, Type::Normal).unwrap();
    // 100 * 1/4 = 25, then 25 / 4 = 6.
    assert_eq!(6, count_hits(&weak, -6, 6));
    let sure = Move::new(Some(40), Some(200), MoveEffect::Normal, Type::Normal).unwrap();
    // 200 * 28/100 = 56.
    assert_eq!(56, count_hits(&sure, -5, 0));
    // 200 / (28/100) = 714, beyond every roll.
    assert_eq!(256, count_hits(&sure, 0, -5));
    let faint = Move::new(Some(40), Some(1), MoveEffect::Normal, Type::Normal).unwrap();
    // 1 * 1/4 rounds down to nothing.
    assert_eq!(0, count_hits(&faint, -6, 6));
    assert_eq!(1, count_hits(&faint, 0, 0));
}

#[test]
fn the_scaled_accuracy_is_rounded_down_before_it_is_divided() {
    let vague = Move::new(Some(40), Some(3), MoveEffect::Normal, Type::Normal).unwrap();
    // 3 * 1/2 rounds down to 1, and 1 / (1/4) = 4; unrounded it would be 6.
    assert_eq!(4, count_hits(&vague, -2, -6));
    // 3 * 66/100 rounds down to 1, and 1 / (66/100) rounds down to 1.
    assert_eq!(1, count_hits(&vague, -1, -1));
}

#[test]
fn hit_thresholds_at_the_far_ends_of_the_stages() {
    let almost = Move::new(Some(40), Some(254), MoveEffect::Normal, Type::Normal).unwrap();
    assert_eq!(256, count_hits(&almost, 6, -4));
    assert_eq!(256, count_hits(Move::fallback(), 6, -6));
    assert_eq!(15, count_hits(Move::fallback(), -6, 6));
}

#[test]
fn a_move_without_accuracy_always_hits_and_rolls_nothing() {
    let swift = Move::new(Some(60), None, MoveEffect::Normal, Type::Normal).unwrap();
    for roll in [0u8, 1, 127, 254, 255] {
        assert!(swift.hits_with_roll(roll, Modifier::from(-6), Modifier::from(6)));
    }
    let mut rng = StepRng::new(254, 1);
    assert!(swift.hits(&mut rng, Modifier::from(-6), Modifier::from(6)));
    // The source still stands at 254, which Struggle hits on; 255 follows.
    assert!(Move::fallback().hits(&mut rng, Modifier::default(), Modifier::default()));
    assert!(!Move::fallback().hits(&mut rng, Modifier::default(), Modifier::default()));
}

#[test]
fn critical_hits_by_roll() {
    let mew = mew();
    let state = BattleState::new(&mew);
    let struggle = Move::fallback();
    // Base speed 100: the threshold is 50.
    assert!(struggle.is_critical_with_roll(0, &state));
    assert!(struggle.is_critical_with_roll(49, &state));
    assert!(!struggle.is_critical_with_roll(50, &state));
    assert!(!struggle.is_critical_with_roll(255, &state));
}

#[test]
fn high_critical_moves_quadruple_the_threshold() {
    let slash = Move::new(Some(70), Some(255), MoveEffect::HighCrit, Type::Normal).unwrap();
    let slow = Pokemon { base_stats: [50, 50, 50, 50, 30], ..Default::default() };
    let state = BattleState::new(&slow);
    // Base speed 30: 15 * 4 = 60.
    assert!(slash.is_critical_with_roll(59, &state));
    assert!(!slash.is_critical_with_roll(60, &state));
    assert!(Move::fallback().is_critical_with_roll(14, &state));
    assert!(!Move::fallback().is_critical_with_roll(15, &state));

    let mew = mew();
    let state = BattleState::new(&mew);
    // Base speed 100: 50 * 4 = 200.
    assert!(slash.is_critical_with_roll(199, &state));
    assert!(!slash.is_critical_with_roll(200, &state));
}

#[test]
fn the_critical_threshold_stops_at_255() {
    let slash = Move::new(Some(70), Some(255), MoveEffect::HighCrit, Type::Normal).unwrap();
    let swift = Pokemon { base_stats: [50, 50, 50, 50, 130], ..Default::default() };
    let state = BattleState::new(&swift);
    // Base speed 130: 65 * 4 = 260, held at 255.
    assert!(slash.is_critical_with_roll(254, &state));
    assert!(!slash.is_critical_with_roll(255, &state));
}

#[test]
fn struggle_between_mewtwo_and_mew() {
    let mew = mew();
    let mewtwo = mewtwo();
    let mew_state = BattleState::new(&mew);
    let mewtwo_state = BattleState::new(&mewtwo);
    let struggle = Move::fallback();
    // Attack 318 against Defense 298: both registers overflow, leaving 79
    // against 74; 50 * 79 * 42 / 74 / 50 + 2 = 46.
    assert_eq!(46, struggle.damage_with_roll(255, &mewtwo_state, &mew_state));
    assert_eq!(39, struggle.damage_with_roll(217, &mewtwo_state, &mew_state));
    // Attack 298 against Defense 278: 74 against 69.
    assert_eq!(47, struggle.damage_with_roll(255, &mew_state, &mewtwo_state));
    assert_eq!(39, struggle.damage_with_roll(217, &mew_state, &mewtwo_state));
}

#[test]
fn damage_rolls_between_217_and_255() {
    let mew = mew();
    let mewtwo = mewtwo();
    let mew_state = BattleState::new(&mew);
    let mewtwo_state = BattleState::new(&mewtwo);
    let struggle = Move::fallback();
    // A source that yields zero rolls 217.
    let mut lowest = StepRng::new(0, 0);
    assert_eq!(39, struggle.damage(&mut lowest, &mewtwo_state, &mew_state));
    // 0xf000_0000 lies 36 parts in 39 up the range: the roll is 253.
    let mut high = StepRng::new(0xf000_0000, 0);
    assert_eq!(45, struggle.damage(&mut high, &mewtwo_state, &mew_state));
    assert_eq!(45, struggle.damage_with_roll(253, &mewtwo_state, &mew_state));
    let mut stepping = StepRng::new(0, 0x0100_0000);
    for _ in 0..256 {
        let damage = struggle.damage(&mut stepping, &mewtwo_state, &mew_state);
        assert!(39 <= damage && damage <= 46);
    }
}

#[test]
fn a_move_without_power_deals_no_damage() {
    let mew = mew();
    let state = BattleState::new(&mew);
    let growl = Move::new(None, Some(255), MoveEffect::Normal, Type::Normal).unwrap();
    assert_eq!(0, growl.damage_with_roll(255, &state, &state));
    let mut rng = StepRng::new(254, 1);
    assert_eq!(0, growl.damage(&mut rng, &state, &state));
    // Nothing was rolled: the source still stands at 254.
    assert!(Move::fallback().hits(&mut rng, Modifier::default(), Modifier::default()));
    assert!(!Move::fallback().hits(&mut rng, Modifier::default(), Modifier::default()));
}
