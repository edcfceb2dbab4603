use genwunsym::types::{Effectiveness, Type};

const ALL: [Type; 15] = [
    Type::Normal,
    Type::Fighting,
    Type::Flying,
    Type::Poison,
    Type::Ground,
    Type::Rock,
    Type::Bug,
    Type::Specter,
    Type::Fire,
    Type::Water,
    Type::Grass,
    Type::Electric,
    Type::Psychic,
    Type::Ice,
    Type::Dragon,
];

#[test]
fn specter_cannot_touch_normal_or_psychic() {
    assert_eq!(Effectiveness::Immune, Type::Specter.effectiveness(Type::Normal));
    assert_eq!(Effectiveness::Immune, Type::Specter.effectiveness(Type::Psychic));
    assert_eq!(Effectiveness::Weak, Type::Specter.effectiveness(Type::Specter));
    assert_eq!(Effectiveness::Neutral, Type::Psychic.effectiveness(Type::Specter));
}

#[test]
fn the_chart_depends_on_the_direction() {
    assert_eq!(Effectiveness::Weak, Type::Water.effectiveness(Type::Fire));
    assert_eq!(Effectiveness::Resist, Type::Fire.effectiveness(Type::Water));
    assert_eq!(Effectiveness::Immune, Type::Ground.effectiveness(Type::Flying));
    assert_eq!(Effectiveness::Neutral, Type::Flying.effectiveness(Type::Ground));
    assert_eq!(Effectiveness::Immune, Type::Electric.effectiveness(Type::Ground));
    assert_eq!(Effectiveness::Weak, Type::Ground.effectiveness(Type::Electric));
    assert_eq!(Effectiveness::Immune, Type::Normal.effectiveness(Type::Specter));
    assert_eq!(Effectiveness::Immune, Type::Fighting.effectiveness(Type::Specter));
}

#[test]
fn the_chart_row_by_row() {
    // One letter per defender, in the order of `ALL`: neutral, weak, resist
    // or immune.
    let rows: [&str; 15] = [
        ".....r.i.......",
        "w.rr.wri....rw.",
        ".w...rw...wr...",
        "...rrrwr..w....",
        "..iw.wr.w.rw...",
        ".rw.r.w.w....w.",
        ".rrw...rr.w.w..",
        "i......w....i..",
        ".....rw.rrw..wr",
        "....ww..wrr...r",
        "..rrww.rrw....r",
        "..w.i....wrr..r",
        ".w.w........r..",
        "..w.w....rw..rw",
        "..............w",
    ];
    for (attack, row) in ALL.iter().zip(rows.iter()) {
        for (defender, letter) in ALL.iter().zip(row.chars()) {
            let expected = match letter {
                '.' => Effectiveness::Neutral,
                'w' => Effectiveness::Weak,
                'r' => Effectiveness::Resist,
                _ => Effectiveness::Immune,
            };
            assert_eq!(expected, attack.effectiveness(*defender));
        }
    }
}

#[test]
fn modifiers_are_one_nothing_double_and_half() {
    let neutral = Effectiveness::Neutral.get_modifier();
    assert_eq!((1, 1), (neutral.numer(), neutral.denom()));
    let immune = Effectiveness::Immune.get_modifier();
    assert_eq!((0, 1), (immune.numer(), immune.denom()));
    let weak = Effectiveness::Weak.get_modifier();
    assert_eq!((2, 1), (weak.numer(), weak.denom()));
    let resist = Effectiveness::Resist.get_modifier();
    assert_eq!((1, 2), (resist.numer(), resist.denom()));
}

#[test]
fn eight_types_are_physical() {
    let physical = ALL.iter().filter(|kind| kind.is_physical()).count();
    assert_eq!(8, physical);
    for kind in ALL.iter() {
        assert_eq!(kind.is_physical(), !kind.is_special());
    }
    assert!(Type::Specter.is_physical());
    assert!(Type::Fire.is_special());
    assert!(Type::Dragon.is_special());
}
