use genwunsym::types::{Effectiveness, Type};

#[test]
fn test_gen1_type_bugs() {
    // Test for all then gen one weirdness
    assert_eq!(Effectiveness::Neutral, Type::Ice.effectiveness(Type::Fire));
    assert_eq!(Effectiveness::Weak, Type::Poison.effectiveness(Type::Bug));
    assert_eq!(
        Effectiveness::Immune,
        Type::Specter.effectiveness(Type::Psychic)
    );
    assert_eq!(Effectiveness::Weak, Type::Bug.effectiveness(Type::Poison));
}

#[test]
fn test_is_physical() {
    assert_eq!(true, Type::Normal.is_physical());
    assert_eq!(false, Type::Normal.is_special());
}
