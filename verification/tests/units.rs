use progression::units::{UnitComposition, UnitKind};

fn sample() -> UnitComposition {
    UnitComposition { peasants: 1, warriors: 2, archers: 3, mages: 4, brutes: 5 }
}

#[test]
fn all_lists_the_five_kinds_in_order() {
    assert_eq!(
        UnitKind::all(),
        [
            UnitKind::Peasant,
            UnitKind::Warrior,
            UnitKind::Archer,
            UnitKind::Mage,
            UnitKind::Brute,
        ]
    );
}

#[test]
fn empty_composition_is_all_zero() {
    let empty = UnitComposition::empty();
    assert_eq!(
        empty,
        UnitComposition { peasants: 0, warriors: 0, archers: 0, mages: 0, brutes: 0 }
    );
    for kind in UnitKind::all() {
        assert_eq!(empty.get_count(kind), 0);
    }
}

#[test]
fn get_count_reads_the_field_of_the_kind() {
    let army = sample();
    assert_eq!(army.get_count(UnitKind::Peasant), 1);
    assert_eq!(army.get_count(UnitKind::Warrior), 2);
    assert_eq!(army.get_count(UnitKind::Archer), 3);
    assert_eq!(army.get_count(UnitKind::Mage), 4);
    assert_eq!(army.get_count(UnitKind::Brute), 5);
}

#[test]
fn set_count_changes_only_the_kind_named() {
    for (position, kind) in UnitKind::all().into_iter().enumerate() {
        let mut army = sample();
        army.set_count(kind, 40);
        for (other_position, other) in UnitKind::all().into_iter().enumerate() {
            let expected = if other_position == position { 40 } else { other_position as u32 + 1 };
            assert_eq!(army.get_count(other), expected);
        }
    }
}

#[test]
fn set_count_takes_the_extremes() {
    let mut army = sample();
    army.set_count(UnitKind::Mage, u32::MAX);
    assert_eq!(army.mages, u32::MAX);
    army.set_count(UnitKind::Mage, 0);
    assert_eq!(army.mages, 0);
}

#[test]
fn mutate_count_stores_what_the_function_returns() {
    let mut army = sample();
    army.mutate_count(UnitKind::Archer, |held| held * 10 + 7);
    assert_eq!(
        army,
        UnitComposition { peasants: 1, warriors: 2, archers: 37, mages: 4, brutes: 5 }
    );
}

#[test]
fn mutate_count_hands_the_current_count_to_the_function() {
    let mut army = sample();
    let mut seen = None;
    army.mutate_count(UnitKind::Brute, |held| {
        seen = Some(held);
        held
    });
    assert_eq!(seen, Some(5));
    assert_eq!(army, sample());
}

#[test]
fn mutate_count_expresses_a_floored_subtraction() {
    let mut army = sample();
    army.mutate_count(UnitKind::Mage, |held| held.saturating_sub(9));
    assert_eq!(army.mages, 0);
    army.mutate_count(UnitKind::Brute, |held| held.saturating_sub(2));
    assert_eq!(army.brutes, 3);
}

#[test]
fn total_adds_all_kinds() {
    assert_eq!(sample().total(), 15);
    assert_eq!(UnitComposition::empty().total(), 0);
}

#[test]
fn total_does_not_wrap_at_the_largest_counts() {
    let full = UnitComposition {
        peasants: u32::MAX,
        warriors: u32::MAX,
        archers: u32::MAX,
        mages: u32::MAX,
        brutes: u32::MAX,
    };
    assert_eq!(full.total(), 5 * (u32::MAX as u64));
}

#[test]
fn is_empty_holds_of_the_all_zero_composition_only() {
    assert!(UnitComposition::empty().is_empty());
    assert!(!sample().is_empty());
    for kind in UnitKind::all() {
        let mut one = UnitComposition::empty();
        one.set_count(kind, 1);
        assert!(!one.is_empty());
    }
}
