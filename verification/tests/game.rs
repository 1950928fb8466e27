use progression::game::GameState;
use progression::instruction::{subtract_floored, Instruction};
use progression::inventory::Item;
use progression::quest::Quest;
use progression::units::{UnitComposition, UnitKind};

fn flag(text: &str, value: bool) -> Instruction {
    Instruction::SetGlobalVariable(text.to_string(), value)
}

fn flags_of(state: &GameState) -> Vec<(String, bool)> {
    (0..state.global_variables.len())
        .map(|index| state.global_variables.entry(index).unwrap())
        .collect()
}

#[test]
fn a_fresh_game_has_gathered_nothing() {
    let state = GameState::new();
    assert_eq!(state.food, 0);
    assert_eq!(state.available_army, UnitComposition::empty());
    assert!(state.inventory.is_empty());
    assert_eq!(state.global_variables.len(), 0);
    assert_eq!(state.quest, Quest { war_chef: 0, battle: 0 });
}

#[test]
fn the_default_game_is_the_fresh_game() {
    let state = GameState::default();
    assert_eq!(state.food, 0);
    assert_eq!(state.available_army, UnitComposition::empty());
    assert_eq!(state.inventory.len(), 0);
    assert_eq!(state.global_variables.len(), 0);
    assert_eq!(state.quest, Quest::default());
}

#[test]
fn food_units_and_a_flag_arrive_as_instructed() {
    let mut state = GameState::new();
    state.apply(&Instruction::AddFood(10));
    state.apply(&Instruction::AddUnits(UnitKind::Peasant, 5));
    state.apply(&flag("met_chef", true));
    assert_eq!(state.food, 10);
    assert_eq!(state.available_army.peasants, 5);
    assert_eq!(state.available_army.get_count(UnitKind::Peasant), 5);
    assert_eq!(state.global_variables.get(&"met_chef".to_string()), Some(true));
    assert_eq!(
        state.available_army,
        UnitComposition { peasants: 5, warriors: 0, archers: 0, mages: 0, brutes: 0 }
    );
    assert!(state.inventory.is_empty());
    assert_eq!(state.quest, Quest { war_chef: 0, battle: 0 });
}

#[test]
fn taking_more_food_than_there_is_leaves_none() {
    let cases =
        [(0u32, 1u32), (3, 4), (10, 11), (10, 1000), (0, u32::MAX), (u32::MAX - 1, u32::MAX)];
    for (food, taken) in cases {
        let mut state = GameState::new();
        state.food = food;
        state.apply(&Instruction::SubtractFood(taken));
        assert_eq!(state.food, 0);
    }
}

#[test]
fn taking_food_that_is_there_leaves_the_difference() {
    let cases =
        [(10u32, 3u32, 7u32), (10, 10, 0), (10, 0, 10), (0, 0, 0), (u32::MAX, 1, u32::MAX - 1)];
    for (food, taken, left) in cases {
        let mut state = GameState::new();
        state.food = food;
        state.apply(&Instruction::SubtractFood(taken));
        assert_eq!(state.food, left);
    }
}

#[test]
fn floored_subtraction_stops_at_zero() {
    assert_eq!(subtract_floored(7, 3), 4);
    assert_eq!(subtract_floored(7, 7), 0);
    assert_eq!(subtract_floored(7, 8), 0);
    assert_eq!(subtract_floored(0, u32::MAX), 0);
    assert_eq!(subtract_floored(u32::MAX, 0), u32::MAX);
}

#[test]
fn adding_food_adds_exactly() {
    let mut state = GameState::new();
    state.apply(&Instruction::AddFood(7));
    state.apply(&Instruction::AddFood(0));
    state.apply(&Instruction::AddFood(35));
    assert_eq!(state.food, 42);
    state.apply(&Instruction::AddFood(u32::MAX - 42));
    assert_eq!(state.food, u32::MAX);
}

#[test]
fn units_added_and_taken_again_leave_the_army_as_it_was() {
    let before = UnitComposition { peasants: 4, warriors: 0, archers: 9, mages: 1, brutes: 100 };
    for kind in UnitKind::all() {
        for count in [0u32, 1, 5, 1000, u32::MAX - 100] {
            let mut state = GameState::new();
            state.available_army = before;
            state.apply(&Instruction::AddUnits(kind, count));
            assert_eq!(state.available_army.get_count(kind), before.get_count(kind) + count);
            state.apply(&Instruction::SubtractUnits(kind, count));
            assert_eq!(state.available_army, before);
        }
    }
}

#[test]
fn taking_more_units_than_there_are_leaves_none_of_that_kind() {
    let before = UnitComposition { peasants: 4, warriors: 2, archers: 9, mages: 1, brutes: 100 };
    for kind in UnitKind::all() {
        let mut state = GameState::new();
        state.available_army = before;
        state.apply(&Instruction::SubtractUnits(kind, before.get_count(kind) + 1));
        assert_eq!(state.available_army.get_count(kind), 0);
        for other in UnitKind::all() {
            if other != kind {
                assert_eq!(state.available_army.get_count(other), before.get_count(other));
            }
        }
    }
}

#[test]
fn taking_units_that_are_there_leaves_the_difference() {
    let mut state = GameState::new();
    state.available_army.warriors = 6;
    state.apply(&Instruction::SubtractUnits(UnitKind::Warrior, 2));
    assert_eq!(state.available_army.warriors, 4);
    state.apply(&Instruction::SubtractUnits(UnitKind::Warrior, 4));
    assert_eq!(state.available_army.warriors, 0);
    state.apply(&Instruction::SubtractUnits(UnitKind::Warrior, 1));
    assert_eq!(state.available_army.warriors, 0);
}

#[test]
fn every_item_added_is_one_more_held() {
    let mut state = GameState::new();
    state.apply(&Instruction::AddItem(Item { id: 2 }));
    state.apply(&Instruction::AddItem(Item { id: 5 }));
    state.apply(&Instruction::AddItem(Item { id: 2 }));
    assert_eq!(state.inventory.count(Item { id: 2 }), 2);
    assert_eq!(state.inventory.count(Item { id: 5 }), 1);
    assert_eq!(state.inventory.len(), 3);
    assert_eq!(state.food, 0);
    assert_eq!(state.available_army, UnitComposition::empty());
}

#[test]
fn setting_a_flag_again_to_the_same_value_changes_nothing() {
    let mut once = GameState::new();
    once.apply(&flag("gate", false));
    once.apply(&flag("met_chef", true));
    let mut twice = GameState::new();
    twice.apply(&flag("gate", false));
    twice.apply(&flag("met_chef", true));
    twice.apply(&flag("met_chef", true));
    assert_eq!(flags_of(&once), flags_of(&twice));
    assert_eq!(flags_of(&twice), vec![("gate".to_string(), false), ("met_chef".to_string(), true)]);
    assert_eq!(once.food, twice.food);
    assert_eq!(once.available_army, twice.available_army);
    assert_eq!(once.inventory.len(), twice.inventory.len());
    assert_eq!(once.quest, twice.quest);
}

#[test]
fn setting_a_flag_overwrites_its_value() {
    let mut state = GameState::new();
    state.apply(&flag("gate", false));
    state.apply(&flag("gate", true));
    assert_eq!(flags_of(&state), vec![("gate".to_string(), true)]);
}

#[test]
fn instructions_do_not_move_the_quest() {
    let mut state = GameState::new();
    state.quest = Quest { war_chef: 1, battle: 2 };
    state.apply(&Instruction::AddFood(1));
    state.apply(&Instruction::SubtractFood(5));
    state.apply(&Instruction::AddUnits(UnitKind::Mage, 1));
    state.apply(&Instruction::SubtractUnits(UnitKind::Mage, 3));
    state.apply(&Instruction::AddItem(Item { id: 1 }));
    state.apply(&flag("a", true));
    assert_eq!(state.quest, Quest { war_chef: 1, battle: 2 });
}

#[test]
fn a_full_counter_does_not_admit_more() {
    let mut state = GameState::new();
    state.food = u32::MAX;
    state.available_army.brutes = u32::MAX - 1;
    assert!(!state.admits(&Instruction::AddFood(1)));
    assert!(state.admits(&Instruction::AddFood(0)));
    assert!(state.admits(&Instruction::AddUnits(UnitKind::Brute, 1)));
    assert!(!state.admits(&Instruction::AddUnits(UnitKind::Brute, 2)));
    assert!(state.admits(&Instruction::AddUnits(UnitKind::Peasant, u32::MAX)));
    assert!(state.admits(&Instruction::SubtractFood(u32::MAX)));
    assert!(state.admits(&Instruction::SubtractUnits(UnitKind::Brute, u32::MAX)));
    assert!(state.admits(&Instruction::AddItem(Item { id: 0 })));
    assert!(state.admits(&flag("a", true)));
}

#[test]
fn try_apply_refuses_what_is_not_admitted_and_changes_nothing() {
    let mut state = GameState::new();
    state.food = u32::MAX - 2;
    assert!(!state.try_apply(&Instruction::AddFood(3)));
    assert_eq!(state.food, u32::MAX - 2);
    assert!(state.try_apply(&Instruction::AddFood(2)));
    assert_eq!(state.food, u32::MAX);
    assert!(state.try_apply(&Instruction::SubtractFood(5)));
    assert_eq!(state.food, u32::MAX - 5);
    state.available_army.archers = u32::MAX;
    assert!(!state.try_apply(&Instruction::AddUnits(UnitKind::Archer, 1)));
    assert_eq!(state.available_army.archers, u32::MAX);
}

#[test]
fn apply_all_applies_a_run_in_order() {
    let mut state = GameState::new();
    let run = vec![
        Instruction::AddFood(10),
        Instruction::SubtractFood(15),
        Instruction::AddFood(4),
        Instruction::AddUnits(UnitKind::Warrior, 3),
        Instruction::SubtractUnits(UnitKind::Warrior, 1),
        Instruction::AddItem(Item { id: 9 }),
        flag("seen", true),
        flag("seen", false),
    ];
    assert_eq!(state.apply_all(&run), 8);
    assert_eq!(state.food, 4);
    assert_eq!(state.available_army.warriors, 2);
    assert_eq!(state.inventory.count(Item { id: 9 }), 1);
    assert_eq!(flags_of(&state), vec![("seen".to_string(), false)]);
}

#[test]
fn apply_all_of_nothing_changes_nothing() {
    let mut state = GameState::new();
    state.food = 3;
    assert_eq!(state.apply_all(&Vec::new()), 0);
    assert_eq!(state.food, 3);
}

#[test]
fn apply_all_stops_before_the_first_instruction_that_is_not_admitted() {
    let mut state = GameState::new();
    state.food = u32::MAX - 1;
    let run = vec![
        Instruction::AddFood(1),
        Instruction::AddUnits(UnitKind::Mage, 2),
        Instruction::AddFood(1),
        Instruction::AddUnits(UnitKind::Mage, 5),
    ];
    assert_eq!(state.apply_all(&run), 2);
    assert_eq!(state.food, u32::MAX);
    assert_eq!(state.available_army.mages, 2);
}

#[test]
fn checkpoint_promotes_the_quest_and_keeps_the_rest() {
    let mut state = GameState::new();
    state.food = 12;
    state.available_army.peasants = 7;
    state.quest = Quest { war_chef: 0, battle: 2 };
    state.checkpoint();
    assert_eq!(state.quest, Quest { war_chef: 1, battle: 0 });
    assert_eq!(state.food, 12);
    assert_eq!(state.available_army.peasants, 7);
}
