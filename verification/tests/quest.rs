use progression::quest::Quest;
use progression::units::UnitComposition;

fn force(peasants: u32, warriors: u32) -> UnitComposition {
    UnitComposition { peasants, warriors, archers: 0, mages: 0, brutes: 0 }
}

fn at(war_chef: usize, battle: usize) -> UnitComposition {
    Quest { war_chef, battle }.enemy_unit_comp()
}

#[test]
fn first_chapter_has_its_three_scripted_encounters() {
    assert_eq!(at(0, 0), force(5, 0));
    assert_eq!(at(0, 1), force(5, 2));
    assert_eq!(at(0, 2), force(10, 1));
}

#[test]
fn second_chapter_has_its_three_scripted_encounters() {
    assert_eq!(at(1, 0), force(2, 5));
    assert_eq!(at(1, 1), force(5, 2));
    assert_eq!(at(1, 2), force(10, 1));
}

#[test]
fn the_two_chapters_open_differently() {
    assert_ne!(at(0, 0), at(1, 0));
}

#[test]
fn positions_beyond_the_script_meet_no_enemy() {
    assert_eq!(at(2, 0), UnitComposition::empty());
    assert_eq!(at(0, 3), UnitComposition::empty());
    assert_eq!(at(1, 3), UnitComposition::empty());
    assert_eq!(at(2, 2), UnitComposition::empty());
    assert_eq!(at(7, 1), UnitComposition::empty());
    assert_eq!(at(usize::MAX, 0), UnitComposition::empty());
    assert_eq!(at(0, usize::MAX), UnitComposition::empty());
    assert_eq!(at(usize::MAX, usize::MAX), UnitComposition::empty());
}

#[test]
fn an_empty_encounter_is_met_exactly_beyond_the_script() {
    for war_chef in 0..6 {
        for battle in 0..6 {
            let scripted = war_chef < 2 && battle < 3;
            assert_eq!(at(war_chef, battle).is_empty(), !scripted);
        }
    }
}

#[test]
fn the_same_position_always_meets_the_same_enemy() {
    for war_chef in 0..4 {
        for battle in 0..5 {
            let quest = Quest { war_chef, battle };
            let first = quest.enemy_unit_comp();
            let second = quest.enemy_unit_comp();
            let third = Quest { war_chef, battle }.enemy_unit_comp();
            assert_eq!(first, second);
            assert_eq!(first, third);
        }
    }
}

#[test]
fn lookup_leaves_the_position_as_it_is() {
    let quest = Quest { war_chef: 1, battle: 2 };
    let _ = quest.enemy_unit_comp();
    assert_eq!(quest, Quest { war_chef: 1, battle: 2 });
}

#[test]
fn next_visits_the_battles_one_by_one() {
    let mut quest = Quest { war_chef: 0, battle: 0 };
    for expected in 1..=40usize {
        quest.next();
        assert_eq!(quest, Quest { war_chef: 0, battle: expected });
        if expected >= 3 {
            assert_eq!(quest.enemy_unit_comp(), UnitComposition::empty());
        }
    }
}

#[test]
fn next_walks_through_the_script_of_the_first_chapter() {
    let mut quest = Quest::default();
    assert_eq!(quest.enemy_unit_comp(), force(5, 0));
    quest.next();
    assert_eq!(quest.enemy_unit_comp(), force(5, 2));
    quest.next();
    assert_eq!(quest.enemy_unit_comp(), force(10, 1));
    quest.next();
    assert_eq!(quest.enemy_unit_comp(), UnitComposition::empty());
}

#[test]
fn next_keeps_the_chapter() {
    let mut quest = Quest { war_chef: 5, battle: 9 };
    quest.next();
    assert_eq!(quest, Quest { war_chef: 5, battle: 10 });
}

#[test]
fn next_reaches_the_last_index() {
    let mut quest = Quest { war_chef: 0, battle: usize::MAX - 1 };
    quest.next();
    assert_eq!(quest.battle, usize::MAX);
}

#[test]
fn checkpoint_moves_to_the_first_battle_of_the_next_chapter() {
    let mut quest = Quest { war_chef: 0, battle: 2 };
    quest.checkpoint();
    assert_eq!(quest, Quest { war_chef: 1, battle: 0 });
    assert_eq!(quest.enemy_unit_comp(), force(2, 5));
    quest.checkpoint();
    assert_eq!(quest, Quest { war_chef: 2, battle: 0 });
    assert_eq!(quest.enemy_unit_comp(), UnitComposition::empty());
}

#[test]
fn default_quest_stands_at_the_first_battle() {
    assert_eq!(Quest::default(), Quest { war_chef: 0, battle: 0 });
}
