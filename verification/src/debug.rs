//! The administrative commands of an inspector tool. They change food,
//! army and quest through a narrow interface that keeps the counters
//! within the inspector's range.

use crate::game::{GameState, GameStateView};
use crate::units::{UnitComposition, UnitKind};
use vstd::prelude::*;

verus! {

/// The largest food or unit count that the inspector sets or steps to.
pub const DEBUG_COUNT_MAX: u32 = 100;

/// A prepared set of resources for the start of a later chapter.
#[derive(Clone, Copy, Debug, PartialEq, Eq, Structural, Hash)]
pub enum Loadout {
    /// What a player typically brings to the second war chef.
    SecondWarChef,
    /// What a player typically brings to the third war chef.
    ThirdWarChef,
}

impl Loadout {
    /// The food of the loadout.
    pub open spec fn spec_food(self) -> u32 {
        match self {
            Loadout::SecondWarChef => 45,
            Loadout::ThirdWarChef => 40,
        }
    }

    /// The army of the loadout.
    pub open spec fn spec_army(self) -> UnitComposition {
        match self {
            Loadout::SecondWarChef => UnitComposition {
                peasants: 25,
                warriors: 3,
                archers: 0,
                mages: 0,
                brutes: 0,
            },
            Loadout::ThirdWarChef => UnitComposition {
                peasants: 26,
                warriors: 6,
                archers: 0,
                mages: 0,
                brutes: 0,
            },
        }
    }

    /// The food of the loadout.
    pub fn food(self) -> (result: u32)
        ensures
            result == self.spec_food(),
    {
        match self {
            Loadout::SecondWarChef => 45,
            Loadout::ThirdWarChef => 40,
        }
    }

    /// The army of the loadout.
    pub fn army(self) -> (result: UnitComposition)
        ensures
            result == self.spec_army(),
    {
        match self {
            Loadout::SecondWarChef => UnitComposition {
                peasants: 25,
                warriors: 3,
                archers: 0,
                mages: 0,
                brutes: 0,
            },
            Loadout::ThirdWarChef => UnitComposition {
                peasants: 26,
                warriors: 6,
                archers: 0,
                mages: 0,
                brutes: 0,
            },
        }
    }
}

/// One action of the inspector.
#[derive(Clone, Copy, Debug, PartialEq, Eq, Structural, Hash)]
pub enum DebugCommand {
    /// Advance the quest to the next battle.
    NextBattle,
    /// Promote the quest to the next chapter.
    Checkpoint,
    /// Take one food, if there is any.
    DecrementFood,
    /// Set the food, limited to the inspector's range.
    SetFood(u32),
    /// Give one food, if the food is below the inspector's range.
    IncrementFood,
    /// Take one unit of a kind, if there is any.
    DecrementUnits(UnitKind),
    /// Set the count of a kind, limited to the inspector's range.
    SetUnits(UnitKind, u32),
    /// Give one unit of a kind, if the count is below the inspector's range.
    IncrementUnits(UnitKind),
    /// Replace food and army by a loadout.
    Equip(Loadout),
}

/// One less, but not below zero.
pub open spec fn stepped_down(count: u32) -> u32 {
    if count > 0 {
        (count - 1) as u32
    } else {
        count
    }
}

/// One more, but only below the inspector's range.
pub open spec fn stepped_up(count: u32) -> u32 {
    if count < DEBUG_COUNT_MAX {
        (count + 1) as u32
    } else {
        count
    }
}

/// The nearest count within the inspector's range.
pub open spec fn limited(count: u32) -> u32 {
    if count > DEBUG_COUNT_MAX {
        DEBUG_COUNT_MAX
    } else {
        count
    }
}

fn step_down(count: u32) -> (result: u32)
    ensures
        result == stepped_down(count),
{
    if count > 0 {
        count - 1
    } else {
        count
    }
}

fn step_up(count: u32) -> (result: u32)
    ensures
        result == stepped_up(count),
{
    if count < DEBUG_COUNT_MAX {
        count + 1
    } else {
        count
    }
}

fn limit(count: u32) -> (result: u32)
    ensures
        result == limited(count),
{
    if count > DEBUG_COUNT_MAX {
        DEBUG_COUNT_MAX
    } else {
        count
    }
}

impl GameStateView {
    /// Whether the quest indices have room for what `command` adds.
    pub open spec fn admits_debug(self, command: DebugCommand) -> bool {
        match command {
            DebugCommand::NextBattle => self.quest.battle < usize::MAX,
            DebugCommand::Checkpoint => self.quest.war_chef < usize::MAX,
            _ => true,
        }
    }

    /// The state after `command`.
    pub open spec fn apply_debug(self, command: DebugCommand) -> GameStateView
        recommends
            self.admits_debug(command),
    {
        match command {
            DebugCommand::NextBattle => GameStateView { quest: self.quest.spec_next(), ..self },
            DebugCommand::Checkpoint => GameStateView {
                quest: self.quest.spec_checkpoint(),
                ..self
            },
            DebugCommand::DecrementFood => GameStateView { food: stepped_down(self.food), ..self },
            DebugCommand::SetFood(food) => GameStateView { food: limited(food), ..self },
            DebugCommand::IncrementFood => GameStateView { food: stepped_up(self.food), ..self },
            DebugCommand::DecrementUnits(kind) => GameStateView {
                available_army: self.available_army.with_count(
                    kind,
                    stepped_down(self.available_army.count(kind)),
                ),
                ..self
            },
            DebugCommand::SetUnits(kind, count) => GameStateView {
                available_army: self.available_army.with_count(kind, limited(count)),
                ..self
            },
            DebugCommand::IncrementUnits(kind) => GameStateView {
                available_army: self.available_army.with_count(
                    kind,
                    stepped_up(self.available_army.count(kind)),
                ),
                ..self
            },
            DebugCommand::Equip(loadout) => GameStateView {
                food: loadout.spec_food(),
                available_army: loadout.spec_army(),
                ..self
            },
        }
    }
}

impl GameState {
    /// Whether the quest indices have room for what `command` adds.
    pub fn admits_debug(&self, command: DebugCommand) -> (result: bool)
        ensures
            result == self@.admits_debug(command),
    {
        match command {
            DebugCommand::NextBattle => self.quest.battle < usize::MAX,
            DebugCommand::Checkpoint => self.quest.war_chef < usize::MAX,
            _ => true,
        }
    }

    /// Carries out one action of the inspector.
    pub fn apply_debug(&mut self, command: DebugCommand)
        requires
            old(self)@.admits_debug(command),
        ensures
            final(self)@ == old(self)@.apply_debug(command),
    {
        match command {
            DebugCommand::NextBattle => {
                self.quest.next();
            },
            DebugCommand::Checkpoint => {
                self.checkpoint();
            },
            DebugCommand::DecrementFood => {
                self.food = step_down(self.food);
            },
            DebugCommand::SetFood(food) => {
                self.food = limit(food);
            },
            DebugCommand::IncrementFood => {
                self.food = step_up(self.food);
            },
            DebugCommand::DecrementUnits(kind) => {
                let count = self.available_army.get_count(kind);
                self.available_army.set_count(kind, step_down(count));
            },
            DebugCommand::SetUnits(kind, count) => {
                self.available_army.set_count(kind, limit(count));
            },
            DebugCommand::IncrementUnits(kind) => {
                let count = self.available_army.get_count(kind);
                self.available_army.set_count(kind, step_up(count));
            },
            DebugCommand::Equip(loadout) => {
                self.food = loadout.food();
                self.available_army = loadout.army();
            },
        }
    }
}

/// Whatever was there before, a count that the inspector has set lies
/// within its range, and stepping it up or down keeps it there.
pub proof fn lemma_inspector_keeps_counts_in_range(count: u32)
    ensures
        limited(count) <= DEBUG_COUNT_MAX,
        count <= DEBUG_COUNT_MAX ==> limited(count) == count,
        count <= DEBUG_COUNT_MAX ==> stepped_up(count) <= DEBUG_COUNT_MAX,
        stepped_down(count) <= count,
        count > 0 ==> stepped_down(count) == count - 1,
        count < DEBUG_COUNT_MAX ==> stepped_up(count) == count + 1,
        0 < count < DEBUG_COUNT_MAX ==> stepped_down(stepped_up(count)) == count && stepped_up(
            stepped_down(count),
        ) == count,
{
}

} // verus!
