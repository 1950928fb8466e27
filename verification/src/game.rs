//! The resource pool of a running game and the instructions that change it.

use crate::instruction::{floored_difference, subtract_floored, Instruction};
use crate::inventory::{Inventory, Item};
use crate::quest::Quest;
use crate::units::{UnitComposition, UnitKind};
use crate::variables::{assign, lemma_assign_is_idempotent, Bindings, GlobalVariables};
use vstd::multiset::Multiset;
use vstd::prelude::*;

verus! {

/// Everything the player has gathered, and where the quest stands.
#[derive(Debug)]
pub struct GameState {
    pub available_army: UnitComposition,
    pub food: u32,
    pub inventory: Inventory,
    pub global_variables: GlobalVariables,
    pub quest: Quest,
}

/// The mathematical content of a game state.
#[verifier::ext_equal]
pub struct GameStateView {
    pub available_army: UnitComposition,
    pub food: u32,
    pub inventory: Multiset<Item>,
    pub global_variables: Bindings,
    pub quest: Quest,
}

impl View for GameState {
    type V = GameStateView;

    open spec fn view(&self) -> GameStateView {
        GameStateView {
            available_army: self.available_army,
            food: self.food,
            inventory: self.inventory@,
            global_variables: self.global_variables@,
            quest: self.quest,
        }
    }
}

impl GameStateView {
    /// The state at the start of a game: nothing gathered, the quest at its
    /// first battle.
    pub open spec fn initial() -> GameStateView {
        GameStateView {
            available_army: UnitComposition::spec_empty(),
            food: 0,
            inventory: Multiset::empty(),
            global_variables: Seq::empty(),
            quest: Quest { war_chef: 0, battle: 0 },
        }
    }

    /// Whether the counters have room for what `instruction` adds.
    pub open spec fn admits(self, instruction: Instruction) -> bool {
        match instruction {
            Instruction::AddUnits(kind, count) => self.available_army.count(kind) + count
                <= u32::MAX,
            Instruction::AddFood(count) => self.food + count <= u32::MAX,
            Instruction::SubtractUnits(_, _) => true,
            Instruction::SubtractFood(_) => true,
            Instruction::AddItem(_) => true,
            Instruction::SetGlobalVariable(_, _) => true,
        }
    }

    /// The state after `instruction`.
    pub open spec fn apply(self, instruction: Instruction) -> GameStateView
        recommends
            self.admits(instruction),
    {
        match instruction {
            Instruction::AddUnits(kind, count) => GameStateView {
                available_army: self.available_army.with_count(
                    kind,
                    (self.available_army.count(kind) + count) as u32,
                ),
                ..self
            },
            Instruction::SubtractUnits(kind, count) => GameStateView {
                available_army: self.available_army.with_count(
                    kind,
                    floored_difference(self.available_army.count(kind) as int, count as int) as u32,
                ),
                ..self
            },
            Instruction::AddFood(count) => GameStateView {
                food: (self.food + count) as u32,
                ..self
            },
            Instruction::SubtractFood(count) => GameStateView {
                food: floored_difference(self.food as int, count as int) as u32,
                ..self
            },
            Instruction::AddItem(item) => GameStateView {
                inventory: self.inventory.insert(item),
                ..self
            },
            Instruction::SetGlobalVariable(name, value) => GameStateView {
                global_variables: assign(self.global_variables, name@, value),
                ..self
            },
        }
    }

    /// The state after a run of instructions, each applied to what the one
    /// before it left.
    pub open spec fn apply_all(self, instructions: Seq<Instruction>) -> GameStateView
        recommends
            self.admits_all(instructions),
        decreases instructions.len(),
    {
        if instructions.len() == 0 {
            self
        } else {
            self.apply_all(instructions.drop_last()).apply(instructions.last())
        }
    }

    /// Whether every instruction of a run is admitted by the state that the
    /// ones before it leave.
    pub open spec fn admits_all(self, instructions: Seq<Instruction>) -> bool
        decreases instructions.len(),
    {
        if instructions.len() == 0 {
            true
        } else {
            &&& self.admits_all(instructions.drop_last())
            &&& self.apply_all(instructions.drop_last()).admits(instructions.last())
        }
    }
}

impl GameState {
    /// The state at the start of a game.
    pub fn new() -> (result: GameState)
        ensures
            result@ == GameStateView::initial(),
    {
        GameState {
            available_army: UnitComposition::empty(),
            food: 0,
            inventory: Inventory::new(),
            global_variables: GlobalVariables::new(),
            quest: Quest { war_chef: 0, battle: 0 },
        }
    }

    /// Whether the counters have room for what `instruction` adds.
    pub fn admits(&self, instruction: &Instruction) -> (result: bool)
        ensures
            result == self@.admits(*instruction),
    {
        match instruction {
            Instruction::AddUnits(kind, count) => *count <= u32::MAX
                - self.available_army.get_count(*kind),
            Instruction::AddFood(count) => *count <= u32::MAX - self.food,
            Instruction::SubtractUnits(_, _) => true,
            Instruction::SubtractFood(_) => true,
            Instruction::AddItem(_) => true,
            Instruction::SetGlobalVariable(_, _) => true,
        }
    }

    /// Applies one instruction of the dialogue engine.
    pub fn apply(&mut self, instruction: &Instruction)
        requires
            old(self)@.admits(*instruction),
        ensures
            final(self)@ == old(self)@.apply(*instruction),
    {
        match instruction {
            Instruction::AddUnits(kind, count) => {
                let added: u32 = *count;
                let raise = |held: u32| -> (raised: u32)
                    requires
                        held + added <= u32::MAX,
                    ensures
                        raised == held + added,
                {
                    held + added
                };
                self.available_army.mutate_count(*kind, raise);
            },
            Instruction::SubtractUnits(kind, count) => {
                let taken: u32 = *count;
                let lower = |held: u32| -> (lowered: u32)
                    ensures
                        lowered == floored_difference(held as int, taken as int),
                {
                    subtract_floored(held, taken)
                };
                self.available_army.mutate_count(*kind, lower);
            },
            Instruction::AddFood(count) => {
                self.food = self.food + *count;
            },
            Instruction::SubtractFood(count) => {
                self.food = subtract_floored(self.food, *count);
            },
            Instruction::AddItem(item) => {
                self.inventory.add(*item);
            },
            Instruction::SetGlobalVariable(name, value) => {
                self.global_variables.insert(name.clone(), *value);
            },
        }
    }

    /// Applies `instruction` if the state admits it, and says whether it
    /// did. A refused instruction leaves the state as it was.
    pub fn try_apply(&mut self, instruction: &Instruction) -> (applied: bool)
        ensures
            applied == old(self)@.admits(*instruction),
            applied ==> final(self)@ == old(self)@.apply(*instruction),
            !applied ==> final(self)@ == old(self)@,
    {
        if self.admits(instruction) {
            self.apply(instruction);
            true
        } else {
            false
        }
    }

    /// Applies a run of instructions in order and stops before the first
    /// one that the state does not admit. Returns how many were applied.
    pub fn apply_all(&mut self, instructions: &Vec<Instruction>) -> (applied: usize)
        ensures
            applied <= instructions@.len(),
            old(self)@.admits_all(instructions@.take(applied as int)),
            final(self)@ == old(self)@.apply_all(instructions@.take(applied as int)),
            applied < instructions@.len() ==> !final(self)@.admits(instructions@[applied as int]),
    {
        let mut i: usize = 0;
        proof {
            assert(instructions@.take(0) =~= Seq::<Instruction>::empty());
        }
        while i < instructions.len()
            invariant
                i <= instructions@.len(),
                old(self)@.admits_all(instructions@.take(i as int)),
                self@ == old(self)@.apply_all(instructions@.take(i as int)),
            decreases instructions@.len() - i,
        {
            if !self.admits(&instructions[i]) {
                return i;
            }
            proof {
                assert(instructions@.take(i + 1).drop_last() =~= instructions@.take(i as int));
            }
            self.apply(&instructions[i]);
            i = i + 1;
        }
        i
    }

    /// Promotes the quest to the first battle of the following chapter.
    pub fn checkpoint(&mut self)
        requires
            old(self).quest.war_chef < usize::MAX,
        ensures
            final(self)@ == (GameStateView {
                quest: old(self).quest.spec_checkpoint(),
                ..old(self)@
            }),
    {
        self.quest.checkpoint();
    }
}

impl Default for GameState {
    /// The state at the start of a game.
    fn default() -> (result: GameState)
        ensures
            result@ == GameStateView::initial(),
    {
        GameState::new()
    }
}

/// Taking more food than there is leaves none, and nothing else changes.
pub proof fn lemma_subtract_food_stops_at_zero(state: GameStateView, count: u32)
    requires
        state.food < count,
    ensures
        state.apply(Instruction::SubtractFood(count)) == (GameStateView { food: 0, ..state }),
{
}

/// Food never goes below zero and never grows by being taken: what is
/// left is the difference where that is positive, and nothing otherwise.
pub proof fn lemma_subtract_food_is_floored(state: GameStateView, count: u32)
    ensures
        state.admits(Instruction::SubtractFood(count)),
        state.apply(Instruction::SubtractFood(count)).food <= state.food,
        count <= state.food ==> state.apply(Instruction::SubtractFood(count)).food == state.food
            - count,
        count >= state.food ==> state.apply(Instruction::SubtractFood(count)).food == 0,
{
}

/// Units that were added and then taken again leave the state exactly as
/// it was.
pub proof fn lemma_add_then_subtract_units_restores(
    state: GameStateView,
    kind: UnitKind,
    count: u32,
)
    requires
        state.admits(Instruction::AddUnits(kind, count)),
    ensures
        state.apply(Instruction::AddUnits(kind, count)).admits(
            Instruction::SubtractUnits(kind, count),
        ),
        state.apply(Instruction::AddUnits(kind, count)).apply(
            Instruction::SubtractUnits(kind, count),
        ) == state,
{
}

/// Taking more units of a kind than there are leaves none of that kind,
/// and every other kind as it was.
pub proof fn lemma_subtract_units_stops_at_zero(
    state: GameStateView,
    kind: UnitKind,
    count: u32,
    other: UnitKind,
)
    requires
        count > state.available_army.count(kind),
    ensures
        state.apply(Instruction::SubtractUnits(kind, count)).available_army.count(kind) == 0,
        other != kind ==> state.apply(
            Instruction::SubtractUnits(kind, count),
        ).available_army.count(other) == state.available_army.count(other),
{
}

/// Setting a flag a second time to the same value changes nothing.
pub proof fn lemma_set_global_variable_is_idempotent(
    state: GameStateView,
    name: String,
    value: bool,
)
    ensures
        state.apply(Instruction::SetGlobalVariable(name, value)).admits(
            Instruction::SetGlobalVariable(name, value),
        ),
        state.apply(Instruction::SetGlobalVariable(name, value)).apply(
            Instruction::SetGlobalVariable(name, value),
        ) == state.apply(Instruction::SetGlobalVariable(name, value)),
{
    lemma_assign_is_idempotent(state.global_variables, name@, value);
}

/// An instruction touches only the part of the state that it names: the
/// quest never moves, and army, food, inventory and flags change only
/// under their own instructions.
pub proof fn lemma_apply_is_confined(state: GameStateView, instruction: Instruction)
    ensures
        state.apply(instruction).quest == state.quest,
        !(instruction is AddUnits || instruction is SubtractUnits) ==> state.apply(
            instruction,
        ).available_army == state.available_army,
        !(instruction is AddFood || instruction is SubtractFood) ==> state.apply(instruction).food
            == state.food,
        !(instruction is AddItem) ==> state.apply(instruction).inventory == state.inventory,
        !(instruction is SetGlobalVariable) ==> state.apply(instruction).global_variables
            == state.global_variables,
{
}

/// A run of instructions can be applied in two parts.
pub proof fn lemma_apply_all_splits(
    state: GameStateView,
    first: Seq<Instruction>,
    second: Seq<Instruction>,
)
    ensures
        state.apply_all(first + second) == state.apply_all(first).apply_all(second),
        state.admits_all(first + second) <==> state.admits_all(first) && state.apply_all(
            first,
        ).admits_all(second),
    decreases second.len(),
{
    if second.len() == 0 {
        assert(first + second =~= first);
    } else {
        assert((first + second).drop_last() =~= first + second.drop_last());
        lemma_apply_all_splits(state, first, second.drop_last());
    }
}

} // verus!
