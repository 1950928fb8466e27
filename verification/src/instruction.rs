//! The instructions that the dialogue engine sends to the game state.

use crate::inventory::Item;
use crate::units::UnitKind;
use vstd::prelude::*;

verus! {

/// An effect on the game state, emitted by a dialogue script. The set is
/// closed: every instruction has exactly one of these forms.
#[derive(Debug)]
pub enum Instruction {
    /// Raises the army's count of a kind.
    AddUnits(UnitKind, u32),
    /// Lowers the army's count of a kind, down to zero at most.
    SubtractUnits(UnitKind, u32),
    /// Raises the food.
    AddFood(u32),
    /// Lowers the food, down to zero at most.
    SubtractFood(u32),
    /// Puts one unit of an item into the inventory.
    AddItem(Item),
    /// Sets a global flag.
    SetGlobalVariable(String, bool),
}

/// What is left of `amount` after `taken` is removed, never less than
/// nothing.
pub open spec fn floored_difference(amount: int, taken: int) -> int {
    if amount - taken > 0 {
        amount - taken
    } else {
        0
    }
}

/// Removes `taken` from `amount` and stops at zero.
pub fn subtract_floored(amount: u32, taken: u32) -> (result: u32)
    ensures
        result == floored_difference(amount as int, taken as int),
{
    if taken > amount {
        0
    } else {
        amount - taken
    }
}

} // verus!
