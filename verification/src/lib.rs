//! Progression controller of a small strategy game: unit compositions, the
//! scripted quest table, the resource pool driven by dialogue instructions,
//! the battle countdown and the phase state machine.

pub mod app_state;
pub mod battle;
pub mod controller;
pub mod debug;
pub mod game;
pub mod instruction;
pub mod inventory;
pub mod quest;
pub mod units;
pub mod variables;

pub use app_state::{AppState, Signal};
pub use battle::{BattleEffect, BattleStartEvent, BattleState};
pub use controller::{Notification, Progression};
pub use debug::{DebugCommand, Loadout};
pub use game::GameState;
pub use instruction::Instruction;
pub use inventory::{Inventory, Item};
pub use quest::Quest;
pub use units::{UnitComposition, UnitKind};
pub use variables::GlobalVariables;
