//! The phases of the application and the rules by which one follows
//! another.

use vstd::prelude::*;

verus! {

/// The phase that the application is in. Exactly one is active at a time.
#[derive(Clone, Copy, Debug, PartialEq, Eq, Structural, Hash)]
pub enum AppState {
    /// The menu shown at start.
    MainMenu,
    /// Free play and dialogue.
    Game,
    /// A battle that runs until its time is up or the player skips it.
    GameBattle,
    /// Planning after a battle.
    GamePlanning,
}

/// What can make the phase change.
#[derive(Clone, Copy, Debug, PartialEq, Eq, Structural, Hash)]
pub enum Signal {
    /// The player confirms in the menu.
    Confirm,
    /// A collaborator starts a battle from free play.
    StartBattle,
    /// The player skips the running battle.
    SkipBattle,
    /// The time of the running battle is up.
    BattleTimeout,
    /// The player asks for the menu.
    ReturnToMenu,
}

impl AppState {
    /// Whether the phase is one of the phases of a running game.
    pub open spec fn in_game(self) -> bool {
        self != AppState::MainMenu
    }

    /// The phase that follows when `signal` arrives. A signal that does not
    /// belong to the phase changes nothing.
    pub open spec fn after(self, signal: Signal) -> AppState {
        match (self, signal) {
            (AppState::MainMenu, Signal::Confirm) => AppState::Game,
            (AppState::Game, Signal::StartBattle) => AppState::GameBattle,
            (AppState::GameBattle, Signal::SkipBattle) => AppState::GamePlanning,
            (AppState::GameBattle, Signal::BattleTimeout) => AppState::GamePlanning,
            (AppState::Game, Signal::ReturnToMenu) => AppState::MainMenu,
            (AppState::GameBattle, Signal::ReturnToMenu) => AppState::MainMenu,
            (AppState::GamePlanning, Signal::ReturnToMenu) => AppState::MainMenu,
            _ => self,
        }
    }

    /// Whether the phase is one of the phases of a running game.
    pub fn is_in_game(self) -> (result: bool)
        ensures
            result == self.in_game(),
    {
        match self {
            AppState::MainMenu => false,
            _ => true,
        }
    }

    /// The phase to ask for when `signal` arrives, or `None` where the
    /// signal does not belong to the phase and changes nothing.
    pub fn transition(self, signal: Signal) -> (next: Option<AppState>)
        ensures
            next == if self.after(signal) != self {
                Some(self.after(signal))
            } else {
                None::<AppState>
            },
    {
        let next = self.on_signal(signal);
        if next != self {
            Some(next)
        } else {
            None
        }
    }

    /// The phase that follows when `signal` arrives.
    pub fn on_signal(self, signal: Signal) -> (next: AppState)
        ensures
            next == self.after(signal),
    {
        match signal {
            Signal::Confirm => match self {
                AppState::MainMenu => AppState::Game,
                _ => self,
            },
            Signal::StartBattle => match self {
                AppState::Game => AppState::GameBattle,
                _ => self,
            },
            Signal::SkipBattle | Signal::BattleTimeout => match self {
                AppState::GameBattle => AppState::GamePlanning,
                _ => self,
            },
            Signal::ReturnToMenu => AppState::MainMenu,
        }
    }
}

impl Default for AppState {
    /// The application starts in the menu.
    fn default() -> (result: AppState)
        ensures
            result == AppState::MainMenu,
    {
        AppState::MainMenu
    }
}

/// The transitions, each with the one phase that it leaves: the menu is
/// left only by a confirmation, a battle is entered only from free play,
/// planning is entered only from a battle, and the menu is reached again
/// only by asking for it.
pub proof fn lemma_transitions_are_scoped(phase: AppState, signal: Signal)
    ensures
        phase.after(signal) != phase ==> {
            ||| phase == AppState::MainMenu && signal == Signal::Confirm && phase.after(signal)
                == AppState::Game
            ||| phase == AppState::Game && signal == Signal::StartBattle && phase.after(signal)
                == AppState::GameBattle
            ||| phase == AppState::GameBattle && (signal == Signal::SkipBattle || signal
                == Signal::BattleTimeout) && phase.after(signal) == AppState::GamePlanning
            ||| phase.in_game() && signal == Signal::ReturnToMenu && phase.after(signal)
                == AppState::MainMenu
        },
{
}

/// Skipping a battle and running out of time lead to the same phase, so
/// it does not matter which of the two is noticed first.
pub proof fn lemma_battle_ends_the_same_either_way(phase: AppState)
    ensures
        phase.after(Signal::SkipBattle) == phase.after(Signal::BattleTimeout),
        phase.after(Signal::SkipBattle).after(Signal::BattleTimeout) == phase.after(
            Signal::BattleTimeout,
        ).after(Signal::SkipBattle),
{
}

} // verus!
