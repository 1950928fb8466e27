//! The progression controller: the active phase together with the battle
//! countdown, advanced by signals and by simulation ticks.

use crate::app_state::{AppState, Signal};
use crate::battle::{battle_enter, battle_update, ticked, BattleState};
use vstd::prelude::*;

verus! {

/// What the controller tells the systems that depend on the phase.
#[derive(Clone, Copy, Debug, PartialEq, Eq, Structural, Hash)]
pub enum Notification {
    /// The phase has changed to the given one.
    PhaseChanged(AppState),
    /// A battle has begun.
    BattleStarted,
}

/// The active phase and the countdown of the battle phase. The countdown
/// is meaningful while the phase is `GameBattle`.
#[derive(Clone, Copy, Debug, PartialEq, Eq, Structural, Hash)]
pub struct Progression {
    pub phase: AppState,
    pub battle: BattleState,
}

impl Progression {
    /// The controller at the start of the application.
    pub open spec fn initial() -> Progression {
        Progression { phase: AppState::MainMenu, battle: BattleState::fresh() }
    }

    /// The controller after `signal`: the phase follows the transition
    /// rules, and the countdown starts anew when a battle is entered.
    pub open spec fn after_signal(self, signal: Signal) -> Progression {
        let next = self.phase.after(signal);
        Progression {
            phase: next,
            battle: if next != self.phase && next == AppState::GameBattle {
                BattleState::fresh()
            } else {
                self.battle
            },
        }
    }

    /// What a change from `self.phase` to `next` is announced with: nothing
    /// if the phase stays, else the new phase, followed by the start of the
    /// battle if the new phase is the battle.
    pub open spec fn announcements(self, next: AppState) -> Seq<Notification> {
        if next == self.phase {
            Seq::empty()
        } else if next == AppState::GameBattle {
            seq![Notification::PhaseChanged(next), Notification::BattleStarted]
        } else {
            seq![Notification::PhaseChanged(next)]
        }
    }

    /// The phase after one simulation tick that leaves `remaining_after`
    /// on the countdown: a battle ends when its time is up or the player
    /// skips it, and every other phase stays.
    pub open spec fn phase_after_tick(self, remaining_after: int, skip: bool) -> AppState {
        if self.phase == AppState::GameBattle && (remaining_after < 0 || skip) {
            AppState::GamePlanning
        } else {
            self.phase
        }
    }

    /// The controller at the start of the application: in the menu.
    pub fn new() -> (result: Progression)
        ensures
            result == Progression::initial(),
    {
        Progression { phase: AppState::MainMenu, battle: BattleState::default() }
    }

    /// Takes a signal of the input layer or of a collaborator, changes the
    /// phase by the transition rules and returns what is to be announced.
    pub fn signal(&mut self, signal: Signal) -> (notes: Vec<Notification>)
        ensures
            *final(self) == old(self).after_signal(signal),
            notes@ == old(self).announcements(final(self).phase),
    {
        let mut notes: Vec<Notification> = Vec::new();
        match self.phase.transition(signal) {
            Some(next) => {
                notes.push(Notification::PhaseChanged(next));
                if next == AppState::GameBattle {
                    let _ = battle_enter(&mut self.battle);
                    notes.push(Notification::BattleStarted);
                }
                self.phase = next;
            },
            None => {},
        }
        assert(notes@ =~= old(self).announcements(self.phase));
        notes
    }

    /// One simulation tick. During a battle the countdown is lowered by
    /// the tick's length, and the battle gives way to planning when the
    /// time is up or `skip` is set. In every other phase nothing happens.
    pub fn tick(&mut self, period_nanos: u64, skip: bool) -> (notes: Vec<Notification>)
        ensures
            final(self).battle.battle_time == if old(self).phase == AppState::GameBattle {
                ticked(old(self).battle.battle_time as int, period_nanos as int)
            } else {
                old(self).battle.battle_time as int
            },
            final(self).phase == old(self).phase_after_tick(
                final(self).battle.battle_time as int,
                skip,
            ),
            old(self).phase != AppState::GameBattle ==> *final(self) == *old(self),
            notes@ == old(self).announcements(final(self).phase),
    {
        let mut notes: Vec<Notification> = Vec::new();
        if self.phase == AppState::GameBattle {
            match battle_update(&mut self.battle, period_nanos, skip) {
                Some(next) => {
                    notes.push(Notification::PhaseChanged(next));
                    self.phase = next;
                },
                None => {},
            }
        }
        assert(notes@ =~= old(self).announcements(self.phase));
        notes
    }
}

impl Default for Progression {
    /// The controller at the start of the application: in the menu.
    fn default() -> (result: Progression)
        ensures
            result == Progression::initial(),
    {
        Progression::new()
    }
}

/// A battle is entered with a full countdown, whatever the countdown held
/// before, and no other signal touches the countdown.
pub proof fn lemma_battle_begins_with_full_time(progression: Progression, signal: Signal)
    ensures
        progression.after_signal(signal).phase == AppState::GameBattle && progression.phase
            != AppState::GameBattle ==> progression.after_signal(signal).battle
            == BattleState::fresh(),
        progression.after_signal(signal).phase != AppState::GameBattle || progression.phase
            == AppState::GameBattle ==> progression.after_signal(signal).battle
            == progression.battle,
{
}

/// A skip ends a battle at once, however much time is left, and outside
/// a battle neither a skip nor the passing of time changes the phase.
pub proof fn lemma_skip_ends_battle_at_once(progression: Progression, remaining_after: int)
    ensures
        progression.phase == AppState::GameBattle ==> progression.phase_after_tick(
            remaining_after,
            true,
        ) == AppState::GamePlanning,
        progression.phase == AppState::GameBattle ==> progression.after_signal(
            Signal::SkipBattle,
        ).phase == AppState::GamePlanning,
        progression.phase != AppState::GameBattle ==> progression.phase_after_tick(
            remaining_after,
            true,
        ) == progression.phase && progression.phase_after_tick(remaining_after, false)
            == progression.phase,
{
}

} // verus!
