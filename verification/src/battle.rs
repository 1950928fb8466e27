//! The battle phase: a countdown that ends the battle when it runs out or
//! when the player skips it.

use crate::app_state::AppState;
use vstd::prelude::*;

verus! {

/// The length of a battle in nanoseconds: one and a half seconds.
pub const BATTLE_DURATION_NANOS: i64 = 1_500_000_000;

/// The countdown of the running battle. It is written anew whenever a
/// battle is entered and lowered on every simulation tick.
#[derive(Clone, Copy, Debug, PartialEq, Eq, Structural, Hash)]
pub struct BattleState {
    /// The time left, in nanoseconds. It is negative once the time is up.
    pub battle_time: i64,
}

/// The notification that a battle has begun.
#[derive(Clone, Copy, Debug, PartialEq, Eq, Structural, Hash)]
pub struct BattleStartEvent;

impl Default for BattleStartEvent {
    fn default() -> (result: BattleStartEvent)
        ensures
            result == BattleStartEvent,
    {
        BattleStartEvent
    }
}

/// What the presentation layer is asked to do when a battle begins.
#[derive(Clone, Copy, Debug, PartialEq, Eq, Structural, Hash)]
pub enum BattleEffect {
    /// Show the banner that announces the battle.
    ShowBanner,
    /// Spawn the units of both sides.
    SpawnUnits,
}

/// What is left of a countdown after one tick. The countdown may fall
/// below zero; it stops at the least value that it can hold.
pub open spec fn ticked(remaining: int, period: int) -> int {
    if remaining - period < i64::MIN {
        i64::MIN as int
    } else {
        remaining - period
    }
}

impl BattleState {
    /// Whether the time is up.
    pub open spec fn is_over(self) -> bool {
        self.battle_time < 0
    }

    /// The countdown of a battle that has just begun.
    pub open spec fn fresh() -> BattleState {
        BattleState { battle_time: BATTLE_DURATION_NANOS }
    }

    /// Whether the time is up.
    pub fn time_is_up(&self) -> (result: bool)
        ensures
            result == self.is_over(),
    {
        self.battle_time < 0
    }

    /// Lowers the countdown by the length of one simulation tick.
    pub fn tick(&mut self, period_nanos: u64)
        ensures
            final(self).battle_time == ticked(old(self).battle_time as int, period_nanos as int),
    {
        let lowered: i128 = self.battle_time as i128 - period_nanos as i128;
        if lowered < i64::MIN as i128 {
            self.battle_time = i64::MIN;
        } else {
            self.battle_time = lowered as i64;
        }
    }
}

impl Default for BattleState {
    /// The countdown of a battle that has just begun.
    fn default() -> (result: BattleState)
        ensures
            result == BattleState::fresh(),
    {
        BattleState { battle_time: BATTLE_DURATION_NANOS }
    }
}

/// Entering the battle phase: the countdown starts anew, whatever it held,
/// and the start of the battle is announced.
pub fn battle_enter(battle_state: &mut BattleState) -> (event: BattleStartEvent)
    ensures
        *final(battle_state) == BattleState::fresh(),
{
    *battle_state = BattleState::default();
    BattleStartEvent
}

/// What a battle start asks of the presentation layer, in order: the
/// banner, then the units.
pub open spec fn start_effects() -> Seq<BattleEffect> {
    seq![BattleEffect::ShowBanner, BattleEffect::SpawnUnits]
}

/// Answers the announcement of a battle with the effects to perform.
pub fn battle_start(_event: BattleStartEvent) -> (effects: [BattleEffect; 2])
    ensures
        effects@ == start_effects(),
{
    let effects = [BattleEffect::ShowBanner, BattleEffect::SpawnUnits];
    assert(effects@ =~= start_effects());
    effects
}

/// One simulation tick of the battle phase. Lowers the countdown by the
/// tick's length and asks for the planning phase if the time is up or the
/// player skips the battle.
pub fn battle_update(battle_state: &mut BattleState, period_nanos: u64, skip: bool) -> (next:
    Option<AppState>)
    ensures
        final(battle_state).battle_time == ticked(
            old(battle_state).battle_time as int,
            period_nanos as int,
        ),
        next == if final(battle_state).is_over() || skip {
            Some(AppState::GamePlanning)
        } else {
            None::<AppState>
        },
{
    battle_state.tick(period_nanos);
    if battle_state.time_is_up() || skip {
        Some(AppState::GamePlanning)
    } else {
        None
    }
}

/// A fresh countdown outlasts a tick exactly if the tick is no longer than
/// the battle, and ticks add up: two ticks lower the countdown as one tick
/// of their joint length does, as long as the countdown can hold the
/// result.
pub proof fn lemma_ticks_add_up(remaining: int, first: int, second: int)
    requires
        first >= 0,
        second >= 0,
        remaining - first - second >= i64::MIN,
    ensures
        ticked(ticked(remaining, first), second) == remaining - (first + second),
        ticked(BATTLE_DURATION_NANOS as int, first) < 0 <==> first > BATTLE_DURATION_NANOS,
{
}

} // verus!
