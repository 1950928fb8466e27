//! The quest position and the table of scripted encounters.

use crate::units::UnitComposition;
use vstd::prelude::*;

verus! {

/// The position in the scripted quest: the chapter (`war_chef`) and the
/// encounter within it (`battle`).
#[derive(Clone, Copy, Debug, PartialEq, Eq, Structural, Hash)]
pub struct Quest {
    pub war_chef: usize,
    pub battle: usize,
}

/// An enemy force of peasants and warriors only.
pub open spec fn foot_soldiers(peasants: u32, warriors: u32) -> UnitComposition {
    UnitComposition { peasants, warriors, archers: 0, mages: 0, brutes: 0 }
}

/// The scripted encounters of one chapter, in battle order. A chapter
/// without a script has none.
pub open spec fn chapter_script(war_chef: int) -> Seq<UnitComposition> {
    if war_chef == 0 {
        seq![foot_soldiers(5, 0), foot_soldiers(5, 2), foot_soldiers(10, 1)]
    } else if war_chef == 1 {
        seq![foot_soldiers(2, 5), foot_soldiers(5, 2), foot_soldiers(10, 1)]
    } else {
        Seq::empty()
    }
}

/// The enemy force met at a quest position: the scripted one where the
/// script has an entry, and no enemy at all everywhere else.
pub open spec fn encounter(war_chef: int, battle: int) -> UnitComposition {
    let script = chapter_script(war_chef);
    if 0 <= battle < script.len() {
        script[battle]
    } else {
        UnitComposition::spec_empty()
    }
}

impl Quest {
    /// The position one battle further in the same chapter.
    pub open spec fn spec_next(self) -> Quest
        recommends
            self.battle < usize::MAX,
    {
        Quest { war_chef: self.war_chef, battle: (self.battle + 1) as usize }
    }

    /// The position after `steps` advances.
    pub open spec fn spec_advance(self, steps: nat) -> Quest
        recommends
            self.battle + steps <= usize::MAX,
        decreases steps,
    {
        if steps == 0 {
            self
        } else {
            self.spec_advance((steps - 1) as nat).spec_next()
        }
    }

    /// The first battle of the following chapter.
    pub open spec fn spec_checkpoint(self) -> Quest
        recommends
            self.war_chef < usize::MAX,
    {
        Quest { war_chef: (self.war_chef + 1) as usize, battle: 0 }
    }

    /// The enemy force of the current encounter. A position beyond the
    /// script yields the empty composition, which stands for "no enemy".
    pub fn enemy_unit_comp(&self) -> (result: UnitComposition)
        ensures
            result == encounter(self.war_chef as int, self.battle as int),
    {
        match self.war_chef {
            0 => match self.battle {
                0 => UnitComposition { peasants: 5, warriors: 0, archers: 0, mages: 0, brutes: 0 },
                1 => UnitComposition { peasants: 5, warriors: 2, archers: 0, mages: 0, brutes: 0 },
                2 => UnitComposition { peasants: 10, warriors: 1, archers: 0, mages: 0, brutes: 0 },
                _ => UnitComposition::empty(),
            },
            1 => match self.battle {
                0 => UnitComposition { peasants: 2, warriors: 5, archers: 0, mages: 0, brutes: 0 },
                1 => UnitComposition { peasants: 5, warriors: 2, archers: 0, mages: 0, brutes: 0 },
                2 => UnitComposition { peasants: 10, warriors: 1, archers: 0, mages: 0, brutes: 0 },
                _ => UnitComposition::empty(),
            },
            _ => UnitComposition::empty(),
        }
    }

    /// Advances to the next battle of the chapter.
    pub fn next(&mut self)
        requires
            old(self).battle < usize::MAX,
        ensures
            *final(self) == old(self).spec_next(),
            final(self).battle == old(self).battle + 1,
            final(self).war_chef == old(self).war_chef,
    {
        self.battle = self.battle + 1;
    }

    /// Promotes the quest to the first battle of the following chapter.
    pub fn checkpoint(&mut self)
        requires
            old(self).war_chef < usize::MAX,
        ensures
            *final(self) == old(self).spec_checkpoint(),
            final(self).war_chef == old(self).war_chef + 1,
            final(self).battle == 0,
    {
        self.war_chef = self.war_chef + 1;
        self.battle = 0;
    }
}

impl Default for Quest {
    /// The first battle of the first chapter.
    fn default() -> (result: Quest)
        ensures
            result == (Quest { war_chef: 0, battle: 0 }),
    {
        Quest { war_chef: 0, battle: 0 }
    }
}

/// Two positions with the same indices meet the same enemy force: the
/// encounter depends on nothing but the position.
pub proof fn lemma_encounter_is_a_function_of_the_position(first: Quest, second: Quest)
    requires
        first.war_chef == second.war_chef,
        first.battle == second.battle,
    ensures
        encounter(first.war_chef as int, first.battle as int) == encounter(
            second.war_chef as int,
            second.battle as int,
        ),
{
}

/// Outside the two scripted chapters of three battles each there is no
/// enemy.
pub proof fn lemma_encounter_beyond_script_is_empty(war_chef: int, battle: int)
    requires
        war_chef < 0 || war_chef >= 2 || battle < 0 || battle >= 3,
    ensures
        encounter(war_chef, battle) == UnitComposition::spec_empty(),
{
}

/// Every scripted encounter fields at least one unit, so an empty result
/// is met exactly beyond the script.
pub proof fn lemma_encounter_empty_iff_beyond_script(war_chef: int, battle: int)
    ensures
        encounter(war_chef, battle) == UnitComposition::spec_empty() <==> !(0 <= war_chef < 2 && 0
            <= battle < 3),
{
}

/// Advancing `steps` times moves the battle index by exactly `steps` and
/// keeps the chapter.
pub proof fn lemma_advance_counts_battles(quest: Quest, steps: nat)
    requires
        quest.battle + steps <= usize::MAX,
    ensures
        quest.spec_advance(steps).battle == quest.battle + steps,
        quest.spec_advance(steps).war_chef == quest.war_chef,
    decreases steps,
{
    if steps > 0 {
        lemma_advance_counts_battles(quest, (steps - 1) as nat);
    }
}

/// Starting from the first battle of the first chapter, the quest visits
/// battle `steps` after `steps` advances, and from the third advance on it
/// meets no enemy.
pub proof fn lemma_first_chapter_runs_out(steps: nat)
    requires
        steps <= usize::MAX,
    ensures
        (Quest { war_chef: 0, battle: 0 }).spec_advance(steps) == (Quest {
            war_chef: 0,
            battle: steps as usize,
        }),
        steps >= 3 ==> encounter(0, steps as int) == UnitComposition::spec_empty(),
{
    lemma_advance_counts_battles(Quest { war_chef: 0, battle: 0 }, steps);
}

} // verus!
