//! Unit kinds and unit compositions.

use vstd::prelude::*;

verus! {

/// The closed set of unit kinds.
#[derive(Clone, Copy, Debug, PartialEq, Eq, Structural, Hash)]
pub enum UnitKind {
    Peasant,
    Warrior,
    Archer,
    Mage,
    Brute,
}

impl UnitKind {
    /// Every unit kind, once, in declaration order.
    pub open spec fn spec_all() -> Seq<UnitKind> {
        seq![
            UnitKind::Peasant,
            UnitKind::Warrior,
            UnitKind::Archer,
            UnitKind::Mage,
            UnitKind::Brute,
        ]
    }

    /// The position of a kind in `spec_all`.
    pub open spec fn ordinal(self) -> int {
        match self {
            UnitKind::Peasant => 0,
            UnitKind::Warrior => 1,
            UnitKind::Archer => 2,
            UnitKind::Mage => 3,
            UnitKind::Brute => 4,
        }
    }

    /// Lists every unit kind, once, in declaration order.
    pub fn all() -> (kinds: [UnitKind; 5])
        ensures
            kinds@ == Self::spec_all(),
    {
        let kinds = [
            UnitKind::Peasant,
            UnitKind::Warrior,
            UnitKind::Archer,
            UnitKind::Mage,
            UnitKind::Brute,
        ];
        assert(kinds@ =~= Self::spec_all());
        kinds
    }

    /// `spec_all` holds each kind at the index given by its ordinal, and
    /// nowhere else: the listing is complete and free of repetition.
    pub proof fn lemma_all_is_exhaustive(kind: UnitKind)
        ensures
            Self::spec_all().len() == 5,
            0 <= kind.ordinal() < 5,
            Self::spec_all()[kind.ordinal()] == kind,
            forall|i: int| 0 <= i < 5 && Self::spec_all()[i] == kind ==> i == kind.ordinal(),
    {
    }
}

/// A count of units for every kind: an army, or an enemy force.
#[derive(Clone, Copy, Debug, PartialEq, Eq, Structural, Hash)]
pub struct UnitComposition {
    pub peasants: u32,
    pub warriors: u32,
    pub archers: u32,
    pub mages: u32,
    pub brutes: u32,
}

impl UnitComposition {
    /// The count that the composition holds for `kind`.
    pub open spec fn count(self, kind: UnitKind) -> u32 {
        match kind {
            UnitKind::Peasant => self.peasants,
            UnitKind::Warrior => self.warriors,
            UnitKind::Archer => self.archers,
            UnitKind::Mage => self.mages,
            UnitKind::Brute => self.brutes,
        }
    }

    /// The composition that holds `count` for `kind` and agrees with `self`
    /// on every other kind.
    pub open spec fn with_count(self, kind: UnitKind, count: u32) -> UnitComposition {
        match kind {
            UnitKind::Peasant => UnitComposition { peasants: count, ..self },
            UnitKind::Warrior => UnitComposition { warriors: count, ..self },
            UnitKind::Archer => UnitComposition { archers: count, ..self },
            UnitKind::Mage => UnitComposition { mages: count, ..self },
            UnitKind::Brute => UnitComposition { brutes: count, ..self },
        }
    }

    /// The composition with no unit of any kind.
    pub open spec fn spec_empty() -> UnitComposition {
        UnitComposition { peasants: 0, warriors: 0, archers: 0, mages: 0, brutes: 0 }
    }

    /// The number of units of all kinds together.
    pub open spec fn spec_total(self) -> int {
        self.peasants + self.warriors + self.archers + self.mages + self.brutes
    }

    /// The all-zero composition.
    pub fn empty() -> (result: UnitComposition)
        ensures
            result == Self::spec_empty(),
    {
        UnitComposition { peasants: 0, warriors: 0, archers: 0, mages: 0, brutes: 0 }
    }

    /// Reads the count for one kind.
    pub fn get_count(&self, kind: UnitKind) -> (result: u32)
        ensures
            result == self.count(kind),
    {
        match kind {
            UnitKind::Peasant => self.peasants,
            UnitKind::Warrior => self.warriors,
            UnitKind::Archer => self.archers,
            UnitKind::Mage => self.mages,
            UnitKind::Brute => self.brutes,
        }
    }

    /// Stores `count` for one kind and leaves the other kinds as they are.
    pub fn set_count(&mut self, kind: UnitKind, count: u32)
        ensures
            *final(self) == old(self).with_count(kind, count),
    {
        match kind {
            UnitKind::Peasant => self.peasants = count,
            UnitKind::Warrior => self.warriors = count,
            UnitKind::Archer => self.archers = count,
            UnitKind::Mage => self.mages = count,
            UnitKind::Brute => self.brutes = count,
        }
    }

    /// Replaces the count for one kind by what `f` makes of it.
    pub fn mutate_count<F: FnOnce(u32) -> u32>(&mut self, kind: UnitKind, f: F)
        requires
            call_requires(f, (old(self).count(kind),)),
        ensures
            call_ensures(f, (old(self).count(kind),), final(self).count(kind)),
            *final(self) == old(self).with_count(kind, final(self).count(kind)),
    {
        let before = self.get_count(kind);
        let after = f(before);
        self.set_count(kind, after);
    }

    /// The number of units of all kinds together.
    pub fn total(&self) -> (result: u64)
        ensures
            result == self.spec_total(),
    {
        self.peasants as u64 + self.warriors as u64 + self.archers as u64 + self.mages as u64
            + self.brutes as u64
    }

    /// Whether the composition holds no unit at all.
    pub fn is_empty(&self) -> (result: bool)
        ensures
            result == (*self == Self::spec_empty()),
            result == (self.spec_total() == 0),
    {
        self.peasants == 0 && self.warriors == 0 && self.archers == 0 && self.mages == 0
            && self.brutes == 0
    }
}

impl Default for UnitComposition {
    /// The all-zero composition.
    fn default() -> (result: UnitComposition)
        ensures
            result == UnitComposition::spec_empty(),
    {
        UnitComposition::empty()
    }
}

/// Reading back the kind that was written gives the written count; reading
/// any other kind gives what was there before.
pub proof fn lemma_with_count_reads_back(
    composition: UnitComposition,
    kind: UnitKind,
    count: u32,
    other: UnitKind,
)
    ensures
        composition.with_count(kind, count).count(kind) == count,
        other != kind ==> composition.with_count(kind, count).count(other) == composition.count(
            other,
        ),
        composition.with_count(kind, composition.count(kind)) == composition,
{
}

} // verus!
