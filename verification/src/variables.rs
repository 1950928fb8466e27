//! The global flags that dialogue scripts set and read.

use vstd::prelude::*;

verus! {

/// The mathematical content of the flags: name and value of every flag, in
/// the order in which the names were first set.
pub type Bindings = Seq<(Seq<char>, bool)>;

/// Whether `index` is the first place of `bindings` that holds `name`.
pub open spec fn first_bound_at(bindings: Bindings, name: Seq<char>, index: int) -> bool {
    &&& 0 <= index < bindings.len()
    &&& bindings[index].0 == name
    &&& forall|earlier: int| 0 <= earlier < index ==> (#[trigger] bindings[earlier]).0 != name
}

/// Whether `name` has been set.
pub open spec fn is_bound(bindings: Bindings, name: Seq<char>) -> bool {
    exists|index: int| first_bound_at(bindings, name, index)
}

/// The place that holds `name`, where it has been set.
pub open spec fn slot_of(bindings: Bindings, name: Seq<char>) -> int
    recommends
        is_bound(bindings, name),
{
    choose|index: int| first_bound_at(bindings, name, index)
}

/// The value of a flag: `None` until the name is first set.
pub open spec fn value_of(bindings: Bindings, name: Seq<char>) -> Option<bool> {
    if is_bound(bindings, name) {
        Some(bindings[slot_of(bindings, name)].1)
    } else {
        None
    }
}

/// The flags after `name` is set to `value`: a known name keeps its place
/// and takes the new value, a new name goes to the end.
pub open spec fn assign(bindings: Bindings, name: Seq<char>, value: bool) -> Bindings {
    if is_bound(bindings, name) {
        bindings.update(slot_of(bindings, name), (name, value))
    } else {
        bindings.push((name, value))
    }
}

/// Whether no name occurs twice.
pub open spec fn names_distinct(bindings: Bindings) -> bool {
    forall|i: int, j: int|
        0 <= i < j < bindings.len() ==> (#[trigger] bindings[i]).0 != (#[trigger] bindings[j]).0
}

/// The global flags: a mapping from names to booleans that remembers the
/// order in which the names were first set. No name occurs twice.
#[derive(Debug)]
pub struct GlobalVariables {
    entries: Vec<(String, bool)>,
}

impl View for GlobalVariables {
    type V = Bindings;

    closed spec fn view(&self) -> Bindings {
        self.entries@.map_values(|entry: (String, bool)| (entry.0@, entry.1))
    }
}

impl GlobalVariables {
    /// What holds of every value of the type: no name occurs twice.
    #[verifier::type_invariant]
    pub open spec fn well_formed(self) -> bool {
        names_distinct(self@)
    }

    /// No flag is set.
    pub fn new() -> (result: GlobalVariables)
        ensures
            result@ == Seq::<(Seq<char>, bool)>::empty(),
    {
        let result = GlobalVariables { entries: Vec::new() };
        assert(result@ =~= Seq::<(Seq<char>, bool)>::empty());
        result
    }

    /// How many names have been set.
    pub fn len(&self) -> (result: usize)
        ensures
            result == self@.len(),
    {
        self.entries.len()
    }

    /// Whether no flag is set.
    pub fn is_empty(&self) -> (result: bool)
        ensures
            result == (self@.len() == 0),
    {
        self.entries.len() == 0
    }

    /// The name and value at a place of the insertion order, or `None`
    /// beyond the last place.
    pub fn entry(&self, index: usize) -> (result: Option<(String, bool)>)
        ensures
            match result {
                Some((name, value)) => index < self@.len() && self@[index as int] == (name@, value),
                None => index >= self@.len(),
            },
    {
        if index < self.entries.len() {
            let name = self.entries[index].0.clone();
            Some((name, self.entries[index].1))
        } else {
            None
        }
    }

    /// The first place that holds `name`, or `None` if the name was never
    /// set.
    pub fn position(&self, name: &String) -> (result: Option<usize>)
        ensures
            match result {
                Some(index) => first_bound_at(self@, name@, index as int),
                None => !is_bound(self@, name@),
            },
    {
        let mut i: usize = 0;
        while i < self.entries.len()
            invariant
                i <= self.entries.len(),
                forall|earlier: int| 0 <= earlier < i ==> (#[trigger] self@[earlier]).0 != name@,
            decreases self.entries.len() - i,
        {
            if self.entries[i].0 == *name {
                return Some(i);
            }
            i = i + 1;
        }
        proof {
            lemma_unheld_name_is_unbound(self@, name@);
        }
        None
    }

    /// Reads a flag: `None` until the name is first set.
    pub fn get(&self, name: &String) -> (result: Option<bool>)
        ensures
            result == value_of(self@, name@),
    {
        match self.position(name) {
            Some(index) => {
                proof {
                    lemma_slot_is_first_place(self@, name@, index as int);
                }
                Some(self.entries[index].1)
            },
            None => None,
        }
    }

    /// Sets a flag. A known name keeps its place and takes the new value;
    /// a new name goes to the end.
    pub fn insert(&mut self, name: String, value: bool)
        ensures
            final(self)@ == assign(old(self)@, name@, value),
    {
        proof {
            use_type_invariant(&*self);
            lemma_assign_keeps_names_distinct(self@, name@, value);
        }
        let ghost before = self@;
        let found = self.position(&name);
        // The entries are taken out while they change, so that `self` is well
        // formed at every step.
        let mut entries: Vec<(String, bool)> = Vec::new();
        core::mem::swap(&mut self.entries, &mut entries);
        match found {
            Some(index) => {
                proof {
                    lemma_slot_is_first_place(before, name@, index as int);
                }
                entries.set(index, (name, value));
            },
            None => {
                entries.push((name, value));
            },
        }
        assert(entries@.map_values(|entry: (String, bool)| (entry.0@, entry.1)) =~= assign(
            before,
            name@,
            value,
        ));
        self.entries = entries;
    }
}

impl Default for GlobalVariables {
    /// No flag is set.
    fn default() -> (result: GlobalVariables)
        ensures
            result@ == Seq::<(Seq<char>, bool)>::empty(),
    {
        GlobalVariables::new()
    }
}

/// A name occupies at most one first place.
pub proof fn lemma_first_place_is_unique(bindings: Bindings, name: Seq<char>, i: int, j: int)
    requires
        first_bound_at(bindings, name, i),
        first_bound_at(bindings, name, j),
    ensures
        i == j,
{
    if i < j {
        assert(bindings[i].0 != name);
    } else if j < i {
        assert(bindings[j].0 != name);
    }
}

/// Where the first place of a name is known, it is the name's slot.
pub proof fn lemma_slot_is_first_place(bindings: Bindings, name: Seq<char>, index: int)
    requires
        first_bound_at(bindings, name, index),
    ensures
        is_bound(bindings, name),
        slot_of(bindings, name) == index,
{
    lemma_first_place_is_unique(bindings, name, index, slot_of(bindings, name));
}

/// Where no name occurs twice, the one place that holds a name is its
/// slot, and the flag reads as the value at that place.
pub proof fn lemma_distinct_name_has_one_place(bindings: Bindings, name: Seq<char>, index: int)
    requires
        names_distinct(bindings),
        0 <= index < bindings.len(),
        bindings[index].0 == name,
    ensures
        first_bound_at(bindings, name, index),
        slot_of(bindings, name) == index,
        value_of(bindings, name) == Some(bindings[index].1),
{
    assert forall|earlier: int| 0 <= earlier < index implies (#[trigger] bindings[earlier]).0
        != name by {
        assert(bindings[earlier].0 != bindings[index].0);
    }
    lemma_slot_is_first_place(bindings, name, index);
}

/// A name that no place holds is not bound.
pub proof fn lemma_unheld_name_is_unbound(bindings: Bindings, name: Seq<char>)
    requires
        forall|i: int| 0 <= i < bindings.len() ==> (#[trigger] bindings[i]).0 != name,
    ensures
        !is_bound(bindings, name),
{
    if is_bound(bindings, name) {
        let index = slot_of(bindings, name);
        assert(bindings[index].0 != name);
    }
}

/// After a flag is set it reads as the value written, is held exactly once
/// more than before if it was new, and every other flag reads as before.
pub proof fn lemma_assign_then_read(
    bindings: Bindings,
    name: Seq<char>,
    value: bool,
    other: Seq<char>,
)
    ensures
        value_of(assign(bindings, name, value), name) == Some(value),
        other != name ==> value_of(assign(bindings, name, value), other) == value_of(
            bindings,
            other,
        ),
        assign(bindings, name, value).len() == if is_bound(bindings, name) {
            bindings.len()
        } else {
            bindings.len() + 1
        },
{
    let after = assign(bindings, name, value);
    if is_bound(bindings, name) {
        let slot = slot_of(bindings, name);
        assert forall|earlier: int| 0 <= earlier < slot implies (#[trigger] after[earlier]).0
            != name by {
            assert(bindings[earlier].0 != name);
        }
        lemma_slot_is_first_place(after, name, slot);
    } else {
        let slot = bindings.len() as int;
        assert forall|earlier: int| 0 <= earlier < slot implies (#[trigger] after[earlier]).0
            != name by {
            if bindings[earlier].0 == name {
                lemma_some_place_implies_bound(bindings, name, earlier);
            }
        }
        lemma_slot_is_first_place(after, name, slot);
    }
    if other != name {
        if is_bound(bindings, other) {
            let place = slot_of(bindings, other);
            assert(after[place] == bindings[place]);
            assert forall|earlier: int| 0 <= earlier < place implies (#[trigger] after[earlier]).0
                != other by {
                assert(bindings[earlier].0 != other);
            }
            lemma_slot_is_first_place(after, other, place);
        } else {
            assert forall|i: int| 0 <= i < after.len() implies (#[trigger] after[i]).0
                != other by {
                if i < bindings.len() && bindings[i].0 == other {
                    lemma_some_place_implies_bound(bindings, other, i);
                }
            }
            lemma_unheld_name_is_unbound(after, other);
        }
    }
}

/// A name that some place holds is bound.
pub proof fn lemma_some_place_implies_bound(bindings: Bindings, name: Seq<char>, index: int)
    requires
        0 <= index < bindings.len(),
        bindings[index].0 == name,
    ensures
        is_bound(bindings, name),
    decreases index,
{
    if exists|earlier: int| 0 <= earlier < index && (#[trigger] bindings[earlier]).0 == name {
        let earlier = choose|earlier: int|
            0 <= earlier < index && (#[trigger] bindings[earlier]).0 == name;
        lemma_some_place_implies_bound(bindings, name, earlier);
    } else {
        assert(first_bound_at(bindings, name, index));
    }
}

/// Setting a flag twice to the same value is the same as setting it once.
pub proof fn lemma_assign_is_idempotent(bindings: Bindings, name: Seq<char>, value: bool)
    ensures
        assign(assign(bindings, name, value), name, value) == assign(bindings, name, value),
{
    let once = assign(bindings, name, value);
    lemma_assign_then_read(bindings, name, value, name);
    assert(once.update(slot_of(once, name), (name, value)) =~= once);
}

/// The last write wins: a second write to the same name hides the first.
pub proof fn lemma_last_write_wins(bindings: Bindings, name: Seq<char>, first: bool, second: bool)
    ensures
        assign(assign(bindings, name, first), name, second) == assign(bindings, name, second),
{
    let once = assign(bindings, name, first);
    lemma_assign_then_read(bindings, name, first, name);
    if is_bound(bindings, name) {
        let slot = slot_of(bindings, name);
        assert forall|earlier: int| 0 <= earlier < slot implies (#[trigger] once[earlier]).0
            != name by {
            assert(bindings[earlier].0 != name);
        }
        lemma_slot_is_first_place(once, name, slot);
        assert(once.update(slot, (name, second)) =~= bindings.update(slot, (name, second)));
    } else {
        let slot = bindings.len() as int;
        assert forall|earlier: int| 0 <= earlier < slot implies (#[trigger] once[earlier]).0
            != name by {
            if bindings[earlier].0 == name {
                lemma_some_place_implies_bound(bindings, name, earlier);
            }
        }
        lemma_slot_is_first_place(once, name, slot);
        assert(once.update(slot, (name, second)) =~= bindings.push((name, second)));
    }
}

/// Setting a flag never makes a name occur twice.
pub proof fn lemma_assign_keeps_names_distinct(bindings: Bindings, name: Seq<char>, value: bool)
    requires
        names_distinct(bindings),
    ensures
        names_distinct(assign(bindings, name, value)),
{
    let after = assign(bindings, name, value);
    if is_bound(bindings, name) {
        assert forall|i: int, j: int| 0 <= i < j < after.len() implies (#[trigger] after[i]).0 != (
        #[trigger] after[j]).0 by {
            assert(after[i].0 == bindings[i].0);
            assert(after[j].0 == bindings[j].0);
        }
    } else {
        assert forall|i: int, j: int| 0 <= i < j < after.len() implies (#[trigger] after[i]).0 != (
        #[trigger] after[j]).0 by {
            if j == bindings.len() {
                if bindings[i].0 == name {
                    lemma_some_place_implies_bound(bindings, name, i);
                }
            } else {
                assert(after[i].0 == bindings[i].0);
                assert(after[j].0 == bindings[j].0);
            }
        }
    }
}

} // verus!
