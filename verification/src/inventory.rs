//! The items that the player holds.

use vstd::multiset::Multiset;
use vstd::prelude::*;

verus! {

/// The identifier of an item kind.
#[derive(Clone, Copy, Debug, PartialEq, Eq, Structural, Hash)]
pub struct Item {
    pub id: u32,
}

/// What the player holds: a multiset of items. Adding an item that is
/// already held makes one more of it.
#[derive(Debug)]
pub struct Inventory {
    items: Vec<Item>,
}

impl View for Inventory {
    type V = Multiset<Item>;

    closed spec fn view(&self) -> Multiset<Item> {
        self.items@.to_multiset()
    }
}

impl Inventory {
    /// An inventory that holds nothing.
    pub fn new() -> (result: Inventory)
        ensures
            result@ == Multiset::<Item>::empty(),
    {
        let result = Inventory { items: Vec::new() };
        proof {
            result.items@.to_multiset_ensures();
            assert(result@ =~= Multiset::<Item>::empty());
        }
        result
    }

    /// Records one more unit of `item`.
    pub fn add(&mut self, item: Item)
        ensures
            final(self)@ == old(self)@.insert(item),
    {
        proof {
            vstd::seq_lib::to_multiset_build(self.items@, item);
        }
        self.items.push(item);
    }

    /// How many units of `item` are held.
    pub fn count(&self, item: Item) -> (result: usize)
        ensures
            result == self@.count(item),
    {
        let mut held: usize = 0;
        let mut i: usize = 0;
        proof {
            assert(self.items@.take(0) =~= Seq::<Item>::empty());
            Seq::<Item>::empty().to_multiset_ensures();
        }
        while i < self.items.len()
            invariant
                i <= self.items.len(),
                held <= i,
                held == self.items@.take(i as int).to_multiset().count(item),
            decreases self.items.len() - i,
        {
            proof {
                let seen = self.items@.take(i as int);
                assert(self.items@.take(i + 1) =~= seen.push(self.items@[i as int]));
                vstd::seq_lib::to_multiset_build(seen, self.items@[i as int]);
            }
            if self.items[i].id == item.id {
                held = held + 1;
            }
            i = i + 1;
        }
        proof {
            assert(self.items@.take(i as int) =~= self.items@);
        }
        held
    }

    /// Whether at least one unit of `item` is held.
    pub fn contains(&self, item: Item) -> (result: bool)
        ensures
            result == self@.contains(item),
    {
        self.count(item) > 0
    }

    /// How many units of all items together are held.
    pub fn len(&self) -> (result: usize)
        ensures
            result == self@.len(),
    {
        proof {
            self.items@.to_multiset_ensures();
        }
        self.items.len()
    }

    /// Whether nothing is held.
    pub fn is_empty(&self) -> (result: bool)
        ensures
            result == (self@ == Multiset::<Item>::empty()),
    {
        proof {
            self.items@.to_multiset_ensures();
            if self.items@.len() == 0 {
                assert(self@ =~= Multiset::<Item>::empty());
            }
        }
        self.items.len() == 0
    }
}

impl Default for Inventory {
    /// An inventory that holds nothing.
    fn default() -> (result: Inventory)
        ensures
            result@ == Multiset::<Item>::empty(),
    {
        Inventory::new()
    }
}

/// Adding an item raises its count by one and leaves every other count as
/// it was: holdings add up and are never merged.
pub proof fn lemma_add_is_cumulative(held: Multiset<Item>, item: Item, other: Item)
    ensures
        held.insert(item).count(item) == held.count(item) + 1,
        other != item ==> held.insert(item).count(other) == held.count(other),
        held.insert(item).len() == held.len() + 1,
{
}

} // verus!
