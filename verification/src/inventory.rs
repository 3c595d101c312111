//! What the player carries: how many of each kind of item.

use vstd::prelude::*;
use bevy::utils::HashMap;

verus! {

/// The items that the player carries, counted by name.
///
/// The counts are kept in a hash map of `bevy::utils`, which the proofs do not
/// look into: what the map holds goes by the name [`inventory_counts`].
#[verifier::external_body]
pub struct Inventory {
    items: HashMap<String, u32>,
}

/// The names entered in an inventory, each with the count entered last.
pub uninterp spec fn inventory_counts(inventory: Inventory) -> Map<Seq<char>, u32>;

/// `HashMap::default` of `bevy::utils`: a map without entries.
#[verifier::external_body]
fn empty_inventory() -> (inventory: Inventory)
    ensures
        inventory_counts(inventory) =~= Map::empty(),
{
    Inventory { items: HashMap::default() }
}

/// `HashMap::get` of `bevy::utils`: the count entered for the name, if there
/// is one. Names are the same when they hold the same characters.
#[verifier::external_body]
fn entered_count(inventory: &Inventory, item: &str) -> (count: Option<u32>)
    ensures
        inventory_counts(*inventory).contains_key(item@) ==> count == Some(
            inventory_counts(*inventory)[item@],
        ),
        !inventory_counts(*inventory).contains_key(item@) ==> count is None,
{
    inventory.items.get(item).copied()
}

/// `HashMap::insert` of `bevy::utils`: enters the count for the name, in place
/// of the count that was entered for it before, and leaves every other entry
/// as it is.
#[verifier::external_body]
fn enter_count(inventory: &mut Inventory, item: &str, count: u32)
    ensures
        inventory_counts(*final(inventory)) == inventory_counts(*old(inventory)).insert(
            item@,
            count,
        ),
{
    inventory.items.insert(item.to_string(), count);
}

/// `HashMap::len` of `bevy::utils`: how many names are entered.
#[verifier::external_body]
fn entered_names(inventory: &Inventory) -> (names: usize)
    ensures
        names == inventory_counts(*inventory).len(),
{
    inventory.items.len()
}

impl View for Inventory {
    type V = Map<Seq<char>, u32>;

    open spec fn view(&self) -> Map<Seq<char>, u32> {
        inventory_counts(*self)
    }
}

impl Default for Inventory {
    fn default() -> (inventory: Inventory)
        ensures
            inventory@ == Map::<Seq<char>, u32>::empty(),
    {
        empty_inventory()
    }
}

impl Inventory {
    /// How many items of the name the inventory holds: the count entered for
    /// the name, and none where no count is entered.
    pub open spec fn count_of(&self, item: Seq<char>) -> u32 {
        if self@.contains_key(item) {
            self@[item]
        } else {
            0
        }
    }

    /// How many names have a count entered, a count of zero too.
    pub fn len(&self) -> (names: usize)
        ensures
            names == self@.len(),
    {
        entered_names(self)
    }

    /// Adds one item of the name.
    pub fn add_item(&mut self, item: &str)
        requires
            old(self).count_of(item@) < u32::MAX,
        ensures
            final(self)@ == old(self)@.insert(item@, (old(self).count_of(item@) + 1) as u32),
    {
        self.add_item_stack(item, 1);
    }

    /// Adds `stack_size` items of the name.
    pub fn add_item_stack(&mut self, item: &str, stack_size: u32)
        requires
            old(self).count_of(item@) + stack_size <= u32::MAX,
        ensures
            final(self)@ == old(self)@.insert(
                item@,
                (old(self).count_of(item@) + stack_size) as u32,
            ),
    {
        let count: u32 = self.get_item_count(item);
        enter_count(self, item, count + stack_size);
    }

    /// Adds `stack_size` items of the name, unless the count would pass the
    /// greatest number: then the inventory stays as it is, and the result is
    /// `false`.
    pub fn try_add_item_stack(&mut self, item: &str, stack_size: u32) -> (added: bool)
        ensures
            added == (old(self).count_of(item@) + stack_size <= u32::MAX),
            added ==> final(self)@ == old(self)@.insert(
                item@,
                (old(self).count_of(item@) + stack_size) as u32,
            ),
            !added ==> final(self)@ == old(self)@,
    {
        let count: u32 = self.get_item_count(item);
        if stack_size <= u32::MAX - count {
            self.add_item_stack(item, stack_size);
            true
        } else {
            false
        }
    }

    /// Takes `stack_size` items of the name away, unless the inventory holds
    /// some and fewer than that: then it stays as it is, and the result is
    /// `false`. Where the inventory holds none, nothing is taken and the
    /// result is `true`.
    pub fn try_remove_item_stack(&mut self, item: &str, stack_size: u32) -> (done: bool)
        ensures
            done == (old(self).count_of(item@) > 0 ==> stack_size <= old(self).count_of(item@)),
            done && old(self).count_of(item@) > 0 ==> final(self)@ == old(self)@.insert(
                item@,
                (old(self).count_of(item@) - stack_size) as u32,
            ),
            !done || old(self).count_of(item@) == 0 ==> final(self)@ == old(self)@,
    {
        let count: u32 = self.get_item_count(item);
        if count == 0 || stack_size <= count {
            self.remove_item_stack(item, stack_size);
            true
        } else {
            false
        }
    }

    /// Takes one item of the name away, if the inventory holds any.
    pub fn remove_item(&mut self, item: &str)
        ensures
            final(self)@ == if old(self).count_of(item@) > 0 {
                old(self)@.insert(item@, (old(self).count_of(item@) - 1) as u32)
            } else {
                old(self)@
            },
    {
        self.remove_item_stack(item, 1);
    }

    /// Takes `stack_size` items of the name away, if the inventory holds any.
    /// It must then hold at least `stack_size`.
    pub fn remove_item_stack(&mut self, item: &str, stack_size: u32)
        requires
            old(self).count_of(item@) > 0 ==> stack_size <= old(self).count_of(item@),
        ensures
            final(self)@ == if old(self).count_of(item@) > 0 {
                old(self)@.insert(item@, (old(self).count_of(item@) - stack_size) as u32)
            } else {
                old(self)@
            },
    {
        let count: u32 = self.get_item_count(item);
        if count > 0 {
            enter_count(self, item, count - stack_size);
        }
    }

    /// How many items of the name the inventory holds.
    pub fn get_item_count(&self, item: &str) -> (count: u32)
        ensures
            count == self.count_of(item@),
    {
        match entered_count(self, item) {
            Some(count) => count,
            None => 0,
        }
    }
}

} // verus!
