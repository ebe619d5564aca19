//! The inventory store: the deposited items, each under its identifier.

use crate::error::Error;
use crate::types::Item;
use vstd::prelude::*;

verus! {

/// Whether each item stands at the place that its identifier names.
pub open spec fn ids_in_order(items: Seq<Item>) -> bool {
    forall|i: int| 0 <= i < items.len() ==> (#[trigger] items[i]).id == i
}

/// The item that `item` becomes when it is drawn at position `ordinal` of a
/// bundle.
pub open spec fn drawn(item: Item, ordinal: u64) -> Item {
    Item { rarity: ordinal, ..item }
}

/// The deposited items, at most `capacity` of them. Items are never removed.
pub struct Inventory {
    max_items: u64,
    items: Vec<Item>,
}

impl View for Inventory {
    type V = Seq<Item>;

    closed spec fn view(&self) -> Seq<Item> {
        self.items@
    }
}

impl Inventory {
    /// The number of items that the inventory takes at most.
    pub closed spec fn capacity(&self) -> u64 {
        self.max_items
    }

    /// What holds of every inventory: it is within its capacity, and the item
    /// with identifier `i` stands at place `i`.
    pub open spec fn well_formed(&self) -> bool {
        &&& self@.len() <= self.capacity()
        &&& ids_in_order(self@)
    }

    /// An empty inventory for at most `max_items` items.
    pub fn new(max_items: u64) -> (inventory: Inventory)
        ensures
            inventory@ == Seq::<Item>::empty(),
            inventory.capacity() == max_items,
            inventory.well_formed(),
    {
        Inventory { max_items, items: Vec::new() }
    }

    /// The inventory that holds `items` for at most `max_items` items, if
    /// they make a well-formed one.
    pub fn restore(max_items: u64, items: Vec<Item>) -> (inventory: Option<Inventory>)
        ensures
            match inventory {
                Some(inventory) => inventory@ == items@ && inventory.capacity() == max_items
                    && inventory.well_formed(),
                None => !(items@.len() <= max_items && ids_in_order(items@)),
            },
    {
        if items.len() as u64 > max_items {
            return None;
        }
        let mut i: usize = 0;
        while i < items.len()
            invariant
                i <= items@.len(),
                forall|j: int| 0 <= j < i ==> (#[trigger] items@[j]).id == j,
            decreases items@.len() - i,
        {
            if items[i].id != i as u64 {
                return None;
            }
            i = i + 1;
        }
        Some(Inventory { max_items, items })
    }

    /// The number of items that the inventory takes at most.
    pub fn max_items(&self) -> (max_items: u64)
        ensures
            max_items == self.capacity(),
    {
        self.max_items
    }

    /// The number of items deposited so far.
    pub fn len(&self) -> (count: u64)
        ensures
            count == self@.len(),
    {
        self.items.len() as u64
    }

    /// The items, in the order of their identifiers.
    pub fn items(&self) -> (items: &Vec<Item>)
        ensures
            items@ == self@,
    {
        &self.items
    }

    /// Gives up the items, in the order of their identifiers.
    pub fn into_items(self) -> (items: Vec<Item>)
        ensures
            items@ == self@,
    {
        self.items
    }

    /// Appends the asset `token_id` under `name` as a new item that is not
    /// drawn yet, and returns the item's identifier. A full inventory takes
    /// no item and fails with `MaxItemCount`.
    pub fn deposit(&mut self, token_id: u64, name: String) -> (result: Result<u64, Error>)
        requires
            old(self).well_formed(),
        ensures
            final(self).well_formed(),
            final(self).capacity() == old(self).capacity(),
            old(self)@.len() >= old(self).capacity() ==> result == Err::<u64, Error>(
                Error::MaxItemCount,
            ) && final(self)@ == old(self)@,
            old(self)@.len() < old(self).capacity() ==> result == Ok::<u64, Error>(
                old(self)@.len() as u64,
            ) && final(self)@ == old(self)@.push(
                Item { id: old(self)@.len() as u64, rarity: 0, token_id, name },
            ),
    {
        let id: u64 = self.items.len() as u64;
        if id >= self.max_items {
            return Err(Error::MaxItemCount);
        }
        self.items.push(Item { id, rarity: 0, token_id, name });
        Ok(id)
    }

    /// The item under `item_id`, or `ItemNotFound` where nothing was
    /// deposited under it.
    pub fn get(&self, item_id: u64) -> (result: Result<&Item, Error>)
        ensures
            item_id < self@.len() ==> result == Ok::<&Item, Error>(&self@[item_id as int]),
            item_id >= self@.len() ==> result == Err::<&Item, Error>(Error::ItemNotFound),
    {
        if item_id >= self.items.len() as u64 {
            return Err(Error::ItemNotFound);
        }
        Ok(&self.items[item_id as usize])
    }

    /// Marks the item under `item_id` as drawn at position `ordinal` of a
    /// bundle, or fails with `ItemNotFound` where nothing was deposited under
    /// `item_id`. Nothing else of the item changes.
    pub(crate) fn mark_drawn(&mut self, item_id: u64, ordinal: u64) -> (result: Result<(), Error>)
        requires
            old(self).well_formed(),
        ensures
            final(self).well_formed(),
            final(self).capacity() == old(self).capacity(),
            item_id < old(self)@.len() ==> result == Ok::<(), Error>(()) && final(self)@ == old(
                self,
            )@.update(item_id as int, drawn(old(self)@[item_id as int], ordinal)),
            item_id >= old(self)@.len() ==> result == Err::<(), Error>(Error::ItemNotFound)
                && final(self)@ == old(self)@,
    {
        if item_id >= self.items.len() as u64 {
            return Err(Error::ItemNotFound);
        }
        let data = &self.items[item_id as usize];
        let marked = Item {
            id: data.id,
            rarity: ordinal,
            token_id: data.token_id,
            name: data.name.clone(),
        };
        self.items.set(item_id as usize, marked);
        Ok(())
    }
}

} // verus!
