//! The ownership ledger: who won which item.

use crate::types::AccountHash;
use std::collections::HashMap;
use vstd::prelude::*;

verus! {

broadcast use vstd::std_specs::hash::group_hash_axioms;

/// The winners of the drawn items, by item identifier. An entry is written
/// when the item is drawn and read when it is claimed; none is ever removed.
pub struct OwnershipLedger {
    owners: HashMap<u64, AccountHash>,
}

impl View for OwnershipLedger {
    type V = Map<u64, AccountHash>;

    closed spec fn view(&self) -> Map<u64, AccountHash> {
        self.owners@
    }
}

impl OwnershipLedger {
    /// A ledger without entries.
    pub fn new() -> (ledger: OwnershipLedger)
        ensures
            ledger@ == Map::<u64, AccountHash>::empty(),
    {
        OwnershipLedger { owners: HashMap::new() }
    }

    /// A ledger names finitely many items.
    pub proof fn is_finite(&self)
        ensures
            self@.dom().finite(),
    {
    }

    /// The number of items that have an owner.
    pub fn len(&self) -> (count: usize)
        ensures
            count == self@.dom().len(),
    {
        self.owners.len()
    }

    /// The account that won the item `item_id`, if the item was drawn.
    pub fn lookup(&self, item_id: u64) -> (owner: Option<AccountHash>)
        ensures
            owner == (if self@.contains_key(item_id) {
                Some(self@[item_id])
            } else {
                None
            }),
    {
        match self.owners.get(&item_id) {
            Some(account) => Some(*account),
            None => None,
        }
    }

    /// Records `owner` as the winner of the item `item_id`. Whoever was
    /// recorded for the item before is forgotten.
    pub(crate) fn assign(&mut self, item_id: u64, owner: AccountHash)
        ensures
            final(self)@ == old(self)@.insert(item_id, owner),
    {
        self.owners.insert(item_id, owner);
    }
}

} // verus!
