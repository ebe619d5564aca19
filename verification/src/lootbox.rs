//! The engine itself: its state and the operations that change it.
//!
//! Every operation runs to its end before the next one starts, and one that
//! is refused leaves the state exactly as it found it.

use crate::error::Error;
use crate::events::LootboxEvent;
use crate::inventory::{drawn, ids_in_order, Inventory};
use crate::ledger::OwnershipLedger;
use crate::registry::{get_approved, transfer, RegistryCall};
use crate::selection::{get_random_item_id, random_item_id};
use crate::types::{AccountHash, Item, Key, URef, U512};
use vstd::prelude::*;

verus! {

/// The engine's state as the contracts speak of it.
///
/// `items` is the inventory: the item with identifier `i` stands at place
/// `i`. `item_owners` is the ownership ledger: it maps the identifier of each
/// drawn item to the account that won it.
#[verifier::ext_equal]
pub struct LootboxState {
    pub owner: AccountHash,
    pub name: Seq<char>,
    pub description: Seq<char>,
    pub asset: Seq<char>,
    pub nft_collection: Key,
    pub lootbox_price: U512,
    pub items_per_lootbox: u64,
    pub max_lootboxes: u64,
    pub lootbox_count: u64,
    pub max_items: u64,
    pub item_count: u64,
    pub initialized: bool,
    pub items: Seq<Item>,
    pub item_owners: Map<u64, AccountHash>,
    pub purse: Option<URef>,
}

/// What a successful purchase hands back: how many items the bundle got, the
/// two counters as the purchase left them, and the event to report.
#[derive(Clone, Copy, Debug, PartialEq, Eq)]
pub struct BundleResult {
    pub assigned: u64,
    pub lootbox_count: u64,
    pub item_count: u64,
    pub event: LootboxEvent,
}

/// What to do about the payment purse.
#[derive(Clone, Copy, Debug, PartialEq, Eq)]
pub enum PurseStep {
    /// The engine holds no purse: create one and offer it.
    Create,
    /// The engine's purse, with the right to add to it only.
    Ready(URef),
}

impl LootboxState {
    /// The number of items deposited so far.
    pub open spec fn deposited_item_count(self) -> nat {
        self.items.len()
    }

    /// What holds of every state that the engine can reach.
    pub open spec fn well_formed(self) -> bool {
        &&& self.items.len() <= self.max_items
        &&& self.item_count <= self.max_items
        &&& self.max_lootboxes < u64::MAX
        &&& self.lootbox_count <= self.max_lootboxes + 1
        &&& self.item_owners.dom().finite()
        &&& self.item_owners.dom().len() <= self.item_count
        &&& ids_in_order(self.items)
        &&& forall|id: u64| #[trigger] self.item_owners.contains_key(id) ==> id < self.items.len()
        &&& forall|i: int|
            0 <= i < self.items.len() && !self.item_owners.contains_key(i as u64) ==> (
            #[trigger] self.items[i]).rarity == 0
        &&& !self.initialized ==> self.items.len() == 0 && self.item_count == 0
            && self.lootbox_count == 0
        &&& self.items.len() > 0 ==> self.nft_collection.spec_into_hash() is Some
    }

    /// The state in which a new engine starts, before its stores are set up.
    pub open spec fn configured(
        owner: AccountHash,
        name: Seq<char>,
        description: Seq<char>,
        asset: Seq<char>,
        nft_collection: Key,
        lootbox_price: U512,
        items_per_lootbox: u64,
        max_lootboxes: u64,
        max_items: u64,
    ) -> LootboxState {
        LootboxState {
            owner,
            name,
            description,
            asset,
            nft_collection,
            lootbox_price,
            items_per_lootbox,
            max_lootboxes,
            lootbox_count: 0,
            max_items,
            item_count: 0,
            initialized: false,
            items: Seq::empty(),
            item_owners: Map::empty(),
            purse: None,
        }
    }

    /// The state with its stores set up. Stores that exist stay as they are.
    pub open spec fn after_init(self) -> LootboxState {
        LootboxState { initialized: true, ..self }
    }

    /// Why a deposit by `caller` is refused before the registry is asked, if
    /// it is: the caller is not the administrator, the inventory is full, or
    /// the configuration cannot be used (the stores were never set up, or the
    /// registry is not known by a contract's hash).
    pub open spec fn deposit_refusal(self, caller: AccountHash) -> Option<Error> {
        if caller != self.owner {
            Some(Error::AdminError)
        } else if self.items.len() >= self.max_items {
            Some(Error::MaxItemCount)
        } else if !self.initialized || self.nft_collection.spec_into_hash() is None {
            Some(Error::FatalError)
        } else {
            None
        }
    }

    /// Why a deposit by `caller` is refused once the registry has answered
    /// `approved`, if it is.
    pub open spec fn add_item_refusal(
        self,
        caller: AccountHash,
        approved: Option<Key>,
    ) -> Option<Error> {
        if self.deposit_refusal(caller) is Some {
            self.deposit_refusal(caller)
        } else if approved is None {
            Some(Error::NotApproved)
        } else {
            None
        }
    }

    /// The state after the asset `token_id` was deposited under `name`: the
    /// new item takes the next identifier and is not drawn yet.
    pub open spec fn after_add_item(self, token_id: u64, name: String) -> LootboxState {
        LootboxState {
            items: self.items.push(
                Item { id: self.items.len() as u64, rarity: 0, token_id, name },
            ),
            ..self
        }
    }

    /// What a claim of the item `item_index` comes to, for an engine that
    /// runs at `contract_address`: the order to hand the item's asset from
    /// the engine to the recorded winner, or the reason why there is none.
    pub open spec fn claim_outcome(
        self,
        item_index: u64,
        contract_address: Key,
    ) -> Result<RegistryCall, Error> {
        if !self.item_owners.contains_key(item_index) {
            Err(Error::ClaimNotFound)
        } else if item_index >= self.items.len() {
            Err(Error::ItemNotFound)
        } else if self.nft_collection.spec_into_hash() is None {
            Err(Error::FatalError)
        } else {
            Ok(
                RegistryCall::Transfer {
                    contract_hash: self.nft_collection.spec_into_hash()->0,
                    sender: contract_address,
                    recipient: Key::Account(self.item_owners[item_index]),
                    token_id: self.items[item_index as int].token_id,
                },
            )
        }
    }

    /// The purse that the engine holds once `created` was offered to it. A
    /// purse that is there stays; a first one is taken.
    pub open spec fn purse_after(self, created: Option<URef>) -> Option<URef> {
        if self.purse is Some {
            self.purse
        } else {
            created
        }
    }

    /// How many items the next purchase assigns: a full bundle, or what is
    /// left of the supply.
    pub open spec fn bundle_size(self) -> nat {
        if self.item_count >= self.max_items {
            0
        } else if self.items_per_lootbox <= self.max_items - self.item_count {
            self.items_per_lootbox as nat
        } else {
            (self.max_items - self.item_count) as nat
        }
    }

    /// Why a purchase at block time `now` is refused, if it is.
    pub open spec fn purchase_refusal(self, now: u64) -> Option<Error> {
        if self.lootbox_count > self.max_lootboxes {
            Some(Error::LootboxLimit)
        } else if !self.initialized {
            Some(Error::FatalError)
        } else if self.bundle_size() > 0 && random_item_id(now, self.max_items)
            >= self.items.len() {
            Some(Error::ItemNotFound)
        } else {
            None
        }
    }

    /// The state after `count` slots of a bundle drew the item `index` for
    /// `caller`: the item carries the position of the last slot, the ledger
    /// names `caller` as its owner, and each slot counts as one drawn item.
    pub open spec fn with_draws(self, caller: AccountHash, index: u64, count: nat) -> LootboxState {
        if count == 0 {
            self
        } else {
            LootboxState {
                items: self.items.update(
                    index as int,
                    drawn(self.items[index as int], (count - 1) as u64),
                ),
                item_owners: self.item_owners.insert(index, caller),
                item_count: (self.item_count + count) as u64,
                ..self
            }
        }
    }

    /// The state after a purchase by `caller` at block time `now` that was
    /// not refused. All slots of one bundle draw the same item, since the
    /// block time does not change within a purchase.
    pub open spec fn after_purchase(self, caller: AccountHash, now: u64) -> LootboxState {
        let drawn = self.with_draws(
            caller,
            random_item_id(now, self.max_items),
            self.bundle_size(),
        );
        LootboxState { lootbox_count: (self.lootbox_count + 1) as u64, ..drawn }
    }

    /// What a purchase by `caller` that was not refused hands back.
    pub open spec fn bundle_result(self, caller: AccountHash) -> BundleResult {
        BundleResult {
            assigned: self.bundle_size() as u64,
            lootbox_count: (self.lootbox_count + 1) as u64,
            item_count: (self.item_count + self.bundle_size()) as u64,
            event: LootboxEvent::Purchase {
                caller,
                lootbox_count: self.lootbox_count,
                item_count: (self.item_count + self.bundle_size()) as u64,
            },
        }
    }
}

/// The engine's state as it lies in storage between two operations: the
/// named values, the items in the order of their identifiers, and beside each
/// item the account that won it, if any.
pub struct PersistedState {
    pub owner: AccountHash,
    pub name: String,
    pub description: String,
    pub asset: String,
    pub nft_collection: Key,
    pub lootbox_price: U512,
    pub items_per_lootbox: u64,
    pub max_lootboxes: u64,
    pub lootbox_count: u64,
    pub max_items: u64,
    pub item_count: u64,
    pub deposited_item_count: u64,
    pub initialized: bool,
    pub items: Vec<Item>,
    pub item_owners: Vec<Option<AccountHash>>,
    pub purse: Option<URef>,
}

/// The ledger that a list of winners stands for: the item at place `id` has
/// the owner that the list names there.
pub open spec fn ledger_of(owners: Seq<Option<AccountHash>>) -> Map<u64, AccountHash> {
    Map::new(
        |id: u64| id < owners.len() && owners[id as int] is Some,
        |id: u64| owners[id as int]->0,
    )
}

impl PersistedState {
    /// The state that the stored values stand for.
    pub open spec fn state(self) -> LootboxState {
        LootboxState {
            owner: self.owner,
            name: self.name@,
            description: self.description@,
            asset: self.asset@,
            nft_collection: self.nft_collection,
            lootbox_price: self.lootbox_price,
            items_per_lootbox: self.items_per_lootbox,
            max_lootboxes: self.max_lootboxes,
            lootbox_count: self.lootbox_count,
            max_items: self.max_items,
            item_count: self.item_count,
            initialized: self.initialized,
            items: self.items@,
            item_owners: ledger_of(self.item_owners@),
            purse: self.purse,
        }
    }

    /// Whether the stored values agree with each other: the count of
    /// deposited items is the number of items, each item has its place in
    /// the list of winners, and the state is well-formed.
    pub open spec fn consistent(self) -> bool {
        &&& self.items@.len() == self.deposited_item_count
        &&& self.item_owners@.len() == self.items@.len()
        &&& self.state().well_formed()
    }
}

/// The engine: configuration, counters, inventory and ownership ledger.
pub struct Lootbox {
    owner: AccountHash,
    name: String,
    description: String,
    asset: String,
    nft_collection: Key,
    lootbox_price: U512,
    items_per_lootbox: u64,
    max_lootboxes: u64,
    lootbox_count: u64,
    item_count: u64,
    initialized: bool,
    inventory: Inventory,
    ledger: OwnershipLedger,
    purse: Option<URef>,
}

impl View for Lootbox {
    type V = LootboxState;

    closed spec fn view(&self) -> LootboxState {
        LootboxState {
            owner: self.owner,
            name: self.name@,
            description: self.description@,
            asset: self.asset@,
            nft_collection: self.nft_collection,
            lootbox_price: self.lootbox_price,
            items_per_lootbox: self.items_per_lootbox,
            max_lootboxes: self.max_lootboxes,
            lootbox_count: self.lootbox_count,
            max_items: self.inventory.capacity(),
            item_count: self.item_count,
            initialized: self.initialized,
            items: self.inventory@,
            item_owners: self.ledger@,
            purse: self.purse,
        }
    }
}

impl Lootbox {
    /// The engine that stored values stand for, or `FatalError` where they do
    /// not agree with each other.
    pub fn restore(persisted: PersistedState) -> (result: Result<Lootbox, Error>)
        ensures
            match result {
                Ok(state) => persisted.consistent() && state@ == persisted.state(),
                Err(error) => error == Error::FatalError && !persisted.consistent(),
            },
    {
        let ghost stored = persisted;
        let PersistedState {
            owner,
            name,
            description,
            asset,
            nft_collection,
            lootbox_price,
            items_per_lootbox,
            max_lootboxes,
            lootbox_count,
            max_items,
            item_count,
            deposited_item_count,
            initialized,
            items,
            item_owners,
            purse,
        } = persisted;
        let count: usize = items.len();
        if count as u64 != deposited_item_count || item_owners.len() != count {
            return Err(Error::FatalError);
        }
        if item_count > max_items || max_lootboxes == u64::MAX || (lootbox_count > max_lootboxes
            && lootbox_count - 1 > max_lootboxes) {
            return Err(Error::FatalError);
        }
        if !initialized && (count > 0 || item_count > 0 || lootbox_count > 0) {
            return Err(Error::FatalError);
        }
        if count > 0 && nft_collection.into_hash().is_none() {
            return Err(Error::FatalError);
        }
        let mut ledger = OwnershipLedger::new();
        let mut i: usize = 0;
        while i < count
            invariant
                i <= count,
                count == items@.len(),
                count == item_owners@.len(),
                stored == persisted,
                stored.items@ == items@,
                stored.item_owners@ == item_owners@,
                ledger@ =~= ledger_of(item_owners@.take(i as int)),
                forall|j: int|
                    0 <= j < i && item_owners@[j] is None ==> (#[trigger] items@[j]).rarity == 0,
            decreases count - i,
        {
            match item_owners[i] {
                Some(account) => {
                    ledger.assign(i as u64, account);
                },
                None => {
                    if items[i].rarity != 0 {
                        proof {
                            assert(!stored.state().item_owners.contains_key(i as u64));
                            assert(stored.state().items[i as int].rarity != 0);
                        }
                        return Err(Error::FatalError);
                    }
                },
            }
            i = i + 1;
        }
        assert(item_owners@.take(count as int) =~= item_owners@);
        if ledger.len() as u64 > item_count {
            return Err(Error::FatalError);
        }
        let inventory = match Inventory::restore(max_items, items) {
            None => {
                return Err(Error::FatalError);
            },
            Some(inventory) => inventory,
        };
        proof {
            ledger.is_finite();
        }
        Ok(
            Lootbox {
                owner,
                name,
                description,
                asset,
                nft_collection,
                lootbox_price,
                items_per_lootbox,
                max_lootboxes,
                lootbox_count,
                item_count,
                initialized,
                inventory,
                ledger,
                purse,
            },
        )
    }

    /// The values to store for the engine.
    pub fn into_persisted(self) -> (persisted: PersistedState)
        requires
            self@.well_formed(),
        ensures
            persisted.consistent(),
            persisted.state() == self@,
    {
        let count: u64 = self.inventory.len();
        let mut item_owners: Vec<Option<AccountHash>> = Vec::new();
        let mut i: u64 = 0;
        while i < count
            invariant
                i <= count,
                count == self@.items.len(),
                item_owners@.len() == i,
                forall|j: int|
                    0 <= j < i ==> #[trigger] item_owners@[j] == (if self@.item_owners.contains_key(
                        j as u64,
                    ) {
                        Some(self@.item_owners[j as u64])
                    } else {
                        None
                    }),
            decreases count - i,
        {
            item_owners.push(self.ledger.lookup(i));
            i = i + 1;
        }
        let ghost state = self@;
        let max_items: u64 = self.inventory.max_items();
        let items = self.inventory.into_items();
        let persisted = PersistedState {
            owner: self.owner,
            name: self.name,
            description: self.description,
            asset: self.asset,
            nft_collection: self.nft_collection,
            lootbox_price: self.lootbox_price,
            items_per_lootbox: self.items_per_lootbox,
            max_lootboxes: self.max_lootboxes,
            lootbox_count: self.lootbox_count,
            max_items,
            item_count: self.item_count,
            deposited_item_count: count,
            initialized: self.initialized,
            items,
            item_owners,
            purse: self.purse,
        };
        proof {
            assert(persisted.state().item_owners =~= state.item_owners) by {
                assert forall|id: u64| state.item_owners.contains_key(id) implies id
                    < persisted.item_owners@.len() by {}
            }
            assert(persisted.state() =~= state);
        }
        persisted
    }

    /// The inventory store.
    pub fn inventory(&self) -> (inventory: &Inventory)
        ensures
            inventory@ == self@.items,
            inventory.capacity() == self@.max_items,
    {
        &self.inventory
    }

    /// The ownership ledger.
    pub fn ledger(&self) -> (ledger: &OwnershipLedger)
        ensures
            ledger@ == self@.item_owners,
    {
        &self.ledger
    }

    /// The administrator.
    pub fn owner(&self) -> (owner: AccountHash)
        ensures
            owner == self@.owner,
    {
        self.owner
    }

    /// The number of lootboxes sold so far.
    pub fn lootbox_count(&self) -> (count: u64)
        ensures
            count == self@.lootbox_count,
    {
        self.lootbox_count
    }

    /// The number of items drawn so far.
    pub fn item_count(&self) -> (count: u64)
        ensures
            count == self@.item_count,
    {
        self.item_count
    }

    /// The number of items deposited so far.
    pub fn deposited_item_count(&self) -> (count: u64)
        ensures
            count == self@.deposited_item_count(),
    {
        self.inventory.len()
    }

    /// The purse that the engine holds, if it holds one.
    pub fn purse(&self) -> (purse: Option<URef>)
        ensures
            purse == self@.purse,
    {
        self.purse
    }
}

/// Sets up the stores of the inventory and of the ownership ledger. Where
/// they exist, nothing changes.
pub fn init(state: &mut Lootbox)
    ensures
        final(state)@ == old(state)@.after_init(),
        old(state)@.well_formed() ==> final(state)@.well_formed(),
{
    state.initialized = true;
}

/// Makes a new engine for the administrator `owner` and sets up its stores:
/// the inventory and the ledger are empty, no lootbox is sold, and there is
/// no purse yet.
pub fn call(
    owner: AccountHash,
    name: String,
    description: String,
    asset: String,
    nft_collection: Key,
    lootbox_price: U512,
    items_per_lootbox: u64,
    max_lootboxes: u64,
    max_items: u64,
) -> (state: Lootbox)
    requires
        max_lootboxes < u64::MAX,
    ensures
        state@ == LootboxState::configured(
            owner,
            name@,
            description@,
            asset@,
            nft_collection,
            lootbox_price,
            items_per_lootbox,
            max_lootboxes,
            max_items,
        ).after_init(),
        state@.well_formed(),
{
    let mut state = Lootbox {
        owner,
        name,
        description,
        asset,
        nft_collection,
        lootbox_price,
        items_per_lootbox,
        max_lootboxes,
        lootbox_count: 0,
        item_count: 0,
        initialized: false,
        inventory: Inventory::new(max_items),
        ledger: OwnershipLedger::new(),
        purse: None,
    };
    proof {
        state.ledger.is_finite();
    }
    init(&mut state);
    state
}

/// Tells whether `caller` is the administrator.
pub fn check_admin_account(state: &Lootbox, caller: &AccountHash) -> (result: Result<(), Error>)
    ensures
        result == (if *caller == state@.owner {
            Ok::<(), Error>(())
        } else {
            Err::<(), Error>(Error::AdminError)
        }),
{
    if *caller == state.owner {
        Ok(())
    } else {
        Err(Error::AdminError)
    }
}

/// The first step of a deposit: decides whether `caller` may deposit at all
/// and, if so, returns the question to put to the registry about the asset
/// `token_id`. The answer goes to [`add_item`].
pub fn approval_query(
    state: &Lootbox,
    caller: AccountHash,
    token_id: u64,
) -> (result: Result<RegistryCall, Error>)
    ensures
        match state@.deposit_refusal(caller) {
            Some(error) => result == Err::<RegistryCall, Error>(error),
            None => result == Ok::<RegistryCall, Error>(
                RegistryCall::GetApproved {
                    contract_hash: state@.nft_collection.spec_into_hash()->0,
                    owner: Key::Account(caller),
                    token_id,
                },
            ),
        },
{
    if check_admin_account(state, &caller).is_err() {
        return Err(Error::AdminError);
    }
    if state.inventory.len() >= state.inventory.max_items() {
        return Err(Error::MaxItemCount);
    }
    if !state.initialized {
        return Err(Error::FatalError);
    }
    match state.nft_collection.into_hash() {
        None => Err(Error::FatalError),
        Some(contract_hash) => Ok(get_approved(contract_hash, Key::Account(caller), token_id)),
    }
}

/// Deposits the asset `token_id` under `item_name`, once the registry has
/// answered `approved` to the question of [`approval_query`].
///
/// The deposit is refused with `AdminError` when `caller` is not the
/// administrator, else with `MaxItemCount` when the inventory holds
/// `max_items` items, else with `FatalError` when the configuration cannot be
/// used, else with `NotApproved` when the registry named nobody. Otherwise
/// the item is appended to the inventory, and the result is the order to move
/// the asset from `caller` to the engine at `contract_address`.
pub fn add_item(
    state: &mut Lootbox,
    caller: AccountHash,
    token_id: u64,
    item_name: String,
    approved: Option<Key>,
    contract_address: Key,
) -> (result: Result<RegistryCall, Error>)
    requires
        old(state)@.well_formed(),
    ensures
        final(state)@.well_formed(),
        match old(state)@.add_item_refusal(caller, approved) {
            Some(error) => result == Err::<RegistryCall, Error>(error) && final(state)@ == old(
                state,
            )@,
            None => result == Ok::<RegistryCall, Error>(
                RegistryCall::Transfer {
                    contract_hash: old(state)@.nft_collection.spec_into_hash()->0,
                    sender: Key::Account(caller),
                    recipient: contract_address,
                    token_id,
                },
            ) && final(state)@ == old(state)@.after_add_item(token_id, item_name),
        },
{
    if check_admin_account(state, &caller).is_err() {
        return Err(Error::AdminError);
    }
    if state.inventory.len() >= state.inventory.max_items() {
        return Err(Error::MaxItemCount);
    }
    if !state.initialized {
        return Err(Error::FatalError);
    }
    let contract_hash = match state.nft_collection.into_hash() {
        None => {
            return Err(Error::FatalError);
        },
        Some(contract_hash) => contract_hash,
    };
    if approved.is_none() {
        return Err(Error::NotApproved);
    }
    let deposited = state.inventory.deposit(token_id, item_name);
    assert(deposited is Ok);
    assert(state@ =~= old(state)@.after_add_item(token_id, item_name));
    Ok(transfer(contract_hash, Key::Account(caller), contract_address, token_id))
}

/// Sells one lootbox to `caller` at block time `now`.
///
/// The purchase is refused with `LootboxLimit` when more lootboxes were sold
/// than `max_lootboxes` (so one more than `max_lootboxes` can be sold), with
/// `FatalError` when the stores were never set up, and with `ItemNotFound`
/// when the draw falls on a place that holds no item. Otherwise each slot of
/// the bundle draws an item for `caller` until the bundle is full or
/// `max_items` items were drawn, and the lootbox is counted, whether or not
/// it got any item.
///
/// The draw does not look at the ledger: an item that was won before goes to
/// `caller`, and the ledger forgets the earlier winner.
pub fn purchase(
    state: &mut Lootbox,
    caller: AccountHash,
    now: u64,
) -> (result: Result<BundleResult, Error>)
    requires
        old(state)@.well_formed(),
    ensures
        final(state)@.well_formed(),
        match old(state)@.purchase_refusal(now) {
            Some(error) => result == Err::<BundleResult, Error>(error) && final(state)@ == old(
                state,
            )@,
            None => result == Ok::<BundleResult, Error>(old(state)@.bundle_result(caller))
                && final(state)@ == old(state)@.after_purchase(caller, now),
        },
{
    let lootbox_count: u64 = state.lootbox_count;
    if lootbox_count > state.max_lootboxes {
        return Err(Error::LootboxLimit);
    }
    if !state.initialized {
        return Err(Error::FatalError);
    }
    let items_per_lootbox: u64 = state.items_per_lootbox;
    let max_items: u64 = state.inventory.max_items();
    let mut i: u64 = 0;
    while i < items_per_lootbox && state.item_count < max_items
        invariant
            items_per_lootbox == old(state)@.items_per_lootbox,
            max_items == old(state)@.max_items,
            old(state)@.well_formed(),
            old(state)@.purchase_refusal(now) != Some(Error::LootboxLimit),
            old(state)@.initialized,
            i <= old(state)@.bundle_size(),
            i < items_per_lootbox && state.item_count < max_items <==> i < old(
                state,
            )@.bundle_size(),
            i > 0 ==> random_item_id(now, max_items) < old(state)@.items.len(),
            state@ == old(state)@.with_draws(caller, random_item_id(now, max_items), i as nat),
            state@.well_formed(),
        decreases items_per_lootbox - i,
    {
        let item_id: u64 = get_random_item_id(now, max_items);
        match state.inventory.mark_drawn(item_id, i) {
            Err(error) => {
                return Err(error);
            },
            Ok(()) => {},
        }
        state.ledger.assign(item_id, caller);
        state.item_count = state.item_count + 1;
        i = i + 1;
        proof {
            let so_far = old(state)@.with_draws(caller, item_id, i as nat);
            assert(state@.items =~= so_far.items);
            assert(state@.item_owners =~= so_far.item_owners);
            assert(state@ =~= so_far);
        }
    }
    state.lootbox_count = lootbox_count + 1;
    let item_count: u64 = state.item_count;
    assert(state@ =~= old(state)@.after_purchase(caller, now));
    Ok(
        BundleResult {
            assigned: i,
            lootbox_count: lootbox_count + 1,
            item_count,
            event: LootboxEvent::Purchase { caller, lootbox_count, item_count },
        },
    )
}

/// Settles the claim of the item `item_index`, for an engine that runs at
/// `contract_address`.
///
/// The claim is refused with `ClaimNotFound` when no winner is recorded for
/// the item, with `ItemNotFound` when the inventory lacks the item (which no
/// well-formed state allows), and with `FatalError` when the registry is not
/// known by a contract's hash. Otherwise the result is the order to move the
/// item's asset from the engine to its winner. The state is not touched: a
/// second claim of the same item gives the same order again.
pub fn claim(
    state: &Lootbox,
    item_index: u64,
    contract_address: Key,
) -> (result: Result<RegistryCall, Error>)
    ensures
        result == state@.claim_outcome(item_index, contract_address),
{
    let to_account = match state.ledger.lookup(item_index) {
        None => {
            return Err(Error::ClaimNotFound);
        },
        Some(account) => account,
    };
    let token_id: u64 = match state.inventory.get(item_index) {
        Err(error) => {
            return Err(error);
        },
        Ok(data) => data.token_id,
    };
    match state.nft_collection.into_hash() {
        None => Err(Error::FatalError),
        Some(contract_hash) => Ok(
            transfer(contract_hash, contract_address, Key::Account(to_account), token_id),
        ),
    }
}

/// The price of one lootbox.
pub fn get_price(state: &Lootbox) -> (price: U512)
    ensures
        price == state@.lootbox_price,
{
    state.lootbox_price
}

/// Hands out the payment purse, which is created once and then kept.
///
/// Where the engine holds a purse, `created` is ignored. Where it holds none,
/// `created` becomes its purse; with no `created` either, the result asks for
/// one. The purse is handed out with the right to add to it only.
pub fn get_purse(state: &mut Lootbox, created: Option<URef>) -> (step: PurseStep)
    ensures
        final(state)@ == (LootboxState {
            purse: old(state)@.purse_after(created),
            ..old(state)@
        }),
        step == (match old(state)@.purse_after(created) {
            Some(purse) => PurseStep::Ready(purse.spec_into_add()),
            None => PurseStep::Create,
        }),
        old(state)@.well_formed() ==> final(state)@.well_formed(),
{
    if state.purse.is_none() {
        state.purse = created;
    }
    match state.purse {
        Some(purse) => PurseStep::Ready(purse.into_add()),
        None => PurseStep::Create,
    }
}

} // verus!
