//! What holds of the engine whatever is asked of it, stated over histories
//! of operations and proved.

use crate::error::Error;
use crate::lootbox::LootboxState;
use crate::registry::RegistryCall;
use crate::selection::{random_item_id, random_item_id_in_range};
use crate::types::{AccountHash, Key, URef};
use vstd::prelude::*;

verus! {

/// One request to the engine, with everything that the request brings along.
pub enum Operation {
    Init,
    AddItem { caller: AccountHash, token_id: u64, item_name: String, approved: Option<Key> },
    Purchase { caller: AccountHash, now: u64 },
    Claim { item_index: u64, contract_address: Key },
    GetPurse { created: Option<URef> },
}

/// The state in which an operation leaves the engine. A refused operation
/// leaves it as it was.
pub open spec fn step(state: LootboxState, op: Operation) -> LootboxState {
    match op {
        Operation::Init => state.after_init(),
        Operation::AddItem { caller, token_id, item_name, approved } => {
            if state.add_item_refusal(caller, approved) is None {
                state.after_add_item(token_id, item_name)
            } else {
                state
            }
        },
        Operation::Purchase { caller, now } => {
            if state.purchase_refusal(now) is None {
                state.after_purchase(caller, now)
            } else {
                state
            }
        },
        Operation::Claim { .. } => state,
        Operation::GetPurse { created } => LootboxState {
            purse: state.purse_after(created),
            ..state
        },
    }
}

/// The state after a history of operations, the first one first.
pub open spec fn run(state: LootboxState, ops: Seq<Operation>) -> LootboxState
    decreases ops.len(),
{
    if ops.len() == 0 {
        state
    } else {
        step(run(state, ops.drop_last()), ops.last())
    }
}

/// Whether `op`, asked of `state`, draws the item `item_index`.
pub open spec fn draws(state: LootboxState, op: Operation, item_index: u64) -> bool {
    match op {
        Operation::Purchase { caller, now } => {
            &&& state.purchase_refusal(now) is None
            &&& state.bundle_size() > 0
            &&& random_item_id(now, state.max_items) == item_index
        },
        _ => false,
    }
}

/// Whether no operation of the history `ops`, run from `state`, draws the item
/// `item_index`.
pub open spec fn never_drawn(state: LootboxState, ops: Seq<Operation>, item_index: u64) -> bool {
    forall|k: int|
        0 <= k < ops.len() ==> !draws(#[trigger] run(state, ops.take(k)), ops[k], item_index)
}

/// A new engine is well-formed.
pub proof fn new_engine_is_well_formed(
    owner: AccountHash,
    name: Seq<char>,
    description: Seq<char>,
    asset: Seq<char>,
    nft_collection: Key,
    lootbox_price: crate::types::U512,
    items_per_lootbox: u64,
    max_lootboxes: u64,
    max_items: u64,
)
    requires
        max_lootboxes < u64::MAX,
    ensures
        LootboxState::configured(
            owner,
            name,
            description,
            asset,
            nft_collection,
            lootbox_price,
            items_per_lootbox,
            max_lootboxes,
            max_items,
        ).well_formed(),
{
}

/// No operation leads out of the well-formed states: the inventory and the
/// number of drawn items stay within `max_items`, the number of lootboxes
/// sold within one more than `max_lootboxes`, and the ledger names owners of
/// deposited items only.
pub proof fn step_keeps_well_formed(state: LootboxState, op: Operation)
    requires
        state.well_formed(),
    ensures
        step(state, op).well_formed(),
{
    match op {
        Operation::Purchase { caller, now } => {
            if state.purchase_refusal(now) is None {
                purchase_counts(state, caller, now);
            }
        },
        Operation::AddItem { caller, token_id, item_name, approved } => {
            if state.add_item_refusal(caller, approved) is None {
                deposit_counts_one(state, caller, token_id, item_name, approved);
            }
        },
        _ => {},
    }
}

/// Every state that a history of operations reaches from a well-formed state
/// is well-formed.
pub proof fn run_keeps_well_formed(state: LootboxState, ops: Seq<Operation>)
    requires
        state.well_formed(),
    ensures
        run(state, ops).well_formed(),
    decreases ops.len(),
{
    if ops.len() > 0 {
        run_keeps_well_formed(state, ops.drop_last());
        step_keeps_well_formed(run(state, ops.drop_last()), ops.last());
    }
}

/// The configuration never changes, no counter ever goes down, and no item
/// leaves the inventory.
pub proof fn step_is_monotonic(state: LootboxState, op: Operation)
    requires
        state.well_formed(),
    ensures
        step(state, op).owner == state.owner,
        step(state, op).name == state.name,
        step(state, op).description == state.description,
        step(state, op).asset == state.asset,
        step(state, op).nft_collection == state.nft_collection,
        step(state, op).lootbox_price == state.lootbox_price,
        step(state, op).items_per_lootbox == state.items_per_lootbox,
        step(state, op).max_lootboxes == state.max_lootboxes,
        step(state, op).max_items == state.max_items,
        step(state, op).deposited_item_count() >= state.deposited_item_count(),
        step(state, op).lootbox_count >= state.lootbox_count,
        step(state, op).item_count >= state.item_count,
        state.purse is Some ==> step(state, op).purse == state.purse,
{
}

/// Over a whole history the configuration stays as it was, no counter goes
/// down, and no item leaves the inventory.
pub proof fn run_is_monotonic(state: LootboxState, ops: Seq<Operation>)
    requires
        state.well_formed(),
    ensures
        run(state, ops).owner == state.owner,
        run(state, ops).nft_collection == state.nft_collection,
        run(state, ops).lootbox_price == state.lootbox_price,
        run(state, ops).items_per_lootbox == state.items_per_lootbox,
        run(state, ops).max_lootboxes == state.max_lootboxes,
        run(state, ops).max_items == state.max_items,
        run(state, ops).deposited_item_count() >= state.deposited_item_count(),
        run(state, ops).lootbox_count >= state.lootbox_count,
        run(state, ops).item_count >= state.item_count,
    decreases ops.len(),
{
    if ops.len() > 0 {
        run_is_monotonic(state, ops.drop_last());
        run_keeps_well_formed(state, ops.drop_last());
        step_is_monotonic(run(state, ops.drop_last()), ops.last());
    }
}

/// A deposit that is accepted adds exactly one item to the inventory, and the
/// inventory never holds more than `max_items` items.
pub proof fn deposit_counts_one(
    state: LootboxState,
    caller: AccountHash,
    token_id: u64,
    item_name: String,
    approved: Option<Key>,
)
    requires
        state.well_formed(),
        state.add_item_refusal(caller, approved) is None,
    ensures
        state.after_add_item(token_id, item_name).deposited_item_count()
            == state.deposited_item_count() + 1,
        state.after_add_item(token_id, item_name).deposited_item_count() <= state.max_items,
        state.after_add_item(token_id, item_name).well_formed(),
{
}

/// A deposit into a full inventory is refused with `MaxItemCount` whenever
/// the administrator asks for it, whatever the registry answered, and a
/// refused deposit changes nothing.
pub proof fn full_inventory_refuses_deposit(
    state: LootboxState,
    token_id: u64,
    item_name: String,
    approved: Option<Key>,
)
    requires
        state.deposited_item_count() >= state.max_items,
    ensures
        state.add_item_refusal(state.owner, approved) == Some(Error::MaxItemCount),
        step(
            state,
            Operation::AddItem { caller: state.owner, token_id, item_name, approved },
        ) == state,
{
}

/// A purchase that is accepted counts one lootbox more, draws at most
/// `items_per_lootbox` items, and never brings the number of drawn items
/// above `max_items`.
pub proof fn purchase_counts(state: LootboxState, caller: AccountHash, now: u64)
    requires
        state.well_formed(),
        state.purchase_refusal(now) is None,
    ensures
        state.after_purchase(caller, now).lootbox_count == state.lootbox_count + 1,
        state.after_purchase(caller, now).item_count == state.item_count + state.bundle_size(),
        state.bundle_size() <= state.items_per_lootbox,
        state.after_purchase(caller, now).item_count <= state.max_items,
        state.after_purchase(caller, now).well_formed(),
{
    let after = state.after_purchase(caller, now);
    if state.bundle_size() > 0 {
        let index = random_item_id(now, state.max_items);
        assert(after.item_owners.dom() =~= state.item_owners.dom().insert(index));
        assert forall|id: u64| #[trigger] after.item_owners.contains_key(id) implies id
            < after.items.len() by {
            if id != index {
                assert(state.item_owners.contains_key(id));
            }
        }
        assert forall|i: int|
            0 <= i < after.items.len() && !after.item_owners.contains_key(i as u64) implies (
        #[trigger] after.items[i]).rarity == 0 by {
            assert(!state.item_owners.contains_key(i as u64));
            assert(state.items[i].rarity == 0);
        }
    }
}

/// A purchase is still accepted when exactly `max_lootboxes` lootboxes were
/// sold, and refused with `LootboxLimit` once more than that were.
pub proof fn lootbox_limit_is_inclusive(state: LootboxState, now: u64)
    requires
        state.well_formed(),
    ensures
        state.lootbox_count <= state.max_lootboxes ==> state.purchase_refusal(now) != Some(
            Error::LootboxLimit,
        ),
        state.lootbox_count > state.max_lootboxes ==> state.purchase_refusal(now) == Some(
            Error::LootboxLimit,
        ),
        state.initialized && state.lootbox_count == state.max_lootboxes
            && state.deposited_item_count() == state.max_items ==> state.purchase_refusal(now)
            is None,
{
    if state.max_items > 0 {
        random_item_id_in_range(now, state.max_items);
    }
}

/// Only a draw gives an item an owner: an operation that does not draw the
/// item leaves its entry in the ledger, or its absence, as it was.
pub proof fn only_draws_assign_owners(state: LootboxState, op: Operation, item_index: u64)
    requires
        !draws(state, op, item_index),
    ensures
        step(state, op).item_owners.contains_key(item_index) == state.item_owners.contains_key(
            item_index,
        ),
        state.item_owners.contains_key(item_index) ==> step(state, op).item_owners[item_index]
            == state.item_owners[item_index],
{
}

/// The claim of an item that no winner is recorded for is refused with
/// `ClaimNotFound`.
pub proof fn unowned_item_has_no_claim(state: LootboxState, item_index: u64, contract_address: Key)
    requires
        !state.item_owners.contains_key(item_index),
    ensures
        state.claim_outcome(item_index, contract_address) == Err::<RegistryCall, Error>(
            Error::ClaimNotFound,
        ),
{
}

/// The claim of an item that was never drawn is refused with `ClaimNotFound`:
/// whatever history led from a state without an owner for the item to the
/// present one, if none of its operations drew the item, then there is
/// nothing to claim.
pub proof fn never_drawn_item_has_no_claim(
    state: LootboxState,
    ops: Seq<Operation>,
    item_index: u64,
    contract_address: Key,
)
    requires
        !state.item_owners.contains_key(item_index),
        never_drawn(state, ops, item_index),
    ensures
        !run(state, ops).item_owners.contains_key(item_index),
        run(state, ops).claim_outcome(item_index, contract_address) == Err::<RegistryCall, Error>(
            Error::ClaimNotFound,
        ),
    decreases ops.len(),
{
    if ops.len() > 0 {
        let before = ops.drop_last();
        assert forall|k: int| 0 <= k < before.len() implies !draws(
            #[trigger] run(state, before.take(k)),
            before[k],
            item_index,
        ) by {
            assert(before.take(k) =~= ops.take(k));
            assert(!draws(run(state, ops.take(k)), ops[k], item_index));
        }
        never_drawn_item_has_no_claim(state, before, item_index, contract_address);
        let last = ops.len() - 1;
        assert(ops.take(last) =~= before);
        assert(!draws(run(state, ops.take(last)), ops[last], item_index));
        only_draws_assign_owners(run(state, before), ops.last(), item_index);
    }
}

/// Once a purchase has drawn an item for `caller`, the claim of that item
/// comes to one order to the registry: to move the asset that was deposited
/// under the item from the engine to `caller`.
pub proof fn drawn_item_goes_to_its_winner(
    state: LootboxState,
    caller: AccountHash,
    now: u64,
    contract_address: Key,
)
    requires
        state.well_formed(),
        state.purchase_refusal(now) is None,
        state.bundle_size() > 0,
    ensures
        ({
            let item_index = random_item_id(now, state.max_items);
            state.after_purchase(caller, now).claim_outcome(item_index, contract_address) == Ok::<
                RegistryCall,
                Error,
            >(
                RegistryCall::Transfer {
                    contract_hash: state.nft_collection.spec_into_hash()->0,
                    sender: contract_address,
                    recipient: Key::Account(caller),
                    token_id: state.items[item_index as int].token_id,
                },
            )
        }),
        state.nft_collection.spec_into_hash() is Some,
{
}

/// A claim changes nothing, so the claim that follows it comes to the same
/// order or the same refusal: the engine does not keep a winner from claiming
/// again.
pub proof fn claim_can_be_repeated(
    state: LootboxState,
    item_index: u64,
    contract_address: Key,
    again: Key,
)
    ensures
        step(state, Operation::Claim { item_index, contract_address }) == state,
        step(state, Operation::Claim { item_index, contract_address }).claim_outcome(
            item_index,
            again,
        ) == state.claim_outcome(item_index, again),
{
}

/// In a well-formed state every recorded winner can claim: the item is in the
/// inventory and the registry is known.
pub proof fn recorded_winner_can_claim(state: LootboxState, item_index: u64, contract_address: Key)
    requires
        state.well_formed(),
        state.item_owners.contains_key(item_index),
    ensures
        state.claim_outcome(item_index, contract_address) is Ok,
{
}

/// Two errors never share a code.
pub proof fn error_codes_are_distinct(first: Error, second: Error)
    ensures
        first.spec_code() == second.spec_code() ==> first == second,
{
}

} // verus!
