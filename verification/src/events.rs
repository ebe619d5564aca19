//! What the engine reports of a purchase. Events are a side channel: nothing
//! in the engine reads them back.

use crate::text::{decimal_string, decimal_text, hex_string, hex_text};
use crate::types::AccountHash;
use vstd::prelude::*;

verus! {

/// Something that happened in the engine.
#[derive(Clone, Copy, Debug, PartialEq, Eq)]
pub enum LootboxEvent {
    /// `caller` bought a lootbox. `lootbox_count` is the number of lootboxes
    /// sold before this one, `item_count` the number of items drawn so far,
    /// this lootbox included.
    Purchase { caller: AccountHash, lootbox_count: u64, item_count: u64 },
}

/// What a record holds, as text.
pub open spec fn record_text(record: Seq<(&'static str, String)>) -> Seq<(Seq<char>, Seq<char>)> {
    Seq::new(record.len(), |i: int| (record[i].0@, record[i].1@))
}

/// The record that stands for an event raised by the contract package
/// `contract_package_hash`: its fields in the order of their names, hashes in
/// hexadecimal and counts in decimal.
pub open spec fn event_record(
    event: LootboxEvent,
    contract_package_hash: [u8; 32],
) -> Seq<(Seq<char>, Seq<char>)> {
    match event {
        LootboxEvent::Purchase { caller, lootbox_count, item_count } => seq![
            ("caller"@, hex_text(caller.value@)),
            ("contract_package_hash"@, hex_text(contract_package_hash@)),
            ("event_type"@, "purchase"@),
            ("item_count"@, decimal_text(item_count as nat)),
            ("lootbox_count"@, decimal_text(lootbox_count as nat)),
        ],
    }
}

/// Writes an event out as the record that the host stores for it.
pub fn emit(
    event: &LootboxEvent,
    contract_package_hash: &[u8; 32],
) -> (record: Vec<(&'static str, String)>)
    ensures
        record_text(record@) == event_record(*event, *contract_package_hash),
{
    let mut record: Vec<(&'static str, String)> = Vec::new();
    match event {
        LootboxEvent::Purchase { caller, lootbox_count, item_count } => {
            record.push(("caller", hex_string(caller.value.as_slice())));
            record.push(("contract_package_hash", hex_string(contract_package_hash.as_slice())));
            record.push(("event_type", "purchase".to_owned()));
            record.push(("item_count", decimal_string(*item_count)));
            record.push(("lootbox_count", decimal_string(*lootbox_count)));
        },
    }
    assert(record_text(record@) =~= event_record(*event, *contract_package_hash));
    record
}

} // verus!
