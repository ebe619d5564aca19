//! A lootbox engine: an administrator deposits unique assets into an
//! inventory, buyers purchase bundles drawn from it, and winners later claim
//! the assets they were assigned from the registry that holds them.
//!
//! The engine keeps its whole state in one [`Lootbox`] value. It performs no
//! outside effect itself: where an operation needs the asset registry or a
//! payment purse, it returns a description of the call to make.

pub mod contract;
pub mod error;
pub mod events;
pub mod inventory;
pub mod laws;
pub mod ledger;
pub mod lootbox;
pub mod registry;
pub mod selection;
pub mod text;
pub mod types;

pub use contract::{contract_names, entry_points, CLType, ContractNames, EntryPoint};
pub use error::Error;
pub use events::{emit, LootboxEvent};
pub use inventory::Inventory;
pub use ledger::OwnershipLedger;
pub use lootbox::{
    add_item, approval_query, call, check_admin_account, claim, get_price, get_purse, init,
    purchase, BundleResult, Lootbox, LootboxState, PersistedState, PurseStep,
};
pub use registry::{get_approved, transfer, ArgValue, RegistryCall};
pub use selection::{bytes_to_u64, get_random_item_id};
pub use types::{AccountHash, Item, Key, URef, U512};
