//! The face that the engine shows its host: the names under which its state
//! is stored, the entry points that it offers, and the names under which a
//! new instance is registered.

use crate::text::{decimal_string, decimal_text};
use vstd::prelude::*;
use vstd::string::StringExecFns;

verus! {

pub const OWNER: &'static str = "owner";

pub const NAME: &'static str = "name";

pub const DESCRIPTION: &'static str = "description";

pub const ASSET: &'static str = "asset";

pub const LOOTBOX_PRICE: &'static str = "lootbox_price";

pub const ITEMS_PER_LOOTBOX: &'static str = "items_per_lootbox";

pub const MAX_LOOTBOXES: &'static str = "max_lootboxes";

pub const LOOTBOX_COUNT: &'static str = "lootbox_count";

pub const MAX_ITEMS: &'static str = "max_items";

pub const ITEM_COUNT: &'static str = "item_count";

pub const ITEMS: &'static str = "items";

pub const ITEM_OWNERS: &'static str = "item_owners";

pub const NFT_COLLECTION: &'static str = "nft_collection";

pub const TOKEN_ID: &'static str = "token_id";

pub const ITEM_NAME: &'static str = "item_name";

pub const DEPOSITED_ITEM_COUNT: &'static str = "deposited_item_count";

pub const ITEM_INDEX: &'static str = "item_index";

pub const PURSE: &'static str = "purse";

/// The type of a value that crosses the engine's boundary.
#[derive(Clone, Copy, Debug, PartialEq, Eq)]
pub enum CLType {
    U64,
    U512,
    Text,
    URef,
}

/// Who may call an entry point.
#[derive(Clone, Copy, Debug, PartialEq, Eq)]
pub enum EntryPointAccess {
    Public,
    Restricted,
}

/// In whose context an entry point runs.
#[derive(Clone, Copy, Debug, PartialEq, Eq)]
pub enum EntryPointType {
    Session,
    Contract,
}

/// One operation that the engine offers: its name, its named arguments, and
/// the type of what it returns.
#[derive(Clone, Debug, PartialEq, Eq)]
pub struct EntryPoint {
    pub name: &'static str,
    pub args: Vec<(&'static str, CLType)>,
    pub ret: CLType,
    pub access: EntryPointAccess,
    pub entry_point_type: EntryPointType,
}

/// An entry point with its names taken as text.
pub struct EntryPointView {
    pub name: Seq<char>,
    pub args: Seq<(Seq<char>, CLType)>,
    pub ret: CLType,
    pub access: EntryPointAccess,
    pub entry_point_type: EntryPointType,
}

impl View for EntryPoint {
    type V = EntryPointView;

    open spec fn view(&self) -> EntryPointView {
        EntryPointView {
            name: self.name@,
            args: Seq::new(self.args@.len(), |i: int| (self.args@[i].0@, self.args@[i].1)),
            ret: self.ret,
            access: self.access,
            entry_point_type: self.entry_point_type,
        }
    }
}

/// An entry point that everyone may call and that runs in the engine's own
/// context, as all of the engine's do.
pub open spec fn open_entry_point(
    name: Seq<char>,
    args: Seq<(Seq<char>, CLType)>,
    ret: CLType,
) -> EntryPointView {
    EntryPointView {
        name,
        args,
        ret,
        access: EntryPointAccess::Public,
        entry_point_type: EntryPointType::Contract,
    }
}

/// The operations that the engine offers.
pub open spec fn entry_point_table() -> Seq<EntryPointView> {
    seq![
        open_entry_point(
            "add_item"@,
            seq![("item_name"@, CLType::Text), ("token_id"@, CLType::U64)],
            CLType::URef,
        ),
        open_entry_point("init"@, Seq::empty(), CLType::URef),
        open_entry_point("purchase"@, Seq::empty(), CLType::URef),
        open_entry_point("claim"@, seq![("item_index"@, CLType::U64)], CLType::URef),
        open_entry_point("get_price"@, Seq::empty(), CLType::U512),
        open_entry_point("get_purse"@, Seq::empty(), CLType::URef),
    ]
}

fn entry_point(
    name: &'static str,
    args: Vec<(&'static str, CLType)>,
    ret: CLType,
) -> (entry: EntryPoint)
    ensures
        entry@ == open_entry_point(
            name@,
            Seq::new(args@.len(), |i: int| (args@[i].0@, args@[i].1)),
            ret,
        ),
{
    EntryPoint {
        name,
        args,
        ret,
        access: EntryPointAccess::Public,
        entry_point_type: EntryPointType::Contract,
    }
}

/// Lists the operations that the engine offers.
pub fn entry_points() -> (table: Vec<EntryPoint>)
    ensures
        table@.len() == entry_point_table().len(),
        forall|i: int| 0 <= i < table@.len() ==> (#[trigger] table@[i])@ == entry_point_table()[i],
{
    let mut add_item_args: Vec<(&'static str, CLType)> = Vec::new();
    add_item_args.push((ITEM_NAME, CLType::Text));
    add_item_args.push((TOKEN_ID, CLType::U64));
    let mut claim_args: Vec<(&'static str, CLType)> = Vec::new();
    claim_args.push((ITEM_INDEX, CLType::U64));
    let mut table: Vec<EntryPoint> = Vec::new();
    table.push(entry_point("add_item", add_item_args, CLType::URef));
    table.push(entry_point("init", Vec::new(), CLType::URef));
    table.push(entry_point("purchase", Vec::new(), CLType::URef));
    table.push(entry_point("claim", claim_args, CLType::URef));
    table.push(entry_point("get_price", Vec::new(), CLType::U512));
    table.push(entry_point("get_purse", Vec::new(), CLType::URef));
    proof {
        assert(table@[0]@.args =~= entry_point_table()[0].args);
        assert(table@[1]@.args =~= entry_point_table()[1].args);
        assert(table@[2]@.args =~= entry_point_table()[2].args);
        assert(table@[3]@.args =~= entry_point_table()[3].args);
        assert(table@[4]@.args =~= entry_point_table()[4].args);
        assert(table@[5]@.args =~= entry_point_table()[5].args);
    }
    table
}

/// The names under which the host registers a new instance of the engine.
#[derive(Clone, Debug, PartialEq, Eq)]
pub struct ContractNames {
    pub package_hash: String,
    pub access_uref: String,
    pub contract_hash: String,
}

/// What tells the instances of the engine apart: the engine's name and the
/// block time of its installation, written in decimal.
pub open spec fn instance_suffix(name: Seq<char>, now: u64) -> Seq<char> {
    name + "_"@ + decimal_text(now as nat)
}

fn with_suffix(prefix: &str, suffix: &str) -> (text: String)
    ensures
        text@ == prefix@ + suffix@,
{
    let mut text = String::from_str(prefix);
    text.append(suffix);
    text
}

/// Names a new instance of the engine called `name` that is installed at
/// block time `now`.
pub fn contract_names(name: &str, now: u64) -> (names: ContractNames)
    ensures
        names.package_hash@ == "lootbox_package_hash_"@ + instance_suffix(name@, now),
        names.access_uref@ == "lootbox_access_uref_"@ + instance_suffix(name@, now),
        names.contract_hash@ == "lootbox_contract_hash_"@ + instance_suffix(name@, now),
{
    let mut suffix = String::from_str(name);
    suffix.append("_");
    let stamp = decimal_string(now);
    suffix.append(stamp.as_str());
    ContractNames {
        package_hash: with_suffix("lootbox_package_hash_", suffix.as_str()),
        access_uref: with_suffix("lootbox_access_uref_", suffix.as_str()),
        contract_hash: with_suffix("lootbox_contract_hash_", suffix.as_str()),
    }
}

} // verus!
