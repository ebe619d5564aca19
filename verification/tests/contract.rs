use lootbox::contract::{
    EntryPointAccess, EntryPointType, DEPOSITED_ITEM_COUNT, ITEMS, ITEM_OWNERS, PURSE,
};
use lootbox::{contract_names, entry_points, CLType, ContractNames, EntryPoint};

fn open(name: &'static str, args: Vec<(&'static str, CLType)>, ret: CLType) -> EntryPoint {
    EntryPoint {
        name,
        args,
        ret,
        access: EntryPointAccess::Public,
        entry_point_type: EntryPointType::Contract,
    }
}

#[test]
fn entry_points_lists_the_six_operations() {
    assert_eq!(
        entry_points(),
        vec![
            open(
                "add_item",
                vec![("item_name", CLType::Text), ("token_id", CLType::U64)],
                CLType::URef
            ),
            open("init", vec![], CLType::URef),
            open("purchase", vec![], CLType::URef),
            open("claim", vec![("item_index", CLType::U64)], CLType::URef),
            open("get_price", vec![], CLType::U512),
            open("get_purse", vec![], CLType::URef),
        ]
    );
}

#[test]
fn contract_names_carry_the_name_and_the_block_time() {
    assert_eq!(
        contract_names("box", 1_700_000_000_000),
        ContractNames {
            package_hash: String::from("lootbox_package_hash_box_1700000000000"),
            access_uref: String::from("lootbox_access_uref_box_1700000000000"),
            contract_hash: String::from("lootbox_contract_hash_box_1700000000000"),
        }
    );
    assert_eq!(contract_names("", 0).contract_hash, "lootbox_contract_hash__0");
}

#[test]
fn stored_values_keep_their_names() {
    assert_eq!(ITEMS, "items");
    assert_eq!(ITEM_OWNERS, "item_owners");
    assert_eq!(DEPOSITED_ITEM_COUNT, "deposited_item_count");
    assert_eq!(PURSE, "purse");
}
