use lootbox::text::hex_string;
use lootbox::{emit, AccountHash, LootboxEvent, URef};
use tiny_keccak::Hasher;

fn sample_bytes() -> [u8; 32] {
    let mut bytes = [0u8; 32];
    let mut i: usize = 0;
    while i < 32 {
        bytes[i] = (i as u8).wrapping_mul(37).wrapping_add(11);
        i += 1;
    }
    bytes
}

#[test]
fn account_text_is_what_the_network_writes() {
    let bytes = sample_bytes();
    let theirs = casper_types::account::AccountHash::new(bytes).to_string();
    assert_eq!(hex_string(&bytes), theirs);
    let event = LootboxEvent::Purchase {
        caller: AccountHash::new(bytes),
        lootbox_count: 0,
        item_count: 0,
    };
    let record = emit(&event, &bytes);
    assert_eq!(record[0], ("caller", theirs));
    assert_eq!(
        record[1],
        ("contract_package_hash", casper_types::ContractPackageHash::new(bytes).to_string())
    );
}

#[test]
fn right_to_add_is_the_networks_right_to_add() {
    let theirs = casper_types::URef::new([3u8; 32], casper_types::AccessRights::READ_ADD_WRITE)
        .into_add();
    let ours = URef::new([3u8; 32], casper_types::AccessRights::READ_ADD_WRITE.bits()).into_add();
    assert_eq!(ours.addr, theirs.addr());
    assert_eq!(ours.access_rights, theirs.access_rights().bits());
}

#[test]
fn digest_is_the_one_of_the_hasher() {
    let mut hasher = tiny_keccak::Sha3::v256();
    hasher.update(b"1234567");
    let mut digest = [0u8; 32];
    hasher.finalize(&mut digest);
    let mut first = [0u8; 8];
    first.copy_from_slice(&digest[..8]);
    assert_eq!(lootbox::get_random_item_id(1_234_567, 1_000), u64::from_be_bytes(first) % 1_000);
}
