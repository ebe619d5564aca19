use vstd::prelude::*;

verus! {

/// The 32 bytes by which the network knows an account.
#[derive(Clone, Copy, Debug)]
pub struct AccountHash {
    pub value: [u8; 32],
}

impl AccountHash {
    pub fn new(value: [u8; 32]) -> (account: AccountHash)
        ensures
            account.value == value,
    {
        AccountHash { value }
    }
}

impl PartialEq for AccountHash {
    fn eq(&self, other: &AccountHash) -> (same: bool) {
        let mut i: usize = 0;
        while i < 32
            invariant
                i <= 32,
                forall|j: int| 0 <= j < i ==> self.value@[j] == other.value@[j],
            decreases 32 - i,
        {
            if self.value[i] != other.value[i] {
                return false;
            }
            i = i + 1;
        }
        assert(self.value =~= other.value);
        true
    }
}

impl Eq for AccountHash {

}

impl vstd::std_specs::cmp::PartialEqSpecImpl for AccountHash {
    open spec fn obeys_eq_spec() -> bool {
        true
    }

    open spec fn eq_spec(&self, other: &AccountHash) -> bool {
        self.value == other.value
    }
}

/// The address of a party to a transfer: an account, or a contract known by
/// its hash.
#[derive(Clone, Copy, Debug, PartialEq, Eq)]
pub enum Key {
    Account(AccountHash),
    Hash([u8; 32]),
}

impl Key {
    /// The hash, where the key addresses a contract.
    pub open spec fn spec_into_hash(self) -> Option<[u8; 32]> {
        match self {
            Key::Hash(hash) => Some(hash),
            Key::Account(_) => None,
        }
    }

    /// The hash, where the key addresses a contract.
    #[verifier::when_used_as_spec(spec_into_hash)]
    pub fn into_hash(self) -> (hash: Option<[u8; 32]>)
        ensures
            hash == self.spec_into_hash(),
    {
        match self {
            Key::Hash(hash) => Some(hash),
            Key::Account(_) => None,
        }
    }
}

/// The access right that lets its holder add to what a reference points at,
/// and nothing else.
pub const ACCESS_RIGHTS_ADD: u8 = 4;

/// An unforgeable reference: an address with the rights that its holder has
/// on it. The engine's payment purse is one.
#[derive(Clone, Copy, Debug, PartialEq, Eq)]
pub struct URef {
    pub addr: [u8; 32],
    pub access_rights: u8,
}

impl URef {
    pub fn new(addr: [u8; 32], access_rights: u8) -> (uref: URef)
        ensures
            uref.addr == addr,
            uref.access_rights == access_rights,
    {
        URef { addr, access_rights }
    }

    /// The same address with the right to add only.
    pub open spec fn spec_into_add(self) -> URef {
        URef { addr: self.addr, access_rights: ACCESS_RIGHTS_ADD }
    }

    /// The same address with the right to add only.
    #[verifier::when_used_as_spec(spec_into_add)]
    pub fn into_add(self) -> (uref: URef)
        ensures
            uref == self.spec_into_add(),
    {
        URef { addr: self.addr, access_rights: ACCESS_RIGHTS_ADD }
    }
}

/// An unsigned integer of 512 bits, as eight words of 64 bits, the least
/// significant first.
#[derive(Clone, Copy, Debug, PartialEq, Eq)]
pub struct U512 {
    pub words: [u64; 8],
}

impl U512 {
    pub fn new(words: [u64; 8]) -> (number: U512)
        ensures
            number.words == words,
    {
        U512 { words }
    }
}

/// One deposited asset. `id` is its place in the inventory, `token_id` the
/// name under which the registry knows the asset, and `rarity` is 0 until the
/// item is drawn, then its position in the bundle that won it.
#[derive(Clone, Debug, PartialEq, Eq)]
pub struct Item {
    pub id: u64,
    pub rarity: u64,
    pub token_id: u64,
    pub name: String,
}

} // verus!
