//! The calls that the engine asks its host to make on the asset registry.
//!
//! The registry is a contract of its own. The engine never reaches it: an
//! operation returns the call, and whoever runs the engine makes it.

use crate::types::Key;
use vstd::prelude::*;

verus! {

/// A value handed to the registry under an argument's name.
#[derive(Clone, Copy, Debug, PartialEq, Eq)]
pub enum ArgValue {
    U64(u64),
    Key(Key),
}

/// One call on the registry contract known by `contract_hash`.
#[derive(Clone, Copy, Debug, PartialEq, Eq)]
pub enum RegistryCall {
    /// Asks who is approved to move the asset `token_id` of `owner`.
    GetApproved { contract_hash: [u8; 32], owner: Key, token_id: u64 },
    /// Moves the asset `token_id` from `sender` to `recipient`.
    Transfer { contract_hash: [u8; 32], sender: Key, recipient: Key, token_id: u64 },
}

/// What a list of named arguments holds, names taken as text.
pub open spec fn named_args(args: Seq<(&'static str, ArgValue)>) -> Seq<(Seq<char>, ArgValue)> {
    Seq::new(args.len(), |i: int| (args[i].0@, args[i].1))
}

impl RegistryCall {
    /// The registry contract that the call addresses.
    pub open spec fn spec_contract_hash(self) -> [u8; 32] {
        match self {
            RegistryCall::GetApproved { contract_hash, .. } => contract_hash,
            RegistryCall::Transfer { contract_hash, .. } => contract_hash,
        }
    }

    /// The name of the registry's entry point.
    pub open spec fn spec_entry_point(self) -> Seq<char> {
        match self {
            RegistryCall::GetApproved { .. } => "get_approved"@,
            RegistryCall::Transfer { .. } => "transfer"@,
        }
    }

    /// The arguments by name, in the order in which they are handed over.
    pub open spec fn spec_arguments(self) -> Seq<(Seq<char>, ArgValue)> {
        match self {
            RegistryCall::GetApproved { owner, token_id, .. } => seq![
                ("owner"@, ArgValue::Key(owner)),
                ("token_id"@, ArgValue::U64(token_id)),
            ],
            RegistryCall::Transfer { sender, recipient, token_id, .. } => seq![
                ("token_id"@, ArgValue::U64(token_id)),
                ("source_key"@, ArgValue::Key(sender)),
                ("target_key"@, ArgValue::Key(recipient)),
            ],
        }
    }

    /// The registry contract that the call addresses.
    #[verifier::when_used_as_spec(spec_contract_hash)]
    pub fn contract_hash(self) -> (hash: [u8; 32])
        ensures
            hash == self.spec_contract_hash(),
    {
        match self {
            RegistryCall::GetApproved { contract_hash, .. } => contract_hash,
            RegistryCall::Transfer { contract_hash, .. } => contract_hash,
        }
    }

    /// The name of the registry's entry point.
    pub fn entry_point(&self) -> (name: &'static str)
        ensures
            name@ == self.spec_entry_point(),
    {
        match self {
            RegistryCall::GetApproved { .. } => "get_approved",
            RegistryCall::Transfer { .. } => "transfer",
        }
    }

    /// The arguments by name, in the order in which they are handed over.
    pub fn arguments(&self) -> (args: Vec<(&'static str, ArgValue)>)
        ensures
            named_args(args@) == self.spec_arguments(),
    {
        let mut args: Vec<(&'static str, ArgValue)> = Vec::new();
        match self {
            RegistryCall::GetApproved { owner, token_id, .. } => {
                args.push(("owner", ArgValue::Key(*owner)));
                args.push(("token_id", ArgValue::U64(*token_id)));
            },
            RegistryCall::Transfer { sender, recipient, token_id, .. } => {
                args.push(("token_id", ArgValue::U64(*token_id)));
                args.push(("source_key", ArgValue::Key(*sender)));
                args.push(("target_key", ArgValue::Key(*recipient)));
            },
        }
        assert(named_args(args@) =~= self.spec_arguments());
        args
    }
}

/// The question to the registry `contract_hash` whether anyone is approved to
/// move the asset `token_id` of `owner`.
pub fn get_approved(contract_hash: [u8; 32], owner: Key, token_id: u64) -> (call: RegistryCall)
    ensures
        call == (RegistryCall::GetApproved { contract_hash, owner, token_id }),
{
    RegistryCall::GetApproved { contract_hash, owner, token_id }
}

/// The order to the registry `contract_hash` to move the asset `token_id`
/// from `sender` to `recipient`.
pub fn transfer(
    contract_hash: [u8; 32],
    sender: Key,
    recipient: Key,
    token_id: u64,
) -> (call: RegistryCall)
    ensures
        call == (RegistryCall::Transfer { contract_hash, sender, recipient, token_id }),
{
    RegistryCall::Transfer { contract_hash, sender, recipient, token_id }
}

} // verus!
