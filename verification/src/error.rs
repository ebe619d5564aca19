use vstd::prelude::*;

verus! {

/// The reasons for which the engine refuses an operation. Each one aborts the
/// operation as a whole and reaches the caller as a numeric code.
#[derive(Clone, Copy, Debug, PartialEq, Eq, Structural)]
pub enum Error {
    /// Persisted configuration is missing or unreadable.
    FatalError,
    /// The caller is not the configured administrator.
    AdminError,
    /// The registry did not approve the transfer of the asset.
    NotApproved,
    /// More lootboxes were asked for than the configuration allows.
    LootboxLimit,
    /// No winner is recorded for the requested item.
    ClaimNotFound,
    /// The inventory already holds the configured maximum of items.
    MaxItemCount,
    /// The inventory holds no item under the requested identifier.
    ItemNotFound,
    /// No rarity level is known under the requested name.
    RarityLevelNotFound,
}

impl Error {
    /// The code under which the error reaches the caller.
    pub open spec fn spec_code(self) -> u16 {
        match self {
            Error::FatalError => 0,
            Error::AdminError => 1,
            Error::NotApproved => 2,
            Error::LootboxLimit => 3,
            Error::ClaimNotFound => 4,
            Error::MaxItemCount => 5,
            Error::ItemNotFound => 6,
            Error::RarityLevelNotFound => 7,
        }
    }

    /// The code under which the error reaches the caller.
    #[verifier::when_used_as_spec(spec_code)]
    pub fn code(self) -> (code: u16)
        ensures
            code == self.spec_code(),
    {
        match self {
            Error::FatalError => 0,
            Error::AdminError => 1,
            Error::NotApproved => 2,
            Error::LootboxLimit => 3,
            Error::ClaimNotFound => 4,
            Error::MaxItemCount => 5,
            Error::ItemNotFound => 6,
            Error::RarityLevelNotFound => 7,
        }
    }
}

} // verus!
