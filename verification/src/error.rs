use vstd::prelude::*;

verus! {

/// Every way an operation of this contract can fail. Each error aborts the
/// operation with no state change; none is retried internally.
#[derive(Debug, Clone, PartialEq, Eq)]
pub enum ContractError {
    /// The caller is not the registered admin.
    Unauthorized {},
    /// An add was attempted for a pool id that is already registered.
    PoolAlreadyExists { pool_id: u64 },
    /// A lookup, removal or refresh named a pool id that is not registered.
    PoolNotFound { pool_id: u64 },
    /// The external pool lookup returned no pool, or one whose id differs
    /// from the declared id.
    PoolNotFoundOsmosis { pool_id: u64 },
    /// The external pool does not hold exactly two assets.
    InvalidNumberOfPoolAssets { number: u64 },
    /// The declared asset ordering does not match the external pool's
    /// actual asset order.
    InvalidPoolAssetOrdering {},
    /// The oracle query for a redemption rate failed; wraps the underlying
    /// error text.
    UnableToQueryRedemptionRate { token: String, error: String },
}

} // verus!
