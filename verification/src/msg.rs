use vstd::prelude::*;

use crate::decimal::Decimal;
use crate::state::{AssetOrdering, Config, Pool};

verus! {

/// Initializes the contract with an admin address and an oracle contract
/// address. Both must be validated identity strings.
#[derive(Debug, Clone, PartialEq, Eq)]
pub struct InstantiateMsg {
    pub admin_address: String,
    pub oracle_contract_address: String,
}

/// The commands the contract accepts.
#[derive(Debug, Clone, PartialEq, Eq)]
pub enum ExecuteMsg {
    /// Replaces the admin and oracle contract addresses. Admin only.
    UpdateConfig { admin_address: String, oracle_contract_address: String },
    /// Registers a new stToken stableswap pool. Admin only.
    AddPool { pool_id: u64, sttoken_denom: String, asset_ordering: AssetOrdering },
    /// Unregisters a pool. Admin only.
    RemovePool { pool_id: u64 },
    /// Refreshes a pool's scaling factors from the oracle's current
    /// redemption rate. Permissionless.
    UpdateScalingFactor { pool_id: u64 },
    /// Emits an adjust instruction straight from caller-supplied factors,
    /// bypassing the registry and the oracle. Admin only; a temporary
    /// safety valve.
    SudoAdjustScalingFactors { pool_id: u64, scaling_factors: Vec<u64> },
}

/// The read-only queries the contract answers.
#[derive(Debug, Clone, PartialEq, Eq)]
pub enum QueryMsg {
    /// Returns the contract's config.
    Config {},
    /// Returns the record of one registered pool.
    Pool { pool_id: u64 },
    /// Returns all registered pools, ascending by pool id.
    AllPools {},
}

/// Answer to `QueryMsg::AllPools`.
#[derive(Debug, PartialEq, Eq)]
pub struct Pools {
    pub pools: Vec<Pool>,
}

/// The answer to one query.
#[derive(Debug, PartialEq, Eq)]
pub enum QueryAnswer {
    Config(Config),
    Pool(Pool),
    AllPools(Pools),
}

/// The redemption-rate query understood by the oracle contract.
#[derive(Debug, Clone, PartialEq, Eq)]
pub enum OracleQueryMsg {
    RedemptionRate { denom: String, params: Option<Vec<u8>> },
}

/// The oracle's answer to a redemption-rate query.
#[derive(Debug, Clone, Copy, PartialEq, Eq)]
pub struct RedemptionRateResponse {
    pub redemption_rate: Decimal,
    pub update_time: u64,
}

/// One asset of a queried pool snapshot, as the AMM reports it.
#[derive(Debug, Clone, PartialEq, Eq)]
pub struct PoolAsset {
    pub denom: String,
    pub amount: String,
}

/// A stableswap pool as the AMM's pool lookup reports it: its id and its
/// ordered asset list.
#[derive(Debug, Clone, PartialEq, Eq)]
pub struct StableswapPool {
    pub id: u64,
    pub pool_liquidity: Vec<PoolAsset>,
}

/// The outbound instruction that asks the AMM to adjust a pool's scaling
/// factors. Emitted as a side effect; no reply is awaited.
#[derive(Debug, Clone, PartialEq, Eq)]
pub struct MsgStableSwapAdjustScalingFactors {
    pub sender: String,
    pub pool_id: u64,
    pub scaling_factors: Vec<u64>,
}

/// One key/value attribute of a response.
#[derive(Debug, Clone, PartialEq, Eq)]
pub struct Attribute {
    pub key: String,
    pub value: String,
}

/// What a successful operation returns: descriptive attributes, and zero or
/// one outbound adjust instruction.
#[derive(Debug, PartialEq, Eq)]
pub struct Response {
    pub attributes: Vec<Attribute>,
    pub messages: Vec<MsgStableSwapAdjustScalingFactors>,
}

/// The attribute `a` carries exactly this key and value text.
pub open spec fn attr_is(a: Attribute, key: Seq<char>, value: Seq<char>) -> bool {
    a.key@ == key && a.value@ == value
}

/// Builds one response attribute.
pub fn attr(key: &str, value: String) -> (a: Attribute)
    ensures
        attr_is(a, key@, value@),
{
    Attribute { key: key.to_owned(), value }
}

} // verus!
