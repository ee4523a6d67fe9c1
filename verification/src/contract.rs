use vstd::prelude::*;

use crate::decimal::{decimal_str, Decimal};
use crate::digits::{dec_str, u64_to_dec_string};
use crate::error::ContractError;
use crate::helpers::{
    convert_redemption_rate_to_scaling_factors, pool_config_check, scaling_factors_of,
    validate_pool_configuration,
};
use crate::msg::{
    attr, attr_is, Attribute, InstantiateMsg, MsgStableSwapAdjustScalingFactors, Pools,
    QueryAnswer, QueryMsg, Response, StableswapPool,
};
use crate::state::{
    contains_id, index_of_id, pool_with_id, AssetOrdering, Config, ContractState, Pool,
    PoolRegistry,
};

verus! {

/// The text "[f0<sep>f1]" with both factors in decimal: how a factor pair
/// appears in response attributes.
pub open spec fn factors_text(f0: u64, f1: u64, sep: Seq<char>) -> Seq<char> {
    "["@ + dec_str(f0 as nat) + sep + dec_str(f1 as nat) + "]"@
}

fn factors_string(f0: u64, f1: u64, sep: &str) -> (s: String)
    ensures
        s@ == factors_text(f0, f1, sep@),
{
    let mut s = "[".to_owned();
    s.append(u64_to_dec_string(f0).as_str());
    s.append(sep);
    s.append(u64_to_dec_string(f1).as_str());
    s.append("]");
    proof {
        assert(s@ =~= factors_text(f0, f1, sep@));
    }
    s
}

/// The admin gate every privileged operation passes first: only the
/// configured admin address may proceed.
pub fn require_admin(sender: &String, config: &Config) -> (r: Result<(), ContractError>)
    ensures
        sender@ == config.admin_address@ ==> r == Ok::<(), ContractError>(()),
        sender@ != config.admin_address@ ==> r == Err::<(), ContractError>(
            ContractError::Unauthorized {},
        ),
{
    if *sender == config.admin_address {
        Ok(())
    } else {
        Err(ContractError::Unauthorized {})
    }
}

/// Sets up the initial contract state: the given addresses become the
/// config, and the registry starts empty.
pub fn instantiate(msg: InstantiateMsg) -> (r: (ContractState, Response))
    ensures
        r.0.config.admin_address@ == msg.admin_address@,
        r.0.config.oracle_contract_address@ == msg.oracle_contract_address@,
        r.0.pools@ == Seq::<Pool>::empty(),
        r.0.wf(),
        r.1.messages@.len() == 0,
        r.1.attributes@.len() == 3,
        attr_is(r.1.attributes@[0], "action"@, "instantiate"@),
        attr_is(r.1.attributes@[1], "admin_address"@, msg.admin_address@),
        attr_is(r.1.attributes@[2], "oracle_contract_address"@, msg.oracle_contract_address@),
{
    let InstantiateMsg { admin_address, oracle_contract_address } = msg;
    let config = Config {
        admin_address: admin_address.clone(),
        oracle_contract_address: oracle_contract_address.clone(),
    };
    let state = ContractState { config, pools: PoolRegistry::new() };

    let mut attributes: Vec<Attribute> = Vec::new();
    attributes.push(attr("action", "instantiate".to_owned()));
    attributes.push(attr("admin_address", admin_address));
    attributes.push(attr("oracle_contract_address", oracle_contract_address));
    let response = Response { attributes, messages: Vec::new() };
    (state, response)
}

/// Replaces the config wholesale with freshly validated addresses. Admin
/// only; everything else is left untouched.
pub fn execute_update_config(
    state: &mut ContractState,
    sender: &String,
    admin_address: String,
    oracle_contract_address: String,
) -> (r: Result<Response, ContractError>)
    ensures
        sender@ != old(state).config.admin_address@ ==> r == Err::<Response, ContractError>(
            ContractError::Unauthorized {},
        ) && *final(state) == *old(state),
        sender@ == old(state).config.admin_address@ ==> (r matches Ok(resp) && {
            &&& final(state).config.admin_address@ == admin_address@
            &&& final(state).config.oracle_contract_address@ == oracle_contract_address@
            &&& final(state).pools == old(state).pools
            &&& resp.messages@.len() == 0
            &&& resp.attributes@.len() == 3
            &&& attr_is(resp.attributes@[0], "action"@, "update_config"@)
            &&& attr_is(resp.attributes@[1], "admin_address"@, admin_address@)
            &&& attr_is(
                resp.attributes@[2],
                "oracle_contract_address"@,
                oracle_contract_address@,
            )
        }),
{
    match require_admin(sender, &state.config) {
        Ok(()) => {},
        Err(e) => {
            return Err(e);
        },
    }

    state.config = Config {
        admin_address: admin_address.clone(),
        oracle_contract_address: oracle_contract_address.clone(),
    };

    let mut attributes: Vec<Attribute> = Vec::new();
    attributes.push(attr("action", "update_config".to_owned()));
    attributes.push(attr("admin_address", admin_address));
    attributes.push(attr("oracle_contract_address", oracle_contract_address));
    Ok(Response { attributes, messages: Vec::new() })
}

/// The checks an add must pass before the pool lookup is worth making:
/// the caller must be the admin and the id must still be free.
pub fn add_pool_precheck(state: &ContractState, sender: &String, pool_id: u64) -> (r: Result<
    (),
    ContractError,
>)
    ensures
        sender@ != state.config.admin_address@ ==> r == Err::<(), ContractError>(
            ContractError::Unauthorized {},
        ),
        sender@ == state.config.admin_address@ && contains_id(state.pools@, pool_id) ==> r
            == Err::<(), ContractError>(ContractError::PoolAlreadyExists { pool_id }),
        sender@ == state.config.admin_address@ && !contains_id(state.pools@, pool_id) ==> r
            == Ok::<(), ContractError>(()),
{
    match require_admin(sender, &state.config) {
        Ok(()) => {},
        Err(e) => {
            return Err(e);
        },
    }
    if state.pools.has(pool_id) {
        return Err(ContractError::PoolAlreadyExists { pool_id });
    }
    Ok(())
}

/// Registers a pool after reconciling the declared configuration against
/// the snapshot the AMM reported (`None` when the lookup found no pool).
/// Admin only. The new record starts with `last_updated` at zero.
pub fn execute_add_pool(
    state: &mut ContractState,
    sender: &String,
    pool_id: u64,
    sttoken_denom: String,
    asset_ordering: AssetOrdering,
    queried_pool: Option<StableswapPool>,
) -> (r: Result<Response, ContractError>)
    requires
        old(state).wf(),
    ensures
        sender@ != old(state).config.admin_address@ ==> r == Err::<Response, ContractError>(
            ContractError::Unauthorized {},
        ) && *final(state) == *old(state),
        sender@ == old(state).config.admin_address@ && contains_id(old(state).pools@, pool_id)
            ==> r == Err::<Response, ContractError>(ContractError::PoolAlreadyExists { pool_id })
            && *final(state) == *old(state),
        sender@ == old(state).config.admin_address@ && !contains_id(old(state).pools@, pool_id)
            && queried_pool is None ==> r == Err::<Response, ContractError>(
            ContractError::PoolNotFoundOsmosis { pool_id },
        ) && *final(state) == *old(state),
        sender@ == old(state).config.admin_address@ && !contains_id(old(state).pools@, pool_id)
            ==> (queried_pool matches Some(qp) ==> {
            &&& pool_config_check(qp, pool_id, sttoken_denom@, asset_ordering) matches Err(e)
                ==> r == Err::<Response, ContractError>(e) && *final(state) == *old(state)
            &&& pool_config_check(qp, pool_id, sttoken_denom@, asset_ordering) is Ok ==> (
            r matches Ok(resp) && {
                let added = pool_with_id(final(state).pools@, pool_id);
                &&& final(state).config == old(state).config
                &&& final(state).wf()
                &&& final(state).pools@ == crate::state::spec_add(
                    old(state).pools@,
                    (Pool { pool_id, sttoken_denom, asset_ordering, last_updated: 0 }),
                )
                &&& contains_id(final(state).pools@, pool_id)
                &&& added.pool_id == pool_id
                &&& added.sttoken_denom@ == sttoken_denom@
                &&& added.asset_ordering == asset_ordering
                &&& added.last_updated == 0
                &&& final(state).pools@.len() == old(state).pools@.len() + 1
                &&& (forall|id: u64|
                    id != pool_id ==> contains_id(final(state).pools@, id) == contains_id(
                        old(state).pools@,
                        id,
                    ))
                &&& (forall|id: u64|
                    id != pool_id && contains_id(old(state).pools@, id) ==> pool_with_id(
                        final(state).pools@,
                        id,
                    ) == pool_with_id(old(state).pools@, id))
                &&& resp.messages@.len() == 0
                &&& resp.attributes@.len() == 4
                &&& attr_is(resp.attributes@[0], "action"@, "add_pool"@)
                &&& attr_is(resp.attributes@[1], "pool_id"@, dec_str(pool_id as nat))
                &&& attr_is(resp.attributes@[2], "pool_sttoken_denom"@, sttoken_denom@)
                &&& attr_is(
                    resp.attributes@[3],
                    "pool_asset_ordering"@,
                    asset_ordering.spec_label(),
                )
            })
        }),
{
    match require_admin(sender, &state.config) {
        Ok(()) => {},
        Err(e) => {
            return Err(e);
        },
    }
    if state.pools.has(pool_id) {
        return Err(ContractError::PoolAlreadyExists { pool_id });
    }
    let stableswap_pool = match queried_pool {
        None => {
            return Err(ContractError::PoolNotFoundOsmosis { pool_id });
        },
        Some(qp) => qp,
    };

    match validate_pool_configuration(
        stableswap_pool,
        pool_id,
        sttoken_denom.clone(),
        asset_ordering,
    ) {
        Ok(()) => {},
        Err(e) => {
            return Err(e);
        },
    }

    let pool = Pool {
        pool_id,
        sttoken_denom: sttoken_denom.clone(),
        asset_ordering,
        last_updated: 0,
    };
    match state.pools.add(pool) {
        Ok(()) => {},
        Err(e) => {
            proof {
                assert(false);
            }
            return Err(e);
        },
    }

    let mut attributes: Vec<Attribute> = Vec::new();
    attributes.push(attr("action", "add_pool".to_owned()));
    attributes.push(attr("pool_id", u64_to_dec_string(pool_id)));
    attributes.push(attr("pool_sttoken_denom", sttoken_denom));
    attributes.push(attr("pool_asset_ordering", asset_ordering.as_text()));
    Ok(Response { attributes, messages: Vec::new() })
}

/// Unregisters a pool, so its scaling factors can no longer be refreshed.
/// Admin only.
pub fn execute_remove_pool(state: &mut ContractState, sender: &String, pool_id: u64) -> (r: Result<
    Response,
    ContractError,
>)
    requires
        old(state).wf(),
    ensures
        sender@ != old(state).config.admin_address@ ==> r == Err::<Response, ContractError>(
            ContractError::Unauthorized {},
        ) && *final(state) == *old(state),
        sender@ == old(state).config.admin_address@ && !contains_id(old(state).pools@, pool_id)
            ==> r == Err::<Response, ContractError>(ContractError::PoolNotFound { pool_id })
            && *final(state) == *old(state),
        sender@ == old(state).config.admin_address@ && contains_id(old(state).pools@, pool_id)
            ==> (r matches Ok(resp) && {
            &&& final(state).config == old(state).config
            &&& final(state).wf()
            &&& final(state).pools@ == crate::state::spec_remove(old(state).pools@, pool_id)
            &&& !contains_id(final(state).pools@, pool_id)
            &&& final(state).pools@.len() == old(state).pools@.len() - 1
            &&& (forall|id: u64|
                id != pool_id ==> contains_id(final(state).pools@, id) == contains_id(
                    old(state).pools@,
                    id,
                ))
            &&& (forall|id: u64|
                id != pool_id && contains_id(old(state).pools@, id) ==> pool_with_id(
                    final(state).pools@,
                    id,
                ) == pool_with_id(old(state).pools@, id))
            &&& resp.messages@.len() == 0
            &&& resp.attributes@.len() == 2
            &&& attr_is(resp.attributes@[0], "action"@, "remove_pool"@)
            &&& attr_is(resp.attributes@[1], "pool_id"@, dec_str(pool_id as nat))
        }),
{
    match require_admin(sender, &state.config) {
        Ok(()) => {},
        Err(e) => {
            return Err(e);
        },
    }
    match state.pools.remove(pool_id) {
        Ok(()) => {},
        Err(e) => {
            return Err(e);
        },
    }

    let mut attributes: Vec<Attribute> = Vec::new();
    attributes.push(attr("action", "remove_pool".to_owned()));
    attributes.push(attr("pool_id", u64_to_dec_string(pool_id)));
    Ok(Response { attributes, messages: Vec::new() })
}

/// Refreshes one pool's scaling factors from the redemption rate the
/// oracle reported (`Err` carries the oracle's failure text). Permissionless:
/// no caller identity is involved. On success the registry record's
/// `last_updated` becomes `block_time`, everything else in it is unchanged,
/// and the returned response carries the adjust instruction for the AMM.
pub fn execute_update_scaling_factor(
    state: &mut ContractState,
    pool_id: u64,
    block_time: u64,
    contract_address: &String,
    oracle_result: Result<Decimal, String>,
) -> (r: Result<Response, ContractError>)
    requires
        old(state).wf(),
    ensures
        !contains_id(old(state).pools@, pool_id) ==> r == Err::<Response, ContractError>(
            ContractError::PoolNotFound { pool_id },
        ) && *final(state) == *old(state),
        contains_id(old(state).pools@, pool_id) ==> (oracle_result matches Err(query_error) ==> (
        r matches Err(e) && {
            &&& e matches ContractError::UnableToQueryRedemptionRate { token, error }
            &&& token@ == pool_with_id(old(state).pools@, pool_id).sttoken_denom@
            &&& error@ == query_error@
            &&& *final(state) == *old(state)
        })),
        contains_id(old(state).pools@, pool_id) ==> (oracle_result matches Ok(rate) ==> (
        r matches Ok(resp) && {
            let before = pool_with_id(old(state).pools@, pool_id);
            let factors = scaling_factors_of(rate.atomics as nat, before.asset_ordering);
            &&& final(state).config == old(state).config
            &&& final(state).wf()
            &&& final(state).pools@ == old(state).pools@.update(
                index_of_id(old(state).pools@, pool_id),
                (Pool {
                    pool_id: before.pool_id,
                    sttoken_denom: before.sttoken_denom,
                    asset_ordering: before.asset_ordering,
                    last_updated: block_time,
                }),
            )
            &&& contains_id(final(state).pools@, pool_id)
            &&& pool_with_id(final(state).pools@, pool_id) == (Pool {
                pool_id: before.pool_id,
                sttoken_denom: before.sttoken_denom,
                asset_ordering: before.asset_ordering,
                last_updated: block_time,
            })
            &&& final(state).pools@.len() == old(state).pools@.len()
            &&& (forall|id: u64|
                id != pool_id ==> contains_id(final(state).pools@, id) == contains_id(
                    old(state).pools@,
                    id,
                ))
            &&& (forall|id: u64|
                id != pool_id && contains_id(old(state).pools@, id) ==> pool_with_id(
                    final(state).pools@,
                    id,
                ) == pool_with_id(old(state).pools@, id))
            &&& resp.attributes@.len() == 4
            &&& attr_is(resp.attributes@[0], "action"@, "update_scaling_factor"@)
            &&& attr_is(resp.attributes@[1], "pool_id"@, dec_str(pool_id as nat))
            &&& attr_is(resp.attributes@[2], "redemption_rate"@, decimal_str(rate.atomics as nat))
            &&& attr_is(
                resp.attributes@[3],
                "scaling_factors"@,
                factors_text(factors[0], factors[1], ", "@),
            )
            &&& resp.messages@.len() == 1
            &&& resp.messages@[0].sender@ == contract_address@
            &&& resp.messages@[0].pool_id == pool_id
            &&& resp.messages@[0].scaling_factors@ == factors
        })),
{
    let pool = match state.pools.get(pool_id) {
        Ok(p) => p,
        Err(e) => {
            return Err(e);
        },
    };
    proof {
        assert(pool.pool_id == pool_id);
    }

    let redemption_rate = match oracle_result {
        Ok(rate) => rate,
        Err(error_text) => {
            return Err(
                ContractError::UnableToQueryRedemptionRate {
                    token: pool.sttoken_denom,
                    error: error_text,
                },
            );
        },
    };

    let scaling_factors = convert_redemption_rate_to_scaling_factors(
        redemption_rate,
        pool.asset_ordering,
    );
    let factor_0 = scaling_factors[0];
    let factor_1 = scaling_factors[1];

    let updated = Pool {
        pool_id: pool.pool_id,
        sttoken_denom: pool.sttoken_denom,
        asset_ordering: pool.asset_ordering,
        last_updated: block_time,
    };
    match state.pools.update(updated) {
        Ok(()) => {},
        Err(e) => {
            proof {
                assert(false);
            }
            return Err(e);
        },
    }

    let adjust_msg = MsgStableSwapAdjustScalingFactors {
        sender: contract_address.clone(),
        pool_id,
        scaling_factors,
    };
    let mut messages: Vec<MsgStableSwapAdjustScalingFactors> = Vec::new();
    messages.push(adjust_msg);

    let mut attributes: Vec<Attribute> = Vec::new();
    attributes.push(attr("action", "update_scaling_factor".to_owned()));
    attributes.push(attr("pool_id", u64_to_dec_string(pool_id)));
    attributes.push(attr("redemption_rate", redemption_rate.to_text()));
    attributes.push(attr("scaling_factors", factors_string(factor_0, factor_1, ", ")));
    Ok(Response { attributes, messages })
}

/// Emits an adjust instruction straight from caller-supplied factors,
/// touching neither the registry nor the oracle. Admin only; a temporary
/// safety valve for freshly deployed contracts.
pub fn execute_sudo_adjust_scaling_factors(
    state: &ContractState,
    sender: &String,
    contract_address: &String,
    pool_id: u64,
    scaling_factors: Vec<u64>,
) -> (r: Result<Response, ContractError>)
    requires
        sender@ == state.config.admin_address@ ==> scaling_factors@.len() >= 2,
    ensures
        sender@ != state.config.admin_address@ ==> r == Err::<Response, ContractError>(
            ContractError::Unauthorized {},
        ),
        sender@ == state.config.admin_address@ ==> (r matches Ok(resp) && {
            &&& resp.attributes@.len() == 3
            &&& attr_is(resp.attributes@[0], "action"@, "sudo_adjust_scaling_factors"@)
            &&& attr_is(resp.attributes@[1], "pool_id"@, dec_str(pool_id as nat))
            &&& attr_is(
                resp.attributes@[2],
                "scaling_factors"@,
                factors_text(scaling_factors@[0], scaling_factors@[1], ","@),
            )
            &&& resp.messages@.len() == 1
            &&& resp.messages@[0].sender@ == contract_address@
            &&& resp.messages@[0].pool_id == pool_id
            &&& resp.messages@[0].scaling_factors@ == scaling_factors@
        }),
{
    match require_admin(sender, &state.config) {
        Ok(()) => {},
        Err(e) => {
            return Err(e);
        },
    }

    let factor_0 = scaling_factors[0];
    let factor_1 = scaling_factors[1];

    let adjust_msg = MsgStableSwapAdjustScalingFactors {
        sender: contract_address.clone(),
        pool_id,
        scaling_factors,
    };
    let mut messages: Vec<MsgStableSwapAdjustScalingFactors> = Vec::new();
    messages.push(adjust_msg);

    let mut attributes: Vec<Attribute> = Vec::new();
    attributes.push(attr("action", "sudo_adjust_scaling_factors".to_owned()));
    attributes.push(attr("pool_id", u64_to_dec_string(pool_id)));
    attributes.push(attr("scaling_factors", factors_string(factor_0, factor_1, ",")));
    Ok(Response { attributes, messages })
}

/// Answers one read-only query from the current state.
pub fn query(state: &ContractState, msg: QueryMsg) -> (r: Result<QueryAnswer, ContractError>)
    requires
        state.wf(),
    ensures
        msg matches QueryMsg::Config {  } ==> (r matches Ok(a) && a matches QueryAnswer::Config(
            c,
        ) && c == state.config),
        msg matches QueryMsg::Pool { pool_id } ==> {
            &&& contains_id(state.pools@, pool_id) ==> (r matches Ok(a) && a
                matches QueryAnswer::Pool(p) && p == pool_with_id(state.pools@, pool_id))
            &&& !contains_id(state.pools@, pool_id) ==> r == Err::<QueryAnswer, ContractError>(
                ContractError::PoolNotFound { pool_id },
            )
        },
        msg matches QueryMsg::AllPools {  } ==> (r matches Ok(a) && a matches QueryAnswer::AllPools(
            ps,
        ) && ps.pools@ == state.pools@),
{
    match msg {
        QueryMsg::Config {  } => Ok(QueryAnswer::Config(state.config.clone())),
        QueryMsg::Pool { pool_id } => {
            match state.pools.get(pool_id) {
                Ok(p) => Ok(QueryAnswer::Pool(p)),
                Err(e) => Err(e),
            }
        },
        QueryMsg::AllPools {  } => Ok(QueryAnswer::AllPools(query_all_pools(state))),
    }
}

/// Lists every registered pool, ascending by pool id.
pub fn query_all_pools(state: &ContractState) -> (r: Pools)
    ensures
        r.pools@ == state.pools@,
{
    Pools { pools: state.pools.list_all() }
}

} // verus!
