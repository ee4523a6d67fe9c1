use st_scaling_factor::contract::{
    add_pool_precheck, execute_add_pool, execute_remove_pool,
    execute_sudo_adjust_scaling_factors, execute_update_config, execute_update_scaling_factor,
    instantiate, query,
};
use st_scaling_factor::decimal::Decimal;
use st_scaling_factor::error::ContractError;
use st_scaling_factor::msg::{
    attr, ExecuteMsg, InstantiateMsg, MsgStableSwapAdjustScalingFactors, PoolAsset, Pools,
    QueryAnswer, QueryMsg, RedemptionRateResponse, Response, StableswapPool,
};
use st_scaling_factor::state::{AssetOrdering, Config, ContractState, Pool};

const ADMIN_ADDRESS: &str = "admin";
const ORACLE_ADDRESS: &str = "oracle";
const CONTRACT_ADDRESS: &str = "cosmos2contract";

// A stand-in for the surrounding platform: the block time, the contract's
// own address, and canned answers for the two external queries.
struct TestEnv {
    block_time: u64,
    contract_address: String,
    oracle_redemption_rates: Vec<(String, RedemptionRateResponse)>,
    pools: Vec<(u64, StableswapPool)>,
}

impl TestEnv {
    fn new() -> TestEnv {
        TestEnv {
            block_time: 1_571_797_419,
            contract_address: CONTRACT_ADDRESS.to_string(),
            oracle_redemption_rates: Vec::new(),
            pools: Vec::new(),
        }
    }

    // Adds a mocked entry such that oracle queries for the denom return the
    // given redemption rate
    fn mock_oracle_redemption_rate(&mut self, denom: String, redemption_rate: Decimal) {
        self.oracle_redemption_rates.push((
            denom,
            RedemptionRateResponse {
                redemption_rate,
                update_time: 1,
            },
        ));
    }

    // Adds a mocked entry such that AMM pool lookups for the pool ID return
    // a stableswap pool whose assets line up with the given pool record
    fn mock_stableswap_pool(&mut self, pool_id: u64, pool: &Pool) {
        let pool_assets = match pool.asset_ordering {
            AssetOrdering::StTokenFirst => {
                vec![pool.sttoken_denom.clone(), "native_denom".to_string()]
            }
            AssetOrdering::NativeTokenFirst => {
                vec!["native_denom".to_string(), pool.sttoken_denom.clone()]
            }
        };

        let pool_liquidity = pool_assets
            .into_iter()
            .map(|denom| PoolAsset {
                amount: "1000000".to_string(),
                denom,
            })
            .collect();

        let stableswap_pool = StableswapPool {
            id: pool_id,
            pool_liquidity,
        };

        self.pools.push((pool_id, stableswap_pool));
    }

    // Helper for mocking a pool lookup answer that is deliberately
    // misconfigured
    fn mock_invalid_stableswap_pool(&mut self, pool_id: u64, pool: StableswapPool) {
        self.pools.push((pool_id, pool));
    }

    fn query_amm_pool(&self, pool_id: u64) -> Option<StableswapPool> {
        self.pools
            .iter()
            .find(|(id, _)| *id == pool_id)
            .map(|(_, p)| p.clone())
    }

    fn query_oracle(&self, denom: &str) -> Result<Decimal, String> {
        match self
            .oracle_redemption_rates
            .iter()
            .find(|(d, _)| d == denom)
        {
            Some((_, response)) => Ok(response.redemption_rate),
            None => Err("Unknown system error".to_string()),
        }
    }
}

// Drives one command the way the surrounding platform does: performs the
// external queries at the points the handlers expect their answers.
fn execute(
    state: &mut ContractState,
    env: &TestEnv,
    sender: &str,
    msg: ExecuteMsg,
) -> Result<Response, ContractError> {
    let sender = sender.to_string();
    match msg {
        ExecuteMsg::UpdateConfig {
            admin_address,
            oracle_contract_address,
        } => execute_update_config(state, &sender, admin_address, oracle_contract_address),
        ExecuteMsg::AddPool {
            pool_id,
            sttoken_denom,
            asset_ordering,
        } => {
            add_pool_precheck(state, &sender, pool_id)?;
            let queried_pool = env.query_amm_pool(pool_id);
            execute_add_pool(
                state,
                &sender,
                pool_id,
                sttoken_denom,
                asset_ordering,
                queried_pool,
            )
        }
        ExecuteMsg::RemovePool { pool_id } => execute_remove_pool(state, &sender, pool_id),
        ExecuteMsg::UpdateScalingFactor { pool_id } => {
            let pool = state.pools.get(pool_id)?;
            let oracle_result = env.query_oracle(&pool.sttoken_denom);
            execute_update_scaling_factor(
                state,
                pool_id,
                env.block_time,
                &env.contract_address,
                oracle_result,
            )
        }
        ExecuteMsg::SudoAdjustScalingFactors {
            pool_id,
            scaling_factors,
        } => execute_sudo_adjust_scaling_factors(
            state,
            &sender,
            &env.contract_address,
            pool_id,
            scaling_factors,
        ),
    }
}

// Helper function to instantiate the contract using the default admin and
// oracle addresses
fn default_instantiate() -> (ContractState, TestEnv) {
    let env = TestEnv::new();

    let msg = InstantiateMsg {
        admin_address: ADMIN_ADDRESS.to_string(),
        oracle_contract_address: ORACLE_ADDRESS.to_string(),
    };

    let (state, resp) = instantiate(msg);
    assert_eq!(
        resp.attributes,
        vec![
            attr("action", "instantiate".to_string()),
            attr("admin_address", ADMIN_ADDRESS.to_string()),
            attr("oracle_contract_address", ORACLE_ADDRESS.to_string()),
        ]
    );

    (state, env)
}

// Helper function to create a test Pool object
fn get_test_pool(pool_id: u64, sttoken_denom: &str, asset_ordering: AssetOrdering) -> Pool {
    Pool {
        pool_id,
        sttoken_denom: sttoken_denom.to_string(),
        asset_ordering,
        last_updated: 0,
    }
}

// Helper function to get an add-pool message from a pool object
fn get_add_pool_msg(pool_id: u64, pool: Pool) -> ExecuteMsg {
    ExecuteMsg::AddPool {
        pool_id,
        sttoken_denom: pool.sttoken_denom,
        asset_ordering: pool.asset_ordering,
    }
}

fn unwrap_config(answer: QueryAnswer) -> Config {
    match answer {
        QueryAnswer::Config(config) => config,
        other => panic!("expected a config answer, got {:?}", other),
    }
}

fn unwrap_pool(answer: QueryAnswer) -> Pool {
    match answer {
        QueryAnswer::Pool(pool) => pool,
        other => panic!("expected a pool answer, got {:?}", other),
    }
}

fn unwrap_pools(answer: QueryAnswer) -> Pools {
    match answer {
        QueryAnswer::AllPools(pools) => pools,
        other => panic!("expected an all-pools answer, got {:?}", other),
    }
}

#[test]
fn test_instantiate() {
    let (state, _) = default_instantiate();

    // Confirm addresses were set properly
    let msg = QueryMsg::Config {};
    let resp = query(&state, msg).unwrap();
    let config = unwrap_config(resp);
    assert_eq!(
        config,
        Config {
            admin_address: ADMIN_ADDRESS.to_string(),
            oracle_contract_address: ORACLE_ADDRESS.to_string(),
        }
    )
}

#[test]
fn test_update_config() {
    let (mut state, env) = default_instantiate();

    // Update the admin and oracle addresses
    let updated_admin = "update_admin";
    let updated_oracle = "updated_oracle";

    let update_msg = ExecuteMsg::UpdateConfig {
        admin_address: updated_admin.to_string(),
        oracle_contract_address: updated_oracle.to_string(),
    };
    let resp = execute(&mut state, &env, ADMIN_ADDRESS, update_msg).unwrap();
    assert_eq!(
        resp.attributes,
        vec![
            attr("action", "update_config".to_string()),
            attr("admin_address", updated_admin.to_string()),
            attr("oracle_contract_address", updated_oracle.to_string()),
        ]
    );

    // Confirm config updated
    let query_config_msg = QueryMsg::Config {};
    let query_resp = query(&state, query_config_msg).unwrap();
    let updated_config = unwrap_config(query_resp);
    assert_eq!(
        updated_config,
        Config {
            admin_address: updated_admin.to_string(),
            oracle_contract_address: updated_oracle.to_string(),
        }
    )
}

#[test]
fn test_add_remove_pools() {
    let (mut state, mut env) = default_instantiate();

    // Create 3 dummy pools
    let pool1 = get_test_pool(1, "stA", AssetOrdering::StTokenFirst);
    let pool2 = get_test_pool(2, "stB", AssetOrdering::NativeTokenFirst);
    let pool3 = get_test_pool(3, "stC", AssetOrdering::StTokenFirst);

    // Mock each pool in the querier
    env.mock_stableswap_pool(1, &pool1);
    env.mock_stableswap_pool(2, &pool2);
    env.mock_stableswap_pool(3, &pool3);

    // Add each pool, and confirm the attributes and pool-query for each
    for pool in vec![pool1.clone(), pool2.clone(), pool3.clone()] {
        let add_msg = get_add_pool_msg(pool.pool_id, pool.clone());
        let add_msg_resp = execute(&mut state, &env, ADMIN_ADDRESS, add_msg).unwrap();

        let ordering_label = match pool.asset_ordering {
            AssetOrdering::StTokenFirst => "st_token_first",
            AssetOrdering::NativeTokenFirst => "native_token_first",
        };
        assert_eq!(
            add_msg_resp.attributes,
            vec![
                attr("action", "add_pool".to_string()),
                attr("pool_id", pool.pool_id.to_string()),
                attr("pool_sttoken_denom", pool.sttoken_denom.clone()),
                attr("pool_asset_ordering", ordering_label.to_string()),
            ]
        );

        let query_pool_msg = QueryMsg::Pool {
            pool_id: pool.pool_id,
        };
        let query_resp = query(&state, query_pool_msg).unwrap();
        let pool_resp = unwrap_pool(query_resp);

        assert_eq!(pool_resp, pool);
    }

    // Test the AllPools query
    let all_pools_query_msg = QueryMsg::AllPools {};
    let query_pools_resp = query(&state, all_pools_query_msg).unwrap();
    let all_pools_resp = unwrap_pools(query_pools_resp);

    assert_eq!(
        all_pools_resp,
        Pools {
            pools: vec![pool1.clone(), pool2, pool3.clone()]
        }
    );

    // Remove pool 2
    let remove_pool_msg = ExecuteMsg::RemovePool { pool_id: 2 };
    let remove_pool_resp = execute(&mut state, &env, ADMIN_ADDRESS, remove_pool_msg).unwrap();

    assert_eq!(
        remove_pool_resp.attributes,
        vec![
            attr("action", "remove_pool".to_string()),
            attr("pool_id", "2".to_string())
        ]
    );

    // Query AllPools again, it should only return pools 1 and 3
    let all_pools_query_msg = QueryMsg::AllPools {};
    let query_pools_resp = query(&state, all_pools_query_msg).unwrap();
    let all_pools_resp = unwrap_pools(query_pools_resp);

    assert_eq!(
        all_pools_resp,
        Pools {
            pools: vec![pool1, pool3]
        }
    );

    // Try to add pool 1 again, it should fail
    let add_duplicate_pool_msg = ExecuteMsg::AddPool {
        pool_id: 1,
        sttoken_denom: "".to_string(),
        asset_ordering: AssetOrdering::StTokenFirst,
    };
    let add_duplicate_pool_resp = execute(&mut state, &env, ADMIN_ADDRESS, add_duplicate_pool_msg);
    assert_eq!(
        add_duplicate_pool_resp,
        Err(ContractError::PoolAlreadyExists { pool_id: 1 })
    )
}

#[test]
fn test_add_misconfigured_pool_id_mismatch() {
    let (mut state, mut env) = default_instantiate();

    let queried_id = 1;
    let misconfigured_pool_id = 999;

    // Create a pool configuration and message
    let pool = get_test_pool(queried_id, "sttoken", AssetOrdering::StTokenFirst);
    let add_msg = get_add_pool_msg(queried_id, pool.clone());

    // Mock out the query response so that the returned pool has a different pool ID
    env.mock_invalid_stableswap_pool(
        queried_id,
        StableswapPool {
            id: misconfigured_pool_id,
            pool_liquidity: Vec::new(),
        },
    );

    // Attempt to add the pool, it should error since the ID does not match
    let resp = execute(&mut state, &env, ADMIN_ADDRESS, add_msg);
    assert_eq!(
        resp,
        Err(ContractError::PoolNotFoundOsmosis {
            pool_id: queried_id
        })
    );
}

#[test]
fn test_add_misconfigured_pool_number_of_assets() {
    let (mut state, mut env) = default_instantiate();

    // Create a pool configuration and message
    let pool_id = 1;
    let pool = get_test_pool(pool_id, "sttoken", AssetOrdering::StTokenFirst);
    let add_msg = get_add_pool_msg(pool_id, pool.clone());

    // Mock out the query response so that the returned pool has more than 2 assets
    env.mock_invalid_stableswap_pool(
        pool_id,
        StableswapPool {
            id: pool_id,
            pool_liquidity: vec![
                PoolAsset {
                    denom: "denom1".to_string(),
                    amount: "1000000".to_string(),
                },
                PoolAsset {
                    denom: "denom2".to_string(),
                    amount: "1000000".to_string(),
                },
                PoolAsset {
                    denom: "denom3".to_string(),
                    amount: "1000000".to_string(),
                },
            ],
        },
    );

    // Attempt to add the pool, it should error since there are more than two assets
    let resp = execute(&mut state, &env, ADMIN_ADDRESS, add_msg);
    assert_eq!(
        resp,
        Err(ContractError::InvalidNumberOfPoolAssets { number: 3 })
    );
}

#[test]
fn test_add_misconfigured_pool_asset_ordering() {
    let (mut state, mut env) = default_instantiate();

    // Create two pools, one with stToken first, and the other with the stToken second
    let pool1 = get_test_pool(1, "sttoken", AssetOrdering::StTokenFirst);
    let pool2 = get_test_pool(2, "sttoken", AssetOrdering::NativeTokenFirst);

    // Mock those two pools out in the query response
    env.mock_stableswap_pool(1, &pool1);
    env.mock_stableswap_pool(2, &pool2);

    // Create the add messages, but swap the pool IDs (i.e. add_msg1 adds pool ID 2)
    let add_msg1 = get_add_pool_msg(2, pool1.clone());
    let add_msg2 = get_add_pool_msg(1, pool2.clone());

    // Attempt to add these two pools, they should both fail since the asset ordering is incorrect
    let add_resp1 = execute(&mut state, &env, ADMIN_ADDRESS, add_msg1);
    assert_eq!(add_resp1, Err(ContractError::InvalidPoolAssetOrdering {}));

    let add_resp2 = execute(&mut state, &env, ADMIN_ADDRESS, add_msg2);
    assert_eq!(add_resp2, Err(ContractError::InvalidPoolAssetOrdering {}));
}

#[test]
fn test_unauthorized() {
    let (mut state, env) = default_instantiate();

    // Attempt to add the pool with a non-admin address
    let pool_id = 1;
    let pool = get_test_pool(pool_id, "stA", AssetOrdering::StTokenFirst);
    let add_msg = get_add_pool_msg(pool_id, pool);
    let add_resp = execute(&mut state, &env, "not_admin", add_msg);

    assert_eq!(add_resp, Err(ContractError::Unauthorized {}));

    // Attempt to remove a pool with a non-admin address
    let remove_msg = ExecuteMsg::RemovePool { pool_id: 1 };
    let remove_resp = execute(&mut state, &env, "not_admin", remove_msg);

    assert_eq!(remove_resp, Err(ContractError::Unauthorized {}));

    // Attempt to update the scaling factor of a pool with a non-admin address
    let adjust_msg = ExecuteMsg::SudoAdjustScalingFactors {
        pool_id: 1,
        scaling_factors: vec![1, 1],
    };
    let adjust_resp = execute(&mut state, &env, "not_admin", adjust_msg);

    assert_eq!(adjust_resp, Err(ContractError::Unauthorized {}));
}

#[test]
fn test_update_scaling_factor() {
    let pool_id = 2;
    let sttoken_denom = "stuosmo";
    let asset_ordering = AssetOrdering::StTokenFirst;
    let pool = get_test_pool(pool_id, sttoken_denom, asset_ordering);

    let block_time = 1_000_000;
    // 1.2
    let redemption_rate = Decimal::from_atomics(1_200_000_000_000_000_000);
    let expected_scaling_factors = vec![100000, 120000];

    // Mock out the block time and the oracle query response
    let (mut state, mut env) = default_instantiate();
    env.block_time = block_time;
    env.mock_oracle_redemption_rate(sttoken_denom.to_string(), redemption_rate);

    // Mock out the stableswap pool on the AMM
    env.mock_stableswap_pool(pool_id, &pool);

    // Add a pool
    let add_pool_msg = get_add_pool_msg(pool_id, pool);
    execute(&mut state, &env, ADMIN_ADDRESS, add_pool_msg).unwrap();

    // Update the scaling factor
    let update_msg = ExecuteMsg::UpdateScalingFactor { pool_id: 2 };
    let update_pool_resp = execute(&mut state, &env, ADMIN_ADDRESS, update_msg).unwrap();

    // Confirm attributes
    assert_eq!(
        update_pool_resp.attributes,
        vec![
            attr("action", "update_scaling_factor".to_string()),
            attr("pool_id", "2".to_string()),
            attr("redemption_rate", "1.2".to_string()),
            attr("scaling_factors", "[100000, 120000]".to_string())
        ]
    );

    // Confirm pool was updated with the current block time
    let query_pool_msg = QueryMsg::Pool { pool_id: 2 };
    let query_pool_resp = query(&state, query_pool_msg).unwrap();

    let queried_pool = unwrap_pool(query_pool_resp);
    let queried_pool_cloned = queried_pool.clone();
    let expected_pool = Pool {
        last_updated: block_time,
        ..queried_pool_cloned
    };

    assert_eq!(queried_pool, expected_pool);

    // Confirm the adjust instruction was appended to the message response
    let expected_update_msg = MsgStableSwapAdjustScalingFactors {
        sender: env.contract_address.clone(),
        pool_id: 2,
        scaling_factors: expected_scaling_factors,
    };

    assert_eq!(update_pool_resp.messages.len(), 1);
    assert_eq!(update_pool_resp.messages[0], expected_update_msg);

    // Attempt to update a non-existent pool, it should error
    let update_msg = ExecuteMsg::UpdateScalingFactor { pool_id: 1 };
    let update_pool_resp = execute(&mut state, &env, ADMIN_ADDRESS, update_msg);
    assert_eq!(
        update_pool_resp,
        Err(ContractError::PoolNotFound { pool_id: 1 })
    );
}

#[test]
fn test_sudo_adjust_scaling_factor() {
    let (mut state, env) = default_instantiate();

    // Submit adjust scaling factor message
    let adjust_msg = ExecuteMsg::SudoAdjustScalingFactors {
        pool_id: 2,
        scaling_factors: vec![1, 1],
    };
    let adjust_resp = execute(&mut state, &env, ADMIN_ADDRESS, adjust_msg).unwrap();

    assert_eq!(
        adjust_resp.attributes,
        vec![
            attr("action", "sudo_adjust_scaling_factors".to_string()),
            attr("pool_id", "2".to_string()),
            attr("scaling_factors", "[1,1]".to_string()),
        ]
    );

    // Confirm the adjust instruction was appended to the message response
    let expected_adjust_msg = MsgStableSwapAdjustScalingFactors {
        sender: env.contract_address.clone(),
        pool_id: 2,
        scaling_factors: vec![1, 1],
    };

    assert_eq!(adjust_resp.messages.len(), 1);
    assert_eq!(adjust_resp.messages[0], expected_adjust_msg);
}
