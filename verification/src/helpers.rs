use vstd::prelude::*;

use vstd::arithmetic::div_mod::{
    lemma_div_denominator, lemma_div_multiples_vanish, lemma_fundamental_div_mod,
    lemma_mod_bound,
};

use crate::decimal::{Decimal, DECIMAL_FRACTIONAL};
use crate::error::ContractError;
use crate::msg::StableswapPool;
use crate::state::AssetOrdering;

verus! {

/// The fixed-point multiplier of the scaling-factor pair: the stToken side
/// of the pair always carries exactly this value. It is part of the wire
/// contract with the AMM and must not change without a coordinated
/// migration.
pub const SCALING_FACTOR_MULTIPLIER: u64 = 100_000;

/// Atomic (10^-18) units per scaling-factor unit, i.e.
/// `DECIMAL_FRACTIONAL / SCALING_FACTOR_MULTIPLIER`.
pub const ATOMICS_PER_FACTOR_UNIT: u128 = 10_000_000_000_000;

/// The scaled side of the factor pair: floor(rate * 100000), reduced modulo
/// 2^64. The reduction mirrors the narrowing cast the wire format forces;
/// rates below about 1.8 * 10^14 are unaffected by it.
pub open spec fn scaled_factor(atomics: nat) -> u64 {
    ((atomics / (ATOMICS_PER_FACTOR_UNIT as nat)) % 0x1_0000_0000_0000_0000) as u64
}

/// The scaling-factor pair for a redemption rate and an asset ordering:
/// the fixed multiplier at the stToken's position, the scaled rate at the
/// native token's position.
pub open spec fn scaling_factors_of(atomics: nat, ordering: AssetOrdering) -> Seq<u64> {
    match ordering {
        AssetOrdering::StTokenFirst => seq![SCALING_FACTOR_MULTIPLIER, scaled_factor(atomics)],
        AssetOrdering::NativeTokenFirst => seq![
            scaled_factor(atomics),
            SCALING_FACTOR_MULTIPLIER,
        ],
    }
}

/// The conversion truncates and never rounds: wherever the scaled value
/// fits the wire's 64 bits, the factor is the exact floor of
/// rate * 100000, that is of (atomics * 100000) / 10^18.
pub proof fn lemma_scaled_factor_truncates(atomics: nat)
    requires
        atomics / (ATOMICS_PER_FACTOR_UNIT as nat) < 0x1_0000_0000_0000_0000,
    ensures
        scaled_factor(atomics) as nat == (atomics * (SCALING_FACTOR_MULTIPLIER as nat)) / (
        DECIMAL_FRACTIONAL as nat),
        (scaled_factor(atomics) as nat) * (DECIMAL_FRACTIONAL as nat) <= atomics * (
        SCALING_FACTOR_MULTIPLIER as nat),
        atomics * (SCALING_FACTOR_MULTIPLIER as nat) < (scaled_factor(atomics) as nat + 1) * (
        DECIMAL_FRACTIONAL as nat),
{
    let a = atomics as int;
    let m = SCALING_FACTOR_MULTIPLIER as int;
    let u = ATOMICS_PER_FACTOR_UNIT as int;
    let f = DECIMAL_FRACTIONAL as int;
    assert(100_000int * 10_000_000_000_000 == 1_000_000_000_000_000_000);
    assert(m * u == f);
    lemma_div_multiples_vanish(a, m);
    assert((m * a) / m == a);
    assert(m * a == a * m) by (nonlinear_arith);
    lemma_div_denominator(a * m, m, u);
    assert(((a * m) / m) / u == (a * m) / (m * u));
    assert(a / u == (a * m) / f);
    let q = a / u;
    assert(scaled_factor(atomics) as int == q);
    lemma_fundamental_div_mod(a * m, f);
    lemma_mod_bound(a * m, f);
    assert(a * m == f * ((a * m) / f) + (a * m) % f);
    assert(q * f == f * q) by (nonlinear_arith);
    assert((q + 1) * f == f * q + f) by (nonlinear_arith);
}

/// Converts an stToken redemption rate into the scaling-factor pair for a
/// two-asset stableswap pool.
///
/// stTokens trade above their native counterparts, so the native side of
/// the pool is scaled up in proportion to the rate while the stToken side
/// stays at the fixed multiplier. The position of each value in the pair
/// follows the pool's asset ordering.
pub fn convert_redemption_rate_to_scaling_factors(
    redemption_rate: Decimal,
    asset_ordering: AssetOrdering,
) -> (r: Vec<u64>)
    ensures
        r@ == scaling_factors_of(redemption_rate.atomics as nat, asset_ordering),
        r@.len() == 2,
        r@[asset_ordering.spec_sttoken_index()] == SCALING_FACTOR_MULTIPLIER,
        r@[asset_ordering.spec_native_index()] == scaled_factor(redemption_rate.atomics as nat),
{
    let q: u128 = redemption_rate.atomics / ATOMICS_PER_FACTOR_UNIT;
    let scaling_factor: u64 = (q % 0x1_0000_0000_0000_0000) as u64;
    let mut r: Vec<u64> = Vec::new();
    match asset_ordering {
        AssetOrdering::StTokenFirst => {
            r.push(SCALING_FACTOR_MULTIPLIER);
            r.push(scaling_factor);
        },
        AssetOrdering::NativeTokenFirst => {
            r.push(scaling_factor);
            r.push(SCALING_FACTOR_MULTIPLIER);
        },
    }
    proof {
        assert(r@ =~= scaling_factors_of(redemption_rate.atomics as nat, asset_ordering));
    }
    r
}

/// The outcome of reconciling a declared pool configuration against the
/// pool snapshot the AMM reports, first failure first: the snapshot must
/// carry the declared id; it must hold exactly two assets; and the asset at
/// the position the declared ordering puts the stToken in must carry the
/// declared stToken denom.
pub open spec fn pool_config_check(
    stableswap_pool: StableswapPool,
    pool_id: u64,
    sttoken_denom: Seq<char>,
    asset_ordering: AssetOrdering,
) -> Result<(), ContractError> {
    if stableswap_pool.id != pool_id {
        Err(ContractError::PoolNotFoundOsmosis { pool_id })
    } else if stableswap_pool.pool_liquidity@.len() != 2 {
        Err(
            ContractError::InvalidNumberOfPoolAssets {
                number: stableswap_pool.pool_liquidity@.len() as u64,
            },
        )
    } else if stableswap_pool.pool_liquidity@[asset_ordering.spec_sttoken_index()].denom@
        != sttoken_denom {
        Err(ContractError::InvalidPoolAssetOrdering {})
    } else {
        Ok(())
    }
}

/// Validates that a declared pool configuration matches the pool snapshot
/// the AMM actually reports, in particular the ordering of its assets.
pub fn validate_pool_configuration(
    stableswap_pool: StableswapPool,
    pool_id: u64,
    sttoken_denom: String,
    asset_ordering: AssetOrdering,
) -> (r: Result<(), ContractError>)
    ensures
        r == pool_config_check(stableswap_pool, pool_id, sttoken_denom@, asset_ordering),
{
    if pool_id != stableswap_pool.id {
        return Err(ContractError::PoolNotFoundOsmosis { pool_id });
    }
    let number_of_assets = stableswap_pool.pool_liquidity.len();
    if number_of_assets != 2 {
        return Err(ContractError::InvalidNumberOfPoolAssets { number: number_of_assets as u64 });
    }

    let expected_sttoken_index = asset_ordering.sttoken_index();
    let actual_denom = &stableswap_pool.pool_liquidity[expected_sttoken_index].denom;
    if !(sttoken_denom == *actual_denom) {
        return Err(ContractError::InvalidPoolAssetOrdering {});
    }

    Ok(())
}

} // verus!
