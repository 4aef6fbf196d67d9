//! Fee math shared by the bonding-curve and AMM quotes. Fees are basis points.

use vstd::prelude::*;

use crate::math::utils::BPS_DENOMINATOR;
use crate::math::{QuoteError, QuoteResult};
use crate::pda::pump::{pool_authority, pool_authority_pda};
use crate::pubkey::{is_default_key, same_key, Pubkey, DEFAULT_KEY};
use crate::state::pump_amm::GlobalConfig;
use crate::state::{FeeConfig, FeeTier, Fees, Global};

verus! {

/// `a / b` rounded up.
pub open spec fn ceiling(a: int, b: int) -> int {
    (a + b - 1) / b
}

/// The fee on `amount` at `bps` basis points, rounded up.
pub open spec fn fee(amount: int, bps: int) -> int {
    ceiling(amount * bps, 10_000)
}

/// `a / b` rounded up.
pub fn ceil_div(a: u128, b: u128) -> (r: u128)
    requires
        b != 0,
    ensures
        r == ceiling(a as int, b as int),
{
    let quotient: u128 = a / b;
    let remainder: u128 = a % b;
    proof {
        lemma_ceiling_parts(a as int, b as int);
    }
    if remainder == 0 {
        quotient
    } else {
        quotient + 1
    }
}

proof fn lemma_ceiling_parts(a: int, b: int)
    requires
        0 <= a,
        0 < b,
    ensures
        a % b == 0 ==> ceiling(a, b) == a / b,
        a % b != 0 ==> ceiling(a, b) == a / b + 1,
        a % b != 0 ==> a / b < a,
{
    let q = a / b;
    let r = a % b;
    vstd::arithmetic::div_mod::lemma_fundamental_div_mod(a, b);
    if r == 0 {
        vstd::arithmetic::div_mod::lemma_fundamental_div_mod_converse(a + b - 1, b, q, b - 1);
    } else {
        assert(b * (q + 1) == b * q + b) by (nonlinear_arith);
        vstd::arithmetic::div_mod::lemma_fundamental_div_mod_converse(a + b - 1, b, q + 1, r - 1);
        assert(q <= b * q) by (nonlinear_arith)
            requires
                1 <= b,
                0 <= q,
        ;
    }
}

/// `amount * basis_points / 10_000`, rounded up.
pub fn fee_amount(amount: u128, basis_points: u64) -> (r: u128)
    requires
        amount * basis_points <= u128::MAX,
    ensures
        r == fee(amount as int, basis_points as int),
{
    ceil_div(amount * basis_points as u128, 10_000)
}

/// The fee that a coin's creator takes; none where no creator is set.
pub open spec fn creator_fee(creator: Pubkey, amount: int, bps: int) -> int {
    if creator == DEFAULT_KEY {
        0
    } else {
        fee(amount, bps)
    }
}

/// The creator's fee; zero for the all-zero creator.
pub fn creator_fee_amount(creator: &Pubkey, amount: u128, basis_points: u64) -> (r: u128)
    requires
        *creator != DEFAULT_KEY ==> amount * basis_points <= u128::MAX,
    ensures
        r == creator_fee(*creator, amount as int, basis_points as int),
{
    if is_default_key(creator) {
        0
    } else {
        fee_amount(amount, basis_points)
    }
}

/// `quote * supply / base`, the value of a whole supply at the current price.
pub open spec fn market_cap(supply: int, quote: int, base: int) -> int {
    quote * supply / base
}

fn market_cap_of(supply: u64, quote: u64, base: u64) -> (r: u128)
    requires
        base != 0,
    ensures
        r == market_cap(supply as int, quote as int, base as int),
{
    assert(0 <= quote * supply <= u64::MAX * u64::MAX) by (nonlinear_arith)
        requires
            0 <= quote <= u64::MAX,
            0 <= supply <= u64::MAX,
    ;
    (quote as u128) * (supply as u128) / (base as u128)
}

/// Bonding-curve market cap in lamports.
pub fn bonding_curve_market_cap(
    mint_supply: u64,
    virtual_quote_reserves: u64,
    virtual_token_reserves: u64,
) -> (r: u128)
    requires
        virtual_token_reserves != 0,
    ensures
        r == market_cap(
            mint_supply as int,
            virtual_quote_reserves as int,
            virtual_token_reserves as int,
        ),
{
    market_cap_of(mint_supply, virtual_quote_reserves, virtual_token_reserves)
}

/// AMM pool market cap in lamports.
pub fn pool_market_cap(base_mint_supply: u64, base_reserve: u64, quote_reserve: u64) -> (r: u128)
    requires
        base_reserve != 0,
    ensures
        r == market_cap(base_mint_supply as int, quote_reserve as int, base_reserve as int),
{
    market_cap_of(base_mint_supply, quote_reserve, base_reserve)
}

/// Whether `pool_creator` is the pool authority that the bonding-curve program
/// derives for `base_mint`.
pub open spec fn pump_pool(base_mint: Pubkey, pool_creator: Pubkey) -> bool {
    pool_authority_pda(base_mint) matches Some((authority, _)) && authority == pool_creator
}

/// Whether a pool is the canonical one of `base_mint`, which gets tiered fees.
pub fn is_pump_pool(base_mint: &Pubkey, pool_creator: &Pubkey) -> (r: bool)
    ensures
        r == pump_pool(*base_mint, *pool_creator),
{
    match pool_authority(base_mint) {
        Some((authority, _)) => same_key(&authority, pool_creator),
        None => false,
    }
}

/// Bonding-curve fees, in basis points.
#[derive(Clone, Copy, Debug, PartialEq, Eq)]
pub struct BondingCurveFeeBps {
    pub protocol_fee_bps: u64,
    pub creator_fee_bps: u64,
}

/// AMM fees, in basis points.
#[derive(Clone, Copy, Debug, PartialEq, Eq)]
pub struct AmmFeeBps {
    pub lp_fee_bps: u64,
    pub protocol_fee_bps: u64,
    pub creator_fee_bps: u64,
}

impl BondingCurveFeeBps {
    /// Whether the fees add up to more than the amount they are taken off.
    pub open spec fn degenerate(self) -> bool {
        self.protocol_fee_bps + self.creator_fee_bps > BPS_DENOMINATOR
    }

    /// Whether the fees add up to more than the amount they are taken off.
    pub fn is_degenerate(self) -> (r: bool)
        ensures
            r == self.degenerate(),
    {
        self.protocol_fee_bps as u128 + self.creator_fee_bps as u128 > BPS_DENOMINATOR
    }
}

impl AmmFeeBps {
    /// Whether the fees add up to more than the amount they are taken off.
    pub open spec fn degenerate(self) -> bool {
        self.lp_fee_bps + self.protocol_fee_bps + self.creator_fee_bps > BPS_DENOMINATOR
    }

    /// Whether the fees add up to more than the amount they are taken off.
    pub fn is_degenerate(self) -> (r: bool)
        ensures
            r == self.degenerate(),
    {
        self.lp_fee_bps as u128 + self.protocol_fee_bps as u128 + self.creator_fee_bps as u128
            > BPS_DENOMINATOR
    }
}

/// Among the first `n` tiers, the one with the highest threshold that `market_cap`
/// reaches, the last of them where several share it; `-1` where it reaches none.
pub open spec fn reached_tier(tiers: Seq<FeeTier>, market_cap: int, n: nat) -> int
    decreases n,
{
    if n == 0 {
        -1
    } else {
        let before = reached_tier(tiers, market_cap, (n - 1) as nat);
        let threshold = tiers[n - 1].market_cap_lamports_threshold;
        if threshold <= market_cap && (before < 0 || tiers[before].market_cap_lamports_threshold
            <= threshold) {
            n - 1
        } else {
            before
        }
    }
}

/// The fees for `market_cap`: those of the tier it reaches, or of the first tier.
pub open spec fn tier_fees(tiers: Seq<FeeTier>, market_cap: int) -> Fees {
    let reached = reached_tier(tiers, market_cap, tiers.len());
    if reached < 0 {
        tiers[0].fees
    } else {
        tiers[reached].fees
    }
}

/// The tier that is reached has the highest of the reached thresholds and is the last
/// with it.
pub proof fn lemma_reached_tier(tiers: Seq<FeeTier>, market_cap: int, n: nat)
    requires
        n <= tiers.len(),
    ensures
        -1 <= reached_tier(tiers, market_cap, n) < n,
        reached_tier(tiers, market_cap, n) >= 0 ==> tiers[reached_tier(
            tiers,
            market_cap,
            n,
        )].market_cap_lamports_threshold <= market_cap,
        forall|j: int|
            0 <= j < n && (#[trigger] tiers[j]).market_cap_lamports_threshold <= market_cap ==> {
                let k = reached_tier(tiers, market_cap, n);
                &&& k >= 0
                &&& tiers[j].market_cap_lamports_threshold <= tiers[k].market_cap_lamports_threshold
                &&& tiers[j].market_cap_lamports_threshold == tiers[k].market_cap_lamports_threshold
                    ==> j <= k
            },
    decreases n,
{
    if n > 0 {
        lemma_reached_tier(tiers, market_cap, (n - 1) as nat);
    }
}

/// The tier that applies has the highest threshold that the market cap reaches;
/// below every threshold the first tier applies.
pub proof fn law_fee_tier_is_highest_reached(tiers: Seq<FeeTier>, market_cap: int)
    requires
        tiers.len() > 0,
    ensures
        (forall|j: int|
            0 <= j < tiers.len() ==> market_cap < (
            #[trigger] tiers[j]).market_cap_lamports_threshold) ==> tier_fees(tiers, market_cap)
            == tiers[0].fees,
        (exists|j: int|
            0 <= j < tiers.len() && (#[trigger] tiers[j]).market_cap_lamports_threshold
                <= market_cap) ==> exists|k: int|
            {
                &&& 0 <= k < tiers.len()
                &&& (#[trigger] tiers[k]).market_cap_lamports_threshold <= market_cap
                &&& tier_fees(tiers, market_cap) == tiers[k].fees
                &&& forall|j: int|
                    0 <= j < tiers.len() && (#[trigger] tiers[j]).market_cap_lamports_threshold
                        <= market_cap ==> tiers[j].market_cap_lamports_threshold
                        <= tiers[k].market_cap_lamports_threshold
            },
{
    lemma_reached_tier(tiers, market_cap, tiers.len());
    let k = reached_tier(tiers, market_cap, tiers.len());
    if k >= 0 {
        assert(tiers[k].market_cap_lamports_threshold <= market_cap);
    }
}

/// In a table with rising thresholds the last tier that the market cap reaches applies.
pub proof fn law_rising_table_takes_the_last_tier(tiers: Seq<FeeTier>, market_cap: int, k: int)
    requires
        0 <= k < tiers.len(),
        forall|i: int, j: int|
            0 <= i < j < tiers.len() ==> (#[trigger] tiers[i]).market_cap_lamports_threshold <= (
            #[trigger] tiers[j]).market_cap_lamports_threshold,
        tiers[k].market_cap_lamports_threshold <= market_cap,
        forall|j: int|
            k < j < tiers.len() ==> market_cap < (#[trigger] tiers[j]).market_cap_lamports_threshold,
    ensures
        tier_fees(tiers, market_cap) == tiers[k].fees,
{
    lemma_reached_tier(tiers, market_cap, tiers.len());
    let r = reached_tier(tiers, market_cap, tiers.len());
    assert(r >= 0 && r <= k);
    assert(tiers[k].market_cap_lamports_threshold <= tiers[r].market_cap_lamports_threshold);
}

/// Picks the fees for `market_cap` out of a fee table.
fn calculate_fee_tier(tiers: &Vec<FeeTier>, market_cap: u128) -> (r: Fees)
    requires
        tiers@.len() > 0,
    ensures
        r == tier_fees(tiers@, market_cap as int),
{
    let mut reached: Option<usize> = None;
    let mut i: usize = 0;
    while i < tiers.len()
        invariant
            i <= tiers@.len(),
            match reached {
                Some(k) => k < i && k == reached_tier(tiers@, market_cap as int, i as nat),
                None => reached_tier(tiers@, market_cap as int, i as nat) == -1,
            },
        decreases tiers@.len() - i,
    {
        let threshold: u128 = tiers[i].market_cap_lamports_threshold;
        if threshold <= market_cap {
            match reached {
                None => {
                    reached = Some(i);
                },
                Some(k) => {
                    if tiers[k].market_cap_lamports_threshold <= threshold {
                        reached = Some(i);
                    }
                },
            }
        }
        i = i + 1;
    }
    match reached {
        Some(k) => tiers[k].fees,
        None => tiers[0].fees,
    }
}

/// The fees of a bonding-curve trade: the fee table's tier for the market cap, or
/// the flat fees of `global` where there is no table.
pub open spec fn curve_fee_bps(
    global: &Global,
    fee_config: Option<&FeeConfig>,
    supply: int,
    quote: int,
    tokens: int,
) -> BondingCurveFeeBps {
    match fee_config {
        Some(config) => {
            let fees = tier_fees(config.fee_tiers@, market_cap(supply, quote, tokens));
            BondingCurveFeeBps {
                protocol_fee_bps: fees.protocol_fee_bps,
                creator_fee_bps: fees.creator_fee_bps,
            }
        },
        None => BondingCurveFeeBps {
            protocol_fee_bps: global.fee_basis_points,
            creator_fee_bps: global.creator_fee_basis_points,
        },
    }
}

/// Whether a fee table, where there is one, has a tier.
pub open spec fn has_tier(fee_config: Option<&FeeConfig>) -> bool {
    fee_config matches Some(config) ==> config.fee_tiers@.len() > 0
}

/// The fees of a bonding-curve trade.
pub fn compute_bonding_curve_fee_bps(
    global: &Global,
    fee_config: Option<&FeeConfig>,
    mint_supply: u64,
    virtual_quote_reserves: u64,
    virtual_token_reserves: u64,
) -> (r: BondingCurveFeeBps)
    requires
        has_tier(fee_config),
        fee_config is Some ==> virtual_token_reserves != 0,
    ensures
        r == curve_fee_bps(
            global,
            fee_config,
            mint_supply as int,
            virtual_quote_reserves as int,
            virtual_token_reserves as int,
        ),
{
    match fee_config {
        Some(config) => {
            let cap: u128 = bonding_curve_market_cap(
                mint_supply,
                virtual_quote_reserves,
                virtual_token_reserves,
            );
            let fees = calculate_fee_tier(&config.fee_tiers, cap);
            BondingCurveFeeBps {
                protocol_fee_bps: fees.protocol_fee_bps,
                creator_fee_bps: fees.creator_fee_bps,
            }
        },
        None => BondingCurveFeeBps {
            protocol_fee_bps: global.fee_basis_points,
            creator_fee_bps: global.creator_fee_basis_points,
        },
    }
}

/// The fees of an AMM trade. With a fee table, canonical pools take the tier for
/// the market cap and other pools the flat fees; without one, the fees of
/// `global_config` apply.
pub open spec fn amm_fee_bps(
    global_config: &GlobalConfig,
    fee_config: Option<&FeeConfig>,
    canonical: bool,
    supply: int,
    base: int,
    quote: int,
) -> AmmFeeBps {
    match fee_config {
        Some(config) => {
            let fees = if canonical {
                tier_fees(config.fee_tiers@, market_cap(supply, quote, base))
            } else {
                config.flat_fees
            };
            AmmFeeBps {
                lp_fee_bps: fees.lp_fee_bps,
                protocol_fee_bps: fees.protocol_fee_bps,
                creator_fee_bps: fees.creator_fee_bps,
            }
        },
        None => AmmFeeBps {
            lp_fee_bps: global_config.lp_fee_basis_points,
            protocol_fee_bps: global_config.protocol_fee_basis_points,
            creator_fee_bps: global_config.coin_creator_fee_basis_points,
        },
    }
}

/// The fees of an AMM trade, given whether the pool is canonical.
pub fn amm_fee_bps_for(
    global_config: &GlobalConfig,
    fee_config: Option<&FeeConfig>,
    canonical: bool,
    base_mint_supply: u64,
    base_reserve: u64,
    quote_reserve: u64,
) -> (r: AmmFeeBps)
    requires
        canonical ==> has_tier(fee_config),
        fee_config is Some ==> base_reserve != 0,
    ensures
        r == amm_fee_bps(
            global_config,
            fee_config,
            canonical,
            base_mint_supply as int,
            base_reserve as int,
            quote_reserve as int,
        ),
{
    match fee_config {
        Some(config) => {
            let cap: u128 = pool_market_cap(base_mint_supply, base_reserve, quote_reserve);
            let fees = if canonical {
                calculate_fee_tier(&config.fee_tiers, cap)
            } else {
                config.flat_fees
            };
            AmmFeeBps {
                lp_fee_bps: fees.lp_fee_bps,
                protocol_fee_bps: fees.protocol_fee_bps,
                creator_fee_bps: fees.creator_fee_bps,
            }
        },
        None => AmmFeeBps {
            lp_fee_bps: global_config.lp_fee_basis_points,
            protocol_fee_bps: global_config.protocol_fee_basis_points,
            creator_fee_bps: global_config.coin_creator_fee_basis_points,
        },
    }
}

/// The fees of an AMM trade.
pub fn compute_amm_fee_bps(
    global_config: &GlobalConfig,
    fee_config: Option<&FeeConfig>,
    base_mint: &Pubkey,
    pool_creator: &Pubkey,
    base_mint_supply: u64,
    base_reserve: u64,
    quote_reserve: u64,
) -> (r: AmmFeeBps)
    requires
        pump_pool(*base_mint, *pool_creator) ==> has_tier(fee_config),
        fee_config is Some ==> base_reserve != 0,
    ensures
        r == amm_fee_bps(
            global_config,
            fee_config,
            pump_pool(*base_mint, *pool_creator),
            base_mint_supply as int,
            base_reserve as int,
            quote_reserve as int,
        ),
{
    let canonical: bool = match fee_config {
        Some(_) => is_pump_pool(base_mint, pool_creator),
        None => false,
    };
    amm_fee_bps_for(
        global_config,
        fee_config,
        canonical,
        base_mint_supply,
        base_reserve,
        quote_reserve,
    )
}

/// The fees of an AMM trade; `FeesExceedOutput` where the pool is canonical and
/// the fee table has no tier.
pub fn checked_amm_fee_bps(
    global_config: &GlobalConfig,
    fee_config: Option<&FeeConfig>,
    base_mint: &Pubkey,
    pool_creator: &Pubkey,
    base_mint_supply: u64,
    base_reserve: u64,
    quote_reserve: u64,
) -> (r: QuoteResult<AmmFeeBps>)
    requires
        base_reserve != 0,
    ensures
        r == (if pump_pool(*base_mint, *pool_creator) && !has_tier(fee_config) {
            Err(QuoteError::FeesExceedOutput)
        } else {
            Ok(
                amm_fee_bps(
                    global_config,
                    fee_config,
                    pump_pool(*base_mint, *pool_creator),
                    base_mint_supply as int,
                    base_reserve as int,
                    quote_reserve as int,
                ),
            )
        }),
{
    if let Some(config) = fee_config {
        if config.fee_tiers.len() == 0 && is_pump_pool(base_mint, pool_creator) {
            return Err(QuoteError::FeesExceedOutput);
        }
    }
    Ok(
        compute_amm_fee_bps(
            global_config,
            fee_config,
            base_mint,
            pool_creator,
            base_mint_supply,
            base_reserve,
            quote_reserve,
        ),
    )
}

} // verus!
