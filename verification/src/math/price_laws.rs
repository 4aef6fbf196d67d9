//! Laws of prices and fees: what the amounts of a trade satisfy.
//!
//! Amounts are stated by what holds of them, a rounded amount by the two bounds between
//! which it lies. Laws take the amounts on the way to a result as parameters.

use vstd::prelude::*;

use crate::constants::pump;
use crate::math::amm::{
    base_for_quote, effective_quote, pool_buy, pool_sell, pool_sell_inverse, quote_for_base,
    quote_from_base, AmmContext,
};
use crate::math::bonding_curve::{
    curve_buy, curve_sell, lemma_product_out_bounds, market_cap_check, tokens_to_sell,
};
use crate::math::fees::{
    amm_fee_bps, ceiling, creator_fee, curve_fee_bps, fee, lemma_reached_tier, market_cap,
    pump_pool, reached_tier, tier_fees,
};
use crate::math::utils::{envelope, lowered, mul_div, raised};
use crate::math::QuoteError;
use crate::pubkey::{derived, Pubkey, DEFAULT_KEY};
use crate::state::pump_amm::GlobalConfig;
use crate::state::{FeeConfig, FeeTier, Fees, Global};

verus! {

/// Whether `q` is `a / b` rounded down.
pub open spec fn is_floor(q: int, a: int, b: int) -> bool {
    &&& 0 < b
    &&& q * b <= a
    &&& a < (q + 1) * b
}

/// Whether `q` is `a / b` rounded up.
pub open spec fn is_ceiling(q: int, a: int, b: int) -> bool {
    &&& 0 < b
    &&& (q - 1) * b < a
    &&& a <= q * b
}

/// A quotient rounded down is the quotient of the integers.
pub proof fn lemma_floor(q: int, a: int, b: int)
    requires
        is_floor(q, a, b),
    ensures
        a / b == q,
{
    assert(a - q * b < b) by (nonlinear_arith)
        requires
            a < (q + 1) * b,
    ;
    vstd::arithmetic::div_mod::lemma_fundamental_div_mod_converse(a, b, q, a - q * b);
}

/// A quotient rounded up is the ceiling.
pub proof fn lemma_ceiling(q: int, a: int, b: int)
    requires
        is_ceiling(q, a, b),
    ensures
        ceiling(a, b) == q,
{
    assert(q * b <= a + b - 1 && a + b - 1 < (q + 1) * b) by (nonlinear_arith)
        requires
            (q - 1) * b < a,
            a <= q * b,
    ;
    lemma_floor(q, a + b - 1, b);
}

/// Whether tier `k` of a fee table is the one for a market cap of `cap`: it has the
/// highest of the thresholds that `cap` reaches, and is the last of those with the
/// same; where `cap` reaches none, it is the first tier.
pub open spec fn is_tier_for(k: int, tiers: Seq<FeeTier>, cap: int) -> bool {
    &&& 0 <= k < tiers.len()
    &&& if tiers[k].market_cap_lamports_threshold <= cap {
        forall|j: int|
            0 <= j < tiers.len() && (#[trigger] tiers[j]).market_cap_lamports_threshold <= cap ==> {
                ||| tiers[j].market_cap_lamports_threshold < tiers[k].market_cap_lamports_threshold
                ||| tiers[j].market_cap_lamports_threshold
                    == tiers[k].market_cap_lamports_threshold && j <= k
            }
    } else {
        k == 0 && forall|j: int|
            0 <= j < tiers.len() ==> cap < (#[trigger] tiers[j]).market_cap_lamports_threshold
    }
}

/// A table charges the fees of its tier for the market cap.
pub proof fn lemma_tier(k: int, tiers: Seq<FeeTier>, cap: int)
    requires
        is_tier_for(k, tiers, cap),
    ensures
        tier_fees(tiers, cap) == tiers[k].fees,
{
    lemma_reached_tier(tiers, cap, tiers.len());
    let r = reached_tier(tiers, cap, tiers.len());
    if tiers[k].market_cap_lamports_threshold <= cap {
        assert(tiers[r].market_cap_lamports_threshold <= cap);
        assert(r == k);
    } else if r >= 0 {
        assert(cap < tiers[r].market_cap_lamports_threshold);
    }
}

/// Whether `key` is the address that the bonding-curve program derives as the creator
/// of the pool of `mint`.
pub open spec fn is_pool_authority(key: Pubkey, mint: Pubkey) -> bool {
    derived(seq![pump::POOL_AUTHORITY_SEED@, mint@], pump::PROGRAM_ID) matches Some((authority, _))
        && authority == key
}

/// Whether a pool that `creator` opened for `mint` takes `fees` at a market cap of
/// `cap`: those of the table's tier where the creator is the mint's pool authority, the
/// table's flat fees otherwise, and those of the global config where there is no table.
pub open spec fn are_pool_fees(
    fees: Fees,
    global_config: &GlobalConfig,
    fee_config: Option<&FeeConfig>,
    mint: Pubkey,
    creator: Pubkey,
    cap: int,
) -> bool {
    match fee_config {
        Some(config) => if is_pool_authority(creator, mint) {
            exists|k: int|
                #[trigger] is_tier_for(k, config.fee_tiers@, cap) && fees
                    == config.fee_tiers@[k].fees
        } else {
            fees == config.flat_fees
        },
        None => {
            &&& fees.lp_fee_bps == global_config.lp_fee_basis_points
            &&& fees.protocol_fee_bps == global_config.protocol_fee_basis_points
            &&& fees.creator_fee_bps == global_config.coin_creator_fee_basis_points
        },
    }
}

/// Whether `lp`, `protocol` and `creator` are the fees on `amount`, each rounded up;
/// without a coin creator there is no creator's fee.
pub open spec fn are_taken(
    amount: int,
    fees: Fees,
    coin_creator: Pubkey,
    lp: int,
    protocol: int,
    creator: int,
) -> bool {
    &&& is_ceiling(lp, amount * fees.lp_fee_bps, 10_000)
    &&& is_ceiling(protocol, amount * fees.protocol_fee_bps, 10_000)
    &&& if coin_creator == DEFAULT_KEY {
        creator == 0
    } else {
        is_ceiling(creator, amount * fees.creator_fee_bps, 10_000)
    }
}

/// Fees are not negative.
pub proof fn lemma_taken_nonnegative(
    amount: int,
    fees: Fees,
    coin_creator: Pubkey,
    lp: int,
    protocol: int,
    creator: int,
)
    requires
        0 <= amount,
        are_taken(amount, fees, coin_creator, lp, protocol, creator),
    ensures
        0 <= lp,
        0 <= protocol,
        0 <= creator,
{
    assert forall|bps: u64| 0 <= #[trigger] (amount * bps) by {
        assert(0 <= amount * bps) by (nonlinear_arith)
            requires
                0 <= amount,
                0 <= bps,
        ;
    }
}

/// All fees in basis points.
pub open spec fn sum_of(fees: Fees) -> int {
    fees.lp_fee_bps + fees.protocol_fee_bps + fees.creator_fee_bps
}

/// All fees that a trade with a coin of `coin_creator` takes, in basis points.
pub open spec fn rate(fees: Fees, coin_creator: Pubkey) -> int {
    fees.lp_fee_bps + fees.protocol_fee_bps + if coin_creator == DEFAULT_KEY {
        0
    } else {
        fees.creator_fee_bps as int
    }
}

/// Whether a curve takes `protocol_bps` and `creator_bps` at a market cap of `cap`: those
/// of the table's tier, or of the global settings where there is no table.
pub open spec fn are_curve_fees(
    protocol_bps: u64,
    creator_bps: u64,
    global: &Global,
    fee_config: Option<&FeeConfig>,
    cap: int,
) -> bool {
    match fee_config {
        Some(config) => exists|k: int|
            {
                &&& #[trigger] is_tier_for(k, config.fee_tiers@, cap)
                &&& protocol_bps == config.fee_tiers@[k].fees.protocol_fee_bps
                &&& creator_bps == config.fee_tiers@[k].fees.creator_fee_bps
            },
        None => {
            &&& protocol_bps == global.fee_basis_points
            &&& creator_bps == global.creator_fee_basis_points
        },
    }
}

/// A fee is rounded up, and a coin without a creator pays none to one.
pub proof fn law_fees_round_up(amount: u64, bps: u64, creator: Pubkey, q: int)
    requires
        is_ceiling(q, amount * bps, 10_000),
    ensures
        fee(amount as int, bps as int) == q,
        creator != DEFAULT_KEY ==> creator_fee(creator, amount as int, bps as int) == q,
        creator == DEFAULT_KEY ==> creator_fee(creator, amount as int, bps as int) == 0,
{
    lemma_ceiling(q, amount * bps, 10_000);
}

/// The market cap is what the whole supply is worth at the price of the reserves,
/// rounded down.
pub proof fn law_market_cap(supply: u64, quote: u64, base: u64, cap: int)
    requires
        is_floor(cap, quote * supply, base as int),
    ensures
        market_cap(supply as int, quote as int, base as int) == cap,
{
    lemma_floor(cap, quote * supply, base as int);
}

/// A curve trade takes the protocol's and the creator's fees of the table's tier for the
/// market cap; without a table those of the global settings.
pub proof fn law_curve_fee_table(
    global: &Global,
    fee_config: Option<&FeeConfig>,
    supply: u64,
    quote: u64,
    tokens: u64,
    cap: int,
    protocol_bps: u64,
    creator_bps: u64,
)
    requires
        is_floor(cap, quote * supply, tokens as int),
        are_curve_fees(protocol_bps, creator_bps, global, fee_config, cap),
    ensures
        ({
            let bps = curve_fee_bps(
                global,
                fee_config,
                supply as int,
                quote as int,
                tokens as int,
            );
            bps.protocol_fee_bps == protocol_bps && bps.creator_fee_bps == creator_bps
        }),
{
    law_market_cap(supply, quote, tokens, cap);
    if let Some(config) = fee_config {
        let k = choose|k: int|
            {
                &&& #[trigger] is_tier_for(k, config.fee_tiers@, cap)
                &&& protocol_bps == config.fee_tiers@[k].fees.protocol_fee_bps
                &&& creator_bps == config.fee_tiers@[k].fees.creator_fee_bps
            };
        lemma_tier(k, config.fee_tiers@, cap);
    }
}

/// A pool trade takes the fees of the table's tier for the market cap where the pool's
/// creator is the mint's pool authority, else the table's flat fees; without a table
/// those of the global config.
pub proof fn law_pool_fee_table(
    global_config: &GlobalConfig,
    fee_config: Option<&FeeConfig>,
    mint: Pubkey,
    creator: Pubkey,
    supply: u64,
    base: u64,
    quote: u64,
    cap: int,
    fees: Fees,
)
    requires
        is_floor(cap, quote * supply, base as int),
        are_pool_fees(fees, global_config, fee_config, mint, creator, cap),
    ensures
        pump_pool(mint, creator) == is_pool_authority(creator, mint),
        ({
            let bps = amm_fee_bps(
                global_config,
                fee_config,
                pump_pool(mint, creator),
                supply as int,
                base as int,
                quote as int,
            );
            &&& bps.lp_fee_bps == fees.lp_fee_bps
            &&& bps.protocol_fee_bps == fees.protocol_fee_bps
            &&& bps.creator_fee_bps == fees.creator_fee_bps
        }),
{
    law_market_cap(supply, quote, base, cap);
    if let Some(config) = fee_config {
        if is_pool_authority(creator, mint) {
            let k = choose|k: int|
                #[trigger] is_tier_for(k, config.fee_tiers@, cap) && fees
                    == config.fee_tiers@[k].fees;
            lemma_tier(k, config.fee_tiers@, cap);
        }
    }
}

/// Whether a context can price a trade on a reserve of `quote` and takes `fees`.
pub open spec fn prices(ctx: &AmmContext<'_>, quote: u64, cap: int, fees: Fees) -> bool {
    &&& 0 < ctx.base_reserve
    &&& 0 < quote
    &&& quote == ctx.quote_reserve + ctx.virtual_quote_reserves
    &&& is_floor(cap, quote * ctx.base_mint_supply, ctx.base_reserve as int)
    &&& are_pool_fees(
        fees,
        ctx.global_config,
        ctx.fee_config,
        *ctx.base_mint,
        *ctx.pool_creator,
        cap,
    )
}

proof fn lemma_prices(ctx: &AmmContext<'_>, quote: u64, cap: int, fees: Fees)
    requires
        prices(ctx, quote, cap, fees),
    ensures
        ctx.checked_quote() == Ok::<u64, QuoteError>(quote),
        ctx.has_fees(),
        ctx.fee_bps(quote as int).lp_fee_bps == fees.lp_fee_bps,
        ctx.fee_bps(quote as int).protocol_fee_bps == fees.protocol_fee_bps,
        ctx.fee_bps(quote as int).creator_fee_bps == fees.creator_fee_bps,
{
    law_pool_fee_table(
        ctx.global_config,
        ctx.fee_config,
        *ctx.base_mint,
        *ctx.pool_creator,
        ctx.base_mint_supply,
        ctx.base_reserve,
        quote,
        cap,
        fees,
    );
}

/// A sale to a pool takes `raw` out of it, which keeps the product of the reserves, and
/// pays it less the fees on it, or nothing where they exceed it. Fees above the whole
/// that exceed it are an error.
pub proof fn law_pool_sale(
    ctx: &AmmContext<'_>,
    amount: u64,
    quote: u64,
    cap: int,
    fees: Fees,
    raw: int,
    lp: int,
    protocol: int,
    creator: int,
)
    requires
        prices(ctx, quote, cap, fees),
        is_floor(raw, amount * quote, ctx.base_reserve + amount),
        are_taken(raw, fees, *ctx.coin_creator, lp, protocol, creator),
    ensures
        0 <= raw <= quote,
        ({
            let left = raw - lp - protocol - creator;
            if left < 0 && sum_of(fees) > 10_000 {
                quote_from_base(ctx, amount) matches Err(e) && e == QuoteError::FeesExceedOutput
            } else {
                quote_from_base(ctx, amount) matches Ok(r) && {
                    &&& r.raw_quote_out == raw
                    &&& left >= 0 ==> r.final_quote_out == left
                    &&& left < 0 ==> r.final_quote_out == 0
                }
            }
        }),
{
    lemma_prices(ctx, quote, cap, fees);
    lemma_floor(raw, amount * quote, ctx.base_reserve + amount);
    lemma_product_out_bounds(ctx.base_reserve as int, quote as int, amount as int);
    lemma_taken_nonnegative(raw, fees, *ctx.coin_creator, lp, protocol, creator);
    lemma_ceiling(lp, raw * fees.lp_fee_bps, 10_000);
    lemma_ceiling(protocol, raw * fees.protocol_fee_bps, 10_000);
    if *ctx.coin_creator != DEFAULT_KEY {
        lemma_ceiling(creator, raw * fees.creator_fee_bps, 10_000);
    }
}

/// A purchase from a pool for an exact payment puts `net` into it, the most that leaves
/// enough for the fees on top, and takes the tokens out that keep the product of the
/// reserves.
pub proof fn law_pool_payment(
    ctx: &AmmContext<'_>,
    payment: u64,
    quote: u64,
    cap: int,
    fees: Fees,
    net: int,
    tokens: int,
)
    requires
        prices(ctx, quote, cap, fees),
        is_floor(net, payment * 10_000, 10_000 + rate(fees, *ctx.coin_creator)),
        is_floor(tokens, net * ctx.base_reserve, quote + net),
    ensures
        rate(fees, *ctx.coin_creator) <= u64::MAX ==> (base_for_quote(ctx, payment) matches Ok(r)
            && r.effective_quote == net && r.base_amount_out == tokens),
        rate(fees, *ctx.coin_creator) > u64::MAX ==> (base_for_quote(ctx, payment) matches Err(e)
            && e == QuoteError::MathOverflow),
{
    lemma_prices(ctx, quote, cap, fees);
    let whole = 10_000 + rate(fees, *ctx.coin_creator);
    lemma_floor(net, payment * 10_000, whole);
    assert(0 <= net <= payment) by (nonlinear_arith)
        requires
            0 <= payment,
            net * whole <= payment * 10_000,
            payment * 10_000 < (net + 1) * whole,
            10_000 <= whole,
    ;
    lemma_floor(tokens, net * ctx.base_reserve, quote + net);
    lemma_product_out_bounds(quote as int, ctx.base_reserve as int, net);
}

/// A purchase of exact tokens from a pool puts `raw` into it, the least that keeps the
/// product of the reserves, and costs the fees on it besides. Tokens that the pool does
/// not have, and a cost that an amount cannot hold, are errors.
pub proof fn law_pool_purchase(
    ctx: &AmmContext<'_>,
    tokens: u64,
    quote: u64,
    cap: int,
    fees: Fees,
    raw: int,
    lp: int,
    protocol: int,
    creator: int,
)
    requires
        prices(ctx, quote, cap, fees),
        tokens < ctx.base_reserve ==> is_ceiling(raw, quote * tokens, ctx.base_reserve - tokens),
        are_taken(raw, fees, *ctx.coin_creator, lp, protocol, creator),
    ensures
        ({
            let cost = raw + lp + protocol + creator;
            if tokens >= ctx.base_reserve {
                quote_for_base(ctx, tokens) matches Err(e) && e
                    == QuoteError::BaseOutExceedsReserve
            } else if cost > u64::MAX {
                quote_for_base(ctx, tokens) matches Err(e) && e == QuoteError::MathOverflow
            } else {
                quote_for_base(ctx, tokens) matches Ok(r) && r.raw_quote_in == raw
                    && r.total_quote_in == cost
            }
        }),
{
    lemma_prices(ctx, quote, cap, fees);
    if tokens < ctx.base_reserve {
        let rest = ctx.base_reserve - tokens;
        lemma_ceiling(raw, quote * tokens, rest);
        assert(0 <= quote * tokens) by (nonlinear_arith)
            requires
                0 <= quote,
                0 <= tokens,
        ;
        assert(0 <= raw) by (nonlinear_arith)
            requires
                0 <= quote * tokens,
                quote * tokens <= raw * rest,
                0 < rest,
        ;
        lemma_taken_nonnegative(raw, fees, *ctx.coin_creator, lp, protocol, creator);
        lemma_ceiling(lp, raw * fees.lp_fee_bps, 10_000);
        lemma_ceiling(protocol, raw * fees.protocol_fee_bps, 10_000);
        if *ctx.coin_creator != DEFAULT_KEY {
            lemma_ceiling(creator, raw * fees.creator_fee_bps, 10_000);
        }
    }
}

proof fn lemma_mul_div(a: u64, b: u64, denom: int, q: int)
    requires
        is_floor(q, a * b, denom),
    ensures
        mul_div(a as int, b as int, denom) matches Ok(r) && r == q,
{
    lemma_floor(q, a * b, denom);
    assert(0 <= a * b <= u64::MAX * u64::MAX) by (nonlinear_arith)
        requires
            0 <= a <= u64::MAX,
            0 <= b <= u64::MAX,
    ;
    assert(0 <= q <= a * b) by (nonlinear_arith)
        requires
            0 <= a * b,
            q * denom <= a * b,
            a * b < (q + 1) * denom,
            1 <= denom,
    ;
}

/// A quotient of a product is rounded down; a product that leaves 128 bits and a zero
/// divisor are overflows.
pub proof fn law_scaled_quotient(a: u128, b: u128, denom: u128, q: int)
    requires
        0 < denom ==> is_floor(q, a * b, denom as int),
    ensures
        0 < denom && a * b <= u128::MAX ==> (mul_div(a as int, b as int, denom as int) matches Ok(r)
            && r == q),
        denom == 0 || a * b > u128::MAX ==> (mul_div(a as int, b as int, denom as int) matches Err(
            e,
        ) && e == QuoteError::MathOverflow),
{
    if 0 < denom {
        lemma_floor(q, a * b, denom as int);
        assert(0 <= a * b) by (nonlinear_arith)
            requires
                0 <= a,
                0 <= b,
        ;
        assert(0 <= q <= a * b) by (nonlinear_arith)
            requires
                0 <= a * b,
                q * denom <= a * b,
                a * b < (q + 1) * denom,
                1 <= denom,
        ;
    }
}

/// Before fees, what a pool gives keeps the product of its reserves, the quote reserve
/// counted with the pool's own figure; and to get `amount` out of it takes the tokens
/// that would, rounded down, where the pool holds more than that.
pub proof fn law_raw_pool_prices(
    base: u64,
    quote: u64,
    own: i128,
    amount: u64,
    sold: int,
    bought: int,
    needed: int,
)
    requires
        0 < quote + own <= u64::MAX,
        0 < base,
        is_floor(sold, amount * (quote + own), base + amount),
        is_floor(bought, amount * base, quote + own + amount),
        amount < quote + own ==> is_floor(needed, amount * base, quote + own - amount),
    ensures
        pool_sell(base, quote, own, amount) matches Ok(r) && r == sold,
        pool_buy(base, quote, own, amount) matches Ok(r) && r == bought,
        amount < quote + own ==> (pool_sell_inverse(base, quote, own, amount) matches Ok(r) && r
            == needed),
        amount >= quote + own ==> (pool_sell_inverse(base, quote, own, amount) matches Err(e) && e
            == QuoteError::MathOverflow),
{
    let effective = (quote + own) as u64;
    lemma_mul_div(amount, effective, base + amount, sold);
    lemma_mul_div(amount, base, effective + amount, bought);
    if amount < effective {
        lemma_mul_div(amount, base, effective - amount, needed);
    }
}

/// Before fees, what a curve gives keeps the product of its reserves; and to get `amount`
/// out of it takes the tokens that would, rounded down, where it holds more than that.
pub proof fn law_raw_curve_prices(
    quote: u64,
    tokens: u64,
    amount: u64,
    sold: int,
    bought: int,
    needed: int,
)
    requires
        0 < tokens + amount ==> is_floor(sold, amount * quote, tokens + amount),
        0 < quote + amount ==> is_floor(bought, amount * tokens, quote + amount),
        amount < quote ==> is_floor(needed, amount * tokens, quote - amount),
    ensures
        0 < tokens + amount ==> (curve_sell(quote, tokens, amount) matches Ok(r) && r == sold),
        0 < quote + amount ==> (curve_buy(quote, tokens, amount) matches Ok(r) && r == bought),
        amount < quote ==> (tokens_to_sell(quote as int, tokens as int, amount as int) matches Ok(r)
            && r == needed),
        tokens + amount == 0 ==> (curve_sell(quote, tokens, amount) matches Err(e) && e
            == QuoteError::MathOverflow),
        quote + amount == 0 ==> (curve_buy(quote, tokens, amount) matches Err(e) && e
            == QuoteError::MathOverflow),
        amount >= quote ==> (tokens_to_sell(quote as int, tokens as int, amount as int) matches Err(
            e,
        ) && e == QuoteError::MathOverflow),
{
    if 0 < tokens + amount {
        lemma_mul_div(amount, quote, tokens + amount, sold);
    }
    if 0 < quote + amount {
        lemma_mul_div(amount, tokens, quote + amount, bought);
    }
    if amount < quote {
        lemma_mul_div(amount, tokens, quote - amount, needed);
    }
}

/// A market cap passes exactly where it is off its target by no more than the slippage
/// of the target, rounded down. It is that of a billion tokens with six decimals.
pub proof fn law_market_cap_check(
    quote: u64,
    base: u64,
    target: u128,
    bps: u16,
    cap: int,
    width: int,
)
    requires
        0 < base,
        is_floor(cap, 1_000_000_000 * 1_000_000 * quote, base as int),
        is_floor(width, target * bps, 10_000),
        target * bps <= u128::MAX,
        width <= target,
        target + width <= u128::MAX,
    ensures
        market_cap_check(quote as int, base as int, target as int, bps as int) matches Ok(_)
            <==> target - width <= cap <= target + width,
        market_cap_check(quote as int, base as int, target as int, bps as int) matches Err(e) ==> e
            == QuoteError::SlippageExceeded,
{
    lemma_floor(width, target * bps, 10_000);
    lemma_mul_div(1_000_000_000_000_000, quote, base as int, cap);
}

/// The amounts with slippage are rounded down; none is left from the whole on.
pub proof fn law_slippage_amounts(value: u64, bps: u16, more: int, less: int)
    requires
        is_floor(more, value * (10_000 + bps), 10_000),
        is_floor(less, value * (10_000 - bps), 10_000),
    ensures
        raised(value as int, bps as int) == more,
        bps < 10_000 ==> lowered(value as int, bps as int) == less,
        bps >= 10_000 ==> lowered(value as int, bps as int) == 0,
{
    lemma_floor(more, value * (10_000 + bps), 10_000);
    lemma_floor(less, value * (10_000 - bps), 10_000);
}

/// The envelope round a value reaches as far as the slippage of it, rounded down, on
/// either side, where each step fits in 128 bits.
pub proof fn law_envelope(value: u128, bps: u16, width: int)
    requires
        is_floor(width, value * bps, 10_000),
    ensures
        ({
            let fits = value * bps <= u128::MAX && width <= value && value + width <= u128::MAX;
            &&& fits ==> envelope(value as int, bps as int) == Some((value - width, value + width))
            &&& !fits ==> envelope(value as int, bps as int) is None
        }),
{
    lemma_floor(width, value * bps, 10_000);
}

/// A pool is priced on the sum of its vault's balance and its own figure: nothing is
/// quoted where it is not positive, and one that an amount cannot hold is an overflow.
pub proof fn law_effective_reserve(quote: u64, own: i128)
    ensures
        0 < quote + own <= u64::MAX ==> (effective_quote(quote, own) matches Ok(r) && r == quote
            + own),
        quote + own <= 0 ==> (effective_quote(quote, own) matches Err(e) && e
            == QuoteError::EmptyReserves),
        quote + own > u64::MAX ==> (effective_quote(quote, own) matches Err(e) && e
            == QuoteError::MathOverflow),
{
}

} // verus!
