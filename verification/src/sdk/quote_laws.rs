//! Laws of the quotes: what the amounts of a quote satisfy.
//!
//! Amounts are stated by what holds of them, a rounded amount by the two bounds between
//! which it lies. Each law takes the amounts on the way to a quote as parameters.

use vstd::prelude::*;

use crate::math::bonding_curve::lemma_product_out_bounds;
use crate::math::fees::{curve_fee_bps, fee, has_tier};
use crate::math::price_laws::{
    are_curve_fees, are_pool_fees, are_taken, is_ceiling, is_floor, is_pool_authority,
    is_tier_for, law_pool_payment, law_pool_purchase, law_pool_sale, lemma_ceiling, lemma_floor,
    lemma_tier, prices, rate, sum_of,
};
use crate::math::{QuoteError, QuoteResult};
use crate::pda::pump::pool_authority_pda;
use crate::pubkey::{Pubkey, DEFAULT_KEY};
use crate::sdk::{
    acceptable, curve_buy_quote, curve_sell_quote, curve_token_out_quote, opening_reserves,
    payable, pool_buy_quote, pool_sell_quote, pool_token_out_quote, quote_inputs, routed_quote,
    AmmQuoteSource, Quote, TradeQuoteParams,
};
use crate::state::pump_amm::{GlobalConfig, Pool};
use crate::state::{BondingCurve, FeeConfig, Fees, Global};

verus! {

/// Whether `m` is the least to accept for `amount` at a slippage of `bps`: that much
/// less, rounded down, and nothing from the whole on.
pub open spec fn is_least(m: u64, amount: u64, bps: u16) -> bool {
    if bps >= 10_000 {
        m == 0
    } else {
        is_floor(m as int, amount * (10_000 - bps), 10_000)
    }
}

/// Whether `m` is the most to pay for `amount` at a slippage of `bps`: that much more,
/// rounded down, and at most what an amount can hold.
pub open spec fn is_most(m: u64, amount: u64, bps: u16) -> bool {
    if amount * (10_000 + bps) >= (u64::MAX + 1) * 10_000 {
        m == u64::MAX
    } else {
        is_floor(m as int, amount * (10_000 + bps), 10_000)
    }
}

proof fn lemma_slippage(amount: u64, bps: u16)
    ensures
        is_least(acceptable(amount, bps), amount, bps),
        is_most(payable(amount, bps), amount, bps),
{
    let more = amount * (10_000 + bps);
    assert(0 <= more) by (nonlinear_arith)
        requires
            0 <= amount,
            0 <= bps,
            more == amount * (10_000 + bps),
    ;
    vstd::arithmetic::div_mod::lemma_fundamental_div_mod(more, 10_000);
    if bps < 10_000 {
        let less = amount * (10_000 - bps);
        assert(0 <= less <= amount * 10_000) by (nonlinear_arith)
            requires
                0 <= amount,
                0 <= bps < 10_000,
                less == amount * (10_000 - bps),
        ;
        vstd::arithmetic::div_mod::lemma_fundamental_div_mod(less, 10_000);
    }
}

/// A live pool with its vaults' balances and the supply of its base mint.
pub open spec fn live<'a>(
    pool: &'a Pool,
    base_reserve: u64,
    quote_reserve: u64,
    supply: u64,
) -> AmmQuoteSource<'a> {
    AmmQuoteSource::Pool { pool, base_reserve, quote_reserve, base_mint_supply: supply }
}

/// The reserve that a live pool is priced on: the balance of its quote vault and its
/// own figure.
pub open spec fn depth(pool: &Pool, quote_reserve: u64) -> int {
    quote_reserve + pool.virtual_quote_reserves
}

/// Whether a live pool can price a trade and takes `fees`.
pub open spec fn is_priced(
    global_config: &GlobalConfig,
    fee_config: Option<&FeeConfig>,
    pool: &Pool,
    base_reserve: u64,
    quote_reserve: u64,
    supply: u64,
    cap: int,
    fees: Fees,
) -> bool {
    &&& 0 < base_reserve
    &&& 0 < depth(pool, quote_reserve) <= u64::MAX
    &&& is_floor(cap, depth(pool, quote_reserve) * supply, base_reserve as int)
    &&& are_pool_fees(fees, global_config, fee_config, pool.base_mint, pool.creator, cap)
}

proof fn lemma_priced(
    global_config: &GlobalConfig,
    fee_config: Option<&FeeConfig>,
    pool: &Pool,
    base_reserve: u64,
    quote_reserve: u64,
    supply: u64,
    cap: int,
    fees: Fees,
)
    requires
        is_priced(
            global_config,
            fee_config,
            pool,
            base_reserve,
            quote_reserve,
            supply,
            cap,
            fees,
        ),
    ensures
        quote_inputs(
            global_config,
            fee_config,
            live(pool, base_reserve, quote_reserve, supply),
        ) matches Ok(inputs) && {
            let ctx = inputs.spec_context();
            &&& prices(&ctx, depth(pool, quote_reserve) as u64, cap, fees)
            &&& *ctx.coin_creator == pool.coin_creator
            &&& ctx.base_reserve == base_reserve
        },
{
}

/// A sale to a live pool pays what keeps the product of the reserves, `raw`, less the
/// fees of the pool on it, and nothing where they exceed it. Fees above the whole that
/// exceed it are an error.
pub proof fn law_pool_sale_quote(
    global_config: &GlobalConfig,
    fee_config: Option<&FeeConfig>,
    pool: &Pool,
    base_reserve: u64,
    quote_reserve: u64,
    supply: u64,
    amount: u64,
    bps: u16,
    cap: int,
    fees: Fees,
    raw: int,
    lp: int,
    protocol: int,
    creator: int,
)
    requires
        is_priced(
            global_config,
            fee_config,
            pool,
            base_reserve,
            quote_reserve,
            supply,
            cap,
            fees,
        ),
        is_floor(raw, amount * depth(pool, quote_reserve), base_reserve + amount),
        are_taken(raw, fees, pool.coin_creator, lp, protocol, creator),
    ensures
        ({
            let left = raw - lp - protocol - creator;
            let source = live(pool, base_reserve, quote_reserve, supply);
            let r = pool_sell_quote(quote_inputs(global_config, fee_config, source), amount, bps);
            if left < 0 && sum_of(fees) > 10_000 {
                r == Err::<Quote, QuoteError>(QuoteError::FeesExceedOutput)
            } else {
                r matches Ok(quote) && {
                    &&& left >= 0 ==> quote.amount == left
                    &&& left < 0 ==> quote.amount == 0
                    &&& is_least(quote.min_out, quote.amount, bps)
                    &&& quote.input_amount_used == amount
                    &&& quote.max_input == amount
                }
            }
        }),
{
    lemma_priced(
        global_config,
        fee_config,
        pool,
        base_reserve,
        quote_reserve,
        supply,
        cap,
        fees,
    );
    let inputs = quote_inputs(
        global_config,
        fee_config,
        live(pool, base_reserve, quote_reserve, supply),
    ).unwrap();
    let quote = depth(pool, quote_reserve) as u64;
    law_pool_sale(
        &inputs.spec_context(),
        amount,
        quote,
        cap,
        fees,
        raw,
        lp,
        protocol,
        creator,
    );
    let left = raw - lp - protocol - creator;
    lemma_slippage(
        if left < 0 {
            0
        } else {
            left as u64
        },
        bps,
    );
}

/// A purchase from a live pool for an exact payment: `net` is the most that can go to
/// the pool with the fees still paid on top, and the tokens are what keeps the product
/// of the reserves for it. The slippage applies to the tokens and to the payment.
pub proof fn law_pool_payment_quote(
    global_config: &GlobalConfig,
    fee_config: Option<&FeeConfig>,
    pool: &Pool,
    base_reserve: u64,
    quote_reserve: u64,
    supply: u64,
    payment: u64,
    bps: u16,
    cap: int,
    fees: Fees,
    net: int,
    tokens: int,
)
    requires
        is_priced(
            global_config,
            fee_config,
            pool,
            base_reserve,
            quote_reserve,
            supply,
            cap,
            fees,
        ),
        is_floor(net, payment * 10_000, 10_000 + rate(fees, pool.coin_creator)),
        is_floor(tokens, net * base_reserve, depth(pool, quote_reserve) + net),
    ensures
        ({
            let source = live(pool, base_reserve, quote_reserve, supply);
            let r = pool_buy_quote(quote_inputs(global_config, fee_config, source), payment, bps);
            if rate(fees, pool.coin_creator) > u64::MAX {
                r == Err::<Quote, QuoteError>(QuoteError::MathOverflow)
            } else {
                r matches Ok(quote) && {
                    &&& quote.amount == tokens
                    &&& is_least(quote.min_out, quote.amount, bps)
                    &&& quote.input_amount_used == payment
                    &&& is_most(quote.max_input, payment, bps)
                }
            }
        }),
{
    lemma_priced(
        global_config,
        fee_config,
        pool,
        base_reserve,
        quote_reserve,
        supply,
        cap,
        fees,
    );
    let inputs = quote_inputs(
        global_config,
        fee_config,
        live(pool, base_reserve, quote_reserve, supply),
    ).unwrap();
    let quote = depth(pool, quote_reserve) as u64;
    law_pool_payment(&inputs.spec_context(), payment, quote, cap, fees, net, tokens);
    lemma_slippage(tokens as u64, bps);
    lemma_slippage(payment, bps);
}

/// A purchase of exact tokens from a live pool costs the least, `raw`, that keeps the
/// product of the reserves, and the fees of the pool on it. A cost that an amount cannot
/// hold is an error, and so are tokens that the pool does not have.
pub proof fn law_pool_purchase_quote(
    global_config: &GlobalConfig,
    fee_config: Option<&FeeConfig>,
    pool: &Pool,
    base_reserve: u64,
    quote_reserve: u64,
    supply: u64,
    tokens: u64,
    bps: u16,
    cap: int,
    fees: Fees,
    raw: int,
    lp: int,
    protocol: int,
    creator: int,
)
    requires
        is_priced(
            global_config,
            fee_config,
            pool,
            base_reserve,
            quote_reserve,
            supply,
            cap,
            fees,
        ),
        tokens < base_reserve ==> is_ceiling(
            raw,
            depth(pool, quote_reserve) * tokens,
            base_reserve - tokens,
        ),
        are_taken(raw, fees, pool.coin_creator, lp, protocol, creator),
    ensures
        ({
            let cost = raw + lp + protocol + creator;
            let source = live(pool, base_reserve, quote_reserve, supply);
            let r = pool_token_out_quote(
                quote_inputs(global_config, fee_config, source),
                tokens,
                bps,
            );
            if tokens >= base_reserve {
                r == Err::<Quote, QuoteError>(QuoteError::BaseOutExceedsReserve)
            } else if cost > u64::MAX {
                r == Err::<Quote, QuoteError>(QuoteError::MathOverflow)
            } else {
                r matches Ok(quote) && {
                    &&& quote.amount == cost
                    &&& is_most(quote.max_input, quote.amount, bps)
                    &&& quote.min_out == tokens
                    &&& quote.input_amount_used == tokens
                }
            }
        }),
{
    lemma_priced(
        global_config,
        fee_config,
        pool,
        base_reserve,
        quote_reserve,
        supply,
        cap,
        fees,
    );
    let inputs = quote_inputs(
        global_config,
        fee_config,
        live(pool, base_reserve, quote_reserve, supply),
    ).unwrap();
    let quote = depth(pool, quote_reserve) as u64;
    law_pool_purchase(
        &inputs.spec_context(),
        tokens,
        quote,
        cap,
        fees,
        raw,
        lp,
        protocol,
        creator,
    );
    lemma_slippage((raw + lp + protocol + creator) as u64, bps);
}

/// Whether an open curve with reserves takes these fees where its tier is picked for
/// `supply` tokens.
pub open spec fn curve_takes(
    global: &Global,
    fee_config: Option<&FeeConfig>,
    curve: &BondingCurve,
    supply: int,
    cap: int,
    protocol_bps: u64,
    creator_bps: u64,
) -> bool {
    &&& 0 < curve.virtual_token_reserves
    &&& is_floor(
        cap,
        curve.virtual_quote_reserves * supply,
        curve.virtual_token_reserves as int,
    )
    &&& are_curve_fees(protocol_bps, creator_bps, global, fee_config, cap)
}

proof fn lemma_curve_takes(
    global: &Global,
    fee_config: Option<&FeeConfig>,
    curve: &BondingCurve,
    supply: int,
    cap: int,
    protocol_bps: u64,
    creator_bps: u64,
)
    requires
        curve_takes(global, fee_config, curve, supply, cap, protocol_bps, creator_bps),
    ensures
        has_tier(fee_config),
        ({
            let bps = curve_fee_bps(
                global,
                fee_config,
                supply,
                curve.virtual_quote_reserves as int,
                curve.virtual_token_reserves as int,
            );
            bps.protocol_fee_bps == protocol_bps && bps.creator_fee_bps == creator_bps
        }),
{
    lemma_floor(
        cap,
        curve.virtual_quote_reserves * supply,
        curve.virtual_token_reserves as int,
    );
    if let Some(config) = fee_config {
        let k = choose|k: int|
            {
                &&& #[trigger] is_tier_for(k, config.fee_tiers@, cap)
                &&& protocol_bps == config.fee_tiers@[k].fees.protocol_fee_bps
                &&& creator_bps == config.fee_tiers@[k].fees.creator_fee_bps
            };
        lemma_tier(k, config.fee_tiers@, cap);
    }
}

/// The rate of a curve that takes these fees; no creator, no creator's fee.
pub open spec fn curve_rate(curve: &BondingCurve, protocol_bps: u64, creator_bps: u64) -> int {
    protocol_bps + if curve.creator == DEFAULT_KEY {
        0
    } else {
        creator_bps as int
    }
}

/// A purchase on a curve for an exact payment: one lamport goes to rounding, `net` is
/// the most of the others that can go to the curve with the fees paid on top, and the
/// tokens are what keeps the product of the reserves for it, as far as the curve has
/// them. The tier is picked for the supply of the mint.
pub proof fn law_curve_payment_quote(
    global: &Global,
    fee_config: Option<&FeeConfig>,
    curve: &BondingCurve,
    supply: u64,
    payment: u64,
    bps: u16,
    cap: int,
    protocol_bps: u64,
    creator_bps: u64,
    net: int,
    tokens: int,
)
    requires
        0 < payment,
        0 < curve.virtual_quote_reserves,
        curve_takes(
            global,
            fee_config,
            curve,
            supply as int,
            cap,
            protocol_bps,
            creator_bps,
        ),
        is_floor(
            net,
            (payment - 1) * 10_000,
            10_000 + curve_rate(curve, protocol_bps, creator_bps),
        ),
        is_floor(
            tokens,
            net * curve.virtual_token_reserves,
            curve.virtual_quote_reserves + net,
        ),
    ensures
        ({
            let r = curve_buy_quote(global, fee_config, curve, supply, payment, bps);
            if curve_rate(curve, protocol_bps, creator_bps) > u64::MAX {
                r == Err::<Quote, QuoteError>(QuoteError::MathOverflow)
            } else {
                r matches Ok(quote) && {
                    &&& tokens <= curve.real_token_reserves ==> quote.amount == tokens
                    &&& tokens > curve.real_token_reserves ==> quote.amount
                        == curve.real_token_reserves
                    &&& is_least(quote.min_out, quote.amount, bps)
                    &&& quote.input_amount_used == payment
                    &&& quote.max_input == payment
                }
            }
        }),
{
    lemma_curve_takes(
        global,
        fee_config,
        curve,
        supply as int,
        cap,
        protocol_bps,
        creator_bps,
    );
    let whole = 10_000 + curve_rate(curve, protocol_bps, creator_bps);
    lemma_floor(net, (payment - 1) * 10_000, whole);
    assert(0 <= net) by (nonlinear_arith)
        requires
            0 <= (payment - 1) * 10_000,
            (payment - 1) * 10_000 < (net + 1) * whole,
            0 < whole,
    ;
    lemma_floor(tokens, net * curve.virtual_token_reserves, curve.virtual_quote_reserves + net);
    lemma_product_out_bounds(
        curve.virtual_quote_reserves as int,
        curve.virtual_token_reserves as int,
        net,
    );
    lemma_slippage(
        if tokens < curve.real_token_reserves {
            tokens as u64
        } else {
            curve.real_token_reserves
        },
        bps,
    );
}

/// The supply that picks the tier of sales and of purchases of exact tokens: a billion
/// tokens with six decimals, and in mayhem mode what the mint has issued.
pub open spec fn counted_supply(curve: &BondingCurve, mint_supply: u64) -> int {
    if curve.is_mayhem_mode {
        mint_supply as int
    } else {
        1_000_000_000int * 1_000_000
    }
}

/// Whether `protocol` and `creator` are the fees of a curve on `amount`, each rounded up.
pub open spec fn are_taken_by(
    curve: &BondingCurve,
    amount: int,
    protocol_bps: u64,
    creator_bps: u64,
    protocol: int,
    creator: int,
) -> bool {
    &&& is_ceiling(protocol, amount * protocol_bps, 10_000)
    &&& if curve.creator == DEFAULT_KEY {
        creator == 0
    } else {
        is_ceiling(creator, amount * creator_bps, 10_000)
    }
}

proof fn lemma_taken_by(
    curve: &BondingCurve,
    amount: int,
    protocol_bps: u64,
    creator_bps: u64,
    protocol: int,
    creator: int,
)
    requires
        0 <= amount,
        are_taken_by(curve, amount, protocol_bps, creator_bps, protocol, creator),
    ensures
        0 <= protocol,
        0 <= creator,
        fee(amount, protocol_bps as int) == protocol,
        curve.creator != DEFAULT_KEY ==> fee(amount, creator_bps as int) == creator,
{
    lemma_ceiling(protocol, amount * protocol_bps, 10_000);
    if curve.creator != DEFAULT_KEY {
        lemma_ceiling(creator, amount * creator_bps, 10_000);
    }
    assert forall|bps: u64| 0 <= #[trigger] (amount * bps) by {
        assert(0 <= amount * bps) by (nonlinear_arith)
            requires
                0 <= amount,
                0 <= bps,
        ;
    }
}

/// A purchase of exact tokens on a curve, no more than it has: it costs the least that
/// more than keeps the product of the reserves, `cost`, and the fees on it. A cost that
/// an amount cannot hold is an error, and so are tokens that would empty the curve.
pub proof fn law_curve_purchase_quote(
    global: &Global,
    fee_config: Option<&FeeConfig>,
    curve: &BondingCurve,
    supply: u64,
    wanted: u64,
    bps: u16,
    cap: int,
    protocol_bps: u64,
    creator_bps: u64,
    cost: int,
    protocol: int,
    creator: int,
)
    requires
        0 < wanted,
        curve_takes(
            global,
            fee_config,
            curve,
            counted_supply(curve, supply),
            cap,
            protocol_bps,
            creator_bps,
        ),
        ({
            let tokens = if wanted <= curve.real_token_reserves {
                wanted
            } else {
                curve.real_token_reserves
            };
            tokens < curve.virtual_token_reserves ==> is_floor(
                cost - 1,
                tokens * curve.virtual_quote_reserves,
                curve.virtual_token_reserves - tokens,
            )
        }),
        are_taken_by(curve, cost, protocol_bps, creator_bps, protocol, creator),
    ensures
        ({
            let r = curve_token_out_quote(global, fee_config, curve, supply, wanted, bps);
            let total = cost + protocol + creator;
            if wanted >= curve.virtual_token_reserves && curve.real_token_reserves
                >= curve.virtual_token_reserves {
                r == Err::<Quote, QuoteError>(QuoteError::DepletedBondingCurve)
            } else if total > u64::MAX {
                r == Err::<Quote, QuoteError>(QuoteError::MathOverflow)
            } else {
                r matches Ok(quote) && {
                    &&& quote.amount == total
                    &&& is_most(quote.max_input, quote.amount, bps)
                    &&& quote.min_out == wanted
                    &&& quote.input_amount_used == wanted
                }
            }
        }),
{
    lemma_curve_takes(
        global,
        fee_config,
        curve,
        counted_supply(curve, supply),
        cap,
        protocol_bps,
        creator_bps,
    );
    let tokens = if wanted <= curve.real_token_reserves {
        wanted
    } else {
        curve.real_token_reserves
    };
    if tokens < curve.virtual_token_reserves {
        let held = tokens * curve.virtual_quote_reserves;
        let rest = curve.virtual_token_reserves - tokens;
        lemma_floor(cost - 1, held, rest);
        let reserve = curve.virtual_quote_reserves;
        assert(0 <= tokens * reserve) by (nonlinear_arith)
            requires
                0 <= tokens,
                0 <= reserve,
        ;
        assert(0 <= cost) by (nonlinear_arith)
            requires
                0 <= held,
                held < (cost - 1 + 1) * rest,
                0 < rest,
        ;
        lemma_taken_by(curve, cost, protocol_bps, creator_bps, protocol, creator);
        lemma_slippage((cost + protocol + creator) as u64, bps);
    }
}

/// A sale on a curve pays what keeps the product of the reserves, `gross`, less the fees
/// on it, and nothing where they exceed it. Fees above the whole that exceed it are an
/// error.
pub proof fn law_curve_sale_quote(
    global: &Global,
    fee_config: Option<&FeeConfig>,
    curve: &BondingCurve,
    supply: u64,
    amount: u64,
    bps: u16,
    cap: int,
    protocol_bps: u64,
    creator_bps: u64,
    gross: int,
    protocol: int,
    creator: int,
)
    requires
        0 < amount,
        curve_takes(
            global,
            fee_config,
            curve,
            counted_supply(curve, supply),
            cap,
            protocol_bps,
            creator_bps,
        ),
        is_floor(
            gross,
            amount * curve.virtual_quote_reserves,
            curve.virtual_token_reserves + amount,
        ),
        are_taken_by(curve, gross, protocol_bps, creator_bps, protocol, creator),
    ensures
        ({
            let r = curve_sell_quote(global, fee_config, curve, supply, amount, bps);
            let left = gross - protocol - creator;
            if left < 0 && protocol_bps + creator_bps > 10_000 {
                r == Err::<Quote, QuoteError>(QuoteError::FeesExceedOutput)
            } else {
                r matches Ok(quote) && {
                    &&& left >= 0 ==> quote.amount == left
                    &&& left < 0 ==> quote.amount == 0
                    &&& is_least(quote.min_out, quote.amount, bps)
                    &&& quote.input_amount_used == amount
                    &&& quote.max_input == amount
                }
            }
        }),
{
    lemma_curve_takes(
        global,
        fee_config,
        curve,
        counted_supply(curve, supply),
        cap,
        protocol_bps,
        creator_bps,
    );
    lemma_floor(
        gross,
        amount * curve.virtual_quote_reserves,
        curve.virtual_token_reserves + amount,
    );
    lemma_product_out_bounds(
        curve.virtual_token_reserves as int,
        curve.virtual_quote_reserves as int,
        amount as int,
    );
    lemma_taken_by(curve, gross, protocol_bps, creator_bps, protocol, creator);
    let left = gross - protocol - creator;
    lemma_slippage(
        if left < 0 {
            0
        } else {
            left as u64
        },
        bps,
    );
}

/// The quote of a trade that moves nothing.
pub open spec fn is_idle(r: QuoteResult<Quote>, asked: u64) -> bool {
    r matches Ok(quote) && quote.amount == 0 && quote.input_amount_used == asked
}

/// On a curve that has migrated, and for a zero input on any, nothing is traded; only a
/// purchase from a curve without quote reserves fails.
pub proof fn law_idle_curve_quotes(
    global: &Global,
    fee_config: Option<&FeeConfig>,
    curve: &BondingCurve,
    supply: u64,
    amount: u64,
    bps: u16,
)
    ensures
        amount == 0 || curve.virtual_token_reserves == 0 ==> {
            &&& is_idle(curve_buy_quote(global, fee_config, curve, supply, amount, bps), amount)
            &&& is_idle(
                curve_token_out_quote(global, fee_config, curve, supply, amount, bps),
                amount,
            )
            &&& is_idle(curve_sell_quote(global, fee_config, curve, supply, amount, bps), amount)
        },
        amount > 0 && curve.virtual_token_reserves > 0 && curve.virtual_quote_reserves == 0
            ==> curve_buy_quote(global, fee_config, curve, supply, amount, bps) == Err::<
            Quote,
            QuoteError,
        >(QuoteError::EmptyReserves),
{
}

/// Without a tier in the fee table no trade on an open curve is quoted, nor one in a
/// pool that takes tiered fees.
pub proof fn law_table_without_tiers(
    global: &Global,
    global_config: &GlobalConfig,
    config: &FeeConfig,
    curve: &BondingCurve,
    pool: &Pool,
    base_reserve: u64,
    quote_reserve: u64,
    supply: u64,
    amount: u64,
    bps: u16,
)
    requires
        config.fee_tiers@.len() == 0,
        0 < amount,
    ensures
        0 < curve.virtual_token_reserves ==> {
            let refused = Err::<Quote, QuoteError>(QuoteError::FeesExceedOutput);
            &&& 0 < curve.virtual_quote_reserves ==> curve_buy_quote(
                global,
                Some(config),
                curve,
                supply,
                amount,
                bps,
            ) == refused
            &&& amount < curve.virtual_token_reserves ==> curve_token_out_quote(
                global,
                Some(config),
                curve,
                supply,
                amount,
                bps,
            ) == refused
            &&& curve_sell_quote(global, Some(config), curve, supply, amount, bps) == refused
        },
        ({
            &&& 0 < base_reserve
            &&& 0 < depth(pool, quote_reserve) <= u64::MAX
            &&& is_pool_authority(pool.creator, pool.base_mint)
        }) ==> {
            let refused = Err::<Quote, QuoteError>(QuoteError::FeesExceedOutput);
            let inputs = quote_inputs(
                global_config,
                Some(config),
                live(pool, base_reserve, quote_reserve, supply),
            );
            &&& pool_buy_quote(inputs, amount, bps) == refused
            &&& pool_sell_quote(inputs, amount, bps) == refused
            &&& amount < base_reserve ==> pool_token_out_quote(inputs, amount, bps) == refused
        },
{
}

/// A pool without base tokens, or with nothing in the reserve that it is priced on,
/// quotes no trade; one whose reserve an amount cannot hold is an overflow.
pub proof fn law_unpriced_pools(
    global_config: &GlobalConfig,
    fee_config: Option<&FeeConfig>,
    pool: &Pool,
    base_reserve: u64,
    quote_reserve: u64,
    supply: u64,
    amount: u64,
    bps: u16,
)
    ensures
        ({
            let inputs = quote_inputs(
                global_config,
                fee_config,
                live(pool, base_reserve, quote_reserve, supply),
            );
            let empty = base_reserve == 0 || depth(pool, quote_reserve) <= 0;
            let e = if empty {
                QuoteError::EmptyReserves
            } else {
                QuoteError::MathOverflow
            };
            empty || depth(pool, quote_reserve) > u64::MAX ==> {
                &&& pool_buy_quote(inputs, amount, bps) == Err::<Quote, QuoteError>(e)
                &&& pool_token_out_quote(inputs, amount, bps) == Err::<Quote, QuoteError>(e)
                &&& pool_sell_quote(inputs, amount, bps) == Err::<Quote, QuoteError>(e)
            }
        }),
{
}

/// A completed curve is quoted as the live pool that it is expected to open: that of the
/// mint's pool authority, for the curve's creator, without a figure of its own, holding
/// the supply that was never for sale and what the curve raised less the migration fee.
/// Without such reserves it is not quoted.
pub proof fn law_completed_curves_are_quoted_as_pools(
    global_config: &GlobalConfig,
    fee_config: Option<&FeeConfig>,
    global: &Global,
    curve: &BondingCurve,
    mint: &Pubkey,
    supply: u64,
    pool: &Pool,
    amount: u64,
    bps: u16,
)
    requires
        pool.base_mint == *mint,
        is_pool_authority(pool.creator, *mint),
        pool.coin_creator == curve.creator,
        pool.virtual_quote_reserves == 0,
    ensures
        ({
            let completed = quote_inputs(
                global_config,
                fee_config,
                AmmQuoteSource::BondingCurveComplete {
                    global,
                    bonding_curve: curve,
                    base_mint: mint,
                    base_mint_supply: supply,
                },
            );
            let base = global.token_total_supply - global.initial_real_token_reserves;
            let quote = curve.real_quote_reserves - global.pool_migration_fee;
            if base <= 0 || quote <= 0 {
                let e = QuoteError::EmptyReserves;
                &&& pool_buy_quote(completed, amount, bps) == Err::<Quote, QuoteError>(e)
                &&& pool_token_out_quote(completed, amount, bps) == Err::<Quote, QuoteError>(e)
                &&& pool_sell_quote(completed, amount, bps) == Err::<Quote, QuoteError>(e)
            } else {
                let opened = quote_inputs(
                    global_config,
                    fee_config,
                    live(pool, base as u64, quote as u64, supply),
                );
                &&& pool_buy_quote(completed, amount, bps) == pool_buy_quote(opened, amount, bps)
                &&& pool_token_out_quote(completed, amount, bps) == pool_token_out_quote(
                    opened,
                    amount,
                    bps,
                )
                &&& pool_sell_quote(completed, amount, bps) == pool_sell_quote(opened, amount, bps)
            }
        }),
{
}

/// A routed quote is the direct one for the amount and the slippage of the request: of a
/// purchase of exact tokens or of a sale, on the curve while it is open, on the live pool
/// once it is complete. A complete curve without a pool is not quoted.
pub proof fn law_routed_quotes_are_direct(params: TradeQuoteParams<'_>)
    ensures
        !params.bonding_curve.complete && params.is_buy ==> routed_quote(params) == Some(
            curve_token_out_quote(
                params.pump_global,
                params.pump_fee_config,
                params.bonding_curve,
                params.base_mint_supply,
                params.base_amount,
                params.slippage_bps,
            ),
        ),
        !params.bonding_curve.complete && !params.is_buy ==> routed_quote(params) == Some(
            curve_sell_quote(
                params.pump_global,
                params.pump_fee_config,
                params.bonding_curve,
                params.base_mint_supply,
                params.base_amount,
                params.slippage_bps,
            ),
        ),
        params.bonding_curve.complete ==> match params.pump_pool {
            Some(p) => {
                let inputs = quote_inputs(
                    p.amm_global,
                    p.amm_fee_config,
                    live(p.pool_state, p.base_reserve, p.quote_reserve, params.base_mint_supply),
                );
                &&& params.is_buy ==> routed_quote(params) == Some(
                    pool_token_out_quote(inputs, params.base_amount, params.slippage_bps),
                )
                &&& !params.is_buy ==> routed_quote(params) == Some(
                    pool_sell_quote(inputs, params.base_amount, params.slippage_bps),
                )
            },
            None => routed_quote(params) is None,
        },
{
}

/// Who the creator of a pool's coin is changes no quote, only whether there is one: two
/// live pools that differ in it alone are quoted alike. The creator of the pool itself
/// matters only in being the mint's pool authority or not.
pub proof fn law_quotes_do_not_tell_creators_apart(
    global_config: &GlobalConfig,
    fee_config: Option<&FeeConfig>,
    pool: &Pool,
    coin_creator: Pubkey,
    creator: Pubkey,
    base_reserve: u64,
    quote_reserve: u64,
    supply: u64,
    amount: u64,
    bps: u16,
)
    requires
        pool.coin_creator != DEFAULT_KEY,
        coin_creator != DEFAULT_KEY,
        is_pool_authority(creator, pool.base_mint) <==> is_pool_authority(
            pool.creator,
            pool.base_mint,
        ),
    ensures
        ({
            let other = Pool { coin_creator, creator, ..*pool };
            let one = quote_inputs(
                global_config,
                fee_config,
                live(pool, base_reserve, quote_reserve, supply),
            );
            let two = quote_inputs(
                global_config,
                fee_config,
                live(&other, base_reserve, quote_reserve, supply),
            );
            &&& pool_buy_quote(one, amount, bps) == pool_buy_quote(two, amount, bps)
            &&& pool_token_out_quote(one, amount, bps) == pool_token_out_quote(two, amount, bps)
            &&& pool_sell_quote(one, amount, bps) == pool_sell_quote(two, amount, bps)
        }),
{
    let other = Pool { coin_creator, creator, ..*pool };
    let one = quote_inputs(
        global_config,
        fee_config,
        live(pool, base_reserve, quote_reserve, supply),
    ).unwrap().spec_context();
    let two = quote_inputs(
        global_config,
        fee_config,
        live(&other, base_reserve, quote_reserve, supply),
    ).unwrap().spec_context();
    assert(one.canonical() == two.canonical());
    assert(one.checked_quote() == two.checked_quote());
    assert(one.has_fees() == two.has_fees());
    if let Ok(quote) = one.checked_quote() {
        let fees = one.fee_bps(quote as int);
        assert(fees == two.fee_bps(quote as int));
        assert(one.total_bps(fees) == two.total_bps(fees));
        assert forall|x: int| #[trigger] one.total_fee(fees, x) == two.total_fee(fees, x) by {}
        assert forall|x: int| #[trigger] one.fee_fits(fees, x) == two.fee_fits(fees, x) by {}
    }
}

/// A completed curve opens its pool with what the supply exceeds the tokens for sale by,
/// and with what was raised beyond the migration fee; where either is nothing, with
/// nothing. Without a pool authority of its mint it is not quoted.
pub proof fn law_opening_reserves(
    global_config: &GlobalConfig,
    fee_config: Option<&FeeConfig>,
    global: &Global,
    curve: &BondingCurve,
    mint: &Pubkey,
    supply: u64,
)
    ensures
        match opening_reserves(global, curve) {
            Ok((base, quote)) => {
                &&& base > 0 && base + global.initial_real_token_reserves
                    == global.token_total_supply
                &&& quote > 0 && quote + global.pool_migration_fee == curve.real_quote_reserves
            },
            Err(e) => {
                &&& e == QuoteError::EmptyReserves
                &&& global.token_total_supply <= global.initial_real_token_reserves
                    || curve.real_quote_reserves <= global.pool_migration_fee
            },
        },
        (forall|key: Pubkey| !#[trigger] is_pool_authority(key, *mint)) ==> (quote_inputs(
            global_config,
            fee_config,
            AmmQuoteSource::BondingCurveComplete {
                global,
                bonding_curve: curve,
                base_mint: mint,
                base_mint_supply: supply,
            },
        ) matches Err(e) && e == QuoteError::EmptyReserves),
{
    if let Some((authority, _)) = pool_authority_pda(*mint) {
        assert(is_pool_authority(authority, *mint));
    }
}

} // verus!
