//! AMM quotes.

use vstd::prelude::*;

use crate::math::bonding_curve::{
    check_market_cap, lemma_product_out_bounds, market_cap_check, product_out, tokens_to_sell,
};
use crate::math::fees::{
    amm_fee_bps, ceil_div, ceiling, checked_amm_fee_bps, creator_fee, creator_fee_amount, fee,
    fee_amount, has_tier, pump_pool, AmmFeeBps,
};
use crate::math::utils::{mul_div, mul_div_u128};
use crate::math::{QuoteError, QuoteResult};
use crate::pubkey::{is_default_key, Pubkey, DEFAULT_KEY};
use crate::state::pump_amm::GlobalConfig;
use crate::state::FeeConfig;

verus! {

#[derive(Clone, Copy, Debug, PartialEq, Eq)]
pub struct BuyQuoteInputResult {
    pub base_amount_out: u64,
    pub effective_quote: u64,
}

#[derive(Clone, Copy, Debug, PartialEq, Eq)]
pub struct BuyBaseInputResult {
    pub total_quote_in: u64,
    pub raw_quote_in: u64,
}

#[derive(Clone, Copy, Debug, PartialEq, Eq)]
pub struct SellBaseInputResult {
    pub final_quote_out: u64,
    pub raw_quote_out: u64,
}

/// What an AMM trade is priced on.
///
/// `pool_creator` is the creator of the pool. `coin_creator` receives the creator's
/// fee; the all-zero key stands for none.
///
/// `quote_reserve` is the raw balance of the quote vault and `virtual_quote_reserves`
/// the pool's own figure. Prices run on their sum, which
/// [`AmmContext::effective_quote_reserve`] forms; a caller that adds them beforehand
/// counts the virtual figure twice. `base_reserve` is the raw balance of the base
/// vault.
#[derive(Clone, Copy, Debug)]
pub struct AmmContext<'a> {
    pub global_config: &'a GlobalConfig,
    pub fee_config: Option<&'a FeeConfig>,
    pub base_mint: &'a Pubkey,
    pub pool_creator: &'a Pubkey,
    pub coin_creator: &'a Pubkey,
    pub base_reserve: u64,
    pub quote_reserve: u64,
    pub virtual_quote_reserves: i128,
    pub base_mint_supply: u64,
}

/// `quote_reserve + virtual_quote_reserves`: `EmptyReserves` unless positive,
/// `MathOverflow` above `u64`.
pub open spec fn effective_quote(
    quote_reserve: u64,
    virtual_quote_reserves: i128,
) -> QuoteResult<u64> {
    let sum = quote_reserve + virtual_quote_reserves;
    if sum <= 0 {
        Err(QuoteError::EmptyReserves)
    } else if sum > u64::MAX {
        Err(QuoteError::MathOverflow)
    } else {
        Ok(sum as u64)
    }
}

/// `quote_reserve + virtual_quote_reserves` as a reserve.
///
/// `quote_reserve` is the raw vault balance; passing a sum counts the virtual
/// figure twice.
pub fn effective_quote_reserve(quote_reserve: u64, virtual_quote_reserves: i128) -> (r: QuoteResult<
    u64,
>)
    ensures
        r == effective_quote(quote_reserve, virtual_quote_reserves),
{
    match (quote_reserve as i128).checked_add(virtual_quote_reserves) {
        None => Err(QuoteError::MathOverflow),
        Some(sum) => {
            if sum <= 0 {
                Err(QuoteError::EmptyReserves)
            } else if sum > u64::MAX as i128 {
                Err(QuoteError::MathOverflow)
            } else {
                Ok(sum as u64)
            }
        },
    }
}

impl<'a> AmmContext<'a> {
    /// The reserve that every quote prices against.
    pub fn effective_quote_reserve(&self) -> (r: QuoteResult<u64>)
        ensures
            r == effective_quote(self.quote_reserve, self.virtual_quote_reserves),
    {
        effective_quote_reserve(self.quote_reserve, self.virtual_quote_reserves)
    }

    /// The effective quote reserve of a pool that can price a trade.
    pub open spec fn checked_quote(&self) -> QuoteResult<u64> {
        if self.base_reserve == 0 {
            Err(QuoteError::EmptyReserves)
        } else {
            effective_quote(self.quote_reserve, self.virtual_quote_reserves)
        }
    }

    fn check_reserves(&self) -> (r: QuoteResult<u64>)
        ensures
            r == self.checked_quote(),
    {
        if self.base_reserve == 0 {
            return Err(QuoteError::EmptyReserves);
        }
        self.effective_quote_reserve()
    }

    /// Whether the pool is the canonical one of its base mint.
    pub open spec fn canonical(&self) -> bool {
        pump_pool(*self.base_mint, *self.pool_creator)
    }

    /// Whether there is a fee to take.
    pub open spec fn has_fees(&self) -> bool {
        self.canonical() ==> has_tier(self.fee_config)
    }

    /// The fees of a trade against an effective quote reserve of `quote`.
    pub open spec fn fee_bps(&self, quote: int) -> AmmFeeBps {
        amm_fee_bps(
            self.global_config,
            self.fee_config,
            self.canonical(),
            self.base_mint_supply as int,
            self.base_reserve as int,
            quote,
        )
    }

    /// The creator's fee in basis points, none where no creator is set.
    pub open spec fn creator_bps(&self, bps: AmmFeeBps) -> int {
        if *self.coin_creator == DEFAULT_KEY {
            0
        } else {
            bps.creator_fee_bps as int
        }
    }

    /// All fees together, in basis points.
    pub open spec fn total_bps(&self, bps: AmmFeeBps) -> int {
        bps.lp_fee_bps + bps.protocol_fee_bps + self.creator_bps(bps)
    }

    /// All fees on `amount`, each rounded up.
    pub open spec fn total_fee(&self, bps: AmmFeeBps, amount: int) -> int {
        fee(amount, bps.lp_fee_bps as int) + fee(amount, bps.protocol_fee_bps as int) + creator_fee(
            *self.coin_creator,
            amount,
            bps.creator_fee_bps as int,
        )
    }

    /// Whether the products behind the fees on `amount` fit in `u128`.
    pub open spec fn fee_fits(&self, bps: AmmFeeBps, amount: int) -> bool {
        &&& amount * bps.lp_fee_bps <= u128::MAX
        &&& amount * bps.protocol_fee_bps <= u128::MAX
        &&& *self.coin_creator != DEFAULT_KEY ==> amount * bps.creator_fee_bps <= u128::MAX
    }

    fn fees(&self, quote: u64) -> (r: QuoteResult<AmmFeeBps>)
        requires
            self.base_reserve != 0,
        ensures
            r == (if self.has_fees() {
                Ok(self.fee_bps(quote as int))
            } else {
                Err(QuoteError::FeesExceedOutput)
            }),
    {
        checked_amm_fee_bps(
            self.global_config,
            self.fee_config,
            self.base_mint,
            self.pool_creator,
            self.base_mint_supply,
            self.base_reserve,
            quote,
        )
    }

    fn fee_sum(&self, bps: AmmFeeBps, amount: u128) -> (r: Option<u128>)
        ensures
            match r {
                Some(total) => self.fee_fits(bps, amount as int) && total == self.total_fee(
                    bps,
                    amount as int,
                ),
                None => !self.fee_fits(bps, amount as int),
            },
    {
        let with_creator: bool = !is_default_key(self.coin_creator);
        if amount.checked_mul(bps.lp_fee_bps as u128).is_none() || amount.checked_mul(
            bps.protocol_fee_bps as u128,
        ).is_none() || (with_creator && amount.checked_mul(
            bps.creator_fee_bps as u128,
        ).is_none()) {
            return None;
        }
        let lp: u128 = fee_amount(amount, bps.lp_fee_bps);
        let protocol: u128 = fee_amount(amount, bps.protocol_fee_bps);
        let creator: u128 = creator_fee_amount(self.coin_creator, amount, bps.creator_fee_bps);
        Some(lp + protocol + creator)
    }
}

/// Base tokens that `quote_in` buys.
pub open spec fn base_for_quote(ctx: &AmmContext<'_>, quote_in: u64) -> QuoteResult<
    BuyQuoteInputResult,
> {
    match ctx.checked_quote() {
        Err(e) => Err(e),
        Ok(quote) => {
            let total_bps = ctx.total_bps(ctx.fee_bps(quote as int));
            let net = quote_in * 10_000 / (10_000 + total_bps);
            if !ctx.has_fees() {
                Err(QuoteError::FeesExceedOutput)
            } else if total_bps > u64::MAX {
                Err(QuoteError::MathOverflow)
            } else {
                Ok(
                    BuyQuoteInputResult {
                        base_amount_out: product_out(
                            quote as int,
                            ctx.base_reserve as int,
                            net,
                        ) as u64,
                        effective_quote: net as u64,
                    },
                )
            }
        },
    }
}

/// AMM buy for a fixed quote input.
pub fn buy_quote_input(ctx: &AmmContext<'_>, quote_in: u64) -> (r: QuoteResult<
    BuyQuoteInputResult,
>)
    ensures
        r == base_for_quote(ctx, quote_in),
{
    let quote: u64 = match ctx.check_reserves() {
        Ok(quote) => quote,
        Err(e) => {
            return Err(e);
        },
    };
    let bps = match ctx.fees(quote) {
        Ok(bps) => bps,
        Err(e) => {
            return Err(e);
        },
    };
    let creator_bps: u64 = if is_default_key(ctx.coin_creator) {
        0
    } else {
        bps.creator_fee_bps
    };
    let total_bps: u64 = match bps.lp_fee_bps.checked_add(bps.protocol_fee_bps) {
        None => {
            return Err(QuoteError::MathOverflow);
        },
        Some(sum) => match sum.checked_add(creator_bps) {
            None => {
                return Err(QuoteError::MathOverflow);
            },
            Some(total) => total,
        },
    };
    let net: u128 = (quote_in as u128) * 10_000 / (10_000 + total_bps as u128);
    proof {
        vstd::arithmetic::div_mod::lemma_div_is_ordered_by_denominator(
            quote_in * 10_000,
            10_000,
            10_000 + total_bps,
        );
        assert(net <= quote_in);
        lemma_product_out_bounds(quote as int, ctx.base_reserve as int, net as int);
        let base = ctx.base_reserve;
        assert(0 <= base * net <= u64::MAX * u64::MAX && base * net == net * base)
            by (nonlinear_arith)
            requires
                0 <= base <= u64::MAX,
                0 <= net <= u64::MAX,
        ;
    }
    let base_out: u128 = (ctx.base_reserve as u128) * net / (quote as u128 + net);
    Ok(BuyQuoteInputResult { base_amount_out: base_out as u64, effective_quote: net as u64 })
}

/// Quote that `base_out` tokens cost before fees, rounded up.
pub open spec fn raw_cost(quote: int, base: int, base_out: int) -> int {
    ceiling(quote * base_out, base - base_out)
}

/// Quote needed for `base_out` tokens, fees included.
pub open spec fn quote_for_base(ctx: &AmmContext<'_>, base_out: u64) -> QuoteResult<
    BuyBaseInputResult,
> {
    match ctx.checked_quote() {
        Err(e) => Err(e),
        Ok(quote) => {
            let raw = raw_cost(quote as int, ctx.base_reserve as int, base_out as int);
            let bps = ctx.fee_bps(quote as int);
            let total = raw + ctx.total_fee(bps, raw);
            if base_out >= ctx.base_reserve {
                Err(QuoteError::BaseOutExceedsReserve)
            } else if !ctx.has_fees() {
                Err(QuoteError::FeesExceedOutput)
            } else if !ctx.fee_fits(bps, raw) || total > u64::MAX {
                Err(QuoteError::MathOverflow)
            } else {
                Ok(
                    BuyBaseInputResult {
                        total_quote_in: total as u64,
                        raw_quote_in: raw as u64,
                    },
                )
            }
        },
    }
}

/// AMM buy of a fixed amount of base tokens. `MathOverflow` where the cost does not
/// fit in a `u64`.
pub fn buy_base_input(ctx: &AmmContext<'_>, base_out: u64) -> (r: QuoteResult<BuyBaseInputResult>)
    ensures
        r == quote_for_base(ctx, base_out),
{
    let quote: u64 = match ctx.check_reserves() {
        Ok(quote) => quote,
        Err(e) => {
            return Err(e);
        },
    };
    if base_out >= ctx.base_reserve {
        return Err(QuoteError::BaseOutExceedsReserve);
    }
    assert(0 <= quote * base_out <= u64::MAX * u64::MAX) by (nonlinear_arith)
        requires
            0 <= quote <= u64::MAX,
            0 <= base_out <= u64::MAX,
    ;
    let numerator: u128 = (quote as u128) * (base_out as u128);
    let raw: u128 = ceil_div(numerator, ctx.base_reserve as u128 - base_out as u128);
    let bps = match ctx.fees(quote) {
        Ok(bps) => bps,
        Err(e) => {
            return Err(e);
        },
    };
    match ctx.fee_sum(bps, raw) {
        None => Err(QuoteError::MathOverflow),
        Some(fees) => match raw.checked_add(fees) {
            None => Err(QuoteError::MathOverflow),
            Some(total) => if total > u64::MAX as u128 {
                Err(QuoteError::MathOverflow)
            } else {
                Ok(BuyBaseInputResult { total_quote_in: total as u64, raw_quote_in: raw as u64 })
            },
        },
    }
}

/// Quote received for `base_in` tokens, fees taken off. Each fee is rounded up, so
/// the fees on dust can exceed it; nothing is left then.
pub open spec fn quote_from_base(ctx: &AmmContext<'_>, base_in: u64) -> QuoteResult<
    SellBaseInputResult,
> {
    match ctx.checked_quote() {
        Err(e) => Err(e),
        Ok(quote) => {
            let raw = product_out(ctx.base_reserve as int, quote as int, base_in as int);
            let bps = ctx.fee_bps(quote as int);
            let net = raw - ctx.total_fee(bps, raw);
            if !ctx.has_fees() || (net < 0 && bps.degenerate()) {
                Err(QuoteError::FeesExceedOutput)
            } else {
                let left = if net < 0 {
                    0
                } else {
                    net
                };
                Ok(SellBaseInputResult { final_quote_out: left as u64, raw_quote_out: raw as u64 })
            }
        },
    }
}

/// AMM sell of a fixed amount of base tokens.
pub fn sell_base_input(ctx: &AmmContext<'_>, base_in: u64) -> (r: QuoteResult<SellBaseInputResult>)
    ensures
        r == quote_from_base(ctx, base_in),
{
    let quote: u64 = match ctx.check_reserves() {
        Ok(quote) => quote,
        Err(e) => {
            return Err(e);
        },
    };
    proof {
        lemma_product_out_bounds(ctx.base_reserve as int, quote as int, base_in as int);
        assert(0 <= quote * base_in <= u64::MAX * u64::MAX && quote * base_in == base_in * quote)
            by (nonlinear_arith)
            requires
                0 <= quote <= u64::MAX,
                0 <= base_in <= u64::MAX,
        ;
    }
    let raw: u128 = (quote as u128) * (base_in as u128) / (ctx.base_reserve as u128
        + base_in as u128);
    let bps = match ctx.fees(quote) {
        Ok(bps) => bps,
        Err(e) => {
            return Err(e);
        },
    };
    proof {
        lemma_small_fee_fits(ctx, bps, raw as int);
    }
    match ctx.fee_sum(bps, raw) {
        None => Err(QuoteError::FeesExceedOutput),
        Some(fees) => {
            if raw < fees && bps.is_degenerate() {
                Err(QuoteError::FeesExceedOutput)
            } else if raw < fees {
                Ok(SellBaseInputResult { final_quote_out: 0, raw_quote_out: raw as u64 })
            } else {
                Ok(
                    SellBaseInputResult {
                        final_quote_out: (raw - fees) as u64,
                        raw_quote_out: raw as u64,
                    },
                )
            }
        },
    }
}

proof fn lemma_small_fee_fits(ctx: &AmmContext<'_>, bps: AmmFeeBps, amount: int)
    requires
        0 <= amount <= u64::MAX,
    ensures
        ctx.fee_fits(bps, amount),
{
    let lp = bps.lp_fee_bps;
    let protocol = bps.protocol_fee_bps;
    let creator = bps.creator_fee_bps;
    assert(amount * lp <= u64::MAX * u64::MAX && amount * protocol <= u64::MAX * u64::MAX && amount
        * creator <= u64::MAX * u64::MAX) by (nonlinear_arith)
        requires
            0 <= amount <= u64::MAX,
            0 <= lp <= u64::MAX,
            0 <= protocol <= u64::MAX,
            0 <= creator <= u64::MAX,
    ;
}

/// `amount` of base tokens sold against a pool, fees not applied.
pub open spec fn pool_sell(base: u64, quote: u64, virtual_quote: i128, amount: u64) -> QuoteResult<
    u128,
> {
    match effective_quote(quote, virtual_quote) {
        Err(e) => Err(e),
        Ok(effective) => mul_div(amount as int, effective as int, base + amount),
    }
}

/// Constant-product sell, fees not applied: `amount * effective_quote / (pool_base + amount)`.
pub fn sell_quote(
    pool_base_token_reserves: u64,
    pool_quote_token_reserves: u64,
    virtual_quote_reserves: i128,
    amount: u64,
) -> (r: QuoteResult<u128>)
    ensures
        r == pool_sell(
            pool_base_token_reserves,
            pool_quote_token_reserves,
            virtual_quote_reserves,
            amount,
        ),
{
    match effective_quote_reserve(pool_quote_token_reserves, virtual_quote_reserves) {
        Err(e) => Err(e),
        Ok(effective) => mul_div_u128(
            amount as u128,
            effective as u128,
            pool_base_token_reserves as u128 + amount as u128,
        ),
    }
}

/// Base tokens that `sol_amount` buys from a pool, fees not applied.
pub open spec fn pool_buy(
    base: u64,
    quote: u64,
    virtual_quote: i128,
    sol_amount: u64,
) -> QuoteResult<u128> {
    match effective_quote(quote, virtual_quote) {
        Err(e) => Err(e),
        Ok(effective) => mul_div(sol_amount as int, base as int, effective + sol_amount),
    }
}

/// Constant-product buy, fees not applied:
/// `sol_amount * pool_base / (effective_quote + sol_amount)`.
pub fn buy_token_quote_with_sol(
    pool_base_token_reserves: u64,
    pool_quote_token_reserves: u64,
    virtual_quote_reserves: i128,
    sol_amount: u64,
) -> (r: QuoteResult<u128>)
    ensures
        r == pool_buy(
            pool_base_token_reserves,
            pool_quote_token_reserves,
            virtual_quote_reserves,
            sol_amount,
        ),
{
    match effective_quote_reserve(pool_quote_token_reserves, virtual_quote_reserves) {
        Err(e) => Err(e),
        Ok(effective) => mul_div_u128(
            sol_amount as u128,
            pool_base_token_reserves as u128,
            effective as u128 + sol_amount as u128,
        ),
    }
}

/// Base tokens to sell to a pool for `sol_amount` out, fees not applied.
pub open spec fn pool_sell_inverse(
    base: u64,
    quote: u64,
    virtual_quote: i128,
    sol_amount: u64,
) -> QuoteResult<u128> {
    match effective_quote(quote, virtual_quote) {
        Err(e) => Err(e),
        Ok(effective) => tokens_to_sell(effective as int, base as int, sol_amount as int),
    }
}

/// Inverse of [`sell_quote`]: how many tokens must be sold for `sol_amount`;
/// `MathOverflow` where the effective reserve does not hold more than that.
pub fn sell_token_quote_with_sol(
    pool_base_token_reserves: u64,
    pool_quote_token_reserves: u64,
    virtual_quote_reserves: i128,
    sol_amount: u64,
) -> (r: QuoteResult<u128>)
    ensures
        r == pool_sell_inverse(
            pool_base_token_reserves,
            pool_quote_token_reserves,
            virtual_quote_reserves,
            sol_amount,
        ),
{
    match effective_quote_reserve(pool_quote_token_reserves, virtual_quote_reserves) {
        Err(e) => Err(e),
        Ok(effective) => match (effective as u128).checked_sub(sol_amount as u128) {
            None => Err(QuoteError::MathOverflow),
            Some(denom) => mul_div_u128(
                sol_amount as u128,
                pool_base_token_reserves as u128,
                denom,
            ),
        },
    }
}

/// Whether a pool's market cap lies within `bps` of `target`.
pub open spec fn pool_market_cap_check(
    base: u64,
    quote: u64,
    virtual_quote: i128,
    target: u128,
    bps: u16,
) -> QuoteResult<()> {
    match effective_quote(quote, virtual_quote) {
        Err(e) => Err(e),
        Ok(effective) => market_cap_check(
            effective as int,
            base as int,
            target as int,
            bps as int,
        ),
    }
}

/// Checks that the pool's market cap is within `target_market_cap ± slippage_bps`.
pub fn validate_market_cap(
    pool_base_token_reserves: u64,
    pool_quote_token_reserves: u64,
    virtual_quote_reserves: i128,
    target_market_cap: u128,
    slippage_bps: u16,
) -> (r: QuoteResult<()>)
    ensures
        r == pool_market_cap_check(
            pool_base_token_reserves,
            pool_quote_token_reserves,
            virtual_quote_reserves,
            target_market_cap,
            slippage_bps,
        ),
{
    match effective_quote_reserve(pool_quote_token_reserves, virtual_quote_reserves) {
        Err(e) => Err(e),
        Ok(effective) => check_market_cap(
            effective,
            pool_base_token_reserves,
            target_market_cap,
            slippage_bps,
        ),
    }
}

} // verus!
