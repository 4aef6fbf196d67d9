//! Bonding-curve buy and sell quotes.

use vstd::prelude::*;

use crate::math::fees::{
    compute_bonding_curve_fee_bps, creator_fee, creator_fee_amount, curve_fee_bps, fee, fee_amount,
    has_tier, BondingCurveFeeBps,
};
use crate::math::utils::{envelope, mul_div, mul_div_u128, slippage_bounds};
use crate::math::{QuoteError, QuoteResult};
use crate::pubkey::{is_default_key, DEFAULT_KEY};
use crate::state::{BondingCurve, FeeConfig, Global};

verus! {

/// Fixed curve supply: one billion tokens with six decimals.
pub const TOKEN_SUPPLY: u128 = 1_000_000_000_000_000;

/// Whether a fee table, where there is one, has a tier.
fn table_has_tier(fee_config: Option<&FeeConfig>) -> (r: bool)
    ensures
        r == has_tier(fee_config),
{
    match fee_config {
        Some(config) => config.fee_tiers.len() > 0,
        None => true,
    }
}

/// Total fee of a buy in basis points: the creator's share only where a creator is set.
pub open spec fn total_curve_bps(curve: &BondingCurve, bps: BondingCurveFeeBps) -> int {
    bps.protocol_fee_bps + if curve.creator == DEFAULT_KEY {
        0
    } else {
        bps.creator_fee_bps as int
    }
}

/// What is left of `sol_amount` for the curve once the fees are taken: one unit
/// goes to rounding.
pub open spec fn net_of_fees(sol_amount: int, total_bps: int) -> int {
    (sol_amount - 1) * 10_000 / (total_bps + 10_000)
}

/// Constant-product output: `input` against `reserve_in` takes this much of `reserve_out`.
pub open spec fn product_out(reserve_in: int, reserve_out: int, input: int) -> int {
    input * reserve_out / (reserve_in + input)
}

/// Tokens that `sol_amount` buys.
pub open spec fn tokens_for_sol(
    global: &Global,
    fee_config: Option<&FeeConfig>,
    curve: &BondingCurve,
    mint_supply: u64,
    sol_amount: u64,
) -> QuoteResult<u64> {
    let bps = curve_fee_bps(
        global,
        fee_config,
        mint_supply as int,
        curve.virtual_quote_reserves as int,
        curve.virtual_token_reserves as int,
    );
    let total_bps = total_curve_bps(curve, bps);
    let tokens = product_out(
        curve.virtual_quote_reserves as int,
        curve.virtual_token_reserves as int,
        net_of_fees(sol_amount as int, total_bps),
    );
    if sol_amount == 0 || curve.virtual_token_reserves == 0 {
        Ok(0)
    } else if curve.virtual_quote_reserves == 0 {
        Err(QuoteError::EmptyReserves)
    } else if !has_tier(fee_config) {
        Err(QuoteError::FeesExceedOutput)
    } else if total_bps > u64::MAX {
        Err(QuoteError::MathOverflow)
    } else if tokens < curve.real_token_reserves {
        Ok(tokens as u64)
    } else {
        Ok(curve.real_token_reserves)
    }
}

/// Tokens received for `sol_amount`, after fees and capped at the real token reserves.
///
/// Zero for a zero input and for a migrated curve, which has no virtual tokens left.
pub fn buy_token_amount_from_sol_amount(
    global: &Global,
    fee_config: Option<&FeeConfig>,
    bonding_curve: &BondingCurve,
    mint_supply: u64,
    sol_amount: u64,
) -> (r: QuoteResult<u64>)
    ensures
        r == tokens_for_sol(global, fee_config, bonding_curve, mint_supply, sol_amount),
{
    if sol_amount == 0 || bonding_curve.virtual_token_reserves == 0 {
        return Ok(0);
    }
    if bonding_curve.virtual_quote_reserves == 0 {
        return Err(QuoteError::EmptyReserves);
    }
    if !table_has_tier(fee_config) {
        return Err(QuoteError::FeesExceedOutput);
    }
    let bps = compute_bonding_curve_fee_bps(
        global,
        fee_config,
        mint_supply,
        bonding_curve.virtual_quote_reserves,
        bonding_curve.virtual_token_reserves,
    );
    let creator_bps: u64 = if is_default_key(&bonding_curve.creator) {
        0
    } else {
        bps.creator_fee_bps
    };
    let total_bps: u64 = match bps.protocol_fee_bps.checked_add(creator_bps) {
        Some(total) => total,
        None => {
            return Err(QuoteError::MathOverflow);
        },
    };
    let input: u128 = (sol_amount as u128 - 1) * 10_000 / (total_bps as u128 + 10_000);
    let v_tokens: u128 = bonding_curve.virtual_token_reserves as u128;
    let v_quote: u128 = bonding_curve.virtual_quote_reserves as u128;
    proof {
        let whole = (sol_amount - 1) * 10_000;
        vstd::arithmetic::div_mod::lemma_div_is_ordered_by_denominator(whole, 10_000, total_bps + 10_000);
        assert(input <= sol_amount - 1);
        assert(0 <= input * v_tokens <= u64::MAX * u64::MAX) by (nonlinear_arith)
            requires
                0 <= input <= u64::MAX,
                0 <= v_tokens <= u64::MAX,
        ;
    }
    let tokens: u128 = input * v_tokens / (v_quote + input);
    if tokens < bonding_curve.real_token_reserves as u128 {
        Ok(tokens as u64)
    } else {
        Ok(bonding_curve.real_token_reserves)
    }
}

/// The supply that picks the fee tier: the fixed one, but in mayhem mode the mint's.
pub open spec fn tier_supply(curve: &BondingCurve, mint_supply: u64) -> int {
    if curve.is_mayhem_mode {
        mint_supply as int
    } else {
        TOKEN_SUPPLY as int
    }
}

/// The fees of `curve` for trades quoted in lamports.
pub open spec fn quote_fee_bps(
    global: &Global,
    fee_config: Option<&FeeConfig>,
    curve: &BondingCurve,
    mint_supply: u64,
) -> BondingCurveFeeBps {
    curve_fee_bps(
        global,
        fee_config,
        tier_supply(curve, mint_supply),
        curve.virtual_quote_reserves as int,
        curve.virtual_token_reserves as int,
    )
}

/// The fee on `amount`: the protocol's and the creator's, each rounded up.
pub open spec fn quote_fee(curve: &BondingCurve, bps: BondingCurveFeeBps, amount: int) -> int {
    fee(amount, bps.protocol_fee_bps as int) + creator_fee(
        curve.creator,
        amount,
        bps.creator_fee_bps as int,
    )
}

/// Whether the products behind the fee on `amount` fit in `u128`.
pub open spec fn quote_fee_fits(curve: &BondingCurve, bps: BondingCurveFeeBps, amount: int) -> bool {
    &&& amount * bps.protocol_fee_bps <= u128::MAX
    &&& curve.creator != DEFAULT_KEY ==> amount * bps.creator_fee_bps <= u128::MAX
}

/// The fees of `bonding_curve` for trades quoted in lamports.
fn fees_for_quote(
    global: &Global,
    fee_config: Option<&FeeConfig>,
    bonding_curve: &BondingCurve,
    mint_supply: u64,
) -> (r: BondingCurveFeeBps)
    requires
        bonding_curve.virtual_token_reserves != 0,
        has_tier(fee_config),
    ensures
        r == quote_fee_bps(global, fee_config, bonding_curve, mint_supply),
{
    let supply: u64 = if bonding_curve.is_mayhem_mode {
        mint_supply
    } else {
        TOKEN_SUPPLY as u64
    };
    compute_bonding_curve_fee_bps(
        global,
        fee_config,
        supply,
        bonding_curve.virtual_quote_reserves,
        bonding_curve.virtual_token_reserves,
    )
}

/// The fee on `amount` in lamports.
fn fee_for_quote(
    global: &Global,
    fee_config: Option<&FeeConfig>,
    bonding_curve: &BondingCurve,
    mint_supply: u64,
    amount: u128,
) -> (r: QuoteResult<u128>)
    requires
        bonding_curve.virtual_token_reserves != 0,
    ensures
        ({
            let bps = quote_fee_bps(global, fee_config, bonding_curve, mint_supply);
            match r {
                Ok(total) => {
                    &&& has_tier(fee_config)
                    &&& quote_fee_fits(bonding_curve, bps, amount as int)
                    &&& total == quote_fee(bonding_curve, bps, amount as int)
                },
                Err(QuoteError::FeesExceedOutput) => !has_tier(fee_config),
                Err(QuoteError::MathOverflow) => has_tier(fee_config) && !quote_fee_fits(
                    bonding_curve,
                    bps,
                    amount as int,
                ),
                Err(_) => false,
            }
        }),
{
    if !table_has_tier(fee_config) {
        return Err(QuoteError::FeesExceedOutput);
    }
    let bps = fees_for_quote(global, fee_config, bonding_curve, mint_supply);
    if amount.checked_mul(bps.protocol_fee_bps as u128).is_none() {
        return Err(QuoteError::MathOverflow);
    }
    if !is_default_key(&bonding_curve.creator) && amount.checked_mul(
        bps.creator_fee_bps as u128,
    ).is_none() {
        return Err(QuoteError::MathOverflow);
    }
    let protocol: u128 = fee_amount(amount, bps.protocol_fee_bps);
    let creator: u128 = creator_fee_amount(&bonding_curve.creator, amount, bps.creator_fee_bps);
    Ok(protocol + creator)
}

/// Lamports that `tokens` cost before fees; one unit is added for rounding.
pub open spec fn cost_before_fees(curve: &BondingCurve, tokens: int) -> int {
    tokens * curve.virtual_quote_reserves / (curve.virtual_token_reserves - tokens) + 1
}

/// The lesser of two amounts.
pub open spec fn lesser(a: int, b: int) -> int {
    if a < b {
        a
    } else {
        b
    }
}

/// Lamports needed for `token_amount`, fees included.
pub open spec fn sol_for_tokens(
    global: &Global,
    fee_config: Option<&FeeConfig>,
    curve: &BondingCurve,
    mint_supply: u64,
    token_amount: u64,
) -> QuoteResult<u64> {
    let bps = quote_fee_bps(global, fee_config, curve, mint_supply);
    let tokens = lesser(token_amount as int, curve.real_token_reserves as int);
    let cost = cost_before_fees(curve, tokens);
    let total = cost + quote_fee(curve, bps, cost);
    if token_amount == 0 || curve.virtual_token_reserves == 0 {
        Ok(0)
    } else if tokens >= curve.virtual_token_reserves {
        Err(QuoteError::DepletedBondingCurve)
    } else if !has_tier(fee_config) {
        Err(QuoteError::FeesExceedOutput)
    } else if !quote_fee_fits(curve, bps, cost) || total > u64::MAX {
        Err(QuoteError::MathOverflow)
    } else {
        Ok(total as u64)
    }
}

/// Lamports needed to buy `token_amount`, capped at the real token reserves, fees
/// included.
///
/// Zero for a zero input and for a migrated curve. `DepletedBondingCurve` where the
/// capped trade would empty the curve, `MathOverflow` where the cost does not fit in a
/// `u64`.
pub fn buy_sol_amount_from_token_amount(
    global: &Global,
    fee_config: Option<&FeeConfig>,
    bonding_curve: &BondingCurve,
    mint_supply: u64,
    token_amount: u64,
) -> (r: QuoteResult<u64>)
    ensures
        r == sol_for_tokens(global, fee_config, bonding_curve, mint_supply, token_amount),
{
    if token_amount == 0 || bonding_curve.virtual_token_reserves == 0 {
        return Ok(0);
    }
    let tokens: u64 = if token_amount < bonding_curve.real_token_reserves {
        token_amount
    } else {
        bonding_curve.real_token_reserves
    };
    if tokens >= bonding_curve.virtual_token_reserves {
        return Err(QuoteError::DepletedBondingCurve);
    }
    let v_quote: u128 = bonding_curve.virtual_quote_reserves as u128;
    let left: u128 = bonding_curve.virtual_token_reserves as u128 - tokens as u128;
    proof {
        assert(0 <= tokens * v_quote <= u64::MAX * u64::MAX) by (nonlinear_arith)
            requires
                0 <= tokens <= u64::MAX,
                0 <= v_quote <= u64::MAX,
        ;
        assert(tokens * v_quote / (left as int) <= tokens * v_quote) by (nonlinear_arith)
            requires
                0 <= tokens * v_quote,
                1 <= left,
        ;
    }
    let cost: u128 = (tokens as u128) * v_quote / left + 1;
    match fee_for_quote(global, fee_config, bonding_curve, mint_supply, cost) {
        Err(e) => Err(e),
        Ok(fees) => match cost.checked_add(fees) {
            None => Err(QuoteError::MathOverflow),
            Some(total) => if total > u64::MAX as u128 {
                Err(QuoteError::MathOverflow)
            } else {
                Ok(total as u64)
            },
        },
    }
}

/// Lamports received for `token_amount`, fees taken off. Each fee is rounded up, so
/// the fees on dust can exceed it; nothing is left then.
pub open spec fn sol_from_tokens(
    global: &Global,
    fee_config: Option<&FeeConfig>,
    curve: &BondingCurve,
    mint_supply: u64,
    token_amount: u64,
) -> QuoteResult<u64> {
    let bps = quote_fee_bps(global, fee_config, curve, mint_supply);
    let gross = product_out(
        curve.virtual_token_reserves as int,
        curve.virtual_quote_reserves as int,
        token_amount as int,
    );
    let net = gross - quote_fee(curve, bps, gross);
    if token_amount == 0 || curve.virtual_token_reserves == 0 {
        Ok(0)
    } else if !has_tier(fee_config) || (net < 0 && bps.degenerate()) {
        Err(QuoteError::FeesExceedOutput)
    } else if net < 0 {
        Ok(0)
    } else {
        Ok(net as u64)
    }
}

/// Lamports received for selling `token_amount`, fees taken off.
///
/// Zero for a zero input and for a migrated curve.
pub fn sell_sol_amount_from_token_amount(
    global: &Global,
    fee_config: Option<&FeeConfig>,
    bonding_curve: &BondingCurve,
    mint_supply: u64,
    token_amount: u64,
) -> (r: QuoteResult<u64>)
    ensures
        r == sol_from_tokens(global, fee_config, bonding_curve, mint_supply, token_amount),
{
    if token_amount == 0 || bonding_curve.virtual_token_reserves == 0 {
        return Ok(0);
    }
    let v_quote: u128 = bonding_curve.virtual_quote_reserves as u128;
    let v_tokens: u128 = bonding_curve.virtual_token_reserves as u128;
    proof {
        lemma_product_out_bounds(v_tokens as int, v_quote as int, token_amount as int);
        assert(0 <= token_amount * v_quote <= u64::MAX * u64::MAX) by (nonlinear_arith)
            requires
                0 <= token_amount <= u64::MAX,
                0 <= v_quote <= u64::MAX,
        ;
    }
    let gross: u128 = (token_amount as u128) * v_quote / (v_tokens + token_amount as u128);
    proof {
        let bps = quote_fee_bps(global, fee_config, bonding_curve, mint_supply);
        let p = bps.protocol_fee_bps;
        let c = bps.creator_fee_bps;
        assert(0 <= gross * p <= u64::MAX * u64::MAX) by (nonlinear_arith)
            requires
                0 <= gross <= u64::MAX,
                0 <= p <= u64::MAX,
        ;
        assert(0 <= gross * c <= u64::MAX * u64::MAX) by (nonlinear_arith)
            requires
                0 <= gross <= u64::MAX,
                0 <= c <= u64::MAX,
        ;
    }
    match fee_for_quote(global, fee_config, bonding_curve, mint_supply, gross) {
        Err(e) => Err(e),
        Ok(fees) => {
            if gross < fees {
                let bps = fees_for_quote(global, fee_config, bonding_curve, mint_supply);
                if bps.is_degenerate() {
                    Err(QuoteError::FeesExceedOutput)
                } else {
                    Ok(0)
                }
            } else {
                Ok((gross - fees) as u64)
            }
        },
    }
}

/// A constant-product trade gives at most what the other side holds.
pub proof fn lemma_product_out_bounds(reserve_in: int, reserve_out: int, input: int)
    requires
        0 <= reserve_in,
        0 <= reserve_out,
        0 <= input,
        0 < reserve_in + input,
    ensures
        0 <= product_out(reserve_in, reserve_out, input) <= reserve_out,
{
    let d = reserve_in + input;
    assert(0 <= input * reserve_out) by (nonlinear_arith)
        requires
            0 <= input,
            0 <= reserve_out,
    ;
    assert(input * reserve_out <= d * reserve_out) by (nonlinear_arith)
        requires
            input <= d,
            0 <= reserve_out,
    ;
    vstd::arithmetic::div_mod::lemma_div_is_ordered(input * reserve_out, d * reserve_out, d);
    vstd::arithmetic::div_mod::lemma_div_multiples_vanish(reserve_out, d);
    vstd::arithmetic::div_mod::lemma_div_pos_is_pos(input * reserve_out, d);
}

/// What `amount` tokens sell for on a curve, fees not applied.
pub open spec fn curve_sell(quote: u64, tokens: u64, amount: u64) -> QuoteResult<u128> {
    mul_div(amount as int, quote as int, tokens + amount)
}

/// The tokens that `amount` buys on a curve, fees not applied.
pub open spec fn curve_buy(quote: u64, tokens: u64, amount: u64) -> QuoteResult<u128> {
    mul_div(amount as int, tokens as int, quote + amount)
}

/// Constant-product sell on the bonding curve, fees not applied:
/// `amount * vSol / (vTokens + amount)`.
pub fn sell_quote(virtual_sol_reserves: u64, virtual_token_reserves: u64, amount: u64) -> (r:
    QuoteResult<u128>)
    ensures
        r == curve_sell(virtual_sol_reserves, virtual_token_reserves, amount),
{
    mul_div_u128(
        amount as u128,
        virtual_sol_reserves as u128,
        virtual_token_reserves as u128 + amount as u128,
    )
}

/// Constant-product buy, fees not applied: `sol_amount * vTokens / (vSol + sol_amount)`.
pub fn buy_token_quote_with_sol(
    virtual_sol_reserves: u64,
    virtual_token_reserves: u64,
    sol_amount: u64,
) -> (r: QuoteResult<u128>)
    ensures
        r == curve_buy(virtual_sol_reserves, virtual_token_reserves, sol_amount),
{
    mul_div_u128(
        sol_amount as u128,
        virtual_token_reserves as u128,
        virtual_sol_reserves as u128 + sol_amount as u128,
    )
}

/// Tokens to sell for `sol_amount` out: `sol_amount * vTokens / (vSol - sol_amount)`;
/// `MathOverflow` where the curve does not hold more than `sol_amount`.
pub open spec fn tokens_to_sell(
    virtual_sol_reserves: int,
    virtual_token_reserves: int,
    sol_amount: int,
) -> QuoteResult<u128> {
    if sol_amount >= virtual_sol_reserves {
        Err(QuoteError::MathOverflow)
    } else {
        mul_div(sol_amount, virtual_token_reserves, virtual_sol_reserves - sol_amount)
    }
}

/// Inverse of [`sell_quote`]: how many tokens must be sold for `sol_amount`.
pub fn sell_token_quote_with_sol(
    virtual_sol_reserves: u64,
    virtual_token_reserves: u64,
    sol_amount: u64,
) -> (r: QuoteResult<u128>)
    ensures
        r == tokens_to_sell(
            virtual_sol_reserves as int,
            virtual_token_reserves as int,
            sol_amount as int,
        ),
{
    match (virtual_sol_reserves as u128).checked_sub(sol_amount as u128) {
        None => Err(QuoteError::MathOverflow),
        Some(denom) => mul_div_u128(sol_amount as u128, virtual_token_reserves as u128, denom),
    }
}

/// Whether the market cap of a whole [`TOKEN_SUPPLY`] lies within `bps` of `target`.
pub open spec fn market_cap_check(quote: int, base: int, target: int, bps: int) -> QuoteResult<()> {
    match mul_div(TOKEN_SUPPLY as int, quote, base) {
        Err(e) => Err(e),
        Ok(current) => match envelope(target, bps) {
            None => Err(QuoteError::MathOverflow),
            Some((lo, hi)) => if lo <= current <= hi {
                Ok(())
            } else {
                Err(QuoteError::SlippageExceeded)
            },
        },
    }
}

/// Checks `TOKEN_SUPPLY * quote / base` against `target ± bps`.
pub(crate) fn check_market_cap(quote: u64, base: u64, target: u128, bps: u16) -> (r: QuoteResult<()>)
    ensures
        r == market_cap_check(quote as int, base as int, target as int, bps as int),
{
    match mul_div_u128(TOKEN_SUPPLY, quote as u128, base as u128) {
        Err(e) => Err(e),
        Ok(current) => match slippage_bounds(target, bps) {
            None => Err(QuoteError::MathOverflow),
            Some((lo, hi)) => {
                if current < lo || current > hi {
                    Err(QuoteError::SlippageExceeded)
                } else {
                    Ok(())
                }
            },
        },
    }
}

/// Checks that the curve's market cap is within `target_market_cap ± slippage_bps`.
pub fn validate_market_cap(
    virtual_sol_reserves: u64,
    virtual_token_reserves: u64,
    target_market_cap: u128,
    slippage_bps: u16,
) -> (r: QuoteResult<()>)
    ensures
        r == market_cap_check(
            virtual_sol_reserves as int,
            virtual_token_reserves as int,
            target_market_cap as int,
            slippage_bps as int,
        ),
{
    check_market_cap(virtual_sol_reserves, virtual_token_reserves, target_market_cap, slippage_bps)
}

} // verus!
