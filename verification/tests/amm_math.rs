//! AMM quote math.

use pump_rust_client::math::amm::{
    buy_token_quote_with_sol, effective_quote_reserve, sell_quote, sell_token_quote_with_sol,
    validate_market_cap,
};
use pump_rust_client::math::bonding_curve::TOKEN_SUPPLY;
use pump_rust_client::math::QuoteError;

const POOL_QUOTE: u64 = 100_000_000_000;
const POOL_BASE: u64 = 800_000_000_000_000;
/// Non-zero virtual figure, as a boosted pool carries.
const VIRTUAL_QUOTE: i128 = 25_000_000_000;
const EFFECTIVE_QUOTE: u64 = POOL_QUOTE + VIRTUAL_QUOTE as u64;

#[test]
fn amm_sell_quote_matches_constant_product() {
    let amount: u64 = 1_000_000_000_000;
    let out = sell_quote(POOL_BASE, POOL_QUOTE, 0, amount).unwrap();
    let expected =
        (amount as u128) * (POOL_QUOTE as u128) / ((POOL_BASE as u128) + amount as u128);
    assert_eq!(out, expected);
}

#[test]
fn buy_and_sell_token_quote_with_sol_use_correct_denominators() {
    let sol_in: u64 = 1_000_000_000;
    let bought = buy_token_quote_with_sol(POOL_BASE, POOL_QUOTE, 0, sol_in).unwrap();
    let expected =
        (sol_in as u128) * (POOL_BASE as u128) / ((POOL_QUOTE as u128) + sol_in as u128);
    assert_eq!(bought, expected);

    let inv = sell_token_quote_with_sol(POOL_BASE, POOL_QUOTE, 0, sol_in).unwrap();
    let expected_inv =
        (sol_in as u128) * (POOL_BASE as u128) / ((POOL_QUOTE as u128) - sol_in as u128);
    assert_eq!(inv, expected_inv);
}

#[test]
fn amm_sell_token_quote_overflow_when_sol_exceeds_reserve() {
    assert_eq!(
        sell_token_quote_with_sol(POOL_BASE, POOL_QUOTE, 0, POOL_QUOTE),
        Err(QuoteError::MathOverflow)
    );
    assert_eq!(
        sell_token_quote_with_sol(POOL_BASE, POOL_QUOTE, 0, POOL_QUOTE + 1),
        Err(QuoteError::MathOverflow)
    );
}

#[test]
fn amm_validate_market_cap_passes_within_envelope() {
    let current = TOKEN_SUPPLY * (POOL_QUOTE as u128) / (POOL_BASE as u128);
    validate_market_cap(POOL_BASE, POOL_QUOTE, 0, current, 0).unwrap();
    validate_market_cap(POOL_BASE, POOL_QUOTE, 0, current * 99 / 100, 200).unwrap();
}

#[test]
fn amm_validate_market_cap_fails_outside_envelope() {
    let current = TOKEN_SUPPLY * (POOL_QUOTE as u128) / (POOL_BASE as u128);
    assert_eq!(
        validate_market_cap(POOL_BASE, POOL_QUOTE, 0, current * 95 / 100, 100),
        Err(QuoteError::SlippageExceeded)
    );
}

#[test]
fn effective_quote_reserve_sums_raw_and_virtual() {
    assert_eq!(
        effective_quote_reserve(POOL_QUOTE, VIRTUAL_QUOTE).unwrap(),
        EFFECTIVE_QUOTE
    );
    // A pool without virtual reserves.
    assert_eq!(effective_quote_reserve(POOL_QUOTE, 0).unwrap(), POOL_QUOTE);
}

/// Negative virtual reserves make the pool shallower than its raw vault balance
/// suggests.
#[test]
fn negative_virtual_reserves_reduce_effective_depth() {
    let negative: i128 = -40_000_000_000;
    let effective = effective_quote_reserve(POOL_QUOTE, negative).unwrap();
    assert_eq!(effective, POOL_QUOTE - 40_000_000_000);
    assert!(effective < POOL_QUOTE);

    // A sell against the shallower pool returns less.
    let amount: u64 = 1_000_000_000_000;
    let with_negative = sell_quote(POOL_BASE, POOL_QUOTE, negative, amount).unwrap();
    let raw_only = sell_quote(POOL_BASE, POOL_QUOTE, 0, amount).unwrap();
    assert!(
        with_negative < raw_only,
        "negative virtual reserves must lower the quote ({with_negative} vs {raw_only})"
    );
    assert_eq!(
        with_negative,
        sell_quote(POOL_BASE, effective, 0, amount).unwrap()
    );
}

#[test]
fn effective_quote_reserve_rejects_non_positive_and_overflow() {
    assert_eq!(
        effective_quote_reserve(POOL_QUOTE, -(POOL_QUOTE as i128)),
        Err(QuoteError::EmptyReserves)
    );
    assert_eq!(
        effective_quote_reserve(POOL_QUOTE, -(POOL_QUOTE as i128) - 1),
        Err(QuoteError::EmptyReserves)
    );
    assert_eq!(
        effective_quote_reserve(u64::MAX, 1),
        Err(QuoteError::MathOverflow)
    );
}

/// A raw quote vault of zero is still tradable when the virtual figure
/// carries the liquidity. Gating on the raw balance would fail a live
/// pool as empty.
#[test]
fn zero_raw_vault_with_virtual_reserves_is_tradable() {
    assert_eq!(
        effective_quote_reserve(0, VIRTUAL_QUOTE).unwrap(),
        VIRTUAL_QUOTE as u64
    );
    let out = sell_quote(POOL_BASE, 0, VIRTUAL_QUOTE, 1_000_000_000_000).unwrap();
    assert!(out > 0, "pool with only virtual quote reserves must price");
}

/// The standalone helpers take the RAW vault balance plus the virtual
/// figure and sum internally. Pre-summing double-counts, and the result
/// must not silently match.
#[test]
fn passing_effective_reserve_as_raw_double_counts() {
    let amount: u64 = 1_000_000_000_000;
    let correct = sell_quote(POOL_BASE, POOL_QUOTE, VIRTUAL_QUOTE, amount).unwrap();
    let double_counted = sell_quote(POOL_BASE, EFFECTIVE_QUOTE, VIRTUAL_QUOTE, amount).unwrap();
    assert_ne!(
        correct, double_counted,
        "pre-summing the virtual figure must change the quote"
    );

    // The correct call equals pricing directly off the effective reserve.
    let direct = sell_quote(POOL_BASE, EFFECTIVE_QUOTE, 0, amount).unwrap();
    assert_eq!(correct, direct);
}

/// Leaving out the virtual figure prices off the raw vault balance and
/// understates a sell.
#[test]
fn ignoring_virtual_reserves_underprices_a_sell() {
    let amount: u64 = 1_000_000_000_000;
    let correct = sell_quote(POOL_BASE, POOL_QUOTE, VIRTUAL_QUOTE, amount).unwrap();
    let raw_only = sell_quote(POOL_BASE, POOL_QUOTE, 0, amount).unwrap();
    assert!(
        correct > raw_only,
        "effective reserves must yield more quote out than the raw vault ({correct} vs {raw_only})"
    );
}

#[test]
fn buy_and_market_cap_helpers_use_effective_reserves() {
    let sol_in: u64 = 1_000_000_000;
    let with_virtual = buy_token_quote_with_sol(POOL_BASE, POOL_QUOTE, VIRTUAL_QUOTE, sol_in)
        .unwrap();
    let direct = buy_token_quote_with_sol(POOL_BASE, EFFECTIVE_QUOTE, 0, sol_in).unwrap();
    assert_eq!(with_virtual, direct);
    // Deeper effective reserves mean less slippage, so fewer tokens per SOL.
    let raw_only = buy_token_quote_with_sol(POOL_BASE, POOL_QUOTE, 0, sol_in).unwrap();
    assert!(with_virtual < raw_only);

    // Market cap is measured on effective reserves, so the envelope that
    // the raw balance would satisfy must now be judged against the higher
    // figure.
    let effective_mcap = TOKEN_SUPPLY * (EFFECTIVE_QUOTE as u128) / (POOL_BASE as u128);
    validate_market_cap(POOL_BASE, POOL_QUOTE, VIRTUAL_QUOTE, effective_mcap, 0).unwrap();

    let raw_mcap = TOKEN_SUPPLY * (POOL_QUOTE as u128) / (POOL_BASE as u128);
    assert_eq!(
        validate_market_cap(POOL_BASE, POOL_QUOTE, VIRTUAL_QUOTE, raw_mcap, 100),
        Err(QuoteError::SlippageExceeded)
    );
}
