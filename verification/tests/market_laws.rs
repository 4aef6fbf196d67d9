//! Fees, and what holds of every quote, on concrete markets.

use pump_rust_client::math::amm::{
    buy_base_input, buy_quote_input, buy_token_quote_with_sol, sell_base_input, sell_quote,
    sell_token_quote_with_sol, AmmContext,
};
use pump_rust_client::math::bonding_curve::{
    buy_sol_amount_from_token_amount, buy_token_amount_from_sol_amount,
    sell_sol_amount_from_token_amount,
};
use pump_rust_client::math::fees::{
    amm_fee_bps_for, bonding_curve_market_cap, ceil_div, compute_amm_fee_bps,
    compute_bonding_curve_fee_bps, creator_fee_amount, fee_amount, is_pump_pool, pool_market_cap,
};
use pump_rust_client::math::utils::{
    add_slippage, mul_div_u128, slippage_bounds, sub_slippage,
};
use pump_rust_client::math::QuoteError;
use pump_rust_client::pda;
use pump_rust_client::pubkey::{Pubkey, DEFAULT_KEY};
use pump_rust_client::sdk::estimated_reserves;
use pump_rust_client::state::pump_amm::GlobalConfig;
use pump_rust_client::state::{BondingCurve, FeeConfig, FeeTier, Fees, Global};
use pump_rust_client::{AmmQuoteSource, PumpSdk};

const MINT: Pubkey = [71; 32];
const SUPPLY: u64 = 1_000_000_000_000_000;

fn fees(lp: u64, protocol: u64, creator: u64) -> Fees {
    Fees { lp_fee_bps: lp, protocol_fee_bps: protocol, creator_fee_bps: creator }
}

fn tiers(list: &[(u128, u64)]) -> FeeConfig {
    FeeConfig {
        flat_fees: fees(20, 5, 0),
        fee_tiers: list
            .iter()
            .map(|&(market_cap_lamports_threshold, bps)| FeeTier {
                market_cap_lamports_threshold,
                fees: fees(2, bps, 30),
            })
            .collect(),
    }
}

fn global() -> Global {
    Global {
        fee_basis_points: 100,
        creator_fee_basis_points: 50,
        token_total_supply: SUPPLY,
        initial_real_token_reserves: 793_100_000_000_000,
        pool_migration_fee: 15_000_001,
        ..Default::default()
    }
}

fn curve() -> BondingCurve {
    BondingCurve {
        virtual_token_reserves: 1_073_000_000_000_000,
        virtual_quote_reserves: 30_000_000_000,
        real_token_reserves: 793_100_000_000_000,
        real_quote_reserves: 0,
        token_total_supply: SUPPLY,
        creator: [9; 32],
        ..Default::default()
    }
}

fn config() -> GlobalConfig {
    GlobalConfig {
        lp_fee_basis_points: 20,
        protocol_fee_basis_points: 5,
        coin_creator_fee_basis_points: 5,
        ..Default::default()
    }
}

fn context<'a>(config: &'a GlobalConfig, virtual_quote_reserves: i128) -> AmmContext<'a> {
    AmmContext {
        global_config: config,
        fee_config: None,
        base_mint: &MINT,
        pool_creator: &[70; 32],
        coin_creator: &[9; 32],
        base_reserve: 200_000_000_000_000,
        quote_reserve: 30_000_000_000,
        virtual_quote_reserves,
        base_mint_supply: SUPPLY,
    }
}

#[test]
fn fee_amounts_round_up() {
    assert_eq!(ceil_div(10, 5), 2);
    assert_eq!(ceil_div(11, 5), 3);
    assert_eq!(ceil_div(0, 5), 0);
    assert_eq!(fee_amount(10_000, 100), 100);
    assert_eq!(fee_amount(10_001, 100), 101);
    assert_eq!(fee_amount(1, 1), 1);
    assert_eq!(creator_fee_amount(&DEFAULT_KEY, 10_001, 100), 0);
    assert_eq!(creator_fee_amount(&[1; 32], 10_001, 100), 101);
}

#[test]
fn market_caps_scale_the_price_by_the_supply() {
    assert_eq!(bonding_curve_market_cap(1_000, 30, 7), 4_285);
    assert_eq!(pool_market_cap(1_000, 7, 30), 4_285);
}

#[test]
fn flat_fees_apply_without_a_table() {
    let bps = compute_bonding_curve_fee_bps(&global(), None, SUPPLY, 30, 7);
    assert_eq!((bps.protocol_fee_bps, bps.creator_fee_bps), (100, 50));
    let bps = amm_fee_bps_for(&config(), None, true, SUPPLY, 7, 30);
    assert_eq!((bps.lp_fee_bps, bps.protocol_fee_bps, bps.creator_fee_bps), (20, 5, 5));
}

#[test]
fn the_highest_threshold_reached_sets_the_fees() {
    let table = tiers(&[(0, 95), (1_000, 80), (5_000, 60)]);
    let at = |cap: u64| {
        compute_bonding_curve_fee_bps(&global(), Some(&table), cap, 1, 1).protocol_fee_bps
    };
    assert_eq!(at(0), 95);
    assert_eq!(at(999), 95);
    assert_eq!(at(1_000), 80);
    assert_eq!(at(4_999), 80);
    assert_eq!(at(5_000), 60);
    assert_eq!(at(u64::MAX), 60);
}

#[test]
fn a_market_below_every_threshold_takes_the_first_tier() {
    let table = tiers(&[(1_000, 80), (5_000, 60)]);
    let bps = compute_bonding_curve_fee_bps(&global(), Some(&table), 10, 1, 1);
    assert_eq!(bps.protocol_fee_bps, 80);
    assert_eq!(bps.creator_fee_bps, 30);
}

#[test]
fn only_pump_pools_use_the_tiers() {
    let table = tiers(&[(0, 95)]);
    let authority = pda::pump::pool_authority(&MINT).expect("authority").0;
    assert!(is_pump_pool(&MINT, &authority));
    assert!(!is_pump_pool(&MINT, &[70; 32]));
    let own = compute_amm_fee_bps(&config(), Some(&table), &MINT, &authority, SUPPLY, 7, 30);
    assert_eq!((own.lp_fee_bps, own.protocol_fee_bps, own.creator_fee_bps), (2, 95, 30));
    let other = compute_amm_fee_bps(&config(), Some(&table), &MINT, &[70; 32], SUPPLY, 7, 30);
    assert_eq!((other.lp_fee_bps, other.protocol_fee_bps, other.creator_fee_bps), (20, 5, 0));
}

#[test]
fn a_table_without_tiers_cannot_be_charged() {
    let empty = tiers(&[]);
    assert_eq!(
        buy_token_amount_from_sol_amount(&global(), Some(&empty), &curve(), SUPPLY, 1_000),
        Err(QuoteError::FeesExceedOutput)
    );
    let authority = pda::pump::pool_authority(&MINT).expect("authority").0;
    let c = config();
    let ctx = AmmContext {
        fee_config: Some(&empty),
        pool_creator: &authority,
        ..context(&c, 0)
    };
    assert_eq!(sell_base_input(&ctx, 1_000), Err(QuoteError::FeesExceedOutput));
}

#[test]
fn costs_past_the_type_are_refused() {
    let c = config();
    let dear = AmmContext { base_reserve: 1_000, quote_reserve: u64::MAX / 100, ..context(&c, 0) };
    assert_eq!(buy_base_input(&dear, 999), Err(QuoteError::MathOverflow));
    let half = buy_base_input(&dear, 500).unwrap();
    assert_eq!(half.raw_quote_in, u64::MAX / 100);
    assert!(half.total_quote_in > half.raw_quote_in);
    let steep = BondingCurve {
        virtual_token_reserves: 1_000,
        real_token_reserves: 999,
        virtual_quote_reserves: u64::MAX / 100,
        ..curve()
    };
    assert_eq!(
        buy_sol_amount_from_token_amount(&global(), None, &steep, SUPPLY, 999),
        Err(QuoteError::MathOverflow)
    );
    assert!(buy_sol_amount_from_token_amount(&global(), None, &steep, SUPPLY, 500).is_ok());
}

#[test]
fn dust_sells_for_nothing() {
    let c = config();
    let ctx = AmmContext { base_reserve: 100, quote_reserve: 200, ..context(&c, 0) };
    let sold = sell_base_input(&ctx, 1).unwrap();
    assert_eq!((sold.final_quote_out, sold.raw_quote_out), (0, 1));

    let small = BondingCurve {
        virtual_token_reserves: 100,
        virtual_quote_reserves: 200,
        ..curve()
    };
    assert_eq!(sell_sol_amount_from_token_amount(&global(), None, &small, SUPPLY, 1), Ok(0));
}

#[test]
fn more_than_all_cannot_be_charged() {
    let greedy = GlobalConfig { protocol_fee_basis_points: 9_976, ..config() };
    assert_eq!(
        sell_base_input(&context(&greedy, 0), 1_000_000_000_000),
        Err(QuoteError::FeesExceedOutput)
    );
    let just = GlobalConfig { protocol_fee_basis_points: 9_975, ..config() };
    assert!(sell_base_input(&context(&just, 0), 1_000_000_000_000).is_ok());
    let taking = Global { fee_basis_points: 9_951, ..global() };
    assert_eq!(
        sell_sol_amount_from_token_amount(&taking, None, &curve(), SUPPLY, 1_000_000_000_000),
        Err(QuoteError::FeesExceedOutput)
    );
    let fair = Global { fee_basis_points: 9_950, ..global() };
    assert!(sell_sol_amount_from_token_amount(&fair, None, &curve(), SUPPLY, 1_000_000_000_000)
        .is_ok());
}

#[test]
fn slippage_saturates() {
    assert_eq!(add_slippage(u64::MAX, 1), u64::MAX);
    assert_eq!(add_slippage(1_000, 100), 1_010);
    assert_eq!(sub_slippage(1_000, 100), 990);
    assert_eq!(sub_slippage(1_000, 10_000), 0);
    assert_eq!(sub_slippage(1_000, u16::MAX), 0);
    assert_eq!(slippage_bounds(1_000, 100), Some((990, 1_010)));
    assert_eq!(mul_div_u128(7, 3, 2), Ok(10));
    assert_eq!(mul_div_u128(7, 3, 0), Err(QuoteError::MathOverflow));
    assert_eq!(mul_div_u128(u128::MAX, 2, 2), Err(QuoteError::MathOverflow));
}

#[test]
fn fee_less_quotes_follow_the_constant_product() {
    let free = Global { token_total_supply: SUPPLY, ..Default::default() };
    let c = BondingCurve { creator: DEFAULT_KEY, ..curve() };
    let sold = 1_000_000_000_000u64;
    let gross = sold as u128 * 30_000_000_000u128 / (1_073_000_000_000_000u128 + sold as u128);
    assert_eq!(
        sell_sol_amount_from_token_amount(&free, None, &c, SUPPLY, sold),
        Ok(gross as u64)
    );
}

#[test]
fn curve_round_trips_never_profit() {
    for spent in [2u64, 1_000, 1_000_000_000, 50_000_000_000] {
        let tokens =
            buy_token_amount_from_sol_amount(&global(), None, &curve(), SUPPLY, spent).unwrap();
        let after = BondingCurve {
            virtual_token_reserves: curve().virtual_token_reserves - tokens,
            virtual_quote_reserves: curve().virtual_quote_reserves + spent,
            ..curve()
        };
        let back =
            sell_sol_amount_from_token_amount(&global(), None, &after, SUPPLY, tokens).unwrap();
        assert!(back <= spent, "{spent} came back as {back}");
    }
}

#[test]
fn pool_round_trips_never_profit() {
    let c = config();
    for spent in [1_000u64, 1_000_000_000, 20_000_000_000] {
        let ctx = context(&c, 5_000_000_000);
        let bought = buy_quote_input(&ctx, spent).unwrap();
        let after = AmmContext {
            base_reserve: ctx.base_reserve - bought.base_amount_out,
            quote_reserve: ctx.quote_reserve + bought.effective_quote,
            ..ctx
        };
        let back = sell_base_input(&after, bought.base_amount_out).unwrap().final_quote_out;
        assert!(back <= spent, "{spent} came back as {back}");
    }
}

#[test]
fn a_quoted_purchase_covers_its_cost() {
    let c = config();
    let ctx = context(&c, 0);
    let wanted = 1_000_000_000_000u64;
    let priced = buy_base_input(&ctx, wanted).unwrap();
    assert!(priced.total_quote_in >= priced.raw_quote_in);
    assert!(buy_quote_input(&ctx, priced.total_quote_in).unwrap().base_amount_out >= wanted - 1);
    let cost = buy_sol_amount_from_token_amount(&global(), None, &curve(), SUPPLY, wanted).unwrap();
    let fee_less =
        wanted as u128 * 30_000_000_000u128 / (1_073_000_000_000_000u128 - wanted as u128) + 1;
    assert!(cost as u128 > fee_less);
}

#[test]
fn nothing_is_overdrawn() {
    let all = buy_token_amount_from_sol_amount(&global(), None, &curve(), SUPPLY, u64::MAX);
    assert_eq!(all, Ok(curve().real_token_reserves));
    let c = config();
    let ctx = context(&c, 0);
    assert!(buy_quote_input(&ctx, u64::MAX).unwrap().base_amount_out < ctx.base_reserve);
    assert!(sell_base_input(&ctx, u64::MAX).unwrap().raw_quote_out < ctx.quote_reserve);
    assert_eq!(
        buy_base_input(&ctx, ctx.base_reserve),
        Err(QuoteError::BaseOutExceedsReserve)
    );
}

#[test]
fn zero_in_gives_zero_out() {
    assert_eq!(buy_token_amount_from_sol_amount(&global(), None, &curve(), SUPPLY, 0), Ok(0));
    assert_eq!(buy_sol_amount_from_token_amount(&global(), None, &curve(), SUPPLY, 0), Ok(0));
    assert_eq!(sell_sol_amount_from_token_amount(&global(), None, &curve(), SUPPLY, 0), Ok(0));
    let c = config();
    assert_eq!(sell_base_input(&context(&c, 0), 0).unwrap().final_quote_out, 0);
    assert_eq!(buy_quote_input(&context(&c, 0), 0).unwrap().base_amount_out, 0);
}

#[test]
fn virtual_reserves_price_like_real_ones() {
    let c = config();
    let split = context(&c, 5_000_000_000);
    let whole = AmmContext { quote_reserve: 35_000_000_000, ..context(&c, 0) };
    assert_eq!(buy_quote_input(&split, 777_777), buy_quote_input(&whole, 777_777));
    assert_eq!(sell_base_input(&split, 777_777), sell_base_input(&whole, 777_777));
    assert_eq!(
        sell_base_input(&context(&c, -30_000_000_000), 1),
        Err(QuoteError::EmptyReserves)
    );
    assert!(
        sell_base_input(&split, 1_000_000_000_000).unwrap().final_quote_out
            > sell_base_input(&context(&c, 0), 1_000_000_000_000).unwrap().final_quote_out
    );
}

#[test]
fn the_inverse_sale_brackets_its_target() {
    let (base, quote) = (800_000_000_000_000u64, 100_000_000_000u64);
    let target = 1_234_567_891u64;
    let tokens = sell_token_quote_with_sol(base, quote, 0, target).unwrap() as u64;
    assert!(sell_quote(base, quote, 0, tokens).unwrap() <= target as u128);
    assert!(sell_quote(base, quote, 0, tokens + 1).unwrap() >= target as u128);
    let more = buy_token_quote_with_sol(base, quote, 0, target + 1).unwrap();
    assert!(more >= buy_token_quote_with_sol(base, quote, 0, target).unwrap());
}

#[test]
fn fees_never_favour_the_trader() {
    let free = GlobalConfig::default();
    let c = config();
    let amount = 1_000_000_007u64;
    assert!(
        buy_quote_input(&context(&c, 0), amount).unwrap().base_amount_out
            <= buy_quote_input(&context(&free, 0), amount).unwrap().base_amount_out
    );
    assert!(
        sell_base_input(&context(&c, 0), amount).unwrap().final_quote_out
            <= sell_base_input(&context(&free, 0), amount).unwrap().final_quote_out
    );
    assert!(
        buy_base_input(&context(&c, 0), amount).unwrap().total_quote_in
            >= buy_base_input(&context(&free, 0), amount).unwrap().total_quote_in
    );
}

#[test]
fn no_creator_means_no_creator_fee() {
    let c = config();
    let without = AmmContext { coin_creator: &DEFAULT_KEY, ..context(&c, 0) };
    let cheaper = GlobalConfig { coin_creator_fee_basis_points: 0, ..config() };
    assert_eq!(
        sell_base_input(&without, 1_000_000_000),
        sell_base_input(&context(&cheaper, 0), 1_000_000_000)
    );
    let unowned = BondingCurve { creator: DEFAULT_KEY, ..curve() };
    let no_share = Global { creator_fee_basis_points: 0, ..global() };
    assert_eq!(
        sell_sol_amount_from_token_amount(&global(), None, &unowned, SUPPLY, 1_000_000_000),
        sell_sol_amount_from_token_amount(&no_share, None, &curve(), SUPPLY, 1_000_000_000)
    );
}

#[test]
fn completed_curves_open_canonical_pools() {
    let complete =
        BondingCurve { complete: true, real_quote_reserves: 85_000_000_000, ..curve() };
    assert_eq!(
        estimated_reserves(&global(), &complete),
        Ok((206_900_000_000_000, 84_984_999_999))
    );
    let poor = BondingCurve { real_quote_reserves: 1, ..complete };
    assert_eq!(estimated_reserves(&global(), &poor), Err(QuoteError::EmptyReserves));

    let c = config();
    let table = tiers(&[(0, 95)]);
    let quoted = PumpSdk::new()
        .sell_quote_amm(
            &c,
            Some(&table),
            AmmQuoteSource::BondingCurveComplete {
                global: &global(),
                bonding_curve: &complete,
                base_mint: &MINT,
                base_mint_supply: SUPPLY,
            },
            1_000_000_000_000,
            100,
        )
        .unwrap();
    let gross = 1_000_000_000_000u128 * 84_984_999_999 / 207_900_000_000_000;
    let net = gross
        - ceil_div(gross * 2, 10_000)
        - ceil_div(gross * 95, 10_000)
        - ceil_div(gross * 30, 10_000);
    assert_eq!(quoted.amount as u128, net);
    assert_eq!(quoted.min_out, sub_slippage(quoted.amount, 100));
}

#[test]
fn errors_explain_themselves() {
    let said = |error: QuoteError| error.message();
    assert_eq!(said(QuoteError::EmptyReserves), "pool reserves are zero");
    assert_eq!(
        said(QuoteError::BaseOutExceedsReserve),
        "base_out exceeds the pool's base reserve"
    );
    assert_eq!(said(QuoteError::FeesExceedOutput), "fees exceed the pool's quote output");
    assert_eq!(
        said(QuoteError::DepletedBondingCurve),
        "bonding curve is depleted (real == virtual reserves)"
    );
    assert_eq!(said(QuoteError::MathOverflow), "checked arithmetic overflowed");
    assert_eq!(
        said(QuoteError::SlippageExceeded),
        "market cap fell outside the slippage envelope"
    );
}
