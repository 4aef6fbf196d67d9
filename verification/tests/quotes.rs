//! Quotes over bonding curves and pools.

use pump_rust_client::math::amm::{buy_quote_input, AmmContext};
use pump_rust_client::math::QuoteError;
use pump_rust_client::pubkey::{Pubkey, DEFAULT_KEY};
use pump_rust_client::state::pump_amm::{GlobalConfig, Pool};
use pump_rust_client::state::{BondingCurve, Global};
use pump_rust_client::{
    constants, pda, AmmQuoteSource, PumpPoolQuoteCtx, PumpSdk, TradeQuoteParams,
};

fn fake_pubkey(seed: u8) -> Pubkey {
    [seed; 32]
}

fn key(found: Option<(Pubkey, u8)>) -> Pubkey {
    found.expect("address").0
}

fn fixture_global() -> Global {
    Global {
        fee_basis_points: 100,
        creator_fee_basis_points: 50,
        token_total_supply: 1_000_000_000_000_000,
        initial_real_token_reserves: 793_100_000_000_000,
        pool_migration_fee: 6_900_000_000,
        ..Default::default()
    }
}

fn fixture_bonding_curve(creator: Pubkey) -> BondingCurve {
    BondingCurve {
        virtual_token_reserves: 1_073_000_000_000_000,
        virtual_quote_reserves: 30_000_000_000,
        real_token_reserves: 793_100_000_000_000,
        real_quote_reserves: 0,
        token_total_supply: 1_000_000_000_000_000,
        complete: false,
        creator,
        is_mayhem_mode: false,
        is_cashback_coin: false,
        quote_mint: constants::NATIVE_MINT,
    }
}

fn fixture_amm_global_config() -> GlobalConfig {
    GlobalConfig {
        lp_fee_basis_points: 20,
        protocol_fee_basis_points: 5,
        coin_creator_fee_basis_points: 5,
        ..Default::default()
    }
}

fn fixture_pool(coin_creator: Pubkey) -> Pool {
    Pool {
        base_mint: fake_pubkey(0xAA),
        creator: fake_pubkey(0xBB),
        coin_creator,
        quote_mint: constants::NATIVE_MINT,
        ..Default::default()
    }
}

#[test]
fn quote_trade_bc_matches_direct_buy_and_sell_quotes() {
    let sdk = PumpSdk::new();
    let g = fixture_global();
    let bc = fixture_bonding_curve(fake_pubkey(7));
    let supply = g.token_total_supply;
    let target = 100_000_000_000_000u64;
    let slip = 200u16;

    let buy_direct = sdk
        .buy_quote_bonding_curve_token_out(&g, None, &bc, supply, target, slip)
        .expect("buy direct");
    let buy_auto = sdk
        .quote_trade(TradeQuoteParams {
            is_buy: true,
            base_amount: target,
            slippage_bps: slip,
            base_mint_supply: supply,
            pump_global: &g,
            pump_fee_config: None,
            bonding_curve: &bc,
            pump_pool: None,
        })
        .expect("auto routed")
        .expect("buy auto");
    assert_eq!(buy_direct, buy_auto);

    let sell_direct = sdk
        .sell_quote_bonding_curve(&g, None, &bc, supply, target, slip)
        .expect("sell direct");
    let sell_auto = sdk
        .quote_trade(TradeQuoteParams {
            is_buy: false,
            base_amount: target,
            slippage_bps: slip,
            base_mint_supply: supply,
            pump_global: &g,
            pump_fee_config: None,
            bonding_curve: &bc,
            pump_pool: None,
        })
        .expect("auto routed")
        .expect("sell auto");
    assert_eq!(sell_direct, sell_auto);
}

#[test]
fn quote_trade_amm_matches_direct_buy_and_sell_quotes() {
    let sdk = PumpSdk::new();
    let g = fixture_global();
    let gc = fixture_amm_global_config();
    let pool_state = fixture_pool(fake_pubkey(0xCC));
    let mut bc = fixture_bonding_curve(fake_pubkey(7));
    bc.complete = true;

    let base_reserve = 200_000_000_000_000u64;
    let quote_reserve = 30_000_000_000u64;
    let base_mint_supply = 1_000_000_000_000_000u64;
    let target = 1_000_000_000_000u64;
    let slip = 100u16;

    let source = AmmQuoteSource::Pool {
        pool: &pool_state,
        base_reserve,
        quote_reserve,
        base_mint_supply,
    };
    let buy_direct = sdk
        .buy_quote_amm_token_out(&gc, None, source, target, slip)
        .expect("buy direct");
    let buy_auto = sdk
        .quote_trade(TradeQuoteParams {
            is_buy: true,
            base_amount: target,
            slippage_bps: slip,
            base_mint_supply,
            pump_global: &g,
            pump_fee_config: None,
            bonding_curve: &bc,
            pump_pool: Some(PumpPoolQuoteCtx {
                amm_global: &gc,
                amm_fee_config: None,
                pool_state: &pool_state,
                base_reserve,
                quote_reserve,
            }),
        })
        .expect("auto routed")
        .expect("buy auto");
    assert_eq!(buy_direct, buy_auto);

    let sell_source = AmmQuoteSource::Pool {
        pool: &pool_state,
        base_reserve,
        quote_reserve,
        base_mint_supply,
    };
    let sell_direct = sdk
        .sell_quote_amm(&gc, None, sell_source, target, slip)
        .expect("sell direct");
    let sell_auto = sdk
        .quote_trade(TradeQuoteParams {
            is_buy: false,
            base_amount: target,
            slippage_bps: slip,
            base_mint_supply,
            pump_global: &g,
            pump_fee_config: None,
            bonding_curve: &bc,
            pump_pool: Some(PumpPoolQuoteCtx {
                amm_global: &gc,
                amm_fee_config: None,
                pool_state: &pool_state,
                base_reserve,
                quote_reserve,
            }),
        })
        .expect("auto routed")
        .expect("sell auto");
    assert_eq!(sell_direct, sell_auto);
}

#[test]
fn quote_trade_returns_none_when_complete_without_pump_pool() {
    let sdk = PumpSdk::new();
    let g = fixture_global();
    let mut bc = fixture_bonding_curve(fake_pubkey(7));
    bc.complete = true;
    assert!(sdk
        .quote_trade(TradeQuoteParams {
            is_buy: true,
            base_amount: 1,
            slippage_bps: 0,
            base_mint_supply: g.token_total_supply,
            pump_global: &g,
            pump_fee_config: None,
            bonding_curve: &bc,
            pump_pool: None,
        })
        .is_none());
}

fn bc_buy_sol_in_matches_ts() {
    let sdk = PumpSdk::new();
    let g = fixture_global();
    let bc = fixture_bonding_curve(fake_pubkey(7));
    let q = sdk
        .buy_quote_bonding_curve_sol_in(
            &g,
            None,
            &bc,
            g.token_total_supply,
            1_000_000_000, // 1 SOL
            100,           // 1% slippage
        )
        .unwrap();
    assert_eq!(q.amount, 34_117_646_995_895);
    assert_eq!(q.min_out, 33_776_470_525_936);
    assert_eq!(q.input_amount_used, 1_000_000_000);
    assert_eq!(q.max_input, 1_000_000_000);
}

#[test]
fn sdk_bc_buy_sol_in_matches_ts() {
    bc_buy_sol_in_matches_ts();
}

#[test]
fn mod_bc_buy_sol_in_matches_ts() {
    bc_buy_sol_in_matches_ts();
}

fn bc_buy_token_out_matches_ts() {
    let sdk = PumpSdk::new();
    let g = fixture_global();
    let bc = fixture_bonding_curve(fake_pubkey(7));
    let q = sdk
        .buy_quote_bonding_curve_token_out(
            &g,
            None,
            &bc,
            g.token_total_supply,
            100_000_000_000_000,
            200, // 2% slippage
        )
        .unwrap();
    assert_eq!(q.amount, 3_129_496_404);
    assert_eq!(q.max_input, 3_192_086_332);
    assert_eq!(q.min_out, 100_000_000_000_000);
    assert_eq!(q.input_amount_used, 100_000_000_000_000);
}

#[test]
fn sdk_bc_buy_token_out_matches_ts() {
    bc_buy_token_out_matches_ts();
}

#[test]
fn mod_bc_buy_token_out_matches_ts() {
    bc_buy_token_out_matches_ts();
}

fn bc_sell_with_creator_matches_ts() {
    let sdk = PumpSdk::new();
    let g = fixture_global();
    let bc = fixture_bonding_curve(fake_pubkey(7));
    let q = sdk
        .sell_quote_bonding_curve(
            &g,
            None,
            &bc,
            g.token_total_supply,
            50_000_000_000_000,
            50, // 0.5% slippage
        )
        .unwrap();
    assert_eq!(q.amount, 1_315_672_305);
    assert_eq!(q.min_out, 1_309_093_943);
}

#[test]
fn sdk_bc_sell_with_creator_matches_ts() {
    bc_sell_with_creator_matches_ts();
}

#[test]
fn mod_bc_sell_with_creator_matches_ts() {
    bc_sell_with_creator_matches_ts();
}

fn bc_sell_default_creator_skips_creator_fee() {
    let sdk = PumpSdk::new();
    let g = fixture_global();
    let bc = fixture_bonding_curve(DEFAULT_KEY);
    let q = sdk
        .sell_quote_bonding_curve(&g, None, &bc, g.token_total_supply, 50_000_000_000_000, 0)
        .unwrap();
    assert_eq!(q.amount, 1_322_350_845);
}

#[test]
fn sdk_bc_sell_default_creator_skips_creator_fee() {
    bc_sell_default_creator_skips_creator_fee();
}

#[test]
fn mod_bc_sell_default_creator_skips_creator_fee() {
    bc_sell_default_creator_skips_creator_fee();
}

fn amm_buy_sol_in_matches_ts() {
    let sdk = PumpSdk::new();
    let gc = fixture_amm_global_config();
    let pool = fixture_pool(fake_pubkey(0xCC));
    let q = sdk
        .buy_quote_amm_sol_in(
            &gc,
            None,
            AmmQuoteSource::Pool {
                pool: &pool,
                base_reserve: 200_000_000_000_000,
                quote_reserve: 30_000_000_000,
                base_mint_supply: 1_000_000_000_000_000,
            },
            1_000_000_000,
            100,
        )
        .unwrap();
    assert_eq!(q.amount, 6_432_936_635_069);
    assert_eq!(q.min_out, 6_368_607_268_718);
    assert_eq!(q.max_input, 1_010_000_000);
}

#[test]
fn sdk_amm_buy_sol_in_matches_ts() {
    amm_buy_sol_in_matches_ts();
}

#[test]
fn mod_amm_buy_sol_in_matches_ts() {
    amm_buy_sol_in_matches_ts();
}

fn amm_buy_token_out_matches_ts() {
    let sdk = PumpSdk::new();
    let gc = fixture_amm_global_config();
    let pool = fixture_pool(fake_pubkey(0xCC));
    let q = sdk
        .buy_quote_amm_token_out(
            &gc,
            None,
            AmmQuoteSource::Pool {
                pool: &pool,
                base_reserve: 200_000_000_000_000,
                quote_reserve: 30_000_000_000,
                base_mint_supply: 1_000_000_000_000_000,
            },
            1_000_000_000_000,
            100,
        )
        .unwrap();
    assert_eq!(q.amount, 151_206_031);
    assert_eq!(q.max_input, 152_718_091);
}

#[test]
fn sdk_amm_buy_token_out_matches_ts() {
    amm_buy_token_out_matches_ts();
}

#[test]
fn mod_amm_buy_token_out_matches_ts() {
    amm_buy_token_out_matches_ts();
}

fn amm_sell_with_coin_creator_matches_ts() {
    let sdk = PumpSdk::new();
    let gc = fixture_amm_global_config();
    let pool = fixture_pool(fake_pubkey(0xCC));
    let q = sdk
        .sell_quote_amm(
            &gc,
            None,
            AmmQuoteSource::Pool {
                pool: &pool,
                base_reserve: 200_000_000_000_000,
                quote_reserve: 30_000_000_000,
                base_mint_supply: 1_000_000_000_000_000,
            },
            1_000_000_000_000,
            100,
        )
        .unwrap();
    assert_eq!(q.amount, 148_805_969);
    assert_eq!(q.min_out, 147_317_909);
}

#[test]
fn sdk_amm_sell_with_coin_creator_matches_ts() {
    amm_sell_with_coin_creator_matches_ts();
}

#[test]
fn mod_amm_sell_with_coin_creator_matches_ts() {
    amm_sell_with_coin_creator_matches_ts();
}

fn amm_sell_default_coin_creator_skips_creator_fee() {
    let sdk = PumpSdk::new();
    let gc = fixture_amm_global_config();
    let pool = fixture_pool(DEFAULT_KEY);
    let q = sdk
        .sell_quote_amm(
            &gc,
            None,
            AmmQuoteSource::Pool {
                pool: &pool,
                base_reserve: 200_000_000_000_000,
                quote_reserve: 30_000_000_000,
                base_mint_supply: 1_000_000_000_000_000,
            },
            1_000_000_000_000,
            0,
        )
        .unwrap();
    assert_eq!(q.amount, 148_880_596);
}

#[test]
fn sdk_amm_sell_default_coin_creator_skips_creator_fee() {
    amm_sell_default_coin_creator_skips_creator_fee();
}

#[test]
fn mod_amm_sell_default_coin_creator_skips_creator_fee() {
    amm_sell_default_coin_creator_skips_creator_fee();
}

fn zero_input_returns_zero() {
    let sdk = PumpSdk::new();
    let g = fixture_global();
    let bc = fixture_bonding_curve(fake_pubkey(7));
    let q = sdk
        .buy_quote_bonding_curve_sol_in(&g, None, &bc, g.token_total_supply, 0, 100)
        .unwrap();
    assert_eq!(q.amount, 0);
    let q = sdk
        .sell_quote_bonding_curve(&g, None, &bc, g.token_total_supply, 0, 100)
        .unwrap();
    assert_eq!(q.amount, 0);
}

#[test]
fn sdk_zero_input_returns_zero() {
    zero_input_returns_zero();
}

#[test]
fn mod_zero_input_returns_zero() {
    zero_input_returns_zero();
}

fn migrated_curve_returns_zero() {
    let sdk = PumpSdk::new();
    let g = fixture_global();
    let mut bc = fixture_bonding_curve(fake_pubkey(7));
    bc.virtual_token_reserves = 0;
    let q = sdk
        .buy_quote_bonding_curve_sol_in(&g, None, &bc, g.token_total_supply, 1_000_000_000, 0)
        .unwrap();
    assert_eq!(q.amount, 0);
}

#[test]
fn sdk_migrated_curve_returns_zero() {
    migrated_curve_returns_zero();
}

#[test]
fn mod_migrated_curve_returns_zero() {
    migrated_curve_returns_zero();
}

fn amm_empty_reserves_errors() {
    let sdk = PumpSdk::new();
    let gc = fixture_amm_global_config();
    let pool = fixture_pool(fake_pubkey(0xCC));
    let err = sdk
        .buy_quote_amm_sol_in(
            &gc,
            None,
            AmmQuoteSource::Pool {
                pool: &pool,
                base_reserve: 0,
                quote_reserve: 1_000,
                base_mint_supply: 1_000,
            },
            1,
            0,
        )
        .unwrap_err();
    assert_eq!(err, QuoteError::EmptyReserves);
    let err = sdk
        .sell_quote_amm(
            &gc,
            None,
            AmmQuoteSource::Pool {
                pool: &pool,
                base_reserve: 1_000,
                quote_reserve: 0,
                base_mint_supply: 1_000,
            },
            1,
            0,
        )
        .unwrap_err();
    assert_eq!(err, QuoteError::EmptyReserves);
}

#[test]
fn sdk_amm_empty_reserves_errors() {
    amm_empty_reserves_errors();
}

#[test]
fn mod_amm_empty_reserves_errors() {
    amm_empty_reserves_errors();
}

fn amm_buy_token_out_oversize_errors() {
    let sdk = PumpSdk::new();
    let gc = fixture_amm_global_config();
    let pool = fixture_pool(fake_pubkey(0xCC));
    let err = sdk
        .buy_quote_amm_token_out(
            &gc,
            None,
            AmmQuoteSource::Pool {
                pool: &pool,
                base_reserve: 1_000,
                quote_reserve: 1_000,
                base_mint_supply: 1_000_000,
            },
            1_000,
            0,
        )
        .unwrap_err();
    assert_eq!(err, QuoteError::BaseOutExceedsReserve);
    let err = sdk
        .buy_quote_amm_token_out(
            &gc,
            None,
            AmmQuoteSource::Pool {
                pool: &pool,
                base_reserve: 1_000,
                quote_reserve: 1_000,
                base_mint_supply: 1_000_000,
            },
            5_000,
            0,
        )
        .unwrap_err();
    assert_eq!(err, QuoteError::BaseOutExceedsReserve);
}

#[test]
fn sdk_amm_buy_token_out_oversize_errors() {
    amm_buy_token_out_oversize_errors();
}

#[test]
fn mod_amm_buy_token_out_oversize_errors() {
    amm_buy_token_out_oversize_errors();
}

fn bc_token_out_buy_at_real_reserves_errors() {
    let sdk = PumpSdk::new();
    let g = fixture_global();
    let mut bc = fixture_bonding_curve(fake_pubkey(7));
    bc.real_token_reserves = bc.virtual_token_reserves;
    let err = sdk
        .buy_quote_bonding_curve_token_out(
            &g,
            None,
            &bc,
            g.token_total_supply,
            bc.virtual_token_reserves,
            0,
        )
        .unwrap_err();
    assert_eq!(err, QuoteError::DepletedBondingCurve);
}

#[test]
fn sdk_bc_token_out_buy_at_real_reserves_errors() {
    bc_token_out_buy_at_real_reserves_errors();
}

#[test]
fn mod_bc_token_out_buy_at_real_reserves_errors() {
    bc_token_out_buy_at_real_reserves_errors();
}

fn amm_quote_bonding_curve_complete_underflow_errors() {
    let sdk = PumpSdk::new();
    let g = fixture_global();
    let gc = fixture_amm_global_config();
    let bc = fixture_bonding_curve(fake_pubkey(7)); // real_quote_reserves = 0
    let base_mint = fake_pubkey(0xAA);
    let err = sdk
        .buy_quote_amm_sol_in(
            &gc,
            None,
            AmmQuoteSource::BondingCurveComplete {
                global: &g,
                bonding_curve: &bc,
                base_mint: &base_mint,
                base_mint_supply: g.token_total_supply,
            },
            1_000_000_000,
            0,
        )
        .unwrap_err();
    assert_eq!(err, QuoteError::EmptyReserves);
}

#[test]
fn sdk_amm_quote_bonding_curve_complete_underflow_errors() {
    amm_quote_bonding_curve_complete_underflow_errors();
}

#[test]
fn mod_amm_quote_bonding_curve_complete_underflow_errors() {
    amm_quote_bonding_curve_complete_underflow_errors();
}

fn amm_quote_bonding_curve_complete_matches_formula() {
    let sdk = PumpSdk::new();
    let g = fixture_global();
    let gc = fixture_amm_global_config();
    let mut bc = fixture_bonding_curve(fake_pubkey(7));
    bc.real_quote_reserves = 100_000_000_000;
    let base_mint = fake_pubkey(0xAA);

    let q = sdk
        .buy_quote_amm_sol_in(
            &gc,
            None,
            AmmQuoteSource::BondingCurveComplete {
                global: &g,
                bonding_curve: &bc,
                base_mint: &base_mint,
                base_mint_supply: g.token_total_supply,
            },
            1_000_000_000,
            0,
        )
        .unwrap();

    let base_reserve = g.token_total_supply - g.initial_real_token_reserves;
    let quote_reserve = bc.real_quote_reserves - g.pool_migration_fee;
    let pool_creator = key(pda::pump::pool_authority(&base_mint));
    let ctx = AmmContext {
        global_config: &gc,
        fee_config: None,
        base_mint: &base_mint,
        pool_creator: &pool_creator,
        coin_creator: &bc.creator,
        base_reserve,
        quote_reserve,
        base_mint_supply: g.token_total_supply,
        virtual_quote_reserves: 0,
    };
    let expected = buy_quote_input(&ctx, 1_000_000_000)
        .unwrap()
        .base_amount_out;
    assert_eq!(q.amount, expected);
}

#[test]
fn sdk_amm_quote_bonding_curve_complete_matches_formula() {
    amm_quote_bonding_curve_complete_matches_formula();
}

#[test]
fn mod_amm_quote_bonding_curve_complete_matches_formula() {
    amm_quote_bonding_curve_complete_matches_formula();
}
