//! Rules of the trade builders: token accounts, routing, recipients and data.

use pump_rust_client::instruction::Instruction;
use pump_rust_client::pubkey::{Pubkey, DEFAULT_KEY};
use pump_rust_client::sdk::encoding;
use pump_rust_client::sdk::pump_amm_ix::AmmTrade;
use pump_rust_client::sdk::pump_v2::{resolve_quote_mint, V2Trade, V2TradeAccounts};
use pump_rust_client::sdk::recipients::{
    amm_fee_candidates, buyback_candidates, fee_candidates, pick_pubkey,
};
use pump_rust_client::state::pump_amm::{GlobalConfig, Pool};
use pump_rust_client::state::{BondingCurve, Global};
use pump_rust_client::token::create_associated_token_account_idempotent;
use pump_rust_client::{
    constants, pda, CreateCoinParams, PumpPoolCtx, PumpSdk, TradeTxParams, TradeTxWithVenueParams,
    TradeVenue,
};

const MINT: Pubkey = [31; 32];
const USER: Pubkey = [32; 32];
const CREATOR: Pubkey = [33; 32];
const FEE: Pubkey = [34; 32];
const BUYBACK: Pubkey = [35; 32];
const USDC: Pubkey = [36; 32];
const TOKEN: Pubkey = constants::SPL_TOKEN_PROGRAM_ID;
const TOKEN_2022: Pubkey = constants::SPL_TOKEN_2022_PROGRAM_ID;
const AGENT_PROGRAM: Pubkey = [0xEE; 32];

fn key(found: Option<(Pubkey, u8)>) -> Pubkey {
    found.expect("address").0
}

fn global() -> Global {
    Global { fee_recipient: FEE, buyback_fee_recipients: vec![BUYBACK], ..Default::default() }
}

fn curve(quote_mint: Pubkey, cashback: bool) -> BondingCurve {
    BondingCurve {
        creator: CREATOR,
        quote_mint,
        is_cashback_coin: cashback,
        ..Default::default()
    }
}

fn create_account(owner: &Pubkey, mint: &Pubkey, program: &Pubkey) -> Instruction {
    create_associated_token_account_idempotent(&USER, owner, mint, program).expect("create")
}

fn assert_same(a: &Instruction, b: &Instruction) {
    assert_eq!(a, b);
}

#[test]
fn sol_curves_need_no_quote_accounts() {
    let sdk = PumpSdk::new();
    for quote in [DEFAULT_KEY, constants::NATIVE_MINT] {
        let curve = curve(quote, true);
        let buy = sdk
            .buy_v2_instructions(&global(), &curve, MINT, TOKEN, USER, 10, 20)
            .expect("buy");
        assert_eq!(buy.len(), 2);
        assert_same(&buy[0], &create_account(&USER, &MINT, &TOKEN_2022));
        assert_eq!(&buy[1].data[..8], encoding::BUY_V2);
        let sell = sdk
            .sell_v2_instructions(&global(), &curve, MINT, TOKEN, USER, 10, 20)
            .expect("sell");
        assert_eq!(sell.len(), 1);
        assert_eq!(&sell[0].data[..8], encoding::SELL_V2);
    }
}

#[test]
fn token_quoted_curves_get_their_quote_accounts() {
    let sdk = PumpSdk::new();
    let curve_address = key(pda::pump::bonding_curve(&MINT));
    let buy = sdk
        .buy_v2_instructions(&global(), &curve(USDC, false), MINT, TOKEN, USER, 10, 20)
        .expect("buy");
    assert_eq!(buy.len(), 5);
    assert_same(&buy[0], &create_account(&USER, &MINT, &TOKEN_2022));
    assert_same(&buy[1], &create_account(&USER, &USDC, &TOKEN));
    let vault = key(pda::pump::creator_vault(&CREATOR));
    assert_same(&buy[2], &create_account(&vault, &USDC, &TOKEN));
    assert_same(&buy[3], &create_account(&curve_address, &USDC, &TOKEN));

    let sell = sdk
        .sell_v2_instructions(&global(), &curve(USDC, true), MINT, TOKEN, USER, 10, 20)
        .expect("sell");
    assert_eq!(sell.len(), 5);
    let volume = key(pda::pump::user_volume_accumulator(&USER));
    assert_same(&sell[3], &create_account(&volume, &USDC, &TOKEN));
    assert_eq!(&sell[4].data[..8], encoding::SELL_V2);
}

#[test]
fn spending_an_exact_quote_shares_the_accounts_of_a_buy() {
    let sdk = PumpSdk::new();
    let c = curve(USDC, true);
    let exact = sdk
        .buy_exact_quote_in_v2_instructions(&global(), &c, MINT, TOKEN, USER, 77, 5)
        .expect("exact");
    let buy =
        sdk.buy_v2_instructions(&global(), &c, MINT, TOKEN, USER, 77, 5).expect("buy");
    assert_eq!(exact.len(), buy.len());
    let (last, first) = exact.split_last().expect("trade");
    let (other, others) = buy.split_last().expect("trade");
    assert_eq!(first, others);
    assert_eq!(last.accounts, other.accounts);
    assert_eq!(&last.data[..8], encoding::BUY_EXACT_QUOTE_IN_V2);
    assert_eq!(&last.data[8..16], &77u64.to_le_bytes());
    assert_eq!(&last.data[16..24], &5u64.to_le_bytes());
    assert_eq!(last.data.len(), 24);
}

#[test]
fn v2_accounts_follow_the_declared_order() {
    let trade = V2Trade {
        base_mint: MINT,
        quote_mint: DEFAULT_KEY,
        quote_token_program: TOKEN,
        user: USER,
        creator: CREATOR,
        fee_recipient: FEE,
        buyback_fee_recipient: BUYBACK,
    };
    let derived = V2TradeAccounts::derive(&trade).expect("accounts");
    assert_eq!(derived.quote_mint, constants::NATIVE_MINT);
    assert_eq!(derived.base_token_program, TOKEN_2022);
    let sdk = PumpSdk::new();
    let buy = sdk.buy_v2_instruction_with_recipients(&trade, 1, 2).expect("buy");
    let sell = sdk.sell_v2_instruction_with_recipients(&trade, 1, 2).expect("sell");
    assert_eq!(buy.accounts.len(), 27);
    assert_eq!(sell.accounts.len(), 26);
    assert_eq!(buy.accounts[0].pubkey, key(pda::pump::global()));
    assert_eq!(buy.accounts[1].pubkey, MINT);
    assert_eq!(buy.accounts[2].pubkey, constants::NATIVE_MINT);
    let volume = key(pda::pump::global_volume_accumulator());
    assert!(buy.accounts.iter().any(|meta| meta.pubkey == volume));
    assert!(!sell.accounts.iter().any(|meta| meta.pubkey == volume));
    let signers: Vec<Pubkey> =
        buy.accounts.iter().filter(|meta| meta.is_signer).map(|meta| meta.pubkey).collect();
    assert_eq!(signers, vec![USER]);
}

#[test]
fn the_default_quote_is_wrapped_sol() {
    assert_eq!(resolve_quote_mint(DEFAULT_KEY), constants::NATIVE_MINT);
    assert_eq!(resolve_quote_mint(USDC), USDC);
}

#[test]
fn recipients_are_drawn_from_the_configured_keys() {
    let g = Global {
        fee_recipient: [1; 32],
        fee_recipients: vec![[2; 32], DEFAULT_KEY, [3; 32]],
        reserved_fee_recipient: [4; 32],
        reserved_fee_recipients: vec![[5; 32]],
        buyback_fee_recipients: vec![DEFAULT_KEY, [6; 32]],
        ..Default::default()
    };
    let normal = fee_candidates(&g, false);
    let mayhem = fee_candidates(&g, true);
    assert!(normal.contains(&[1; 32]) && normal.contains(&[3; 32]));
    assert!(!normal.contains(&DEFAULT_KEY) && !normal.contains(&[4; 32]));
    assert!(mayhem.contains(&[4; 32]) && mayhem.contains(&[5; 32]));
    assert_eq!(buyback_candidates(&g), vec![[6; 32]]);
    for _ in 0..20 {
        let (fee, buyback) = PumpSdk::pump_fee_recipients_pair(&g, false).expect("pair");
        assert!(normal.contains(&fee));
        assert_eq!(buyback, [6; 32]);
        let (fee, _) = PumpSdk::pump_fee_recipients_pair(&g, true).expect("pair");
        assert!(mayhem.contains(&fee));
    }
}

#[test]
fn without_recipients_nothing_is_built() {
    let sdk = PumpSdk::new();
    let none = Global::default();
    let c = curve(DEFAULT_KEY, false);
    assert!(PumpSdk::pump_fee_recipients_pair(&none, false).is_none());
    assert!(sdk.buy_v2_instruction(&none, &c, MINT, TOKEN, USER, 1, 2).is_none());
    assert!(sdk.sell_v2_instructions(&none, &c, MINT, TOKEN, USER, 1, 2).is_none());
    let config = GlobalConfig::default();
    assert!(amm_fee_candidates(&config).is_empty());
    assert!(PumpSdk::amm_fee_recipients_pair(&config).is_none());
}

#[test]
fn an_index_past_the_end_picks_nothing() {
    let keys: Vec<Pubkey> = vec![[1; 32], [2; 32]];
    assert_eq!(pick_pubkey(&keys, 1), Some([2; 32]));
    assert_eq!(pick_pubkey(&keys, 2), None);
    assert_eq!(pick_pubkey(&Vec::new(), 0), None);
}

#[test]
fn create_v2_carries_its_arguments() {
    let ix = PumpSdk::new()
        .create_v2_instruction(MINT, USER, "ab", "c", "", CREATOR, DEFAULT_KEY, true, false)
        .expect("create");
    let mut expected = encoding::CREATE_V2.to_vec();
    expected.extend_from_slice(&[2, 0, 0, 0]);
    expected.extend_from_slice(b"ab");
    expected.extend_from_slice(&[1, 0, 0, 0]);
    expected.extend_from_slice(b"c");
    expected.extend_from_slice(&[0, 0, 0, 0]);
    expected.extend_from_slice(&CREATOR);
    assert_eq!(&ix.data[..expected.len()], &expected[..]);
    assert_eq!(ix.data[expected.len()], 1);
    let signers: Vec<Pubkey> =
        ix.accounts.iter().filter(|meta| meta.is_signer).map(|meta| meta.pubkey).collect();
    assert_eq!(signers, vec![MINT, USER]);
}

fn new_coin(agent: Option<u16>, quote_mint: Pubkey, global: &Global) -> CreateCoinParams<'_> {
    CreateCoinParams {
        mint: MINT,
        user: USER,
        creator: CREATOR,
        name: "Test".to_string(),
        symbol: "TST".to_string(),
        uri: "https://example.com/metadata.json".to_string(),
        mayhem_mode: false,
        cashback: false,
        quote_mint,
        global,
        token_amount: 1_000,
        max_quote_tokens: 500_000,
        tokenized_agent_buyback_bps: agent,
        agent_program: AGENT_PROGRAM,
    }
}

#[test]
fn a_coin_is_created_before_it_is_bought() {
    let sdk = PumpSdk::new();
    let g = global();
    let list = sdk.create_coin_instructions(new_coin(None, DEFAULT_KEY, &g)).expect("list");
    assert_eq!(&list[0].data[..8], encoding::CREATE_V2);
    let buy = list.last().expect("buy");
    assert_eq!(&buy.data[..8], encoding::BUY_V2);
    assert_eq!(&buy.data[8..16], &1_000u64.to_le_bytes());
    assert_eq!(&buy.data[16..24], &500_000u64.to_le_bytes());

    let list = sdk.create_coin_instructions(new_coin(Some(250), DEFAULT_KEY, &g)).expect("list");
    let agent = list.last().expect("agent");
    assert_eq!(agent.program_id, AGENT_PROGRAM);
    assert_eq!(agent.data[40..42], 250u16.to_le_bytes());
}

#[test]
fn extending_and_claiming_are_tagged() {
    let sdk = PumpSdk::new();
    let extend = sdk.extend_account_ix(MINT, USER).expect("extend");
    assert_eq!(extend.program_id, constants::pump::PROGRAM_ID);
    assert_eq!(extend.data, encoding::EXTEND_ACCOUNT);
    assert_eq!(extend.accounts[0].pubkey, key(pda::pump::bonding_curve(&MINT)));
    let claim = sdk.claim_cashback_v2_instruction(USER, DEFAULT_KEY, TOKEN).expect("claim");
    assert_eq!(&claim.data[..8], encoding::CLAIM_CASHBACK_V2);
    assert!(claim.accounts.iter().any(|meta| meta.pubkey == USER));
    let volume = key(pda::pump::user_volume_accumulator(&USER));
    let vault = key(pda::associated_token(&volume, &TOKEN, &constants::NATIVE_MINT));
    assert!(claim.accounts.iter().any(|meta| meta.pubkey == vault && meta.is_writable));
}

#[test]
fn the_agents_share_trails_its_authority() {
    let ix = PumpSdk::new()
        .agent_initialize_instruction(MINT, USER, CREATOR, 0x0102, AGENT_PROGRAM)
        .expect("agent");
    let mut expected = encoding::AGENT_INITIALIZE.to_vec();
    expected.extend_from_slice(&CREATOR);
    expected.extend_from_slice(&[2, 1]);
    assert_eq!(ix.data, expected);
}

fn pool_state() -> Pool {
    Pool {
        base_mint: MINT,
        quote_mint: constants::NATIVE_MINT,
        coin_creator: CREATOR,
        ..Default::default()
    }
}

fn config() -> GlobalConfig {
    GlobalConfig {
        protocol_fee_recipients: vec![FEE],
        buyback_fee_recipients: vec![BUYBACK],
        ..Default::default()
    }
}

#[test]
fn pool_instructions_carry_their_arguments() {
    let trade = AmmTrade {
        pool: [50; 32],
        base_mint: MINT,
        quote_mint: USDC,
        base_token_program: TOKEN_2022,
        quote_token_program: TOKEN,
        user: USER,
        coin_creator: DEFAULT_KEY,
        protocol_fee_recipient: FEE,
        buyback_fee_recipient: BUYBACK,
        is_cashback_coin: false,
    };
    let sdk = PumpSdk::new();
    let buy = sdk.buy_amm_instruction_with_recipients(&trade, 3, 4).expect("buy");
    assert_eq!(&buy.data[..8], encoding::BUY);
    assert_eq!(&buy.data[8..16], &3u64.to_le_bytes());
    assert_eq!(&buy.data[16..24], &4u64.to_le_bytes());
    let sell = sdk.sell_amm_instruction_with_recipients(&trade, 5, 6).expect("sell");
    assert_eq!(&sell.data[..8], encoding::SELL);
    assert_eq!(&sell.data[8..16], &5u64.to_le_bytes());
    assert_eq!(&sell.data[16..24], &6u64.to_le_bytes());
    assert_eq!(sell.data.len(), 24);
}

#[test]
fn an_open_curve_is_traded_on_the_curve_and_a_complete_one_in_the_pool() {
    let sdk = PumpSdk::new();
    let g = global();
    let c = config();
    let p = pool_state();
    let open = curve(DEFAULT_KEY, false);
    let complete = BondingCurve { complete: true, ..open };
    let params = |bonding_curve, pump_pool| TradeTxParams {
        mint: MINT,
        base_token_program: TOKEN_2022,
        quote_token_program: TOKEN,
        user: USER,
        is_buy: false,
        base_amount: 9,
        sol_amount_threshold: 8,
        pump_global: &g,
        bonding_curve,
        pump_pool,
    };
    let pool = PumpPoolCtx { pool: [50; 32], amm_global: &c, pool_state: &p };
    let on_curve = sdk.trade_tx_instructions(params(&open, Some(pool))).expect("curve");
    assert_eq!(on_curve.last().expect("sell").program_id, constants::pump::PROGRAM_ID);
    let in_pool = sdk.trade_tx_instructions(params(&complete, Some(pool))).expect("pool");
    assert_eq!(in_pool[1].program_id, constants::pump_amm::PROGRAM_ID);
    assert!(sdk.trade_tx_instructions(params(&complete, None)).is_none());
}

#[test]
fn pool_purchases_wrap_the_most_they_may_spend() {
    let sdk = PumpSdk::new();
    let c = config();
    let p = pool_state();
    let list = sdk
        .trade_tx_instructions_with_venue(TradeTxWithVenueParams {
            mint: MINT,
            base_token_program: TOKEN_2022,
            quote_token_program: TOKEN,
            user: USER,
            is_buy: true,
            venue: TradeVenue::Amm { pool: [50; 32], amm_global: &c, pool_state: &p },
            base_amount: 9,
            sol_amount_threshold: 8_888,
        })
        .expect("list");
    assert_eq!(list.len(), 6);
    assert_same(&list[0], &create_account(&USER, &MINT, &TOKEN_2022));
    assert_same(&list[1], &create_account(&USER, &constants::NATIVE_MINT, &TOKEN));
    assert_eq!(&list[2].data[4..12], &8_888u64.to_le_bytes());
    assert_eq!(&list[4].data[16..24], &8_888u64.to_le_bytes());
    assert_eq!(list[5].data, vec![9]);
}
