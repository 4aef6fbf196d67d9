//! Instruction builders: account lists, tags and instruction order.

use std::str::FromStr;

use pump_rust_client::instruction::Instruction;
use pump_rust_client::pubkey::{Pubkey, DEFAULT_KEY};
use pump_rust_client::sdk::encoding;
use pump_rust_client::state::pump_amm::{GlobalConfig, Pool};
use pump_rust_client::state::{BondingCurve, Global};
use pump_rust_client::{
    constants, pda, CreateCoinParams, PumpPoolCtx, PumpSdk, TradeTxParams, TradeTxWithVenueParams,
    TradeVenue,
};

const AGENT_PROGRAM: Pubkey = [0xEE; 32];

fn fake_pubkey(seed: u8) -> Pubkey {
    [seed; 32]
}

fn key(found: Option<(Pubkey, u8)>) -> Pubkey {
    found.expect("address").0
}

fn id(text: &str) -> Pubkey {
    solana_program::pubkey::Pubkey::from_str(text).expect("base58 key").to_bytes()
}

fn pump_global_with_fees(fee_recipient: Pubkey, buyback_fee_recipient: Pubkey) -> Global {
    let mut g = Global::default();
    g.fee_recipient = fee_recipient;
    g.buyback_fee_recipients.push(buyback_fee_recipient);
    g
}

fn amm_global_with_fees(protocol: Pubkey, buyback: Pubkey) -> GlobalConfig {
    let mut g = GlobalConfig::default();
    g.protocol_fee_recipients.push(protocol);
    g.buyback_fee_recipients.push(buyback);
    g
}

fn user_wsol_ata(user: &Pubkey) -> Pubkey {
    key(pda::associated_token(user, &constants::SPL_TOKEN_PROGRAM_ID, &constants::NATIVE_MINT))
}

fn fake_amm_inputs() -> (Pubkey, Pubkey, Pubkey, Pubkey, Pubkey, Pubkey, Pubkey, Pubkey) {
    (
        fake_pubkey(0xA1),
        fake_pubkey(0xA2),
        fake_pubkey(0xA3),
        fake_pubkey(0xA4),
        fake_pubkey(0xA5),
        fake_pubkey(0xA6),
        fake_pubkey(0xA7),
        constants::SPL_TOKEN_PROGRAM_ID,
    )
}

/// Lamports of a system `transfer` instruction.
fn parse_system_transfer_lamports(ix: &Instruction) -> u64 {
    assert_eq!(ix.program_id, constants::SYSTEM_PROGRAM_ID);
    assert_eq!(ix.data.len(), 12);
    assert_eq!(&ix.data[..4], &2u32.to_le_bytes());
    u64::from_le_bytes(ix.data[4..12].try_into().unwrap())
}

fn create_instruction_wires_metadata_pdas() {
    let sdk = PumpSdk::new();
    let mint = fake_pubkey(51);
    let user = fake_pubkey(52);
    let creator = fake_pubkey(53);

    let ix = sdk
        .create_instruction(
            mint,
            user,
            "Test",
            "TST",
            "https://example.com/metadata.json",
            creator,
        )
        .expect("create_instruction");

    assert_eq!(ix.program_id, constants::pump::PROGRAM_ID);
    assert_eq!(&ix.data[..8], encoding::CREATE);
    let metas: Vec<Pubkey> = ix.accounts.iter().map(|m| m.pubkey).collect();
    assert!(metas.contains(&key(pda::pump::metadata(&mint))));
    assert!(metas.contains(&constants::MPL_TOKEN_METADATA_PROGRAM_ID));
    assert!(metas.contains(&constants::SPL_TOKEN_PROGRAM_ID));
    assert!(metas.contains(&key(pda::pump::bonding_curve(&mint))));
    assert!(metas.contains(&constants::RENT_SYSVAR_ID));
}

#[test]
fn sdk_create_instruction_wires_metadata_pdas() {
    create_instruction_wires_metadata_pdas();
}

#[test]
fn mod_create_instruction_wires_metadata_pdas() {
    create_instruction_wires_metadata_pdas();
}

fn create_v2_instruction_wires_mayhem_pdas() {
    let sdk = PumpSdk::new();
    let mint = fake_pubkey(21);
    let user = fake_pubkey(22);
    let creator = fake_pubkey(23);

    let ix = sdk
        .create_v2_instruction(
            mint,
            user,
            "Test",
            "TST",
            "https://example.com/metadata.json",
            creator,
            DEFAULT_KEY,
            false,
            false,
        )
        .expect("create_v2_instruction");

    assert_eq!(ix.program_id, constants::pump::PROGRAM_ID);
    assert_eq!(&ix.data[..8], encoding::CREATE_V2);
    let metas: Vec<Pubkey> = ix.accounts.iter().map(|m| m.pubkey).collect();
    assert!(metas.contains(&key(pda::mayhem::global_params())));
    assert!(metas.contains(&key(pda::mayhem::sol_vault())));
    assert!(metas.contains(&key(pda::mayhem::mayhem_state(&mint))));
    assert!(metas.contains(&key(pda::mayhem::mayhem_token_vault(&mint))));
    assert!(metas.contains(&constants::MAYHEM_PROGRAM_ID));
    assert!(metas.contains(&constants::SPL_TOKEN_2022_PROGRAM_ID));
}

#[test]
fn sdk_create_v2_instruction_wires_mayhem_pdas() {
    create_v2_instruction_wires_mayhem_pdas();
}

#[test]
fn mod_create_v2_instruction_wires_mayhem_pdas() {
    create_v2_instruction_wires_mayhem_pdas();
}

#[test]
fn create_v2_instruction_appends_remaining_accounts_for_non_sol_quote() {
    let sdk = PumpSdk::new();
    let mint = fake_pubkey(0xA1);
    let user = fake_pubkey(0xA2);
    let creator = fake_pubkey(0xA3);
    let quote_mint = fake_pubkey(0xC1);

    let baseline = sdk
        .create_v2_instruction(
            mint,
            user,
            "Test",
            "TST",
            "https://example.com/metadata.json",
            creator,
            DEFAULT_KEY,
            false,
            false,
        )
        .expect("create_v2_instruction");
    let ix = sdk
        .create_v2_instruction(
            mint,
            user,
            "Test",
            "TST",
            "https://example.com/metadata.json",
            creator,
            quote_mint,
            false,
            false,
        )
        .expect("create_v2_instruction");

    assert_eq!(ix.accounts.len(), baseline.accounts.len() + 3);

    let n = ix.accounts.len();
    let quote_meta = &ix.accounts[n - 3];
    let ata_meta = &ix.accounts[n - 2];
    let token_program_meta = &ix.accounts[n - 1];

    assert_eq!(quote_meta.pubkey, quote_mint);
    assert!(!quote_meta.is_writable);
    assert!(!quote_meta.is_signer);

    let bonding_curve = key(pda::pump::bonding_curve(&mint));
    let expected_ata = key(pda::associated_token(
        &bonding_curve,
        &constants::SPL_TOKEN_PROGRAM_ID,
        &quote_mint,
    ));
    assert_eq!(ata_meta.pubkey, expected_ata);
    assert!(ata_meta.is_writable);
    assert!(!ata_meta.is_signer);

    assert_eq!(token_program_meta.pubkey, constants::SPL_TOKEN_PROGRAM_ID);
    assert!(!token_program_meta.is_writable);
    assert!(!token_program_meta.is_signer);
}

#[test]
fn create_v2_instruction_omits_remaining_accounts_for_sol_quote() {
    let sdk = PumpSdk::new();
    let mint = fake_pubkey(0xB1);
    let user = fake_pubkey(0xB2);
    let creator = fake_pubkey(0xB3);

    let with_default = sdk
        .create_v2_instruction(
            mint,
            user,
            "Test",
            "TST",
            "https://example.com/metadata.json",
            creator,
            DEFAULT_KEY,
            false,
            false,
        )
        .expect("create_v2_instruction");
    let with_native = sdk
        .create_v2_instruction(
            mint,
            user,
            "Test",
            "TST",
            "https://example.com/metadata.json",
            creator,
            constants::NATIVE_MINT,
            false,
            false,
        )
        .expect("create_v2_instruction");

    assert_eq!(with_default.accounts.len(), with_native.accounts.len());
    for (a, b) in with_default
        .accounts
        .iter()
        .zip(with_native.accounts.iter())
    {
        assert_eq!(a.pubkey, b.pubkey);
        assert_eq!(a.is_writable, b.is_writable);
        assert_eq!(a.is_signer, b.is_signer);
    }
    assert!(!with_default
        .accounts
        .iter()
        .any(|m| m.pubkey == constants::SPL_TOKEN_PROGRAM_ID));
}

fn buy_instruction_appends_bonding_curve_v2_then_buyback_fee_recipient() {
    let sdk = PumpSdk::new();
    let mint = fake_pubkey(61);
    let user = fake_pubkey(62);
    let creator = fake_pubkey(63);
    let fee_recipient = fake_pubkey(64);
    let buyback_fee_recipient = fake_pubkey(65);
    let token_program = constants::SPL_TOKEN_PROGRAM_ID;

    let ix = sdk
        .buy_instruction(
            mint,
            user,
            creator,
            fee_recipient,
            buyback_fee_recipient,
            100,
            5_000_000,
            token_program,
        )
        .expect("buy_instruction");

    assert_eq!(ix.program_id, constants::pump::PROGRAM_ID);
    assert_eq!(&ix.data[..8], encoding::BUY);

    let metas: Vec<Pubkey> = ix.accounts.iter().map(|m| m.pubkey).collect();
    assert!(metas.contains(&key(pda::pump::global())));
    assert!(metas.contains(&key(pda::pump::bonding_curve(&mint))));
    assert!(metas.contains(&key(pda::pump::creator_vault(&creator))));
    assert!(metas.contains(&key(pda::pump::user_volume_accumulator(&user))));
    assert!(metas.contains(&key(pda::pump::fee_config())));
    assert!(metas.contains(&constants::FEE_PROGRAM_ID));
    assert!(metas.contains(&fee_recipient));

    let n = ix.accounts.len();
    let bcv2 = &ix.accounts[n - 2];
    let buyback = &ix.accounts[n - 1];
    assert_eq!(bcv2.pubkey, key(pda::pump::bonding_curve_v2(&mint)));
    assert!(!bcv2.is_writable);
    assert!(!bcv2.is_signer);
    assert_eq!(buyback.pubkey, buyback_fee_recipient);
    assert!(buyback.is_writable);
    assert!(!buyback.is_signer);
}

#[test]
fn sdk_buy_instruction_appends_bonding_curve_v2_then_buyback_fee_recipient() {
    buy_instruction_appends_bonding_curve_v2_then_buyback_fee_recipient();
}

#[test]
fn mod_buy_instruction_appends_bonding_curve_v2_then_buyback_fee_recipient() {
    buy_instruction_appends_bonding_curve_v2_then_buyback_fee_recipient();
}

fn buy_v2_instruction_wires_quote_and_sharing_config_pdas() {
    let sdk = PumpSdk::new();
    let base_mint = fake_pubkey(81);
    let quote_mint = fake_pubkey(82);
    let user = fake_pubkey(83);
    let creator = fake_pubkey(84);
    let fee_recipient = fake_pubkey(85);
    let buyback_fee_recipient = fake_pubkey(86);
    let quote_token_program = constants::SPL_TOKEN_PROGRAM_ID;
    let global = pump_global_with_fees(fee_recipient, buyback_fee_recipient);
    let bonding_curve = BondingCurve {
        creator,
        quote_mint,
        ..Default::default()
    };

    let ix = sdk
        .buy_v2_instruction(
            &global,
            &bonding_curve,
            base_mint,
            quote_token_program,
            user,
            1_000,
            5_000_000,
        )
        .expect("buy_v2_instruction");

    assert_eq!(ix.program_id, constants::pump::PROGRAM_ID);
    assert_eq!(&ix.data[..8], encoding::BUY_V2);

    let metas: Vec<Pubkey> = ix.accounts.iter().map(|m| m.pubkey).collect();
    assert!(metas.contains(&key(pda::pump::global())));
    assert!(metas.contains(&base_mint));
    assert!(metas.contains(&quote_mint));
    assert!(metas.contains(&fee_recipient));
    assert!(metas.contains(&buyback_fee_recipient));
    assert!(metas.contains(&key(pda::pump::bonding_curve(&base_mint))));
    assert!(metas.contains(&key(pda::pump::creator_vault(&creator))));
    assert!(metas.contains(&key(pda::pump::sharing_config(&base_mint))));
    assert!(metas.contains(&key(pda::pump::user_volume_accumulator(&user))));
    assert!(metas.contains(&key(pda::pump::fee_config())));
    assert!(metas.contains(&constants::FEE_PROGRAM_ID));

    assert!(metas
        .contains(&key(pda::associated_token(&fee_recipient, &quote_token_program, &quote_mint))));
    assert!(metas.contains(
        &key(pda::associated_token(&buyback_fee_recipient, &quote_token_program, &quote_mint))
    ));

    let signers: Vec<Pubkey> = ix
        .accounts
        .iter()
        .filter(|m| m.is_signer)
        .map(|m| m.pubkey)
        .collect();
    assert_eq!(signers, vec![user]);
}

#[test]
fn sdk_buy_v2_instruction_wires_quote_and_sharing_config_pdas() {
    buy_v2_instruction_wires_quote_and_sharing_config_pdas();
}

#[test]
fn mod_buy_v2_instruction_wires_quote_and_sharing_config_pdas() {
    buy_v2_instruction_wires_quote_and_sharing_config_pdas();
}

#[test]
fn sell_instruction_cashback_appends_uva_then_bonding_curve_v2() {
    let sdk = PumpSdk::new();
    let mint = fake_pubkey(101);
    let user = fake_pubkey(102);
    let creator = fake_pubkey(103);
    let fee_recipient = fake_pubkey(104);
    let buyback_fee_recipient = fake_pubkey(105);
    let token_program = constants::SPL_TOKEN_PROGRAM_ID;

    let ix = sdk
        .sell_instruction(
            mint,
            user,
            creator,
            fee_recipient,
            buyback_fee_recipient,
            100,
            1_000_000,
            token_program,
            true,
        )
        .expect("sell_instruction");

    assert_eq!(ix.program_id, constants::pump::PROGRAM_ID);
    assert_eq!(&ix.data[..8], encoding::SELL);

    let metas: Vec<Pubkey> = ix.accounts.iter().map(|m| m.pubkey).collect();
    assert!(metas.contains(&key(pda::pump::global())));
    assert!(metas.contains(&key(pda::pump::bonding_curve(&mint))));
    assert!(metas.contains(&key(pda::pump::creator_vault(&creator))));
    assert!(metas.contains(&key(pda::pump::fee_config())));
    assert!(metas.contains(&constants::FEE_PROGRAM_ID));
    assert!(metas.contains(&fee_recipient));
    assert!(metas.contains(&key(pda::associated_token(&user, &token_program, &mint))));

    let n = ix.accounts.len();
    let uva = &ix.accounts[n - 2];
    let bcv2 = &ix.accounts[n - 1];
    assert_eq!(uva.pubkey, key(pda::pump::user_volume_accumulator(&user)));
    assert!(uva.is_writable);
    assert!(!uva.is_signer);
    assert_eq!(bcv2.pubkey, key(pda::pump::bonding_curve_v2(&mint)));
    assert!(!bcv2.is_writable);
    assert!(!bcv2.is_signer);
}

#[test]
fn sell_instruction_non_cashback_skips_uva() {
    let sdk = PumpSdk::new();
    let mint = fake_pubkey(101);
    let user = fake_pubkey(102);
    let creator = fake_pubkey(103);
    let fee_recipient = fake_pubkey(104);
    let buyback_fee_recipient = fake_pubkey(105);
    let token_program = constants::SPL_TOKEN_PROGRAM_ID;

    let ix = sdk
        .sell_instruction(
            mint,
            user,
            creator,
            fee_recipient,
            buyback_fee_recipient,
            100,
            1_000_000,
            token_program,
            false,
        )
        .expect("sell_instruction");

    let metas: Vec<Pubkey> = ix.accounts.iter().map(|m| m.pubkey).collect();
    assert!(!metas.contains(&key(pda::pump::user_volume_accumulator(&user))));

    let bcv2 = &ix.accounts[ix.accounts.len() - 1];
    assert_eq!(bcv2.pubkey, key(pda::pump::bonding_curve_v2(&mint)));
    assert!(!bcv2.is_writable);
    assert!(!bcv2.is_signer);
}

fn sell_v2_instruction_wires_quote_and_sharing_config_pdas() {
    let sdk = PumpSdk::new();
    let base_mint = fake_pubkey(111);
    let quote_mint = fake_pubkey(112);
    let user = fake_pubkey(113);
    let creator = fake_pubkey(114);
    let fee_recipient = fake_pubkey(115);
    let buyback_fee_recipient = fake_pubkey(116);
    let quote_token_program = constants::SPL_TOKEN_PROGRAM_ID;
    let global = pump_global_with_fees(fee_recipient, buyback_fee_recipient);
    let bonding_curve = BondingCurve {
        creator,
        quote_mint,
        ..Default::default()
    };

    let ix = sdk
        .sell_v2_instruction(
            &global,
            &bonding_curve,
            base_mint,
            quote_token_program,
            user,
            1_000,
            1_000_000,
        )
        .expect("sell_v2_instruction");

    assert_eq!(ix.program_id, constants::pump::PROGRAM_ID);
    assert_eq!(&ix.data[..8], encoding::SELL_V2);

    let metas: Vec<Pubkey> = ix.accounts.iter().map(|m| m.pubkey).collect();
    assert!(metas.contains(&key(pda::pump::global())));
    assert!(metas.contains(&base_mint));
    assert!(metas.contains(&quote_mint));
    assert!(metas.contains(&fee_recipient));
    assert!(metas.contains(&buyback_fee_recipient));
    assert!(metas.contains(&key(pda::pump::bonding_curve(&base_mint))));
    assert!(metas.contains(&key(pda::pump::creator_vault(&creator))));
    assert!(metas.contains(&key(pda::pump::sharing_config(&base_mint))));
    assert!(metas.contains(&key(pda::pump::user_volume_accumulator(&user))));
    assert!(metas.contains(&key(pda::pump::fee_config())));
    assert!(metas.contains(&constants::FEE_PROGRAM_ID));

    assert!(!metas.contains(&key(pda::pump::global_volume_accumulator())));

    assert!(metas
        .contains(&key(pda::associated_token(&fee_recipient, &quote_token_program, &quote_mint))));
    assert!(metas.contains(
        &key(pda::associated_token(&buyback_fee_recipient, &quote_token_program, &quote_mint))
    ));

    let signers: Vec<Pubkey> = ix
        .accounts
        .iter()
        .filter(|m| m.is_signer)
        .map(|m| m.pubkey)
        .collect();
    assert_eq!(signers, vec![user]);
}

#[test]
fn sdk_sell_v2_instruction_wires_quote_and_sharing_config_pdas() {
    sell_v2_instruction_wires_quote_and_sharing_config_pdas();
}

#[test]
fn mod_sell_v2_instruction_wires_quote_and_sharing_config_pdas() {
    sell_v2_instruction_wires_quote_and_sharing_config_pdas();
}

#[test]
fn mod_buy_amm_instruction_wires_pump_amm_pdas() {
    let sdk = PumpSdk::new();
    let (pool, base_mint, quote_mint, user, coin_creator, fee_rec, buyback, _) =
        fake_amm_inputs();
    let base_token_program = constants::SPL_TOKEN_2022_PROGRAM_ID;
    let quote_token_program = constants::SPL_TOKEN_PROGRAM_ID;
    let amm_global = amm_global_with_fees(fee_rec, buyback);
    let pool_state = Pool {
        base_mint,
        quote_mint,
        coin_creator,
        is_cashback_coin: true,
        ..Default::default()
    };

    let ix = sdk
        .buy_amm_instruction(
            pool,
            &amm_global,
            &pool_state,
            base_token_program,
            quote_token_program,
            user,
            1_000,
            500_000,
        )
        .expect("buy_amm_instruction");

    assert_eq!(ix.program_id, constants::pump_amm::PROGRAM_ID);
    assert_eq!(&ix.data[..8], encoding::BUY);
    assert_eq!(ix.accounts.len(), 27);

    let pubkeys: Vec<Pubkey> = ix.accounts.iter().map(|m| m.pubkey).collect();
    assert!(pubkeys.contains(&key(pda::pump_amm::global_config())));
    assert!(pubkeys.contains(&key(pda::pump_amm::event_authority())));
    assert!(pubkeys.contains(&key(pda::pump_amm::global_volume_accumulator())));
    assert!(pubkeys.contains(&key(pda::pump_amm::user_volume_accumulator(&user))));
    assert!(pubkeys.contains(&key(pda::pump_amm::fee_config())));
    assert!(pubkeys.contains(&key(pda::pump_amm::coin_creator_vault_authority(&coin_creator))));

    assert_eq!(ix.accounts[0].pubkey, pool);
    assert!(ix.accounts[0].is_writable);
    assert!(!ix.accounts[0].is_signer);
    assert_eq!(ix.accounts[1].pubkey, user);
    assert!(ix.accounts[1].is_signer);

    let n = ix.accounts.len();
    let cashback = &ix.accounts[n - 4];
    let bcv2 = &ix.accounts[n - 3];
    let buyback_meta = &ix.accounts[n - 2];
    let buyback_ata = &ix.accounts[n - 1];

    let user_vol_accum = key(pda::pump_amm::user_volume_accumulator(&user));
    assert_eq!(
        cashback.pubkey,
        key(pda::associated_token(
            &user_vol_accum,
            &quote_token_program,
            &constants::NATIVE_MINT,
        ))
    );
    assert!(cashback.is_writable);

    assert_eq!(bcv2.pubkey, key(pda::pump_amm::pool_v2(&base_mint)));
    assert!(!bcv2.is_writable);

    assert_eq!(buyback_meta.pubkey, buyback);
    assert!(buyback_meta.is_writable);

    assert_eq!(
        buyback_ata.pubkey,
        key(pda::associated_token(&buyback, &quote_token_program, &quote_mint))
    );
    assert!(buyback_ata.is_writable);
}

fn buy_amm_instruction_skips_remaining_when_no_cashback_no_creator() {
    let sdk = PumpSdk::new();
    let (pool, base_mint, quote_mint, user, _, fee_rec, buyback, _) = fake_amm_inputs();
    let amm_global = amm_global_with_fees(fee_rec, buyback);
    let pool_state = Pool {
        base_mint,
        quote_mint,
        coin_creator: DEFAULT_KEY,
        is_cashback_coin: false,
        ..Default::default()
    };

    let ix = sdk
        .buy_amm_instruction(
            pool,
            &amm_global,
            &pool_state,
            constants::SPL_TOKEN_2022_PROGRAM_ID,
            constants::SPL_TOKEN_PROGRAM_ID,
            user,
            1_000,
            500_000,
        )
        .expect("buy_amm_instruction");

    assert_eq!(ix.accounts.len(), 25);
    let n = ix.accounts.len();
    assert_eq!(ix.accounts[n - 2].pubkey, buyback);
    assert!(ix.accounts[n - 2].is_writable);
}

#[test]
fn sdk_buy_amm_instruction_skips_remaining_when_no_cashback_no_creator() {
    buy_amm_instruction_skips_remaining_when_no_cashback_no_creator();
}

#[test]
fn mod_buy_amm_instruction_skips_remaining_when_no_cashback_no_creator() {
    buy_amm_instruction_skips_remaining_when_no_cashback_no_creator();
}

#[test]
fn mod_sell_amm_instruction_wires_pump_amm_pdas() {
    let sdk = PumpSdk::new();
    let (pool, base_mint, quote_mint, user, coin_creator, fee_rec, buyback, _) =
        fake_amm_inputs();
    let base_token_program = constants::SPL_TOKEN_2022_PROGRAM_ID;
    let quote_token_program = constants::SPL_TOKEN_PROGRAM_ID;
    let amm_global = amm_global_with_fees(fee_rec, buyback);
    let pool_state = Pool {
        base_mint,
        quote_mint,
        coin_creator,
        is_cashback_coin: true,
        ..Default::default()
    };

    let ix = sdk
        .sell_amm_instruction(
            pool,
            &amm_global,
            &pool_state,
            base_token_program,
            quote_token_program,
            user,
            1_000_000,
            500,
        )
        .expect("sell_amm_instruction");

    assert_eq!(ix.program_id, constants::pump_amm::PROGRAM_ID);
    assert_eq!(&ix.data[..8], encoding::SELL);
    assert_eq!(ix.accounts.len(), 26);

    let pubkeys: Vec<Pubkey> = ix.accounts.iter().map(|m| m.pubkey).collect();
    assert!(!pubkeys.contains(&key(pda::pump_amm::global_volume_accumulator())));

    let user_vol_accum = key(pda::pump_amm::user_volume_accumulator(&user));
    let n = ix.accounts.len();
    let cashback_ata = &ix.accounts[n - 5];
    let cashback_uva = &ix.accounts[n - 4];
    let bcv2 = &ix.accounts[n - 3];
    let buyback_meta = &ix.accounts[n - 2];
    let buyback_ata = &ix.accounts[n - 1];

    assert_eq!(
        cashback_ata.pubkey,
        key(pda::associated_token(&user_vol_accum, &quote_token_program, &quote_mint))
    );
    assert!(cashback_ata.is_writable);

    assert_eq!(cashback_uva.pubkey, user_vol_accum);
    assert!(cashback_uva.is_writable);

    assert_eq!(bcv2.pubkey, key(pda::pump_amm::pool_v2(&base_mint)));
    assert!(!bcv2.is_writable);

    assert_eq!(buyback_meta.pubkey, buyback);
    assert!(!buyback_meta.is_writable);

    assert_eq!(
        buyback_ata.pubkey,
        key(pda::associated_token(&buyback, &quote_token_program, &quote_mint))
    );
    assert!(buyback_ata.is_writable);
}

fn sell_amm_instruction_skips_remaining_when_no_cashback_no_creator() {
    let sdk = PumpSdk::new();
    let (pool, base_mint, quote_mint, user, _, fee_rec, buyback, _) = fake_amm_inputs();
    let amm_global = amm_global_with_fees(fee_rec, buyback);
    let pool_state = Pool {
        base_mint,
        quote_mint,
        coin_creator: DEFAULT_KEY,
        is_cashback_coin: false,
        ..Default::default()
    };

    let ix = sdk
        .sell_amm_instruction(
            pool,
            &amm_global,
            &pool_state,
            constants::SPL_TOKEN_2022_PROGRAM_ID,
            constants::SPL_TOKEN_PROGRAM_ID,
            user,
            1_000_000,
            500,
        )
        .expect("sell_amm_instruction");

    assert_eq!(ix.accounts.len(), 23);
    let n = ix.accounts.len();
    assert_eq!(ix.accounts[n - 2].pubkey, buyback);
    assert!(!ix.accounts[n - 2].is_writable);
}

#[test]
fn sdk_sell_amm_instruction_skips_remaining_when_no_cashback_no_creator() {
    sell_amm_instruction_skips_remaining_when_no_cashback_no_creator();
}

#[test]
fn mod_sell_amm_instruction_skips_remaining_when_no_cashback_no_creator() {
    sell_amm_instruction_skips_remaining_when_no_cashback_no_creator();
}

fn buy_amm_instructions_prepends_one_ata_create() {
    let sdk = PumpSdk::new();
    let (pool, base_mint, quote_mint, user, coin_creator, fee_rec, buyback, _) =
        fake_amm_inputs();
    let amm_global = amm_global_with_fees(fee_rec, buyback);
    let pool_state = Pool {
        base_mint,
        quote_mint,
        coin_creator,
        is_cashback_coin: false,
        ..Default::default()
    };

    let ixs = sdk
        .buy_amm_instructions(
            pool,
            &amm_global,
            &pool_state,
            constants::SPL_TOKEN_2022_PROGRAM_ID,
            constants::SPL_TOKEN_PROGRAM_ID,
            user,
            1_000,
            500_000,
        )
        .expect("buy_amm_instructions");

    assert_eq!(ixs.len(), 2);
    assert_eq!(ixs[0].program_id, constants::SPL_ATA_PROGRAM_ID);
    assert_eq!(ixs[0].data, vec![1]);
    assert_eq!(ixs[1].program_id, constants::pump_amm::PROGRAM_ID);
    assert_eq!(&ixs[1].data[..8], encoding::BUY);
}

#[test]
fn sdk_buy_amm_instructions_prepends_one_ata_create() {
    buy_amm_instructions_prepends_one_ata_create();
}

#[test]
fn mod_buy_amm_instructions_prepends_one_ata_create() {
    buy_amm_instructions_prepends_one_ata_create();
}

fn sell_amm_instructions_prepends_one_ata_create() {
    let sdk = PumpSdk::new();
    let (pool, base_mint, quote_mint, user, coin_creator, fee_rec, buyback, _) =
        fake_amm_inputs();
    let amm_global = amm_global_with_fees(fee_rec, buyback);
    let pool_state = Pool {
        base_mint,
        quote_mint,
        coin_creator,
        is_cashback_coin: false,
        ..Default::default()
    };

    let ixs = sdk
        .sell_amm_instructions(
            pool,
            &amm_global,
            &pool_state,
            constants::SPL_TOKEN_2022_PROGRAM_ID,
            constants::SPL_TOKEN_PROGRAM_ID,
            user,
            1_000_000,
            500,
        )
        .expect("sell_amm_instructions");

    assert_eq!(ixs.len(), 2);
    assert_eq!(ixs[0].program_id, constants::SPL_ATA_PROGRAM_ID);
    assert_eq!(ixs[0].data, vec![1]);
    assert_eq!(ixs[1].program_id, constants::pump_amm::PROGRAM_ID);
    assert_eq!(&ixs[1].data[..8], encoding::SELL);
}

#[test]
fn sdk_sell_amm_instructions_prepends_one_ata_create() {
    sell_amm_instructions_prepends_one_ata_create();
}

#[test]
fn mod_sell_amm_instructions_prepends_one_ata_create() {
    sell_amm_instructions_prepends_one_ata_create();
}

#[test]
fn trade_tx_auto_matches_explicit_bc_when_not_complete() {
    let sdk = PumpSdk::new();
    let mint = fake_pubkey(0x70);
    let user = fake_pubkey(0x71);
    let creator = fake_pubkey(0x72);
    let fee_recipient = fake_pubkey(0x73);
    let buyback_fee_recipient = fake_pubkey(0x74);
    let max_sol = 7_500_000u64;
    let global = pump_global_with_fees(fee_recipient, buyback_fee_recipient);
    let bonding_curve = BondingCurve {
        creator,
        quote_mint: constants::NATIVE_MINT,
        complete: false,
        ..Default::default()
    };

    let explicit = sdk
        .trade_tx_instructions_with_venue(TradeTxWithVenueParams {
            mint,
            base_token_program: constants::SPL_TOKEN_2022_PROGRAM_ID,
            quote_token_program: constants::SPL_TOKEN_PROGRAM_ID,
            user,
            is_buy: true,
            venue: TradeVenue::BondingCurve {
                global: &global,
                bonding_curve: &bonding_curve,
            },
            base_amount: 1_000,
            sol_amount_threshold: max_sol,
        })
        .expect("explicit bc");

    let pool = fake_pubkey(0x75);
    let amm_g = amm_global_with_fees(fake_pubkey(0x76), fake_pubkey(0x77));
    let ps = Pool {
        base_mint: mint,
        quote_mint: constants::NATIVE_MINT,
        ..Default::default()
    };
    let auto = sdk
        .trade_tx_instructions(TradeTxParams {
            mint,
            base_token_program: constants::SPL_TOKEN_2022_PROGRAM_ID,
            quote_token_program: constants::SPL_TOKEN_PROGRAM_ID,
            user,
            is_buy: true,
            base_amount: 1_000,
            sol_amount_threshold: max_sol,
            pump_global: &global,
            bonding_curve: &bonding_curve,
            pump_pool: Some(PumpPoolCtx {
                pool,
                amm_global: &amm_g,
                pool_state: &ps,
            }),
        })
        .expect("auto bc");

    assert_eq!(explicit.len(), auto.len());
    for (a, b) in explicit.iter().zip(auto.iter()) {
        assert_eq!(a.program_id, b.program_id);
        assert_eq!(a.data, b.data);
    }
}

#[test]
fn trade_tx_auto_returns_none_when_complete_without_graduated() {
    let sdk = PumpSdk::new();
    let global = pump_global_with_fees(fake_pubkey(0x80), fake_pubkey(0x81));
    let bonding_curve = BondingCurve {
        complete: true,
        ..Default::default()
    };
    assert!(sdk
        .trade_tx_instructions(TradeTxParams {
            mint: fake_pubkey(0x82),
            base_token_program: constants::SPL_TOKEN_2022_PROGRAM_ID,
            quote_token_program: constants::SPL_TOKEN_PROGRAM_ID,
            user: fake_pubkey(0x83),
            is_buy: true,
            base_amount: 1,
            sol_amount_threshold: 1,
            pump_global: &global,
            bonding_curve: &bonding_curve,
            pump_pool: None,
        })
        .is_none());
}

#[test]
fn trade_tx_auto_matches_explicit_amm_when_complete() {
    let sdk = PumpSdk::new();
    let mint = fake_pubkey(0x90);
    let user = fake_pubkey(0x91);
    let coin_creator = fake_pubkey(0x92);
    let fee_recipient = fake_pubkey(0x93);
    let buyback_fee_recipient = fake_pubkey(0x94);
    let pool = fake_pubkey(0x95);
    let max_sol = 2_500_000u64;
    let amm_global = amm_global_with_fees(fee_recipient, buyback_fee_recipient);
    let pool_state = Pool {
        base_mint: mint,
        quote_mint: constants::NATIVE_MINT,
        coin_creator,
        is_cashback_coin: true,
        ..Default::default()
    };
    let pump_global = pump_global_with_fees(fee_recipient, buyback_fee_recipient);
    let bonding_curve = BondingCurve {
        creator: coin_creator,
        quote_mint: constants::NATIVE_MINT,
        complete: true,
        ..Default::default()
    };

    let explicit = sdk
        .trade_tx_instructions_with_venue(TradeTxWithVenueParams {
            mint,
            base_token_program: constants::SPL_TOKEN_2022_PROGRAM_ID,
            quote_token_program: constants::SPL_TOKEN_PROGRAM_ID,
            user,
            is_buy: true,
            venue: TradeVenue::Amm {
                pool,
                amm_global: &amm_global,
                pool_state: &pool_state,
            },
            base_amount: 1_000,
            sol_amount_threshold: max_sol,
        })
        .expect("explicit amm");

    let auto = sdk
        .trade_tx_instructions(TradeTxParams {
            mint,
            base_token_program: constants::SPL_TOKEN_2022_PROGRAM_ID,
            quote_token_program: constants::SPL_TOKEN_PROGRAM_ID,
            user,
            is_buy: true,
            base_amount: 1_000,
            sol_amount_threshold: max_sol,
            pump_global: &pump_global,
            bonding_curve: &bonding_curve,
            pump_pool: Some(PumpPoolCtx {
                pool,
                amm_global: &amm_global,
                pool_state: &pool_state,
            }),
        })
        .expect("auto amm");

    assert_eq!(explicit.len(), auto.len());
    for (a, b) in explicit.iter().zip(auto.iter()) {
        assert_eq!(a.program_id, b.program_id);
        assert_eq!(a.data, b.data);
    }
}

#[test]
fn mod_trade_tx_buy_amm_wraps_and_unwraps_with_cashback() {
    let sdk = PumpSdk::new();
    let mint = fake_pubkey(0xD1);
    let user = fake_pubkey(0xD2);
    let coin_creator = fake_pubkey(0xD3);
    let fee_recipient = fake_pubkey(0xD4);
    let buyback_fee_recipient = fake_pubkey(0xD5);
    let pool = fake_pubkey(0xD6);
    let max_sol = 2_500_000u64;
    let amm_global = amm_global_with_fees(fee_recipient, buyback_fee_recipient);
    let pool_state = Pool {
        base_mint: mint,
        quote_mint: constants::NATIVE_MINT,
        coin_creator,
        is_cashback_coin: true,
        ..Default::default()
    };

    let ixs = sdk
        .trade_tx_instructions_with_venue(TradeTxWithVenueParams {
            mint,
            base_token_program: constants::SPL_TOKEN_2022_PROGRAM_ID,
            quote_token_program: constants::SPL_TOKEN_PROGRAM_ID,
            user,
            is_buy: true,
            venue: TradeVenue::Amm {
                pool,
                amm_global: &amm_global,
                pool_state: &pool_state,
            },
            base_amount: 1_000,
            sol_amount_threshold: max_sol,
        })
        .expect("trade_tx_instructions");

    assert_eq!(ixs.len(), 6);
    assert_eq!(ixs[0].program_id, constants::SPL_ATA_PROGRAM_ID);
    assert_eq!(ixs[1].program_id, constants::SPL_ATA_PROGRAM_ID);
    assert_eq!(parse_system_transfer_lamports(&ixs[2]), max_sol);
    assert_eq!(ixs[3].program_id, constants::SPL_TOKEN_PROGRAM_ID);
    assert_eq!(ixs[4].program_id, constants::pump_amm::PROGRAM_ID);
    assert_eq!(&ixs[4].data[..8], encoding::BUY);
    assert_eq!(ixs[5].program_id, constants::SPL_TOKEN_PROGRAM_ID);

    let pubkeys: Vec<Pubkey> = ixs[4].accounts.iter().map(|m| m.pubkey).collect();
    let user_vol_accum = key(pda::pump_amm::user_volume_accumulator(&user));
    assert!(pubkeys.contains(
        &key(pda::associated_token(
            &user_vol_accum,
            &constants::SPL_TOKEN_PROGRAM_ID,
            &constants::NATIVE_MINT,
        ))
    ));
    assert!(pubkeys.contains(&key(pda::pump_amm::pool_v2(&mint))));
}

fn trade_tx_sell_amm_unwraps_proceeds_no_wrap() {
    let sdk = PumpSdk::new();
    let mint = fake_pubkey(0xE1);
    let user = fake_pubkey(0xE2);
    let coin_creator = fake_pubkey(0xE3);
    let fee_recipient = fake_pubkey(0xE4);
    let buyback_fee_recipient = fake_pubkey(0xE5);
    let pool = fake_pubkey(0xE6);
    let amm_global = amm_global_with_fees(fee_recipient, buyback_fee_recipient);
    let pool_state = Pool {
        base_mint: mint,
        quote_mint: constants::NATIVE_MINT,
        coin_creator,
        is_cashback_coin: false,
        ..Default::default()
    };

    let ixs = sdk
        .trade_tx_instructions_with_venue(TradeTxWithVenueParams {
            mint,
            base_token_program: constants::SPL_TOKEN_2022_PROGRAM_ID,
            quote_token_program: constants::SPL_TOKEN_PROGRAM_ID,
            user,
            is_buy: false,
            venue: TradeVenue::Amm {
                pool,
                amm_global: &amm_global,
                pool_state: &pool_state,
            },
            base_amount: 5_000,
            sol_amount_threshold: 100,
        })
        .expect("trade_tx_instructions");

    assert_eq!(ixs.len(), 3);
    assert_eq!(ixs[0].program_id, constants::SPL_ATA_PROGRAM_ID);
    let wsol_ata = user_wsol_ata(&user);
    assert!(ixs[0].accounts.iter().any(|m| m.pubkey == wsol_ata));
    assert_eq!(ixs[1].program_id, constants::pump_amm::PROGRAM_ID);
    assert_eq!(&ixs[1].data[..8], encoding::SELL);
    assert_eq!(ixs[2].program_id, constants::SPL_TOKEN_PROGRAM_ID);
    assert!(ixs[2].accounts.iter().any(|m| m.pubkey == wsol_ata));
}

#[test]
fn sdk_trade_tx_sell_amm_unwraps_proceeds_no_wrap() {
    trade_tx_sell_amm_unwraps_proceeds_no_wrap();
}

#[test]
fn mod_trade_tx_sell_amm_unwraps_proceeds_no_wrap() {
    trade_tx_sell_amm_unwraps_proceeds_no_wrap();
}

#[test]
fn create_coin_instructions_appends_agent_initialize_when_some() {
    let sdk = PumpSdk::new();
    let mint = fake_pubkey(0xA1);
    let user = fake_pubkey(0xA2);
    let creator = fake_pubkey(0xA3);
    let fee_recipient = fake_pubkey(0xA4);
    let buyback_fee_recipient = fake_pubkey(0xA5);
    let global = pump_global_with_fees(fee_recipient, buyback_fee_recipient);

    let buyback_bps = 5000u16;
    let with_agent = sdk
        .create_coin_instructions(CreateCoinParams {
            mint,
            user,
            creator,
            name: "Test".into(),
            symbol: "TST".into(),
            uri: "https://example.com/metadata.json".into(),
            mayhem_mode: false,
            cashback: false,
            quote_mint: DEFAULT_KEY,
            global: &global,
            token_amount: 1_000,
            max_quote_tokens: 500_000,
            tokenized_agent_buyback_bps: Some(buyback_bps),
            agent_program: AGENT_PROGRAM,
        })
        .expect("create_coin_instructions Some");
    let without_agent = sdk
        .create_coin_instructions(CreateCoinParams {
            mint,
            user,
            creator,
            name: "Test".into(),
            symbol: "TST".into(),
            uri: "https://example.com/metadata.json".into(),
            mayhem_mode: false,
            cashback: false,
            quote_mint: DEFAULT_KEY,
            global: &global,
            token_amount: 1_000,
            max_quote_tokens: 500_000,
            tokenized_agent_buyback_bps: None,
            agent_program: AGENT_PROGRAM,
        })
        .expect("create_coin_instructions None");

    assert_eq!(
        with_agent.len(),
        without_agent.len() + 1,
        "Some(bps) appends exactly one extra ix"
    );
    let agent_ix = with_agent.last().expect("agent ix present");
    assert_eq!(agent_ix.program_id, AGENT_PROGRAM);
    assert_eq!(&agent_ix.data[..8], encoding::AGENT_INITIALIZE);
    // args.authority (creator) + args.buyback_bps trail the discriminator.
    assert_eq!(&agent_ix.data[8..40], creator.as_slice());
    assert_eq!(
        u16::from_le_bytes([agent_ix.data[40], agent_ix.data[41]]),
        buyback_bps,
    );
    let agent_metas: Vec<Pubkey> = agent_ix.accounts.iter().map(|m| m.pubkey).collect();
    assert!(agent_metas.contains(&user), "user is the signer");
    assert!(agent_metas.contains(&key(pda::pump::bonding_curve(&mint))));
    assert!(agent_metas.contains(&key(pda::pump_agent_payments::global_config(&AGENT_PROGRAM))));
    assert!(agent_metas.contains(&mint));
    assert!(agent_metas.contains(&key(pda::pump_agent_payments::token_agent_payments(&mint, &AGENT_PROGRAM))));
    assert!(agent_metas.contains(&key(pda::pump_agent_payments::event_authority(&AGENT_PROGRAM))));
    assert!(agent_metas.contains(&AGENT_PROGRAM));
    assert!(agent_metas.contains(&key(pda::pump::sharing_config(&mint))));
}

fn program_ids_match_idl() {
    assert_eq!(
        constants::pump::PROGRAM_ID,
        id("6EF8rrecthR5Dkzon8Nwu78hRvfCKubJ14M5uBEwF6P")
    );
    assert_eq!(
        constants::pump_amm::PROGRAM_ID,
        id("pAMMBay6oceH9fJKBRHGP5D4bD4sWpmSwMn52FMfXEA")
    );
}

#[test]
fn sdk_program_ids_match_idl() {
    program_ids_match_idl();
}

#[test]
fn mod_program_ids_match_idl() {
    program_ids_match_idl();
}

#[test]
fn sell_instruction_appends_user_volume_accumulator_then_bonding_curve_v2() {
    let sdk = PumpSdk::new();
    let mint = fake_pubkey(101);
    let user = fake_pubkey(102);
    let creator = fake_pubkey(103);
    let fee_recipient = fake_pubkey(104);
    let token_program = constants::SPL_TOKEN_PROGRAM_ID;

    let ix = sdk
        .sell_instruction(
            mint,
            user,
            creator,
            fee_recipient,
            fake_pubkey(105),
            100,
            1_000_000,
            token_program,
            true,
        )
        .expect("sell_instruction");

    assert_eq!(ix.program_id, constants::pump::PROGRAM_ID);
    assert_eq!(&ix.data[..8], encoding::SELL);

    let metas: Vec<Pubkey> = ix.accounts.iter().map(|m| m.pubkey).collect();
    assert!(metas.contains(&key(pda::pump::global())));
    assert!(metas.contains(&key(pda::pump::bonding_curve(&mint))));
    assert!(metas.contains(&key(pda::pump::creator_vault(&creator))));
    assert!(metas.contains(&key(pda::pump::fee_config())));
    assert!(metas.contains(&constants::FEE_PROGRAM_ID));
    assert!(metas.contains(&fee_recipient));
    assert!(metas.contains(&key(pda::associated_token(&user, &token_program, &mint))));

    let n = ix.accounts.len();
    let uva = &ix.accounts[n - 2];
    let bcv2 = &ix.accounts[n - 1];
    assert_eq!(uva.pubkey, key(pda::pump::user_volume_accumulator(&user)));
    assert!(uva.is_writable);
    assert!(!uva.is_signer);
    assert_eq!(bcv2.pubkey, key(pda::pump::bonding_curve_v2(&mint)));
    assert!(!bcv2.is_writable);
    assert!(!bcv2.is_signer);
}

fn created_accounts(ixs: &[Instruction]) -> Vec<Pubkey> {
    for ata_ix in ixs {
        assert_eq!(ata_ix.program_id, constants::SPL_ATA_PROGRAM_ID);
        assert_eq!(ata_ix.data, vec![1], "expected SPL ATA idempotent ix");
    }
    ixs.iter().map(|ix| ix.accounts[1].pubkey).collect()
}

#[test]
fn a_token_quoted_buy_creates_four_accounts_first() {
    let sdk = PumpSdk::new();
    let base_mint = fake_pubkey(91);
    let quote_mint = fake_pubkey(92);
    let user = fake_pubkey(93);
    let creator = fake_pubkey(94);
    let fee_recipient = fake_pubkey(95);
    let buyback_fee_recipient = fake_pubkey(96);
    let base_token_program = constants::SPL_TOKEN_2022_PROGRAM_ID;
    let quote_token_program = constants::SPL_TOKEN_PROGRAM_ID;
    let global = pump_global_with_fees(fee_recipient, buyback_fee_recipient);
    let bonding_curve = BondingCurve { creator, quote_mint, ..Default::default() };

    let ixs = sdk
        .buy_v2_instructions(
            &global,
            &bonding_curve,
            base_mint,
            quote_token_program,
            user,
            1_000,
            5_000_000,
        )
        .expect("buy_v2_instructions");

    assert_eq!(ixs.len(), 5);
    let created = created_accounts(&ixs[..4]);
    assert_eq!(&ixs[4].data[..8], encoding::BUY_V2);

    let bonding_curve = key(pda::pump::bonding_curve(&base_mint));
    let creator_vault = key(pda::pump::creator_vault(&creator));
    let quote_ata =
        |owner: &Pubkey| key(pda::associated_token(owner, &quote_token_program, &quote_mint));
    assert_eq!(created[0], key(pda::associated_token(&user, &base_token_program, &base_mint)));
    assert!(created.contains(&quote_ata(&bonding_curve)));
    assert!(created.contains(&quote_ata(&user)));
    assert!(created.contains(&quote_ata(&creator_vault)));
    let traded: Vec<Pubkey> = ixs[4].accounts.iter().map(|m| m.pubkey).collect();
    assert!(created.iter().all(|account| traded.contains(account)));
}

/// A sale leaves out the base account, which the user already holds.
#[test]
fn a_token_quoted_sale_creates_no_base_account() {
    let sdk = PumpSdk::new();
    let base_mint = fake_pubkey(121);
    let quote_mint = fake_pubkey(122);
    let user = fake_pubkey(123);
    let creator = fake_pubkey(124);
    let fee_recipient = fake_pubkey(125);
    let buyback_fee_recipient = fake_pubkey(126);
    let base_token_program = constants::SPL_TOKEN_2022_PROGRAM_ID;
    let quote_token_program = constants::SPL_TOKEN_PROGRAM_ID;
    let global = pump_global_with_fees(fee_recipient, buyback_fee_recipient);
    let mut bonding_curve = BondingCurve { creator, quote_mint, ..Default::default() };

    let sell = |bonding_curve: &BondingCurve| {
        sdk.sell_v2_instructions(
            &global,
            bonding_curve,
            base_mint,
            quote_token_program,
            user,
            1_000,
            1_000_000,
        )
        .expect("sell_v2_instructions")
    };
    let ixs = sell(&bonding_curve);

    let (trade, creates) = ixs.split_last().expect("trade");
    let created = created_accounts(creates);
    assert_eq!(&trade.data[..8], encoding::SELL_V2);

    let curve_address = key(pda::pump::bonding_curve(&base_mint));
    let creator_vault = key(pda::pump::creator_vault(&creator));
    let quote_ata =
        |owner: &Pubkey| key(pda::associated_token(owner, &quote_token_program, &quote_mint));
    assert!(created.contains(&quote_ata(&curve_address)));
    assert!(created.contains(&quote_ata(&user)));
    assert!(created.contains(&quote_ata(&creator_vault)));
    assert!(!created.contains(&key(pda::associated_token(&user, &base_token_program, &base_mint))));

    bonding_curve.is_cashback_coin = true;
    let ixs = sell(&bonding_curve);
    assert_eq!(ixs.len(), 5);
    let created = created_accounts(&ixs[..4]);
    assert!(created.contains(&quote_ata(&key(pda::pump::user_volume_accumulator(&user)))));
    assert_eq!(&ixs[4].data[..8], encoding::SELL_V2);
}

/// Only the base account is created between the two on a curve quoted in SOL.
#[test]
fn a_coin_is_created_then_bought_in_order() {
    let sdk = PumpSdk::new();
    let mint = fake_pubkey(71);
    let user = fake_pubkey(72);
    let creator = fake_pubkey(73);
    let fee_recipient = fake_pubkey(74);
    let buyback_fee_recipient = fake_pubkey(75);
    let global = pump_global_with_fees(fee_recipient, buyback_fee_recipient);

    let build = |quote_mint: Pubkey| {
        sdk.create_v2_and_buy_instruction(
            mint,
            user,
            "Test",
            "TST",
            "https://example.com/metadata.json",
            creator,
            quote_mint,
            false,
            false,
            None,
            AGENT_PROGRAM,
            &global,
            1_000,
            500_000,
        )
        .expect("create_v2_and_buy_instruction")
    };
    let ixs = build(DEFAULT_KEY);

    assert_eq!(&ixs[0].data[..8], encoding::CREATE_V2);
    let (buy, others) = ixs.split_last().expect("buy");
    let created = created_accounts(&others[1..]);
    let base_ata = key(pda::associated_token(&user, &constants::SPL_TOKEN_2022_PROGRAM_ID, &mint));
    assert_eq!(created, vec![base_ata]);
    assert_eq!(&buy.data[..8], encoding::BUY_V2);

    let buy_metas: Vec<Pubkey> = buy.accounts.iter().map(|m| m.pubkey).collect();
    assert!(buy_metas.contains(&constants::SPL_TOKEN_2022_PROGRAM_ID));
    assert!(buy_metas.contains(&constants::SPL_TOKEN_PROGRAM_ID));
    assert!(buy_metas.contains(&constants::NATIVE_MINT));
    assert!(buy_metas.contains(&key(pda::pump::sharing_config(&mint))));

    let ixs = build(fake_pubkey(76));
    assert_eq!(ixs.len(), 6);
    assert_eq!(&ixs[0].data[..8], encoding::CREATE_V2);
    assert_eq!(created_accounts(&ixs[1..5])[0], base_ata);
    assert_eq!(&ixs[5].data[..8], encoding::BUY_V2);
}

#[test]
fn a_curve_buy_is_the_direct_buy() {
    let sdk = PumpSdk::new();
    let mint = fake_pubkey(0xB1);
    let user = fake_pubkey(0xB2);
    let creator = fake_pubkey(0xB3);
    let fee_recipient = fake_pubkey(0xB4);
    let buyback_fee_recipient = fake_pubkey(0xB5);
    let max_sol = 7_500_000u64;
    let global = pump_global_with_fees(fee_recipient, buyback_fee_recipient);
    let bonding_curve =
        BondingCurve { creator, quote_mint: constants::NATIVE_MINT, ..Default::default() };

    let ixs = sdk
        .trade_tx_instructions_with_venue(TradeTxWithVenueParams {
            mint,
            base_token_program: constants::SPL_TOKEN_2022_PROGRAM_ID,
            quote_token_program: constants::SPL_TOKEN_PROGRAM_ID,
            user,
            is_buy: true,
            venue: TradeVenue::BondingCurve { global: &global, bonding_curve: &bonding_curve },
            base_amount: 1_000,
            sol_amount_threshold: max_sol,
        })
        .expect("trade_tx_instructions");

    assert_eq!(ixs.len(), 2);
    let (buy, creates) = ixs.split_last().expect("buy");
    let created = created_accounts(creates);
    assert_eq!(
        created[0],
        key(pda::associated_token(&user, &constants::SPL_TOKEN_2022_PROGRAM_ID, &mint))
    );
    assert_eq!(buy.program_id, constants::pump::PROGRAM_ID);
    assert_eq!(&buy.data[..8], encoding::BUY_V2);
    assert!(buy.accounts.iter().any(|m| m.pubkey == user_wsol_ata(&user)));

    let direct = sdk
        .buy_v2_instructions(
            &global,
            &bonding_curve,
            mint,
            constants::SPL_TOKEN_PROGRAM_ID,
            user,
            1_000,
            max_sol,
        )
        .expect("buy_v2_instructions");
    assert_eq!(ixs, direct);
}

#[test]
fn a_curve_sale_is_the_direct_sale() {
    let sdk = PumpSdk::new();
    let mint = fake_pubkey(0xC1);
    let user = fake_pubkey(0xC2);
    let creator = fake_pubkey(0xC3);
    let fee_recipient = fake_pubkey(0xC4);
    let buyback_fee_recipient = fake_pubkey(0xC5);
    let global = pump_global_with_fees(fee_recipient, buyback_fee_recipient);
    let bonding_curve =
        BondingCurve { creator, quote_mint: constants::NATIVE_MINT, ..Default::default() };

    let ixs = sdk
        .trade_tx_instructions_with_venue(TradeTxWithVenueParams {
            mint,
            base_token_program: constants::SPL_TOKEN_2022_PROGRAM_ID,
            quote_token_program: constants::SPL_TOKEN_PROGRAM_ID,
            user,
            is_buy: false,
            venue: TradeVenue::BondingCurve { global: &global, bonding_curve: &bonding_curve },
            base_amount: 1_000,
            sol_amount_threshold: 1_000_000,
        })
        .expect("trade_tx_instructions");

    assert_eq!(ixs.len(), 1);
    let sell = ixs.last().expect("sell");
    assert_eq!(sell.program_id, constants::pump::PROGRAM_ID);
    assert_eq!(&sell.data[..8], encoding::SELL_V2);
    assert!(sell.accounts.iter().any(|m| m.pubkey == user_wsol_ata(&user)));

    let direct = sdk
        .sell_v2_instructions(
            &global,
            &bonding_curve,
            mint,
            constants::SPL_TOKEN_PROGRAM_ID,
            user,
            1_000,
            1_000_000,
        )
        .expect("sell_v2_instructions");
    assert_eq!(ixs, direct);
}

#[test]
fn a_new_coin_takes_three_instructions() {
    let sdk = PumpSdk::new();
    let mint = fake_pubkey(0xF1);
    let user = fake_pubkey(0xF2);
    let creator = fake_pubkey(0xF3);
    let fee_recipient = fake_pubkey(0xF4);
    let buyback_fee_recipient = fake_pubkey(0xF5);
    let max_sol = 1_234_567u64;
    let global = pump_global_with_fees(fee_recipient, buyback_fee_recipient);

    let ixs = sdk
        .create_coin_instructions(CreateCoinParams {
            mint,
            user,
            creator,
            name: "Test".into(),
            symbol: "TST".into(),
            uri: "https://example.com/metadata.json".into(),
            mayhem_mode: false,
            cashback: false,
            quote_mint: DEFAULT_KEY,
            global: &global,
            token_amount: 1_000,
            max_quote_tokens: max_sol,
            tokenized_agent_buyback_bps: None,
            agent_program: AGENT_PROGRAM,
        })
        .expect("create_coin_instructions");

    assert_eq!(ixs.len(), 3);
    assert_eq!(&ixs[0].data[..8], encoding::CREATE_V2);
    let base_ata = key(pda::associated_token(&user, &constants::SPL_TOKEN_2022_PROGRAM_ID, &mint));
    assert_eq!(created_accounts(&ixs[1..2]), vec![base_ata]);
    let buy = &ixs[2];
    assert_eq!(buy.program_id, constants::pump::PROGRAM_ID);
    assert_eq!(&buy.data[..8], encoding::BUY_V2);
    let buy_metas: Vec<Pubkey> = buy.accounts.iter().map(|m| m.pubkey).collect();
    assert!(buy_metas.contains(&constants::SPL_TOKEN_2022_PROGRAM_ID));
    assert!(buy_metas.contains(&constants::NATIVE_MINT));
    assert!(buy_metas.contains(&key(pda::pump::sharing_config(&mint))));
}
