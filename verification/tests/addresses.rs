//! Well-known keys, program-derived addresses and instruction tags.

use std::str::FromStr;

use pump_rust_client::key_order::{dedupe_sorted, key_less};
use pump_rust_client::pubkey::{
    find_program_address, is_default_key, same_key, Pubkey, DEFAULT_KEY,
};
use pump_rust_client::sdk::encoding;
use pump_rust_client::{constants, pda};
use solana_program::hash::hash;
use solana_program::pubkey::Pubkey as Key;

fn id(text: &str) -> Pubkey {
    Key::from_str(text).expect("base58 key").to_bytes()
}

fn found(seeds: &[&[u8]], program: &Pubkey) -> Option<(Pubkey, u8)> {
    let (address, bump) = Key::find_program_address(seeds, &Key::new_from_array(*program));
    Some((address.to_bytes(), bump))
}

#[test]
fn standard_programs_have_their_published_keys() {
    assert_eq!(constants::SPL_TOKEN_PROGRAM_ID, anchor_spl::token::ID.to_bytes());
    assert_eq!(constants::SPL_TOKEN_2022_PROGRAM_ID, anchor_spl::token_2022::ID.to_bytes());
    assert_eq!(constants::SPL_ATA_PROGRAM_ID, anchor_spl::associated_token::ID.to_bytes());
    assert_eq!(constants::MPL_TOKEN_METADATA_PROGRAM_ID, anchor_spl::metadata::ID.to_bytes());
    assert_eq!(
        constants::NATIVE_MINT,
        anchor_spl::token::spl_token::native_mint::ID.to_bytes()
    );
    assert_eq!(constants::SYSTEM_PROGRAM_ID, solana_program::system_program::ID.to_bytes());
    assert_eq!(constants::RENT_SYSVAR_ID, solana_program::sysvar::rent::ID.to_bytes());
    assert_eq!(constants::COMPUTE_BUDGET_PROGRAM_ID, solana_sdk::compute_budget::id().to_bytes());
}

#[test]
fn pump_programs_have_their_published_keys() {
    assert_eq!(constants::PUMP_TOKEN_MINT, id("pumpCmXqMfrsAkQ5r49WcJnRayYRqmXz6ae8H7H9Dfn"));
    assert_eq!(constants::FEE_PROGRAM_ID, id("pfeeUxB6jkeY1Hxd7CsFCAjcbHA9rWtchMGdZ6VojVZ"));
    assert_eq!(constants::MAYHEM_PROGRAM_ID, id("MAyhSmzXzV1pTf7LsNkrNwkWKTo4ougAJ1PPg47MD4e"));
    assert_eq!(constants::MAINNET_ALT, id("7mFD2mUtRS65XstiSAvCJuYmdesZoQwCwRJhq1p3eRMe"));
    assert_eq!(constants::DEVNET_ALT, id("7y3623xaVQzsLxHRyp1wQD4Pmer5JjgbaagGFAEqCjua"));
}

#[test]
fn bonding_curve_program_addresses() {
    let p = constants::pump::PROGRAM_ID;
    let k: Pubkey = [77; 32];
    assert_eq!(pda::pump::global(), found(&[b"global"], &p));
    assert_eq!(pda::pump::bonding_curve(&k), found(&[b"bonding-curve", &k], &p));
    assert_eq!(pda::pump::bonding_curve_v2(&k), found(&[b"bonding-curve-v2", &k], &p));
    assert_eq!(pda::pump::creator_vault(&k), found(&[b"creator-vault", &k], &p));
    assert_eq!(pda::pump::event_authority(), found(&[b"__event_authority"], &p));
    assert_eq!(pda::pump::mint_authority(), found(&[b"mint-authority"], &p));
    assert_eq!(pda::pump::pool_authority(&k), found(&[b"pool-authority", &k], &p));
    assert_eq!(
        pda::pump::global_volume_accumulator(),
        found(&[b"global_volume_accumulator"], &p)
    );
    assert_eq!(
        pda::pump::user_volume_accumulator(&k),
        found(&[b"user_volume_accumulator", &k], &p)
    );
    let fee = constants::FEE_PROGRAM_ID;
    assert_eq!(pda::pump::fee_config(), found(&[b"fee_config", &p], &fee));
    assert_eq!(pda::pump::sharing_config(&k), found(&[b"sharing-config", &k], &fee));
    let mpl = constants::MPL_TOKEN_METADATA_PROGRAM_ID;
    assert_eq!(pda::pump::metadata(&k), found(&[b"metadata", &mpl, &k], &mpl));
}

#[test]
fn pool_program_addresses() {
    let p = constants::pump_amm::PROGRAM_ID;
    let k: Pubkey = [78; 32];
    assert_eq!(pda::pump_amm::global_config(), found(&[b"global_config"], &p));
    assert_eq!(
        pda::pump_amm::pool(0x0102, &[1; 32], &[2; 32], &[3; 32]),
        found(&[b"pool", &[2, 1], &[1; 32], &[2; 32], &[3; 32]], &p)
    );
    assert_eq!(pda::pump_amm::lp_mint(&k), found(&[b"pool_lp_mint", &k], &p));
    assert_eq!(
        pda::pump_amm::coin_creator_vault_authority(&k),
        found(&[b"creator_vault", &k], &p)
    );
    assert_eq!(pda::pump_amm::event_authority(), found(&[b"__event_authority"], &p));
    assert_eq!(
        pda::pump_amm::global_volume_accumulator(),
        found(&[b"global_volume_accumulator"], &p)
    );
    assert_eq!(
        pda::pump_amm::user_volume_accumulator(&k),
        found(&[b"user_volume_accumulator", &k], &p)
    );
    assert_eq!(pda::pump_amm::pool_v2(&k), found(&[b"pool-v2", &k], &p));
    assert_eq!(
        pda::pump_amm::fee_config(),
        found(&[b"fee_config", &p], &constants::FEE_PROGRAM_ID)
    );
}

#[test]
fn mayhem_and_agent_addresses() {
    let p = constants::MAYHEM_PROGRAM_ID;
    let k: Pubkey = [79; 32];
    assert_eq!(pda::mayhem::global_params(), found(&[b"global-params"], &p));
    assert_eq!(pda::mayhem::sol_vault(), found(&[b"sol-vault"], &p));
    assert_eq!(pda::mayhem::mayhem_state(&k), found(&[b"mayhem-state", &k], &p));
    let vault = pda::mayhem::sol_vault().expect("vault").0;
    assert_eq!(
        pda::mayhem::mayhem_token_vault(&k),
        pda::associated_token(&vault, &constants::SPL_TOKEN_2022_PROGRAM_ID, &k)
    );

    let agent: Pubkey = [5; 32];
    assert_eq!(
        pda::pump_agent_payments::global_config(&agent),
        found(&[b"global-config"], &agent)
    );
    assert_eq!(
        pda::pump_agent_payments::token_agent_payments(&k, &agent),
        found(&[b"token-agent-payments", &k], &agent)
    );
    assert_eq!(
        pda::pump_agent_payments::event_authority(&agent),
        found(&[b"__event_authority"], &agent)
    );
}

#[test]
fn associated_token_addresses_agree_with_the_associated_token_program() {
    let owner = Key::new_from_array([1; 32]);
    let mint = Key::new_from_array([2; 32]);
    let expected = anchor_spl::associated_token::get_associated_token_address_with_program_id(
        &owner,
        &mint,
        &anchor_spl::token_2022::ID,
    );
    let address =
        pda::associated_token(&[1; 32], &constants::SPL_TOKEN_2022_PROGRAM_ID, &[2; 32]);
    assert_eq!(address.map(|found| found.0), Some(expected.to_bytes()));
}

#[test]
fn seeds_past_the_limits_have_no_address() {
    let seed: &[u8] = &[1];
    assert_eq!(find_program_address(&[&[1; 33]], &[1; 32]), None);
    assert_eq!(find_program_address(&[seed; 16], &[1; 32]), None);
    assert_eq!(
        find_program_address(&[seed; 15], &[1; 32]),
        found(&[seed; 15], &[1; 32])
    );
}

#[test]
fn instruction_tags_are_hashes_of_the_instruction_names() {
    let named: [([u8; 8], &str); 10] = [
        (encoding::CREATE, "create"),
        (encoding::CREATE_V2, "create_v2"),
        (encoding::BUY, "buy"),
        (encoding::SELL, "sell"),
        (encoding::BUY_V2, "buy_v2"),
        (encoding::SELL_V2, "sell_v2"),
        (encoding::BUY_EXACT_QUOTE_IN_V2, "buy_exact_quote_in_v2"),
        (encoding::EXTEND_ACCOUNT, "extend_account"),
        (encoding::CLAIM_CASHBACK_V2, "claim_cashback_v2"),
        (encoding::AGENT_INITIALIZE, "agent_initialize"),
    ];
    for (tag, name) in named {
        let text = format!("global:{name}");
        assert_eq!(tag, hash(text.as_bytes()).to_bytes()[..8], "{name}");
    }
}

#[test]
fn keys_compare_byte_by_byte() {
    let mut late = [1u8; 32];
    late[31] = 2;
    assert!(same_key(&[1; 32], &[1; 32]));
    assert!(!same_key(&[1; 32], &late));
    assert!(is_default_key(&DEFAULT_KEY));
    assert!(!is_default_key(&late));
    assert!(key_less(&[1; 32], &late));
    assert!(!key_less(&late, &[1; 32]));
    assert!(!key_less(&late, &late));
    let mut first = [0u8; 32];
    first[0] = 9;
    assert!(key_less(&[1; 32], &first));
}

#[test]
fn sorted_keys_occur_once() {
    let mut keys: Vec<Pubkey> = vec![[3; 32], [1; 32], [3; 32], [2; 32], [1; 32]];
    dedupe_sorted(&mut keys);
    assert_eq!(keys, vec![[1; 32], [2; 32], [3; 32]]);
    let mut none: Vec<Pubkey> = Vec::new();
    dedupe_sorted(&mut none);
    assert!(none.is_empty());
}
