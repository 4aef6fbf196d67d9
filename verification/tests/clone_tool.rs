//! Command line and plan of the account cloning tool.

use anchor_spl::token::spl_token;
use pump_rust_client::account_wrapper::AccountState;
use pump_rust_client::client::Account;
use pump_rust_client::clone_accounts::plan::{
    addresses_to_fetch, admit_quote_mint, after_fetch, before_fetch, curve_requests,
    distinct_recipients, fixed_pdas, follow_up, mint_requests, needs_mainnet_client, pool_requests,
    recipient_account, test_quote_mint_account, AccountRequest, AccountRole, CloneAction,
};
use pump_rust_client::clone_accounts::{
    chosen_endpoint, chosen_network, parse_cli, Cli, CliRequest, Network,
};
use pump_rust_client::errors::{DecodeError, PumpClientError};
use pump_rust_client::pubkey::{Pubkey, DEFAULT_KEY};
use pump_rust_client::state::pump_amm::Pool;
use pump_rust_client::state::{BondingCurve, Global};
use pump_rust_client::{constants, pda};
use solana_program::program_pack::Pack;

const AGENT_PROGRAM: Pubkey = [0xEE; 32];

fn args(list: &[&str]) -> Vec<String> {
    list.iter().map(|arg| arg.to_string()).collect()
}

fn labels(requests: &[AccountRequest]) -> Vec<&'static str> {
    requests.iter().map(|request| request.label).collect()
}

#[test]
fn networks_are_read_without_regard_to_case_or_blanks() {
    assert_eq!(Network::parse("devnet"), Ok(Network::Devnet));
    assert_eq!(Network::parse("  DevNet\n"), Ok(Network::Devnet));
    assert_eq!(Network::parse("mainnet"), Ok(Network::Mainnet));
    assert_eq!(Network::parse("Mainnet-Beta"), Ok(Network::Mainnet));
    assert_eq!(
        Network::parse(" TestNet "),
        Err("network must be devnet or mainnet (or mainnet-beta), got `testnet`".to_string())
    );
}

#[test]
fn networks_know_their_endpoint_and_lookup_table() {
    assert_eq!(Network::Devnet.default_rpc(), "https://api.devnet.solana.com");
    assert_eq!(Network::Mainnet.default_rpc(), "https://api.mainnet-beta.solana.com");
    assert_eq!(Network::Devnet.alt(), constants::DEVNET_ALT);
    assert_eq!(Network::Mainnet.alt(), constants::MAINNET_ALT);
    assert_eq!(Network::Devnet.alt_label(), "alt:devnet");
    assert_eq!(Network::Mainnet.alt_label(), "alt:mainnet");
}

#[test]
fn command_lines_are_understood() {
    assert_eq!(
        parse_cli(&args(&[])),
        Ok(CliRequest::Run(Cli { network: None, rpc_url: None }))
    );
    assert_eq!(parse_cli(&args(&["-n", "devnet", "--help"])), Ok(CliRequest::Help));
    assert_eq!(parse_cli(&args(&["-h", "--bogus"])), Ok(CliRequest::Help));
    assert_eq!(
        parse_cli(&args(&["--network", "mainnet", "http://localhost:8899"])),
        Ok(CliRequest::Run(Cli {
            network: Some(Network::Mainnet),
            rpc_url: Some("http://localhost:8899".to_string()),
        }))
    );
    assert_eq!(
        parse_cli(&args(&["-r", "http://a", "-n", "devnet"])),
        Ok(CliRequest::Run(Cli {
            network: Some(Network::Devnet),
            rpc_url: Some("http://a".to_string()),
        }))
    );
}

#[test]
fn command_lines_are_refused_with_a_reason() {
    let refused = |list: &[&str]| parse_cli(&args(list)).expect_err("refused");
    assert_eq!(refused(&["-n"]), "--network requires a value (devnet or mainnet)");
    assert_eq!(refused(&["--rpc-url"]), "--rpc-url requires a URL");
    assert_eq!(refused(&["--bogus"]), "unknown option `--bogus` (try --help)");
    assert_eq!(refused(&["http://a", "http://b"]), "unexpected extra argument `http://b`");
    assert_eq!(
        refused(&["-r", "http://a", "http://b"]),
        "use either --rpc-url or one positional RPC URL, not both"
    );
    assert_eq!(
        refused(&["-n", "moon"]),
        "network must be devnet or mainnet (or mainnet-beta), got `moon`"
    );
}

#[test]
fn the_command_line_wins_over_the_environment() {
    assert_eq!(
        chosen_network(Some(Network::Mainnet), Some("devnet".to_string())),
        Ok(Network::Mainnet)
    );
    assert_eq!(chosen_network(None, Some("mainnet".to_string())), Ok(Network::Mainnet));
    assert_eq!(chosen_network(None, None), Ok(Network::Devnet));
    assert!(chosen_network(None, Some("moon".to_string())).is_err());

    let text = |t: &str| Some(t.to_string());
    assert_eq!(chosen_endpoint(text("a"), text("b"), Network::Devnet), "a");
    assert_eq!(chosen_endpoint(None, text("b"), Network::Devnet), "b");
    assert_eq!(
        chosen_endpoint(None, None, Network::Mainnet),
        "https://api.mainnet-beta.solana.com"
    );
}

#[test]
fn a_clone_takes_the_lookup_table_of_its_network() {
    let requests = fixed_pdas(Network::Devnet, AGENT_PROGRAM).expect("requests");
    let own = addresses_to_fetch(&requests, false);
    assert!(own.contains(&constants::DEVNET_ALT));
    assert!(!own.contains(&constants::MAINNET_ALT));
    assert!(own.contains(&pda::pump::global().expect("global").0));
    assert_eq!(own.len(), requests.len());
    assert!(!needs_mainnet_client(&requests, Network::Devnet));
}

#[test]
fn marked_requests_come_from_mainnet() {
    let mut requests = fixed_pdas(Network::Devnet, AGENT_PROGRAM).expect("requests");
    requests[1].fetch_from_mainnet = true;
    let marked = requests[1].address;
    assert_eq!(addresses_to_fetch(&requests, true), vec![marked]);
    assert!(!addresses_to_fetch(&requests, false).contains(&marked));
    assert!(needs_mainnet_client(&requests, Network::Devnet));
    assert!(!needs_mainnet_client(&requests, Network::Mainnet));
}

#[test]
fn a_mainnet_clone_needs_no_second_client() {
    let requests = fixed_pdas(Network::Mainnet, AGENT_PROGRAM).expect("requests");
    assert!(addresses_to_fetch(&requests, true).is_empty());
    assert!(!needs_mainnet_client(&requests, Network::Mainnet));
    assert!(addresses_to_fetch(&requests, false).contains(&constants::MAINNET_ALT));
    let global = requests.iter().find(|r| r.label == "pump:global").expect("global");
    assert!(global.required);
    let agent = requests
        .iter()
        .find(|r| r.label == "pump_agent_payments:global_config")
        .expect("agent");
    assert!(!agent.required);
    assert_eq!(
        Some(agent.address),
        pda::pump_agent_payments::global_config(&AGENT_PROGRAM).map(|found| found.0)
    );
}

#[test]
fn a_mint_brings_its_curve() {
    let mint: Pubkey = [61; 32];
    let requests = mint_requests(mint).expect("requests");
    assert_eq!(labels(&requests), vec!["mint", "bonding_curve"]);
    assert_eq!(requests[0].address, mint);
    assert_eq!(requests[0].role, AccountRole::Plain);
    assert_eq!(requests[1].role, AccountRole::BondingCurve);
    assert!(requests.iter().all(|request| request.required));
}

#[test]
fn a_curve_brings_its_pool_once_complete() {
    let mint: Pubkey = [62; 32];
    let open = BondingCurve { creator: [63; 32], ..Default::default() };
    let expected = vec![
        "creator_vault",
        "sharing_config",
        "bonding_curve_v2",
        "bonding_curve_base_ata",
        "bonding_curve_wsol_ata",
    ];
    assert_eq!(labels(&curve_requests(mint, &open).expect("requests")), expected);

    let complete = BondingCurve { complete: true, ..open };
    let requests = curve_requests(mint, &complete).expect("requests");
    assert_eq!(requests.len(), expected.len() + 1);
    let pool = requests.last().expect("pool");
    assert_eq!(pool.label, "pool");
    assert_eq!(pool.role, AccountRole::Pool);
    let authority = pda::pump::pool_authority(&mint).expect("authority").0;
    assert_eq!(
        Some(pool.address),
        pda::pump_amm::pool(0, &authority, &mint, &constants::NATIVE_MINT).map(|found| found.0)
    );
    assert!(!pool.required);
}

#[test]
fn a_pool_brings_its_vaults() {
    let pool = Pool {
        lp_mint: [64; 32],
        pool_base_token_account: [65; 32],
        pool_quote_token_account: [66; 32],
        coin_creator: [67; 32],
        ..Default::default()
    };
    let requests = pool_requests(&pool).expect("requests");
    assert_eq!(
        labels(&requests),
        vec![
            "lp_mint",
            "pool_base_token_account",
            "pool_quote_token_account",
            "coin_creator_vault_authority",
            "coin_creator_vault_quote_ata",
        ]
    );
    assert_eq!(requests[1].address, [65; 32]);
    assert!(requests[2].required);
    assert!(!requests[3].required);
}

#[test]
fn replies_call_for_the_accounts_round_them() {
    let mint: Pubkey = [62; 32];
    let reply = |data: Vec<u8>| {
        Some(Account { lamports: 1, data, owner: [7; 32], executable: false, rent_epoch: 0 })
    };
    let asked = |role, reply| {
        let list = follow_up(mint, role, reply).expect("reply").expect("requests");
        list.iter().map(|r| (r.label, r.address, r.role)).collect::<Vec<_>>()
    };
    let seen = |list: Option<Vec<AccountRequest>>| {
        list.expect("requests").iter().map(|r| (r.label, r.address, r.role)).collect::<Vec<_>>()
    };

    let curve = BondingCurve { creator: [63; 32], complete: true, ..Default::default() };
    assert_eq!(
        asked(AccountRole::BondingCurve, reply(curve.to_account_bytes())),
        seen(curve_requests(mint, &curve))
    );
    let pool = Pool { lp_mint: [64; 32], coin_creator: [67; 32], ..Default::default() };
    assert_eq!(
        asked(AccountRole::Pool, reply(pool.to_account_bytes())),
        seen(pool_requests(&pool))
    );
    assert!(asked(AccountRole::Pool, None).is_empty());
    assert!(asked(AccountRole::Plain, reply(curve.to_account_bytes())).is_empty());
    assert!(matches!(
        follow_up(mint, AccountRole::Pool, reply(curve.to_account_bytes())),
        Err(PumpClientError::Decode(DecodeError::WrongDiscriminator))
    ));
}

#[test]
fn accounts_already_in_the_snapshot_are_kept() {
    assert_eq!(before_fetch(true), CloneAction::Keep);
    assert_eq!(before_fetch(false), CloneAction::Fetch);
    assert_eq!(after_fetch(true, true), CloneAction::Insert);
    assert_eq!(after_fetch(true, false), CloneAction::Insert);
    assert_eq!(after_fetch(false, true), CloneAction::Fail);
    assert_eq!(after_fetch(false, false), CloneAction::Skip);
}

#[test]
fn every_fee_recipient_is_cloned_once() {
    let global = Global {
        fee_recipient: [5; 32],
        reserved_fee_recipient: [4; 32],
        fee_recipients: vec![[5; 32], [3; 32], DEFAULT_KEY],
        reserved_fee_recipients: vec![[4; 32]],
        buyback_fee_recipients: vec![[9; 32], [1; 32]],
        ..Default::default()
    };
    let keys = distinct_recipients(&global);
    assert_eq!(keys, vec![[1; 32], [3; 32], [4; 32], [5; 32], [9; 32]]);
}

#[test]
fn a_missing_recipient_becomes_an_empty_system_account() {
    let made = recipient_account(None);
    assert_eq!(made.lamports, 0);
    assert!(made.data.is_empty());
    assert_eq!(made.owner, constants::SYSTEM_PROGRAM_ID);
    let seen =
        Account { lamports: 3, data: vec![1], owner: [7; 32], executable: true, rent_epoch: 2 };
    assert_eq!(recipient_account(Some(seen.clone())), seen);
}

#[test]
fn a_quote_mint_is_admitted_once() {
    let mut mints: Vec<Pubkey> = vec![[1; 32], [2; 32]];
    assert!(!admit_quote_mint(&mut mints, [2; 32]));
    assert_eq!(mints, vec![[1; 32], [2; 32]]);
    assert!(admit_quote_mint(&mut mints, [3; 32]));
    assert_eq!(mints, vec![[3; 32], [2; 32]]);
}

#[test]
fn the_test_quote_mint_is_an_initialized_mint() {
    let account = test_quote_mint_account([8; 32]);
    assert_eq!(account.owner, constants::SPL_TOKEN_PROGRAM_ID);
    assert_eq!(account.lamports, solana_sdk::rent::Rent::default().minimum_balance(82));
    let mint = spl_token::state::Mint::unpack(&account.data).expect("mint");
    assert!(mint.is_initialized);
    assert_eq!(mint.decimals, 6);
    assert_eq!(mint.supply, 0);
    assert_eq!(mint.mint_authority.unwrap().to_bytes(), [8; 32]);
    assert!(mint.freeze_authority.is_none());
}
