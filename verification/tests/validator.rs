//! Genesis state of the local validator.

use anchor_spl::token::spl_token;
use anchor_spl::token_2022::spl_token_2022;
use pump_rust_client::client::Account;
use pump_rust_client::local_validator::{
    activate_lookup_table, create_wallet_associated_token_account, genesis_accounts,
    genesis_lamports, rewrite_lookup_tables_active_from_slot_zero, AccountConfigInfo,
    DEFAULT_ACCOUNT_LAMPORTS, FAUCET_LAMPORTS,
};
use pump_rust_client::pubkey::Pubkey;
use pump_rust_client::{constants, pda};
use solana_program::address_lookup_table::state::{AddressLookupTable, LookupTableMeta};
use solana_program::program_option::COption;
use solana_program::program_pack::Pack;
use solana_program::pubkey::Pubkey as Key;
use spl_token_2022::extension::non_transferable::NonTransferable;
use spl_token_2022::extension::transfer_fee::TransferFeeConfig;
use spl_token_2022::extension::transfer_hook::TransferHook;
use spl_token_2022::extension::{
    BaseStateWithExtensions, BaseStateWithExtensionsMut, ExtensionType, StateWithExtensions,
    StateWithExtensionsMut,
};

const FAUCET: Pubkey = [1; 32];
const WALLET: Pubkey = [2; 32];

fn table_bytes(last_extended_slot: u64, keys: &[Pubkey]) -> Vec<u8> {
    let meta = LookupTableMeta {
        last_extended_slot,
        last_extended_slot_start_index: 4,
        authority: Some(Key::new_from_array([6; 32])),
        ..LookupTableMeta::default()
    };
    let addresses: Vec<Key> = keys.iter().map(|key| Key::new_from_array(*key)).collect();
    AddressLookupTable { meta, addresses: addresses.into() }
        .serialize_for_tests()
        .expect("table")
}

fn account(data: Vec<u8>) -> Account {
    Account { lamports: 9, data, owner: [3; 32], executable: false, rent_epoch: 5 }
}

fn mint_data(token_2022: bool) -> Vec<u8> {
    let mut data = vec![0u8; 82];
    if token_2022 {
        let mint = spl_token_2022::state::Mint {
            mint_authority: COption::None,
            supply: 1,
            decimals: 6,
            is_initialized: true,
            freeze_authority: COption::None,
        };
        Pack::pack(mint, &mut data).expect("mint");
    } else {
        let mint = spl_token::state::Mint {
            mint_authority: COption::None,
            supply: 1,
            decimals: 6,
            is_initialized: true,
            freeze_authority: COption::None,
        };
        Pack::pack(mint, &mut data).expect("mint");
    }
    data
}

#[test]
fn the_faucet_is_richer_than_other_accounts() {
    assert_eq!(genesis_lamports(&FAUCET, &FAUCET, None), FAUCET_LAMPORTS);
    assert_eq!(genesis_lamports(&WALLET, &FAUCET, None), DEFAULT_ACCOUNT_LAMPORTS);
    assert_eq!(genesis_lamports(&FAUCET, &FAUCET, Some(7)), 7);
    assert_eq!(FAUCET_LAMPORTS, 10_000_000_000_000_000);
    assert_eq!(DEFAULT_ACCOUNT_LAMPORTS, 10_000_000_000_000);
}

#[test]
fn genesis_lists_faucet_wallets_and_clones() {
    let infos = genesis_accounts(FAUCET, &vec![WALLET], &vec![([8; 32], account(vec![1, 2]))]);
    assert_eq!(infos.len(), 3);
    assert_eq!(infos[0], (AccountConfigInfo::system(FAUCET), None));
    assert_eq!(infos[0].0.owner, constants::SYSTEM_PROGRAM_ID);
    assert!(infos[0].0.data.is_empty());
    assert_eq!(infos[1].0.address, WALLET);
    assert_eq!(infos[2].0.address, [8; 32]);
    assert_eq!(infos[2].0.data, vec![1, 2]);
    assert_eq!(infos[2].0.owner, [3; 32]);
    assert_eq!(infos[2].1, None);
    assert_eq!(infos.clone(), infos);
}

#[test]
fn activated_tables_keep_their_addresses() {
    let keys: [Pubkey; 2] = [[4; 32], [5; 32]];
    let data = activate_lookup_table(&table_bytes(77, &keys)).expect("table");
    let table = AddressLookupTable::deserialize(&data).expect("table");
    assert_eq!(table.meta, LookupTableMeta::default());
    assert_eq!(table.meta.last_extended_slot, 0);
    let kept: Vec<Pubkey> = table.addresses.iter().map(|key| key.to_bytes()).collect();
    assert_eq!(kept, keys);
    assert_eq!(activate_lookup_table(&[1, 2, 3]), None);
}

#[test]
fn only_known_tables_are_rewritten() {
    let keys: [Pubkey; 1] = [[4; 32]];
    let old = table_bytes(77, &keys);
    let mut accounts = vec![
        ([10; 32], account(old.clone())),
        ([11; 32], account(old.clone())),
        ([12; 32], account(vec![0xAB; 60])),
    ];
    let known: Vec<Pubkey> = vec![[10; 32], [12; 32]];
    rewrite_lookup_tables_active_from_slot_zero(&mut accounts, &known);
    assert_ne!(accounts[0].1.data, old);
    assert_eq!(Some(accounts[0].1.data.clone()), activate_lookup_table(&old));
    assert_eq!(accounts[0].1.lamports, 9);
    assert_eq!(accounts[1].1, account(old));
    assert_eq!(accounts[2].1, account(vec![0xAB; 60]));
}

#[test]
fn wallets_get_a_funded_token_account_per_mint() {
    let plain: Pubkey = [20; 32];
    let infos = vec![(
        AccountConfigInfo {
            address: plain,
            data: mint_data(false),
            owner: constants::SPL_TOKEN_PROGRAM_ID,
        },
        None,
    )];
    let absent: Pubkey = [21; 32];
    let seeded = create_wallet_associated_token_account(infos, &vec![plain, absent], &vec![WALLET])
        .expect("accounts");
    assert_eq!(seeded.len(), 2);
    assert_eq!(seeded[1].1, None);
    assert_eq!(
        Some(seeded[1].0.address),
        pda::associated_token(&WALLET, &constants::SPL_TOKEN_PROGRAM_ID, &plain)
            .map(|found| found.0)
    );
    assert_eq!(seeded[1].0.owner, constants::SPL_TOKEN_PROGRAM_ID);
    let state = spl_token::state::Account::unpack(&seeded[1].0.data).expect("token account");
    assert_eq!(state.mint.to_bytes(), plain);
    assert_eq!(state.owner.to_bytes(), WALLET);
    assert_eq!(state.amount, 100_000_000_000);
    assert_eq!(state.state, spl_token::state::AccountState::Initialized);
    assert!(state.is_native.is_none());
    assert!(state.delegate.is_none());
    assert!(state.close_authority.is_none());
}

#[test]
fn wrapped_sol_accounts_hold_their_rent() {
    let infos = vec![(
        AccountConfigInfo {
            address: constants::NATIVE_MINT,
            data: mint_data(false),
            owner: constants::SPL_TOKEN_PROGRAM_ID,
        },
        None,
    )];
    let seeded =
        create_wallet_associated_token_account(infos, &vec![constants::NATIVE_MINT], &vec![WALLET])
            .expect("accounts");
    let state = spl_token::state::Account::unpack(&seeded[1].0.data).expect("token account");
    assert_eq!(
        state.is_native,
        COption::Some(solana_sdk::rent::Rent::default().minimum_balance(165))
    );
}

#[test]
fn token_2022_accounts_own_themselves_immutably() {
    let mint: Pubkey = [22; 32];
    let infos = vec![(
        AccountConfigInfo {
            address: mint,
            data: mint_data(true),
            owner: constants::SPL_TOKEN_2022_PROGRAM_ID,
        },
        None,
    )];
    let seeded = create_wallet_associated_token_account(infos, &vec![mint], &vec![WALLET])
        .expect("accounts");
    assert_eq!(seeded[1].0.owner, constants::SPL_TOKEN_2022_PROGRAM_ID);
    let state = StateWithExtensions::<spl_token_2022::state::Account>::unpack(&seeded[1].0.data)
        .expect("token account");
    assert_eq!(state.base.mint.to_bytes(), mint);
    assert_eq!(state.base.owner.to_bytes(), WALLET);
    assert_eq!(state.base.amount, 100_000_000_000);
    assert_eq!(
        state.get_extension_types().expect("extensions"),
        vec![ExtensionType::ImmutableOwner]
    );
}

fn seeded_extensions(kinds: &[ExtensionType]) -> (usize, Vec<ExtensionType>) {
    let len = ExtensionType::try_calculate_account_len::<spl_token_2022::state::Mint>(kinds)
        .expect("length");
    let mut data = vec![0u8; len];
    let mut state =
        StateWithExtensionsMut::<spl_token_2022::state::Mint>::unpack_uninitialized(&mut data)
            .expect("mint");
    for kind in kinds {
        match kind {
            ExtensionType::TransferFeeConfig => {
                state.init_extension::<TransferFeeConfig>(true).expect("extension");
            }
            ExtensionType::NonTransferable => {
                state.init_extension::<NonTransferable>(true).expect("extension");
            }
            ExtensionType::TransferHook => {
                state.init_extension::<TransferHook>(true).expect("extension");
            }
            _ => panic!("unexpected extension"),
        }
    }
    state.base.is_initialized = true;
    state.base.decimals = 6;
    state.pack_base();
    state.init_account_type().expect("account type");

    let mint: Pubkey = [24; 32];
    let info =
        AccountConfigInfo { address: mint, data, owner: constants::SPL_TOKEN_2022_PROGRAM_ID };
    let seeded = create_wallet_associated_token_account(
        vec![(info, Some(5))],
        &vec![mint],
        &vec![WALLET],
    )
    .expect("accounts");
    assert_eq!(seeded[0].1, Some(5));
    let state = StateWithExtensions::<spl_token_2022::state::Account>::unpack(&seeded[1].0.data)
        .expect("token account");
    assert_eq!(state.base.amount, 100_000_000_000);
    assert_eq!(state.base.owner.to_bytes(), WALLET);
    (seeded[1].0.data.len(), state.get_extension_types().expect("extensions"))
}

#[test]
fn token_2022_accounts_get_what_their_mint_asks() {
    assert_eq!(seeded_extensions(&[]), (170, vec![ExtensionType::ImmutableOwner]));
    assert_eq!(
        seeded_extensions(&[ExtensionType::TransferFeeConfig]),
        (182, vec![ExtensionType::TransferFeeAmount, ExtensionType::ImmutableOwner])
    );
    assert_eq!(
        seeded_extensions(&[ExtensionType::NonTransferable, ExtensionType::TransferHook]),
        (
            179,
            vec![
                ExtensionType::NonTransferableAccount,
                ExtensionType::ImmutableOwner,
                ExtensionType::TransferHookAccount,
            ]
        )
    );
}

#[test]
fn a_broken_token_2022_mint_is_refused() {
    let infos = vec![(
        AccountConfigInfo {
            address: [23; 32],
            data: vec![1, 2, 3],
            owner: constants::SPL_TOKEN_2022_PROGRAM_ID,
        },
        None,
    )];
    assert!(
        create_wallet_associated_token_account(infos, &vec![[23; 32]], &vec![WALLET]).is_none()
    );
}
