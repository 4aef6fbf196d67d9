//! Token accounts, wrapping and unwrapping of SOL.

use anchor_spl::associated_token::spl_associated_token_account::instruction::create_associated_token_account_idempotent as outside_create;
use anchor_spl::token::spl_token;
use pump_rust_client::instruction::Instruction;
use pump_rust_client::pubkey::Pubkey;
use pump_rust_client::token::{
    create_associated_token_account_idempotent, unwrap_sol_instruction, wrap_sol_instructions,
};
use pump_rust_client::{constants, pda};
use solana_program::pubkey::Pubkey as Key;

const USER: Pubkey = [41; 32];

fn assert_same(ix: &Instruction, expected: &solana_program::instruction::Instruction) {
    assert_eq!(ix.program_id, expected.program_id.to_bytes());
    assert_eq!(ix.data, expected.data);
    assert_eq!(ix.accounts.len(), expected.accounts.len());
    for (meta, other) in ix.accounts.iter().zip(expected.accounts.iter()) {
        assert_eq!(meta.pubkey, other.pubkey.to_bytes());
        assert_eq!(meta.is_signer, other.is_signer);
        assert_eq!(meta.is_writable, other.is_writable);
    }
}

fn wsol_account() -> Pubkey {
    pda::associated_token(&USER, &constants::SPL_TOKEN_PROGRAM_ID, &constants::NATIVE_MINT)
        .expect("address")
        .0
}

#[test]
fn account_creation_is_that_of_the_associated_token_program() {
    let ix = create_associated_token_account_idempotent(
        &USER,
        &[42; 32],
        &[43; 32],
        &constants::SPL_TOKEN_2022_PROGRAM_ID,
    )
    .expect("create");
    let expected = outside_create(
        &Key::new_from_array(USER),
        &Key::new_from_array([42; 32]),
        &Key::new_from_array([43; 32]),
        &anchor_spl::token_2022::ID,
    );
    assert_same(&ix, &expected);
    assert_eq!(ix.data, vec![1]);
    assert_eq!(ix.accounts.len(), 6);
    assert!(ix.accounts[0].is_signer);
}

#[test]
fn wrapping_funds_and_syncs() {
    let list = wrap_sol_instructions(&USER, 123_456).expect("wrap");
    assert_eq!(list.len(), 2);
    let user = Key::new_from_array(USER);
    let account = Key::new_from_array(wsol_account());
    assert_same(
        &list[0],
        &solana_program::system_instruction::transfer(&user, &account, 123_456),
    );
    assert_same(
        &list[1],
        &spl_token::instruction::sync_native(&spl_token::ID, &account).expect("sync"),
    );
    assert_eq!(list[0].data[..4], [2, 0, 0, 0]);
    assert_eq!(list[0].data[4..], 123_456u64.to_le_bytes());
    assert_eq!(list[1].data, vec![17]);
}

#[test]
fn unwrapping_closes_the_account_to_its_owner() {
    let ix = unwrap_sol_instruction(&USER).expect("unwrap");
    let user = Key::new_from_array(USER);
    let account = Key::new_from_array(wsol_account());
    let expected =
        spl_token::instruction::close_account(&spl_token::ID, &account, &user, &user, &[])
            .expect("close");
    assert_same(&ix, &expected);
    assert_eq!(ix.data, vec![9]);
}
