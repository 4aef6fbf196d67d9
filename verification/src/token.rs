//! Token instructions used by the builders.

use vstd::prelude::*;

use crate::bytes::le_bytes;
use crate::constants::{
    NATIVE_MINT, SPL_ATA_PROGRAM_ID, SPL_TOKEN_PROGRAM_ID, SYSTEM_PROGRAM_ID,
};
use crate::instruction::{
    readonly, signing, view_of, views, views_of, writable, AccountMeta, Instruction,
    InstructionView,
};
use crate::pda::{associated_token, associated_token_pda};
use crate::pubkey::Pubkey;

verus! {

/// Creates the token account of `wallet` for `mint` unless it exists; `funding` pays.
pub open spec fn create_account_view(
    funding: Pubkey,
    wallet: Pubkey,
    mint: Pubkey,
    token_program: Pubkey,
) -> InstructionView {
    InstructionView {
        program_id: SPL_ATA_PROGRAM_ID,
        accounts: seq![
            signing(funding),
            writable(associated_token_pda(wallet, token_program, mint).unwrap().0),
            readonly(wallet),
            readonly(mint),
            readonly(SYSTEM_PROGRAM_ID),
            readonly(token_program),
        ],
        data: seq![1u8],
    }
}

/// The creation of a token account, where it has an address.
pub open spec fn created(
    funding: Pubkey,
    wallet: Pubkey,
    mint: Pubkey,
    token_program: Pubkey,
) -> Option<InstructionView> {
    if associated_token_pda(wallet, token_program, mint) is Some {
        Some(create_account_view(funding, wallet, mint, token_program))
    } else {
        None
    }
}

/// Calls `create_associated_token_account_idempotent` of
/// `spl_associated_token_account`. Claimed: the instruction is the one above. The
/// call derives the token account's address and panics where there is none.
#[verifier::external_body]
fn outside_create_account(
    funding: &Pubkey,
    wallet: &Pubkey,
    mint: &Pubkey,
    token_program: &Pubkey,
) -> (r: Instruction)
    requires
        associated_token_pda(*wallet, *token_program, *mint) is Some,
    ensures
        r@ == create_account_view(*funding, *wallet, *mint, *token_program),
{
    let ix = anchor_spl::associated_token::spl_associated_token_account::instruction::create_associated_token_account_idempotent(
        &solana_program::pubkey::Pubkey::new_from_array(*funding),
        &solana_program::pubkey::Pubkey::new_from_array(*wallet),
        &solana_program::pubkey::Pubkey::new_from_array(*mint),
        &solana_program::pubkey::Pubkey::new_from_array(*token_program),
    );
    let accounts = ix.accounts.iter().map(|m| AccountMeta {
        pubkey: m.pubkey.to_bytes(),
        is_signer: m.is_signer,
        is_writable: m.is_writable,
    }).collect();
    Instruction { program_id: ix.program_id.to_bytes(), accounts, data: ix.data }
}

/// Creates the token account of `wallet` for `mint` unless it exists; `None` where
/// that account has no address.
pub fn create_associated_token_account_idempotent(
    funding: &Pubkey,
    wallet: &Pubkey,
    mint: &Pubkey,
    token_program: &Pubkey,
) -> (r: Option<Instruction>)
    ensures
        view_of(r) == created(*funding, *wallet, *mint, *token_program),
{
    associated_token(wallet, token_program, mint)?;
    Some(outside_create_account(funding, wallet, mint, token_program))
}

/// Moves `lamports` between two accounts.
pub open spec fn transfer_view(from: Pubkey, to: Pubkey, lamports: u64) -> InstructionView {
    InstructionView {
        program_id: SYSTEM_PROGRAM_ID,
        accounts: seq![signing(from), writable(to)],
        data: le_bytes(2, 4) + le_bytes(lamports as nat, 8),
    }
}

/// Calls `system_instruction::transfer` of `solana_program`. Claimed: the
/// instruction is the one above.
#[verifier::external_body]
fn transfer(from: &Pubkey, to: &Pubkey, lamports: u64) -> (r: Instruction)
    ensures
        r@ == transfer_view(*from, *to, lamports),
{
    let ix = solana_program::system_instruction::transfer(
        &solana_program::pubkey::Pubkey::new_from_array(*from),
        &solana_program::pubkey::Pubkey::new_from_array(*to),
        lamports,
    );
    let accounts = ix.accounts.iter().map(|m| AccountMeta {
        pubkey: m.pubkey.to_bytes(),
        is_signer: m.is_signer,
        is_writable: m.is_writable,
    }).collect();
    Instruction { program_id: ix.program_id.to_bytes(), accounts, data: ix.data }
}

/// Sets the token balance of a wrapped-SOL account to its lamports.
pub open spec fn sync_native_view(account: Pubkey) -> InstructionView {
    InstructionView {
        program_id: SPL_TOKEN_PROGRAM_ID,
        accounts: seq![writable(account)],
        data: seq![17u8],
    }
}

/// Calls `sync_native` of `spl_token`. Claimed: it succeeds exactly for the token
/// program's own id, with the instruction above.
#[verifier::external_body]
fn sync_native(token_program: &Pubkey, account: &Pubkey) -> (r: Option<Instruction>)
    ensures
        match r {
            Some(ix) => *token_program == SPL_TOKEN_PROGRAM_ID && ix@ == sync_native_view(*account),
            None => *token_program != SPL_TOKEN_PROGRAM_ID,
        },
{
    let ix = anchor_spl::token::spl_token::instruction::sync_native(
        &solana_program::pubkey::Pubkey::new_from_array(*token_program),
        &solana_program::pubkey::Pubkey::new_from_array(*account),
    ).ok()?;
    let accounts = ix.accounts.iter().map(|m| AccountMeta {
        pubkey: m.pubkey.to_bytes(),
        is_signer: m.is_signer,
        is_writable: m.is_writable,
    }).collect();
    Some(Instruction { program_id: ix.program_id.to_bytes(), accounts, data: ix.data })
}

/// Closes a token account of `owner` and sends its lamports to `destination`.
pub open spec fn close_account_view(
    account: Pubkey,
    destination: Pubkey,
    owner: Pubkey,
) -> InstructionView {
    InstructionView {
        program_id: SPL_TOKEN_PROGRAM_ID,
        accounts: seq![
            writable(account),
            writable(destination),
            AccountMeta { pubkey: owner, is_signer: true, is_writable: false },
        ],
        data: seq![9u8],
    }
}

/// Calls `close_account` of `spl_token` without co-signers. Claimed: it succeeds
/// exactly for the token program's own id, with the instruction above.
#[verifier::external_body]
fn close_account(token_program: &Pubkey, account: &Pubkey, destination: &Pubkey, owner: &Pubkey) -> (r:
    Option<Instruction>)
    ensures
        match r {
            Some(ix) => *token_program == SPL_TOKEN_PROGRAM_ID && ix@ == close_account_view(
                *account,
                *destination,
                *owner,
            ),
            None => *token_program != SPL_TOKEN_PROGRAM_ID,
        },
{
    let ix = anchor_spl::token::spl_token::instruction::close_account(
        &solana_program::pubkey::Pubkey::new_from_array(*token_program),
        &solana_program::pubkey::Pubkey::new_from_array(*account),
        &solana_program::pubkey::Pubkey::new_from_array(*destination),
        &solana_program::pubkey::Pubkey::new_from_array(*owner),
        &[],
    ).ok()?;
    let accounts = ix.accounts.iter().map(|m| AccountMeta {
        pubkey: m.pubkey.to_bytes(),
        is_signer: m.is_signer,
        is_writable: m.is_writable,
    }).collect();
    Some(Instruction { program_id: ix.program_id.to_bytes(), accounts, data: ix.data })
}

/// Address of the wrapped-SOL account of `user`.
pub open spec fn wsol_account_pda(user: Pubkey) -> Option<(Pubkey, u8)> {
    associated_token_pda(user, SPL_TOKEN_PROGRAM_ID, NATIVE_MINT)
}

fn user_wsol_ata(user: &Pubkey) -> (r: Option<Pubkey>)
    ensures
        match r {
            Some(ata) => wsol_account_pda(*user) is Some && ata == wsol_account_pda(*user).unwrap().0,
            None => wsol_account_pda(*user) is None,
        },
{
    let (ata, _) = associated_token(user, &SPL_TOKEN_PROGRAM_ID, &NATIVE_MINT)?;
    Some(ata)
}

/// Fills the wrapped-SOL account of `user`: a transfer into it, then the sync of
/// its token balance.
pub open spec fn wrap_sol_views(user: Pubkey, lamports: u64) -> Option<Seq<InstructionView>> {
    match wsol_account_pda(user) {
        Some((ata, _)) => Some(seq![transfer_view(user, ata, lamports), sync_native_view(ata)]),
        None => None,
    }
}

/// Transfers `lamports` to the wrapped-SOL account of `user` and syncs it. Stands
/// before any purchase quoted in wrapped SOL.
pub fn wrap_sol_instructions(user: &Pubkey, lamports: u64) -> (r: Option<Vec<Instruction>>)
    ensures
        views_of(r) == wrap_sol_views(*user, lamports),
{
    let ata = user_wsol_ata(user)?;
    let sync = sync_native(&SPL_TOKEN_PROGRAM_ID, &ata)?;
    let mut instructions: Vec<Instruction> = Vec::new();
    instructions.push(transfer(user, &ata, lamports));
    instructions.push(sync);
    assert(views(instructions@) =~= wrap_sol_views(*user, lamports).unwrap());
    Some(instructions)
}

/// Empties the wrapped-SOL account of `user` to the user.
pub open spec fn unwrap_sol_view(user: Pubkey) -> Option<InstructionView> {
    match wsol_account_pda(user) {
        Some((ata, _)) => Some(close_account_view(ata, user, user)),
        None => None,
    }
}

/// Closes the wrapped-SOL account of `user`, which returns its balance as lamports.
pub fn unwrap_sol_instruction(user: &Pubkey) -> (r: Option<Instruction>)
    ensures
        view_of(r) == unwrap_sol_view(*user),
{
    let ata = user_wsol_ata(user)?;
    close_account(&SPL_TOKEN_PROGRAM_ID, &ata, user, user)
}

} // verus!
