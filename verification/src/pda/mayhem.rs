//! Addresses derived by the mayhem program, referenced by `create_v2`.

use vstd::prelude::*;

use crate::constants::{MAYHEM_PROGRAM_ID, SPL_TOKEN_2022_PROGRAM_ID};
use crate::pda::{associated_token, associated_token_pda};
use crate::pubkey::{derived, find_with_one, find_with_two, Pubkey};

verus! {

pub const PROGRAM_ID: Pubkey = MAYHEM_PROGRAM_ID;

/// `"global-params"`
pub const GLOBAL_PARAMS_SEED: [u8; 13] = [103, 108, 111, 98, 97, 108, 45, 112, 97, 114, 97, 109, 115];

/// `"sol-vault"`
pub const SOL_VAULT_SEED: [u8; 9] = [115, 111, 108, 45, 118, 97, 117, 108, 116];

/// `"mayhem-state"`
pub const MAYHEM_STATE_SEED: [u8; 12] = [109, 97, 121, 104, 101, 109, 45, 115, 116, 97, 116, 101];

/// Address of the global parameters.
pub open spec fn global_params_pda() -> Option<(Pubkey, u8)> {
    derived(seq![GLOBAL_PARAMS_SEED@], PROGRAM_ID)
}

/// The global parameters.
pub fn global_params() -> (r: Option<(Pubkey, u8)>)
    ensures
        r == global_params_pda(),
{
    find_with_one(&GLOBAL_PARAMS_SEED, &PROGRAM_ID)
}

/// Address of the SOL vault.
pub open spec fn sol_vault_pda() -> Option<(Pubkey, u8)> {
    derived(seq![SOL_VAULT_SEED@], PROGRAM_ID)
}

/// The SOL vault.
pub fn sol_vault() -> (r: Option<(Pubkey, u8)>)
    ensures
        r == sol_vault_pda(),
{
    find_with_one(&SOL_VAULT_SEED, &PROGRAM_ID)
}

/// Address of the mayhem state of `mint`.
pub open spec fn mayhem_state_pda(mint: Pubkey) -> Option<(Pubkey, u8)> {
    derived(seq![MAYHEM_STATE_SEED@, mint@], PROGRAM_ID)
}

/// The mayhem state of `mint`.
pub fn mayhem_state(mint: &Pubkey) -> (r: Option<(Pubkey, u8)>)
    ensures
        r == mayhem_state_pda(*mint),
{
    find_with_two(&MAYHEM_STATE_SEED, mint, &PROGRAM_ID)
}

/// Address of the Token-2022 account of the SOL vault for `mint`.
pub open spec fn mayhem_token_vault_pda(mint: Pubkey) -> Option<(Pubkey, u8)> {
    match sol_vault_pda() {
        Some((vault, _)) => associated_token_pda(vault, SPL_TOKEN_2022_PROGRAM_ID, mint),
        None => None,
    }
}

/// The Token-2022 account of the SOL vault for `mint`.
pub fn mayhem_token_vault(mint: &Pubkey) -> (r: Option<(Pubkey, u8)>)
    ensures
        r == mayhem_token_vault_pda(*mint),
{
    let (vault, _) = sol_vault()?;
    associated_token(&vault, &SPL_TOKEN_2022_PROGRAM_ID, mint)
}

} // verus!
