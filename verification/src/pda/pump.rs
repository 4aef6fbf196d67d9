//! Addresses derived by the bonding-curve program and the fee program.

use vstd::prelude::*;

use crate::constants::pump::{
    BONDING_CURVE_SEED, BONDING_CURVE_V2_SEED, CREATOR_VAULT_SEED, EVENT_AUTHORITY_SEED,
    FEE_CONFIG_PROGRAM_SEED_KEY, FEE_CONFIG_SEED, GLOBAL_SEED, GLOBAL_VOLUME_ACCUMULATOR_SEED,
    METADATA_SEED, MINT_AUTHORITY_SEED, POOL_AUTHORITY_SEED, PROGRAM_ID, SHARING_CONFIG_SEED,
    USER_VOLUME_ACCUMULATOR_SEED,
};
use crate::constants::{FEE_PROGRAM_ID, MPL_TOKEN_METADATA_PROGRAM_ID};
use crate::pubkey::{derived, find_with_one, find_with_three, find_with_two, Pubkey};

verus! {

/// Address of the global settings account.
pub open spec fn global_pda() -> Option<(Pubkey, u8)> {
    derived(seq![GLOBAL_SEED@], PROGRAM_ID)
}

/// The global settings account.
pub fn global() -> (r: Option<(Pubkey, u8)>)
    ensures
        r == global_pda(),
{
    find_with_one(&GLOBAL_SEED, &PROGRAM_ID)
}

/// Address of the bonding curve of `mint`.
pub open spec fn bonding_curve_pda(mint: Pubkey) -> Option<(Pubkey, u8)> {
    derived(seq![BONDING_CURVE_SEED@, mint@], PROGRAM_ID)
}

/// The bonding curve of `mint`.
pub fn bonding_curve(mint: &Pubkey) -> (r: Option<(Pubkey, u8)>)
    ensures
        r == bonding_curve_pda(*mint),
{
    find_with_two(&BONDING_CURVE_SEED, mint, &PROGRAM_ID)
}

/// Address of the remaining account of `buy` and `sell` for `mint`.
pub open spec fn bonding_curve_v2_pda(mint: Pubkey) -> Option<(Pubkey, u8)> {
    derived(seq![BONDING_CURVE_V2_SEED@, mint@], PROGRAM_ID)
}

/// The remaining account of `buy` and `sell` for `mint`.
pub fn bonding_curve_v2(mint: &Pubkey) -> (r: Option<(Pubkey, u8)>)
    ensures
        r == bonding_curve_v2_pda(*mint),
{
    find_with_two(&BONDING_CURVE_V2_SEED, mint, &PROGRAM_ID)
}

/// Address of the fee vault of `creator`.
pub open spec fn creator_vault_pda(creator: Pubkey) -> Option<(Pubkey, u8)> {
    derived(seq![CREATOR_VAULT_SEED@, creator@], PROGRAM_ID)
}

/// The fee vault of `creator`.
pub fn creator_vault(creator: &Pubkey) -> (r: Option<(Pubkey, u8)>)
    ensures
        r == creator_vault_pda(*creator),
{
    find_with_two(&CREATOR_VAULT_SEED, creator, &PROGRAM_ID)
}

/// Address of the program's event authority.
pub open spec fn event_authority_pda() -> Option<(Pubkey, u8)> {
    derived(seq![EVENT_AUTHORITY_SEED@], PROGRAM_ID)
}

/// The program's event authority.
pub fn event_authority() -> (r: Option<(Pubkey, u8)>)
    ensures
        r == event_authority_pda(),
{
    find_with_one(&EVENT_AUTHORITY_SEED, &PROGRAM_ID)
}

/// Address of the authority over the program's mints.
pub open spec fn mint_authority_pda() -> Option<(Pubkey, u8)> {
    derived(seq![MINT_AUTHORITY_SEED@], PROGRAM_ID)
}

/// The authority over the program's mints.
pub fn mint_authority() -> (r: Option<(Pubkey, u8)>)
    ensures
        r == mint_authority_pda(),
{
    find_with_one(&MINT_AUTHORITY_SEED, &PROGRAM_ID)
}

/// Address of the creator of the canonical AMM pool of `mint`.
pub open spec fn pool_authority_pda(mint: Pubkey) -> Option<(Pubkey, u8)> {
    derived(seq![POOL_AUTHORITY_SEED@, mint@], PROGRAM_ID)
}

/// The creator of the canonical AMM pool of `mint`.
pub fn pool_authority(mint: &Pubkey) -> (r: Option<(Pubkey, u8)>)
    ensures
        r == pool_authority_pda(*mint),
{
    find_with_two(&POOL_AUTHORITY_SEED, mint, &PROGRAM_ID)
}

/// Address of the global volume accumulator.
pub open spec fn global_volume_accumulator_pda() -> Option<(Pubkey, u8)> {
    derived(seq![GLOBAL_VOLUME_ACCUMULATOR_SEED@], PROGRAM_ID)
}

/// The global volume accumulator.
pub fn global_volume_accumulator() -> (r: Option<(Pubkey, u8)>)
    ensures
        r == global_volume_accumulator_pda(),
{
    find_with_one(&GLOBAL_VOLUME_ACCUMULATOR_SEED, &PROGRAM_ID)
}

/// Address of the volume accumulator of `user`.
pub open spec fn user_volume_accumulator_pda(user: Pubkey) -> Option<(Pubkey, u8)> {
    derived(seq![USER_VOLUME_ACCUMULATOR_SEED@, user@], PROGRAM_ID)
}

/// The volume accumulator of `user`.
pub fn user_volume_accumulator(user: &Pubkey) -> (r: Option<(Pubkey, u8)>)
    ensures
        r == user_volume_accumulator_pda(*user),
{
    find_with_two(&USER_VOLUME_ACCUMULATOR_SEED, user, &PROGRAM_ID)
}

/// Address of the fee config that the fee program keeps for this program.
pub open spec fn fee_config_pda() -> Option<(Pubkey, u8)> {
    derived(seq![FEE_CONFIG_SEED@, FEE_CONFIG_PROGRAM_SEED_KEY@], FEE_PROGRAM_ID)
}

/// The fee config that the fee program keeps for this program.
pub fn fee_config() -> (r: Option<(Pubkey, u8)>)
    ensures
        r == fee_config_pda(),
{
    find_with_two(&FEE_CONFIG_SEED, &FEE_CONFIG_PROGRAM_SEED_KEY, &FEE_PROGRAM_ID)
}

/// Address of the token metadata of `mint`.
pub open spec fn metadata_pda(mint: Pubkey) -> Option<(Pubkey, u8)> {
    derived(seq![METADATA_SEED@, MPL_TOKEN_METADATA_PROGRAM_ID@, mint@], MPL_TOKEN_METADATA_PROGRAM_ID)
}

/// The token metadata of `mint`.
pub fn metadata(mint: &Pubkey) -> (r: Option<(Pubkey, u8)>)
    ensures
        r == metadata_pda(*mint),
{
    find_with_three(&METADATA_SEED, &MPL_TOKEN_METADATA_PROGRAM_ID, mint, &MPL_TOKEN_METADATA_PROGRAM_ID)
}

/// Address of the fee-sharing config of `mint`; it may be uninitialized.
pub open spec fn sharing_config_pda(mint: Pubkey) -> Option<(Pubkey, u8)> {
    derived(seq![SHARING_CONFIG_SEED@, mint@], FEE_PROGRAM_ID)
}

/// The fee-sharing config of `mint`; it may be uninitialized.
pub fn sharing_config(mint: &Pubkey) -> (r: Option<(Pubkey, u8)>)
    ensures
        r == sharing_config_pda(*mint),
{
    find_with_two(&SHARING_CONFIG_SEED, mint, &FEE_PROGRAM_ID)
}

} // verus!
