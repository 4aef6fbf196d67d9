//! Addresses derived by the AMM program.

use vstd::prelude::*;

use crate::bytes::{le_bytes, push_le};
use crate::constants::pump_amm::{
    CREATOR_VAULT_SEED, EVENT_AUTHORITY_SEED, FEE_CONFIG_PROGRAM_SEED_KEY, FEE_CONFIG_SEED,
    GLOBAL_CONFIG_SEED, GLOBAL_VOLUME_ACCUMULATOR_SEED, POOL_LP_MINT_SEED, POOL_SEED, POOL_V2_SEED,
    PROGRAM_ID, USER_VOLUME_ACCUMULATOR_SEED,
};
use crate::constants::FEE_PROGRAM_ID;
use crate::pubkey::{
    derived, find_program_address, find_with_one, find_with_two, seed_bytes, Pubkey,
};

verus! {

/// Address of the global config account.
pub open spec fn global_config_pda() -> Option<(Pubkey, u8)> {
    derived(seq![GLOBAL_CONFIG_SEED@], PROGRAM_ID)
}

/// The global config account.
pub fn global_config() -> (r: Option<(Pubkey, u8)>)
    ensures
        r == global_config_pda(),
{
    find_with_one(&GLOBAL_CONFIG_SEED, &PROGRAM_ID)
}

/// Address of pool number `index` of `creator` for the pair of mints.
pub open spec fn pool_pda(
    index: u16,
    creator: Pubkey,
    base_mint: Pubkey,
    quote_mint: Pubkey,
) -> Option<(Pubkey, u8)> {
    derived(
        seq![POOL_SEED@, le_bytes(index as nat, 2), creator@, base_mint@, quote_mint@],
        PROGRAM_ID,
    )
}

/// Pool number `index` of `creator` for the pair of mints.
pub fn pool(index: u16, creator: &Pubkey, base_mint: &Pubkey, quote_mint: &Pubkey) -> (r: Option<
    (Pubkey, u8),
>)
    ensures
        r == pool_pda(index, *creator, *base_mint, *quote_mint),
{
    let mut index_bytes: Vec<u8> = Vec::new();
    push_le(&mut index_bytes, index as u128, 2);
    assert(index_bytes@ =~= le_bytes(index as nat, 2));
    let seeds: [&[u8]; 5] = [&POOL_SEED, index_bytes.as_slice(), creator, base_mint, quote_mint];
    assert(seed_bytes(seeds@) =~= seq![
        POOL_SEED@,
        le_bytes(index as nat, 2),
        creator@,
        base_mint@,
        quote_mint@,
    ]);
    find_program_address(&seeds, &PROGRAM_ID)
}

/// Address of the liquidity mint of `pool`.
pub open spec fn lp_mint_pda(pool: Pubkey) -> Option<(Pubkey, u8)> {
    derived(seq![POOL_LP_MINT_SEED@, pool@], PROGRAM_ID)
}

/// The liquidity mint of `pool`.
pub fn lp_mint(pool: &Pubkey) -> (r: Option<(Pubkey, u8)>)
    ensures
        r == lp_mint_pda(*pool),
{
    find_with_two(&POOL_LP_MINT_SEED, pool, &PROGRAM_ID)
}

/// Address of the authority over the fee vault of `coin_creator`.
pub open spec fn coin_creator_vault_authority_pda(coin_creator: Pubkey) -> Option<(Pubkey, u8)> {
    derived(seq![CREATOR_VAULT_SEED@, coin_creator@], PROGRAM_ID)
}

/// The authority over the fee vault of `coin_creator`.
pub fn coin_creator_vault_authority(coin_creator: &Pubkey) -> (r: Option<(Pubkey, u8)>)
    ensures
        r == coin_creator_vault_authority_pda(*coin_creator),
{
    find_with_two(&CREATOR_VAULT_SEED, coin_creator, &PROGRAM_ID)
}

/// Address of the program's event authority.
pub open spec fn event_authority_pda() -> Option<(Pubkey, u8)> {
    derived(seq![EVENT_AUTHORITY_SEED@], PROGRAM_ID)
}

/// The program's event authority.
pub fn event_authority() -> (r: Option<(Pubkey, u8)>)
    ensures
        r == event_authority_pda(),
{
    find_with_one(&EVENT_AUTHORITY_SEED, &PROGRAM_ID)
}

/// Address of the global volume accumulator.
pub open spec fn global_volume_accumulator_pda() -> Option<(Pubkey, u8)> {
    derived(seq![GLOBAL_VOLUME_ACCUMULATOR_SEED@], PROGRAM_ID)
}

/// The global volume accumulator.
pub fn global_volume_accumulator() -> (r: Option<(Pubkey, u8)>)
    ensures
        r == global_volume_accumulator_pda(),
{
    find_with_one(&GLOBAL_VOLUME_ACCUMULATOR_SEED, &PROGRAM_ID)
}

/// Address of the volume accumulator of `user`.
pub open spec fn user_volume_accumulator_pda(user: Pubkey) -> Option<(Pubkey, u8)> {
    derived(seq![USER_VOLUME_ACCUMULATOR_SEED@, user@], PROGRAM_ID)
}

/// The volume accumulator of `user`.
pub fn user_volume_accumulator(user: &Pubkey) -> (r: Option<(Pubkey, u8)>)
    ensures
        r == user_volume_accumulator_pda(*user),
{
    find_with_two(&USER_VOLUME_ACCUMULATOR_SEED, user, &PROGRAM_ID)
}

/// Address of the remaining account of trades on pools of `base_mint`.
pub open spec fn pool_v2_pda(base_mint: Pubkey) -> Option<(Pubkey, u8)> {
    derived(seq![POOL_V2_SEED@, base_mint@], PROGRAM_ID)
}

/// The remaining account of trades on pools of `base_mint`.
pub fn pool_v2(base_mint: &Pubkey) -> (r: Option<(Pubkey, u8)>)
    ensures
        r == pool_v2_pda(*base_mint),
{
    find_with_two(&POOL_V2_SEED, base_mint, &PROGRAM_ID)
}

/// Address of the fee config that the fee program keeps for this program.
pub open spec fn fee_config_pda() -> Option<(Pubkey, u8)> {
    derived(seq![FEE_CONFIG_SEED@, FEE_CONFIG_PROGRAM_SEED_KEY@], FEE_PROGRAM_ID)
}

/// The fee config that the fee program keeps for this program.
pub fn fee_config() -> (r: Option<(Pubkey, u8)>)
    ensures
        r == fee_config_pda(),
{
    find_with_two(&FEE_CONFIG_SEED, &FEE_CONFIG_PROGRAM_SEED_KEY, &FEE_PROGRAM_ID)
}

} // verus!
