//! Bonding-curve instructions, first generation. Prefer those of `pump_v2`.

use vstd::prelude::*;

use crate::bytes::string_fits;
use crate::constants::pump::PROGRAM_ID;
use crate::constants::{
    FEE_PROGRAM_ID, MPL_TOKEN_METADATA_PROGRAM_ID, RENT_SYSVAR_ID, SPL_ATA_PROGRAM_ID,
    SPL_TOKEN_PROGRAM_ID, SYSTEM_PROGRAM_ID,
};
use crate::instruction::{
    readonly, signing, view_of, writable, AccountMeta, Instruction, InstructionView,
};
use crate::pda;
use crate::pda::address_of;
use crate::pubkey::Pubkey;
use crate::sdk::encoding::{
    amounts_bytes, amounts_data, amounts_flag_data, coin_bytes, coin_data, flag_byte, BUY, CREATE,
    SELL,
};
use crate::sdk::pump_v2::{ata, pump_call};
use crate::sdk::PumpSdk;

verus! {

/// The accounts of `create`.
pub open spec fn create_accounts(mint: Pubkey, user: Pubkey) -> Option<Seq<AccountMeta>> {
    match address_of(pda::pump::bonding_curve_pda(mint)) {
        None => None,
        Some(bonding_curve) => match (
            address_of(pda::pump::mint_authority_pda()),
            ata(bonding_curve, SPL_TOKEN_PROGRAM_ID, mint),
            address_of(pda::pump::global_pda()),
            address_of(pda::pump::metadata_pda(mint)),
            address_of(pda::pump::event_authority_pda()),
        ) {
            (
                Some(mint_authority),
                Some(associated_bonding_curve),
                Some(global),
                Some(metadata),
                Some(event_authority),
            ) => Some(
                seq![
                    signing(mint),
                    readonly(mint_authority),
                    writable(bonding_curve),
                    writable(associated_bonding_curve),
                    readonly(global),
                    readonly(MPL_TOKEN_METADATA_PROGRAM_ID),
                    writable(metadata),
                    signing(user),
                    readonly(SYSTEM_PROGRAM_ID),
                    readonly(SPL_TOKEN_PROGRAM_ID),
                    readonly(SPL_ATA_PROGRAM_ID),
                    readonly(RENT_SYSVAR_ID),
                    readonly(event_authority),
                    readonly(PROGRAM_ID),
                ],
            ),
            _ => None,
        },
    }
}

/// The accounts of `buy`; the curve's second account and the buyback recipient end them.
pub open spec fn buy_accounts(
    mint: Pubkey,
    user: Pubkey,
    creator: Pubkey,
    fee_recipient: Pubkey,
    buyback_fee_recipient: Pubkey,
    token_program: Pubkey,
) -> Option<Seq<AccountMeta>> {
    match address_of(pda::pump::bonding_curve_pda(mint)) {
        None => None,
        Some(bonding_curve) => match (
            address_of(pda::pump::global_pda()),
            ata(bonding_curve, token_program, mint),
            ata(user, token_program, mint),
            address_of(pda::pump::creator_vault_pda(creator)),
            address_of(pda::pump::event_authority_pda()),
            address_of(pda::pump::global_volume_accumulator_pda()),
            address_of(pda::pump::user_volume_accumulator_pda(user)),
            address_of(pda::pump::fee_config_pda()),
            address_of(pda::pump::bonding_curve_v2_pda(mint)),
        ) {
            (
                Some(global),
                Some(associated_bonding_curve),
                Some(associated_user),
                Some(creator_vault),
                Some(event_authority),
                Some(global_volume_accumulator),
                Some(user_volume_accumulator),
                Some(fee_config),
                Some(bonding_curve_v2),
            ) => Some(
                seq![
                    readonly(global),
                    writable(fee_recipient),
                    readonly(mint),
                    writable(bonding_curve),
                    writable(associated_bonding_curve),
                    writable(associated_user),
                    signing(user),
                    readonly(SYSTEM_PROGRAM_ID),
                    readonly(token_program),
                    writable(creator_vault),
                    readonly(event_authority),
                    readonly(PROGRAM_ID),
                    readonly(global_volume_accumulator),
                    writable(user_volume_accumulator),
                    readonly(fee_config),
                    readonly(FEE_PROGRAM_ID),
                    readonly(bonding_curve_v2),
                    writable(buyback_fee_recipient),
                ],
            ),
            _ => None,
        },
    }
}

/// The accounts of `sell`; for a cashback coin the user's volume accumulator, and in
/// any case the curve's second account, end them.
pub open spec fn sell_accounts(
    mint: Pubkey,
    user: Pubkey,
    creator: Pubkey,
    fee_recipient: Pubkey,
    token_program: Pubkey,
    is_cashback_coin: bool,
) -> Option<Seq<AccountMeta>> {
    match address_of(pda::pump::bonding_curve_pda(mint)) {
        None => None,
        Some(bonding_curve) => match (
            address_of(pda::pump::global_pda()),
            ata(bonding_curve, token_program, mint),
            ata(user, token_program, mint),
            address_of(pda::pump::creator_vault_pda(creator)),
            address_of(pda::pump::event_authority_pda()),
            address_of(pda::pump::fee_config_pda()),
            address_of(pda::pump::bonding_curve_v2_pda(mint)),
        ) {
            (
                Some(global),
                Some(associated_bonding_curve),
                Some(associated_user),
                Some(creator_vault),
                Some(event_authority),
                Some(fee_config),
                Some(bonding_curve_v2),
            ) => {
                let declared = seq![
                    readonly(global),
                    writable(fee_recipient),
                    readonly(mint),
                    writable(bonding_curve),
                    writable(associated_bonding_curve),
                    writable(associated_user),
                    signing(user),
                    readonly(SYSTEM_PROGRAM_ID),
                    writable(creator_vault),
                    readonly(token_program),
                    readonly(event_authority),
                    readonly(PROGRAM_ID),
                    readonly(fee_config),
                    readonly(FEE_PROGRAM_ID),
                ];
                if is_cashback_coin {
                    match address_of(pda::pump::user_volume_accumulator_pda(user)) {
                        Some(accumulator) => Some(
                            declared.push(writable(accumulator)).push(readonly(bonding_curve_v2)),
                        ),
                        None => None,
                    }
                } else {
                    Some(declared.push(readonly(bonding_curve_v2)))
                }
            },
            _ => None,
        },
    }
}

/// Creates a coin of the SPL Token program.
pub open spec fn create_view(
    mint: Pubkey,
    user: Pubkey,
    name: Seq<char>,
    symbol: Seq<char>,
    uri: Seq<char>,
    creator: Pubkey,
) -> Option<InstructionView> {
    pump_call(create_accounts(mint, user), coin_bytes(CREATE, name, symbol, uri, creator))
}

/// Buys `amount` tokens for at most `max_sol_cost`, with volume tracking.
pub open spec fn buy_view(
    mint: Pubkey,
    user: Pubkey,
    creator: Pubkey,
    fee_recipient: Pubkey,
    buyback_fee_recipient: Pubkey,
    amount: u64,
    max_sol_cost: u64,
    token_program: Pubkey,
) -> Option<InstructionView> {
    pump_call(
        buy_accounts(mint, user, creator, fee_recipient, buyback_fee_recipient, token_program),
        amounts_bytes(BUY, amount, max_sol_cost).push(flag_byte(true)),
    )
}

/// Sells `amount` tokens for at least `min_sol_output`.
pub open spec fn sell_view(
    mint: Pubkey,
    user: Pubkey,
    creator: Pubkey,
    fee_recipient: Pubkey,
    amount: u64,
    min_sol_output: u64,
    token_program: Pubkey,
    is_cashback_coin: bool,
) -> Option<InstructionView> {
    pump_call(
        sell_accounts(mint, user, creator, fee_recipient, token_program, is_cashback_coin),
        amounts_bytes(SELL, amount, min_sol_output),
    )
}

impl PumpSdk {
    /// `create`, for SPL Token coins with Metaplex metadata. The mint signs.
    pub fn create_instruction(
        &self,
        mint: Pubkey,
        user: Pubkey,
        name: &str,
        symbol: &str,
        uri: &str,
        creator: Pubkey,
    ) -> (r: Option<Instruction>)
        requires
            string_fits(name@),
            string_fits(symbol@),
            string_fits(uri@),
        ensures
            view_of(r) == create_view(mint, user, name@, symbol@, uri@, creator),
    {
        let (bonding_curve, _) = pda::pump::bonding_curve(&mint)?;
        let (mint_authority, _) = pda::pump::mint_authority()?;
        let (associated_bonding_curve, _) = pda::associated_token(
            &bonding_curve,
            &SPL_TOKEN_PROGRAM_ID,
            &mint,
        )?;
        let (global, _) = pda::pump::global()?;
        let (metadata, _) = pda::pump::metadata(&mint)?;
        let (event_authority, _) = pda::pump::event_authority()?;
        let mut accounts: Vec<AccountMeta> = Vec::new();
        accounts.push(AccountMeta::new(mint, true));
        accounts.push(AccountMeta::new_readonly(mint_authority, false));
        accounts.push(AccountMeta::new(bonding_curve, false));
        accounts.push(AccountMeta::new(associated_bonding_curve, false));
        accounts.push(AccountMeta::new_readonly(global, false));
        accounts.push(AccountMeta::new_readonly(MPL_TOKEN_METADATA_PROGRAM_ID, false));
        accounts.push(AccountMeta::new(metadata, false));
        accounts.push(AccountMeta::new(user, true));
        accounts.push(AccountMeta::new_readonly(SYSTEM_PROGRAM_ID, false));
        accounts.push(AccountMeta::new_readonly(SPL_TOKEN_PROGRAM_ID, false));
        accounts.push(AccountMeta::new_readonly(SPL_ATA_PROGRAM_ID, false));
        accounts.push(AccountMeta::new_readonly(RENT_SYSVAR_ID, false));
        accounts.push(AccountMeta::new_readonly(event_authority, false));
        accounts.push(AccountMeta::new_readonly(PROGRAM_ID, false));
        let data = coin_data(&CREATE, name, symbol, uri, &creator);
        Some(Instruction { program_id: PROGRAM_ID, accounts, data })
    }

    /// `buy`, with volume tracking.
    pub fn buy_instruction(
        &self,
        mint: Pubkey,
        user: Pubkey,
        creator: Pubkey,
        fee_recipient: Pubkey,
        buyback_fee_recipient: Pubkey,
        amount: u64,
        max_sol_cost: u64,
        token_program: Pubkey,
    ) -> (r: Option<Instruction>)
        ensures
            view_of(r) == buy_view(
                mint,
                user,
                creator,
                fee_recipient,
                buyback_fee_recipient,
                amount,
                max_sol_cost,
                token_program,
            ),
    {
        let (bonding_curve, _) = pda::pump::bonding_curve(&mint)?;
        let (global, _) = pda::pump::global()?;
        let (associated_bonding_curve, _) = pda::associated_token(
            &bonding_curve,
            &token_program,
            &mint,
        )?;
        let (associated_user, _) = pda::associated_token(&user, &token_program, &mint)?;
        let (creator_vault, _) = pda::pump::creator_vault(&creator)?;
        let (event_authority, _) = pda::pump::event_authority()?;
        let (global_volume_accumulator, _) = pda::pump::global_volume_accumulator()?;
        let (user_volume_accumulator, _) = pda::pump::user_volume_accumulator(&user)?;
        let (fee_config, _) = pda::pump::fee_config()?;
        let (bonding_curve_v2, _) = pda::pump::bonding_curve_v2(&mint)?;
        let mut accounts: Vec<AccountMeta> = Vec::new();
        accounts.push(AccountMeta::new_readonly(global, false));
        accounts.push(AccountMeta::new(fee_recipient, false));
        accounts.push(AccountMeta::new_readonly(mint, false));
        accounts.push(AccountMeta::new(bonding_curve, false));
        accounts.push(AccountMeta::new(associated_bonding_curve, false));
        accounts.push(AccountMeta::new(associated_user, false));
        accounts.push(AccountMeta::new(user, true));
        accounts.push(AccountMeta::new_readonly(SYSTEM_PROGRAM_ID, false));
        accounts.push(AccountMeta::new_readonly(token_program, false));
        accounts.push(AccountMeta::new(creator_vault, false));
        accounts.push(AccountMeta::new_readonly(event_authority, false));
        accounts.push(AccountMeta::new_readonly(PROGRAM_ID, false));
        accounts.push(AccountMeta::new_readonly(global_volume_accumulator, false));
        accounts.push(AccountMeta::new(user_volume_accumulator, false));
        accounts.push(AccountMeta::new_readonly(fee_config, false));
        accounts.push(AccountMeta::new_readonly(FEE_PROGRAM_ID, false));
        accounts.push(AccountMeta::new_readonly(bonding_curve_v2, false));
        accounts.push(AccountMeta::new(buyback_fee_recipient, false));
        let data = amounts_flag_data(&BUY, amount, max_sol_cost, true);
        Some(Instruction { program_id: PROGRAM_ID, accounts, data })
    }

    /// `sell`. The buyback recipient does not enter it.
    pub fn sell_instruction(
        &self,
        mint: Pubkey,
        user: Pubkey,
        creator: Pubkey,
        fee_recipient: Pubkey,
        _buyback_fee_recipient: Pubkey,
        amount: u64,
        min_sol_output: u64,
        token_program: Pubkey,
        is_cashback_coin: bool,
    ) -> (r: Option<Instruction>)
        ensures
            view_of(r) == sell_view(
                mint,
                user,
                creator,
                fee_recipient,
                amount,
                min_sol_output,
                token_program,
                is_cashback_coin,
            ),
    {
        let (bonding_curve, _) = pda::pump::bonding_curve(&mint)?;
        let (global, _) = pda::pump::global()?;
        let (associated_bonding_curve, _) = pda::associated_token(
            &bonding_curve,
            &token_program,
            &mint,
        )?;
        let (associated_user, _) = pda::associated_token(&user, &token_program, &mint)?;
        let (creator_vault, _) = pda::pump::creator_vault(&creator)?;
        let (event_authority, _) = pda::pump::event_authority()?;
        let (fee_config, _) = pda::pump::fee_config()?;
        let (bonding_curve_v2, _) = pda::pump::bonding_curve_v2(&mint)?;
        let mut accounts: Vec<AccountMeta> = Vec::new();
        accounts.push(AccountMeta::new_readonly(global, false));
        accounts.push(AccountMeta::new(fee_recipient, false));
        accounts.push(AccountMeta::new_readonly(mint, false));
        accounts.push(AccountMeta::new(bonding_curve, false));
        accounts.push(AccountMeta::new(associated_bonding_curve, false));
        accounts.push(AccountMeta::new(associated_user, false));
        accounts.push(AccountMeta::new(user, true));
        accounts.push(AccountMeta::new_readonly(SYSTEM_PROGRAM_ID, false));
        accounts.push(AccountMeta::new(creator_vault, false));
        accounts.push(AccountMeta::new_readonly(token_program, false));
        accounts.push(AccountMeta::new_readonly(event_authority, false));
        accounts.push(AccountMeta::new_readonly(PROGRAM_ID, false));
        accounts.push(AccountMeta::new_readonly(fee_config, false));
        accounts.push(AccountMeta::new_readonly(FEE_PROGRAM_ID, false));
        if is_cashback_coin {
            let (accumulator, _) = pda::pump::user_volume_accumulator(&user)?;
            accounts.push(AccountMeta::new(accumulator, false));
        }
        accounts.push(AccountMeta::new_readonly(bonding_curve_v2, false));
        let data = amounts_data(&SELL, amount, min_sol_output);
        Some(Instruction { program_id: PROGRAM_ID, accounts, data })
    }
}

} // verus!
