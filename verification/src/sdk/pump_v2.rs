//! Bonding-curve instructions, second generation.

use vstd::prelude::*;

use crate::constants::pump::PROGRAM_ID;
use crate::constants::{
    FEE_PROGRAM_ID, NATIVE_MINT, SPL_ATA_PROGRAM_ID, SPL_TOKEN_2022_PROGRAM_ID, SYSTEM_PROGRAM_ID,
};
use crate::instruction::{
    extend_with, followed_by, group_views, none_yet, readonly, signing, view_of, views_of, writable,
    AccountMeta, Instruction, InstructionView,
};
use crate::pda;
use crate::pda::{address_of, associated_token_pda};
use crate::pubkey::{is_default_key, same_key, Pubkey, DEFAULT_KEY};
use crate::sdk::encoding::{
    amounts_bytes, amounts_data, BUY_EXACT_QUOTE_IN_V2, BUY_V2, SELL_V2,
};
use crate::sdk::recipients::built_with_recipients;
use crate::sdk::PumpSdk;
use crate::state::{BondingCurve, Global};
use crate::token::{create_associated_token_account_idempotent, created};

verus! {

/// The quote mint that `quote_mint` stands for: the all-zero key means wrapped SOL.
pub open spec fn resolved_quote_mint(quote_mint: Pubkey) -> Pubkey {
    if quote_mint == DEFAULT_KEY {
        NATIVE_MINT
    } else {
        quote_mint
    }
}

/// The quote mint that `quote_mint` stands for.
pub fn resolve_quote_mint(quote_mint: Pubkey) -> (r: Pubkey)
    ensures
        r == resolved_quote_mint(quote_mint),
{
    if is_default_key(&quote_mint) {
        NATIVE_MINT
    } else {
        quote_mint
    }
}

/// Who trades what on a bonding curve.
#[derive(Clone, Copy, Debug)]
pub struct V2Trade {
    pub base_mint: Pubkey,
    pub quote_mint: Pubkey,
    pub quote_token_program: Pubkey,
    pub user: Pubkey,
    pub creator: Pubkey,
    pub fee_recipient: Pubkey,
    pub buyback_fee_recipient: Pubkey,
}

/// The addresses that buys and sells share. `quote_mint` is resolved; base tokens
/// are Token-2022.
#[derive(Clone, Copy, Debug)]
pub struct V2TradeAccounts {
    pub quote_mint: Pubkey,
    pub base_token_program: Pubkey,
    pub bonding_curve: Pubkey,
    pub creator_vault: Pubkey,
    pub user_volume_accumulator: Pubkey,
    pub associated_quote_fee_recipient: Pubkey,
    pub associated_quote_buyback_fee_recipient: Pubkey,
    pub associated_base_bonding_curve: Pubkey,
    pub associated_quote_bonding_curve: Pubkey,
    pub associated_base_user: Pubkey,
    pub associated_quote_user: Pubkey,
    pub associated_creator_vault: Pubkey,
    pub associated_user_volume_accumulator: Pubkey,
}

/// Address of the token account of `owner`.
pub open spec fn ata(owner: Pubkey, token_program: Pubkey, mint: Pubkey) -> Option<Pubkey> {
    address_of(associated_token_pda(owner, token_program, mint))
}

impl V2Trade {
    /// The addresses of the trade, where each exists.
    pub open spec fn accounts(&self) -> Option<V2TradeAccounts> {
        let base_program = SPL_TOKEN_2022_PROGRAM_ID;
        let quote_program = self.quote_token_program;
        let quote_mint = resolved_quote_mint(self.quote_mint);
        match (
            address_of(pda::pump::bonding_curve_pda(self.base_mint)),
            address_of(pda::pump::creator_vault_pda(self.creator)),
            address_of(pda::pump::user_volume_accumulator_pda(self.user)),
        ) {
            (Some(bonding_curve), Some(creator_vault), Some(user_volume_accumulator)) => match (
                ata(self.fee_recipient, quote_program, quote_mint),
                ata(self.buyback_fee_recipient, quote_program, quote_mint),
                ata(bonding_curve, base_program, self.base_mint),
                ata(bonding_curve, quote_program, quote_mint),
                ata(self.user, base_program, self.base_mint),
                ata(self.user, quote_program, quote_mint),
                ata(creator_vault, quote_program, quote_mint),
                ata(user_volume_accumulator, quote_program, quote_mint),
            ) {
                (
                    Some(fee_recipient),
                    Some(buyback),
                    Some(base_curve),
                    Some(quote_curve),
                    Some(base_user),
                    Some(quote_user),
                    Some(vault),
                    Some(accumulator),
                ) => Some(
                    V2TradeAccounts {
                        quote_mint,
                        base_token_program: base_program,
                        bonding_curve,
                        creator_vault,
                        user_volume_accumulator,
                        associated_quote_fee_recipient: fee_recipient,
                        associated_quote_buyback_fee_recipient: buyback,
                        associated_base_bonding_curve: base_curve,
                        associated_quote_bonding_curve: quote_curve,
                        associated_base_user: base_user,
                        associated_quote_user: quote_user,
                        associated_creator_vault: vault,
                        associated_user_volume_accumulator: accumulator,
                    },
                ),
                _ => None,
            },
            _ => None,
        }
    }
}

impl V2TradeAccounts {
    /// Derives the addresses of a trade.
    pub fn derive(trade: &V2Trade) -> (r: Option<Self>)
        ensures
            r == trade.accounts(),
    {
        let base_token_program = SPL_TOKEN_2022_PROGRAM_ID;
        let quote_program = trade.quote_token_program;
        let quote_mint = resolve_quote_mint(trade.quote_mint);
        let (bonding_curve, _) = pda::pump::bonding_curve(&trade.base_mint)?;
        let (creator_vault, _) = pda::pump::creator_vault(&trade.creator)?;
        let (user_volume_accumulator, _) = pda::pump::user_volume_accumulator(&trade.user)?;
        let (fee, _) = pda::associated_token(&trade.fee_recipient, &quote_program, &quote_mint)?;
        let (buyback, _) = pda::associated_token(
            &trade.buyback_fee_recipient,
            &quote_program,
            &quote_mint,
        )?;
        let (base_curve, _) = pda::associated_token(
            &bonding_curve,
            &base_token_program,
            &trade.base_mint,
        )?;
        let (quote_curve, _) = pda::associated_token(&bonding_curve, &quote_program, &quote_mint)?;
        let (base_user, _) = pda::associated_token(
            &trade.user,
            &base_token_program,
            &trade.base_mint,
        )?;
        let (quote_user, _) = pda::associated_token(&trade.user, &quote_program, &quote_mint)?;
        let (vault, _) = pda::associated_token(&creator_vault, &quote_program, &quote_mint)?;
        let (accumulator, _) = pda::associated_token(
            &user_volume_accumulator,
            &quote_program,
            &quote_mint,
        )?;
        Some(
            V2TradeAccounts {
                quote_mint,
                base_token_program,
                bonding_curve,
                creator_vault,
                user_volume_accumulator,
                associated_quote_fee_recipient: fee,
                associated_quote_buyback_fee_recipient: buyback,
                associated_base_bonding_curve: base_curve,
                associated_quote_bonding_curve: quote_curve,
                associated_base_user: base_user,
                associated_quote_user: quote_user,
                associated_creator_vault: vault,
                associated_user_volume_accumulator: accumulator,
            },
        )
    }
}

/// The accounts of a buy, in the program's order; the last is the program itself.
pub open spec fn buy_v2_accounts(trade: &V2Trade) -> Option<Seq<AccountMeta>> {
    match (
        trade.accounts(),
        address_of(pda::pump::global_pda()),
        address_of(pda::pump::sharing_config_pda(trade.base_mint)),
        address_of(pda::pump::global_volume_accumulator_pda()),
        address_of(pda::pump::fee_config_pda()),
        address_of(pda::pump::event_authority_pda()),
    ) {
        (
            Some(a),
            Some(global),
            Some(sharing_config),
            Some(global_volume_accumulator),
            Some(fee_config),
            Some(event_authority),
        ) => Some(
            seq![
                readonly(global),
                readonly(trade.base_mint),
                readonly(a.quote_mint),
                readonly(a.base_token_program),
                readonly(trade.quote_token_program),
                readonly(SPL_ATA_PROGRAM_ID),
                writable(trade.fee_recipient),
                writable(a.associated_quote_fee_recipient),
                writable(trade.buyback_fee_recipient),
                writable(a.associated_quote_buyback_fee_recipient),
                writable(a.bonding_curve),
                writable(a.associated_base_bonding_curve),
                writable(a.associated_quote_bonding_curve),
                signing(trade.user),
                writable(a.associated_base_user),
                writable(a.associated_quote_user),
                writable(a.creator_vault),
                writable(a.associated_creator_vault),
                readonly(sharing_config),
                readonly(global_volume_accumulator),
                writable(a.user_volume_accumulator),
                writable(a.associated_user_volume_accumulator),
                readonly(fee_config),
                readonly(FEE_PROGRAM_ID),
                readonly(SYSTEM_PROGRAM_ID),
                readonly(event_authority),
                readonly(PROGRAM_ID),
            ],
        ),
        _ => None,
    }
}

/// The accounts of a sell: those of a buy but for the global volume accumulator.
pub open spec fn sell_v2_accounts(trade: &V2Trade) -> Option<Seq<AccountMeta>> {
    match (
        trade.accounts(),
        address_of(pda::pump::global_pda()),
        address_of(pda::pump::sharing_config_pda(trade.base_mint)),
        address_of(pda::pump::fee_config_pda()),
        address_of(pda::pump::event_authority_pda()),
    ) {
        (
            Some(a),
            Some(global),
            Some(sharing_config),
            Some(fee_config),
            Some(event_authority),
        ) => Some(
            seq![
                readonly(global),
                readonly(trade.base_mint),
                readonly(a.quote_mint),
                readonly(a.base_token_program),
                readonly(trade.quote_token_program),
                readonly(SPL_ATA_PROGRAM_ID),
                writable(trade.fee_recipient),
                writable(a.associated_quote_fee_recipient),
                writable(trade.buyback_fee_recipient),
                writable(a.associated_quote_buyback_fee_recipient),
                writable(a.bonding_curve),
                writable(a.associated_base_bonding_curve),
                writable(a.associated_quote_bonding_curve),
                signing(trade.user),
                writable(a.associated_base_user),
                writable(a.associated_quote_user),
                writable(a.creator_vault),
                writable(a.associated_creator_vault),
                readonly(sharing_config),
                writable(a.user_volume_accumulator),
                writable(a.associated_user_volume_accumulator),
                readonly(fee_config),
                readonly(FEE_PROGRAM_ID),
                readonly(SYSTEM_PROGRAM_ID),
                readonly(event_authority),
                readonly(PROGRAM_ID),
            ],
        ),
        _ => None,
    }
}

/// The accounts that buys and sells list first.
fn common_accounts(trade: &V2Trade, a: &V2TradeAccounts, global: Pubkey, sharing_config: Pubkey) -> (r:
    Vec<AccountMeta>)
    ensures
        r@ == seq![
            readonly(global),
            readonly(trade.base_mint),
            readonly(a.quote_mint),
            readonly(a.base_token_program),
            readonly(trade.quote_token_program),
            readonly(SPL_ATA_PROGRAM_ID),
            writable(trade.fee_recipient),
            writable(a.associated_quote_fee_recipient),
            writable(trade.buyback_fee_recipient),
            writable(a.associated_quote_buyback_fee_recipient),
            writable(a.bonding_curve),
            writable(a.associated_base_bonding_curve),
            writable(a.associated_quote_bonding_curve),
            signing(trade.user),
            writable(a.associated_base_user),
            writable(a.associated_quote_user),
            writable(a.creator_vault),
            writable(a.associated_creator_vault),
            readonly(sharing_config),
        ],
{
    let mut metas: Vec<AccountMeta> = Vec::new();
    metas.push(AccountMeta::new_readonly(global, false));
    metas.push(AccountMeta::new_readonly(trade.base_mint, false));
    metas.push(AccountMeta::new_readonly(a.quote_mint, false));
    metas.push(AccountMeta::new_readonly(a.base_token_program, false));
    metas.push(AccountMeta::new_readonly(trade.quote_token_program, false));
    metas.push(AccountMeta::new_readonly(SPL_ATA_PROGRAM_ID, false));
    metas.push(AccountMeta::new(trade.fee_recipient, false));
    metas.push(AccountMeta::new(a.associated_quote_fee_recipient, false));
    metas.push(AccountMeta::new(trade.buyback_fee_recipient, false));
    metas.push(AccountMeta::new(a.associated_quote_buyback_fee_recipient, false));
    metas.push(AccountMeta::new(a.bonding_curve, false));
    metas.push(AccountMeta::new(a.associated_base_bonding_curve, false));
    metas.push(AccountMeta::new(a.associated_quote_bonding_curve, false));
    metas.push(AccountMeta::new(trade.user, true));
    metas.push(AccountMeta::new(a.associated_base_user, false));
    metas.push(AccountMeta::new(a.associated_quote_user, false));
    metas.push(AccountMeta::new(a.creator_vault, false));
    metas.push(AccountMeta::new(a.associated_creator_vault, false));
    metas.push(AccountMeta::new_readonly(sharing_config, false));
    metas
}

fn buy_accounts(trade: &V2Trade) -> (r: Option<Vec<AccountMeta>>)
    ensures
        match r {
            Some(metas) => buy_v2_accounts(trade) == Some(metas@),
            None => buy_v2_accounts(trade) is None,
        },
{
    let a = V2TradeAccounts::derive(trade)?;
    let (global, _) = pda::pump::global()?;
    let (sharing_config, _) = pda::pump::sharing_config(&trade.base_mint)?;
    let (global_volume_accumulator, _) = pda::pump::global_volume_accumulator()?;
    let (fee_config, _) = pda::pump::fee_config()?;
    let (event_authority, _) = pda::pump::event_authority()?;
    let mut metas = common_accounts(trade, &a, global, sharing_config);
    metas.push(AccountMeta::new_readonly(global_volume_accumulator, false));
    metas.push(AccountMeta::new(a.user_volume_accumulator, false));
    metas.push(AccountMeta::new(a.associated_user_volume_accumulator, false));
    metas.push(AccountMeta::new_readonly(fee_config, false));
    metas.push(AccountMeta::new_readonly(FEE_PROGRAM_ID, false));
    metas.push(AccountMeta::new_readonly(SYSTEM_PROGRAM_ID, false));
    metas.push(AccountMeta::new_readonly(event_authority, false));
    metas.push(AccountMeta::new_readonly(PROGRAM_ID, false));
    Some(metas)
}

fn sell_accounts(trade: &V2Trade) -> (r: Option<Vec<AccountMeta>>)
    ensures
        match r {
            Some(metas) => sell_v2_accounts(trade) == Some(metas@),
            None => sell_v2_accounts(trade) is None,
        },
{
    let a = V2TradeAccounts::derive(trade)?;
    let (global, _) = pda::pump::global()?;
    let (sharing_config, _) = pda::pump::sharing_config(&trade.base_mint)?;
    let (fee_config, _) = pda::pump::fee_config()?;
    let (event_authority, _) = pda::pump::event_authority()?;
    let mut metas = common_accounts(trade, &a, global, sharing_config);
    metas.push(AccountMeta::new(a.user_volume_accumulator, false));
    metas.push(AccountMeta::new(a.associated_user_volume_accumulator, false));
    metas.push(AccountMeta::new_readonly(fee_config, false));
    metas.push(AccountMeta::new_readonly(FEE_PROGRAM_ID, false));
    metas.push(AccountMeta::new_readonly(SYSTEM_PROGRAM_ID, false));
    metas.push(AccountMeta::new_readonly(event_authority, false));
    metas.push(AccountMeta::new_readonly(PROGRAM_ID, false));
    Some(metas)
}

/// A call of the bonding-curve program, where its accounts exist.
pub open spec fn pump_call(accounts: Option<Seq<AccountMeta>>, data: Seq<u8>) -> Option<
    InstructionView,
> {
    match accounts {
        Some(accounts) => Some(InstructionView { program_id: PROGRAM_ID, accounts, data }),
        None => None,
    }
}

/// Buys `amount` tokens for at most `max_sol_cost`.
pub open spec fn buy_v2_view(trade: &V2Trade, amount: u64, max_sol_cost: u64) -> Option<
    InstructionView,
> {
    pump_call(buy_v2_accounts(trade), amounts_bytes(BUY_V2, amount, max_sol_cost))
}

/// Spends exactly `spendable` for at least `min_tokens_out` tokens.
pub open spec fn buy_exact_quote_in_v2_view(
    trade: &V2Trade,
    spendable: u64,
    min_tokens_out: u64,
) -> Option<InstructionView> {
    pump_call(
        buy_v2_accounts(trade),
        amounts_bytes(BUY_EXACT_QUOTE_IN_V2, spendable, min_tokens_out),
    )
}

/// Sells `amount` tokens for at least `min_sol_output`.
pub open spec fn sell_v2_view(trade: &V2Trade, amount: u64, min_sol_output: u64) -> Option<
    InstructionView,
> {
    pump_call(sell_v2_accounts(trade), amounts_bytes(SELL_V2, amount, min_sol_output))
}

/// The trade of `user` on `curve` with the given recipients.
pub open spec fn trade_on(
    curve: &BondingCurve,
    base_mint: Pubkey,
    quote_token_program: Pubkey,
    user: Pubkey,
    fee_recipient: Pubkey,
    buyback_fee_recipient: Pubkey,
) -> V2Trade {
    V2Trade {
        base_mint,
        quote_mint: curve.quote_mint,
        quote_token_program,
        user,
        creator: curve.creator,
        fee_recipient,
        buyback_fee_recipient,
    }
}

impl PumpSdk {
    /// `buy_v2` with given recipients.
    pub fn buy_v2_instruction_with_recipients(
        &self,
        trade: &V2Trade,
        amount: u64,
        max_sol_cost: u64,
    ) -> (r: Option<Instruction>)
        ensures
            view_of(r) == buy_v2_view(trade, amount, max_sol_cost),
    {
        let accounts = buy_accounts(trade)?;
        let data = amounts_data(&BUY_V2, amount, max_sol_cost);
        Some(Instruction { program_id: PROGRAM_ID, accounts, data })
    }

    /// `buy_exact_quote_in_v2` with given recipients.
    pub fn buy_exact_quote_in_v2_instruction_with_recipients(
        &self,
        trade: &V2Trade,
        spendable_quote_in: u64,
        min_tokens_out: u64,
    ) -> (r: Option<Instruction>)
        ensures
            view_of(r) == buy_exact_quote_in_v2_view(trade, spendable_quote_in, min_tokens_out),
    {
        let accounts = buy_accounts(trade)?;
        let data = amounts_data(&BUY_EXACT_QUOTE_IN_V2, spendable_quote_in, min_tokens_out);
        Some(Instruction { program_id: PROGRAM_ID, accounts, data })
    }

    /// `sell_v2` with given recipients.
    pub fn sell_v2_instruction_with_recipients(
        &self,
        trade: &V2Trade,
        amount: u64,
        min_sol_output: u64,
    ) -> (r: Option<Instruction>)
        ensures
            view_of(r) == sell_v2_view(trade, amount, min_sol_output),
    {
        let accounts = sell_accounts(trade)?;
        let data = amounts_data(&SELL_V2, amount, min_sol_output);
        Some(Instruction { program_id: PROGRAM_ID, accounts, data })
    }

    /// `buy_v2` with recipients picked from `global`.
    pub fn buy_v2_instruction(
        &self,
        global: &Global,
        bonding_curve: &BondingCurve,
        base_mint: Pubkey,
        quote_token_program: Pubkey,
        user: Pubkey,
        amount: u64,
        max_quote_tokens: u64,
    ) -> (r: Option<Instruction>)
        ensures
            built_with_recipients(
                global,
                bonding_curve.is_mayhem_mode,
                |fee: Pubkey, buyback: Pubkey|
                    buy_v2_view(
                        &trade_on(
                            bonding_curve,
                            base_mint,
                            quote_token_program,
                            user,
                            fee,
                            buyback,
                        ),
                        amount,
                        max_quote_tokens,
                    ),
                view_of(r),
            ),
    {
        let (fee_recipient, buyback_fee_recipient) = Self::pump_fee_recipients_pair(
            global,
            bonding_curve.is_mayhem_mode,
        )?;
        let trade = V2Trade {
            base_mint,
            quote_mint: bonding_curve.quote_mint,
            quote_token_program,
            user,
            creator: bonding_curve.creator,
            fee_recipient,
            buyback_fee_recipient,
        };
        self.buy_v2_instruction_with_recipients(&trade, amount, max_quote_tokens)
    }

    /// `buy_exact_quote_in_v2` with recipients picked from `global`.
    pub fn buy_exact_quote_in_v2_instruction(
        &self,
        global: &Global,
        bonding_curve: &BondingCurve,
        base_mint: Pubkey,
        quote_token_program: Pubkey,
        user: Pubkey,
        spendable_quote_in: u64,
        min_tokens_out: u64,
    ) -> (r: Option<Instruction>)
        ensures
            built_with_recipients(
                global,
                bonding_curve.is_mayhem_mode,
                |fee: Pubkey, buyback: Pubkey|
                    buy_exact_quote_in_v2_view(
                        &trade_on(
                            bonding_curve,
                            base_mint,
                            quote_token_program,
                            user,
                            fee,
                            buyback,
                        ),
                        spendable_quote_in,
                        min_tokens_out,
                    ),
                view_of(r),
            ),
    {
        let (fee_recipient, buyback_fee_recipient) = Self::pump_fee_recipients_pair(
            global,
            bonding_curve.is_mayhem_mode,
        )?;
        let trade = V2Trade {
            base_mint,
            quote_mint: bonding_curve.quote_mint,
            quote_token_program,
            user,
            creator: bonding_curve.creator,
            fee_recipient,
            buyback_fee_recipient,
        };
        self.buy_exact_quote_in_v2_instruction_with_recipients(
            &trade,
            spendable_quote_in,
            min_tokens_out,
        )
    }

    /// `sell_v2` with recipients picked from `global`.
    pub fn sell_v2_instruction(
        &self,
        global: &Global,
        bonding_curve: &BondingCurve,
        base_mint: Pubkey,
        quote_token_program: Pubkey,
        user: Pubkey,
        amount: u64,
        min_sol_output: u64,
    ) -> (r: Option<Instruction>)
        ensures
            built_with_recipients(
                global,
                bonding_curve.is_mayhem_mode,
                |fee: Pubkey, buyback: Pubkey|
                    sell_v2_view(
                        &trade_on(
                            bonding_curve,
                            base_mint,
                            quote_token_program,
                            user,
                            fee,
                            buyback,
                        ),
                        amount,
                        min_sol_output,
                    ),
                view_of(r),
            ),
    {
        let (fee_recipient, buyback_fee_recipient) = Self::pump_fee_recipients_pair(
            global,
            bonding_curve.is_mayhem_mode,
        )?;
        let trade = V2Trade {
            base_mint,
            quote_mint: bonding_curve.quote_mint,
            quote_token_program,
            user,
            creator: bonding_curve.creator,
            fee_recipient,
            buyback_fee_recipient,
        };
        self.sell_v2_instruction_with_recipients(&trade, amount, min_sol_output)
    }
}

/// Whether a curve is quoted in something else than SOL.
pub open spec fn has_other_quote(curve: &BondingCurve) -> bool {
    curve.quote_mint != DEFAULT_KEY && curve.quote_mint != NATIVE_MINT
}

/// The token accounts created before a trade: the user's base account on a buy, and
/// for a curve quoted in something else than SOL the quote accounts of the user, the
/// creator's vault and the curve, and for a cashback coin that of the user's volume
/// accumulator.
pub open spec fn trade_atas(
    user: Pubkey,
    base_mint: Pubkey,
    curve: &BondingCurve,
    base_token_program: Pubkey,
    quote_token_program: Pubkey,
    include_base: bool,
) -> Option<Seq<InstructionView>> {
    let base = if include_base {
        followed_by(none_yet(), created(user, user, base_mint, base_token_program))
    } else {
        none_yet()
    };
    if !has_other_quote(curve) {
        base
    } else {
        let of_user = created(user, user, curve.quote_mint, quote_token_program);
        let of_vault = match pda::pump::creator_vault_pda(curve.creator) {
            Some((vault, _)) => created(user, vault, curve.quote_mint, quote_token_program),
            None => None,
        };
        let of_curve = match pda::pump::bonding_curve_pda(base_mint) {
            Some((owner, _)) => created(user, owner, curve.quote_mint, quote_token_program),
            None => None,
        };
        let of_accumulator = match pda::pump::user_volume_accumulator_pda(user) {
            Some((owner, _)) => created(user, owner, curve.quote_mint, quote_token_program),
            None => None,
        };
        let quote = followed_by(followed_by(followed_by(base, of_user), of_vault), of_curve);
        if curve.is_cashback_coin {
            followed_by(quote, of_accumulator)
        } else {
            quote
        }
    }
}

/// The token accounts created before a trade.
pub fn user_trade_atas(
    user: Pubkey,
    base_mint: Pubkey,
    bonding_curve: &BondingCurve,
    base_token_program: Pubkey,
    quote_token_program: Pubkey,
    include_base: bool,
) -> (r: Option<Vec<Instruction>>)
    ensures
        views_of(r) == trade_atas(
            user,
            base_mint,
            bonding_curve,
            base_token_program,
            quote_token_program,
            include_base,
        ),
{
    broadcast use group_views;

    let mut ixs: Vec<Instruction> = Vec::new();
    let quote_mint = bonding_curve.quote_mint;
    if include_base {
        ixs.push(
            create_associated_token_account_idempotent(
                &user,
                &user,
                &base_mint,
                &base_token_program,
            )?,
        );
    }
    if !is_default_key(&quote_mint) && !same_key(&quote_mint, &NATIVE_MINT) {
        ixs.push(
            create_associated_token_account_idempotent(
                &user,
                &user,
                &quote_mint,
                &quote_token_program,
            )?,
        );
        let (vault, _) = pda::pump::creator_vault(&bonding_curve.creator)?;
        ixs.push(
            create_associated_token_account_idempotent(
                &user,
                &vault,
                &quote_mint,
                &quote_token_program,
            )?,
        );
        let (curve_owner, _) = pda::pump::bonding_curve(&base_mint)?;
        ixs.push(
            create_associated_token_account_idempotent(
                &user,
                &curve_owner,
                &quote_mint,
                &quote_token_program,
            )?,
        );
        if bonding_curve.is_cashback_coin {
            let (accumulator, _) = pda::pump::user_volume_accumulator(&user)?;
            ixs.push(
                create_associated_token_account_idempotent(
                    &user,
                    &accumulator,
                    &quote_mint,
                    &quote_token_program,
                )?,
            );
        }
    }
    Some(ixs)
}

/// What [`PumpSdk::buy_v2_instructions`] gives for the given recipients: the token
/// accounts, then the trade.
pub open spec fn buy_v2_instructions_views(
    curve: &BondingCurve,
    base_mint: Pubkey,
    quote_token_program: Pubkey,
    user: Pubkey,
    fee_recipient: Pubkey,
    buyback_fee_recipient: Pubkey,
    amount: u64,
    max_quote_tokens: u64,
) -> Option<Seq<InstructionView>> {
    followed_by(
        trade_atas(
            user,
            base_mint,
            curve,
            SPL_TOKEN_2022_PROGRAM_ID,
            quote_token_program,
            true,
        ),
        buy_v2_view(
            &trade_on(
                curve,
                base_mint,
                quote_token_program,
                user,
                fee_recipient,
                buyback_fee_recipient,
            ),
            amount,
            max_quote_tokens,
        ),
    )
}

impl PumpSdk {
    /// `buy_v2` after the token accounts it needs, with given recipients.
    pub fn buy_v2_instructions_with_recipients(
        &self,
        bonding_curve: &BondingCurve,
        base_mint: Pubkey,
        quote_token_program: Pubkey,
        user: Pubkey,
        fee_recipient: Pubkey,
        buyback_fee_recipient: Pubkey,
        amount: u64,
        max_quote_tokens: u64,
    ) -> (r: Option<Vec<Instruction>>)
        ensures
            views_of(r) == buy_v2_instructions_views(
                bonding_curve,
                base_mint,
                quote_token_program,
                user,
                fee_recipient,
                buyback_fee_recipient,
                amount,
                max_quote_tokens,
            ),
    {
        let atas = user_trade_atas(
            user,
            base_mint,
            bonding_curve,
            SPL_TOKEN_2022_PROGRAM_ID,
            quote_token_program,
            true,
        );
        let trade = V2Trade {
            base_mint,
            quote_mint: bonding_curve.quote_mint,
            quote_token_program,
            user,
            creator: bonding_curve.creator,
            fee_recipient,
            buyback_fee_recipient,
        };
        let last = self.buy_v2_instruction_with_recipients(&trade, amount, max_quote_tokens);
        extend_with(atas, last)
    }

    /// `buy_v2` after the token accounts it needs, with recipients picked from `global`.
    pub fn buy_v2_instructions(
        &self,
        global: &Global,
        bonding_curve: &BondingCurve,
        base_mint: Pubkey,
        quote_token_program: Pubkey,
        user: Pubkey,
        amount: u64,
        max_quote_tokens: u64,
    ) -> (r: Option<Vec<Instruction>>)
        ensures
            built_with_recipients(
                global,
                bonding_curve.is_mayhem_mode,
                |fee: Pubkey, buyback: Pubkey|
                    buy_v2_instructions_views(
                        bonding_curve,
                        base_mint,
                        quote_token_program,
                        user,
                        fee,
                        buyback,
                        amount,
                        max_quote_tokens,
                    ),
                views_of(r),
            ),
    {
        let (fee_recipient, buyback_fee_recipient) = Self::pump_fee_recipients_pair(
            global,
            bonding_curve.is_mayhem_mode,
        )?;
        self.buy_v2_instructions_with_recipients(
            bonding_curve,
            base_mint,
            quote_token_program,
            user,
            fee_recipient,
            buyback_fee_recipient,
            amount,
            max_quote_tokens,
        )
    }
}

/// What [`PumpSdk::buy_exact_quote_in_v2_instructions`] gives for the given recipients: the token
/// accounts, then the trade.
pub open spec fn buy_exact_quote_in_v2_instructions_views(
    curve: &BondingCurve,
    base_mint: Pubkey,
    quote_token_program: Pubkey,
    user: Pubkey,
    fee_recipient: Pubkey,
    buyback_fee_recipient: Pubkey,
    spendable_quote_in: u64,
    min_tokens_out: u64,
) -> Option<Seq<InstructionView>> {
    followed_by(
        trade_atas(
            user,
            base_mint,
            curve,
            SPL_TOKEN_2022_PROGRAM_ID,
            quote_token_program,
            true,
        ),
        buy_exact_quote_in_v2_view(
            &trade_on(
                curve,
                base_mint,
                quote_token_program,
                user,
                fee_recipient,
                buyback_fee_recipient,
            ),
            spendable_quote_in,
            min_tokens_out,
        ),
    )
}

impl PumpSdk {
    /// `buy_exact_quote_in_v2` after the token accounts it needs, with given recipients.
    pub fn buy_exact_quote_in_v2_instructions_with_recipients(
        &self,
        bonding_curve: &BondingCurve,
        base_mint: Pubkey,
        quote_token_program: Pubkey,
        user: Pubkey,
        fee_recipient: Pubkey,
        buyback_fee_recipient: Pubkey,
        spendable_quote_in: u64,
        min_tokens_out: u64,
    ) -> (r: Option<Vec<Instruction>>)
        ensures
            views_of(r) == buy_exact_quote_in_v2_instructions_views(
                bonding_curve,
                base_mint,
                quote_token_program,
                user,
                fee_recipient,
                buyback_fee_recipient,
                spendable_quote_in,
                min_tokens_out,
            ),
    {
        let atas = user_trade_atas(
            user,
            base_mint,
            bonding_curve,
            SPL_TOKEN_2022_PROGRAM_ID,
            quote_token_program,
            true,
        );
        let trade = V2Trade {
            base_mint,
            quote_mint: bonding_curve.quote_mint,
            quote_token_program,
            user,
            creator: bonding_curve.creator,
            fee_recipient,
            buyback_fee_recipient,
        };
        let last = self.buy_exact_quote_in_v2_instruction_with_recipients(&trade, spendable_quote_in, min_tokens_out);
        extend_with(atas, last)
    }

    /// `buy_exact_quote_in_v2` after the token accounts it needs, with recipients picked from `global`.
    pub fn buy_exact_quote_in_v2_instructions(
        &self,
        global: &Global,
        bonding_curve: &BondingCurve,
        base_mint: Pubkey,
        quote_token_program: Pubkey,
        user: Pubkey,
        spendable_quote_in: u64,
        min_tokens_out: u64,
    ) -> (r: Option<Vec<Instruction>>)
        ensures
            built_with_recipients(
                global,
                bonding_curve.is_mayhem_mode,
                |fee: Pubkey, buyback: Pubkey|
                    buy_exact_quote_in_v2_instructions_views(
                        bonding_curve,
                        base_mint,
                        quote_token_program,
                        user,
                        fee,
                        buyback,
                        spendable_quote_in,
                        min_tokens_out,
                    ),
                views_of(r),
            ),
    {
        let (fee_recipient, buyback_fee_recipient) = Self::pump_fee_recipients_pair(
            global,
            bonding_curve.is_mayhem_mode,
        )?;
        self.buy_exact_quote_in_v2_instructions_with_recipients(
            bonding_curve,
            base_mint,
            quote_token_program,
            user,
            fee_recipient,
            buyback_fee_recipient,
            spendable_quote_in,
            min_tokens_out,
        )
    }
}

/// What [`PumpSdk::sell_v2_instructions`] gives for the given recipients: the token
/// accounts, then the trade.
pub open spec fn sell_v2_instructions_views(
    curve: &BondingCurve,
    base_mint: Pubkey,
    quote_token_program: Pubkey,
    user: Pubkey,
    fee_recipient: Pubkey,
    buyback_fee_recipient: Pubkey,
    amount: u64,
    min_sol_output: u64,
) -> Option<Seq<InstructionView>> {
    followed_by(
        trade_atas(
            user,
            base_mint,
            curve,
            SPL_TOKEN_2022_PROGRAM_ID,
            quote_token_program,
            false,
        ),
        sell_v2_view(
            &trade_on(
                curve,
                base_mint,
                quote_token_program,
                user,
                fee_recipient,
                buyback_fee_recipient,
            ),
            amount,
            min_sol_output,
        ),
    )
}

impl PumpSdk {
    /// `sell_v2` after the token accounts it needs; the base account is not created, with given recipients.
    pub fn sell_v2_instructions_with_recipients(
        &self,
        bonding_curve: &BondingCurve,
        base_mint: Pubkey,
        quote_token_program: Pubkey,
        user: Pubkey,
        fee_recipient: Pubkey,
        buyback_fee_recipient: Pubkey,
        amount: u64,
        min_sol_output: u64,
    ) -> (r: Option<Vec<Instruction>>)
        ensures
            views_of(r) == sell_v2_instructions_views(
                bonding_curve,
                base_mint,
                quote_token_program,
                user,
                fee_recipient,
                buyback_fee_recipient,
                amount,
                min_sol_output,
            ),
    {
        let atas = user_trade_atas(
            user,
            base_mint,
            bonding_curve,
            SPL_TOKEN_2022_PROGRAM_ID,
            quote_token_program,
            false,
        );
        let trade = V2Trade {
            base_mint,
            quote_mint: bonding_curve.quote_mint,
            quote_token_program,
            user,
            creator: bonding_curve.creator,
            fee_recipient,
            buyback_fee_recipient,
        };
        let last = self.sell_v2_instruction_with_recipients(&trade, amount, min_sol_output);
        extend_with(atas, last)
    }

    /// `sell_v2` after the token accounts it needs; the base account is not created, with recipients picked from `global`.
    pub fn sell_v2_instructions(
        &self,
        global: &Global,
        bonding_curve: &BondingCurve,
        base_mint: Pubkey,
        quote_token_program: Pubkey,
        user: Pubkey,
        amount: u64,
        min_sol_output: u64,
    ) -> (r: Option<Vec<Instruction>>)
        ensures
            built_with_recipients(
                global,
                bonding_curve.is_mayhem_mode,
                |fee: Pubkey, buyback: Pubkey|
                    sell_v2_instructions_views(
                        bonding_curve,
                        base_mint,
                        quote_token_program,
                        user,
                        fee,
                        buyback,
                        amount,
                        min_sol_output,
                    ),
                views_of(r),
            ),
    {
        let (fee_recipient, buyback_fee_recipient) = Self::pump_fee_recipients_pair(
            global,
            bonding_curve.is_mayhem_mode,
        )?;
        self.sell_v2_instructions_with_recipients(
            bonding_curve,
            base_mint,
            quote_token_program,
            user,
            fee_recipient,
            buyback_fee_recipient,
            amount,
            min_sol_output,
        )
    }
}

} // verus!
