//! AMM instructions.

use vstd::prelude::*;

use crate::constants::pump_amm::PROGRAM_ID;
use crate::constants::{FEE_PROGRAM_ID, NATIVE_MINT, SPL_ATA_PROGRAM_ID, SYSTEM_PROGRAM_ID};
use crate::instruction::{
    extend_with, followed_by, group_views, none_yet, readonly, signing, view_of, views_of,
    writable, AccountMeta, Instruction, InstructionView,
};
use crate::pda;
use crate::pda::address_of;
use crate::pubkey::{is_default_key, Pubkey, DEFAULT_KEY};
use crate::sdk::encoding::{
    amounts_bytes, amounts_data, amounts_flag_data, flag_byte, BUY, SELL,
};
use crate::sdk::pump_v2::ata;
use crate::sdk::recipients::built_with_amm_recipients;
use crate::sdk::PumpSdk;
use crate::state::pump_amm::{GlobalConfig, Pool};
use crate::token::{create_associated_token_account_idempotent, created};

verus! {

/// Who trades what in a pool.
#[derive(Clone, Copy, Debug)]
pub struct AmmTrade {
    pub pool: Pubkey,
    pub base_mint: Pubkey,
    pub quote_mint: Pubkey,
    pub base_token_program: Pubkey,
    pub quote_token_program: Pubkey,
    pub user: Pubkey,
    pub coin_creator: Pubkey,
    pub protocol_fee_recipient: Pubkey,
    pub buyback_fee_recipient: Pubkey,
    pub is_cashback_coin: bool,
}

/// The addresses that buys and sells share.
#[derive(Clone, Copy, Debug)]
pub struct AmmTradeAccounts {
    pub coin_creator_vault_authority: Pubkey,
    pub user_volume_accumulator: Pubkey,
    pub user_base_token_account: Pubkey,
    pub user_quote_token_account: Pubkey,
    pub pool_base_token_account: Pubkey,
    pub pool_quote_token_account: Pubkey,
    pub protocol_fee_recipient_token_account: Pubkey,
    pub coin_creator_vault_ata: Pubkey,
}

impl AmmTrade {
    /// The addresses of the trade, where each exists.
    pub open spec fn accounts(&self) -> Option<AmmTradeAccounts> {
        match (
            address_of(pda::pump_amm::coin_creator_vault_authority_pda(self.coin_creator)),
            address_of(pda::pump_amm::user_volume_accumulator_pda(self.user)),
            ata(self.user, self.base_token_program, self.base_mint),
            ata(self.user, self.quote_token_program, self.quote_mint),
            ata(self.pool, self.base_token_program, self.base_mint),
            ata(self.pool, self.quote_token_program, self.quote_mint),
            ata(self.protocol_fee_recipient, self.quote_token_program, self.quote_mint),
        ) {
            (
                Some(authority),
                Some(user_volume_accumulator),
                Some(user_base),
                Some(user_quote),
                Some(pool_base),
                Some(pool_quote),
                Some(recipient),
            ) => match ata(authority, self.quote_token_program, self.quote_mint) {
                Some(vault) => Some(
                    AmmTradeAccounts {
                        coin_creator_vault_authority: authority,
                        user_volume_accumulator,
                        user_base_token_account: user_base,
                        user_quote_token_account: user_quote,
                        pool_base_token_account: pool_base,
                        pool_quote_token_account: pool_quote,
                        protocol_fee_recipient_token_account: recipient,
                        coin_creator_vault_ata: vault,
                    },
                ),
                None => None,
            },
            _ => None,
        }
    }

    /// The buyback recipient's token account, and for a coin with a creator the
    /// second pool account: what ends the accounts of every trade.
    pub open spec fn tail(&self, recipient: AccountMeta) -> Option<Seq<AccountMeta>> {
        match (
            ata(self.buyback_fee_recipient, self.quote_token_program, self.quote_mint),
            address_of(pda::pump_amm::pool_v2_pda(self.base_mint)),
        ) {
            (None, _) => None,
            (Some(account), pool_v2) => if self.coin_creator == DEFAULT_KEY {
                Some(seq![recipient, writable(account)])
            } else {
                match pool_v2 {
                    Some(pool_v2) => Some(seq![readonly(pool_v2), recipient, writable(account)]),
                    None => None,
                }
            },
        }
    }
}

impl AmmTradeAccounts {
    /// Derives the addresses of a trade.
    pub fn derive(trade: &AmmTrade) -> (r: Option<Self>)
        ensures
            r == trade.accounts(),
    {
        let (authority, _) = pda::pump_amm::coin_creator_vault_authority(&trade.coin_creator)?;
        let (user_volume_accumulator, _) = pda::pump_amm::user_volume_accumulator(&trade.user)?;
        let (user_base, _) = pda::associated_token(
            &trade.user,
            &trade.base_token_program,
            &trade.base_mint,
        )?;
        let (user_quote, _) = pda::associated_token(
            &trade.user,
            &trade.quote_token_program,
            &trade.quote_mint,
        )?;
        let (pool_base, _) = pda::associated_token(
            &trade.pool,
            &trade.base_token_program,
            &trade.base_mint,
        )?;
        let (pool_quote, _) = pda::associated_token(
            &trade.pool,
            &trade.quote_token_program,
            &trade.quote_mint,
        )?;
        let (recipient, _) = pda::associated_token(
            &trade.protocol_fee_recipient,
            &trade.quote_token_program,
            &trade.quote_mint,
        )?;
        let (vault, _) = pda::associated_token(
            &authority,
            &trade.quote_token_program,
            &trade.quote_mint,
        )?;
        Some(
            AmmTradeAccounts {
                coin_creator_vault_authority: authority,
                user_volume_accumulator,
                user_base_token_account: user_base,
                user_quote_token_account: user_quote,
                pool_base_token_account: pool_base,
                pool_quote_token_account: pool_quote,
                protocol_fee_recipient_token_account: recipient,
                coin_creator_vault_ata: vault,
            },
        )
    }
}

/// The accounts that buys and sells list first.
pub open spec fn shared_accounts(
    trade: &AmmTrade,
    a: AmmTradeAccounts,
    global_config: Pubkey,
    event_authority: Pubkey,
) -> Seq<AccountMeta> {
    seq![
        writable(trade.pool),
        signing(trade.user),
        readonly(global_config),
        readonly(trade.base_mint),
        readonly(trade.quote_mint),
        writable(a.user_base_token_account),
        writable(a.user_quote_token_account),
        writable(a.pool_base_token_account),
        writable(a.pool_quote_token_account),
        readonly(trade.protocol_fee_recipient),
        writable(a.protocol_fee_recipient_token_account),
        readonly(trade.base_token_program),
        readonly(trade.quote_token_program),
        readonly(SYSTEM_PROGRAM_ID),
        readonly(SPL_ATA_PROGRAM_ID),
        readonly(event_authority),
        readonly(PROGRAM_ID),
        writable(a.coin_creator_vault_ata),
        readonly(a.coin_creator_vault_authority),
    ]
}

/// The accounts of a buy. A cashback coin adds the wrapped-SOL account of the user's
/// volume accumulator before the tail.
pub open spec fn buy_amm_accounts(trade: &AmmTrade) -> Option<Seq<AccountMeta>> {
    match (
        trade.accounts(),
        address_of(pda::pump_amm::global_config_pda()),
        address_of(pda::pump_amm::event_authority_pda()),
        address_of(pda::pump_amm::global_volume_accumulator_pda()),
        address_of(pda::pump_amm::fee_config_pda()),
        trade.tail(writable(trade.buyback_fee_recipient)),
    ) {
        (
            Some(a),
            Some(global_config),
            Some(event_authority),
            Some(global_volume_accumulator),
            Some(fee_config),
            Some(tail),
        ) => {
            let declared = shared_accounts(trade, a, global_config, event_authority) + seq![
                readonly(global_volume_accumulator),
                writable(a.user_volume_accumulator),
                readonly(fee_config),
                readonly(FEE_PROGRAM_ID),
            ];
            if trade.is_cashback_coin {
                match ata(a.user_volume_accumulator, trade.quote_token_program, NATIVE_MINT) {
                    Some(cashback) => Some(declared.push(writable(cashback)) + tail),
                    None => None,
                }
            } else {
                Some(declared + tail)
            }
        },
        _ => None,
    }
}

/// The accounts of a sell. A cashback coin adds the quote account of the user's
/// volume accumulator and the accumulator before the tail; the buyback recipient is
/// only read.
pub open spec fn sell_amm_accounts(trade: &AmmTrade) -> Option<Seq<AccountMeta>> {
    match (
        trade.accounts(),
        address_of(pda::pump_amm::global_config_pda()),
        address_of(pda::pump_amm::event_authority_pda()),
        address_of(pda::pump_amm::fee_config_pda()),
        trade.tail(readonly(trade.buyback_fee_recipient)),
    ) {
        (
            Some(a),
            Some(global_config),
            Some(event_authority),
            Some(fee_config),
            Some(tail),
        ) => {
            let declared = shared_accounts(trade, a, global_config, event_authority) + seq![
                readonly(fee_config),
                readonly(FEE_PROGRAM_ID),
            ];
            if trade.is_cashback_coin {
                match ata(
                    a.user_volume_accumulator,
                    trade.quote_token_program,
                    trade.quote_mint,
                ) {
                    Some(cashback) => Some(
                        declared.push(writable(cashback)).push(
                            writable(a.user_volume_accumulator),
                        ) + tail,
                    ),
                    None => None,
                }
            } else {
                Some(declared + tail)
            }
        },
        _ => None,
    }
}

fn shared_metas(
    trade: &AmmTrade,
    a: &AmmTradeAccounts,
    global_config: Pubkey,
    event_authority: Pubkey,
) -> (r: Vec<AccountMeta>)
    ensures
        r@ == shared_accounts(trade, *a, global_config, event_authority),
{
    let mut metas: Vec<AccountMeta> = Vec::new();
    metas.push(AccountMeta::new(trade.pool, false));
    metas.push(AccountMeta::new(trade.user, true));
    metas.push(AccountMeta::new_readonly(global_config, false));
    metas.push(AccountMeta::new_readonly(trade.base_mint, false));
    metas.push(AccountMeta::new_readonly(trade.quote_mint, false));
    metas.push(AccountMeta::new(a.user_base_token_account, false));
    metas.push(AccountMeta::new(a.user_quote_token_account, false));
    metas.push(AccountMeta::new(a.pool_base_token_account, false));
    metas.push(AccountMeta::new(a.pool_quote_token_account, false));
    metas.push(AccountMeta::new_readonly(trade.protocol_fee_recipient, false));
    metas.push(AccountMeta::new(a.protocol_fee_recipient_token_account, false));
    metas.push(AccountMeta::new_readonly(trade.base_token_program, false));
    metas.push(AccountMeta::new_readonly(trade.quote_token_program, false));
    metas.push(AccountMeta::new_readonly(SYSTEM_PROGRAM_ID, false));
    metas.push(AccountMeta::new_readonly(SPL_ATA_PROGRAM_ID, false));
    metas.push(AccountMeta::new_readonly(event_authority, false));
    metas.push(AccountMeta::new_readonly(PROGRAM_ID, false));
    metas.push(AccountMeta::new(a.coin_creator_vault_ata, false));
    metas.push(AccountMeta::new_readonly(a.coin_creator_vault_authority, false));
    metas
}

/// Adds the tail of a trade to its accounts.
fn with_tail(trade: &AmmTrade, metas: Vec<AccountMeta>, recipient: AccountMeta) -> (r: Option<
    Vec<AccountMeta>,
>)
    ensures
        match r {
            Some(all) => trade.tail(recipient) is Some && all@ == metas@ + trade.tail(
                recipient,
            ).unwrap(),
            None => trade.tail(recipient) is None,
        },
{
    let mut metas = metas;
    let ghost before = metas@;
    let (account, _) = pda::associated_token(
        &trade.buyback_fee_recipient,
        &trade.quote_token_program,
        &trade.quote_mint,
    )?;
    if !is_default_key(&trade.coin_creator) {
        let (pool_v2, _) = pda::pump_amm::pool_v2(&trade.base_mint)?;
        metas.push(AccountMeta::new_readonly(pool_v2, false));
    }
    metas.push(recipient);
    metas.push(AccountMeta::new(account, false));
    assert(metas@ =~= before + trade.tail(recipient).unwrap());
    Some(metas)
}

fn buy_metas(trade: &AmmTrade) -> (r: Option<Vec<AccountMeta>>)
    ensures
        match r {
            Some(metas) => buy_amm_accounts(trade) == Some(metas@),
            None => buy_amm_accounts(trade) is None,
        },
{
    let a = AmmTradeAccounts::derive(trade)?;
    let (global_config, _) = pda::pump_amm::global_config()?;
    let (event_authority, _) = pda::pump_amm::event_authority()?;
    let (global_volume_accumulator, _) = pda::pump_amm::global_volume_accumulator()?;
    let (fee_config, _) = pda::pump_amm::fee_config()?;
    let mut metas = shared_metas(trade, &a, global_config, event_authority);
    let ghost shared = metas@;
    metas.push(AccountMeta::new_readonly(global_volume_accumulator, false));
    metas.push(AccountMeta::new(a.user_volume_accumulator, false));
    metas.push(AccountMeta::new_readonly(fee_config, false));
    metas.push(AccountMeta::new_readonly(FEE_PROGRAM_ID, false));
    assert(metas@ =~= shared + seq![
        readonly(global_volume_accumulator),
        writable(a.user_volume_accumulator),
        readonly(fee_config),
        readonly(FEE_PROGRAM_ID),
    ]);
    if trade.is_cashback_coin {
        let (cashback, _) = pda::associated_token(
            &a.user_volume_accumulator,
            &trade.quote_token_program,
            &NATIVE_MINT,
        )?;
        metas.push(AccountMeta::new(cashback, false));
    }
    with_tail(trade, metas, AccountMeta::new(trade.buyback_fee_recipient, false))
}

fn sell_metas(trade: &AmmTrade) -> (r: Option<Vec<AccountMeta>>)
    ensures
        match r {
            Some(metas) => sell_amm_accounts(trade) == Some(metas@),
            None => sell_amm_accounts(trade) is None,
        },
{
    let a = AmmTradeAccounts::derive(trade)?;
    let (global_config, _) = pda::pump_amm::global_config()?;
    let (event_authority, _) = pda::pump_amm::event_authority()?;
    let (fee_config, _) = pda::pump_amm::fee_config()?;
    let mut metas = shared_metas(trade, &a, global_config, event_authority);
    let ghost shared = metas@;
    metas.push(AccountMeta::new_readonly(fee_config, false));
    metas.push(AccountMeta::new_readonly(FEE_PROGRAM_ID, false));
    assert(metas@ =~= shared + seq![readonly(fee_config), readonly(FEE_PROGRAM_ID)]);
    if trade.is_cashback_coin {
        let (cashback, _) = pda::associated_token(
            &a.user_volume_accumulator,
            &trade.quote_token_program,
            &trade.quote_mint,
        )?;
        metas.push(AccountMeta::new(cashback, false));
        metas.push(AccountMeta::new(a.user_volume_accumulator, false));
    }
    with_tail(trade, metas, AccountMeta::new_readonly(trade.buyback_fee_recipient, false))
}

/// A call of the AMM program, where its accounts exist.
pub open spec fn amm_call(accounts: Option<Seq<AccountMeta>>, data: Seq<u8>) -> Option<
    InstructionView,
> {
    match accounts {
        Some(accounts) => Some(InstructionView { program_id: PROGRAM_ID, accounts, data }),
        None => None,
    }
}

/// Buys `base_amount_out` tokens for at most `max_quote_amount_in`, with volume tracking.
pub open spec fn buy_amm_view(
    trade: &AmmTrade,
    base_amount_out: u64,
    max_quote_amount_in: u64,
) -> Option<InstructionView> {
    amm_call(
        buy_amm_accounts(trade),
        amounts_bytes(BUY, base_amount_out, max_quote_amount_in).push(flag_byte(true)),
    )
}

/// Sells `base_amount_in` tokens for at least `min_quote_amount_out`.
pub open spec fn sell_amm_view(
    trade: &AmmTrade,
    base_amount_in: u64,
    min_quote_amount_out: u64,
) -> Option<InstructionView> {
    amm_call(
        sell_amm_accounts(trade),
        amounts_bytes(SELL, base_amount_in, min_quote_amount_out),
    )
}

/// The trade of `user` in `pool` with the given recipients.
pub open spec fn trade_in(
    pool: Pubkey,
    pool_state: &Pool,
    base_token_program: Pubkey,
    quote_token_program: Pubkey,
    user: Pubkey,
    protocol_fee_recipient: Pubkey,
    buyback_fee_recipient: Pubkey,
) -> AmmTrade {
    AmmTrade {
        pool,
        base_mint: pool_state.base_mint,
        quote_mint: pool_state.quote_mint,
        base_token_program,
        quote_token_program,
        user,
        coin_creator: pool_state.coin_creator,
        protocol_fee_recipient,
        buyback_fee_recipient,
        is_cashback_coin: pool_state.is_cashback_coin,
    }
}

/// The trade of `user` in `pool` with the given recipients.
pub fn trade_in_pool(
    pool: Pubkey,
    pool_state: &Pool,
    base_token_program: Pubkey,
    quote_token_program: Pubkey,
    user: Pubkey,
    protocol_fee_recipient: Pubkey,
    buyback_fee_recipient: Pubkey,
) -> (r: AmmTrade)
    ensures
        r == trade_in(
            pool,
            pool_state,
            base_token_program,
            quote_token_program,
            user,
            protocol_fee_recipient,
            buyback_fee_recipient,
        ),
{
    AmmTrade {
        pool,
        base_mint: pool_state.base_mint,
        quote_mint: pool_state.quote_mint,
        base_token_program,
        quote_token_program,
        user,
        coin_creator: pool_state.coin_creator,
        protocol_fee_recipient,
        buyback_fee_recipient,
        is_cashback_coin: pool_state.is_cashback_coin,
    }
}

/// The user's base account, then the buy.
pub open spec fn buy_amm_instructions_views(
    trade: &AmmTrade,
    base_amount_out: u64,
    max_quote_amount_in: u64,
) -> Option<Seq<InstructionView>> {
    followed_by(
        followed_by(
            none_yet(),
            created(trade.user, trade.user, trade.base_mint, trade.base_token_program),
        ),
        buy_amm_view(trade, base_amount_out, max_quote_amount_in),
    )
}

/// The user's quote account, then the sell.
pub open spec fn sell_amm_instructions_views(
    trade: &AmmTrade,
    base_amount_in: u64,
    min_quote_amount_out: u64,
) -> Option<Seq<InstructionView>> {
    followed_by(
        followed_by(
            none_yet(),
            created(trade.user, trade.user, trade.quote_mint, trade.quote_token_program),
        ),
        sell_amm_view(trade, base_amount_in, min_quote_amount_out),
    )
}

impl PumpSdk {
    /// AMM `buy` with given recipients.
    pub fn buy_amm_instruction_with_recipients(
        &self,
        trade: &AmmTrade,
        base_amount_out: u64,
        max_quote_amount_in: u64,
    ) -> (r: Option<Instruction>)
        ensures
            view_of(r) == buy_amm_view(trade, base_amount_out, max_quote_amount_in),
    {
        let accounts = buy_metas(trade)?;
        let data = amounts_flag_data(&BUY, base_amount_out, max_quote_amount_in, true);
        Some(Instruction { program_id: PROGRAM_ID, accounts, data })
    }

    /// AMM `sell` with given recipients.
    pub fn sell_amm_instruction_with_recipients(
        &self,
        trade: &AmmTrade,
        base_amount_in: u64,
        min_quote_amount_out: u64,
    ) -> (r: Option<Instruction>)
        ensures
            view_of(r) == sell_amm_view(trade, base_amount_in, min_quote_amount_out),
    {
        let accounts = sell_metas(trade)?;
        let data = amounts_data(&SELL, base_amount_in, min_quote_amount_out);
        Some(Instruction { program_id: PROGRAM_ID, accounts, data })
    }

    /// AMM `buy` with recipients picked from `amm_global`. A pool without a coin
    /// creator leaves out the second pool account.
    pub fn buy_amm_instruction(
        &self,
        pool: Pubkey,
        amm_global: &GlobalConfig,
        pool_state: &Pool,
        base_token_program: Pubkey,
        quote_token_program: Pubkey,
        user: Pubkey,
        base_amount_out: u64,
        max_quote_amount_in: u64,
    ) -> (r: Option<Instruction>)
        ensures
            built_with_amm_recipients(
                amm_global,
                |fee: Pubkey, buyback: Pubkey|
                    buy_amm_view(
                        &trade_in(
                            pool,
                            pool_state,
                            base_token_program,
                            quote_token_program,
                            user,
                            fee,
                            buyback,
                        ),
                        base_amount_out,
                        max_quote_amount_in,
                    ),
                view_of(r),
            ),
    {
        let (fee, buyback) = Self::amm_fee_recipients_pair(amm_global)?;
        let trade = trade_in_pool(
            pool,
            pool_state,
            base_token_program,
            quote_token_program,
            user,
            fee,
            buyback,
        );
        self.buy_amm_instruction_with_recipients(&trade, base_amount_out, max_quote_amount_in)
    }

    /// The user's base account, then the AMM `buy`, with recipients picked from
    /// `amm_global`.
    pub fn buy_amm_instructions(
        &self,
        pool: Pubkey,
        amm_global: &GlobalConfig,
        pool_state: &Pool,
        base_token_program: Pubkey,
        quote_token_program: Pubkey,
        user: Pubkey,
        base_amount_out: u64,
        max_quote_amount_in: u64,
    ) -> (r: Option<Vec<Instruction>>)
        ensures
            built_with_amm_recipients(
                amm_global,
                |fee: Pubkey, buyback: Pubkey|
                    buy_amm_instructions_views(
                        &trade_in(
                            pool,
                            pool_state,
                            base_token_program,
                            quote_token_program,
                            user,
                            fee,
                            buyback,
                        ),
                        base_amount_out,
                        max_quote_amount_in,
                    ),
                views_of(r),
            ),
    {
        let (fee, buyback) = Self::amm_fee_recipients_pair(amm_global)?;
        let trade = trade_in_pool(
            pool,
            pool_state,
            base_token_program,
            quote_token_program,
            user,
            fee,
            buyback,
        );
        let buy = self.buy_amm_instruction_with_recipients(
            &trade,
            base_amount_out,
            max_quote_amount_in,
        );
        let first = create_associated_token_account_idempotent(
            &user,
            &user,
            &pool_state.base_mint,
            &base_token_program,
        );
        broadcast use group_views;

        let list = extend_with(Some(Vec::new()), first);
        extend_with(list, buy)
    }

    /// AMM `sell` with recipients picked from `amm_global`.
    pub fn sell_amm_instruction(
        &self,
        pool: Pubkey,
        amm_global: &GlobalConfig,
        pool_state: &Pool,
        base_token_program: Pubkey,
        quote_token_program: Pubkey,
        user: Pubkey,
        base_amount_in: u64,
        min_quote_amount_out: u64,
    ) -> (r: Option<Instruction>)
        ensures
            built_with_amm_recipients(
                amm_global,
                |fee: Pubkey, buyback: Pubkey|
                    sell_amm_view(
                        &trade_in(
                            pool,
                            pool_state,
                            base_token_program,
                            quote_token_program,
                            user,
                            fee,
                            buyback,
                        ),
                        base_amount_in,
                        min_quote_amount_out,
                    ),
                view_of(r),
            ),
    {
        let (fee, buyback) = Self::amm_fee_recipients_pair(amm_global)?;
        let trade = trade_in_pool(
            pool,
            pool_state,
            base_token_program,
            quote_token_program,
            user,
            fee,
            buyback,
        );
        self.sell_amm_instruction_with_recipients(&trade, base_amount_in, min_quote_amount_out)
    }

    /// The user's quote account, then the AMM `sell`, with recipients picked from
    /// `amm_global`.
    pub fn sell_amm_instructions(
        &self,
        pool: Pubkey,
        amm_global: &GlobalConfig,
        pool_state: &Pool,
        base_token_program: Pubkey,
        quote_token_program: Pubkey,
        user: Pubkey,
        base_amount_in: u64,
        min_quote_amount_out: u64,
    ) -> (r: Option<Vec<Instruction>>)
        ensures
            built_with_amm_recipients(
                amm_global,
                |fee: Pubkey, buyback: Pubkey|
                    sell_amm_instructions_views(
                        &trade_in(
                            pool,
                            pool_state,
                            base_token_program,
                            quote_token_program,
                            user,
                            fee,
                            buyback,
                        ),
                        base_amount_in,
                        min_quote_amount_out,
                    ),
                views_of(r),
            ),
    {
        let (fee, buyback) = Self::amm_fee_recipients_pair(amm_global)?;
        let trade = trade_in_pool(
            pool,
            pool_state,
            base_token_program,
            quote_token_program,
            user,
            fee,
            buyback,
        );
        let sell = self.sell_amm_instruction_with_recipients(
            &trade,
            base_amount_in,
            min_quote_amount_out,
        );
        let first = create_associated_token_account_idempotent(
            &user,
            &user,
            &pool_state.quote_mint,
            &quote_token_program,
        );
        broadcast use group_views;

        let list = extend_with(Some(Vec::new()), first);
        extend_with(list, sell)
    }
}

} // verus!
