//! Coin creation, tokenized agents, and upkeep of bonding-curve accounts.

use vstd::prelude::*;

use crate::bytes::string_fits;
use crate::constants::pump::PROGRAM_ID;
use crate::constants::{
    MAYHEM_PROGRAM_ID, NATIVE_MINT, SPL_ATA_PROGRAM_ID, SPL_TOKEN_2022_PROGRAM_ID,
    SPL_TOKEN_PROGRAM_ID, SYSTEM_PROGRAM_ID,
};
use crate::instruction::{
    append_all, extend_with, followed_by, followed_by_all, group_views, none_yet, readonly,
    signing, view_of, views_of, writable, AccountMeta, Instruction, InstructionView,
};
use crate::pda;
use crate::pda::address_of;
use crate::pubkey::{same_key, Pubkey};
use crate::sdk::encoding::{
    authority_bytes, authority_data, coin_bytes, coin_data, flag_byte, tag_data, AGENT_INITIALIZE,
    CLAIM_CASHBACK_V2, CREATE_V2, EXTEND_ACCOUNT,
};
use crate::sdk::pump_v2::{
    ata, buy_v2_instructions_views, pump_call, resolve_quote_mint, resolved_quote_mint,
};
use crate::sdk::recipients::built_with_recipients;
use crate::sdk::PumpSdk;
use crate::state::{BondingCurve, Global};

verus! {

/// The accounts of `create_v2`. A coin quoted in something else than SOL adds the
/// quote mint, the curve's token account for it and the token program.
pub open spec fn create_v2_accounts(mint: Pubkey, user: Pubkey, quote_mint: Pubkey) -> Option<
    Seq<AccountMeta>,
> {
    let quote = resolved_quote_mint(quote_mint);
    match address_of(pda::pump::bonding_curve_pda(mint)) {
        None => None,
        Some(bonding_curve) => match (
            address_of(pda::pump::mint_authority_pda()),
            ata(bonding_curve, SPL_TOKEN_2022_PROGRAM_ID, mint),
            address_of(pda::pump::global_pda()),
            address_of(pda::mayhem::global_params_pda()),
            address_of(pda::mayhem::sol_vault_pda()),
            address_of(pda::mayhem::mayhem_state_pda(mint)),
            address_of(pda::mayhem::mayhem_token_vault_pda(mint)),
            address_of(pda::pump::event_authority_pda()),
        ) {
            (
                Some(mint_authority),
                Some(associated_bonding_curve),
                Some(global),
                Some(global_params),
                Some(sol_vault),
                Some(mayhem_state),
                Some(mayhem_token_vault),
                Some(event_authority),
            ) => {
                let declared = seq![
                    signing(mint),
                    readonly(mint_authority),
                    writable(bonding_curve),
                    writable(associated_bonding_curve),
                    readonly(global),
                    signing(user),
                    readonly(SYSTEM_PROGRAM_ID),
                    readonly(SPL_TOKEN_2022_PROGRAM_ID),
                    readonly(SPL_ATA_PROGRAM_ID),
                    writable(MAYHEM_PROGRAM_ID),
                    readonly(global_params),
                    writable(sol_vault),
                    writable(mayhem_state),
                    writable(mayhem_token_vault),
                    readonly(event_authority),
                    readonly(PROGRAM_ID),
                ];
                if quote == NATIVE_MINT {
                    Some(declared)
                } else {
                    match ata(bonding_curve, SPL_TOKEN_PROGRAM_ID, quote) {
                        Some(quote_account) => Some(
                            declared.push(readonly(quote)).push(writable(quote_account)).push(
                                readonly(SPL_TOKEN_PROGRAM_ID),
                            ),
                        ),
                        None => None,
                    }
                }
            },
            _ => None,
        },
    }
}

/// Creates a coin.
pub open spec fn create_v2_view(
    mint: Pubkey,
    user: Pubkey,
    name: Seq<char>,
    symbol: Seq<char>,
    uri: Seq<char>,
    creator: Pubkey,
    quote_mint: Pubkey,
    mayhem_mode: bool,
    cashback: bool,
) -> Option<InstructionView> {
    pump_call(
        create_v2_accounts(mint, user, quote_mint),
        coin_bytes(CREATE_V2, name, symbol, uri, creator).push(flag_byte(mayhem_mode)).push(
            flag_byte(cashback),
        ),
    )
}

fn create_accounts(mint: Pubkey, user: Pubkey, quote_mint: Pubkey) -> (r: Option<Vec<AccountMeta>>)
    ensures
        match r {
            Some(metas) => create_v2_accounts(mint, user, quote_mint) == Some(metas@),
            None => create_v2_accounts(mint, user, quote_mint) is None,
        },
{
    let (bonding_curve, _) = pda::pump::bonding_curve(&mint)?;
    let (mint_authority, _) = pda::pump::mint_authority()?;
    let (associated_bonding_curve, _) = pda::associated_token(
        &bonding_curve,
        &SPL_TOKEN_2022_PROGRAM_ID,
        &mint,
    )?;
    let (global, _) = pda::pump::global()?;
    let (global_params, _) = pda::mayhem::global_params()?;
    let (sol_vault, _) = pda::mayhem::sol_vault()?;
    let (mayhem_state, _) = pda::mayhem::mayhem_state(&mint)?;
    let (mayhem_token_vault, _) = pda::mayhem::mayhem_token_vault(&mint)?;
    let (event_authority, _) = pda::pump::event_authority()?;
    let mut metas: Vec<AccountMeta> = Vec::new();
    metas.push(AccountMeta::new(mint, true));
    metas.push(AccountMeta::new_readonly(mint_authority, false));
    metas.push(AccountMeta::new(bonding_curve, false));
    metas.push(AccountMeta::new(associated_bonding_curve, false));
    metas.push(AccountMeta::new_readonly(global, false));
    metas.push(AccountMeta::new(user, true));
    metas.push(AccountMeta::new_readonly(SYSTEM_PROGRAM_ID, false));
    metas.push(AccountMeta::new_readonly(SPL_TOKEN_2022_PROGRAM_ID, false));
    metas.push(AccountMeta::new_readonly(SPL_ATA_PROGRAM_ID, false));
    metas.push(AccountMeta::new(MAYHEM_PROGRAM_ID, false));
    metas.push(AccountMeta::new_readonly(global_params, false));
    metas.push(AccountMeta::new(sol_vault, false));
    metas.push(AccountMeta::new(mayhem_state, false));
    metas.push(AccountMeta::new(mayhem_token_vault, false));
    metas.push(AccountMeta::new_readonly(event_authority, false));
    metas.push(AccountMeta::new_readonly(PROGRAM_ID, false));
    let quote = resolve_quote_mint(quote_mint);
    if !same_key(&quote, &NATIVE_MINT) {
        let (quote_account, _) = pda::associated_token(
            &bonding_curve,
            &SPL_TOKEN_PROGRAM_ID,
            &quote,
        )?;
        metas.push(AccountMeta::new_readonly(quote, false));
        metas.push(AccountMeta::new(quote_account, false));
        metas.push(AccountMeta::new_readonly(SPL_TOKEN_PROGRAM_ID, false));
    }
    Some(metas)
}

/// Registers `creator` as the payment authority of the agent behind `mint`.
pub open spec fn agent_initialize_view(
    mint: Pubkey,
    user: Pubkey,
    creator: Pubkey,
    buyback_bps: u16,
    agent_program: Pubkey,
) -> Option<InstructionView> {
    match (
        address_of(pda::pump::bonding_curve_pda(mint)),
        address_of(pda::pump_agent_payments::global_config_pda(agent_program)),
        address_of(pda::pump_agent_payments::token_agent_payments_pda(mint, agent_program)),
        address_of(pda::pump_agent_payments::event_authority_pda(agent_program)),
        address_of(pda::pump::sharing_config_pda(mint)),
    ) {
        (
            Some(bonding_curve),
            Some(global_config),
            Some(token_agent_payments),
            Some(event_authority),
            Some(sharing_config),
        ) => Some(
            InstructionView {
                program_id: agent_program,
                accounts: seq![
                    signing(user),
                    readonly(bonding_curve),
                    readonly(global_config),
                    readonly(mint),
                    writable(token_agent_payments),
                    readonly(SYSTEM_PROGRAM_ID),
                    readonly(event_authority),
                    readonly(agent_program),
                    readonly(sharing_config),
                ],
                data: authority_bytes(AGENT_INITIALIZE, creator, buyback_bps),
            },
        ),
        _ => None,
    }
}

/// Extends the bonding-curve account of `mint` to its current layout.
pub open spec fn extend_account_view(mint: Pubkey, user: Pubkey) -> Option<InstructionView> {
    match (
        address_of(pda::pump::bonding_curve_pda(mint)),
        address_of(pda::pump::event_authority_pda()),
    ) {
        (Some(bonding_curve), Some(event_authority)) => pump_call(
            Some(
                seq![
                    writable(bonding_curve),
                    signing(user),
                    readonly(SYSTEM_PROGRAM_ID),
                    readonly(event_authority),
                    readonly(PROGRAM_ID),
                ],
            ),
            EXTEND_ACCOUNT@,
        ),
        _ => None,
    }
}

/// Claims the cashback of `user` in `quote_mint`.
pub open spec fn claim_cashback_v2_view(
    user: Pubkey,
    quote_mint: Pubkey,
    quote_token_program: Pubkey,
) -> Option<InstructionView> {
    let quote = resolved_quote_mint(quote_mint);
    match address_of(pda::pump::user_volume_accumulator_pda(user)) {
        None => None,
        Some(accumulator) => match (
            ata(accumulator, quote_token_program, quote),
            ata(user, quote_token_program, quote),
            address_of(pda::pump::event_authority_pda()),
        ) {
            (Some(of_accumulator), Some(of_user), Some(event_authority)) => pump_call(
                Some(
                    seq![
                        signing(user),
                        writable(accumulator),
                        readonly(quote),
                        readonly(quote_token_program),
                        readonly(SPL_ATA_PROGRAM_ID),
                        writable(of_accumulator),
                        writable(of_user),
                        readonly(SYSTEM_PROGRAM_ID),
                        readonly(event_authority),
                        readonly(PROGRAM_ID),
                    ],
                ),
                CLAIM_CASHBACK_V2@,
            ),
            _ => None,
        },
    }
}

impl PumpSdk {
    /// `create_v2`, for Token-2022 coins. The all-zero `quote_mint` and wrapped SOL
    /// give the standard curve; any other mint adds three accounts. The mint signs.
    pub fn create_v2_instruction(
        &self,
        mint: Pubkey,
        user: Pubkey,
        name: &str,
        symbol: &str,
        uri: &str,
        creator: Pubkey,
        quote_mint: Pubkey,
        mayhem_mode: bool,
        cashback: bool,
    ) -> (r: Option<Instruction>)
        requires
            string_fits(name@),
            string_fits(symbol@),
            string_fits(uri@),
        ensures
            view_of(r) == create_v2_view(
                mint,
                user,
                name@,
                symbol@,
                uri@,
                creator,
                quote_mint,
                mayhem_mode,
                cashback,
            ),
    {
        let accounts = create_accounts(mint, user, quote_mint)?;
        let mut data = coin_data(&CREATE_V2, name, symbol, uri, &creator);
        data.push(
            if mayhem_mode {
                1
            } else {
                0
            },
        );
        data.push(
            if cashback {
                1
            } else {
                0
            },
        );
        Some(Instruction { program_id: PROGRAM_ID, accounts, data })
    }

    /// `agent_initialize` of the agent-payments program at `agent_program`. `user`
    /// signs and pays; `creator` becomes the payment authority.
    pub fn agent_initialize_instruction(
        &self,
        mint: Pubkey,
        user: Pubkey,
        creator: Pubkey,
        buyback_bps: u16,
        agent_program: Pubkey,
    ) -> (r: Option<Instruction>)
        ensures
            view_of(r) == agent_initialize_view(mint, user, creator, buyback_bps, agent_program),
    {
        let (bonding_curve, _) = pda::pump::bonding_curve(&mint)?;
        let (global_config, _) = pda::pump_agent_payments::global_config(&agent_program)?;
        let (token_agent_payments, _) = pda::pump_agent_payments::token_agent_payments(
            &mint,
            &agent_program,
        )?;
        let (event_authority, _) = pda::pump_agent_payments::event_authority(&agent_program)?;
        let (sharing_config, _) = pda::pump::sharing_config(&mint)?;
        let mut accounts: Vec<AccountMeta> = Vec::new();
        accounts.push(AccountMeta::new(user, true));
        accounts.push(AccountMeta::new_readonly(bonding_curve, false));
        accounts.push(AccountMeta::new_readonly(global_config, false));
        accounts.push(AccountMeta::new_readonly(mint, false));
        accounts.push(AccountMeta::new(token_agent_payments, false));
        accounts.push(AccountMeta::new_readonly(SYSTEM_PROGRAM_ID, false));
        accounts.push(AccountMeta::new_readonly(event_authority, false));
        accounts.push(AccountMeta::new_readonly(agent_program, false));
        accounts.push(AccountMeta::new_readonly(sharing_config, false));
        let data = authority_data(&AGENT_INITIALIZE, &creator, buyback_bps);
        Some(Instruction { program_id: agent_program, accounts, data })
    }

    /// `extend_account` for the curve of `mint`.
    pub fn extend_account_ix(&self, mint: Pubkey, user: Pubkey) -> (r: Option<Instruction>)
        ensures
            view_of(r) == extend_account_view(mint, user),
    {
        let (bonding_curve, _) = pda::pump::bonding_curve(&mint)?;
        let (event_authority, _) = pda::pump::event_authority()?;
        let mut accounts: Vec<AccountMeta> = Vec::new();
        accounts.push(AccountMeta::new(bonding_curve, false));
        accounts.push(AccountMeta::new(user, true));
        accounts.push(AccountMeta::new_readonly(SYSTEM_PROGRAM_ID, false));
        accounts.push(AccountMeta::new_readonly(event_authority, false));
        accounts.push(AccountMeta::new_readonly(PROGRAM_ID, false));
        let data = tag_data(&EXTEND_ACCOUNT);
        Some(Instruction { program_id: PROGRAM_ID, accounts, data })
    }

    /// `claim_cashback_v2`: pays out the cashback of `user`, as lamports for wrapped
    /// SOL, else to the user's quote account.
    pub fn claim_cashback_v2_instruction(
        &self,
        user: Pubkey,
        quote_mint: Pubkey,
        quote_token_program: Pubkey,
    ) -> (r: Option<Instruction>)
        ensures
            view_of(r) == claim_cashback_v2_view(user, quote_mint, quote_token_program),
    {
        let quote = resolve_quote_mint(quote_mint);
        let (accumulator, _) = pda::pump::user_volume_accumulator(&user)?;
        let (of_accumulator, _) = pda::associated_token(
            &accumulator,
            &quote_token_program,
            &quote,
        )?;
        let (of_user, _) = pda::associated_token(&user, &quote_token_program, &quote)?;
        let (event_authority, _) = pda::pump::event_authority()?;
        let mut accounts: Vec<AccountMeta> = Vec::new();
        accounts.push(AccountMeta::new(user, true));
        accounts.push(AccountMeta::new(accumulator, false));
        accounts.push(AccountMeta::new_readonly(quote, false));
        accounts.push(AccountMeta::new_readonly(quote_token_program, false));
        accounts.push(AccountMeta::new_readonly(SPL_ATA_PROGRAM_ID, false));
        accounts.push(AccountMeta::new(of_accumulator, false));
        accounts.push(AccountMeta::new(of_user, false));
        accounts.push(AccountMeta::new_readonly(SYSTEM_PROGRAM_ID, false));
        accounts.push(AccountMeta::new_readonly(event_authority, false));
        accounts.push(AccountMeta::new_readonly(PROGRAM_ID, false));
        let data = tag_data(&CLAIM_CASHBACK_V2);
        Some(Instruction { program_id: PROGRAM_ID, accounts, data })
    }
}

/// A new coin with its first purchase. The mint must sign. The purchase is in
/// `quote_mint`; the all-zero key means wrapped SOL.
///
/// With `tokenized_agent_buyback_bps` the agent-payments program at `agent_program`
/// registers `creator` as the agent's payment authority at that buyback rate.
#[derive(Clone, Debug)]
pub struct CreateCoinParams<'a> {
    pub mint: Pubkey,
    pub user: Pubkey,
    pub creator: Pubkey,
    pub name: String,
    pub symbol: String,
    pub uri: String,
    pub mayhem_mode: bool,
    pub cashback: bool,
    pub quote_mint: Pubkey,
    pub global: &'a Global,
    pub token_amount: u64,
    pub max_quote_tokens: u64,
    pub tokenized_agent_buyback_bps: Option<u16>,
    pub agent_program: Pubkey,
}

/// The curve as it will be right after creation, as far as a purchase reads it.
pub open spec fn curve_preview(
    creator: Pubkey,
    quote_mint: Pubkey,
    mayhem_mode: bool,
    cashback: bool,
) -> BondingCurve {
    BondingCurve {
        creator,
        is_mayhem_mode: mayhem_mode,
        is_cashback_coin: cashback,
        quote_mint: resolved_quote_mint(quote_mint),
        ..BondingCurve::blank()
    }
}

fn preview_curve(creator: Pubkey, quote_mint: Pubkey, mayhem_mode: bool, cashback: bool) -> (r:
    BondingCurve)
    ensures
        r == curve_preview(creator, quote_mint, mayhem_mode, cashback),
{
    let mut curve = BondingCurve::default();
    curve.creator = creator;
    curve.is_mayhem_mode = mayhem_mode;
    curve.is_cashback_coin = cashback;
    curve.quote_mint = resolve_quote_mint(quote_mint);
    curve
}

/// What creating a coin and buying it takes, for the given recipients: the creation,
/// the token accounts, the purchase, and for an agent its registration.
pub open spec fn create_coin_views(
    mint: Pubkey,
    user: Pubkey,
    name: Seq<char>,
    symbol: Seq<char>,
    uri: Seq<char>,
    creator: Pubkey,
    quote_mint: Pubkey,
    mayhem_mode: bool,
    cashback: bool,
    agent_bps: Option<u16>,
    agent_program: Pubkey,
    fee_recipient: Pubkey,
    buyback_fee_recipient: Pubkey,
    amount: u64,
    max_quote_tokens: u64,
) -> Option<Seq<InstructionView>> {
    let curve = curve_preview(creator, quote_mint, mayhem_mode, cashback);
    let bought = followed_by_all(
        followed_by(
            none_yet(),
            create_v2_view(
                mint,
                user,
                name,
                symbol,
                uri,
                creator,
                quote_mint,
                mayhem_mode,
                cashback,
            ),
        ),
        buy_v2_instructions_views(
            &curve,
            mint,
            SPL_TOKEN_PROGRAM_ID,
            user,
            fee_recipient,
            buyback_fee_recipient,
            amount,
            max_quote_tokens,
        ),
    );
    match agent_bps {
        Some(bps) => followed_by(
            bought,
            agent_initialize_view(mint, user, creator, bps, agent_program),
        ),
        None => bought,
    }
}

impl PumpSdk {
    /// Creation of a coin and its first purchase, with given recipients.
    pub fn create_v2_and_buy_instruction_with_recipients(
        &self,
        mint: Pubkey,
        user: Pubkey,
        name: &str,
        symbol: &str,
        uri: &str,
        creator: Pubkey,
        quote_mint: Pubkey,
        mayhem_mode: bool,
        cashback: bool,
        tokenized_agent_buyback_bps: Option<u16>,
        agent_program: Pubkey,
        fee_recipient: Pubkey,
        buyback_fee_recipient: Pubkey,
        amount: u64,
        max_quote_tokens: u64,
    ) -> (r: Option<Vec<Instruction>>)
        requires
            string_fits(name@),
            string_fits(symbol@),
            string_fits(uri@),
        ensures
            views_of(r) == create_coin_views(
                mint,
                user,
                name@,
                symbol@,
                uri@,
                creator,
                quote_mint,
                mayhem_mode,
                cashback,
                tokenized_agent_buyback_bps,
                agent_program,
                fee_recipient,
                buyback_fee_recipient,
                amount,
                max_quote_tokens,
            ),
    {
        broadcast use group_views;

        let create = self.create_v2_instruction(
            mint,
            user,
            name,
            symbol,
            uri,
            creator,
            quote_mint,
            mayhem_mode,
            cashback,
        )?;
        let curve = preview_curve(creator, quote_mint, mayhem_mode, cashback);
        let buy = self.buy_v2_instructions_with_recipients(
            &curve,
            mint,
            SPL_TOKEN_PROGRAM_ID,
            user,
            fee_recipient,
            buyback_fee_recipient,
            amount,
            max_quote_tokens,
        )?;
        let mut ixs: Vec<Instruction> = Vec::new();
        ixs.push(create);
        append_all(&mut ixs, buy);
        match tokenized_agent_buyback_bps {
            None => Some(ixs),
            Some(bps) => {
                let agent = self.agent_initialize_instruction(
                    mint,
                    user,
                    creator,
                    bps,
                    agent_program,
                );
                extend_with(Some(ixs), agent)
            },
        }
    }

    /// `create_v2`, the token accounts and `buy_v2`, with recipients picked from
    /// `global`. With a buyback rate, `agent_initialize` follows.
    pub fn create_v2_and_buy_instruction(
        &self,
        mint: Pubkey,
        user: Pubkey,
        name: &str,
        symbol: &str,
        uri: &str,
        creator: Pubkey,
        quote_mint: Pubkey,
        mayhem_mode: bool,
        cashback: bool,
        tokenized_agent_buyback_bps: Option<u16>,
        agent_program: Pubkey,
        global: &Global,
        amount: u64,
        max_quote_tokens: u64,
    ) -> (r: Option<Vec<Instruction>>)
        requires
            string_fits(name@),
            string_fits(symbol@),
            string_fits(uri@),
        ensures
            built_with_recipients(
                global,
                mayhem_mode,
                |fee: Pubkey, buyback: Pubkey|
                    create_coin_views(
                        mint,
                        user,
                        name@,
                        symbol@,
                        uri@,
                        creator,
                        quote_mint,
                        mayhem_mode,
                        cashback,
                        tokenized_agent_buyback_bps,
                        agent_program,
                        fee,
                        buyback,
                        amount,
                        max_quote_tokens,
                    ),
                views_of(r),
            ),
    {
        let (fee_recipient, buyback_fee_recipient) = Self::pump_fee_recipients_pair(
            global,
            mayhem_mode,
        )?;
        self.create_v2_and_buy_instruction_with_recipients(
            mint,
            user,
            name,
            symbol,
            uri,
            creator,
            quote_mint,
            mayhem_mode,
            cashback,
            tokenized_agent_buyback_bps,
            agent_program,
            fee_recipient,
            buyback_fee_recipient,
            amount,
            max_quote_tokens,
        )
    }

    /// [`PumpSdk::create_v2_and_buy_instruction`] for bundled parameters.
    pub fn create_coin_instructions(&self, params: CreateCoinParams<'_>) -> (r: Option<
        Vec<Instruction>,
    >)
        requires
            string_fits(params.name@),
            string_fits(params.symbol@),
            string_fits(params.uri@),
        ensures
            built_with_recipients(
                params.global,
                params.mayhem_mode,
                |fee: Pubkey, buyback: Pubkey|
                    create_coin_views(
                        params.mint,
                        params.user,
                        params.name@,
                        params.symbol@,
                        params.uri@,
                        params.creator,
                        params.quote_mint,
                        params.mayhem_mode,
                        params.cashback,
                        params.tokenized_agent_buyback_bps,
                        params.agent_program,
                        fee,
                        buyback,
                        params.token_amount,
                        params.max_quote_tokens,
                    ),
                views_of(r),
            ),
    {
        self.create_v2_and_buy_instruction(
            params.mint,
            params.user,
            params.name.as_str(),
            params.symbol.as_str(),
            params.uri.as_str(),
            params.creator,
            params.quote_mint,
            params.mayhem_mode,
            params.cashback,
            params.tokenized_agent_buyback_bps,
            params.agent_program,
            params.global,
            params.token_amount,
            params.max_quote_tokens,
        )
    }
}

} // verus!
