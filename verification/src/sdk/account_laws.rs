//! Laws of the accounts that instructions name: whose each is, and what is asked of it.
//!
//! Each account is stated by what its address is derived from. A builder gives an
//! instruction exactly where all the addresses exist.

use vstd::prelude::*;

use crate::constants::{
    pump, pump_agent_payments, pump_amm, FEE_PROGRAM_ID, MAYHEM_PROGRAM_ID,
    MPL_TOKEN_METADATA_PROGRAM_ID, NATIVE_MINT, RENT_SYSVAR_ID, SPL_ATA_PROGRAM_ID,
    SPL_TOKEN_2022_PROGRAM_ID, SPL_TOKEN_PROGRAM_ID, SYSTEM_PROGRAM_ID,
};
use crate::instruction::{AccountMeta, InstructionView};
use crate::pda::mayhem;
use crate::pubkey::{derived, Pubkey, DEFAULT_KEY};
use crate::sdk::create::{
    agent_initialize_view, claim_cashback_v2_view, create_v2_view, extend_account_view,
};
use crate::sdk::pump_amm_ix::{buy_amm_view, sell_amm_view, AmmTrade};
use crate::sdk::pump_legacy::{buy_view, create_view, sell_view};
use crate::sdk::pump_v2::{buy_exact_quote_in_v2_view, buy_v2_view, sell_v2_view, V2Trade};

verus! {

/// An account by its address, with what an instruction asks of it.
pub struct Named {
    pub address: Option<Pubkey>,
    pub signs: bool,
    pub writes: bool,
}

/// An account that is only read.
pub open spec fn reads(address: Option<Pubkey>) -> Named {
    Named { address, signs: false, writes: false }
}

/// An account that is written to.
pub open spec fn writes(address: Option<Pubkey>) -> Named {
    Named { address, signs: false, writes: true }
}

/// An account that signs and is written to.
pub open spec fn signs(address: Pubkey) -> Named {
    Named { address: Some(address), signs: true, writes: true }
}

/// The address derived from `seeds` by `program`.
pub open spec fn seeded(seeds: Seq<Seq<u8>>, program: Pubkey) -> Option<Pubkey> {
    match derived(seeds, program) {
        Some((address, _)) => Some(address),
        None => None,
    }
}

/// The token account of `owner` for `mint` under `token_program`: the associated-token
/// program derives it from the owner, the token program and the mint.
pub open spec fn token_account(
    owner: Option<Pubkey>,
    mint: Pubkey,
    token_program: Pubkey,
) -> Option<Pubkey> {
    match owner {
        Some(owner) => seeded(seq![owner@, token_program@, mint@], SPL_ATA_PROGRAM_ID),
        None => None,
    }
}

/// Whether all accounts of a table have an address.
pub open spec fn all_exist(table: Seq<Named>) -> bool {
    forall|i: int| 0 <= i < table.len() ==> (#[trigger] table[i]).address is Some
}

/// Whether an instruction names the accounts of a table, in order and no others.
pub open spec fn names(ix: InstructionView, table: Seq<Named>) -> bool {
    &&& ix.accounts.len() == table.len()
    &&& forall|i: int|
        0 <= i < table.len() ==> {
            let meta = #[trigger] ix.accounts[i];
            &&& table[i].address == Some(meta.pubkey)
            &&& meta.is_signer == table[i].signs
            &&& meta.is_writable == table[i].writes
        }
}

/// Whether there is an instruction exactly where the accounts of a table exist, and it
/// names these.
pub open spec fn named_by(ix: Option<InstructionView>, table: Seq<Named>) -> bool {
    match ix {
        Some(ix) => all_exist(table) && names(ix, table),
        None => !all_exist(table),
    }
}

/// The mint that a curve is quoted in: wrapped SOL where none is set.
pub open spec fn quote_of(quote_mint: Pubkey) -> Pubkey {
    if quote_mint == DEFAULT_KEY {
        NATIVE_MINT
    } else {
        quote_mint
    }
}

/// The curve of a coin.
pub open spec fn curve_of(mint: Pubkey) -> Option<Pubkey> {
    seeded(seq![pump::BONDING_CURVE_SEED@, mint@], pump::PROGRAM_ID)
}

/// The accounts of a purchase on a curve. Coins are Token-2022 coins; every quote
/// account is one for the quote mint under its own token program.
pub open spec fn curve_purchase(trade: &V2Trade) -> Seq<Named> {
    let program = pump::PROGRAM_ID;
    let coin = trade.base_mint;
    let coin_program = SPL_TOKEN_2022_PROGRAM_ID;
    let quote = quote_of(trade.quote_mint);
    let quote_program = trade.quote_token_program;
    let user = Some(trade.user);
    let curve = curve_of(coin);
    let vault = seeded(seq![pump::CREATOR_VAULT_SEED@, trade.creator@], program);
    let volume = seeded(seq![pump::USER_VOLUME_ACCUMULATOR_SEED@, trade.user@], program);
    seq![
        reads(seeded(seq![pump::GLOBAL_SEED@], program)),
        reads(Some(coin)),
        reads(Some(quote)),
        reads(Some(coin_program)),
        reads(Some(quote_program)),
        reads(Some(SPL_ATA_PROGRAM_ID)),
        writes(Some(trade.fee_recipient)),
        writes(token_account(Some(trade.fee_recipient), quote, quote_program)),
        writes(Some(trade.buyback_fee_recipient)),
        writes(token_account(Some(trade.buyback_fee_recipient), quote, quote_program)),
        writes(curve),
        writes(token_account(curve, coin, coin_program)),
        writes(token_account(curve, quote, quote_program)),
        signs(trade.user),
        writes(token_account(user, coin, coin_program)),
        writes(token_account(user, quote, quote_program)),
        writes(vault),
        writes(token_account(vault, quote, quote_program)),
        reads(seeded(seq![pump::SHARING_CONFIG_SEED@, coin@], FEE_PROGRAM_ID)),
        reads(seeded(seq![pump::GLOBAL_VOLUME_ACCUMULATOR_SEED@], program)),
        writes(volume),
        writes(token_account(volume, quote, quote_program)),
        reads(seeded(seq![pump::FEE_CONFIG_SEED@, program@], FEE_PROGRAM_ID)),
        reads(Some(FEE_PROGRAM_ID)),
        reads(Some(SYSTEM_PROGRAM_ID)),
        reads(seeded(seq![pump::EVENT_AUTHORITY_SEED@], program)),
        reads(Some(program)),
    ]
}

/// Accounts that all exist exist one by one.
proof fn lemma_rows(table: Seq<Named>)
    requires
        all_exist(table),
    ensures
        table.len() > 0 ==> table[0].address is Some,
        table.len() > 1 ==> table[1].address is Some,
        table.len() > 2 ==> table[2].address is Some,
        table.len() > 3 ==> table[3].address is Some,
        table.len() > 4 ==> table[4].address is Some,
        table.len() > 5 ==> table[5].address is Some,
        table.len() > 6 ==> table[6].address is Some,
        table.len() > 7 ==> table[7].address is Some,
        table.len() > 8 ==> table[8].address is Some,
        table.len() > 9 ==> table[9].address is Some,
        table.len() > 10 ==> table[10].address is Some,
        table.len() > 11 ==> table[11].address is Some,
        table.len() > 12 ==> table[12].address is Some,
        table.len() > 13 ==> table[13].address is Some,
        table.len() > 14 ==> table[14].address is Some,
        table.len() > 15 ==> table[15].address is Some,
        table.len() > 16 ==> table[16].address is Some,
        table.len() > 17 ==> table[17].address is Some,
        table.len() > 18 ==> table[18].address is Some,
        table.len() > 19 ==> table[19].address is Some,
        table.len() > 20 ==> table[20].address is Some,
        table.len() > 21 ==> table[21].address is Some,
        table.len() > 22 ==> table[22].address is Some,
        table.len() > 23 ==> table[23].address is Some,
        table.len() > 24 ==> table[24].address is Some,
        table.len() > 25 ==> table[25].address is Some,
        table.len() > 26 ==> table[26].address is Some,
        table.len() > 27 ==> table[27].address is Some,
{
}

/// Both kinds of purchase on a curve name the same accounts, whatever the amounts.
pub proof fn law_curve_purchases_name(trade: &V2Trade, first: u64, second: u64)
    ensures
        named_by(buy_v2_view(trade, first, second), curve_purchase(trade)),
        named_by(buy_exact_quote_in_v2_view(trade, first, second), curve_purchase(trade)),
{
    let table = curve_purchase(trade);
    if all_exist(table) {
        lemma_rows(table);
    }
}

/// A sale on a curve names the accounts of a purchase but for the global volume
/// accumulator, whatever the amounts.
pub proof fn law_curve_sales_name(trade: &V2Trade, amount: u64, limit: u64)
    ensures
        named_by(sell_v2_view(trade, amount, limit), curve_purchase(trade).remove(19)),
{
    let table = curve_purchase(trade).remove(19);
    if all_exist(table) {
        lemma_rows(table);
    }
}

/// The accounts that purchases from and sales to a pool name first: the user's and the
/// pool's own accounts for both mints, then where the fees go.
pub open spec fn pool_trade(trade: &AmmTrade) -> Seq<Named> {
    let program = pump_amm::PROGRAM_ID;
    let base = trade.base_mint;
    let base_program = trade.base_token_program;
    let quote = trade.quote_mint;
    let quote_program = trade.quote_token_program;
    let user = Some(trade.user);
    let pool = Some(trade.pool);
    let vault = seeded(seq![pump_amm::CREATOR_VAULT_SEED@, trade.coin_creator@], program);
    seq![
        writes(pool),
        signs(trade.user),
        reads(seeded(seq![pump_amm::GLOBAL_CONFIG_SEED@], program)),
        reads(Some(base)),
        reads(Some(quote)),
        writes(token_account(user, base, base_program)),
        writes(token_account(user, quote, quote_program)),
        writes(token_account(pool, base, base_program)),
        writes(token_account(pool, quote, quote_program)),
        reads(Some(trade.protocol_fee_recipient)),
        writes(token_account(Some(trade.protocol_fee_recipient), quote, quote_program)),
        reads(Some(base_program)),
        reads(Some(quote_program)),
        reads(Some(SYSTEM_PROGRAM_ID)),
        reads(Some(SPL_ATA_PROGRAM_ID)),
        reads(seeded(seq![pump_amm::EVENT_AUTHORITY_SEED@], program)),
        reads(Some(program)),
        writes(token_account(vault, quote, quote_program)),
        reads(vault),
    ]
}

/// The volume accumulator of the user of a pool trade.
pub open spec fn pool_volume(trade: &AmmTrade) -> Option<Pubkey> {
    seeded(seq![pump_amm::USER_VOLUME_ACCUMULATOR_SEED@, trade.user@], pump_amm::PROGRAM_ID)
}

/// The accounts that pool trades name last: for a coin with a creator the second pool
/// account, then the buyback recipient and its quote account.
pub open spec fn pool_trade_end(trade: &AmmTrade, recipient: Named) -> Seq<Named> {
    let account = writes(
        token_account(
            Some(trade.buyback_fee_recipient),
            trade.quote_mint,
            trade.quote_token_program,
        ),
    );
    if trade.coin_creator == DEFAULT_KEY {
        seq![recipient, account]
    } else {
        seq![
            reads(
                seeded(
                    seq![pump_amm::POOL_V2_SEED@, trade.base_mint@],
                    pump_amm::PROGRAM_ID,
                ),
            ),
            recipient,
            account,
        ]
    }
}

/// The accounts of a purchase from a pool. For a cashback coin the wrapped-SOL account
/// of the user's volume accumulator is among them.
pub open spec fn pool_purchase(trade: &AmmTrade) -> Seq<Named> {
    let program = pump_amm::PROGRAM_ID;
    let volume = pool_volume(trade);
    let fees = seq![
        reads(seeded(seq![pump_amm::GLOBAL_VOLUME_ACCUMULATOR_SEED@], program)),
        writes(volume),
        reads(seeded(seq![pump_amm::FEE_CONFIG_SEED@, program@], FEE_PROGRAM_ID)),
        reads(Some(FEE_PROGRAM_ID)),
    ];
    let cashback = if trade.is_cashback_coin {
        seq![writes(token_account(volume, NATIVE_MINT, trade.quote_token_program))]
    } else {
        Seq::empty()
    };
    pool_trade(trade) + fees + cashback + pool_trade_end(
        trade,
        writes(Some(trade.buyback_fee_recipient)),
    )
}

/// The accounts of a sale to a pool. For a cashback coin the quote account of the
/// user's volume accumulator and the accumulator are among them; the buyback recipient
/// is only read.
pub open spec fn pool_sale(trade: &AmmTrade) -> Seq<Named> {
    let volume = pool_volume(trade);
    let fees = seq![
        reads(
            seeded(
                seq![pump_amm::FEE_CONFIG_SEED@, pump_amm::PROGRAM_ID@],
                FEE_PROGRAM_ID,
            ),
        ),
        reads(Some(FEE_PROGRAM_ID)),
    ];
    let cashback = if trade.is_cashback_coin {
        seq![
            writes(token_account(volume, trade.quote_mint, trade.quote_token_program)),
            writes(volume),
        ]
    } else {
        Seq::empty()
    };
    pool_trade(trade) + fees + cashback + pool_trade_end(
        trade,
        reads(Some(trade.buyback_fee_recipient)),
    )
}

/// A purchase from a pool names its accounts, whatever the amounts.
pub proof fn law_pool_purchases_name(trade: &AmmTrade, amount: u64, limit: u64)
    ensures
        named_by(buy_amm_view(trade, amount, limit), pool_purchase(trade)),
{
    let table = pool_purchase(trade);
    if all_exist(table) {
        lemma_rows(table);
    }
}

/// A sale to a pool names its accounts, whatever the amounts, where the user has a
/// volume accumulator.
pub proof fn law_pool_sales_name(trade: &AmmTrade, amount: u64, limit: u64)
    requires
        pool_volume(trade) is Some,
    ensures
        named_by(sell_amm_view(trade, amount, limit), pool_sale(trade)),
{
    let table = pool_sale(trade);
    if all_exist(table) {
        lemma_rows(table);
    }
}

/// Whether `meta` is the token account of `owner` for `mint`, to be written to.
pub open spec fn is_token_account(
    meta: AccountMeta,
    owner: Pubkey,
    mint: Pubkey,
    token_program: Pubkey,
) -> bool {
    &&& token_account(Some(owner), mint, token_program) == Some(meta.pubkey)
    &&& meta.is_writable
    &&& !meta.is_signer
}

/// Whether tokens move between the user and the pool: accounts 5 and 6 are the user's
/// for the base and the quote mint, 7 and 8 the pool's for the same two mints, each
/// under the token program of its mint.
pub open spec fn moves_tokens(ix: InstructionView, trade: &AmmTrade) -> bool {
    let base = trade.base_mint;
    let base_program = trade.base_token_program;
    let quote = trade.quote_mint;
    let quote_program = trade.quote_token_program;
    &&& is_token_account(ix.accounts[5], trade.user, base, base_program)
    &&& is_token_account(ix.accounts[6], trade.user, quote, quote_program)
    &&& is_token_account(ix.accounts[7], trade.pool, base, base_program)
    &&& is_token_account(ix.accounts[8], trade.pool, quote, quote_program)
}

/// Every purchase from and every sale to a pool moves tokens between the accounts of
/// the user and those of the pool.
pub proof fn law_pool_trades_move_tokens(trade: &AmmTrade, amount: u64, limit: u64)
    ensures
        buy_amm_view(trade, amount, limit) matches Some(ix) ==> moves_tokens(ix, trade),
        sell_amm_view(trade, amount, limit) matches Some(ix) ==> moves_tokens(ix, trade),
{
}

/// The accounts of the creation of a first-generation coin: the mint and the user sign.
pub open spec fn coin_creation(mint: Pubkey, user: Pubkey) -> Seq<Named> {
    let program = pump::PROGRAM_ID;
    let curve = curve_of(mint);
    let metadata_program = MPL_TOKEN_METADATA_PROGRAM_ID;
    seq![
        signs(mint),
        reads(seeded(seq![pump::MINT_AUTHORITY_SEED@], program)),
        writes(curve),
        writes(token_account(curve, mint, SPL_TOKEN_PROGRAM_ID)),
        reads(seeded(seq![pump::GLOBAL_SEED@], program)),
        reads(Some(metadata_program)),
        writes(seeded(seq![pump::METADATA_SEED@, metadata_program@, mint@], metadata_program)),
        signs(user),
        reads(Some(SYSTEM_PROGRAM_ID)),
        reads(Some(SPL_TOKEN_PROGRAM_ID)),
        reads(Some(SPL_ATA_PROGRAM_ID)),
        reads(Some(RENT_SYSVAR_ID)),
        reads(seeded(seq![pump::EVENT_AUTHORITY_SEED@], program)),
        reads(Some(program)),
    ]
}

/// The creation of a first-generation coin names its accounts, whatever the texts.
pub proof fn law_create_names(
    mint: Pubkey,
    user: Pubkey,
    name: Seq<char>,
    symbol: Seq<char>,
    uri: Seq<char>,
    creator: Pubkey,
)
    ensures
        named_by(create_view(mint, user, name, symbol, uri, creator), coin_creation(mint, user)),
{
    let table = coin_creation(mint, user);
    if all_exist(table) {
        lemma_rows(table);
    }
}

/// The accounts of a first-generation purchase. The creator's vault receives the
/// creator's fee; the buyback recipient ends the list.
pub open spec fn first_purchase(
    mint: Pubkey,
    user: Pubkey,
    creator: Pubkey,
    fee_recipient: Pubkey,
    buyback_fee_recipient: Pubkey,
    token_program: Pubkey,
) -> Seq<Named> {
    let program = pump::PROGRAM_ID;
    let curve = curve_of(mint);
    seq![
        reads(seeded(seq![pump::GLOBAL_SEED@], program)),
        writes(Some(fee_recipient)),
        reads(Some(mint)),
        writes(curve),
        writes(token_account(curve, mint, token_program)),
        writes(token_account(Some(user), mint, token_program)),
        signs(user),
        reads(Some(SYSTEM_PROGRAM_ID)),
        reads(Some(token_program)),
        writes(seeded(seq![pump::CREATOR_VAULT_SEED@, creator@], program)),
        reads(seeded(seq![pump::EVENT_AUTHORITY_SEED@], program)),
        reads(Some(program)),
        reads(seeded(seq![pump::GLOBAL_VOLUME_ACCUMULATOR_SEED@], program)),
        writes(seeded(seq![pump::USER_VOLUME_ACCUMULATOR_SEED@, user@], program)),
        reads(seeded(seq![pump::FEE_CONFIG_SEED@, program@], FEE_PROGRAM_ID)),
        reads(Some(FEE_PROGRAM_ID)),
        reads(seeded(seq![pump::BONDING_CURVE_V2_SEED@, mint@], program)),
        writes(Some(buyback_fee_recipient)),
    ]
}

/// A first-generation purchase names its accounts, whatever the amounts.
pub proof fn law_buy_names(
    mint: Pubkey,
    user: Pubkey,
    creator: Pubkey,
    fee_recipient: Pubkey,
    buyback_fee_recipient: Pubkey,
    amount: u64,
    max_sol_cost: u64,
    token_program: Pubkey,
)
    ensures
        named_by(
            buy_view(
                mint,
                user,
                creator,
                fee_recipient,
                buyback_fee_recipient,
                amount,
                max_sol_cost,
                token_program,
            ),
            first_purchase(
                mint,
                user,
                creator,
                fee_recipient,
                buyback_fee_recipient,
                token_program,
            ),
        ),
{
    let table = first_purchase(
        mint,
        user,
        creator,
        fee_recipient,
        buyback_fee_recipient,
        token_program,
    );
    if all_exist(table) {
        lemma_rows(table);
    }
}

/// The accounts of a first-generation sale. The creator's vault stands before the token
/// program; for a cashback coin the user's volume accumulator is among them.
pub open spec fn first_sale(
    mint: Pubkey,
    user: Pubkey,
    creator: Pubkey,
    fee_recipient: Pubkey,
    token_program: Pubkey,
    is_cashback_coin: bool,
) -> Seq<Named> {
    let program = pump::PROGRAM_ID;
    let curve = curve_of(mint);
    let volume = writes(seeded(seq![pump::USER_VOLUME_ACCUMULATOR_SEED@, user@], program));
    let second_curve = reads(seeded(seq![pump::BONDING_CURVE_V2_SEED@, mint@], program));
    seq![
        reads(seeded(seq![pump::GLOBAL_SEED@], program)),
        writes(Some(fee_recipient)),
        reads(Some(mint)),
        writes(curve),
        writes(token_account(curve, mint, token_program)),
        writes(token_account(Some(user), mint, token_program)),
        signs(user),
        reads(Some(SYSTEM_PROGRAM_ID)),
        writes(seeded(seq![pump::CREATOR_VAULT_SEED@, creator@], program)),
        reads(Some(token_program)),
        reads(seeded(seq![pump::EVENT_AUTHORITY_SEED@], program)),
        reads(Some(program)),
        reads(seeded(seq![pump::FEE_CONFIG_SEED@, program@], FEE_PROGRAM_ID)),
        reads(Some(FEE_PROGRAM_ID)),
    ] + (if is_cashback_coin {
        seq![volume, second_curve]
    } else {
        seq![second_curve]
    })
}

/// A first-generation sale names its accounts, whatever the amounts.
pub proof fn law_sell_names(
    mint: Pubkey,
    user: Pubkey,
    creator: Pubkey,
    fee_recipient: Pubkey,
    amount: u64,
    min_sol_output: u64,
    token_program: Pubkey,
    is_cashback_coin: bool,
)
    ensures
        named_by(
            sell_view(
                mint,
                user,
                creator,
                fee_recipient,
                amount,
                min_sol_output,
                token_program,
                is_cashback_coin,
            ),
            first_sale(mint, user, creator, fee_recipient, token_program, is_cashback_coin),
        ),
{
    let table = first_sale(mint, user, creator, fee_recipient, token_program, is_cashback_coin);
    if all_exist(table) {
        lemma_rows(table);
    }
}

/// The accounts of the creation of a Token-2022 coin: the mint and the user sign. A
/// coin quoted in something else than SOL adds the quote mint, the curve's account for
/// it and the token program.
pub open spec fn coin_creation_v2(mint: Pubkey, user: Pubkey, quote_mint: Pubkey) -> Seq<Named> {
    let program = pump::PROGRAM_ID;
    let curve = curve_of(mint);
    let quote = quote_of(quote_mint);
    let sol_vault = seeded(seq![mayhem::SOL_VAULT_SEED@], MAYHEM_PROGRAM_ID);
    seq![
        signs(mint),
        reads(seeded(seq![pump::MINT_AUTHORITY_SEED@], program)),
        writes(curve),
        writes(token_account(curve, mint, SPL_TOKEN_2022_PROGRAM_ID)),
        reads(seeded(seq![pump::GLOBAL_SEED@], program)),
        signs(user),
        reads(Some(SYSTEM_PROGRAM_ID)),
        reads(Some(SPL_TOKEN_2022_PROGRAM_ID)),
        reads(Some(SPL_ATA_PROGRAM_ID)),
        writes(Some(MAYHEM_PROGRAM_ID)),
        reads(seeded(seq![mayhem::GLOBAL_PARAMS_SEED@], MAYHEM_PROGRAM_ID)),
        writes(sol_vault),
        writes(seeded(seq![mayhem::MAYHEM_STATE_SEED@, mint@], MAYHEM_PROGRAM_ID)),
        writes(token_account(sol_vault, mint, SPL_TOKEN_2022_PROGRAM_ID)),
        reads(seeded(seq![pump::EVENT_AUTHORITY_SEED@], program)),
        reads(Some(program)),
    ] + (if quote == NATIVE_MINT {
        Seq::empty()
    } else {
        seq![
            reads(Some(quote)),
            writes(token_account(curve, quote, SPL_TOKEN_PROGRAM_ID)),
            reads(Some(SPL_TOKEN_PROGRAM_ID)),
        ]
    })
}

/// The creation of a Token-2022 coin names its accounts, whatever the texts and flags.
pub proof fn law_create_v2_names(
    mint: Pubkey,
    user: Pubkey,
    name: Seq<char>,
    symbol: Seq<char>,
    uri: Seq<char>,
    creator: Pubkey,
    quote_mint: Pubkey,
    mayhem_mode: bool,
    cashback: bool,
)
    ensures
        named_by(
            create_v2_view(
                mint,
                user,
                name,
                symbol,
                uri,
                creator,
                quote_mint,
                mayhem_mode,
                cashback,
            ),
            coin_creation_v2(mint, user, quote_mint),
        ),
{
    let table = coin_creation_v2(mint, user, quote_mint);
    if all_exist(table) {
        lemma_rows(table);
    }
}

/// The accounts of an agent's registration; the user signs and pays.
pub open spec fn agent_registration(mint: Pubkey, user: Pubkey, agent_program: Pubkey) -> Seq<
    Named,
> {
    seq![
        signs(user),
        reads(curve_of(mint)),
        reads(seeded(seq![pump_agent_payments::GLOBAL_CONFIG_SEED@], agent_program)),
        reads(Some(mint)),
        writes(
            seeded(seq![pump_agent_payments::TOKEN_AGENT_PAYMENTS_SEED@, mint@], agent_program),
        ),
        reads(Some(SYSTEM_PROGRAM_ID)),
        reads(seeded(seq![pump_agent_payments::EVENT_AUTHORITY_SEED@], agent_program)),
        reads(Some(agent_program)),
        reads(seeded(seq![pump::SHARING_CONFIG_SEED@, mint@], FEE_PROGRAM_ID)),
    ]
}

/// The registration of an agent names its accounts, whatever its authority and rate.
pub proof fn law_agent_names(
    mint: Pubkey,
    user: Pubkey,
    creator: Pubkey,
    buyback_bps: u16,
    agent_program: Pubkey,
)
    ensures
        named_by(
            agent_initialize_view(mint, user, creator, buyback_bps, agent_program),
            agent_registration(mint, user, agent_program),
        ),
{
    let table = agent_registration(mint, user, agent_program);
    if all_exist(table) {
        lemma_rows(table);
    }
}

/// The accounts of the extension of a curve's account; the user signs and pays.
pub open spec fn account_extension(mint: Pubkey, user: Pubkey) -> Seq<Named> {
    seq![
        writes(curve_of(mint)),
        signs(user),
        reads(Some(SYSTEM_PROGRAM_ID)),
        reads(seeded(seq![pump::EVENT_AUTHORITY_SEED@], pump::PROGRAM_ID)),
        reads(Some(pump::PROGRAM_ID)),
    ]
}

/// The accounts of a cashback claim: it moves quote tokens from the user's volume
/// accumulator to the user.
pub open spec fn cashback_claim(
    user: Pubkey,
    quote_mint: Pubkey,
    quote_token_program: Pubkey,
) -> Seq<Named> {
    let quote = quote_of(quote_mint);
    let volume = seeded(seq![pump::USER_VOLUME_ACCUMULATOR_SEED@, user@], pump::PROGRAM_ID);
    seq![
        signs(user),
        writes(volume),
        reads(Some(quote)),
        reads(Some(quote_token_program)),
        reads(Some(SPL_ATA_PROGRAM_ID)),
        writes(token_account(volume, quote, quote_token_program)),
        writes(token_account(Some(user), quote, quote_token_program)),
        reads(Some(SYSTEM_PROGRAM_ID)),
        reads(seeded(seq![pump::EVENT_AUTHORITY_SEED@], pump::PROGRAM_ID)),
        reads(Some(pump::PROGRAM_ID)),
    ]
}

/// Extensions and claims name their accounts.
pub proof fn law_extensions_and_claims_name(
    mint: Pubkey,
    user: Pubkey,
    quote_mint: Pubkey,
    quote_token_program: Pubkey,
)
    ensures
        named_by(extend_account_view(mint, user), account_extension(mint, user)),
        named_by(
            claim_cashback_v2_view(user, quote_mint, quote_token_program),
            cashback_claim(user, quote_mint, quote_token_program),
        ),
{
    let extension = account_extension(mint, user);
    if all_exist(extension) {
        lemma_rows(extension);
    }
    let claim = cashback_claim(user, quote_mint, quote_token_program);
    if all_exist(claim) {
        lemma_rows(claim);
    }
}

} // verus!
