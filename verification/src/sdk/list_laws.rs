//! Laws of instruction lists: what stands where, and what each instruction is.

use vstd::prelude::*;

use crate::bytes::{
    le_bytes, le_value, lemma_byte_ranges, lemma_le_bytes_len, lemma_le_round_trip,
};
use crate::constants::{
    pump, pump_amm, NATIVE_MINT, SPL_ATA_PROGRAM_ID, SPL_TOKEN_2022_PROGRAM_ID,
    SPL_TOKEN_PROGRAM_ID, SYSTEM_PROGRAM_ID,
};
use crate::instruction::InstructionView;
use crate::key_order::rank;
use crate::pubkey::{Pubkey, DEFAULT_KEY};
use crate::sdk::account_laws::{
    curve_of, law_curve_purchases_name, law_curve_sales_name, law_pool_purchases_name, names,
    reads, seeded, signs, token_account, writes, Named,
};
use crate::sdk::create::{
    agent_initialize_view, create_coin_views, create_v2_view, curve_preview,
};
use crate::sdk::data_laws::{
    law_buy_amm_data, law_buy_v2_data, law_sell_amm_data, law_sell_v2_data, reads_as_amounts,
};
use crate::sdk::encoding::{BUY, BUY_V2, SELL, SELL_V2};
use crate::sdk::pump_amm_ix::{
    buy_amm_instructions_views, buy_amm_view, sell_amm_instructions_views, sell_amm_view,
    trade_in, AmmTrade,
};
use crate::sdk::pump_v2::{
    buy_exact_quote_in_v2_instructions_views, buy_exact_quote_in_v2_view,
    buy_v2_instructions_views, buy_v2_view, sell_v2_instructions_views, sell_v2_view, trade_atas,
    trade_on, V2Trade,
};
use crate::sdk::recipients::{
    amm_buyback_candidate, amm_fee_candidate, built_with_amm_recipients, built_with_recipients,
    buyback_candidate, fee_candidate, lists_exactly,
};
use crate::sdk::trade_tx::{
    curve_trade_views, pool_trade_views, routed, trade_outcome, TradeTxParams,
    TradeTxWithVenueParams, TradeVenue,
};
use crate::state::pump_amm::{GlobalConfig, Pool};
use crate::state::{BondingCurve, Global};
use crate::token::{unwrap_sol_view, wrap_sol_views};

verus! {

/// Whether an instruction creates the token account of `owner` for `mint`, unless it
/// exists, at the expense of `payer`.
pub open spec fn creates(
    ix: InstructionView,
    payer: Pubkey,
    owner: Option<Pubkey>,
    mint: Pubkey,
    token_program: Pubkey,
) -> bool {
    &&& ix.program_id == SPL_ATA_PROGRAM_ID
    &&& ix.data == seq![1u8]
    &&& names(
        ix,
        seq![
            signs(payer),
            writes(token_account(owner, mint, token_program)),
            reads(owner),
            reads(Some(mint)),
            reads(Some(SYSTEM_PROGRAM_ID)),
            reads(Some(token_program)),
        ],
    )
}

/// The wrapped-SOL account of a user.
pub open spec fn wrapped_sol_account(user: Pubkey) -> Option<Pubkey> {
    token_account(Some(user), NATIVE_MINT, SPL_TOKEN_PROGRAM_ID)
}

/// Whether an instruction moves `lamports` out of `user` into the user's wrapped-SOL
/// account: number 2 of the system program, with the amount from byte 4 on.
pub open spec fn pays_in(ix: InstructionView, user: Pubkey, lamports: u64) -> bool {
    &&& ix.program_id == SYSTEM_PROGRAM_ID
    &&& names(ix, seq![signs(user), writes(wrapped_sol_account(user))])
    &&& ix.data.len() == 12
    &&& le_value(ix.data.subrange(0, 4)) == 2
    &&& le_value(ix.data.subrange(4, 12)) == lamports
}

/// Whether an instruction brings the balance of the user's wrapped-SOL account up to
/// its lamports.
pub open spec fn syncs(ix: InstructionView, user: Pubkey) -> bool {
    &&& ix.program_id == SPL_TOKEN_PROGRAM_ID
    &&& names(ix, seq![writes(wrapped_sol_account(user))])
    &&& ix.data == seq![17u8]
}

/// Whether an instruction closes the user's wrapped-SOL account in favour of the user,
/// who signs as its owner.
pub open spec fn pays_out(ix: InstructionView, user: Pubkey) -> bool {
    &&& ix.program_id == SPL_TOKEN_PROGRAM_ID
    &&& names(
        ix,
        seq![
            writes(wrapped_sol_account(user)),
            writes(Some(user)),
            Named { address: Some(user), signs: true, writes: false },
        ],
    )
    &&& ix.data == seq![9u8]
}

/// Wrapping pays the lamports into the user's wrapped-SOL account and then syncs it;
/// unwrapping pays out what it holds. Both are possible exactly where that account has
/// an address.
pub proof fn law_wrapping(user: Pubkey, lamports: u64)
    ensures
        match wrap_sol_views(user, lamports) {
            Some(list) => {
                &&& list.len() == 2
                &&& pays_in(list[0], user, lamports)
                &&& syncs(list[1], user)
            },
            None => wrapped_sol_account(user) is None,
        },
        match unwrap_sol_view(user) {
            Some(ix) => pays_out(ix, user),
            None => wrapped_sol_account(user) is None,
        },
{
    lemma_byte_ranges();
    lemma_le_round_trip(2, 4);
    lemma_le_round_trip(lamports as nat, 8);
    lemma_le_bytes_len(2, 4);
    lemma_le_bytes_len(lamports as nat, 8);
    let data = le_bytes(2, 4) + le_bytes(lamports as nat, 8);
    assert(data.subrange(0, 4) =~= le_bytes(2, 4));
    assert(data.subrange(4, 12) =~= le_bytes(lamports as nat, 8));
}

/// The trade that a request asks of a pool: the pool's own mints, creator and cashback
/// flag, and everything else from the request.
pub open spec fn requested_trade(
    params: TradeTxWithVenueParams<'_>,
    pool: Pubkey,
    pool_state: &Pool,
    fee_recipient: Pubkey,
    buyback_fee_recipient: Pubkey,
) -> AmmTrade {
    AmmTrade {
        pool,
        base_mint: pool_state.base_mint,
        quote_mint: pool_state.quote_mint,
        base_token_program: params.base_token_program,
        quote_token_program: params.quote_token_program,
        user: params.user,
        coin_creator: pool_state.coin_creator,
        protocol_fee_recipient: fee_recipient,
        buyback_fee_recipient,
        is_cashback_coin: pool_state.is_cashback_coin,
    }
}

/// The list of a pool sale: the user's quote account is created, the tokens are sold,
/// and wrapped SOL is paid out. The sale is the one that the single builder gives for
/// the amount and the limit of the request, and a program reads these two out of it.
pub proof fn law_pool_sale_list(
    params: TradeTxWithVenueParams<'_>,
    pool: Pubkey,
    pool_state: &Pool,
    fee_recipient: Pubkey,
    buyback_fee_recipient: Pubkey,
)
    requires
        !params.is_buy,
    ensures
        ({
            let user = params.user;
            let quote = pool_state.quote_mint;
            let trade = requested_trade(
                params,
                pool,
                pool_state,
                fee_recipient,
                buyback_fee_recipient,
            );
            let sale = sell_amm_view(&trade, params.base_amount, params.sol_amount_threshold);
            match pool_trade_views(
                params,
                pool,
                pool_state,
                fee_recipient,
                buyback_fee_recipient,
            ) {
                Some(list) => {
                    &&& list.len() == (if quote == NATIVE_MINT {
                        3int
                    } else {
                        2
                    })
                    &&& creates(list[0], user, Some(user), quote, params.quote_token_program)
                    &&& sale == Some(list[1])
                    &&& reads_as_amounts(
                        list[1].data,
                        SELL,
                        params.base_amount,
                        params.sol_amount_threshold,
                    )
                    &&& quote == NATIVE_MINT ==> pays_out(list[2], user)
                },
                None => {
                    ||| token_account(Some(user), quote, params.quote_token_program) is None
                    ||| sale is None
                    ||| quote == NATIVE_MINT && wrapped_sol_account(user) is None
                },
            }
        }),
{
    let trade = requested_trade(params, pool, pool_state, fee_recipient, buyback_fee_recipient);
    law_sell_amm_data(&trade, params.base_amount, params.sol_amount_threshold);
    law_wrapping(params.user, params.sol_amount_threshold);
}

/// The list of a pool purchase: the user's base and quote accounts are created, the
/// limit of the request is wrapped where the pool is quoted in wrapped SOL, the tokens
/// are bought, and what is left of the wrapped SOL is paid out. The purchase is the one
/// that the single builder gives for the amount and the limit of the request, and a
/// program reads these two out of it.
pub proof fn law_pool_purchase_list(
    params: TradeTxWithVenueParams<'_>,
    pool: Pubkey,
    pool_state: &Pool,
    fee_recipient: Pubkey,
    buyback_fee_recipient: Pubkey,
)
    requires
        params.is_buy,
    ensures
        ({
            let user = params.user;
            let base = pool_state.base_mint;
            let quote = pool_state.quote_mint;
            let trade = requested_trade(
                params,
                pool,
                pool_state,
                fee_recipient,
                buyback_fee_recipient,
            );
            let limit = params.sol_amount_threshold;
            let purchase = buy_amm_view(&trade, params.base_amount, limit);
            match pool_trade_views(
                params,
                pool,
                pool_state,
                fee_recipient,
                buyback_fee_recipient,
            ) {
                Some(list) => {
                    let at = if quote == NATIVE_MINT {
                        4int
                    } else {
                        2
                    };
                    &&& list.len() == (if quote == NATIVE_MINT {
                        6int
                    } else {
                        3
                    })
                    &&& creates(list[0], user, Some(user), base, params.base_token_program)
                    &&& creates(list[1], user, Some(user), quote, params.quote_token_program)
                    &&& quote == NATIVE_MINT ==> {
                        &&& pays_in(list[2], user, limit)
                        &&& syncs(list[3], user)
                        &&& pays_out(list[5], user)
                    }
                    &&& purchase == Some(list[at])
                    &&& reads_as_amounts(list[at].data, BUY, params.base_amount, limit)
                },
                None => {
                    ||| token_account(Some(user), base, params.base_token_program) is None
                    ||| token_account(Some(user), quote, params.quote_token_program) is None
                    ||| purchase is None
                    ||| quote == NATIVE_MINT && wrapped_sol_account(user) is None
                },
            }
        }),
{
    let trade = requested_trade(params, pool, pool_state, fee_recipient, buyback_fee_recipient);
    law_buy_amm_data(&trade, params.base_amount, params.sol_amount_threshold);
    law_wrapping(params.user, params.sol_amount_threshold);
}

/// The lists of the pool builders: a purchase after the user's base account, a sale
/// after the user's quote account.
pub proof fn law_pool_builder_lists(trade: &AmmTrade, amount: u64, limit: u64)
    ensures
        match buy_amm_instructions_views(trade, amount, limit) {
            Some(list) => {
                &&& list.len() == 2
                &&& creates(
                    list[0],
                    trade.user,
                    Some(trade.user),
                    trade.base_mint,
                    trade.base_token_program,
                )
                &&& buy_amm_view(trade, amount, limit) == Some(list[1])
            },
            None => buy_amm_view(trade, amount, limit) is None,
        },
        match sell_amm_instructions_views(trade, amount, limit) {
            Some(list) => {
                &&& list.len() == 2
                &&& creates(
                    list[0],
                    trade.user,
                    Some(trade.user),
                    trade.quote_mint,
                    trade.quote_token_program,
                )
                &&& sell_amm_view(trade, amount, limit) == Some(list[1])
            },
            None => sell_amm_view(trade, amount, limit) is None,
        },
{
}

/// The fee vault of a creator.
pub open spec fn vault_of(creator: Pubkey) -> Option<Pubkey> {
    seeded(seq![pump::CREATOR_VAULT_SEED@, creator@], pump::PROGRAM_ID)
}

/// The volume accumulator of a user.
pub open spec fn volume_of(user: Pubkey) -> Option<Pubkey> {
    seeded(seq![pump::USER_VOLUME_ACCUMULATOR_SEED@, user@], pump::PROGRAM_ID)
}

/// Whether a quote mint is something else than SOL.
pub open spec fn is_token_quote(quote_mint: Pubkey) -> bool {
    quote_mint != DEFAULT_KEY && quote_mint != NATIVE_MINT
}

/// Whether a list creates, at the user's expense, the accounts that a trade with `coin`
/// needs and nothing else: on a purchase the user's account for the coin, and for a
/// token quote the quote accounts of the user, the creator's vault and the curve, in
/// this order, and last for a cashback coin that of the user's volume accumulator.
pub open spec fn prepares(
    list: Seq<InstructionView>,
    user: Pubkey,
    coin: Pubkey,
    coin_program: Pubkey,
    quote_mint: Pubkey,
    quote_program: Pubkey,
    creator: Pubkey,
    is_cashback_coin: bool,
    buys: bool,
) -> bool {
    let first = if buys {
        1int
    } else {
        0
    };
    let quotes = if !is_token_quote(quote_mint) {
        0int
    } else if is_cashback_coin {
        4
    } else {
        3
    };
    &&& list.len() == first + quotes
    &&& buys ==> creates(list[0], user, Some(user), coin, coin_program)
    &&& is_token_quote(quote_mint) ==> {
        &&& creates(list[first], user, Some(user), quote_mint, quote_program)
        &&& creates(list[first + 1], user, vault_of(creator), quote_mint, quote_program)
        &&& creates(list[first + 2], user, curve_of(coin), quote_mint, quote_program)
        &&& is_cashback_coin ==> creates(
            list[first + 3],
            user,
            volume_of(user),
            quote_mint,
            quote_program,
        )
    }
}

/// What stands before a trade on a curve prepares it.
pub proof fn law_token_accounts_prepare(
    user: Pubkey,
    coin: Pubkey,
    curve: &BondingCurve,
    coin_program: Pubkey,
    quote_program: Pubkey,
    buys: bool,
)
    ensures
        trade_atas(user, coin, curve, coin_program, quote_program, buys) matches Some(list)
            ==> prepares(
            list,
            user,
            coin,
            coin_program,
            curve.quote_mint,
            quote_program,
            curve.creator,
            curve.is_cashback_coin,
            buys,
        ),
{
}

/// The trade of a user on a curve: the curve's own quote mint and creator, and
/// everything else as given.
pub open spec fn curve_trade(
    curve: &BondingCurve,
    coin: Pubkey,
    quote_program: Pubkey,
    user: Pubkey,
    fee_recipient: Pubkey,
    buyback_fee_recipient: Pubkey,
) -> V2Trade {
    V2Trade {
        base_mint: coin,
        quote_mint: curve.quote_mint,
        quote_token_program: quote_program,
        user,
        creator: curve.creator,
        fee_recipient,
        buyback_fee_recipient,
    }
}

/// Whether a list prepares a trade with a Token-2022 coin on a curve and ends with it;
/// there is one exactly where there is the trade.
pub open spec fn prepared(
    list: Option<Seq<InstructionView>>,
    trade: Option<InstructionView>,
    curve: &BondingCurve,
    coin: Pubkey,
    quote_program: Pubkey,
    user: Pubkey,
    buys: bool,
) -> bool {
    match list {
        Some(list) => {
            &&& list.len() > 0
            &&& prepares(
                list.drop_last(),
                user,
                coin,
                SPL_TOKEN_2022_PROGRAM_ID,
                curve.quote_mint,
                quote_program,
                curve.creator,
                curve.is_cashback_coin,
                buys,
            )
            &&& trade == Some(list.last())
        },
        None => trade is None,
    }
}

/// Dropping what was added last leaves what was there.
broadcast proof fn lemma_drop_pushed(list: Seq<InstructionView>, last: InstructionView)
    ensures
        #[trigger] list.push(last).drop_last() == list,
{
    assert(list.push(last).drop_last() =~= list);
}

/// The lists of the curve builders prepare and end with the trade of the single
/// builders, for the same amounts.
pub proof fn law_curve_lists(
    curve: &BondingCurve,
    coin: Pubkey,
    quote_program: Pubkey,
    user: Pubkey,
    fee_recipient: Pubkey,
    buyback_fee_recipient: Pubkey,
    first: u64,
    second: u64,
)
    ensures
        ({
            let trade = curve_trade(
                curve,
                coin,
                quote_program,
                user,
                fee_recipient,
                buyback_fee_recipient,
            );
            &&& prepared(
                buy_v2_instructions_views(
                    curve,
                    coin,
                    quote_program,
                    user,
                    fee_recipient,
                    buyback_fee_recipient,
                    first,
                    second,
                ),
                buy_v2_view(&trade, first, second),
                curve,
                coin,
                quote_program,
                user,
                true,
            )
            &&& prepared(
                buy_exact_quote_in_v2_instructions_views(
                    curve,
                    coin,
                    quote_program,
                    user,
                    fee_recipient,
                    buyback_fee_recipient,
                    first,
                    second,
                ),
                buy_exact_quote_in_v2_view(&trade, first, second),
                curve,
                coin,
                quote_program,
                user,
                true,
            )
            &&& prepared(
                sell_v2_instructions_views(
                    curve,
                    coin,
                    quote_program,
                    user,
                    fee_recipient,
                    buyback_fee_recipient,
                    first,
                    second,
                ),
                sell_v2_view(&trade, first, second),
                curve,
                coin,
                quote_program,
                user,
                false,
            )
        }),
{
    broadcast use lemma_drop_pushed;

    law_token_accounts_prepare(user, coin, curve, SPL_TOKEN_2022_PROGRAM_ID, quote_program, true);
    law_token_accounts_prepare(user, coin, curve, SPL_TOKEN_2022_PROGRAM_ID, quote_program, false);
}

/// The list of a new coin: its creation, then what prepares the first purchase, then
/// the purchase, and last the registration of an agent where a rate is given. Each is
/// what the single builder gives; the purchase is the user's, of the new coin, in the
/// quote mint that the coin is created with.
pub proof fn law_creation_list(
    mint: Pubkey,
    user: Pubkey,
    name: Seq<char>,
    symbol: Seq<char>,
    uri: Seq<char>,
    creator: Pubkey,
    quote_mint: Pubkey,
    mayhem_mode: bool,
    cashback: bool,
    agent_bps: Option<u16>,
    agent_program: Pubkey,
    fee_recipient: Pubkey,
    buyback_fee_recipient: Pubkey,
    amount: u64,
    max_quote_tokens: u64,
)
    ensures
        ({
            let creation = create_v2_view(
                mint,
                user,
                name,
                symbol,
                uri,
                creator,
                quote_mint,
                mayhem_mode,
                cashback,
            );
            let trade = V2Trade {
                base_mint: mint,
                quote_mint,
                quote_token_program: SPL_TOKEN_PROGRAM_ID,
                user,
                creator,
                fee_recipient,
                buyback_fee_recipient,
            };
            let purchase = buy_v2_view(&trade, amount, max_quote_tokens);
            match create_coin_views(
                mint,
                user,
                name,
                symbol,
                uri,
                creator,
                quote_mint,
                mayhem_mode,
                cashback,
                agent_bps,
                agent_program,
                fee_recipient,
                buyback_fee_recipient,
                amount,
                max_quote_tokens,
            ) {
                Some(list) => {
                    let last = list.len() - (if agent_bps is Some {
                        2int
                    } else {
                        1
                    });
                    &&& last >= 1
                    &&& creation == Some(list[0])
                    &&& prepares(
                        list.subrange(1, last),
                        user,
                        mint,
                        SPL_TOKEN_2022_PROGRAM_ID,
                        quote_mint,
                        SPL_TOKEN_PROGRAM_ID,
                        creator,
                        cashback,
                        true,
                    )
                    &&& purchase == Some(list[last])
                    &&& agent_bps matches Some(bps) ==> agent_initialize_view(
                        mint,
                        user,
                        creator,
                        bps,
                        agent_program,
                    ) == Some(list[last + 1])
                },
                None => {
                    ||| creation is None
                    ||| purchase is None
                    ||| agent_bps matches Some(bps) && agent_initialize_view(
                        mint,
                        user,
                        creator,
                        bps,
                        agent_program,
                    ) is None
                },
            }
        }),
{
    let curve = curve_preview(creator, quote_mint, mayhem_mode, cashback);
    law_curve_lists(
        &curve,
        mint,
        SPL_TOKEN_PROGRAM_ID,
        user,
        fee_recipient,
        buyback_fee_recipient,
        amount,
        max_quote_tokens,
    );
    let bought = buy_v2_instructions_views(
        &curve,
        mint,
        SPL_TOKEN_PROGRAM_ID,
        user,
        fee_recipient,
        buyback_fee_recipient,
        amount,
        max_quote_tokens,
    );
    if let Some(list) = create_coin_views(
        mint,
        user,
        name,
        symbol,
        uri,
        creator,
        quote_mint,
        mayhem_mode,
        cashback,
        agent_bps,
        agent_program,
        fee_recipient,
        buyback_fee_recipient,
        amount,
        max_quote_tokens,
    ) {
        let n = bought.unwrap().len() as int;
        assert(list.subrange(1, n) =~= bought.unwrap().drop_last());
    }
}

/// A request is routed as it stands: to the curve while it is open, to the pool once it
/// is complete, and nowhere without a pool. Nothing of it changes on the way.
pub proof fn law_requests_are_routed(params: TradeTxParams<'_>)
    ensures
        routed(params) is None <==> params.bonding_curve.complete && params.pump_pool is None,
        routed(params) matches Some(explicit) ==> {
            &&& explicit.mint == params.mint
            &&& explicit.base_token_program == params.base_token_program
            &&& explicit.quote_token_program == params.quote_token_program
            &&& explicit.user == params.user
            &&& explicit.is_buy == params.is_buy
            &&& explicit.base_amount == params.base_amount
            &&& explicit.sol_amount_threshold == params.sol_amount_threshold
            &&& match explicit.venue {
                TradeVenue::BondingCurve { global, bonding_curve } => {
                    &&& !params.bonding_curve.complete
                    &&& global == params.pump_global
                    &&& bonding_curve == params.bonding_curve
                },
                TradeVenue::Amm { pool, amm_global, pool_state } => {
                    &&& params.bonding_curve.complete
                    &&& params.pump_pool matches Some(p) && pool == p.pool && amm_global
                        == p.amm_global && pool_state == p.pool_state
                },
            }
        },
{
}

/// The list of a request on a curve: what prepares the trade, then the purchase or the
/// sale of the single builder for the amount and the limit of the request.
pub proof fn law_curve_request_list(
    params: TradeTxWithVenueParams<'_>,
    curve: &BondingCurve,
    fee_recipient: Pubkey,
    buyback_fee_recipient: Pubkey,
)
    ensures
        ({
            let trade = curve_trade(
                curve,
                params.mint,
                params.quote_token_program,
                params.user,
                fee_recipient,
                buyback_fee_recipient,
            );
            prepared(
                curve_trade_views(params, curve, fee_recipient, buyback_fee_recipient),
                if params.is_buy {
                    buy_v2_view(&trade, params.base_amount, params.sol_amount_threshold)
                } else {
                    sell_v2_view(&trade, params.base_amount, params.sol_amount_threshold)
                },
                curve,
                params.mint,
                params.quote_token_program,
                params.user,
                params.is_buy,
            )
        }),
{
    law_curve_lists(
        curve,
        params.mint,
        params.quote_token_program,
        params.user,
        fee_recipient,
        buyback_fee_recipient,
        params.base_amount,
        params.sol_amount_threshold,
    );
}

/// Whether `key` may receive the fees of trades on curves: it is set, and it is the
/// recipient or one of the list, the reserved ones for mayhem coins.
pub open spec fn may_receive(global: &Global, is_mayhem: bool, key: Pubkey) -> bool {
    &&& key != DEFAULT_KEY
    &&& is_mayhem ==> key == global.reserved_fee_recipient
        || global.reserved_fee_recipients@.contains(key)
    &&& !is_mayhem ==> key == global.fee_recipient || global.fee_recipients@.contains(key)
}

/// Whether `key` is set and in the list.
pub open spec fn is_listed(keys: Seq<Pubkey>, key: Pubkey) -> bool {
    key != DEFAULT_KEY && keys.contains(key)
}

/// The outcome of a trade on a curve: with a fee recipient and a buyback recipient of
/// the global settings there is the list for one such pair; nothing where one of them
/// is missing.
pub proof fn law_curve_outcomes(
    params: TradeTxWithVenueParams<'_>,
    global: &Global,
    curve: &BondingCurve,
    r: Option<Seq<InstructionView>>,
)
    requires
        params.venue == (TradeVenue::BondingCurve { global, bonding_curve: curve }),
        trade_outcome(params, r),
    ensures
        r matches Some(list) ==> exists|fee: Pubkey, buyback: Pubkey|
            {
                &&& may_receive(global, curve.is_mayhem_mode, fee)
                &&& is_listed(global.buyback_fee_recipients@, buyback)
                &&& #[trigger] curve_trade_views(params, curve, fee, buyback) == Some(list)
            },
        r is None ==> {
            ||| forall|fee: Pubkey| !#[trigger] may_receive(global, curve.is_mayhem_mode, fee)
            ||| forall|buyback: Pubkey|
                !#[trigger] is_listed(global.buyback_fee_recipients@, buyback)
            ||| exists|fee: Pubkey, buyback: Pubkey|
                {
                    &&& may_receive(global, curve.is_mayhem_mode, fee)
                    &&& is_listed(global.buyback_fee_recipients@, buyback)
                    &&& (#[trigger] curve_trade_views(params, curve, fee, buyback)) is None
                }
        },
{
    let mayhem = curve.is_mayhem_mode;
    assert forall|key: Pubkey| #[trigger]
        is_listed(global.buyback_fee_recipients@, key) implies buyback_candidate(global, key) by {}
    assert forall|key: Pubkey| #[trigger] may_receive(global, mayhem, key) implies fee_candidate(
        global,
        mayhem,
        key,
    ) by {}
    if exists|fee: Pubkey, buyback: Pubkey|
        {
            &&& #[trigger] fee_candidate(global, mayhem, fee)
            &&& #[trigger] buyback_candidate(global, buyback)
            &&& r == curve_trade_views(params, curve, fee, buyback)
        } {
        let (fee, buyback) = choose|fee: Pubkey, buyback: Pubkey|
            {
                &&& #[trigger] fee_candidate(global, mayhem, fee)
                &&& #[trigger] buyback_candidate(global, buyback)
                &&& r == curve_trade_views(params, curve, fee, buyback)
            };
        assert(may_receive(global, mayhem, fee));
        assert(is_listed(global.buyback_fee_recipients@, buyback));
    }
}

/// The outcome of a trade in a pool: with a protocol recipient and a buyback recipient
/// of the AMM's settings there is the list for one such pair; nothing where one of them
/// is missing.
pub proof fn law_pool_outcomes(
    params: TradeTxWithVenueParams<'_>,
    pool: Pubkey,
    config: &GlobalConfig,
    pool_state: &Pool,
    r: Option<Seq<InstructionView>>,
)
    requires
        params.venue == (TradeVenue::Amm { pool, amm_global: config, pool_state }),
        trade_outcome(params, r),
    ensures
        r matches Some(list) ==> exists|fee: Pubkey, buyback: Pubkey|
            {
                &&& is_listed(config.protocol_fee_recipients@, fee)
                &&& is_listed(config.buyback_fee_recipients@, buyback)
                &&& #[trigger] pool_trade_views(params, pool, pool_state, fee, buyback) == Some(
                    list,
                )
            },
        r is None ==> {
            ||| forall|fee: Pubkey| !#[trigger] is_listed(config.protocol_fee_recipients@, fee)
            ||| forall|buyback: Pubkey|
                !#[trigger] is_listed(config.buyback_fee_recipients@, buyback)
            ||| exists|fee: Pubkey, buyback: Pubkey|
                {
                    &&& is_listed(config.protocol_fee_recipients@, fee)
                    &&& is_listed(config.buyback_fee_recipients@, buyback)
                    &&& (#[trigger] pool_trade_views(params, pool, pool_state, fee, buyback)) is None
                }
        },
{
    assert forall|key: Pubkey| #[trigger]
        is_listed(config.protocol_fee_recipients@, key) implies amm_fee_candidate(
        config,
        key,
    ) by {}
    assert forall|key: Pubkey| #[trigger]
        is_listed(config.buyback_fee_recipients@, key) implies amm_buyback_candidate(
        config,
        key,
    ) by {}
    if exists|fee: Pubkey, buyback: Pubkey|
        {
            &&& #[trigger] amm_fee_candidate(config, fee)
            &&& #[trigger] amm_buyback_candidate(config, buyback)
            &&& r == pool_trade_views(params, pool, pool_state, fee, buyback)
        } {
        let (fee, buyback) = choose|fee: Pubkey, buyback: Pubkey|
            {
                &&& #[trigger] amm_fee_candidate(config, fee)
                &&& #[trigger] amm_buyback_candidate(config, buyback)
                &&& r == pool_trade_views(params, pool, pool_state, fee, buyback)
            };
        assert(is_listed(config.protocol_fee_recipients@, fee));
        assert(is_listed(config.buyback_fee_recipients@, buyback));
    }
}

/// A request on a complete curve trades in the pool what it asks for: the pool's program
/// reads the amount and the limit of the request, and the user of the request signs.
pub proof fn law_routed_pool_trades(
    params: TradeTxParams<'_>,
    explicit: TradeTxWithVenueParams<'_>,
    list: Seq<InstructionView>,
)
    requires
        params.bonding_curve.complete,
        routed(params) == Some(explicit),
        trade_outcome(explicit, Some(list)),
    ensures
        ({
            let native = params.pump_pool matches Some(p) && p.pool_state.quote_mint == NATIVE_MINT;
            let at = if !params.is_buy {
                1int
            } else if native {
                4
            } else {
                2
            };
            let tag = if params.is_buy {
                BUY
            } else {
                SELL
            };
            &&& params.pump_pool matches Some(p) && list[at].accounts[0].pubkey == p.pool
            &&& list[at].program_id == pump_amm::PROGRAM_ID
            &&& reads_as_amounts(
                list[at].data,
                tag,
                params.base_amount,
                params.sol_amount_threshold,
            )
            &&& list[at].accounts[1].pubkey == params.user
            &&& list[at].accounts[1].is_signer
        }),
{
    law_requests_are_routed(params);
    let p = params.pump_pool.unwrap();
    law_pool_outcomes(explicit, p.pool, p.amm_global, p.pool_state, Some(list));
    let (fee, buyback) = choose|fee: Pubkey, buyback: Pubkey|
        {
            &&& is_listed(p.amm_global.protocol_fee_recipients@, fee)
            &&& is_listed(p.amm_global.buyback_fee_recipients@, buyback)
            &&& #[trigger] pool_trade_views(explicit, p.pool, p.pool_state, fee, buyback) == Some(
                list,
            )
        };
    let trade = requested_trade(explicit, p.pool, p.pool_state, fee, buyback);
    if params.is_buy {
        law_pool_purchase_list(explicit, p.pool, p.pool_state, fee, buyback);
        law_buy_amm_data(&trade, params.base_amount, params.sol_amount_threshold);
        law_pool_purchases_name(&trade, params.base_amount, params.sol_amount_threshold);
    } else {
        law_pool_sale_list(explicit, p.pool, p.pool_state, fee, buyback);
        law_sell_amm_data(&trade, params.base_amount, params.sol_amount_threshold);
    }
}

/// A request on an open curve trades on it what it asks for: the last instruction of the
/// list goes to the bonding-curve program, which reads the amount and the limit of the
/// request, for the coin of the request, and the user of the request signs it.
pub proof fn law_routed_curve_trades(
    params: TradeTxParams<'_>,
    explicit: TradeTxWithVenueParams<'_>,
    list: Seq<InstructionView>,
)
    requires
        !params.bonding_curve.complete,
        routed(params) == Some(explicit),
        trade_outcome(explicit, Some(list)),
    ensures
        ({
            let trade = list.last();
            let tag = if params.is_buy {
                BUY_V2
            } else {
                SELL_V2
            };
            &&& trade.program_id == pump::PROGRAM_ID
            &&& reads_as_amounts(
                trade.data,
                tag,
                params.base_amount,
                params.sol_amount_threshold,
            )
            &&& trade.accounts[1].pubkey == params.mint
            &&& trade.accounts[13].pubkey == params.user
            &&& trade.accounts[13].is_signer
        }),
{
    law_requests_are_routed(params);
    let curve = params.bonding_curve;
    law_curve_outcomes(explicit, params.pump_global, curve, Some(list));
    let (fee, buyback) = choose|fee: Pubkey, buyback: Pubkey|
        {
            &&& may_receive(params.pump_global, curve.is_mayhem_mode, fee)
            &&& is_listed(params.pump_global.buyback_fee_recipients@, buyback)
            &&& #[trigger] curve_trade_views(explicit, curve, fee, buyback) == Some(list)
        };
    law_curve_request_list(explicit, curve, fee, buyback);
    let trade = curve_trade(
        curve,
        params.mint,
        params.quote_token_program,
        params.user,
        fee,
        buyback,
    );
    let amount = params.base_amount;
    let limit = params.sol_amount_threshold;
    law_buy_v2_data(&trade, amount, limit);
    law_sell_v2_data(&trade, amount, limit);
    law_curve_purchases_name(&trade, amount, limit);
    law_curve_sales_name(&trade, amount, limit);
}

/// The recipients to choose from: those that may receive the fees of a curve's trades,
/// and of each list those that are set.
pub proof fn law_recipient_candidates(
    global: &Global,
    is_mayhem: bool,
    config: &GlobalConfig,
    key: Pubkey,
)
    ensures
        fee_candidate(global, is_mayhem, key) <==> may_receive(global, is_mayhem, key),
        buyback_candidate(global, key) <==> is_listed(global.buyback_fee_recipients@, key),
        amm_fee_candidate(config, key) <==> is_listed(config.protocol_fee_recipients@, key),
        amm_buyback_candidate(config, key) <==> is_listed(config.buyback_fee_recipients@, key),
{
}

/// What is built for recipients picked from the global settings is what is built for one
/// pair of those who may be picked; nothing is built without such a pair.
pub proof fn law_built_for_recipients<T>(
    global: &Global,
    is_mayhem: bool,
    build: spec_fn(Pubkey, Pubkey) -> Option<T>,
    r: Option<T>,
)
    requires
        built_with_recipients(global, is_mayhem, build, r),
    ensures
        ({
            ||| exists|fee: Pubkey, buyback: Pubkey|
                {
                    &&& #[trigger] may_receive(global, is_mayhem, fee)
                    &&& #[trigger] is_listed(global.buyback_fee_recipients@, buyback)
                    &&& r == build(fee, buyback)
                }
            ||| {
                &&& r is None
                &&& forall|fee: Pubkey, buyback: Pubkey|
                    !(#[trigger] may_receive(global, is_mayhem, fee) && #[trigger] is_listed(
                        global.buyback_fee_recipients@,
                        buyback,
                    ))
            }
        }),
{
    assert forall|key: Pubkey| #[trigger] may_receive(global, is_mayhem, key) implies fee_candidate(
        global,
        is_mayhem,
        key,
    ) by {}
    assert forall|key: Pubkey| #[trigger]
        is_listed(global.buyback_fee_recipients@, key) implies buyback_candidate(global, key) by {}
    if exists|fee: Pubkey, buyback: Pubkey|
        {
            &&& #[trigger] fee_candidate(global, is_mayhem, fee)
            &&& #[trigger] buyback_candidate(global, buyback)
            &&& r == build(fee, buyback)
        } {
        let (fee, buyback) = choose|fee: Pubkey, buyback: Pubkey|
            {
                &&& #[trigger] fee_candidate(global, is_mayhem, fee)
                &&& #[trigger] buyback_candidate(global, buyback)
                &&& r == build(fee, buyback)
            };
        assert(may_receive(global, is_mayhem, fee));
        assert(is_listed(global.buyback_fee_recipients@, buyback));
    }
}

/// What is built for recipients picked from the AMM's settings is what is built for one
/// pair of those that are set; nothing is built without such a pair.
pub proof fn law_built_for_amm_recipients<T>(
    config: &GlobalConfig,
    build: spec_fn(Pubkey, Pubkey) -> Option<T>,
    r: Option<T>,
)
    requires
        built_with_amm_recipients(config, build, r),
    ensures
        ({
            ||| exists|fee: Pubkey, buyback: Pubkey|
                {
                    &&& #[trigger] is_listed(config.protocol_fee_recipients@, fee)
                    &&& #[trigger] is_listed(config.buyback_fee_recipients@, buyback)
                    &&& r == build(fee, buyback)
                }
            ||| {
                &&& r is None
                &&& forall|fee: Pubkey, buyback: Pubkey|
                    !(#[trigger] is_listed(config.protocol_fee_recipients@, fee)
                        && #[trigger] is_listed(config.buyback_fee_recipients@, buyback))
            }
        }),
{
    assert forall|key: Pubkey| #[trigger]
        is_listed(config.protocol_fee_recipients@, key) implies amm_fee_candidate(
        config,
        key,
    ) by {}
    assert forall|key: Pubkey| #[trigger]
        is_listed(config.buyback_fee_recipients@, key) implies amm_buyback_candidate(
        config,
        key,
    ) by {}
    if exists|fee: Pubkey, buyback: Pubkey|
        {
            &&& #[trigger] amm_fee_candidate(config, fee)
            &&& #[trigger] amm_buyback_candidate(config, buyback)
            &&& r == build(fee, buyback)
        } {
        let (fee, buyback) = choose|fee: Pubkey, buyback: Pubkey|
            {
                &&& #[trigger] amm_fee_candidate(config, fee)
                &&& #[trigger] amm_buyback_candidate(config, buyback)
                &&& r == build(fee, buyback)
            };
        assert(is_listed(config.protocol_fee_recipients@, fee));
        assert(is_listed(config.buyback_fee_recipients@, buyback));
    }
}

/// A trade takes the quote mint and the creator from the curve, or the mints, the
/// creator and the cashback flag from the pool, and the rest as given.
pub proof fn law_trades_follow_their_venue(
    curve: &BondingCurve,
    pool: Pubkey,
    pool_state: &Pool,
    coin: Pubkey,
    base_program: Pubkey,
    quote_program: Pubkey,
    user: Pubkey,
    fee_recipient: Pubkey,
    buyback_fee_recipient: Pubkey,
)
    ensures
        trade_on(curve, coin, quote_program, user, fee_recipient, buyback_fee_recipient)
            == curve_trade(
            curve,
            coin,
            quote_program,
            user,
            fee_recipient,
            buyback_fee_recipient,
        ),
        ({
            let trade = trade_in(
                pool,
                pool_state,
                base_program,
                quote_program,
                user,
                fee_recipient,
                buyback_fee_recipient,
            );
            &&& trade.pool == pool
            &&& trade.base_mint == pool_state.base_mint
            &&& trade.quote_mint == pool_state.quote_mint
            &&& trade.base_token_program == base_program
            &&& trade.quote_token_program == quote_program
            &&& trade.user == user
            &&& trade.coin_creator == pool_state.coin_creator
            &&& trade.protocol_fee_recipient == fee_recipient
            &&& trade.buyback_fee_recipient == buyback_fee_recipient
            &&& trade.is_cashback_coin == pool_state.is_cashback_coin
        }),
{
}

/// A list of candidates holds each of them once, and nobody else.
pub proof fn law_candidate_lists(keys: Seq<Pubkey>, candidate: spec_fn(Pubkey) -> bool)
    requires
        lists_exactly(keys, candidate),
    ensures
        forall|key: Pubkey| candidate(key) ==> #[trigger] keys.contains(key),
        forall|i: int| 0 <= i < keys.len() ==> candidate(#[trigger] keys[i]),
        forall|i: int, j: int|
            0 <= i < keys.len() && 0 <= j < keys.len() && #[trigger] keys[i] == #[trigger] keys[j]
                ==> i == j,
{
    assert forall|i: int| 0 <= i < keys.len() implies candidate(#[trigger] keys[i]) by {
        assert(keys.contains(keys[i]));
    }
    assert forall|i: int, j: int|
        0 <= i < keys.len() && 0 <= j < keys.len() && #[trigger] keys[i] == #[trigger] keys[j]
            implies i == j by {
        if i < j {
            assert(rank(keys[i]@) < rank(keys[j]@));
        } else if j < i {
            assert(rank(keys[j]@) < rank(keys[i]@));
        }
    }
}

} // verus!
