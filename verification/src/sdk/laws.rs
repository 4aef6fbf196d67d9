//! Laws of the builders and quotes.

use vstd::prelude::*;

use crate::constants::pump::PROGRAM_ID;
use crate::constants::{NATIVE_MINT, SPL_ATA_PROGRAM_ID, SPL_TOKEN_2022_PROGRAM_ID};
use crate::instruction::{followed_by, none_yet, readonly, signing, writable, InstructionView};
use crate::math::fees::pump_pool;
use crate::math::utils::law_slippage_direction;
use crate::math::QuoteResult;
use crate::pubkey::{Pubkey, DEFAULT_KEY};
use crate::sdk::create::{
    agent_initialize_view, claim_cashback_v2_view, create_coin_views, create_v2_view,
};
use crate::sdk::pump_v2::{
    buy_exact_quote_in_v2_view, buy_v2_accounts, buy_v2_instructions_views, buy_v2_view,
    has_other_quote, sell_v2_accounts, sell_v2_instructions_views, sell_v2_view, trade_atas,
    trade_on, V2Trade,
};
use crate::sdk::trade_tx::{
    pool_trade_views, routed, TradeTxParams, TradeTxWithVenueParams, TradeVenue,
};
use crate::sdk::{
    acceptable, curve_buy_quote, curve_sell_quote, curve_token_out_quote, payable, pool_buy_quote,
    pool_sell_quote, pool_token_out_quote, quote_inputs, routed_quote, AmmQuoteInputs,
    AmmQuoteSource, Quote, TradeQuoteParams,
};
use crate::state::pump_amm::{GlobalConfig, Pool};
use crate::state::{BondingCurve, FeeConfig, Global};
use crate::token::{created, unwrap_sol_view, wrap_sol_views};

verus! {

/// A buy names 27 accounts, the bonding-curve program last; the user, and nobody else,
/// signs. A program with the same account order can pass them on unchanged.
pub proof fn law_buy_v2_accounts(trade: &V2Trade)
    ensures
        buy_v2_accounts(trade) matches Some(accounts) ==> {
            &&& accounts.len() == 27
            &&& accounts.last() == readonly(PROGRAM_ID)
            &&& accounts[13] == signing(trade.user)
            &&& forall|i: int|
                0 <= i < accounts.len() && (#[trigger] accounts[i]).is_signer ==> i == 13
        },
{
}

/// A sell names the accounts of a buy but for the global volume accumulator.
pub proof fn law_sell_v2_accounts(trade: &V2Trade)
    ensures
        buy_v2_accounts(trade) matches Some(buy) ==> sell_v2_accounts(trade) == Some(
            buy.remove(19),
        ),
        sell_v2_accounts(trade) matches Some(accounts) ==> {
            &&& accounts.len() == 26
            &&& accounts.last() == readonly(PROGRAM_ID)
            &&& accounts[13] == signing(trade.user)
            &&& forall|i: int|
                0 <= i < accounts.len() && (#[trigger] accounts[i]).is_signer ==> i == 13
        },
{
    if let Some(buy) = buy_v2_accounts(trade) {
        assert(sell_v2_accounts(trade).unwrap() =~= buy.remove(19));
    }
}

/// The same trade with another quote mint.
pub open spec fn with_quote_mint(trade: V2Trade, quote_mint: Pubkey) -> V2Trade {
    V2Trade { quote_mint, ..trade }
}

/// The all-zero quote mint and the wrapped-SOL mint build the same trades, the same
/// coins and the same claims.
pub proof fn law_default_quote_is_wrapped_sol(
    trade: V2Trade,
    first: u64,
    second: u64,
    mint: Pubkey,
    user: Pubkey,
    name: Seq<char>,
    symbol: Seq<char>,
    uri: Seq<char>,
    creator: Pubkey,
    mayhem_mode: bool,
    cashback: bool,
    quote_token_program: Pubkey,
)
    ensures
        ({
            let zero = with_quote_mint(trade, DEFAULT_KEY);
            let native = with_quote_mint(trade, NATIVE_MINT);
            &&& buy_v2_view(&zero, first, second) == buy_v2_view(&native, first, second)
            &&& buy_exact_quote_in_v2_view(&zero, first, second) == buy_exact_quote_in_v2_view(
                &native,
                first,
                second,
            )
            &&& sell_v2_view(&zero, first, second) == sell_v2_view(&native, first, second)
        }),
        create_v2_view(
            mint,
            user,
            name,
            symbol,
            uri,
            creator,
            DEFAULT_KEY,
            mayhem_mode,
            cashback,
        ) == create_v2_view(
            mint,
            user,
            name,
            symbol,
            uri,
            creator,
            NATIVE_MINT,
            mayhem_mode,
            cashback,
        ),
        claim_cashback_v2_view(user, DEFAULT_KEY, quote_token_program) == claim_cashback_v2_view(
            user,
            NATIVE_MINT,
            quote_token_program,
        ),
{
    let zero = with_quote_mint(trade, DEFAULT_KEY);
    let native = with_quote_mint(trade, NATIVE_MINT);
    assert(zero.accounts() == native.accounts());
}

/// A curve quoted in SOL needs one token account on a buy, the user's own for the
/// coin, and none on a sell.
pub proof fn law_token_accounts_of_sol_curves(
    user: Pubkey,
    base_mint: Pubkey,
    curve: &BondingCurve,
    base_token_program: Pubkey,
    quote_token_program: Pubkey,
)
    requires
        !has_other_quote(curve),
    ensures
        trade_atas(
            user,
            base_mint,
            curve,
            base_token_program,
            quote_token_program,
            true,
        ) == followed_by(none_yet(), created(user, user, base_mint, base_token_program)),
        trade_atas(
            user,
            base_mint,
            curve,
            base_token_program,
            quote_token_program,
            false,
        ) == none_yet(),
{
}

/// Whether an instruction creates a token account unless it exists.
pub open spec fn creates_account(instruction: InstructionView) -> bool {
    instruction.program_id == SPL_ATA_PROGRAM_ID && instruction.data == seq![1u8]
}

/// Whether an instruction creates the token account at `address`.
pub open spec fn creates_account_at(instruction: InstructionView, address: Pubkey) -> bool {
    creates_account(instruction) && instruction.accounts[1] == writable(address)
}

/// The token accounts created before a trade on a curve quoted in something else than
/// SOL are accounts that the trade itself names: the user's, the creator vault's and
/// the curve's quote account, and for a cashback coin that of the user's volume
/// accumulator. The user's base account stands before them on a buy.
pub proof fn law_created_accounts_are_traded(
    curve: &BondingCurve,
    base_mint: Pubkey,
    quote_token_program: Pubkey,
    user: Pubkey,
    fee_recipient: Pubkey,
    buyback_fee_recipient: Pubkey,
    include_base: bool,
)
    requires
        has_other_quote(curve),
    ensures
        trade_on(
            curve,
            base_mint,
            quote_token_program,
            user,
            fee_recipient,
            buyback_fee_recipient,
        ).accounts() matches Some(traded) ==> (trade_atas(
            user,
            base_mint,
            curve,
            SPL_TOKEN_2022_PROGRAM_ID,
            quote_token_program,
            include_base,
        ) matches Some(list) && {
            let first = if include_base {
                1int
            } else {
                0
            };
            &&& include_base ==> creates_account_at(list[0], traded.associated_base_user)
            &&& creates_account_at(list[first], traded.associated_quote_user)
            &&& creates_account_at(list[first + 1], traded.associated_creator_vault)
            &&& creates_account_at(list[first + 2], traded.associated_quote_bonding_curve)
            &&& curve.is_cashback_coin ==> creates_account_at(
                list[first + 3],
                traded.associated_user_volume_accumulator,
            )
        }),
{
}

/// What stands before a trade only creates token accounts; on a sell the user's base
/// account is not among them, so one instruction fewer stands there than on a buy.
pub proof fn law_only_token_accounts_before_a_trade(
    user: Pubkey,
    base_mint: Pubkey,
    curve: &BondingCurve,
    base_token_program: Pubkey,
    quote_token_program: Pubkey,
    include_base: bool,
)
    ensures
        trade_atas(
            user,
            base_mint,
            curve,
            base_token_program,
            quote_token_program,
            include_base,
        ) matches Some(list) ==> {
            &&& forall|i: int| 0 <= i < list.len() ==> creates_account(#[trigger] list[i])
            &&& list.len() == (if include_base {
                1int
            } else {
                0
            }) + (if has_other_quote(curve) {
                if curve.is_cashback_coin {
                    4int
                } else {
                    3
                }
            } else {
                0
            })
        },
{
}

/// The lists end with the instruction that the single builders give.
pub proof fn law_lists_end_with_the_trade(
    curve: &BondingCurve,
    base_mint: Pubkey,
    quote_token_program: Pubkey,
    user: Pubkey,
    fee_recipient: Pubkey,
    buyback_fee_recipient: Pubkey,
    amount: u64,
    limit: u64,
)
    ensures
        ({
            let trade = trade_on(
                curve,
                base_mint,
                quote_token_program,
                user,
                fee_recipient,
                buyback_fee_recipient,
            );
            &&& buy_v2_instructions_views(
                curve,
                base_mint,
                quote_token_program,
                user,
                fee_recipient,
                buyback_fee_recipient,
                amount,
                limit,
            ) matches Some(list) ==> buy_v2_view(&trade, amount, limit) == Some(list.last())
            &&& sell_v2_instructions_views(
                curve,
                base_mint,
                quote_token_program,
                user,
                fee_recipient,
                buyback_fee_recipient,
                amount,
                limit,
            ) matches Some(list) ==> sell_v2_view(&trade, amount, limit) == Some(list.last())
        }),
{
}

/// A buyback rate adds one instruction to the creation of a coin, the registration of
/// the agent, at the end.
pub proof fn law_agent_is_registered_last(
    mint: Pubkey,
    user: Pubkey,
    name: Seq<char>,
    symbol: Seq<char>,
    uri: Seq<char>,
    creator: Pubkey,
    quote_mint: Pubkey,
    mayhem_mode: bool,
    cashback: bool,
    bps: u16,
    agent_program: Pubkey,
    fee_recipient: Pubkey,
    buyback_fee_recipient: Pubkey,
    amount: u64,
    max_quote_tokens: u64,
)
    ensures
        create_coin_views(
            mint,
            user,
            name,
            symbol,
            uri,
            creator,
            quote_mint,
            mayhem_mode,
            cashback,
            Some(bps),
            agent_program,
            fee_recipient,
            buyback_fee_recipient,
            amount,
            max_quote_tokens,
        ) == followed_by(
            create_coin_views(
                mint,
                user,
                name,
                symbol,
                uri,
                creator,
                quote_mint,
                mayhem_mode,
                cashback,
                None,
                agent_program,
                fee_recipient,
                buyback_fee_recipient,
                amount,
                max_quote_tokens,
            ),
            agent_initialize_view(mint, user, creator, bps, agent_program),
        ),
{
}

/// A trade in a pool quoted in wrapped SOL ends by unwrapping; a buy wraps exactly the
/// limit it sets on the payment. Other pools do neither.
pub proof fn law_pool_trades_wrap_and_unwrap(
    params: TradeTxWithVenueParams<'_>,
    pool: Pubkey,
    pool_state: &Pool,
    fee_recipient: Pubkey,
    buyback_fee_recipient: Pubkey,
)
    ensures
        pool_trade_views(
            params,
            pool,
            pool_state,
            fee_recipient,
            buyback_fee_recipient,
        ) matches Some(list) ==> {
            let native = pool_state.quote_mint == NATIVE_MINT;
            &&& native ==> unwrap_sol_view(params.user) == Some(list.last())
            &&& native && params.is_buy ==> list.len() == 6 && wrap_sol_views(
                params.user,
                params.sol_amount_threshold,
            ) == Some(list.subrange(2, 4))
            &&& native && !params.is_buy ==> list.len() == 3
            &&& !native ==> list.len() == (if params.is_buy {
                3int
            } else {
                2
            })
        },
{
    if let Some(list) = pool_trade_views(
        params,
        pool,
        pool_state,
        fee_recipient,
        buyback_fee_recipient,
    ) {
        if pool_state.quote_mint == NATIVE_MINT && params.is_buy {
            let wrap = wrap_sol_views(params.user, params.sol_amount_threshold).unwrap();
            assert(list.subrange(2, 4) =~= wrap);
        }
    }
}

/// The routed trade is the explicit one: on the curve while it is open, in the pool
/// once it is complete.
pub proof fn law_routing_is_explicit(params: TradeTxParams<'_>)
    ensures
        !params.bonding_curve.complete ==> (routed(params) matches Some(explicit)
            && explicit.venue == (TradeVenue::BondingCurve {
            global: params.pump_global,
            bonding_curve: params.bonding_curve,
        })),
        params.bonding_curve.complete ==> match params.pump_pool {
            None => routed(params) is None,
            Some(p) => routed(params) matches Some(explicit) && explicit.venue == (TradeVenue::Amm {
                pool: p.pool,
                amm_global: p.amm_global,
                pool_state: p.pool_state,
            }),
        },
{
}

/// Quotes and trades take the same route: for the same curve and with a pool for both
/// or for neither, there is a quote exactly where there is a trade.
pub proof fn law_quotes_route_like_trades(quote: TradeQuoteParams<'_>, trade: TradeTxParams<'_>)
    requires
        *quote.bonding_curve == *trade.bonding_curve,
        quote.pump_pool is Some <==> trade.pump_pool is Some,
    ensures
        routed_quote(quote) is Some <==> routed(trade) is Some,
        routed_quote(quote) is None <==> quote.bonding_curve.complete && quote.pump_pool is None,
{
}

/// The pool that a completed curve is expected to open is canonical, so its trades
/// take tiered fees, and it carries no virtual reserves.
pub proof fn law_completed_curves_open_canonical_pools(
    global_config: &GlobalConfig,
    fee_config: Option<&FeeConfig>,
    global: &Global,
    curve: &BondingCurve,
    base_mint: &Pubkey,
    base_mint_supply: u64,
)
    ensures
        quote_inputs(
            global_config,
            fee_config,
            AmmQuoteSource::BondingCurveComplete {
                global,
                bonding_curve: curve,
                base_mint,
                base_mint_supply,
            },
        ) matches Ok(inputs) ==> {
            &&& pump_pool(inputs.base_mint, inputs.pool_creator)
            &&& inputs.virtual_quote_reserves == 0
            &&& inputs.coin_creator == curve.creator
        },
{
}

/// Whether a quote's bounds lie on the right side of its amounts. `paid` says that the
/// amount is a payment rather than a receipt.
pub open spec fn bounds_hold(quote: Quote, paid: bool) -> bool {
    if paid {
        quote.amount <= quote.max_input
    } else {
        quote.min_out <= quote.amount && quote.input_amount_used <= quote.max_input
    }
}

proof fn lemma_bounds(amount: u64, bps: u16)
    ensures
        acceptable(amount, bps) <= amount <= payable(amount, bps),
{
    law_slippage_direction(amount, bps);
    assert(0 <= crate::math::utils::lowered(amount as int, bps as int)) by {
        if bps < 10_000 {
            assert(0 <= amount * (10_000 - bps)) by (nonlinear_arith)
                requires
                    0 <= amount,
                    0 <= bps < 10_000,
            ;
        }
    }
}

/// Slippage never asks for more than was quoted, nor allows to pay less.
pub proof fn law_quotes_respect_slippage(
    global: &Global,
    fee_config: Option<&FeeConfig>,
    curve: &BondingCurve,
    mint_supply: u64,
    inputs: QuoteResult<AmmQuoteInputs<'_>>,
    amount: u64,
    bps: u16,
)
    ensures
        curve_buy_quote(
            global,
            fee_config,
            curve,
            mint_supply,
            amount,
            bps,
        ) matches Ok(quote) ==> bounds_hold(quote, false),
        curve_token_out_quote(
            global,
            fee_config,
            curve,
            mint_supply,
            amount,
            bps,
        ) matches Ok(quote) ==> bounds_hold(quote, true),
        curve_sell_quote(
            global,
            fee_config,
            curve,
            mint_supply,
            amount,
            bps,
        ) matches Ok(quote) ==> bounds_hold(quote, false),
        pool_buy_quote(inputs, amount, bps) matches Ok(quote) ==> bounds_hold(quote, false),
        pool_token_out_quote(inputs, amount, bps) matches Ok(quote) ==> bounds_hold(quote, true),
        pool_sell_quote(inputs, amount, bps) matches Ok(quote) ==> bounds_hold(quote, false),
{
    assert forall|x: u64| #[trigger] acceptable(x, bps) <= x && x <= payable(x, bps) by {
        lemma_bounds(x, bps);
    }
    assert forall|x: u64| x <= #[trigger] payable(x, bps) by {
        lemma_bounds(x, bps);
    }
}

} // verus!
