//! Quotes and instruction builders. Nothing here talks to a cluster.

use vstd::prelude::*;

use crate::math::amm::{
    base_for_quote, buy_base_input, buy_quote_input, quote_for_base, quote_from_base,
    sell_base_input, AmmContext,
};
use crate::math::bonding_curve::{
    buy_sol_amount_from_token_amount, buy_token_amount_from_sol_amount,
    sell_sol_amount_from_token_amount, sol_for_tokens, sol_from_tokens, tokens_for_sol,
};
use crate::math::utils::{add_slippage, lowered, raised, sub_slippage};
use crate::math::{QuoteError, QuoteResult};
use crate::pda::pump::{pool_authority, pool_authority_pda};
use crate::pubkey::Pubkey;
use crate::state::pump_amm::{GlobalConfig, Pool};
use crate::state::{BondingCurve, FeeConfig, Global};

pub mod account_laws;
pub mod create;
pub mod data_laws;
pub mod encoding;
pub mod laws;
pub mod list_laws;
pub mod pump_amm_ix;
pub mod pump_legacy;
pub mod pump_v2;
pub mod quote_laws;
pub mod recipients;
pub mod trade_tx;

pub use create::CreateCoinParams;
pub use trade_tx::{PumpPoolCtx, TradeTxParams, TradeTxWithVenueParams, TradeVenue};

verus! {

/// A quote. `amount` is the tokens or lamports out, or the cost of a fixed
/// purchase; `min_out` and `max_input` carry the slippage.
#[derive(Clone, Copy, Debug, PartialEq, Eq)]
pub struct Quote {
    pub amount: u64,
    pub min_out: u64,
    pub input_amount_used: u64,
    pub max_input: u64,
}

/// Where an AMM quote takes its reserves from: a live pool, or the pool that a
/// completed curve is expected to open.
#[derive(Clone, Copy, Debug)]
pub enum AmmQuoteSource<'a> {
    Pool { pool: &'a Pool, base_reserve: u64, quote_reserve: u64, base_mint_supply: u64 },
    BondingCurveComplete {
        global: &'a Global,
        bonding_curve: &'a BondingCurve,
        base_mint: &'a Pubkey,
        base_mint_supply: u64,
    },
}

/// A pool to quote against after migration.
#[derive(Clone, Copy, Debug)]
pub struct PumpPoolQuoteCtx<'a> {
    pub amm_global: &'a GlobalConfig,
    pub amm_fee_config: Option<&'a FeeConfig>,
    pub pool_state: &'a Pool,
    pub base_reserve: u64,
    pub quote_reserve: u64,
}

/// Parameters of [`PumpSdk::quote_trade`], which routes on the curve's `complete`.
/// `pump_pool` is needed once the curve is complete.
#[derive(Clone, Copy, Debug)]
pub struct TradeQuoteParams<'a> {
    pub is_buy: bool,
    pub base_amount: u64,
    pub slippage_bps: u16,
    pub base_mint_supply: u64,
    pub pump_global: &'a Global,
    pub pump_fee_config: Option<&'a FeeConfig>,
    pub bonding_curve: &'a BondingCurve,
    pub pump_pool: Option<PumpPoolQuoteCtx<'a>>,
}

/// The entry point to quotes and builders.
#[derive(Clone, Copy, Debug, Default)]
pub struct PumpSdk;

/// The most to pay for something quoted at `amount`.
pub open spec fn payable(amount: u64, bps: u16) -> u64 {
    if raised(amount as int, bps as int) > u64::MAX {
        u64::MAX
    } else {
        raised(amount as int, bps as int) as u64
    }
}

/// The least to accept for something quoted at `amount`.
pub open spec fn acceptable(amount: u64, bps: u16) -> u64 {
    lowered(amount as int, bps as int) as u64
}

/// The quote for spending `spent` to receive `received`, where the input is exact.
pub open spec fn exact_in_quote(received: u64, spent: u64, bps: u16) -> Quote {
    Quote {
        amount: received,
        min_out: acceptable(received, bps),
        input_amount_used: spent,
        max_input: spent,
    }
}

/// The quote for receiving exactly `received` at the price `cost`.
pub open spec fn exact_out_quote(cost: u64, received: u64, bps: u16) -> Quote {
    Quote {
        amount: cost,
        min_out: received,
        input_amount_used: received,
        max_input: payable(cost, bps),
    }
}

/// The reserves that a completed curve is expected to open its pool with: the
/// supply that was never for sale, and the raised quote less the migration fee.
pub open spec fn opening_reserves(global: &Global, curve: &BondingCurve) -> QuoteResult<
    (u64, u64),
> {
    let base = global.token_total_supply - global.initial_real_token_reserves;
    let quote = curve.real_quote_reserves - global.pool_migration_fee;
    if base <= 0 || quote <= 0 {
        Err(QuoteError::EmptyReserves)
    } else {
        Ok((base as u64, quote as u64))
    }
}

/// Expected pool reserves of a completed curve; not live pool state.
pub fn estimated_reserves(global: &Global, bonding_curve: &BondingCurve) -> (r: QuoteResult<
    (u64, u64),
>)
    ensures
        r == opening_reserves(global, bonding_curve),
{
    match global.token_total_supply.checked_sub(global.initial_real_token_reserves) {
        None => Err(QuoteError::EmptyReserves),
        Some(base) => match bonding_curve.real_quote_reserves.checked_sub(
            global.pool_migration_fee,
        ) {
            None => Err(QuoteError::EmptyReserves),
            Some(quote) => {
                if base == 0 || quote == 0 {
                    Err(QuoteError::EmptyReserves)
                } else {
                    Ok((base, quote))
                }
            },
        },
    }
}

/// An AMM trade context with its keys held by value.
#[derive(Clone, Copy, Debug)]
pub struct AmmQuoteInputs<'a> {
    pub global_config: &'a GlobalConfig,
    pub fee_config: Option<&'a FeeConfig>,
    pub base_mint: Pubkey,
    pub pool_creator: Pubkey,
    pub coin_creator: Pubkey,
    pub base_reserve: u64,
    pub quote_reserve: u64,
    pub virtual_quote_reserves: i128,
    pub base_mint_supply: u64,
}

impl<'a> AmmQuoteInputs<'a> {
    /// The context that these inputs describe.
    pub open spec fn spec_context(&self) -> AmmContext<'_> {
        AmmContext {
            global_config: self.global_config,
            fee_config: self.fee_config,
            base_mint: &self.base_mint,
            pool_creator: &self.pool_creator,
            coin_creator: &self.coin_creator,
            base_reserve: self.base_reserve,
            quote_reserve: self.quote_reserve,
            virtual_quote_reserves: self.virtual_quote_reserves,
            base_mint_supply: self.base_mint_supply,
        }
    }

    /// The context that these inputs describe.
    pub fn context(&self) -> (r: AmmContext<'_>)
        ensures
            r == self.spec_context(),
    {
        AmmContext {
            global_config: self.global_config,
            fee_config: self.fee_config,
            base_mint: &self.base_mint,
            pool_creator: &self.pool_creator,
            coin_creator: &self.coin_creator,
            base_reserve: self.base_reserve,
            quote_reserve: self.quote_reserve,
            virtual_quote_reserves: self.virtual_quote_reserves,
            base_mint_supply: self.base_mint_supply,
        }
    }
}

/// What a trade against `source` is priced on. A live pool carries its virtual
/// figure. A completed curve opens a canonical pool without one; where its base
/// mint has no pool authority, there is no such pool and the reserves count as empty.
pub open spec fn quote_inputs<'a>(
    global_config: &'a GlobalConfig,
    fee_config: Option<&'a FeeConfig>,
    source: AmmQuoteSource<'a>,
) -> QuoteResult<AmmQuoteInputs<'a>> {
    match source {
        AmmQuoteSource::Pool { pool, base_reserve, quote_reserve, base_mint_supply } => Ok(
            AmmQuoteInputs {
                global_config,
                fee_config,
                base_mint: pool.base_mint,
                pool_creator: pool.creator,
                coin_creator: pool.coin_creator,
                base_reserve,
                quote_reserve,
                virtual_quote_reserves: pool.virtual_quote_reserves,
                base_mint_supply,
            },
        ),
        AmmQuoteSource::BondingCurveComplete {
            global,
            bonding_curve,
            base_mint,
            base_mint_supply,
        } => match opening_reserves(global, bonding_curve) {
            Err(e) => Err(e),
            Ok((base_reserve, quote_reserve)) => match pool_authority_pda(*base_mint) {
                None => Err(QuoteError::EmptyReserves),
                Some((authority, _)) => Ok(
                    AmmQuoteInputs {
                        global_config,
                        fee_config,
                        base_mint: *base_mint,
                        pool_creator: authority,
                        coin_creator: bonding_curve.creator,
                        base_reserve,
                        quote_reserve,
                        virtual_quote_reserves: 0,
                        base_mint_supply,
                    },
                ),
            },
        },
    }
}

/// The trade context of `source`.
fn map_amm_quote_source<'a>(
    global_config: &'a GlobalConfig,
    fee_config: Option<&'a FeeConfig>,
    source: AmmQuoteSource<'a>,
) -> (r: QuoteResult<AmmQuoteInputs<'a>>)
    ensures
        r == quote_inputs(global_config, fee_config, source),
{
    match source {
        AmmQuoteSource::Pool { pool, base_reserve, quote_reserve, base_mint_supply } => Ok(
            AmmQuoteInputs {
                global_config,
                fee_config,
                base_mint: pool.base_mint,
                pool_creator: pool.creator,
                coin_creator: pool.coin_creator,
                base_reserve,
                quote_reserve,
                virtual_quote_reserves: pool.virtual_quote_reserves,
                base_mint_supply,
            },
        ),
        AmmQuoteSource::BondingCurveComplete {
            global,
            bonding_curve,
            base_mint,
            base_mint_supply,
        } => match estimated_reserves(global, bonding_curve) {
            Err(e) => Err(e),
            Ok((base_reserve, quote_reserve)) => match pool_authority(base_mint) {
                None => Err(QuoteError::EmptyReserves),
                Some((authority, _)) => Ok(
                    AmmQuoteInputs {
                        global_config,
                        fee_config,
                        base_mint: *base_mint,
                        pool_creator: authority,
                        coin_creator: bonding_curve.creator,
                        base_reserve,
                        quote_reserve,
                        virtual_quote_reserves: 0,
                        base_mint_supply,
                    },
                ),
            },
        },
    }
}

/// Quote for spending `sol_amount` on a curve.
pub open spec fn curve_buy_quote(
    global: &Global,
    fee_config: Option<&FeeConfig>,
    curve: &BondingCurve,
    mint_supply: u64,
    sol_amount: u64,
    bps: u16,
) -> QuoteResult<Quote> {
    match tokens_for_sol(global, fee_config, curve, mint_supply, sol_amount) {
        Err(e) => Err(e),
        Ok(tokens) => Ok(exact_in_quote(tokens, sol_amount, bps)),
    }
}

/// Quote for `token_amount` from a curve.
pub open spec fn curve_token_out_quote(
    global: &Global,
    fee_config: Option<&FeeConfig>,
    curve: &BondingCurve,
    mint_supply: u64,
    token_amount: u64,
    bps: u16,
) -> QuoteResult<Quote> {
    match sol_for_tokens(global, fee_config, curve, mint_supply, token_amount) {
        Err(e) => Err(e),
        Ok(cost) => Ok(exact_out_quote(cost, token_amount, bps)),
    }
}

/// Quote for selling `token_amount` to a curve.
pub open spec fn curve_sell_quote(
    global: &Global,
    fee_config: Option<&FeeConfig>,
    curve: &BondingCurve,
    mint_supply: u64,
    token_amount: u64,
    bps: u16,
) -> QuoteResult<Quote> {
    match sol_from_tokens(global, fee_config, curve, mint_supply, token_amount) {
        Err(e) => Err(e),
        Ok(sol) => Ok(exact_in_quote(sol, token_amount, bps)),
    }
}

/// Quote for spending `sol_amount` on a pool. The payment may rise by the slippage too.
pub open spec fn pool_buy_quote(
    inputs: QuoteResult<AmmQuoteInputs<'_>>,
    sol_amount: u64,
    bps: u16,
) -> QuoteResult<Quote> {
    match inputs {
        Err(e) => Err(e),
        Ok(inputs) => match base_for_quote(&inputs.spec_context(), sol_amount) {
            Err(e) => Err(e),
            Ok(result) => Ok(
                Quote {
                    amount: result.base_amount_out,
                    min_out: acceptable(result.base_amount_out, bps),
                    input_amount_used: sol_amount,
                    max_input: payable(sol_amount, bps),
                },
            ),
        },
    }
}

/// Quote for `token_amount` from a pool.
pub open spec fn pool_token_out_quote(
    inputs: QuoteResult<AmmQuoteInputs<'_>>,
    token_amount: u64,
    bps: u16,
) -> QuoteResult<Quote> {
    match inputs {
        Err(e) => Err(e),
        Ok(inputs) => match quote_for_base(&inputs.spec_context(), token_amount) {
            Err(e) => Err(e),
            Ok(result) => Ok(exact_out_quote(result.total_quote_in, token_amount, bps)),
        },
    }
}

/// Quote for selling `token_amount` to a pool.
pub open spec fn pool_sell_quote(
    inputs: QuoteResult<AmmQuoteInputs<'_>>,
    token_amount: u64,
    bps: u16,
) -> QuoteResult<Quote> {
    match inputs {
        Err(e) => Err(e),
        Ok(inputs) => match quote_from_base(&inputs.spec_context(), token_amount) {
            Err(e) => Err(e),
            Ok(result) => Ok(exact_in_quote(result.final_quote_out, token_amount, bps)),
        },
    }
}

/// The reserves that `pool` is quoted on once the curve is complete.
pub open spec fn pool_source<'a>(pool: PumpPoolQuoteCtx<'a>, base_mint_supply: u64) -> AmmQuoteSource<
    'a,
> {
    AmmQuoteSource::Pool {
        pool: pool.pool_state,
        base_reserve: pool.base_reserve,
        quote_reserve: pool.quote_reserve,
        base_mint_supply,
    }
}

/// The routed quote: on the curve until it is complete, then on the pool; nothing
/// where the curve is complete and there is no pool.
pub open spec fn routed_quote(params: TradeQuoteParams<'_>) -> Option<QuoteResult<Quote>> {
    if !params.bonding_curve.complete {
        Some(
            if params.is_buy {
                curve_token_out_quote(
                    params.pump_global,
                    params.pump_fee_config,
                    params.bonding_curve,
                    params.base_mint_supply,
                    params.base_amount,
                    params.slippage_bps,
                )
            } else {
                curve_sell_quote(
                    params.pump_global,
                    params.pump_fee_config,
                    params.bonding_curve,
                    params.base_mint_supply,
                    params.base_amount,
                    params.slippage_bps,
                )
            },
        )
    } else {
        match params.pump_pool {
            None => None,
            Some(pool) => {
                let inputs = quote_inputs(
                    pool.amm_global,
                    pool.amm_fee_config,
                    pool_source(pool, params.base_mint_supply),
                );
                Some(
                    if params.is_buy {
                        pool_token_out_quote(inputs, params.base_amount, params.slippage_bps)
                    } else {
                        pool_sell_quote(inputs, params.base_amount, params.slippage_bps)
                    },
                )
            },
        }
    }
}

impl PumpSdk {
    pub fn new() -> (r: Self)
        ensures
            r == PumpSdk,
    {
        PumpSdk
    }

    /// Bonding-curve purchase for a fixed payment.
    pub fn buy_quote_bonding_curve_sol_in(
        &self,
        global: &Global,
        fee_config: Option<&FeeConfig>,
        bonding_curve: &BondingCurve,
        mint_supply: u64,
        sol_amount: u64,
        slippage_bps: u16,
    ) -> (r: QuoteResult<Quote>)
        ensures
            r == curve_buy_quote(
                global,
                fee_config,
                bonding_curve,
                mint_supply,
                sol_amount,
                slippage_bps,
            ),
    {
        match buy_token_amount_from_sol_amount(
            global,
            fee_config,
            bonding_curve,
            mint_supply,
            sol_amount,
        ) {
            Err(e) => Err(e),
            Ok(tokens) => Ok(
                Quote {
                    amount: tokens,
                    min_out: sub_slippage(tokens, slippage_bps),
                    input_amount_used: sol_amount,
                    max_input: sol_amount,
                },
            ),
        }
    }

    /// Bonding-curve purchase of a fixed amount of tokens.
    pub fn buy_quote_bonding_curve_token_out(
        &self,
        global: &Global,
        fee_config: Option<&FeeConfig>,
        bonding_curve: &BondingCurve,
        mint_supply: u64,
        token_amount: u64,
        slippage_bps: u16,
    ) -> (r: QuoteResult<Quote>)
        ensures
            r == curve_token_out_quote(
                global,
                fee_config,
                bonding_curve,
                mint_supply,
                token_amount,
                slippage_bps,
            ),
    {
        match buy_sol_amount_from_token_amount(
            global,
            fee_config,
            bonding_curve,
            mint_supply,
            token_amount,
        ) {
            Err(e) => Err(e),
            Ok(cost) => Ok(
                Quote {
                    amount: cost,
                    min_out: token_amount,
                    input_amount_used: token_amount,
                    max_input: add_slippage(cost, slippage_bps),
                },
            ),
        }
    }

    /// Bonding-curve sale.
    pub fn sell_quote_bonding_curve(
        &self,
        global: &Global,
        fee_config: Option<&FeeConfig>,
        bonding_curve: &BondingCurve,
        mint_supply: u64,
        token_amount: u64,
        slippage_bps: u16,
    ) -> (r: QuoteResult<Quote>)
        ensures
            r == curve_sell_quote(
                global,
                fee_config,
                bonding_curve,
                mint_supply,
                token_amount,
                slippage_bps,
            ),
    {
        match sell_sol_amount_from_token_amount(
            global,
            fee_config,
            bonding_curve,
            mint_supply,
            token_amount,
        ) {
            Err(e) => Err(e),
            Ok(sol) => Ok(
                Quote {
                    amount: sol,
                    min_out: sub_slippage(sol, slippage_bps),
                    input_amount_used: token_amount,
                    max_input: token_amount,
                },
            ),
        }
    }

    /// AMM purchase for a fixed payment.
    pub fn buy_quote_amm_sol_in(
        &self,
        global_config: &GlobalConfig,
        fee_config: Option<&FeeConfig>,
        source: AmmQuoteSource<'_>,
        sol_amount: u64,
        slippage_bps: u16,
    ) -> (r: QuoteResult<Quote>)
        ensures
            r == pool_buy_quote(
                quote_inputs(global_config, fee_config, source),
                sol_amount,
                slippage_bps,
            ),
    {
        match map_amm_quote_source(global_config, fee_config, source) {
            Err(e) => Err(e),
            Ok(inputs) => match buy_quote_input(&inputs.context(), sol_amount) {
                Err(e) => Err(e),
                Ok(result) => Ok(
                    Quote {
                        amount: result.base_amount_out,
                        min_out: sub_slippage(result.base_amount_out, slippage_bps),
                        input_amount_used: sol_amount,
                        max_input: add_slippage(sol_amount, slippage_bps),
                    },
                ),
            },
        }
    }

    /// AMM purchase of a fixed amount of tokens.
    pub fn buy_quote_amm_token_out(
        &self,
        global_config: &GlobalConfig,
        fee_config: Option<&FeeConfig>,
        source: AmmQuoteSource<'_>,
        token_amount: u64,
        slippage_bps: u16,
    ) -> (r: QuoteResult<Quote>)
        ensures
            r == pool_token_out_quote(
                quote_inputs(global_config, fee_config, source),
                token_amount,
                slippage_bps,
            ),
    {
        match map_amm_quote_source(global_config, fee_config, source) {
            Err(e) => Err(e),
            Ok(inputs) => match buy_base_input(&inputs.context(), token_amount) {
                Err(e) => Err(e),
                Ok(result) => Ok(
                    Quote {
                        amount: result.total_quote_in,
                        min_out: token_amount,
                        input_amount_used: token_amount,
                        max_input: add_slippage(result.total_quote_in, slippage_bps),
                    },
                ),
            },
        }
    }

    /// AMM sale.
    pub fn sell_quote_amm(
        &self,
        global_config: &GlobalConfig,
        fee_config: Option<&FeeConfig>,
        source: AmmQuoteSource<'_>,
        token_amount: u64,
        slippage_bps: u16,
    ) -> (r: QuoteResult<Quote>)
        ensures
            r == pool_sell_quote(
                quote_inputs(global_config, fee_config, source),
                token_amount,
                slippage_bps,
            ),
    {
        match map_amm_quote_source(global_config, fee_config, source) {
            Err(e) => Err(e),
            Ok(inputs) => match sell_base_input(&inputs.context(), token_amount) {
                Err(e) => Err(e),
                Ok(result) => Ok(
                    Quote {
                        amount: result.final_quote_out,
                        min_out: sub_slippage(result.final_quote_out, slippage_bps),
                        input_amount_used: token_amount,
                        max_input: token_amount,
                    },
                ),
            },
        }
    }

    /// Quote routed by the curve's `complete`: a purchase of `base_amount` tokens or
    /// their sale.
    pub fn quote_trade(&self, params: TradeQuoteParams<'_>) -> (r: Option<QuoteResult<Quote>>)
        ensures
            r == routed_quote(params),
    {
        if params.bonding_curve.complete {
            let pool = params.pump_pool?;
            let source = AmmQuoteSource::Pool {
                pool: pool.pool_state,
                base_reserve: pool.base_reserve,
                quote_reserve: pool.quote_reserve,
                base_mint_supply: params.base_mint_supply,
            };
            Some(
                if params.is_buy {
                    self.buy_quote_amm_token_out(
                        pool.amm_global,
                        pool.amm_fee_config,
                        source,
                        params.base_amount,
                        params.slippage_bps,
                    )
                } else {
                    self.sell_quote_amm(
                        pool.amm_global,
                        pool.amm_fee_config,
                        source,
                        params.base_amount,
                        params.slippage_bps,
                    )
                },
            )
        } else {
            Some(
                if params.is_buy {
                    self.buy_quote_bonding_curve_token_out(
                        params.pump_global,
                        params.pump_fee_config,
                        params.bonding_curve,
                        params.base_mint_supply,
                        params.base_amount,
                        params.slippage_bps,
                    )
                } else {
                    self.sell_quote_bonding_curve(
                        params.pump_global,
                        params.pump_fee_config,
                        params.bonding_curve,
                        params.base_mint_supply,
                        params.base_amount,
                        params.slippage_bps,
                    )
                },
            )
        }
    }
}

} // verus!
