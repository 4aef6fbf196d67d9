//! Whole trades, on the bonding curve or in a pool.

use vstd::prelude::*;

use crate::constants::NATIVE_MINT;
use crate::instruction::{
    append_all, followed_by, followed_by_all, group_views, none_yet, views_of, Instruction,
    InstructionView,
};
use crate::pubkey::{same_key, Pubkey};
use crate::sdk::pump_amm_ix::{buy_amm_view, sell_amm_view, trade_in, trade_in_pool};
use crate::sdk::pump_v2::{buy_v2_instructions_views, sell_v2_instructions_views};
use crate::sdk::recipients::{built_with_amm_recipients, built_with_recipients};
use crate::sdk::PumpSdk;
use crate::state::pump_amm::{GlobalConfig, Pool};
use crate::state::{BondingCurve, Global};
use crate::token::{
    create_associated_token_account_idempotent, created, unwrap_sol_instruction, unwrap_sol_view,
    wrap_sol_instructions, wrap_sol_views,
};

verus! {

/// Where a trade takes place.
#[derive(Clone, Copy, Debug)]
pub enum TradeVenue<'a> {
    BondingCurve { global: &'a Global, bonding_curve: &'a BondingCurve },
    Amm { pool: Pubkey, amm_global: &'a GlobalConfig, pool_state: &'a Pool },
}

/// A trade at a given venue. The amounts come from the quotes.
#[derive(Clone, Copy, Debug)]
pub struct TradeTxWithVenueParams<'a> {
    pub mint: Pubkey,
    pub base_token_program: Pubkey,
    pub quote_token_program: Pubkey,
    pub user: Pubkey,
    pub is_buy: bool,
    pub venue: TradeVenue<'a>,
    pub base_amount: u64,
    pub sol_amount_threshold: u64,
}

/// The pool of a curve that has migrated.
#[derive(Clone, Copy, Debug)]
pub struct PumpPoolCtx<'a> {
    pub pool: Pubkey,
    pub amm_global: &'a GlobalConfig,
    pub pool_state: &'a Pool,
}

/// A trade routed by the curve's `complete`. `pump_pool` is needed once the curve is
/// complete.
#[derive(Clone, Copy, Debug)]
pub struct TradeTxParams<'a> {
    pub mint: Pubkey,
    pub base_token_program: Pubkey,
    pub quote_token_program: Pubkey,
    pub user: Pubkey,
    pub is_buy: bool,
    pub base_amount: u64,
    pub sol_amount_threshold: u64,
    pub pump_global: &'a Global,
    pub bonding_curve: &'a BondingCurve,
    pub pump_pool: Option<PumpPoolCtx<'a>>,
}

/// A trade on a curve, for the given recipients.
pub open spec fn curve_trade_views(
    params: TradeTxWithVenueParams<'_>,
    curve: &BondingCurve,
    fee_recipient: Pubkey,
    buyback_fee_recipient: Pubkey,
) -> Option<Seq<InstructionView>> {
    if params.is_buy {
        buy_v2_instructions_views(
            curve,
            params.mint,
            params.quote_token_program,
            params.user,
            fee_recipient,
            buyback_fee_recipient,
            params.base_amount,
            params.sol_amount_threshold,
        )
    } else {
        sell_v2_instructions_views(
            curve,
            params.mint,
            params.quote_token_program,
            params.user,
            fee_recipient,
            buyback_fee_recipient,
            params.base_amount,
            params.sol_amount_threshold,
        )
    }
}

/// A trade in a pool, for the given recipients: the user's token accounts (the base
/// account only on a buy), the trade, and for a pool quoted in wrapped SOL the wrap
/// before a buy and the unwrap after any trade.
pub open spec fn pool_trade_views(
    params: TradeTxWithVenueParams<'_>,
    pool: Pubkey,
    pool_state: &Pool,
    protocol_fee_recipient: Pubkey,
    buyback_fee_recipient: Pubkey,
) -> Option<Seq<InstructionView>> {
    let native = pool_state.quote_mint == NATIVE_MINT;
    let user = params.user;
    let base_account = created(user, user, pool_state.base_mint, params.base_token_program);
    let quote_account = created(user, user, pool_state.quote_mint, params.quote_token_program);
    let trade = trade_in(
        pool,
        pool_state,
        params.base_token_program,
        params.quote_token_program,
        user,
        protocol_fee_recipient,
        buyback_fee_recipient,
    );
    let traded = if params.is_buy {
        let accounts = followed_by(followed_by(none_yet(), base_account), quote_account);
        let funded = if native {
            followed_by_all(accounts, wrap_sol_views(user, params.sol_amount_threshold))
        } else {
            accounts
        };
        followed_by(funded, buy_amm_view(&trade, params.base_amount, params.sol_amount_threshold))
    } else {
        followed_by(
            followed_by(none_yet(), quote_account),
            sell_amm_view(&trade, params.base_amount, params.sol_amount_threshold),
        )
    };
    if native {
        followed_by(traded, unwrap_sol_view(user))
    } else {
        traded
    }
}

/// Whether `r` is an outcome of the trade, whichever recipients are picked.
pub open spec fn trade_outcome(
    params: TradeTxWithVenueParams<'_>,
    r: Option<Seq<InstructionView>>,
) -> bool {
    match params.venue {
        TradeVenue::BondingCurve { global, bonding_curve } => built_with_recipients(
            global,
            bonding_curve.is_mayhem_mode,
            |fee: Pubkey, buyback: Pubkey| curve_trade_views(params, bonding_curve, fee, buyback),
            r,
        ),
        TradeVenue::Amm { pool, amm_global, pool_state } => built_with_amm_recipients(
            amm_global,
            |fee: Pubkey, buyback: Pubkey|
                pool_trade_views(params, pool, pool_state, fee, buyback),
            r,
        ),
    }
}

/// The trade that the curve's `complete` routes to: on the curve until then, in the
/// pool from then on; nothing where there is no pool.
pub open spec fn routed<'a>(params: TradeTxParams<'a>) -> Option<TradeTxWithVenueParams<'a>> {
    let venue = if params.bonding_curve.complete {
        match params.pump_pool {
            Some(p) => Some(
                TradeVenue::Amm {
                    pool: p.pool,
                    amm_global: p.amm_global,
                    pool_state: p.pool_state,
                },
            ),
            None => None,
        }
    } else {
        Some(
            TradeVenue::BondingCurve {
                global: params.pump_global,
                bonding_curve: params.bonding_curve,
            },
        )
    };
    match venue {
        Some(venue) => Some(
            TradeTxWithVenueParams {
                mint: params.mint,
                base_token_program: params.base_token_program,
                quote_token_program: params.quote_token_program,
                user: params.user,
                is_buy: params.is_buy,
                venue,
                base_amount: params.base_amount,
                sol_amount_threshold: params.sol_amount_threshold,
            },
        ),
        None => None,
    }
}

impl PumpSdk {
    /// A trade in a pool, with given recipients.
    pub fn pool_trade_instructions(
        &self,
        params: &TradeTxWithVenueParams<'_>,
        pool: Pubkey,
        pool_state: &Pool,
        protocol_fee_recipient: Pubkey,
        buyback_fee_recipient: Pubkey,
    ) -> (r: Option<Vec<Instruction>>)
        ensures
            views_of(r) == pool_trade_views(
                *params,
                pool,
                pool_state,
                protocol_fee_recipient,
                buyback_fee_recipient,
            ),
    {
        broadcast use group_views;

        let native: bool = same_key(&pool_state.quote_mint, &NATIVE_MINT);
        let user = params.user;
        let trade = trade_in_pool(
            pool,
            pool_state,
            params.base_token_program,
            params.quote_token_program,
            user,
            protocol_fee_recipient,
            buyback_fee_recipient,
        );
        let quote_account = create_associated_token_account_idempotent(
            &user,
            &user,
            &pool_state.quote_mint,
            &params.quote_token_program,
        )?;
        let mut ixs: Vec<Instruction> = Vec::new();
        if params.is_buy {
            ixs.push(
                create_associated_token_account_idempotent(
                    &user,
                    &user,
                    &pool_state.base_mint,
                    &params.base_token_program,
                )?,
            );
            ixs.push(quote_account);
            if native {
                let wrap = wrap_sol_instructions(&user, params.sol_amount_threshold)?;
                append_all(&mut ixs, wrap);
            }
            ixs.push(
                self.buy_amm_instruction_with_recipients(
                    &trade,
                    params.base_amount,
                    params.sol_amount_threshold,
                )?,
            );
        } else {
            ixs.push(quote_account);
            ixs.push(
                self.sell_amm_instruction_with_recipients(
                    &trade,
                    params.base_amount,
                    params.sol_amount_threshold,
                )?,
            );
        }
        if native {
            ixs.push(unwrap_sol_instruction(&user)?);
        }
        Some(ixs)
    }

    /// A trade at a given venue: `buy_v2` or `sell_v2` with their token accounts on a
    /// curve, or a pool trade with wrapping where the pool is quoted in wrapped SOL.
    /// Nothing where recipients are missing.
    pub fn trade_tx_instructions_with_venue(&self, params: TradeTxWithVenueParams<'_>) -> (r:
        Option<Vec<Instruction>>)
        ensures
            trade_outcome(params, views_of(r)),
    {
        match params.venue {
            TradeVenue::BondingCurve { global, bonding_curve } => {
                if params.is_buy {
                    self.buy_v2_instructions(
                        global,
                        bonding_curve,
                        params.mint,
                        params.quote_token_program,
                        params.user,
                        params.base_amount,
                        params.sol_amount_threshold,
                    )
                } else {
                    self.sell_v2_instructions(
                        global,
                        bonding_curve,
                        params.mint,
                        params.quote_token_program,
                        params.user,
                        params.base_amount,
                        params.sol_amount_threshold,
                    )
                }
            },
            TradeVenue::Amm { pool, amm_global, pool_state } => {
                let (fee, buyback) = Self::amm_fee_recipients_pair(amm_global)?;
                self.pool_trade_instructions(&params, pool, pool_state, fee, buyback)
            },
        }
    }

    /// A trade routed by the curve's `complete`.
    pub fn trade_tx_instructions(&self, params: TradeTxParams<'_>) -> (r: Option<Vec<Instruction>>)
        ensures
            match routed(params) {
                Some(explicit) => trade_outcome(explicit, views_of(r)),
                None => r is None,
            },
    {
        let venue = if params.bonding_curve.complete {
            let p = params.pump_pool?;
            TradeVenue::Amm { pool: p.pool, amm_global: p.amm_global, pool_state: p.pool_state }
        } else {
            TradeVenue::BondingCurve {
                global: params.pump_global,
                bonding_curve: params.bonding_curve,
            }
        };
        self.trade_tx_instructions_with_venue(
            TradeTxWithVenueParams {
                mint: params.mint,
                base_token_program: params.base_token_program,
                quote_token_program: params.quote_token_program,
                user: params.user,
                is_buy: params.is_buy,
                venue,
                base_amount: params.base_amount,
                sol_amount_threshold: params.sol_amount_threshold,
            },
        )
    }
}

} // verus!
