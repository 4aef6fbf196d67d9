//! On-chain account state, as far as quotes and instructions read it.

use vstd::prelude::*;

use crate::pubkey::{Pubkey, DEFAULT_KEY};

pub mod layout;
pub mod pump_amm;

verus! {

/// Fees in basis points.
#[derive(Clone, Copy, Debug, PartialEq, Eq)]
pub struct Fees {
    pub lp_fee_bps: u64,
    pub protocol_fee_bps: u64,
    pub creator_fee_bps: u64,
}

/// Fees that apply from a market cap on.
#[derive(Clone, Copy, Debug, PartialEq, Eq)]
pub struct FeeTier {
    pub market_cap_lamports_threshold: u128,
    pub fees: Fees,
}

/// The fee table of a program.
#[derive(Clone, Debug, PartialEq, Eq)]
pub struct FeeConfig {
    pub flat_fees: Fees,
    pub fee_tiers: Vec<FeeTier>,
}

/// Global settings of the bonding-curve program. A recipient slot that is not
/// in use holds the all-zero key.
#[derive(Clone, Debug, PartialEq, Eq)]
pub struct Global {
    pub fee_recipient: Pubkey,
    pub fee_recipients: Vec<Pubkey>,
    pub reserved_fee_recipient: Pubkey,
    pub reserved_fee_recipients: Vec<Pubkey>,
    pub buyback_fee_recipients: Vec<Pubkey>,
    pub fee_basis_points: u64,
    pub creator_fee_basis_points: u64,
    pub token_total_supply: u64,
    pub initial_real_token_reserves: u64,
    pub pool_migration_fee: u64,
}

impl Default for Global {
    fn default() -> (r: Self)
        ensures
            r.fee_recipient == DEFAULT_KEY,
            r.fee_recipients@.len() == 0,
            r.reserved_fee_recipient == DEFAULT_KEY,
            r.reserved_fee_recipients@.len() == 0,
            r.buyback_fee_recipients@.len() == 0,
            r.fee_basis_points == 0,
            r.creator_fee_basis_points == 0,
            r.token_total_supply == 0,
            r.initial_real_token_reserves == 0,
            r.pool_migration_fee == 0,
    {
        Global {
            fee_recipient: DEFAULT_KEY,
            fee_recipients: Vec::new(),
            reserved_fee_recipient: DEFAULT_KEY,
            reserved_fee_recipients: Vec::new(),
            buyback_fee_recipients: Vec::new(),
            fee_basis_points: 0,
            creator_fee_basis_points: 0,
            token_total_supply: 0,
            initial_real_token_reserves: 0,
            pool_migration_fee: 0,
        }
    }
}

/// One coin's bonding curve. `complete` says that it has moved to the AMM; an
/// all-zero `quote_mint` stands for wrapped SOL.
#[derive(Clone, Copy, Debug, PartialEq, Eq)]
pub struct BondingCurve {
    pub virtual_token_reserves: u64,
    pub virtual_quote_reserves: u64,
    pub real_token_reserves: u64,
    pub real_quote_reserves: u64,
    pub token_total_supply: u64,
    pub complete: bool,
    pub creator: Pubkey,
    pub is_mayhem_mode: bool,
    pub is_cashback_coin: bool,
    pub quote_mint: Pubkey,
}

impl BondingCurve {
    /// A curve with nothing set.
    pub open spec fn blank() -> BondingCurve {
        BondingCurve {
            virtual_token_reserves: 0,
            virtual_quote_reserves: 0,
            real_token_reserves: 0,
            real_quote_reserves: 0,
            token_total_supply: 0,
            complete: false,
            creator: DEFAULT_KEY,
            is_mayhem_mode: false,
            is_cashback_coin: false,
            quote_mint: DEFAULT_KEY,
        }
    }
}

impl Default for BondingCurve {
    fn default() -> (r: Self)
        ensures
            r == BondingCurve::blank(),
    {
        BondingCurve {
            virtual_token_reserves: 0,
            virtual_quote_reserves: 0,
            real_token_reserves: 0,
            real_quote_reserves: 0,
            token_total_supply: 0,
            complete: false,
            creator: DEFAULT_KEY,
            is_mayhem_mode: false,
            is_cashback_coin: false,
            quote_mint: DEFAULT_KEY,
        }
    }
}

} // verus!
