//! On-chain account state of the AMM program.

use vstd::prelude::*;

use crate::pubkey::{Pubkey, DEFAULT_KEY};

verus! {

/// Global settings of the AMM program. A recipient slot that is not in use
/// holds the all-zero key.
#[derive(Clone, Debug, PartialEq, Eq)]
pub struct GlobalConfig {
    pub lp_fee_basis_points: u64,
    pub protocol_fee_basis_points: u64,
    pub coin_creator_fee_basis_points: u64,
    pub protocol_fee_recipients: Vec<Pubkey>,
    pub buyback_fee_recipients: Vec<Pubkey>,
}

impl Default for GlobalConfig {
    fn default() -> (r: Self)
        ensures
            r.lp_fee_basis_points == 0,
            r.protocol_fee_basis_points == 0,
            r.coin_creator_fee_basis_points == 0,
            r.protocol_fee_recipients@.len() == 0,
            r.buyback_fee_recipients@.len() == 0,
    {
        GlobalConfig {
            lp_fee_basis_points: 0,
            protocol_fee_basis_points: 0,
            coin_creator_fee_basis_points: 0,
            protocol_fee_recipients: Vec::new(),
            buyback_fee_recipients: Vec::new(),
        }
    }
}

/// One AMM pool. Trades price against the balance of its quote vault plus
/// `virtual_quote_reserves`, which may be negative.
#[derive(Clone, Copy, Debug, PartialEq, Eq)]
pub struct Pool {
    pub pool_bump: u8,
    pub index: u16,
    pub creator: Pubkey,
    pub base_mint: Pubkey,
    pub quote_mint: Pubkey,
    pub lp_mint: Pubkey,
    pub pool_base_token_account: Pubkey,
    pub pool_quote_token_account: Pubkey,
    pub lp_supply: u64,
    pub coin_creator: Pubkey,
    pub is_mayhem_mode: bool,
    pub is_cashback_coin: bool,
    pub virtual_quote_reserves: i128,
}

impl Pool {
    /// A pool with nothing set.
    pub open spec fn blank() -> Pool {
        Pool {
            pool_bump: 0,
            index: 0,
            creator: DEFAULT_KEY,
            base_mint: DEFAULT_KEY,
            quote_mint: DEFAULT_KEY,
            lp_mint: DEFAULT_KEY,
            pool_base_token_account: DEFAULT_KEY,
            pool_quote_token_account: DEFAULT_KEY,
            lp_supply: 0,
            coin_creator: DEFAULT_KEY,
            is_mayhem_mode: false,
            is_cashback_coin: false,
            virtual_quote_reserves: 0,
        }
    }
}

impl Default for Pool {
    fn default() -> (r: Self)
        ensures
            r == Pool::blank(),
    {
        Pool {
            pool_bump: 0,
            index: 0,
            creator: DEFAULT_KEY,
            base_mint: DEFAULT_KEY,
            quote_mint: DEFAULT_KEY,
            lp_mint: DEFAULT_KEY,
            pool_base_token_account: DEFAULT_KEY,
            pool_quote_token_account: DEFAULT_KEY,
            lp_supply: 0,
            coin_creator: DEFAULT_KEY,
            is_mayhem_mode: false,
            is_cashback_coin: false,
            virtual_quote_reserves: 0,
        }
    }
}

} // verus!
