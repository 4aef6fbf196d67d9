//! The AMM program and its seeds.

use vstd::prelude::*;

use crate::pubkey::Pubkey;

verus! {

/// The AMM program.
/// `pAMMBay6oceH9fJKBRHGP5D4bD4sWpmSwMn52FMfXEA`
pub const PROGRAM_ID: Pubkey = [
    12, 20, 222, 252, 130, 94, 198, 118, 148, 37, 8, 24, 187, 101, 64, 101, 244, 41, 141, 49, 86,
    213, 113, 180, 212, 248, 9, 12, 24, 233, 168, 99,
];

/// `"global_config"`
pub const GLOBAL_CONFIG_SEED: [u8; 13] = [
    103, 108, 111, 98, 97, 108, 95, 99, 111, 110, 102, 105, 103,
];

/// `"pool"`
pub const POOL_SEED: [u8; 4] = [112, 111, 111, 108];

/// `"pool_lp_mint"`
pub const POOL_LP_MINT_SEED: [u8; 12] = [112, 111, 111, 108, 95, 108, 112, 95, 109, 105, 110, 116];

/// Underscore variant, unlike the hyphen of the bonding-curve program.
///
/// `"creator_vault"`
pub const CREATOR_VAULT_SEED: [u8; 13] = [
    99, 114, 101, 97, 116, 111, 114, 95, 118, 97, 117, 108, 116,
];

/// `"__event_authority"`
pub const EVENT_AUTHORITY_SEED: [u8; 17] = [
    95, 95, 101, 118, 101, 110, 116, 95, 97, 117, 116, 104, 111, 114, 105, 116, 121,
];

/// `"global_volume_accumulator"`
pub const GLOBAL_VOLUME_ACCUMULATOR_SEED: [u8; 25] = [
    103, 108, 111, 98, 97, 108, 95, 118, 111, 108, 117, 109, 101, 95, 97, 99, 99, 117, 109, 117,
    108, 97, 116, 111, 114,
];

/// `"user_volume_accumulator"`
pub const USER_VOLUME_ACCUMULATOR_SEED: [u8; 23] = [
    117, 115, 101, 114, 95, 118, 111, 108, 117, 109, 101, 95, 97, 99, 99, 117, 109, 117, 108, 97,
    116, 111, 114,
];

/// `"pool-v2"`
pub const POOL_V2_SEED: [u8; 7] = [112, 111, 111, 108, 45, 118, 50];

/// `"fee_config"`
pub const FEE_CONFIG_SEED: [u8; 10] = [102, 101, 101, 95, 99, 111, 110, 102, 105, 103];

/// The program key among the seeds of the fee config.
pub const FEE_CONFIG_PROGRAM_SEED_KEY: Pubkey = PROGRAM_ID;

} // verus!
