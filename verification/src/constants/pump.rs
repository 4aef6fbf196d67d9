//! The bonding-curve program and its seeds.

use vstd::prelude::*;

use crate::pubkey::Pubkey;

verus! {

/// The bonding-curve program.
/// `6EF8rrecthR5Dkzon8Nwu78hRvfCKubJ14M5uBEwF6P`
pub const PROGRAM_ID: Pubkey = [
    1, 86, 224, 246, 147, 102, 90, 207, 68, 219, 21, 104, 191, 23, 91, 170, 81, 137, 203, 151, 245,
    210, 255, 59, 101, 93, 43, 182, 253, 109, 24, 176,
];

/// `"global"`
pub const GLOBAL_SEED: [u8; 6] = [103, 108, 111, 98, 97, 108];

/// `"bonding-curve"`
pub const BONDING_CURVE_SEED: [u8; 13] = [
    98, 111, 110, 100, 105, 110, 103, 45, 99, 117, 114, 118, 101,
];

/// `"bonding-curve-v2"`
pub const BONDING_CURVE_V2_SEED: [u8; 16] = [
    98, 111, 110, 100, 105, 110, 103, 45, 99, 117, 114, 118, 101, 45, 118, 50,
];

/// `"creator-vault"`
pub const CREATOR_VAULT_SEED: [u8; 13] = [
    99, 114, 101, 97, 116, 111, 114, 45, 118, 97, 117, 108, 116,
];

/// `"__event_authority"`
pub const EVENT_AUTHORITY_SEED: [u8; 17] = [
    95, 95, 101, 118, 101, 110, 116, 95, 97, 117, 116, 104, 111, 114, 105, 116, 121,
];

/// `"mint-authority"`
pub const MINT_AUTHORITY_SEED: [u8; 14] = [
    109, 105, 110, 116, 45, 97, 117, 116, 104, 111, 114, 105, 116, 121,
];

/// `"pool-authority"`
pub const POOL_AUTHORITY_SEED: [u8; 14] = [
    112, 111, 111, 108, 45, 97, 117, 116, 104, 111, 114, 105, 116, 121,
];

/// `"global_volume_accumulator"`
pub const GLOBAL_VOLUME_ACCUMULATOR_SEED: [u8; 25] = [
    103, 108, 111, 98, 97, 108, 95, 118, 111, 108, 117, 109, 101, 95, 97, 99, 99, 117, 109, 117,
    108, 97, 116, 111, 114,
];

/// `"user_volume_accumulator"`
pub const USER_VOLUME_ACCUMULATOR_SEED: [u8; 23] = [
    117, 115, 101, 114, 95, 118, 111, 108, 117, 109, 101, 95, 97, 99, 99, 117, 109, 117, 108, 97,
    116, 111, 114,
];

/// `"metadata"`
pub const METADATA_SEED: [u8; 8] = [109, 101, 116, 97, 100, 97, 116, 97];

/// `"fee_config"`
pub const FEE_CONFIG_SEED: [u8; 10] = [102, 101, 101, 95, 99, 111, 110, 102, 105, 103];

/// `"sharing-config"`
pub const SHARING_CONFIG_SEED: [u8; 14] = [
    115, 104, 97, 114, 105, 110, 103, 45, 99, 111, 110, 102, 105, 103,
];

/// The program key among the seeds of the fee config.
pub const FEE_CONFIG_PROGRAM_SEED_KEY: Pubkey = PROGRAM_ID;

} // verus!
