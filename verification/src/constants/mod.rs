//! Program ids, mints and lookup tables.

use vstd::prelude::*;

use crate::pubkey::Pubkey;

pub mod pump;
pub mod pump_agent_payments;
pub mod pump_amm;

verus! {

/// The SPL Token program.
/// `TokenkegQfeZyiNwAJbNbGKPFXCWuBvf9Ss623VQ5DA`
pub const SPL_TOKEN_PROGRAM_ID: Pubkey = [
    6, 221, 246, 225, 215, 101, 161, 147, 217, 203, 225, 70, 206, 235, 121, 172, 28, 180, 133, 237,
    95, 91, 55, 145, 58, 140, 245, 133, 126, 255, 0, 169,
];

/// The Token-2022 program.
/// `TokenzQdBNbLqP5VEhdkAS6EPFLC1PHnBqCXEpPxuEb`
pub const SPL_TOKEN_2022_PROGRAM_ID: Pubkey = [
    6, 221, 246, 225, 238, 117, 143, 222, 24, 66, 93, 188, 228, 108, 205, 218, 182, 26, 252, 77,
    131, 185, 13, 39, 254, 189, 249, 40, 216, 161, 139, 252,
];

/// The associated-token-account program.
/// `ATokenGPvbdGVxr1b2hvZbsiqW5xWH25efTNsLJA8knL`
pub const SPL_ATA_PROGRAM_ID: Pubkey = [
    140, 151, 37, 143, 78, 36, 137, 241, 187, 61, 16, 41, 20, 142, 13, 131, 11, 90, 19, 153, 218,
    255, 16, 132, 4, 142, 123, 216, 219, 233, 248, 89,
];

/// The Metaplex token-metadata program.
/// `metaqbxxUerdq28cj1RbAWkYQm3ybzjb6a8bt518x1s`
pub const MPL_TOKEN_METADATA_PROGRAM_ID: Pubkey = [
    11, 112, 101, 177, 227, 209, 124, 69, 56, 157, 82, 127, 107, 4, 195, 205, 88, 184, 108, 115, 26,
    160, 253, 181, 73, 182, 209, 188, 3, 248, 41, 70,
];

/// The system program.
/// `11111111111111111111111111111111`
pub const SYSTEM_PROGRAM_ID: Pubkey = [
    0, 0, 0, 0, 0, 0, 0, 0, 0, 0, 0, 0, 0, 0, 0, 0, 0, 0, 0, 0, 0, 0, 0, 0, 0, 0, 0, 0, 0, 0, 0, 0,
];

/// The rent sysvar.
/// `SysvarRent111111111111111111111111111111111`
pub const RENT_SYSVAR_ID: Pubkey = [
    6, 167, 213, 23, 25, 44, 92, 81, 33, 140, 201, 76, 61, 74, 241, 127, 88, 218, 238, 8, 155, 161,
    253, 68, 227, 219, 217, 138, 0, 0, 0, 0,
];

/// The compute-budget program.
/// `ComputeBudget111111111111111111111111111111`
pub const COMPUTE_BUDGET_PROGRAM_ID: Pubkey = [
    3, 6, 70, 111, 229, 33, 23, 50, 255, 236, 173, 186, 114, 195, 155, 231, 188, 140, 229, 187, 197,
    247, 18, 107, 44, 67, 155, 58, 64, 0, 0, 0,
];

/// Wrapped-SOL mint, used as the default quote mint.
/// `So11111111111111111111111111111111111111112`
pub const NATIVE_MINT: Pubkey = [
    6, 155, 136, 87, 254, 171, 129, 132, 251, 104, 127, 99, 70, 24, 192, 53, 218, 196, 57, 220, 26,
    235, 59, 85, 152, 160, 240, 0, 0, 0, 0, 1,
];

/// Reward-token mint.
/// `pumpCmXqMfrsAkQ5r49WcJnRayYRqmXz6ae8H7H9Dfn`
pub const PUMP_TOKEN_MINT: Pubkey = [
    12, 69, 247, 223, 141, 158, 114, 149, 98, 132, 147, 63, 109, 152, 183, 87, 3, 46, 131, 223, 132,
    96, 79, 181, 225, 23, 255, 246, 29, 91, 18, 249,
];

/// The fee program.
/// `pfeeUxB6jkeY1Hxd7CsFCAjcbHA9rWtchMGdZ6VojVZ`
pub const FEE_PROGRAM_ID: Pubkey = [
    12, 53, 255, 169, 5, 90, 142, 86, 141, 168, 247, 188, 7, 86, 21, 39, 76, 241, 201, 44, 164, 31,
    64, 0, 156, 81, 106, 164, 20, 194, 124, 112,
];

/// The mayhem program.
/// `MAyhSmzXzV1pTf7LsNkrNwkWKTo4ougAJ1PPg47MD4e`
pub const MAYHEM_PROGRAM_ID: Pubkey = [
    5, 42, 229, 215, 167, 218, 167, 36, 166, 234, 176, 167, 41, 84, 145, 133, 90, 212, 160, 103, 22,
    96, 103, 76, 78, 3, 69, 89, 128, 61, 101, 163,
];

/// Address lookup table for trades on mainnet.
/// `7mFD2mUtRS65XstiSAvCJuYmdesZoQwCwRJhq1p3eRMe`
pub const MAINNET_ALT: Pubkey = [
    100, 123, 189, 213, 152, 82, 4, 83, 182, 178, 91, 32, 241, 86, 232, 239, 2, 79, 195, 21, 241,
    62, 192, 72, 191, 98, 29, 76, 62, 94, 212, 85,
];

/// Address lookup table for trades on devnet.
/// `7y3623xaVQzsLxHRyp1wQD4Pmer5JjgbaagGFAEqCjua`
pub const DEVNET_ALT: Pubkey = [
    103, 129, 1, 143, 217, 196, 249, 54, 27, 98, 88, 139, 134, 182, 23, 232, 161, 153, 45, 251, 227,
    173, 189, 232, 119, 17, 96, 123, 53, 246, 155, 233,
];

} // verus!
