//! Program-derived addresses. Each function returns the address and its bump
//! seed, or nothing where the seeds admit no bump.

use vstd::prelude::*;

use crate::bytes::{
    byte_range, law_least_significant_first, law_numbers_read_back, le_value, lemma_byte_ranges,
};
use crate::constants;
use crate::constants::SPL_ATA_PROGRAM_ID;
use crate::pubkey::{derived, find_with_three, Pubkey};

pub mod mayhem;
pub mod pump;
pub mod pump_agent_payments;
pub mod pump_amm;

verus! {

/// The address of a program-derived address and its bump.
pub open spec fn address_of(pda: Option<(Pubkey, u8)>) -> Option<Pubkey> {
    match pda {
        Some((address, _)) => Some(address),
        None => None,
    }
}

/// Address of the token account of `owner` for `mint` under `token_program`.
pub open spec fn associated_token_pda(
    owner: Pubkey,
    token_program: Pubkey,
    mint: Pubkey,
) -> Option<(Pubkey, u8)> {
    derived(seq![owner@, token_program@, mint@], SPL_ATA_PROGRAM_ID)
}

/// The associated token account of `owner` for `mint` under `token_program`.
pub fn associated_token(owner: &Pubkey, token_program: &Pubkey, mint: &Pubkey) -> (r: Option<
    (Pubkey, u8),
>)
    ensures
        r == associated_token_pda(*owner, *token_program, *mint),
{
    find_with_three(owner, token_program, mint, &SPL_ATA_PROGRAM_ID)
}

/// A pool is found by its number, in two bytes with the least significant first, its
/// creator, and its base and quote mint, in this order; its liquidity mint by the pool;
/// and a token account by its owner, the token program and the mint.
pub proof fn law_pool_and_token_addresses(
    index: u16,
    creator: Pubkey,
    base_mint: Pubkey,
    quote_mint: Pubkey,
    pool: Pubkey,
    token_program: Pubkey,
    low: u8,
    high: u8,
)
    requires
        index == low + 256 * high,
    ensures
        pump_amm::pool_pda(index, creator, base_mint, quote_mint) == derived(
            seq![
                constants::pump_amm::POOL_SEED@,
                seq![low, high],
                creator@,
                base_mint@,
                quote_mint@,
            ],
            constants::pump_amm::PROGRAM_ID,
        ),
        pump_amm::lp_mint_pda(pool) == derived(
            seq![constants::pump_amm::POOL_LP_MINT_SEED@, pool@],
            constants::pump_amm::PROGRAM_ID,
        ),
        associated_token_pda(creator, token_program, base_mint) == derived(
            seq![creator@, token_program@, base_mint@],
            SPL_ATA_PROGRAM_ID,
        ),
{
    let bytes = seq![low, high];
    assert(bytes.skip(1) =~= seq![high]);
    law_least_significant_first(seq![low], seq![high], low);
    law_least_significant_first(seq![high], seq![], high);
    assert(seq![low] + seq![high] =~= bytes);
    assert(byte_range(1) == 256) by {
        lemma_byte_ranges();
    }
    assert(le_value(bytes) == index);
    law_numbers_read_back(index as nat, 2, bytes);
}

} // verus!
