//! Addresses derived by the agent-payments program, whose id the caller supplies.

use vstd::prelude::*;

use crate::constants::pump_agent_payments::{
    EVENT_AUTHORITY_SEED, GLOBAL_CONFIG_SEED, TOKEN_AGENT_PAYMENTS_SEED,
};
use crate::pubkey::{derived, find_with_one, find_with_two, Pubkey};

verus! {

/// Address of the global config account.
pub open spec fn global_config_pda(program_id: Pubkey) -> Option<(Pubkey, u8)> {
    derived(seq![GLOBAL_CONFIG_SEED@], program_id)
}

/// The global config account.
pub fn global_config(program_id: &Pubkey) -> (r: Option<(Pubkey, u8)>)
    ensures
        r == global_config_pda(*program_id),
{
    find_with_one(&GLOBAL_CONFIG_SEED, program_id)
}

/// Address of the payment account of the agent behind `mint`.
pub open spec fn token_agent_payments_pda(mint: Pubkey, program_id: Pubkey) -> Option<(Pubkey, u8)> {
    derived(seq![TOKEN_AGENT_PAYMENTS_SEED@, mint@], program_id)
}

/// The payment account of the agent behind `mint`.
pub fn token_agent_payments(mint: &Pubkey, program_id: &Pubkey) -> (r: Option<(Pubkey, u8)>)
    ensures
        r == token_agent_payments_pda(*mint, *program_id),
{
    find_with_two(&TOKEN_AGENT_PAYMENTS_SEED, mint, program_id)
}

/// Address of the program's event authority.
pub open spec fn event_authority_pda(program_id: Pubkey) -> Option<(Pubkey, u8)> {
    derived(seq![EVENT_AUTHORITY_SEED@], program_id)
}

/// The program's event authority.
pub fn event_authority(program_id: &Pubkey) -> (r: Option<(Pubkey, u8)>)
    ensures
        r == event_authority_pda(*program_id),
{
    find_with_one(&EVENT_AUTHORITY_SEED, program_id)
}

} // verus!
