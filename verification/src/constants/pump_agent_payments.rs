//! Seeds of the agent-payments program.

use vstd::prelude::*;

verus! {

/// `"global-config"`
pub const GLOBAL_CONFIG_SEED: [u8; 13] = [
    103, 108, 111, 98, 97, 108, 45, 99, 111, 110, 102, 105, 103,
];

/// `"token-agent-payments"`
pub const TOKEN_AGENT_PAYMENTS_SEED: [u8; 20] = [
    116, 111, 107, 101, 110, 45, 97, 103, 101, 110, 116, 45, 112, 97, 121, 109, 101, 110, 116, 115,
];

/// `"__event_authority"`
pub const EVENT_AUTHORITY_SEED: [u8; 17] = [
    95, 95, 101, 118, 101, 110, 116, 95, 97, 117, 116, 104, 111, 114, 105, 116, 121,
];

} // verus!
