//! Account decoders of the AMM.

use vstd::prelude::*;

use crate::accounts::{decode, decoding};
use crate::errors::ClientResult;
use crate::state::pump_amm::Pool;

verus! {

/// Reads a pool.
pub fn decode_pool(data: &[u8]) -> (r: ClientResult<Pool>)
    ensures
        decoding(data@, r),
{
    decode::<Pool>(data)
}

} // verus!
