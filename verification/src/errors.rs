//! Errors of account decoding and fetching.

use vstd::prelude::*;

use crate::pubkey::Pubkey;

verus! {

/// Why account data was rejected.
#[derive(Debug, Clone, Copy, PartialEq, Eq, Structural)]
pub enum DecodeError {
    /// The data belongs to another kind of account.
    WrongDiscriminator,
    /// A field holds a byte that its type does not admit.
    Malformed,
}

/// Errors of the client.
#[derive(Debug, Clone, Copy, PartialEq, Eq)]
pub enum PumpClientError {
    /// Account data was rejected.
    Decode(DecodeError),
    /// A required account does not exist.
    AccountNotFound { name: &'static str, address: Pubkey },
}

pub type ClientResult<T> = Result<T, PumpClientError>;

} // verus!
