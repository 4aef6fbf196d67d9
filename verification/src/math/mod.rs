//! Quote math for bonding curves and AMM pools.
//!
//! Reserves and amounts are `u64` at the boundary; products are formed in
//! `u128`. Contracts speak of mathematical integers.

use vstd::prelude::*;

pub mod amm;
pub mod bonding_curve;
pub mod fees;
pub mod laws;
pub mod price_laws;
pub mod utils;

pub use bonding_curve::TOKEN_SUPPLY;

verus! {

/// Reasons a quote can fail. Returned in place of a panic wherever the inputs do
/// not describe a well-formed pool or trade.
#[derive(Debug, Clone, Copy, PartialEq, Eq, Structural)]
pub enum QuoteError {
    /// A reserve is zero, so nothing can be priced.
    EmptyReserves,
    /// A buy asked for the whole base reserve or more.
    BaseOutExceedsReserve,
    /// The fees exceed the raw output, which only a degenerate fee table of more
    /// than 10_000 basis points in all can bring about, or the table has no tier to
    /// take the fees from.
    FeesExceedOutput,
    /// A buy of a fixed token amount would empty the bonding curve.
    DepletedBondingCurve,
    /// An intermediate value left its integer type.
    MathOverflow,
    /// The market cap lies outside the caller's `target ± slippage` envelope.
    SlippageExceeded,
}

impl QuoteError {
    /// The text shown for each error.
    pub open spec fn spec_message(self) -> Seq<char> {
        match self {
            QuoteError::EmptyReserves => "pool reserves are zero"@,
            QuoteError::BaseOutExceedsReserve => "base_out exceeds the pool's base reserve"@,
            QuoteError::FeesExceedOutput => "fees exceed the pool's quote output"@,
            QuoteError::DepletedBondingCurve
                => "bonding curve is depleted (real == virtual reserves)"@,
            QuoteError::MathOverflow => "checked arithmetic overflowed"@,
            QuoteError::SlippageExceeded => "market cap fell outside the slippage envelope"@,
        }
    }

    /// One line of text for the error.
    pub fn message(self) -> (text: &'static str)
        ensures
            text@ == self.spec_message(),
    {
        match self {
            QuoteError::EmptyReserves => "pool reserves are zero",
            QuoteError::BaseOutExceedsReserve => "base_out exceeds the pool's base reserve",
            QuoteError::FeesExceedOutput => "fees exceed the pool's quote output",
            QuoteError::DepletedBondingCurve
                => "bonding curve is depleted (real == virtual reserves)",
            QuoteError::MathOverflow => "checked arithmetic overflowed",
            QuoteError::SlippageExceeded => "market cap fell outside the slippage envelope",
        }
    }
}

pub type QuoteResult<T> = Result<T, QuoteError>;

} // verus!
