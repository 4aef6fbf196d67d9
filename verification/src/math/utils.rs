//! Integer helpers shared by the quote builders.

use vstd::prelude::*;

use crate::math::{QuoteError, QuoteResult};

verus! {

/// Basis points in the whole.
pub const BPS_DENOMINATOR: u128 = 10_000;

/// `value` raised by `bps` basis points, rounded down.
pub open spec fn raised(value: int, bps: int) -> int {
    value * (10_000 + bps) / 10_000
}

/// `value` lowered by `bps` basis points, rounded down; zero from the whole on.
pub open spec fn lowered(value: int, bps: int) -> int {
    if bps >= 10_000 {
        0
    } else {
        value * (10_000 - bps) / 10_000
    }
}

/// `value * (10_000 + bps) / 10_000`, saturating at `u64::MAX`.
pub fn add_slippage(value: u64, bps: u16) -> (r: u64)
    ensures
        raised(value as int, bps as int) <= u64::MAX ==> r == raised(value as int, bps as int),
        raised(value as int, bps as int) > u64::MAX ==> r == u64::MAX,
{
    assert(0 <= value * (10_000 + bps) <= u64::MAX * 75_535) by (nonlinear_arith)
        requires
            0 <= value <= u64::MAX,
            0 <= bps <= 65_535,
    ;
    let scaled: u128 = (value as u128) * (10_000 + bps as u128) / 10_000;
    if scaled > u64::MAX as u128 {
        u64::MAX
    } else {
        scaled as u64
    }
}

/// `value * (10_000 - bps) / 10_000`; `bps` above 10_000 counts as 10_000.
pub fn sub_slippage(value: u64, bps: u16) -> (r: u64)
    ensures
        r == lowered(value as int, bps as int),
        r <= value,
{
    if bps >= 10_000 {
        return 0;
    }
    assert(0 <= value * (10_000 - bps) <= value * 10_000) by (nonlinear_arith)
        requires
            0 <= value <= u64::MAX,
            0 <= bps < 10_000,
    ;
    let scaled: u128 = (value as u128) * (10_000 - bps as u128) / 10_000;
    scaled as u64
}

/// The width of the envelope round `value`: `bps` basis points of it, rounded down.
pub open spec fn envelope_width(value: int, bps: int) -> int {
    value * bps / 10_000
}

/// The envelope `value ± bps`, where every step of computing it fits in `u128`.
pub open spec fn envelope(value: int, bps: int) -> Option<(int, int)> {
    let width = envelope_width(value, bps);
    if value * bps <= u128::MAX && width <= value && value + width <= u128::MAX {
        Some((value - width, value + width))
    } else {
        None
    }
}

/// `(value - width, value + width)` where `width = value * bps / 10_000`; `None`
/// if a step leaves `u128`.
pub fn slippage_bounds(value: u128, bps: u16) -> (r: Option<(u128, u128)>)
    ensures
        match r {
            Some((lo, hi)) => envelope(value as int, bps as int) == Some((lo as int, hi as int)),
            None => envelope(value as int, bps as int) is None,
        },
{
    match value.checked_mul(bps as u128) {
        None => None,
        Some(product) => {
            let width: u128 = product / 10_000;
            match value.checked_sub(width) {
                None => None,
                Some(lo) => match value.checked_add(width) {
                    None => None,
                    Some(hi) => Some((lo, hi)),
                },
            }
        },
    }
}

/// What `a * b / denom` gives in `u128` arithmetic.
pub open spec fn mul_div(a: int, b: int, denom: int) -> QuoteResult<u128> {
    if denom != 0 && a * b <= u128::MAX {
        Ok((a * b / denom) as u128)
    } else {
        Err(QuoteError::MathOverflow)
    }
}

/// `a * b / denom`; `MathOverflow` if the product leaves `u128` or `denom` is zero.
pub fn mul_div_u128(a: u128, b: u128, denom: u128) -> (r: QuoteResult<u128>)
    ensures
        r == mul_div(a as int, b as int, denom as int),
        r matches Ok(q) ==> q == a * b / (denom as int),
{
    match a.checked_mul(b) {
        None => Err(QuoteError::MathOverflow),
        Some(product) => {
            if denom == 0 {
                Err(QuoteError::MathOverflow)
            } else {
                Ok(product / denom)
            }
        },
    }
}

/// Slippage moves an amount the right way: down for what is received, up for
/// what is paid; none leaves it as it is.
pub proof fn law_slippage_direction(value: u64, bps: u16)
    ensures
        lowered(value as int, bps as int) <= value <= raised(value as int, bps as int),
        lowered(value as int, 0) == value == raised(value as int, 0),
        bps >= 10_000 ==> lowered(value as int, bps as int) == 0,
{
    assert(value * (10_000 + bps) >= value * 10_000) by (nonlinear_arith)
        requires
            0 <= value,
            0 <= bps,
    ;
    if bps < 10_000 {
        assert(value * (10_000 - bps) <= value * 10_000) by (nonlinear_arith)
            requires
                0 <= value,
                0 <= bps < 10_000,
        ;
    }
}

/// The envelope brackets its centre symmetrically, and collapses to it at no slippage.
pub proof fn law_envelope_brackets(value: u128, bps: u16)
    ensures
        envelope(value as int, bps as int) matches Some((lo, hi)) ==> lo <= value <= hi && value - lo
            == hi - value,
        envelope(value as int, 0) == Some((value as int, value as int)),
{
}

} // verus!
