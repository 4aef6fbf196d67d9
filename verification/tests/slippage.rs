//! Slippage helpers.

use pump_rust_client::math::utils::{add_slippage, slippage_bounds, sub_slippage};


#[test]
fn slippage_helpers_apply_correct_direction() {
    // Sub: 100 * (10_000 - 250) / 10_000 = 97
    assert_eq!(sub_slippage(100, 250), 97);
    // Add: 100 * (10_000 + 250) / 10_000 = 102
    assert_eq!(add_slippage(100, 250), 102);
    // Saturates at full slippage
    assert_eq!(sub_slippage(1_000_000, 10_000), 0);
    assert_eq!(sub_slippage(1_000_000, 20_000), 0);
}

#[test]
fn slippage_bounds_brackets_value() {
    // 1_000_000 * 250 / 10_000 = 25_000
    assert_eq!(slippage_bounds(1_000_000, 250), Some((975_000, 1_025_000)));
    // bps=0 collapses to a point envelope
    assert_eq!(slippage_bounds(42, 0), Some((42, 42)));
}

#[test]
fn slippage_bounds_overflow_returns_none() {
    // Multiplication overflows u128.
    assert_eq!(slippage_bounds(u128::MAX, 1), None);
}
