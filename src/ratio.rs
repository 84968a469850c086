//! Collateralization ratio arithmetic.
use vstd::prelude::*;
use vstd::arithmetic::div_mod::lemma_div_is_ordered;
use vstd::arithmetic::mul::lemma_mul_inequality;

verus! {

/// The price of one collateral unit at parity with the synthetic asset, in
/// hundredths of a percent: at this price one collateral unit is worth one
/// synthetic unit.
pub const PARITY_PRICE: u64 = 10_000;

/// The lowest minimum collateralization ratio, in percent, that the
/// parameters may hold.
pub const LOWEST_MIN_RATIO: u64 = 100;

/// The collateralization ratio in percent, rounded down: the value of the
/// collateral (`collateral * price / PARITY_PRICE`) over the debt, times 100.
pub open spec fn collateral_ratio(collateral: int, debt: int, price: int) -> int
    recommends
        debt > 0,
{
    (collateral * price) / (debt * 100)
}

/// A position is healthy when it owes nothing, or when its ratio reaches the
/// minimum.
pub open spec fn healthy(collateral: int, debt: int, price: int, min_ratio: int) -> bool {
    debt == 0 || collateral_ratio(collateral, debt, price) >= min_ratio
}

/// More collateral against the same debt never makes a healthy position
/// unhealthy.
pub proof fn lemma_healthy_more_collateral(c1: int, c2: int, debt: int, price: int, min_ratio: int)
    requires
        0 <= c1 <= c2,
        0 <= debt,
        0 <= price,
        healthy(c1, debt, price, min_ratio),
    ensures
        healthy(c2, debt, price, min_ratio),
{
    if debt > 0 {
        lemma_mul_inequality(c1, c2, price);
        lemma_div_is_ordered(c1 * price, c2 * price, debt * 100);
    }
}

/// Computes the collateralization ratio in a widened integer, so that the
/// product never overflows and no precision is lost before the division.
pub fn ratio_of(collateral: u64, debt: u64, price: u64) -> (r: u128)
    requires
        debt > 0,
    ensures
        r as int == collateral_ratio(collateral as int, debt as int, price as int),
{
    let c: u128 = collateral as u128;
    let p: u128 = price as u128;
    proof {
        assert(c * p <= 0xffff_ffff_ffff_ffffu128 * 0xffff_ffff_ffff_ffffu128) by (nonlinear_arith)
            requires
                c <= 0xffff_ffff_ffff_ffffu128,
                p <= 0xffff_ffff_ffff_ffffu128,
        ;
    }
    (c * p) / ((debt as u128) * 100)
}

/// Tells whether a position with these amounts meets `min_ratio` at `price`.
/// A position without debt always does.
pub fn is_healthy(collateral: u64, debt: u64, price: u64, min_ratio: u64) -> (r: bool)
    ensures
        r == healthy(collateral as int, debt as int, price as int, min_ratio as int),
{
    if debt == 0 {
        true
    } else {
        ratio_of(collateral, debt, price) >= min_ratio as u128
    }
}

} // verus!
