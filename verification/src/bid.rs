//! The bid engine: a stateless computation of the next bid of a campaign.

use vstd::prelude::*;
use vstd::math::{max, min};

verus! {

/// Number of micro-units in one whole unit, of money and of a ratio alike.
pub const MICROS_PER_UNIT: u64 = 1_000_000;

/// The amount that a campaign aims to bid: the return-on-ad-spend ratio times
/// the acquisition cost, rounded down to a whole micro-unit. A ratio that is
/// zero or negative disables bidding.
pub open spec fn bid_target(roas: int, acquire_cost: int) -> int {
    if roas <= 0 {
        0
    } else {
        (roas * acquire_cost) / (MICROS_PER_UNIT as int)
    }
}

/// The next bid: the target, capped by what remains of the budget, and never
/// negative.
pub open spec fn bid_amount(remaining: int, roas: int, acquire_cost: int) -> int {
    max(min(remaining, bid_target(roas, acquire_cost)), 0)
}

/// The product of a positive ratio and a cost fits in 128 bits.
proof fn lemma_product_fits(roas: i64, acquire_cost: u64)
    requires
        roas > 0,
    ensures
        0 <= roas * acquire_cost <= u128::MAX,
{
    assert(0 <= roas * acquire_cost <= 0x8000_0000_0000_0000 * 0x1_0000_0000_0000_0000)
        by (nonlinear_arith)
        requires
            0 < roas <= 0x8000_0000_0000_0000,
            0 <= acquire_cost <= 0x1_0000_0000_0000_0000,
    ;
}

/// Computes the next bid from what remains of the budget, the
/// return-on-ad-spend ratio and the acquisition cost, all in micro-units.
pub fn next_bid(remaining: u64, roas: i64, acquire_cost: u64) -> (bid: u64)
    ensures
        bid == bid_amount(remaining as int, roas as int, acquire_cost as int),
{
    if roas <= 0 {
        return 0;
    }
    proof {
        lemma_product_fits(roas, acquire_cost);
    }
    let product: u128 = (roas as u128) * (acquire_cost as u128);
    let target: u128 = product / (MICROS_PER_UNIT as u128);
    if target < remaining as u128 {
        target as u64
    } else {
        remaining
    }
}

/// For a budget and a cost that are not negative, the next bid is the lesser
/// of what remains and of the scaled product of ratio and cost, the product
/// counted as zero where it is negative.
pub proof fn lemma_bid_formula(remaining: int, roas: int, acquire_cost: int)
    requires
        remaining >= 0,
        acquire_cost >= 0,
    ensures
        bid_amount(remaining, roas, acquire_cost) == min(
            remaining,
            max(0, (roas * acquire_cost) / (MICROS_PER_UNIT as int)),
        ),
{
    if roas <= 0 {
        assert(roas * acquire_cost <= 0) by (nonlinear_arith)
            requires
                roas <= 0,
                acquire_cost >= 0,
        ;
    } else {
        assert(roas * acquire_cost >= 0) by (nonlinear_arith)
            requires
                roas > 0,
                acquire_cost >= 0,
        ;
    }
}

/// A ratio that is zero or negative gives a bid of zero, whatever remains and
/// whatever the cost.
pub proof fn lemma_bid_guard(remaining: int, roas: int, acquire_cost: int)
    requires
        roas <= 0,
    ensures
        bid_amount(remaining, roas, acquire_cost) == 0,
{
}

/// A bid is never negative and never more than what remains of the budget.
pub proof fn lemma_bid_within_remaining(remaining: int, roas: int, acquire_cost: int)
    requires
        remaining >= 0,
    ensures
        0 <= bid_amount(remaining, roas, acquire_cost) <= remaining,
{
}

/// An exhausted budget gives a bid of zero.
pub proof fn lemma_bid_exhausted(roas: int, acquire_cost: int)
    ensures
        bid_amount(0, roas, acquire_cost) == 0,
{
}

} // verus!
