//! A stand-alone bid estimate from an expected revenue.
//!
//! This estimate divides a fixed expected revenue by the return-on-ad-spend
//! ratio. It commits nothing and is independent of the bid engine in
//! `bid`, which the campaign store uses.

use vstd::prelude::*;
use vstd::math::min;
use crate::bid::MICROS_PER_UNIT;

verus! {

/// The revenue that one acquisition is expected to bring, in micro-units.
pub const EXPECTED_REVENUE: u64 = 12_000_000;

/// The most that is worth bidding at a given ratio: the expected revenue
/// divided by the ratio, rounded down to a whole micro-unit, and nothing
/// where the ratio is zero or negative.
pub open spec fn revenue_bid_cap(roas: int) -> int {
    if roas > 0 {
        (EXPECTED_REVENUE * MICROS_PER_UNIT) / roas
    } else {
        0
    }
}

/// A campaign with what is left of its budget and its return-on-ad-spend
/// ratio, both in micro-units.
#[derive(Clone, Copy, Debug, PartialEq, Eq, Structural)]
pub struct Campaign {
    pub remaining_budget: u64,
    pub roas: i64,
}

impl Campaign {
    /// The bid as a mathematical value: the cap of `revenue_bid_cap`, or
    /// what is left of the budget where that is less.
    pub open spec fn spec_next_bid(self) -> int {
        min(self.remaining_budget as int, revenue_bid_cap(self.roas as int))
    }

    pub fn new(remaining_budget: u64, roas: i64) -> (campaign: Campaign)
        ensures
            campaign.remaining_budget == remaining_budget,
            campaign.roas == roas,
    {
        Campaign { remaining_budget, roas }
    }

    /// The next bid of the campaign.
    pub fn next_bid(&self) -> (bid: u64)
        ensures
            bid == self.spec_next_bid(),
            bid <= self.remaining_budget,
            self.roas <= 0 ==> bid == 0,
    {
        let max_bid: u64 = if self.roas > 0 {
            (EXPECTED_REVENUE * MICROS_PER_UNIT) / (self.roas as u64)
        } else {
            0
        };
        if self.remaining_budget < max_bid {
            self.remaining_budget
        } else {
            max_bid
        }
    }
}

} // verus!
