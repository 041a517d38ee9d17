//! The vesting calculator: pure fixed-point arithmetic that turns elapsed
//! time into the redeemable fraction of a newly unlocked entitlement.
//! Percentages are integers scaled by [`crate::PERCENT_100`].

use vstd::prelude::*;

use vstd::arithmetic::div_mod::{lemma_div_by_multiple, lemma_div_is_ordered};
use vstd::arithmetic::mul::{lemma_mul_inequality, lemma_mul_upper_bound};

use crate::PERCENT_100;

verus! {

/// The fraction `percentage / PERCENT_100` of `amount`, rounded down.
pub open spec fn spec_percentage_of(amount: int, percentage: int) -> int {
    amount * percentage / (PERCENT_100 as int)
}

/// Linear interpolation from `base` at `elapsed == 0` up to exactly
/// `PERCENT_100` at `elapsed == total_offset`.
pub open spec fn spec_time_scaled_percentage(base: int, elapsed: int, total_offset: int) -> int {
    base + (PERCENT_100 - base) * elapsed / total_offset
}

/// Computes `floor(amount * percentage / PERCENT_100)` through a 128-bit
/// intermediate, so the product never overflows.
pub fn get_percentage(amount: u64, percentage: u64) -> (r: u64)
    requires
        percentage <= PERCENT_100,
    ensures
        r == spec_percentage_of(amount as int, percentage as int),
        r <= amount,
{
    proof {
        lemma_mul_upper_bound(amount as int, u64::MAX as int, percentage as int, PERCENT_100 as int);
        // amount * percentage <= amount * PERCENT_100, so the quotient is at most amount
        lemma_mul_inequality(percentage as int, PERCENT_100 as int, amount as int);
        lemma_div_is_ordered(
            amount as int * percentage as int,
            amount as int * PERCENT_100 as int,
            PERCENT_100 as int,
        );
        lemma_div_by_multiple(amount as int, PERCENT_100 as int);
    }
    let wide: u128 = (amount as u128) * (percentage as u128);
    let q: u128 = wide / (PERCENT_100 as u128);
    q as u64
}

/// Scales from `base_percentage` at the window's start linearly up to
/// `PERCENT_100` once `elapsed_time` reaches `total_offset_time`.
pub fn get_time_scaled_percentage(
    base_percentage: u64,
    elapsed_time: u64,
    total_offset_time: u64,
) -> (r: u64)
    requires
        base_percentage <= PERCENT_100,
        elapsed_time <= total_offset_time,
        total_offset_time > 0,
    ensures
        r == spec_time_scaled_percentage(
            base_percentage as int,
            elapsed_time as int,
            total_offset_time as int,
        ),
        r <= PERCENT_100,
{
    let percentage_diff: u64 = PERCENT_100 - base_percentage;
    proof {
        lemma_mul_upper_bound(
            percentage_diff as int,
            PERCENT_100 as int,
            elapsed_time as int,
            u64::MAX as int,
        );
        // diff * elapsed <= diff * total_offset, so the quotient is at most diff
        lemma_mul_inequality(elapsed_time as int, total_offset_time as int, percentage_diff as int);
        lemma_div_is_ordered(
            percentage_diff as int * elapsed_time as int,
            percentage_diff as int * total_offset_time as int,
            total_offset_time as int,
        );
        lemma_div_by_multiple(percentage_diff as int, total_offset_time as int);
    }
    let a: u128 = (percentage_diff as u128) * (elapsed_time as u128);
    let scaled: u128 = (base_percentage as u128) + a / (total_offset_time as u128);
    scaled as u64
}

/// A zero percentage yields nothing and a hundred percent yields the whole
/// amount, exactly, for every amount.
pub proof fn lemma_percentage_of_extremes(amount: u64)
    ensures
        spec_percentage_of(amount as int, 0) == 0,
        spec_percentage_of(amount as int, PERCENT_100 as int) == amount as int,
{
    lemma_div_by_multiple(amount as int, PERCENT_100 as int);
}

/// The time-scaled percentage starts at the base percentage and reaches
/// exactly one hundred percent at the end of the offset, for every valid base
/// and every positive offset.
pub proof fn lemma_time_scaled_percentage_endpoints(base: u64, total_offset: u64)
    requires
        base <= PERCENT_100,
        total_offset > 0,
    ensures
        spec_time_scaled_percentage(base as int, 0, total_offset as int) == base as int,
        spec_time_scaled_percentage(base as int, total_offset as int, total_offset as int)
            == PERCENT_100 as int,
{
    lemma_div_by_multiple(PERCENT_100 - base as int, total_offset as int);
}

} // verus!
