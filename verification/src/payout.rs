//! The payout of a winning bet: the wager scaled by the odds of the chosen
//! threshold, less a fixed house edge, computed in 128-bit intermediate
//! arithmetic and narrowed back to 64 bits.

use vstd::prelude::*;

use vstd::arithmetic::div_mod::lemma_div_denominator;
use vstd::arithmetic::mul::lemma_mul_inequality;

use crate::error::DiceError;

verus! {

/// The house edge in basis points: 1.5 percent.
pub const HOUSE_EDGE: u16 = 150;

/// The exact payout of a winning bet, in unbounded integers:
/// floor(floor(amount * (10000 - HOUSE_EDGE) / (threshold - 1)) / 100).
pub open spec fn payout_value(amount: u64, threshold: u8) -> int {
    amount * (10000 - HOUSE_EDGE) / ((threshold - 1) as int) / 100
}

/// The nested floor divisions equal one floor division by the combined
/// denominator: the 128-bit intermediate result matches the value computed
/// with unbounded precision.
pub proof fn lemma_payout_combined_denominator(amount: u64, threshold: u8)
    requires
        2 <= threshold,
    ensures
        payout_value(amount, threshold) == amount * (10000 - HOUSE_EDGE) / (
        ((threshold - 1) * 100) as int),
{
    lemma_div_denominator(
        amount * (10000 - HOUSE_EDGE),
        (threshold - 1) as int,
        100,
    );
}

/// Computes the payout of a winning bet with the chosen threshold, or
/// reports overflow when it does not fit in 64 bits.
pub fn compute_payout(amount: u64, threshold: u8) -> (r: Result<u64, DiceError>)
    requires
        2 <= threshold,
    ensures
        payout_value(amount, threshold) <= u64::MAX ==> r == Ok::<u64, DiceError>(
            payout_value(amount, threshold) as u64,
        ),
        payout_value(amount, threshold) > u64::MAX ==> r == Err::<u64, DiceError>(
            DiceError::Overflow,
        ),
{
    let edge_factor: u16 = 10000 - HOUSE_EDGE;
    proof {
        lemma_mul_inequality(amount as int, u64::MAX as int, edge_factor as int);
    }
    let wide: u128 = (amount as u128) * (edge_factor as u128);
    let d1: u128 = wide / ((threshold - 1) as u128);
    let d2: u128 = d1 / 100;
    if d2 > u64::MAX as u128 {
        Err(DiceError::Overflow)
    } else {
        Ok(d2 as u64)
    }
}

} // verus!
