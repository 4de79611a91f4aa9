//! The yield rule: how much is forwarded for an amount that was withdrawn.
//!
//! This is the one business rule of the orchestrator. It is a function of the
//! amount alone and can be replaced without touching the call chain.

use vstd::prelude::*;

verus! {

/// Factor by which a withdrawn amount grows before it is forwarded.
pub const YIELD_FACTOR: u128 = 2;

/// Largest amount whose yield still fits in 128 bits.
pub const YIELD_THRESHOLD: u128 = u128::MAX / YIELD_FACTOR;

/// The forwarded amount for a withdrawn `amount`: the amount times the yield
/// factor, held at `u128::MAX` where the product would not fit.
pub open spec fn yield_of(amount: u128) -> u128 {
    if amount <= YIELD_THRESHOLD {
        (amount * YIELD_FACTOR) as u128
    } else {
        u128::MAX
    }
}

/// Computes the forwarded amount for a withdrawn `amount`.
///
/// Overflow policy: saturating. An amount above `YIELD_THRESHOLD` yields
/// `u128::MAX`; the function neither wraps nor aborts.
pub fn yield_amount(amount: u128) -> (forwarded: u128)
    ensures
        forwarded == yield_of(amount),
        amount <= YIELD_THRESHOLD ==> forwarded == 2 * amount,
        amount > YIELD_THRESHOLD ==> forwarded == u128::MAX,
{
    if amount <= YIELD_THRESHOLD {
        amount * YIELD_FACTOR
    } else {
        u128::MAX
    }
}

} // verus!
