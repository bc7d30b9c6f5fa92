use vstd::prelude::*;

verus! {

/// One whole unit of the asset, in its smallest denomination (six decimals).
pub const UNIT: u64 = 1_000_000;

/// Cooling-off delay, in seconds, for a payment of `amount` to an untrusted recipient.
pub open spec fn cooling_off(amount: u64) -> int {
    if amount < 10 * UNIT {
        900
    } else if amount < 100 * UNIT {
        3600
    } else if amount < 500 * UNIT {
        21600
    } else {
        86400
    }
}

/// The delay for `amount`: 15 minutes under 10 units, one hour under 100,
/// six hours under 500, a day from 500 units up.
pub fn get_cooling_off_period(amount: u64) -> (r: i64)
    ensures
        r == cooling_off(amount),
        900 <= r <= 86400,
{
    if amount < 10_000_000 {
        15 * 60
    } else if amount < 100_000_000 {
        60 * 60
    } else if amount < 500_000_000 {
        6 * 60 * 60
    } else {
        24 * 60 * 60
    }
}

/// The delay never shrinks as the amount grows, and each tier starts exactly
/// at its bound: 10, 100 and 500 units already belong to the longer delay.
pub proof fn lemma_cooling_off_monotonic(a: u64, b: u64)
    requires
        a <= b,
    ensures
        cooling_off(a) <= cooling_off(b),
        cooling_off(10_000_000) == 3600,
        cooling_off(100_000_000) == 21600,
        cooling_off(500_000_000) == 86400,
        cooling_off(9_999_999) == 900,
        cooling_off(99_999_999) == 3600,
        cooling_off(499_999_999) == 21600,
{
}

} // verus!
