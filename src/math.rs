//! Fixed-point helpers shared by the accrual and settlement logic.
use vstd::prelude::*;

verus! {

/// Scaling factor of every rate and reward-per-token quantity.
pub const PRECISION: u64 = 1_000_000_000_000;

pub const SECONDS_PER_DAY: u64 = 24 * 60 * 60;

pub const SECONDS_PER_YEAR: u64 = 365 * SECONDS_PER_DAY;

/// Longest withdrawal delay an administrator may configure, in days.
pub const MAX_WITHDRAWAL_DELAY_DAYS: u64 = 31;

/// `a * b / d`, rounded down, over unbounded integers.
pub open spec fn scaled_mul_div_spec(a: int, b: int, d: int) -> int {
    a * b / d
}

/// `a * b / divisor` through a 128-bit intermediate, rounded down.
/// `None` when the quotient does not fit in a `u64`.
pub fn scaled_mul_div(a: u64, b: u64, divisor: u64) -> (r: Option<u64>)
    requires
        divisor > 0,
    ensures
        r is Some <==> scaled_mul_div_spec(a as int, b as int, divisor as int) <= u64::MAX,
        r matches Some(v) ==> v == scaled_mul_div_spec(a as int, b as int, divisor as int),
{
    assert((a as int) * (b as int) <= u64::MAX as int * u64::MAX as int) by (nonlinear_arith);
    assert(u64::MAX as int * u64::MAX as int <= u128::MAX) by (nonlinear_arith);
    let wide: u128 = (a as u128) * (b as u128);
    let q: u128 = wide / (divisor as u128);
    if q > u64::MAX as u128 {
        None
    } else {
        Some(q as u64)
    }
}

/// Per-second, per-token rate (scaled) for a yearly rate numerator (scaled).
pub open spec fn per_second_rate(yearly_numerator: int) -> int {
    yearly_numerator / SECONDS_PER_YEAR as int
}

/// Converts a yearly rate numerator into the per-second, per-token rate.
/// The division rounds down, so very small yearly rates become zero.
pub fn yearly_to_per_second_rate(yearly_numerator: u64) -> (r: u64)
    ensures
        r == per_second_rate(yearly_numerator as int),
{
    yearly_numerator / SECONDS_PER_YEAR
}

/// A withdrawal delay of `days` days, in seconds.
pub fn days_to_seconds(days: u64) -> (r: u32)
    requires
        days <= MAX_WITHDRAWAL_DELAY_DAYS,
    ensures
        r == days * SECONDS_PER_DAY,
{
    assert(days * SECONDS_PER_DAY <= 31 * 86400) by (nonlinear_arith)
        requires days <= 31, SECONDS_PER_DAY == 86400;
    (days * SECONDS_PER_DAY) as u32
}

} // verus!
