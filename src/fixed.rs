//! Fixed-point helpers shared by the vehicle and world models.
//!
//! Lengths are held in micro-units, angles in micro-radians and time in microseconds.
use vstd::prelude::*;

verus! {

/// Microseconds in one second: the scale of every rate in the crate.
pub const MICROS_PER_SECOND: u64 = 1_000_000;

/// `value` limited from above by `max`, then from below by `min`.
pub open spec fn clamp_spec(value: int, min: int, max: int) -> int {
    let capped = if value < max { value } else { max };
    if capped > min { capped } else { min }
}

/// What a non-negative `rate` per second adds up to over `dt` microseconds, rounded down.
pub open spec fn rate_step_spec(rate: int, dt: int) -> int {
    rate * dt / (MICROS_PER_SECOND as int)
}

/// Limits `value` to `[min, max]`: first from above by `max`, then from below by `min`,
/// so `min` wins when the bounds are crossed.
pub fn clamp(value: i64, min: i64, max: i64) -> (r: i64)
    ensures
        r == clamp_spec(value as int, min as int, max as int),
{
    let capped = if value < max { value } else { max };
    if capped > min { capped } else { min }
}

/// `clamp` on a value too wide for `i64`; the result always fits since it lies
/// between the two bounds (or equals `min`).
pub fn clamp_wide(value: i128, min: i64, max: i64) -> (r: i64)
    ensures
        r == clamp_spec(value as int, min as int, max as int),
{
    let capped: i128 = if value < max as i128 { value } else { max as i128 };
    if capped > min as i128 { capped as i64 } else { min }
}

/// The change that `rate` per second makes over `dt` microseconds, rounded down.
pub fn rate_step(rate: i64, dt: u64) -> (r: i128)
    requires
        rate >= 0,
    ensures
        r == rate_step_spec(rate as int, dt as int),
        0 <= r <= rate as int * dt as int,
        r < 0x1000_0000_0000_0000_0000_0000_0000,
{
    let a: u128 = rate as u128;
    let b: u128 = dt as u128;
    assert(a * b <= 0x7fff_ffff_ffff_ffff * 0xffff_ffff_ffff_ffff) by (nonlinear_arith)
        requires
            a <= 0x7fff_ffff_ffff_ffff,
            b <= 0xffff_ffff_ffff_ffff,
    ;
    let p: u128 = a * b;
    let q: u128 = p / (MICROS_PER_SECOND as u128);
    assert(q <= p && q < 0x1000_0000_0000_0000_0000_0000_0000) by (nonlinear_arith)
        requires
            q == p / 1_000_000,
            0 <= p <= 0x7fff_ffff_ffff_ffff * 0xffff_ffff_ffff_ffff,
    ;
    q as i128
}

} // verus!
