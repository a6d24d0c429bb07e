//! Normalized levels (a motor power, a brightness) as fixed-point integers.

use vstd::prelude::*;

verus! {

/// One whole unit of a normalized level: the integer that stands for `1.0`.
/// A power of `-0.25` is written `-250_000`.
pub const FULL_SCALE: i32 = 1_000_000;

/// The absolute value of `x`.
pub open spec fn abs(x: int) -> int {
    if x < 0 {
        -x
    } else {
        x
    }
}

/// `round(|level| * steps)`, where `level` counts units of `FULL_SCALE` and a
/// half is rounded away from zero.
pub open spec fn scaled_round(level: int, steps: int) -> int {
    (abs(level) * steps + FULL_SCALE / 2) / (FULL_SCALE as int)
}

/// The magnitude of `level`, without overflow for `i32::MIN`.
pub fn magnitude(level: i32) -> (r: u32)
    ensures
        r == abs(level as int),
{
    if level < 0 {
        (-(level as i64)) as u32
    } else {
        level as u32
    }
}

/// `round(magnitude * steps)` for a magnitude in units of `FULL_SCALE`.
pub fn round_scaled(magnitude: u32, steps: u32) -> (r: u64)
    requires
        steps <= 256,
    ensures
        r == scaled_round(magnitude as int, steps as int),
{
    proof {
        assert(magnitude as int * steps as int <= u32::MAX as int * 256) by (nonlinear_arith)
            requires
                steps <= 256,
        ;
    }
    (magnitude as u64 * steps as u64 + (FULL_SCALE / 2) as u64) / FULL_SCALE as u64
}

} // verus!
