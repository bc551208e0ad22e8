//! Shared fixed-point arithmetic: saturation at a type's ceiling and
//! clamping into a closed interval, as specification functions together
//! with the executable operations that realise them.

use vstd::prelude::*;

verus! {

/// A dimensionless factor of one is stored as 1000 thousandths.
pub const MILLI_ONE: u32 = 1000;

/// A percentage of one hundred is stored as 100_000 thousandths of a percent.
pub const MILLI_PCT_FULL: u32 = 100_000;

pub open spec fn sat_u32(x: int) -> int {
    if x > u32::MAX { u32::MAX as int } else { x }
}

pub open spec fn sat_u64(x: int) -> int {
    if x > u64::MAX { u64::MAX as int } else { x }
}

pub open spec fn sat_u128(x: int) -> int {
    if x > u128::MAX { u128::MAX as int } else { x }
}

pub open spec fn sat_i64(x: int) -> int {
    if x > i64::MAX {
        i64::MAX as int
    } else if x < i64::MIN {
        i64::MIN as int
    } else {
        x
    }
}

pub open spec fn clamp_int(x: int, lo: int, hi: int) -> int {
    if x < lo {
        lo
    } else if x > hi {
        hi
    } else {
        x
    }
}

pub open spec fn min_int(a: int, b: int) -> int {
    if a < b { a } else { b }
}

pub fn sat_add_u32(a: u32, b: u32) -> (r: u32)
    ensures
        r == sat_u32(a + b),
{
    if a > u32::MAX - b {
        u32::MAX
    } else {
        a + b
    }
}

pub fn sat_add_u64(a: u64, b: u64) -> (r: u64)
    ensures
        r == sat_u64(a + b),
{
    if a > u64::MAX - b {
        u64::MAX
    } else {
        a + b
    }
}

pub fn sat_add_u128(a: u128, b: u128) -> (r: u128)
    ensures
        r == sat_u128(a + b),
{
    if a > u128::MAX - b {
        u128::MAX
    } else {
        a + b
    }
}

pub fn sat_add_i64(a: i64, b: i64) -> (r: i64)
    ensures
        r == sat_i64(a + b),
{
    let s: i128 = a as i128 + b as i128;
    if s > i64::MAX as i128 {
        i64::MAX
    } else if s < i64::MIN as i128 {
        i64::MIN
    } else {
        s as i64
    }
}

/// Adds a signed delta to an unsigned value and clamps the result into
/// `[0, hi]`; the delta-then-clamp step every bounded factor and
/// percentage field goes through.
pub fn clamp_add_u32(v: u32, delta: i64, hi: u32) -> (r: u32)
    ensures
        r == clamp_int(v + delta, 0, hi as int),
{
    let s: i128 = v as i128 + delta as i128;
    if s < 0 {
        0
    } else if s > hi as i128 {
        hi
    } else {
        s as u32
    }
}

} // verus!
