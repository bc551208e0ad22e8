//! Sine and cosine on angles in thousandths of a degree, scaled by 1000,
//! computed with Bhaskara's rational approximation
//! `sin x ~= 4x(180 - x) / (40500 - x(180 - x))` for `x` in degrees between
//! 0 and 180, extended to a full turn by odd symmetry.

use vstd::prelude::*;

verus! {

/// Half-turn sine for an angle `h` in `[0, 180_000]` thousandths of a degree,
/// scaled by 1000.
pub open spec fn spec_sin_half_milli(h: int) -> int {
    let p = h * (180_000 - h);
    4000 * p / (40_500_000_000 - p)
}

/// Full-circle sine, scaled by 1000: the angle is reduced modulo one turn and
/// the second half-turn is the negated first.
pub open spec fn spec_sin_milli(x: int) -> int {
    let m = x % 360_000;
    if m < 180_000 {
        spec_sin_half_milli(m)
    } else {
        -spec_sin_half_milli(m - 180_000)
    }
}

/// Full-circle cosine, scaled by 1000, as the sine a quarter turn ahead.
pub open spec fn spec_cos_milli(x: int) -> int {
    spec_sin_milli(x % 360_000 + 90_000)
}

fn sin_half_milli(h: u32) -> (r: u32)
    requires
        h <= 180_000,
    ensures
        r == spec_sin_half_milli(h as int),
        r <= 1000,
{
    let h64: u64 = h as u64;
    let d64: u64 = (180_000 - h) as u64;
    assert(h64 * d64 <= 8_100_000_000) by (nonlinear_arith)
        requires
            h64 <= 180_000,
            d64 == 180_000 - h64,
    ;
    let p: u64 = h64 * d64;
    let num: u64 = 4000 * p;
    let den: u64 = 40_500_000_000 - p;
    let q: u64 = num / den;
    assert(q <= 1000) by (nonlinear_arith)
        requires
            q == num / den,
            num <= 4000 * 8_100_000_000,
            num == 4000 * p,
            den == 40_500_000_000 - p,
            p <= 8_100_000_000,
    ;
    q as u32
}

pub fn sin_milli(x: u32) -> (r: i64)
    ensures
        r == spec_sin_milli(x as int),
        -1000 <= r <= 1000,
{
    let m: u32 = x % 360_000;
    if m < 180_000 {
        sin_half_milli(m) as i64
    } else {
        -(sin_half_milli(m - 180_000) as i64)
    }
}

pub fn cos_milli(x: u32) -> (r: i64)
    ensures
        r == spec_cos_milli(x as int),
        -1000 <= r <= 1000,
{
    let m: u32 = x % 360_000;
    sin_milli(m + 90_000)
}

} // verus!
