//! The unit of length, the range of coordinates, and scalar arithmetic.

use vstd::prelude::*;

verus! {

/// How many units make one pixel.
pub const UNITS_PER_PIXEL: i64 = 100;

/// Largest magnitude of a coordinate, a size or a setting for which a frame
/// can be computed without overflow.
pub const LIMIT: i64 = 1_000_000_000;

/// `v` lies within `LIMIT` of zero.
pub open spec fn in_range(v: int) -> bool {
    -LIMIT <= v <= LIMIT
}

/// `v` can be held in an `i64`.
pub open spec fn fits(v: int) -> bool {
    i64::MIN <= v <= i64::MAX
}

/// The quotient of `a` by a positive `b`, rounded toward zero.
pub open spec fn toward_zero(a: int, b: int) -> int
    recommends
        b > 0,
{
    if a >= 0 {
        a / b
    } else {
        -((-a) / b)
    }
}

/// The quotient of `a` by a positive `b`, rounded away from zero: the least
/// whole number of `b`s that covers `a`, with the sign of `a`. It is zero
/// only for `a` zero.
pub open spec fn away_from_zero(a: int, b: int) -> int
    recommends
        b > 0,
{
    if a >= 0 {
        (a + b - 1) / b
    } else {
        -((-a + b - 1) / b)
    }
}

/// Half of `v`, rounded toward zero.
pub open spec fn half(v: int) -> int {
    toward_zero(v, 2)
}

/// The direction of `v`: `-1` below zero, `1` otherwise. Zero counts as
/// positive, so that a ball at rest is pushed off as if it moved right.
pub open spec fn direction(v: int) -> int {
    if v < 0 {
        -1
    } else {
        1
    }
}

/// The size of `v` without its sign.
pub open spec fn magnitude(v: int) -> int {
    if v < 0 {
        -v
    } else {
        v
    }
}

/// `y` held between `0` and `max`: below zero it becomes `0`, else above
/// `max` it becomes `max`. With a negative `max` the result is `0` or `max`.
pub open spec fn clamped(y: int, max: int) -> int {
    if y < 0 {
        0
    } else if y > max {
        max
    } else {
        y
    }
}

/// Tests `in_range`.
pub fn is_in_range(v: i64) -> (ok: bool)
    ensures
        ok == in_range(v as int),
{
    -LIMIT <= v && v <= LIMIT
}

/// A whole number of pixels, in units.
pub fn from_pixels(pixels: i32) -> (units: i64)
    ensures
        units == pixels * UNITS_PER_PIXEL,
{
    let wide: i64 = pixels as i64;
    wide * UNITS_PER_PIXEL
}

/// Computes `toward_zero`.
pub fn divide(a: i64, b: i64) -> (q: i64)
    requires
        b > 0,
    ensures
        q == toward_zero(a as int, b as int),
{
    a / b
}

/// Computes `away_from_zero`.
pub fn divide_away_from_zero(a: i64, b: i64) -> (q: i64)
    requires
        b > 0,
        fits(a + b),
        fits(a - b),
    ensures
        q == away_from_zero(a as int, b as int),
{
    if a >= 0 {
        (a + (b - 1)) / b
    } else {
        (a - (b - 1)) / b
    }
}

/// Computes `half`.
pub fn halve(v: i64) -> (h: i64)
    ensures
        h == half(v as int),
{
    v / 2
}

/// Computes `direction`.
pub fn direction_of(v: i64) -> (d: i64)
    ensures
        d == direction(v as int),
{
    if v < 0 {
        -1
    } else {
        1
    }
}

/// Computes `clamped`.
pub fn clamp(y: i64, max: i64) -> (r: i64)
    ensures
        r == clamped(y as int, max as int),
{
    if y < 0 {
        0
    } else if y > max {
        max
    } else {
        y
    }
}

/// Rounding toward zero is odd in the dividend, keeps its sign, never
/// grows it, and gives zero exactly below the divisor.
pub proof fn lemma_toward_zero(a: int, b: int)
    requires
        b > 0,
    ensures
        toward_zero(-a, b) == -toward_zero(a, b),
        a >= 0 ==> 0 <= toward_zero(a, b) <= a,
        a <= 0 ==> a <= toward_zero(a, b) <= 0,
        a >= b ==> toward_zero(a, b) >= 1,
        0 <= a < b ==> toward_zero(a, b) == 0,
{
    let size = if a >= 0 { a } else { -a };
    vstd::arithmetic::div_mod::lemma_fundamental_div_mod(size, b);
    assert(0 <= size / b <= size && (size >= b ==> size / b >= 1) && (size < b ==> size / b == 0))
        by (nonlinear_arith)
        requires
            b > 0,
            size >= 0,
            size == b * (size / b) + size % b,
            0 <= size % b < b,
    ;
}

/// Rounding away from zero is odd in the dividend, keeps its sign, never
/// grows it, is zero for zero alone, and lies less than one `b` beyond the
/// exact quotient.
pub proof fn lemma_away_from_zero(a: int, b: int)
    requires
        b > 0,
    ensures
        away_from_zero(-a, b) == -away_from_zero(a, b),
        a > 0 ==> 1 <= away_from_zero(a, b) <= a,
        a < 0 ==> a <= away_from_zero(a, b) <= -1,
        a == 0 ==> away_from_zero(a, b) == 0,
        a >= 0 ==> a <= away_from_zero(a, b) * b < a + b,
        a <= 0 ==> a - b < away_from_zero(a, b) * b <= a,
{
    let size = if a >= 0 { a } else { -a };
    let q = (size + b - 1) / b;
    vstd::arithmetic::div_mod::lemma_fundamental_div_mod(size + b - 1, b);
    assert(size <= q * b < size + b && (size > 0 ==> 1 <= q <= size) && (size == 0 ==> q == 0))
        by (nonlinear_arith)
        requires
            b > 0,
            size >= 0,
            size + b - 1 == b * q + (size + b - 1) % b,
            0 <= (size + b - 1) % b < b,
    ;
    assert((-q) * b == -(q * b)) by (nonlinear_arith);
}

} // verus!
