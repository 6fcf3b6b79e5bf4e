//! Fixed-point arithmetic on analog quantities.
//!
//! A stick deflection of `1.0` is written `ANALOG_SCALE` (one million); the
//! dead zone `0.15` is `150_000`.  Cursor displacements are in millionths of
//! a screen pixel.
use vstd::prelude::*;

verus! {

/// One full unit (a fully deflected stick, one pixel) in millionths.
pub const ANALOG_SCALE: i64 = 1_000_000;

/// The absolute value of an integer.
pub open spec fn abs(x: int) -> int {
    if x < 0 {
        -x
    } else {
        x
    }
}

/// Whether a two-axis deflection leaves the dead zone: either axis has a
/// magnitude strictly above `deadzone`.
pub open spec fn outside_deadzone(x: int, y: int, deadzone: int) -> bool {
    abs(x) > deadzone || abs(y) > deadzone
}

/// `v / ANALOG_SCALE` rounded to the nearest integer, halfway cases away
/// from zero (the rounding of `f32::round`).
pub open spec fn round_half_away(v: int) -> int {
    if v >= 0 {
        (v + 500_000) / 1_000_000
    } else {
        -((-v + 500_000) / 1_000_000)
    }
}

/// `n` clamped into the range of `i32` (the saturating `as i32` cast).
pub open spec fn saturate_i32(n: int) -> int {
    if n > i32::MAX {
        i32::MAX as int
    } else if n < i32::MIN {
        i32::MIN as int
    } else {
        n
    }
}

/// Halves `n`, rounding toward zero.
pub open spec fn half_toward_zero(n: int) -> int {
    if n >= 0 {
        n / 2
    } else {
        -((-n) / 2)
    }
}

/// The magnitude of a deflection, without overflow.
pub fn magnitude(x: i32) -> (m: i64)
    ensures
        m == abs(x as int),
{
    let w: i64 = x as i64;
    if w < 0 {
        -w
    } else {
        w
    }
}

/// Whether the deflection `(x, y)` leaves the dead zone.
pub fn is_outside_deadzone(x: i32, y: i32, deadzone: i32) -> (b: bool)
    ensures
        b == outside_deadzone(x as int, y as int, deadzone as int),
{
    magnitude(x) > deadzone as i64 || magnitude(y) > deadzone as i64
}

/// Converts a displacement in millionths of a pixel to whole pixels:
/// rounded half away from zero, then saturated into `i32`.
pub fn round_to_whole(v: i64) -> (r: i32)
    ensures
        r == saturate_i32(round_half_away(v as int)),
{
    let wide: i128 = v as i128;
    let q: i128 = if wide >= 0 {
        ((wide as u128 + 500_000u128) / 1_000_000u128) as i128
    } else {
        -((((-wide) as u128 + 500_000u128) / 1_000_000u128) as i128)
    };
    if q > i32::MAX as i128 {
        i32::MAX
    } else if q < i32::MIN as i128 {
        i32::MIN
    } else {
        q as i32
    }
}

/// Rounding to the nearest whole pixel is off by at most half a pixel.
pub proof fn lemma_round_half_away_error(v: int)
    ensures
        abs(v - 1_000_000 * round_half_away(v)) <= 500_000,
{
    if v >= 0 {
        let q = (v + 500_000) / 1_000_000;
        assert(1_000_000 * q <= v + 500_000 < 1_000_000 * q + 1_000_000) by (nonlinear_arith)
            requires
                v >= 0,
                q == (v + 500_000) / 1_000_000,
        ;
    } else {
        let q = (-v + 500_000) / 1_000_000;
        assert(1_000_000 * q <= -v + 500_000 < 1_000_000 * q + 1_000_000) by (nonlinear_arith)
            requires
                v < 0,
                q == (-v + 500_000) / 1_000_000,
        ;
    }
}

/// Halves `n` (which must fit in `i64`), rounding toward zero.
pub fn halve_toward_zero(n: i64) -> (h: i64)
    requires
        n > i64::MIN,
    ensures
        h == half_toward_zero(n as int),
{
    if n >= 0 {
        (n as u64 / 2) as i64
    } else {
        -(((-n) as u64 / 2) as i64)
    }
}

} // verus!
