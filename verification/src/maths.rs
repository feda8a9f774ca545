//! Fixed-point arithmetic helpers: integer square root, clamping, signs and
//! angle wrapping.
use vstd::prelude::*;

use crate::constants::{PI_URAD, TWO_PI_URAD, UNIT_SCALE};

verus! {

/// Returns the integer square root of `n`: the largest `r` with `r * r <= n`.
pub fn isqrt_u128(n: u128) -> (r: u64)
    requires
        n < 0x100000000000000000000,
    ensures
        (r as int) * (r as int) <= n as int,
        (n as int) < (r as int + 1) * (r as int + 1),
{
    let mut lo: u128 = 0;
    let mut hi: u128 = 0x10000000000;
    proof {
        assert(0x10000000000int * 0x10000000000int == 0x100000000000000000000int) by (nonlinear_arith);
    }
    while lo + 1 < hi
        invariant
            (lo as int) * (lo as int) <= n as int,
            (n as int) < (hi as int) * (hi as int),
            lo < hi <= 0x10000000000u128,
        decreases hi - lo,
    {
        let mid: u128 = lo + (hi - lo) / 2;
        proof {
            assert((mid as int) * (mid as int) <= 0x10000000000int * 0x10000000000int)
                by (nonlinear_arith)
                requires
                    mid <= 0x10000000000u128,
            ;
            assert(0x10000000000int * 0x10000000000int == 0x100000000000000000000int) by (nonlinear_arith);
        }
        if mid * mid <= n {
            lo = mid;
        } else {
            hi = mid;
        }
    }
    lo as u64
}

/// Clamps `v` into `[lo, hi]`.
pub fn clamp_i64(v: i64, lo: i64, hi: i64) -> (r: i64)
    requires
        lo <= hi,
    ensures
        r == clamp_spec(v as int, lo as int, hi as int),
{
    if v < lo {
        lo
    } else if v > hi {
        hi
    } else {
        v
    }
}

/// The value of `v` clamped into `[lo, hi]`.
pub open spec fn clamp_spec(v: int, lo: int, hi: int) -> int {
    if v < lo {
        lo
    } else if v > hi {
        hi
    } else {
        v
    }
}

/// The absolute value of `v`.
pub open spec fn abs_spec(v: int) -> int {
    if v < 0 {
        -v
    } else {
        v
    }
}

/// Returns the absolute value of `v`.
pub fn abs_i64(v: i64) -> (r: i64)
    requires
        v != i64::MIN,
    ensures
        r == abs_spec(v as int),
{
    if v < 0 {
        -v
    } else {
        v
    }
}

/// The sign of `v`, counting zero as positive.
pub open spec fn sign_pos_spec(v: int) -> int {
    if v >= 0 {
        1
    } else {
        -1
    }
}

/// Returns the sign of `v`, counting zero as positive.
pub fn sign_pos_i64(v: i64) -> (r: i64)
    ensures
        r == sign_pos_spec(v as int),
{
    if v >= 0 {
        1
    } else {
        -1
    }
}

/// `a` brought into the half-open interval `(-pi, pi]` by one full turn at
/// most, in microradians.
pub open spec fn wrap_angle_spec(a: int) -> int {
    if a > PI_URAD {
        a - TWO_PI_URAD
    } else if a <= -(PI_URAD as int) {
        a + TWO_PI_URAD
    } else {
        a
    }
}

/// Brings an angle in microradians into the interval `(-pi, pi]`. The
/// argument must be less than one full turn away from that interval.
pub fn wrap_angle(a: i64) -> (r: i64)
    requires
        -TWO_PI_URAD < a < TWO_PI_URAD,
    ensures
        r == wrap_angle_spec(a as int),
        -PI_URAD < r <= PI_URAD,
{
    if a > PI_URAD {
        a - TWO_PI_URAD
    } else if a <= -PI_URAD {
        a + TWO_PI_URAD
    } else {
        a
    }
}

/// Truncated division (rounding toward zero), for a positive divisor.
pub open spec fn div_trunc(a: int, b: int) -> int {
    if a >= 0 {
        a / b
    } else {
        -((-a) / b)
    }
}

/// Converts an interface value to solver units.
pub fn scale_up_i64(v: i64) -> (r: i64)
    requires
        -2_000_000_000 <= v <= 2_000_000_000,
    ensures
        r == v * UNIT_SCALE,
{
    v * UNIT_SCALE
}

/// Converts a solver-unit value back to interface units, rounding toward
/// zero.
pub fn scale_down_i64(v: i64) -> (r: i64)
    requires
        v != i64::MIN,
    ensures
        r == div_trunc(v as int, UNIT_SCALE as int),
        abs_spec(r as int) <= abs_spec(v as int),
        abs_spec((r as int) * (UNIT_SCALE as int)) <= abs_spec(v as int),
{
    proof {
        if v >= 0 {
            assert(((v as int) / (UNIT_SCALE as int)) * (UNIT_SCALE as int) <= v as int
                && (v as int) / (UNIT_SCALE as int) >= 0) by (nonlinear_arith)
                requires
                    v >= 0,
                    UNIT_SCALE == 10,
            ;
        } else {
            assert(((-(v as int)) / (UNIT_SCALE as int)) * (UNIT_SCALE as int) <= -(v as int) && (
            -(v as int)) / (UNIT_SCALE as int) >= 0) by (nonlinear_arith)
                requires
                    v < 0,
                    UNIT_SCALE == 10,
            ;
        }
    }
    if v >= 0 {
        v / UNIT_SCALE
    } else {
        -((-v) / UNIT_SCALE)
    }
}

/// The squared distance between two points.
pub open spec fn dist_sq_spec(ax: int, ay: int, bx: int, by: int) -> int {
    (ax - bx) * (ax - bx) + (ay - by) * (ay - by)
}

/// Returns the squared distance between two points whose coordinates are
/// bounded enough for the squares to fit.
pub fn dist_sq_i64(ax: i64, ay: i64, bx: i64, by: i64) -> (r: i64)
    requires
        -1_000_000_000 <= ax <= 1_000_000_000,
        -1_000_000_000 <= ay <= 1_000_000_000,
        -1_000_000_000 <= bx <= 1_000_000_000,
        -1_000_000_000 <= by <= 1_000_000_000,
    ensures
        r == dist_sq_spec(ax as int, ay as int, bx as int, by as int),
        r >= 0,
{
    let dx: i64 = ax - bx;
    let dy: i64 = ay - by;
    proof {
        assert((dx as int) * (dx as int) <= 4_000_000_000_000_000_000)
            by (nonlinear_arith)
            requires
                -2_000_000_000 <= dx <= 2_000_000_000,
        ;
        assert((dy as int) * (dy as int) <= 4_000_000_000_000_000_000)
            by (nonlinear_arith)
            requires
                -2_000_000_000 <= dy <= 2_000_000_000,
        ;
        assert((dx as int) * (dx as int) >= 0) by (nonlinear_arith);
        assert((dy as int) * (dy as int) >= 0) by (nonlinear_arith);
    }
    dx * dx + dy * dy
}

/// Unit round trip: a position taken into solver units and read back is
/// returned unchanged — the interface scale loses nothing on whole
/// interface units.
pub proof fn lemma_unit_round_trip(v: int)
    ensures
        div_trunc(v * UNIT_SCALE, UNIT_SCALE as int) == v,
{
    if v >= 0 {
        assert(v * UNIT_SCALE >= 0 && (v * UNIT_SCALE) / (UNIT_SCALE as int) == v)
            by (nonlinear_arith)
            requires
                v >= 0,
                UNIT_SCALE == 10,
        ;
    } else {
        assert(v * UNIT_SCALE < 0 && (-(v * UNIT_SCALE)) / (UNIT_SCALE as int) == -v)
            by (nonlinear_arith)
            requires
                v < 0,
                UNIT_SCALE == 10,
        ;
    }
}

} // verus!
