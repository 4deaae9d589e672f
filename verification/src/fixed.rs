//! Fixed-point scalars.
//!
//! Every scalar quantity of the simulation (seconds, world units, speeds,
//! stamina points, radians, dimensionless factors) is an `i64` holding the
//! real value multiplied by [`SCALE`]. `SCALE` is divisible by 60 so that the
//! common 1/60-second simulation tick is exact, and by 1000 so that the usual
//! decimal tuning constants (0.9, 0.4, 1.5, ...) are exact as well.

use vstd::prelude::*;

verus! {

use vstd::arithmetic::div_mod::lemma_div_is_ordered;
use vstd::arithmetic::mul::lemma_mul_upper_bound;

/// Number of fixed-point units in 1.0.
pub const SCALE: i64 = 60_000;

/// Largest magnitude a fixed-point scalar handled by this library may have
/// (50 000.0 in real units). `FP_MAX * FP_MAX` still fits in an `i64`/`u64`
/// product, which keeps every product of two in-range scalars computable.
pub const FP_MAX: i64 = 3_000_000_000;

/// Magnitude of `x`.
pub open spec fn abs_spec(x: int) -> int {
    if x < 0 {
        -x
    } else {
        x
    }
}

/// `a / b` rounded toward zero, for a positive `b`: the quotient of the
/// magnitudes, with the sign of `a`.
pub open spec fn div_trunc(a: int, b: int) -> int {
    if a >= 0 {
        a / b
    } else {
        -((-a) / b)
    }
}

/// The fixed-point product of `a` and `b`: `a * b / SCALE`, rounded toward
/// zero.
pub open spec fn fp_mul_spec(a: int, b: int) -> int {
    div_trunc(a * b, SCALE as int)
}

/// The fixed-point quotient of `a` by a positive `b`: `a * SCALE / b`,
/// rounded toward zero.
pub open spec fn fp_div_spec(a: int, b: int) -> int {
    div_trunc(a * (SCALE as int), b)
}

/// `x` forced into the interval `[lo, hi]`.
pub open spec fn clamp_spec(x: int, lo: int, hi: int) -> int {
    if x < lo {
        lo
    } else if x > hi {
        hi
    } else {
        x
    }
}

/// Whether `x` is a scalar the library's arithmetic can handle.
pub open spec fn in_fp_range(x: int) -> bool {
    -FP_MAX <= x <= FP_MAX
}

/// Rounding toward zero never enlarges the magnitude of an exact quotient:
/// `|fp_mul_spec(a, b)| <= |a| * |b| / SCALE`.
pub proof fn lemma_fp_mul_abs(a: int, b: int)
    ensures
        abs_spec(fp_mul_spec(a, b)) == abs_spec(a) * abs_spec(b) / (SCALE as int),
{
    assert(abs_spec(a * b) == abs_spec(a) * abs_spec(b)) by (nonlinear_arith);
    if a * b >= 0 {
        assert(abs_spec(fp_mul_spec(a, b)) == abs_spec(a * b) / (SCALE as int)) by {
            vstd::arithmetic::div_mod::lemma_div_pos_is_pos(a * b, SCALE as int);
        }
    } else {
        assert((-(a * b)) / (SCALE as int) >= 0) by {
            vstd::arithmetic::div_mod::lemma_div_pos_is_pos(-(a * b), SCALE as int);
        }
    }
}

/// Multiplying by a factor of magnitude at most `SCALE` (1.0) never enlarges
/// a scalar.
pub proof fn lemma_fp_mul_le_left(a: int, b: int)
    requires
        abs_spec(b) <= SCALE,
    ensures
        abs_spec(fp_mul_spec(a, b)) <= abs_spec(a),
{
    lemma_fp_mul_abs(a, b);
    lemma_mul_upper_bound(abs_spec(a), abs_spec(a), abs_spec(b), SCALE as int);
    lemma_div_is_ordered(abs_spec(a) * abs_spec(b), abs_spec(a) * (SCALE as int), SCALE as int);
    assert(abs_spec(a) * (SCALE as int) / (SCALE as int) == abs_spec(a)) by {
        vstd::arithmetic::div_mod::lemma_div_by_multiple(abs_spec(a), SCALE as int);
    }
}

/// Scaling `d` by a factor `t` between 0 (nothing) and `SCALE` (all of it)
/// yields a value between 0 and `d`.
pub proof fn lemma_fp_mul_between(d: int, t: int)
    requires
        0 <= t <= SCALE,
    ensures
        d >= 0 ==> 0 <= fp_mul_spec(d, t) <= d,
        d < 0 ==> d <= fp_mul_spec(d, t) <= 0,
{
    lemma_fp_mul_le_left(d, t);
    assert(d >= 0 ==> d * t >= 0) by (nonlinear_arith)
        requires
            t >= 0,
    ;
    assert(d < 0 ==> d * t <= 0) by (nonlinear_arith)
        requires
            t >= 0,
    ;
    if d * t >= 0 {
        vstd::arithmetic::div_mod::lemma_div_pos_is_pos(d * t, SCALE as int);
    } else {
        vstd::arithmetic::div_mod::lemma_div_pos_is_pos(-(d * t), SCALE as int);
    }
}

/// A product of scalars bounded by `ma` and `mb` is bounded by
/// `ma * mb / SCALE`.
pub proof fn lemma_fp_mul_bound(a: int, b: int, ma: int, mb: int)
    requires
        abs_spec(a) <= ma,
        abs_spec(b) <= mb,
    ensures
        abs_spec(fp_mul_spec(a, b)) <= ma * mb / (SCALE as int),
{
    lemma_fp_mul_abs(a, b);
    lemma_mul_upper_bound(abs_spec(a), ma, abs_spec(b), mb);
    lemma_div_is_ordered(abs_spec(a) * abs_spec(b), ma * mb, SCALE as int);
}

/// Fixed-point multiplication, exact per [`fp_mul_spec`].
pub fn fp_mul(a: i64, b: i64) -> (r: i64)
    requires
        in_fp_range(a as int),
        in_fp_range(b as int),
    ensures
        r == fp_mul_spec(a as int, b as int),
        abs_spec(r as int) <= abs_spec(a as int) * abs_spec(b as int) / (SCALE as int),
{
    proof {
        lemma_fp_mul_abs(a as int, b as int);
    }
    let neg = (a < 0) != (b < 0);
    let ua: u64 = (if a < 0 {
        -a
    } else {
        a
    }) as u64;
    let ub: u64 = (if b < 0 {
        -b
    } else {
        b
    }) as u64;
    proof {
        lemma_mul_upper_bound(ua as int, FP_MAX as int, ub as int, FP_MAX as int);
    }
    let p: u64 = ua * ub;
    let q: u64 = p / (SCALE as u64);
    proof {
        lemma_div_is_ordered(p as int, (FP_MAX as int) * (FP_MAX as int), SCALE as int);
        assert(abs_spec(a as int) * abs_spec(b as int) == p as int) by (nonlinear_arith)
            requires
                ua == abs_spec(a as int),
                ub == abs_spec(b as int),
                p == ua * ub,
        ;
        assert(abs_spec((a as int) * (b as int)) == abs_spec(a as int) * abs_spec(b as int))
            by (nonlinear_arith);
        assert(((a < 0) == (b < 0)) ==> (a as int) * (b as int) >= 0) by (nonlinear_arith);
        assert(((a < 0) != (b < 0)) ==> (a as int) * (b as int) <= 0) by (nonlinear_arith);
    }
    let qi: i64 = q as i64;
    if neg {
        -qi
    } else {
        qi
    }
}

/// Fixed-point division by a positive scalar, exact per [`fp_div_spec`].
pub fn fp_div(a: i64, b: i64) -> (r: i64)
    requires
        in_fp_range(a as int),
        0 < b,
        abs_spec(fp_div_spec(a as int, b as int)) <= FP_MAX,
    ensures
        r == fp_div_spec(a as int, b as int),
{
    let neg = a < 0;
    let ua: u64 = (if a < 0 {
        -a
    } else {
        a
    }) as u64;
    proof {
        lemma_mul_upper_bound(ua as int, FP_MAX as int, SCALE as int, SCALE as int);
        assert((ua as int) * (SCALE as int) == abs_spec((a as int) * (SCALE as int)))
            by (nonlinear_arith)
            requires
                ua == abs_spec(a as int),
        ;
        if a as int >= 0 {
            vstd::arithmetic::div_mod::lemma_div_pos_is_pos((a as int) * (SCALE as int), b as int);
        } else {
            vstd::arithmetic::div_mod::lemma_div_pos_is_pos(
                -((a as int) * (SCALE as int)),
                b as int,
            );
        }
    }
    let n: u64 = ua * (SCALE as u64);
    let q: u64 = n / (b as u64);
    let qi: i64 = q as i64;
    if neg {
        -qi
    } else {
        qi
    }
}

/// One step of linear interpolation from `c` toward `t`: `c` plus the
/// fraction `rate` (0 to `SCALE`) of the remaining gap. The result stays
/// between `c` and `t`.
pub fn fp_lerp(c: i64, t: i64, rate: i64) -> (r: i64)
    requires
        in_fp_range(c as int),
        in_fp_range(t as int),
        in_fp_range(t - c),
        0 <= rate <= SCALE,
    ensures
        r == c + fp_mul_spec(t - c, rate as int),
        c <= t ==> c <= r <= t,
        t <= c ==> t <= r <= c,
{
    let d = t - c;
    let step = fp_mul(d, rate);
    proof {
        lemma_fp_mul_between(d as int, rate as int);
    }
    c + step
}

/// `x` forced into `[lo, hi]`, exact per [`clamp_spec`].
pub fn fp_clamp(x: i64, lo: i64, hi: i64) -> (r: i64)
    requires
        lo <= hi,
    ensures
        r == clamp_spec(x as int, lo as int, hi as int),
        lo <= r <= hi,
{
    if x < lo {
        lo
    } else if x > hi {
        hi
    } else {
        x
    }
}

/// Integer square root: the largest `r` with `r * r <= n`.
pub fn isqrt(n: u64) -> (r: u64)
    ensures
        (r as int) * (r as int) <= n as int,
        (n as int) < ((r as int) + 1) * ((r as int) + 1),
{
    let mut lo: u64 = 0;
    let mut hi: u64 = 0xFFFF_FFFF;
    proof {
        assert(((hi as int) + 1) * ((hi as int) + 1) > n as int) by (nonlinear_arith)
            requires
                hi == 0xFFFF_FFFFu64,
                n <= u64::MAX,
        ;
    }
    while lo < hi
        invariant
            lo <= hi <= 0xFFFF_FFFF,
            (lo as int) * (lo as int) <= n as int,
            (n as int) < ((hi as int) + 1) * ((hi as int) + 1),
        decreases hi - lo,
    {
        let mid: u64 = lo + (hi - lo + 1) / 2;
        proof {
            lemma_mul_upper_bound(mid as int, 0xFFFF_FFFF as int, mid as int, 0xFFFF_FFFF as int);
        }
        if mid * mid <= n {
            lo = mid;
        } else {
            hi = mid - 1;
        }
    }
    lo
}

} // verus!
