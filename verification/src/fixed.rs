//! Fixed-point scalars: the numeric ground the controller stands on.
//!
//! A scalar counts millionths, so the real value 1.0 is the integer
//! `SCALE`. Multiplication of two scalars therefore divides by `SCALE`
//! once, and division rounds toward zero, as machine division does.

use vstd::prelude::*;

verus! {

use vstd::arithmetic::div_mod::{lemma_div_is_ordered, lemma_div_multiples_vanish};
use vstd::arithmetic::mul::lemma_mul_inequality;

/// Fixed-point scale: 1.0 is represented by `SCALE` subunits.
pub const SCALE: i64 = 1_000_000;

/// Largest magnitude a coordinate, speed or per-frame delta may have
/// (1000.0 in world units). Products of two such scalars stay well
/// inside `i64`.
pub const FIX_MAX: i64 = 1_000_000_000;

/// A scalar the controller admits in its arithmetic.
pub open spec fn in_range(a: int) -> bool {
    -FIX_MAX <= a && a <= FIX_MAX
}

/// Magnitude of an integer.
pub open spec fn mag(a: int) -> int {
    if a < 0 {
        -a
    } else {
        a
    }
}

/// Division rounded toward zero, the rounding of machine division.
/// (Ghost `/` rounds toward negative infinity; the two agree on
/// non-negative dividends.)
pub open spec fn tdiv(n: int, d: int) -> int
    recommends
        d > 0,
{
    if n >= 0 {
        n / d
    } else {
        -((-n) / d)
    }
}

/// Addition that sticks to the ends of `i64` instead of wrapping.
pub open spec fn sat_add(a: int, b: int) -> int {
    if a + b > i64::MAX {
        i64::MAX as int
    } else if a + b < i64::MIN {
        i64::MIN as int
    } else {
        a + b
    }
}

/// The value of `v` pulled into the interval `[lo, hi]`.
pub open spec fn clamped(v: int, lo: int, hi: int) -> int
    recommends
        lo <= hi,
{
    if v < lo {
        lo
    } else if v > hi {
        hi
    } else {
        v
    }
}

/// Saturating addition on `i64`.
pub fn add_sat(a: i64, b: i64) -> (r: i64)
    ensures
        r == sat_add(a as int, b as int),
{
    if b >= 0 {
        if a > i64::MAX - b {
            i64::MAX
        } else {
            a + b
        }
    } else {
        if a < i64::MIN - b {
            i64::MIN
        } else {
            a + b
        }
    }
}

/// Clamp `v` into `[lo, hi]`.
pub fn clamp(v: i64, lo: i64, hi: i64) -> (r: i64)
    requires
        lo <= hi,
    ensures
        r == clamped(v as int, lo as int, hi as int),
{
    if v < lo {
        lo
    } else if v > hi {
        hi
    } else {
        v
    }
}

/// Halve a scalar, rounding toward zero: the per-frame damping step.
pub fn half(a: i64) -> (r: i64)
    requires
        i64::MIN < a,
    ensures
        r == tdiv(a as int, 2),
{
    if a >= 0 {
        a / 2
    } else {
        -((-a) / 2)
    }
}

/// `a * b / d` with truncation toward zero, exact in `i64`.
pub fn scale_mul(a: i64, b: i64, d: i64) -> (r: i64)
    requires
        d > 0,
        i64::MIN < a,
        i64::MIN < b,
        mag(a as int) * mag(b as int) <= i64::MAX,
    ensures
        r == tdiv(a as int * b as int, d as int),
{
    let ax: i64 = if a >= 0 {
        a
    } else {
        -a
    };
    let bx: i64 = if b >= 0 {
        b
    } else {
        -b
    };
    proof {
        assert(ax == mag(a as int) && bx == mag(b as int));
        if a >= 0 && b >= 0 {
            assert(a as int * b as int == ax as int * bx as int);
        } else if a >= 0 && b < 0 {
            assert(a as int * b as int == -(ax as int * bx as int)) by (nonlinear_arith)
                requires
                    ax == a as int,
                    bx == -(b as int),
            ;
        } else if a < 0 && b >= 0 {
            assert(a as int * b as int == -(ax as int * bx as int)) by (nonlinear_arith)
                requires
                    ax == -(a as int),
                    bx == b as int,
            ;
        } else {
            assert(a as int * b as int == ax as int * bx as int) by (nonlinear_arith)
                requires
                    ax == -(a as int),
                    bx == -(b as int),
            ;
        }
    }
    let q: i64 = (ax * bx) / d;
    if (a < 0) != (b < 0) {
        -q
    } else {
        q
    }
}

proof fn lemma_scale_mag_nonneg(x: int, t: int, n: int)
    requires
        n >= 1,
        t >= 0,
        0 <= x && x <= n,
    ensures
        0 <= (x * t) / n && (x * t) / n <= t,
{
    lemma_mul_inequality(x, n, t);
    lemma_div_is_ordered(x * t, n * t, n);
    lemma_div_multiples_vanish(t, n);
    assert(x * t >= 0) by (nonlinear_arith)
        requires
            x >= 0,
            t >= 0,
    ;
    lemma_div_is_ordered(0, x * t, n);
}

/// Scaling a magnitude-bounded scalar never escapes the factor's own
/// magnitude: `|x| <= n` gives `|x * t / n| <= |t|`, and the result takes
/// the sign of `x * t`.
pub proof fn lemma_scale_mag(x: int, t: int, n: int)
    requires
        n >= 1,
        -n <= x && x <= n,
    ensures
        -mag(t) <= tdiv(x * t, n) && tdiv(x * t, n) <= mag(t),
        x >= 0 && t >= 0 ==> 0 <= tdiv(x * t, n),
        x >= 0 && t <= 0 ==> tdiv(x * t, n) <= 0,
        x <= 0 && t >= 0 ==> tdiv(x * t, n) <= 0,
{
    let xa = mag(x);
    let ta = mag(t);
    lemma_scale_mag_nonneg(xa, ta, n);
    if x == 0 || t == 0 {
        assert(x * t == 0) by (nonlinear_arith)
            requires
                x == 0 || t == 0,
        ;
        assert(tdiv(0, n) == 0int / n);
        assert(0int / n == 0) by {
            lemma_div_multiples_vanish(0, n);
        }
    }
    if x >= 0 && t >= 0 {
        assert(x * t == xa * ta);
    } else if x >= 0 && t < 0 {
        assert(x * t == -(xa * ta)) by (nonlinear_arith)
            requires
                xa == x,
                ta == -t,
        ;
    } else if x < 0 && t >= 0 {
        assert(x * t == -(xa * ta)) by (nonlinear_arith)
            requires
                xa == -x,
                ta == t,
        ;
    } else {
        assert(x * t == xa * ta) by (nonlinear_arith)
            requires
                xa == -x,
                ta == -t,
        ;
    }
}

/// Truncated division keeps order on non-negative dividends.
pub proof fn lemma_tdiv_mono(a: int, b: int, d: int)
    requires
        0 <= a,
        a <= b,
        d >= 1,
    ensures
        tdiv(a, d) <= tdiv(b, d),
{
    lemma_div_is_ordered(a, b, d);
}

/// The integer square root: the largest `r` with `r * r <= n`.
pub open spec fn sqrt(n: nat) -> nat
    decreases n,
{
    if n == 0 {
        0
    } else {
        let r = sqrt((n - 1) as nat);
        if (r + 1) * (r + 1) <= n {
            r + 1
        } else {
            r
        }
    }
}

pub proof fn lemma_sqrt_bounds(n: nat)
    ensures
        sqrt(n) * sqrt(n) <= n,
        n < (sqrt(n) + 1) * (sqrt(n) + 1),
    decreases n,
{
    let s = sqrt(n);
    if n == 0 {
        assert(s == 0);
        assert(s * s <= n && n < (s + 1) * (s + 1)) by (nonlinear_arith)
            requires
                s == 0,
                n == 0,
        ;
    } else {
        lemma_sqrt_bounds((n - 1) as nat);
        let r = sqrt((n - 1) as nat);
        if (r + 1) * (r + 1) <= n {
            assert(s == r + 1);
            assert(n - 1 < (r + 1) * (r + 1));
            assert(n == (r + 1) * (r + 1));
            assert(n < (s + 1) * (s + 1)) by (nonlinear_arith)
                requires
                    s == r + 1,
                    n == (r + 1) * (r + 1),
                    r >= 0,
            ;
            assert(s * s <= n);
        } else {
            assert(s == r);
            assert(s * s <= n - 1);
            assert(n < (s + 1) * (s + 1));
        }
    }
}

/// Any two numbers sandwiching `n` the same way are the same root.
pub proof fn lemma_sqrt_unique(n: nat, r: nat)
    requires
        r * r <= n,
        n < (r + 1) * (r + 1),
    ensures
        r == sqrt(n),
{
    lemma_sqrt_bounds(n);
    let s = sqrt(n);
    if r < s {
        assert(false) by (nonlinear_arith)
            requires
                r < s,
                s * s <= n,
                n < (r + 1) * (r + 1),
                r >= 0,
                s >= 0,
        ;
    } else if s < r {
        assert(false) by (nonlinear_arith)
            requires
                s < r,
                r * r <= n,
                n < (s + 1) * (s + 1),
                r >= 0,
                s >= 0,
        ;
    }
}

/// A square below the sandwich is a number below the root.
pub proof fn lemma_sq_le(x: int, r: int, n: int)
    requires
        x * x <= n,
        n < (r + 1) * (r + 1),
        r >= 0,
    ensures
        -r <= x && x <= r,
{
    assert(-r <= x && x <= r) by (nonlinear_arith)
        requires
            x * x <= n,
            n < (r + 1) * (r + 1),
            r >= 0,
    ;
}

/// Integer square root by bisection.
pub fn isqrt(n: i64) -> (r: i64)
    requires
        0 <= n < 0x4000_0000_0000_0000,
    ensures
        0 <= r,
        r == sqrt(n as nat),
        r * r <= n,
        n < (r + 1) * (r + 1),
{
    let mut lo: i64 = 0;
    let mut hi: i64 = 0x8000_0000;
    while lo + 1 < hi
        invariant
            0 <= lo < hi <= 0x8000_0000,
            lo * lo <= n,
            n < hi * hi,
            n < 0x4000_0000_0000_0000,
        decreases hi - lo,
    {
        let mid: i64 = lo + (hi - lo) / 2;
        proof {
            assert(mid * mid <= 0x4000_0000_0000_0000) by (nonlinear_arith)
                requires
                    0 <= mid <= 0x8000_0000,
            ;
        }
        if mid * mid <= n {
            lo = mid;
        } else {
            hi = mid;
        }
    }
    proof {
        lemma_sqrt_unique(n as nat, lo as nat);
    }
    lo
}

} // verus!
