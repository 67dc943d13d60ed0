//! The scalar type of the renderer: a signed fixed-point number.
//!
//! A value of [`Fx`] holds an `i64` counting steps of `1/SCALE`, so the real
//! number it stands for is `v / 65536`.  Every arithmetic operation saturates
//! into `[-FX_MAX, FX_MAX]`, which makes each operation total: no operation
//! panics and none needs a precondition.  The spec functions in this module
//! (`add_s`, `mul_s`, ...) give the exact integer meaning of each operation,
//! and every contract of the renderer is stated over them.

use vstd::prelude::*;

verus! {

use vstd::arithmetic::div_mod::lemma_div_multiples_vanish;

/// Number of fractional steps in one unit: an `Fx` holding `v` stands for
/// the real number `v / 65536`.
pub const SCALE: i64 = 65536;

/// Saturation bound: every operation clamps its result into
/// `[-FX_MAX, FX_MAX]` (`FX_MAX` is `2^62`).
pub const FX_MAX: i64 = 4611686018427387904;

/// A fixed-point scalar: `v` counts steps of `1/SCALE`.
#[derive(Clone, Copy, Debug, PartialEq, Eq, Structural)]
pub struct Fx {
    pub v: i64,
}

/// Saturation of a mathematical integer into the scalar's range.
pub open spec fn clamp_s(x: int) -> int {
    if x > FX_MAX as int {
        FX_MAX as int
    } else if x < -(FX_MAX as int) {
        -(FX_MAX as int)
    } else {
        x
    }
}

/// Absolute value of a mathematical integer.
pub open spec fn iabs(x: int) -> int {
    if x < 0 {
        -x
    } else {
        x
    }
}

/// Quotient rounded toward zero, as the machine division computes it.
pub open spec fn divt(x: int, d: int) -> int
    recommends
        d != 0,
{
    let q = iabs(x) / iabs(d);
    if (x < 0) != (d < 0) {
        -q
    } else {
        q
    }
}

/// Meaning of fixed-point addition.
pub open spec fn add_s(a: int, b: int) -> int {
    clamp_s(a + b)
}

/// Meaning of fixed-point subtraction.
pub open spec fn sub_s(a: int, b: int) -> int {
    clamp_s(a - b)
}

/// Meaning of fixed-point negation.
pub open spec fn neg_s(a: int) -> int {
    clamp_s(-a)
}

/// Meaning of fixed-point multiplication: the full product, rescaled with
/// truncation, then saturated.
pub open spec fn mul_s(a: int, b: int) -> int {
    clamp_s(divt(a * b, SCALE as int))
}

/// Meaning of fixed-point division.  A zero divisor saturates by the sign of
/// the dividend (the counterpart of an infinite quotient), so the operation
/// is total.
pub open spec fn div_s(a: int, b: int) -> int {
    if b == 0 {
        if a > 0 {
            FX_MAX as int
        } else if a < 0 {
            -(FX_MAX as int)
        } else {
            0
        }
    } else {
        clamp_s(divt(a * SCALE, b))
    }
}

/// `r` is the integer square root of `n`.
pub open spec fn is_isqrt(n: int, r: int) -> bool {
    0 <= r && r * r <= n && n < (r + 1) * (r + 1)
}

/// The integer square root of a non-negative integer.
pub open spec fn isqrt_s(n: int) -> int
    recommends
        n >= 0,
{
    choose|r: int| is_isqrt(n, r)
}

/// Meaning of fixed-point square root: the scaled root of a non-negative
/// scalar; any non-positive argument gives zero.
pub open spec fn sqrt_s(a: int) -> int {
    if a <= 0 {
        0
    } else {
        isqrt_s(a * SCALE)
    }
}

/// Meaning of the minimum of two scalars.
pub open spec fn min_s(a: int, b: int) -> int {
    if a < b {
        a
    } else {
        b
    }
}

/// Meaning of the maximum of two scalars.
pub open spec fn max_s(a: int, b: int) -> int {
    if a < b {
        b
    } else {
        a
    }
}

/// Meaning of the fixed-point absolute value (saturated, since `|i64::MIN|`
/// is out of range).
pub open spec fn abs_s(a: int) -> int {
    clamp_s(iabs(a))
}

proof fn lemma_mul_i64_range(a: int, b: int)
    requires
        -0x8000_0000_0000_0000 <= a <= 0x7fff_ffff_ffff_ffff,
        -0x8000_0000_0000_0000 <= b <= 0x7fff_ffff_ffff_ffff,
    ensures
        -0x4000_0000_0000_0000_0000_0000_0000_0000 <= a * b
            <= 0x4000_0000_0000_0000_0000_0000_0000_0000,
{
    assert(-0x4000_0000_0000_0000_0000_0000_0000_0000 <= a * b
        <= 0x4000_0000_0000_0000_0000_0000_0000_0000) by (nonlinear_arith)
        requires
            -0x8000_0000_0000_0000 <= a <= 0x7fff_ffff_ffff_ffff,
            -0x8000_0000_0000_0000 <= b <= 0x7fff_ffff_ffff_ffff,
    ;
}

/// Dividing an in-range scalar by one is the identity.
pub proof fn lemma_div_s_unit(a: int)
    requires
        iabs(a) <= FX_MAX as int,
    ensures
        div_s(a, SCALE as int) == a,
{
    let s = SCALE as int;
    if a >= 0 {
        assert(a * s == s * a && a * s >= 0) by (nonlinear_arith)
            requires
                a >= 0,
                s > 0,
        ;
        lemma_div_multiples_vanish(a, s);
        assert(divt(a * s, s) == a);
    } else {
        assert((-a) * s == -(a * s) && a * s < 0) by (nonlinear_arith)
            requires
                a < 0,
                s > 0,
        ;
        lemma_div_multiples_vanish(-a, s);
        assert(divt(a * s, s) == -((s * (-a)) / s));
        assert(divt(a * s, s) == a);
    }
}

/// Negating one factor negates a product: the truncating rescale rounds
/// toward zero and the saturation range is symmetric, so the sign passes
/// through exactly.
pub proof fn lemma_mul_s_neg(a: int, b: int)
    requires
        iabs(a) <= FX_MAX as int,
    ensures
        mul_s(neg_s(a), b) == neg_s(mul_s(a, b)),
{
    assert((-a) * b == -(a * b)) by (nonlinear_arith);
    assert(divt(-(a * b), SCALE as int) == -divt(a * b, SCALE as int));
    assert(iabs(mul_s(a, b)) <= FX_MAX as int);
}

/// Two integer square roots of the same number are equal.
pub proof fn lemma_isqrt_unique(n: int, r1: int, r2: int)
    requires
        is_isqrt(n, r1),
        is_isqrt(n, r2),
    ensures
        r1 == r2,
{
    assert(r1 == r2) by (nonlinear_arith)
        requires
            0 <= r1 && r1 * r1 <= n && n < (r1 + 1) * (r1 + 1),
            0 <= r2 && r2 * r2 <= n && n < (r2 + 1) * (r2 + 1),
    ;
}

fn clamp128(x: i128) -> (r: i64)
    ensures
        r as int == clamp_s(x as int),
{
    if x > FX_MAX as i128 {
        FX_MAX
    } else if x < -(FX_MAX as i128) {
        -FX_MAX
    } else {
        x as i64
    }
}

fn divt128(x: i128, d: i128) -> (q: i128)
    requires
        d != 0,
        x > i128::MIN,
        d > i128::MIN,
    ensures
        q as int == divt(x as int, d as int),
{
    let xa: u128 = if x < 0 {
        (-x) as u128
    } else {
        x as u128
    };
    let da: u128 = if d < 0 {
        (-d) as u128
    } else {
        d as u128
    };
    let q0: u128 = xa / da;
    assert(xa as int == iabs(x as int));
    assert(da as int == iabs(d as int));
    assert(q0 <= xa) by (nonlinear_arith)
        requires
            q0 == xa / da,
            da > 0,
    ;
    if (x < 0) != (d < 0) {
        -(q0 as i128)
    } else {
        q0 as i128
    }
}

/// Fixed-point addition; saturates, never panics.
pub fn fx_add(a: Fx, b: Fx) -> (r: Fx)
    ensures
        r.v as int == add_s(a.v as int, b.v as int),
{
    Fx { v: clamp128(a.v as i128 + b.v as i128) }
}

/// Fixed-point subtraction; saturates, never panics.
pub fn fx_sub(a: Fx, b: Fx) -> (r: Fx)
    ensures
        r.v as int == sub_s(a.v as int, b.v as int),
{
    Fx { v: clamp128(a.v as i128 - b.v as i128) }
}

/// Fixed-point negation; saturates, never panics.
pub fn fx_neg(a: Fx) -> (r: Fx)
    ensures
        r.v as int == neg_s(a.v as int),
{
    Fx { v: clamp128(-(a.v as i128)) }
}

/// Fixed-point multiplication; saturates, never panics.
pub fn fx_mul(a: Fx, b: Fx) -> (r: Fx)
    ensures
        r.v as int == mul_s(a.v as int, b.v as int),
{
    proof {
        lemma_mul_i64_range(a.v as int, b.v as int);
    }
    let p: i128 = (a.v as i128) * (b.v as i128);
    Fx { v: clamp128(divt128(p, SCALE as i128)) }
}

/// Fixed-point division; a zero divisor saturates by the dividend's sign.
pub fn fx_div(a: Fx, b: Fx) -> (r: Fx)
    ensures
        r.v as int == div_s(a.v as int, b.v as int),
{
    if b.v == 0 {
        if a.v > 0 {
            Fx { v: FX_MAX }
        } else if a.v < 0 {
            Fx { v: -FX_MAX }
        } else {
            Fx { v: 0 }
        }
    } else {
        proof {
            lemma_mul_i64_range(a.v as int, SCALE as int);
        }
        let p: i128 = (a.v as i128) * (SCALE as i128);
        Fx { v: clamp128(divt128(p, b.v as i128)) }
    }
}

fn isqrt_u128(n: u128) -> (r: u128)
    ensures
        is_isqrt(n as int, r as int),
{
    let mut lo: u128 = 0;
    let mut hi: u128 = 0x1_0000_0000_0000_0000;
    assert((0x1_0000_0000_0000_0000 as int) * (0x1_0000_0000_0000_0000 as int) > n as int)
        by (nonlinear_arith)
        requires
            n <= 0xffff_ffff_ffff_ffff_ffff_ffff_ffff_ffff,
    ;
    while lo + 1 < hi
        invariant
            lo < hi,
            hi <= 0x1_0000_0000_0000_0000,
            (lo as int) * (lo as int) <= n as int,
            (hi as int) * (hi as int) > n as int,
        decreases hi - lo,
    {
        let mid: u128 = lo + (hi - lo) / 2;
        assert(lo < mid < hi);
        assert((mid as int) * (mid as int) < 0xffff_ffff_ffff_ffff_ffff_ffff_ffff_ffff)
            by (nonlinear_arith)
            requires
                mid < 0x1_0000_0000_0000_0000,
        ;
        if mid * mid <= n {
            lo = mid;
        } else {
            hi = mid;
        }
    }
    lo
}

/// Fixed-point square root; any non-positive argument gives zero.
pub fn fx_sqrt(a: Fx) -> (r: Fx)
    ensures
        r.v as int == sqrt_s(a.v as int),
{
    if a.v <= 0 {
        Fx { v: 0 }
    } else {
        let n: u128 = (a.v as u128) * (SCALE as u128);
        let s: u128 = isqrt_u128(n);
        assert(s < 0x1_0000_0000_0000) by (nonlinear_arith)
            requires
                is_isqrt(n as int, s as int),
                n < 0x1_0000_0000_0000_0000_0000,
        ;
        proof {
            lemma_isqrt_unique(n as int, s as int, isqrt_s(n as int));
        }
        Fx { v: s as i64 }
    }
}

/// The smaller of two scalars.
pub fn fx_min(a: Fx, b: Fx) -> (r: Fx)
    ensures
        r.v as int == min_s(a.v as int, b.v as int),
{
    if a.v < b.v {
        a
    } else {
        b
    }
}

/// The larger of two scalars.
pub fn fx_max(a: Fx, b: Fx) -> (r: Fx)
    ensures
        r.v as int == max_s(a.v as int, b.v as int),
{
    if a.v < b.v {
        b
    } else {
        a
    }
}

/// Fixed-point absolute value; saturates, never panics.
pub fn fx_abs(a: Fx) -> (r: Fx)
    ensures
        r.v as int == abs_s(a.v as int),
{
    Fx { v: clamp128(if a.v < 0 {
        -(a.v as i128)
    } else {
        a.v as i128
    }) }
}

/// The scalar standing for the whole number `n`.
pub fn fx_of_u32(n: u32) -> (r: Fx)
    ensures
        r.v as int == n as int * SCALE as int,
{
    Fx { v: (n as i64) * SCALE }
}

} // verus!
