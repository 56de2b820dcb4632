//! Fixed-point scalars.
//!
//! A scalar is an `i64` that counts millionths: the raw value `1_000_000`
//! stands for `1.0`. Sums, products and quotients saturate at the ends of the
//! `i64` range, and products and quotients round toward zero, so that the
//! arithmetic is symmetric under negation.
use vstd::prelude::*;

verus! {

/// Raw value of `1.0`.
pub const UNIT: i64 = 1_000_000;

/// Absolute value, as a mathematical integer.
pub open spec fn magnitude(v: int) -> int {
    if v < 0 {
        -v
    } else {
        v
    }
}

/// `v` brought into the range of `i64`.
pub open spec fn saturate(v: int) -> int {
    if v > i64::MAX as int {
        i64::MAX as int
    } else if v < i64::MIN as int {
        i64::MIN as int
    } else {
        v
    }
}

/// `n / d` rounded toward zero, for `d != 0`.
pub open spec fn quotient_toward_zero(n: int, d: int) -> int {
    if d > 0 {
        if n >= 0 {
            n / d
        } else {
            -((-n) / d)
        }
    } else {
        if n >= 0 {
            -(n / (-d))
        } else {
            (-n) / (-d)
        }
    }
}

/// A product of two scalars brought back to the scale of a scalar:
/// `n / 1_000_000` rounded toward zero.
pub open spec fn rescaled(n: int) -> int {
    if n >= 0 {
        n / 1_000_000
    } else {
        -((-n) / 1_000_000)
    }
}

/// Saturating sum of two scalars.
pub open spec fn plus(a: int, b: int) -> int {
    saturate(a + b)
}

/// Saturating difference of two scalars.
pub open spec fn minus(a: int, b: int) -> int {
    saturate(a - b)
}

/// Fixed-point product: `a * b / UNIT`, rounded toward zero, saturating.
pub open spec fn times(a: int, b: int) -> int {
    saturate(rescaled(a * b))
}

/// Fixed-point quotient: `a * UNIT / b`, rounded toward zero, saturating.
pub open spec fn over(a: int, b: int) -> int {
    saturate(quotient_toward_zero(a * 1_000_000, b))
}

/// Sign of a scalar as a scalar: `-1.0` below zero, `+1.0` otherwise.
///
/// Zero counts as positive, as the sign of a positive floating-point zero does.
pub open spec fn sign_of(v: int) -> int {
    if v < 0 {
        -(UNIT as int)
    } else {
        UNIT as int
    }
}

/// `v` limited to `[lo, hi]`; the upper limit is tested first.
pub open spec fn limit(v: int, lo: int, hi: int) -> int {
    if v > hi {
        hi
    } else if v < lo {
        lo
    } else {
        v
    }
}

/// One is neutral and zero absorbs in products, one is neutral in
/// quotients, and rescaling commutes with negation.
pub proof fn law_unit(a: int, n: int)
    requires
        i64::MIN <= a <= i64::MAX,
    ensures
        times(a, 1_000_000) == a,
        times(1_000_000, a) == a,
        times(a, 0) == 0,
        times(0, a) == 0,
        over(a, 1_000_000) == a,
        rescaled(-n) == -rescaled(n),
        quotient_toward_zero(-n, 1_000_000) == -quotient_toward_zero(n, 1_000_000),
{
}

proof fn lemma_product_range(a: int, b: int)
    requires
        i64::MIN <= a <= i64::MAX,
        i64::MIN <= b <= i64::MAX,
    ensures
        -0x4000_0000_0000_0000_0000_0000_0000_0000 <= a * b
            <= 0x4000_0000_0000_0000_0000_0000_0000_0000,
{
    let m: int = 0x8000_0000_0000_0000;
    assert(m * m == 0x4000_0000_0000_0000_0000_0000_0000_0000);
    assert(a * b <= m * m && a * b >= -(m * m)) by (nonlinear_arith)
        requires
            -m <= a <= m,
            -m <= b <= m,
            m >= 0,
    ;
}

fn saturate_wide(v: i128) -> (r: i64)
    ensures
        r == saturate(v as int),
{
    if v > i64::MAX as i128 {
        i64::MAX
    } else if v < i64::MIN as i128 {
        i64::MIN
    } else {
        v as i64
    }
}

/// Quotient of two wide integers, rounded toward zero.
fn divide_toward_zero(n: i128, d: i128) -> (r: i128)
    requires
        d != 0,
        i128::MIN < n,
        i128::MIN < d,
    ensures
        r == quotient_toward_zero(n as int, d as int),
{
    let n_abs: i128 = if n < 0 {
        -n
    } else {
        n
    };
    let d_abs: i128 = if d < 0 {
        -d
    } else {
        d
    };
    let q: i128 = n_abs / d_abs;
    if (n >= 0) == (d > 0) {
        q
    } else {
        -q
    }
}

/// Absolute value of a scalar, saturating at `i64::MAX`.
pub fn fx_abs(v: i64) -> (r: i64)
    ensures
        r == saturate(magnitude(v as int)),
{
    if v == i64::MIN {
        i64::MAX
    } else if v < 0 {
        -v
    } else {
        v
    }
}

/// Negation of a scalar, saturating at `i64::MAX`.
pub fn fx_neg(v: i64) -> (r: i64)
    ensures
        r == saturate(-(v as int)),
{
    if v == i64::MIN {
        i64::MAX
    } else {
        -v
    }
}

/// Sign of a scalar: `-UNIT` below zero, `UNIT` otherwise.
pub fn fx_sign(v: i64) -> (r: i64)
    ensures
        r == sign_of(v as int),
{
    if v < 0 {
        -UNIT
    } else {
        UNIT
    }
}

/// Saturating sum.
pub fn fx_add(a: i64, b: i64) -> (r: i64)
    ensures
        r == plus(a as int, b as int),
{
    saturate_wide(a as i128 + b as i128)
}

/// Saturating difference.
pub fn fx_sub(a: i64, b: i64) -> (r: i64)
    ensures
        r == minus(a as int, b as int),
{
    saturate_wide(a as i128 - b as i128)
}

/// Fixed-point product.
pub fn fx_mul(a: i64, b: i64) -> (r: i64)
    ensures
        r == times(a as int, b as int),
{
    proof {
        lemma_product_range(a as int, b as int);
    }
    let p: i128 = (a as i128) * (b as i128);
    let q: i128 = if p >= 0 {
        p / 1_000_000
    } else {
        -((-p) / 1_000_000)
    };
    saturate_wide(q)
}

/// Fixed-point quotient.
pub fn fx_div(a: i64, b: i64) -> (r: i64)
    requires
        b != 0,
    ensures
        r == over(a as int, b as int),
{
    proof {
        lemma_product_range(a as int, UNIT as int);
    }
    let n: i128 = (a as i128) * (UNIT as i128);
    saturate_wide(divide_toward_zero(n, b as i128))
}

/// `v` limited to `[lo, hi]`, the upper limit tested first.
pub fn fx_limit(v: i64, lo: i64, hi: i64) -> (r: i64)
    ensures
        r == limit(v as int, lo as int, hi as int),
{
    if v > hi {
        hi
    } else if v < lo {
        lo
    } else {
        v
    }
}

} // verus!
