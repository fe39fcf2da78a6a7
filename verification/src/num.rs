//! Saturating fixed-point arithmetic on `i64` milli-units.
//!
//! Every scalar in this crate is an `i64` counting thousandths of a drawing
//! unit. Sums and differences saturate at the `i64` range instead of
//! overflowing; products are divided back down by a positive scale with
//! truncation toward zero.

use vstd::prelude::*;

verus! {

/// One drawing unit, in milli-units.
pub const MILLI: i64 = 1000;

/// Clamp a mathematical integer into the `i64` range.
pub open spec fn clip(v: int) -> int {
    if v > i64::MAX {
        i64::MAX as int
    } else if v < i64::MIN {
        i64::MIN as int
    } else {
        v
    }
}

/// Absolute value of a mathematical integer.
pub open spec fn abs(v: int) -> int {
    if v < 0 {
        -v
    } else {
        v
    }
}

/// Quotient of `p / d` truncated toward zero (`d > 0`).
pub open spec fn div_trunc(p: int, d: int) -> int {
    if p >= 0 {
        p / d
    } else {
        -((-p) / d)
    }
}

/// Saturating addition.
pub fn sat_add(a: i64, b: i64) -> (r: i64)
    ensures
        r == clip(a + b),
{
    let s: i128 = a as i128 + b as i128;
    if s > i64::MAX as i128 {
        i64::MAX
    } else if s < i64::MIN as i128 {
        i64::MIN
    } else {
        s as i64
    }
}

/// Saturating subtraction.
pub fn sat_sub(a: i64, b: i64) -> (r: i64)
    ensures
        r == clip(a - b),
{
    let s: i128 = a as i128 - b as i128;
    if s > i64::MAX as i128 {
        i64::MAX
    } else if s < i64::MIN as i128 {
        i64::MIN
    } else {
        s as i64
    }
}

/// Saturating negation (`-i64::MIN` clamps to `i64::MAX`).
pub fn sat_neg(a: i64) -> (r: i64)
    ensures
        r == clip(-a),
{
    if a == i64::MIN {
        i64::MAX
    } else {
        -a
    }
}

/// The absolute value of a product is the product of the absolute values,
/// and the sign of a product follows the signs of the factors.
pub proof fn lemma_abs_mul(a: int, b: int)
    ensures
        abs(a) * abs(b) == abs(a * b),
        ((a < 0) != (b < 0)) ==> a * b <= 0,
        ((a < 0) == (b < 0)) ==> a * b >= 0,
{
    vstd::arithmetic::mul::lemma_mul_is_commutative(a, b);
    vstd::arithmetic::mul::lemma_mul_unary_negation(a, b);
    vstd::arithmetic::mul::lemma_mul_unary_negation(b, a);
    vstd::arithmetic::mul::lemma_mul_unary_negation(-a, b);
    vstd::arithmetic::mul::lemma_mul_is_commutative(-a, -b);
    if a >= 0 && b >= 0 {
        vstd::arithmetic::mul::lemma_mul_nonnegative(a, b);
    } else if a >= 0 && b < 0 {
        vstd::arithmetic::mul::lemma_mul_nonnegative(-b, a);
    } else if a < 0 && b >= 0 {
        vstd::arithmetic::mul::lemma_mul_nonnegative(-a, b);
    } else {
        vstd::arithmetic::mul::lemma_mul_nonnegative(-a, -b);
    }
}

/// Truncating division splits into a sign and a magnitude.
pub proof fn lemma_div_trunc_abs(p: int, d: int)
    requires
        d > 0,
    ensures
        abs(div_trunc(p, d)) == abs(p) / d,
        p >= 0 ==> div_trunc(p, d) == abs(p) / d,
        p < 0 ==> div_trunc(p, d) == -(abs(p) / d),
        abs(div_trunc(p, d)) <= abs(p),
{
    if p >= 0 {
        vstd::arithmetic::div_mod::lemma_div_is_ordered(0, p, d);
    } else {
        vstd::arithmetic::div_mod::lemma_div_is_ordered(0, -p, d);
    }
    vstd::arithmetic::div_mod::lemma_div_nonincreasing(abs(p), d);
}

/// `a * b / den`, truncated toward zero and clamped into `i64`.
pub fn mul_div_trunc(a: i64, b: i64, den: u64) -> (r: i64)
    requires
        0 < den <= i64::MAX,
    ensures
        r == clip(div_trunc(a * b, den as int)),
{
    let neg: bool = (a < 0) != (b < 0);
    let ma: u128 = if a >= 0 {
        a as u128
    } else {
        (-(a as i128)) as u128
    };
    let mb: u128 = if b >= 0 {
        b as u128
    } else {
        (-(b as i128)) as u128
    };
    proof {
        lemma_abs_mul(a as int, b as int);
        assert(ma * mb == abs(a * b));
        vstd::arithmetic::mul::lemma_mul_upper_bound(
            ma as int,
            0x8000_0000_0000_0000,
            mb as int,
            0x8000_0000_0000_0000,
        );
    }
    let q: u128 = (ma * mb) / (den as u128);
    proof {
        lemma_div_trunc_abs(a * b, den as int);
        if neg {
            assert(a * b <= 0);
        } else {
            assert(a * b >= 0);
        }
    }
    if neg {
        if q > i64::MAX as u128 {
            i64::MIN
        } else {
            -(q as i64)
        }
    } else {
        if q > i64::MAX as u128 {
            i64::MAX
        } else {
            q as i64
        }
    }
}

} // verus!
