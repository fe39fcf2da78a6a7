//! Angle and distance unit types, and fixed-point trigonometry.
//!
//! Headings are kept in millidegrees (`Degree(90_000)` is a quarter turn)
//! and never normalized: rotation is purely additive, so a heading may grow
//! without bound across many turns. `Radiant` exists only as an explicit
//! unit conversion (through the rational approximation `355/113` of pi).
//!
//! The sine is evaluated in fixed point with Bhaskara's rational
//! approximation, `sin x ~ 4x(180 - x) / (40500 - x(180 - x))` for `x` in
//! degrees between 0 and 180, scaled so that a result of 1000 is one. The
//! approximation is within a few thousandths of the true sine everywhere
//! and is exact at every multiple of 90 degrees, which keeps axis-aligned
//! drawings exact.

use vstd::prelude::*;
use crate::num::{abs, clip, div_trunc, mul_div_trunc, sat_neg};

verus! {

/// Millidegrees in a full turn.
pub const FULL_TURN_MDEG: i64 = 360_000;

/// Millidegrees in a quarter turn.
pub const QUARTER_TURN_MDEG: i64 = 90_000;

/// An angle in millidegrees.
#[derive(Clone, Copy, Debug, PartialEq, Eq, Structural)]
pub struct Degree(pub i64);

/// An angle in milliradians.
#[derive(Clone, Copy, Debug, PartialEq, Eq, Structural)]
pub struct Radiant(pub i64);

/// A signed distance in milli-units; a negative distance moves backward.
#[derive(Clone, Copy, Debug, PartialEq, Eq, Structural)]
pub struct Distance(pub i64);

/// Millidegrees scaled into milliradians: `mdeg * pi / 180` with
/// `pi ~ 355/113`, truncated and clamped.
pub open spec fn deg_to_rad_spec(mdeg: int) -> int {
    clip(div_trunc(mdeg * 355, 20340))
}

/// Milliradians scaled into millidegrees, the inverse ratio.
pub open spec fn rad_to_deg_spec(mrad: int) -> int {
    clip(div_trunc(mrad * 20340, 355))
}

impl Degree {
    /// The angle of the same size turning the other way (clamped at the
    /// `i64` range).
    pub fn neg(self) -> (r: Degree)
        ensures
            r.0 == clip(-self.0),
    {
        Degree(sat_neg(self.0))
    }
}

impl Distance {
    /// The same distance in the opposite direction (clamped at the `i64`
    /// range).
    pub fn neg(self) -> (r: Distance)
        ensures
            r.0 == clip(-self.0),
    {
        Distance(sat_neg(self.0))
    }
}

impl From<Degree> for Radiant {
    fn from(d: Degree) -> (r: Radiant) {
        Radiant(mul_div_trunc(d.0, 355, 20340))
    }
}

impl vstd::std_specs::convert::FromSpecImpl<Degree> for Radiant {
    open spec fn obeys_from_spec() -> bool {
        true
    }

    open spec fn from_spec(d: Degree) -> Radiant {
        Radiant(deg_to_rad_spec(d.0 as int) as i64)
    }
}

impl From<Radiant> for Degree {
    fn from(r: Radiant) -> (d: Degree) {
        Degree(mul_div_trunc(r.0, 20340, 355))
    }
}

impl vstd::std_specs::convert::FromSpecImpl<Radiant> for Degree {
    open spec fn obeys_from_spec() -> bool {
        true
    }

    open spec fn from_spec(r: Radiant) -> Degree {
        Degree(rad_to_deg_spec(r.0 as int) as i64)
    }
}

impl From<i64> for Degree {
    fn from(v: i64) -> (d: Degree) {
        Degree(v)
    }
}

impl vstd::std_specs::convert::FromSpecImpl<i64> for Degree {
    open spec fn obeys_from_spec() -> bool {
        true
    }

    open spec fn from_spec(v: i64) -> Degree {
        Degree(v)
    }
}

impl From<i64> for Distance {
    fn from(v: i64) -> (d: Distance) {
        Distance(v)
    }
}

impl vstd::std_specs::convert::FromSpecImpl<i64> for Distance {
    open spec fn obeys_from_spec() -> bool {
        true
    }

    open spec fn from_spec(v: i64) -> Distance {
        Distance(v)
    }
}

/// Bhaskara's fixed-point half-wave: the scaled sine of `x` millidegrees
/// for `x` between 0 and 180000.
pub open spec fn sin_half_mdeg(x: int) -> int {
    4000 * (x * (180000 - x)) / (40500000000 - x * (180000 - x))
}

/// The scaled sine of `a` millidegrees: 1000 stands for one.
pub open spec fn sin_mdeg_spec(a: int) -> int {
    let r = a % 360000;
    if r <= 180000 {
        sin_half_mdeg(r)
    } else {
        -sin_half_mdeg(r - 180000)
    }
}

/// The scaled cosine, as the sine a quarter turn ahead.
pub open spec fn cos_mdeg_spec(a: int) -> int {
    sin_mdeg_spec(a + 90000)
}

/// The product `x * (180000 - x)` stays within the half-wave window.
proof fn lemma_half_product_bounds(x: int)
    requires
        0 <= x <= 180000,
    ensures
        0 <= x * (180000 - x) <= 8_100_000_000,
{
    assert(0 <= x * (180000 - x) <= 8_100_000_000) by (nonlinear_arith)
        requires
            0 <= x <= 180000,
    ;
}

/// The half-wave value lies between 0 and 1000.
pub proof fn lemma_sin_half_bounds(x: int)
    requires
        0 <= x <= 180000,
    ensures
        0 <= sin_half_mdeg(x) <= 1000,
{
    lemma_half_product_bounds(x);
    let t = x * (180000 - x);
    let num = 4000 * t;
    let den = 40500000000 - t;
    vstd::arithmetic::div_mod::lemma_div_pos_is_pos(num, den);
    assert(num <= 1000 * den);
    vstd::arithmetic::div_mod::lemma_div_is_ordered(num, 1000 * den, den);
    vstd::arithmetic::mul::lemma_mul_is_commutative(1000, den);
    vstd::arithmetic::div_mod::lemma_div_multiples_vanish(1000, den);
}

/// The scaled sine lies between -1000 and 1000.
pub proof fn lemma_sin_bounds(a: int)
    ensures
        -1000 <= sin_mdeg_spec(a) <= 1000,
{
    let r = a % 360000;
    if r <= 180000 {
        lemma_sin_half_bounds(r);
    } else {
        lemma_sin_half_bounds(r - 180000);
    }
}

/// The scaled sine repeats every full turn.
pub proof fn lemma_sin_periodic(a: int)
    ensures
        sin_mdeg_spec(a + 360000) == sin_mdeg_spec(a),
        sin_mdeg_spec(a - 360000) == sin_mdeg_spec(a),
{
    vstd::arithmetic::div_mod::lemma_mod_add_multiples_vanish(a, 360000);
    vstd::arithmetic::div_mod::lemma_mod_sub_multiples_vanish(a, 360000);
}

/// At a heading that is a multiple of a quarter turn the fixed-point sine
/// and cosine are exact: one of them is zero and the other plus or minus
/// one (scaled by 1000).
pub proof fn lemma_sin_cos_quarter(a: int)
    requires
        a % 90000 == 0,
    ensures
        a % 360000 == 0 ==> sin_mdeg_spec(a) == 0 && cos_mdeg_spec(a) == 1000,
        a % 360000 == 90000 ==> sin_mdeg_spec(a) == 1000 && cos_mdeg_spec(a) == 0,
        a % 360000 == 180000 ==> sin_mdeg_spec(a) == 0 && cos_mdeg_spec(a) == -1000,
        a % 360000 == 270000 ==> sin_mdeg_spec(a) == -1000 && cos_mdeg_spec(a) == 0,
        a % 360000 == 0 || a % 360000 == 90000 || a % 360000 == 180000 || a % 360000 == 270000,
{
    assert(0int * (180000 - 0) == 0);
    assert(90000int * (180000 - 90000) == 8100000000);
    assert(180000int * (180000 - 180000) == 0);
    assert(sin_half_mdeg(0) == 0);
    assert(sin_half_mdeg(90000) == 1000);
    assert(sin_half_mdeg(180000) == 0);
    let r = a % 360000;
    let q = a / 360000;
    assert((a % (90000int * 4)) % 90000 == a % 90000) by {
        vstd::arithmetic::div_mod::lemma_mod_mod(a, 90000, 4);
    }
    let k = r / 90000;
    vstd::arithmetic::div_mod::lemma_fundamental_div_mod(r, 90000);
    assert(0 <= k <= 3) by (nonlinear_arith)
        requires
            r == 90000 * k,
            0 <= r < 360000,
    ;
    vstd::arithmetic::div_mod::lemma_fundamental_div_mod(a, 360000);
    if r == 270000 {
        vstd::arithmetic::div_mod::lemma_fundamental_div_mod_converse(
            a + 90000,
            360000,
            q + 1,
            0,
        );
    } else {
        vstd::arithmetic::div_mod::lemma_fundamental_div_mod_converse(
            a + 90000,
            360000,
            q,
            r + 90000,
        );
    }
}

/// The Euclidean remainder of a negative value, from the remainder of its
/// magnitude.
proof fn lemma_mod_of_negative(a: int, n: int)
    requires
        n > 0,
        a < 0,
    ensures
        (-a) % n == 0 ==> a % n == 0,
        (-a) % n != 0 ==> a % n == n - ((-a) % n),
{
    let q = (-a) / n;
    let m = (-a) % n;
    vstd::arithmetic::div_mod::lemma_fundamental_div_mod(-a, n);
    if m == 0 {
        assert(a == (-q) * n + 0) by (nonlinear_arith)
            requires
                -a == n * q + 0,
        ;
        vstd::arithmetic::div_mod::lemma_fundamental_div_mod_converse(a, n, -q, 0);
    } else {
        assert(a == (-q - 1) * n + (n - m)) by (nonlinear_arith)
            requires
                -a == n * q + m,
        ;
        vstd::arithmetic::div_mod::lemma_fundamental_div_mod_converse(a, n, -q - 1, n - m);
    }
}

/// The scaled sine of the Bhaskara half-wave, evaluated in fixed point.
fn sin_half_exec(x: u64) -> (r: u64)
    requires
        x <= 180000,
    ensures
        r == sin_half_mdeg(x as int),
        r <= 1000,
{
    proof {
        lemma_half_product_bounds(x as int);
    }
    let t: u64 = x * (180000 - x);
    let num: u64 = 4000 * t;
    let den: u64 = 40_500_000_000 - t;
    proof {
        lemma_sin_half_bounds(x as int);
    }
    num / den
}

/// The scaled sine of `a` millidegrees; 1000 stands for one.
///
/// Exact at every multiple of 90000 millidegrees, within a few units of
/// the true scaled sine elsewhere.
pub fn sin_mdeg(a: i64) -> (r: i64)
    ensures
        r == sin_mdeg_spec(a as int),
        -1000 <= r <= 1000,
{
    let r: u64 = if a >= 0 {
        (a as u64) % 360000
    } else {
        let m: u64 = ((-(a as i128)) as u64) % 360000;
        proof {
            lemma_mod_of_negative(a as int, 360000);
        }
        if m == 0 {
            0
        } else {
            360000 - m
        }
    };
    assert(r == (a as int) % 360000);
    proof {
        lemma_sin_bounds(a as int);
    }
    if r <= 180000 {
        sin_half_exec(r) as i64
    } else {
        proof {
            lemma_sin_half_bounds(r - 180000);
        }
        -(sin_half_exec(r - 180000) as i64)
    }
}

/// The scaled cosine of `a` millidegrees; 1000 stands for one.
pub fn cos_mdeg(a: i64) -> (r: i64)
    ensures
        r == cos_mdeg_spec(a as int),
        -1000 <= r <= 1000,
{
    if a <= i64::MAX - 90000 {
        sin_mdeg(a + 90000)
    } else {
        proof {
            lemma_sin_periodic(a as int - 270000);
        }
        sin_mdeg(a - 270000)
    }
}

} // verus!
