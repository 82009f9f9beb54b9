//! Signed 16.16 fixed-point scalar arithmetic.
//!
//! A scalar is an `i64` holding `value * FX_ONE`. All operations saturate to
//! the symmetric range `[-FX_MAX, FX_MAX]` instead of overflowing, and every
//! operation's result is pinned down exactly by a spec function, including
//! the truncation (rounding toward zero) of multiplication and division.

use vstd::prelude::*;
use vstd::math::abs;

verus! {

/// Raw units per whole unit: the scale of the 16.16 fixed-point format.
pub const FX_ONE: i64 = 65536;

/// Half of one whole unit (the offset from a pixel corner to its center).
pub const FX_HALF: i64 = 32768;

/// Largest raw magnitude a scalar may take; saturating operations clamp
/// results into `[-FX_MAX, FX_MAX]`.
pub const FX_MAX: i64 = 0x7fff_ffff_ffff_ffff;

/// Clamp a mathematical integer into the representable scalar range.
pub open spec fn sat64(v: int) -> int {
    if v > FX_MAX as int {
        FX_MAX as int
    } else if v < -(FX_MAX as int) {
        -(FX_MAX as int)
    } else {
        v
    }
}

/// Quotient of `a / b` rounded toward zero (the rounding used by all
/// fixed-point multiplications and divisions here).
pub open spec fn div_trunc(a: int, b: int) -> int
    recommends
        b != 0,
{
    if (a < 0) != (b < 0) {
        -((abs(a) / abs(b)) as int)
    } else {
        (abs(a) / abs(b)) as int
    }
}

/// Saturating fixed-point addition.
pub open spec fn fx_add_spec(a: int, b: int) -> int {
    sat64(a + b)
}

/// Saturating fixed-point subtraction.
pub open spec fn fx_sub_spec(a: int, b: int) -> int {
    sat64(a - b)
}

/// Saturating fixed-point multiplication: the product rescaled by `FX_ONE`,
/// rounded toward zero.
pub open spec fn fx_mul_spec(a: int, b: int) -> int {
    sat64(div_trunc(a * b, FX_ONE as int))
}

/// Saturating fixed-point division: `a / b` carried to scale `FX_ONE`,
/// rounded toward zero. Division by zero yields the saturated value with
/// the sign of `a` (zero for a zero numerator), standing in for the
/// infinities a lossy pipeline would produce.
pub open spec fn fx_div_spec(a: int, b: int) -> int {
    if b == 0 {
        if a > 0 {
            FX_MAX as int
        } else if a < 0 {
            -(FX_MAX as int)
        } else {
            0
        }
    } else {
        sat64(div_trunc(a * (FX_ONE as int), b))
    }
}

proof fn lemma_abs_mul(a: int, b: int)
    by (nonlinear_arith)
    ensures
        abs(a * b) == abs(a) * abs(b),
        a * b < 0 <==> ((a < 0) != (b < 0)) && a != 0 && b != 0,
        a * b > 0 <==> ((a < 0) == (b < 0)) && a != 0 && b != 0,
{
}

/// Truncating division lands within one divisor of the dividend.
pub proof fn lemma_div_trunc_close(a: int, b: int)
    requires
        b >= 1,
    ensures
        abs(a - div_trunc(a, b) * b) < b,
        a >= 0 ==> div_trunc(a, b) * b <= a,
        a < 0 ==> div_trunc(a, b) * b >= a,
{
    vstd::arithmetic::div_mod::lemma_fundamental_div_mod(abs(a) as int, b);
    vstd::arithmetic::div_mod::lemma_mod_division_less_than_divisor(abs(a) as int, b);
    vstd::arithmetic::div_mod::lemma_div_pos_is_pos(abs(a) as int, b);
    let q = (abs(a) as int) / b;
    assert(abs(a) as int == b * q + (abs(a) as int) % b);
    if a >= 0 {
        assert(div_trunc(a, b) == q);
        assert(q * b == b * q) by (nonlinear_arith);
    } else {
        assert(div_trunc(a, b) == -q);
        assert((-q) * b == -(b * q)) by (nonlinear_arith);
    }
}

/// Scaling by `p / q` with truncation and back by `q / p` recovers the
/// original value within `q / p` plus one: the error a lossy fixed-point
/// stage and its inverse can accumulate.
pub proof fn lemma_rescale_round_trip(v: int, p: int, q: int)
    requires
        p >= 1,
        q >= 1,
    ensures
        abs(div_trunc(div_trunc(v * p, q) * q, p) - v) <= q / p + 1,
{
    let m = div_trunc(v * p, q);
    let r = div_trunc(m * q, p);
    lemma_div_trunc_close(v * p, q);
    lemma_div_trunc_close(m * q, p);
    assert(abs(v * p - m * q) < q);
    assert(abs(m * q - r * p) < p);
    assert(abs(v * p - r * p) < p + q);
    assert((v - r) * p == v * p - r * p) by (nonlinear_arith);
    assert(abs((v - r) * p) == abs(v - r) * p) by (nonlinear_arith)
        requires
            p >= 1,
    ;
    assert(abs(v - r) * p <= p + q - 1);
    vstd::arithmetic::div_mod::lemma_fundamental_div_mod(q, p);
    vstd::arithmetic::div_mod::lemma_mod_division_less_than_divisor(q, p);
    assert((q / p) * p >= q - (p - 1)) by (nonlinear_arith)
        requires
            q == p * (q / p) + q % p,
            q % p <= p - 1,
    ;
    if abs(v - r) > q / p + 1 {
        assert(abs(v - r) >= q / p + 2);
        assert(abs(v - r) * p >= (q / p + 2) * p) by (nonlinear_arith)
            requires
                abs(v - r) >= q / p + 2,
                p >= 1,
        ;
        assert((q / p + 2) * p == (q / p) * p + 2 * p) by (nonlinear_arith);
        assert(abs(v - r) * p >= q - p + 1 + 2 * p);
        assert(false);
    }
}

/// Truncating (toward zero) division of wide intermediates, as the
/// barycentric interpolation uses.
pub fn div_trunc_i128(a: i128, b: i128) -> (r: i128)
    requires
        b != 0,
        a > i128::MIN,
        b > i128::MIN,
    ensures
        r as int == div_trunc(a as int, b as int),
{
    let neg: bool = (a < 0) != (b < 0);
    let ma: u128 = if a >= 0 {
        a as u128
    } else {
        (-a) as u128
    };
    let mb: u128 = if b >= 0 {
        b as u128
    } else {
        (-b) as u128
    };
    let q: u128 = ma / mb;
    proof {
        vstd::arithmetic::div_mod::lemma_div_nonincreasing(ma as int, mb as int);
    }
    if neg {
        -(q as i128)
    } else {
        q as i128
    }
}

/// Clamping into the symmetric range `[-m, m]`.
pub open spec fn clamp_spec(v: int, m: int) -> int {
    if v > m {
        m
    } else if v < -m {
        -m
    } else {
        v
    }
}

/// Clamp a wide intermediate value into `[-m, m]`.
pub fn clamp_i128(v: i128, m: i64) -> (r: i64)
    requires
        m > 0,
    ensures
        r as int == clamp_spec(v as int, m as int),
{
    if v > m as i128 {
        m
    } else if v < -(m as i128) {
        -m
    } else {
        v as i64
    }
}

/// A magnitude bound on the factors bounds a fixed-point product: the
/// product's magnitude is at most the bound rescaled by `FX_ONE`.
pub proof fn lemma_fx_mul_bound(a: int, b: int, m: int)
    requires
        abs(a) * abs(b) <= m,
    ensures
        abs(fx_mul_spec(a, b)) <= m / (FX_ONE as int),
{
    assert(abs(a * b) == abs(a) * abs(b)) by (nonlinear_arith);
    vstd::arithmetic::div_mod::lemma_div_is_ordered(
        abs(a * b) as int,
        m,
        FX_ONE as int,
    );
}

/// Magnitude of an `i64`, exact even for the minimum value.
fn abs_u128(a: i64) -> (r: u128)
    ensures
        r == abs(a as int),
{
    let w: i128 = a as i128;
    if w >= 0 {
        w as u128
    } else {
        (-w) as u128
    }
}

/// Reassemble a sign and a magnitude into a saturated scalar.
fn sat_from_parts(neg: bool, m: u128) -> (r: i64)
    ensures
        r as int == if neg {
            sat64(-(m as int))
        } else {
            sat64(m as int)
        },
{
    if m >= 0x7fff_ffff_ffff_ffffu128 {
        if neg {
            -0x7fff_ffff_ffff_ffffi64
        } else {
            0x7fff_ffff_ffff_ffffi64
        }
    } else {
        if neg {
            -(m as i64)
        } else {
            m as i64
        }
    }
}

/// Saturating addition.
pub fn fx_add(a: i64, b: i64) -> (r: i64)
    ensures
        r as int == fx_add_spec(a as int, b as int),
{
    let s: i128 = a as i128 + b as i128;
    if s > 0x7fff_ffff_ffff_ffffi128 {
        0x7fff_ffff_ffff_ffffi64
    } else if s < -0x7fff_ffff_ffff_ffffi128 {
        -0x7fff_ffff_ffff_ffffi64
    } else {
        s as i64
    }
}

/// Saturating subtraction.
pub fn fx_sub(a: i64, b: i64) -> (r: i64)
    ensures
        r as int == fx_sub_spec(a as int, b as int),
{
    let s: i128 = a as i128 - b as i128;
    if s > 0x7fff_ffff_ffff_ffffi128 {
        0x7fff_ffff_ffff_ffffi64
    } else if s < -0x7fff_ffff_ffff_ffffi128 {
        -0x7fff_ffff_ffff_ffffi64
    } else {
        s as i64
    }
}

/// Saturating fixed-point multiplication.
pub fn fx_mul(a: i64, b: i64) -> (r: i64)
    ensures
        r as int == fx_mul_spec(a as int, b as int),
{
    let neg: bool = (a < 0) != (b < 0);
    let ma: u128 = abs_u128(a);
    let mb: u128 = abs_u128(b);
    proof {
        lemma_abs_mul(a as int, b as int);
        assert(ma * mb <= 0x8000_0000_0000_0000u128 * 0x8000_0000_0000_0000u128)
            by (nonlinear_arith)
            requires
                ma <= 0x8000_0000_0000_0000u128,
                mb <= 0x8000_0000_0000_0000u128,
        ;
    }
    let q: u128 = (ma * mb) / 65536u128;
    proof {
        if a as int * b as int == 0 {
            assert(ma * mb == 0);
        }
    }
    sat_from_parts(neg, q)
}

/// Saturating fixed-point division, with the division-by-zero convention of
/// [`fx_div_spec`].
pub fn fx_div(a: i64, b: i64) -> (r: i64)
    ensures
        r as int == fx_div_spec(a as int, b as int),
{
    if b == 0 {
        if a > 0 {
            0x7fff_ffff_ffff_ffffi64
        } else if a < 0 {
            -0x7fff_ffff_ffff_ffffi64
        } else {
            0
        }
    } else {
        let neg: bool = (a < 0) != (b < 0);
        let ma: u128 = abs_u128(a);
        let mb: u128 = abs_u128(b);
        proof {
            lemma_abs_mul(a as int, FX_ONE as int);
            assert(abs(a as int * FX_ONE as int) == ma * 65536) by (nonlinear_arith)
                requires
                    abs(a as int * FX_ONE as int) == abs(a as int) * abs(FX_ONE as int),
                    ma == abs(a as int),
            ;
        }
        let q: u128 = (ma * 65536u128) / mb;
        proof {
            if a == 0 {
                assert(q == 0);
            }
        }
        sat_from_parts(neg, q)
    }
}

} // verus!
