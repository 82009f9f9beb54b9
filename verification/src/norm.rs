//! Squared distances and integer square roots.
//!
//! Vector lengths are handled through exact squared distances (`u128`) and
//! the floor square root, so that clamping guarantees such as the camera's
//! minimum zoom distance can be stated and proved without real arithmetic.

use vstd::prelude::*;
use vstd::arithmetic::div_mod::{lemma_fundamental_div_mod, lemma_fundamental_div_mod_converse};
use vstd::math::abs;
use crate::vecmat::V3;
use crate::fixed::{fx_div, fx_div_spec, FX_ONE};

verus! {

/// Quotient of `a / b` rounded up (for nonnegative `a` and positive `b`).
pub open spec fn ceil_div(a: int, b: int) -> int {
    (a + b - 1) / b
}

/// A vector offset component rescaled by the ratio `nd / d`, rounding its
/// magnitude up, so that scaling can only keep or grow a vector's length.
pub open spec fn scaled_coord(off: int, nd: int, d: int) -> int {
    if off >= 0 {
        ceil_div(off * nd, d)
    } else {
        -ceil_div((-off) * nd, d)
    }
}

/// Componentwise magnitude bound on a fixed-point vector.
pub open spec fn v3_bounded(v: V3, m: int) -> bool {
    &&& -m <= v.x <= m
    &&& -m <= v.y <= m
    &&& -m <= v.z <= m
}

/// Exact squared euclidean distance between two fixed-point points, in
/// squared raw units (no rescaling, no rounding).
pub open spec fn dist_sq_spec(a: V3, b: V3) -> int {
    (a.x - b.x) * (a.x - b.x) + (a.y - b.y) * (a.y - b.y) + (a.z - b.z) * (a.z - b.z)
}

/// The floor of the real square root of `n`.
pub open spec fn sqrt_floor(n: int) -> int {
    choose|r: int| 0 <= r && #[trigger] (r * r) <= n && n < (r + 1) * (r + 1)
}

/// The floor square root is the unique `r` with `r*r <= n < (r+1)*(r+1)`.
pub proof fn lemma_sqrt_floor_unique(n: int, r: int)
    by (nonlinear_arith)
    requires
        0 <= r,
        r * r <= n,
        n < (r + 1) * (r + 1),
    ensures
        sqrt_floor(n) == r,
{
    assert(0 <= r && r * r <= n && n < (r + 1) * (r + 1));
    let s = sqrt_floor(n);
    assert(0 <= s && s * s <= n && n < (s + 1) * (s + 1));
}

/// Exact squared distance. The magnitude bound keeps the three squared
/// differences summable within `u128`.
pub fn dist_sq(a: V3, b: V3) -> (r: u128)
    requires
        v3_bounded(a, 0x4000_0000_0000_0000),
        v3_bounded(b, 0x4000_0000_0000_0000),
    ensures
        r as int == dist_sq_spec(a, b),
{
    let dx: i128 = a.x as i128 - b.x as i128;
    let dy: i128 = a.y as i128 - b.y as i128;
    let dz: i128 = a.z as i128 - b.z as i128;
    proof {
        assert(dx * dx <= 0x8000_0000_0000_0000 * 0x8000_0000_0000_0000) by (nonlinear_arith)
            requires
                -0x8000_0000_0000_0000 <= dx <= 0x8000_0000_0000_0000,
        ;
        assert(dy * dy <= 0x8000_0000_0000_0000 * 0x8000_0000_0000_0000) by (nonlinear_arith)
            requires
                -0x8000_0000_0000_0000 <= dy <= 0x8000_0000_0000_0000,
        ;
        assert(dz * dz <= 0x8000_0000_0000_0000 * 0x8000_0000_0000_0000) by (nonlinear_arith)
            requires
                -0x8000_0000_0000_0000 <= dz <= 0x8000_0000_0000_0000,
        ;
        assert(dx * dx >= 0) by (nonlinear_arith);
        assert(dy * dy >= 0) by (nonlinear_arith);
        assert(dz * dz >= 0) by (nonlinear_arith);
    }
    let sx: u128 = (dx * dx) as u128;
    let sy: u128 = (dy * dy) as u128;
    let sz: u128 = (dz * dz) as u128;
    sx + sy + sz
}

/// Floor square root of a `u128`, by binary search.
pub fn isqrt(n: u128) -> (r: u64)
    ensures
        (r as int) * (r as int) <= n,
        n < (r as int + 1) * (r as int + 1),
        r as int == sqrt_floor(n as int),
{
    let mut lo: u128 = 0;
    let mut hi: u128 = 0x1_0000_0000_0000_0000;
    proof {
        assert((0x1_0000_0000_0000_0000 as int) * (0x1_0000_0000_0000_0000 as int) > n as int);
    }
    while lo + 1 < hi
        invariant
            0 <= lo < hi <= 0x1_0000_0000_0000_0000,
            (lo as int) * (lo as int) <= n as int,
            (n as int) < (hi as int) * (hi as int),
        decreases hi - lo,
    {
        let mid: u128 = lo + (hi - lo) / 2;
        proof {
            assert(mid < hi);
            assert(mid * mid < 0x1_0000_0000_0000_0000u128 * 0x1_0000_0000_0000_0000u128)
                by (nonlinear_arith)
                requires
                    0 <= mid < 0x1_0000_0000_0000_0000u128,
            ;
        }
        if mid * mid <= n {
            lo = mid;
        } else {
            hi = mid;
        }
    }
    proof {
        lemma_sqrt_floor_unique(n as int, lo as int);
    }
    lo as u64
}

/// Ceiling of `(m * nd) / d`: the rounding-away scaling used to push a point
/// out to a required distance. The result, times `d`, is at least `m * nd`,
/// and when `m <= d` the result does not exceed `nd`.
pub fn scale_ceil(m: u128, nd: u128, d: u128) -> (q: u128)
    requires
        d >= 1,
        m <= 0xffff_ffff_ffff_ffff,
        nd <= 0xffff_ffff_ffff_ffff,
        d <= 0xffff_ffff_ffff_ffff,
    ensures
        q as int == ceil_div((m * nd) as int, d as int),
        q * d >= m * nd,
        q * d < m * nd + d,
        m <= d ==> q <= nd,
{
    proof {
        assert(m * nd <= 0xffff_ffff_ffff_ffffu128 * 0xffff_ffff_ffff_ffffu128)
            by (nonlinear_arith)
            requires
                m <= 0xffff_ffff_ffff_ffffu128,
                nd <= 0xffff_ffff_ffff_ffffu128,
        ;
    }
    let t: u128 = m * nd + (d - 1);
    let q: u128 = t / d;
    proof {
        lemma_fundamental_div_mod(t as int, d as int);
        assert(q * d == t - (t as int % d as int)) by (nonlinear_arith)
            requires
                t as int == (d as int) * (t as int / d as int) + (t as int % d as int),
                q == t as int / d as int,
        ;
        if m <= d {
            assert(m * nd <= d * nd) by (nonlinear_arith)
                requires
                    0 <= m <= d,
                    0 <= nd,
            ;
            lemma_fundamental_div_mod_converse(
                (d * nd + (d - 1)) as int,
                d as int,
                nd as int,
                (d - 1) as int,
            );
            assert((d * nd + (d - 1)) as int / (d as int) == nd);
            vstd::arithmetic::div_mod::lemma_div_is_ordered(
                t as int,
                (d * nd + (d - 1)) as int,
                d as int,
            );
        }
    }
    q
}

/// The floor length of a vector, in raw units.
pub open spec fn v3_len_spec(v: V3) -> int {
    sqrt_floor(dist_sq_spec(v, V3 { x: 0i64, y: 0i64, z: 0i64 }))
}

/// A vector rescaled to (approximately) unit fixed-point length: each
/// component divided by the floor length. The zero vector has no direction
/// and stays zero — the safe default for degenerate geometry.
pub open spec fn v3_normalize_spec(v: V3) -> V3 {
    let l = v3_len_spec(v);
    if l == 0 {
        V3 { x: 0i64, y: 0i64, z: 0i64 }
    } else {
        V3 {
            x: fx_div_spec(v.x as int, l) as i64,
            y: fx_div_spec(v.y as int, l) as i64,
            z: fx_div_spec(v.z as int, l) as i64,
        }
    }
}

/// Each component of a vector is at most its length, so dividing by the
/// floor length leaves at most one fixed-point unit.
proof fn lemma_unit_component(a: int, l: int)
    requires
        l >= 1,
        abs(a) <= l,
    ensures
        -(FX_ONE as int) <= fx_div_spec(a, l) <= FX_ONE as int,
{
    assert(abs(a) * (FX_ONE as int) <= l * (FX_ONE as int)) by (nonlinear_arith)
        requires
            0 <= abs(a) <= l,
    ;
    vstd::arithmetic::div_mod::lemma_div_is_ordered(
        abs(a) * (FX_ONE as int),
        l * (FX_ONE as int),
        l,
    );
    vstd::arithmetic::div_mod::lemma_div_multiples_vanish(FX_ONE as int, l);
    assert((l * (FX_ONE as int)) / l == FX_ONE as int);
    assert(abs(a * (FX_ONE as int)) == abs(a) * (FX_ONE as int)) by (nonlinear_arith);
    assert(abs(l) == l);
}

/// Rescale a vector to unit fixed-point length (zero stays zero). Every
/// component of the result stays within one fixed-point unit.
pub fn v3_normalize(v: V3) -> (r: V3)
    requires
        v3_bounded(v, 0x2000_0000_0000_0000),
    ensures
        r == v3_normalize_spec(v),
        v3_bounded(r, FX_ONE as int),
{
    let d2: u128 = dist_sq(v, V3 { x: 0, y: 0, z: 0 });
    let l: u64 = isqrt(d2);
    if l == 0 {
        V3 { x: 0, y: 0, z: 0 }
    } else {
        proof {
            assert((v.x - 0) * (v.x - 0) == v.x * v.x) by (nonlinear_arith);
            assert((v.y - 0) * (v.y - 0) == v.y * v.y) by (nonlinear_arith);
            assert((v.z - 0) * (v.z - 0) == v.z * v.z) by (nonlinear_arith);
            assert(v.x * v.x >= 0) by (nonlinear_arith);
            assert(v.y * v.y >= 0) by (nonlinear_arith);
            assert(v.z * v.z >= 0) by (nonlinear_arith);
            assert(v.x * v.x <= 0x2000_0000_0000_0000 * 0x2000_0000_0000_0000)
                by (nonlinear_arith)
                requires
                    -0x2000_0000_0000_0000 <= v.x <= 0x2000_0000_0000_0000,
            ;
            assert(v.y * v.y <= 0x2000_0000_0000_0000 * 0x2000_0000_0000_0000)
                by (nonlinear_arith)
                requires
                    -0x2000_0000_0000_0000 <= v.y <= 0x2000_0000_0000_0000,
            ;
            assert(v.z * v.z <= 0x2000_0000_0000_0000 * 0x2000_0000_0000_0000)
                by (nonlinear_arith)
                requires
                    -0x2000_0000_0000_0000 <= v.z <= 0x2000_0000_0000_0000,
            ;
            assert(l < 0x4000_0000_0000_0000u64) by (nonlinear_arith)
                requires
                    (l as int) * (l as int) <= d2,
                    d2 < 0x1000_0000_0000_0000_0000_0000_0000_0000u128,
                    l >= 0,
            ;
            assert(abs(v.x as int) <= l as int) by (nonlinear_arith)
                requires
                    v.x * v.x <= d2,
                    (l as int) * (l as int) <= d2,
                    d2 < (l as int + 1) * (l as int + 1),
                    l >= 0,
            ;
            assert(abs(v.y as int) <= l as int) by (nonlinear_arith)
                requires
                    v.y * v.y <= d2,
                    (l as int) * (l as int) <= d2,
                    d2 < (l as int + 1) * (l as int + 1),
                    l >= 0,
            ;
            assert(abs(v.z as int) <= l as int) by (nonlinear_arith)
                requires
                    v.z * v.z <= d2,
                    (l as int) * (l as int) <= d2,
                    d2 < (l as int + 1) * (l as int + 1),
                    l >= 0,
            ;
            lemma_unit_component(v.x as int, l as int);
            lemma_unit_component(v.y as int, l as int);
            lemma_unit_component(v.z as int, l as int);
        }
        V3 { x: fx_div(v.x, l as i64), y: fx_div(v.y, l as i64), z: fx_div(v.z, l as i64) }
    }
}

/// The distance guarantee behind zoom clamping and collision avoidance:
/// if each rescaled offset component `q_i` satisfies `q_i * d >= m_i * nd`
/// (rounding away from zero), and `d` is at most the true length of
/// `(m1, m2, m3)`, then the rescaled vector is at least `nd` long.
proof fn lemma_sq_mono(a: int, b: int)
    by (nonlinear_arith)
    requires
        0 <= a <= b,
    ensures
        a * a <= b * b,
{
}

proof fn lemma_sq_of_mul(a: int, b: int)
    by (nonlinear_arith)
    ensures
        (a * b) * (a * b) == (a * a) * (b * b),
{
}

pub proof fn lemma_rescaled_length(
    m1: int, m2: int, m3: int, q1: int, q2: int, q3: int, nd: int, d: int, d2: int,
)
    requires
        d >= 1,
        nd >= 0,
        m1 >= 0,
        m2 >= 0,
        m3 >= 0,
        q1 >= 0,
        q2 >= 0,
        q3 >= 0,
        q1 * d >= m1 * nd,
        q2 * d >= m2 * nd,
        q3 * d >= m3 * nd,
        d2 == m1 * m1 + m2 * m2 + m3 * m3,
        d * d <= d2,
    ensures
        q1 * q1 + q2 * q2 + q3 * q3 >= nd * nd,
{
    assert(m1 * nd >= 0) by (nonlinear_arith)
        requires
            m1 >= 0 && nd >= 0,
    ;
    assert(m2 * nd >= 0) by (nonlinear_arith)
        requires
            m2 >= 0 && nd >= 0,
    ;
    assert(m3 * nd >= 0) by (nonlinear_arith)
        requires
            m3 >= 0 && nd >= 0,
    ;
    lemma_sq_mono(m1 * nd, q1 * d);
    lemma_sq_mono(m2 * nd, q2 * d);
    lemma_sq_mono(m3 * nd, q3 * d);
    lemma_sq_of_mul(q1, d);
    lemma_sq_of_mul(q2, d);
    lemma_sq_of_mul(q3, d);
    lemma_sq_of_mul(m1, nd);
    lemma_sq_of_mul(m2, nd);
    lemma_sq_of_mul(m3, nd);
    assert((q1 * q1) * (d * d) + (q2 * q2) * (d * d) + (q3 * q3) * (d * d)
        >= (m1 * m1) * (nd * nd) + (m2 * m2) * (nd * nd) + (m3 * m3) * (nd * nd));
    assert((q1 * q1 + q2 * q2 + q3 * q3) * (d * d)
        == (q1 * q1) * (d * d) + (q2 * q2) * (d * d) + (q3 * q3) * (d * d)) by (nonlinear_arith);
    assert((m1 * m1 + m2 * m2 + m3 * m3) * (nd * nd)
        == (m1 * m1) * (nd * nd) + (m2 * m2) * (nd * nd) + (m3 * m3) * (nd * nd))
        by (nonlinear_arith);
    assert(d2 * (nd * nd) >= (d * d) * (nd * nd)) by (nonlinear_arith)
        requires
            d * d <= d2,
            nd * nd >= 0,
    ;
    assert(d * d >= 1) by (nonlinear_arith)
        requires
            d >= 1,
    ;
    assert(q1 * q1 + q2 * q2 + q3 * q3 >= nd * nd) by (nonlinear_arith)
        requires
            (q1 * q1 + q2 * q2 + q3 * q3) * (d * d) >= (nd * nd) * (d * d),
            d * d >= 1,
    ;
}

} // verus!
