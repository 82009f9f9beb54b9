use softrender::fixed::{fx_add, fx_sub, fx_mul, fx_div, FX_ONE, FX_MAX};
use softrender::vecmat::{V3, M4, m4_identity, m4_mul, m4_apply, m3_det, m3_inverse,
    m3_identity, M3, v3_cross, v3_dot};
use softrender::norm::{isqrt, dist_sq, v3_normalize};
use softrender::color::Color;

const F: i64 = 65536;

#[test]
fn fixed_multiplication_is_exact_and_truncating() {
    assert_eq!(fx_mul(3 * F, 2 * F), 6 * F);
    assert_eq!(fx_mul(-3 * F, 2 * F), -6 * F);
    // 1.5 * 1.5 = 2.25
    assert_eq!(fx_mul(3 * F / 2, 3 * F / 2), 9 * F / 4);
    // truncation toward zero: -0.5 * 0.00001526 (1 raw unit) -> 0
    assert_eq!(fx_mul(-F / 2, 1), 0);
    assert_eq!(fx_mul(F / 2, 1), 0);
}

#[test]
fn fixed_division_conventions() {
    assert_eq!(fx_div(6 * F, 2 * F), 3 * F);
    assert_eq!(fx_div(-6 * F, 2 * F), -3 * F);
    assert_eq!(fx_div(1 * F, 3 * F), 21845); // 65536/3 truncated
    // division by zero saturates with the numerator's sign
    assert_eq!(fx_div(5, 0), FX_MAX);
    assert_eq!(fx_div(-5, 0), -FX_MAX);
    assert_eq!(fx_div(0, 0), 0);
}

#[test]
fn fixed_addition_saturates() {
    assert_eq!(fx_add(FX_MAX, FX_MAX), FX_MAX);
    assert_eq!(fx_sub(-FX_MAX, FX_MAX), -FX_MAX);
    assert_eq!(fx_add(2 * F, 3 * F), 5 * F);
}

#[test]
fn integer_square_root_is_floor() {
    assert_eq!(isqrt(0), 0);
    assert_eq!(isqrt(1), 1);
    assert_eq!(isqrt(3), 1);
    assert_eq!(isqrt(4), 2);
    assert_eq!(isqrt(10), 3);
    assert_eq!(isqrt(999999), 999);
    assert_eq!(isqrt(1000000), 1000);
}

#[test]
fn squared_distance_is_exact() {
    let a = V3 { x: 3 * F, y: 4 * F, z: 0 };
    let o = V3 { x: 0, y: 0, z: 0 };
    let d2 = dist_sq(a, o);
    assert_eq!(d2, (3 * F as i128 * 3 * F as i128 + 4 * F as i128 * 4 * F as i128) as u128);
    assert_eq!(isqrt(d2), 5 * F as u64);
}

#[test]
fn normalize_rescales_to_unit_length() {
    let v = V3 { x: 3 * F, y: 4 * F, z: 0 };
    let u = v3_normalize(v);
    // 3/5 and 4/5 in fixed point, truncated
    assert_eq!(u.x, 3 * F / 5);
    assert_eq!(u.y, 4 * F / 5);
    assert_eq!(u.z, 0);
    // the zero vector stays zero
    let z = v3_normalize(V3 { x: 0, y: 0, z: 0 });
    assert_eq!(z, V3 { x: 0, y: 0, z: 0 });
}

#[test]
fn cross_and_dot_products() {
    let x = V3 { x: F, y: 0, z: 0 };
    let y = V3 { x: 0, y: F, z: 0 };
    assert_eq!(v3_cross(x, y), V3 { x: 0, y: 0, z: F });
    assert_eq!(v3_dot(x, y), 0);
    assert_eq!(v3_dot(x, x), F);
}

#[test]
fn matrix_identity_is_neutral() {
    let id = m4_identity();
    let m = M4 {
        m00: 2 * F, m01: 3, m02: -5, m03: 7 * F,
        m10: 0, m11: F, m12: 9, m13: -F,
        m20: 4, m21: -4, m22: F / 2, m23: 0,
        m30: 0, m31: 0, m32: 0, m33: F,
    };
    assert_eq!(m4_mul(&id, &m), m);
    assert_eq!(m4_mul(&m, &id), m);
    let v = softrender::vecmat::V4 { x: F, y: 2 * F, z: 3 * F, w: F };
    assert_eq!(m4_apply(&id, v), v);
}

#[test]
fn matrix_inverse_of_uniform_scale() {
    let s = M3 {
        m00: 2 * F, m01: 0, m02: 0,
        m10: 0, m11: 2 * F, m12: 0,
        m20: 0, m21: 0, m22: 2 * F,
    };
    assert_eq!(m3_det(&s), 8 * F);
    let inv = m3_inverse(&s);
    assert_eq!(inv.m00, F / 2);
    assert_eq!(inv.m11, F / 2);
    assert_eq!(inv.m22, F / 2);
    assert_eq!(inv.m01, 0);
}

#[test]
fn singular_matrix_inverse_falls_back_to_identity() {
    let z = M3 { m00: 0, m01: 0, m02: 0, m10: 0, m11: 0, m12: 0, m20: 0, m21: 0, m22: 0 };
    assert_eq!(m3_det(&z), 0);
    assert_eq!(m3_inverse(&z), m3_identity());
}

#[test]
fn color_packing_round_trips() {
    let c = Color::new(0x12, 0x34, 0x56);
    assert_eq!(c.to_hex(), 0x123456);
    assert_eq!(Color::from_hex(0x123456), c);
    assert_eq!(Color::from_hex(0xFFFFFF), Color::new(255, 255, 255));
}

#[test]
fn color_lerp_and_scale_are_exact() {
    let a = Color::new(0, 0, 0);
    let b = Color::new(255, 255, 255);
    assert_eq!(a.lerp(&b, 0), a);
    assert_eq!(a.lerp(&b, F), b);
    assert_eq!(a.lerp(&b, F / 2), Color::new(127, 127, 127));
    let c = Color::new(200, 100, 50);
    assert_eq!(c.scale(F), c);
    assert_eq!(c.scale(F / 2), Color::new(100, 50, 25));
    assert_eq!(c.scale(0), Color::new(0, 0, 0));
}

#[test]
fn color_additive_blend_saturates() {
    let a = Color::new(200, 10, 0);
    let b = Color::new(100, 20, 5);
    assert_eq!(a.blend_add(&b), Color::new(255, 30, 5));
}
