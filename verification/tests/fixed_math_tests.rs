//! Fixed-point arithmetic and trigonometry checks with exact expected
//! values.

use doom_engine::fixed::{fabs, fdiv, floor_div, fmul, fsqrt, isqrt, isqrt128};
use doom_engine::math::{
    angle, atan_fixed, clamp, cos_fixed, max, min, no_negative, normalize_degrees, sin_fixed,
    sin_half, Vector2, Vector3, Vector4,
};

#[test]
fn isqrt_exact_squares() {
    assert_eq!(isqrt(0), 0);
    assert_eq!(isqrt(1), 1);
    assert_eq!(isqrt(15), 3);
    assert_eq!(isqrt(16), 4);
    assert_eq!(isqrt(1 << 62), 1 << 31);
    assert_eq!(isqrt128(0), 0);
    assert_eq!(isqrt128(1 << 64), 1 << 32);
    assert_eq!(isqrt128((1 << 64) + 1), 1 << 32);
}

#[test]
fn fsqrt_fixed_values() {
    // sqrt(4.0) == 2.0 in 16.16 fixed point.
    assert_eq!(fsqrt(4 * 65536), 2 * 65536);
    assert_eq!(fsqrt(0), 0);
    // sqrt(2.0) is between 1.41 and 1.42.
    let r = fsqrt(2 * 65536);
    assert_eq!(r, 92681);
}

#[test]
fn fixed_mul_div_floor() {
    assert_eq!(fmul(2 * 65536, 3 * 65536), 6 * 65536);
    assert_eq!(fmul(-65536, 65536), -65536);
    // fmul floors toward negative infinity: -1 * 1/65536 gives -1 unit.
    assert_eq!(fmul(-65536, 1), -1);
    // fdiv scales up by 65536 before the division.
    assert_eq!(fdiv(65536, 2), 2147483648);
    assert_eq!(fdiv(-3 * 65536, 2), -6442450944);
    assert_eq!(floor_div(-7, 2), -4);
    assert_eq!(floor_div(7, 2), 3);
    assert_eq!(fabs(-5), 5);
    assert_eq!(fabs(5), 5);
}

#[test]
fn scalar_helpers() {
    assert_eq!(max(3, 9), 9);
    assert_eq!(min(3, 9), 3);
    assert_eq!(clamp(12, 0, 10), 10);
    assert_eq!(clamp(-2, 0, 10), 0);
    assert_eq!(clamp(5, 0, 10), 5);
    assert_eq!(no_negative(-7), 0);
    assert_eq!(no_negative(7), 7);
}

#[test]
fn sine_cosine_exact_points() {
    assert_eq!(sin_half(0), 0);
    assert_eq!(sin_half(90 * 65536), 65536);
    assert_eq!(sin_half(180 * 65536), 0);
    // The quadratic sine is exact at 30 degrees: one half.
    assert_eq!(sin_half(30 * 65536), 32768);
    assert_eq!(sin_fixed(270 * 65536), -65536);
    assert_eq!(cos_fixed(0), 65536);
    assert_eq!(cos_fixed(60 * 65536), 32768);
    assert_eq!(cos_fixed(180 * 65536), -65536);
}

#[test]
fn arc_tangent_exact_points() {
    assert_eq!(atan_fixed(0), 0);
    assert_eq!(atan_fixed(65536), 45 * 65536);
    assert_eq!(atan_fixed(-65536), -45 * 65536);
}

#[test]
fn normalize_degrees_wraps() {
    assert_eq!(normalize_degrees(0), 0);
    assert_eq!(normalize_degrees(360 * 65536), 0);
    assert_eq!(normalize_degrees(-65536), 359 * 65536);
    assert_eq!(normalize_degrees(725 * 65536), 5 * 65536);
}

#[test]
fn bearings_on_the_axes() {
    let o = Vector2 { x: 0i64, y: 0i64 };
    assert_eq!(angle(&o, &Vector2 { x: 65536, y: 0 }), 0);
    assert_eq!(angle(&o, &Vector2 { x: 0, y: 65536 }), 90 * 65536);
    assert_eq!(angle(&o, &Vector2 { x: -65536, y: 0 }), 180 * 65536);
    assert_eq!(angle(&o, &Vector2 { x: 0, y: -65536 }), 270 * 65536);
    assert_eq!(angle(&o, &Vector2 { x: 65536, y: 65536 }), 45 * 65536);
}

#[test]
fn vector_swizzles() {
    let v4 = Vector4 { x: 1, y: 2, z: 3, w: 4 };
    assert_eq!(v4.xy(), Vector2 { x: 1, y: 2 });
    assert_eq!(v4.zw(), Vector2 { x: 3, y: 4 });
    assert_eq!(v4.wx(), Vector2 { x: 4, y: 1 });
    assert_eq!(v4.xyz(), Vector3 { x: 1, y: 2, z: 3 });
    assert_eq!(v4.zyw(), Vector3 { x: 3, y: 2, z: 4 });
    let v3 = Vector3 { x: 7, y: 8, z: 9 };
    assert_eq!(v3.zx(), Vector2 { x: 9, y: 7 });
    assert_eq!(Vector3::new_vec2_z(&Vector2 { x: 1, y: 2 }, 3), Vector3 { x: 1, y: 2, z: 3 });
    let v2 = Vector2::new(5, 6);
    assert_eq!(v2.yx(), Vector2 { x: 6, y: 5 });
    assert_eq!(Vector2::<i64>::zeros(), Vector2 { x: 0, y: 0 });
    assert_eq!(Vector3::<i64>::new_y(4).y, 4);
    assert_eq!(Vector4::<i64>::new_w(4).w, 4);
}
