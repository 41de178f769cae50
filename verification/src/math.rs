//! Small vector types used throughout the engine, together with the scalar
//! helpers (`min`, `max`, `clamp`) the renderer and collision code lean on.
//!
//! The component type is generic where only data movement happens
//! (constructors and swizzles); arithmetic is provided on the concrete
//! integer instantiations the engine actually computes with.

use vstd::prelude::*;

verus! {

#[derive(Clone, Copy, Debug, PartialEq, Eq, Structural)]
pub struct Vector2<T> {
    pub x: T,
    pub y: T,
}

#[derive(Clone, Copy, Debug, PartialEq, Eq, Structural)]
pub struct Vector3<T> {
    pub x: T,
    pub y: T,
    pub z: T,
}

#[derive(Clone, Copy, Debug, PartialEq, Eq, Structural)]
pub struct Vector4<T> {
    pub x: T,
    pub y: T,
    pub z: T,
    pub w: T,
}

impl<T: Copy> Vector2<T> {
    pub fn new(x: T, y: T) -> (r: Self)
        ensures
            r == (Vector2 { x, y }),
    {
        Vector2 { x, y }
    }

    pub fn yx(&self) -> (r: Vector2<T>)
        ensures
            r == (Vector2 { x: self.y, y: self.x }),
    {
        Vector2 { x: self.y, y: self.x }
    }
}

impl<T: Copy + Default> Vector2<T> {
    pub fn new_x(x: T) -> (r: Self)
        ensures
            r.x == x,
    {
        Vector2 { x, y: T::default() }
    }

    pub fn new_y(y: T) -> (r: Self)
        ensures
            r.y == y,
    {
        Vector2 { x: T::default(), y }
    }

    pub fn zeros() -> Self {
        Vector2 { x: T::default(), y: T::default() }
    }
}

impl<T: Copy> Vector3<T> {
    pub fn new(x: T, y: T, z: T) -> (r: Self)
        ensures
            r == (Vector3 { x, y, z }),
    {
        Vector3 { x, y, z }
    }

    pub fn new_vec2_z(xy: &Vector2<T>, z: T) -> (r: Self)
        ensures
            r == (Vector3 { x: xy.x, y: xy.y, z }),
    {
        Vector3 { x: xy.x, y: xy.y, z }
    }

    pub fn xy(&self) -> (r: Vector2<T>)
        ensures
            r == (Vector2 { x: self.x, y: self.y }),
    {
        Vector2 { x: self.x, y: self.y }
    }

    pub fn xz(&self) -> (r: Vector2<T>)
        ensures
            r == (Vector2 { x: self.x, y: self.z }),
    {
        Vector2 { x: self.x, y: self.z }
    }

    pub fn yx(&self) -> (r: Vector2<T>)
        ensures
            r == (Vector2 { x: self.y, y: self.x }),
    {
        Vector2 { x: self.y, y: self.x }
    }

    pub fn yz(&self) -> (r: Vector2<T>)
        ensures
            r == (Vector2 { x: self.y, y: self.z }),
    {
        Vector2 { x: self.y, y: self.z }
    }

    pub fn zx(&self) -> (r: Vector2<T>)
        ensures
            r == (Vector2 { x: self.z, y: self.x }),
    {
        Vector2 { x: self.z, y: self.x }
    }

    pub fn zy(&self) -> (r: Vector2<T>)
        ensures
            r == (Vector2 { x: self.z, y: self.y }),
    {
        Vector2 { x: self.z, y: self.y }
    }
}

impl<T: Copy + Default> Vector3<T> {
    pub fn new_x(x: T) -> (r: Self)
        ensures
            r.x == x,
    {
        Vector3 { x, y: T::default(), z: T::default() }
    }

    pub fn new_y(y: T) -> (r: Self)
        ensures
            r.y == y,
    {
        Vector3 { x: T::default(), y, z: T::default() }
    }

    pub fn new_z(z: T) -> (r: Self)
        ensures
            r.z == z,
    {
        Vector3 { x: T::default(), y: T::default(), z }
    }

    pub fn zeros() -> Self {
        Vector3 { x: T::default(), y: T::default(), z: T::default() }
    }
}

impl<T: Copy> Vector4<T> {
    pub fn new(x: T, y: T, z: T, w: T) -> (r: Self)
        ensures
            r == (Vector4 { x, y, z, w }),
    {
        Vector4 { x, y, z, w }
    }

    pub fn new_vec2_zw(xy: &Vector2<T>, z: T, w: T) -> (r: Self)
        ensures
            r == (Vector4 { x: xy.x, y: xy.y, z, w }),
    {
        Vector4 { x: xy.x, y: xy.y, z, w }
    }

    pub fn new_vec3_w(xyz: &Vector3<T>, w: T) -> (r: Self)
        ensures
            r == (Vector4 { x: xyz.x, y: xyz.y, z: xyz.z, w }),
    {
        Vector4 { x: xyz.x, y: xyz.y, z: xyz.z, w }
    }

    pub fn xy(&self) -> (r: Vector2<T>)
        ensures
            r == (Vector2 { x: self.x, y: self.y }),
    {
        Vector2 { x: self.x, y: self.y }
    }

    pub fn xz(&self) -> (r: Vector2<T>)
        ensures
            r == (Vector2 { x: self.x, y: self.z }),
    {
        Vector2 { x: self.x, y: self.z }
    }

    pub fn yx(&self) -> (r: Vector2<T>)
        ensures
            r == (Vector2 { x: self.y, y: self.x }),
    {
        Vector2 { x: self.y, y: self.x }
    }

    pub fn yz(&self) -> (r: Vector2<T>)
        ensures
            r == (Vector2 { x: self.y, y: self.z }),
    {
        Vector2 { x: self.y, y: self.z }
    }

    pub fn zx(&self) -> (r: Vector2<T>)
        ensures
            r == (Vector2 { x: self.z, y: self.x }),
    {
        Vector2 { x: self.z, y: self.x }
    }

    pub fn zy(&self) -> (r: Vector2<T>)
        ensures
            r == (Vector2 { x: self.z, y: self.y }),
    {
        Vector2 { x: self.z, y: self.y }
    }

    pub fn xw(&self) -> (r: Vector2<T>)
        ensures
            r == (Vector2 { x: self.x, y: self.w }),
    {
        Vector2 { x: self.x, y: self.w }
    }

    pub fn yw(&self) -> (r: Vector2<T>)
        ensures
            r == (Vector2 { x: self.y, y: self.w }),
    {
        Vector2 { x: self.y, y: self.w }
    }

    pub fn zw(&self) -> (r: Vector2<T>)
        ensures
            r == (Vector2 { x: self.z, y: self.w }),
    {
        Vector2 { x: self.z, y: self.w }
    }

    pub fn wx(&self) -> (r: Vector2<T>)
        ensures
            r == (Vector2 { x: self.w, y: self.x }),
    {
        Vector2 { x: self.w, y: self.x }
    }

    pub fn wy(&self) -> (r: Vector2<T>)
        ensures
            r == (Vector2 { x: self.w, y: self.y }),
    {
        Vector2 { x: self.w, y: self.y }
    }

    pub fn wz(&self) -> (r: Vector2<T>)
        ensures
            r == (Vector2 { x: self.w, y: self.z }),
    {
        Vector2 { x: self.w, y: self.z }
    }

    pub fn xyz(&self) -> (r: Vector3<T>)
        ensures
            r == (Vector3 { x: self.x, y: self.y, z: self.z }),
    {
        Vector3 { x: self.x, y: self.y, z: self.z }
    }

    pub fn xyw(&self) -> (r: Vector3<T>)
        ensures
            r == (Vector3 { x: self.x, y: self.y, z: self.w }),
    {
        Vector3 { x: self.x, y: self.y, z: self.w }
    }

    pub fn xzw(&self) -> (r: Vector3<T>)
        ensures
            r == (Vector3 { x: self.x, y: self.z, z: self.w }),
    {
        Vector3 { x: self.x, y: self.z, z: self.w }
    }

    pub fn yxw(&self) -> (r: Vector3<T>)
        ensures
            r == (Vector3 { x: self.y, y: self.x, z: self.w }),
    {
        Vector3 { x: self.y, y: self.x, z: self.w }
    }

    pub fn yzw(&self) -> (r: Vector3<T>)
        ensures
            r == (Vector3 { x: self.y, y: self.z, z: self.w }),
    {
        Vector3 { x: self.y, y: self.z, z: self.w }
    }

    pub fn zxy(&self) -> (r: Vector3<T>)
        ensures
            r == (Vector3 { x: self.z, y: self.x, z: self.y }),
    {
        Vector3 { x: self.z, y: self.x, z: self.y }
    }

    pub fn zyw(&self) -> (r: Vector3<T>)
        ensures
            r == (Vector3 { x: self.z, y: self.y, z: self.w }),
    {
        Vector3 { x: self.z, y: self.y, z: self.w }
    }

    pub fn wxz(&self) -> (r: Vector3<T>)
        ensures
            r == (Vector3 { x: self.w, y: self.x, z: self.z }),
    {
        Vector3 { x: self.w, y: self.x, z: self.z }
    }

    pub fn wyz(&self) -> (r: Vector3<T>)
        ensures
            r == (Vector3 { x: self.w, y: self.y, z: self.z }),
    {
        Vector3 { x: self.w, y: self.y, z: self.z }
    }
}

impl<T: Copy + Default> Vector4<T> {
    pub fn new_x(x: T) -> (r: Self)
        ensures
            r.x == x,
    {
        Vector4 { x, y: T::default(), z: T::default(), w: T::default() }
    }

    pub fn new_y(y: T) -> (r: Self)
        ensures
            r.y == y,
    {
        Vector4 { x: T::default(), y, z: T::default(), w: T::default() }
    }

    pub fn new_z(z: T) -> (r: Self)
        ensures
            r.z == z,
    {
        Vector4 { x: T::default(), y: T::default(), z, w: T::default() }
    }

    pub fn new_w(w: T) -> (r: Self)
        ensures
            r.w == w,
    {
        Vector4 { x: T::default(), y: T::default(), z: T::default(), w }
    }

    pub fn zeros() -> Self {
        Vector4 { x: T::default(), y: T::default(), z: T::default(), w: T::default() }
    }
}

/// Largest of two 64-bit values.
pub fn max(value1: i64, value2: i64) -> (r: i64)
    ensures
        r == if value1 < value2 { value2 } else { value1 },
        r >= value1 && r >= value2,
{
    if value1 < value2 {
        value2
    } else {
        value1
    }
}

/// Smallest of two 64-bit values.
pub fn min(value1: i64, value2: i64) -> (r: i64)
    ensures
        r == if value2 < value1 { value2 } else { value1 },
        r <= value1 && r <= value2,
{
    if value2 < value1 {
        value2
    } else {
        value1
    }
}

/// Restricts `value` to the closed interval from `low` to `high`.
pub fn clamp(value: i64, low: i64, high: i64) -> (r: i64)
    requires
        low <= high,
    ensures
        r == if value < low { low } else if value > high { high } else { value },
        low <= r <= high,
{
    if value < low {
        low
    } else if value > high {
        high
    } else {
        value
    }
}

/// Replaces a negative value by zero.
pub fn no_negative(value: i64) -> (r: i64)
    ensures
        r == if value < 0 { 0i64 } else { value },
{
    if value < 0 {
        0
    } else {
        value
    }
}

/// A full turn, half turn and quarter turn in 16.16 fixed-point degrees.
pub const TURN: i64 = 23592960;

/// Half a turn in fixed-point degrees.
pub const HALF_TURN: i64 = 11796480;

/// A quarter turn in fixed-point degrees.
pub const QUARTER_TURN: i64 = 5898240;

/// An angle wrapped into [0, 360) degrees, in fixed point: the
/// mathematical remainder modulo a full turn.
pub open spec fn spec_normalize_degrees(angle: int) -> int {
    angle % 23592960
}

/// Wraps an angle into [0, 360) fixed-point degrees.
pub fn normalize_degrees(angle: i64) -> (r: i64)
    requires
        angle > i64::MIN,
    ensures
        r == spec_normalize_degrees(angle as int),
        0 <= r < TURN,
{
    let m: i64 = TURN;
    if angle >= 0 {
        angle % m
    } else {
        let neg = (-angle) % m;
        proof {
            vstd::arithmetic::div_mod::lemma_fundamental_div_mod(-(angle as int), m as int);
            vstd::arithmetic::div_mod::lemma_mod_bound(-(angle as int), m as int);
            let q = -(angle as int) / m as int;
            if neg == 0 {
                vstd::arithmetic::div_mod::lemma_fundamental_div_mod_converse(
                    angle as int,
                    m as int,
                    -q,
                    0,
                );
                assert(angle as int == (-q) * m + 0) by (nonlinear_arith)
                    requires
                        -(angle as int) == m * q + neg && neg == 0,
                ;
            } else {
                assert(angle as int == (-q - 1) * m + (m - neg)) by (nonlinear_arith)
                    requires
                        -(angle as int) == m * q + neg,
                ;
                vstd::arithmetic::div_mod::lemma_fundamental_div_mod_converse(
                    angle as int,
                    m as int,
                    -q - 1,
                    m - neg,
                );
            }
        }
        if neg == 0 {
            0
        } else {
            m - neg
        }
    }
}

/// The sine of an angle in [0, 180] degrees, by the quadratic rational
/// approximation `4u / (40500 - u)` with `u = a(180 - a)`, carried out
/// in fixed point.  It is exact at 0, 90 and 180 degrees.
pub open spec fn spec_sin_half(a: int) -> int {
    let u = (a * (11796480 - a)) / 65536;
    (4 * u * 65536) / (2654208000 - u)
}

/// The sine over the full turn: the second half is the first negated.
pub open spec fn spec_sin(a: int) -> int {
    if a <= 11796480 {
        spec_sin_half(a)
    } else {
        -spec_sin_half(a - 11796480)
    }
}

/// The cosine over the full turn: the sine a quarter turn ahead.
pub open spec fn spec_cos(a: int) -> int {
    if a + 5898240 < 23592960 {
        spec_sin(a + 5898240)
    } else {
        spec_sin(a + 5898240 - 23592960)
    }
}

/// The sine of an angle in [0, 180] fixed-point degrees.
pub fn sin_half(a: i64) -> (r: i64)
    requires
        0 <= a <= HALF_TURN,
    ensures
        r == spec_sin_half(a as int),
        0 <= r <= 65536,
        a == 0 ==> r == 0,
        a == QUARTER_TURN ==> r == 65536,
        65536 <= a <= HALF_TURN - 65536 ==> r >= 1024,
{
    proof {
        assert(0 <= a * (11796480 - a) && a * (11796480 - a) <= 5898240 * 5898240)
            by (nonlinear_arith)
            requires
                0 <= a <= 11796480,
        ;
    }
    let u = (a * (11796480 - a)) / 65536;
    proof {
        vstd::arithmetic::div_mod::lemma_div_is_ordered(0, a as int * (11796480 - a), 65536);
        vstd::arithmetic::div_mod::lemma_div_is_ordered(
            a as int * (11796480 - a),
            5898240int * 5898240,
            65536,
        );
        assert(u <= 530841600);
        assert(4 * u * 65536 <= 65536 * (2654208000 - u)) by (nonlinear_arith)
            requires
                0 <= u <= 530841600,
        ;
        vstd::arithmetic::div_mod::lemma_div_is_ordered(
            4 * u as int * 65536,
            65536 * (2654208000 - u as int),
            2654208000 - u as int,
        );
        vstd::arithmetic::div_mod::lemma_div_multiples_vanish(65536, 2654208000 - u as int);
        assert(65536 * (2654208000 - u as int) == (2654208000 - u as int) * 65536)
            by (nonlinear_arith);
        if 65536 <= a && a <= HALF_TURN - 65536 {
            // Away from the ends the sine stays clearly positive.
            assert(a * (11796480 - a) >= 65536 * (11796480 - 65536)) by (nonlinear_arith)
                requires
                    65536 <= a <= 11796480 - 65536,
            ;
            vstd::arithmetic::div_mod::lemma_div_is_ordered(
                65536 * (11796480 - 65536),
                a as int * (11796480 - a),
                65536,
            );
            vstd::arithmetic::div_mod::lemma_div_multiples_vanish(11730944, 65536);
            assert(65536int * (11796480 - 65536) == 65536 * 11730944);
            assert(u >= 11730944);
            assert(4 * u * 65536 >= 1024 * (2654208000 - u)) by (nonlinear_arith)
                requires
                    11730944 <= u <= 530841600,
            ;
            vstd::arithmetic::div_mod::lemma_div_is_ordered(
                1024 * (2654208000 - u as int),
                4 * u as int * 65536,
                2654208000 - u as int,
            );
            vstd::arithmetic::div_mod::lemma_div_multiples_vanish(1024, 2654208000 - u as int);
            assert(1024 * (2654208000 - u as int) == (2654208000 - u as int) * 1024)
                by (nonlinear_arith);
        }
    }
    let num = 4 * u * 65536;
    let den = 2654208000 - u;
    num / den
}

/// The sine of an angle in [0, 360] fixed-point degrees.
pub fn sin_fixed(a: i64) -> (r: i64)
    requires
        0 <= a <= TURN,
    ensures
        r == spec_sin(a as int),
        -65536 <= r <= 65536,
{
    if a <= HALF_TURN {
        sin_half(a)
    } else {
        -sin_half(a - HALF_TURN)
    }
}

/// The cosine of an angle in [0, 360) fixed-point degrees.
pub fn cos_fixed(a: i64) -> (r: i64)
    requires
        0 <= a < TURN,
    ensures
        r == spec_cos(a as int),
        -65536 <= r <= 65536,
{
    let b = a + QUARTER_TURN;
    if b < TURN {
        sin_fixed(b)
    } else {
        sin_fixed(b - TURN)
    }
}

/// The arc tangent of a ratio in [0, 1], in fixed-point degrees: the
/// quadratic approximation `45 z + 15.642 z (1 - z)`, exact at 0 and 1.
pub open spec fn spec_atan_unit(z: int) -> int {
    (z * 2949120) / 65536 + (1025114 * ((z * (65536 - z)) / 65536)) / 65536
}

/// The arc tangent of any non-negative fixed-point ratio, in degrees:
/// ratios above one go through the complementary angle.
pub open spec fn spec_atan_nonneg(t: int) -> int {
    if t <= 65536 {
        spec_atan_unit(t)
    } else {
        5898240 - spec_atan_unit((65536int * 65536) / t)
    }
}

/// The signed arc tangent of a fixed-point ratio, in degrees.
pub open spec fn spec_atan(t: int) -> int {
    if t >= 0 {
        spec_atan_nonneg(t)
    } else {
        -spec_atan_nonneg(-t)
    }
}

/// The arc tangent of a ratio in [0, 1].
pub fn atan_unit(z: i64) -> (r: i64)
    requires
        0 <= z <= 65536,
    ensures
        r == spec_atan_unit(z as int),
        0 <= r <= 3211264,
{
    proof {
        assert(0 <= z * 2949120 <= 65536 * 2949120) by (nonlinear_arith)
            requires
                0 <= z <= 65536,
        ;
        vstd::arithmetic::div_mod::lemma_div_is_ordered(0, z as int * 2949120, 65536);
        vstd::arithmetic::div_mod::lemma_div_is_ordered(
            z as int * 2949120,
            65536int * 2949120,
            65536,
        );
        vstd::arithmetic::div_mod::lemma_div_multiples_vanish(2949120, 65536);
        assert(65536int * 2949120 == 2949120int * 65536) by (nonlinear_arith);
        assert(0 <= z * (65536 - z) && z * (65536 - z) <= 32768 * 32768) by (nonlinear_arith)
            requires
                0 <= z <= 65536,
        ;
        vstd::arithmetic::div_mod::lemma_div_is_ordered(0, z as int * (65536 - z), 65536);
        vstd::arithmetic::div_mod::lemma_div_is_ordered(
            z as int * (65536 - z),
            32768int * 32768,
            65536,
        );
        let q = (z as int * (65536 - z)) / 65536;
        assert(0 <= 1025114 * q <= 1025114 * 16384) by (nonlinear_arith)
            requires
                0 <= q <= 16384,
        ;
        vstd::arithmetic::div_mod::lemma_div_is_ordered(0, 1025114 * q, 65536);
        vstd::arithmetic::div_mod::lemma_div_is_ordered(1025114 * q, 1025114int * 16384, 65536);
    }
    let first = (z * 2949120) / 65536;
    let second = (1025114 * ((z * (65536 - z)) / 65536)) / 65536;
    first + second
}

/// The signed arc tangent of any fixed-point ratio, in degrees, within
/// a quarter turn of zero.
pub fn atan_fixed(t: i64) -> (r: i64)
    requires
        -0x4000_0000_0000 <= t <= 0x4000_0000_0000,
    ensures
        r == spec_atan(t as int),
        -QUARTER_TURN <= r <= QUARTER_TURN,
{
    let neg = t < 0;
    let mag = if t < 0 {
        -t
    } else {
        t
    };
    let a = if mag <= 65536 {
        atan_unit(mag)
    } else {
        let inv = (65536 * 65536) / mag;
        proof {
            vstd::arithmetic::div_mod::lemma_div_pos_is_pos(65536int * 65536, mag as int);
            vstd::arithmetic::div_mod::lemma_div_is_ordered_by_denominator(
                65536int * 65536,
                65536,
                mag as int,
            );
            vstd::arithmetic::div_mod::lemma_div_multiples_vanish(65536, 65536);
        }
        QUARTER_TURN - atan_unit(inv)
    };
    if neg {
        -a
    } else {
        a
    }
}

/// The fixed-point slope `a / b`, held inside the arc tangent's working
/// range; the clamp can only act on slopes beyond 2^30, whose arc
/// tangent is a quarter turn to the last fixed-point digit anyway.
pub open spec fn spec_ratio(a: int, b: int) -> int {
    let q = (a * 65536) / b;
    if q > 0x4000_0000_0000 {
        0x4000_0000_0000
    } else if q < -0x4000_0000_0000 {
        -0x4000_0000_0000
    } else {
        q
    }
}

/// The bearing from `v1` to `v2` in fixed-point degrees in [0, 360):
/// the arc tangent of the slope, placed in its quadrant.
pub open spec fn spec_bearing(dx: int, dy: int) -> int {
    if dx > 0 {
        spec_normalize_degrees(spec_atan(spec_ratio(dy, dx)))
    } else if dx < 0 {
        spec_normalize_degrees(11796480 - spec_atan(spec_ratio(dy, -dx)))
    } else if dy > 0 {
        5898240
    } else if dy < 0 {
        17694720
    } else {
        0
    }
}

/// The bearing from `v1` to `v2` in fixed-point degrees in [0, 360).
#[verifier::rlimit(60)]
pub fn angle(v1: &Vector2<i64>, v2: &Vector2<i64>) -> (r: i64)
    requires
        -0x40_0000_0000 <= v1.x <= 0x40_0000_0000,
        -0x40_0000_0000 <= v1.y <= 0x40_0000_0000,
        -0x40_0000_0000 <= v2.x <= 0x40_0000_0000,
        -0x40_0000_0000 <= v2.y <= 0x40_0000_0000,
    ensures
        r == spec_bearing(v2.x - v1.x, v2.y - v1.y),
        0 <= r < TURN,
{
    let dx = v2.x - v1.x;
    let dy = v2.y - v1.y;
    if dx > 0 {
        let t = fixed_ratio(dy, dx);
        normalize_degrees(atan_fixed(t))
    } else if dx < 0 {
        let t = fixed_ratio(dy, -dx);
        normalize_degrees(HALF_TURN - atan_fixed(t))
    } else if dy > 0 {
        QUARTER_TURN
    } else if dy < 0 {
        17694720
    } else {
        0
    }
}

/// The fixed-point ratio `a / b` for a positive `b`, clamped to the arc
/// tangent's working range; the clamp can only act on slopes beyond
/// 2^30, whose arc tangent is a quarter turn to the last fixed-point
/// digit anyway.
pub fn fixed_ratio(a: i64, b: i64) -> (r: i64)
    requires
        b > 0,
        -0x80_0000_0000 <= a <= 0x80_0000_0000,
    ensures
        r == spec_ratio(a as int, b as int),
        -0x4000_0000_0000 <= r <= 0x4000_0000_0000,
{
    proof {
        vstd::arithmetic::div_mod::lemma_fundamental_div_mod(a as int * 65536, b as int);
        vstd::arithmetic::div_mod::lemma_mod_bound(a as int * 65536, b as int);
        let p = a as int * 65536;
        let q0 = p / b as int;
        assert(-0x80_0000_0000int * 65536 <= p <= 0x80_0000_0000int * 65536) by (nonlinear_arith)
            requires
                -0x80_0000_0000 <= a <= 0x80_0000_0000 && p == a as int * 65536,
        ;
        assert(-0x80_0000_0000int * 65536 <= q0 <= 0x80_0000_0000int * 65536) by (nonlinear_arith)
            requires
                p == b * q0 + (p % (b as int)),
                0 <= (p % (b as int)) < b,
                b >= 1,
                -0x80_0000_0000int * 65536 <= p <= 0x80_0000_0000int * 65536,
        ;
    }
    let q = crate::fixed::fdiv(a, b);
    if q > 0x4000_0000_0000 {
        0x4000_0000_0000
    } else if q < -0x4000_0000_0000 {
        -0x4000_0000_0000
    } else {
        q
    }
}

impl Vector2<i64> {
    /// The dot product of two fixed-point vectors, as a plain product
    /// sum scaled like a fixed-point square.
    pub fn dot(&self, right: &Vector2<i64>) -> (r: i64)
        requires
            -0x4000_0000 <= self.x <= 0x4000_0000,
            -0x4000_0000 <= self.y <= 0x4000_0000,
            -0x4000_0000 <= right.x <= 0x4000_0000,
            -0x4000_0000 <= right.y <= 0x4000_0000,
        ensures
            r == self.x * right.x + self.y * right.y,
    {
        proof {
            assert(-0x1000_0000_0000_0000 <= self.x * right.x <= 0x1000_0000_0000_0000
                && -0x1000_0000_0000_0000 <= self.y * right.y <= 0x1000_0000_0000_0000)
                by (nonlinear_arith)
                requires
                    -0x4000_0000 <= self.x <= 0x4000_0000 && -0x4000_0000 <= self.y
                        <= 0x4000_0000 && -0x4000_0000 <= right.x <= 0x4000_0000 && -0x4000_0000
                        <= right.y <= 0x4000_0000,
            ;
        }
        self.x * right.x + self.y * right.y
    }

    /// The 2D cross product of two fixed-point vectors.
    pub fn cross(&self, right: &Vector2<i64>) -> (r: i64)
        requires
            -0x4000_0000 <= self.x <= 0x4000_0000,
            -0x4000_0000 <= self.y <= 0x4000_0000,
            -0x4000_0000 <= right.x <= 0x4000_0000,
            -0x4000_0000 <= right.y <= 0x4000_0000,
        ensures
            r == self.x * right.y - self.y * right.x,
    {
        proof {
            assert(-0x1000_0000_0000_0000 <= self.x * right.y <= 0x1000_0000_0000_0000
                && -0x1000_0000_0000_0000 <= self.y * right.x <= 0x1000_0000_0000_0000)
                by (nonlinear_arith)
                requires
                    -0x4000_0000 <= self.x <= 0x4000_0000 && -0x4000_0000 <= self.y
                        <= 0x4000_0000 && -0x4000_0000 <= right.x <= 0x4000_0000 && -0x4000_0000
                        <= right.y <= 0x4000_0000,
            ;
        }
        self.x * right.y - self.y * right.x
    }

    /// The fixed-point length of the vector.
    pub fn magnitude(&self) -> (r: i64)
        requires
            -0x1_0000_0000 <= self.x <= 0x1_0000_0000,
            -0x1_0000_0000 <= self.y <= 0x1_0000_0000,
        ensures
            r == crate::fixed::sqrt_floor(self.x * self.x + self.y * self.y),
            0 <= r <= 0x2_0000_0000,
    {
        crate::collision::wall_length(self.x, self.y)
    }

    /// The fixed-point distance between two points.
    pub fn distance(&self, right: &Vector2<i64>) -> (r: i64)
        requires
            -0x4000_0000 <= self.x <= 0x4000_0000,
            -0x4000_0000 <= self.y <= 0x4000_0000,
            -0x4000_0000 <= right.x <= 0x4000_0000,
            -0x4000_0000 <= right.y <= 0x4000_0000,
        ensures
            r == crate::fixed::sqrt_floor(
                (self.x - right.x) * (self.x - right.x) + (self.y - right.y) * (self.y - right.y),
            ),
    {
        crate::collision::wall_length(self.x - right.x, self.y - right.y)
    }

    /// The unit vector of a vector with a nonzero length, component by
    /// component, in fixed point.
    pub fn normalize(&self) -> (r: Vector2<i64>)
        requires
            -0x1_0000_0000 <= self.x <= 0x1_0000_0000,
            -0x1_0000_0000 <= self.y <= 0x1_0000_0000,
            self.x != 0 || self.y != 0,
        ensures
            ({
                let len = crate::fixed::sqrt_floor(self.x * self.x + self.y * self.y);
                r.x == self.x * 65536 / len && r.y == self.y * 65536 / len
            }),
    {
        let len = crate::collision::wall_length(self.x, self.y);
        proof {
            // The length dominates each component, so a nonzero vector
            // has a length of at least one.
            if self.x != 0 {
                assert(len >= 1);
            } else {
                assert(self.y != 0);
                assert(len >= 1);
            }
        }
        Vector2 {
            x: crate::collision::wall_dir_component(self.x, len),
            y: crate::collision::wall_dir_component(self.y, len),
        }
    }

    /// The vector moved to the nearest whole-unit grid point, rounding
    /// half units up.
    pub fn round(&self) -> (r: Vector2<i64>)
        requires
            -0x1000_0000_0000 <= self.x <= 0x1000_0000_0000,
            -0x1000_0000_0000 <= self.y <= 0x1000_0000_0000,
        ensures
            r.x == (self.x + 32768) / 65536 * 65536,
            r.y == (self.y + 32768) / 65536 * 65536,
    {
        let rx = crate::fixed::floor_div((self.x + 32768) as i128, 65536) as i64;
        let ry = crate::fixed::floor_div((self.y + 32768) as i128, 65536) as i64;
        proof {
            crate::fixed::lemma_div_shrinks(self.x + 32768, 65536, 0x1000_0000_0000);
            crate::fixed::lemma_div_shrinks(self.y + 32768, 65536, 0x1000_0000_0000);
            assert(((self.x + 32768) as i128) as int == self.x + 32768);
            assert(((self.y + 32768) as i128) as int == self.y + 32768);
        }
        Vector2 { x: rx * 65536, y: ry * 65536 }
    }
}

impl Vector3<i64> {
    /// The dot product of two fixed-point vectors.
    pub fn dot(&self, right: &Vector3<i64>) -> (r: i64)
        requires
            -0x4000_0000 <= self.x <= 0x4000_0000,
            -0x4000_0000 <= self.y <= 0x4000_0000,
            -0x4000_0000 <= self.z <= 0x4000_0000,
            -0x4000_0000 <= right.x <= 0x4000_0000,
            -0x4000_0000 <= right.y <= 0x4000_0000,
            -0x4000_0000 <= right.z <= 0x4000_0000,
        ensures
            r == self.x * right.x + self.y * right.y + self.z * right.z,
    {
        proof {
            assert(-0x1000_0000_0000_0000 <= self.x * right.x <= 0x1000_0000_0000_0000
                && -0x1000_0000_0000_0000 <= self.y * right.y <= 0x1000_0000_0000_0000
                && -0x1000_0000_0000_0000 <= self.z * right.z <= 0x1000_0000_0000_0000)
                by (nonlinear_arith)
                requires
                    -0x4000_0000 <= self.x <= 0x4000_0000 && -0x4000_0000 <= self.y
                        <= 0x4000_0000 && -0x4000_0000 <= self.z <= 0x4000_0000 && -0x4000_0000
                        <= right.x <= 0x4000_0000 && -0x4000_0000 <= right.y <= 0x4000_0000
                        && -0x4000_0000 <= right.z <= 0x4000_0000,
            ;
        }
        self.x * right.x + self.y * right.y + self.z * right.z
    }

    /// The cross product of two fixed-point vectors, componentwise.
    pub fn cross(&self, right: &Vector3<i64>) -> (r: Vector3<i64>)
        requires
            -0x4000_0000 <= self.x <= 0x4000_0000,
            -0x4000_0000 <= self.y <= 0x4000_0000,
            -0x4000_0000 <= self.z <= 0x4000_0000,
            -0x4000_0000 <= right.x <= 0x4000_0000,
            -0x4000_0000 <= right.y <= 0x4000_0000,
            -0x4000_0000 <= right.z <= 0x4000_0000,
        ensures
            r.x == self.y * right.z - self.z * right.y,
            r.y == self.z * right.x - self.x * right.z,
            r.z == self.x * right.y - self.y * right.x,
    {
        proof {
            assert(-0x1000_0000_0000_0000 <= self.y * right.z <= 0x1000_0000_0000_0000
                && -0x1000_0000_0000_0000 <= self.z * right.y <= 0x1000_0000_0000_0000
                && -0x1000_0000_0000_0000 <= self.z * right.x <= 0x1000_0000_0000_0000
                && -0x1000_0000_0000_0000 <= self.x * right.z <= 0x1000_0000_0000_0000
                && -0x1000_0000_0000_0000 <= self.x * right.y <= 0x1000_0000_0000_0000
                && -0x1000_0000_0000_0000 <= self.y * right.x <= 0x1000_0000_0000_0000)
                by (nonlinear_arith)
                requires
                    -0x4000_0000 <= self.x <= 0x4000_0000 && -0x4000_0000 <= self.y
                        <= 0x4000_0000 && -0x4000_0000 <= self.z <= 0x4000_0000 && -0x4000_0000
                        <= right.x <= 0x4000_0000 && -0x4000_0000 <= right.y <= 0x4000_0000
                        && -0x4000_0000 <= right.z <= 0x4000_0000,
            ;
        }
        Vector3 {
            x: self.y * right.z - self.z * right.y,
            y: self.z * right.x - self.x * right.z,
            z: self.x * right.y - self.y * right.x,
        }
    }
}

impl Vector4<i64> {
    /// The dot product of two fixed-point vectors.
    pub fn dot(&self, right: &Vector4<i64>) -> (r: i64)
        requires
            -0x4000_0000 <= self.x <= 0x4000_0000,
            -0x4000_0000 <= self.y <= 0x4000_0000,
            -0x4000_0000 <= self.z <= 0x4000_0000,
            -0x4000_0000 <= self.w <= 0x4000_0000,
            -0x4000_0000 <= right.x <= 0x4000_0000,
            -0x4000_0000 <= right.y <= 0x4000_0000,
            -0x4000_0000 <= right.z <= 0x4000_0000,
            -0x4000_0000 <= right.w <= 0x4000_0000,
        ensures
            r == self.x * right.x + self.y * right.y + self.z * right.z + self.w * right.w,
    {
        proof {
            assert(-0x1000_0000_0000_0000 <= self.x * right.x <= 0x1000_0000_0000_0000
                && -0x1000_0000_0000_0000 <= self.y * right.y <= 0x1000_0000_0000_0000
                && -0x1000_0000_0000_0000 <= self.z * right.z <= 0x1000_0000_0000_0000
                && -0x1000_0000_0000_0000 <= self.w * right.w <= 0x1000_0000_0000_0000)
                by (nonlinear_arith)
                requires
                    -0x4000_0000 <= self.x <= 0x4000_0000 && -0x4000_0000 <= self.y
                        <= 0x4000_0000 && -0x4000_0000 <= self.z <= 0x4000_0000 && -0x4000_0000
                        <= self.w <= 0x4000_0000 && -0x4000_0000 <= right.x <= 0x4000_0000
                        && -0x4000_0000 <= right.y <= 0x4000_0000 && -0x4000_0000 <= right.z
                        <= 0x4000_0000 && -0x4000_0000 <= right.w <= 0x4000_0000,
            ;
        }
        self.x * right.x + self.y * right.y + self.z * right.z + self.w * right.w
    }
}

/// The fixed-point length of a three-part fixed-point vector: at least
/// each component's magnitude.
pub fn vec_len3(x: i64, y: i64, z: i64) -> (r: i64)
    requires
        -0x1_0000_0000 <= x <= 0x1_0000_0000,
        -0x1_0000_0000 <= y <= 0x1_0000_0000,
        -0x1_0000_0000 <= z <= 0x1_0000_0000,
    ensures
        r == crate::fixed::sqrt_floor(x * x + y * y + z * z),
        r >= if x < 0 { -(x as int) } else { x as int },
        r >= if y < 0 { -(y as int) } else { y as int },
        r >= if z < 0 { -(z as int) } else { z as int },
        0 <= r <= 0x2_0000_0000,
{
    proof {
        assert(x * x >= 0 && x * x <= 0x1_0000_0000_0000_0000 && y * y >= 0 && y * y
            <= 0x1_0000_0000_0000_0000 && z * z >= 0 && z * z <= 0x1_0000_0000_0000_0000)
            by (nonlinear_arith)
            requires
                -0x1_0000_0000 <= x <= 0x1_0000_0000 && -0x1_0000_0000 <= y <= 0x1_0000_0000
                    && -0x1_0000_0000 <= z <= 0x1_0000_0000,
        ;
    }
    let sq: u128 = (x as i128 * x as i128) as u128 + (y as i128 * y as i128) as u128 + (z as i128
        * z as i128) as u128;
    let r = crate::fixed::isqrt128(sq);
    proof {
        let ri = r as int;
        let ax = if x < 0 {
            -(x as int)
        } else {
            x as int
        };
        let ay = if y < 0 {
            -(y as int)
        } else {
            y as int
        };
        let az = if z < 0 {
            -(z as int)
        } else {
            z as int
        };
        assert(ri >= ax && ri >= ay && ri >= az && ri <= 0x2_0000_0000) by (nonlinear_arith)
            requires
                ri >= 0,
                (ri + 1) * (ri + 1) > x * x + y * y + z * z,
                ri * ri <= x * x + y * y + z * z,
                (ax == x || ax == -(x as int)) && ax >= 0,
                (ay == y || ay == -(y as int)) && ay >= 0,
                (az == z || az == -(z as int)) && az >= 0,
                0 <= ax <= 0x1_0000_0000 && 0 <= ay <= 0x1_0000_0000 && 0 <= az
                    <= 0x1_0000_0000,
        ;
    }
    r as i64
}

/// The fixed-point length of a four-part fixed-point vector.
pub fn vec_len4(x: i64, y: i64, z: i64, w: i64) -> (r: i64)
    requires
        -0xffff_0000 <= x <= 0xffff_0000,
        -0xffff_0000 <= y <= 0xffff_0000,
        -0xffff_0000 <= z <= 0xffff_0000,
        -0xffff_0000 <= w <= 0xffff_0000,
    ensures
        r == crate::fixed::sqrt_floor(x * x + y * y + z * z + w * w),
        r * r <= x * x + y * y + z * z + w * w,
        (r + 1) * (r + 1) > x * x + y * y + z * z + w * w,
        0 <= r <= 0x2_0000_0000,
{
    proof {
        assert(x * x >= 0 && x * x < 0x1_0000_0000_0000_0000 && y * y >= 0 && y * y
            < 0x1_0000_0000_0000_0000 && z * z >= 0 && z * z < 0x1_0000_0000_0000_0000 && w * w
            >= 0 && w * w < 0x1_0000_0000_0000_0000) by (nonlinear_arith)
            requires
                -0xffff_0000 <= x <= 0xffff_0000 && -0xffff_0000 <= y <= 0xffff_0000
                    && -0xffff_0000 <= z <= 0xffff_0000 && -0xffff_0000 <= w <= 0xffff_0000,
        ;
    }
    let sq: u128 = (x as i128 * x as i128) as u128 + (y as i128 * y as i128) as u128 + (z as i128
        * z as i128) as u128 + (w as i128 * w as i128) as u128;
    let r = crate::fixed::isqrt128(sq);
    proof {
        let ri = r as int;
        assert(ri <= 0x2_0000_0000) by (nonlinear_arith)
            requires
                ri >= 0,
                ri * ri <= x * x + y * y + z * z + w * w,
                x * x < 0x1_0000_0000_0000_0000 && y * y < 0x1_0000_0000_0000_0000 && z * z
                    < 0x1_0000_0000_0000_0000 && w * w < 0x1_0000_0000_0000_0000,
        ;
    }
    r as i64
}

impl Vector3<i64> {
    /// The fixed-point length of the vector.
    pub fn magnitude(&self) -> (r: i64)
        requires
            -0x1_0000_0000 <= self.x <= 0x1_0000_0000,
            -0x1_0000_0000 <= self.y <= 0x1_0000_0000,
            -0x1_0000_0000 <= self.z <= 0x1_0000_0000,
        ensures
            r == crate::fixed::sqrt_floor(self.x * self.x + self.y * self.y + self.z * self.z),
            0 <= r <= 0x2_0000_0000,
    {
        vec_len3(self.x, self.y, self.z)
    }

    /// The fixed-point distance between two points.
    pub fn distance(&self, right: &Vector3<i64>) -> (r: i64)
        requires
            -0x8000_0000 <= self.x <= 0x8000_0000,
            -0x8000_0000 <= self.y <= 0x8000_0000,
            -0x8000_0000 <= self.z <= 0x8000_0000,
            -0x8000_0000 <= right.x <= 0x8000_0000,
            -0x8000_0000 <= right.y <= 0x8000_0000,
            -0x8000_0000 <= right.z <= 0x8000_0000,
        ensures
            r == crate::fixed::sqrt_floor(
                (self.x - right.x) * (self.x - right.x) + (self.y - right.y) * (self.y - right.y)
                    + (self.z - right.z) * (self.z - right.z),
            ),
    {
        vec_len3(self.x - right.x, self.y - right.y, self.z - right.z)
    }

    /// The unit vector of a vector with a nonzero length, component by
    /// component, in fixed point.
    pub fn normalize(&self) -> (r: Vector3<i64>)
        requires
            -0x1_0000_0000 <= self.x <= 0x1_0000_0000,
            -0x1_0000_0000 <= self.y <= 0x1_0000_0000,
            -0x1_0000_0000 <= self.z <= 0x1_0000_0000,
            self.x != 0 || self.y != 0 || self.z != 0,
        ensures
            ({
                let len = crate::fixed::sqrt_floor(
                    self.x * self.x + self.y * self.y + self.z * self.z,
                );
                r.x == self.x * 65536 / len && r.y == self.y * 65536 / len && r.z == self.z
                    * 65536 / len
            }),
    {
        let len = vec_len3(self.x, self.y, self.z);
        proof {
            if self.x != 0 {
                assert(len >= 1);
            } else if self.y != 0 {
                assert(len >= 1);
            } else {
                assert(len >= 1);
            }
        }
        Vector3 {
            x: crate::collision::wall_dir_component(self.x, len),
            y: crate::collision::wall_dir_component(self.y, len),
            z: crate::collision::wall_dir_component(self.z, len),
        }
    }

    /// The vector moved to the nearest whole-unit grid point, rounding
    /// half units up.
    pub fn round(&self) -> (r: Vector3<i64>)
        requires
            -0x1000_0000_0000 <= self.x <= 0x1000_0000_0000,
            -0x1000_0000_0000 <= self.y <= 0x1000_0000_0000,
            -0x1000_0000_0000 <= self.z <= 0x1000_0000_0000,
        ensures
            r.x == (self.x + 32768) / 65536 * 65536,
            r.y == (self.y + 32768) / 65536 * 65536,
            r.z == (self.z + 32768) / 65536 * 65536,
    {
        let v2 = Vector2 { x: self.x, y: self.y }.round();
        let v1 = Vector2 { x: self.z, y: 0i64 }.round();
        Vector3 { x: v2.x, y: v2.y, z: v1.x }
    }
}

impl Vector4<i64> {
    /// The fixed-point length of the vector.
    pub fn magnitude(&self) -> (r: i64)
        requires
            -0xffff_0000 <= self.x <= 0xffff_0000,
            -0xffff_0000 <= self.y <= 0xffff_0000,
            -0xffff_0000 <= self.z <= 0xffff_0000,
            -0xffff_0000 <= self.w <= 0xffff_0000,
        ensures
            r == crate::fixed::sqrt_floor(
                self.x * self.x + self.y * self.y + self.z * self.z + self.w * self.w,
            ),
            0 <= r <= 0x2_0000_0000,
    {
        vec_len4(self.x, self.y, self.z, self.w)
    }

    /// The fixed-point distance between two points.
    pub fn distance(&self, right: &Vector4<i64>) -> (r: i64)
        requires
            -0x7fff_8000 <= self.x <= 0x7fff_8000,
            -0x7fff_8000 <= self.y <= 0x7fff_8000,
            -0x7fff_8000 <= self.z <= 0x7fff_8000,
            -0x7fff_8000 <= self.w <= 0x7fff_8000,
            -0x7fff_8000 <= right.x <= 0x7fff_8000,
            -0x7fff_8000 <= right.y <= 0x7fff_8000,
            -0x7fff_8000 <= right.z <= 0x7fff_8000,
            -0x7fff_8000 <= right.w <= 0x7fff_8000,
        ensures
            r == crate::fixed::sqrt_floor(
                (self.x - right.x) * (self.x - right.x) + (self.y - right.y) * (self.y - right.y)
                    + (self.z - right.z) * (self.z - right.z) + (self.w - right.w) * (self.w
                    - right.w),
            ),
    {
        vec_len4(self.x - right.x, self.y - right.y, self.z - right.z, self.w - right.w)
    }

    /// The unit vector of a vector with a nonzero length, component by
    /// component, in fixed point.
    pub fn normalize(&self) -> (r: Vector4<i64>)
        requires
            -0xffff_0000 <= self.x <= 0xffff_0000,
            -0xffff_0000 <= self.y <= 0xffff_0000,
            -0xffff_0000 <= self.z <= 0xffff_0000,
            -0xffff_0000 <= self.w <= 0xffff_0000,
            self.x != 0 || self.y != 0 || self.z != 0 || self.w != 0,
        ensures
            ({
                let len = crate::fixed::sqrt_floor(
                    self.x * self.x + self.y * self.y + self.z * self.z + self.w * self.w,
                );
                r.x == self.x * 65536 / len && r.y == self.y * 65536 / len && r.z == self.z
                    * 65536 / len && r.w == self.w * 65536 / len
            }),
    {
        let len = vec_len4(self.x, self.y, self.z, self.w);
        proof {
            let sum = self.x * self.x + self.y * self.y + self.z * self.z + self.w * self.w;
            assert(sum >= 1) by (nonlinear_arith)
                requires
                    sum == self.x * self.x + self.y * self.y + self.z * self.z + self.w * self.w,
                    self.x != 0 || self.y != 0 || self.z != 0 || self.w != 0,
            ;
            assert(len >= 1) by (nonlinear_arith)
                requires
                    len >= 0,
                    (len + 1) * (len + 1) > sum,
                    sum >= 1,
            ;
            assert(-len <= self.x <= len && -len <= self.y <= len && -len <= self.z <= len
                && -len <= self.w <= len) by (nonlinear_arith)
                requires
                    len >= 0,
                    (len + 1) * (len + 1) > self.x * self.x + self.y * self.y + self.z * self.z
                        + self.w * self.w,
            ;
        }
        Vector4 {
            x: crate::collision::wall_dir_component(self.x, len),
            y: crate::collision::wall_dir_component(self.y, len),
            z: crate::collision::wall_dir_component(self.z, len),
            w: crate::collision::wall_dir_component(self.w, len),
        }
    }

    /// The vector moved to the nearest whole-unit grid point, rounding
    /// half units up.
    pub fn round(&self) -> (r: Vector4<i64>)
        requires
            -0x1000_0000_0000 <= self.x <= 0x1000_0000_0000,
            -0x1000_0000_0000 <= self.y <= 0x1000_0000_0000,
            -0x1000_0000_0000 <= self.z <= 0x1000_0000_0000,
            -0x1000_0000_0000 <= self.w <= 0x1000_0000_0000,
        ensures
            r.x == (self.x + 32768) / 65536 * 65536,
            r.y == (self.y + 32768) / 65536 * 65536,
            r.z == (self.z + 32768) / 65536 * 65536,
            r.w == (self.w + 32768) / 65536 * 65536,
    {
        let a = Vector2 { x: self.x, y: self.y }.round();
        let b = Vector2 { x: self.z, y: self.w }.round();
        Vector4 { x: a.x, y: a.y, z: b.x, w: b.y }
    }
}

} // verus!
