//! The camera: perspective projection and field-of-view clipping, in
//! fixed-point degrees.
//!
//! Built from a field of view and a screen width, the camera precomputes
//! the screen distance and a column-to-angle table, and answers the three
//! questions the renderer asks: where on screen does a view angle land
//! ([`Camera::angle_to_x`]), is a wall segment or a node bounding box
//! inside the view cone ([`Camera::is_segment_in_frustum`],
//! [`Camera::is_box_in_frustum`]), and what is the perspective scale of a
//! wall at a screen column ([`Camera::scale_from_global_angle`]).

use vstd::prelude::*;
use crate::fixed::fdiv;
use crate::fixed::fmul;
use crate::map::NodeBox;
use crate::math::{
    Vector2, spec_atan, spec_bearing, spec_cos, spec_normalize_degrees, spec_ratio, spec_sin_half,
    angle, atan_fixed, cos_fixed, normalize_degrees, HALF_TURN, QUARTER_TURN, TURN,
};

verus! {

/// The smallest wall scale the renderer keeps.
pub const MIN_SCALE: i64 = 256;

/// The largest wall scale the renderer keeps.
pub const MAX_SCALE: i64 = 4194304;

/// The fixed-point tangent of an angle in [0, 89] degrees.
pub open spec fn spec_tan_nonneg(a: int) -> int {
    (spec_sin_half(a) * 65536) / spec_sin_half(a + 5898240)
}

/// The fixed-point tangent of an angle within [-89, 89] degrees.
pub open spec fn spec_tan(a: int) -> int {
    if a >= 0 {
        spec_tan_nonneg(a)
    } else {
        -spec_tan_nonneg(-a)
    }
}

/// An angle folded into the centered turn (-180, 180].
pub open spec fn spec_center(a: int) -> int {
    spec_normalize_degrees(a + 11796480) - 11796480
}

/// The screen distance of a camera: half the screen width divided by
/// the tangent of half the field of view.
pub open spec fn spec_screen_dist(fov: int, half_width: int) -> int {
    (half_width * 65536 * 65536) / spec_tan_nonneg(fov / 2)
}

/// The view angle whose ray crosses screen column `i`.
pub open spec fn spec_x_to_angle(screen_dist: int, half_width: int, i: int) -> int {
    spec_atan(spec_ratio((half_width - i) * 65536, screen_dist))
}

/// The screen column an angle projects to: the tangent offset from the
/// screen center, clamped to the screen; angles folded behind the
/// viewer land on the nearer screen edge.
pub open spec fn spec_angle_to_x(screen_dist: int, half_width: int, a: int) -> int {
    let c = spec_center(a);
    if c > 5832704 {
        0
    } else if c < -5832704 {
        2 * half_width
    } else {
        let x = (screen_dist - spec_tan(c) * half_width) / 65536;
        if x < 0 {
            0
        } else if x > 2 * half_width {
            2 * half_width
        } else {
            x
        }
    }
}

/// The tangent of an angle within [-89, 89] fixed-point degrees.
pub fn tan_fixed(a: i64) -> (r: i64)
    requires
        -5832704 <= a <= 5832704,
    ensures
        r == spec_tan(a as int),
        -0x400000 <= r <= 0x400000,
{
    let neg = a < 0;
    let mag = if a < 0 {
        -a
    } else {
        a
    };
    let s = crate::math::sin_half(mag);
    let c = crate::math::sin_half(mag + QUARTER_TURN);
    proof {
        assert(65536 <= mag + QUARTER_TURN <= HALF_TURN - 65536);
        vstd::arithmetic::div_mod::lemma_div_pos_is_pos(s as int * 65536, c as int);
        assert(s * 65536 <= 65536 * 65536) by (nonlinear_arith)
            requires
                s <= 65536,
        ;
        vstd::arithmetic::div_mod::lemma_div_is_ordered(
            s as int * 65536,
            65536int * 65536,
            c as int,
        );
        vstd::arithmetic::div_mod::lemma_div_is_ordered_by_denominator(
            65536int * 65536,
            1024,
            c as int,
        );
        vstd::arithmetic::div_mod::lemma_div_multiples_vanish(4194304, 1024);
        assert(65536int * 65536 == 1024 * 4194304) by (nonlinear_arith);
    }
    let t = fdiv(s, c);
    if neg {
        -t
    } else {
        t
    }
}

/// The camera: field of view, screen distance and the per-column view
/// angle table.
pub struct Camera {
    pub fov: i64,
    pub half_fov: i64,
    pub half_width: u32,
    pub screen_dist: i64,
    pub x_to_angle_table: Vec<i64>,
}

impl Camera {
    /// The camera's internal consistency: the derived fields follow from
    /// the field of view and the width, and the angle table matches the
    /// inverse projection at every column.
    pub open spec fn wf(self) -> bool {
        &&& 2 * 65536 <= self.fov <= 178 * 65536
        &&& self.half_fov == self.fov / 2
        &&& 1 <= self.half_width <= 4096
        &&& self.screen_dist == spec_screen_dist(self.fov as int, self.half_width as int)
        &&& 1 <= self.screen_dist <= 0x4_0000_0000
        &&& self.x_to_angle_table@.len() == 2 * self.half_width + 1
        &&& forall|i: int|
            0 <= i < self.x_to_angle_table@.len() ==> #[trigger] self.x_to_angle_table@[i]
                == spec_x_to_angle(self.screen_dist as int, self.half_width as int, i)
        &&& forall|i: int|
            0 <= i < self.x_to_angle_table@.len() ==> -QUARTER_TURN
                <= #[trigger] self.x_to_angle_table@[i] <= QUARTER_TURN
    }

    /// Builds a camera from a field of view in fixed-point degrees and a
    /// screen width in pixels.
    pub fn new(fov: i64, width: u32) -> (r: Camera)
        requires
            2 * 65536 <= fov <= 178 * 65536,
            2 <= width <= 8192,
            width % 2 == 0,
        ensures
            r.wf(),
            r.fov == fov,
            r.half_width == width / 2,
    {
        let half_fov = fov / 2;
        let half_width = width / 2;
        let s = crate::math::sin_half(half_fov);
        let c = crate::math::sin_half(half_fov + QUARTER_TURN);
        proof {
            assert(65536 <= half_fov <= HALF_TURN - 65536);
            assert(65536 <= half_fov + QUARTER_TURN <= HALF_TURN - 65536);
            vstd::arithmetic::div_mod::lemma_div_pos_is_pos(s as int * 65536, c as int);
            // Upper bound: the tangent is at most 64.
            assert(s * 65536 <= 65536 * 65536) by (nonlinear_arith)
                requires
                    s <= 65536,
            ;
            vstd::arithmetic::div_mod::lemma_div_is_ordered(
                s as int * 65536,
                65536int * 65536,
                c as int,
            );
            vstd::arithmetic::div_mod::lemma_div_is_ordered_by_denominator(
                65536int * 65536,
                1024,
                c as int,
            );
            vstd::arithmetic::div_mod::lemma_div_multiples_vanish(4194304, 1024);
            assert(65536int * 65536 == 1024 * 4194304) by (nonlinear_arith);
            // Lower bound: the tangent is at least 1024.
            assert(s * 65536 >= 1024 * 65536) by (nonlinear_arith)
                requires
                    s >= 1024,
            ;
            vstd::arithmetic::div_mod::lemma_div_is_ordered(
                1024int * 65536,
                s as int * 65536,
                c as int,
            );
            vstd::arithmetic::div_mod::lemma_div_is_ordered_by_denominator(
                1024int * 65536,
                c as int,
                65536,
            );
            vstd::arithmetic::div_mod::lemma_div_multiples_vanish(1024, 65536);
            assert(1024int * 65536 == 65536 * 1024) by (nonlinear_arith);
        }
        let tan_half = fdiv(s, c);
        // tan_half is at least 1024 and at most 4194304 here.
        let hw_fixed = (half_width as i64) * 65536;
        proof {
            vstd::arithmetic::div_mod::lemma_div_pos_is_pos(
                hw_fixed as int * 65536,
                tan_half as int,
            );
            // Lower bound: the screen distance is at least 1024.
            assert(hw_fixed * 65536 >= 65536 * 65536) by (nonlinear_arith)
                requires
                    hw_fixed >= 65536,
            ;
            vstd::arithmetic::div_mod::lemma_div_is_ordered(
                65536int * 65536,
                hw_fixed as int * 65536,
                tan_half as int,
            );
            vstd::arithmetic::div_mod::lemma_div_is_ordered_by_denominator(
                65536int * 65536,
                tan_half as int,
                4194304,
            );
            vstd::arithmetic::div_mod::lemma_div_multiples_vanish(1024, 4194304);
            assert(65536int * 65536 == 4194304 * 1024) by (nonlinear_arith);
            // Upper bound: the screen distance is at most 2^34.
            assert(hw_fixed * 65536 <= 0x1000_0000_0000) by (nonlinear_arith)
                requires
                    hw_fixed <= 0x1000_0000,
            ;
            vstd::arithmetic::div_mod::lemma_div_is_ordered(
                hw_fixed as int * 65536,
                0x1000_0000_0000int,
                tan_half as int,
            );
            vstd::arithmetic::div_mod::lemma_div_is_ordered_by_denominator(
                0x1000_0000_0000int,
                1024,
                tan_half as int,
            );
            vstd::arithmetic::div_mod::lemma_div_multiples_vanish(0x4_0000_0000, 1024);
            assert(0x1000_0000_0000int == 1024 * 0x4_0000_0000) by (nonlinear_arith);
        }
        let screen_dist = fdiv(hw_fixed, tan_half);
        let mut table: Vec<i64> = Vec::new();
        let mut i: u32 = 0;
        while i <= width
            invariant
                table@.len() == i,
                i <= width + 1,
                width == 2 * half_width,
                2 <= width <= 8192,
                1 <= screen_dist <= 0x4_0000_0000_0000,
                forall|j: int|
                    0 <= j < i ==> #[trigger] table@[j] == spec_x_to_angle(
                        screen_dist as int,
                        half_width as int,
                        j,
                    ),
                forall|j: int|
                    0 <= j < i ==> -QUARTER_TURN <= #[trigger] table@[j] <= QUARTER_TURN,
            decreases width + 1 - i,
        {
            let dx: i64 = ((half_width as i64) - (i as i64)) * 65536;
            let t = crate::math::fixed_ratio(dx, screen_dist);
            table.push(atan_fixed(t));
            i += 1;
        }
        Camera { fov, half_fov, half_width, screen_dist, x_to_angle_table: table }
    }

    /// The view angle whose ray crosses screen column `x`.
    pub fn x_to_angle(&self, x: u32) -> (r: i64)
        requires
            self.wf(),
            x <= 2 * self.half_width,
        ensures
            r == spec_x_to_angle(self.screen_dist as int, self.half_width as int, x as int),
            -QUARTER_TURN <= r <= QUARTER_TURN,
    {
        self.x_to_angle_table[x as usize]
    }

    /// The screen column an angle projects to, clamped to the screen.
    pub fn angle_to_x(&self, a: i64) -> (r: u32)
        requires
            self.wf(),
            -0x1000_0000_0000_0000 <= a <= 0x1000_0000_0000_0000,
        ensures
            r == spec_angle_to_x(self.screen_dist as int, self.half_width as int, a as int),
            r <= 2 * self.half_width,
    {
        let c = normalize_degrees(a + HALF_TURN) - HALF_TURN;
        if c > 5832704 {
            return 0;
        }
        if c < -5832704 {
            return 2 * self.half_width;
        }
        let t = tan_fixed(c);
        let hw = self.half_width as i64;
        proof {
            assert(-0x400000 * 4096 <= t * hw <= 0x400000 * 4096) by (nonlinear_arith)
                requires
                    -0x400000 <= t <= 0x400000 && 0 <= hw <= 4096,
            ;
        }
        let x_fixed: i64 = self.screen_dist - t * hw;
        let x = crate::fixed::floor_div(x_fixed as i128, 65536) as i64;
        if x < 0 {
            0
        } else if x > 2 * hw {
            2 * self.half_width
        } else {
            x as u32
        }
    }

    /// The perspective scale at screen column `x` of a wall whose normal
    /// points at `wall_normal_angle`, at the given distance, for a viewer
    /// facing `actor_angle`: the screen distance times the cosine of the
    /// angle between the wall normal and the column ray, over the
    /// distance times the cosine of the column angle, held within the
    /// renderer's scale range.  A vanishing or negative denominator
    /// yields the maximum scale.
    pub fn scale_from_global_angle(
        &self,
        x: u32,
        wall_normal_angle: i64,
        wall_distance: i64,
        actor_angle: i64,
    ) -> (r: i64)
        requires
            self.wf(),
            x <= 2 * self.half_width,
            0 <= wall_normal_angle <= TURN,
            0 <= actor_angle < TURN,
            0 <= wall_distance <= 0x1_0000_0000_0000,
        ensures
            ({
                let x_angle = spec_x_to_angle(
                    self.screen_dist as int,
                    self.half_width as int,
                    x as int,
                );
                let num = (self.screen_dist * spec_cos(
                    spec_normalize_degrees(wall_normal_angle - x_angle - actor_angle),
                )) / 65536;
                let den = (wall_distance * spec_cos(spec_normalize_degrees(x_angle))) / 65536;
                if den < 64 {
                    r == MAX_SCALE
                } else {
                    let q = (num * 65536) / den;
                    r == if q < MIN_SCALE {
                        MIN_SCALE as int
                    } else if q > MAX_SCALE {
                        MAX_SCALE as int
                    } else {
                        q
                    }
                }
            }),
            MIN_SCALE <= r <= MAX_SCALE,
    {
        let x_angle = self.x_to_angle(x);
        let num_angle = normalize_degrees(wall_normal_angle - x_angle - actor_angle);
        let num_cos = cos_fixed(num_angle);
        proof {
            assert(-0x4_0000_0000int * 65536 <= self.screen_dist * num_cos <= 0x4_0000_0000int
                * 65536) by (nonlinear_arith)
                requires
                    1 <= self.screen_dist <= 0x4_0000_0000 && -65536 <= num_cos <= 65536,
            ;
            crate::fixed::lemma_div_bounded(
                self.screen_dist as int * num_cos,
                65536,
                0x4_0000_0000int * 65536,
            );
        }
        let num = fmul(self.screen_dist, num_cos);
        let den_angle = normalize_degrees(x_angle);
        let den_cos = cos_fixed(den_angle);
        proof {
            assert(-0x1_0000_0000_0000int * 65536 <= wall_distance * den_cos
                <= 0x1_0000_0000_0000int * 65536) by (nonlinear_arith)
                requires
                    0 <= wall_distance <= 0x1_0000_0000_0000 && -65536 <= den_cos <= 65536,
            ;
            crate::fixed::lemma_div_bounded(
                wall_distance as int * den_cos,
                65536,
                0x1_0000_0000_0000int * 65536,
            );
        }
        let den = fmul(wall_distance, den_cos);
        if den < 64 {
            return MAX_SCALE;
        }
        proof {
            assert(-65536 * 0x4_0000_0000int <= self.screen_dist * num_cos <= 65536
                * 0x4_0000_0000int) by (nonlinear_arith)
                requires
                    1 <= self.screen_dist <= 0x4_0000_0000 && -65536 <= num_cos <= 65536,
            ;
            crate::fixed::lemma_div_shrinks(
                self.screen_dist as int * num_cos,
                65536,
                0x4_0000_0000int,
            );
            assert(num == (self.screen_dist as int * num_cos) / 65536);
            assert(-0x4_0000_0000 <= num <= 0x4_0000_0000);
            assert(-0x4_0000_0000_0000_0000int <= num * 65536 <= 0x4_0000_0000_0000_0000int)
                by (nonlinear_arith)
                requires
                    -0x4_0000_0000 <= num <= 0x4_0000_0000,
            ;
            crate::fixed::lemma_div_bounded(
                num as int * 65536,
                den as int,
                0x4_0000_0000_0000_0000int,
            );
        }
        let q128 = crate::fixed::floor_div((num as i128) * 65536, den as i128);
        proof {
            assert((num as i128) as int == num as int && (den as i128) as int == den as int);
            assert(q128 == (num as int * 65536) / (den as int));
        }
        if q128 < MIN_SCALE as i128 {
            MIN_SCALE
        } else if q128 > MAX_SCALE as i128 {
            MAX_SCALE
        } else {
            q128 as i64
        }
    }
}

/// The bearing from the viewer to a point, in [0, 360) degrees.
pub open spec fn spec_point_bearing(pos: Vector2<i64>, v: Vector2<i64>) -> int {
    spec_bearing(v.x - pos.x, v.y - pos.y)
}

/// Whether a wall segment crosses the view cone: reject when the two
/// bearings span half a turn or more (the wall faces away), then reject
/// when the span misses the field of view past either edge.
pub open spec fn spec_segment_visible(
    fov: int,
    half_fov: int,
    pos: Vector2<i64>,
    fangle: int,
    v1: Vector2<i64>,
    v2: Vector2<i64>,
) -> bool {
    let a1 = spec_point_bearing(pos, v1);
    let a2 = spec_point_bearing(pos, v2);
    let span0 = spec_normalize_degrees(a1 - a2);
    if span0 >= 11796480 {
        false
    } else {
        let b1 = a1 - fangle;
        let b2 = a2 - fangle;
        let span1 = spec_normalize_degrees(b1 + half_fov);
        if span1 > fov && span1 >= span0 + fov {
            false
        } else {
            let span2 = spec_normalize_degrees(half_fov - b2);
            !(span2 > fov && span2 >= span0 + fov)
        }
    }
}

/// How a wall segment clips against the view cone: `None` when it is
/// rejected as invisible, else the two screen columns of its visible
/// angular span (an endpoint past a cone edge is clipped to that edge)
/// together with the unclipped bearing of the first endpoint.
pub open spec fn spec_clip_segment(
    screen_dist: int,
    half_width: int,
    fov: int,
    half_fov: int,
    pos: Vector2<i64>,
    fangle: int,
    v1: Vector2<i64>,
    v2: Vector2<i64>,
) -> Option<(int, int, int)> {
    let a1 = spec_point_bearing(pos, v1);
    let a2 = spec_point_bearing(pos, v2);
    let span0 = spec_normalize_degrees(a1 - a2);
    if span0 >= 11796480 {
        None
    } else {
        let b1 = a1 - fangle;
        let b2 = a2 - fangle;
        let span1 = spec_normalize_degrees(b1 + half_fov);
        if span1 > fov && span1 >= span0 + fov {
            None
        } else {
            let span2 = spec_normalize_degrees(half_fov - b2);
            if span2 > fov && span2 >= span0 + fov {
                None
            } else {
                let c1 = if span1 > fov {
                    half_fov
                } else {
                    b1
                };
                let c2 = if span2 > fov {
                    -half_fov
                } else {
                    b2
                };
                Some(
                    (
                        spec_angle_to_x(screen_dist, half_width, c1),
                        spec_angle_to_x(screen_dist, half_width, c2),
                        a1,
                    ),
                )
            }
        }
    }
}

/// Whether one box side's angular span touches the view cone.
pub open spec fn spec_side_visible(
    fov: int,
    half_fov: int,
    pos: Vector2<i64>,
    fangle: int,
    v1: Vector2<i64>,
    v2: Vector2<i64>,
) -> bool {
    let a1 = spec_point_bearing(pos, v1);
    let a2 = spec_point_bearing(pos, v2);
    let span = spec_normalize_degrees(a1 - a2);
    let span1 = spec_normalize_degrees(a1 - fangle + half_fov);
    !(span1 > fov && span1 >= span + fov)
}

/// Whether a node bounding box touches the view cone: a viewer inside
/// the box sees it; otherwise the one or two sides facing the viewer
/// are span-tested like wall segments.
pub open spec fn spec_box_in_frustum(
    fov: int,
    half_fov: int,
    pos: Vector2<i64>,
    fangle: int,
    bbox: NodeBox,
) -> bool {
    let top = bbox.x as int * 65536;
    let bottom = bbox.y as int * 65536;
    let left = bbox.z as int * 65536;
    let right = bbox.w as int * 65536;
    let a = Vector2 { x: left as i64, y: bottom as i64 };
    let b = Vector2 { x: left as i64, y: top as i64 };
    let c = Vector2 { x: right as i64, y: top as i64 };
    let d = Vector2 { x: right as i64, y: bottom as i64 };
    if pos.x < left {
        if pos.y > top {
            spec_side_visible(fov, half_fov, pos, fangle, b, a) || spec_side_visible(
                fov,
                half_fov,
                pos,
                fangle,
                c,
                b,
            )
        } else if pos.y < bottom {
            spec_side_visible(fov, half_fov, pos, fangle, b, a) || spec_side_visible(
                fov,
                half_fov,
                pos,
                fangle,
                a,
                d,
            )
        } else {
            spec_side_visible(fov, half_fov, pos, fangle, b, a)
        }
    } else if pos.x > right {
        if pos.y > top {
            spec_side_visible(fov, half_fov, pos, fangle, c, b) || spec_side_visible(
                fov,
                half_fov,
                pos,
                fangle,
                d,
                c,
            )
        } else if pos.y < bottom {
            spec_side_visible(fov, half_fov, pos, fangle, a, d) || spec_side_visible(
                fov,
                half_fov,
                pos,
                fangle,
                d,
                c,
            )
        } else {
            spec_side_visible(fov, half_fov, pos, fangle, d, c)
        }
    } else {
        if pos.y > top {
            spec_side_visible(fov, half_fov, pos, fangle, c, b)
        } else if pos.y < bottom {
            spec_side_visible(fov, half_fov, pos, fangle, a, d)
        } else {
            true
        }
    }
}

/// Whether a viewer position and facing are inside the numeric range the
/// frustum tests work on.
pub open spec fn view_ok(pos: Vector2<i64>, fangle: i64) -> bool {
    &&& -0x40_0000_0000 <= pos.x <= 0x40_0000_0000
    &&& -0x40_0000_0000 <= pos.y <= 0x40_0000_0000
    &&& 0 <= fangle < TURN
}

impl Camera {
    /// Span test of one box side against the view cone.
    fn side_visible(
        &self,
        pos: &Vector2<i64>,
        fangle: i64,
        v1: Vector2<i64>,
        v2: Vector2<i64>,
    ) -> (r: bool)
        requires
            self.wf(),
            view_ok(*pos, fangle),
            -0x8000_0000 <= v1.x <= 0x8000_0000,
            -0x8000_0000 <= v1.y <= 0x8000_0000,
            -0x8000_0000 <= v2.x <= 0x8000_0000,
            -0x8000_0000 <= v2.y <= 0x8000_0000,
        ensures
            r == spec_side_visible(
                self.fov as int,
                self.half_fov as int,
                *pos,
                fangle as int,
                v1,
                v2,
            ),
    {
        let a1 = angle(pos, &v1);
        let a2 = angle(pos, &v2);
        let span = normalize_degrees(a1 - a2);
        let span1 = normalize_degrees(a1 - fangle + self.half_fov);
        !(span1 > self.fov && span1 >= span + self.fov)
    }

    /// Whether the wall segment from `vertex1` to `vertex2` crosses the
    /// view cone of a viewer at `pos` facing `fangle`.
    pub fn is_segment_in_frustum(
        &self,
        pos: &Vector2<i64>,
        fangle: i64,
        vertex1: &crate::map::Vertex,
        vertex2: &crate::map::Vertex,
    ) -> (r: bool)
        requires
            self.wf(),
            view_ok(*pos, fangle),
        ensures
            r == spec_segment_visible(
                self.fov as int,
                self.half_fov as int,
                *pos,
                fangle as int,
                crate::collision::spec_vertex_fixed(*vertex1),
                crate::collision::spec_vertex_fixed(*vertex2),
            ),
    {
        let v1 = crate::collision::vertex_fixed(*vertex1);
        let v2 = crate::collision::vertex_fixed(*vertex2);
        let a1 = angle(pos, &v1);
        let a2 = angle(pos, &v2);
        let span0 = normalize_degrees(a1 - a2);
        if span0 >= HALF_TURN {
            return false;
        }
        let b1 = a1 - fangle;
        let b2 = a2 - fangle;
        let span1 = normalize_degrees(b1 + self.half_fov);
        if span1 > self.fov && span1 >= span0 + self.fov {
            return false;
        }
        let span2 = normalize_degrees(self.half_fov - b2);
        !(span2 > self.fov && span2 >= span0 + self.fov)
    }

    /// Clips the wall segment against the view cone: `None` when it is
    /// invisible, else the screen columns of its visible span and the
    /// unclipped bearing of the first endpoint.
    pub fn clip_segment_in_frustum(
        &self,
        pos: &Vector2<i64>,
        fangle: i64,
        vertex1: &crate::map::Vertex,
        vertex2: &crate::map::Vertex,
    ) -> (r: Option<(u32, u32, i64)>)
        requires
            self.wf(),
            view_ok(*pos, fangle),
        ensures
            ({
                let s = spec_clip_segment(
                    self.screen_dist as int,
                    self.half_width as int,
                    self.fov as int,
                    self.half_fov as int,
                    *pos,
                    fangle as int,
                    crate::collision::spec_vertex_fixed(*vertex1),
                    crate::collision::spec_vertex_fixed(*vertex2),
                );
                match r {
                    None => s is None,
                    Some(t) => s == Some((t.0 as int, t.1 as int, t.2 as int)),
                }
            }),
            r matches Some(t) ==> 0 <= t.2 < TURN && t.0 <= 2 * self.half_width && t.1 <= 2
                * self.half_width,
    {
        let v1 = crate::collision::vertex_fixed(*vertex1);
        let v2 = crate::collision::vertex_fixed(*vertex2);
        let a1 = angle(pos, &v1);
        let a2 = angle(pos, &v2);
        let span0 = normalize_degrees(a1 - a2);
        if span0 >= HALF_TURN {
            return None;
        }
        let b1 = a1 - fangle;
        let b2 = a2 - fangle;
        let span1 = normalize_degrees(b1 + self.half_fov);
        if span1 > self.fov && span1 >= span0 + self.fov {
            return None;
        }
        let span2 = normalize_degrees(self.half_fov - b2);
        if span2 > self.fov && span2 >= span0 + self.fov {
            return None;
        }
        let c1 = if span1 > self.fov {
            self.half_fov
        } else {
            b1
        };
        let c2 = if span2 > self.fov {
            -self.half_fov
        } else {
            b2
        };
        Some((self.angle_to_x(c1), self.angle_to_x(c2), a1))
    }

    /// Whether the node bounding box touches the view cone.
    pub fn is_box_in_frustum(&self, pos: &Vector2<i64>, fangle: i64, bbox: &NodeBox) -> (r: bool)
        requires
            self.wf(),
            view_ok(*pos, fangle),
        ensures
            r == spec_box_in_frustum(
                self.fov as int,
                self.half_fov as int,
                *pos,
                fangle as int,
                *bbox,
            ),
    {
        let top: i64 = (bbox.x as i64) * 65536;
        let bottom: i64 = (bbox.y as i64) * 65536;
        let left: i64 = (bbox.z as i64) * 65536;
        let right: i64 = (bbox.w as i64) * 65536;
        let a = Vector2 { x: left, y: bottom };
        let b = Vector2 { x: left, y: top };
        let c = Vector2 { x: right, y: top };
        let d = Vector2 { x: right, y: bottom };
        if pos.x < left {
            if pos.y > top {
                self.side_visible(pos, fangle, b, a) || self.side_visible(pos, fangle, c, b)
            } else if pos.y < bottom {
                self.side_visible(pos, fangle, b, a) || self.side_visible(pos, fangle, a, d)
            } else {
                self.side_visible(pos, fangle, b, a)
            }
        } else if pos.x > right {
            if pos.y > top {
                self.side_visible(pos, fangle, c, b) || self.side_visible(pos, fangle, d, c)
            } else if pos.y < bottom {
                self.side_visible(pos, fangle, a, d) || self.side_visible(pos, fangle, d, c)
            } else {
                self.side_visible(pos, fangle, d, c)
            }
        } else {
            if pos.y > top {
                self.side_visible(pos, fangle, c, b)
            } else if pos.y < bottom {
                self.side_visible(pos, fangle, a, d)
            } else {
                true
            }
        }
    }
}

/// The clip rejection law: a segment whose visible span lies outside
/// the view cone is never returned.  A span of half a turn or more (a
/// wall facing away), or a span past either cone edge by at least the
/// field of view, yields `None`.
pub proof fn lemma_clip_rejects_outside(
    screen_dist: int,
    half_width: int,
    fov: int,
    half_fov: int,
    pos: Vector2<i64>,
    fangle: int,
    v1: Vector2<i64>,
    v2: Vector2<i64>,
)
    requires
        ({
            let a1 = spec_point_bearing(pos, v1);
            let a2 = spec_point_bearing(pos, v2);
            let span0 = spec_normalize_degrees(a1 - a2);
            let span1 = spec_normalize_degrees(a1 - fangle + half_fov);
            let span2 = spec_normalize_degrees(half_fov - (a2 - fangle));
            span0 >= 11796480 || (span1 > fov && span1 >= span0 + fov) || (span2 > fov && span2
                >= span0 + fov)
        }),
    ensures
        spec_clip_segment(screen_dist, half_width, fov, half_fov, pos, fangle, v1, v2) is None,
{
}

} // verus!
