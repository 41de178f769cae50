//! Camera construction, projection and frustum clipping, with exact
//! fixed-point expected values.

use doom_engine::camera::{tan_fixed, Camera};
use doom_engine::math::Vector2;
use doom_engine::map::NodeBox;
use doom_engine::math::Vector4;

const F: i64 = 65536;

fn cam() -> Camera {
    Camera::new(90 * F, 320)
}

#[test]
fn screen_distance_of_a_square_fov() {
    // A 90 degree field of view over 320 columns: the screen plane sits
    // exactly half the width away.
    let c = cam();
    assert_eq!(c.half_fov, 45 * F);
    assert_eq!(c.half_width, 160);
    assert_eq!(c.screen_dist, 160 * F);
    assert_eq!(c.x_to_angle_table.len(), 321);
}

#[test]
fn tangent_exact_points() {
    assert_eq!(tan_fixed(0), 0);
    assert_eq!(tan_fixed(45 * F), F);
    assert_eq!(tan_fixed(-45 * F), -F);
}

#[test]
fn angle_to_x_spans_the_screen() {
    // The view angle maps antitonically onto the columns: the left cone
    // edge lands on column 0, the centre on the middle, the right edge
    // on the full width.
    let c = cam();
    assert_eq!(c.angle_to_x(45 * F), 0);
    assert_eq!(c.angle_to_x(0), 160);
    assert_eq!(c.angle_to_x(-45 * F), 320);
    // Angles beyond the cone clamp to the nearer edge.
    assert_eq!(c.angle_to_x(90 * F), 0);
    assert_eq!(c.angle_to_x(-90 * F), 320);
}

#[test]
fn x_to_angle_inverts_the_centre() {
    let c = cam();
    assert_eq!(c.x_to_angle(160), 0);
    assert_eq!(c.x_to_angle(0), 45 * F);
    assert_eq!(c.x_to_angle(320), -45 * F);
}

#[test]
fn clip_keeps_a_front_wall_in_order() {
    // A wall ahead of the viewer: both endpoints inside the cone, and
    // the returned columns run left to right like the endpoints.
    let c = cam();
    let pos = Vector2 { x: 0i64, y: 0i64 };
    let r = c.clip_segment_in_frustum(&pos, 0, &Vector2 { x: 10, y: 5 }, &Vector2 {
        x: 10,
        y: -5,
    });
    let (x1, x2, wall_angle) = r.expect("front wall must be visible");
    assert_eq!(x1, 80);
    assert_eq!(x2, 239);
    assert!(x1 < x2);
    assert_eq!(wall_angle, 1730838);
}

#[test]
fn clip_rejects_a_wall_behind() {
    // Both endpoints behind the viewer: the bearing span lies outside
    // the cone, so nothing is returned, in either winding.
    let c = cam();
    let pos = Vector2 { x: 0i64, y: 0i64 };
    assert!(c.clip_segment_in_frustum(&pos, 0, &Vector2 { x: -10, y: -5 }, &Vector2 {
        x: -10,
        y: 5,
    }).is_none());
    assert!(c.clip_segment_in_frustum(&pos, 0, &Vector2 { x: -10, y: 5 }, &Vector2 {
        x: -10,
        y: -5,
    }).is_none());
    assert!(!c.is_segment_in_frustum(&pos, 0, &Vector2 { x: -10, y: -5 }, &Vector2 {
        x: -10,
        y: 5,
    }));
}

#[test]
fn clip_straddling_wall_is_cut_at_the_edge() {
    // One endpoint outside the cone: the visible fraction still comes
    // out, clipped to the cone edge, columns in endpoint order.
    let c = cam();
    let pos = Vector2 { x: 0i64, y: 0i64 };
    let r = c.clip_segment_in_frustum(&pos, 0, &Vector2 { x: 5, y: 50 }, &Vector2 {
        x: 10,
        y: 0,
    });
    let (x1, x2, _) = r.expect("straddling wall keeps its visible part");
    assert_eq!(x1, 0);
    assert_eq!(x2, 160);
    assert!(c.is_segment_in_frustum(&pos, 0, &Vector2 { x: 5, y: 50 }, &Vector2 {
        x: 10,
        y: 0,
    }));
}

#[test]
fn box_test_prunes_what_is_behind() {
    let c = cam();
    let pos = Vector2 { x: 0i64, y: 0i64 };
    // NodeBox fields: top, bottom, left, right.
    let ahead: NodeBox = Vector4 { x: 5, y: -5, z: 5, w: 15 };
    let behind: NodeBox = Vector4 { x: 5, y: -5, z: -15, w: -5 };
    assert!(c.is_box_in_frustum(&pos, 0, &ahead));
    assert!(!c.is_box_in_frustum(&pos, 0, &behind));
    // A viewer inside the box always sees it.
    let around: NodeBox = Vector4 { x: 5, y: -5, z: -5, w: 5 };
    assert!(c.is_box_in_frustum(&pos, 0, &around));
}

#[test]
fn perspective_scale_at_the_centre() {
    // A wall whose normal points down the view axis, one screen
    // distance away, projects one to one at the centre column.
    let c = cam();
    let s = c.scale_from_global_angle(160, 0, 160 * F, 0);
    assert_eq!(s, F);
    // Twice as far away: half the scale.
    let s2 = c.scale_from_global_angle(160, 0, 320 * F, 0);
    assert_eq!(s2, F / 2);
    // A vanishing distance saturates at the maximum scale.
    let s3 = c.scale_from_global_angle(160, 0, 0, 0);
    assert_eq!(s3, 64 * F);
}
