//! Collision resolver scenarios: straight wall slide, fast-mover
//! sub-stepping, convergence to a stable stand-off distance, and the
//! class rules.

use doom_engine::collision::{vertex_fixed, CollisionClass, CollisionSolver};
use doom_engine::map::{
    Blockmaps, BlockmapsHeader, LevelMap, LineDef, SideDef, Sector, SIDE_NONE,
};
use doom_engine::math::Vector2;
use doom_engine::types::ThingType;

const F: i64 = 65536;

fn wall_map() -> LevelMap {
    // One vertical wall from (10, -50) up to (10, 50); its left-hand
    // normal points toward negative x, at the mover.
    LevelMap {
        things: vec![],
        line_defs: vec![LineDef {
            start_vertex_id: 0,
            end_vertex_id: 1,
            flag: 1,
            line_type: 0,
            sector_tag: 0,
            right_sidedef_id: 0,
            left_sidedef_id: SIDE_NONE,
        }],
        side_defs: vec![SideDef {
            offset: Vector2 { x: 0, y: 0 },
            upper_texture: [0x2D, 0, 0, 0, 0, 0, 0, 0],
            lower_texture: [0x2D, 0, 0, 0, 0, 0, 0, 0],
            middle_texture: [0x2D, 0, 0, 0, 0, 0, 0, 0],
            sector_id: 0,
        }],
        vertices: vec![Vector2 { x: 10, y: -50 }, Vector2 { x: 10, y: 50 }],
        segs: vec![],
        sub_sectors: vec![],
        nodes: vec![],
        sectors: vec![Sector {
            floor_height: 0,
            ceiling_height: 64,
            floor_texture: [0x2D, 0, 0, 0, 0, 0, 0, 0],
            ceiling_texture: [0x2D, 0, 0, 0, 0, 0, 0, 0],
            light_level: 255,
            special_type: 0,
            tag_number: 0,
        }],
        blockmaps: Some(Blockmaps {
            header: BlockmapsHeader { x: 0, y: 0, columns: 1, rows: 1 },
            metrix_lines: vec![vec![0]],
        }),
    }
}

#[test]
fn straight_wall_slide() {
    // Mover at the origin, radius 16, attempted displacement (20, 5):
    // the push into the wall is dropped, the slide along it kept. The
    // mover ends just over six units on its own side of the wall at
    // x = 10, with the y component of 5 preserved exactly.
    let map = wall_map();
    let solver = CollisionSolver::new();
    let line = &map.line_defs[0];
    let p = Vector2 { x: 0i64, y: 0i64 };
    let np = Vector2 { x: 20 * F, y: 5 * F };
    let r = solver.try_move(&p, &np, 16 * F, &map, line);
    assert_eq!(r.x, -393871);
    assert_eq!(r.y, 5 * F);
}

#[test]
fn fast_mover_does_not_tunnel() {
    // A displacement of 200 units in one tick is resolved in sub-steps
    // no longer than the radius, so the mover stops at the wall instead
    // of passing through it.
    let map = wall_map();
    let solver = CollisionSolver::new();
    let line = &map.line_defs[0];
    let p = Vector2 { x: 0i64, y: 0i64 };
    let np = Vector2 { x: 200 * F, y: 0 };
    let r = solver.try_move(&p, &np, 16 * F, &map, line);
    assert_eq!(r.x, -393871);
    assert_eq!(r.y, 0);
}

#[test]
fn repeated_push_converges_and_stays() {
    // Pressing straight into the wall every tick converges to a stable
    // position one radius (plus the small separation buffer) from the
    // wall, and then never moves again.
    let map = wall_map();
    let solver = CollisionSolver::new();
    let line = &map.line_defs[0];
    let mut pos = Vector2 { x: 0i64, y: 0i64 };
    for _ in 0..12 {
        let np = Vector2 { x: pos.x + 20 * F, y: pos.y };
        pos = solver.try_move(&pos, &np, 16 * F, &map, line);
    }
    assert_eq!(pos.x, -393871);
    assert_eq!(pos.y, 0);
    let np = Vector2 { x: pos.x + 20 * F, y: pos.y };
    let again = solver.try_move(&pos, &np, 16 * F, &map, line);
    assert_eq!(again, pos);
}

#[test]
fn degenerate_wall_is_no_collision() {
    // A zero-length wall never blocks: the attempted position passes
    // through unchanged.
    let mut map = wall_map();
    map.vertices[1] = map.vertices[0];
    let solver = CollisionSolver::new();
    let line = &map.line_defs[0];
    let p = Vector2 { x: 0i64, y: 0i64 };
    let np = Vector2 { x: 9 * F, y: 0 };
    let r = solver.try_move(&p, &np, 16 * F, &map, line);
    assert_eq!(r, np);
}

#[test]
fn far_and_parallel_movers_pass() {
    let map = wall_map();
    let solver = CollisionSolver::new();
    let ws = vertex_fixed(map.vertices[0]);
    let we = vertex_fixed(map.vertices[1]);
    // Far from the wall: no correction.
    let p = Vector2 { x: -60 * F, y: 0i64 };
    let np = Vector2 { x: -58 * F, y: 0 };
    assert_eq!(solver.single_collision_check(&p, &np, 16 * F, &ws, &we), np);
    // Moving away from the wall: no correction.
    let p2 = Vector2 { x: 0i64, y: 0i64 };
    let np2 = Vector2 { x: -2 * F, y: 0 };
    assert_eq!(solver.single_collision_check(&p2, &np2, 16 * F, &ws, &we), np2);
    // Beyond the segment's extent along the wall: no correction.
    let p3 = Vector2 { x: 0i64, y: 100 * F };
    let np3 = Vector2 { x: 5 * F, y: 100 * F };
    assert_eq!(solver.single_collision_check(&p3, &np3, 16 * F, &ws, &we), np3);
}

#[test]
fn update_applies_blockmap_lines() {
    // The whole-tick entry point: the blockmap cell lists the wall, the
    // mover's class blocks on it, and the correction comes out exactly
    // as the narrow phase computes it.
    let map = wall_map();
    let solver = CollisionSolver::new();
    let old_pos = Vector2 { x: 0i64, y: 0i64 };
    let new_pos = Vector2 { x: 20 * F, y: 5 * F };
    let r = solver.update(&map, CollisionClass::Player, 16, &old_pos, &new_pos);
    assert_eq!(r.x, -393871);
    assert_eq!(r.y, 5 * F);
    // A pickup never collides with walls.
    let r2 = solver.update(&map, CollisionClass::Pickup, 16, &old_pos, &new_pos);
    assert_eq!(r2, new_pos);
    // A map without a blockmap leaves the attempt unchanged.
    let mut bare = wall_map();
    bare.blockmaps = None;
    let r3 = solver.update(&bare, CollisionClass::Player, 16, &old_pos, &new_pos);
    assert_eq!(r3, new_pos);
}

#[test]
fn collision_classes() {
    assert_eq!(CollisionClass::new(ThingType::Player1Start), CollisionClass::Player);
    assert_eq!(CollisionClass::new(ThingType::Imp), CollisionClass::Monster);
    assert_eq!(CollisionClass::new(ThingType::Shotgun), CollisionClass::Pickup);
    assert_eq!(CollisionClass::new(ThingType::GreenArmor), CollisionClass::Static);
    assert!(CollisionClass::Player.can_collide_with(&CollisionClass::Monster));
    assert!(CollisionClass::Monster.can_collide_with(&CollisionClass::Monster));
    assert!(!CollisionClass::Pickup.can_collide_with(&CollisionClass::Player));
    assert!(CollisionClass::Player.is_shootable());
    assert!(!CollisionClass::Static.is_shootable());
    assert!(CollisionClass::Static.blocks_movement());
    assert!(!CollisionClass::Pickup.blocks_movement());
}

#[test]
fn wall_blocks_only_the_side_it_faces() {
    // A one-sided wall blocks movers on the side its left-hand normal
    // faces; a mover approaching from behind the wall passes, as the
    // sign of the toward-the-wall test dictates.
    let map = wall_map();
    let solver = CollisionSolver::new();
    let line = &map.line_defs[0];
    let p = Vector2 { x: 20 * F, y: 0i64 };
    let np = Vector2 { x: 9 * F, y: 0 };
    let r = solver.try_move(&p, &np, 16 * F, &map, line);
    assert_eq!(r, np);
}
