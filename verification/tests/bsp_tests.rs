//! Partition traversal: strict front-to-back leaf order from several
//! viewpoints, leaf/interior disambiguation over the child indices, and
//! the floor-height query.

use doom_engine::bsp::BSP;
use doom_engine::map::{
    LevelMap, LineDef, Node, Sector, Seg, SideDef, SubSector, LEAF_FLAG, SIDE_NONE,
};
use doom_engine::math::{Vector2, Vector4};

fn void() -> [u8; 8] {
    [0x2D, 0, 0, 0, 0, 0, 0, 0]
}

fn tree_map() -> LevelMap {
    // Two partition nodes over three leaves.  The root (last node)
    // splits on y = 0, its interior child splits on x = 0.
    let zero_box = Vector4 { x: 0i16, y: 0, z: 0, w: 0 };
    LevelMap {
        things: vec![],
        line_defs: vec![LineDef {
            start_vertex_id: 0,
            end_vertex_id: 1,
            flag: 0,
            line_type: 0,
            sector_tag: 0,
            right_sidedef_id: 0,
            left_sidedef_id: SIDE_NONE,
        }],
        side_defs: vec![SideDef {
            offset: Vector2 { x: 0, y: 0 },
            upper_texture: void(),
            lower_texture: void(),
            middle_texture: void(),
            sector_id: 0,
        }],
        vertices: vec![Vector2 { x: 0, y: 0 }, Vector2 { x: 8, y: 0 }],
        segs: vec![
            Seg {
                start_vertex_id: 0,
                end_vertex_id: 1,
                angle: 0,
                line_def_id: 0,
                direction: 0,
                offset: 0,
            };
            3
        ],
        sub_sectors: vec![
            SubSector { seg_count: 1, first_seg_id: 0 },
            SubSector { seg_count: 1, first_seg_id: 1 },
            SubSector { seg_count: 1, first_seg_id: 2 },
        ],
        nodes: vec![
            Node {
                partition: Vector2 { x: 0, y: 0 },
                change_partition: Vector2 { x: 0, y: 1 },
                right_box: zero_box,
                left_box: zero_box,
                right_child_id: LEAF_FLAG | 1,
                left_child_id: LEAF_FLAG | 0,
            },
            Node {
                partition: Vector2 { x: 0, y: 0 },
                change_partition: Vector2 { x: 1, y: 0 },
                right_box: zero_box,
                left_box: zero_box,
                right_child_id: LEAF_FLAG | 2,
                left_child_id: 0,
            },
        ],
        sectors: vec![Sector {
            floor_height: 42,
            ceiling_height: 128,
            floor_texture: void(),
            ceiling_texture: void(),
            light_level: 160,
            special_type: 0,
            tag_number: 0,
        }],
        blockmaps: None,
    }
}

#[test]
fn front_to_back_order_follows_the_viewpoint() {
    // For each viewpoint the leaf on the viewpoint's side of every
    // separating partition comes out first: strict front-to-back order.
    let map = tree_map();
    let mut bsp = BSP::new(&map);
    let a = bsp.visit_order(&map, &Vector2 { x: -5, y: 5 });
    assert_eq!(a, vec![0u16, 1, 2]);
    let b = bsp.visit_order(&map, &Vector2 { x: 5, y: -5 });
    assert_eq!(b, vec![2u16, 1, 0]);
    let c = bsp.visit_order(&map, &Vector2 { x: 5, y: 5 });
    assert_eq!(c, vec![1u16, 0, 2]);
}

#[test]
fn every_leaf_visited_exactly_once() {
    // Child indices with the top bit set are leaves, the others earlier
    // interior nodes: the traversal reaches every leaf once and never
    // steps outside the arrays.
    let map = tree_map();
    let mut bsp = BSP::new(&map);
    let order = bsp.visit_order(&map, &Vector2 { x: 1, y: 1 });
    let mut seen = vec![false; map.sub_sectors.len()];
    for id in &order {
        assert!((*id as usize) < map.sub_sectors.len());
        assert!(!seen[*id as usize]);
        seen[*id as usize] = true;
    }
    assert!(seen.iter().all(|s| *s));
}

#[test]
fn floor_height_reads_the_leaf_sector() {
    let map = tree_map();
    let bsp = BSP::new(&map);
    assert_eq!(bsp.floor_height(&map, &Vector2 { x: -5, y: 5 }), 42);
    assert_eq!(bsp.floor_height(&map, &Vector2 { x: 5, y: -5 }), 42);
}

#[test]
fn floor_height_without_front_sector_is_zero() {
    // A segment whose line has no right side resolves no sector: the
    // query answers zero instead of failing.
    let mut map = tree_map();
    map.line_defs[0].right_sidedef_id = SIDE_NONE;
    let bsp = BSP::new(&map);
    assert_eq!(bsp.floor_height(&map, &Vector2 { x: -5, y: 5 }), 0);
}

#[test]
fn partition_side_test() {
    let map = tree_map();
    let bsp = BSP::new(&map);
    // Node 0 splits on x: the left half-plane has x at most 0.
    assert!(bsp.is_on_left_size(&map, &Vector2 { x: -3, y: 7 }, 0));
    assert!(!bsp.is_on_left_size(&map, &Vector2 { x: 3, y: 7 }, 0));
    // Node 1 splits on y: the left side has y at least 0.
    assert!(bsp.is_on_left_size(&map, &Vector2 { x: 3, y: 7 }, 1));
    assert!(!bsp.is_on_left_size(&map, &Vector2 { x: 3, y: -7 }, 1));
}
