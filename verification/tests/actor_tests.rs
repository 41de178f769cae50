//! The viewpoint transform and one tick of player movement.

use doom_engine::actors::{ControlInput, Player, Transform};
use doom_engine::bsp::BSP;
use doom_engine::collision::CollisionClass;
use doom_engine::configure::{
    Camera, Configure, MapConfig, Player as PlayerConfig, Render, Resource, Screen,
};
use doom_engine::map::{
    LevelMap, LineDef, Node, Sector, Seg, SideDef, SubSector, Thing, SIDE_NONE,
};
use doom_engine::math::{Vector2, Vector4};
use doom_engine::types::ThingType;

const F: i64 = 65536;

fn config() -> Configure {
    Configure {
        resource: Resource { wad: String::new() },
        screen: Screen {
            title: String::new(),
            window: Vector2 { x: 0, y: 0 },
            surface: Vector2 { x: 0, y: 0 },
            frame_rate: 60 * F,
            vsync: false,
        },
        camera: Camera { fov: 90 * F },
        player: PlayerConfig {
            size: 16 * F,
            height: 56 * F,
            speed: 60 * F,
            angle_speed: 30 * F,
            jump: 600 * F,
            jump_speed: 120 * F,
        },
        map: MapConfig { name: String::new(), blockmap_no_first_line: false },
        render: Some(Render {
            map_2d: None,
            bsp_2d: None,
            collision_2d: None,
            camera_2d: None,
            flat_2d: None,
            sprite_2d: None,
            texture_2d: None,
            software_3d: None,
        }),
    }
}

fn tree_map() -> LevelMap {
    let void = [0x2Du8, 0, 0, 0, 0, 0, 0, 0];
    LevelMap {
        things: vec![],
        line_defs: vec![LineDef {
            start_vertex_id: 0,
            end_vertex_id: 1,
            flag: 0,
            line_type: 0,
            sector_tag: 0,
            right_sidedef_id: 0,
            left_sidedef_id: SIDE_NONE,
        }],
        side_defs: vec![SideDef {
            offset: Vector2 { x: 0, y: 0 },
            upper_texture: void,
            lower_texture: void,
            middle_texture: void,
            sector_id: 0,
        }],
        vertices: vec![Vector2 { x: 0, y: 0 }, Vector2 { x: 8, y: 0 }],
        segs: vec![Seg {
            start_vertex_id: 0,
            end_vertex_id: 1,
            angle: 0,
            line_def_id: 0,
            direction: 0,
            offset: 0,
        }],
        sub_sectors: vec![SubSector { seg_count: 1, first_seg_id: 0 }],
        nodes: vec![Node {
            partition: Vector2 { x: 0, y: 0 },
            change_partition: Vector2 { x: 0, y: 1 },
            right_box: Vector4 { x: 0, y: 0, z: 0, w: 0 },
            left_box: Vector4 { x: 0, y: 0, z: 0, w: 0 },
            right_child_id: 0x8000,
            left_child_id: 0x8000,
        }],
        sectors: vec![Sector {
            floor_height: 24,
            ceiling_height: 128,
            floor_texture: void,
            ceiling_texture: void,
            light_level: 160,
            special_type: 0,
            tag_number: 0,
        }],
        blockmaps: None,
    }
}

#[test]
fn transform_rounding() {
    let t = Transform::set(Vector2 { x: 10 * F + 40000, y: -3 * F }, 90 * F, 56 * F);
    let p = t.position_as_int();
    assert_eq!(p, Vector2 { x: 11i16, y: -3i16 });
    assert_eq!(t.angle_as_int(), 90);
    assert_eq!(t.height_as_int(), 56);
    let z = Transform::new();
    assert_eq!(z.position(), Vector2 { x: 0, y: 0 });
    assert_eq!(z.angle(), 0);
    assert_eq!(z.height(), 0);
}

#[test]
fn player_spawn_and_turn() {
    let thing = Thing {
        position: Vector2 { x: 32, y: -16 },
        angle: 90,
        type_id: 1,
        flags: 0,
    };
    let cfg = config();
    let mut player = Player::new(&thing, &cfg);
    assert_eq!(player.get_type_id(), 1);
    assert_eq!(player.thing_type, ThingType::Player1Start);
    assert_eq!(player.collision_class, CollisionClass::Player);
    assert_eq!(player.transform.position, Vector2 { x: 32 * F, y: -16 * F });
    assert_eq!(player.transform.angle, 90 * F);

    // Hold the left-turn key for one full-second tick: the facing
    // advances by the turn rate, and the player stands at the floor
    // height plus the eye height.
    let map = tree_map();
    let bsp = BSP::new(&map);
    player.control(&ControlInput {
        forward: false,
        backward: false,
        strafe_left: false,
        strafe_right: false,
        turn_left: true,
        turn_right: false,
        jump: false,
    });
    assert_eq!(player.control_angle, 1);
    player.update(&map, &bsp, F);
    assert_eq!(player.transform.angle, 120 * F);
    assert_eq!(player.transform.height, (24 + 56) * F);
    assert_eq!(player.last_transform.angle, 90 * F);
    // Walking forward while facing 90 degrees moves along positive y.
    player.control(&ControlInput {
        forward: true,
        backward: false,
        strafe_left: false,
        strafe_right: false,
        turn_left: false,
        turn_right: false,
        jump: false,
    });
    let before = player.transform.position;
    player.update(&map, &bsp, F / 4);
    assert!(player.transform.position.y > before.y);
    let moved = Transform::set(Vector2 { x: 0, y: 0 }, 0, 0);
    player.set_transform(&moved);
    assert_eq!(player.get_transform(), &moved);
}
