//! Rasterizer behaviour: wall classification, per-column occlusion, the
//! sky ceiling rule, and the framebuffer primitives.

use doom_engine::camera::Camera;
use doom_engine::data_textures::Texture;
use doom_engine::map::{LevelMap, SubSector, Vertex};
use doom_engine::math::{angle, Vector2};
use doom_engine::render::{
    bound_from_vertices, circual_tex, name_to_color, remap_vertex, RenderBSP, RenderCollision,
    RenderMap, RenderPass, RenderSoftware, SectorInfo, SegExtraData, Viewer, WallType,
};
use doom_engine::window::DoomSurface;
use doom_engine::bsp::BSP;
use doom_engine::data_textures::DataTextures;
use doom_engine::map::{Blockmaps, BlockmapsHeader, LineDef, Node, Sector, Seg, SideDef, SIDE_NONE};
use doom_engine::math::Vector4;

const F: i64 = 65536;

fn void() -> [u8; 8] {
    [0x2D, 0, 0, 0, 0, 0, 0, 0]
}

fn sector(floor: i16, ceiling: i16, light: i16) -> SectorInfo {
    SectorInfo {
        floor_height: floor,
        ceiling_height: ceiling,
        light_level: light,
        floor_texture: void(),
        ceiling_texture: *b"CEIL\0\0\0\0",
    }
}

fn wall_seg(x: i16, tex: usize) -> SegExtraData {
    SegExtraData {
        v1: Vertex { x, y: 50 },
        v2: Vertex { x, y: -50 },
        seg_offset: 0,
        angle_fixed: 270 * F,
        line_flags: 0,
        side_offset: Vector2 { x: 0, y: 0 },
        has_front: true,
        front: sector(0, 64, 255),
        back: None,
        middle_is_void: false,
        ceiling_texture_id: None,
        upper_texture_id: None,
        wall_texture_id: Some(tex),
        lower_texture_id: None,
        floor_texture_id: None,
        sky_texture_id: None,
        light_level: F,
    }
}

fn renderer(segs: Vec<SegExtraData>) -> RenderSoftware {
    let mut rs = RenderSoftware {
        seg_extra_data: segs,
        sub_sectors: vec![SubSector { seg_count: 1, first_seg_id: 0 }],
        width: 4,
        height: 4,
        half_height: 2 * F,
        camera: Camera::new(90 * F, 4),
        screen_range: Vec::new(),
        upper_clip: Vec::new(),
        lower_clip: Vec::new(),
        sky_inv_scale: (160 * F) / 4,
        sky_texture_alt: 100,
        flats_len: 0,
        textures_len: 2,
    };
    rs.reset();
    rs
}

fn one_pixel(color: [u8; 4]) -> Texture<4> {
    Texture { size: Vector2 { x: 1u16, y: 1u16 }, colors: vec![color] }
}

#[test]
fn solid_wall_occludes_its_columns_for_good() {
    // Draw the near wall, then a farther wall over the same columns: the
    // nearer, solid wall claimed every column, so the farther wall
    // leaves no trace and the picture equals the near-wall-only frame.
    let flats: Vec<Texture<3>> = vec![];
    let textures = vec![one_pixel([255, 255, 255, 255]), one_pixel([255, 0, 0, 255])];
    let viewer = Viewer { position: Vector2 { x: 0, y: 0 }, angle: 0, height: 32 * F };
    let near = wall_seg(5, 0);
    let far = wall_seg(9, 1);
    let near_angle = angle(&viewer.position, &Vector2 { x: 5 * F, y: 50 * F });
    let far_angle = angle(&viewer.position, &Vector2 { x: 9 * F, y: 50 * F });

    let mut rs1 = renderer(vec![near, far]);
    let mut surf1 = DoomSurface::new(4, 4);
    let more = rs1.draw_clip_walls(
        &mut surf1,
        &flats,
        &textures,
        &WallType::SolidWall(0),
        0,
        4,
        near_angle,
        &viewer,
    );
    // The solid wall filled the whole screen: no column stays open.
    assert!(!more);
    assert!(rs1.screen_range.iter().all(|open| !*open));
    let after_near = surf1.buffer.clone();
    rs1.draw_clip_walls(
        &mut surf1,
        &flats,
        &textures,
        &WallType::SolidWall(1),
        0,
        4,
        far_angle,
        &viewer,
    );
    assert_eq!(surf1.buffer, after_near);
    // The frame shows the near wall's colour somewhere.
    assert!(surf1.buffer.chunks(4).any(|p| p == [255, 255, 255, 255]));
    assert!(!surf1.buffer.chunks(4).any(|p| p == [255, 0, 0, 255]));
}

#[test]
fn portal_walls_leave_columns_open() {
    let flats: Vec<Texture<3>> = vec![];
    let textures = vec![one_pixel([255, 255, 255, 255]), one_pixel([255, 0, 0, 255])];
    let viewer = Viewer { position: Vector2 { x: 0, y: 0 }, angle: 0, height: 32 * F };
    let mut portal = wall_seg(5, 0);
    portal.back = Some(sector(8, 64, 255));
    let near_angle = angle(&viewer.position, &Vector2 { x: 5 * F, y: 50 * F });
    let mut rs = renderer(vec![portal]);
    let mut surf = DoomSurface::new(4, 4);
    let more = rs.draw_clip_walls(
        &mut surf,
        &flats,
        &textures,
        &WallType::PortalWall(0),
        0,
        4,
        near_angle,
        &viewer,
    );
    assert!(more);
    assert!(rs.screen_range.iter().all(|open| *open));
}

#[test]
fn classification_rules() {
    let mut solid = wall_seg(5, 0);
    let rs = renderer(vec![solid]);
    // No back sector: solid.
    assert!(matches!(rs.classify_segment(0, 0, 4), Some(WallType::SolidWall(0))));
    // An empty column range is nothing.
    assert!(rs.classify_segment(0, 2, 2).is_none());
    // A back sector at a different floor height opens a portal.
    solid.back = Some(sector(8, 64, 255));
    let rs2 = renderer(vec![solid]);
    assert!(matches!(rs2.classify_segment(0, 0, 4), Some(WallType::PortalWall(0))));
    // Identical sides with no middle texture are invisible.
    let mut invisible = wall_seg(5, 0);
    invisible.back = Some(invisible.front);
    invisible.middle_is_void = true;
    let rs3 = renderer(vec![invisible]);
    assert!(rs3.classify_segment(0, 0, 4).is_none());
    // Identical heights but different light still renders as a portal.
    let mut lit = wall_seg(5, 0);
    let mut back = lit.front;
    back.light_level = 100;
    lit.back = Some(back);
    lit.middle_is_void = true;
    let rs4 = renderer(vec![lit]);
    assert!(matches!(rs4.classify_segment(0, 0, 4), Some(WallType::PortalWall(0))));
}

#[test]
fn sky_ceiling_is_never_height_clipped() {
    // A ceiling below the eye would normally not be drawn; with a sky
    // name it is drawn regardless, through the sky path.
    let mut below = wall_seg(5, 0);
    below.front = sector(0, 10, 255);
    let viewer = Viewer { position: Vector2 { x: 0, y: 0 }, angle: 0, height: 32 * F };
    let textures = vec![one_pixel([0, 0, 255, 255]), one_pixel([255, 0, 0, 255])];
    let rs = renderer(vec![below]);
    let (ctx, _) = rs.prepare_wall(&textures, &WallType::SolidWall(0), 0, 4, 0, &viewer).expect(
        "wall prepared",
    );
    assert!(!ctx.b_draw_ceiling);
    let mut sky = wall_seg(5, 0);
    sky.front = sector(0, 10, 255);
    sky.sky_texture_id = Some(1);
    let rs2 = renderer(vec![sky]);
    let (ctx2, _) = rs2.prepare_wall(&textures, &WallType::SolidWall(0), 0, 4, 0, &viewer)
        .expect("wall prepared");
    assert!(ctx2.b_draw_ceiling);
    assert!(ctx2.b_ceiling_is_sky);
}

#[test]
fn texture_wrap_is_toroidal() {
    assert_eq!(circual_tex(0, 8), 0);
    assert_eq!(circual_tex(7 * F, 8), 7);
    assert_eq!(circual_tex(8 * F, 8), 0);
    assert_eq!(circual_tex(9 * F, 8), 1);
    assert_eq!(circual_tex(-F, 8), 7);
}

#[test]
fn name_colors_are_lit_and_opaque() {
    let c = name_to_color(&void(), F);
    assert_eq!(c, [255, 255, 255, 255]);
    let half = name_to_color(&void(), F / 2);
    assert_eq!(half, [127, 127, 127, 255]);
    let named = name_to_color(b"STARTAN3", F);
    assert_eq!(named[3], 255);
    assert!(named[0] >= 32 && named[1] >= 32 && named[2] >= 32);
}

#[test]
fn overlay_renderer_bounds() {
    let vertices = vec![Vertex { x: -10, y: -20 }, Vertex { x: 30, y: 40 }];
    let b = bound_from_vertices(&vertices);
    assert_eq!(b[0], Vector2 { x: -10, y: -20 });
    assert_eq!(b[1], Vector2 { x: 30, y: 40 });
    let p = remap_vertex(
        &Vector2 { x: 30, y: 40 },
        &b,
        &Vector2 { x: 0, y: 0 },
        &Vector2 { x: 100, y: 50 },
    );
    assert_eq!(p, Vector2 { x: 100, y: 50 });
    let mid = remap_vertex(
        &Vector2 { x: 10, y: 10 },
        &b,
        &Vector2 { x: 0, y: 0 },
        &Vector2 { x: 100, y: 50 },
    );
    assert_eq!(mid, Vector2 { x: 50, y: 25 });
}

#[test]
fn frame_entry_renders_through_the_tree() {
    // A one-node map drawn through the full frame entry point.
    let map = LevelMap {
        things: vec![],
        line_defs: vec![LineDef {
            start_vertex_id: 0,
            end_vertex_id: 1,
            flag: 1,
            line_type: 0,
            sector_tag: 0,
            right_sidedef_id: 0,
            left_sidedef_id: SIDE_NONE,
        }],
        side_defs: vec![SideDef {
            offset: Vector2 { x: 0, y: 0 },
            upper_texture: void(),
            lower_texture: void(),
            middle_texture: *b"WALL\0\0\0\0",
            sector_id: 0,
        }],
        vertices: vec![Vertex { x: 5, y: 50 }, Vertex { x: 5, y: -50 }],
        segs: vec![Seg {
            start_vertex_id: 0,
            end_vertex_id: 1,
            angle: 49152,
            line_def_id: 0,
            direction: 0,
            offset: 0,
        }],
        sub_sectors: vec![SubSector { seg_count: 1, first_seg_id: 0 }],
        nodes: vec![Node {
            partition: Vector2 { x: 0, y: 0 },
            change_partition: Vector2 { x: 0, y: 1 },
            right_box: Vector4 { x: 50, y: -50, z: 0, w: 10 },
            left_box: Vector4 { x: 50, y: -50, z: 0, w: 10 },
            right_child_id: 0x8000,
            left_child_id: 0x8000,
        }],
        sectors: vec![Sector {
            floor_height: 0,
            ceiling_height: 64,
            floor_texture: void(),
            ceiling_texture: void(),
            light_level: 255,
            special_type: 0,
            tag_number: 0,
        }],
        blockmaps: None,
    };
    let data = DataTextures {
        palettes: vec![],
        flats_data: vec![],
        flats_names: vec![],
        flats: vec![],
        sprite_patches: vec![],
        sprites: vec![],
        texture_names: vec![*b"WALL\0\0\0\0"],
        textures: vec![one_pixel([9, 9, 9, 255])],
    };
    let rs = RenderSoftware::new(&map, &data, 4, 4, 90 * F);
    let mut bsp = BSP::new(&map);
    let surface = DoomSurface::new(4, 4);
    let viewer = Viewer { position: Vector2 { x: 0, y: 0 }, angle: 0, height: 32 * F };
    let (rs2, surf, _flats, _texes) = rs.draw(
        surface,
        &mut bsp,
        &map,
        data.flats,
        data.textures,
        &viewer,
    );
    // The solid wall ahead claimed the whole screen.
    assert!(rs2.screen_range.iter().all(|open| !*open));
    assert!(surf.buffer.chunks(4).any(|p| p == [9, 9, 9, 255]));
    let _ = (RenderMap::new(&map, Vector2 { x: 4, y: 4 }, Vector2 { x: 0, y: 0 }),
        RenderBSP::new(&map, Vector2 { x: 4, y: 4 }, Vector2 { x: 0, y: 0 }),
        RenderCollision::new(&map, Vector2 { x: 4, y: 4 }, Vector2 { x: 0, y: 0 }));
}

#[test]
fn visitor_pass_renders_like_the_frame_entry() {
    // The visitor-based walk: the same one-wall scene drawn through
    // BSP::visit and a RenderPass claims the whole screen and paints
    // the wall colour.
    let textures = vec![one_pixel([7, 7, 7, 255]), one_pixel([255, 0, 0, 255])];
    let viewer = Viewer { position: Vector2 { x: 0, y: 0 }, angle: 0, height: 32 * F };
    let map = LevelMap {
        things: vec![],
        line_defs: vec![LineDef {
            start_vertex_id: 0,
            end_vertex_id: 1,
            flag: 1,
            line_type: 0,
            sector_tag: 0,
            right_sidedef_id: 0,
            left_sidedef_id: SIDE_NONE,
        }],
        side_defs: vec![SideDef {
            offset: Vector2 { x: 0, y: 0 },
            upper_texture: void(),
            lower_texture: void(),
            middle_texture: *b"WALL\0\0\0\0",
            sector_id: 0,
        }],
        vertices: vec![Vertex { x: 5, y: 50 }, Vertex { x: 5, y: -50 }],
        segs: vec![Seg {
            start_vertex_id: 0,
            end_vertex_id: 1,
            angle: 49152,
            line_def_id: 0,
            direction: 0,
            offset: 0,
        }],
        sub_sectors: vec![SubSector { seg_count: 1, first_seg_id: 0 }],
        nodes: vec![Node {
            partition: Vector2 { x: 0, y: 0 },
            change_partition: Vector2 { x: 0, y: 1 },
            right_box: Vector4 { x: 50, y: -50, z: 0, w: 10 },
            left_box: Vector4 { x: 50, y: -50, z: 0, w: 10 },
            right_child_id: 0x8000,
            left_child_id: 0x8000,
        }],
        sectors: vec![Sector {
            floor_height: 0,
            ceiling_height: 64,
            floor_texture: void(),
            ceiling_texture: void(),
            light_level: 255,
            special_type: 0,
            tag_number: 0,
        }],
        blockmaps: None,
    };
    let data = DataTextures {
        palettes: vec![],
        flats_data: vec![],
        flats_names: vec![],
        flats: vec![],
        sprite_patches: vec![],
        sprites: vec![],
        texture_names: vec![*b"WALL\0\0\0\0"],
        textures,
    };
    let mut rs = RenderSoftware::new(&map, &data, 4, 4, 90 * F);
    rs.reset();
    let mut bsp = BSP::new(&map);
    let mut pass = RenderPass::new(rs, DoomSurface::new(4, 4), data.flats, data.textures, viewer);
    bsp.visit(&map, &Vector2 { x: 0, y: 0 }, &mut pass);
    assert!(pass.rs.screen_range.iter().all(|open| !*open));
    assert!(pass.surface.buffer.chunks(4).any(|p| p == [7, 7, 7, 255]));
}

#[test]
fn collision_overlay_draws_the_cell_lines() {
    let mut map = LevelMap {
        things: vec![],
        line_defs: vec![LineDef {
            start_vertex_id: 0,
            end_vertex_id: 1,
            flag: 1,
            line_type: 0,
            sector_tag: 0,
            right_sidedef_id: SIDE_NONE,
            left_sidedef_id: SIDE_NONE,
        }],
        side_defs: vec![],
        vertices: vec![Vertex { x: 0, y: 0 }, Vertex { x: 60, y: 60 }],
        segs: vec![],
        sub_sectors: vec![],
        nodes: vec![],
        sectors: vec![],
        blockmaps: Some(Blockmaps {
            header: BlockmapsHeader { x: 0, y: 0, columns: 1, rows: 1 },
            metrix_lines: vec![vec![0]],
        }),
    };
    let rc = RenderCollision::new(&map, Vector2 { x: 64, y: 64 }, Vector2 { x: 0, y: 0 });
    let mut surf = DoomSurface::new(64, 64);
    rc.draw(&mut surf, &map, &Vector2 { x: 10, y: 10 });
    assert!(surf.buffer.chunks(4).any(|p| p == [255, 192, 203, 255]));
    // Without a blockmap nothing is drawn.
    map.blockmaps = None;
    let mut surf2 = DoomSurface::new(64, 64);
    rc.draw(&mut surf2, &map, &Vector2 { x: 10, y: 10 });
    assert!(surf2.buffer.iter().all(|b| *b == 0));
}

#[test]
fn bsp_overlay_draws_boxes_and_segs() {
    // The traversal overlay paints each node's child boxes and the segs
    // of the visited subsectors.
    let map = LevelMap {
        things: vec![],
        line_defs: vec![],
        side_defs: vec![],
        vertices: vec![Vertex { x: 0, y: 0 }, Vertex { x: 60, y: 60 }],
        segs: vec![Seg {
            start_vertex_id: 0,
            end_vertex_id: 1,
            angle: 0,
            line_def_id: 0,
            direction: 0,
            offset: 0,
        }],
        sub_sectors: vec![SubSector { seg_count: 1, first_seg_id: 0 }],
        nodes: vec![Node {
            partition: Vector2 { x: 30, y: 0 },
            change_partition: Vector2 { x: 0, y: 1 },
            right_box: Vector4 { x: 60, y: 0, z: 0, w: 30 },
            left_box: Vector4 { x: 60, y: 0, z: 30, w: 60 },
            right_child_id: 0x8000,
            left_child_id: 0x8000,
        }],
        sectors: vec![],
        blockmaps: None,
    };
    let rb = RenderBSP::new(&map, Vector2 { x: 64, y: 64 }, Vector2 { x: 0, y: 0 });
    let mut bsp = BSP::new(&map);
    let mut surf = DoomSurface::new(64, 64);
    rb.draw(&mut surf, &map, &mut bsp, &Vector2 { x: 10, y: 10 });
    let pixels: Vec<&[u8]> = surf.buffer.chunks(4).collect();
    assert!(pixels.iter().any(|p| *p == [255, 0, 0, 255]));
    assert!(pixels.iter().any(|p| *p == [0, 255, 0, 255]));
    assert!(pixels.iter().any(|p| *p == [0, 0, 255, 255]));
}
