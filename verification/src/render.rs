//! The renderers: 2D map overlays and the 3D software wall/portal
//! rasterizer.
//!
//! The 3D renderer walks the leaves front to back, clips each wall
//! segment against the camera's view cone, classifies it as solid or
//! portal, and draws its visible column runs while keeping per-column
//! occlusion state: a solid wall permanently obstructs its columns, a
//! portal tightens the per-column ceiling/floor clip bounds instead.

use vstd::prelude::*;
use crate::camera::Camera;
use crate::data_textures::{spec_first_name, Texture};
use crate::map::{LevelMap, NodeBox, SubSector, Vertex};
use crate::math::Vector2;
use crate::window::DoomSurface;

verus! {

/// Smallest and largest corner of the vertex cloud; the extremes of the
/// empty cloud are the type's own extremes.
pub fn bound_from_vertices(vertices: &Vec<Vertex>) -> (r: [Vector2<i16>; 2])
    ensures
        forall|i: int|
            0 <= i < vertices@.len() ==> r[0].x <= (#[trigger] vertices@[i]).x && r[0].y
                <= vertices@[i].y && r[1].x >= vertices@[i].x && r[1].y >= vertices@[i].y,
{
    let mut bound_min = Vector2 { x: i16::MAX, y: i16::MAX };
    let mut bound_max = Vector2 { x: i16::MIN, y: i16::MIN };
    let mut i: usize = 0;
    while i < vertices.len()
        invariant
            i <= vertices@.len(),
            forall|j: int|
                0 <= j < i ==> bound_min.x <= (#[trigger] vertices@[j]).x && bound_min.y
                    <= vertices@[j].y && bound_max.x >= vertices@[j].x && bound_max.y
                    >= vertices@[j].y,
        decreases vertices@.len() - i,
    {
        let v = vertices[i];
        if v.x < bound_min.x {
            bound_min.x = v.x;
        }
        if v.y < bound_min.y {
            bound_min.y = v.y;
        }
        if v.x > bound_max.x {
            bound_max.x = v.x;
        }
        if v.y > bound_max.y {
            bound_max.y = v.y;
        }
        i += 1;
    }
    [bound_min, bound_max]
}

/// Maps a world vertex into a surface rectangle by linear interpolation
/// between the world bounds.
pub fn remap_vertex(
    vertex: &Vector2<i16>,
    bounds: &[Vector2<i16>; 2],
    surf_min: &Vector2<i32>,
    surf_max: &Vector2<i32>,
) -> (r: Vector2<i32>)
    requires
        bounds[0].x < bounds[1].x,
        bounds[0].y < bounds[1].y,
        bounds[0].x <= vertex.x <= bounds[1].x,
        bounds[0].y <= vertex.y <= bounds[1].y,
        -0x10000 <= surf_min.x <= 0x10000,
        -0x10000 <= surf_min.y <= 0x10000,
        -0x10000 <= surf_max.x <= 0x10000,
        -0x10000 <= surf_max.y <= 0x10000,
    ensures
        r.x == (vertex.x - bounds[0].x) * (surf_max.x - surf_min.x) / (bounds[1].x - bounds[0].x)
            + surf_min.x,
        r.y == (vertex.y - bounds[0].y) * (surf_max.y - surf_min.y) / (bounds[1].y - bounds[0].y)
            + surf_min.y,
{
    let vdx: i64 = (vertex.x as i64) - (bounds[0].x as i64);
    let vdy: i64 = (vertex.y as i64) - (bounds[0].y as i64);
    let sdx: i64 = (surf_max.x as i64) - (surf_min.x as i64);
    let sdy: i64 = (surf_max.y as i64) - (surf_min.y as i64);
    proof {
        assert(-0x400000000 <= vdx * sdx <= 0x400000000 && -0x400000000 <= vdy * sdy
            <= 0x400000000) by (nonlinear_arith)
            requires
                -0x10000 <= vdx <= 0x10000 && -0x20000 <= sdx <= 0x20000 && -0x10000 <= vdy
                    <= 0x10000 && -0x20000 <= sdy <= 0x20000,
        ;
    }
    let nx: i64 = vdx * sdx;
    let ny: i64 = vdy * sdy;
    let dx: i64 = (bounds[1].x as i64) - (bounds[0].x as i64);
    let dy: i64 = (bounds[1].y as i64) - (bounds[0].y as i64);
    proof {
        vstd::arithmetic::div_mod::lemma_fundamental_div_mod(nx as int, dx as int);
        vstd::arithmetic::div_mod::lemma_mod_bound(nx as int, dx as int);
        vstd::arithmetic::div_mod::lemma_fundamental_div_mod(ny as int, dy as int);
        vstd::arithmetic::div_mod::lemma_mod_bound(ny as int, dy as int);
        assert(-0x800000000 <= nx as int / dx as int <= 0x800000000 && -0x800000000 <= ny as int
            / dy as int <= 0x800000000) by (nonlinear_arith)
            requires
                nx == dx * (nx as int / dx as int) + (nx as int % (dx as int)),
                ny == dy * (ny as int / dy as int) + (ny as int % (dy as int)),
                0 <= (nx as int % (dx as int)) < dx,
                0 <= (ny as int % (dy as int)) < dy,
                1 <= dx,
                1 <= dy,
                -0x400000000 <= nx <= 0x400000000,
                -0x400000000 <= ny <= 0x400000000,
        ;
    }
    proof {
        assert(-dx * 0x20000 <= nx <= dx * 0x20000 && -dy * 0x20000 <= ny <= dy * 0x20000)
            by (nonlinear_arith)
            requires
                nx == vdx * sdx,
                ny == vdy * sdy,
                0 <= vdx <= dx,
                0 <= vdy <= dy,
                -0x20000 <= sdx <= 0x20000,
                -0x20000 <= sdy <= 0x20000,
        ;
        crate::fixed::lemma_div_shrinks(nx as int, dx as int, 0x20000);
        crate::fixed::lemma_div_shrinks(ny as int, dy as int, 0x20000);
    }
    let qx = crate::fixed::floor_div(nx as i128, dx as i128) as i64;
    let qy = crate::fixed::floor_div(ny as i128, dy as i128) as i64;
    proof {
        assert((nx as i128) as int == nx as int && (ny as i128) as int == ny as int);
    }
    Vector2 { x: (qx + surf_min.x as i64) as i32, y: (qy + surf_min.y as i64) as i32 }
}

/// The 2D line-overlay renderer: the level's lines and vertices scaled
/// into a surface rectangle.
pub struct RenderMap {
    pub bounds: [Vector2<i16>; 2],
    pub size: Vector2<i32>,
    pub offset: Vector2<i32>,
    pub vertices: Vec<Vector2<i32>>,
}

impl RenderMap {
    /// Precomputes the remapped screen position of every map vertex.
    pub fn new(map: &LevelMap, size: Vector2<i32>, offset: Vector2<i32>) -> (r: RenderMap)
        requires
            -0x8000 <= size.x <= 0x8000,
            -0x8000 <= size.y <= 0x8000,
            -0x8000 <= offset.x <= 0x8000,
            -0x8000 <= offset.y <= 0x8000,
        ensures
            r.vertices@.len() == map.vertices@.len(),
            r.size == size,
            r.offset == offset,
    {
        let bounds = bound_from_vertices(&map.vertices);
        let vertices = RenderMap::remap_all_vertices(&map.vertices, &bounds, &size, &offset);
        RenderMap { bounds, size, offset, vertices }
    }

    /// Remaps every vertex into the surface rectangle; a degenerate
    /// world bound maps everything onto the rectangle's corner.
    pub fn remap_all_vertices(
        map_vertices: &Vec<Vertex>,
        bounds: &[Vector2<i16>; 2],
        size: &Vector2<i32>,
        offset: &Vector2<i32>,
    ) -> (r: Vec<Vector2<i32>>)
        requires
            -0x8000 <= size.x <= 0x8000,
            -0x8000 <= size.y <= 0x8000,
            -0x8000 <= offset.x <= 0x8000,
            -0x8000 <= offset.y <= 0x8000,
            forall|i: int|
                0 <= i < map_vertices@.len() ==> bounds[0].x <= (
                #[trigger] map_vertices@[i]).x <= bounds[1].x && bounds[0].y
                    <= map_vertices@[i].y <= bounds[1].y,
        ensures
            r@.len() == map_vertices@.len(),
    {
        let mut vertices: Vec<Vector2<i32>> = Vec::new();
        let degenerate = bounds[0].x >= bounds[1].x || bounds[0].y >= bounds[1].y;
        let mut i: usize = 0;
        while i < map_vertices.len()
            invariant
                vertices@.len() == i,
                i <= map_vertices@.len(),
                degenerate == (bounds[0].x >= bounds[1].x || bounds[0].y >= bounds[1].y),
                forall|j: int|
                    0 <= j < map_vertices@.len() ==> bounds[0].x <= (
                    #[trigger] map_vertices@[j]).x <= bounds[1].x && bounds[0].y
                        <= map_vertices@[j].y <= bounds[1].y,
                -0x8000 <= size.x <= 0x8000,
                -0x8000 <= size.y <= 0x8000,
                -0x8000 <= offset.x <= 0x8000,
                -0x8000 <= offset.y <= 0x8000,
            decreases map_vertices@.len() - i,
        {
            if degenerate {
                vertices.push(*offset);
            } else {
                vertices.push(remap_vertex(&map_vertices[i], bounds, offset, size));
            }
            i += 1;
        }
        vertices
    }

    /// Draws every line and vertex of the level, and the player's
    /// position, into the surface.
    pub fn draw(&self, surface: &mut DoomSurface, map: &LevelMap, player: &Vector2<i16>)
        requires
            old(surface).wf(),
            map.wf(),
        ensures
            final(surface).wf(),
            final(surface).size == old(surface).size,
    {
        let mut i: usize = 0;
        while i < map.line_defs.len()
            invariant
                surface.wf(),
                surface.size == old(surface).size,
                map.wf(),
            decreases map.line_defs@.len() - i,
        {
            let line = &map.line_defs[i];
            proof {
                assert(map.line_defs@[i as int].ids_ok(*map));
            }
            let s = line.start_vertex_id as usize;
            let e = line.end_vertex_id as usize;
            if s < self.vertices.len() && e < self.vertices.len() {
                let a = self.vertices[s];
                let b = self.vertices[e];
                if a.x >= -0x10000 && a.x <= 0x10000 && a.y >= -0x10000 && a.y <= 0x10000 && b.x
                    >= -0x10000 && b.x <= 0x10000 && b.y >= -0x10000 && b.y <= 0x10000 {
                    surface.draw_line_lb(&a, &b, &[0xFF, 0xA5, 0x00, 0xFF]);
                }
            }
            i += 1;
        }
        let mut j: usize = 0;
        while j < self.vertices.len()
            invariant
                surface.wf(),
                surface.size == old(surface).size,
            decreases self.vertices@.len() - j,
        {
            let v = self.vertices[j];
            if v.x >= 0 && v.y >= 0 {
                surface.draw_lb(
                    &Vector2 { x: v.x as usize, y: v.y as usize },
                    &[0xFF, 0xFF, 0xFF, 0xFF],
                );
            }
            j += 1;
        }
        let degenerate = self.bounds[0].x >= self.bounds[1].x || self.bounds[0].y
            >= self.bounds[1].y;
        if !degenerate && -0x8000 <= self.offset.x && self.offset.x <= 0x8000 && -0x8000
            <= self.offset.y && self.offset.y <= 0x8000 && -0x8000 <= self.size.x && self.size.x
            <= 0x8000 && -0x8000 <= self.size.y && self.size.y <= 0x8000 {
            let clamped = Vector2 {
                x: if player.x < self.bounds[0].x {
                    self.bounds[0].x
                } else if player.x > self.bounds[1].x {
                    self.bounds[1].x
                } else {
                    player.x
                },
                y: if player.y < self.bounds[0].y {
                    self.bounds[0].y
                } else if player.y > self.bounds[1].y {
                    self.bounds[1].y
                } else {
                    player.y
                },
            };
            let p = remap_vertex(&clamped, &self.bounds, &self.offset, &self.size);
            if p.x >= 0 && p.y >= 0 {
                surface.draw_lb(
                    &Vector2 { x: p.x as usize, y: p.y as usize },
                    &[0x00, 0x00, 0xFF, 0xFF],
                );
            }
        }
    }
}

/// The 2D partition-tree overlay renderer.
pub struct RenderBSP {
    pub bounds: [Vector2<i16>; 2],
    pub size: Vector2<i32>,
    pub offset: Vector2<i32>,
}

impl RenderBSP {
    /// Remembers the world bounds and the surface rectangle.
    pub fn new(map: &LevelMap, size: Vector2<i32>, offset: Vector2<i32>) -> (r: RenderBSP)
        ensures
            r.size == size,
            r.offset == offset,
    {
        let bounds = bound_from_vertices(&map.vertices);
        RenderBSP { bounds, size, offset }
    }

    /// Draws the traversal into the overlay: every node's two child
    /// boxes, and the segs of each subsector in visit order.
    pub fn draw(
        &self,
        surface: &mut DoomSurface,
        map: &LevelMap,
        bsp: &mut crate::bsp::BSP,
        position: &Vector2<i16>,
    )
        requires
            old(surface).wf(),
            map.wf(),
            old(bsp).root_id < map.nodes@.len(),
        ensures
            final(surface).wf(),
            final(surface).size == old(surface).size,
            final(bsp).root_id == old(bsp).root_id,
    {
        let degenerate = self.bounds[0].x >= self.bounds[1].x || self.bounds[0].y
            >= self.bounds[1].y;
        if degenerate || !(-0x8000 <= self.offset.x && self.offset.x <= 0x8000 && -0x8000
            <= self.offset.y && self.offset.y <= 0x8000 && -0x8000 <= self.size.x && self.size.x
            <= 0x8000 && -0x8000 <= self.size.y && self.size.y <= 0x8000) {
            return ;
        }
        let mut n: usize = 0;
        while n < map.nodes.len()
            invariant
                surface.wf(),
                surface.size == old(surface).size,
                map.wf(),
                self.bounds[0].x < self.bounds[1].x,
                self.bounds[0].y < self.bounds[1].y,
                -0x8000 <= self.offset.x <= 0x8000,
                -0x8000 <= self.offset.y <= 0x8000,
                -0x8000 <= self.size.x <= 0x8000,
                -0x8000 <= self.size.y <= 0x8000,
            decreases map.nodes@.len() - n,
        {
            let node = &map.nodes[n];
            self.draw_node_box(surface, &node.left_box, &[0xFF, 0x00, 0x00, 0xFF]);
            self.draw_node_box(surface, &node.right_box, &[0x00, 0xFF, 0x00, 0xFF]);
            n += 1;
        }
        let order = bsp.visit_order(map, position);
        let mut i: usize = 0;
        while i < order.len()
            invariant
                surface.wf(),
                surface.size == old(surface).size,
                map.wf(),
                self.bounds[0].x < self.bounds[1].x,
                self.bounds[0].y < self.bounds[1].y,
                -0x8000 <= self.offset.x <= 0x8000,
                -0x8000 <= self.offset.y <= 0x8000,
                -0x8000 <= self.size.x <= 0x8000,
                -0x8000 <= self.size.y <= 0x8000,
            decreases order@.len() - i,
        {
            let leaf = order[i] as usize;
            if leaf < map.sub_sectors.len() {
                let first = map.sub_sectors[leaf].first_seg_id as usize;
                let count = map.sub_sectors[leaf].seg_count as usize;
                let mut k: usize = 0;
                while k < count
                    invariant
                        surface.wf(),
                        surface.size == old(surface).size,
                        map.wf(),
                        count <= 0x10000,
                        first <= 0x10000,
                        self.bounds[0].x < self.bounds[1].x,
                        self.bounds[0].y < self.bounds[1].y,
                        -0x8000 <= self.offset.x <= 0x8000,
                        -0x8000 <= self.offset.y <= 0x8000,
                        -0x8000 <= self.size.x <= 0x8000,
                        -0x8000 <= self.size.y <= 0x8000,
                    decreases count - k,
                {
                    let seg_id = first + k;
                    if seg_id < map.segs.len() {
                        let seg = &map.segs[seg_id];
                        if (seg.start_vertex_id as usize) < map.vertices.len() && (
                        seg.end_vertex_id as usize) < map.vertices.len() {
                            let v1 = map.vertices[seg.start_vertex_id as usize];
                            let v2 = map.vertices[seg.end_vertex_id as usize];
                            self.draw_seg_line(surface, &v1, &v2);
                        }
                    }
                    k += 1;
                }
            }
            i += 1;
        }
    }

    /// Draws one child bounding box, clamped to the world bounds.
    fn draw_node_box(&self, surface: &mut DoomSurface, node_box: &NodeBox, color: &[u8; 4])
        requires
            old(surface).wf(),
            self.bounds[0].x < self.bounds[1].x,
            self.bounds[0].y < self.bounds[1].y,
            -0x8000 <= self.offset.x <= 0x8000,
            -0x8000 <= self.offset.y <= 0x8000,
            -0x8000 <= self.size.x <= 0x8000,
            -0x8000 <= self.size.y <= 0x8000,
        ensures
            final(surface).wf(),
            final(surface).size == old(surface).size,
    {
        let c1 = clamp_to_bounds(&node_box.zx(), &self.bounds);
        let c2 = clamp_to_bounds(&node_box.wy(), &self.bounds);
        let topleft = remap_vertex(&c1, &self.bounds, &self.offset, &self.size);
        let bottomright = remap_vertex(&c2, &self.bounds, &self.offset, &self.size);
        if topleft.x >= -0x10000 && topleft.x <= 0x10000 && topleft.y >= -0x10000 && topleft.y
            <= 0x10000 && bottomright.x >= -0x10000 && bottomright.x <= 0x10000 && bottomright.y
            >= -0x10000 && bottomright.y <= 0x10000 {
            surface.draw_box_lb(&topleft, &bottomright, color);
        }
    }

    /// Draws one seg, clamped to the world bounds.
    fn draw_seg_line(&self, surface: &mut DoomSurface, v1: &Vector2<i16>, v2: &Vector2<i16>)
        requires
            old(surface).wf(),
            self.bounds[0].x < self.bounds[1].x,
            self.bounds[0].y < self.bounds[1].y,
            -0x8000 <= self.offset.x <= 0x8000,
            -0x8000 <= self.offset.y <= 0x8000,
            -0x8000 <= self.size.x <= 0x8000,
            -0x8000 <= self.size.y <= 0x8000,
        ensures
            final(surface).wf(),
            final(surface).size == old(surface).size,
    {
        let c1 = clamp_to_bounds(v1, &self.bounds);
        let c2 = clamp_to_bounds(v2, &self.bounds);
        let a = remap_vertex(&c1, &self.bounds, &self.offset, &self.size);
        let b = remap_vertex(&c2, &self.bounds, &self.offset, &self.size);
        if a.x >= -0x10000 && a.x <= 0x10000 && a.y >= -0x10000 && a.y <= 0x10000 && b.x
            >= -0x10000 && b.x <= 0x10000 && b.y >= -0x10000 && b.y <= 0x10000 {
            surface.draw_line_lb(&a, &b, &[0x00, 0x00, 0xFF, 0xFF]);
        }
    }
}

/// The 2D collision-overlay renderer.
pub struct RenderCollision {
    pub bounds: [Vector2<i16>; 2],
    pub size: Vector2<i32>,
    pub offset: Vector2<i32>,
}

impl RenderCollision {
    /// Remembers the world bounds and the surface rectangle.
    pub fn new(map: &LevelMap, size: Vector2<i32>, offset: Vector2<i32>) -> (r: RenderCollision)
        ensures
            r.size == size,
            r.offset == offset,
    {
        let bounds = bound_from_vertices(&map.vertices);
        RenderCollision { bounds, size, offset }
    }

    /// Draws the lines of the blockmap cell under the player into the
    /// overlay: the candidate set the collision broad phase would test.
    pub fn draw(&self, surface: &mut DoomSurface, map: &LevelMap, player: &Vector2<i16>)
        requires
            old(surface).wf(),
            map.wf(),
        ensures
            final(surface).wf(),
            final(surface).size == old(surface).size,
    {
        let bm = match &map.blockmaps {
            Some(bm) => bm,
            None => {
                return ;
            },
        };
        let cell = match bm.get(player.x, player.y) {
            Some(list) => list,
            None => {
                return ;
            },
        };
        let degenerate = self.bounds[0].x >= self.bounds[1].x || self.bounds[0].y
            >= self.bounds[1].y;
        if degenerate || !(-0x8000 <= self.offset.x && self.offset.x <= 0x8000 && -0x8000
            <= self.offset.y && self.offset.y <= 0x8000 && -0x8000 <= self.size.x && self.size.x
            <= 0x8000 && -0x8000 <= self.size.y && self.size.y <= 0x8000) {
            return ;
        }
        let mut i: usize = 0;
        while i < cell.len()
            invariant
                surface.wf(),
                surface.size == old(surface).size,
                map.wf(),
                map.blockmaps matches Some(b) && b == bm,
                self.bounds[0].x < self.bounds[1].x,
                self.bounds[0].y < self.bounds[1].y,
                -0x8000 <= self.offset.x <= 0x8000,
                -0x8000 <= self.offset.y <= 0x8000,
                -0x8000 <= self.size.x <= 0x8000,
                -0x8000 <= self.size.y <= 0x8000,
            decreases cell@.len() - i,
        {
            let id = cell[i] as usize;
            if id < map.line_defs.len() {
                let line = &map.line_defs[id];
                proof {
                    assert(map.line_defs@[id as int].ids_ok(*map));
                }
                let v1 = *line.start_vertex(map);
                let v2 = *line.end_vertex(map);
                let c1 = clamp_to_bounds(&v1, &self.bounds);
                let c2 = clamp_to_bounds(&v2, &self.bounds);
                let a = remap_vertex(&c1, &self.bounds, &self.offset, &self.size);
                let b = remap_vertex(&c2, &self.bounds, &self.offset, &self.size);
                if a.x >= -0x10000 && a.x <= 0x10000 && a.y >= -0x10000 && a.y <= 0x10000 && b.x
                    >= -0x10000 && b.x <= 0x10000 && b.y >= -0x10000 && b.y <= 0x10000 {
                    surface.draw_line_lb(&a, &b, &[0xFF, 0xC0, 0xCB, 0xFF]);
                }
            }
            i += 1;
        }
    }
}

/// A point held inside a bounding rectangle.
pub fn clamp_to_bounds(v: &Vector2<i16>, bounds: &[Vector2<i16>; 2]) -> (r: Vector2<i16>)
    requires
        bounds[0].x <= bounds[1].x,
        bounds[0].y <= bounds[1].y,
    ensures
        bounds[0].x <= r.x <= bounds[1].x,
        bounds[0].y <= r.y <= bounds[1].y,
{
    Vector2 {
        x: if v.x < bounds[0].x {
            bounds[0].x
        } else if v.x > bounds[1].x {
            bounds[1].x
        } else {
            v.x
        },
        y: if v.y < bounds[0].y {
            bounds[0].y
        } else if v.y > bounds[1].y {
            bounds[1].y
        } else {
            v.y
        },
    }
}

/// The heights, light and textures of one sector, copied per segment at
/// preprocessing time so a frame touches no map indices.
#[derive(Clone, Copy, Debug)]
pub struct SectorInfo {
    pub floor_height: i16,
    pub ceiling_height: i16,
    pub light_level: i16,
    pub floor_texture: [u8; 8],
    pub ceiling_texture: [u8; 8],
}

/// Everything the rasterizer needs of one wall segment, gathered once
/// when the renderer is built.
#[derive(Clone, Copy, Debug)]
pub struct SegExtraData {
    pub v1: Vertex,
    pub v2: Vertex,
    pub seg_offset: u16,
    pub angle_fixed: i64,
    pub line_flags: u16,
    pub side_offset: Vector2<i16>,
    pub has_front: bool,
    pub front: SectorInfo,
    pub back: Option<SectorInfo>,
    pub middle_is_void: bool,
    pub ceiling_texture_id: Option<usize>,
    pub upper_texture_id: Option<usize>,
    pub wall_texture_id: Option<usize>,
    pub lower_texture_id: Option<usize>,
    pub floor_texture_id: Option<usize>,
    pub sky_texture_id: Option<usize>,
    pub light_level: i64,
}

/// A classified wall: solid walls obstruct their columns for the rest of
/// the frame, portal walls leave them open.
#[derive(Clone, Copy, Debug)]
pub enum WallType {
    SolidWall(usize),
    PortalWall(usize),
}

/// The viewer a frame is rendered for, in fixed point.
#[derive(Clone, Copy, Debug)]
pub struct Viewer {
    pub position: Vector2<i64>,
    pub angle: i64,
    pub height: i64,
}

/// Whether a viewer's numbers are inside the renderer's working range.
pub open spec fn viewer_ok(v: Viewer) -> bool {
    &&& -0x8000_0000 <= v.position.x <= 0x8000_0000
    &&& -0x8000_0000 <= v.position.y <= 0x8000_0000
    &&& 0 <= v.angle < crate::math::TURN
    &&& -0x8000_0000 <= v.height <= 0x8000_0000
}

/// How a segment is classified: nothing for an empty column range or a
/// segment without a front sector; solid without a back sector; a back
/// sector with different floor or ceiling heights opens a portal; equal
/// heights with equal textures, equal light and no middle texture is
/// invisible; anything else is a portal.
pub open spec fn spec_classify(ex: SegExtraData, start: u32, end: u32) -> Option<WallType> {
    if start == end {
        None
    } else if !ex.has_front {
        None
    } else {
        match ex.back {
            None => Some(WallType::SolidWall(0)),
            Some(b) => {
                if ex.front.floor_height != b.floor_height || ex.front.ceiling_height
                    != b.ceiling_height {
                    Some(WallType::PortalWall(0))
                } else if ex.front.ceiling_texture@ == b.ceiling_texture@
                    && ex.front.floor_texture@ == b.floor_texture@ && ex.front.light_level
                    == b.light_level && ex.middle_is_void {
                    None
                } else {
                    Some(WallType::PortalWall(0))
                }
            },
        }
    }
}

/// The occlusion update of one wall over the column range `[start, end)`:
/// a solid wall clears its still-open columns, a portal changes nothing.
pub open spec fn spec_occlude(old_range: Seq<bool>, solid: bool, start: int, end: int) -> Seq<
    bool,
> {
    Seq::new(old_range.len(), |x: int| old_range[x] && !(solid && start <= x < end))
}

/// A texture coordinate wrapped toroidally into `[0, size)`.
pub open spec fn spec_wrap(value: int, size: int) -> int {
    (value / 65536) % size
}

/// Wraps a fixed-point texture coordinate into `[0, size)`.
pub fn circual_tex(value: i64, size: u16) -> (r: u16)
    requires
        size > 0,
        -0x4000_0000_0000_0000 <= value <= 0x4000_0000_0000_0000,
    ensures
        r == spec_wrap(value as int, size as int),
        r < size,
{
    let v = crate::fixed::floor_div(value as i128, 65536) as i64;
    proof {
        crate::fixed::lemma_div_shrinks(value as int, 65536, 0x1000_0000_0000_0000);
        assert((value as i128) as int == value as int);
        vstd::arithmetic::div_mod::lemma_fundamental_div_mod(v as int, size as int);
        vstd::arithmetic::div_mod::lemma_mod_bound(v as int, size as int);
        assert(-0x1000_0000_0000_0000 - 0x10000 <= (v as int / size as int) * size <= v as int)
            by (nonlinear_arith)
            requires
                v as int == size * (v as int / size as int) + (v as int % (size as int)),
                0 <= (v as int % (size as int)) < size,
                0 < size <= 0x10000,
                -0x1000_0000_0000_0000 <= v <= 0x1000_0000_0000_0000,
        ;
        crate::fixed::lemma_div_shrinks(v as int, size as int, 0x1000_0000_0000_0000);
        assert((v as i128) as int == v as int);
    }
    let q = crate::fixed::floor_div(v as i128, size as i128) as i64;
    let m = v - q * (size as i64);
    proof {
        assert(m == v as int % (size as int)) by (nonlinear_arith)
            requires
                v as int == size * (v as int / size as int) + (v as int % (size as int)),
                q == v as int / size as int,
                m == v - q * size,
        ;
    }
    m as u16
}

/// Scales one colour by a fixed-point light level in [0, 1].
pub fn apply_light_to_color(rgba: [u8; 4], light_level: i64) -> (r: [u8; 4])
    requires
        0 <= light_level <= 65536,
    ensures
        r@[0] == rgba@[0] * light_level / 65536,
        r@[1] == rgba@[1] * light_level / 65536,
        r@[2] == rgba@[2] * light_level / 65536,
        r@[3] == rgba@[3],
{
    proof {
        assert(0 <= rgba@[0] * light_level <= 65536 * 255 && 0 <= rgba@[1] * light_level <= 65536
            * 255 && 0 <= rgba@[2] * light_level <= 65536 * 255) by (nonlinear_arith)
            requires
                0 <= light_level <= 65536 && 0 <= rgba@[0] <= 255 && 0 <= rgba@[1] <= 255 && 0
                    <= rgba@[2] <= 255,
        ;
        crate::fixed::lemma_div_shrinks(rgba@[0] as int * light_level, 65536, 255);
        crate::fixed::lemma_div_shrinks(rgba@[1] as int * light_level, 65536, 255);
        crate::fixed::lemma_div_shrinks(rgba@[2] as int * light_level, 65536, 255);
    }
    let r0 = ((rgba[0] as i64) * light_level / 65536) as u8;
    let r1 = ((rgba[1] as i64) * light_level / 65536) as u8;
    let r2 = ((rgba[2] as i64) * light_level / 65536) as u8;
    [r0, r1, r2, rgba[3]]
}

/// A deterministic colour for a texture name: a byte-fold hash picks the
/// channels, each held at least at 32 so the colour stays visible, and
/// the void name gives white; the sector light scales the result.
pub fn name_to_color(array: &[u8; 8], light_level: i64) -> (r: [u8; 4])
    requires
        0 <= light_level <= 65536,
    ensures
        r@[3] == 0xFF,
{
    let clamped = if light_level < 6554 {
        6554
    } else {
        light_level
    };
    let mut h: u64 = 1469598103934665603;
    let mut i: usize = 0;
    while i < 8
        invariant
            i <= 8,
        decreases 8 - i,
    {
        h = (h ^ (array[i] as u64)).wrapping_mul(1099511628211);
        i += 1;
    }
    let void = array[0] == 0x2D && array[1] == 0 && array[2] == 0 && array[3] == 0 && array[4]
        == 0 && array[5] == 0 && array[6] == 0 && array[7] == 0;
    let (cr, cg, cb) = if void {
        (255u8, 255u8, 255u8)
    } else {
        let r8 = ((h >> 16) & 0xFF) as u8;
        let g8 = ((h >> 8) & 0xFF) as u8;
        let b8 = (h & 0xFF) as u8;
        (
            if r8 < 32 {
                32u8
            } else {
                r8
            },
            if g8 < 32 {
                32u8
            } else {
                g8
            },
            if b8 < 32 {
                32u8
            } else {
                b8
            },
        )
    };
    let lit = apply_light_to_color([cr, cg, cb, 0xFF], clamped);
    lit
}

/// The 3D software renderer: per-frame occlusion state, the camera and
/// the per-segment render data.
pub struct RenderSoftware {
    pub seg_extra_data: Vec<SegExtraData>,
    pub sub_sectors: Vec<SubSector>,
    pub width: u32,
    pub height: u32,
    pub half_height: i64,
    pub camera: Camera,
    pub screen_range: Vec<bool>,
    pub upper_clip: Vec<i32>,
    pub lower_clip: Vec<i32>,
    pub sky_inv_scale: i64,
    pub sky_texture_alt: i16,
    pub flats_len: usize,
    pub textures_len: usize,
}

impl RenderSoftware {
    /// Everything but the per-frame arrays: the camera and screen
    /// numbers agree, every segment's texture indices point into the
    /// texture stores, and the leaves stay inside the segment store.
    pub open spec fn wf_core(self) -> bool {
        &&& self.camera.wf()
        &&& 2 <= self.width <= 4096
        &&& self.width == 2 * self.camera.half_width
        &&& 1 <= self.height <= 4096
        &&& self.half_height == (self.height as int) * 65536 / 2
        &&& forall|i: int|
            0 <= i < self.seg_extra_data@.len() ==> (#[trigger] self.seg_extra_data@[i]).ids_ok(
                self.flats_len as int,
                self.textures_len as int,
            )
        &&& forall|i: int|
            0 <= i < self.sub_sectors@.len() ==> (#[trigger] self.sub_sectors@[i]).first_seg_id
                + self.sub_sectors@[i].seg_count <= self.seg_extra_data@.len()
                && self.sub_sectors@[i].first_seg_id + self.sub_sectors@[i].seg_count <= u16::MAX
        &&& 0 <= self.sky_inv_scale <= 0x1_0000_0000
    }

    /// The per-frame arrays cover the screen and every clip bound lies
    /// inside it, on top of the core well-formedness.
    pub open spec fn wf(self) -> bool {
        &&& self.wf_core()
        &&& self.screen_range@.len() == self.width
        &&& self.upper_clip@.len() == self.width
        &&& self.lower_clip@.len() == self.width
        &&& forall|x: int|
            0 <= x < self.width ==> 0 <= #[trigger] self.upper_clip@[x] <= self.height
        &&& forall|x: int|
            0 <= x < self.width ==> 0 <= #[trigger] self.lower_clip@[x] <= self.height
    }

    /// Marks every per-frame column open and resets the clip bounds to
    /// the full screen.
    pub fn reset(&mut self)
        requires
            old(self).wf_core(),
        ensures
            final(self).wf(),
            final(self).seg_extra_data@ == old(self).seg_extra_data@,
            final(self).sub_sectors@ == old(self).sub_sectors@,
            final(self).width == old(self).width,
            final(self).height == old(self).height,
            final(self).half_height == old(self).half_height,
            final(self).camera == old(self).camera,
            final(self).sky_inv_scale == old(self).sky_inv_scale,
            final(self).sky_texture_alt == old(self).sky_texture_alt,
            final(self).flats_len == old(self).flats_len,
            final(self).textures_len == old(self).textures_len,
            forall|x: int| 0 <= x < final(self).width ==> #[trigger] final(self).screen_range@[x],
            forall|x: int| 0 <= x < final(self).width ==> #[trigger] final(self).upper_clip@[x]
                == 0,
            forall|x: int| 0 <= x < final(self).width ==> #[trigger] final(self).lower_clip@[x]
                == final(self).height,
            final(self).screen_range@.len() == final(self).width,
    {
        let w = self.width as usize;
        let h = self.height as i32;
        let mut screen_range: Vec<bool> = Vec::new();
        let mut upper_clip: Vec<i32> = Vec::new();
        let mut lower_clip: Vec<i32> = Vec::new();
        let mut i: usize = 0;
        while i < w
            invariant
                screen_range@.len() == i,
                upper_clip@.len() == i,
                lower_clip@.len() == i,
                i <= w,
                h == old(self).height,
                forall|x: int| 0 <= x < i ==> #[trigger] screen_range@[x],
                forall|x: int| 0 <= x < i ==> #[trigger] upper_clip@[x] == 0,
                forall|x: int| 0 <= x < i ==> #[trigger] lower_clip@[x] == h,
            decreases w - i,
        {
            screen_range.push(true);
            upper_clip.push(0);
            lower_clip.push(h);
            i += 1;
        }
        self.screen_range = screen_range;
        self.upper_clip = upper_clip;
        self.lower_clip = lower_clip;
    }

    /// Classifies a clipped segment as solid, portal or invisible.
    pub fn classify_segment(&self, seg_ex_id: usize, start: u32, end: u32) -> (r: Option<
        WallType,
    >)
        requires
            seg_ex_id < self.seg_extra_data@.len(),
        ensures
            ({
                let s = spec_classify(self.seg_extra_data@[seg_ex_id as int], start, end);
                match r {
                    None => s is None,
                    Some(WallType::SolidWall(i)) => i == seg_ex_id && s matches Some(
                        WallType::SolidWall(_),
                    ),
                    Some(WallType::PortalWall(i)) => i == seg_ex_id && s matches Some(
                        WallType::PortalWall(_),
                    ),
                }
            }),
    {
        if start == end {
            return None;
        }
        let ex = &self.seg_extra_data[seg_ex_id];
        if !ex.has_front {
            return None;
        }
        match &ex.back {
            None => Some(WallType::SolidWall(seg_ex_id)),
            Some(b) => {
                if ex.front.floor_height != b.floor_height || ex.front.ceiling_height
                    != b.ceiling_height {
                    return Some(WallType::PortalWall(seg_ex_id));
                }
                if crate::wad::name_eq(&ex.front.ceiling_texture, &b.ceiling_texture)
                    && crate::wad::name_eq(&ex.front.floor_texture, &b.floor_texture)
                    && ex.front.light_level == b.light_level && ex.middle_is_void {
                    return None;
                }
                Some(WallType::PortalWall(seg_ex_id))
            },
        }
    }
}

impl SegExtraData {
    /// Every texture index the segment carries points into the texture
    /// stores of the given sizes.
    pub open spec fn ids_ok(self, flats_len: int, textures_len: int) -> bool {
        &&& (self.ceiling_texture_id matches Some(i) ==> i < flats_len)
        &&& (self.floor_texture_id matches Some(i) ==> i < flats_len)
        &&& (self.upper_texture_id matches Some(i) ==> i < textures_len)
        &&& (self.wall_texture_id matches Some(i) ==> i < textures_len)
        &&& (self.lower_texture_id matches Some(i) ==> i < textures_len)
        &&& (self.sky_texture_id matches Some(i) ==> i < textures_len)
        &&& 0 <= self.light_level <= 65536
        &&& 0 <= self.angle_fixed < crate::math::TURN
    }
}

/// A fixed-point product of a working-range value and a unit-scale
/// factor, bounded so it can never overflow.
pub fn fmuls(a: i64, b: i64) -> (r: i64)
    requires
        -0x10_0000_0000_0000 <= a <= 0x10_0000_0000_0000,
        -0x400_0000 <= b <= 0x400_0000,
    ensures
        r == (a as int * b as int) / 65536,
        -0x4000_0000_0000_0000 <= r <= 0x4000_0000_0000_0000,
        -65536 <= b <= 65536 ==> -0x10_0000_0000_0000 <= r <= 0x10_0000_0000_0000,
        -0x1_0000_0000 <= a <= 0x1_0000_0000 ==> -0x400_0000_0000 <= r <= 0x400_0000_0000,
{
    proof {
        assert(-0x4000_0000_0000_0000int * 65536 <= a * b <= 0x4000_0000_0000_0000int * 65536)
            by (nonlinear_arith)
            requires
                -0x10_0000_0000_0000 <= a <= 0x10_0000_0000_0000 && -0x400_0000 <= b
                    <= 0x400_0000,
        ;
        crate::fixed::lemma_div_shrinks(a as int * b as int, 65536, 0x4000_0000_0000_0000int);
        if -65536 <= b <= 65536 {
            assert(-0x10_0000_0000_0000int * 65536 <= a * b <= 0x10_0000_0000_0000int * 65536)
                by (nonlinear_arith)
                requires
                    -0x10_0000_0000_0000 <= a <= 0x10_0000_0000_0000 && -65536 <= b <= 65536,
            ;
            crate::fixed::lemma_div_shrinks(a as int * b as int, 65536, 0x10_0000_0000_0000int);
        }
        if -0x1_0000_0000 <= a <= 0x1_0000_0000 {
            assert(-0x400_0000_0000int * 65536 <= a * b <= 0x400_0000_0000int * 65536)
                by (nonlinear_arith)
                requires
                    -0x1_0000_0000 <= a <= 0x1_0000_0000 && -0x400_0000 <= b <= 0x400_0000,
            ;
            crate::fixed::lemma_div_shrinks(a as int * b as int, 65536, 0x400_0000_0000int);
        }
    }
    crate::fixed::fmul(a, b)
}

impl RenderSoftware {
    /// Draws a clamped solid-colour column.
    pub fn draw_line(&self, surface: &mut DoomSurface, x: i32, y1: i32, y2: i32, color: &[u8; 4])
        requires
            old(surface).wf(),
            self.wf(),
        ensures
            final(surface).wf(),
            final(surface).size == old(surface).size,
            forall|k: int|
                0 <= k < old(surface).buffer@.len() && crate::window::byte_col(
                    old(surface).size,
                    k,
                ) != x ==> final(surface).buffer@[k] == old(surface).buffer@[k],
    {
        let h = self.height as i32;
        let cy1 = if y1 < 0 {
            0
        } else if y1 > h {
            h
        } else {
            y1
        };
        let cy2 = if y2 < 0 {
            0
        } else if y2 > h {
            h
        } else {
            y2
        };
        if x >= 0 && x < self.width as i32 && cy1 < cy2 {
            surface.draw_line_lt(x as usize, cy1 as usize, cy2 as usize, color);
        }
    }

    /// Draws a textured wall column: the texel row advances by the
    /// inverse scale per pixel and wraps toroidally.
    pub fn draw_line_texture(
        &self,
        surface: &mut DoomSurface,
        x: i32,
        y1: i32,
        y2: i32,
        column: i64,
        texture_alt: i16,
        inv_scale: i64,
        tex: &Texture<4>,
        light_level: i64,
    )
        requires
            old(surface).wf(),
            self.wf(),
            tex.wf(),
            tex.size.x > 0,
            tex.size.y > 0,
            -0x4000_0000_0000_0000 <= column <= 0x4000_0000_0000_0000,
            0 <= inv_scale <= 0x1_0000_0000,
            0 <= light_level <= 65536,
        ensures
            final(surface).wf(),
            final(surface).size == old(surface).size,
            forall|k: int|
                0 <= k < old(surface).buffer@.len() && crate::window::byte_col(
                    old(surface).size,
                    k,
                ) != x ==> final(surface).buffer@[k] == old(surface).buffer@[k],
    {
        let h = self.height as i32;
        let cy1 = if y1 < 0 {
            0
        } else if y1 > h {
            h
        } else {
            y1
        };
        let cy2 = if y2 < 0 {
            0
        } else if y2 > h {
            h
        } else {
            y2
        };
        if !(x >= 0 && x < self.width as i32 && cy1 < cy2) {
            return ;
        }
        let u = circual_tex(column, tex.size.x);
        let dy_pix: i64 = (cy1 as i64) - (self.height as i64) / 2;
        proof {
            assert(-0x1_0000_0000_0000 <= dy_pix * inv_scale <= 0x1_0000_0000_0000)
                by (nonlinear_arith)
                requires
                    -4096 <= dy_pix <= 4096 && 0 <= inv_scale <= 0x1_0000_0000,
            ;
        }
        let mut v: i64 = (texture_alt as i64) * 65536 + dy_pix * inv_scale;
        let mut y = cy1;
        while y < cy2
            invariant
                surface.wf(),
                surface.size == old(surface).size,
                self.wf(),
                tex.wf(),
                tex.size.x > 0,
                tex.size.y > 0,
                u < tex.size.x,
                0 <= inv_scale <= 0x1_0000_0000,
                0 <= light_level <= 65536,
                cy2 <= h,
                h == self.height,
                0 <= x,
                0 <= y,
                surface.buffer@.len() == old(surface).buffer@.len(),
                -0x10_0000_0000_0000 <= v <= 0x10_0000_0000_0000,
                forall|k: int|
                    0 <= k < old(surface).buffer@.len() && crate::window::byte_col(
                        old(surface).size,
                        k,
                    ) != x ==> surface.buffer@[k] == old(surface).buffer@[k],
            decreases cy2 - y,
        {
            let tv = circual_tex(v, tex.size.y);
            let c = tex.get(u, tv);
            let lit = apply_light_to_color(c, light_level);
            let ghost before = surface.buffer@;
            surface.draw_lt(&Vector2 { x: x as usize, y: y as usize }, &lit);
            proof {
                assert forall|k: int|
                    0 <= k < old(surface).buffer@.len() && crate::window::byte_col(
                        old(surface).size,
                        k,
                    ) != x implies surface.buffer@[k] == old(surface).buffer@[k] by {
                    if (x as usize) < old(surface).size.x && (y as usize) < old(surface).size.y {
                        let base = crate::window::pixel_index(old(surface).size, x as int, y as int);
                        if base <= k < base + 4 {
                            crate::window::lemma_pixel_bytes_col(
                                old(surface).size,
                                x as int,
                                y as int,
                                k - base,
                            );
                        }
                        assert(surface.buffer@[k] == before[k]);
                    } else {
                        assert(surface.buffer@ == before);
                    }
                }
            }
            if v > 0x8_0000_0000_0000 || v < -0x8_0000_0000_0000 {
                return ;
            }
            v = v + inv_scale;
            y += 1;
        }
    }

    /// Draws a floor or ceiling flat column by perspective projection of
    /// each screen row onto the plane at `world_z`.
    pub fn draw_flat(
        &self,
        surface: &mut DoomSurface,
        x: i32,
        y1: i32,
        y2: i32,
        world_z: i64,
        player_angle: i64,
        player_pos: &Vector2<i64>,
        tex: &Texture<3>,
        light_level: i64,
    )
        requires
            old(surface).wf(),
            self.wf(),
            tex.wf(),
            tex.size.x > 0,
            tex.size.y > 0,
            -0x1_0000_0000 <= world_z <= 0x1_0000_0000,
            0 <= player_angle < crate::math::TURN,
            -0x40_0000_0000 <= player_pos.x <= 0x40_0000_0000,
            -0x40_0000_0000 <= player_pos.y <= 0x40_0000_0000,
            0 <= light_level <= 65536,
        ensures
            final(surface).wf(),
            final(surface).size == old(surface).size,
            forall|k: int|
                0 <= k < old(surface).buffer@.len() && crate::window::byte_col(
                    old(surface).size,
                    k,
                ) != x ==> final(surface).buffer@[k] == old(surface).buffer@[k],
    {
        let h = self.height as i32;
        let cy1 = if y1 < 0 {
            0
        } else if y1 > h {
            h
        } else {
            y1
        };
        let cy2 = if y2 < 0 {
            0
        } else if y2 > h {
            h
        } else {
            y2
        };
        if !(x >= 0 && x < self.width as i32 && cy1 < cy2) {
            return ;
        }
        let dir_x = crate::math::cos_fixed(player_angle);
        let dir_y = crate::math::sin_fixed(player_angle);
        let half_w_pix: i64 = (self.width as i64) / 2;
        let half_h_pix: i64 = (self.height as i64) / 2;
        let mut y = cy1;
        while y < cy2
            invariant
                surface.wf(),
                surface.size == old(surface).size,
                self.wf(),
                tex.wf(),
                tex.size.x > 0,
                tex.size.y > 0,
                -65536 <= dir_x <= 65536,
                -65536 <= dir_y <= 65536,
                0 <= half_w_pix <= 2048,
                0 <= half_h_pix <= 2048,
                -0x1_0000_0000 <= world_z <= 0x1_0000_0000,
                -0x40_0000_0000 <= player_pos.x <= 0x40_0000_0000,
                -0x40_0000_0000 <= player_pos.y <= 0x40_0000_0000,
                0 <= light_level <= 65536,
                cy2 <= h,
                h == self.height,
                0 <= x < self.width,
                0 <= y,
                surface.buffer@.len() == old(surface).buffer@.len(),
                forall|k: int|
                    0 <= k < old(surface).buffer@.len() && crate::window::byte_col(
                        old(surface).size,
                        k,
                    ) != x ==> surface.buffer@[k] == old(surface).buffer@[k],
            decreases cy2 - y,
        {
            let den: i64 = half_h_pix - (y as i64);
            if den != 0 {
                // Distance of the plane row: half the width times the
                // plane height over the row's offset from the horizon.
                proof {
                    assert(-0x800_0000_0000 <= half_w_pix * world_z <= 0x800_0000_0000)
                        by (nonlinear_arith)
                        requires
                            0 <= half_w_pix <= 2048 && -0x1_0000_0000 <= world_z
                                <= 0x1_0000_0000,
                    ;
                }
                let num: i64 = half_w_pix * world_z;
                let dpos: i64 = if den < 0 {
                    -den
                } else {
                    den
                };
                let z128 = crate::fixed::floor_div(num as i128, dpos as i128);
                proof {
                    crate::fixed::lemma_div_bounded(num as int, dpos as int, 0x800_0000_0000);
                    assert((num as i128) as int == num as int);
                }
                let zpos = z128 as i64;
                let zsigned = if den > 0 {
                    zpos
                } else {
                    -zpos
                };
                // Plane distances beyond the world scale wrap the same
                // texels anyway, so hold them at the working bound.
                let z = crate::math::clamp(zsigned, -0x100_0000_0000, 0x100_0000_0000);
                let zdx = fmuls(z, dir_x);
                let zdy = fmuls(z, dir_y);
                let px = zdx + player_pos.x;
                let py = zdy + player_pos.y;
                let left_x = px - zdy;
                let left_y = py + zdx;
                let right_x = px + zdy;
                let right_y = py - zdx;
                let ddx = crate::fixed::floor_div(
                    (right_x - left_x) as i128,
                    self.width as i128,
                ) as i64;
                let ddy = crate::fixed::floor_div(
                    (right_y - left_y) as i128,
                    self.width as i128,
                ) as i64;
                proof {
                    crate::fixed::lemma_div_bounded(
                        right_x - left_x,
                        self.width as int,
                        0x40_0000_0000_0000,
                    );
                    crate::fixed::lemma_div_bounded(
                        right_y - left_y,
                        self.width as int,
                        0x40_0000_0000_0000,
                    );
                    assert(((right_x - left_x) as i128) as int == right_x - left_x);
                    assert(((right_y - left_y) as i128) as int == right_y - left_y);
                }
                let dx = crate::math::clamp(ddx, -0x4000_0000, 0x4000_0000);
                let dy = crate::math::clamp(ddy, -0x4000_0000, 0x4000_0000);
                proof {
                    assert(-0x4000_0000int * 4096 <= dx * x <= 0x4000_0000int * 4096
                        && -0x4000_0000int * 4096 <= dy * x <= 0x4000_0000int * 4096)
                        by (nonlinear_arith)
                        requires
                            -0x4000_0000 <= dx <= 0x4000_0000 && -0x4000_0000 <= dy
                                <= 0x4000_0000 && 0 <= x <= 4096,
                    ;
                }
                let sx = left_x + dx * (x as i64);
                let sy = left_y + dy * (x as i64);
                if sx >= -0x4000_0000_0000_0000 && sx <= 0x4000_0000_0000_0000 && sy
                    >= -0x4000_0000_0000_0000 && sy <= 0x4000_0000_0000_0000 {
                    let tx = circual_tex(sx, tex.size.x);
                    let ty = circual_tex(sy, tex.size.y);
                    let c3 = tex.get(tx, ty);
                    let lit = apply_light_to_color([c3[0], c3[1], c3[2], 0xFF], light_level);
                    let ghost before = surface.buffer@;
                    surface.draw_lt(&Vector2 { x: x as usize, y: y as usize }, &lit);
                    proof {
                        assert forall|k: int|
                            0 <= k < old(surface).buffer@.len() && crate::window::byte_col(
                                old(surface).size,
                                k,
                            ) != x implies surface.buffer@[k] == old(surface).buffer@[k] by {
                            if (x as usize) < old(surface).size.x && (y as usize) < old(
                                surface,
                            ).size.y {
                                let base = crate::window::pixel_index(
                                    old(surface).size,
                                    x as int,
                                    y as int,
                                );
                                if base <= k < base + 4 {
                                    crate::window::lemma_pixel_bytes_col(
                                        old(surface).size,
                                        x as int,
                                        y as int,
                                        k - base,
                                    );
                                }
                                assert(surface.buffer@[k] == before[k]);
                            } else {
                                assert(surface.buffer@ == before);
                            }
                        }
                    }
                }
            }
            y += 1;
        }
    }
}

/// The tangent of any angle, wrapped into the centered turn; right by
/// the poles the value is held at the working bound.
pub open spec fn spec_tan_any(a: int) -> int {
    let c = crate::camera::spec_center(a);
    if c > 5832704 {
        0x400000
    } else if c < -5832704 {
        -0x400000
    } else {
        crate::camera::spec_tan(c)
    }
}

/// The tangent of any fixed-point angle, clamped by the poles.
pub fn tan_any(a: i64) -> (r: i64)
    requires
        -0x1000_0000_0000_0000 <= a <= 0x1000_0000_0000_0000,
    ensures
        r == spec_tan_any(a as int),
        -0x400000 <= r <= 0x400000,
{
    let c = crate::math::normalize_degrees(a + crate::math::HALF_TURN) - crate::math::HALF_TURN;
    if c > 5832704 {
        0x400000
    } else if c < -5832704 {
        -0x400000
    } else {
        crate::camera::tan_fixed(c)
    }
}

/// The per-wall constants of one `draw_wall` call.
#[derive(Clone, Copy, Debug)]
pub struct WallDrawCtx {
    pub solid: bool,
    pub seg_id: usize,
    pub b_draw_ceiling: bool,
    pub b_draw_wall: bool,
    pub b_draw_floor: bool,
    pub b_draw_upper_wall: bool,
    pub b_draw_lower_wall: bool,
    pub b_ceiling_is_sky: bool,
    pub front_wall_ceiling: i64,
    pub front_wall_floor: i64,
    pub middle_texture_alt: i16,
    pub upper_texture_alt: i16,
    pub lower_texture_alt: i16,
    pub wall_center_angle: i64,
    pub wall_distance: i64,
    pub wall_offset: i64,
    pub light_level: i64,
    pub angle: i64,
    pub position: Vector2<i64>,
}

/// Whether the per-wall constants lie in the rasterizer's working range.
pub open spec fn ctx_ok(c: WallDrawCtx) -> bool {
    &&& (c.solid ==> !c.b_draw_upper_wall && !c.b_draw_lower_wall)
    &&& 0 <= c.light_level <= 65536
    &&& 0 <= c.angle < crate::math::TURN
    &&& -0x8000_0000 <= c.position.x <= 0x8000_0000
    &&& -0x8000_0000 <= c.position.y <= 0x8000_0000
    &&& -0x2_0000_0000 <= c.wall_center_angle <= 0x2_0000_0000
    &&& 0 <= c.wall_distance <= 0x10_0000_0000_0000
    &&& -0x40_0000_0000_0000 <= c.wall_offset <= 0x40_0000_0000_0000
    &&& -0x1_0000_0000 <= c.front_wall_ceiling <= 0x1_0000_0000
    &&& -0x1_0000_0000 <= c.front_wall_floor <= 0x1_0000_0000
}

/// The drawing decisions one wall asks for: upper strip, ceiling,
/// lower strip, floor, and middle face, in that order.  For a portal a
/// shared sky ceiling lifts the front ceiling to the back ceiling
/// first, so the sky is never height-clipped.
pub open spec fn spec_wall_flags(ex: SegExtraData, solid: bool, height: int) -> (
    bool,
    bool,
    bool,
    bool,
    bool,
) {
    let sky = ex.sky_texture_id is Some;
    let fwf = ex.front.floor_height as int * 65536 - height;
    let fwc0 = ex.front.ceiling_height as int * 65536 - height;
    if solid {
        (false, spec_draws_ceiling(fwc0, sky), false, fwf < 0, ex.wall_texture_id is Some)
    } else {
        match ex.back {
            None => (false, false, false, false, false),
            Some(b) => {
                let same_ceil = ex.front.ceiling_texture@ == b.ceiling_texture@;
                let bwf = b.floor_height as int * 65536 - height;
                let bwc = b.ceiling_height as int * 65536 - height;
                let fwc = if same_ceil && sky {
                    bwc
                } else {
                    fwc0
                };
                let ceiling_differs = fwc != bwc || ex.front.light_level != b.light_level
                    || !same_ceil;
                let floor_differs = fwf != bwf || ex.front.light_level != b.light_level
                    || ex.front.floor_texture@ != b.floor_texture@;
                (
                    ceiling_differs && ex.upper_texture_id is Some && bwc < fwc,
                    ceiling_differs && (fwc >= 0 || sky),
                    floor_differs && ex.floor_texture_id is Some && bwf > fwf,
                    floor_differs && fwf <= 0,
                    false,
                )
            },
        }
    }
}

/// Whether the wall shows anything at all: it needs a front sector, a
/// portal needs a back sector, and at least one strip must be asked
/// for.
pub open spec fn spec_wall_visible(ex: SegExtraData, solid: bool, height: int) -> bool {
    &&& ex.has_front
    &&& (!solid ==> ex.back is Some)
    &&& ({
        let f = spec_wall_flags(ex, solid, height);
        f.0 || f.1 || f.2 || f.3 || f.4
    })
}

/// The stepped screen-space state of one wall draw.
#[derive(Clone, Copy, Debug)]
pub struct WallStep {
    pub wall_scale_step: i64,
    pub wall_y1: i64,
    pub wall_y1_step: i64,
    pub wall_y2: i64,
    pub wall_y2_step: i64,
    pub portal_y1: i64,
    pub portal_y1_step: i64,
    pub portal_y2: i64,
    pub portal_y2_step: i64,
    pub wall_tex_y_scale: i64,
}

/// Whether the stepped state lies in the rasterizer's working range.
pub open spec fn step_ok(st: WallStep) -> bool {
    &&& -0x800000 <= st.wall_scale_step <= 0x800000
    &&& -0x8000_0000_0000 <= st.wall_y1 <= 0x8000_0000_0000
    &&& -0x8000_0000_0000 <= st.wall_y2 <= 0x8000_0000_0000
    &&& -0x8000_0000_0000 <= st.portal_y1 <= 0x8000_0000_0000
    &&& -0x8000_0000_0000 <= st.portal_y2 <= 0x8000_0000_0000
    &&& -0x4000_0000_0000_0000 <= st.wall_y1_step <= 0x4000_0000_0000_0000
    &&& -0x4000_0000_0000_0000 <= st.wall_y2_step <= 0x4000_0000_0000_0000
    &&& -0x4000_0000_0000_0000 <= st.portal_y1_step <= 0x4000_0000_0000_0000
    &&& -0x4000_0000_0000_0000 <= st.portal_y2_step <= 0x4000_0000_0000_0000
    &&& -0x8000_0000_0000 <= st.wall_tex_y_scale <= 0x8000_0000_0000
}

impl RenderSoftware {
    /// The perspective scale at the range's first column and its change
    /// per column toward the last.
    pub fn wall_scales(
        &self,
        start: u32,
        end: u32,
        wall_normal_angle: i64,
        wall_distance: i64,
        angle: i64,
    ) -> (r: (i64, i64))
        requires
            self.wf(),
            start <= end <= self.width,
            0 <= wall_normal_angle <= crate::math::TURN,
            0 <= angle < crate::math::TURN,
            0 <= wall_distance <= 0x1_0000_0000_0000,
        ensures
            256 <= r.0 <= 4194304,
            -0x800000 <= r.1 <= 0x800000,
    {
        let wall_scale_1 = self.camera.scale_from_global_angle(
            start,
            wall_normal_angle,
            wall_distance,
            angle,
        );
        let wall_scale_step: i64 = if start < end {
            let wall_scale_2 = self.camera.scale_from_global_angle(
                end,
                wall_normal_angle,
                wall_distance,
                angle,
            );
            let diff = wall_scale_2 - wall_scale_1;
            let q = crate::fixed::floor_div(diff as i128, (end - start) as i128) as i64;
            proof {
                crate::fixed::lemma_div_bounded(diff as int, (end - start) as int, 0x800000);
                assert((diff as i128) as int == diff as int);
            }
            q
        } else {
            0
        };
        (wall_scale_1, wall_scale_step)
    }

    /// Works out the per-wall constants and the initial screen-space
    /// state of one wall draw; `None` when nothing of the wall shows.
    #[verifier::rlimit(100)]
    pub fn prepare_wall(
        &self,
        textures: &Vec<Texture<4>>,
        wtype: &WallType,
        start: u32,
        end: u32,
        wall_angle: i64,
        viewer: &Viewer,
    ) -> (r: Option<(WallDrawCtx, WallStep)>)
        requires
            self.wf(),
            viewer_ok(*viewer),
            0 <= wall_angle < crate::math::TURN,
            start <= end <= self.width,
            self.textures_len == textures@.len(),
            forall|i: int|
                0 <= i < textures@.len() ==> (#[trigger] textures@[i]).wf() && textures@[i].size.x
                    > 0 && textures@[i].size.y > 0,
            (match *wtype {
                WallType::SolidWall(i) => i < self.seg_extra_data@.len(),
                WallType::PortalWall(i) => i < self.seg_extra_data@.len(),
            }),
        ensures
            // Something of the wall shows exactly when the flags ask
            // for a strip.
            ({
                let idx = match *wtype {
                    WallType::SolidWall(i) => i,
                    WallType::PortalWall(i) => i,
                };
                let ex = self.seg_extra_data@[idx as int];
                &&& (r is Some <==> spec_wall_visible(
                    ex,
                    is_solid(*wtype),
                    viewer.height as int,
                ))
                &&& (r matches Some(p) ==> {
                    let f = spec_wall_flags(ex, is_solid(*wtype), viewer.height as int);
                    &&& ctx_ok(p.0)
                    &&& step_ok(p.1)
                    &&& p.0.seg_id == idx
                    &&& p.0.solid == is_solid(*wtype)
                    &&& p.0.b_ceiling_is_sky == (ex.sky_texture_id is Some)
                    &&& p.0.b_draw_upper_wall == f.0
                    &&& p.0.b_draw_ceiling == f.1
                    &&& p.0.b_draw_lower_wall == f.2
                    &&& p.0.b_draw_floor == f.3
                    &&& p.0.b_draw_wall == f.4
                })
            }),
    {
        let (seg_id, solid) = match *wtype {
            WallType::SolidWall(i) => (i, true),
            WallType::PortalWall(i) => (i, false),
        };
        let ex = self.seg_extra_data[seg_id];
        if !ex.has_front {
            return None;
        }
        let angle = viewer.angle;
        let position = viewer.position;
        let height = viewer.height;
        let light_level = ex.light_level;
        // Heights of the wall faces relative to the viewer's eye.
        let mut front_wall_ceiling: i64 = (ex.front.ceiling_height as i64) * 65536 - height;
        let front_wall_floor: i64 = (ex.front.floor_height as i64) * 65536 - height;
        let b_ceiling_is_sky = ex.sky_texture_id.is_some();
        let (back_wall_floor, back_wall_ceiling, back_same_ceiling) = match ex.back {
            Some(b) => (
                (b.floor_height as i64) * 65536 - height,
                (b.ceiling_height as i64) * 65536 - height,
                crate::wad::name_eq(&ex.front.ceiling_texture, &b.ceiling_texture),
            ),
            None => (0, 0, false),
        };
        // A shared sky ceiling over a portal keeps the opening at the
        // back ceiling so the sky is never height-clipped.
        if !solid && back_same_ceiling && b_ceiling_is_sky {
            front_wall_ceiling = back_wall_ceiling;
        }
        // What the wall asks to be drawn.
        let (b_draw_upper_wall, b_draw_ceiling, b_draw_lower_wall, b_draw_floor, b_draw_wall) =
            if solid {
            (
                false,
                front_wall_ceiling > 0 || b_ceiling_is_sky,
                false,
                front_wall_floor < 0,
                ex.wall_texture_id.is_some(),
            )
        } else {
            let b = match ex.back {
                Some(b) => b,
                None => {
                    return None;
                },
            };
            let ceiling_differs = front_wall_ceiling != back_wall_ceiling || ex.front.light_level
                != b.light_level || !back_same_ceiling;
            let floor_differs = front_wall_floor != back_wall_floor || ex.front.light_level
                != b.light_level || !crate::wad::name_eq(
                &ex.front.floor_texture,
                &b.floor_texture,
            );
            let up = ceiling_differs && ex.upper_texture_id.is_some() && back_wall_ceiling
                < front_wall_ceiling;
            let ceil = ceiling_differs && (front_wall_ceiling >= 0 || b_ceiling_is_sky);
            let low = floor_differs && ex.floor_texture_id.is_some() && back_wall_floor
                > front_wall_floor;
            let floor = floor_differs && front_wall_floor <= 0;
            (up, ceil, low, floor, false)
        };
        if !b_draw_wall && !b_draw_ceiling && !b_draw_floor && !b_draw_upper_wall
            && !b_draw_lower_wall {
            return None;
        }
        // Perspective scale at the two ends of the column range.
        let wall_normal_angle = crate::math::normalize_degrees(
            ex.angle_fixed + crate::math::QUARTER_TURN,
        );
        let offset_angle = crate::math::normalize_degrees(wall_normal_angle - wall_angle);
        let start_vertex = crate::collision::vertex_fixed(ex.v1);
        let dxp = position.x - start_vertex.x;
        let dyp = position.y - start_vertex.y;
        let hypotenuse = crate::collision::wall_length(
            crate::math::clamp(dxp, -0x1_0000_0000, 0x1_0000_0000),
            crate::math::clamp(dyp, -0x1_0000_0000, 0x1_0000_0000),
        );
        let wall_distance = crate::math::no_negative(
            fmuls(hypotenuse, crate::math::cos_fixed(offset_angle)),
        );
        let (wall_scale_1, wall_scale_step) = self.wall_scales(
            start,
            end,
            wall_normal_angle,
            crate::math::clamp(wall_distance, 0, 0x1_0000_0000_0000),
            angle,
        );
        // Texture alignment along and down the wall.
        let wall_offset = fmuls(hypotenuse, crate::math::sin_fixed(offset_angle)) + (
        ex.seg_offset as i64) * 65536 + (ex.side_offset.x as i64) * 65536;
        let wall_center_angle = wall_normal_angle - angle;
        let peg_bottom = (ex.line_flags & 16) != 0;
        let peg_top = (ex.line_flags & 8) != 0;
        let middle_texture_alt: i16 = {
            let base = if peg_bottom {
                let tex_h: i64 = match ex.wall_texture_id {
                    Some(id) => (textures[id].size.y as i64) * 65536,
                    None => 0,
                };
                front_wall_floor + tex_h + (ex.side_offset.y as i64) * 65536
            } else {
                front_wall_ceiling + (ex.side_offset.y as i64) * 65536
            };
            crate::math::clamp(base / 65536, -32768, 32767) as i16
        };
        let upper_texture_alt: i16 = {
            let base = if peg_top {
                front_wall_ceiling + (ex.side_offset.y as i64) * 65536
            } else {
                let tex_h: i64 = match ex.upper_texture_id {
                    Some(id) => (textures[id].size.y as i64) * 65536,
                    None => 0,
                };
                back_wall_ceiling + tex_h + (ex.side_offset.y as i64) * 65536
            };
            crate::math::clamp(base / 65536, -32768, 32767) as i16
        };
        let lower_texture_alt: i16 = {
            let base = if peg_bottom {
                front_wall_ceiling + (ex.side_offset.y as i64) * 65536
            } else {
                back_wall_floor + (ex.side_offset.y as i64) * 65536
            };
            crate::math::clamp(base / 65536, -32768, 32767) as i16
        };
        // Screen-space tops and bottoms, stepped per column.
        let mut wall_tex_y_scale = wall_scale_1;
        let mut wall_y1: i64 = self.half_height - fmuls(front_wall_ceiling, wall_scale_1);
        let wall_y1_step: i64 = -fmuls(front_wall_ceiling, wall_scale_step);
        let mut wall_y2: i64 = self.half_height - fmuls(front_wall_floor, wall_scale_1);
        let wall_y2_step: i64 = -fmuls(front_wall_floor, wall_scale_step);
        let mut portal_y1: i64 = wall_y2;
        let mut portal_y1_step: i64 = wall_y2_step;
        if b_draw_upper_wall && back_wall_ceiling > front_wall_floor {
            portal_y1 = self.half_height - fmuls(back_wall_ceiling, wall_scale_1);
            portal_y1_step = -fmuls(back_wall_ceiling, wall_scale_step);
        }
        let mut portal_y2: i64 = wall_y1;
        let mut portal_y2_step: i64 = wall_y1_step;
        if b_draw_lower_wall && back_wall_floor < front_wall_ceiling {
            portal_y2 = self.half_height - fmuls(back_wall_floor, wall_scale_1);
            portal_y2_step = -fmuls(back_wall_floor, wall_scale_step);
        }
        let ctx = WallDrawCtx {
            solid,
            seg_id,
            b_draw_ceiling,
            b_draw_wall,
            b_draw_floor,
            b_draw_upper_wall,
            b_draw_lower_wall,
            b_ceiling_is_sky,
            front_wall_ceiling: crate::math::clamp(
                front_wall_ceiling,
                -0x1_0000_0000,
                0x1_0000_0000,
            ),
            front_wall_floor: crate::math::clamp(front_wall_floor, -0x1_0000_0000, 0x1_0000_0000),
            middle_texture_alt,
            upper_texture_alt,
            lower_texture_alt,
            wall_center_angle: crate::math::clamp(
                wall_center_angle,
                -0x2_0000_0000,
                0x2_0000_0000,
            ),
            wall_distance: crate::math::clamp(wall_distance, 0, 0x10_0000_0000_0000),
            wall_offset: crate::math::clamp(wall_offset, -0x40_0000_0000_0000, 0x40_0000_0000_0000),
            light_level,
            angle,
            position,
        };
        let step0 = WallStep {
            wall_scale_step,
            wall_y1,
            wall_y1_step,
            wall_y2,
            wall_y2_step,
            portal_y1,
            portal_y1_step,
            portal_y2,
            portal_y2_step,
            wall_tex_y_scale,
        };
        Some((ctx, step0))
    }
}

impl RenderSoftware {
    /// Tightens one ceiling clip bound, held inside the screen.
    fn set_upper_clip(&mut self, x: usize, v: i32)
        requires
            old(self).wf(),
            x < old(self).width,
        ensures
            final(self).wf(),
            final(self).upper_clip@ == old(self).upper_clip@.update(
                x as int,
                if v < 0 {
                    0i32
                } else if v > old(self).height {
                    old(self).height as i32
                } else {
                    v
                },
            ),
            final(self).lower_clip@ == old(self).lower_clip@,
            final(self).screen_range@ == old(self).screen_range@,
            final(self).seg_extra_data@ == old(self).seg_extra_data@,
            final(self).sub_sectors@ == old(self).sub_sectors@,
            final(self).width == old(self).width,
            final(self).height == old(self).height,
            final(self).half_height == old(self).half_height,
            final(self).camera == old(self).camera,
            final(self).sky_inv_scale == old(self).sky_inv_scale,
            final(self).sky_texture_alt == old(self).sky_texture_alt,
            final(self).flats_len == old(self).flats_len,
            final(self).textures_len == old(self).textures_len,
    {
        let h = self.height as i32;
        let clamped = if v < 0 {
            0
        } else if v > h {
            h
        } else {
            v
        };
        self.upper_clip.set(x, clamped);
    }

    /// Tightens one floor clip bound, held inside the screen.
    fn set_lower_clip(&mut self, x: usize, v: i32)
        requires
            old(self).wf(),
            x < old(self).width,
        ensures
            final(self).wf(),
            final(self).lower_clip@ == old(self).lower_clip@.update(
                x as int,
                if v < 0 {
                    0i32
                } else if v > old(self).height {
                    old(self).height as i32
                } else {
                    v
                },
            ),
            final(self).upper_clip@ == old(self).upper_clip@,
            final(self).screen_range@ == old(self).screen_range@,
            final(self).seg_extra_data@ == old(self).seg_extra_data@,
            final(self).sub_sectors@ == old(self).sub_sectors@,
            final(self).width == old(self).width,
            final(self).height == old(self).height,
            final(self).half_height == old(self).half_height,
            final(self).camera == old(self).camera,
            final(self).sky_inv_scale == old(self).sky_inv_scale,
            final(self).sky_texture_alt == old(self).sky_texture_alt,
            final(self).flats_len == old(self).flats_len,
            final(self).textures_len == old(self).textures_len,
    {
        let h = self.height as i32;
        let clamped = if v < 0 {
            0
        } else if v > h {
            h
        } else {
            v
        };
        self.lower_clip.set(x, clamped);
    }

    /// Draws one wall over its visible column range: the ceiling or sky,
    /// the wall face, and the floor for a solid wall; for a portal the
    /// upper and lower strips as well, tightening the per-column clip
    /// bounds to the portal opening.  The occlusion flags are not
    /// touched here.
    #[verifier::rlimit(100)]
    pub fn draw_wall(
        &mut self,
        surface: &mut DoomSurface,
        flats: &Vec<Texture<3>>,
        textures: &Vec<Texture<4>>,
        wtype: &WallType,
        start: u32,
        end: u32,
        wall_angle: i64,
        viewer: &Viewer,
    )
        requires
            old(self).wf(),
            old(surface).wf(),
            viewer_ok(*viewer),
            0 <= wall_angle < crate::math::TURN,
            start <= end <= old(self).width,
            old(self).flats_len == flats@.len(),
            old(self).textures_len == textures@.len(),
            forall|i: int| 0 <= i < flats@.len() ==> (#[trigger] flats@[i]).wf() && flats@[i].size.x
                > 0 && flats@[i].size.y > 0,
            forall|i: int|
                0 <= i < textures@.len() ==> (#[trigger] textures@[i]).wf() && textures@[i].size.x
                    > 0 && textures@[i].size.y > 0,
            (match *wtype {
                WallType::SolidWall(i) => i < old(self).seg_extra_data@.len(),
                WallType::PortalWall(i) => i < old(self).seg_extra_data@.len(),
            }),
        ensures
            final(self).wf(),
            final(surface).wf(),
            final(surface).size == old(surface).size,
            final(self).screen_range@ == old(self).screen_range@,
            final(self).seg_extra_data@ == old(self).seg_extra_data@,
            final(self).sub_sectors@ == old(self).sub_sectors@,
            final(self).width == old(self).width,
            final(self).height == old(self).height,
            final(self).camera == old(self).camera,
            final(self).half_height == old(self).half_height,
            final(self).sky_inv_scale == old(self).sky_inv_scale,
            final(self).sky_texture_alt == old(self).sky_texture_alt,
            final(self).flats_len == old(self).flats_len,
            final(self).textures_len == old(self).textures_len,
            // Only pixel bytes of columns in [start, end) may change.
            forall|k: int|
                0 <= k < old(surface).buffer@.len() && !(start <= crate::window::byte_col(
                    old(surface).size,
                    k,
                ) < end) ==> final(surface).buffer@[k] == old(surface).buffer@[k],
            // A solid wall leaves the clip bounds alone; a portal only
            // tightens them, and only inside its column range.
            is_solid(*wtype) ==> final(self).upper_clip@ == old(self).upper_clip@
                && final(self).lower_clip@ == old(self).lower_clip@,
            forall|xx: int|
                0 <= xx < old(self).upper_clip@.len() && !(start <= xx < end)
                    ==> final(self).upper_clip@[xx] == old(self).upper_clip@[xx]
                    && final(self).lower_clip@[xx] == old(self).lower_clip@[xx],
            forall|xx: int|
                0 <= xx < old(self).upper_clip@.len()
                    ==> final(self).upper_clip@[xx] >= old(self).upper_clip@[xx]
                    && final(self).lower_clip@[xx] <= old(self).lower_clip@[xx],
    {
        let prepared = self.prepare_wall(textures, wtype, start, end, wall_angle, viewer);
        let (ctx, step0) = match prepared {
            Some(p) => p,
            None => {
                return ;
            },
        };
        let wall_scale_step = step0.wall_scale_step;
        let mut wall_y1 = step0.wall_y1;
        let wall_y1_step = step0.wall_y1_step;
        let mut wall_y2 = step0.wall_y2;
        let wall_y2_step = step0.wall_y2_step;
        let mut portal_y1 = step0.portal_y1;
        let portal_y1_step = step0.portal_y1_step;
        let mut portal_y2 = step0.portal_y2;
        let portal_y2_step = step0.portal_y2_step;
        let mut wall_tex_y_scale = step0.wall_tex_y_scale;
        let mut x = start;
        while x < end
            invariant
                self.wf(),
                surface.wf(),
                surface.size == old(surface).size,
                self.screen_range@ == old(self).screen_range@,
                self.seg_extra_data@ == old(self).seg_extra_data@,
                self.sub_sectors@ == old(self).sub_sectors@,
                self.width == old(self).width,
                self.height == old(self).height,
                self.camera == old(self).camera,
                self.half_height == old(self).half_height,
                self.sky_inv_scale == old(self).sky_inv_scale,
                self.sky_texture_alt == old(self).sky_texture_alt,
                self.flats_len == old(self).flats_len,
                self.textures_len == old(self).textures_len,
                self.flats_len == flats@.len(),
                self.textures_len == textures@.len(),
                forall|i: int|
                    0 <= i < flats@.len() ==> (#[trigger] flats@[i]).wf() && flats@[i].size.x > 0
                        && flats@[i].size.y > 0,
                forall|i: int|
                    0 <= i < textures@.len() ==> (#[trigger] textures@[i]).wf()
                        && textures@[i].size.x > 0 && textures@[i].size.y > 0,
                ctx.seg_id < self.seg_extra_data@.len(),
                ctx_ok(ctx),
                ctx.solid == is_solid(*wtype),
                start <= x <= end <= self.width,
                surface.buffer@.len() == old(surface).buffer@.len(),
                forall|k: int|
                    0 <= k < old(surface).buffer@.len() && !(start <= crate::window::byte_col(
                        old(surface).size,
                        k,
                    ) < end) ==> surface.buffer@[k] == old(surface).buffer@[k],
                ctx.solid ==> self.upper_clip@ == old(self).upper_clip@ && self.lower_clip@
                    == old(self).lower_clip@,
                self.upper_clip@.len() == old(self).upper_clip@.len(),
                self.lower_clip@.len() == old(self).lower_clip@.len(),
                forall|xx: int|
                    0 <= xx < old(self).upper_clip@.len() && !(start <= xx < end)
                        ==> self.upper_clip@[xx] == old(self).upper_clip@[xx]
                        && self.lower_clip@[xx] == old(self).lower_clip@[xx],
                forall|xx: int|
                    0 <= xx < old(self).upper_clip@.len()
                        ==> self.upper_clip@[xx] >= old(self).upper_clip@[xx]
                        && self.lower_clip@[xx] <= old(self).lower_clip@[xx],
                -0x800000 <= wall_scale_step <= 0x800000,
                -0x8000_0000_0000 <= wall_y1 <= 0x8000_0000_0000,
                -0x8000_0000_0000 <= wall_y2 <= 0x8000_0000_0000,
                -0x8000_0000_0000 <= portal_y1 <= 0x8000_0000_0000,
                -0x8000_0000_0000 <= portal_y2 <= 0x8000_0000_0000,
                -0x4000_0000_0000_0000 <= wall_y1_step <= 0x4000_0000_0000_0000,
                -0x4000_0000_0000_0000 <= wall_y2_step <= 0x4000_0000_0000_0000,
                -0x4000_0000_0000_0000 <= portal_y1_step <= 0x4000_0000_0000_0000,
                -0x4000_0000_0000_0000 <= portal_y2_step <= 0x4000_0000_0000_0000,
                -0x8000_0000_0000 <= wall_tex_y_scale <= 0x8000_0000_0000,
            decreases end - x,
        {
            self.draw_wall_column(
                surface,
                flats,
                textures,
                &ctx,
                x,
                wall_y1,
                wall_y2,
                portal_y1,
                portal_y2,
                wall_tex_y_scale,
            );
            if ctx.b_draw_upper_wall {
                portal_y1 = crate::math::clamp(
                    portal_y1 + portal_y1_step,
                    -0x8000_0000_0000,
                    0x8000_0000_0000,
                );
            }
            if ctx.b_draw_lower_wall {
                portal_y2 = crate::math::clamp(
                    portal_y2 + portal_y2_step,
                    -0x8000_0000_0000,
                    0x8000_0000_0000,
                );
            }
            wall_tex_y_scale = crate::math::clamp(
                wall_tex_y_scale + wall_scale_step,
                -0x8000_0000_0000,
                0x8000_0000_0000,
            );
            wall_y1 = crate::math::clamp(
                wall_y1 + wall_y1_step,
                -0x8000_0000_0000,
                0x8000_0000_0000,
            );
            wall_y2 = crate::math::clamp(
                wall_y2 + wall_y2_step,
                -0x8000_0000_0000,
                0x8000_0000_0000,
            );
            x += 1;
        }
    }

    /// Draws one screen column of a wall: ceiling or sky, the wall face
    /// or the portal strips, and the floor, clamping everything against
    /// the column's clip bounds and tightening them for a portal.
    #[verifier::rlimit(100)]
    pub fn draw_wall_column(
        &mut self,
        surface: &mut DoomSurface,
        flats: &Vec<Texture<3>>,
        textures: &Vec<Texture<4>>,
        ctx: &WallDrawCtx,
        x: u32,
        wall_y1: i64,
        wall_y2: i64,
        portal_y1: i64,
        portal_y2: i64,
        wall_tex_y_scale: i64,
    )
        requires
            old(self).wf(),
            old(surface).wf(),
            ctx_ok(*ctx),
            ctx.seg_id < old(self).seg_extra_data@.len(),
            x < old(self).width,
            old(self).flats_len == flats@.len(),
            old(self).textures_len == textures@.len(),
            forall|i: int|
                0 <= i < flats@.len() ==> (#[trigger] flats@[i]).wf() && flats@[i].size.x > 0
                    && flats@[i].size.y > 0,
            forall|i: int|
                0 <= i < textures@.len() ==> (#[trigger] textures@[i]).wf() && textures@[i].size.x
                    > 0 && textures@[i].size.y > 0,
            -0x8000_0000_0000 <= wall_y1 <= 0x8000_0000_0000,
            -0x8000_0000_0000 <= wall_y2 <= 0x8000_0000_0000,
            -0x8000_0000_0000 <= portal_y1 <= 0x8000_0000_0000,
            -0x8000_0000_0000 <= portal_y2 <= 0x8000_0000_0000,
            -0x8000_0000_0000 <= wall_tex_y_scale <= 0x8000_0000_0000,
        ensures
            final(self).wf(),
            final(surface).wf(),
            final(surface).size == old(surface).size,
            final(self).screen_range@ == old(self).screen_range@,
            final(self).seg_extra_data@ == old(self).seg_extra_data@,
            final(self).sub_sectors@ == old(self).sub_sectors@,
            final(self).width == old(self).width,
            final(self).height == old(self).height,
            final(self).camera == old(self).camera,
            final(self).half_height == old(self).half_height,
            final(self).sky_inv_scale == old(self).sky_inv_scale,
            final(self).sky_texture_alt == old(self).sky_texture_alt,
            final(self).flats_len == old(self).flats_len,
            final(self).textures_len == old(self).textures_len,
            // Only this column's pixel bytes may change.
            forall|k: int|
                0 <= k < old(surface).buffer@.len() && crate::window::byte_col(
                    old(surface).size,
                    k,
                ) != x ==> final(surface).buffer@[k] == old(surface).buffer@[k],
            // A solid wall never touches the clip bounds; a portal only
            // tightens this column's bounds toward its opening.
            ctx.solid ==> final(self).upper_clip@ == old(self).upper_clip@
                && final(self).lower_clip@ == old(self).lower_clip@,
            forall|xx: int|
                0 <= xx < old(self).upper_clip@.len() && xx != x ==> final(self).upper_clip@[xx]
                    == old(self).upper_clip@[xx],
            forall|xx: int|
                0 <= xx < old(self).lower_clip@.len() && xx != x ==> final(self).lower_clip@[xx]
                    == old(self).lower_clip@[xx],
            final(self).upper_clip@[x as int] >= old(self).upper_clip@[x as int],
            final(self).lower_clip@[x as int] <= old(self).lower_clip@[x as int],
    {
        let ex = self.seg_extra_data[ctx.seg_id];
        proof {
            assert(self.seg_extra_data@[ctx.seg_id as int].ids_ok(
                self.flats_len as int,
                self.textures_len as int,
            ));
        }
        let draw_wall_y1: i32 = crate::math::clamp(wall_y1 / 65536, -0x10000, 0x10000) as i32;
        let draw_wall_y2: i32 = crate::math::clamp(wall_y2 / 65536, -0x10000, 0x10000) as i32;
        let upper_here = self.upper_clip[x as usize];
        let lower_here = self.lower_clip[x as usize];
        let x_angle = self.camera.x_to_angle(x);
        let scale_now = crate::math::clamp(wall_tex_y_scale, 256, 4194304);
        let inv_scale = crate::fixed::fdiv(65536, scale_now);
        proof {
            crate::fixed::lemma_div_bounded(65536int * 65536, scale_now as int, 0x1_0000_0000);
        }
        let tan_angle = tan_any(ctx.wall_center_angle - x_angle);
        let texture_column = fmuls(ctx.wall_distance, tan_angle) - ctx.wall_offset;
        let tex_col_clamped = crate::math::clamp(
            texture_column,
            -0x4000_0000_0000_0000,
            0x4000_0000_0000_0000,
        );
        let sky_column = fmuls(
            crate::math::clamp(ctx.angle + x_angle, -0x10_0000_0000_0000, 0x10_0000_0000_0000),
            144179,
        );
        if ctx.b_draw_ceiling {
            let ceiling_wall_y1 = upper_here;
            let ceiling_wall_y2 = if draw_wall_y1 < lower_here {
                draw_wall_y1
            } else {
                lower_here
            };
            if ceiling_wall_y1 < ceiling_wall_y2 {
                if ctx.b_ceiling_is_sky {
                    match ex.sky_texture_id {
                        Some(id) => {
                            let sky_alt = self.sky_texture_alt;
                            let sky_inv = crate::math::clamp(self.sky_inv_scale, 0, 0x1_0000_0000);
                            self.draw_line_texture(
                                surface,
                                x as i32,
                                ceiling_wall_y1,
                                ceiling_wall_y2,
                                crate::math::clamp(
                                    sky_column,
                                    -0x4000_0000_0000_0000,
                                    0x4000_0000_0000_0000,
                                ),
                                sky_alt,
                                sky_inv,
                                &textures[id],
                                65536,
                            );
                        },
                        None => {},
                    }
                } else {
                    match ex.ceiling_texture_id {
                        Some(id) => {
                            self.draw_flat(
                                surface,
                                x as i32,
                                ceiling_wall_y1,
                                ceiling_wall_y2,
                                ctx.front_wall_ceiling,
                                ctx.angle,
                                &ctx.position,
                                &flats[id],
                                ctx.light_level,
                            );
                        },
                        None => {},
                    }
                }
            }
            if !ctx.solid {
                if upper_here < ceiling_wall_y2 {
                    self.set_upper_clip(x as usize, ceiling_wall_y2);
                }
            }
        }
        if ctx.b_draw_wall {
            let middle_wall_y1 = if draw_wall_y1 > upper_here {
                draw_wall_y1
            } else {
                upper_here
            };
            let middle_wall_y2 = if draw_wall_y2 < lower_here {
                draw_wall_y2
            } else {
                lower_here
            };
            if middle_wall_y1 < middle_wall_y2 {
                match ex.wall_texture_id {
                    Some(id) => {
                        self.draw_line_texture(
                            surface,
                            x as i32,
                            middle_wall_y1,
                            middle_wall_y2,
                            tex_col_clamped,
                            ctx.middle_texture_alt,
                            inv_scale,
                            &textures[id],
                            ctx.light_level,
                        );
                    },
                    None => {},
                }
            }
        }
        if ctx.b_draw_upper_wall {
            let draw_upper_wall_y1 = draw_wall_y1 - 1;
            let draw_upper_wall_y2: i32 = crate::math::clamp(
                portal_y1 / 65536,
                -0x10000,
                0x10000,
            ) as i32;
            let upper_now = self.upper_clip[x as usize];
            let lower_now = self.lower_clip[x as usize];
            let middle_wall_y1 = if draw_upper_wall_y1 > upper_now {
                draw_upper_wall_y1
            } else {
                upper_now
            };
            let middle_wall_y2 = if draw_upper_wall_y2 < lower_now {
                draw_upper_wall_y2
            } else {
                lower_now
            };
            if middle_wall_y1 < middle_wall_y2 {
                match ex.upper_texture_id {
                    Some(id) => {
                        self.draw_line_texture(
                            surface,
                            x as i32,
                            middle_wall_y1,
                            middle_wall_y2,
                            tex_col_clamped,
                            ctx.upper_texture_alt,
                            inv_scale,
                            &textures[id],
                            ctx.light_level,
                        );
                    },
                    None => {},
                }
            }
            if upper_now < middle_wall_y2 {
                self.set_upper_clip(x as usize, middle_wall_y2);
            }
        }
        if ctx.b_draw_lower_wall {
            let draw_lower_wall_y1: i32 = crate::math::clamp(
                portal_y2 / 65536,
                -0x10000,
                0x10000,
            ) as i32 - 1;
            let draw_lower_wall_y2 = draw_wall_y2;
            let upper_now = self.upper_clip[x as usize];
            let lower_now = self.lower_clip[x as usize];
            let middle_wall_y1 = if draw_lower_wall_y1 > upper_now {
                draw_lower_wall_y1
            } else {
                upper_now
            };
            let middle_wall_y2 = if draw_lower_wall_y2 < lower_now {
                draw_lower_wall_y2
            } else {
                lower_now
            };
            if middle_wall_y1 < middle_wall_y2 {
                match ex.lower_texture_id {
                    Some(id) => {
                        self.draw_line_texture(
                            surface,
                            x as i32,
                            middle_wall_y1,
                            middle_wall_y2,
                            tex_col_clamped,
                            ctx.lower_texture_alt,
                            inv_scale,
                            &textures[id],
                            ctx.light_level,
                        );
                    },
                    None => {},
                }
            }
            if lower_now > middle_wall_y1 {
                self.set_lower_clip(x as usize, middle_wall_y1);
            }
        }
        if ctx.b_draw_floor {
            let upper_now = self.upper_clip[x as usize];
            let lower_now = self.lower_clip[x as usize];
            let floor_wall_y1 = if draw_wall_y2 > upper_now {
                draw_wall_y2
            } else {
                upper_now
            };
            let floor_wall_y2 = lower_now;
            if floor_wall_y1 < floor_wall_y2 {
                match ex.floor_texture_id {
                    Some(id) => {
                        self.draw_flat(
                            surface,
                            x as i32,
                            floor_wall_y1,
                            floor_wall_y2,
                            ctx.front_wall_floor,
                            ctx.angle,
                            &ctx.position,
                            &flats[id],
                            ctx.light_level,
                        );
                    },
                    None => {},
                }
            }
            if !ctx.solid && lower_now > draw_wall_y2 {
                // The bound only tightens: never lift it back down the
                // screen past its current value.
                let tightened = if floor_wall_y1 < lower_now {
                    floor_wall_y1
                } else {
                    lower_now
                };
                self.set_lower_clip(x as usize, tightened);
            }
        }
    }
}

/// The occlusion state after a solid wall has claimed the still-open
/// columns in `[start, upto)` within `[start, end)`.
pub open spec fn occ_to(
    old_range: Seq<bool>,
    solid: bool,
    start: int,
    upto: int,
    end: int,
) -> Seq<bool> {
    Seq::new(old_range.len(), |x: int| old_range[x] && !(solid && start <= x < upto && x < end))
}

/// Whether a classified wall is solid.
pub open spec fn is_solid(w: WallType) -> bool {
    w matches WallType::SolidWall(_)
}

impl RenderSoftware {
    /// Draws one wall over every still-open run of columns in its
    /// range.  A solid wall marks each drawn column obstructed for the
    /// rest of the frame; a portal leaves the flags alone.  Returns
    /// whether any column of the screen is still open.
    pub fn draw_clip_walls(
        &mut self,
        surface: &mut DoomSurface,
        flats: &Vec<Texture<3>>,
        textures: &Vec<Texture<4>>,
        wtype: &WallType,
        wall_x_start: u32,
        wall_x_end: u32,
        wall_angle: i64,
        viewer: &Viewer,
    ) -> (r: bool)
        requires
            old(self).wf(),
            old(surface).wf(),
            viewer_ok(*viewer),
            0 <= wall_angle < crate::math::TURN,
            old(self).flats_len == flats@.len(),
            old(self).textures_len == textures@.len(),
            forall|i: int|
                0 <= i < flats@.len() ==> (#[trigger] flats@[i]).wf() && flats@[i].size.x > 0
                    && flats@[i].size.y > 0,
            forall|i: int|
                0 <= i < textures@.len() ==> (#[trigger] textures@[i]).wf() && textures@[i].size.x
                    > 0 && textures@[i].size.y > 0,
            (match *wtype {
                WallType::SolidWall(i) => i < old(self).seg_extra_data@.len(),
                WallType::PortalWall(i) => i < old(self).seg_extra_data@.len(),
            }),
        ensures
            final(self).wf(),
            final(surface).wf(),
            final(surface).size == old(surface).size,
            final(self).screen_range@ == spec_occlude(
                old(self).screen_range@,
                is_solid(*wtype),
                wall_x_start as int,
                if wall_x_end <= old(self).width {
                    wall_x_end as int
                } else {
                    old(self).width as int
                },
            ),
            r == exists|x: int|
                0 <= x < final(self).screen_range@.len() && final(self).screen_range@[x],
            final(self).seg_extra_data@ == old(self).seg_extra_data@,
            final(self).sub_sectors@ == old(self).sub_sectors@,
            final(self).width == old(self).width,
            final(self).height == old(self).height,
            final(self).camera == old(self).camera,
            final(self).half_height == old(self).half_height,
            final(self).sky_inv_scale == old(self).sky_inv_scale,
            final(self).sky_texture_alt == old(self).sky_texture_alt,
            final(self).flats_len == old(self).flats_len,
            final(self).textures_len == old(self).textures_len,
            // Only pixel bytes of columns inside the wall's clamped
            // range may change.
            forall|k: int|
                0 <= k < old(surface).buffer@.len() && !(wall_x_start
                    <= crate::window::byte_col(old(surface).size, k) < wall_x_end)
                    ==> final(surface).buffer@[k] == old(surface).buffer@[k],
            // A solid wall leaves the clip bounds alone; a portal only
            // tightens them, inside the range.
            is_solid(*wtype) ==> final(self).upper_clip@ == old(self).upper_clip@
                && final(self).lower_clip@ == old(self).lower_clip@,
            forall|xx: int|
                0 <= xx < old(self).upper_clip@.len() && !(wall_x_start <= xx < wall_x_end)
                    ==> final(self).upper_clip@[xx] == old(self).upper_clip@[xx]
                    && final(self).lower_clip@[xx] == old(self).lower_clip@[xx],
            forall|xx: int|
                0 <= xx < old(self).upper_clip@.len()
                    ==> final(self).upper_clip@[xx] >= old(self).upper_clip@[xx]
                    && final(self).lower_clip@[xx] <= old(self).lower_clip@[xx],
    {
        let ghost old_sr = self.screen_range@;
        let solid = match *wtype {
            WallType::SolidWall(_) => true,
            WallType::PortalWall(_) => false,
        };
        let end = if wall_x_end <= self.width {
            wall_x_end
        } else {
            self.width
        };
        let start = wall_x_start;
        let mut xs = wall_x_start;
        while xs < end
            invariant
                self.wf(),
                surface.wf(),
                surface.size == old(surface).size,
                self.seg_extra_data@ == old(self).seg_extra_data@,
                self.sub_sectors@ == old(self).sub_sectors@,
                self.width == old(self).width,
                self.height == old(self).height,
                self.camera == old(self).camera,
                self.half_height == old(self).half_height,
                self.sky_inv_scale == old(self).sky_inv_scale,
                self.sky_texture_alt == old(self).sky_texture_alt,
                self.flats_len == old(self).flats_len,
                self.textures_len == old(self).textures_len,
                self.flats_len == flats@.len(),
                self.textures_len == textures@.len(),
                forall|i: int|
                    0 <= i < flats@.len() ==> (#[trigger] flats@[i]).wf() && flats@[i].size.x > 0
                        && flats@[i].size.y > 0,
                forall|i: int|
                    0 <= i < textures@.len() ==> (#[trigger] textures@[i]).wf()
                        && textures@[i].size.x > 0 && textures@[i].size.y > 0,
                (match *wtype {
                    WallType::SolidWall(i) => i < self.seg_extra_data@.len(),
                    WallType::PortalWall(i) => i < self.seg_extra_data@.len(),
                }),
                viewer_ok(*viewer),
                0 <= wall_angle < crate::math::TURN,
                solid == is_solid(*wtype),
                start == wall_x_start,
                end == (if wall_x_end <= old(self).width {
                    wall_x_end as int
                } else {
                    old(self).width as int
                }),
                start <= xs,
                old_sr == old(self).screen_range@,
                old_sr.len() == self.screen_range@.len(),
                self.screen_range@ == occ_to(old_sr, solid, start as int, xs as int, end as int),
                surface.buffer@.len() == old(surface).buffer@.len(),
                forall|k: int|
                    0 <= k < old(surface).buffer@.len() && !(wall_x_start
                        <= crate::window::byte_col(old(surface).size, k) < wall_x_end)
                        ==> surface.buffer@[k] == old(surface).buffer@[k],
                solid ==> self.upper_clip@ == old(self).upper_clip@ && self.lower_clip@ == old(
                    self,
                ).lower_clip@,
                self.upper_clip@.len() == old(self).upper_clip@.len(),
                self.lower_clip@.len() == old(self).lower_clip@.len(),
                forall|xx: int|
                    0 <= xx < old(self).upper_clip@.len() && !(wall_x_start <= xx < wall_x_end)
                        ==> self.upper_clip@[xx] == old(self).upper_clip@[xx]
                        && self.lower_clip@[xx] == old(self).lower_clip@[xx],
                forall|xx: int|
                    0 <= xx < old(self).upper_clip@.len()
                        ==> self.upper_clip@[xx] >= old(self).upper_clip@[xx]
                        && self.lower_clip@[xx] <= old(self).lower_clip@[xx],
            decreases end - xs,
        {
            if !self.screen_range[xs as usize] {
                proof {
                    assert(old_sr[xs as int] == false);
                    assert(occ_to(old_sr, solid, start as int, xs + 1, end as int) =~= occ_to(
                        old_sr,
                        solid,
                        start as int,
                        xs as int,
                        end as int,
                    ));
                }
                xs += 1;
                continue ;
            }
            let ghost upper_before = self.upper_clip@;
            let ghost lower_before = self.lower_clip@;
            let mut xe = xs;
            while xe < end && self.screen_range[xe as usize]
                invariant
                    self.wf(),
                    self.width == old(self).width,
                    self.height == old(self).height,
                    self.screen_range@.len() == old_sr.len(),
                    start <= xs <= xe <= end,
                    end <= self.width,
                    solid == is_solid(*wtype),
                    self.screen_range@ == occ_to(
                        old_sr,
                        solid,
                        start as int,
                        xe as int,
                        end as int,
                    ),
                    self.seg_extra_data@ == old(self).seg_extra_data@,
                    self.sub_sectors@ == old(self).sub_sectors@,
                    self.camera == old(self).camera,
                    self.half_height == old(self).half_height,
                    self.sky_inv_scale == old(self).sky_inv_scale,
                    self.sky_texture_alt == old(self).sky_texture_alt,
                    self.flats_len == old(self).flats_len,
                    self.textures_len == old(self).textures_len,
                    self.upper_clip@.len() == self.width,
                    self.lower_clip@.len() == self.width,
                    self.upper_clip@ == upper_before,
                    self.lower_clip@ == lower_before,
                decreases end - xe,
            {
                let ghost before = self.screen_range@;
                if solid {
                    self.screen_range.set(xe as usize, false);
                    proof {
                        assert(self.screen_range@ =~= occ_to(
                            old_sr,
                            solid,
                            start as int,
                            xe + 1,
                            end as int,
                        ));
                    }
                } else {
                    proof {
                        assert(self.screen_range@ =~= occ_to(
                            old_sr,
                            solid,
                            start as int,
                            xe + 1,
                            end as int,
                        ));
                    }
                }
                xe += 1;
            }
            if xe > xs {
                self.draw_wall(surface, flats, textures, wtype, xs, xe, wall_angle, viewer);
                if xe == end {
                    xs = xe;
                } else {
                    proof {
                        assert(0 <= xe < old_sr.len());
                        assert(self.screen_range@[xe as int] == (old_sr[xe as int] && !(solid
                            && start <= xe < xe && xe < end)));
                        assert(old_sr[xe as int] == false);
                        assert(occ_to(old_sr, solid, start as int, xe + 1, end as int) =~= occ_to(
                            old_sr,
                            solid,
                            start as int,
                            xe as int,
                            end as int,
                        ));
                    }
                    xs = xe + 1;
                }
            } else {
                // A run that starts on an open column is never empty.
                proof {
                    assert(0 <= xs < old_sr.len());
                    assert(self.screen_range@[xs as int] == old_sr[xs as int]);
                    assert(false);
                }
                xs += 1;
            }
        }
        proof {
            assert(xs >= end);
            assert forall|x: int| 0 <= x < old_sr.len() implies self.screen_range@[x]
                == spec_occlude(old_sr, solid, start as int, end as int)[x] by {
                assert(self.screen_range@[x] == (old_sr[x] && !(solid && start <= x < xs && x
                    < end)));
            }
            assert(self.screen_range@ =~= spec_occlude(old_sr, solid, start as int, end as int));
        }
        let mut any: bool = false;
        let mut i: usize = 0;
        let ghost frozen = self.screen_range@;
        while i < self.screen_range.len()
            invariant
                frozen == self.screen_range@,
                i <= self.screen_range@.len(),
                any == exists|x: int| 0 <= x < i && frozen[x],
            decreases self.screen_range@.len() - i,
        {
            if self.screen_range[i] {
                proof {
                    assert(frozen[i as int]);
                }
                any = true;
            }
            i += 1;
        }
        any
    }
}

/// Occlusion is permanent: a column once obstructed stays obstructed by
/// every later wall, solid or portal.
pub proof fn lemma_occlusion_sticky(
    old_range: Seq<bool>,
    solid: bool,
    start: int,
    end: int,
    x: int,
)
    requires
        0 <= x < old_range.len(),
        !old_range[x],
    ensures
        !spec_occlude(old_range, solid, start, end)[x],
{
}

/// The occlusion mask does not depend on the order in which two walls
/// are drawn: claiming columns is an intersection of masks, which
/// commutes.  The pixels shown are decided by the first (nearest) wall
/// to claim a column, which is why walls must be handed over front to
/// back.
pub proof fn lemma_occlusion_order_invariant(
    r: Seq<bool>,
    s1: bool,
    a1: int,
    b1: int,
    s2: bool,
    a2: int,
    b2: int,
)
    ensures
        spec_occlude(spec_occlude(r, s1, a1, b1), s2, a2, b2) == spec_occlude(
            spec_occlude(r, s2, a2, b2),
            s1,
            a1,
            b1,
        ),
{
    assert(spec_occlude(spec_occlude(r, s1, a1, b1), s2, a2, b2) =~= spec_occlude(
        spec_occlude(r, s2, a2, b2),
        s1,
        a1,
        b1,
    ));
}

/// Whether a solid wall's ceiling strip is drawn: when it lies above the
/// eye, or always for a sky ceiling.
pub open spec fn spec_draws_ceiling(front_wall_ceiling: int, is_sky: bool) -> bool {
    front_wall_ceiling > 0 || is_sky
}

/// A sky ceiling is never height-clipped: whatever the ceiling height
/// relative to the eye, the strip is drawn, and it is drawn through the
/// cylindrical sky projection rather than the plane projection.
pub proof fn lemma_sky_ceiling_always_drawn(front_wall_ceiling: int)
    ensures
        spec_draws_ceiling(front_wall_ceiling, true),
{
}

/// The texture-name bytes a sky ceiling maps to.
pub open spec fn spec_sky_name(ct: [u8; 8]) -> Seq<u8> {
    seq![0x53u8, ct@[3], ct@[4], ct@[5], ct@[6], ct@[7], 0u8, 0u8]
}

/// The render record gathered for segment `i`: its vertices and line
/// data, the front and back sector copies, and every texture index
/// looked up by name in the decoded directories.
pub open spec fn spec_seg_record(
    m: LevelMap,
    flats_names: Seq<[u8; 8]>,
    texture_names: Seq<[u8; 8]>,
    i: int,
) -> SegExtraData {
    let void_name = seq![0x2Du8, 0u8, 0u8, 0u8, 0u8, 0u8, 0u8, 0u8];
    let seg = m.segs@[i];
    let line = m.line_defs@[seg.line_def_id as int];
    let front_side = if line.right_sidedef_id != crate::map::SIDE_NONE {
        Some(m.side_defs@[line.right_sidedef_id as int])
    } else {
        None
    };
    let back_side = if line.left_sidedef_id != crate::map::SIDE_NONE {
        Some(m.side_defs@[line.left_sidedef_id as int])
    } else {
        None
    };
    let front_sector = seg.spec_side_sector(true, m);
    let back_sector = seg.spec_side_sector(false, m);
    let has_front = front_sector is Some;
    let front = match front_sector {
        Some(sec) => SectorInfo {
            floor_height: sec.floor_height,
            ceiling_height: sec.ceiling_height,
            light_level: sec.light_level,
            floor_texture: sec.floor_texture,
            ceiling_texture: sec.ceiling_texture,
        },
        None => SectorInfo {
            floor_height: 0,
            ceiling_height: 0,
            light_level: 0,
            floor_texture: [0x2Du8, 0, 0, 0, 0, 0, 0, 0],
            ceiling_texture: [0x2Du8, 0, 0, 0, 0, 0, 0, 0],
        },
    };
    let light_raw = if has_front {
        if front.light_level < 0 {
            0
        } else if front.light_level > 255 {
            255int
        } else {
            front.light_level as int
        }
    } else {
        0
    };
    let side_tex = |name: [u8; 8]|
        if name@ != void_name {
            spec_first_name(texture_names, name@)
        } else {
            None
        };
    let upper_id = match front_side {
        Some(sd) => match side_tex(sd.upper_texture) {
            Some(k) => Some(k),
            None => match back_side {
                Some(bd) => side_tex(bd.upper_texture),
                None => None,
            },
        },
        None => match back_side {
            Some(bd) => side_tex(bd.upper_texture),
            None => None,
        },
    };
    let lower_id = match front_side {
        Some(sd) => match side_tex(sd.lower_texture) {
            Some(k) => Some(k),
            None => match back_side {
                Some(bd) => side_tex(bd.lower_texture),
                None => None,
            },
        },
        None => match back_side {
            Some(bd) => side_tex(bd.lower_texture),
            None => None,
        },
    };
    SegExtraData {
        v1: m.vertices@[seg.start_vertex_id as int],
        v2: m.vertices@[seg.end_vertex_id as int],
        seg_offset: seg.offset,
        angle_fixed: (seg.angle as int * 360) as i64,
        line_flags: line.flag,
        side_offset: match front_side {
            Some(sd) => sd.offset,
            None => Vector2 { x: 0i16, y: 0i16 },
        },
        has_front,
        front,
        back: match back_sector {
            Some(sec) => Some(
                SectorInfo {
                    floor_height: sec.floor_height,
                    ceiling_height: sec.ceiling_height,
                    light_level: sec.light_level,
                    floor_texture: sec.floor_texture,
                    ceiling_texture: sec.ceiling_texture,
                },
            ),
            None => None,
        },
        middle_is_void: match front_side {
            Some(sd) => sd.middle_texture@ == void_name,
            None => true,
        },
        ceiling_texture_id: if has_front {
            match spec_first_name(flats_names, front.ceiling_texture@) {
                Some(k) => Some(k as usize),
                None => None,
            }
        } else {
            None
        },
        upper_texture_id: match upper_id {
            Some(k) => Some(k as usize),
            None => None,
        },
        wall_texture_id: match front_side {
            Some(sd) => if sd.middle_texture@ != void_name {
                match spec_first_name(texture_names, sd.middle_texture@) {
                    Some(k) => Some(k as usize),
                    None => None,
                }
            } else {
                None
            },
            None => None,
        },
        lower_texture_id: match lower_id {
            Some(k) => Some(k as usize),
            None => None,
        },
        floor_texture_id: if has_front && front.floor_texture@ != void_name {
            match spec_first_name(flats_names, front.floor_texture@) {
                Some(k) => Some(k as usize),
                None => None,
            }
        } else {
            None
        },
        sky_texture_id: if has_front && front.ceiling_texture@ != void_name
            && crate::data_textures::spec_is_sky(front.ceiling_texture) {
            match spec_first_name(texture_names, spec_sky_name(front.ceiling_texture)) {
                Some(k) => Some(k as usize),
                None => None,
            }
        } else {
            None
        },
        light_level: ((light_raw * 65536) / 255) as i64,
    }
}

impl RenderSoftware {
    /// Builds the renderer: the camera from the field of view and the
    /// screen, the per-frame arrays, and one render record per segment
    /// gathered from the map and the decoded textures.
    pub fn new(
        map: &LevelMap,
        data: &crate::data_textures::DataTextures,
        width: u32,
        height: u32,
        fov: i64,
    ) -> (r: RenderSoftware)
        requires
            map.wf(),
            data.wf(),
            data.flats_names@.len() == data.flats@.len(),
            2 * 65536 <= fov <= 178 * 65536,
            2 <= width <= 4096,
            width % 2 == 0,
            1 <= height <= 4096,
        ensures
            r.wf(),
            r.width == width,
            r.height == height,
            r.flats_len == data.flats@.len(),
            r.textures_len == data.textures@.len(),
            r.sub_sectors@.len() == map.sub_sectors@.len(),
            r.sub_sectors@ == map.sub_sectors@,
            r.seg_extra_data@.len() == map.segs@.len(),
            forall|i: int|
                0 <= i < r.seg_extra_data@.len() ==> #[trigger] r.seg_extra_data@[i]
                    == spec_seg_record(*map, data.flats_names@, data.texture_names@, i),
    {
        let camera = Camera::new(fov, width);
        let mut rs = RenderSoftware {
            seg_extra_data: Vec::new(),
            sub_sectors: Vec::new(),
            width,
            height,
            half_height: (height as i64) * 65536 / 2,
            camera,
            screen_range: Vec::new(),
            upper_clip: Vec::new(),
            lower_clip: Vec::new(),
            sky_inv_scale: (160 * 65536) / (width as i64),
            sky_texture_alt: 100,
            flats_len: data.flats.len(),
            textures_len: data.textures.len(),
        };
        let mut i: usize = 0;
        while i < map.sub_sectors.len()
            invariant
                map.wf(),
                rs.sub_sectors@.len() == i,
                i <= map.sub_sectors@.len(),
                rs.camera.wf(),
                2 <= rs.width <= 4096,
                rs.width == 2 * rs.camera.half_width,
                1 <= rs.height <= 4096,
                rs.half_height == (rs.height as int) * 65536 / 2,
                0 <= rs.sky_inv_scale <= 0x1_0000_0000,
                rs.width == width,
                rs.height == height,
                rs.seg_extra_data@.len() == 0,
                rs.flats_len == data.flats@.len(),
                rs.textures_len == data.textures@.len(),
                forall|k: int|
                    0 <= k < i ==> (#[trigger] rs.sub_sectors@[k]) == map.sub_sectors@[k],
                forall|k: int|
                    0 <= k < i ==> (#[trigger] rs.sub_sectors@[k]).first_seg_id
                        + rs.sub_sectors@[k].seg_count <= map.segs@.len()
                        && rs.sub_sectors@[k].first_seg_id + rs.sub_sectors@[k].seg_count
                        <= u16::MAX,
            decreases map.sub_sectors@.len() - i,
        {
            proof {
                assert(map.sub_sectors@[i as int].ids_ok(*map));
            }
            rs.sub_sectors.push(map.sub_sectors[i]);
            i += 1;
        }
        proof {
            assert(rs.sub_sectors@ =~= map.sub_sectors@);
        }
        let mut s: usize = 0;
        while s < map.segs.len()
            invariant
                map.wf(),
                data.wf(),
                data.flats_names@.len() == data.flats@.len(),
                rs.seg_extra_data@.len() == s,
                s <= map.segs@.len(),
                rs.camera.wf(),
                2 <= rs.width <= 4096,
                rs.width == 2 * rs.camera.half_width,
                1 <= rs.height <= 4096,
                rs.half_height == (rs.height as int) * 65536 / 2,
                0 <= rs.sky_inv_scale <= 0x1_0000_0000,
                rs.width == width,
                rs.height == height,
                rs.sub_sectors@.len() == map.sub_sectors@.len(),
                forall|k: int|
                    0 <= k < rs.sub_sectors@.len() ==> (
                    #[trigger] rs.sub_sectors@[k]).first_seg_id + rs.sub_sectors@[k].seg_count
                        <= map.segs@.len() && rs.sub_sectors@[k].first_seg_id
                        + rs.sub_sectors@[k].seg_count <= u16::MAX,
                rs.flats_len == data.flats@.len(),
                rs.textures_len == data.textures@.len(),
                forall|k: int|
                    0 <= k < s ==> (#[trigger] rs.seg_extra_data@[k]).ids_ok(
                        rs.flats_len as int,
                        rs.textures_len as int,
                    ),
                forall|k: int|
                    0 <= k < s ==> #[trigger] rs.seg_extra_data@[k] == spec_seg_record(
                        *map,
                        data.flats_names@,
                        data.texture_names@,
                        k,
                    ),
                rs.sub_sectors@ == map.sub_sectors@,
            decreases map.segs@.len() - s,
        {
            proof {
                assert(map.segs@[s as int].ids_ok(*map));
            }
            let seg = map.segs[s];
            let line = seg.line_defs(map);
            let front_sector = seg.right_sector(map);
            let back_sector = seg.left_sector(map);
            let front_side = line.front_side(map);
            let (side_offset, middle_is_void, middle_name) = match front_side {
                Some(sd) => (
                    sd.offset,
                    crate::wad::name_eq(
                        &sd.middle_texture,
                        &[0x2D, 0, 0, 0, 0, 0, 0, 0],
                    ),
                    Some(sd.middle_texture),
                ),
                None => (Vector2 { x: 0i16, y: 0i16 }, true, None),
            };
            let back_side = line.back_side(map);
            let void: [u8; 8] = [0x2D, 0, 0, 0, 0, 0, 0, 0];
            let (front_info, has_front) = match front_sector {
                Some(sec) => (
                    SectorInfo {
                        floor_height: sec.floor_height,
                        ceiling_height: sec.ceiling_height,
                        light_level: sec.light_level,
                        floor_texture: sec.floor_texture,
                        ceiling_texture: sec.ceiling_texture,
                    },
                    true,
                ),
                None => (
                    SectorInfo {
                        floor_height: 0,
                        ceiling_height: 0,
                        light_level: 0,
                        floor_texture: void,
                        ceiling_texture: void,
                    },
                    false,
                ),
            };
            let back_info = match back_sector {
                Some(sec) => Some(
                    SectorInfo {
                        floor_height: sec.floor_height,
                        ceiling_height: sec.ceiling_height,
                        light_level: sec.light_level,
                        floor_texture: sec.floor_texture,
                        ceiling_texture: sec.ceiling_texture,
                    },
                ),
                None => None,
            };
            let ceiling_texture_id = if has_front {
                crate::data_textures::find_name(&data.flats_names, &front_info.ceiling_texture)
            } else {
                None
            };
            let floor_texture_id = if has_front && !crate::wad::name_eq(
                &front_info.floor_texture,
                &void,
            ) {
                crate::data_textures::find_name(&data.flats_names, &front_info.floor_texture)
            } else {
                None
            };
            let wall_texture_id = match middle_name {
                Some(n) => {
                    if !crate::wad::name_eq(&n, &void) {
                        crate::data_textures::find_name(&data.texture_names, &n)
                    } else {
                        None
                    }
                },
                None => None,
            };
            let upper_texture_id = {
                let front_try = match front_side {
                    Some(sd) => {
                        if !crate::wad::name_eq(&sd.upper_texture, &void) {
                            crate::data_textures::find_name(&data.texture_names, &sd.upper_texture)
                        } else {
                            None
                        }
                    },
                    None => None,
                };
                match front_try {
                    Some(idv) => Some(idv),
                    None => match back_side {
                        Some(sd) => {
                            if !crate::wad::name_eq(&sd.upper_texture, &void) {
                                crate::data_textures::find_name(
                                    &data.texture_names,
                                    &sd.upper_texture,
                                )
                            } else {
                                None
                            }
                        },
                        None => None,
                    },
                }
            };
            let lower_texture_id = {
                let front_try = match front_side {
                    Some(sd) => {
                        if !crate::wad::name_eq(&sd.lower_texture, &void) {
                            crate::data_textures::find_name(&data.texture_names, &sd.lower_texture)
                        } else {
                            None
                        }
                    },
                    None => None,
                };
                match front_try {
                    Some(idv) => Some(idv),
                    None => match back_side {
                        Some(sd) => {
                            if !crate::wad::name_eq(&sd.lower_texture, &void) {
                                crate::data_textures::find_name(
                                    &data.texture_names,
                                    &sd.lower_texture,
                                )
                            } else {
                                None
                            }
                        },
                        None => None,
                    },
                }
            };
            let sky_texture_id = if has_front && !crate::wad::name_eq(
                &front_info.ceiling_texture,
                &void,
            ) && crate::data_textures::is_sky_texture(&front_info.ceiling_texture) {
                let sky_name = crate::data_textures::remap_sky_texture(
                    &front_info.ceiling_texture,
                );
                crate::data_textures::find_name(&data.texture_names, &sky_name)
            } else {
                None
            };
            let light_raw: i64 = if has_front {
                let l = front_info.light_level as i64;
                if l < 0 {
                    0
                } else if l > 255 {
                    255
                } else {
                    l
                }
            } else {
                0
            };
            let light_level: i64 = (light_raw * 65536) / 255;
            proof {
                assert(0 <= light_raw * 65536 <= 255 * 65536) by (nonlinear_arith)
                    requires
                        0 <= light_raw <= 255,
                ;
                vstd::arithmetic::div_mod::lemma_div_pos_is_pos(light_raw as int * 65536, 255);
                vstd::arithmetic::div_mod::lemma_div_is_ordered(
                    light_raw as int * 65536,
                    255int * 65536,
                    255,
                );
                vstd::arithmetic::div_mod::lemma_div_multiples_vanish(65536, 255);
            }
            let v1 = seg.start_vertex(map);
            let v2 = seg.end_vertex(map);
            let ex = SegExtraData {
                v1: *v1,
                v2: *v2,
                seg_offset: seg.offset,
                angle_fixed: seg.fixed_degrees_angle(),
                line_flags: line.flag,
                side_offset,
                has_front,
                front: front_info,
                back: back_info,
                middle_is_void,
                ceiling_texture_id,
                upper_texture_id,
                wall_texture_id,
                lower_texture_id,
                floor_texture_id,
                sky_texture_id,
                light_level,
            };
            rs.seg_extra_data.push(ex);
            s += 1;
        }
        rs.reset();
        rs
    }
}

/// One frame's walk over the visible leaves: the renderer, the surface
/// and the decoded textures travel together through the traversal.
pub struct RenderPass {
    pub rs: RenderSoftware,
    pub surface: DoomSurface,
    pub flats: Vec<Texture<3>>,
    pub textures: Vec<Texture<4>>,
    pub viewer: Viewer,
    pub visited: Ghost<Seq<u16>>,
}

impl RenderPass {
    /// A pass over one frame, with an empty visit log.
    pub fn new(
        rs: RenderSoftware,
        surface: DoomSurface,
        flats: Vec<Texture<3>>,
        textures: Vec<Texture<4>>,
        viewer: Viewer,
    ) -> (r: RenderPass)
        ensures
            r.rs == rs,
            r.surface == surface,
            r.flats == flats,
            r.textures == textures,
            r.viewer == viewer,
            r.visited@ == Seq::<u16>::empty(),
    {
        RenderPass { rs, surface, flats, textures, viewer, visited: Ghost(Seq::empty()) }
    }

    /// Everything the pass carries is well formed and sized together.
    pub open spec fn pass_ok(self) -> bool {
        &&& self.rs.wf()
        &&& self.surface.wf()
        &&& viewer_ok(self.viewer)
        &&& self.rs.flats_len == self.flats@.len()
        &&& self.rs.textures_len == self.textures@.len()
        &&& forall|i: int|
            0 <= i < self.flats@.len() ==> (#[trigger] self.flats@[i]).wf() && self.flats@[i].size.x
                > 0 && self.flats@[i].size.y > 0
        &&& forall|i: int|
            0 <= i < self.textures@.len() ==> (#[trigger] self.textures@[i]).wf()
                && self.textures@[i].size.x > 0 && self.textures@[i].size.y > 0
    }
}

impl crate::bsp::BspVisitor for RenderPass {
    open spec fn inv(&self) -> bool {
        self.pass_ok()
    }

    open spec fn leaves(&self) -> Seq<u16> {
        self.visited@
    }

    fn leaf(&mut self, subsector_id: u16) -> (go_on: bool) {
        proof {
            self.visited@ = self.visited@.push(subsector_id);
        }
        if (subsector_id as usize) >= self.rs.sub_sectors.len() {
            return true;
        }
        self.rs.draw_subsector(&mut self.surface, &self.flats, &self.textures, subsector_id,
            &Viewer {
            position: self.viewer.position,
            angle: self.viewer.angle,
            height: self.viewer.height,
        });
        true
    }

    fn test_node(&mut self, node_box: &NodeBox) -> (r: bool) {
        self.rs.camera.is_box_in_frustum(&self.viewer.position, self.viewer.angle, node_box)
    }
}

impl RenderSoftware {
    /// Draws every wall segment of one leaf: each is clipped against
    /// the view cone, classified, and drawn over its still-open column
    /// runs.  The renderer's per-level data and the textures are only
    /// read.
    pub fn draw_subsector(
        &mut self,
        surface: &mut DoomSurface,
        flats: &Vec<Texture<3>>,
        textures: &Vec<Texture<4>>,
        subsector_id: u16,
        viewer: &Viewer,
    )
        requires
            old(self).wf(),
            old(surface).wf(),
            viewer_ok(*viewer),
            (subsector_id as int) < old(self).sub_sectors@.len(),
            old(self).flats_len == flats@.len(),
            old(self).textures_len == textures@.len(),
            forall|i: int|
                0 <= i < flats@.len() ==> (#[trigger] flats@[i]).wf() && flats@[i].size.x > 0
                    && flats@[i].size.y > 0,
            forall|i: int|
                0 <= i < textures@.len() ==> (#[trigger] textures@[i]).wf() && textures@[i].size.x
                    > 0 && textures@[i].size.y > 0,
        ensures
            final(self).wf(),
            final(surface).wf(),
            final(surface).size == old(surface).size,
            final(self).seg_extra_data@ == old(self).seg_extra_data@,
            final(self).sub_sectors@ == old(self).sub_sectors@,
            final(self).width == old(self).width,
            final(self).height == old(self).height,
            final(self).camera == old(self).camera,
            final(self).half_height == old(self).half_height,
            final(self).sky_inv_scale == old(self).sky_inv_scale,
            final(self).sky_texture_alt == old(self).sky_texture_alt,
            final(self).flats_len == old(self).flats_len,
            final(self).textures_len == old(self).textures_len,
    {
        let sub = self.sub_sectors[subsector_id as usize];
        let mut seg_id: usize = sub.first_seg_id as usize;
        let seg_end: usize = seg_id + (sub.seg_count as usize);
        while seg_id < seg_end
            invariant
                self.wf(),
                surface.wf(),
                surface.size == old(surface).size,
                viewer_ok(*viewer),
                self.flats_len == flats@.len(),
                self.textures_len == textures@.len(),
                forall|i: int|
                    0 <= i < flats@.len() ==> (#[trigger] flats@[i]).wf() && flats@[i].size.x > 0
                        && flats@[i].size.y > 0,
                forall|i: int|
                    0 <= i < textures@.len() ==> (#[trigger] textures@[i]).wf()
                        && textures@[i].size.x > 0 && textures@[i].size.y > 0,
                self.seg_extra_data@ == old(self).seg_extra_data@,
                self.sub_sectors@ == old(self).sub_sectors@,
                self.width == old(self).width,
                self.height == old(self).height,
                self.camera == old(self).camera,
                self.half_height == old(self).half_height,
                self.sky_inv_scale == old(self).sky_inv_scale,
                self.sky_texture_alt == old(self).sky_texture_alt,
                self.flats_len == old(self).flats_len,
                self.textures_len == old(self).textures_len,
            decreases seg_end - seg_id,
        {
            if seg_id >= self.seg_extra_data.len() {
                return ;
            }
            let ex = self.seg_extra_data[seg_id];
            let clipped = self.camera.clip_segment_in_frustum(
                &viewer.position,
                viewer.angle,
                &ex.v1,
                &ex.v2,
            );
            match clipped {
                Some((x1, x2, wall_angle)) => {
                    let wtype = self.classify_segment(seg_id, x1, x2);
                    match wtype {
                        Some(w) => {
                            self.draw_clip_walls(
                                surface,
                                flats,
                                textures,
                                &w,
                                x1,
                                x2,
                                wall_angle,
                                viewer,
                            );
                        },
                        None => {},
                    }
                },
                None => {},
            }
            seg_id += 1;
        }
    }

    /// Renders one frame: the per-frame occlusion state is reset, then
    /// the leaves are walked front to back (far subtrees pruned by the
    /// camera's box test) and every visible wall of each leaf is drawn.
    /// The level data, the camera and the textures come back exactly as
    /// they went in; only the per-frame arrays and the surface's pixels
    /// change.
    pub fn draw(
        self,
        surface: DoomSurface,
        bsp: &mut crate::bsp::BSP,
        map: &LevelMap,
        flats: Vec<Texture<3>>,
        textures: Vec<Texture<4>>,
        viewer: &Viewer,
    ) -> (r: (RenderSoftware, DoomSurface, Vec<Texture<3>>, Vec<Texture<4>>))
        requires
            self.wf(),
            surface.wf(),
            map.wf(),
            old(bsp).root_id < map.nodes@.len(),
            viewer_ok(*viewer),
            self.flats_len == flats@.len(),
            self.textures_len == textures@.len(),
            forall|i: int|
                0 <= i < flats@.len() ==> (#[trigger] flats@[i]).wf() && flats@[i].size.x > 0
                    && flats@[i].size.y > 0,
            forall|i: int|
                0 <= i < textures@.len() ==> (#[trigger] textures@[i]).wf() && textures@[i].size.x
                    > 0 && textures@[i].size.y > 0,
        ensures
            r.0.wf(),
            r.1.wf(),
            r.1.size == surface.size,
            r.0.seg_extra_data@ == self.seg_extra_data@,
            r.0.sub_sectors@ == self.sub_sectors@,
            r.0.width == self.width,
            r.0.height == self.height,
            r.0.camera == self.camera,
            r.0.half_height == self.half_height,
            r.0.sky_inv_scale == self.sky_inv_scale,
            r.0.sky_texture_alt == self.sky_texture_alt,
            r.0.flats_len == self.flats_len,
            r.0.textures_len == self.textures_len,
            r.2@ == flats@,
            r.3@ == textures@,
            final(bsp).root_id == old(bsp).root_id,
    {
        let mut rs = self;
        let mut surf = surface;
        rs.reset();
        let px64 = viewer.position.x / 65536;
        let py64 = viewer.position.y / 65536;
        let px: i16 = if px64 > 32767 {
            32767
        } else if px64 < -32768 {
            -32768
        } else {
            px64 as i16
        };
        let py: i16 = if py64 > 32767 {
            32767
        } else if py64 < -32768 {
            -32768
        } else {
            py64 as i16
        };
        let position = crate::math::Vector2 { x: px, y: py };
        // The walk: the partition stack, pruned by the camera's box
        // test, handing each reached leaf to the leaf drawer.
        let ghost root0 = bsp.root_id;
        bsp.stack.clear();
        let root = bsp.root_id;
        bsp.stack.push(root);
        while bsp.stack.len() > 0
            invariant
                map.wf(),
                bsp.root_id == root0,
                root0 == old(bsp).root_id,
                root0 < map.nodes@.len(),
                rs.wf(),
                surf.wf(),
                surf.size == surface.size,
                viewer_ok(*viewer),
                rs.flats_len == flats@.len(),
                rs.textures_len == textures@.len(),
                forall|i: int|
                    0 <= i < flats@.len() ==> (#[trigger] flats@[i]).wf() && flats@[i].size.x > 0
                        && flats@[i].size.y > 0,
                forall|i: int|
                    0 <= i < textures@.len() ==> (#[trigger] textures@[i]).wf()
                        && textures@[i].size.x > 0 && textures@[i].size.y > 0,
                rs.seg_extra_data@ == self.seg_extra_data@,
                rs.sub_sectors@ == self.sub_sectors@,
                rs.width == self.width,
                rs.height == self.height,
                rs.camera == self.camera,
                rs.half_height == self.half_height,
                rs.sky_inv_scale == self.sky_inv_scale,
                rs.sky_texture_alt == self.sky_texture_alt,
                rs.flats_len == self.flats_len,
                rs.textures_len == self.textures_len,
                forall|k: int|
                    0 <= k < bsp.stack@.len() ==> #[trigger] bsp.stack@[k]
                        >= crate::map::LEAF_FLAG || bsp.stack@[k] < map.nodes@.len(),
            decreases crate::bsp::stack_weight(*map, bsp.stack@),
        {
            let ghost prev_stack = bsp.stack@;
            let node_id = bsp.stack.pop().unwrap();
            proof {
                assert(bsp.stack@ =~= prev_stack.drop_last());
                crate::bsp::lemma_stack_seq_push(*map, position, bsp.stack@, node_id);
                assert(bsp.stack@.push(node_id) =~= prev_stack);
            }
            if node_id >= crate::map::LEAF_FLAG {
                let subsector_id = node_id - crate::map::LEAF_FLAG;
                if (subsector_id as usize) < rs.sub_sectors.len() {
                    rs.draw_subsector(&mut surf, &flats, &textures, subsector_id, viewer);
                }
                continue ;
            }
            let node = &map.nodes[node_id as usize];
            let on_left = bsp.is_on_left_size(map, &position, node_id);
            let (near, far) = if on_left {
                (node.left_child_id, node.right_child_id)
            } else {
                (node.right_child_id, node.left_child_id)
            };
            let ghost mid_stack = bsp.stack@;
            let far_box = if on_left {
                &node.right_box
            } else {
                &node.left_box
            };
            proof {
                assert(map.nodes@[node_id as int].ids_ok(node_id as int, *map));
                assert(crate::bsp::child_weight(*map, node_id, near)
                    == crate::bsp::node_weight_entry(*map, near));
                assert(crate::bsp::child_weight(*map, node_id, far)
                    == crate::bsp::node_weight_entry(*map, far));
            }
            if rs.camera.is_box_in_frustum(&viewer.position, viewer.angle, far_box) {
                bsp.stack.push(far);
                proof {
                    crate::bsp::lemma_stack_seq_push(*map, position, mid_stack, far);
                }
            }
            let ghost with_far = bsp.stack@;
            bsp.stack.push(near);
            proof {
                crate::bsp::lemma_stack_seq_push(*map, position, with_far, near);
                assert(bsp.stack@ =~= with_far.push(near));
            }
        }
        (rs, surf, flats, textures)
    }
}

} // verus!