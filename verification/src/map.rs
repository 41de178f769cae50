//! The level's geometry: flat arrays of vertices, walls, sides, render
//! segments, leaves, partition nodes and sectors, all cross-referenced by
//! plain indices into one owning [`LevelMap`], plus the blockmap grid used
//! by collision queries.
//!
//! A loaded map is validated once ([`LevelMap::wf`]): every stored index is
//! then known to be in range, so the accessors and the traversals built on
//! them never index out of bounds.

use vstd::prelude::*;
use crate::math::{Vector2, Vector4};
use crate::wad;

verus! {

/// Sentinel side index meaning "no side on this hand of the line".
pub const SIDE_NONE: u16 = 0xFFFF;

/// Bit that marks a partition-node child index as a leaf reference.
pub const LEAF_FLAG: u16 = 0x8000;

/// A map vertex: a plain 2D integer coordinate.
pub type Vertex = Vector2<i16>;

/// An axis-aligned node bounding box: top, bottom, left, right.
pub type NodeBox = Vector4<i16>;

/// A placed object: position, facing angle, object type and spawn flags.
#[derive(Clone, Copy, Debug)]
pub struct Thing {
    pub position: Vector2<i16>,
    pub angle: u16,
    pub type_id: u16,
    pub flags: u16,
}

/// A wall line between two vertices, with its blocking flags and its
/// sides; a one-sided line has only a right (front) side.
#[derive(Clone, Copy, Debug)]
pub struct LineDef {
    pub start_vertex_id: u16,
    pub end_vertex_id: u16,
    pub flag: u16,
    pub line_type: u16,
    pub sector_tag: u16,
    pub right_sidedef_id: u16,
    pub left_sidedef_id: u16,
}

/// One side of a line: texture offset, the three texture names and the
/// sector the side faces.
#[derive(Clone, Copy, Debug)]
pub struct SideDef {
    pub offset: Vector2<i16>,
    pub upper_texture: [u8; 8],
    pub lower_texture: [u8; 8],
    pub middle_texture: [u8; 8],
    pub sector_id: i16,
}

/// A leaf region: a contiguous run of render segments.
#[derive(Clone, Copy, Debug)]
pub struct SubSector {
    pub seg_count: u16,
    pub first_seg_id: u16,
}

/// A directed render segment of a line; `direction` 0 keeps the line's
/// winding, 1 reverses it.
#[derive(Clone, Copy, Debug)]
pub struct Seg {
    pub start_vertex_id: u16,
    pub end_vertex_id: u16,
    pub angle: u16,
    pub line_def_id: u16,
    pub direction: u16,
    pub offset: u16,
}

/// An interior partition node: the splitting line, the two child bounding
/// boxes and the two child indices (leaf when `LEAF_FLAG` is set).
#[derive(Clone, Copy, Debug)]
pub struct Node {
    pub partition: Vector2<i16>,
    pub change_partition: Vector2<i16>,
    pub right_box: NodeBox,
    pub left_box: NodeBox,
    pub right_child_id: u16,
    pub left_child_id: u16,
}

/// A sector: floor and ceiling heights and textures, light level and the
/// special/tag pair.
#[derive(Clone, Copy, Debug)]
pub struct Sector {
    pub floor_height: i16,
    pub ceiling_height: i16,
    pub floor_texture: [u8; 8],
    pub ceiling_texture: [u8; 8],
    pub light_level: i16,
    pub special_type: i16,
    pub tag_number: i16,
}

/// The blockmap grid's origin and extent.
#[derive(Clone, Copy, Debug)]
pub struct BlockmapsHeader {
    pub x: i16,
    pub y: i16,
    pub columns: u16,
    pub rows: u16,
}

/// The uniform broad-phase grid: each cell lists the lines crossing it.
#[derive(Clone, Debug)]
pub struct Blockmaps {
    pub header: BlockmapsHeader,
    pub metrix_lines: Vec<Vec<u16>>,
}

/// The per-line behaviour flags, one bit each.
#[derive(Clone, Copy, Debug, PartialEq, Eq, Structural)]
pub enum LineDefFlags {
    Blocking,
    BlockMonsters,
    TwoSided,
    DontPegTop,
    DontPegBottom,
    Secret,
    SoundBlock,
    DontDraw,
    Mapped,
}

impl LineDefFlags {
    /// The flag's bit.
    pub open spec fn spec_value(self) -> u16 {
        match self {
            LineDefFlags::Blocking => 1,
            LineDefFlags::BlockMonsters => 2,
            LineDefFlags::TwoSided => 4,
            LineDefFlags::DontPegTop => 8,
            LineDefFlags::DontPegBottom => 16,
            LineDefFlags::Secret => 32,
            LineDefFlags::SoundBlock => 64,
            LineDefFlags::DontDraw => 128,
            LineDefFlags::Mapped => 256,
        }
    }

    /// The flag's bit.
    pub fn value(self) -> (r: u16)
        ensures
            r == self.spec_value(),
    {
        match self {
            LineDefFlags::Blocking => 1,
            LineDefFlags::BlockMonsters => 2,
            LineDefFlags::TwoSided => 4,
            LineDefFlags::DontPegTop => 8,
            LineDefFlags::DontPegBottom => 16,
            LineDefFlags::Secret => 32,
            LineDefFlags::SoundBlock => 64,
            LineDefFlags::DontDraw => 128,
            LineDefFlags::Mapped => 256,
        }
    }
}

/// Order of the lumps that make up one map in the archive directory,
/// relative to the map's marker lump.
#[derive(Clone, Copy, Debug, PartialEq, Eq, Structural)]
pub enum MapLumpsIndex {
    Things,
    LineDefs,
    SideDefs,
    Vertexes,
    Segs,
    SubSectors,
    Nodes,
    Sectors,
    Reject,
    Blockmap,
    MaxSize,
}

impl MapLumpsIndex {
    /// The lump's position after the map marker.
    pub open spec fn spec_value(self) -> usize {
        match self {
            MapLumpsIndex::Things => 1,
            MapLumpsIndex::LineDefs => 2,
            MapLumpsIndex::SideDefs => 3,
            MapLumpsIndex::Vertexes => 4,
            MapLumpsIndex::Segs => 5,
            MapLumpsIndex::SubSectors => 6,
            MapLumpsIndex::Nodes => 7,
            MapLumpsIndex::Sectors => 8,
            MapLumpsIndex::Reject => 9,
            MapLumpsIndex::Blockmap => 10,
            MapLumpsIndex::MaxSize => 11,
        }
    }

    /// The lump's position after the map marker.
    pub fn value(self) -> (r: usize)
        ensures
            r == self.spec_value(),
    {
        match self {
            MapLumpsIndex::Things => 1,
            MapLumpsIndex::LineDefs => 2,
            MapLumpsIndex::SideDefs => 3,
            MapLumpsIndex::Vertexes => 4,
            MapLumpsIndex::Segs => 5,
            MapLumpsIndex::SubSectors => 6,
            MapLumpsIndex::Nodes => 7,
            MapLumpsIndex::Sectors => 8,
            MapLumpsIndex::Reject => 9,
            MapLumpsIndex::Blockmap => 10,
            MapLumpsIndex::MaxSize => 11,
        }
    }

    /// The lump's 8-byte directory name.
    pub fn as_name(&self) -> (r: [u8; 8])
        ensures
            r == self.spec_name(),
    {
        match self {
            MapLumpsIndex::Things => [0x54, 0x48, 0x49, 0x4E, 0x47, 0x53, 0, 0],
            MapLumpsIndex::LineDefs => [0x4C, 0x49, 0x4E, 0x45, 0x44, 0x45, 0x46, 0x53],
            MapLumpsIndex::SideDefs => [0x53, 0x49, 0x44, 0x45, 0x44, 0x45, 0x46, 0x53],
            MapLumpsIndex::Vertexes => [0x56, 0x45, 0x52, 0x54, 0x45, 0x58, 0x45, 0x53],
            MapLumpsIndex::Segs => [0x53, 0x45, 0x47, 0x53, 0, 0, 0, 0],
            MapLumpsIndex::SubSectors => [0x53, 0x53, 0x45, 0x43, 0x54, 0x4F, 0x52, 0x53],
            MapLumpsIndex::Nodes => [0x4E, 0x4F, 0x44, 0x45, 0x53, 0, 0, 0],
            MapLumpsIndex::Sectors => [0x53, 0x45, 0x43, 0x54, 0x4F, 0x52, 0x53, 0],
            MapLumpsIndex::Reject => [0x52, 0x45, 0x4A, 0x45, 0x43, 0x54, 0, 0],
            MapLumpsIndex::Blockmap => [0x42, 0x4C, 0x4F, 0x43, 0x4B, 0x4D, 0x41, 0x50],
            MapLumpsIndex::MaxSize => [0x2D, 0x2D, 0x2D, 0x2D, 0x2D, 0x2D, 0x2D, 0x2D],
        }
    }

    /// The lump's 8-byte directory name.
    pub open spec fn spec_name(self) -> [u8; 8] {
        match self {
            MapLumpsIndex::Things => [0x54, 0x48, 0x49, 0x4E, 0x47, 0x53, 0, 0],
            MapLumpsIndex::LineDefs => [0x4C, 0x49, 0x4E, 0x45, 0x44, 0x45, 0x46, 0x53],
            MapLumpsIndex::SideDefs => [0x53, 0x49, 0x44, 0x45, 0x44, 0x45, 0x46, 0x53],
            MapLumpsIndex::Vertexes => [0x56, 0x45, 0x52, 0x54, 0x45, 0x58, 0x45, 0x53],
            MapLumpsIndex::Segs => [0x53, 0x45, 0x47, 0x53, 0, 0, 0, 0],
            MapLumpsIndex::SubSectors => [0x53, 0x53, 0x45, 0x43, 0x54, 0x4F, 0x52, 0x53],
            MapLumpsIndex::Nodes => [0x4E, 0x4F, 0x44, 0x45, 0x53, 0, 0, 0],
            MapLumpsIndex::Sectors => [0x53, 0x45, 0x43, 0x54, 0x4F, 0x52, 0x53, 0],
            MapLumpsIndex::Reject => [0x52, 0x45, 0x4A, 0x45, 0x43, 0x54, 0, 0],
            MapLumpsIndex::Blockmap => [0x42, 0x4C, 0x4F, 0x43, 0x4B, 0x4D, 0x41, 0x50],
            MapLumpsIndex::MaxSize => [0x2D, 0x2D, 0x2D, 0x2D, 0x2D, 0x2D, 0x2D, 0x2D],
        }
    }
}

/// The level: every geometry array, plus the optional blockmap.
#[derive(Clone, Debug)]
pub struct LevelMap {
    pub things: Vec<Thing>,
    pub line_defs: Vec<LineDef>,
    pub side_defs: Vec<SideDef>,
    pub vertices: Vec<Vertex>,
    pub segs: Vec<Seg>,
    pub sub_sectors: Vec<SubSector>,
    pub nodes: Vec<Node>,
    pub sectors: Vec<Sector>,
    pub blockmaps: Option<Blockmaps>,
}

impl LineDef {
    /// Every index the line stores points into the map's arrays.
    pub open spec fn ids_ok(self, m: LevelMap) -> bool {
        &&& self.start_vertex_id < m.vertices@.len()
        &&& self.end_vertex_id < m.vertices@.len()
        &&& (self.right_sidedef_id == SIDE_NONE || self.right_sidedef_id < m.side_defs@.len())
        &&& (self.left_sidedef_id == SIDE_NONE || self.left_sidedef_id < m.side_defs@.len())
    }
}

impl SideDef {
    /// The side's sector index points into the map's sector array.
    pub open spec fn ids_ok(self, m: LevelMap) -> bool {
        0 <= self.sector_id && (self.sector_id as int) < m.sectors@.len()
    }
}

impl Seg {
    /// Every index the segment stores points into the map's arrays.
    pub open spec fn ids_ok(self, m: LevelMap) -> bool {
        &&& self.start_vertex_id < m.vertices@.len()
        &&& self.end_vertex_id < m.vertices@.len()
        &&& self.line_def_id < m.line_defs@.len()
    }
}

impl SubSector {
    /// The run of segments lies inside the map's segment array.
    pub open spec fn ids_ok(self, m: LevelMap) -> bool {
        self.first_seg_id + self.seg_count <= m.segs@.len() && self.first_seg_id + self.seg_count
            <= u16::MAX
    }
}

/// A child reference of the node at index `idx` is either a leaf index
/// into the subsector array (top bit set), or an earlier interior node.
pub open spec fn child_ok(child: u16, idx: int, m: LevelMap) -> bool {
    if child >= LEAF_FLAG {
        child - LEAF_FLAG < m.sub_sectors@.len()
    } else {
        child < idx
    }
}

impl Node {
    /// Both children point at a leaf or at an earlier node, so traversal
    /// from high to low indices terminates.
    pub open spec fn ids_ok(self, idx: int, m: LevelMap) -> bool {
        child_ok(self.right_child_id, idx, m) && child_ok(self.left_child_id, idx, m)
    }
}

impl Blockmaps {
    /// The grid holds one list per cell and every listed line exists.
    pub open spec fn wf(self, m: LevelMap) -> bool {
        &&& self.metrix_lines@.len() == self.header.columns as int * self.header.rows as int
        &&& forall|c: int, i: int|
            0 <= c < self.metrix_lines@.len() && 0 <= i < self.metrix_lines@[c]@.len()
                ==> #[trigger] self.metrix_lines@[c]@[i] < m.line_defs@.len()
    }
}

impl LevelMap {
    /// Well-formedness: every cross-reference in every array is in range.
    /// Loading validates this once; everything downstream relies on it.
    pub open spec fn wf(self) -> bool {
        &&& self.nodes@.len() <= LEAF_FLAG
        &&& forall|i: int|
            0 <= i < self.line_defs@.len() ==> (#[trigger] self.line_defs@[i]).ids_ok(self)
        &&& forall|i: int|
            0 <= i < self.side_defs@.len() ==> (#[trigger] self.side_defs@[i]).ids_ok(self)
        &&& forall|i: int| 0 <= i < self.segs@.len() ==> (#[trigger] self.segs@[i]).ids_ok(self)
        &&& forall|i: int|
            0 <= i < self.sub_sectors@.len() ==> (#[trigger] self.sub_sectors@[i]).ids_ok(self)
        &&& forall|i: int|
            0 <= i < self.nodes@.len() ==> (#[trigger] self.nodes@[i]).ids_ok(i, self)
        &&& match self.blockmaps {
            Some(bm) => bm.wf(self),
            None => true,
        }
    }
}

impl LineDef {
    /// The side on the line's right hand, where one exists.
    pub fn right_side<'a>(&self, map: &'a LevelMap) -> (r: Option<&'a SideDef>)
        requires
            self.ids_ok(*map),
        ensures
            r is Some <==> self.right_sidedef_id != SIDE_NONE,
            r matches Some(s) ==> *s == map.side_defs@[self.right_sidedef_id as int],
    {
        if self.right_sidedef_id != SIDE_NONE {
            Some(&map.side_defs[self.right_sidedef_id as usize])
        } else {
            None
        }
    }

    /// The front side: the right side.
    pub fn front_side<'a>(&self, map: &'a LevelMap) -> (r: Option<&'a SideDef>)
        requires
            self.ids_ok(*map),
        ensures
            r is Some <==> self.right_sidedef_id != SIDE_NONE,
            r matches Some(s) ==> *s == map.side_defs@[self.right_sidedef_id as int],
    {
        self.right_side(map)
    }

    /// The side on the line's left hand, where one exists.
    pub fn left_side<'a>(&self, map: &'a LevelMap) -> (r: Option<&'a SideDef>)
        requires
            self.ids_ok(*map),
        ensures
            r is Some <==> self.left_sidedef_id != SIDE_NONE,
            r matches Some(s) ==> *s == map.side_defs@[self.left_sidedef_id as int],
    {
        if self.left_sidedef_id != SIDE_NONE {
            Some(&map.side_defs[self.left_sidedef_id as usize])
        } else {
            None
        }
    }

    /// The back side: the left side.
    pub fn back_side<'a>(&self, map: &'a LevelMap) -> (r: Option<&'a SideDef>)
        requires
            self.ids_ok(*map),
        ensures
            r is Some <==> self.left_sidedef_id != SIDE_NONE,
            r matches Some(s) ==> *s == map.side_defs@[self.left_sidedef_id as int],
    {
        self.left_side(map)
    }

    /// The line's first vertex.
    pub fn start_vertex<'a>(&self, map: &'a LevelMap) -> (r: &'a Vertex)
        requires
            self.ids_ok(*map),
        ensures
            *r == map.vertices@[self.start_vertex_id as int],
    {
        &map.vertices[self.start_vertex_id as usize]
    }

    /// The line's second vertex.
    pub fn end_vertex<'a>(&self, map: &'a LevelMap) -> (r: &'a Vertex)
        requires
            self.ids_ok(*map),
        ensures
            *r == map.vertices@[self.end_vertex_id as int],
    {
        &map.vertices[self.end_vertex_id as usize]
    }

    /// Whether the line carries the given behaviour flag.
    pub fn has_flag(&self, mask: LineDefFlags) -> (r: bool)
        ensures
            r == ((self.flag & mask.spec_value()) != 0),
    {
        (self.flag & mask.value()) != 0
    }
}

impl SideDef {
    /// The sector this side faces.
    pub fn sector<'a>(&self, map: &'a LevelMap) -> (r: &'a Sector)
        requires
            self.ids_ok(*map),
        ensures
            *r == map.sectors@[self.sector_id as int],
    {
        &map.sectors[self.sector_id as usize]
    }
}

impl SubSector {
    /// The segment index range the leaf covers.
    pub fn iter(&self) -> (r: core::ops::Range<u16>)
        requires
            self.first_seg_id + self.seg_count <= u16::MAX,
        ensures
            r.start == self.first_seg_id,
            r.end == self.first_seg_id + self.seg_count,
    {
        self.first_seg_id..self.first_seg_id + self.seg_count
    }
}

impl Seg {
    /// The sector on the given hand of the segment, following the
    /// segment's direction: direction 0 maps the right hand to the line's
    /// right side.
    pub open spec fn spec_side_sector(self, right: bool, m: LevelMap) -> Option<Sector> {
        let line = m.line_defs@[self.line_def_id as int];
        let side_id = if (self.direction == 0) == right {
            line.right_sidedef_id
        } else {
            line.left_sidedef_id
        };
        if side_id == SIDE_NONE {
            None
        } else {
            Some(m.sectors@[m.side_defs@[side_id as int].sector_id as int])
        }
    }

    /// The line this segment slices.
    pub fn line_defs<'a>(&self, map: &'a LevelMap) -> (r: &'a LineDef)
        requires
            self.ids_ok(*map),
        ensures
            *r == map.line_defs@[self.line_def_id as int],
    {
        &map.line_defs[self.line_def_id as usize]
    }

    /// The sector on the segment's right hand, where one exists.
    pub fn right_sector<'a>(&self, map: &'a LevelMap) -> (r: Option<&'a Sector>)
        requires
            map.wf(),
            self.ids_ok(*map),
        ensures
            r is Some <==> self.spec_side_sector(true, *map) is Some,
            r matches Some(s) ==> Some(*s) == self.spec_side_sector(true, *map),
    {
        let line_defs = self.line_defs(map);
        if self.direction == 0 {
            match line_defs.right_side(map) {
                Some(side_def) => Some(side_def.sector(map)),
                None => None,
            }
        } else {
            match line_defs.left_side(map) {
                Some(side_def) => Some(side_def.sector(map)),
                None => None,
            }
        }
    }

    /// The front sector: the right-hand sector.
    pub fn front_sector<'a>(&self, map: &'a LevelMap) -> (r: Option<&'a Sector>)
        requires
            map.wf(),
            self.ids_ok(*map),
        ensures
            r is Some <==> self.spec_side_sector(true, *map) is Some,
            r matches Some(s) ==> Some(*s) == self.spec_side_sector(true, *map),
    {
        self.right_sector(map)
    }

    /// The sector on the segment's left hand, where one exists.
    pub fn left_sector<'a>(&self, map: &'a LevelMap) -> (r: Option<&'a Sector>)
        requires
            map.wf(),
            self.ids_ok(*map),
        ensures
            r is Some <==> self.spec_side_sector(false, *map) is Some,
            r matches Some(s) ==> Some(*s) == self.spec_side_sector(false, *map),
    {
        let line_defs = self.line_defs(map);
        if self.direction == 0 {
            match line_defs.left_side(map) {
                Some(side_def) => Some(side_def.sector(map)),
                None => None,
            }
        } else {
            match line_defs.right_side(map) {
                Some(side_def) => Some(side_def.sector(map)),
                None => None,
            }
        }
    }

    /// The back sector: the left-hand sector.
    pub fn back_sector<'a>(&self, map: &'a LevelMap) -> (r: Option<&'a Sector>)
        requires
            map.wf(),
            self.ids_ok(*map),
        ensures
            r is Some <==> self.spec_side_sector(false, *map) is Some,
            r matches Some(s) ==> Some(*s) == self.spec_side_sector(false, *map),
    {
        self.left_sector(map)
    }

    /// The segment's first vertex.
    pub fn start_vertex<'a>(&self, map: &'a LevelMap) -> (r: &'a Vertex)
        requires
            self.ids_ok(*map),
        ensures
            *r == map.vertices@[self.start_vertex_id as int],
    {
        &map.vertices[self.start_vertex_id as usize]
    }

    /// The segment's second vertex.
    pub fn end_vertex<'a>(&self, map: &'a LevelMap) -> (r: &'a Vertex)
        requires
            self.ids_ok(*map),
        ensures
            *r == map.vertices@[self.end_vertex_id as int],
    {
        &map.vertices[self.end_vertex_id as usize]
    }

    /// The segment's stored binary angle scaled to 16.16 fixed-point
    /// degrees in [0, 360): the 16-bit binary angle covers the full turn,
    /// so one angle unit is 360/65536 of a degree, which is 360 in fixed
    /// point.
    pub fn fixed_degrees_angle(&self) -> (r: i64)
        ensures
            r == self.angle as int * 360,
            0 <= r < 360 * 65536,
    {
        (self.angle as i64) * 360
    }
}

impl Blockmaps {
    /// Truncated division of a coordinate offset by the 128-unit cell
    /// size, matching the loader's grid placement.
    pub open spec fn cell_coord(d: int) -> int {
        if d >= 0 {
            d / 128
        } else {
            -((-d) / 128)
        }
    }

    /// The cell list covering the point, or `None` outside the grid.
    pub fn get<'a>(&'a self, x: i16, y: i16) -> (r: Option<&'a Vec<u16>>)
        ensures
            ({
                let mx = Self::cell_coord(x - self.header.x);
                let my = Self::cell_coord(y - self.header.y);
                &&& (r is Some <==> 0 <= mx < self.header.columns as int && 0 <= my
                    < self.header.rows as int && self.header.columns as int * my + mx
                    < self.metrix_lines@.len())
                &&& (r matches Some(list) ==> *list == self.metrix_lines@[
                    self.header.columns as int * my + mx])
            }),
    {
        let dx: i32 = (x as i32) - (self.header.x as i32);
        let dy: i32 = (y as i32) - (self.header.y as i32);
        let m_x = dx / 128;
        let m_y = dy / 128;
        if m_x >= 0 && m_x < (self.header.columns as i32) && m_y >= 0 && m_y < (
        self.header.rows as i32) {
            let i_x = m_x as u64;
            let i_y = m_y as u64;
            let columns = self.header.columns as u64;
            proof {
                assert(columns * i_y <= 65535 * 65535) by (nonlinear_arith)
                    requires
                        0 <= columns <= 65535 && 0 <= i_y <= 65535,
                ;
            }
            let cell64: u64 = columns * i_y + i_x;
            proof {
                assert(columns * i_y + i_x == self.header.columns as int * Self::cell_coord(
                    y - self.header.y,
                ) + Self::cell_coord(x - self.header.x));
            }
            if cell64 < self.metrix_lines.len() as u64 {
                Some(&self.metrix_lines[cell64 as usize])
            } else {
                None
            }
        } else {
            None
        }
    }

    /// Whether some cell's list holds the value.
    pub open spec fn listed(self, v: u16) -> bool {
        exists|c: int, i: int|
            0 <= c < self.metrix_lines@.len() && 0 <= i < self.metrix_lines@[c]@.len() && v == (
            #[trigger] self.metrix_lines@[c]@[i])
    }

    /// The cell list at one sample point: empty off the 16-bit world,
    /// off the grid, or past the cell array.
    pub open spec fn spec_sample_cell(self, x: int, y: int) -> Seq<u16> {
        if x < -32768 || x > 32767 || y < -32768 || y > 32767 {
            Seq::empty()
        } else {
            let mx = Self::cell_coord(x - self.header.x);
            let my = Self::cell_coord(y - self.header.y);
            let cell = self.header.columns as int * my + mx;
            if 0 <= mx < self.header.columns as int && 0 <= my < self.header.rows as int && cell
                < self.metrix_lines@.len() {
                self.metrix_lines@[cell]@
            } else {
                Seq::empty()
            }
        }
    }

    /// The lines the radius query returns: the cell lists of the nine
    /// sample points of the square around the point, row by row from
    /// below the point to above it, left to right.
    pub open spec fn spec_radius_lists(self, x: int, y: int, radius: int) -> Seq<u16> {
        self.spec_sample_cell(x - radius, y - radius) + self.spec_sample_cell(x, y - radius)
            + self.spec_sample_cell(x + radius, y - radius) + self.spec_sample_cell(x - radius, y)
            + self.spec_sample_cell(x, y) + self.spec_sample_cell(x + radius, y)
            + self.spec_sample_cell(x - radius, y + radius) + self.spec_sample_cell(
            x,
            y + radius,
        ) + self.spec_sample_cell(x + radius, y + radius)
    }

    /// Appends the cell list at one sample point.
    fn push_sample(&self, out: &mut Vec<u16>, px64: i64, py64: i64)
        ensures
            final(out)@ == old(out)@ + self.spec_sample_cell(px64 as int, py64 as int),
    {
        if px64 < -32768 || px64 > 32767 || py64 < -32768 || py64 > 32767 {
            proof {
                assert(final(out)@ =~= old(out)@ + self.spec_sample_cell(
                    px64 as int,
                    py64 as int,
                ));
            }
            return ;
        }
        let px = px64 as i16;
        let py = py64 as i16;
        match self.get(px, py) {
            Some(list) => {
                let ghost cell = self.header.columns as int * Self::cell_coord(
                    py - self.header.y,
                ) + Self::cell_coord(px - self.header.x);
                let ghost base = out@;
                let mut i: usize = 0;
                while i < list.len()
                    invariant
                        *list == self.metrix_lines@[cell],
                        0 <= cell < self.metrix_lines@.len(),
                        i <= list@.len(),
                        out@ == base + list@.take(i as int),
                    decreases list@.len() - i,
                {
                    let v = list[i];
                    out.push(v);
                    proof {
                        assert(base + list@.take(i + 1) =~= (base + list@.take(i as int)).push(
                            list@[i as int],
                        ));
                    }
                    i += 1;
                }
                proof {
                    assert(list@.take(list@.len() as int) =~= list@);
                    assert(out@ =~= base + self.spec_sample_cell(px64 as int, py64 as int));
                }
            },
            None => {
                proof {
                    assert(out@ =~= out@ + self.spec_sample_cell(px64 as int, py64 as int));
                }
            },
        }
    }

    /// All line indices listed in cells the square of the given radius
    /// around the point overlaps: the nine sample points' cell lists in
    /// row-major order.
    pub fn get_with_radius(&self, x: i16, y: i16, radius: u16) -> (r: Vec<u16>)
        ensures
            r@ == self.spec_radius_lists(x as int, y as int, radius as int),
            forall|k: int| 0 <= k < r@.len() ==> self.listed(#[trigger] r@[k]),
    {
        let mut out: Vec<u16> = Vec::new();
        let rr = radius as i64;
        let x64 = x as i64;
        let y64 = y as i64;
        self.push_sample(&mut out, x64 - rr, y64 - rr);
        self.push_sample(&mut out, x64, y64 - rr);
        self.push_sample(&mut out, x64 + rr, y64 - rr);
        self.push_sample(&mut out, x64 - rr, y64);
        self.push_sample(&mut out, x64, y64);
        self.push_sample(&mut out, x64 + rr, y64);
        self.push_sample(&mut out, x64 - rr, y64 + rr);
        self.push_sample(&mut out, x64, y64 + rr);
        self.push_sample(&mut out, x64 + rr, y64 + rr);
        proof {
            assert(out@ =~= self.spec_radius_lists(x as int, y as int, radius as int));
            assert forall|k: int| 0 <= k < out@.len() implies self.listed(#[trigger] out@[k]) by {
                lemma_radius_lists_listed(*self, x as int, y as int, radius as int, k);
            }
        }
        out
    }
}

/// Every entry of the radius query's result lies in some cell list.
proof fn lemma_radius_lists_listed(bm: Blockmaps, x: int, y: int, radius: int, k: int)
    requires
        0 <= k < bm.spec_radius_lists(x, y, radius).len(),
    ensures
        bm.listed(bm.spec_radius_lists(x, y, radius)[k]),
{
    let v = bm.spec_radius_lists(x, y, radius)[k];
    lemma_sample_parts_listed(bm, x, y, radius, k);
}

/// The concatenation's entry comes from one of the nine sample cells.
proof fn lemma_sample_parts_listed(bm: Blockmaps, x: int, y: int, radius: int, k: int)
    requires
        0 <= k < bm.spec_radius_lists(x, y, radius).len(),
    ensures
        bm.listed(bm.spec_radius_lists(x, y, radius)[k]),
{
    let v = bm.spec_radius_lists(x, y, radius)[k];
    let samples = seq![
        bm.spec_sample_cell(x - radius, y - radius),
        bm.spec_sample_cell(x, y - radius),
        bm.spec_sample_cell(x + radius, y - radius),
        bm.spec_sample_cell(x - radius, y),
        bm.spec_sample_cell(x, y),
        bm.spec_sample_cell(x + radius, y),
        bm.spec_sample_cell(x - radius, y + radius),
        bm.spec_sample_cell(x, y + radius),
        bm.spec_sample_cell(x + radius, y + radius),
    ];
    // Case on the cumulative part lengths to find the sample the
    // index lands in.
    let total = bm.spec_radius_lists(x, y, radius);
    assert(total =~= samples[0] + samples[1] + samples[2] + samples[3] + samples[4] + samples[5]
        + samples[6] + samples[7] + samples[8]);
    let l0 = samples[0].len() as int;
    let l1 = l0 + samples[1].len();
    let l2 = l1 + samples[2].len();
    let l3 = l2 + samples[3].len();
    let l4 = l3 + samples[4].len();
    let l5 = l4 + samples[5].len();
    let l6 = l5 + samples[6].len();
    let l7 = l6 + samples[7].len();
    if k < l0 {
        lemma_cell_value_listed(bm, x - radius, y - radius, k);
    } else if k < l1 {
        lemma_cell_value_listed(bm, x, y - radius, k - l0);
    } else if k < l2 {
        lemma_cell_value_listed(bm, x + radius, y - radius, k - l1);
    } else if k < l3 {
        lemma_cell_value_listed(bm, x - radius, y, k - l2);
    } else if k < l4 {
        lemma_cell_value_listed(bm, x, y, k - l3);
    } else if k < l5 {
        lemma_cell_value_listed(bm, x + radius, y, k - l4);
    } else if k < l6 {
        lemma_cell_value_listed(bm, x - radius, y + radius, k - l5);
    } else if k < l7 {
        lemma_cell_value_listed(bm, x, y + radius, k - l6);
    } else {
        lemma_cell_value_listed(bm, x + radius, y + radius, k - l7);
    }
}

/// A value inside one sample cell's list is listed.
proof fn lemma_cell_value_listed(bm: Blockmaps, sx: int, sy: int, j: int)
    requires
        0 <= j < bm.spec_sample_cell(sx, sy).len(),
    ensures
        bm.listed(bm.spec_sample_cell(sx, sy)[j]),
{
    let mx = Blockmaps::cell_coord(sx - bm.header.x);
    let my = Blockmaps::cell_coord(sy - bm.header.y);
    let cell = bm.header.columns as int * my + mx;
    assert(bm.metrix_lines@[cell]@[j] == bm.spec_sample_cell(sx, sy)[j]);
}

/// Whether a directory entry marks the start of another map: an empty
/// lump named like a map marker.
pub open spec fn spec_is_map_marker(d: crate::wad::Directory) -> bool {
    d.lump_size == 0 && ((d.lump_name@[0] == 0x4D && d.lump_name@[1] == 0x41 && d.lump_name@[2]
        == 0x50) || (d.lump_name@[0] == 0x45 && d.lump_name@[2] == 0x4D))
}

/// The first entry after `i` whose name matches, stopping at the next
/// map marker.
pub open spec fn spec_lump_scan(dirs: Seq<crate::wad::Directory>, name: Seq<u8>, i: int) -> Option<
    int,
>
    decreases dirs.len() - i,
{
    if i < 0 || i >= dirs.len() {
        None
    } else if spec_is_map_marker(dirs[i]) {
        None
    } else if dirs[i].lump_name@ == name {
        Some(i)
    } else {
        spec_lump_scan(dirs, name, i + 1)
    }
}

/// Finds one of a map's lumps: the first entry after the map marker with
/// the wanted name, before the next map's marker.
pub fn map_lump_indexs_get_id(
    directories: &crate::wad::DirectoryList,
    map_lump_id: usize,
    name: &[u8; 8],
) -> (r: Option<usize>)
    requires
        map_lump_id < usize::MAX,
    ensures
        ({
            let s = spec_lump_scan(directories.directories@, name@, map_lump_id + 1);
            match r {
                Some(i) => s == Some(i as int),
                None => s is None,
            }
        }),
{
    let mut lump_id = map_lump_id + 1;
    let n = directories.len();
    while lump_id < n
        invariant
            map_lump_id + 1 <= lump_id,
            n == directories.directories@.len(),
            spec_lump_scan(directories.directories@, name@, map_lump_id + 1) == spec_lump_scan(
                directories.directories@,
                name@,
                lump_id as int,
            ),
        decreases n - lump_id,
    {
        let d = directories.get(lump_id);
        let marker = d.lump_size == 0 && ((d.lump_name[0] == 0x4D && d.lump_name[1] == 0x41
            && d.lump_name[2] == 0x50) || (d.lump_name[0] == 0x45 && d.lump_name[2] == 0x4D));
        if marker {
            return None;
        }
        if crate::wad::name_eq(&d.lump_name, name) {
            return Some(lump_id);
        }
        lump_id += 1;
    }
    None
}

/// The positions of one map's lumps in the archive directory.
pub struct MapLumpIndexs {
    pub things: Option<usize>,
    pub linedefs: Option<usize>,
    pub sideddefs: Option<usize>,
    pub vertexes: Option<usize>,
    pub segs: Option<usize>,
    pub ssectors: Option<usize>,
    pub nodes: Option<usize>,
    pub sectors: Option<usize>,
    pub reject: Option<usize>,
    pub blockmap: Option<usize>,
}

impl MapLumpIndexs {
    /// Scans for every lump of the map that starts at `map_lump_id`.
    pub fn new(directories: &crate::wad::DirectoryList, map_lump_id: usize) -> (r: MapLumpIndexs)
        requires
            map_lump_id < usize::MAX,
    {
        MapLumpIndexs {
            things: map_lump_indexs_get_id(
                directories,
                map_lump_id,
                &MapLumpsIndex::Things.as_name(),
            ),
            linedefs: map_lump_indexs_get_id(
                directories,
                map_lump_id,
                &MapLumpsIndex::LineDefs.as_name(),
            ),
            sideddefs: map_lump_indexs_get_id(
                directories,
                map_lump_id,
                &MapLumpsIndex::SideDefs.as_name(),
            ),
            vertexes: map_lump_indexs_get_id(
                directories,
                map_lump_id,
                &MapLumpsIndex::Vertexes.as_name(),
            ),
            segs: map_lump_indexs_get_id(directories, map_lump_id, &MapLumpsIndex::Segs.as_name()),
            ssectors: map_lump_indexs_get_id(
                directories,
                map_lump_id,
                &MapLumpsIndex::SubSectors.as_name(),
            ),
            nodes: map_lump_indexs_get_id(
                directories,
                map_lump_id,
                &MapLumpsIndex::Nodes.as_name(),
            ),
            sectors: map_lump_indexs_get_id(
                directories,
                map_lump_id,
                &MapLumpsIndex::Sectors.as_name(),
            ),
            reject: map_lump_indexs_get_id(
                directories,
                map_lump_id,
                &MapLumpsIndex::Reject.as_name(),
            ),
            blockmap: map_lump_indexs_get_id(
                directories,
                map_lump_id,
                &MapLumpsIndex::Blockmap.as_name(),
            ),
        }
    }
}

/// The record a run of level-format bytes spells, for each array.
pub open spec fn decode_thing(b: Seq<u8>, off: int) -> Thing {
    Thing {
        position: Vector2 {
            x: crate::wad::as_signed16(crate::wad::le16(b[off], b[off + 1])) as i16,
            y: crate::wad::as_signed16(crate::wad::le16(b[off + 2], b[off + 3])) as i16,
        },
        angle: crate::wad::le16(b[off + 4], b[off + 5]),
        type_id: crate::wad::le16(b[off + 6], b[off + 7]),
        flags: crate::wad::le16(b[off + 8], b[off + 9]),
    }
}

/// The wall line a run of bytes spells.
pub open spec fn decode_linedef(b: Seq<u8>, off: int) -> LineDef {
    LineDef {
        start_vertex_id: crate::wad::le16(b[off], b[off + 1]),
        end_vertex_id: crate::wad::le16(b[off + 2], b[off + 3]),
        flag: crate::wad::le16(b[off + 4], b[off + 5]),
        line_type: crate::wad::le16(b[off + 6], b[off + 7]),
        sector_tag: crate::wad::le16(b[off + 8], b[off + 9]),
        right_sidedef_id: crate::wad::le16(b[off + 10], b[off + 11]),
        left_sidedef_id: crate::wad::le16(b[off + 12], b[off + 13]),
    }
}

/// The vertex a run of bytes spells.
pub open spec fn decode_vertex(b: Seq<u8>, off: int) -> Vertex {
    Vector2 {
        x: crate::wad::as_signed16(crate::wad::le16(b[off], b[off + 1])) as i16,
        y: crate::wad::as_signed16(crate::wad::le16(b[off + 2], b[off + 3])) as i16,
    }
}

/// The render segment a run of bytes spells.
pub open spec fn decode_seg(b: Seq<u8>, off: int) -> Seg {
    Seg {
        start_vertex_id: crate::wad::le16(b[off], b[off + 1]),
        end_vertex_id: crate::wad::le16(b[off + 2], b[off + 3]),
        angle: crate::wad::le16(b[off + 4], b[off + 5]),
        line_def_id: crate::wad::le16(b[off + 6], b[off + 7]),
        direction: crate::wad::le16(b[off + 8], b[off + 9]),
        offset: crate::wad::le16(b[off + 10], b[off + 11]),
    }
}

/// The leaf a run of bytes spells.
pub open spec fn decode_subsector(b: Seq<u8>, off: int) -> SubSector {
    SubSector {
        seg_count: crate::wad::le16(b[off], b[off + 1]),
        first_seg_id: crate::wad::le16(b[off + 2], b[off + 3]),
    }
}

/// Reads the signed 16-bit field at `off`.
fn field_i16(buffer: &Vec<u8>, off: usize) -> (r: i16)
    requires
        off + 2 <= buffer@.len(),
    ensures
        r == crate::wad::as_signed16(crate::wad::le16(buffer@[off as int], buffer@[off + 1])),
{
    crate::wad::read_i16_le(buffer, off)
}

impl LevelMap {
    /// Decodes a map's arrays from the archive and validates every
    /// cross-reference; `None` when the map is missing or malformed.
    /// Loading is the one validation point: everything downstream
    /// relies on the returned map being well formed.
    pub fn new(reader: &crate::wad::Reader, configure: &crate::configure::MapConfig) -> (r: Option<
        LevelMap,
    >)
        ensures
            r matches Some(m) ==> m.wf(),
    {
        let directories = match reader.directories() {
            Some(d) => d,
            None => {
                return None;
            },
        };
        let map_dir_id = match directories.index_of(configure.name.as_str()) {
            Some(i) => i,
            None => {
                return None;
            },
        };
        if map_dir_id >= usize::MAX {
            return None;
        }
        let indexes = MapLumpIndexs::new(&directories, map_dir_id);
        let buffer = &reader.buffer;
        let mut map = LevelMap {
            things: Vec::new(),
            line_defs: Vec::new(),
            side_defs: Vec::new(),
            vertices: Vec::new(),
            segs: Vec::new(),
            sub_sectors: Vec::new(),
            nodes: Vec::new(),
            sectors: Vec::new(),
            blockmaps: None,
        };
        match indexes.things {
            Some(i) => {
                if i < directories.len() {
                    map.things = extract_things(buffer, directories.get(i));
                }
            },
            None => {},
        }
        match indexes.linedefs {
            Some(i) => {
                if i < directories.len() {
                    map.line_defs = extract_linedefs(buffer, directories.get(i));
                }
            },
            None => {},
        }
        match indexes.sideddefs {
            Some(i) => {
                if i < directories.len() {
                    map.side_defs = extract_sidedefs(buffer, directories.get(i));
                }
            },
            None => {},
        }
        match indexes.vertexes {
            Some(i) => {
                if i < directories.len() {
                    map.vertices = extract_vertices(buffer, directories.get(i));
                }
            },
            None => {},
        }
        match indexes.segs {
            Some(i) => {
                if i < directories.len() {
                    map.segs = extract_segs(buffer, directories.get(i));
                }
            },
            None => {},
        }
        match indexes.ssectors {
            Some(i) => {
                if i < directories.len() {
                    map.sub_sectors = extract_subsectors(buffer, directories.get(i));
                }
            },
            None => {},
        }
        match indexes.nodes {
            Some(i) => {
                if i < directories.len() {
                    map.nodes = extract_nodes(buffer, directories.get(i));
                }
            },
            None => {},
        }
        match indexes.sectors {
            Some(i) => {
                if i < directories.len() {
                    map.sectors = extract_sectors(buffer, directories.get(i));
                }
            },
            None => {},
        }
        if map.line_defs.len() > 0 {
            match indexes.blockmap {
                Some(i) => {
                    if i < directories.len() {
                        map.blockmaps = blockmaps_new(
                            directories.get(i),
                            map.line_defs.len(),
                            buffer,
                            configure.blockmap_no_first_line,
                        );
                    }
                },
                None => {},
            }
        }
        if validate_map(&map) {
            Some(map)
        } else {
            None
        }
    }
}

/// Checks every well-formedness condition of a freshly decoded map.
pub fn validate_map(map: &LevelMap) -> (r: bool)
    ensures
        r == map.wf(),
{
    if map.nodes.len() > LEAF_FLAG as usize {
        return false;
    }
    let mut i: usize = 0;
    while i < map.line_defs.len()
        invariant
            i <= map.line_defs@.len(),
            forall|k: int| 0 <= k < i ==> (#[trigger] map.line_defs@[k]).ids_ok(*map),
        decreases map.line_defs@.len() - i,
    {
        let l = &map.line_defs[i];
        let ok = (l.start_vertex_id as usize) < map.vertices.len() && (l.end_vertex_id as usize)
            < map.vertices.len() && (l.right_sidedef_id == SIDE_NONE || (
        l.right_sidedef_id as usize) < map.side_defs.len()) && (l.left_sidedef_id == SIDE_NONE
            || (l.left_sidedef_id as usize) < map.side_defs.len());
        if !ok {
            return false;
        }
        i += 1;
    }
    let mut i2: usize = 0;
    while i2 < map.side_defs.len()
        invariant
            i2 <= map.side_defs@.len(),
            forall|k: int| 0 <= k < i2 ==> (#[trigger] map.side_defs@[k]).ids_ok(*map),
        decreases map.side_defs@.len() - i2,
    {
        let sd = &map.side_defs[i2];
        if !(sd.sector_id >= 0 && (sd.sector_id as usize) < map.sectors.len()) {
            return false;
        }
        i2 += 1;
    }
    let mut i3: usize = 0;
    while i3 < map.segs.len()
        invariant
            i3 <= map.segs@.len(),
            forall|k: int| 0 <= k < i3 ==> (#[trigger] map.segs@[k]).ids_ok(*map),
        decreases map.segs@.len() - i3,
    {
        let sg = &map.segs[i3];
        let ok = (sg.start_vertex_id as usize) < map.vertices.len() && (sg.end_vertex_id as usize)
            < map.vertices.len() && (sg.line_def_id as usize) < map.line_defs.len();
        if !ok {
            return false;
        }
        i3 += 1;
    }
    let mut i4: usize = 0;
    while i4 < map.sub_sectors.len()
        invariant
            i4 <= map.sub_sectors@.len(),
            forall|k: int| 0 <= k < i4 ==> (#[trigger] map.sub_sectors@[k]).ids_ok(*map),
        decreases map.sub_sectors@.len() - i4,
    {
        let ss = &map.sub_sectors[i4];
        let total = (ss.first_seg_id as usize) + (ss.seg_count as usize);
        if !(total <= map.segs.len() && total <= u16::MAX as usize) {
            return false;
        }
        i4 += 1;
    }
    let mut i5: usize = 0;
    while i5 < map.nodes.len()
        invariant
            i5 <= map.nodes@.len(),
            forall|k: int| 0 <= k < i5 ==> (#[trigger] map.nodes@[k]).ids_ok(k, *map),
        decreases map.nodes@.len() - i5,
    {
        let nd = &map.nodes[i5];
        let right_ok = if nd.right_child_id >= LEAF_FLAG {
            ((nd.right_child_id - LEAF_FLAG) as usize) < map.sub_sectors.len()
        } else {
            (nd.right_child_id as usize) < i5
        };
        let left_ok = if nd.left_child_id >= LEAF_FLAG {
            ((nd.left_child_id - LEAF_FLAG) as usize) < map.sub_sectors.len()
        } else {
            (nd.left_child_id as usize) < i5
        };
        if !(right_ok && left_ok) {
            return false;
        }
        i5 += 1;
    }
    match &map.blockmaps {
        Some(bm) => {
            proof {
                assert(bm.header.columns as int * bm.header.rows as int <= 0xFFFF * 0xFFFF)
                    by (nonlinear_arith)
                    requires
                        bm.header.columns <= 0xFFFF && bm.header.rows <= 0xFFFF,
                ;
            }
            if (bm.metrix_lines.len() as u64) != (bm.header.columns as u64) * (
            bm.header.rows as u64) {
                return false;
            }
            let mut c: usize = 0;
            while c < bm.metrix_lines.len()
                invariant
                    c <= bm.metrix_lines@.len(),
                    map.blockmaps matches Some(b) && b == bm,
                    forall|k: int, j: int|
                        0 <= k < c && 0 <= j < bm.metrix_lines@[k]@.len()
                            ==> #[trigger] bm.metrix_lines@[k]@[j] < map.line_defs@.len(),
                decreases bm.metrix_lines@.len() - c,
            {
                let cell = &bm.metrix_lines[c];
                let mut j: usize = 0;
                while j < cell.len()
                    invariant
                        j <= cell@.len(),
                        cell == &bm.metrix_lines@[c as int],
                        c < bm.metrix_lines@.len(),
                        map.blockmaps matches Some(b) && b == bm,
                        forall|t: int|
                            0 <= t < j ==> #[trigger] cell@[t] < map.line_defs@.len(),
                    decreases cell@.len() - j,
                {
                    if (cell[j] as usize) >= map.line_defs.len() {
                        proof {
                            assert(bm.metrix_lines@[c as int]@[j as int]
                                >= map.line_defs@.len());
                        }
                        return false;
                    }
                    j += 1;
                }
                c += 1;
            }
        },
        None => {},
    }
    true
}

/// Decodes the placed objects of the things lump.
pub fn extract_things(buffer: &Vec<u8>, directory: &crate::wad::Directory) -> (r: Vec<Thing>)
    ensures
        forall|i: int|
            0 <= i < r@.len() ==> #[trigger] r@[i] == decode_thing(
                buffer@,
                directory.lump_offset + i * 10,
            ),
{
    let mut out: Vec<Thing> = Vec::new();
    let start = directory.lump_offset as usize;
    let size = directory.lump_size as usize;
    let mut off: usize = 0;
    while size - off >= 10
        invariant
            off <= size,
            start == directory.lump_offset,
            size == directory.lump_size,
            off == out@.len() * 10,
            forall|i: int|
                0 <= i < out@.len() ==> #[trigger] out@[i] == decode_thing(
                    buffer@,
                    directory.lump_offset + i * 10,
                ),
        decreases size - off,
    {
        if (start as u64) + (off as u64) + 10 > (buffer.len() as u64) {
            return out;
        }
        let o = start + off;
        out.push(
            Thing {
                position: Vector2 { x: field_i16(buffer, o), y: field_i16(buffer, o + 2) },
                angle: crate::wad::read_u16_le(buffer, o + 4),
                type_id: crate::wad::read_u16_le(buffer, o + 6),
                flags: crate::wad::read_u16_le(buffer, o + 8),
            },
        );
        proof {
            assert((out@.len() - 1) * 10 == off);
        }
        off += 10;
    }
    out
}

/// Decodes the wall lines of the linedefs lump.
pub fn extract_linedefs(buffer: &Vec<u8>, directory: &crate::wad::Directory) -> (r: Vec<LineDef>)
    ensures
        forall|i: int|
            0 <= i < r@.len() ==> #[trigger] r@[i] == decode_linedef(
                buffer@,
                directory.lump_offset + i * 14,
            ),
{
    let mut out: Vec<LineDef> = Vec::new();
    let start = directory.lump_offset as usize;
    let size = directory.lump_size as usize;
    let mut off: usize = 0;
    while size - off >= 14
        invariant
            off <= size,
            start == directory.lump_offset,
            size == directory.lump_size,
            off == out@.len() * 14,
            forall|i: int|
                0 <= i < out@.len() ==> #[trigger] out@[i] == decode_linedef(
                    buffer@,
                    directory.lump_offset + i * 14,
                ),
        decreases size - off,
    {
        if (start as u64) + (off as u64) + 14 > (buffer.len() as u64) {
            return out;
        }
        let o = start + off;
        out.push(
            LineDef {
                start_vertex_id: crate::wad::read_u16_le(buffer, o),
                end_vertex_id: crate::wad::read_u16_le(buffer, o + 2),
                flag: crate::wad::read_u16_le(buffer, o + 4),
                line_type: crate::wad::read_u16_le(buffer, o + 6),
                sector_tag: crate::wad::read_u16_le(buffer, o + 8),
                right_sidedef_id: crate::wad::read_u16_le(buffer, o + 10),
                left_sidedef_id: crate::wad::read_u16_le(buffer, o + 12),
            },
        );
        proof {
            assert((out@.len() - 1) * 14 == off);
        }
        off += 14;
    }
    out
}

/// Decodes the sides of the sidedefs lump.
pub fn extract_sidedefs(buffer: &Vec<u8>, directory: &crate::wad::Directory) -> (r: Vec<SideDef>) {
    let mut out: Vec<SideDef> = Vec::new();
    let start = directory.lump_offset as usize;
    let size = directory.lump_size as usize;
    let mut off: usize = 0;
    while size - off >= 30
        invariant
            off <= size,
            start == directory.lump_offset,
            size == directory.lump_size,
        decreases size - off,
    {
        if (start as u64) + (off as u64) + 30 > (buffer.len() as u64) {
            return out;
        }
        let o = start + off;
        out.push(
            SideDef {
                offset: Vector2 { x: field_i16(buffer, o), y: field_i16(buffer, o + 2) },
                upper_texture: crate::wad::read_name8(buffer, o + 4),
                lower_texture: crate::wad::read_name8(buffer, o + 12),
                middle_texture: crate::wad::read_name8(buffer, o + 20),
                sector_id: field_i16(buffer, o + 28),
            },
        );
        off += 30;
    }
    out
}

/// Decodes the vertices of the vertexes lump.
pub fn extract_vertices(buffer: &Vec<u8>, directory: &crate::wad::Directory) -> (r: Vec<Vertex>)
    ensures
        forall|i: int|
            0 <= i < r@.len() ==> #[trigger] r@[i] == decode_vertex(
                buffer@,
                directory.lump_offset + i * 4,
            ),
{
    let mut out: Vec<Vertex> = Vec::new();
    let start = directory.lump_offset as usize;
    let size = directory.lump_size as usize;
    let mut off: usize = 0;
    while size - off >= 4
        invariant
            off <= size,
            start == directory.lump_offset,
            size == directory.lump_size,
            off == out@.len() * 4,
            forall|i: int|
                0 <= i < out@.len() ==> #[trigger] out@[i] == decode_vertex(
                    buffer@,
                    directory.lump_offset + i * 4,
                ),
        decreases size - off,
    {
        if (start as u64) + (off as u64) + 4 > (buffer.len() as u64) {
            return out;
        }
        let o = start + off;
        out.push(Vector2 { x: field_i16(buffer, o), y: field_i16(buffer, o + 2) });
        proof {
            assert((out@.len() - 1) * 4 == off);
        }
        off += 4;
    }
    out
}

/// Decodes the render segments of the segs lump.
pub fn extract_segs(buffer: &Vec<u8>, directory: &crate::wad::Directory) -> (r: Vec<Seg>)
    ensures
        forall|i: int|
            0 <= i < r@.len() ==> #[trigger] r@[i] == decode_seg(
                buffer@,
                directory.lump_offset + i * 12,
            ),
{
    let mut out: Vec<Seg> = Vec::new();
    let start = directory.lump_offset as usize;
    let size = directory.lump_size as usize;
    let mut off: usize = 0;
    while size - off >= 12
        invariant
            off <= size,
            start == directory.lump_offset,
            size == directory.lump_size,
            off == out@.len() * 12,
            forall|i: int|
                0 <= i < out@.len() ==> #[trigger] out@[i] == decode_seg(
                    buffer@,
                    directory.lump_offset + i * 12,
                ),
        decreases size - off,
    {
        if (start as u64) + (off as u64) + 12 > (buffer.len() as u64) {
            return out;
        }
        let o = start + off;
        out.push(
            Seg {
                start_vertex_id: crate::wad::read_u16_le(buffer, o),
                end_vertex_id: crate::wad::read_u16_le(buffer, o + 2),
                angle: crate::wad::read_u16_le(buffer, o + 4),
                line_def_id: crate::wad::read_u16_le(buffer, o + 6),
                direction: crate::wad::read_u16_le(buffer, o + 8),
                offset: crate::wad::read_u16_le(buffer, o + 10),
            },
        );
        proof {
            assert((out@.len() - 1) * 12 == off);
        }
        off += 12;
    }
    out
}

/// Decodes the leaves of the subsectors lump.
pub fn extract_subsectors(buffer: &Vec<u8>, directory: &crate::wad::Directory) -> (r: Vec<
    SubSector,
>)
    ensures
        forall|i: int|
            0 <= i < r@.len() ==> #[trigger] r@[i] == decode_subsector(
                buffer@,
                directory.lump_offset + i * 4,
            ),
{
    let mut out: Vec<SubSector> = Vec::new();
    let start = directory.lump_offset as usize;
    let size = directory.lump_size as usize;
    let mut off: usize = 0;
    while size - off >= 4
        invariant
            off <= size,
            start == directory.lump_offset,
            size == directory.lump_size,
            off == out@.len() * 4,
            forall|i: int|
                0 <= i < out@.len() ==> #[trigger] out@[i] == decode_subsector(
                    buffer@,
                    directory.lump_offset + i * 4,
                ),
        decreases size - off,
    {
        if (start as u64) + (off as u64) + 4 > (buffer.len() as u64) {
            return out;
        }
        let o = start + off;
        out.push(
            SubSector {
                seg_count: crate::wad::read_u16_le(buffer, o),
                first_seg_id: crate::wad::read_u16_le(buffer, o + 2),
            },
        );
        proof {
            assert((out@.len() - 1) * 4 == off);
        }
        off += 4;
    }
    out
}

/// Decodes the partition nodes of the nodes lump.
pub fn extract_nodes(buffer: &Vec<u8>, directory: &crate::wad::Directory) -> (r: Vec<Node>) {
    let mut out: Vec<Node> = Vec::new();
    let start = directory.lump_offset as usize;
    let size = directory.lump_size as usize;
    let mut off: usize = 0;
    while size - off >= 28
        invariant
            off <= size,
            start == directory.lump_offset,
            size == directory.lump_size,
        decreases size - off,
    {
        if (start as u64) + (off as u64) + 28 > (buffer.len() as u64) {
            return out;
        }
        let o = start + off;
        out.push(
            Node {
                partition: Vector2 { x: field_i16(buffer, o), y: field_i16(buffer, o + 2) },
                change_partition: Vector2 {
                    x: field_i16(buffer, o + 4),
                    y: field_i16(buffer, o + 6),
                },
                right_box: Vector4 {
                    x: field_i16(buffer, o + 8),
                    y: field_i16(buffer, o + 10),
                    z: field_i16(buffer, o + 12),
                    w: field_i16(buffer, o + 14),
                },
                left_box: Vector4 {
                    x: field_i16(buffer, o + 16),
                    y: field_i16(buffer, o + 18),
                    z: field_i16(buffer, o + 20),
                    w: field_i16(buffer, o + 22),
                },
                right_child_id: crate::wad::read_u16_le(buffer, o + 24),
                left_child_id: crate::wad::read_u16_le(buffer, o + 26),
            },
        );
        off += 28;
    }
    out
}

/// Decodes the sectors of the sectors lump.
pub fn extract_sectors(buffer: &Vec<u8>, directory: &crate::wad::Directory) -> (r: Vec<Sector>) {
    let mut out: Vec<Sector> = Vec::new();
    let start = directory.lump_offset as usize;
    let size = directory.lump_size as usize;
    let mut off: usize = 0;
    while size - off >= 26
        invariant
            off <= size,
            start == directory.lump_offset,
            size == directory.lump_size,
        decreases size - off,
    {
        if (start as u64) + (off as u64) + 26 > (buffer.len() as u64) {
            return out;
        }
        let o = start + off;
        out.push(
            Sector {
                floor_height: field_i16(buffer, o),
                ceiling_height: field_i16(buffer, o + 2),
                floor_texture: crate::wad::read_name8(buffer, o + 4),
                ceiling_texture: crate::wad::read_name8(buffer, o + 12),
                light_level: field_i16(buffer, o + 20),
                special_type: field_i16(buffer, o + 22),
                tag_number: field_i16(buffer, o + 24),
            },
        );
        off += 26;
    }
    out
}

/// Decodes the blockmap lump: the grid origin and size, one offset per
/// cell, and each cell's line list ended by the terminator; `None` when
/// any list runs outside the lump or names a line that does not exist.
pub fn blockmaps_new(
    directory: &crate::wad::Directory,
    line_count: usize,
    buffer: &Vec<u8>,
    no_first_line: bool,
) -> (r: Option<Blockmaps>)
    ensures
        r matches Some(bm) ==> bm.metrix_lines@.len() == bm.header.columns as int
            * bm.header.rows as int && forall|c: int, i: int|
            0 <= c < bm.metrix_lines@.len() && 0 <= i < bm.metrix_lines@[c]@.len()
                ==> #[trigger] bm.metrix_lines@[c]@[i] < line_count,
{
    let start = directory.lump_offset as usize;
    if directory.lump_size < 8 {
        return None;
    }
    if (start as u64) + 8 > (buffer.len() as u64) {
        return None;
    }
    let header = BlockmapsHeader {
        x: field_i16(buffer, start),
        y: field_i16(buffer, start + 2),
        columns: crate::wad::read_u16_le(buffer, start + 4),
        rows: crate::wad::read_u16_le(buffer, start + 6),
    };
    proof {
        assert(header.columns as int * header.rows as int <= 0xFFFF * 0xFFFF)
            by (nonlinear_arith)
            requires
                header.columns <= 0xFFFF && header.rows <= 0xFFFF,
        ;
    }
    let matrix_size64 = (header.columns as u64) * (header.rows as u64);
    if matrix_size64 > 0x100_0000 {
        return None;
    }
    let matrix_size = matrix_size64 as usize;
    if (start as u64) + (directory.lump_size as u64) > (buffer.len() as u64) {
        return None;
    }
    let end = start + (directory.lump_size as usize);
    // Cell list offsets, in 16-bit words from the lump start.
    let mut offsets: Vec<u16> = Vec::new();
    let mut o = start + 8;
    while offsets.len() < matrix_size
        invariant
            offsets@.len() <= matrix_size,
            matrix_size <= 0x100_0000,
            start + 8 <= o <= end,
            end <= buffer@.len(),
        decreases matrix_size - offsets@.len(),
    {
        if end - o < 2 {
            return None;
        }
        offsets.push(crate::wad::read_u16_le(buffer, o));
        o += 2;
    }
    let mut metrix_lines: Vec<Vec<u16>> = Vec::new();
    let mut c: usize = 0;
    while c < matrix_size
        invariant
            c <= matrix_size,
            metrix_lines@.len() == c,
            offsets@.len() == matrix_size,
            start == directory.lump_offset,
            end <= buffer@.len(),
            forall|k: int, i: int|
                0 <= k < c && 0 <= i < metrix_lines@[k]@.len() ==> #[trigger] metrix_lines@[k]@[i]
                    < line_count,
        decreases matrix_size - c,
    {
        let rel = (offsets[c] as usize) * 2;
        if (start as u64) + (rel as u64) > (end as u64) {
            return None;
        }
        let mut pos = start + rel;
        if no_first_line {
            if end - pos < 2 {
                return None;
            }
            if crate::wad::read_u16_le(buffer, pos) != 0 {
                return None;
            }
            pos += 2;
        }
        let mut cell: Vec<u16> = Vec::new();
        loop
            invariant
                end <= buffer@.len(),
                pos <= end,
                forall|i: int| 0 <= i < cell@.len() ==> #[trigger] cell@[i] < line_count,
            decreases end - pos,
        {
            if end - pos < 2 {
                return None;
            }
            let value = crate::wad::read_u16_le(buffer, pos);
            if value == 0xFFFF {
                break ;
            }
            if (value as usize) >= line_count {
                return None;
            }
            cell.push(value);
            pos += 2;
        }
        metrix_lines.push(cell);
        c += 1;
    }
    proof {
        assert(metrix_lines@.len() == header.columns as int * header.rows as int);
    }
    Some(Blockmaps { header, metrix_lines })
}

} // verus!


