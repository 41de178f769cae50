//! Archive decoding and map data model: little-endian readers, header
//! and directory parsing, name matching and the blockmap grid.

use doom_engine::configure::MapConfig;
use doom_engine::map::{
    Blockmaps, BlockmapsHeader, LevelMap, LineDef, LineDefFlags, MapLumpsIndex, SubSector,
};
use doom_engine::map::SIDE_NONE;
use doom_engine::wad::{
    name_eq, name_matches_str, read_i16_le, read_u16_le, read_u32_le, DirectoryList, Header,
    Reader,
};

fn tiny_wad() -> Vec<u8> {
    // Header: "IWAD", one directory entry at offset 12.
    let mut b: Vec<u8> = Vec::new();
    b.extend_from_slice(&[0x49, 0x57, 0x41, 0x44]);
    b.extend_from_slice(&1u32.to_le_bytes());
    b.extend_from_slice(&12u32.to_le_bytes());
    // One entry: offset 0, size 4, name "THINGS".
    b.extend_from_slice(&0u32.to_le_bytes());
    b.extend_from_slice(&4u32.to_le_bytes());
    b.extend_from_slice(b"THINGS\0\0");
    b
}

#[test]
fn little_endian_readers() {
    let buf = vec![0x34u8, 0x12, 0xFF, 0xFF, 0x78, 0x56, 0x34, 0x12];
    assert_eq!(read_u16_le(&buf, 0), 0x1234);
    assert_eq!(read_i16_le(&buf, 2), -1);
    assert_eq!(read_u32_le(&buf, 4), 0x12345678);
}

#[test]
fn header_and_directories() {
    let reader = Reader::new(tiny_wad()).expect("valid archive");
    let header = reader.header().expect("header");
    assert!(header.valid());
    assert_eq!(header.directory_count, 1);
    assert_eq!(header.directory_offset, 12);
    assert_eq!(header.name().expect("ascii"), "IWAD");
    let dirs = reader.directories().expect("directory list");
    assert_eq!(dirs.len(), 1);
    let d = dirs.get(0);
    assert_eq!(d.lump_offset, 0);
    assert_eq!(d.lump_size, 4);
    assert_eq!(d.name().expect("ascii"), "THINGS\u{0}\u{0}");
    assert_eq!(dirs.index_of("THINGS"), Some(0));
    assert_eq!(dirs.index_of("NODES"), None);
}

#[test]
fn bad_archives_are_refused() {
    assert!(Reader::new(vec![1, 2, 3]).is_none());
    let mut junk = tiny_wad();
    junk[0] = 0x58;
    assert!(Reader::new(junk).is_none());
    let h = Header { wad_type: [0x50, 0x57, 0x41, 0x44], directory_count: 0, directory_offset: 0 };
    assert!(h.valid());
    let h2 = Header { wad_type: [0x50, 0x57, 0x41, 0x58], directory_count: 0, directory_offset: 0 };
    assert!(!h2.valid());
}

#[test]
fn name_comparisons() {
    let a = [0x41u8, 0x42, 0, 0, 0, 0, 0, 0];
    let b = [0x41u8, 0x42, 0, 0, 0, 0, 0, 0];
    let c = [0x41u8, 0x43, 0, 0, 0, 0, 0, 0];
    assert!(name_eq(&a, &b));
    assert!(!name_eq(&a, &c));
    assert!(name_matches_str(&a, "AB"));
    assert!(!name_matches_str(&a, "ABC"));
    assert!(!name_matches_str(&a, "A"));
}

#[test]
fn directory_record_offsets() {
    let mut list = DirectoryList::new(0);
    assert_eq!(list.len(), 0);
    let reader = Reader::new(tiny_wad()).expect("valid archive");
    let dirs = reader.directories().expect("dirs");
    list.push(dirs.get(0));
    assert_eq!(list.len(), 1);
    let offsets = dirs.get(0).data(2);
    assert_eq!(offsets, vec![0usize, 2]);
    let stepped = dirs.get(0).data_by_step(1, 2);
    assert_eq!(stepped, vec![1usize]);
}

#[test]
fn line_flags_and_lump_names() {
    assert_eq!(LineDefFlags::Blocking.value(), 1);
    assert_eq!(LineDefFlags::BlockMonsters.value(), 2);
    assert_eq!(LineDefFlags::TwoSided.value(), 4);
    assert_eq!(LineDefFlags::Mapped.value(), 256);
    let line = LineDef {
        start_vertex_id: 0,
        end_vertex_id: 0,
        flag: 5,
        line_type: 0,
        sector_tag: 0,
        right_sidedef_id: SIDE_NONE,
        left_sidedef_id: SIDE_NONE,
    };
    assert!(line.has_flag(LineDefFlags::Blocking));
    assert!(!line.has_flag(LineDefFlags::BlockMonsters));
    assert!(line.has_flag(LineDefFlags::TwoSided));
    assert_eq!(MapLumpsIndex::Things.value(), 1);
    assert_eq!(MapLumpsIndex::Blockmap.value(), 10);
    assert_eq!(&MapLumpsIndex::LineDefs.as_name(), b"LINEDEFS");
    assert_eq!(&MapLumpsIndex::Segs.as_name(), b"SEGS\0\0\0\0");
}

#[test]
fn subsector_ranges() {
    let s = SubSector { seg_count: 3, first_seg_id: 5 };
    let r = s.iter();
    assert_eq!(r.start, 5);
    assert_eq!(r.end, 8);
}

#[test]
fn blockmap_lookup() {
    let bm = Blockmaps {
        header: BlockmapsHeader { x: -128, y: 0, columns: 2, rows: 1 },
        metrix_lines: vec![vec![7], vec![9]],
    };
    // The grid covers x in [-128, 128): the left cell then the right.
    assert_eq!(bm.get(-100, 10), Some(&vec![7u16]));
    assert_eq!(bm.get(10, 10), Some(&vec![9u16]));
    // Outside the grid nothing is found.
    assert!(bm.get(300, 10).is_none());
    // The radius query gathers the nearby cells' lists.
    let ids = bm.get_with_radius(0, 10, 30);
    assert!(ids.contains(&7));
    assert!(ids.contains(&9));
}

fn push_dir(b: &mut Vec<u8>, offset: u32, size: u32, name: &[u8; 8]) {
    b.extend_from_slice(&offset.to_le_bytes());
    b.extend_from_slice(&size.to_le_bytes());
    b.extend_from_slice(name);
}

#[test]
fn level_map_loads_and_validates() {
    // Lump bytes first, then the directory.
    let mut lumps: Vec<u8> = vec![0; 12];
    // LINEDEFS: one line, vertices 0-1, blocking, right side 0, no left.
    let linedefs_off = lumps.len() as u32;
    for v in [0u16, 1, 1, 0, 0, 0, 0xFFFF] {
        lumps.extend_from_slice(&v.to_le_bytes());
    }
    // SIDEDEFS: offsets 0, three empty names, sector 0.
    let sidedefs_off = lumps.len() as u32;
    lumps.extend_from_slice(&0i16.to_le_bytes());
    lumps.extend_from_slice(&0i16.to_le_bytes());
    lumps.extend_from_slice(b"-\0\0\0\0\0\0\0");
    lumps.extend_from_slice(b"-\0\0\0\0\0\0\0");
    lumps.extend_from_slice(b"WALL\0\0\0\0");
    lumps.extend_from_slice(&0i16.to_le_bytes());
    // VERTEXES: (10, 50) and (10, -50).
    let vertexes_off = lumps.len() as u32;
    for v in [10i16, 50, 10, -50] {
        lumps.extend_from_slice(&v.to_le_bytes());
    }
    // SEGS: one segment over the line, direction 0.
    let segs_off = lumps.len() as u32;
    for v in [0u16, 1, 49152, 0, 0, 0] {
        lumps.extend_from_slice(&v.to_le_bytes());
    }
    // SSECTORS: one leaf holding that segment.
    let ssectors_off = lumps.len() as u32;
    for v in [1u16, 0] {
        lumps.extend_from_slice(&v.to_le_bytes());
    }
    // NODES: one root with two leaf children.
    let nodes_off = lumps.len() as u32;
    for v in [0i16, 0, 0, 1, 50, -50, 0, 10, 50, -50, 0, 10] {
        lumps.extend_from_slice(&v.to_le_bytes());
    }
    for v in [0x8000u16, 0x8000] {
        lumps.extend_from_slice(&v.to_le_bytes());
    }
    // SECTORS: floor 0, ceiling 64.
    let sectors_off = lumps.len() as u32;
    for v in [0i16, 64] {
        lumps.extend_from_slice(&v.to_le_bytes());
    }
    lumps.extend_from_slice(b"FLOOR\0\0\0");
    lumps.extend_from_slice(b"CEIL\0\0\0\0");
    for v in [255i16, 0, 0] {
        lumps.extend_from_slice(&v.to_le_bytes());
    }
    // BLOCKMAP: origin (0,0), one cell, its list holds line 0.
    let blockmap_off = lumps.len() as u32;
    for v in [0i16, 0] {
        lumps.extend_from_slice(&v.to_le_bytes());
    }
    for v in [1u16, 1, 5, 0, 0, 0xFFFF] {
        lumps.extend_from_slice(&v.to_le_bytes());
    }
    // The directory.
    let dir_off = lumps.len() as u32;
    let mut b = lumps;
    push_dir(&mut b, 0, 0, b"E1M1\0\0\0\0");
    push_dir(&mut b, 0, 0, b"THINGS\0\0");
    push_dir(&mut b, linedefs_off, 14, b"LINEDEFS");
    push_dir(&mut b, sidedefs_off, 30, b"SIDEDEFS");
    push_dir(&mut b, vertexes_off, 8, b"VERTEXES");
    push_dir(&mut b, segs_off, 12, b"SEGS\0\0\0\0");
    push_dir(&mut b, ssectors_off, 4, b"SSECTORS");
    push_dir(&mut b, nodes_off, 28, b"NODES\0\0\0");
    push_dir(&mut b, sectors_off, 26, b"SECTORS\0");
    push_dir(&mut b, blockmap_off, 16, b"BLOCKMAP");
    b[0..4].copy_from_slice(b"IWAD");
    b[4..8].copy_from_slice(&10u32.to_le_bytes());
    b[8..12].copy_from_slice(&dir_off.to_le_bytes());
    let reader = Reader::new(b).expect("archive");
    let cfg = MapConfig { name: String::from("E1M1"), blockmap_no_first_line: true };
    let map = LevelMap::new(&reader, &cfg).expect("well-formed map");
    assert_eq!(map.line_defs.len(), 1);
    assert_eq!(map.vertices.len(), 2);
    assert_eq!(map.vertices[1], doom_engine::math::Vector2 { x: 10, y: -50 });
    assert_eq!(map.segs.len(), 1);
    assert_eq!(map.sub_sectors.len(), 1);
    assert_eq!(map.nodes.len(), 1);
    assert_eq!(map.sectors[0].ceiling_height, 64);
    let bm = map.blockmaps.as_ref().expect("blockmap");
    assert_eq!(bm.metrix_lines, vec![vec![0u16]]);
    // The same archive but looking for a missing map gives nothing.
    let cfg2 = MapConfig { name: String::from("E9M9"), blockmap_no_first_line: false };
    assert!(LevelMap::new(&reader, &cfg2).is_none());
}
