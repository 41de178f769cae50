//! Configuration parsing through the INI reader, the decimal parsers,
//! and the decoded-texture helpers.

use doom_engine::configure::{bool_from_str, ini_get, ini_load, parse_fixed, Configure};
use doom_engine::data_textures::{
    find_name, is_sky_texture, remap_sky_texture, unknown_flat, unknown_texture, DataTextures,
    Texture,
};
use doom_engine::math::{Vector2, Vector4};
use doom_engine::wad::Reader;

const F: i64 = 65536;

#[test]
fn parse_fixed_values() {
    assert_eq!(parse_fixed("0"), Some(0));
    assert_eq!(parse_fixed("90"), Some(90 * F));
    assert_eq!(parse_fixed("90.0"), Some(90 * F));
    assert_eq!(parse_fixed("-16"), Some(-16 * F));
    assert_eq!(parse_fixed("0.5"), Some(F / 2));
    assert_eq!(parse_fixed("2.25"), Some(2 * F + F / 4));
    assert_eq!(parse_fixed("32767"), Some(32767 * F));
    // Out of range, empty, or malformed: nothing.
    assert_eq!(parse_fixed("32768"), None);
    assert_eq!(parse_fixed(""), None);
    assert_eq!(parse_fixed("abc"), None);
    assert_eq!(parse_fixed("1.23456"), None);
    assert_eq!(parse_fixed("1..2"), None);
}

#[test]
fn parse_vectors() {
    assert_eq!(
        Vector2::<i64>::from_str("320, 200"),
        Some(Vector2 { x: 320 * F, y: 200 * F })
    );
    assert_eq!(
        Vector2::<i64>::from_str("-1,0.5"),
        Some(Vector2 { x: -F, y: F / 2 })
    );
    assert_eq!(Vector2::<i64>::from_str("320"), None);
    assert_eq!(Vector2::<i64>::from_str("1,2,3"), None);
    assert_eq!(Vector2::<i64>::from_optional_str(None), None);
    assert_eq!(
        Vector4::<i64>::from_str("0, 0, 320, 200"),
        Some(Vector4 { x: 0, y: 0, z: 320 * F, w: 200 * F })
    );
    assert_eq!(Vector4::<i64>::from_str("1,2,3"), None);
    assert_eq!(Vector4::<i64>::from_optional_str(Some("1,2,3,4")), Some(Vector4 {
        x: F,
        y: 2 * F,
        z: 3 * F,
        w: 4 * F,
    }));
}

#[test]
fn parse_truth_words() {
    assert_eq!(bool_from_str(Some("true")), Some(true));
    assert_eq!(bool_from_str(Some("yes")), Some(true));
    assert_eq!(bool_from_str(Some(" t ")), Some(true));
    assert_eq!(bool_from_str(Some("y")), Some(true));
    assert_eq!(bool_from_str(Some("1")), Some(true));
    assert_eq!(bool_from_str(Some("false")), Some(false));
    assert_eq!(bool_from_str(Some("no")), Some(false));
    assert_eq!(bool_from_str(Some("f")), Some(false));
    assert_eq!(bool_from_str(Some("n")), Some(false));
    assert_eq!(bool_from_str(Some("0")), Some(false));
    assert_eq!(bool_from_str(Some("maybe")), None);
    assert_eq!(bool_from_str(None), None);
}

#[test]
fn configuration_from_ini_text() {
    let text = "[Resource]\nwad = doom.wad\n[Screen]\ntitle = engine\nwindow = 640,400\nsurface = 320,200\nframe_rate = 60\nvsync = yes\n[Camera]\nfov = 90\n[Player]\nsize = 16\nheight = 56\nspeed = 60\nangle_speed = 30\njump = 600\njump_speed = 120\n[Map]\nname = E1M1\n[Render]\nsoftware_3d = 0,0,320,200\n";
    let c = Configure::from_ini_text(text).expect("full configuration");
    assert_eq!(c.camera.fov, 90 * F);
    assert_eq!(c.player.size, 16 * F);
    assert_eq!(c.player.height, 56 * F);
    assert_eq!(c.screen.surface, Vector2 { x: 320 * F, y: 200 * F });
    assert_eq!(c.screen.frame_rate, 60 * F);
    assert!(c.screen.vsync);
    assert_eq!(c.map.name, "E1M1");
    assert!(!c.map.blockmap_no_first_line);
    let render = c.render.expect("render section");
    assert_eq!(render.software_3d, Some(Vector4 { x: 0, y: 0, z: 320 * F, w: 200 * F }));
    assert_eq!(render.map_2d, None);
    // A missing required section gives nothing.
    assert!(Configure::from_ini_text("[Screen]\ntitle = x\n").is_none());
}

#[test]
fn ini_wrappers() {
    let doc = ini_load("[A]\nk = v\n").expect("well-formed ini");
    assert_eq!(ini_get(&doc, "A", "k").as_deref(), Some("v"));
    assert_eq!(ini_get(&doc, "A", "missing"), None);
    assert_eq!(ini_get(&doc, "B", "k"), None);
}

#[test]
fn sky_names() {
    assert!(is_sky_texture(b"F_SKY1\0\0"));
    assert!(is_sky_texture(b"F_SKY\0\0\0"));
    assert!(is_sky_texture(b"F_S\0\0\0\0\0"));
    assert!(!is_sky_texture(b"FLOOR4_8"));
    assert_eq!(&remap_sky_texture(b"F_SKY1\0\0"), b"SKY1\0\0\0\0");
    assert_eq!(&remap_sky_texture(b"FLOOR4_8"), b"FLOOR4_8");
}

#[test]
fn textures_and_lookup() {
    let t: Texture<3> = unknown_flat();
    assert_eq!(t.size, Vector2 { x: 64u16, y: 64u16 });
    assert_eq!(t.colors.len(), 64 * 64);
    // The placeholder has a white border and an orange body.
    assert_eq!(t.get(0, 0), [255, 255, 255]);
    assert_eq!(t.get(5, 5), [255, 165, 0]);
    let t4: Texture<4> = unknown_texture();
    assert_eq!(t4.get(5, 5), [255, 165, 0, 255]);
    let names = vec![*b"AAAA\0\0\0\0", *b"BBBB\0\0\0\0"];
    assert_eq!(find_name(&names, b"BBBB\0\0\0\0"), Some(1));
    assert_eq!(find_name(&names, b"CCCC\0\0\0\0"), None);
}

#[test]
fn decoded_archive_textures() {
    // A small archive with a palette and an empty flats span.
    let mut b: Vec<u8> = Vec::new();
    b.extend_from_slice(b"IWAD");
    b.extend_from_slice(&3u32.to_le_bytes());
    b.extend_from_slice(&780u32.to_le_bytes());
    // Palette lump bytes: 256 grey triples.
    for i in 0..256u32 {
        let g = (i % 256) as u8;
        b.extend_from_slice(&[g, g, g]);
    }
    // Directory: PLAYPAL at 12 of size 768, then the flat markers.
    b.extend_from_slice(&12u32.to_le_bytes());
    b.extend_from_slice(&768u32.to_le_bytes());
    b.extend_from_slice(b"PLAYPAL\0");
    b.extend_from_slice(&0u32.to_le_bytes());
    b.extend_from_slice(&0u32.to_le_bytes());
    b.extend_from_slice(b"F_START\0");
    b.extend_from_slice(&0u32.to_le_bytes());
    b.extend_from_slice(&0u32.to_le_bytes());
    b.extend_from_slice(b"F_END\0\0\0");
    let reader = Reader::new(b).expect("archive");
    let data = DataTextures::new(&reader).expect("texture data");
    assert_eq!(data.palettes.len(), 1);
    assert_eq!(data.palettes[0].colors[7], [7, 7, 7]);
    assert_eq!(data.flats_names.len(), 2);
    assert_eq!(data.flats.len(), data.flats_data.len());
}

#[test]
fn sprite_patches_compose_through_the_palette() {
    // A two-column, three-row patch: one post of two pixels in the
    // first column, an empty second column.
    let mut b: Vec<u8> = Vec::new();
    b.extend_from_slice(b"IWAD");
    b.extend_from_slice(&4u32.to_le_bytes());
    b.extend_from_slice(&804u32.to_le_bytes());
    for i in 0..256u32 {
        let g = (i % 256) as u8;
        b.extend_from_slice(&[g, g, g]);
    }
    assert_eq!(b.len(), 780);
    // Patch header: width 2, height 3, offsets 0.
    for v in [2u16, 3, 0, 0] {
        b.extend_from_slice(&v.to_le_bytes());
    }
    // Column offsets from the lump start.
    b.extend_from_slice(&16u32.to_le_bytes());
    b.extend_from_slice(&23u32.to_le_bytes());
    // Column 0: post at row 1, two pixels (palette 5 and 6), then end.
    b.extend_from_slice(&[1, 2, 0, 5, 6, 0, 0xFF]);
    // Column 1: empty.
    b.push(0xFF);
    assert_eq!(b.len(), 804);
    push_dir2(&mut b, 12, 768, b"PLAYPAL\0");
    push_dir2(&mut b, 0, 0, b"S_START\0");
    push_dir2(&mut b, 780, 24, b"TROO\0\0\0\0");
    push_dir2(&mut b, 0, 0, b"S_END\0\0\0");
    let reader = Reader::new(b).expect("archive");
    let data = DataTextures::new(&reader).expect("texture data");
    assert_eq!(data.sprite_patches.len(), 1);
    assert_eq!(data.sprites.len(), 1);
    let sprite = data.sprite(b"TROO\0\0\0\0").expect("sprite by name");
    assert_eq!(sprite.size, Vector2 { x: 2u16, y: 3u16 });
    // Transparent above the post, the palette colours inside it.
    assert_eq!(sprite.get(0, 0), [0, 0, 0, 0]);
    assert_eq!(sprite.get(0, 1), [5, 5, 5, 255]);
    assert_eq!(sprite.get(0, 2), [6, 6, 6, 255]);
    assert_eq!(sprite.get(1, 1), [0, 0, 0, 0]);
    assert!(data.sprite(b"ZZZZ\0\0\0\0").is_none());
}

fn push_dir2(b: &mut Vec<u8>, offset: u32, size: u32, name: &[u8; 8]) {
    b.extend_from_slice(&offset.to_le_bytes());
    b.extend_from_slice(&size.to_le_bytes());
    b.extend_from_slice(name);
}
