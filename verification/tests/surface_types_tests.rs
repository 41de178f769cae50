//! Framebuffer primitives and the object-type table.

use doom_engine::math::Vector2;
use doom_engine::types::ThingType;
use doom_engine::window::DoomSurface;

#[test]
fn pixel_writes_land_in_the_buffer() {
    let mut s = DoomSurface::new(4, 4);
    assert_eq!(s.buffer.len(), 64);
    s.draw_lt(&Vector2 { x: 1usize, y: 2usize }, &[10, 20, 30, 40]);
    let base = 4 * (2 * 4 + 1);
    assert_eq!(&s.buffer[base..base + 4], &[10, 20, 30, 40]);
    // Out of bounds writes are ignored.
    let before = s.buffer.clone();
    s.draw_lt(&Vector2 { x: 9usize, y: 0usize }, &[1, 1, 1, 1]);
    assert_eq!(s.buffer, before);
    // Bottom-left addressing flips the row.
    s.draw_lb(&Vector2 { x: 0usize, y: 0usize }, &[5, 6, 7, 8]);
    let base_lb = 4 * (3 * 4 + 0);
    assert_eq!(&s.buffer[base_lb..base_lb + 4], &[5, 6, 7, 8]);
}

#[test]
fn clear_fills_every_pixel() {
    let mut s = DoomSurface::new(2, 2);
    s.clear(&[9, 8, 7, 6]);
    for p in s.buffer.chunks(4) {
        assert_eq!(p, [9, 8, 7, 6]);
    }
}

#[test]
fn vertical_lines_stay_in_their_column() {
    let mut s = DoomSurface::new(3, 3);
    s.draw_line_lt(1, 0, 3, &[1, 2, 3, 4]);
    for y in 0..3 {
        let base = 4 * (y * 3 + 1);
        assert_eq!(&s.buffer[base..base + 4], &[1, 2, 3, 4]);
        let base0 = 4 * (y * 3 + 0);
        assert_eq!(&s.buffer[base0..base0 + 4], &[0, 0, 0, 0]);
    }
}

#[test]
fn diagonal_line_endpoints() {
    let mut s = DoomSurface::new(4, 4);
    s.draw_line_lb(&Vector2 { x: 0, y: 0 }, &Vector2 { x: 3, y: 3 }, &[1, 1, 1, 1]);
    // Bottom-left start: row 3 column 0.
    assert_eq!(&s.buffer[4 * (3 * 4 + 0)..4 * (3 * 4 + 0) + 4], &[1, 1, 1, 1]);
    // Top-right end: row 0 column 3.
    assert_eq!(&s.buffer[4 * (0 * 4 + 3)..4 * (0 * 4 + 3) + 4], &[1, 1, 1, 1]);
}

#[test]
fn thing_type_identifiers() {
    assert_eq!(ThingType::Player1Start.id(), 1);
    assert_eq!(ThingType::Cyberdemon.id(), 16);
    assert_eq!(ThingType::BFG9000.id(), 2006);
    assert_eq!(ThingType::Unknown.id(), 0xFFFF);
    assert_eq!(ThingType::from_id(1), ThingType::Player1Start);
    assert_eq!(ThingType::from_id(3004), ThingType::ZombieMan);
    assert_eq!(ThingType::from_id(4242), ThingType::Unknown);
    // The table is its own inverse on known identifiers.
    assert_eq!(ThingType::from_id(ThingType::Imp.id()), ThingType::Imp);
}
