//! The pixel framebuffer the renderer draws into: an RGBA byte buffer
//! with top-left and bottom-left addressing and simple line and box
//! primitives.  Putting the buffer on a screen is the embedding
//! program's business; everything here is plain memory.

use vstd::prelude::*;
use crate::math::Vector2;

verus! {

/// An RGBA framebuffer: `size.x * size.y` pixels of four bytes each.
pub struct DoomSurface {
    pub size: Vector2<u32>,
    pub buffer: Vec<u8>,
}

/// First byte of the pixel at `(x, y)` counting rows from the top.
pub open spec fn pixel_index(size: Vector2<u32>, x: int, y: int) -> int {
    4 * (y * size.x + x)
}

/// The screen column a buffer byte belongs to.
pub open spec fn byte_col(size: Vector2<u32>, k: int) -> int {
    if size.x == 0 {
        0
    } else {
        (k / 4) % (size.x as int)
    }
}

/// The four bytes of a pixel all belong to the pixel's column.
pub proof fn lemma_pixel_bytes_col(size: Vector2<u32>, x: int, y: int, j: int)
    requires
        0 <= x < size.x,
        0 <= y,
        0 <= j < 4,
    ensures
        byte_col(size, pixel_index(size, x, y) + j) == x,
{
    let base = pixel_index(size, x, y);
    assert((base + j) / 4 == y * size.x + x) by (nonlinear_arith)
        requires
            base == 4 * (y * size.x + x) && 0 <= j < 4 && 0 <= y * size.x + x,
    ;
    vstd::arithmetic::div_mod::lemma_mod_multiples_vanish(y, x, size.x as int);
    assert(size.x as int * y + x == y * size.x + x) by (nonlinear_arith);
    vstd::arithmetic::div_mod::lemma_small_mod(x as nat, size.x as nat);
}

impl DoomSurface {
    /// The buffer holds exactly the pixel bytes of the size.
    pub open spec fn wf(self) -> bool {
        &&& self.buffer@.len() == 4 * self.size.x * self.size.y
        &&& self.size.x <= 8192
        &&& self.size.y <= 8192
    }

    /// A black surface of the given size.
    pub fn new(width: u32, height: u32) -> (r: DoomSurface)
        requires
            width <= 8192,
            height <= 8192,
        ensures
            r.wf(),
            r.size == (Vector2 { x: width, y: height }),
    {
        proof {
            assert(4 * (width as int) * (height as int) <= 0x10000000) by (nonlinear_arith)
                requires
                    width <= 8192 && height <= 8192,
            ;
        }
        let count: usize = 4 * (width as usize) * (height as usize);
        let mut buffer: Vec<u8> = Vec::new();
        let mut i: usize = 0;
        while i < count
            invariant
                buffer@.len() == i,
                i <= count,
            decreases count - i,
        {
            buffer.push(0);
            i += 1;
        }
        DoomSurface { size: Vector2 { x: width, y: height }, buffer }
    }

    /// Fills the whole surface with one colour.
    pub fn clear(&mut self, color: &[u8; 4])
        requires
            old(self).wf(),
        ensures
            final(self).wf(),
            final(self).size == old(self).size,
            final(self).buffer@.len() == old(self).buffer@.len(),
    {
        let mut i: usize = 0;
        let n = self.buffer.len();
        while n - i >= 4
            invariant
                i <= n,
                self.buffer@.len() == n,
                self.size == old(self).size,
                n == old(self).buffer@.len(),
                old(self).wf(),
            decreases n - i,
        {
            self.buffer.set(i, color[0]);
            self.buffer.set(i + 1, color[1]);
            self.buffer.set(i + 2, color[2]);
            self.buffer.set(i + 3, color[3]);
            i += 4;
        }
    }

    /// Writes one pixel, counting rows from the top; a point outside the
    /// surface is ignored.
    pub fn draw_lt(&mut self, point: &Vector2<usize>, color: &[u8; 4])
        requires
            old(self).wf(),
        ensures
            final(self).wf(),
            final(self).size == old(self).size,
            final(self).buffer@.len() == old(self).buffer@.len(),
            point.x < old(self).size.x && point.y < old(self).size.y ==> {
                let base = pixel_index(old(self).size, point.x as int, point.y as int);
                &&& forall|k: int|
                    0 <= k < old(self).buffer@.len() && !(base <= k < base + 4)
                        ==> final(self).buffer@[k] == old(self).buffer@[k]
                &&& forall|j: int|
                    0 <= j < 4 ==> final(self).buffer@[base + j] == color@[j]
            },
            !(point.x < old(self).size.x && point.y < old(self).size.y) ==> final(self).buffer@
                == old(self).buffer@,
    {
        if point.x < self.size.x as usize && point.y < self.size.y as usize {
            proof {
                assert(4 * (point.y * self.size.x + point.x) + 4 <= 4 * self.size.x * self.size.y
                    && 4 * self.size.x * self.size.y <= 0x10000000) by (nonlinear_arith)
                    requires
                        point.x < self.size.x && point.y < self.size.y && self.size.x <= 8192
                            && self.size.y <= 8192,
                ;
            }
            let base: usize = 4 * (point.y * (self.size.x as usize) + point.x);
            self.buffer.set(base, color[0]);
            self.buffer.set(base + 1, color[1]);
            self.buffer.set(base + 2, color[2]);
            self.buffer.set(base + 3, color[3]);
        }
    }

    /// Writes one pixel, counting rows from the bottom; a point outside
    /// the surface is ignored.
    pub fn draw_lb(&mut self, point: &Vector2<usize>, color: &[u8; 4])
        requires
            old(self).wf(),
        ensures
            final(self).wf(),
            final(self).size == old(self).size,
            final(self).buffer@.len() == old(self).buffer@.len(),
    {
        if point.y < self.size.y as usize {
            let flipped = Vector2 { x: point.x, y: (self.size.y as usize) - 1 - point.y };
            self.draw_lt(&flipped, color);
        }
    }

    /// Draws a vertical line from `y1` up to but not including `y2` at
    /// column `x`, counting rows from the top; bytes of other columns
    /// are untouched.
    pub fn draw_line_lt(&mut self, x: usize, y1: usize, y2: usize, color: &[u8; 4])
        requires
            old(self).wf(),
        ensures
            final(self).wf(),
            final(self).size == old(self).size,
            final(self).buffer@.len() == old(self).buffer@.len(),
            forall|k: int|
                0 <= k < old(self).buffer@.len() && byte_col(old(self).size, k) != x
                    ==> final(self).buffer@[k] == old(self).buffer@[k],
    {
        let mut y = y1;
        while y < y2
            invariant
                self.wf(),
                self.size == old(self).size,
                self.buffer@.len() == old(self).buffer@.len(),
                forall|k: int|
                    0 <= k < old(self).buffer@.len() && byte_col(old(self).size, k) != x
                        ==> self.buffer@[k] == old(self).buffer@[k],
            decreases y2 - y,
        {
            let ghost before = self.buffer@;
            self.draw_lt(&Vector2 { x, y }, color);
            proof {
                assert forall|k: int|
                    0 <= k < old(self).buffer@.len() && byte_col(old(self).size, k)
                        != x implies self.buffer@[k] == old(self).buffer@[k] by {
                    if x < old(self).size.x && y < old(self).size.y {
                        let base = pixel_index(old(self).size, x as int, y as int);
                        if base <= k < base + 4 {
                            lemma_pixel_bytes_col(old(self).size, x as int, y as int, k - base);
                        }
                        assert(self.buffer@[k] == before[k]);
                    } else {
                        assert(self.buffer@ == before);
                    }
                }
            }
            y += 1;
        }
    }

    /// Draws the straight segment between two points, counting rows from
    /// the bottom, by fixed-point stepping.
    pub fn draw_line_lb(&mut self, start: &Vector2<i32>, end: &Vector2<i32>, color: &[u8; 4])
        requires
            old(self).wf(),
            -0x10000 <= start.x <= 0x10000,
            -0x10000 <= start.y <= 0x10000,
            -0x10000 <= end.x <= 0x10000,
            -0x10000 <= end.y <= 0x10000,
        ensures
            final(self).wf(),
            final(self).size == old(self).size,
            final(self).buffer@.len() == old(self).buffer@.len(),
    {
        let dx: i64 = (end.x - start.x) as i64;
        let dy: i64 = (end.y - start.y) as i64;
        let adx = if dx < 0 {
            -dx
        } else {
            dx
        };
        let ady = if dy < 0 {
            -dy
        } else {
            dy
        };
        let steps: i64 = if adx > ady {
            adx
        } else {
            ady
        };
        if steps == 0 {
            if start.x >= 0 && start.y >= 0 {
                self.draw_lb(&Vector2 { x: start.x as usize, y: start.y as usize }, color);
            }
            return ;
        }
        // Fixed-point per-step increments.
        proof {
            vstd::arithmetic::div_mod::lemma_fundamental_div_mod(dx as int * 65536, steps as int);
            vstd::arithmetic::div_mod::lemma_mod_bound(dx as int * 65536, steps as int);
            vstd::arithmetic::div_mod::lemma_fundamental_div_mod(dy as int * 65536, steps as int);
            vstd::arithmetic::div_mod::lemma_mod_bound(dy as int * 65536, steps as int);
            assert(-0x2_0000_0000 <= (dx as int * 65536) / (steps as int) <= 0x2_0000_0000
                && -0x2_0000_0000 <= (dy as int * 65536) / (steps as int) <= 0x2_0000_0000)
                by (nonlinear_arith)
                requires
                    dx as int * 65536 == steps * ((dx as int * 65536) / (steps as int)) + ((
                    dx as int * 65536) % (steps as int)),
                    dy as int * 65536 == steps * ((dy as int * 65536) / (steps as int)) + ((
                    dy as int * 65536) % (steps as int)),
                    0 <= (dx as int * 65536) % (steps as int) < steps,
                    0 <= (dy as int * 65536) % (steps as int) < steps,
                    1 <= steps <= 0x20000,
                    -0x2_0000_0000 * 0x20000 <= dx as int * 65536 <= 0x2_0000_0000 * 0x20000,
                    -0x2_0000_0000 * 0x20000 <= dy as int * 65536 <= 0x2_0000_0000 * 0x20000,
                    -0x20000 <= dx <= 0x20000,
                    -0x20000 <= dy <= 0x20000,
            ;
        }
        let sx: i64 = crate::fixed::floor_div((dx as i128) * 65536, steps as i128) as i64;
        let sy: i64 = crate::fixed::floor_div((dy as i128) * 65536, steps as i128) as i64;
        proof {
            assert((dx as i128) as int == dx as int && (dy as i128) as int == dy as int);
        }
        let mut fx: i64 = (start.x as i64) * 65536;
        let mut fy: i64 = (start.y as i64) * 65536;
        let mut i: i64 = 0;
        while i <= steps
            invariant
                self.wf(),
                self.size == old(self).size,
                self.buffer@.len() == old(self).buffer@.len(),
                0 <= i <= steps + 1,
                steps <= 0x20000,
                -0x8_0000_0000_0000 <= fx <= 0x8_0000_0000_0000,
                -0x8_0000_0000_0000 <= fy <= 0x8_0000_0000_0000,
                -0x2_0000_0000 <= sx <= 0x2_0000_0000,
                -0x2_0000_0000 <= sy <= 0x2_0000_0000,
            decreases steps - i + 1,
        {
            if fx > 0x4_0000_0000_0000 || fx < -0x4_0000_0000_0000 || fy > 0x4_0000_0000_0000
                || fy < -0x4_0000_0000_0000 {
                return ;
            }
            let px = fx / 65536;
            let py = fy / 65536;
            if px >= 0 && py >= 0 && px <= 0x7fff_ffff && py <= 0x7fff_ffff {
                self.draw_lb(&Vector2 { x: px as usize, y: py as usize }, color);
            }
            fx += sx;
            fy += sy;
            i += 1;
        }
    }

    /// Draws the outline of an axis-aligned box between two corners,
    /// counting rows from the bottom.
    pub fn draw_box_lb(
        &mut self,
        topleft: &Vector2<i32>,
        bottomright: &Vector2<i32>,
        color: &[u8; 4],
    )
        requires
            old(self).wf(),
            -0x10000 <= topleft.x <= 0x10000,
            -0x10000 <= topleft.y <= 0x10000,
            -0x10000 <= bottomright.x <= 0x10000,
            -0x10000 <= bottomright.y <= 0x10000,
        ensures
            final(self).wf(),
            final(self).size == old(self).size,
            final(self).buffer@.len() == old(self).buffer@.len(),
    {
        let tl = *topleft;
        let br = *bottomright;
        self.draw_line_lb(&tl, &Vector2 { x: br.x, y: tl.y }, color);
        self.draw_line_lb(&Vector2 { x: br.x, y: tl.y }, &br, color);
        self.draw_line_lb(&br, &Vector2 { x: tl.x, y: br.y }, color);
        self.draw_line_lb(&Vector2 { x: tl.x, y: br.y }, &tl, color);
    }
}

} // verus!
