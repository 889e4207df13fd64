//! Writing shaped glyphs into a label's pixel buffer.
//!
//! The shaper hands over each glyph as a rectangle of pixels sharing one
//! colour and one coverage; this is where that rectangle lands in the label's
//! buffer: clipped to it, premultiplied, four bytes a pixel in `Argb8888`
//! order — blue, green, red, alpha.

use vstd::prelude::*;
use vstd::arithmetic::div_mod::lemma_fundamental_div_mod_converse;

use crate::geometry::fits;

verus! {

/// A glyph rectangle's extent as the loop over it sees it: an extent past
/// `i32::MAX` turns negative and covers nothing.
pub open spec fn extent(v: u32) -> int {
    if v <= i32::MAX {
        v as int
    } else {
        0
    }
}

/// One channel scaled by the coverage, as premultiplied bytes are.
pub open spec fn scaled(channel: u8, coverage: u8) -> u8 {
    (channel as int * coverage as int / 255) as u8
}

fn scale(channel: u8, coverage: u8) -> (v: u8)
    ensures
        v == scaled(channel, coverage),
{
    assert(channel as int * coverage as int <= 255 * 255) by (nonlinear_arith)
        requires
            channel <= 255,
            coverage <= 255,
    ;
    (channel as u32 * coverage as u32 / 255) as u8
}

/// Byte `c` of a painted pixel: blue, green, red, then the coverage.
pub open spec fn channel(rgba: (u8, u8, u8, u8), c: int) -> u8 {
    if c == 0 {
        scaled(rgba.2, rgba.3)
    } else if c == 1 {
        scaled(rgba.1, rgba.3)
    } else if c == 2 {
        scaled(rgba.0, rgba.3)
    } else {
        rgba.3
    }
}

/// Byte `i` of a `width`-wide buffer once the glyph at `(x, y)`, `w` by `h`,
/// has been painted over `old` up to row `rows` and, in that row, column
/// `cols`.
pub open spec fn painted_byte(
    old: Seq<u8>,
    i: int,
    width: int,
    x: int,
    y: int,
    w: int,
    rows: int,
    cols: int,
    rgba: (u8, u8, u8, u8),
) -> u8 {
    let p = i / 4;
    let px = p % width;
    let py = p / width;
    let painted = rgba.3 > 0 && x <= px < x + w && y <= py && (py - y < rows || (py - y == rows
        && px - x < cols));
    if painted {
        channel(rgba, i % 4)
    } else {
        old[i]
    }
}

/// The buffer once the glyph has been painted up to row `rows`, column `cols`.
pub open spec fn painted(
    old: Seq<u8>,
    width: int,
    x: int,
    y: int,
    w: int,
    rows: int,
    cols: int,
    rgba: (u8, u8, u8, u8),
) -> Seq<u8> {
    Seq::new(old.len(), |i: int| painted_byte(old, i, width, x, y, w, rows, cols, rgba))
}

/// Whether `[start, start + len)` meets `[0, limit)`.
pub open spec fn meets(start: int, len: int, limit: int) -> bool {
    (if start > 0 {
        start
    } else {
        0
    }) < (if start + len < limit {
        start + len
    } else {
        limit
    })
}

proof fn lemma_pixel_index(width: int, height: int, px: int, py: int, c: int)
    requires
        width > 0,
        height > 0,
        0 <= px < width,
        0 <= py < height,
        0 <= c < 4,
    ensures
        ((py * width + px) * 4 + c) / 4 == py * width + px,
        ((py * width + px) * 4 + c) % 4 == c,
        (py * width + px) % width == px,
        (py * width + px) / width == py,
        0 <= (py * width + px) * 4 + c < width * height * 4,
{
    lemma_fundamental_div_mod_converse((py * width + px) * 4 + c, 4, py * width + px, c);
    lemma_fundamental_div_mod_converse(py * width + px, width, py, px);
    assert(0 <= (py * width + px) * 4 + c < width * height * 4) by (nonlinear_arith)
        requires
            width > 0,
            0 <= px < width,
            0 <= py < height,
            0 <= c < 4,
    ;
}

proof fn lemma_pixel_of(width: int, height: int, i: int)
    requires
        width > 0,
        height > 0,
        0 <= i < width * height * 4,
    ensures
        0 <= (i / 4) % width < width,
        0 <= (i / 4) / width < height,
        i / 4 == ((i / 4) / width) * width + (i / 4) % width,
        i == (i / 4) * 4 + i % 4,
        0 <= i % 4 < 4,
{
    assert(0 <= (i / 4) / width < height) by (nonlinear_arith)
        requires
            width > 0,
            height > 0,
            0 <= i < width * height * 4,
    ;
    assert(i / 4 == ((i / 4) / width) * width + (i / 4) % width) by (nonlinear_arith)
        requires
            width > 0,
    ;
    assert(i == (i / 4) * 4 + i % 4) by (nonlinear_arith);
}

/// Paints one glyph rectangle into a `width` by `height` buffer: every pixel
/// of the rectangle that lies inside the buffer gets the colour scaled by the
/// coverage, and nothing else changes. A glyph with no coverage paints
/// nothing. Reports whether any pixel was painted.
pub fn paint_glyph(
    pixels: &mut Vec<u8>,
    width: i32,
    height: i32,
    x: i32,
    y: i32,
    w: u32,
    h: u32,
    rgba: (u8, u8, u8, u8),
) -> (drew: bool)
    requires
        width > 0,
        height > 0,
        width * height * 4 <= i32::MAX,
        old(pixels)@.len() == width * height * 4,
        fits(x + extent(w)),
        fits(y + extent(h)),
    ensures
        final(pixels)@ == painted(
            old(pixels)@,
            width as int,
            x as int,
            y as int,
            extent(w),
            extent(h),
            0,
            rgba,
        ),
        drew == (rgba.3 > 0 && meets(x as int, extent(w), width as int) && meets(
            y as int,
            extent(h),
            height as int,
        )),
{
    let ghost old_px = pixels@;
    let ghost ew = extent(w);
    let ghost eh = extent(h);
    let ghost wd = width as int;
    let ghost ht = height as int;
    if rgba.3 == 0 {
        assert(pixels@ =~= painted(old_px, wd, x as int, y as int, ew, eh, 0, rgba));
        return false;
    }
    let cols: i32 = if w <= i32::MAX as u32 {
        w as i32
    } else {
        0
    };
    let rows: i32 = if h <= i32::MAX as u32 {
        h as i32
    } else {
        0
    };
    let mut drew = false;
    let mut oy: i32 = 0;
    assert(pixels@ =~= painted(old_px, wd, x as int, y as int, ew, 0, 0, rgba));
    while oy < rows
        invariant
            0 <= oy <= rows,
            rows == eh,
            cols == ew,
            ew == extent(w),
            eh == extent(h),
            rgba.3 > 0,
            wd == width,
            ht == height,
            width > 0,
            height > 0,
            width * height * 4 <= i32::MAX,
            old_px.len() == width * height * 4,
            fits(x + ew),
            fits(y + eh),
            pixels@ == painted(old_px, wd, x as int, y as int, ew, oy as int, 0, rgba),
            drew == (meets(x as int, ew, wd) && meets(y as int, oy as int, ht)),
        decreases rows - oy,
    {
        let py = y + oy;
        let mut ox: i32 = 0;
        let ghost drew_before = drew;
        while ox < cols
            invariant
                0 <= ox <= cols,
                0 <= oy < rows,
                py == y + oy,
                rows == eh,
                cols == ew,
                ew == extent(w),
                eh == extent(h),
                rgba.3 > 0,
                wd == width,
                ht == height,
                width > 0,
                height > 0,
                width * height * 4 <= i32::MAX,
                old_px.len() == width * height * 4,
                fits(x + ew),
                fits(y + eh),
                pixels@ == painted(old_px, wd, x as int, y as int, ew, oy as int, ox as int, rgba),
                drew == (drew_before || (0 <= py < height && meets(x as int, ox as int, wd))),
            decreases cols - ox,
        {
            let px = x + ox;
            if px >= 0 && py >= 0 && px < width && py < height {
                let ghost before = pixels@;
                proof {
                    assert(0 <= py * width + px < width * height) by (nonlinear_arith)
                        requires
                            0 <= px < width,
                            0 <= py < height,
                    ;
                    assert(0 <= py * width <= py * width + px);
                    lemma_pixel_index(wd, ht, px as int, py as int, 0);
                    lemma_pixel_index(wd, ht, px as int, py as int, 3);
                }
                let base = ((py as i64 * width as i64 + px as i64) * 4) as usize;
                pixels.set(base, scale(rgba.2, rgba.3));
                pixels.set(base + 1, scale(rgba.1, rgba.3));
                pixels.set(base + 2, scale(rgba.0, rgba.3));
                pixels.set(base + 3, rgba.3);
                proof {
                    let next = painted(old_px, wd, x as int, y as int, ew, oy as int, ox + 1, rgba);
                    assert forall|i: int| 0 <= i < pixels@.len() implies #[trigger] pixels@[i]
                        == next[i] by {
                        lemma_pixel_of(wd, ht, i);
                        let p = i / 4;
                        let qx = p % wd;
                        let qy = p / wd;
                        if base <= i < base + 4 {
                            lemma_pixel_index(wd, ht, px as int, py as int, i - base);
                        } else {
                            if qx == px && qy == py {
                                lemma_pixel_index(wd, ht, px as int, py as int, i % 4);
                            }
                        }
                    }
                    assert(pixels@ =~= next);
                }
                drew = true;
            } else {
                proof {
                    let next = painted(old_px, wd, x as int, y as int, ew, oy as int, ox + 1, rgba);
                    assert forall|i: int| 0 <= i < pixels@.len() implies #[trigger] pixels@[i]
                        == next[i] by {
                        lemma_pixel_of(wd, ht, i);
                    }
                    assert(pixels@ =~= next);
                }
            }
            ox = ox + 1;
        }
        proof {
            let next = painted(old_px, wd, x as int, y as int, ew, oy + 1, 0, rgba);
            assert forall|i: int| 0 <= i < pixels@.len() implies #[trigger] pixels@[i] == next[i] by {
                lemma_pixel_of(wd, ht, i);
            }
            assert(pixels@ =~= next);
        }
        oy = oy + 1;
    }
    drew
}

} // verus!
