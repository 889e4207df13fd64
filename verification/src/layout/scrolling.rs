//! niri/PaperWM-style: an unbounded horizontal ribbon of columns.
//!
//! Columns are laid out at their running sum along x and the area's width is
//! ignored; a view offset is what brings the focused column on screen.
//! Opening a window therefore never resizes or moves its neighbours.
//!
//! Each column's width is a fraction of the area, which the caller turns into
//! pixels; the ribbon is laid out here from those pixel widths.

use vstd::prelude::*;

use crate::geometry::{fits, Point, Rectangle, Size};
use crate::layout::{
    constrain_extent, fits_wide, index_of, index_of_spec, Direction, TileInfo, WindowId,
};

verus! {

/// The size column `i` gets: its width and the area's full height, held to
/// the window's own limits.
pub open spec fn column_size(tile: TileInfo, width: i32, area: Rectangle) -> Size {
    Size {
        w: constrain_extent(width as int, tile.min_size.w as int, tile.max_size.w as int) as i32,
        h: constrain_extent(area.size.h as int, tile.min_size.h as int, tile.max_size.h as int) as i32,
    }
}

/// Where column `n` starts: the area's left edge, plus every column before
/// it and a gap after each.
pub open spec fn column_x(area: Rectangle, tiles: Seq<TileInfo>, widths: Seq<i32>, gap: i32, n: int) -> int
    decreases n,
{
    if n <= 0 {
        area.loc.x as int
    } else {
        column_x(area, tiles, widths, gap, n - 1) + column_size(tiles[n - 1], widths[n - 1], area).w
            + gap
    }
}

pub open spec fn spec_column(area: Rectangle, tiles: Seq<TileInfo>, widths: Seq<i32>, gap: i32, i: int) -> Rectangle {
    Rectangle {
        loc: Point { x: column_x(area, tiles, widths, gap, i) as i32, y: area.loc.y },
        size: column_size(tiles[i], widths[i], area),
    }
}

pub open spec fn ribbon_fits(area: Rectangle, tiles: Seq<TileInfo>, widths: Seq<i32>, gap: i32) -> bool {
    &&& widths.len() == tiles.len()
    &&& forall|n: int|
        0 <= n <= tiles.len() ==> #[trigger] fits(column_x(area, tiles, widths, gap, n))
    &&& forall|n: int|
        0 <= n < tiles.len() ==> #[trigger] fits(
            column_x(area, tiles, widths, gap, n) + column_size(tiles[n], widths[n], area).w,
        )
}

/// Column rects in ribbon coordinates, before the view offset: `widths[i]`
/// is the width, in pixels, column `i` asks for.
pub fn ribbon_columns(area: Rectangle, tiles: &[TileInfo], widths: &Vec<i32>, gap: i32) -> (rects: Vec<Rectangle>)
    requires
        ribbon_fits(area, tiles@, widths@, gap),
    ensures
        rects@.len() == tiles@.len(),
        forall|i: int| 0 <= i < tiles@.len() ==> #[trigger] rects@[i] == spec_column(area, tiles@, widths@, gap, i),
{
    let mut rects: Vec<Rectangle> = Vec::new();
    let mut x = area.loc.x;
    let mut i: usize = 0;
    while i < tiles.len()
        invariant
            i <= tiles@.len(),
            ribbon_fits(area, tiles@, widths@, gap),
            x == column_x(area, tiles@, widths@, gap, i as int),
            rects@.len() == i,
            forall|j: int| 0 <= j < i ==> #[trigger] rects@[j] == spec_column(area, tiles@, widths@, gap, j),
        decreases tiles@.len() - i,
    {
        let size = tiles[i].constrain(Size { w: widths[i], h: area.size.h });
        proof {
            assert(fits(column_x(area, tiles@, widths@, gap, i as int)));
            assert(fits(column_x(area, tiles@, widths@, gap, i as int) + column_size(tiles@[i as int], widths@[i as int], area).w));
            assert(fits(column_x(area, tiles@, widths@, gap, i + 1)));
        }
        rects.push(Rectangle { loc: Point { x, y: area.loc.y }, size });
        x = x + size.w + gap;
        i = i + 1;
    }
    rects
}

/// [`ribbon_columns`] where the running sum stays inside `i32`, and `None`
/// where it would not, or where there is not one width per tile.
pub fn try_ribbon_columns(area: Rectangle, tiles: &[TileInfo], widths: &Vec<i32>, gap: i32) -> (r:
    Option<Vec<Rectangle>>)
    ensures
        r is Some <==> ribbon_fits(area, tiles@, widths@, gap),
        r matches Some(rects) ==> rects@.len() == tiles@.len() && forall|i: int|
            0 <= i < tiles@.len() ==> #[trigger] rects@[i] == spec_column(
                area,
                tiles@,
                widths@,
                gap,
                i,
            ),
{
    if widths.len() != tiles.len() {
        return None;
    }
    let mut x: i64 = area.loc.x as i64;
    let mut i: usize = 0;
    while i < tiles.len()
        invariant
            widths@.len() == tiles@.len(),
            i <= tiles@.len(),
            x == column_x(area, tiles@, widths@, gap, i as int),
            forall|n: int| 0 <= n <= i ==> #[trigger] fits(column_x(area, tiles@, widths@, gap, n)),
            forall|n: int|
                0 <= n < i ==> #[trigger] fits(
                    column_x(area, tiles@, widths@, gap, n) + column_size(tiles@[n], widths@[n], area).w,
                ),
        decreases tiles@.len() - i,
    {
        let size = tiles[i].constrain(Size { w: widths[i], h: area.size.h });
        assert(size.w == column_size(tiles@[i as int], widths@[i as int], area).w);
        assert(fits(column_x(area, tiles@, widths@, gap, i as int)));
        if !fits_wide(x + size.w as i64) {
            return None;
        }
        let next: i64 = x + size.w as i64 + gap as i64;
        assert(column_x(area, tiles@, widths@, gap, i + 1) == next);
        if !fits_wide(next) {
            return None;
        }
        x = next;
        i = i + 1;
    }
    Some(ribbon_columns(area, tiles, widths, gap))
}

/// Every column is held to its window's own limits, as a configure to that
/// window would be: its width is the width asked for and its height the
/// area's, each raised to a positive minimum and then cut to a positive
/// maximum. So a column is never taller than a positive `max_size.h`, never
/// shorter than a positive `min_size.h` that does not exceed it, and exactly
/// the area's height when that lies within the window's limits.
pub proof fn lemma_columns_keep_to_limits(
    area: Rectangle,
    tiles: Seq<TileInfo>,
    widths: Seq<i32>,
    gap: i32,
    i: int,
)
    requires
        0 <= i < tiles.len(),
        widths.len() == tiles.len(),
    ensures
        ({
            let r = spec_column(area, tiles, widths, gap, i);
            let t = tiles[i];
            &&& r.loc.y == area.loc.y
            &&& t.max_size.h > 0 ==> r.size.h <= t.max_size.h
            &&& t.max_size.w > 0 ==> r.size.w <= t.max_size.w
            &&& t.min_size.h > 0 && (t.max_size.h <= 0 || t.min_size.h <= t.max_size.h) ==> r.size.h
                >= t.min_size.h
            &&& t.min_size.w > 0 && (t.max_size.w <= 0 || t.min_size.w <= t.max_size.w) ==> r.size.w
                >= t.min_size.w
            &&& (t.min_size.h <= 0 || area.size.h >= t.min_size.h) && (t.max_size.h <= 0
                || area.size.h <= t.max_size.h) ==> r.size.h == area.size.h
            &&& (t.min_size.w <= 0 || widths[i] >= t.min_size.w) && (t.max_size.w <= 0 || widths[i]
                <= t.max_size.w) ==> r.size.w == widths[i]
        }),
{
}

/// The ribbon runs left to right with nothing between the columns but the
/// gap: the first column starts at the area's left edge and each next one
/// starts `gap` after the one before ends.
pub proof fn lemma_columns_abut(area: Rectangle, tiles: Seq<TileInfo>, widths: Seq<i32>, gap: i32)
    requires
        ribbon_fits(area, tiles, widths, gap),
    ensures
        tiles.len() > 0 ==> spec_column(area, tiles, widths, gap, 0).loc.x == area.loc.x,
        forall|i: int|
            0 <= i < tiles.len() - 1 ==> #[trigger] spec_column(area, tiles, widths, gap, i + 1).loc.x
                == spec_column(area, tiles, widths, gap, i).loc.x + spec_column(
                area,
                tiles,
                widths,
                gap,
                i,
            ).size.w + gap,
{
    assert forall|i: int| 0 <= i < tiles.len() - 1 implies #[trigger] spec_column(
        area,
        tiles,
        widths,
        gap,
        i + 1,
    ).loc.x == spec_column(area, tiles, widths, gap, i).loc.x + spec_column(
        area,
        tiles,
        widths,
        gap,
        i,
    ).size.w + gap by {
        assert(fits(column_x(area, tiles, widths, gap, i)));
        assert(fits(column_x(area, tiles, widths, gap, i + 1)));
    }
}

/// A column's place depends only on the columns before it: laying out more
/// windows after it — opening one — never moves or resizes it.
pub proof fn lemma_opening_moves_nothing(
    area: Rectangle,
    tiles: Seq<TileInfo>,
    widths: Seq<i32>,
    more: Seq<TileInfo>,
    more_widths: Seq<i32>,
    gap: i32,
    i: int,
)
    requires
        0 <= i < tiles.len(),
        widths.len() == tiles.len(),
        more.len() >= tiles.len(),
        more_widths.len() == more.len(),
        more.take(tiles.len() as int) == tiles,
        more_widths.take(tiles.len() as int) == widths,
    ensures
        spec_column(area, more, more_widths, gap, i) == spec_column(area, tiles, widths, gap, i),
{
    lemma_column_x_prefix(area, tiles, widths, more, more_widths, gap, i);
    assert(more[i] == more.take(tiles.len() as int)[i]);
    assert(more_widths[i] == more_widths.take(tiles.len() as int)[i]);
}

proof fn lemma_column_x_prefix(
    area: Rectangle,
    tiles: Seq<TileInfo>,
    widths: Seq<i32>,
    more: Seq<TileInfo>,
    more_widths: Seq<i32>,
    gap: i32,
    n: int,
)
    requires
        0 <= n <= tiles.len(),
        widths.len() == tiles.len(),
        more.len() >= tiles.len(),
        more_widths.len() == more.len(),
        more.take(tiles.len() as int) == tiles,
        more_widths.take(tiles.len() as int) == widths,
    ensures
        column_x(area, more, more_widths, gap, n) == column_x(area, tiles, widths, gap, n),
    decreases n,
{
    if n > 0 {
        lemma_column_x_prefix(area, tiles, widths, more, more_widths, gap, n - 1);
        assert(more[n - 1] == more.take(tiles.len() as int)[n - 1]);
        assert(more_widths[n - 1] == more_widths.take(tiles.len() as int)[n - 1]);
    }
}

/// The neighbouring column: one window per column, so nothing is above or
/// below.
pub open spec fn spec_column_neighbour(tiles: Seq<TileInfo>, from: int, dir: Direction) -> Option<WindowId> {
    match dir {
        Direction::Left => if from >= 1 {
            Some(tiles[from - 1].id)
        } else {
            None
        },
        Direction::Right => if from + 1 < tiles.len() {
            Some(tiles[from + 1].id)
        } else {
            None
        },
        _ => None,
    }
}

/// The window a move from `from` lands on.
pub fn column_neighbour(tiles: &[TileInfo], from: WindowId, dir: Direction) -> (r: Option<WindowId>)
    ensures
        match index_of_spec(tiles@, from) {
            Some(i) => r == spec_column_neighbour(tiles@, i, dir),
            None => r is None,
        },
{
    let index = match index_of(tiles, from) {
        Some(i) => i,
        None => {
            return None;
        },
    };
    match dir {
        Direction::Left => if index >= 1 {
            Some(tiles[index - 1].id)
        } else {
            None
        },
        Direction::Right => if index < tiles.len() - 1 {
            Some(tiles[index + 1].id)
        } else {
            None
        },
        _ => None,
    }
}

} // verus!
