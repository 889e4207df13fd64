//! Pure geometry.
//!
//! Nothing here can see a surface, a window, an output or the shell. A layout
//! is handed a description of the tiled windows and hands back one rectangle
//! each; it cannot reorder the list, drop a window or send a configure.

pub mod floating;
pub mod manager;
pub mod master_stack;
pub mod placement;
pub mod scrolling;
pub mod snap;

use vstd::prelude::*;

use crate::geometry::{fits, min, rect, Rectangle, Size};

verus! {

/// The identity a window keeps for as long as it exists.
pub type WindowId = u64;

/// Which regime a workspace arranges its windows under.
#[derive(Debug, Clone, Copy, PartialEq, Eq, Structural)]
pub enum WorkspaceMode {
    Tiling,
    Floating,
}

#[derive(Debug, Clone, Copy, PartialEq, Eq, Structural)]
pub struct Gaps {
    /// Between tiles.
    pub inner: i32,
    /// Between the tiled region and the edge of the usable area.
    pub outer: i32,
}

impl Default for Gaps {
    fn default() -> (g: Self)
        ensures
            g.inner == 8 && g.outer == 8,
    {
        Gaps { inner: 8, outer: 8 }
    }
}

#[derive(Debug, Clone, Copy, PartialEq, Eq, Structural)]
pub enum Direction {
    Left,
    Right,
    Up,
    Down,
}

#[derive(Debug, Clone, Copy, PartialEq, Eq, Structural)]
pub enum ResizeEdge {
    Left,
    Right,
    Top,
    Bottom,
}

/// One tiled window, as much of it as the layout may see.
#[derive(Debug, Clone, Copy, PartialEq, Eq, Structural)]
pub struct TileInfo {
    pub id: WindowId,
    /// A zero or negative component means unconstrained.
    pub min_size: Size,
    /// A zero or negative component means unconstrained.
    pub max_size: Size,
}

/// One extent held to a window's own limits: raised to a positive minimum,
/// then lowered to a positive maximum.
pub open spec fn constrain_extent(value: int, min: int, max: int) -> int {
    let raised = if min > 0 && value < min {
        min
    } else {
        value
    };
    if max > 0 && raised > max {
        max
    } else {
        raised
    }
}

fn constrain_one(value: i32, min: i32, max: i32) -> (r: i32)
    ensures
        r == constrain_extent(value as int, min as int, max as int),
{
    let value = if min > 0 && value < min {
        min
    } else {
        value
    };
    if max > 0 && value > max {
        max
    } else {
        value
    }
}

impl TileInfo {
    pub fn new(id: WindowId) -> (t: Self)
        ensures
            t.id == id,
            t.min_size == (Size { w: 0, h: 0 }),
            t.max_size == (Size { w: 0, h: 0 }),
    {
        TileInfo { id, min_size: Size { w: 0, h: 0 }, max_size: Size { w: 0, h: 0 } }
    }

    /// Clamps a proposed size into the window's own limits.
    pub fn constrain(&self, size: Size) -> (r: Size)
        ensures
            r.w == constrain_extent(size.w as int, self.min_size.w as int, self.max_size.w as int),
            r.h == constrain_extent(size.h as int, self.min_size.h as int, self.max_size.h as int),
    {
        Size {
            w: constrain_one(size.w, self.min_size.w, self.max_size.w),
            h: constrain_one(size.h, self.min_size.h, self.max_size.h),
        }
    }
}

/// The first position of `id` among `tiles[i..]`, if it is there.
pub open spec fn first_index(tiles: Seq<TileInfo>, id: WindowId, i: int) -> Option<int>
    decreases tiles.len() - i,
{
    if i < 0 || i >= tiles.len() {
        None
    } else if tiles[i].id == id {
        Some(i)
    } else {
        first_index(tiles, id, i + 1)
    }
}

/// The first position of `id` among `tiles`, if it is there.
pub open spec fn index_of_spec(tiles: Seq<TileInfo>, id: WindowId) -> Option<int> {
    first_index(tiles, id, 0)
}

/// Where `id` first stands in `tiles`.
pub fn index_of(tiles: &[TileInfo], id: WindowId) -> (r: Option<usize>)
    ensures
        index_of_spec(tiles@, id) == match r {
            Some(i) => Some(i as int),
            None => None,
        },
        match r {
            Some(i) => i < tiles@.len() && tiles@[i as int].id == id && forall|j: int|
                0 <= j < i ==> tiles@[j].id != id,
            None => forall|j: int| 0 <= j < tiles@.len() ==> tiles@[j].id != id,
        },
{
    let mut i: usize = 0;
    while i < tiles.len()
        invariant
            i <= tiles@.len(),
            forall|j: int| 0 <= j < i ==> tiles@[j].id != id,
            first_index(tiles@, id, 0) == first_index(tiles@, id, i as int),
        decreases tiles@.len() - i,
    {
        if tiles[i].id == id {
            return Some(i);
        }
        i = i + 1;
    }
    None
}

/// Which algorithm arranges a workspace.
#[derive(Debug, Clone, Copy, PartialEq, Eq, Structural)]
pub enum LayoutKind {
    Floating,
    MasterStack,
    ScrollingColumns,
}

/// Borrowed for exactly one call, rebuilt from the workspace each relayout.
pub struct LayoutInput<'a> {
    /// Workspace-local (origin `0,0`), exclusive zones and the outer gap already
    /// subtracted. The layout never sees global coordinates, so one arrangement
    /// computed against one output works unchanged on another.
    pub area: Rectangle,
    pub gaps: Gaps,
    pub focused: Option<WindowId>,
    /// Tiled windows in layout order.
    pub tiles: &'a [TileInfo],
}

impl<'a> LayoutInput<'a> {
    pub fn index_of(&self, id: WindowId) -> (r: Option<usize>)
        ensures
            index_of_spec(self.tiles@, id) == match r {
                Some(i) => Some(i as int),
                None => None,
            },
            match r {
                Some(i) => i < self.tiles@.len() && self.tiles@[i as int].id == id && forall|j: int|
                    0 <= j < i ==> self.tiles@[j].id != id,
                None => forall|j: int| 0 <= j < self.tiles@.len() ==> self.tiles@[j].id != id,
            },
    {
        index_of(self.tiles, id)
    }
}

/// Owned by the workspace and reused, so a relayout allocates only when the tile
/// count passes its high-water mark.
pub struct LayoutOutput {
    /// Exactly one rect per input tile, in the same order. Workspace-local.
    pub rects: Vec<Rectangle>,
}

impl Default for LayoutOutput {
    fn default() -> (o: Self)
        ensures
            o.rects@ == Seq::<Rectangle>::empty(),
    {
        LayoutOutput { rects: Vec::new() }
    }
}

impl LayoutOutput {
    pub fn clear(&mut self)
        ensures
            final(self).rects@ == Seq::<Rectangle>::empty(),
    {
        self.rects.clear();
    }
}

/// The height every row gets before the remainder is handed out.
pub open spec fn row_usable(height: int, count: int, gap: int) -> int {
    let usable = height - gap * (count - 1);
    if usable >= count {
        usable
    } else {
        count
    }
}

/// Row `i` of `count`, as `split_rows` lays it out.
pub open spec fn row_extent(height: int, count: int, gap: int, i: int) -> int {
    let usable = row_usable(height, count, gap);
    usable / count + if i < usable % count {
        1int
    } else {
        0
    }
}

/// How far below the top row `i` starts.
pub open spec fn row_offset(height: int, count: int, gap: int, i: int) -> int {
    let usable = row_usable(height, count, gap);
    i * (usable / count + gap) + min(i, usable % count)
}

pub open spec fn spec_row(area: Rectangle, count: int, gap: int, i: int) -> Rectangle {
    rect(
        area.loc.x as int,
        area.loc.y + row_offset(area.size.h as int, count, gap, i),
        area.size.w as int,
        row_extent(area.size.h as int, count, gap, i),
    )
}

/// What `split_rows` computes stays inside `i32` all the way down.
pub open spec fn rows_fit(area: Rectangle, count: int, gap: int) -> bool {
    count == 0 || {
        &&& count <= i32::MAX
        &&& fits(gap * (count - 1))
        &&& fits(area.size.h - gap * (count - 1))
        &&& fits(row_usable(area.size.h as int, count, gap) / count + 1)
        &&& forall|i: int|
            0 <= i <= count ==> #[trigger] fits(row_offset(area.size.h as int, count, gap, i))
                && fits(area.loc.y + row_offset(area.size.h as int, count, gap, i))
                && fits(row_offset(area.size.h as int, count, gap, i) + row_extent(
                area.size.h as int,
                count,
                gap,
                i,
            ))
    }
}

proof fn lemma_row_step(height: int, count: int, gap: int, i: int)
    requires
        count > 0,
        0 <= i,
    ensures
        row_offset(height, count, gap, i + 1) == row_offset(height, count, gap, i) + row_extent(
            height,
            count,
            gap,
            i,
        ) + gap,
{
    let usable = row_usable(height, count, gap);
    assert((i + 1) * (usable / count + gap) == i * (usable / count + gap) + usable / count + gap)
        by (nonlinear_arith);
}

/// Whether a wide value fits in `i32`.
pub fn fits_wide(v: i64) -> (b: bool)
    ensures
        b == fits(v as int),
{
    -2147483648i64 <= v && v <= 2147483647i64
}

/// Whether [`split_rows`] can lay out `count` rows of `area` without leaving
/// `i32`: the test a caller makes before it, answered exactly.
pub fn rows_fit_check(area: Rectangle, count: usize, gap: i32) -> (b: bool)
    ensures
        b == rows_fit(area, count as int, gap as int),
{
    if count == 0 {
        return true;
    }
    if count > 2147483647usize {
        return false;
    }
    let n: i64 = count as i64;
    let g: i64 = gap as i64;
    let h: i64 = area.size.h as i64;
    assert(-2147483648 * 2147483646 <= g * (n - 1) <= 2147483647 * 2147483646) by (nonlinear_arith)
        requires
            -2147483648 <= g <= 2147483647,
            1 <= n <= 2147483647,
    ;
    let span: i64 = g * (n - 1);
    if !fits_wide(span) {
        return false;
    }
    let stretched: i64 = h - span;
    if !fits_wide(stretched) {
        return false;
    }
    let usable: i64 = if stretched >= n {
        stretched
    } else {
        n
    };
    let each: i64 = usable / n;
    let remainder: i64 = usable % n;
    assert(usable == row_usable(h as int, n as int, g as int));
    assert(0 <= each <= usable) by (nonlinear_arith)
        requires
            usable >= n,
            n >= 1,
            each == usable / n,
    ;
    if !fits_wide(each + 1) {
        return false;
    }
    let mut offset: i64 = 0;
    let mut i: i64 = 0;
    while i <= n
        invariant
            n == count,
            1 <= n <= 2147483647,
            g == gap,
            h == area.size.h,
            usable == row_usable(h as int, n as int, g as int),
            each == usable / n,
            remainder == usable % n,
            0 <= remainder < n,
            fits(each + 1),
            0 <= each,
            0 <= i <= n + 1,
            i <= n ==> offset == row_offset(h as int, n as int, g as int, i as int),
            forall|j: int|
                0 <= j < i ==> #[trigger] fits(row_offset(h as int, n as int, g as int, j))
                    && fits(area.loc.y + row_offset(h as int, n as int, g as int, j))
                    && fits(row_offset(h as int, n as int, g as int, j) + row_extent(
                    h as int,
                    n as int,
                    g as int,
                    j,
                )),
        decreases n + 1 - i,
    {
        let extent: i64 = each + if i < remainder {
            1i64
        } else {
            0i64
        };
        assert(extent == row_extent(h as int, n as int, g as int, i as int));
        if !fits_wide(offset) {
            return false;
        }
        if !fits_wide(area.loc.y as i64 + offset) {
            return false;
        }
        if !fits_wide(offset + extent) {
            return false;
        }
        proof {
            lemma_row_step(h as int, n as int, g as int, i as int);
            assert(fits(row_offset(h as int, n as int, g as int, i as int))
                && fits(area.loc.y + row_offset(h as int, n as int, g as int, i as int))
                && fits(row_offset(h as int, n as int, g as int, i as int) + row_extent(
                h as int,
                n as int,
                g as int,
                i as int,
            )));
        }
        let ghost prev = i as int;
        offset = offset + extent + g;
        i = i + 1;
        assert forall|j: int| 0 <= j < i implies #[trigger] fits(row_offset(h as int, n as int, g as int, j))
            && fits(area.loc.y + row_offset(h as int, n as int, g as int, j))
            && fits(row_offset(h as int, n as int, g as int, j) + row_extent(
            h as int,
            n as int,
            g as int,
            j,
        )) by {
            if j == prev {
                assert(fits(row_offset(h as int, n as int, g as int, prev)));
                assert(fits(area.loc.y + row_offset(h as int, n as int, g as int, prev)));
                assert(fits(row_offset(h as int, n as int, g as int, prev) + row_extent(h as int, n as int, g as int, prev)));
            } else {
                assert(j < prev);
                assert(fits(row_offset(h as int, n as int, g as int, j)));
            }
        }
    }
    assert(fits(gap * (count - 1)));
    assert(fits(area.size.h - gap * (count - 1)));
    assert(fits(row_usable(area.size.h as int, count as int, gap as int) / (count as int) + 1));
    assert forall|j: int| 0 <= j <= count implies #[trigger] fits(
        row_offset(area.size.h as int, count as int, gap as int, j),
    ) && fits(area.loc.y + row_offset(area.size.h as int, count as int, gap as int, j)) && fits(
        row_offset(area.size.h as int, count as int, gap as int, j) + row_extent(
            area.size.h as int,
            count as int,
            gap as int,
            j,
        ),
    ) by {
        assert(fits(row_offset(h as int, n as int, g as int, j)));
    }
    assert(count <= i32::MAX);
    assert(rows_fit(area, count as int, gap as int));
    true
}

/// Splits `area` into `count` rows separated by `gap`, distributing the
/// remainder so the rows fill the area exactly.
pub fn split_rows(area: Rectangle, count: usize, gap: i32) -> (rows: Vec<Rectangle>)
    requires
        rows_fit(area, count as int, gap as int),
    ensures
        rows.len() == count,
        forall|i: int| 0 <= i < count ==> rows@[i] == spec_row(area, count as int, gap as int, i),
{
    if count == 0 {
        return Vec::new();
    }
    let n = count as i32;
    let stretched = area.size.h - gap * (n - 1);
    let usable = if stretched >= n {
        stretched
    } else {
        n
    };
    let each = usable / n;
    let remainder = usable % n;
    let mut rows: Vec<Rectangle> = Vec::new();
    let mut offset: i32 = 0;
    let mut index: i32 = 0;
    while index < n
        invariant
            rows_fit(area, count as int, gap as int),
            n == count,
            n > 0,
            0 <= index <= n,
            usable == row_usable(area.size.h as int, n as int, gap as int),
            each == usable / n,
            remainder == usable % n,
            offset == row_offset(area.size.h as int, n as int, gap as int, index as int),
            rows.len() == index,
            forall|i: int| 0 <= i < index ==> rows@[i] == spec_row(area, n as int, gap as int, i),
        decreases n - index,
    {
        proof {
            lemma_row_step(area.size.h as int, n as int, gap as int, index as int);
            assert(fits(row_offset(area.size.h as int, n as int, gap as int, index as int)));
            assert(fits(row_offset(area.size.h as int, n as int, gap as int, index + 1)));
            assert(fits(area.loc.y + row_offset(area.size.h as int, n as int, gap as int, index as int)));
            assert(fits(row_offset(area.size.h as int, n as int, gap as int, index as int) + row_extent(area.size.h as int, n as int, gap as int, index as int)));
        }
        let extent = each + if index < remainder {
            1i32
        } else {
            0i32
        };
        rows.push(Rectangle::from_parts(area.loc.x, area.loc.y + offset, area.size.w, extent));
        offset = offset + extent + gap;
        index = index + 1;
    }
    rows
}

/// The rows leave no background: the first starts at the top of the area,
/// each starts exactly `gap` below the one before, every row is at least one
/// pixel tall, and when the area has room for them the last ends at its
/// bottom edge.
pub proof fn lemma_rows_cover(area: Rectangle, count: int, gap: int)
    requires
        count > 0,
    ensures
        spec_row(area, count, gap, 0).loc.y == area.loc.y,
        forall|i: int|
            0 <= i < count - 1 ==> row_offset(area.size.h as int, count, gap, i + 1) == row_offset(
                area.size.h as int,
                count,
                gap,
                i,
            ) + row_extent(area.size.h as int, count, gap, i) + gap,
        forall|i: int| 0 <= i < count ==> row_extent(area.size.h as int, count, gap, i) >= 1,
        area.size.h - gap * (count - 1) >= count ==> row_offset(
            area.size.h as int,
            count,
            gap,
            count - 1,
        ) + row_extent(area.size.h as int, count, gap, count - 1) == area.size.h,
{
    let h = area.size.h as int;
    let usable = row_usable(h, count, gap);
    assert forall|i: int| 0 <= i < count - 1 implies row_offset(h, count, gap, i + 1)
        == row_offset(h, count, gap, i) + row_extent(h, count, gap, i) + gap by {
        lemma_row_step(h, count, gap, i);
    }
    assert(usable / count >= 1) by (nonlinear_arith)
        requires
            usable >= count,
            count > 0,
    ;
    assert(usable == count * (usable / count) + usable % count) by (nonlinear_arith)
        requires
            count > 0,
    ;
    let q = usable / count;
    let r = usable % count;
    assert((count - 1) * (q + gap) + q + gap == count * q + count * gap) by (nonlinear_arith);
    if h - gap * (count - 1) >= count {
        assert(row_offset(h, count, gap, count - 1) == (count - 1) * (q + gap) + min(count - 1, r));
        assert(count * q + count * gap - gap + r == h) by (nonlinear_arith)
            requires
                usable == h - gap * (count - 1),
                usable == count * q + r,
        ;
    }
}

/// The rows as rectangles: each spans the area's full width, is at least a
/// pixel tall, the first starts at the area's top, each starts `gap` below
/// the one before, and when the area has room for them the last ends at the
/// area's bottom edge.
pub proof fn lemma_rows_tile(area: Rectangle, count: int, gap: int)
    requires
        count > 0,
        rows_fit(area, count, gap),
    ensures
        forall|i: int|
            0 <= i < count ==> {
                let r = #[trigger] spec_row(area, count, gap, i);
                &&& r.loc.x == area.loc.x
                &&& r.size.w == area.size.w
                &&& r.size.h >= 1
            },
        spec_row(area, count, gap, 0).loc.y == area.loc.y,
        forall|i: int|
            0 <= i < count - 1 ==> #[trigger] spec_row(area, count, gap, i + 1).loc.y == spec_row(
                area,
                count,
                gap,
                i,
            ).loc.y + spec_row(area, count, gap, i).size.h + gap,
        area.size.h - gap * (count - 1) >= count ==> spec_row(area, count, gap, count - 1).loc.y
            + spec_row(area, count, gap, count - 1).size.h == area.loc.y + area.size.h,
{
    let h = area.size.h as int;
    lemma_rows_cover(area, count, gap);
    assert forall|i: int| 0 <= i <= count implies #[trigger] fits(row_offset(h, count, gap, i))
        && fits(area.loc.y + row_offset(h, count, gap, i))
        && fits(row_offset(h, count, gap, i) + row_extent(h, count, gap, i)) by {
        assert(rows_fit(area, count, gap));
        assert(count != 0);
        assert(fits(row_offset(area.size.h as int, count, gap, i)));
    }
    let usable = row_usable(h, count, gap);
    assert forall|i: int| 0 <= i < count implies 1 <= #[trigger] row_extent(h, count, gap, i)
        <= usable / count + 1 by {}
    assert forall|i: int| 0 <= i < count implies {
        let r = #[trigger] spec_row(area, count, gap, i);
        &&& r.loc.x == area.loc.x
        &&& r.size.w == area.size.w
        &&& r.size.h >= 1
        &&& r.loc.y == area.loc.y + row_offset(h, count, gap, i)
        &&& r.size.h == row_extent(h, count, gap, i)
    } by {
        assert(fits(row_offset(h, count, gap, i)));
        assert(fits(area.loc.y + row_offset(h, count, gap, i)));
        assert(1 <= row_extent(h, count, gap, i) <= usable / count + 1);
    }
    assert(row_offset(h, count, gap, 0) == 0);
    assert(spec_row(area, count, gap, 0).loc.y == area.loc.y + row_offset(h, count, gap, 0));
    assert forall|i: int| 0 <= i < count - 1 implies #[trigger] spec_row(area, count, gap, i + 1).loc.y
        == spec_row(area, count, gap, i).loc.y + spec_row(area, count, gap, i).size.h + gap by {
        assert(spec_row(area, count, gap, i + 1).loc.y == area.loc.y + row_offset(h, count, gap, i + 1));
        assert(spec_row(area, count, gap, i).loc.y == area.loc.y + row_offset(h, count, gap, i));
        assert(spec_row(area, count, gap, i).size.h == row_extent(h, count, gap, i));
    }
    assert(spec_row(area, count, gap, count - 1).loc.y == area.loc.y + row_offset(h, count, gap, count - 1));
    assert(spec_row(area, count, gap, count - 1).size.h == row_extent(h, count, gap, count - 1));
}

} // verus!
