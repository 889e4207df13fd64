//! dwm-style: a master column plus a stack.
//!
//! The master column's share of the width is a fraction, and turning it into
//! pixels is the caller's; everything from that width on — the columns, the
//! rows inside them, who is a master and who the neighbour is — is here.

use vstd::prelude::*;

use crate::geometry::{fits, max, min, Point, Rectangle, Size};
use crate::layout::{
    fits_wide, index_of, index_of_spec, lemma_rows_tile, rows_fit, rows_fit_check, spec_row,
    split_rows, Direction,
    TileInfo, WindowId,
};

verus! {

/// How many leading tiles share the master column to begin with.
pub const DEFAULT_MASTER_COUNT: usize = 1;

/// The width the two columns share: the area less the gap between them, and
/// never less than a pixel each.
pub open spec fn spec_usable_width(area: Rectangle, gap: i32) -> int {
    max(area.size.w - gap, 2)
}

pub fn usable_width(area: Rectangle, gap: i32) -> (u: i32)
    requires
        fits(area.size.w - gap),
    ensures
        u == spec_usable_width(area, gap),
{
    let u = area.size.w - gap;
    if u > 2 {
        u
    } else {
        2
    }
}

/// The master column `master_width` wide at the left of `area`, and the stack
/// filling the rest after `gap`.
pub open spec fn spec_columns(area: Rectangle, master_width: i32, gap: i32) -> (Rectangle, Rectangle) {
    let usable = spec_usable_width(area, gap);
    (
        Rectangle { loc: area.loc, size: Size { w: master_width, h: area.size.h } },
        Rectangle {
            loc: Point { x: (area.loc.x + master_width + gap) as i32, y: area.loc.y },
            size: Size { w: (usable - master_width) as i32, h: area.size.h },
        },
    )
}

pub open spec fn columns_fit(area: Rectangle, master_width: i32, gap: i32) -> bool {
    &&& fits(area.size.w - gap)
    &&& 1 <= master_width <= spec_usable_width(area, gap) - 1
    &&& fits(area.loc.x + master_width)
    &&& fits(area.loc.x + master_width + gap)
}

/// Splits `area` into the master column and the stack.
pub fn split_columns(area: Rectangle, master_width: i32, gap: i32) -> (r: (Rectangle, Rectangle))
    requires
        columns_fit(area, master_width, gap),
    ensures
        r == spec_columns(area, master_width, gap),
{
    let usable = usable_width(area, gap);
    (
        Rectangle { loc: area.loc, size: Size { w: master_width, h: area.size.h } },
        Rectangle {
            loc: Point { x: area.loc.x + master_width + gap, y: area.loc.y },
            size: Size { w: usable - master_width, h: area.size.h },
        },
    )
}

/// One rect per tile: the masters down the master column and the rest down
/// the stack, or every tile down the whole area when nothing is stacked.
pub open spec fn spec_master_stack(
    area: Rectangle,
    count: int,
    master_count: int,
    master_width: i32,
    gap: i32,
) -> Seq<Rectangle> {
    let masters = min(master_count, count);
    let stacked = count - masters;
    if stacked == 0 {
        Seq::new(count as nat, |i: int| spec_row(area, count, gap as int, i))
    } else {
        let (master, stack) = spec_columns(area, master_width, gap);
        Seq::new(masters as nat, |i: int| spec_row(master, masters, gap as int, i)) + Seq::new(
            stacked as nat,
            |i: int| spec_row(stack, stacked, gap as int, i),
        )
    }
}

pub open spec fn master_stack_fits(
    area: Rectangle,
    count: int,
    master_count: int,
    master_width: i32,
    gap: i32,
) -> bool {
    let masters = min(master_count, count);
    let stacked = count - masters;
    if stacked == 0 {
        rows_fit(area, count, gap as int)
    } else {
        let (master, stack) = spec_columns(area, master_width, gap);
        &&& columns_fit(area, master_width, gap)
        &&& rows_fit(master, masters, gap as int)
        &&& rows_fit(stack, stacked, gap as int)
    }
}

fn append(out: &mut Vec<Rectangle>, more: Vec<Rectangle>)
    ensures
        final(out)@ == old(out)@ + more@,
{
    let mut i: usize = 0;
    let ghost start = out@;
    while i < more.len()
        invariant
            i <= more.len(),
            out@ == start + more@.take(i as int),
        decreases more.len() - i,
    {
        out.push(more[i]);
        i = i + 1;
        assert(out@ =~= start + more@.take(i as int));
    }
    assert(more@.take(i as int) =~= more@);
}

/// Lays out `count` tiles, the first `master_count` of them in a master
/// column `master_width` wide.
pub fn master_stack_layout(
    area: Rectangle,
    count: usize,
    master_count: usize,
    master_width: i32,
    gap: i32,
) -> (rects: Vec<Rectangle>)
    requires
        master_stack_fits(area, count as int, master_count as int, master_width, gap),
    ensures
        rects.len() == count,
        rects@ == spec_master_stack(area, count as int, master_count as int, master_width, gap),
{
    let masters = if master_count < count {
        master_count
    } else {
        count
    };
    let stacked = count - masters;
    if stacked == 0 {
        let rows = split_rows(area, count, gap);
        assert(rows@ =~= spec_master_stack(area, count as int, master_count as int, master_width, gap));
        return rows;
    }
    let (master, stack) = split_columns(area, master_width, gap);
    let mut rects = split_rows(master, masters, gap);
    let below = split_rows(stack, stacked, gap);
    let ghost first = rects@;
    append(&mut rects, below);
    assert(rects@ =~= spec_master_stack(area, count as int, master_count as int, master_width, gap));
    rects
}

/// Whether [`split_columns`] can split `area` at `master_width` without
/// leaving `i32`.
pub fn columns_fit_check(area: Rectangle, master_width: i32, gap: i32) -> (b: bool)
    ensures
        b == columns_fit(area, master_width, gap),
{
    let x: i64 = area.loc.x as i64;
    let w: i64 = master_width as i64;
    if !fits_wide(area.size.w as i64 - gap as i64) {
        return false;
    }
    let usable = usable_width(area, gap);
    if master_width < 1 || master_width > usable - 1 {
        return false;
    }
    fits_wide(x + w) && fits_wide(x + w + gap as i64)
}

/// [`master_stack_layout`] where its arithmetic stays inside `i32`, and
/// `None` where it would not.
pub fn try_master_stack_layout(
    area: Rectangle,
    count: usize,
    master_count: usize,
    master_width: i32,
    gap: i32,
) -> (r: Option<Vec<Rectangle>>)
    ensures
        r is Some <==> master_stack_fits(area, count as int, master_count as int, master_width, gap),
        r matches Some(rects) ==> rects@ == spec_master_stack(
            area,
            count as int,
            master_count as int,
            master_width,
            gap,
        ),
{
    let masters = if master_count < count {
        master_count
    } else {
        count
    };
    let stacked = count - masters;
    let fit = if stacked == 0 {
        rows_fit_check(area, count, gap)
    } else if !columns_fit_check(area, master_width, gap) {
        false
    } else {
        let (master, stack) = split_columns(area, master_width, gap);
        rows_fit_check(master, masters, gap) && rows_fit_check(stack, stacked, gap)
    };
    if fit {
        Some(master_stack_layout(area, count, master_count, master_width, gap))
    } else {
        None
    }
}

/// With nothing in the stack — every tile a master — the master column takes
/// the whole area rather than leaving its right side empty: one rect per
/// tile, each spanning the area's full width, stacked `gap` apart from the
/// area's top and, when the area has room for them, down to its bottom edge.
pub proof fn lemma_lone_column_fills_the_area(
    area: Rectangle,
    count: int,
    master_count: int,
    master_width: i32,
    gap: i32,
)
    requires
        0 < count <= master_count,
        master_stack_fits(area, count, master_count, master_width, gap),
    ensures
        ({
            let rs = spec_master_stack(area, count, master_count, master_width, gap);
            &&& rs.len() == count
            &&& forall|i: int|
                0 <= i < count ==> (#[trigger] rs[i]).loc.x == area.loc.x && rs[i].size.w
                    == area.size.w && rs[i].size.h >= 1
            &&& rs[0].loc.y == area.loc.y
            &&& forall|i: int|
                0 <= i < count - 1 ==> #[trigger] rs[i + 1].loc.y == rs[i].loc.y + rs[i].size.h + gap
            &&& area.size.h - gap * (count - 1) >= count ==> rs[count - 1].loc.y + rs[count
                - 1].size.h == area.loc.y + area.size.h
        }),
{
    lemma_rows_tile(area, count, gap as int);
    let rs = spec_master_stack(area, count, master_count, master_width, gap);
    assert forall|i: int| 0 <= i < count implies #[trigger] rs[i] == spec_row(area, count, gap as int, i) by {}
    assert forall|i: int| 0 <= i < count - 1 implies #[trigger] rs[i + 1].loc.y == rs[i].loc.y
        + rs[i].size.h + gap by {
        assert(rs[i + 1] == spec_row(area, count, gap as int, i + 1));
        assert(rs[i] == spec_row(area, count, gap as int, i));
    }
    assert(rs[0] == spec_row(area, count, gap as int, 0));
    assert(rs[count - 1] == spec_row(area, count, gap as int, count - 1));
}

/// With a stack, the masters fill a column `master_width` wide at the area's
/// left edge and the stack fills the rest after one `gap`, out to the area's
/// right edge when the area is wider than the gap plus two pixels; the first
/// `master_count` tiles are the masters.
pub proof fn lemma_master_and_stack_columns(
    area: Rectangle,
    count: int,
    master_count: int,
    master_width: i32,
    gap: i32,
)
    requires
        0 < master_count < count,
        master_stack_fits(area, count, master_count, master_width, gap),
    ensures
        ({
            let rs = spec_master_stack(area, count, master_count, master_width, gap);
            &&& rs.len() == count
            &&& forall|i: int|
                0 <= i < master_count ==> (#[trigger] rs[i]).loc.x == area.loc.x && rs[i].size.w
                    == master_width
            &&& forall|i: int|
                master_count <= i < count ==> (#[trigger] rs[i]).loc.x == area.loc.x + master_width
                    + gap
            &&& area.size.w - gap >= 2 ==> forall|i: int|
                master_count <= i < count ==> (#[trigger] rs[i]).loc.x + rs[i].size.w == area.loc.x
                    + area.size.w
            &&& rs[0].loc.y == area.loc.y
            &&& rs[master_count].loc.y == area.loc.y
            &&& forall|i: int| 0 <= i < count ==> (#[trigger] rs[i]).size.h >= 1
        }),
{
    let (master, stack) = spec_columns(area, master_width, gap);
    let stacked = count - master_count;
    lemma_rows_tile(master, master_count, gap as int);
    lemma_rows_tile(stack, stacked, gap as int);
    let rs = spec_master_stack(area, count, master_count, master_width, gap);
    assert forall|i: int| 0 <= i < master_count implies #[trigger] rs[i] == spec_row(
        master,
        master_count,
        gap as int,
        i,
    ) by {}
    assert forall|i: int| master_count <= i < count implies #[trigger] rs[i] == spec_row(
        stack,
        stacked,
        gap as int,
        i - master_count,
    ) by {}
    assert(rs[0] == spec_row(master, master_count, gap as int, 0));
    assert(rs[master_count] == spec_row(stack, stacked, gap as int, 0));
    assert forall|i: int| 0 <= i < count implies (#[trigger] rs[i]).size.h >= 1 by {
        if i < master_count {
            assert(rs[i] == spec_row(master, master_count, gap as int, i));
        } else {
            assert(rs[i] == spec_row(stack, stacked, gap as int, i - master_count));
        }
    }
    assert forall|i: int| 0 <= i < master_count implies (#[trigger] rs[i]).loc.x == area.loc.x
        && rs[i].size.w == master_width by {
        assert(rs[i] == spec_row(master, master_count, gap as int, i));
    }
    assert forall|i: int| master_count <= i < count implies (#[trigger] rs[i]).loc.x == area.loc.x
        + master_width + gap by {
        assert(rs[i] == spec_row(stack, stacked, gap as int, i - master_count));
    }
    if area.size.w - gap >= 2 {
        assert forall|i: int| master_count <= i < count implies (#[trigger] rs[i]).loc.x
            + rs[i].size.w == area.loc.x + area.size.w by {
            assert(rs[i] == spec_row(stack, stacked, gap as int, i - master_count));
        }
    }
}

/// The master count after a promote-or-demote of the tile at `index`: a
/// master is demoted, anything else promoted, and the master column never
/// empties.
pub open spec fn spec_promote_demote(master_count: int, index: Option<int>, tiles: int) -> (int, bool) {
    match index {
        None => (master_count, false),
        Some(i) => {
            let target = if i < master_count {
                if master_count > 0 {
                    master_count - 1
                } else {
                    0
                }
            } else {
                min(master_count + 1, tiles)
            };
            if target != master_count && target > 0 {
                (target, true)
            } else {
                (master_count, false)
            }
        },
    }
}

/// Moves the tile at `index` into or out of the master column. Reports the
/// new master count and whether it changed.
pub fn promote_demote(master_count: usize, index: Option<usize>, tiles: usize) -> (r: (usize, bool))
    requires
        master_count < usize::MAX,
    ensures
        (r.0 as int, r.1) == spec_promote_demote(
            master_count as int,
            match index {
                Some(i) => Some(i as int),
                None => None,
            },
            tiles as int,
        ),
        master_count > 0 ==> r.0 > 0,
{
    let index = match index {
        Some(i) => i,
        None => {
            return (master_count, false);
        },
    };
    let target = if index < master_count {
        if master_count > 0 {
            master_count - 1
        } else {
            0
        }
    } else {
        let more = master_count + 1;
        if more < tiles {
            more
        } else {
            tiles
        }
    };
    if target != master_count && target > 0 {
        (target, true)
    } else {
        (master_count, false)
    }
}

/// The tile across the master/stack boundary from `from`. Vertical movement
/// stays in the column, which list order already gets right.
pub open spec fn spec_master_neighbour(tiles: Seq<TileInfo>, master_count: int, from: int, dir: Direction) -> Option<WindowId> {
    let masters = min(master_count, tiles.len() as int);
    let in_master = from < masters;
    match dir {
        Direction::Right => if in_master && masters < tiles.len() {
            Some(tiles[masters].id)
        } else {
            None
        },
        Direction::Left => if !in_master && 0 <= masters - 1 < tiles.len() {
            Some(tiles[masters - 1].id)
        } else {
            None
        },
        _ => None,
    }
}

/// The window a horizontal move from `from` lands on.
pub fn master_neighbour(tiles: &[TileInfo], master_count: usize, from: WindowId, dir: Direction) -> (r: Option<WindowId>)
    requires
        master_count >= 1,
    ensures
        match index_of_spec(tiles@, from) {
            Some(i) => r == spec_master_neighbour(tiles@, master_count as int, i, dir),
            None => r is None,
        },
{
    let index = match index_of(tiles, from) {
        Some(i) => i,
        None => {
            return None;
        },
    };
    let masters = if master_count < tiles.len() {
        master_count
    } else {
        tiles.len()
    };
    let in_master = index < masters;
    match dir {
        Direction::Right => if in_master && masters < tiles.len() {
            Some(tiles[masters].id)
        } else {
            None
        },
        Direction::Left => if !in_master && masters >= 1 && masters - 1 < tiles.len() {
            Some(tiles[masters - 1].id)
        } else {
            None
        },
        _ => None,
    }
}

} // verus!
