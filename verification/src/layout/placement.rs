//! Where a floating window goes, and how it is kept on screen.
//!
//! The size a window opens at is the client's own: a floating workspace is not
//! a layout, and a compositor that picks the size defeats the point. Only the
//! *position* is decided here, and only the position is corrected afterwards.
//!
//! Every function computes in `i32` as the rectangles do; each states, as its
//! precondition, that the sums it forms stay inside that range.

use vstd::prelude::*;

use crate::geometry::{clamp, fits, max, min, Point, Rectangle, Size};

verus! {

/// Offset between successive cascaded windows.
pub const CASCADE_STEP: i32 = 32;

/// How far a cascade walks before returning to the top left.
pub const CASCADE_LIMIT: i32 = 8;

/// How much of a window has to stay inside the usable area to be caught again
/// — roughly a thumb's width of titlebar, enough to aim at without hunting.
pub const REACHABLE: i32 = 64;

/// Halving rounded toward zero, as integer division does.
pub open spec fn half(v: int) -> int {
    if v >= 0 {
        v / 2
    } else {
        -((-v) / 2)
    }
}

pub open spec fn pt(x: int, y: int) -> Point {
    Point { x: x as i32, y: y as i32 }
}

pub open spec fn sz(w: int, h: int) -> Size {
    Size { w: w as i32, h: h as i32 }
}

/// Where `size` sits centred in `within`.
pub open spec fn spec_center_in(within: Rectangle, size: Size) -> Point {
    pt(
        within.loc.x + half(within.size.w - size.w),
        within.loc.y + half(within.size.h - size.h),
    )
}

pub open spec fn center_fits(within: Rectangle, size: Size) -> bool {
    &&& fits(within.size.w - size.w)
    &&& fits(within.size.h - size.h)
    &&& fits(within.loc.x + half(within.size.w - size.w))
    &&& fits(within.loc.y + half(within.size.h - size.h))
}

fn halve(v: i32) -> (r: i32)
    ensures
        r == half(v as int),
{
    if v >= 0 {
        v / 2
    } else {
        let m = -(v as i64);
        -((m / 2) as i32)
    }
}

/// Where `size` sits centred in `within`.
pub fn center_in(within: Rectangle, size: Size) -> (p: Point)
    requires
        center_fits(within, size),
    ensures
        p == spec_center_in(within, size),
{
    Point {
        x: within.loc.x + halve(within.size.w - size.w),
        y: within.loc.y + halve(within.size.h - size.h),
    }
}

/// A floating rect moved back on screen: the location is held inside the
/// area as far as the window fits in it, and pinned to the area's top left
/// where it does not. The size never changes.
pub open spec fn spec_clamp_into(r: Rectangle, area: Rectangle) -> Rectangle {
    let max_x = max(area.loc.x + area.size.w - r.size.w, area.loc.x as int);
    let max_y = max(area.loc.y + area.size.h - r.size.h, area.loc.y as int);
    Rectangle {
        loc: pt(clamp(r.loc.x as int, area.loc.x as int, max_x), clamp(r.loc.y as int, area.loc.y as int, max_y)),
        size: r.size,
    }
}

pub open spec fn clamp_fits(r: Rectangle, area: Rectangle) -> bool {
    &&& fits(area.loc.x + area.size.w)
    &&& fits(area.loc.y + area.size.h)
    &&& fits(area.loc.x + area.size.w - r.size.w)
    &&& fits(area.loc.y + area.size.h - r.size.h)
}

/// Keeps a floating rect on screen. Only the location moves — resizing a window
/// because it drifted would be a surprising thing to do to a dialog.
pub fn clamp_into(r: Rectangle, area: Rectangle) -> (c: Rectangle)
    requires
        clamp_fits(r, area),
    ensures
        c == spec_clamp_into(r, area),
{
    let far_x = area.loc.x + area.size.w - r.size.w;
    let max_x = if far_x > area.loc.x {
        far_x
    } else {
        area.loc.x
    };
    let far_y = area.loc.y + area.size.h - r.size.h;
    let max_y = if far_y > area.loc.y {
        far_y
    } else {
        area.loc.y
    };
    let x = if r.loc.x < area.loc.x {
        area.loc.x
    } else if r.loc.x > max_x {
        max_x
    } else {
        r.loc.x
    };
    let y = if r.loc.y < area.loc.y {
        area.loc.y
    } else if r.loc.y > max_y {
        max_y
    } else {
        r.loc.y
    };
    Rectangle { loc: Point { x, y }, size: r.size }
}

/// A window's size capped to the area: there is nowhere to put the overhang.
pub open spec fn capped(size: Size, area: Rectangle) -> Size {
    sz(min(size.w as int, area.size.w as int), min(size.h as int, area.size.h as int))
}

/// How far down and right the `cascade`-th parentless window starts.
pub open spec fn cascade_step(cascade: usize) -> int {
    (cascade % (CASCADE_LIMIT as usize)) as int * CASCADE_STEP
}

/// The corner a window of `size` is placed at before it is clamped.
pub open spec fn placed_loc(size: Size, area: Rectangle, parent: Option<Rectangle>, cascade: usize) -> Point {
    let s = capped(size, area);
    match parent {
        Some(p) => spec_center_in(p, s),
        None => {
            let step = cascade_step(cascade);
            let centered = spec_center_in(area, s);
            pt(min(centered.x as int, area.loc.x + step), area.loc.y + step)
        },
    }
}

/// Where a floating window of `size` goes.
pub open spec fn spec_place(size: Size, area: Rectangle, parent: Option<Rectangle>, cascade: usize) -> Rectangle {
    spec_clamp_into(
        Rectangle { loc: placed_loc(size, area, parent, cascade), size: capped(size, area) },
        area,
    )
}

pub open spec fn place_fits(size: Size, area: Rectangle, parent: Option<Rectangle>, cascade: usize) -> bool {
    let s = capped(size, area);
    &&& match parent {
        Some(p) => center_fits(p, s),
        None => {
            &&& center_fits(area, s)
            &&& fits(area.loc.x + cascade_step(cascade))
            &&& fits(area.loc.y + cascade_step(cascade))
        },
    }
    &&& clamp_fits(Rectangle { loc: placed_loc(size, area, parent, cascade), size: s }, area)
}

/// Where a floating window of `size` goes.
///
/// Centred on its parent when it has one — a dialog belongs over the window that
/// opened it — otherwise cascaded from the top left so a burst of windows does
/// not land in one stack.
pub fn place(size: Size, area: Rectangle, parent: Option<Rectangle>, cascade: usize) -> (r: Rectangle)
    requires
        place_fits(size, area, parent, cascade),
    ensures
        r == spec_place(size, area, parent, cascade),
{
    // A window larger than the screen is capped: there is nowhere to put the
    // overhang, and the client will be told the size it actually got.
    let capped = Size {
        w: if size.w < area.size.w {
            size.w
        } else {
            area.size.w
        },
        h: if size.h < area.size.h {
            size.h
        } else {
            area.size.h
        },
    };
    let loc = match parent {
        Some(p) => center_in(p, capped),
        None => {
            let step = ((cascade % (CASCADE_LIMIT as usize)) as i32) * CASCADE_STEP;
            let centered = center_in(area, capped);
            let left = area.loc.x + step;
            Point {
                x: if centered.x < left {
                    centered.x
                } else {
                    left
                },
                y: area.loc.y + step,
            }
        },
    };
    clamp_into(Rectangle { loc, size: capped }, area)
}

/// What a window opens at along one axis when the client named nothing:
/// `round(0.6 · extent)`, and at least one pixel.
pub open spec fn fallback_extent(extent: int) -> int {
    if extent > 0 {
        max(1, (6 * extent + 5) / 10)
    } else {
        1
    }
}

fn fallback(extent: i32) -> (r: i32)
    ensures
        r == fallback_extent(extent as int),
{
    if extent > 0 {
        let v = ((6 * (extent as i64) + 5) / 10) as i32;
        if v > 1 {
            v
        } else {
            1
        }
    } else {
        1
    }
}

/// The client's size where it gave one, a fraction of the area where it did not.
pub open spec fn spec_honour(requested: Size, area: Size) -> Size {
    sz(
        if requested.w > 0 {
            requested.w as int
        } else {
            fallback_extent(area.w as int)
        },
        if requested.h > 0 {
            requested.h as int
        } else {
            fallback_extent(area.h as int)
        },
    )
}

/// The client's size where it gave one, a fraction of the area where it did not.
pub fn honour(requested: Size, area: Size) -> (s: Size)
    ensures
        s == spec_honour(requested, area),
{
    Size {
        w: if requested.w > 0 {
            requested.w
        } else {
            fallback(area.w)
        },
        h: if requested.h > 0 {
            requested.h
        } else {
            fallback(area.h)
        },
    }
}

/// The room a window's contents have under its titlebar.
pub open spec fn available(area: Rectangle, decoration: i32) -> Size {
    sz(area.size.w as int, max(area.size.h - decoration, 1))
}

/// The size a new window opens at, titlebar included.
pub open spec fn opened_size(content: Size, decoration: i32, area: Rectangle) -> Size {
    let c = spec_honour(content, available(area, decoration));
    sz(c.w as int, c.h + decoration)
}

pub open spec fn initial_fits(content: Size, decoration: i32, area: Rectangle, parent: Option<Rectangle>, cascade: usize) -> bool {
    &&& fits(area.size.h - decoration)
    &&& fits(spec_honour(content, available(area, decoration)).h + decoration)
    &&& place_fits(opened_size(content, decoration, area), area, parent, cascade)
}

/// The rect a newly floated window opens at, decoration included.
///
/// `content` is the size the client committed, and a zero component means it
/// has not said — the only case where the compositor picks one. `decoration` is
/// the height of the band drawn above it, added *after* that decision: a client
/// that has committed nothing yet reports zero, and a zero plus a titlebar
/// looks exactly like a window that asked to be one titlebar tall.
pub fn initial_rect(content: Size, decoration: i32, area: Rectangle, parent: Option<Rectangle>, cascade: usize) -> (r: Rectangle)
    requires
        initial_fits(content, decoration, area, parent, cascade),
    ensures
        r == spec_place(opened_size(content, decoration, area), area, parent, cascade),
{
    let below = area.size.h - decoration;
    let room = Size {
        w: area.size.w,
        h: if below > 1 {
            below
        } else {
            1
        },
    };
    let content = honour(content, room);
    place(Size { w: content.w, h: content.h + decoration }, area, parent, cascade)
}

/// A dragged window held where enough of it can still be caught.
pub open spec fn spec_keep_reachable(r: Rectangle, area: Rectangle, decoration: i32) -> Rectangle {
    let band = if decoration > 0 {
        decoration as int
    } else {
        REACHABLE as int
    };
    let grip = min(band, max(r.size.h as int, 1));
    let across = min(REACHABLE as int, r.size.w as int);
    let min_x = area.loc.x + across - r.size.w;
    let max_x = max(area.loc.x + area.size.w - across, min_x);
    let min_y = area.loc.y as int;
    let max_y = max(area.loc.y + area.size.h - grip, min_y);
    Rectangle { loc: pt(clamp(r.loc.x as int, min_x, max_x), clamp(r.loc.y as int, min_y, max_y)), size: r.size }
}

pub open spec fn reachable_fits(r: Rectangle, area: Rectangle, decoration: i32) -> bool {
    let band = if decoration > 0 {
        decoration as int
    } else {
        REACHABLE as int
    };
    let grip = min(band, max(r.size.h as int, 1));
    let across = min(REACHABLE as int, r.size.w as int);
    &&& fits(area.loc.x + across)
    &&& fits(area.loc.x + across - r.size.w)
    &&& fits(area.loc.x + area.size.w)
    &&& fits(area.loc.x + area.size.w - across)
    &&& fits(area.loc.y + area.size.h)
    &&& fits(area.loc.y + area.size.h - grip)
}

/// Holds back the strip of a window the user catches it by.
///
/// Not [`clamp_into`]: a dragged window may hang as far off an edge as the
/// pointer takes it, and only enough to grab is kept inside. Without a floor a
/// window dragged past the bottom is gone for good — there is nothing left on
/// screen to click, and no way to bring it back.
///
/// The top is the exception and is held completely: a titlebar above the usable
/// area is behind a panel or off the screen, and either way cannot be clicked.
pub fn keep_reachable(r: Rectangle, area: Rectangle, decoration: i32) -> (k: Rectangle)
    requires
        reachable_fits(r, area, decoration),
    ensures
        k == spec_keep_reachable(r, area, decoration),
{
    let band = if decoration > 0 {
        decoration
    } else {
        REACHABLE
    };
    let tall = if r.size.h > 1 {
        r.size.h
    } else {
        1
    };
    let grip = if band < tall {
        band
    } else {
        tall
    };
    let across = if REACHABLE < r.size.w {
        REACHABLE
    } else {
        r.size.w
    };
    let min_x = area.loc.x + across - r.size.w;
    let far_x = area.loc.x + area.size.w - across;
    let max_x = if far_x > min_x {
        far_x
    } else {
        min_x
    };
    let min_y = area.loc.y;
    let far_y = area.loc.y + area.size.h - grip;
    let max_y = if far_y > min_y {
        far_y
    } else {
        min_y
    };
    let x = if r.loc.x < min_x {
        min_x
    } else if r.loc.x > max_x {
        max_x
    } else {
        r.loc.x
    };
    let y = if r.loc.y < min_y {
        min_y
    } else if r.loc.y > max_y {
        max_y
    } else {
        r.loc.y
    };
    Rectangle { loc: Point { x, y }, size: r.size }
}

/// A resized window with its top edge held inside the area and its bottom
/// edge where the user left it.
pub open spec fn spec_keep_top_reachable(r: Rectangle, area: Rectangle) -> Rectangle {
    let overshoot = max(area.loc.y - r.loc.y, 0);
    Rectangle {
        loc: pt(r.loc.x as int, r.loc.y + overshoot),
        size: sz(r.size.w as int, max(r.size.h - overshoot, 1)),
    }
}

pub open spec fn top_fits(r: Rectangle, area: Rectangle) -> bool {
    &&& fits(area.loc.y - r.loc.y)
    &&& fits(r.size.h - max(area.loc.y - r.loc.y, 0))
}

/// Stops a resize dragging a window's top edge out of reach, keeping the
/// opposite edge where the user left it.
///
/// [`keep_reachable`] cannot do this job: it moves a window without resizing
/// it, and moving one mid-resize would drag the anchored edge along too.
pub fn keep_top_reachable(r: Rectangle, area: Rectangle) -> (k: Rectangle)
    requires
        top_fits(r, area),
    ensures
        k == spec_keep_top_reachable(r, area),
{
    let above = area.loc.y - r.loc.y;
    let overshoot = if above > 0 {
        above
    } else {
        0
    };
    let left = r.size.h - overshoot;
    Rectangle {
        loc: Point { x: r.loc.x, y: r.loc.y + overshoot },
        size: Size {
            w: r.size.w,
            h: if left > 1 {
                left
            } else {
                1
            },
        },
    }
}

/// Whatever fits the area stays wholly inside it after a clamp, and the size
/// never changes.
pub proof fn lemma_clamp_keeps_inside(r: Rectangle, area: Rectangle)
    requires
        clamp_fits(r, area),
        0 <= r.size.w <= area.size.w,
        0 <= r.size.h <= area.size.h,
    ensures
        spec_clamp_into(r, area).size == r.size,
        area.loc.x <= spec_clamp_into(r, area).loc.x,
        spec_clamp_into(r, area).loc.x + r.size.w <= area.loc.x + area.size.w,
        area.loc.y <= spec_clamp_into(r, area).loc.y,
        spec_clamp_into(r, area).loc.y + r.size.h <= area.loc.y + area.size.h,
{
}

/// A placed window is no larger than the area and, when the area has room for
/// it, lies wholly inside.
pub proof fn lemma_place_inside(size: Size, area: Rectangle, parent: Option<Rectangle>, cascade: usize)
    requires
        place_fits(size, area, parent, cascade),
        size.w >= 0,
        size.h >= 0,
        area.size.w >= 0,
        area.size.h >= 0,
    ensures
        spec_place(size, area, parent, cascade).size == capped(size, area),
        area.loc.x <= spec_place(size, area, parent, cascade).loc.x,
        spec_place(size, area, parent, cascade).loc.x + capped(size, area).w <= area.loc.x
            + area.size.w,
        area.loc.y <= spec_place(size, area, parent, cascade).loc.y,
        spec_place(size, area, parent, cascade).loc.y + capped(size, area).h <= area.loc.y
            + area.size.h,
{
    let s = capped(size, area);
    lemma_clamp_keeps_inside(Rectangle { loc: placed_loc(size, area, parent, cascade), size: s }, area);
}

/// The cascade comes back round: the window after the last step lands where
/// the first did, so only the count modulo the cascade's length matters.
pub proof fn lemma_cascade_wraps(size: Size, area: Rectangle, cascade: usize)
    requires
        cascade + (CASCADE_LIMIT as usize) <= usize::MAX,
    ensures
        spec_place(size, area, None, cascade) == spec_place(
            size,
            area,
            None,
            (cascade + CASCADE_LIMIT as usize) as usize,
        ),
        spec_place(size, area, None, cascade) == spec_place(
            size,
            area,
            None,
            (cascade % (CASCADE_LIMIT as usize)) as usize,
        ),
{
    assert((cascade + 8) % 8 == cascade % 8);
    assert((cascade % 8) % 8 == cascade % 8);
}

/// A window kept reachable never changes size, and a window already inside
/// the area is left where it is.
pub proof fn lemma_reachable_leaves_inside_alone(r: Rectangle, area: Rectangle, decoration: i32)
    requires
        reachable_fits(r, area, decoration),
        r.size.w >= 0,
        r.size.h >= 1,
        area.loc.x <= r.loc.x,
        r.loc.x + r.size.w <= area.loc.x + area.size.w,
        area.loc.y <= r.loc.y,
        r.loc.y + r.size.h <= area.loc.y + area.size.h,
    ensures
        spec_keep_reachable(r, area, decoration) == r,
{
}

/// What a dragged window keeps within reach: it never changes size, never
/// rises above the usable area, and, where the area has the room, keeps its
/// whole grip band above the bottom edge and a strip of its width inside
/// each side.
pub proof fn lemma_reachable_keeps_a_grip(r: Rectangle, area: Rectangle, decoration: i32)
    requires
        reachable_fits(r, area, decoration),
        r.size.w >= 0,
    ensures
        ({
            let k = spec_keep_reachable(r, area, decoration);
            let band = if decoration > 0 {
                decoration as int
            } else {
                REACHABLE as int
            };
            let grip = min(band, max(r.size.h as int, 1));
            let across = min(REACHABLE as int, r.size.w as int);
            &&& k.size == r.size
            &&& k.loc.y >= area.loc.y
            &&& (area.size.h >= grip ==> k.loc.y + grip <= area.loc.y + area.size.h)
            &&& (area.size.w >= across ==> k.loc.x + r.size.w >= area.loc.x + across
                && k.loc.x <= area.loc.x + area.size.w - across)
        }),
{
}

/// A resize held at the top: its top edge stays inside the usable area, it
/// keeps at least a pixel of height, its sides do not move, and — unless the
/// window would otherwise vanish — its bottom edge stays where the user left
/// it.
pub proof fn lemma_top_held(r: Rectangle, area: Rectangle)
    requires
        top_fits(r, area),
    ensures
        ({
            let k = spec_keep_top_reachable(r, area);
            let overshoot = max(area.loc.y - r.loc.y, 0);
            &&& k.loc.y >= area.loc.y
            &&& k.size.h >= 1
            &&& k.loc.x == r.loc.x && k.size.w == r.size.w
            &&& (r.size.h - overshoot >= 1 ==> k.loc.y + k.size.h == r.loc.y + r.size.h)
        }),
{
}

} // verus!
