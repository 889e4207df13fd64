//! Drag-to-edge tiling for floating windows: given a zone, name its rect.

use vstd::prelude::*;

use crate::geometry::{fits, rect, Rectangle};
use crate::layout::Gaps;

verus! {

/// What a snap is measured against.
///
/// Two rectangles, because the user aims at one and the window lands in the
/// other: a zone is found at the edge of the *screen*, while the window itself
/// lands in the usable area so it never covers a panel.
#[derive(Debug, Clone, Copy, PartialEq, Eq, Structural)]
pub struct SnapBounds {
    /// The whole output, workspace-local.
    pub output: Rectangle,
    /// Exclusive zones and the outer gap already subtracted.
    pub area: Rectangle,
    pub gaps: Gaps,
}

/// Where a dragged window would land if it were released now.
#[derive(Debug, Clone, Copy, PartialEq, Eq, Structural)]
pub enum SnapZone {
    LeftHalf,
    RightHalf,
    TopLeft,
    TopRight,
    BottomLeft,
    BottomRight,
    /// The top edge. Resolves to the ordinary maximized state.
    Maximize,
}

/// The leading half of `extent` split around `gap`; it takes the odd pixel.
pub open spec fn split_lead(extent: int, gap: int) -> int {
    let usable = if extent - gap >= 2 {
        extent - gap
    } else {
        2
    };
    usable - usable / 2
}

/// The trailing half.
pub open spec fn split_trail(extent: int, gap: int) -> int {
    let usable = if extent - gap >= 2 {
        extent - gap
    } else {
        2
    };
    usable / 2
}

/// Two extents separated by `gap`, together covering `extent` exactly. The
/// leading half takes the odd pixel.
pub fn split(extent: i32, gap: i32) -> (r: (i32, i32))
    requires
        fits(extent - gap),
    ensures
        r.0 == split_lead(extent as int, gap as int),
        r.1 == split_trail(extent as int, gap as int),
{
    let usable = if extent - gap >= 2 {
        extent - gap
    } else {
        2
    };
    (usable - usable / 2, usable / 2)
}

/// The rect `zone` occupies inside `area`.
pub open spec fn spec_zone_rect(zone: SnapZone, area: Rectangle, gaps: Gaps) -> Rectangle {
    let left = split_lead(area.size.w as int, gaps.inner as int);
    let right = split_trail(area.size.w as int, gaps.inner as int);
    let top = split_lead(area.size.h as int, gaps.inner as int);
    let bottom = split_trail(area.size.h as int, gaps.inner as int);
    let x_start = area.loc.x as int;
    let x_mid = area.loc.x + left + gaps.inner;
    let y_start = area.loc.y as int;
    let y_mid = area.loc.y + top + gaps.inner;
    match zone {
        SnapZone::Maximize => area,
        SnapZone::LeftHalf => rect(x_start, y_start, left, area.size.h as int),
        SnapZone::RightHalf => rect(x_mid, y_start, right, area.size.h as int),
        SnapZone::TopLeft => rect(x_start, y_start, left, top),
        SnapZone::TopRight => rect(x_mid, y_start, right, top),
        SnapZone::BottomLeft => rect(x_start, y_mid, left, bottom),
        SnapZone::BottomRight => rect(x_mid, y_mid, right, bottom),
    }
}

/// Every coordinate a zone's rect is built from fits in an `i32`.
pub open spec fn zone_fits(area: Rectangle, gaps: Gaps) -> bool {
    &&& fits(area.size.w - gaps.inner)
    &&& fits(area.size.h - gaps.inner)
    &&& fits(area.loc.x + split_lead(area.size.w as int, gaps.inner as int))
    &&& fits(area.loc.y + split_lead(area.size.h as int, gaps.inner as int))
    &&& fits(area.loc.x + split_lead(area.size.w as int, gaps.inner as int) + gaps.inner)
    &&& fits(area.loc.y + split_lead(area.size.h as int, gaps.inner as int) + gaps.inner)
}

impl SnapZone {
    /// The rect this zone occupies inside `area`.
    ///
    /// Halves and quarters are separated by the inner gap and cover the area
    /// exactly, so two snapped windows line up with what the tiling layout
    /// would have produced.
    pub fn rect(self, area: Rectangle, gaps: Gaps) -> (r: Rectangle)
        requires
            zone_fits(area, gaps),
        ensures
            r == spec_zone_rect(self, area, gaps),
    {
        let (left, right) = split(area.size.w, gaps.inner);
        let (top, bottom) = split(area.size.h, gaps.inner);
        let x_start = area.loc.x;
        let x_mid = area.loc.x + left + gaps.inner;
        let y_start = area.loc.y;
        let y_mid = area.loc.y + top + gaps.inner;
        match self {
            SnapZone::Maximize => area,
            SnapZone::LeftHalf => Rectangle::from_parts(x_start, y_start, left, area.size.h),
            SnapZone::RightHalf => Rectangle::from_parts(x_mid, y_start, right, area.size.h),
            SnapZone::TopLeft => Rectangle::from_parts(x_start, y_start, left, top),
            SnapZone::TopRight => Rectangle::from_parts(x_mid, y_start, right, top),
            SnapZone::BottomLeft => Rectangle::from_parts(x_start, y_mid, left, bottom),
            SnapZone::BottomRight => Rectangle::from_parts(x_mid, y_mid, right, bottom),
        }
    }
}

/// What the pointer's position says about the edges of the output, measured
/// by the caller against the output's own rectangle.
#[derive(Debug, Clone, Copy, PartialEq, Eq, Structural)]
pub struct EdgeProximity {
    /// The pointer is beyond the output's reach altogether — on another
    /// output, or the output is empty.
    pub outside: bool,
    pub near_left: bool,
    pub near_right: bool,
    /// Within the corner span of the top.
    pub in_top_corner: bool,
    /// Within the corner span of the bottom.
    pub in_bottom_corner: bool,
    /// Against the top edge itself.
    pub near_top: bool,
}

pub open spec fn spec_zone_for(e: EdgeProximity) -> Option<SnapZone> {
    if e.outside {
        None
    } else if e.near_left {
        Some(
            if e.in_top_corner {
                SnapZone::TopLeft
            } else if e.in_bottom_corner {
                SnapZone::BottomLeft
            } else {
                SnapZone::LeftHalf
            },
        )
    } else if e.near_right {
        Some(
            if e.in_top_corner {
                SnapZone::TopRight
            } else if e.in_bottom_corner {
                SnapZone::BottomRight
            } else {
                SnapZone::RightHalf
            },
        )
    } else if e.near_top {
        Some(SnapZone::Maximize)
    } else {
        None
    }
}

impl SnapZone {
    /// The zone a pointer is in. The vertical edges are tested first, so the
    /// very corner of the screen — near the left edge *and* the top — gives a
    /// quarter rather than a maximize.
    pub fn for_edges(e: EdgeProximity) -> (z: Option<SnapZone>)
        ensures
            z == spec_zone_for(e),
    {
        if e.outside {
            None
        } else if e.near_left {
            Some(
                if e.in_top_corner {
                    SnapZone::TopLeft
                } else if e.in_bottom_corner {
                    SnapZone::BottomLeft
                } else {
                    SnapZone::LeftHalf
                },
            )
        } else if e.near_right {
            Some(
                if e.in_top_corner {
                    SnapZone::TopRight
                } else if e.in_bottom_corner {
                    SnapZone::BottomRight
                } else {
                    SnapZone::RightHalf
                },
            )
        } else if e.near_top {
            Some(SnapZone::Maximize)
        } else {
            None
        }
    }
}

impl SnapBounds {
    /// The rect `zone` lands in: always inside the usable area.
    pub fn rect(self, zone: SnapZone) -> (r: Rectangle)
        requires
            zone_fits(self.area, self.gaps),
        ensures
            r == spec_zone_rect(zone, self.area, self.gaps),
    {
        zone.rect(self.area, self.gaps)
    }
}

/// The two halves, and the two quarters along either axis, meet with one
/// inner gap between them and end exactly at the area's far edge whenever
/// the area is wider (and taller) than that gap plus two pixels.
pub proof fn lemma_halves_cover(area: Rectangle, gaps: Gaps)
    requires
        zone_fits(area, gaps),
        area.size.w - gaps.inner >= 2,
        area.size.h - gaps.inner >= 2,
    ensures
        ({
            let l = spec_zone_rect(SnapZone::LeftHalf, area, gaps);
            let r = spec_zone_rect(SnapZone::RightHalf, area, gaps);
            &&& l.loc.x == area.loc.x
            &&& r.loc.x - (l.loc.x + l.size.w) == gaps.inner
            &&& r.loc.x + r.size.w == area.loc.x + area.size.w
            &&& l.size.h == area.size.h && r.size.h == area.size.h
        }),
        ({
            let t = spec_zone_rect(SnapZone::TopLeft, area, gaps);
            let b = spec_zone_rect(SnapZone::BottomLeft, area, gaps);
            &&& t.loc.y == area.loc.y
            &&& b.loc.y - (t.loc.y + t.size.h) == gaps.inner
            &&& b.loc.y + b.size.h == area.loc.y + area.size.h
        }),
{
}

/// The same zone seen in a mirror: left and right swap, top and bottom stay.
pub open spec fn mirrored(z: SnapZone) -> SnapZone {
    match z {
        SnapZone::LeftHalf => SnapZone::RightHalf,
        SnapZone::RightHalf => SnapZone::LeftHalf,
        SnapZone::TopLeft => SnapZone::TopRight,
        SnapZone::TopRight => SnapZone::TopLeft,
        SnapZone::BottomLeft => SnapZone::BottomRight,
        SnapZone::BottomRight => SnapZone::BottomLeft,
        SnapZone::Maximize => SnapZone::Maximize,
    }
}

/// The pointer's proximity with the left and right edges swapped.
pub open spec fn swapped_sides(e: EdgeProximity) -> EdgeProximity {
    EdgeProximity { near_left: e.near_right, near_right: e.near_left, ..e }
}

/// A zone is on the side of the edge the pointer is at: at the right edge
/// alone it is the right half or one of the right quarters — the top one in
/// the top corner, the bottom one in the bottom corner — and at the left edge
/// it is the left counterpart. Against the top edge only, it maximizes;
/// anywhere else, and off the output, there is no zone.
pub proof fn lemma_zone_follows_the_edge(e: EdgeProximity)
    ensures
        e.outside ==> spec_zone_for(e) is None,
        !e.outside && e.near_right && !e.near_left ==> {
            &&& spec_zone_for(e) matches Some(z) && (z == SnapZone::RightHalf || z
                == SnapZone::TopRight || z == SnapZone::BottomRight)
            &&& e.in_top_corner ==> spec_zone_for(e) == Some(SnapZone::TopRight)
            &&& !e.in_top_corner && e.in_bottom_corner ==> spec_zone_for(e) == Some(
                SnapZone::BottomRight,
            )
            &&& !e.in_top_corner && !e.in_bottom_corner ==> spec_zone_for(e) == Some(
                SnapZone::RightHalf,
            )
        },
        !e.outside && e.near_left ==> {
            &&& spec_zone_for(e) matches Some(z) && (z == SnapZone::LeftHalf || z
                == SnapZone::TopLeft || z == SnapZone::BottomLeft)
            &&& e.in_top_corner ==> spec_zone_for(e) == Some(SnapZone::TopLeft)
            &&& !e.in_top_corner && e.in_bottom_corner ==> spec_zone_for(e) == Some(
                SnapZone::BottomLeft,
            )
            &&& !e.in_top_corner && !e.in_bottom_corner ==> spec_zone_for(e) == Some(
                SnapZone::LeftHalf,
            )
        },
        !e.outside && !e.near_left && !e.near_right ==> spec_zone_for(e) == (if e.near_top {
            Some(SnapZone::Maximize)
        } else {
            None
        }),
{
}

/// Mirroring the pointer mirrors the zone: the same position reflected
/// across the output's vertical midline snaps to the reflected zone.
pub proof fn lemma_zone_mirrors(e: EdgeProximity)
    requires
        !(e.near_left && e.near_right),
    ensures
        spec_zone_for(swapped_sides(e)) == (match spec_zone_for(e) {
            Some(z) => Some(mirrored(z)),
            None => None,
        }),
{
}

/// A zone found at the right edge lands in the right-hand column of the
/// usable area: it starts where the right half starts, one gap after the
/// left half ends, and reaches the area's right edge.
pub proof fn lemma_right_edge_lands_right(e: EdgeProximity, area: Rectangle, gaps: Gaps)
    requires
        !e.outside && e.near_right && !e.near_left,
        zone_fits(area, gaps),
        area.size.w - gaps.inner >= 2,
    ensures
        ({
            let r = spec_zone_rect(spec_zone_for(e)->0, area, gaps);
            let l = spec_zone_rect(SnapZone::LeftHalf, area, gaps);
            &&& r.loc.x == l.loc.x + l.size.w + gaps.inner
            &&& r.loc.x + r.size.w == area.loc.x + area.size.w
            &&& e.in_top_corner ==> r.loc.y == area.loc.y
        }),
{
}

} // verus!
