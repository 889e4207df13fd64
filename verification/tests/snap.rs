use crownpositor::geometry::{Point, Rectangle, Size};
use crownpositor::layout::snap::{split, EdgeProximity, SnapBounds, SnapZone};
use crownpositor::layout::Gaps;

const GAPS: Gaps = Gaps { inner: 8, outer: 8 };
const NO_GAPS: Gaps = Gaps { inner: 0, outer: 0 };

fn area(w: i32, h: i32) -> Rectangle {
    Rectangle::new(Point::new(0, 0), Size::new(w, h))
}

fn edges() -> EdgeProximity {
    EdgeProximity {
        outside: false,
        near_left: false,
        near_right: false,
        in_top_corner: false,
        in_bottom_corner: false,
        near_top: false,
    }
}

#[test]
fn halves_cover_the_area_with_one_gap_between_them() {
    let (left, right) = (
        SnapZone::LeftHalf.rect(area(1000, 800), GAPS),
        SnapZone::RightHalf.rect(area(1000, 800), GAPS),
    );
    assert_eq!(left.loc.x, 0);
    assert_eq!(right.loc.x - (left.loc.x + left.size.w), GAPS.inner);
    assert_eq!(right.loc.x + right.size.w, 1000);
    assert_eq!(left.size.h, 800, "a half spans the full height");
    assert_eq!(right.size.h, 800);
}

/// An odd width must not leave a one-pixel stripe of background.
#[test]
fn an_odd_extent_still_covers_exactly() {
    let left = SnapZone::LeftHalf.rect(area(999, 800), NO_GAPS);
    let right = SnapZone::RightHalf.rect(area(999, 800), NO_GAPS);
    assert_eq!(left.size.w + right.size.w, 999);
    assert_eq!(right.loc.x, left.size.w);
}

#[test]
fn quarters_tile_the_area() {
    let zones = [SnapZone::TopLeft, SnapZone::TopRight, SnapZone::BottomLeft, SnapZone::BottomRight];
    let rects: Vec<_> = zones.iter().map(|zone| zone.rect(area(1000, 800), NO_GAPS)).collect();
    let covered: i32 = rects.iter().map(|rect| rect.size.w * rect.size.h).sum();
    assert_eq!(covered, 1000 * 800, "the four quarters cover the area");
    assert_eq!(rects[0].loc, Point::new(0, 0));
    assert_eq!(rects[3].loc, Point::new(500, 400));
}

#[test]
fn maximize_takes_the_whole_area() {
    assert_eq!(SnapZone::Maximize.rect(area(1000, 800), GAPS), area(1000, 800));
}

/// ...and what it lands in is still the usable area, so a maximized window
/// does not cover the bar it snapped past.
#[test]
fn a_snap_lands_below_the_panel_it_snapped_past() {
    let usable = Rectangle::new(Point::new(8, 48), Size::new(984, 744));
    let bounds = SnapBounds { output: area(1000, 800), area: usable, gaps: GAPS };
    assert_eq!(bounds.rect(SnapZone::Maximize), usable);
    assert_eq!(bounds.rect(SnapZone::LeftHalf).loc.y, usable.loc.y);
}

#[test]
fn the_leading_half_takes_the_odd_pixel() {
    assert_eq!(split(999, 0), (500, 499));
    assert_eq!(split(1000, 8), (496, 496));
    assert_eq!(split(3, 8), (1, 1), "never below a pixel each");
}

#[test]
fn a_side_edge_gives_a_half() {
    assert_eq!(SnapZone::for_edges(EdgeProximity { near_left: true, ..edges() }), Some(SnapZone::LeftHalf));
    assert_eq!(SnapZone::for_edges(EdgeProximity { near_right: true, ..edges() }), Some(SnapZone::RightHalf));
}

/// The corners belong to the vertical edges, so the very top left is a
/// quarter and not a maximize.
#[test]
fn a_corner_beats_the_top_edge() {
    let top_left = EdgeProximity { near_left: true, in_top_corner: true, near_top: true, ..edges() };
    assert_eq!(SnapZone::for_edges(top_left), Some(SnapZone::TopLeft));
    let bottom_right = EdgeProximity { near_right: true, in_bottom_corner: true, ..edges() };
    assert_eq!(SnapZone::for_edges(bottom_right), Some(SnapZone::BottomRight));
}

#[test]
fn the_top_edge_maximizes_and_the_middle_is_not_a_zone() {
    assert_eq!(SnapZone::for_edges(EdgeProximity { near_top: true, ..edges() }), Some(SnapZone::Maximize));
    assert_eq!(SnapZone::for_edges(edges()), None);
    assert_eq!(SnapZone::for_edges(EdgeProximity { outside: true, near_left: true, ..edges() }), None);
}
