use crownpositor::geometry::{Point, Rectangle, Size};
use crownpositor::layout::floating::{clamp_into, place, NoTiling};
use crownpositor::layout::{Gaps, LayoutInput, LayoutKind, LayoutOutput, TileInfo};

const CASCADE_STEP: i32 = 32;

fn area(w: i32, h: i32) -> Rectangle {
    Rectangle::new(Point::new(0, 0), Size::new(w, h))
}

fn rect(x: i32, y: i32, w: i32, h: i32) -> Rectangle {
    Rectangle::new(Point::new(x, y), Size::new(w, h))
}

#[test]
fn floating_a_dialog_centers_on_its_parent() {
    let parent = rect(100, 100, 600, 400);
    let rect = place(area(1920, 1080), Size::new(200, 100), Some(parent), 0);
    assert_eq!(rect.loc, Point::new(300, 250));
}

#[test]
fn floating_parentless_windows_cascade() {
    let first = place(area(1920, 1080), Size::new(400, 300), None, 0);
    let second = place(area(1920, 1080), Size::new(400, 300), None, 1);
    assert_ne!(first.loc, second.loc);
    assert_eq!(second.loc.y - first.loc.y, CASCADE_STEP);
}

#[test]
fn floating_the_cascade_wraps_instead_of_walking_off_screen() {
    let first = place(area(1920, 1080), Size::new(400, 300), None, 0);
    let wrapped = place(area(1920, 1080), Size::new(400, 300), None, 8);
    assert_eq!(first.loc, wrapped.loc);
}

#[test]
fn floating_placement_stays_inside_the_area() {
    let parent = rect(1800, 1000, 100, 60);
    let rect = place(area(1920, 1080), Size::new(600, 400), Some(parent), 0);
    assert!(rect.loc.x >= 0 && rect.loc.y >= 0);
    assert!(rect.loc.x + rect.size.w <= 1920);
    assert!(rect.loc.y + rect.size.h <= 1080);
}

#[test]
fn floating_oversized_windows_are_capped_to_the_area() {
    let rect = place(area(800, 600), Size::new(2000, 2000), None, 0);
    assert_eq!(rect.size, Size::new(800, 600));
}

#[test]
fn floating_clamping_moves_but_never_resizes() {
    let r = rect(-50, 900, 400, 300);
    let clamped = clamp_into(r, area(800, 600));
    assert_eq!(clamped.size, r.size);
    assert_eq!(clamped.loc, Point::new(0, 300));
}

#[test]
fn floating_a_window_larger_than_the_area_pins_to_the_origin() {
    let r = rect(50, 50, 1000, 800);
    assert_eq!(clamp_into(r, area(800, 600)).loc, Point::new(0, 0));
}

#[test]
fn a_floating_workspace_still_owes_one_rect_per_tile() {
    let tiles = [TileInfo::new(1), TileInfo::new(2), TileInfo::new(3)];
    let input = LayoutInput { area: area(800, 600), gaps: Gaps::default(), focused: Some(1), tiles: &tiles };
    let mut out = LayoutOutput::default();
    let mut layout = NoTiling;
    assert_eq!(layout.kind(), LayoutKind::Floating);
    layout.layout(&input, &mut out);
    assert_eq!(out.rects, vec![area(800, 600); 3]);
}
