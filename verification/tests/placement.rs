use crownpositor::geometry::{Point, Rectangle, Size};
use crownpositor::layout::placement::{
    clamp_into, honour, initial_rect, keep_reachable, keep_top_reachable, place, CASCADE_STEP,
    REACHABLE,
};

fn area(w: i32, h: i32) -> Rectangle {
    Rectangle::new(Point::new(0, 0), Size::new(w, h))
}

fn rect(x: i32, y: i32, w: i32, h: i32) -> Rectangle {
    Rectangle::new(Point::new(x, y), Size::new(w, h))
}

fn size(w: i32, h: i32) -> Size {
    Size::new(w, h)
}

#[test]
fn a_window_opens_at_the_size_it_asked_for() {
    let rect = initial_rect(size(640, 480), 0, area(1920, 1080), None, 0);
    assert_eq!(rect.size, size(640, 480));
}

#[test]
fn a_client_that_names_no_size_gets_a_fraction_of_the_area() {
    let rect = initial_rect(size(0, 0), 0, area(1000, 1000), None, 0);
    assert_eq!(rect.size, size(600, 600));
}

#[test]
fn one_unset_axis_does_not_discard_the_other() {
    let rect = initial_rect(size(800, 0), 0, area(1000, 1000), None, 0);
    assert_eq!(rect.size, size(800, 600));
}

#[test]
fn a_decorated_window_grows_by_its_titlebar() {
    let rect = initial_rect(size(640, 480), 36, area(1920, 1080), None, 0);
    assert_eq!(rect.size, size(640, 516));
}

/// The case that mattered: a client with no committed geometry reports
/// zero, and adding the titlebar before resolving that would open the
/// window at exactly one titlebar tall.
#[test]
fn an_unset_size_is_resolved_before_the_titlebar_is_added() {
    let rect = initial_rect(size(0, 0), 36, area(1000, 1000), None, 0);
    assert!(
        rect.size.h > 36 * 2,
        "opened {}px tall, which is a titlebar and nothing else",
        rect.size.h
    );
    assert_eq!(rect.size, size(600, 614));
}

#[test]
fn placement_a_dialog_centers_on_its_parent() {
    let parent = rect(100, 100, 600, 400);
    let rect = place(size(200, 100), area(1920, 1080), Some(parent), 0);
    assert_eq!(rect.loc, Point::new(300, 250));
}

#[test]
fn placement_parentless_windows_cascade() {
    let first = place(size(400, 300), area(1920, 1080), None, 0);
    let second = place(size(400, 300), area(1920, 1080), None, 1);
    assert_ne!(first.loc, second.loc);
    assert_eq!(second.loc.y - first.loc.y, CASCADE_STEP);
}

#[test]
fn placement_the_cascade_wraps_instead_of_walking_off_screen() {
    let first = place(size(400, 300), area(1920, 1080), None, 0);
    let wrapped = place(size(400, 300), area(1920, 1080), None, 8);
    assert_eq!(first.loc, wrapped.loc);
}

#[test]
fn placement_placement_stays_inside_the_area() {
    let parent = rect(1800, 1000, 100, 60);
    let rect = place(size(600, 400), area(1920, 1080), Some(parent), 0);
    assert!(rect.loc.x >= 0 && rect.loc.y >= 0);
    assert!(rect.loc.x + rect.size.w <= 1920);
    assert!(rect.loc.y + rect.size.h <= 1080);
}

#[test]
fn placement_oversized_windows_are_capped_to_the_area() {
    let rect = place(size(2000, 2000), area(800, 600), None, 0);
    assert_eq!(rect.size, size(800, 600));
}

#[test]
fn a_window_dragged_off_a_side_keeps_a_strip_on_screen() {
    let far_left = keep_reachable(rect(-5000, 100, 400, 300), area(1000, 800), 36);
    assert_eq!(far_left.loc.x + far_left.size.w, REACHABLE);

    let far_right = keep_reachable(rect(5000, 100, 400, 300), area(1000, 800), 36);
    assert_eq!(far_right.loc.x, 1000 - REACHABLE);
}

#[test]
fn a_window_dragged_off_the_bottom_keeps_its_titlebar() {
    let sunk = keep_reachable(rect(100, 5000, 400, 300), area(1000, 800), 36);
    assert_eq!(sunk.loc.y, 800 - 36, "the whole titlebar stays visible");
}

/// A titlebar above the usable area is behind a panel or off the screen,
/// and either way there is nothing left to click.
#[test]
fn a_window_never_rises_above_the_usable_area() {
    let area = rect(8, 48, 984, 744);
    assert_eq!(keep_reachable(rect(100, -300, 400, 300), area, 36).loc.y, 48);
}

#[test]
fn a_window_already_on_screen_is_left_alone() {
    let inside = rect(100, 100, 400, 300);
    assert_eq!(keep_reachable(inside, area(1000, 800), 36), inside);
}

#[test]
fn keeping_a_window_reachable_never_resizes_it() {
    let dragged = rect(-5000, 5000, 400, 300);
    assert_eq!(keep_reachable(dragged, area(1000, 800), 36).size, dragged.size);
}

/// Nothing to spare, so it stays inside altogether rather than being
/// allowed to hang off by more than its own width.
#[test]
fn a_window_narrower_than_the_margin_stays_wholly_inside() {
    let tiny = keep_reachable(rect(-500, 100, 40, 300), area(1000, 800), 36);
    assert_eq!(tiny.loc.x, 0);
}

/// An area smaller than the margin inverts the bounds, and that must not
/// panic.
#[test]
fn an_area_smaller_than_the_margin_does_not_panic() {
    let squeezed = keep_reachable(rect(5000, 5000, 400, 300), area(20, 20), 36);
    assert_eq!(squeezed.loc, Point::new(20 - REACHABLE, 0));
}

#[test]
fn an_undecorated_window_keeps_a_strip_of_itself() {
    let sunk = keep_reachable(rect(100, 5000, 400, 300), area(1000, 800), 0);
    assert_eq!(sunk.loc.y, 800 - REACHABLE);
}

#[test]
fn a_resize_cannot_pull_the_top_edge_out_of_reach() {
    let area = rect(8, 48, 984, 744);
    let held = keep_top_reachable(rect(100, -52, 400, 500), area);
    assert_eq!(held.loc.y, 48, "the top stops at the usable area");
    assert_eq!(held.loc.y + held.size.h, -52 + 500, "and the edge being dragged against stays put");
}

#[test]
fn a_resize_inside_the_area_is_left_alone() {
    let area = rect(8, 48, 984, 744);
    let inside = rect(100, 100, 400, 300);
    assert_eq!(keep_top_reachable(inside, area), inside);
}

#[test]
fn a_resize_held_at_the_top_never_collapses_to_nothing() {
    let area = rect(0, 500, 1000, 300);
    assert!(keep_top_reachable(rect(0, 0, 400, 10), area).size.h >= 1);
}

#[test]
fn placement_clamping_moves_but_never_resizes() {
    let r = rect(-50, 900, 400, 300);
    let clamped = clamp_into(r, area(800, 600));
    assert_eq!(clamped.size, r.size);
    assert_eq!(clamped.loc, Point::new(0, 300));
}

#[test]
fn placement_a_window_larger_than_the_area_pins_to_the_origin() {
    let r = rect(50, 50, 1000, 800);
    assert_eq!(clamp_into(r, area(800, 600)).loc, Point::new(0, 0));
}

#[test]
fn the_fallback_rounds_six_tenths_of_the_area() {
    assert_eq!(honour(size(0, 0), size(1001, 7)), size(601, 4));
    assert_eq!(honour(size(0, 0), size(1, 0)), size(1, 1));
    assert_eq!(honour(size(5, -3), size(100, 100)), size(5, 60));
}
