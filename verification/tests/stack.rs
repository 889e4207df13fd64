use crownpositor::geometry::{Point, Rectangle, Size};
use crownpositor::rendering::stack::GlassStack;

fn rect(x: i32, y: i32, w: i32, h: i32) -> Rectangle {
    Rectangle::new(Point::new(x, y), Size::new(w, h))
}

/// A backdrop's own rectangle doubles as its mask, as a whole-window piece's
/// does.
fn occlude(stack: &mut GlassStack, geometry: Rectangle, radius: i32, opaque: bool) -> Vec<Rectangle> {
    stack.occlude(geometry, radius, opaque, geometry)
}

#[test]
fn the_first_piece_of_glass_is_occluded_by_nothing() {
    let mut stack = GlassStack::new();
    assert!(occlude(&mut stack, rect(0, 0, 200, 40), 0, true).is_empty());
}

/// The bar does not paint glass where the popup's own glass will stand.
#[test]
fn a_piece_under_opaque_glass_gives_up_the_overlap() {
    let mut stack = GlassStack::new();
    occlude(&mut stack, rect(50, 20, 60, 100), 0, true);
    assert_eq!(occlude(&mut stack, rect(0, 0, 200, 40), 0, true), vec![rect(51, 21, 58, 19)]);
}

/// Glass mid-fade still shows what is under it, so the piece below has to
/// keep drawing.
#[test]
fn a_piece_under_fading_glass_keeps_the_overlap() {
    let mut stack = GlassStack::new();
    occlude(&mut stack, rect(50, 20, 60, 100), 0, false);
    assert!(occlude(&mut stack, rect(0, 0, 200, 40), 0, true).is_empty());
}

/// A rounded piece claims its two bands and leaves its corners to whatever
/// is under it.
#[test]
fn a_rounded_piece_does_not_claim_its_corners() {
    let mut stack = GlassStack::new();
    occlude(&mut stack, rect(0, 0, 100, 100), 20, true);
    let occluders = occlude(&mut stack, rect(0, 0, 100, 100), 0, true);
    assert_eq!(occluders, vec![rect(21, 1, 58, 98), rect(1, 21, 98, 58)]);
    // The corner itself is claimed by neither band.
    assert!(!occluders.iter().any(|rect| rect.contains(Point::new(4, 4))));
}

#[test]
fn a_piece_smaller_than_its_own_curve_claims_nothing() {
    let mut stack = GlassStack::new();
    occlude(&mut stack, rect(0, 0, 4, 4), 2, true);
    assert!(occlude(&mut stack, rect(0, 0, 100, 100), 0, true).is_empty());
}

#[test]
fn a_frame_starts_with_a_clear_stack() {
    let mut stack = GlassStack::new();
    occlude(&mut stack, rect(0, 0, 200, 200), 0, true);
    stack.clear();
    assert!(occlude(&mut stack, rect(0, 0, 200, 40), 0, true).is_empty());
}
