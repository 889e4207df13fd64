use crownpositor::geometry::{Point, Rectangle, Size};
use crownpositor::protocols::background_effect::{
    BlurRegionCachedState, RectangleKind, RegionAttributes,
};

fn region_of(rects: &[(RectangleKind, Rectangle)]) -> BlurRegionCachedState {
    BlurRegionCachedState { region: Some(RegionAttributes { rects: rects.to_vec() }) }
}

fn rect(x: i32, y: i32, w: i32, h: i32) -> Rectangle {
    Rectangle::new(Point::new(x, y), Size::new(w, h))
}

#[test]
fn no_region_means_no_blur() {
    let state = BlurRegionCachedState::default();
    assert_eq!(state.blur_bounds(Size::new(100, 100)), None);
}

#[test]
fn empty_region_means_no_blur() {
    // The protocol's initial state: an effect object exists, but its region
    // is empty — nothing should blur.
    let state = region_of(&[]);
    assert_eq!(state.blur_bounds(Size::new(100, 100)), None);
}

#[test]
fn bounds_are_clipped_to_the_surface() {
    let state = region_of(&[(RectangleKind::Add, rect(-50, -50, 400, 400))]);
    assert_eq!(state.blur_bounds(Size::new(100, 100)), Some(rect(0, 0, 100, 100)));
}

#[test]
fn bounds_merge_multiple_adds() {
    let state = region_of(&[
        (RectangleKind::Add, rect(0, 0, 10, 10)),
        (RectangleKind::Add, rect(90, 90, 10, 10)),
    ]);
    assert_eq!(state.blur_bounds(Size::new(100, 100)), Some(rect(0, 0, 100, 100)));
}

#[test]
fn subtract_only_region_blurs_nothing() {
    let state = region_of(&[(RectangleKind::Subtract, rect(0, 0, 10, 10))]);
    assert_eq!(state.blur_bounds(Size::new(100, 100)), None);
}

#[test]
fn a_region_off_the_surface_blurs_nothing() {
    let state = region_of(&[
        (RectangleKind::Add, rect(200, 200, 10, 10)),
        (RectangleKind::Subtract, rect(0, 0, 50, 50)),
    ]);
    assert_eq!(state.blur_bounds(Size::new(100, 100)), None);
}
