use crownpositor::geometry::{Point, Rectangle, Size};
use crownpositor::rendering::scene::{skirt, GlassRecord};

fn rect(x: i32, y: i32, w: i32, h: i32) -> Rectangle {
    Rectangle::new(Point::new(x, y), Size::new(w, h))
}

#[test]
fn a_frame_retires_its_glass() {
    let mut glass = GlassRecord::new();
    glass.cover(rect(0, 0, 10, 10));

    glass.begin_frame();
    assert!(glass.drawn.is_empty());
    assert_eq!(glass.stale, vec![rect(0, 0, 10, 10)]);
}

#[test]
fn either_frame_lists_this_frames_glass_then_last_frames() {
    let mut glass = GlassRecord::new();
    glass.cover(rect(0, 160, 200, 40));
    glass.begin_frame();
    glass.cover(rect(0, 0, 200, 40));
    assert_eq!(glass.either_frame(), vec![rect(0, 0, 200, 40), rect(0, 160, 200, 40)]);
}

#[test]
fn the_skirt_reaches_a_radius_past_the_damage() {
    let bounds = rect(0, 0, 200, 200);
    assert_eq!(skirt(&[rect(50, 50, 20, 20)], 4, bounds), vec![rect(46, 46, 28, 28)]);
}

#[test]
fn the_skirt_stops_at_the_output() {
    let bounds = rect(0, 0, 200, 200);
    assert_eq!(skirt(&[rect(0, 180, 30, 20)], 10, bounds), vec![rect(0, 170, 40, 30)]);
    assert_eq!(skirt(&[rect(300, 300, 10, 10)], 10, bounds), vec![]);
}
